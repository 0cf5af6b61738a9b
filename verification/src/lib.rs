//! An encoder/decoder for a self-describing, tag-length-value binary format
//! that exchanges typed values through a caller-supplied byte buffer.
//!
//! Every value ("atom") is an 8-byte header `{size, type}` followed by `size`
//! body bytes, the whole record starting on an 8-byte boundary.  Writing is
//! incremental and bounds-checked: a [`frame::RootFrame`] performs bump-pointer
//! allocation over the buffer and keeps the size field of every enclosing
//! record consistent while nested records are appended.  Reading never trusts
//! the buffer: each shape's cast re-validates the bytes it is handed.

pub mod atom;
pub mod frame;
pub mod literal;
pub mod object;
pub mod ports;
pub mod scalar;
pub mod sequence;
pub mod string;
pub mod tuple;
pub mod unknown;
pub mod uris;
pub mod vector;
