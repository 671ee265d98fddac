//! The `source` element of an RSS item: its typed value, and the pair of
//! operations that read it from an XML element stream and write it back.

pub mod extract;
pub mod markup;
pub mod source;
