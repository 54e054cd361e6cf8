//! The four-byte chunk type code of a PNG-style container, with the
//! flags that the case of its letters encodes.

pub mod ascii;
pub mod chunk_type;
pub mod decimal;
pub mod order;
pub mod text;

pub use crate::chunk_type::{ChunkType, ChunkTypeError};
