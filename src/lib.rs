//! Fixed-width byte buffers for the fields of an encoded note, with
//! capability traits for reading, writing and building them.
pub mod buffer;
pub mod capability;
pub mod laws;

pub use buffer::NoteBytesData;
pub use capability::{
    NoteByteConcat, NoteByteReader, NoteByteWriter, NoteBytes, NoteBytesError,
};
