//! Small shared building blocks: exact vertex attribute data, string
//! ordering and numerals, fresh identifiers, shader records, and the
//! CPU-side bookkeeping of the device buffer objects.

pub mod buffer;
pub mod data;
pub mod ident;
pub mod shader;
pub mod strings;
