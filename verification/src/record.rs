//! The flat records that cross the boundary. A record refers to what it owns
//! by address and says how much of it there is.

use vstd::prelude::*;

verus! {

/// A value field: the addresses of its name and of its value, both
/// terminated strings.
#[derive(Clone, Copy, Debug, PartialEq, Eq, Structural)]
pub struct FormField {
    pub name: usize,
    pub value: usize,
}

/// A file: the addresses of its file name, of its media type and of the name
/// of its field, all terminated strings, and the address and the length of
/// its content.
#[derive(Clone, Copy, Debug, PartialEq, Eq, Structural)]
pub struct MultipartFile {
    pub filename: usize,
    pub content_type: usize,
    pub content: usize,
    pub content_length: usize,
    pub field_name: usize,
}

/// A form: the address and the length of its array of fields, and the address
/// and the length of its array of files. An array of length zero may be null.
#[derive(Clone, Copy, Debug, PartialEq, Eq, Structural)]
pub struct FormData {
    pub fields: usize,
    pub field_count: usize,
    pub files: usize,
    pub file_count: usize,
}

} // verus!
