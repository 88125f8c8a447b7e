//! What a part of a multipart body declares and carries, and what a parsed
//! form holds of it.

use vstd::prelude::*;
use vstd::utf8::valid_utf8;

verus! {

/// Why a parse was given up.
#[derive(Clone, Copy, Debug, PartialEq, Eq, Structural)]
pub enum ParseError {
    /// A part declares no name.
    MissingName,
    /// The next part could not be read.
    BrokenStream,
    /// A piece of a part's content could not be read.
    BrokenChunk,
    /// A name, a file name, a media type or a value holds a zero byte, so it
    /// cannot be handed over as a terminated string.
    InteriorNul,
    /// An event arrived that does not answer the pending request.
    OutOfTurn,
    /// No runtime is there to run the parse on, and none could be made.
    NoRuntime,
}

/// A value field: a name and its text.
pub struct FieldModel {
    pub name: Seq<u8>,
    pub value: Seq<u8>,
}

/// A file part: the field it came under, its declared file name, its media
/// type and its content.
pub struct FileModel {
    pub field_name: Seq<u8>,
    pub filename: Seq<u8>,
    pub content_type: Seq<u8>,
    pub content: Seq<u8>,
}

/// The attributes that a part declares in its headers.
pub struct HeaderModel {
    pub name: Option<Seq<u8>>,
    pub file_name: Option<Seq<u8>>,
    pub content_type: Option<Seq<u8>>,
}

/// A parsed form: its value fields and its files, each in the order of the
/// body.
pub struct FormModel {
    pub fields: Seq<FieldModel>,
    pub files: Seq<FileModel>,
}

/// A value field.
#[derive(Debug, PartialEq, Eq)]
pub struct TextField {
    pub name: Vec<u8>,
    pub value: Vec<u8>,
}

/// A file part.
#[derive(Debug, PartialEq, Eq)]
pub struct FilePart {
    pub field_name: Vec<u8>,
    pub filename: Vec<u8>,
    pub content_type: Vec<u8>,
    pub content: Vec<u8>,
}

/// The declared attributes of a part.
#[derive(Debug, PartialEq, Eq)]
pub struct PartHeader {
    pub name: Option<Vec<u8>>,
    pub file_name: Option<Vec<u8>>,
    pub content_type: Option<Vec<u8>>,
}

/// A parsed form.
#[derive(Debug, PartialEq, Eq)]
pub struct Form {
    pub fields: Vec<TextField>,
    pub files: Vec<FilePart>,
}

impl View for TextField {
    type V = FieldModel;

    open spec fn view(&self) -> FieldModel {
        FieldModel { name: self.name@, value: self.value@ }
    }
}

impl View for FilePart {
    type V = FileModel;

    open spec fn view(&self) -> FileModel {
        FileModel {
            field_name: self.field_name@,
            filename: self.filename@,
            content_type: self.content_type@,
            content: self.content@,
        }
    }
}

/// The bytes of an optional buffer.
pub open spec fn opt_bytes(v: Option<Vec<u8>>) -> Option<Seq<u8>> {
    match v {
        Some(b) => Some(b@),
        None => None,
    }
}

impl View for PartHeader {
    type V = HeaderModel;

    open spec fn view(&self) -> HeaderModel {
        HeaderModel {
            name: opt_bytes(self.name),
            file_name: opt_bytes(self.file_name),
            content_type: opt_bytes(self.content_type),
        }
    }
}

/// The value fields that a vector holds.
pub open spec fn field_models(v: Seq<TextField>) -> Seq<FieldModel> {
    v.map_values(|f: TextField| f@)
}

/// The files that a vector holds.
pub open spec fn file_models(v: Seq<FilePart>) -> Seq<FileModel> {
    v.map_values(|f: FilePart| f@)
}

impl View for Form {
    type V = FormModel;

    open spec fn view(&self) -> FormModel {
        FormModel { fields: field_models(self.fields@), files: file_models(self.files@) }
    }
}

/// No byte of `s` is zero.
pub open spec fn nul_free(s: Seq<u8>) -> bool {
    forall|i: int| 0 <= i < s.len() ==> s[i] != 0u8
}

/// The strings of a file can be handed over as terminated strings.
pub open spec fn file_texts_ok(f: FileModel) -> bool {
    nul_free(f.content_type) && nul_free(f.field_name) && nul_free(f.filename)
}

/// Every string of the form can be terminated: none holds a zero byte.
pub open spec fn clean(form: FormModel) -> bool {
    &&& forall|i: int|
        0 <= i < form.fields.len() ==> nul_free((#[trigger] form.fields[i]).name) && nul_free(
            form.fields[i].value,
        )
    &&& forall|i: int| 0 <= i < form.files.len() ==> file_texts_ok(#[trigger] form.files[i])
}

/// The text of a value with the given content: the content where it is
/// well-formed UTF-8, and nothing where it is not. The content is read as
/// UTF-8 whatever charset the part declares, and a byte-order mark at its
/// start is kept as part of the text.
pub open spec fn text_of(content: Seq<u8>) -> Seq<u8> {
    if valid_utf8(content) {
        content
    } else {
        Seq::empty()
    }
}

/// The media type of a file that declares none: `application/octet-stream`.
pub open spec fn generic_binary() -> Seq<u8> {
    seq![
        97u8, 112u8, 112u8, 108u8, 105u8, 99u8, 97u8, 116u8, 105u8, 111u8, 110u8, 47u8,
        111u8, 99u8, 116u8, 101u8, 116u8, 45u8, 115u8, 116u8, 114u8, 101u8, 97u8, 109u8,
    ]
}

/// `mime::APPLICATION_OCTET_STREAM` as it prints: the 24 bytes of
/// `application/octet-stream`.
#[verifier::external_body]
pub(crate) fn generic_binary_type() -> (r: Vec<u8>)
    ensures
        r@ == generic_binary(),
{
    mime::APPLICATION_OCTET_STREAM.to_string().into_bytes()
}

/// Whether no byte of `s` is zero.
pub fn is_nul_free(s: &[u8]) -> (b: bool)
    ensures
        b == nul_free(s@),
{
    let mut i: usize = 0;
    while i < s.len()
        invariant
            i <= s.len(),
            forall|j: int| 0 <= j < i ==> s@[j] != 0u8,
        decreases s.len() - i,
    {
        if s[i] == 0 {
            return false;
        }
        i += 1;
    }
    true
}

} // verus!
