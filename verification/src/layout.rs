//! How a form record lies in memory: what the record, its arrays and their
//! strings and buffers must look like, which addresses the record owns, and
//! which form it stands for.

use vstd::prelude::*;
use crate::heap::{Memory, NULL};
use crate::part::{nul_free, FieldModel, FileModel, FormModel};
use crate::record::{FormData, FormField, MultipartFile};

verus! {

/// `raw` is a terminated string: it ends in a zero byte and holds no other.
pub open spec fn terminated(raw: Seq<u8>) -> bool {
    raw.len() > 0 && raw.last() == 0u8 && nul_free(raw.drop_last())
}

/// A terminated string lives at `a`.
pub open spec fn is_text(m: Memory, a: usize) -> bool {
    m.dom().contains(a) && m[a] is Text && terminated(m[a]->Text_0)
}

/// The string at `a`, without its terminator.
pub open spec fn text_at(m: Memory, a: usize) -> Seq<u8> {
    m[a]->Text_0.drop_last()
}

/// A buffer of `len` bytes lives at `a`.
pub open spec fn is_bytes(m: Memory, a: usize, len: usize) -> bool {
    m.dom().contains(a) && m[a] is Bytes && m[a]->Bytes_0.len() == len
}

/// The field records of a form record; none where the array is null.
pub open spec fn field_array(m: Memory, fd: FormData) -> Seq<FormField> {
    if fd.fields == NULL {
        Seq::empty()
    } else {
        m[fd.fields]->Fields_0
    }
}

/// The file records of a form record; none where the array is null.
pub open spec fn file_array(m: Memory, fd: FormData) -> Seq<MultipartFile> {
    if fd.files == NULL {
        Seq::empty()
    } else {
        m[fd.files]->Files_0
    }
}

/// The addresses that field records own: name and value of each, in turn.
pub open spec fn field_cells(fs: Seq<FormField>) -> Seq<usize> {
    Seq::new(
        2 * fs.len(),
        |k: int|
            if k % 2 == 0 {
                fs[k / 2].name
            } else {
                fs[k / 2].value
            },
    )
}

/// The addresses that file records own: file name, media type, field name
/// and content of each, in turn.
pub open spec fn file_cells(ms: Seq<MultipartFile>) -> Seq<usize> {
    Seq::new(
        4 * ms.len(),
        |k: int|
            if k % 4 == 0 {
                ms[k / 4].filename
            } else if k % 4 == 1 {
                ms[k / 4].content_type
            } else if k % 4 == 2 {
                ms[k / 4].field_name
            } else {
                ms[k / 4].content
            },
    )
}

/// The address of an array, unless it is null.
pub open spec fn array_cell(a: usize) -> Seq<usize> {
    if a == NULL {
        Seq::empty()
    } else {
        seq![a]
    }
}

/// Every address that the record at `root` owns, in the order in which the
/// record is taken apart: the strings of the fields, the array of fields, the
/// strings and buffers of the files, the array of files, the record itself.
pub open spec fn cells(m: Memory, root: usize) -> Seq<usize> {
    let fd = m[root]->Form_0;
    field_cells(field_array(m, fd)) + array_cell(fd.fields) + file_cells(file_array(m, fd))
        + array_cell(fd.files) + seq![root]
}

/// The array of fields of `fd` is as long as `fd` says, and null only if empty.
pub open spec fn field_array_ok(m: Memory, fd: FormData) -> bool {
    if fd.fields == NULL {
        fd.field_count == 0
    } else {
        m.dom().contains(fd.fields) && m[fd.fields] is Fields && m[fd.fields]->Fields_0.len()
            == fd.field_count
    }
}

/// The array of files of `fd` is as long as `fd` says, and null only if empty.
pub open spec fn file_array_ok(m: Memory, fd: FormData) -> bool {
    if fd.files == NULL {
        fd.file_count == 0
    } else {
        m.dom().contains(fd.files) && m[fd.files] is Files && m[fd.files]->Files_0.len()
            == fd.file_count
    }
}

/// What a field record refers to is there.
pub open spec fn field_ok(m: Memory, f: FormField) -> bool {
    is_text(m, f.name) && is_text(m, f.value)
}

/// What a file record refers to is there, and the content is as long as the
/// record says.
pub open spec fn file_ok(m: Memory, f: MultipartFile) -> bool {
    is_text(m, f.filename) && is_text(m, f.content_type) && is_text(m, f.field_name) && is_bytes(
        m,
        f.content,
        f.content_length,
    )
}

/// A form record can be read at `root`: the record is there, its two arrays
/// have the lengths it states, and every string and buffer that they refer to
/// is there.
pub open spec fn readable(m: Memory, root: usize) -> bool {
    &&& m.dom().contains(root)
    &&& m[root] is Form
    &&& field_array_ok(m, m[root]->Form_0)
    &&& file_array_ok(m, m[root]->Form_0)
    &&& forall|i: int|
        0 <= i < field_array(m, m[root]->Form_0).len() ==> field_ok(
            m,
            #[trigger] field_array(m, m[root]->Form_0)[i],
        )
    &&& forall|i: int|
        0 <= i < file_array(m, m[root]->Form_0).len() ==> file_ok(
            m,
            #[trigger] file_array(m, m[root]->Form_0)[i],
        )
}

/// A whole form record lives at `root`: it can be read, and no two of its
/// blocks share an address.
pub open spec fn is_record(m: Memory, root: usize) -> bool {
    readable(m, root) && cells(m, root).no_duplicates()
}

/// The value field that a field record stands for.
pub open spec fn field_at(m: Memory, f: FormField) -> FieldModel {
    FieldModel { name: text_at(m, f.name), value: text_at(m, f.value) }
}

/// The file that a file record stands for.
pub open spec fn file_at(m: Memory, f: MultipartFile) -> FileModel {
    FileModel {
        field_name: text_at(m, f.field_name),
        filename: text_at(m, f.filename),
        content_type: text_at(m, f.content_type),
        content: m[f.content]->Bytes_0,
    }
}

/// The form that the record at `root` stands for.
pub open spec fn form_at(m: Memory, root: usize) -> FormModel {
    let fd = m[root]->Form_0;
    FormModel {
        fields: field_array(m, fd).map_values(|f: FormField| field_at(m, f)),
        files: file_array(m, fd).map_values(|f: MultipartFile| file_at(m, f)),
    }
}

/// `after` is `before` with the record at `root` added: the record stands for
/// `form`, each of its blocks is new, and all other blocks are as they were.
pub open spec fn transferred(before: Memory, after: Memory, root: usize, form: FormModel) -> bool {
    &&& is_record(after, root)
    &&& form_at(after, root) == form
    &&& forall|k: int|
        0 <= k < cells(after, root).len() ==> !before.dom().contains(
            #[trigger] cells(after, root)[k],
        )
    &&& after.remove_keys(cells(after, root).to_set()) == before
}

/// `after` is `before` without the blocks of the record at `root`.
pub open spec fn reclaimed(before: Memory, after: Memory, root: usize) -> bool {
    after == before.remove_keys(cells(before, root).to_set())
}

/// `after` holds every block of `before` unchanged, and beyond them only
/// blocks at addresses above `lo` and up to `hi`.
pub open spec fn grown(before: Memory, after: Memory, lo: nat, hi: nat) -> bool {
    &&& forall|a: usize| #[trigger]
        before.dom().contains(a) ==> after.dom().contains(a) && after[a] == before[a]
    &&& forall|a: usize| #[trigger]
        after.dom().contains(a) ==> before.dom().contains(a) || lo < a <= hi
}

} // verus!
