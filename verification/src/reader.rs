//! Reading a record as its owner on the far side does, and telling whether a
//! whole record lives at an address.

use vstd::prelude::*;
use vstd::slice::{slice_subrange, slice_to_vec};
use crate::heap::{Block, Heap, NULL};
use crate::layout::{
    cells, field_array, field_at, field_cells, field_ok, file_array, file_at, file_cells, file_ok,
    form_at, is_record, is_text, readable, text_at,
};
use crate::part::{is_nul_free, FilePart, Form, TextField};
use crate::record::{FormData, FormField, MultipartFile};

verus! {

/// The form record at `root`.
pub(crate) fn form_record(heap: &Heap, root: usize) -> (fd: FormData)
    requires
        heap@.dom().contains(root),
        heap@[root] is Form,
    ensures
        fd == heap@[root]->Form_0,
{
    match heap.get(root) {
        Some(Block::Form(fd)) => *fd,
        _ => vstd::pervasive::unreached(),
    }
}

/// The `i`-th record of the array of fields at `array`.
pub(crate) fn field_record(heap: &Heap, array: usize, i: usize) -> (f: FormField)
    requires
        heap@.dom().contains(array),
        heap@[array] is Fields,
        i < heap@[array]->Fields_0.len(),
    ensures
        f == heap@[array]->Fields_0[i as int],
{
    match heap.get(array) {
        Some(Block::Fields(fs)) => fs[i],
        _ => vstd::pervasive::unreached(),
    }
}

/// The `i`-th record of the array of files at `array`.
pub(crate) fn file_record(heap: &Heap, array: usize, i: usize) -> (f: MultipartFile)
    requires
        heap@.dom().contains(array),
        heap@[array] is Files,
        i < heap@[array]->Files_0.len(),
    ensures
        f == heap@[array]->Files_0[i as int],
{
    match heap.get(array) {
        Some(Block::Files(ms)) => ms[i],
        _ => vstd::pervasive::unreached(),
    }
}

/// The string at `addr` without its terminator, if a terminated string lives
/// there.
pub fn read_text(heap: &Heap, addr: usize) -> (r: Option<Vec<u8>>)
    ensures
        r is Some <==> is_text(heap@, addr),
        r matches Some(t) ==> t@ == text_at(heap@, addr),
{
    match heap.get(addr) {
        Some(Block::Text(raw)) => {
            let n = raw.len();
            if n == 0 || raw[n - 1] != 0 {
                return None;
            }
            let text = slice_subrange(raw.as_slice(), 0, n - 1);
            if is_nul_free(text) {
                Some(slice_to_vec(text))
            } else {
                None
            }
        },
        _ => None,
    }
}

/// The value field that `f` stands for, if both of its strings are there.
pub fn read_field(heap: &Heap, f: &FormField) -> (r: Option<TextField>)
    ensures
        r is Some <==> field_ok(heap@, *f),
        r matches Some(t) ==> t@ == field_at(heap@, *f),
{
    match read_text(heap, f.name) {
        None => None,
        Some(name) => match read_text(heap, f.value) {
            None => None,
            Some(value) => Some(TextField { name, value }),
        },
    }
}

/// The file that `f` stands for, if its strings and its content are there and
/// the content has the stated length.
pub fn read_file(heap: &Heap, f: &MultipartFile) -> (r: Option<FilePart>)
    ensures
        r is Some <==> file_ok(heap@, *f),
        r matches Some(t) ==> t@ == file_at(heap@, *f),
{
    let filename = match read_text(heap, f.filename) {
        None => {
            return None;
        },
        Some(t) => t,
    };
    let content_type = match read_text(heap, f.content_type) {
        None => {
            return None;
        },
        Some(t) => t,
    };
    let field_name = match read_text(heap, f.field_name) {
        None => {
            return None;
        },
        Some(t) => t,
    };
    match heap.get(f.content) {
        Some(Block::Bytes(b)) => {
            if b.len() == f.content_length {
                Some(
                    FilePart {
                        field_name,
                        filename,
                        content_type,
                        content: slice_to_vec(b.as_slice()),
                    },
                )
            } else {
                None
            }
        },
        _ => None,
    }
}

/// Reads the record at `root` as its owner on the far side would: the form
/// record, then each array by its stated length, then every string up to its
/// terminator and every content by its stated length. `None` where any of
/// these is not there.
pub fn read_record(heap: &Heap, root: usize) -> (r: Option<Form>)
    ensures
        r is Some <==> readable(heap@, root),
        r matches Some(form) ==> form@ == form_at(heap@, root),
{
    let fd = match heap.get(root) {
        Some(Block::Form(fd)) => *fd,
        _ => {
            return None;
        },
    };
    let ghost fs = field_array(heap@, fd);
    let ghost ms = file_array(heap@, fd);
    let mut fields: Vec<TextField> = Vec::new();
    if fd.fields == NULL {
        if fd.field_count != 0 {
            return None;
        }
    } else {
        match heap.get(fd.fields) {
            Some(Block::Fields(array)) => {
                if array.len() != fd.field_count {
                    return None;
                }
                let mut i: usize = 0;
                while i < array.len()
                    invariant
                        i <= array@.len(),
                        array@ == fs,
                        fs == field_array(heap@, heap@[root]->Form_0),
                        fields@.len() == i,
                        forall|j: int|
                            0 <= j < i ==> field_ok(heap@, #[trigger] fs[j]) && fields@[j]@
                                == field_at(heap@, fs[j]),
                    decreases array.len() - i,
                {
                    match read_field(heap, &array[i]) {
                        None => {
                            return None;
                        },
                        Some(f) => {
                            fields.push(f);
                        },
                    }
                    i += 1;
                }
            },
            _ => {
                return None;
            },
        }
    }
    let mut files: Vec<FilePart> = Vec::new();
    if fd.files == NULL {
        if fd.file_count != 0 {
            return None;
        }
    } else {
        match heap.get(fd.files) {
            Some(Block::Files(array)) => {
                if array.len() != fd.file_count {
                    return None;
                }
                let mut i: usize = 0;
                while i < array.len()
                    invariant
                        i <= array@.len(),
                        array@ == ms,
                        ms == file_array(heap@, heap@[root]->Form_0),
                        files@.len() == i,
                        forall|j: int|
                            0 <= j < i ==> file_ok(heap@, #[trigger] ms[j]) && files@[j]@
                                == file_at(heap@, ms[j]),
                    decreases array.len() - i,
                {
                    match read_file(heap, &array[i]) {
                        None => {
                            return None;
                        },
                        Some(f) => {
                            files.push(f);
                        },
                    }
                    i += 1;
                }
            },
            _ => {
                return None;
            },
        }
    }
    let form = Form { fields, files };
    assert(form@.fields =~= form_at(heap@, root).fields);
    assert(form@.files =~= form_at(heap@, root).files);
    Some(form)
}

/// Whether no address occurs twice in `addrs`.
pub fn all_distinct(addrs: &[usize]) -> (b: bool)
    ensures
        b == addrs@.no_duplicates(),
{
    let mut i: usize = 0;
    while i < addrs.len()
        invariant
            i <= addrs@.len(),
            forall|a: int, b: int| 0 <= a < i && a < b < addrs@.len() ==> addrs@[a] != addrs@[b],
        decreases addrs.len() - i,
    {
        let mut j: usize = i + 1;
        while j < addrs.len()
            invariant
                i < j <= addrs@.len(),
                forall|b: int| i < b < j ==> addrs@[i as int] != addrs@[b],
            decreases addrs.len() - j,
        {
            if addrs[i] == addrs[j] {
                return false;
            }
            j += 1;
        }
        i += 1;
    }
    true
}

/// The addresses that the readable record at `root` owns, in the order of
/// `cells`.
pub fn record_cells(heap: &Heap, root: usize) -> (out: Vec<usize>)
    requires
        readable(heap@, root),
    ensures
        out@ == cells(heap@, root),
{
    let fd = form_record(heap, root);
    let ghost fs = field_array(heap@, fd);
    let ghost ms = file_array(heap@, fd);
    let mut out: Vec<usize> = Vec::new();
    let mut i: usize = 0;
    while i < fd.field_count
        invariant
            i <= fd.field_count,
            readable(heap@, root),
            fd == heap@[root]->Form_0,
            fs == field_array(heap@, fd),
            out@.len() == 2 * i,
            forall|k: int| 0 <= k < 2 * i ==> out@[k] == field_cells(fs)[k],
        decreases fd.field_count - i,
    {
        let f = field_record(heap, fd.fields, i);
        out.push(f.name);
        out.push(f.value);
        i += 1;
    }
    if fd.fields != NULL {
        out.push(fd.fields);
    }
    let ghost head = out@;
    let mut j: usize = 0;
    while j < fd.file_count
        invariant
            j <= fd.file_count,
            readable(heap@, root),
            fd == heap@[root]->Form_0,
            ms == file_array(heap@, fd),
            out@.len() == head.len() + 4 * j,
            forall|k: int| 0 <= k < head.len() ==> out@[k] == head[k],
            forall|k: int| 0 <= k < 4 * j ==> out@[head.len() + k] == file_cells(ms)[k],
        decreases fd.file_count - j,
    {
        let f = file_record(heap, fd.files, j);
        out.push(f.filename);
        out.push(f.content_type);
        out.push(f.field_name);
        out.push(f.content);
        j += 1;
    }
    assert(out@ =~= head + file_cells(ms));
    if fd.files != NULL {
        out.push(fd.files);
    }
    out.push(root);
    out
}

/// Whether a whole form record lives at `root`, so that it may be taken back.
pub fn is_whole_record(heap: &Heap, root: usize) -> (b: bool)
    ensures
        b == is_record(heap@, root),
{
    match read_record(heap, root) {
        None => false,
        Some(_) => all_distinct(record_cells(heap, root).as_slice()),
    }
}

} // verus!
