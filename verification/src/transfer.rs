//! Handing a parsed form over to the heap as a flat record. Every string and
//! buffer of the form becomes a block of its own.

use vstd::prelude::*;
use vstd::slice::slice_to_vec;
use crate::heap::{Block, BlockModel, Heap, Memory, NULL};
use crate::layout::{
    cells, field_at, field_ok, file_at, file_ok, form_at, grown, is_text, text_at, transferred,
};
use crate::part::{
    clean, file_texts_ok, is_nul_free, nul_free, FieldModel, FileModel, FilePart, Form, FormModel,
    ParseError, TextField,
};
use crate::record::{FormData, FormField, MultipartFile};

verus! {

/// Copies `text` into a new block as a terminated string.
pub fn store_text(heap: &mut Heap, text: &[u8]) -> (addr: usize)
    requires
        nul_free(text@),
    ensures
        addr == old(heap).top() + 1,
        final(heap).top() == addr,
        final(heap)@ == old(heap)@.insert(addr, BlockModel::Text(text@.push(0u8))),
        is_text(final(heap)@, addr),
        text_at(final(heap)@, addr) == text@,
{
    let mut raw = slice_to_vec(text);
    raw.push(0);
    heap.allocate(Block::Text(raw))
}

/// Copies `bytes` into a new block as they are.
pub fn store_bytes(heap: &mut Heap, bytes: &[u8]) -> (addr: usize)
    ensures
        addr == old(heap).top() + 1,
        final(heap).top() == addr,
        final(heap)@ == old(heap)@.insert(addr, BlockModel::Bytes(bytes@)),
{
    heap.allocate(Block::Bytes(slice_to_vec(bytes)))
}

/// Whether every string of `form` can be terminated.
pub fn is_clean(form: &Form) -> (b: bool)
    ensures
        b == clean(form@),
{
    let mut i: usize = 0;
    while i < form.fields.len()
        invariant
            i <= form.fields@.len(),
            forall|j: int|
                0 <= j < i ==> nul_free((#[trigger] form@.fields[j]).name) && nul_free(
                    form@.fields[j].value,
                ),
        decreases form.fields.len() - i,
    {
        let f = &form.fields[i];
        assert(form@.fields[i as int] == f@);
        if !is_nul_free(f.name.as_slice()) || !is_nul_free(f.value.as_slice()) {
            return false;
        }
        i += 1;
    }
    let mut k: usize = 0;
    while k < form.files.len()
        invariant
            k <= form.files@.len(),
            forall|j: int|
                0 <= j < form.fields@.len() ==> nul_free((#[trigger] form@.fields[j]).name)
                    && nul_free(form@.fields[j].value),
            forall|j: int| 0 <= j < k ==> file_texts_ok(#[trigger] form@.files[j]),
        decreases form.files.len() - k,
    {
        let f = &form.files[k];
        assert(form@.files[k as int] == f@);
        if !is_nul_free(f.content_type.as_slice()) || !is_nul_free(f.field_name.as_slice())
            || !is_nul_free(f.filename.as_slice()) {
            return false;
        }
        k += 1;
    }
    true
}

/// Stores name and value of each field as terminated strings, in turn, and
/// returns the records that refer to them.
fn store_fields(heap: &mut Heap, fields: &Vec<TextField>) -> (out: Vec<FormField>)
    requires
        forall|j: int|
            0 <= j < fields@.len() ==> nul_free((#[trigger] fields@[j]).name@) && nul_free(
                fields@[j].value@,
            ),
    ensures
        final(heap).top() == old(heap).top() + 2 * fields@.len(),
        out@.len() == fields@.len(),
        grown(old(heap)@, final(heap)@, old(heap).top(), final(heap).top()),
        forall|j: int|
            0 <= j < out@.len() ==> {
                &&& (#[trigger] out@[j]).name == old(heap).top() + 2 * j + 1
                &&& out@[j].value == old(heap).top() + 2 * j + 2
                &&& field_ok(final(heap)@, out@[j])
                &&& field_at(final(heap)@, out@[j]) == fields@[j]@
            },
{
    let mut out: Vec<FormField> = Vec::new();
    let mut i: usize = 0;
    while i < fields.len()
        invariant
            i <= fields@.len(),
            out@.len() == i,
            heap.top() == old(heap).top() + 2 * i,
            grown(old(heap)@, heap@, old(heap).top(), heap.top()),
            forall|j: int|
                0 <= j < fields@.len() ==> nul_free((#[trigger] fields@[j]).name@) && nul_free(
                    fields@[j].value@,
                ),
            forall|j: int|
                0 <= j < i ==> {
                    &&& (#[trigger] out@[j]).name == old(heap).top() + 2 * j + 1
                    &&& out@[j].value == old(heap).top() + 2 * j + 2
                    &&& field_ok(heap@, out@[j])
                    &&& field_at(heap@, out@[j]) == fields@[j]@
                },
        decreases fields.len() - i,
    {
        let field = &fields[i];
        proof {
            heap.lemma_live_in_range();
        }
        let name = store_text(heap, field.name.as_slice());
        let value = store_text(heap, field.value.as_slice());
        out.push(FormField { name, value });
        i += 1;
    }
    out
}

/// Stores file name, media type and field name of each file as terminated
/// strings and its content as a buffer, in turn, and returns the records that
/// refer to them.
fn store_files(heap: &mut Heap, files: &Vec<FilePart>) -> (out: Vec<MultipartFile>)
    requires
        forall|j: int| 0 <= j < files@.len() ==> file_texts_ok((#[trigger] files@[j])@),
    ensures
        final(heap).top() == old(heap).top() + 4 * files@.len(),
        out@.len() == files@.len(),
        grown(old(heap)@, final(heap)@, old(heap).top(), final(heap).top()),
        forall|j: int|
            0 <= j < out@.len() ==> {
                &&& (#[trigger] out@[j]).filename == old(heap).top() + 4 * j + 1
                &&& out@[j].content_type == old(heap).top() + 4 * j + 2
                &&& out@[j].field_name == old(heap).top() + 4 * j + 3
                &&& out@[j].content == old(heap).top() + 4 * j + 4
                &&& file_ok(final(heap)@, out@[j])
                &&& file_at(final(heap)@, out@[j]) == files@[j]@
            },
{
    let mut out: Vec<MultipartFile> = Vec::new();
    let mut i: usize = 0;
    while i < files.len()
        invariant
            i <= files@.len(),
            out@.len() == i,
            heap.top() == old(heap).top() + 4 * i,
            grown(old(heap)@, heap@, old(heap).top(), heap.top()),
            forall|j: int| 0 <= j < files@.len() ==> file_texts_ok((#[trigger] files@[j])@),
            forall|j: int|
                0 <= j < i ==> {
                    &&& (#[trigger] out@[j]).filename == old(heap).top() + 4 * j + 1
                    &&& out@[j].content_type == old(heap).top() + 4 * j + 2
                    &&& out@[j].field_name == old(heap).top() + 4 * j + 3
                    &&& out@[j].content == old(heap).top() + 4 * j + 4
                    &&& file_ok(heap@, out@[j])
                    &&& file_at(heap@, out@[j]) == files@[j]@
                },
        decreases files.len() - i,
    {
        let file = &files[i];
        proof {
            heap.lemma_live_in_range();
        }
        let filename = store_text(heap, file.filename.as_slice());
        let content_type = store_text(heap, file.content_type.as_slice());
        let field_name = store_text(heap, file.field_name.as_slice());
        let content = store_bytes(heap, file.content.as_slice());
        out.push(
            MultipartFile {
                filename,
                content_type,
                content,
                content_length: file.content.len(),
                field_name,
            },
        );
        i += 1;
    }
    out
}

/// A record whose blocks were laid out one after another above `base`, in the
/// order of `cells`, is a transferred record.
proof fn lemma_laid_out(
    h0: Memory,
    h: Memory,
    base: nat,
    fs: Seq<FormField>,
    ms: Seq<MultipartFile>,
    root: usize,
    form: FormModel,
)
    requires
        forall|a: usize| h0.dom().contains(a) ==> 0 < a <= base,
        grown(h0, h, base, root as nat),
        root == base + 2 * fs.len() + 4 * ms.len() + 3,
        h.dom().contains(root),
        h[root] == BlockModel::Form(
            FormData {
                fields: (base + 2 * fs.len() + 1) as usize,
                field_count: fs.len() as usize,
                files: (base + 2 * fs.len() + 4 * ms.len() + 2) as usize,
                file_count: ms.len() as usize,
            },
        ),
        h.dom().contains((base + 2 * fs.len() + 1) as usize),
        h[(base + 2 * fs.len() + 1) as usize] == BlockModel::Fields(fs),
        h.dom().contains((base + 2 * fs.len() + 4 * ms.len() + 2) as usize),
        h[(base + 2 * fs.len() + 4 * ms.len() + 2) as usize] == BlockModel::Files(ms),
        form.fields.len() == fs.len(),
        form.files.len() == ms.len(),
        forall|j: int|
            0 <= j < fs.len() ==> {
                &&& (#[trigger] fs[j]).name == base + 2 * j + 1
                &&& fs[j].value == base + 2 * j + 2
                &&& field_ok(h, fs[j])
                &&& field_at(h, fs[j]) == form.fields[j]
            },
        forall|j: int|
            0 <= j < ms.len() ==> {
                &&& (#[trigger] ms[j]).filename == base + 2 * fs.len() + 4 * j + 2
                &&& ms[j].content_type == base + 2 * fs.len() + 4 * j + 3
                &&& ms[j].field_name == base + 2 * fs.len() + 4 * j + 4
                &&& ms[j].content == base + 2 * fs.len() + 4 * j + 5
                &&& file_ok(h, ms[j])
                &&& file_at(h, ms[j]) == form.files[j]
            },
    ensures
        transferred(h0, h, root, form),
        cells(h, root).len() == root - base,
{
    let cs = cells(h, root);
    assert forall|k: int| 0 <= k < cs.len() implies #[trigger] cs[k] == base + 1 + k by {}
    assert(form_at(h, root).fields =~= form.fields);
    assert(form_at(h, root).files =~= form.files);
    assert forall|a: usize| cs.to_set().contains(a) <==> base < a <= root by {
        if base < a <= root {
            assert(cs[a - base - 1] == a);
        }
    }
    assert(h.remove_keys(cs.to_set()) =~= h0);
}

/// Hands `form` over to the heap as a flat record and returns the address of
/// the record. Every string becomes a terminated string in a block of its
/// own, every content a buffer in a block of its own, and the two arrays and
/// the record three more blocks; the arrays are there even when they are
/// empty. A form with a zero byte in one of its strings is refused, and the
/// heap is then left as it was.
pub fn transfer(heap: &mut Heap, form: &Form) -> (r: Result<usize, ParseError>)
    ensures
        r is Ok <==> clean(form@),
        r matches Err(e) ==> e == ParseError::InteriorNul && final(heap)@ == old(heap)@,
        r matches Ok(root) ==> {
            &&& root != NULL
            &&& transferred(old(heap)@, final(heap)@, root, form@)
            &&& final(heap)@[root]->Form_0.fields != NULL
            &&& final(heap)@[root]->Form_0.files != NULL
            &&& final(heap).top() == root
            &&& cells(final(heap)@, root).len() == root - old(heap).top()
        },
{
    if !is_clean(form) {
        return Err(ParseError::InteriorNul);
    }
    proof {
        heap.lemma_live_in_range();
    }
    let ghost h0 = heap@;
    let ghost base = heap.top();
    assert forall|j: int| 0 <= j < form.fields@.len() implies nul_free(
        (#[trigger] form.fields@[j]).name@,
    ) && nul_free(form.fields@[j].value@) by {
        assert(form@.fields[j] == form.fields@[j]@);
    }
    assert forall|j: int| 0 <= j < form.files@.len() implies file_texts_ok(
        (#[trigger] form.files@[j])@,
    ) by {
        assert(form@.files[j] == form.files@[j]@);
    }
    let fs = store_fields(heap, &form.fields);
    let ghost fsv = fs@;
    let field_count = fs.len();
    let fields = heap.allocate(Block::Fields(fs));
    let ghost h1 = heap@;
    assert(grown(h0, h1, base, heap.top()));
    let ms = store_files(heap, &form.files);
    let ghost msv = ms@;
    let file_count = ms.len();
    let files = heap.allocate(Block::Files(ms));
    let root = heap.allocate(Block::Form(FormData { fields, field_count, files, file_count }));
    proof {
        assert(h1.dom().contains(fields) && h1[fields] == BlockModel::Fields(fsv));
        assert forall|j: int| 0 <= j < fsv.len() implies field_ok(heap@, #[trigger] fsv[j])
            && field_at(heap@, fsv[j]) == form@.fields[j] by {
            assert(field_ok(h1, fsv[j]));
        }
        lemma_laid_out(h0, heap@, base, fsv, msv, root, form@);
    }
    Ok(root)
}

/// Puts the record of a form without fields and files into the heap: one
/// block, with both arrays null and both counts zero.
pub fn empty_record(heap: &mut Heap) -> (root: usize)
    ensures
        transferred(
            old(heap)@,
            final(heap)@,
            root,
            FormModel { fields: Seq::empty(), files: Seq::empty() },
        ),
        final(heap)@[root] == BlockModel::Form(
            FormData { fields: NULL, field_count: 0, files: NULL, file_count: 0 },
        ),
        final(heap)@ == old(heap)@.insert(root, final(heap)@[root]),
        final(heap).top() == root,
        root != NULL,
{
    let root = heap.allocate(
        Block::Form(FormData { fields: NULL, field_count: 0, files: NULL, file_count: 0 }),
    );
    proof {
        let cs = cells(heap@, root);
        assert(form_at(heap@, root).fields =~= Seq::<FieldModel>::empty());
        assert(form_at(heap@, root).files =~= Seq::<FileModel>::empty());
        assert forall|a: usize| cs.to_set().contains(a) <==> a == root by {
            if a == root {
                assert(cs[0] == a);
            }
        }
        assert(heap@.remove_keys(cs.to_set()) =~= old(heap)@);
    }
    root
}

} // verus!
