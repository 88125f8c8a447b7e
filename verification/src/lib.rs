//! Parsing of a multipart/form-data body into a flat record of fields and
//! files that lives in an explicit heap of blocks, together with the matching
//! reclamation of such a record.

use vstd::prelude::*;

pub mod body;
pub mod boundary;
pub mod consumer;
pub mod grammar;
pub mod heap;
pub mod host;
pub mod layout;
pub mod part;
pub mod reader;
pub mod reclaim;
pub mod record;
pub mod transfer;

use vstd::utf8::decode_utf8;
use crate::body::{
    all_good, body_events, lemma_body_yields_form, lemma_every_part_counted, walked, PartModel,
};
use crate::boundary::{boundary_token, extract_boundary};
use crate::consumer::lemma_run_is_clean;
use crate::grammar::{body_ends, body_parts, read_form};
use crate::heap::{BlockModel, Heap, Memory, NULL};
use crate::host::RuntimeManager;
use crate::layout::{cells, form_at, is_record, reclaimed, transferred};
use crate::part::{FormModel, ParseError};
use crate::reclaim::reclaim;
use crate::record::FormData;
use crate::transfer::{empty_record, transfer};

verus! {

/// The body is absent, or no boundary token can be found on its first line.
pub open spec fn without_boundary(body: Option<&[u8]>) -> bool {
    match body {
        None => true,
        Some(bytes) => boundary_token(bytes@) is None,
    }
}

/// The parts that the grammar hands out for a body whose first line holds a
/// boundary token.
pub open spec fn parts_in(body: Seq<u8>) -> Seq<PartModel> {
    body_parts(body, decode_utf8(boundary_token(body).unwrap()))
}

/// Whether the grammar comes to an end after the parts of a body whose first
/// line holds a boundary token.
pub open spec fn ends_in(body: Seq<u8>) -> bool {
    body_ends(body, decode_utf8(boundary_token(body).unwrap()))
}

/// The form without fields and files.
pub open spec fn empty_form() -> FormModel {
    FormModel { fields: Seq::empty(), files: Seq::empty() }
}

/// What a parse returned, with the form that the record stands for in place
/// of its address.
pub open spec fn parsed(m: Memory, r: Result<usize, ParseError>) -> Result<
    FormModel,
    ParseError,
> {
    match r {
        Ok(root) => Ok(form_at(m, root)),
        Err(e) => Err(e),
    }
}

/// Parses `body` and hands the form over to `heap`; the address of its record
/// is returned.
///
/// An absent body, and a body without a boundary token on its first line,
/// give the record of the empty form: one block, both arrays null. No runtime
/// is needed for that, and `host` is left as it is.
///
/// Any other body is walked part by part on the runtime of `host`, which is
/// made first if `host` has none; where none can be made, the parse fails
/// with `NoRuntime`. What the walk gives is decided by the body alone. Where
/// every part is good and the grammar comes to an end, the record stands for
/// the form of the parts: a file for each part that declares a file name, a
/// value field for each other part, and both arrays are there, empty or not.
/// The first part that is not good fails the parse, with `MissingName`,
/// `BrokenChunk` or `InteriorNul`; good parts without an end fail it with
/// `BrokenStream`.
///
/// The value of a field is the content of its part where that is well-formed
/// UTF-8, and empty where it is not. A charset declared by the part is not
/// honoured, and a byte-order mark is not removed.
///
/// A parse that fails leaves the heap as it was. On success the heap has
/// gained exactly the blocks of the record, and the record must be taken back
/// with `free_multipart_form_data`.
///
/// The calling thread is blocked until the parse is done, so the call must
/// not come from inside an asynchronous task.
pub fn parse_multipart_form_data(
    host: &mut RuntimeManager,
    heap: &mut Heap,
    body: Option<&[u8]>,
) -> (r: Result<usize, ParseError>)
    ensures
        without_boundary(body) ==> r is Ok && *final(host) == *old(host),
        old(host).is_initialized() ==> *final(host) == *old(host) && !(r matches Err(
            ParseError::NoRuntime,
        )),
        r matches Err(ParseError::NoRuntime) ==> !old(host).is_initialized()
            && !final(host).is_initialized(),
        !without_boundary(body) && !(r matches Err(ParseError::NoRuntime)) ==> {
            &&& final(host).is_initialized()
            &&& walked(
                parts_in(body.unwrap()@),
                ends_in(body.unwrap()@),
                parsed(final(heap)@, r),
            )
            &&& r is Ok <==> all_good(parts_in(body.unwrap()@)) && ends_in(body.unwrap()@)
        },
        r matches Ok(root) ==> {
            &&& root != NULL
            &&& transferred(old(heap)@, final(heap)@, root, form_at(final(heap)@, root))
            &&& without_boundary(body) ==> form_at(final(heap)@, root) == empty_form()
                && final(heap)@[root] == BlockModel::Form(
                FormData { fields: NULL, field_count: 0, files: NULL, file_count: 0 },
            )
            &&& !without_boundary(body) ==> final(heap)@[root]->Form_0.fields != NULL
                && final(heap)@[root]->Form_0.files != NULL
        },
        r is Err ==> !without_boundary(body) && final(heap)@ == old(heap)@,
{
    let bytes = match body {
        None => {
            return Ok(empty_record(heap));
        },
        Some(bytes) => bytes,
    };
    let boundary = match extract_boundary(bytes) {
        None => {
            return Ok(empty_record(heap));
        },
        Some(boundary) => boundary,
    };
    if !host.init() {
        return Err(ParseError::NoRuntime);
    }
    match read_form(host, bytes, boundary) {
        Err(e) => Err(e),
        Ok(form) => {
            proof {
                lemma_body_yields_form(parts_in(bytes@));
                lemma_run_is_clean(body_events(parts_in(bytes@)));
            }
            transfer(heap, &form)
        },
    }
}

/// Takes the record at `form_data` back and releases every block that it
/// owns; the null address is accepted and nothing happens. The caller hands
/// in an address that `parse_multipart_form_data` returned and that was not
/// taken back before.
pub fn free_multipart_form_data(heap: &mut Heap, form_data: usize)
    requires
        form_data == NULL || is_record(old(heap)@, form_data),
    ensures
        form_data == NULL ==> final(heap)@ == old(heap)@,
        form_data != NULL ==> reclaimed(old(heap)@, final(heap)@, form_data),
{
    reclaim(heap, form_data)
}

/// Tears down the runtime of `host` if it has one. A host without a runtime
/// is left as it was.
pub fn shutdown_runtime(host: &mut RuntimeManager)
    ensures
        !final(host).is_initialized(),
        !old(host).is_initialized() ==> *final(host) == *old(host),
{
    host.shutdown()
}

/// A record that was parsed from a body has as many fields and files
/// together as the body has parts.
pub proof fn lemma_parsed_counts(
    before: Memory,
    after: Memory,
    root: usize,
    parts: Seq<PartModel>,
    ends: bool,
)
    requires
        transferred(before, after, root, form_at(after, root)),
        walked(parts, ends, Ok(form_at(after, root))),
    ensures
        after[root]->Form_0.field_count + after[root]->Form_0.file_count == parts.len(),
{
    lemma_every_part_counted(parts);
}

/// Taking a record back undoes its transfer: the memory is again what it was
/// before the record was made, so nothing is left behind and nothing else is
/// touched.
pub proof fn lemma_reclaim_undoes_transfer(
    before: Memory,
    with_record: Memory,
    after: Memory,
    root: usize,
    form: FormModel,
)
    requires
        transferred(before, with_record, root, form),
        reclaimed(with_record, after, root),
    ensures
        after == before,
{
}

/// After a record was taken back none of its addresses is live, so the
/// address is no record any more and cannot be taken back again.
pub proof fn lemma_reclaimed_is_gone(with_record: Memory, after: Memory, root: usize)
    requires
        is_record(with_record, root),
        reclaimed(with_record, after, root),
    ensures
        !is_record(after, root),
        forall|k: int|
            0 <= k < cells(with_record, root).len() ==> !after.dom().contains(
                #[trigger] cells(with_record, root)[k],
            ),
{
    let cs = cells(with_record, root);
    assert(cs[cs.len() - 1] == root);
}

/// Two rounds of transfer and reclamation, one after the other, do not touch
/// each other: after each round the memory is what it was at the start, and
/// the second record stands for its own form whatever the first one held.
pub proof fn lemma_rounds_are_independent(
    start: Memory,
    first: Memory,
    between: Memory,
    second: Memory,
    end: Memory,
    root1: usize,
    form1: FormModel,
    root2: usize,
    form2: FormModel,
)
    requires
        transferred(start, first, root1, form1),
        reclaimed(first, between, root1),
        transferred(between, second, root2, form2),
        reclaimed(second, end, root2),
    ensures
        between == start,
        end == start,
        form_at(second, root2) == form2,
{
}

} // verus!
