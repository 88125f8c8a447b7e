//! A body seen as a sequence of parts: the events that it gives rise to, the
//! form that it holds, what a walk over it returns, and the proof that the
//! consumer arrives at that form.

use vstd::prelude::*;
use crate::consumer::{
    field_from, file_from, opened, outcome, run, run_from, start, step, texts_ok, ConsumerModel,
    EventModel, OpenPartModel, PhaseModel,
};
use crate::part::{
    generic_binary, text_of, FieldModel, FileModel, FormModel, HeaderModel, ParseError,
};

verus! {

/// A part as the grammar reports it: what it declares, the pieces in which
/// its content arrives, and whether the pieces end rather than fail.
pub struct PartModel {
    pub header: HeaderModel,
    pub chunks: Seq<Seq<u8>>,
    pub chunks_end: bool,
}

/// The part declares a file name.
pub open spec fn declares_file(p: PartModel) -> bool {
    p.header.file_name is Some
}

/// The pieces of `chunks` one after another.
pub open spec fn joined(chunks: Seq<Seq<u8>>) -> Seq<u8>
    decreases chunks.len(),
{
    if chunks.len() == 0 {
        Seq::empty()
    } else {
        joined(chunks.drop_last()) + chunks.last()
    }
}

/// The sum of the lengths of the pieces of `chunks`.
pub open spec fn total_len(chunks: Seq<Seq<u8>>) -> nat
    decreases chunks.len(),
{
    if chunks.len() == 0 {
        0
    } else {
        total_len(chunks.drop_last()) + chunks.last().len()
    }
}

/// A part that declares a name, with all of its content gathered.
pub open spec fn whole(p: PartModel) -> OpenPartModel {
    OpenPartModel { content: joined(p.chunks), ..opened(p.header).unwrap() }
}

/// The file that a part which declares a name and a file name stands for.
pub open spec fn file_of(p: PartModel) -> FileModel {
    file_from(whole(p), whole(p).file.unwrap())
}

/// The value field that a part which declares a name and no file name stands
/// for.
pub open spec fn field_of(p: PartModel) -> FieldModel {
    field_from(whole(p))
}

/// The part can be taken into a form: it declares a name, and none of its
/// strings holds a zero byte. The content of a file may hold any byte.
pub open spec fn sound(p: PartModel) -> bool {
    p.header.name is Some && texts_ok(whole(p))
}

/// The part is sound and its content can be read to its end.
pub open spec fn good(p: PartModel) -> bool {
    sound(p) && p.chunks_end
}

/// Every part of `parts` is good.
pub open spec fn all_good(parts: Seq<PartModel>) -> bool {
    forall|i: int| 0 <= i < parts.len() ==> good(#[trigger] parts[i])
}

/// The part at `i` is the first of `parts` that is not good.
pub open spec fn first_bad(parts: Seq<PartModel>, i: int) -> bool {
    0 <= i < parts.len() && all_good(parts.take(i)) && !good(parts[i])
}

/// The files among `parts`, in their order.
pub open spec fn files_of(parts: Seq<PartModel>) -> Seq<FileModel>
    decreases parts.len(),
{
    if parts.len() == 0 {
        Seq::empty()
    } else if declares_file(parts.last()) {
        files_of(parts.drop_last()).push(file_of(parts.last()))
    } else {
        files_of(parts.drop_last())
    }
}

/// The value fields among `parts`, in their order.
pub open spec fn fields_of(parts: Seq<PartModel>) -> Seq<FieldModel>
    decreases parts.len(),
{
    if parts.len() == 0 {
        Seq::empty()
    } else if declares_file(parts.last()) {
        fields_of(parts.drop_last())
    } else {
        fields_of(parts.drop_last()).push(field_of(parts.last()))
    }
}

/// The form that `parts` hold.
pub open spec fn form_of(parts: Seq<PartModel>) -> FormModel {
    FormModel { fields: fields_of(parts), files: files_of(parts) }
}

/// The consumer between parts, after it has taken in `parts`.
pub open spec fn between(parts: Seq<PartModel>) -> ConsumerModel {
    ConsumerModel {
        fields: fields_of(parts),
        files: files_of(parts),
        phase: PhaseModel::AwaitPart,
    }
}

/// The part at `i` fails a walk with `e`: with `MissingName` if it declares no
/// name, else with `BrokenChunk` if its content cannot be read to its end,
/// else with `InteriorNul`, for the zero byte in one of its strings.
pub open spec fn fails_with(parts: Seq<PartModel>, i: int, e: ParseError) -> bool {
    match e {
        ParseError::MissingName => parts[i].header.name is None,
        ParseError::BrokenChunk => parts[i].header.name is Some && !parts[i].chunks_end,
        ParseError::InteriorNul => parts[i].header.name is Some && parts[i].chunks_end,
        _ => false,
    }
}

/// `r` is what a walk returns over a body that holds `parts` and that ends
/// after them (`ends`) or fails after them.
///
/// Good parts and an end give the form of the parts. Good parts without an
/// end give `BrokenStream`. Otherwise the first part that is not good decides
/// the error.
pub open spec fn walked(parts: Seq<PartModel>, ends: bool, r: Result<FormModel, ParseError>)
    -> bool {
    match r {
        Ok(form) => all_good(parts) && ends && form == form_of(parts),
        Err(ParseError::BrokenStream) => all_good(parts) && !ends,
        Err(e) => exists|i: int| #[trigger] first_bad(parts, i) && fails_with(parts, i, e),
    }
}

/// One event for each piece of `chunks`.
pub open spec fn chunk_events(chunks: Seq<Seq<u8>>) -> Seq<EventModel> {
    chunks.map_values(|c: Seq<u8>| EventModel::Chunk(c))
}

/// The events of one part: its header, its pieces, and their end or their
/// failure.
pub open spec fn part_events(p: PartModel) -> Seq<EventModel> {
    seq![EventModel::Part(p.header)] + chunk_events(p.chunks) + seq![
        if p.chunks_end {
            EventModel::NoMoreChunks
        } else {
            EventModel::ChunkFailed
        },
    ]
}

/// The events of `parts`, one part after another.
pub open spec fn parts_events(parts: Seq<PartModel>) -> Seq<EventModel>
    decreases parts.len(),
{
    if parts.len() == 0 {
        Seq::empty()
    } else {
        parts_events(parts.drop_last()) + part_events(parts.last())
    }
}

/// The events of a whole body that ends after its parts.
pub open spec fn body_events(parts: Seq<PartModel>) -> Seq<EventModel> {
    parts_events(parts).push(EventModel::NoMoreParts)
}

/// Running two sequences of events one after the other is running their
/// concatenation.
pub proof fn lemma_run_concat(s: ConsumerModel, a: Seq<EventModel>, b: Seq<EventModel>)
    ensures
        run_from(s, a + b) == run_from(run_from(s, a), b),
    decreases b.len(),
{
    if b.len() > 0 {
        lemma_run_concat(s, a, b.drop_last());
        assert((a + b).drop_last() =~= a + b.drop_last());
    }
}

/// A single event is one step.
pub proof fn lemma_run_one(s: ConsumerModel, e: EventModel)
    ensures
        run_from(s, seq![e]) == step(s, e),
{
    assert(run_from(s, seq![e].drop_last()) == s);
}

/// The length of the joined pieces is the sum of their lengths.
pub proof fn lemma_joined_len(chunks: Seq<Seq<u8>>)
    ensures
        joined(chunks).len() == total_len(chunks),
    decreases chunks.len(),
{
    if chunks.len() > 0 {
        lemma_joined_len(chunks.drop_last());
    }
}

/// Inside a part, the pieces that arrive are appended to its content in
/// their order, byte for byte, and nothing else changes.
pub proof fn lemma_chunks_accumulate(s: ConsumerModel, part: OpenPartModel, chunks: Seq<Seq<u8>>)
    requires
        s.phase == PhaseModel::InPart(part),
    ensures
        run_from(s, chunk_events(chunks)) == (ConsumerModel {
            phase: PhaseModel::InPart(
                OpenPartModel { content: part.content + joined(chunks), ..part },
            ),
            ..s
        }),
    decreases chunks.len(),
{
    if chunks.len() > 0 {
        lemma_chunks_accumulate(s, part, chunks.drop_last());
        assert(chunk_events(chunks).drop_last() =~= chunk_events(chunks.drop_last()));
        assert((part.content + joined(chunks.drop_last())) + chunks.last() =~= part.content
            + joined(chunks));
    }
}

/// Between parts, the events of a good part add its file to the files, or
/// its value field to the fields, and leave the consumer between parts.
pub proof fn lemma_part_consumed(s: ConsumerModel, p: PartModel)
    requires
        s.phase == PhaseModel::AwaitPart,
        good(p),
    ensures
        run_from(s, part_events(p)) == if declares_file(p) {
            ConsumerModel { files: s.files.push(file_of(p)), ..s }
        } else {
            ConsumerModel { fields: s.fields.push(field_of(p)), ..s }
        },
{
    let head = seq![EventModel::Part(p.header)];
    let tail = seq![EventModel::NoMoreChunks];
    lemma_run_one(s, EventModel::Part(p.header));
    let s1 = step(s, EventModel::Part(p.header));
    let part = opened(p.header).unwrap();
    lemma_run_concat(s, head + chunk_events(p.chunks), tail);
    lemma_run_concat(s, head, chunk_events(p.chunks));
    lemma_chunks_accumulate(s1, part, p.chunks);
    let s2 = run_from(s1, chunk_events(p.chunks));
    lemma_run_one(s2, EventModel::NoMoreChunks);
}

/// The events of good parts leave the consumer between parts, holding
/// exactly the form of those parts.
pub proof fn lemma_parts_consumed(parts: Seq<PartModel>)
    requires
        all_good(parts),
    ensures
        run(parts_events(parts)) == between(parts),
    decreases parts.len(),
{
    if parts.len() > 0 {
        let rest = parts.drop_last();
        assert(all_good(rest));
        lemma_parts_consumed(rest);
        lemma_run_concat(start(), parts_events(rest), part_events(parts.last()));
        lemma_part_consumed(run(parts_events(rest)), parts.last());
    }
}

/// A body of good parts that ends after them is parsed into the form of its
/// parts: every value part becomes a field and every file part a file, each
/// kind in the order of the body.
pub proof fn lemma_body_yields_form(parts: Seq<PartModel>)
    requires
        all_good(parts),
    ensures
        outcome(run(body_events(parts))) == Ok::<FormModel, ParseError>(form_of(parts)),
{
    lemma_parts_consumed(parts);
    assert(body_events(parts).drop_last() =~= parts_events(parts));
}

/// Every part is counted once: the fields and the files of a form are
/// together as many as the parts, and the files are as many as the parts that
/// declare a file name.
pub proof fn lemma_every_part_counted(parts: Seq<PartModel>)
    ensures
        fields_of(parts).len() + files_of(parts).len() == parts.len(),
        files_of(parts).len() == parts.filter(|p: PartModel| declares_file(p)).len(),
    decreases parts.len(),
{
    reveal(Seq::filter);
    if parts.len() > 0 {
        lemma_every_part_counted(parts.drop_last());
    }
}

/// Every part has its entry, and the entries keep the order of the parts: a
/// part that declares a file name is the file that stands after the files of
/// the parts before it, and any other part is the field that stands after the
/// fields of the parts before it.
pub proof fn lemma_entry_of_part(parts: Seq<PartModel>, i: int)
    requires
        0 <= i < parts.len(),
    ensures
        declares_file(parts[i]) ==> files_of(parts.take(i)).len() < files_of(parts).len()
            && files_of(parts)[files_of(parts.take(i)).len() as int] == file_of(parts[i]),
        !declares_file(parts[i]) ==> fields_of(parts.take(i)).len() < fields_of(parts).len()
            && fields_of(parts)[fields_of(parts.take(i)).len() as int] == field_of(parts[i]),
    decreases parts.len(),
{
    let rest = parts.drop_last();
    if i < parts.len() - 1 {
        lemma_entry_of_part(rest, i);
        assert(rest.take(i) =~= parts.take(i));
    }
}

/// What the entry of a part holds. A file has the name, the file name and the
/// media type that its part declares, byte for byte, or the generic binary
/// type where the part declares none; its content is the pieces that arrived
/// for it, one after another and byte for byte, zero bytes included, and is
/// as long as the pieces together. A value field has the name that its part
/// declares and the text of its content.
pub proof fn lemma_entry_holds(p: PartModel)
    requires
        p.header.name is Some,
    ensures
        declares_file(p) ==> {
            &&& file_of(p).field_name == p.header.name.unwrap()
            &&& file_of(p).filename == p.header.file_name.unwrap()
            &&& file_of(p).content_type == match p.header.content_type {
                Some(t) => t,
                None => generic_binary(),
            }
            &&& file_of(p).content == joined(p.chunks)
            &&& file_of(p).content.len() == total_len(p.chunks)
        },
        !declares_file(p) ==> {
            &&& field_of(p).name == p.header.name.unwrap()
            &&& field_of(p).value == text_of(joined(p.chunks))
        },
{
    lemma_joined_len(p.chunks);
}

/// At most one part is the first that is not good.
pub proof fn lemma_first_bad_unique(parts: Seq<PartModel>, i: int, j: int)
    requires
        first_bad(parts, i),
        first_bad(parts, j),
    ensures
        i == j,
{
    if i < j {
        assert(parts.take(j)[i] == parts[i]);
    }
    if j < i {
        assert(parts.take(i)[j] == parts[j]);
    }
}

/// A walk succeeds exactly over good parts with an end.
pub proof fn lemma_walked_ok(parts: Seq<PartModel>, ends: bool, r: Result<FormModel, ParseError>)
    requires
        walked(parts, ends, r),
    ensures
        r is Ok <==> all_good(parts) && ends,
{
}

/// What a walk returns is decided by the parts and by whether they end: two
/// results of a walk over the same body are the same.
pub proof fn lemma_walked_decides(
    parts: Seq<PartModel>,
    ends: bool,
    r1: Result<FormModel, ParseError>,
    r2: Result<FormModel, ParseError>,
)
    requires
        walked(parts, ends, r1),
        walked(parts, ends, r2),
    ensures
        r1 == r2,
{
    if r1 is Err && r2 is Err && r1 != r2 {
        let e1 = r1->Err_0;
        let e2 = r2->Err_0;
        if e1 != ParseError::BrokenStream && e2 != ParseError::BrokenStream {
            let i = choose|i: int| #[trigger] first_bad(parts, i) && fails_with(parts, i, e1);
            let j = choose|j: int| #[trigger] first_bad(parts, j) && fails_with(parts, j, e2);
            lemma_first_bad_unique(parts, i, j);
        }
    }
}

} // verus!
