//! The multipart grammar, as the `multer` crate walks it: one call for the
//! next part, one for each of its declared attributes and one for the next
//! chunk of its content; and the walk over a whole body that hands what these
//! calls deliver to a consumer.
//!
//! A call that waits is run to completion with `Runtime::block_on`, which
//! blocks the calling thread. The caller must not itself be inside an
//! asynchronous task: there tokio refuses to block.

use vstd::prelude::*;
use crate::body::{all_good, between, first_bad, good, joined, lemma_walked_ok, walked, PartModel};
use crate::consumer::{
    failed, opened, result_model, step, Action, Consumer, ConsumerModel, Event, EventModel,
    OpenPartModel, PhaseModel,
};
use crate::host::RuntimeManager;
use crate::part::{opt_bytes, Form, HeaderModel, ParseError, PartHeader};

verus! {

#[verifier::external_type_specification]
#[verifier::external_body]
pub struct ExGrammarError(multer::Error);

/// A traversal of a body together with the part that it has handed out last,
/// if any. Nothing else holds a part of the traversal: the part at hand is
/// dropped before the next one is asked for, so multer is never asked while
/// a part is held.
#[verifier::external_body]
pub struct Walk {
    multipart: multer::Multipart<'static>,
    current: Option<multer::Field<'static>>,
}

/// The parts that a traversal made by `multer::Multipart::new` of a body and a
/// boundary hands out before it ends or fails, in their order: each with what
/// it declares, with the pieces in which `chunk` hands out its content, and
/// with whether those pieces end rather than fail.
pub uninterp spec fn body_parts(body: Seq<u8>, boundary: Seq<char>) -> Seq<PartModel>;

/// Whether a traversal made by `multer::Multipart::new` of a body and a
/// boundary ends after its parts, rather than fails.
pub uninterp spec fn body_ends(body: Seq<u8>, boundary: Seq<char>) -> bool;

/// The parts that a walk has yet to hand out through
/// `multer::Multipart::next_field`, up to its end or its failure.
pub uninterp spec fn parts_ahead(walk: Walk) -> Seq<PartModel>;

/// Whether a walk ends after the parts that it has yet to hand out: whether
/// `multer::Multipart::next_field` then answers with `None` rather than with
/// an error.
pub uninterp spec fn walk_ends(walk: Walk) -> bool;

/// Whether a walk has a part at hand.
pub uninterp spec fn part_at_hand(walk: Walk) -> bool;

/// What `multer::Field::name` gives for the part at hand.
pub uninterp spec fn declared_name(walk: Walk) -> Option<Seq<u8>>;

/// What `multer::Field::file_name` gives for the part at hand.
pub uninterp spec fn declared_file_name(walk: Walk) -> Option<Seq<u8>>;

/// The value of the first header of the given name among those that
/// `multer::Field::headers` gives for the part at hand, byte for byte.
pub uninterp spec fn declared_header(walk: Walk, name: Seq<char>) -> Option<Seq<u8>>;

/// The pieces that the part at hand has yet to hand out through
/// `multer::Field::chunk`, up to its end or its failure.
pub uninterp spec fn chunks_ahead(walk: Walk) -> Seq<Seq<u8>>;

/// Whether the content of the part at hand ends after the pieces that it has
/// yet to hand out: whether `multer::Field::chunk` then answers with `None`
/// rather than with an error.
pub uninterp spec fn chunks_end(walk: Walk) -> bool;

/// The part at hand: what it declares and the pieces of its content. Its
/// media type is the value of its `content-type` header.
pub open spec fn part_of(walk: Walk) -> PartModel {
    PartModel {
        header: HeaderModel {
            name: declared_name(walk),
            file_name: declared_file_name(walk),
            content_type: declared_header(walk, "content-type"@),
        },
        chunks: chunks_ahead(walk),
        chunks_end: chunks_end(walk),
    }
}

/// `multer::Multipart::new` on a stream made by `futures::stream::once`: a
/// walk over a copy of `body`, handed over as a single item, with the given
/// boundary and no part at hand. The stream ends after that item, so no later
/// call waits for input that never comes. Nothing is read before the first
/// part is asked for; what the walk will hand out, and whether it ends,
/// depends on the bytes and on the boundary alone.
#[verifier::external_body]
fn open_walk(body: &[u8], boundary: String) -> (walk: Walk)
    ensures
        parts_ahead(walk) == body_parts(body@, boundary@),
        walk_ends(walk) == body_ends(body@, boundary@),
        !part_at_hand(walk),
{
    let item: Result<multer::bytes::Bytes, std::convert::Infallible> = Ok(
        multer::bytes::Bytes::copy_from_slice(body),
    );
    let stream = futures::stream::once(futures::future::ready(item));
    Walk { multipart: multer::Multipart::new(stream, boundary), current: None }
}

/// `multer::Multipart::next_field`, run to completion on `runtime`, after the
/// part at hand has been dropped: whether a next part is now at hand, or an
/// error. A part that comes to hand is the first of those that were ahead,
/// and the others stay ahead; none comes to hand when none was ahead and the
/// traversal ends; an error comes back when none was ahead and the traversal
/// fails. multer also answers with an error while a part of the traversal is
/// held; the only part of a walk is the one at hand, which is dropped first.
#[verifier::external_body]
fn advance(runtime: &tokio::runtime::Runtime, walk: &mut Walk) -> (r: Result<bool, multer::Error>)
    ensures
        r matches Ok(found) ==> found == part_at_hand(*final(walk)),
        r matches Ok(true) ==> parts_ahead(*old(walk)).len() > 0 && part_of(*final(walk))
            == parts_ahead(*old(walk))[0] && parts_ahead(*final(walk)) == parts_ahead(
            *old(walk),
        ).drop_first() && walk_ends(*final(walk)) == walk_ends(*old(walk)),
        r matches Ok(false) ==> parts_ahead(*old(walk)).len() == 0 && walk_ends(*old(walk)),
        r is Err ==> parts_ahead(*old(walk)).len() == 0 && !walk_ends(*old(walk)),
{
    walk.current = None;
    walk.current = runtime.block_on(walk.multipart.next_field())?;
    Ok(walk.current.is_some())
}

/// `multer::Field::name` on the part at hand: the bytes of the declared field
/// name, if any.
#[verifier::external_body]
fn part_name(walk: &Walk) -> (r: Option<Vec<u8>>)
    requires
        part_at_hand(*walk),
    ensures
        opt_bytes(r) == declared_name(*walk),
{
    walk.current.as_ref().unwrap().name().map(|s| s.as_bytes().to_vec())
}

/// `multer::Field::file_name` on the part at hand: the bytes of the declared
/// file name, if any.
#[verifier::external_body]
fn part_file_name(walk: &Walk) -> (r: Option<Vec<u8>>)
    requires
        part_at_hand(*walk),
    ensures
        opt_bytes(r) == declared_file_name(*walk),
{
    walk.current.as_ref().unwrap().file_name().map(|s| s.as_bytes().to_vec())
}

/// `multer::Field::headers` on the part at hand and `http::HeaderMap::get`:
/// the bytes of the value of the first header of the given name, if the part
/// has one.
#[verifier::external_body]
fn part_header(walk: &Walk, name: &str) -> (r: Option<Vec<u8>>)
    requires
        part_at_hand(*walk),
    ensures
        opt_bytes(r) == declared_header(*walk, name@),
{
    walk.current.as_ref().unwrap().headers().get(name).map(|v| v.as_bytes().to_vec())
}

/// `multer::Field::chunk` on the part at hand, run to completion on
/// `runtime`: the next piece of the part's content, copied, `None` after the
/// last one, or an error. A piece that comes back is the first of those that
/// were ahead, and the others stay ahead; `None` comes back when none was
/// ahead and the content ends; an error comes back when none was ahead and
/// the content fails. The part stays at hand, and the parts that follow it
/// are as they were.
#[verifier::external_body]
fn next_chunk(runtime: &tokio::runtime::Runtime, walk: &mut Walk) -> (r: Result<
    Option<Vec<u8>>,
    multer::Error,
>)
    requires
        part_at_hand(*old(walk)),
    ensures
        part_at_hand(*final(walk)),
        parts_ahead(*final(walk)) == parts_ahead(*old(walk)),
        walk_ends(*final(walk)) == walk_ends(*old(walk)),
        r matches Ok(Some(chunk)) ==> chunks_ahead(*old(walk)).len() > 0 && chunk@
            == chunks_ahead(*old(walk))[0] && chunks_ahead(*final(walk)) == chunks_ahead(
            *old(walk),
        ).drop_first() && chunks_end(*final(walk)) == chunks_end(*old(walk)),
        r matches Ok(None) ==> chunks_ahead(*old(walk)).len() == 0 && chunks_end(*old(walk)),
        r is Err ==> chunks_ahead(*old(walk)).len() == 0 && !chunks_end(*old(walk)),
{
    runtime.block_on(walk.current.as_mut().unwrap().chunk()).map(|o| o.map(|b| b.to_vec()))
}

impl Walk {
    /// The parts that the walk has yet to hand out.
    pub open spec fn ahead(&self) -> Seq<PartModel> {
        parts_ahead(*self)
    }

    /// Whether the walk ends after the parts that it has yet to hand out.
    pub open spec fn ends(&self) -> bool {
        walk_ends(*self)
    }

    /// A part is at hand.
    pub open spec fn in_part(&self) -> bool {
        part_at_hand(*self)
    }

    /// The pieces that the part at hand has yet to hand out.
    pub open spec fn pieces(&self) -> Seq<Seq<u8>> {
        chunks_ahead(*self)
    }

    /// Whether the content of the part at hand ends after those pieces.
    pub open spec fn pieces_end(&self) -> bool {
        chunks_end(*self)
    }

    /// A walk over `body` with the given boundary.
    fn open(body: &[u8], boundary: String) -> (walk: Walk)
        ensures
            walk.ahead() == body_parts(body@, boundary@),
            walk.ends() == body_ends(body@, boundary@),
    {
        open_walk(body, boundary)
    }

    /// Lets go of the part at hand and asks for the next one: what it
    /// declares, `None` after the last part, or `BrokenStream` where the
    /// traversal fails.
    fn next_part(&mut self, runtime: &tokio::runtime::Runtime) -> (r: Result<
        Option<PartHeader>,
        ParseError,
    >)
        ensures
            r matches Ok(Some(header)) ==> {
                &&& old(self).ahead().len() > 0
                &&& header@ == old(self).ahead()[0].header
                &&& final(self).ahead() == old(self).ahead().drop_first()
                &&& final(self).ends() == old(self).ends()
                &&& final(self).in_part()
                &&& final(self).pieces() == old(self).ahead()[0].chunks
                &&& final(self).pieces_end() == old(self).ahead()[0].chunks_end
            },
            r matches Ok(None) ==> old(self).ahead().len() == 0 && old(self).ends(),
            r matches Err(e) ==> e == ParseError::BrokenStream && old(self).ahead().len() == 0
                && !old(self).ends(),
    {
        match advance(runtime, self) {
            Err(_) => Err(ParseError::BrokenStream),
            Ok(false) => Ok(None),
            Ok(true) => Ok(
                Some(
                    PartHeader {
                        name: part_name(self),
                        file_name: part_file_name(self),
                        content_type: part_header(self, "content-type"),
                    },
                ),
            ),
        }
    }

    /// Asks the part at hand for its next piece: the piece, `None` after the
    /// last one, or `BrokenChunk` where the content fails.
    fn next_piece(&mut self, runtime: &tokio::runtime::Runtime) -> (r: Result<
        Option<Vec<u8>>,
        ParseError,
    >)
        requires
            old(self).in_part(),
        ensures
            final(self).in_part(),
            final(self).ahead() == old(self).ahead(),
            final(self).ends() == old(self).ends(),
            r matches Ok(Some(chunk)) ==> {
                &&& old(self).pieces().len() > 0
                &&& chunk@ == old(self).pieces()[0]
                &&& final(self).pieces() == old(self).pieces().drop_first()
                &&& final(self).pieces_end() == old(self).pieces_end()
            },
            r matches Ok(None) ==> old(self).pieces().len() == 0 && old(self).pieces_end(),
            r matches Err(e) ==> e == ParseError::BrokenChunk && old(self).pieces().len() == 0
                && !old(self).pieces_end(),
    {
        match next_chunk(runtime, self) {
            Err(_) => Err(ParseError::BrokenChunk),
            Ok(piece) => Ok(piece),
        }
    }
}

/// Drains the part at hand, whose header the consumer has taken in, and
/// feeds each piece to the consumer. The consumer comes back with the whole
/// content gathered and the end of the pieces taken in, or failed where the
/// content failed.
fn drain_part(
    runtime: &tokio::runtime::Runtime,
    walk: &mut Walk,
    consumer: Consumer,
    before: Ghost<ConsumerModel>,
    part: Ghost<OpenPartModel>,
) -> (next: Consumer)
    requires
        old(walk).in_part(),
        part@.content.len() == 0,
        consumer@ == (ConsumerModel { phase: PhaseModel::InPart(part@), ..before@ }),
    ensures
        final(walk).ahead() == old(walk).ahead(),
        final(walk).ends() == old(walk).ends(),
        next@ == if old(walk).pieces_end() {
            step(
                ConsumerModel {
                    phase: PhaseModel::InPart(
                        OpenPartModel { content: joined(old(walk).pieces()), ..part@ },
                    ),
                    ..before@
                },
                EventModel::NoMoreChunks,
            )
        } else {
            failed(ParseError::BrokenChunk)
        },
{
    let ghost chunks = walk.pieces();
    let ghost mut k: int = 0;
    let mut consumer = consumer;
    let mut ended = false;
    proof {
        assert(part@.content =~= joined(chunks.take(0)));
    }
    loop
        invariant_except_break
            !ended,
            walk.pieces() == chunks.skip(k),
            walk.pieces_end() == old(walk).pieces_end(),
        invariant
            0 <= k <= chunks.len(),
            walk.in_part(),
            walk.ahead() == old(walk).ahead(),
            walk.ends() == old(walk).ends(),
            chunks == old(walk).pieces(),
            consumer@ == (ConsumerModel {
                phase: PhaseModel::InPart(
                    OpenPartModel { content: joined(chunks.take(k)), ..part@ },
                ),
                ..before@
            }),
        ensures
            ended ==> k == chunks.len() && old(walk).pieces_end(),
            !ended ==> !old(walk).pieces_end(),
        decreases chunks.len() - k,
    {
        match walk.next_piece(runtime) {
            Err(_) => {
                break ;
            },
            Ok(None) => {
                ended = true;
                break ;
            },
            Ok(Some(chunk)) => {
                proof {
                    assert(chunks.take(k + 1).drop_last() =~= chunks.take(k));
                    k = k + 1;
                }
                consumer = consumer.step(Event::Chunk(chunk));
            },
        }
    }
    if ended {
        proof {
            assert(chunks.take(k) =~= chunks);
        }
        consumer.step(Event::NoMoreChunks)
    } else {
        consumer.step(Event::ChunkFailed)
    }
}

/// Walks `body` with the given boundary and hands every part to a consumer:
/// the header of each part, then its pieces until they end. The walk stops
/// at the first failure, or at the end of the parts.
///
/// What is returned is decided by the parts of the body and by whether the
/// body ends after them. Good parts and an end give the form of the parts.
/// The first part that is not good fails the walk with `MissingName`,
/// `BrokenChunk` or `InteriorNul`; good parts without an end fail it with
/// `BrokenStream`.
pub fn read_form(host: &RuntimeManager, body: &[u8], boundary: String) -> (r: Result<
    Form,
    ParseError,
>)
    requires
        host.is_initialized(),
    ensures
        walked(
            body_parts(body@, boundary@),
            body_ends(body@, boundary@),
            result_model(r),
        ),
        result_model(r) is Ok <==> all_good(body_parts(body@, boundary@)) && body_ends(
            body@,
            boundary@,
        ),
{
    let r = walk_body(host.runtime(), body, boundary);
    proof {
        lemma_walked_ok(
            body_parts(body@, boundary@),
            body_ends(body@, boundary@),
            result_model(r),
        );
    }
    r
}

/// The walk of `read_form`, on the given runtime.
fn walk_body(runtime: &tokio::runtime::Runtime, body: &[u8], boundary: String) -> (r: Result<
    Form,
    ParseError,
>)
    ensures
        walked(
            body_parts(body@, boundary@),
            body_ends(body@, boundary@),
            result_model(r),
        ),
{
    let ghost all = body_parts(body@, boundary@);
    let ghost ends = body_ends(body@, boundary@);
    let mut walk = Walk::open(body, boundary);
    let mut consumer = Consumer::new();
    let ghost mut done: int = 0;
    loop
        invariant
            all == body_parts(body@, boundary@),
            ends == body_ends(body@, boundary@),
            0 <= done <= all.len(),
            walk.ahead() == all.skip(done),
            walk.ends() == ends,
            all_good(all.take(done)),
            consumer@ == between(all.take(done)),
        decreases all.len() - done,
    {
        let header = match walk.next_part(runtime) {
            Err(_) => {
                proof {
                    assert(all.take(done) =~= all);
                }
                return consumer.step(Event::PartFailed).finish();
            },
            Ok(None) => {
                proof {
                    assert(all.take(done) =~= all);
                }
                return consumer.step(Event::NoMoreParts).finish();
            },
            Ok(Some(header)) => header,
        };
        let ghost part = all[done];
        let ghost before = consumer@;
        proof {
            assert(all.take(done + 1).drop_last() =~= all.take(done));
        }
        consumer = consumer.step(Event::Part(header));
        consumer = match consumer.pending() {
            Action::NextChunk => drain_part(
                runtime,
                &mut walk,
                consumer,
                Ghost(before),
                Ghost(opened(part.header).unwrap()),
            ),
            _ => consumer,
        };
        match consumer.pending() {
            Action::NextPart => {
                proof {
                    assert(all_good(all.take(done + 1)));
                    done = done + 1;
                }
            },
            _ => {
                proof {
                    assert(first_bad(all, done));
                }
                return consumer.finish();
            },
        }
    }
}

} // verus!
