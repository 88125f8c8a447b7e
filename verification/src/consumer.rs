//! The consumer of a stream of parts: a state machine that is told, event by
//! event, what the grammar delivered, and that answers with what to ask for
//! next.

use vstd::prelude::*;
use crate::boundary::utf8_text;
use crate::part::{
    clean, field_models, file_models, file_texts_ok, generic_binary, generic_binary_type,
    is_nul_free, nul_free, text_of, FieldModel, FileModel, FilePart, Form, FormModel,
    HeaderModel, ParseError, PartHeader, TextField,
};

verus! {

/// What the grammar delivered in answer to a request.
pub enum EventModel {
    /// The next part, with what it declares.
    Part(HeaderModel),
    /// The body has no further part.
    NoMoreParts,
    /// The next part could not be read.
    PartFailed,
    /// A further piece of the current part's content.
    Chunk(Seq<u8>),
    /// The current part's content has ended.
    NoMoreChunks,
    /// A piece of the current part's content could not be read.
    ChunkFailed,
}

/// What makes a part a file: its declared file name and its media type.
pub struct FileHeadModel {
    pub filename: Seq<u8>,
    pub content_type: Seq<u8>,
}

/// A part whose content is being gathered: its name, what makes it a file if
/// it is one, and the content so far.
pub struct OpenPartModel {
    pub name: Seq<u8>,
    pub file: Option<FileHeadModel>,
    pub content: Seq<u8>,
}

/// Where the consumer stands.
pub enum PhaseModel {
    /// Between parts.
    AwaitPart,
    /// Inside a part.
    InPart(OpenPartModel),
    /// The body was read to its end.
    Finished,
    /// The parse was given up.
    Failed(ParseError),
}

/// What the consumer asks for.
#[derive(Clone, Copy, Debug, PartialEq, Eq, Structural)]
pub enum Action {
    NextPart,
    NextChunk,
    Deliver,
    Abort(ParseError),
}

/// The consumer's state: the fields and files completed so far, and the phase.
pub struct ConsumerModel {
    pub fields: Seq<FieldModel>,
    pub files: Seq<FileModel>,
    pub phase: PhaseModel,
}

/// The state before the first event.
pub open spec fn start() -> ConsumerModel {
    ConsumerModel { fields: Seq::empty(), files: Seq::empty(), phase: PhaseModel::AwaitPart }
}

/// The state of a parse given up for `e`: nothing of what was gathered is kept.
pub open spec fn failed(e: ParseError) -> ConsumerModel {
    ConsumerModel { fields: Seq::empty(), files: Seq::empty(), phase: PhaseModel::Failed(e) }
}

/// The part that a header opens, if it declares a name. A part that declares
/// a file name is a file, whose media type is the declared one, byte for
/// byte, or else the generic binary type; any other part is a value.
pub open spec fn opened(h: HeaderModel) -> Option<OpenPartModel> {
    match h.name {
        None => None,
        Some(name) => Some(
            OpenPartModel {
                name,
                file: match h.file_name {
                    Some(filename) => Some(
                        FileHeadModel {
                            filename,
                            content_type: match h.content_type {
                                Some(t) => t,
                                None => generic_binary(),
                            },
                        },
                    ),
                    None => None,
                },
                content: Seq::empty(),
            },
        ),
    }
}

/// The state after a part that declares `h` has begun. A part without a name
/// fails the parse.
pub open spec fn begin_part(s: ConsumerModel, h: HeaderModel) -> ConsumerModel {
    match opened(h) {
        None => failed(ParseError::MissingName),
        Some(part) => ConsumerModel { phase: PhaseModel::InPart(part), ..s },
    }
}

/// The file that a gathered part with the given head stands for.
pub open spec fn file_from(part: OpenPartModel, head: FileHeadModel) -> FileModel {
    FileModel {
        field_name: part.name,
        filename: head.filename,
        content_type: head.content_type,
        content: part.content,
    }
}

/// The value field that a gathered part stands for. Content that is no text
/// gives an empty value.
pub open spec fn field_from(part: OpenPartModel) -> FieldModel {
    FieldModel { name: part.name, value: text_of(part.content) }
}

/// The strings of a gathered part can be handed over as terminated strings.
pub open spec fn texts_ok(part: OpenPartModel) -> bool {
    match part.file {
        Some(head) => file_texts_ok(file_from(part, head)),
        None => nul_free(field_from(part).name) && nul_free(field_from(part).value),
    }
}

/// The state after the content of `part` has ended: the part is added to the
/// files or to the fields, unless one of its strings holds a zero byte.
pub open spec fn end_part(s: ConsumerModel, part: OpenPartModel) -> ConsumerModel {
    if !texts_ok(part) {
        failed(ParseError::InteriorNul)
    } else {
        match part.file {
            Some(head) => ConsumerModel {
                files: s.files.push(file_from(part, head)),
                phase: PhaseModel::AwaitPart,
                ..s
            },
            None => ConsumerModel {
                fields: s.fields.push(field_from(part)),
                phase: PhaseModel::AwaitPart,
                ..s
            },
        }
    }
}

/// The transition function. A finished or failed consumer ignores every
/// event; an event that does not answer the pending request fails the parse.
pub open spec fn step(s: ConsumerModel, e: EventModel) -> ConsumerModel {
    match s.phase {
        PhaseModel::AwaitPart => match e {
            EventModel::Part(h) => begin_part(s, h),
            EventModel::NoMoreParts => ConsumerModel { phase: PhaseModel::Finished, ..s },
            EventModel::PartFailed => failed(ParseError::BrokenStream),
            _ => failed(ParseError::OutOfTurn),
        },
        PhaseModel::InPart(part) => match e {
            EventModel::Chunk(c) => ConsumerModel {
                phase: PhaseModel::InPart(OpenPartModel { content: part.content + c, ..part }),
                ..s
            },
            EventModel::NoMoreChunks => end_part(s, part),
            EventModel::ChunkFailed => failed(ParseError::BrokenChunk),
            _ => failed(ParseError::OutOfTurn),
        },
        PhaseModel::Finished => s,
        PhaseModel::Failed(_) => s,
    }
}

/// The request that a phase has pending.
pub open spec fn pending(p: PhaseModel) -> Action {
    match p {
        PhaseModel::AwaitPart => Action::NextPart,
        PhaseModel::InPart(_) => Action::NextChunk,
        PhaseModel::Finished => Action::Deliver,
        PhaseModel::Failed(e) => Action::Abort(e),
    }
}

/// The state reached from `s` by the events of `events`, in their order.
pub open spec fn run_from(s: ConsumerModel, events: Seq<EventModel>) -> ConsumerModel
    decreases events.len(),
{
    if events.len() == 0 {
        s
    } else {
        step(run_from(s, events.drop_last()), events.last())
    }
}

/// The state reached from the start by `events`.
pub open spec fn run(events: Seq<EventModel>) -> ConsumerModel {
    run_from(start(), events)
}

/// What a parse that ended in state `s` returns: the form of a finished
/// consumer, the error of a failed one, and `OutOfTurn` for one that was
/// stopped in the middle.
pub open spec fn outcome(s: ConsumerModel) -> Result<FormModel, ParseError> {
    match s.phase {
        PhaseModel::Finished => Ok(FormModel { fields: s.fields, files: s.files }),
        PhaseModel::Failed(e) => Err(e),
        _ => Err(ParseError::OutOfTurn),
    }
}

/// An event as the grammar delivered it.
pub enum Event {
    Part(PartHeader),
    NoMoreParts,
    PartFailed,
    Chunk(Vec<u8>),
    NoMoreChunks,
    ChunkFailed,
}

impl View for Event {
    type V = EventModel;

    open spec fn view(&self) -> EventModel {
        match *self {
            Event::Part(h) => EventModel::Part(h@),
            Event::NoMoreParts => EventModel::NoMoreParts,
            Event::PartFailed => EventModel::PartFailed,
            Event::Chunk(c) => EventModel::Chunk(c@),
            Event::NoMoreChunks => EventModel::NoMoreChunks,
            Event::ChunkFailed => EventModel::ChunkFailed,
        }
    }
}

/// What makes a part a file.
pub struct FileHead {
    pub filename: Vec<u8>,
    pub content_type: Vec<u8>,
}

impl View for FileHead {
    type V = FileHeadModel;

    open spec fn view(&self) -> FileHeadModel {
        FileHeadModel { filename: self.filename@, content_type: self.content_type@ }
    }
}

/// The head of an optional file.
pub open spec fn opt_head(h: Option<FileHead>) -> Option<FileHeadModel> {
    match h {
        Some(head) => Some(head@),
        None => None,
    }
}

/// A part whose content is being gathered.
pub struct OpenPart {
    pub name: Vec<u8>,
    pub file: Option<FileHead>,
    pub content: Vec<u8>,
}

impl View for OpenPart {
    type V = OpenPartModel;

    open spec fn view(&self) -> OpenPartModel {
        OpenPartModel { name: self.name@, file: opt_head(self.file), content: self.content@ }
    }
}

/// The phase of a running consumer.
pub enum Phase {
    AwaitPart,
    InPart(OpenPart),
    Finished,
    Failed(ParseError),
}

impl View for Phase {
    type V = PhaseModel;

    open spec fn view(&self) -> PhaseModel {
        match *self {
            Phase::AwaitPart => PhaseModel::AwaitPart,
            Phase::InPart(part) => PhaseModel::InPart(part@),
            Phase::Finished => PhaseModel::Finished,
            Phase::Failed(e) => PhaseModel::Failed(e),
        }
    }
}

/// The text of a value with the given content: the content itself where it
/// is well-formed UTF-8, and nothing where it is not. No charset is looked
/// at and no byte-order mark is removed.
pub fn value_text(content: Vec<u8>) -> (text: Vec<u8>)
    ensures
        text@ == text_of(content@),
{
    if utf8_text(content.as_slice()).is_some() {
        content
    } else {
        Vec::new()
    }
}

/// A running consumer.
pub struct Consumer {
    fields: Vec<TextField>,
    files: Vec<FilePart>,
    phase: Phase,
}

impl View for Consumer {
    type V = ConsumerModel;

    closed spec fn view(&self) -> ConsumerModel {
        ConsumerModel {
            fields: field_models(self.fields@),
            files: file_models(self.files@),
            phase: self.phase@,
        }
    }
}

impl Consumer {
    /// A consumer before the first event.
    pub fn new() -> (c: Consumer)
        ensures
            c@ == start(),
    {
        let c = Consumer { fields: Vec::new(), files: Vec::new(), phase: Phase::AwaitPart };
        assert(c@.fields =~= Seq::empty());
        assert(c@.files =~= Seq::empty());
        c
    }

    fn fail(e: ParseError) -> (c: Consumer)
        ensures
            c@ == failed(e),
    {
        let c = Consumer { fields: Vec::new(), files: Vec::new(), phase: Phase::Failed(e) };
        assert(c@.fields =~= Seq::empty());
        assert(c@.files =~= Seq::empty());
        c
    }

    /// The request that is pending.
    pub fn pending(&self) -> (a: Action)
        ensures
            a == pending(self@.phase),
    {
        match &self.phase {
            Phase::AwaitPart => Action::NextPart,
            Phase::InPart(_) => Action::NextChunk,
            Phase::Finished => Action::Deliver,
            Phase::Failed(e) => Action::Abort(*e),
        }
    }

    /// The part that `header` opens, if it declares a name.
    fn open(header: PartHeader) -> (r: Option<OpenPart>)
        ensures
            opt_part(r) == opened(header@),
    {
        let PartHeader { name, file_name, content_type } = header;
        match name {
            None => None,
            Some(name) => {
                let file = match file_name {
                    Some(filename) => {
                        let content_type = match content_type {
                            Some(t) => t,
                            None => generic_binary_type(),
                        };
                        Some(FileHead { filename, content_type })
                    },
                    None => None,
                };
                let part = OpenPart { name, file, content: Vec::new() };
                Some(part)
            },
        }
    }

    /// The consumer after the content of `part` has ended.
    fn close(fields: Vec<TextField>, files: Vec<FilePart>, part: OpenPart) -> (next: Consumer)
        ensures
            next@ == end_part(
                ConsumerModel {
                    fields: field_models(fields@),
                    files: file_models(files@),
                    phase: PhaseModel::InPart(part@),
                },
                part@,
            ),
    {
        let mut fields = fields;
        let mut files = files;
        let OpenPart { name, file, content } = part;
        match file {
            Some(head) => {
                let FileHead { filename, content_type } = head;
                if is_nul_free(content_type.as_slice()) && is_nul_free(name.as_slice())
                    && is_nul_free(filename.as_slice()) {
                    let ghost before = files@;
                    let file = FilePart { field_name: name, filename, content_type, content };
                    let ghost added = file;
                    files.push(file);
                    assert(file_models(files@) =~= file_models(before).push(added@));
                    Consumer { fields, files, phase: Phase::AwaitPart }
                } else {
                    Consumer::fail(ParseError::InteriorNul)
                }
            },
            None => {
                let value = value_text(content);
                if is_nul_free(name.as_slice()) && is_nul_free(value.as_slice()) {
                    let ghost before = fields@;
                    let field = TextField { name, value };
                    let ghost added = field;
                    fields.push(field);
                    assert(field_models(fields@) =~= field_models(before).push(added@));
                    Consumer { fields, files, phase: Phase::AwaitPart }
                } else {
                    Consumer::fail(ParseError::InteriorNul)
                }
            },
        }
    }

    /// The consumer after `event`.
    pub fn step(self, event: Event) -> (next: Consumer)
        ensures
            next@ == step(self@, event@),
    {
        let Consumer { fields, files, phase } = self;
        match phase {
            Phase::AwaitPart => match event {
                Event::Part(header) => match Consumer::open(header) {
                    None => Consumer::fail(ParseError::MissingName),
                    Some(part) => Consumer { fields, files, phase: Phase::InPart(part) },
                },
                Event::NoMoreParts => Consumer { fields, files, phase: Phase::Finished },
                Event::PartFailed => Consumer::fail(ParseError::BrokenStream),
                _ => Consumer::fail(ParseError::OutOfTurn),
            },
            Phase::InPart(part) => match event {
                Event::Chunk(chunk) => {
                    let OpenPart { name, file, mut content } = part;
                    let mut chunk = chunk;
                    content.append(&mut chunk);
                    Consumer {
                        fields,
                        files,
                        phase: Phase::InPart(OpenPart { name, file, content }),
                    }
                },
                Event::NoMoreChunks => Consumer::close(fields, files, part),
                Event::ChunkFailed => Consumer::fail(ParseError::BrokenChunk),
                _ => Consumer::fail(ParseError::OutOfTurn),
            },
            Phase::Finished => Consumer { fields, files, phase: Phase::Finished },
            Phase::Failed(e) => Consumer { fields, files, phase: Phase::Failed(e) },
        }
    }

    /// Ends the parse: the form of a finished consumer, the error of a failed
    /// one, and `OutOfTurn` for one that is stopped in the middle.
    pub fn finish(self) -> (r: Result<Form, ParseError>)
        ensures
            result_model(r) == outcome(self@),
    {
        let Consumer { fields, files, phase } = self;
        match phase {
            Phase::Finished => Ok(Form { fields, files }),
            Phase::Failed(e) => Err(e),
            _ => Err(ParseError::OutOfTurn),
        }
    }
}

/// The model of an optional open part.
pub open spec fn opt_part(p: Option<OpenPart>) -> Option<OpenPartModel> {
    match p {
        Some(part) => Some(part@),
        None => None,
    }
}

/// The model of what a parse returned.
pub open spec fn result_model(r: Result<Form, ParseError>) -> Result<FormModel, ParseError> {
    match r {
        Ok(form) => Ok(form@),
        Err(e) => Err(e),
    }
}

/// The form gathered so far.
pub open spec fn gathered(s: ConsumerModel) -> FormModel {
    FormModel { fields: s.fields, files: s.files }
}

/// A step takes into the form only strings without a zero byte.
pub proof fn lemma_step_keeps_clean(s: ConsumerModel, e: EventModel)
    requires
        clean(gathered(s)),
    ensures
        clean(gathered(step(s, e))),
{
    let next = step(s, e);
    assert forall|i: int| 0 <= i < next.fields.len() implies nul_free(
        (#[trigger] next.fields[i]).name,
    ) && nul_free(next.fields[i].value) by {
        if i < s.fields.len() && next.fields.len() >= s.fields.len() {
            assert(next.fields[i] == gathered(s).fields[i]);
        }
    }
    assert forall|i: int| 0 <= i < next.files.len() implies file_texts_ok(
        #[trigger] next.files[i],
    ) by {
        if i < s.files.len() && next.files.len() >= s.files.len() {
            assert(next.files[i] == gathered(s).files[i]);
        }
    }
}

/// Whatever the events, no string of the form gathered holds a zero byte.
pub proof fn lemma_run_is_clean(events: Seq<EventModel>)
    ensures
        clean(gathered(run(events))),
    decreases events.len(),
{
    if events.len() > 0 {
        lemma_run_is_clean(events.drop_last());
        lemma_step_keeps_clean(run(events.drop_last()), events.last());
    }
}

} // verus!
