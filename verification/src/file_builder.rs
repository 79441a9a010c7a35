//! Opening a file for direct I/O.
//!
//! Opening is a short conversation with the file system: make the parent
//! directories, open the file, and, where the open fails on a platform that
//! asks for direct I/O by an open flag, find out why. This module holds the
//! decisions of that conversation. It never touches a file: it says which
//! [`Action`] comes next, the caller performs it and reports the [`Event`]
//! that came of it, until the action is [`Action::Finish`] or
//! [`Action::Fail`].

use vstd::prelude::*;
use vstd::string::*;
use crate::error::{Error, ErrorKind, ErrorView, IoFailure, IoFailureView};
use crate::text::join3;

verus! {

/// How the platform lets a program ask for direct I/O.
#[derive(Debug, Clone, Copy, PartialEq, Eq, Structural)]
pub enum Mechanism {
    /// A flag of the open call bypasses the page cache.
    OpenFlag,
    /// A file-control call after the open disables caching.
    FileControl,
    /// The platform has neither: direct I/O is not to be had.
    Neither,
}

/// The three ways to open a file.
#[derive(Debug, Clone, Copy, PartialEq, Eq, Structural)]
pub enum Operation {
    /// Open the file, and create it if it is missing.
    CreateIfAbsent,
    /// Create the file; fail if it exists.
    Create,
    /// Open the file; fail if it is missing.
    Open,
}

/// The options of one open call.
#[derive(Debug, Clone, Copy, PartialEq, Eq, Structural)]
pub struct OpenRequest {
    pub read: bool,
    pub write: bool,
    /// Create the file if it is missing.
    pub create: bool,
    /// Create the file, and fail if it exists.
    pub create_new: bool,
    /// Pass the platform's direct-I/O flag.
    pub direct: bool,
}

/// What the caller is to do next.
#[derive(Debug, Clone, PartialEq, Eq)]
pub enum Action {
    /// Create the parent directory of the path, and its ancestors, if the
    /// path has one.
    CreateParentDirectories,
    /// Open the path with these options and keep the handle.
    Open(OpenRequest),
    /// Find out whether the path exists.
    CheckExists,
    /// Open the path with these options and close the handle at once: only
    /// whether the open succeeds is of interest.
    Probe(OpenRequest),
    /// Read the size of the file at the path.
    ReadLength,
    /// Disable caching on the kept handle by the platform's file control.
    DisableCache,
    /// Hand the kept handle to the user. `was_created` says whether the
    /// file is new.
    Finish { was_created: bool },
    /// Close the kept handle, if there is one, and report this error.
    Fail(Error),
}

/// What came of the last action.
#[derive(Debug, Clone, PartialEq, Eq)]
pub enum Event {
    /// The action succeeded.
    Done,
    /// The action failed.
    Failed(IoFailure),
    /// The answer to [`Action::CheckExists`].
    Exists(bool),
    /// The answer to [`Action::ReadLength`], in bytes.
    Length(u64),
}

/// Where an opening stands: the action that it waits for.
#[derive(Debug, Clone, PartialEq, Eq)]
enum Stage {
    Directories,
    Primary,
    /// The open failed with the error held here; does the path exist?
    Existence(Error),
    /// Can the path be opened without the direct-I/O flag?
    PlainProbe(Error),
    /// Can the path be opened with the direct-I/O flag?
    DirectProbe(Error),
    Length,
    /// Holds whether the file is new.
    CacheControl(bool),
    Finished,
}

/// An opening in progress.
#[derive(Debug, Clone, PartialEq, Eq)]
pub struct Opening {
    operation: Operation,
    direct_io: bool,
    mechanism: Mechanism,
    path_text: String,
    stage: Stage,
}

/// What an [`Action`] stands for.
#[verifier::ext_equal]
pub enum ActionView {
    CreateParentDirectories,
    Open(OpenRequest),
    CheckExists,
    Probe(OpenRequest),
    ReadLength,
    DisableCache,
    Finish { was_created: bool },
    Fail(ErrorView),
}

/// What an [`Event`] stands for.
#[verifier::ext_equal]
pub enum EventView {
    Done,
    Failed(IoFailureView),
    Exists(bool),
    Length(u64),
}

/// Where an opening stands: the action that it waits for, and the error of
/// the failed open while the reason for it is searched.
#[verifier::ext_equal]
pub enum StageView {
    Directories,
    Primary,
    Existence(ErrorView),
    PlainProbe(ErrorView),
    DirectProbe(ErrorView),
    Length,
    CacheControl(bool),
    Finished,
}

/// What an [`Opening`] stands for.
#[verifier::ext_equal]
pub struct OpeningView {
    pub operation: Operation,
    pub direct_io: bool,
    pub mechanism: Mechanism,
    /// The path as it is written in messages.
    pub path_text: Seq<char>,
    pub stage: StageView,
}

impl View for Action {
    type V = ActionView;

    open spec fn view(&self) -> ActionView {
        match *self {
            Action::CreateParentDirectories => ActionView::CreateParentDirectories,
            Action::Open(request) => ActionView::Open(request),
            Action::CheckExists => ActionView::CheckExists,
            Action::Probe(request) => ActionView::Probe(request),
            Action::ReadLength => ActionView::ReadLength,
            Action::DisableCache => ActionView::DisableCache,
            Action::Finish { was_created } => ActionView::Finish { was_created },
            Action::Fail(e) => ActionView::Fail(e@),
        }
    }
}

impl View for Event {
    type V = EventView;

    open spec fn view(&self) -> EventView {
        match *self {
            Event::Done => EventView::Done,
            Event::Failed(failure) => EventView::Failed(failure@),
            Event::Exists(exists) => EventView::Exists(exists),
            Event::Length(length) => EventView::Length(length),
        }
    }
}

impl View for Stage {
    type V = StageView;

    closed spec fn view(&self) -> StageView {
        match *self {
            Stage::Directories => StageView::Directories,
            Stage::Primary => StageView::Primary,
            Stage::Existence(e) => StageView::Existence(e@),
            Stage::PlainProbe(e) => StageView::PlainProbe(e@),
            Stage::DirectProbe(e) => StageView::DirectProbe(e@),
            Stage::Length => StageView::Length,
            Stage::CacheControl(was_created) => StageView::CacheControl(was_created),
            Stage::Finished => StageView::Finished,
        }
    }
}

impl View for Opening {
    type V = OpeningView;

    closed spec fn view(&self) -> OpeningView {
        OpeningView {
            operation: self.operation,
            direct_io: self.direct_io,
            mechanism: self.mechanism,
            path_text: self.path_text@,
            stage: self.stage@,
        }
    }
}

impl ActionView {
    /// Whether the action ends the opening.
    pub open spec fn is_final(self) -> bool {
        self is Finish || self is Fail
    }
}

/// The text that `std::fmt::Debug` writes for a path: the path between
/// double quotes, with the characters escaped that need it.
pub uninterp spec fn path_debug_text(path: Seq<char>) -> Seq<char>;

/// Writes the path as messages show it, by the `Debug` formatting of
/// `std::path::Path`. The result is named, not described.
#[verifier::external_body]
fn quote_path(path: &str) -> (text: String)
    ensures
        text@ == path_debug_text(path@),
{
    format!("{:?}", std::path::Path::new(path))
}

/// Whether the operation may create the file.
pub open spec fn creates(operation: Operation) -> bool {
    operation != Operation::Open
}

/// The options of the open that yields the handle: reading and writing,
/// creation as the operation asks, and the direct-I/O flag where it was
/// asked for and the platform has one.
pub open spec fn primary_request(
    operation: Operation,
    direct_io: bool,
    mechanism: Mechanism,
) -> OpenRequest {
    OpenRequest {
        read: true,
        write: true,
        create: operation == Operation::CreateIfAbsent,
        create_new: operation == Operation::Create,
        direct: direct_io && mechanism == Mechanism::OpenFlag,
    }
}

/// The options of an open that only finds out whether the file can be
/// opened: reading and writing, never creating.
pub open spec fn probe_request(direct: bool) -> OpenRequest {
    OpenRequest { read: true, write: true, create: false, create_new: false, direct }
}

pub open spec fn create_failed_message(path_text: Seq<char>) -> Seq<char> {
    "We failed to create the file "@ + path_text + "."@
}

pub open spec fn missing_message(path_text: Seq<char>) -> Seq<char> {
    "The file "@ + path_text + " does not exist and failed to open it."@
}

pub open spec fn cannot_open_message(path_text: Seq<char>) -> Seq<char> {
    "We cannot open the file "@ + path_text + "."@
}

pub open spec fn cannot_open_direct_message(path_text: Seq<char>) -> Seq<char> {
    "We cannot open the file "@ + path_text + " with O_DIRECT."@
}

pub open spec fn directories_message(path_text: Seq<char>) -> Seq<char> {
    "We failed to create the parent directories of the file "@ + path_text + "."@
}

pub open spec fn length_message(path_text: Seq<char>) -> Seq<char> {
    "We failed to read the size of the file "@ + path_text + "."@
}

pub open spec fn cache_message(path_text: Seq<char>) -> Seq<char> {
    "We failed to disable caching for the file "@ + path_text + "."@
}

/// The error for an event that does not answer the action that was asked.
pub open spec fn misuse_error() -> ErrorView {
    ErrorView {
        kind: ErrorKind::InvalidInput,
        cause: "the event does not answer the action that was asked for"@,
        os_code: None,
        context: Seq::empty(),
    }
}

/// The state and the first action of an opening.
pub open spec fn start(
    operation: Operation,
    direct_io: bool,
    mechanism: Mechanism,
    path_text: Seq<char>,
) -> (OpeningView, ActionView) {
    if creates(operation) {
        (
            OpeningView { operation, direct_io, mechanism, path_text, stage: StageView::Directories },
            ActionView::CreateParentDirectories,
        )
    } else {
        (
            OpeningView { operation, direct_io, mechanism, path_text, stage: StageView::Primary },
            ActionView::Open(primary_request(operation, direct_io, mechanism)),
        )
    }
}

/// What follows once the file is open and, where it matters, its size is
/// known: the file control where the platform has one and direct I/O was
/// asked for, else the end.
pub open spec fn finalize(state: OpeningView, was_created: bool) -> (StageView, ActionView) {
    if state.mechanism == Mechanism::FileControl && state.direct_io {
        (StageView::CacheControl(was_created), ActionView::DisableCache)
    } else {
        (StageView::Finished, ActionView::Finish { was_created })
    }
}

/// The end of an opening in failure.
pub open spec fn fail(e: ErrorView) -> (StageView, ActionView) {
    (StageView::Finished, ActionView::Fail(e))
}

/// The next stage and action, given where the opening stands and what came
/// of the action it waited for.
pub open spec fn transition(state: OpeningView, event: EventView) -> (StageView, ActionView) {
    let path = state.path_text;
    match (state.stage, event) {
        (StageView::Directories, EventView::Done) => (
            StageView::Primary,
            ActionView::Open(primary_request(state.operation, state.direct_io, state.mechanism)),
        ),
        (StageView::Directories, EventView::Failed(f)) => fail(
            ErrorView::from_io(f).with_context(directories_message(path)),
        ),
        (StageView::Primary, EventView::Done) => match state.operation {
            Operation::CreateIfAbsent => (StageView::Length, ActionView::ReadLength),
            Operation::Create => finalize(state, true),
            Operation::Open => finalize(state, false),
        },
        (StageView::Primary, EventView::Failed(f)) => if state.mechanism == Mechanism::OpenFlag {
            (StageView::Existence(ErrorView::from_io(f)), ActionView::CheckExists)
        } else {
            fail(ErrorView::from_io(f).with_context(cannot_open_message(path)))
        },
        (StageView::Existence(first), EventView::Exists(false)) => if creates(state.operation) {
            fail(first.with_context(create_failed_message(path)))
        } else {
            fail(first.with_context(missing_message(path)))
        },
        (StageView::Existence(first), EventView::Exists(true)) => (
            StageView::PlainProbe(first),
            ActionView::Probe(probe_request(false)),
        ),
        (StageView::PlainProbe(first), EventView::Failed(f)) => fail(
            ErrorView::from_io(f).with_context(cannot_open_message(path)),
        ),
        (StageView::PlainProbe(first), EventView::Done) => if state.direct_io {
            (StageView::DirectProbe(first), ActionView::Probe(probe_request(true)))
        } else {
            fail(first)
        },
        (StageView::DirectProbe(first), EventView::Failed(f)) => fail(
            ErrorView::from_io(f).with_context(cannot_open_direct_message(path)),
        ),
        (StageView::DirectProbe(first), EventView::Done) => fail(first),
        (StageView::Length, EventView::Length(length)) => finalize(state, length == 0),
        (StageView::Length, EventView::Failed(f)) => fail(
            ErrorView::from_io(f).with_context(length_message(path)),
        ),
        (StageView::CacheControl(was_created), EventView::Done) => (
            StageView::Finished,
            ActionView::Finish { was_created },
        ),
        (StageView::CacheControl(was_created), EventView::Failed(f)) => fail(
            ErrorView::from_io(f).with_context(cache_message(path)),
        ),
        _ => fail(misuse_error()),
    }
}

impl OpeningView {
    /// The state after `event`, and the action that it asks for.
    pub open spec fn step(self, event: EventView) -> (OpeningView, ActionView) {
        let (stage, action) = transition(self, event);
        (OpeningView { stage, ..self }, action)
    }
}

/// Chooses how to open files for direct I/O.
#[derive(Debug, Clone, Copy, PartialEq, Eq, Structural)]
pub struct FileBuilder {
    direct_io: bool,
}

impl Default for FileBuilder {
    /// Direct I/O is on by default.
    fn default() -> (builder: FileBuilder)
        ensures
            builder.direct_io_enabled(),
    {
        FileBuilder { direct_io: true }
    }
}

impl FileBuilder {
    /// Whether direct I/O is asked for.
    pub closed spec fn direct_io_enabled(&self) -> bool {
        self.direct_io
    }

    /// A builder that asks for direct I/O.
    pub fn new() -> (builder: FileBuilder)
        ensures
            builder.direct_io_enabled(),
    {
        FileBuilder { direct_io: true }
    }

    /// Says whether direct I/O is asked for, and hands the builder back.
    pub fn direct_io(&mut self, enabled: bool) -> (builder: &mut FileBuilder)
        ensures
            builder.direct_io_enabled() == enabled,
            *final(self) == *final(builder),
    {
        self.direct_io = enabled;
        self
    }

    /// The options common to every open that this builder asks for, which
    /// are those of opening an existing file: reading and writing, no
    /// creation, and the direct-I/O flag where it is asked for and the
    /// platform has one.
    pub fn open_options(&self, mechanism: Mechanism) -> (request: OpenRequest)
        ensures
            request == primary_request(Operation::Open, self.direct_io_enabled(), mechanism),
    {
        let direct = self.direct_io && match mechanism {
            Mechanism::OpenFlag => true,
            _ => false,
        };
        OpenRequest { read: true, write: true, create: false, create_new: false, direct }
    }

    /// The options of the open that yields the handle.
    fn primary_options(operation: Operation, direct_io: bool, mechanism: Mechanism) -> (request:
        OpenRequest)
        ensures
            request == primary_request(operation, direct_io, mechanism),
    {
        let mut request = (FileBuilder { direct_io }).open_options(mechanism);
        match operation {
            Operation::CreateIfAbsent => {
                request.create = true;
            },
            Operation::Create => {
                request.create_new = true;
            },
            Operation::Open => {},
        }
        request
    }

    /// The options of an open that only probes.
    fn probe_options(direct: bool) -> (request: OpenRequest)
        ensures
            request == probe_request(direct),
    {
        OpenRequest { read: true, write: true, create: false, create_new: false, direct }
    }

    /// Begins an opening whose messages show the path as `path_text`.
    pub fn begin_with(&self, operation: Operation, mechanism: Mechanism, path_text: String) -> (r: (
        Opening,
        Action,
    ))
        ensures
            (r.0@, r.1@) == start(operation, self.direct_io_enabled(), mechanism, path_text@),
    {
        let direct_io = self.direct_io;
        match operation {
            Operation::Open => {
                let request = FileBuilder::primary_options(operation, direct_io, mechanism);
                (
                    Opening { operation, direct_io, mechanism, path_text, stage: Stage::Primary },
                    Action::Open(request),
                )
            },
            _ => (
                Opening { operation, direct_io, mechanism, path_text, stage: Stage::Directories },
                Action::CreateParentDirectories,
            ),
        }
    }

    /// Begins an opening of `path`. Messages show the path as `Debug`
    /// formatting writes it.
    pub fn begin(&self, operation: Operation, mechanism: Mechanism, path: &str) -> (r: (
        Opening,
        Action,
    ))
        ensures
            (r.0@, r.1@) == start(
                operation,
                self.direct_io_enabled(),
                mechanism,
                path_debug_text(path@),
            ),
    {
        self.begin_with(operation, mechanism, quote_path(path))
    }

    /// Begins to open `path`, creating the file if it is missing. The
    /// opening ends with the handle and with whether the file is new, which
    /// is judged by its size being zero.
    pub fn create_if_absent(&mut self, mechanism: Mechanism, path: &str) -> (r: (Opening, Action))
        ensures
            *final(self) == *old(self),
            (r.0@, r.1@) == start(
                Operation::CreateIfAbsent,
                old(self).direct_io_enabled(),
                mechanism,
                path_debug_text(path@),
            ),
    {
        self.begin(Operation::CreateIfAbsent, mechanism, path)
    }

    /// Begins to create the file at `path`, which must not exist yet.
    pub fn create(&mut self, mechanism: Mechanism, path: &str) -> (r: (Opening, Action))
        ensures
            *final(self) == *old(self),
            (r.0@, r.1@) == start(
                Operation::Create,
                old(self).direct_io_enabled(),
                mechanism,
                path_debug_text(path@),
            ),
    {
        self.begin(Operation::Create, mechanism, path)
    }

    /// Begins to open the file at `path`, which must exist.
    pub fn open(&mut self, mechanism: Mechanism, path: &str) -> (r: (Opening, Action))
        ensures
            *final(self) == *old(self),
            (r.0@, r.1@) == start(
                Operation::Open,
                old(self).direct_io_enabled(),
                mechanism,
                path_debug_text(path@),
            ),
    {
        self.begin(Operation::Open, mechanism, path)
    }
}

impl Opening {
    /// Ends the opening with `action`.
    fn finish(self, action: Action) -> (r: (Opening, Action))
        ensures
            r.0@ == (OpeningView { stage: StageView::Finished, ..self@ }),
            r.1 == action,
    {
        let Opening { operation, direct_io, mechanism, path_text, stage } = self;
        (Opening { operation, direct_io, mechanism, path_text, stage: Stage::Finished }, action)
    }

    /// Ends the opening with the error that `failure` becomes, under the
    /// message made of `head`, the path and `tail`.
    fn fail_with(self, failure: IoFailure, head: &str, tail: &str) -> (r: (Opening, Action))
        ensures
            r.0@ == (OpeningView { stage: StageView::Finished, ..self@ }),
            r.1@ == ActionView::Fail(
                ErrorView::from_io(failure@).with_context(head@ + self@.path_text + tail@),
            ),
    {
        let message = join3(head, self.path_text.as_str(), tail);
        self.finish(Action::Fail(Error::from_io(failure).with_context(message)))
    }

    /// Ends the opening with `first` under the message made of `head`, the
    /// path and `tail`.
    fn explain(self, first: Error, head: &str, tail: &str) -> (r: (Opening, Action))
        ensures
            r.0@ == (OpeningView { stage: StageView::Finished, ..self@ }),
            r.1@ == ActionView::Fail(first@.with_context(head@ + self@.path_text + tail@)),
    {
        let message = join3(head, self.path_text.as_str(), tail);
        self.finish(Action::Fail(first.with_context(message)))
    }

    /// Ends the opening because the event does not answer the action.
    fn misuse(self) -> (r: (Opening, Action))
        ensures
            r.0@ == (OpeningView { stage: StageView::Finished, ..self@ }),
            r.1@ == ActionView::Fail(misuse_error()),
    {
        let e = Error::new(
            ErrorKind::InvalidInput,
            "the event does not answer the action that was asked for",
        );
        self.finish(Action::Fail(e))
    }

    /// Goes on to `stage` and asks for `action`.
    fn go(self, stage: Stage, action: Action) -> (r: (Opening, Action))
        ensures
            r.0@ == (OpeningView { stage: stage@, ..self@ }),
            r.1 == action,
    {
        let Opening { operation, direct_io, mechanism, path_text, stage: _ } = self;
        (Opening { operation, direct_io, mechanism, path_text, stage }, action)
    }

    /// The file is open: disable caching where that is due, else finish.
    fn complete(self, was_created: bool) -> (r: (Opening, Action))
        ensures
            r.0@ == (OpeningView { stage: finalize(self@, was_created).0, ..self@ }),
            r.1@ == finalize(self@, was_created).1,
    {
        let control = self.direct_io && match self.mechanism {
            Mechanism::FileControl => true,
            _ => false,
        };
        if control {
            self.go(Stage::CacheControl(was_created), Action::DisableCache)
        } else {
            self.finish(Action::Finish { was_created })
        }
    }

    /// Whether the opening has ended.
    pub fn is_finished(&self) -> (finished: bool)
        ensures
            finished == (self@.stage is Finished),
    {
        match self.stage {
            Stage::Finished => true,
            _ => false,
        }
    }

    /// Takes what came of the last action and says what to do next.
    ///
    /// An event that does not answer the action that was asked for, or any
    /// event after the end, ends the opening with an error of kind
    /// [`ErrorKind::InvalidInput`].
    pub fn step(self, event: Event) -> (r: (Opening, Action))
        ensures
            (r.0@, r.1@) == self@.step(event@),
    {
        let Opening { operation, direct_io, mechanism, path_text, stage } = self;
        let rest = Opening { operation, direct_io, mechanism, path_text, stage: Stage::Finished };
        match stage {
            Stage::Directories => match event {
                Event::Done => {
                    let request = FileBuilder::primary_options(operation, direct_io, mechanism);
                    rest.go(Stage::Primary, Action::Open(request))
                },
                Event::Failed(f) => rest.fail_with(
                    f,
                    "We failed to create the parent directories of the file ",
                    ".",
                ),
                _ => rest.misuse(),
            },
            Stage::Primary => match event {
                Event::Done => match operation {
                    Operation::CreateIfAbsent => rest.go(Stage::Length, Action::ReadLength),
                    Operation::Create => rest.complete(true),
                    Operation::Open => rest.complete(false),
                },
                Event::Failed(f) => match mechanism {
                    Mechanism::OpenFlag => rest.go(
                        Stage::Existence(Error::from_io(f)),
                        Action::CheckExists,
                    ),
                    _ => rest.fail_with(f, "We cannot open the file ", "."),
                },
                _ => rest.misuse(),
            },
            Stage::Existence(first) => match event {
                Event::Exists(false) => match operation {
                    Operation::Open => rest.explain(
                        first,
                        "The file ",
                        " does not exist and failed to open it.",
                    ),
                    _ => rest.explain(first, "We failed to create the file ", "."),
                },
                Event::Exists(true) => rest.go(
                    Stage::PlainProbe(first),
                    Action::Probe(FileBuilder::probe_options(false)),
                ),
                _ => rest.misuse(),
            },
            Stage::PlainProbe(first) => match event {
                Event::Failed(f) => rest.fail_with(f, "We cannot open the file ", "."),
                Event::Done => {
                    if direct_io {
                        rest.go(
                            Stage::DirectProbe(first),
                            Action::Probe(FileBuilder::probe_options(true)),
                        )
                    } else {
                        rest.finish(Action::Fail(first))
                    }
                },
                _ => rest.misuse(),
            },
            Stage::DirectProbe(first) => match event {
                Event::Failed(f) => rest.fail_with(f, "We cannot open the file ", " with O_DIRECT."),
                Event::Done => rest.finish(Action::Fail(first)),
                _ => rest.misuse(),
            },
            Stage::Length => match event {
                Event::Length(length) => rest.complete(length == 0),
                Event::Failed(f) => rest.fail_with(f, "We failed to read the size of the file ", "."),
                _ => rest.misuse(),
            },
            Stage::CacheControl(was_created) => match event {
                Event::Done => rest.finish(Action::Finish { was_created }),
                Event::Failed(f) => rest.fail_with(
                    f,
                    "We failed to disable caching for the file ",
                    ".",
                ),
                _ => rest.misuse(),
            },
            Stage::Finished => rest.misuse(),
        }
    }
}

} // verus!
