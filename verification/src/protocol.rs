//! What an opening comes to, whatever the file system answers.
//!
//! [`outcome`] says how an opening ends as a function of the answers that
//! the file system gives. The steps of an opening are shown to end that way,
//! and to keep a number of rules on the way.

use vstd::prelude::*;
use crate::error::{kind_from_io, ErrorView, IoFailureView};
use crate::file_builder::{
    cache_message, cannot_open_direct_message, cannot_open_message, create_failed_message, creates,
    directories_message, length_message, missing_message, primary_request, start, ActionView,
    EventView, Mechanism, OpeningView, Operation, StageView,
};

verus! {

/// What the file system answers to each action that an opening can ask for.
/// A failure that is absent stands for success.
pub struct Answers {
    /// The making of the parent directories.
    pub directories: Option<IoFailureView>,
    /// The open that yields the handle.
    pub primary: Option<IoFailureView>,
    /// Whether the path exists.
    pub exists: bool,
    /// The open without the direct-I/O flag that only probes.
    pub plain: Option<IoFailureView>,
    /// The open with the direct-I/O flag that only probes.
    pub direct: Option<IoFailureView>,
    /// The size of the file.
    pub length: Result<u64, IoFailureView>,
    /// The file control that disables caching.
    pub cache: Option<IoFailureView>,
}

/// The event for an action that succeeds unless a failure is given.
pub open spec fn done_unless(failure: Option<IoFailureView>) -> EventView {
    match failure {
        Some(f) => EventView::Failed(f),
        None => EventView::Done,
    }
}

/// The event that `action` leads to in a file system that answers as
/// `world` says.
pub open spec fn answer(world: Answers, action: ActionView) -> EventView {
    match action {
        ActionView::CreateParentDirectories => done_unless(world.directories),
        ActionView::Open(_) => done_unless(world.primary),
        ActionView::CheckExists => EventView::Exists(world.exists),
        ActionView::Probe(request) => if request.direct {
            done_unless(world.direct)
        } else {
            done_unless(world.plain)
        },
        ActionView::ReadLength => match world.length {
            Ok(length) => EventView::Length(length),
            Err(f) => EventView::Failed(f),
        },
        ActionView::DisableCache => done_unless(world.cache),
        ActionView::Finish { .. } => EventView::Done,
        ActionView::Fail(_) => EventView::Done,
    }
}

/// The action that an opening ends with when each of its actions is
/// answered as `world` says, or the action that it has come to after
/// `steps` steps.
pub open spec fn run(state: OpeningView, action: ActionView, world: Answers, steps: nat) -> ActionView
    decreases steps,
{
    if action.is_final() || steps == 0 {
        action
    } else {
        let (next, asked) = state.step(answer(world, action));
        run(next, asked, world, (steps - 1) as nat)
    }
}

/// Why the open failed, on a platform with an open flag. `first` is the
/// error of the open that failed.
///
/// A path that does not exist explains the failure. Else, if the path cannot
/// be opened even without the direct-I/O flag, that failure is reported.
/// Else, if direct I/O was asked for and the path cannot be opened with the
/// flag, that failure is reported. Else nothing explains the failure, and
/// the first error comes back as it is.
pub open spec fn diagnosis(
    operation: Operation,
    direct_io: bool,
    path_text: Seq<char>,
    first: ErrorView,
    world: Answers,
) -> ErrorView {
    if !world.exists {
        if creates(operation) {
            first.with_context(create_failed_message(path_text))
        } else {
            first.with_context(missing_message(path_text))
        }
    } else if world.plain is Some {
        ErrorView::from_io(world.plain->0).with_context(cannot_open_message(path_text))
    } else if direct_io && world.direct is Some {
        ErrorView::from_io(world.direct->0).with_context(cannot_open_direct_message(path_text))
    } else {
        first
    }
}

/// How an opening ends in a file system that answers as `world` says.
pub open spec fn outcome(
    operation: Operation,
    direct_io: bool,
    mechanism: Mechanism,
    path_text: Seq<char>,
    world: Answers,
) -> ActionView {
    if creates(operation) && world.directories is Some {
        ActionView::Fail(
            ErrorView::from_io(world.directories->0).with_context(directories_message(path_text)),
        )
    } else if world.primary is Some {
        let first = ErrorView::from_io(world.primary->0);
        if mechanism == Mechanism::OpenFlag {
            ActionView::Fail(diagnosis(operation, direct_io, path_text, first, world))
        } else {
            ActionView::Fail(first.with_context(cannot_open_message(path_text)))
        }
    } else if operation == Operation::CreateIfAbsent && world.length is Err {
        ActionView::Fail(
            ErrorView::from_io(world.length->Err_0).with_context(length_message(path_text)),
        )
    } else if mechanism == Mechanism::FileControl && direct_io && world.cache is Some {
        ActionView::Fail(ErrorView::from_io(world.cache->0).with_context(cache_message(path_text)))
    } else {
        ActionView::Finish {
            was_created: match operation {
                Operation::CreateIfAbsent => world.length == Ok::<u64, IoFailureView>(0),
                Operation::Create => true,
                Operation::Open => false,
            },
        }
    }
}

/// How far a stage is from the end, at most, in steps.
pub open spec fn distance(stage: StageView) -> nat {
    match stage {
        StageView::Directories => 5,
        StageView::Primary => 4,
        StageView::Existence(_) => 3,
        StageView::PlainProbe(_) => 2,
        StageView::DirectProbe(_) => 1,
        StageView::Length => 2,
        StageView::CacheControl(_) => 1,
        StageView::Finished => 0,
    }
}

/// Whether the stage belongs to the search for the reason of a failed open.
pub open spec fn diagnosing(stage: StageView) -> bool {
    stage is Existence || stage is PlainProbe || stage is DirectProbe
}

impl Answers {
    /// Whether every failure is the file system's own: none was made from an
    /// error of this crate.
    pub open spec fn fresh(self) -> bool {
        &&& self.directories matches Some(f) ==> f.source is None
        &&& self.primary matches Some(f) ==> f.source is None
        &&& self.plain matches Some(f) ==> f.source is None
        &&& self.direct matches Some(f) ==> f.source is None
        &&& self.length matches Err(f) ==> f.source is None
        &&& self.cache matches Some(f) ==> f.source is None
    }

    /// Whether `failure` is one of the failures that the file system answers
    /// with.
    pub open spec fn has(self, failure: IoFailureView) -> bool {
        ||| self.directories == Some(failure)
        ||| self.primary == Some(failure)
        ||| self.plain == Some(failure)
        ||| self.direct == Some(failure)
        ||| self.length == Err::<u64, IoFailureView>(failure)
        ||| self.cache == Some(failure)
    }
}

/// Whether `message` is one of the messages that name the path and say what
/// was being done to it.
pub open spec fn names_path(message: Seq<char>, path_text: Seq<char>) -> bool {
    ||| message == create_failed_message(path_text)
    ||| message == missing_message(path_text)
    ||| message == cannot_open_message(path_text)
    ||| message == cannot_open_direct_message(path_text)
    ||| message == directories_message(path_text)
    ||| message == length_message(path_text)
    ||| message == cache_message(path_text)
}

/// Whether the open fails and the search finds no reason: the path exists
/// and can be opened by every probe that is made.
pub open spec fn unexplained(
    operation: Operation,
    direct_io: bool,
    mechanism: Mechanism,
    world: Answers,
) -> bool {
    &&& !(creates(operation) && world.directories is Some)
    &&& world.primary is Some
    &&& mechanism == Mechanism::OpenFlag
    &&& world.exists
    &&& world.plain is None
    &&& !(direct_io && world.direct is Some)
}

/// An opening ends as the protocol says. Whatever the file system answers,
/// at most five actions are performed before the opening finishes or fails,
/// and it finishes or fails as [`outcome`] describes.
pub proof fn lemma_opening_follows_protocol(
    operation: Operation,
    direct_io: bool,
    mechanism: Mechanism,
    path_text: Seq<char>,
    world: Answers,
)
    ensures
        ({
            let (state, action) = start(operation, direct_io, mechanism, path_text);
            run(state, action, world, 5)
        }) == outcome(operation, direct_io, mechanism, path_text, world),
        outcome(operation, direct_io, mechanism, path_text, world).is_final(),
{
    reveal_with_fuel(run, 6);
}

/// Every step brings an opening nearer to its end, and the action that
/// ends it comes exactly with the last stage. Whatever the events are, an
/// opening is over after five steps.
pub proof fn lemma_step_makes_progress(state: OpeningView, event: EventView)
    ensures
        distance(state.stage) <= 5,
        !(state.stage is Finished) ==> distance(state.step(event).0.stage) < distance(state.stage),
        state.step(event).1.is_final() <==> state.step(event).0.stage is Finished,
        state.step(event).0.operation == state.operation,
        state.step(event).0.direct_io == state.direct_io,
        state.step(event).0.mechanism == state.mechanism,
        state.step(event).0.path_text == state.path_text,
{
}

/// The handle of a probe is never handed out: once the open that yields the
/// handle has failed, the opening can only search on or fail.
pub proof fn lemma_failed_open_never_finishes(state: OpeningView, event: EventView)
    requires
        diagnosing(state.stage) || (state.stage is Primary && event is Failed),
    ensures
        !(state.step(event).1 is Finish),
        diagnosing(state.step(event).0.stage) || state.step(event).0.stage is Finished,
{
}

/// The search for the reason of a failure happens only where direct I/O is
/// asked for by an open flag.
pub proof fn lemma_only_open_flag_is_diagnosed(state: OpeningView, event: EventView)
    requires
        state.mechanism != Mechanism::OpenFlag,
        !diagnosing(state.stage),
    ensures
        !diagnosing(state.step(event).0.stage),
        !(state.step(event).1 is CheckExists),
        !(state.step(event).1 is Probe),
{
}

/// Caching is disabled by file control only on a platform that has that
/// call, only if direct I/O was asked for, and only on a file that is open.
pub proof fn lemma_cache_control(state: OpeningView, event: EventView)
    requires
        state.step(event).1 is DisableCache,
    ensures
        state.mechanism == Mechanism::FileControl,
        state.direct_io,
        (state.stage is Primary && event is Done) || (state.stage is Length && event is Length),
{
}

/// No open but the first can create a file, the first creates only as the
/// operation says, and an opening of an existing file never creates. No
/// request ever asks to truncate: the options have no such choice.
pub proof fn lemma_requests(state: OpeningView, event: EventView)
    ensures
        state.step(event).1 matches ActionView::Probe(request) ==> !request.create
            && !request.create_new && request.read && request.write,
        state.step(event).1 matches ActionView::Open(request) ==> request == primary_request(
            state.operation,
            state.direct_io,
            state.mechanism,
        ),
        !creates(state.operation) ==> !primary_request(
            state.operation,
            state.direct_io,
            state.mechanism,
        ).create && !primary_request(state.operation, state.direct_io, state.mechanism).create_new,
{
}

/// An opening that creates the file if it is missing reports the file as
/// new exactly when its size is zero after the open.
pub proof fn lemma_new_means_empty(
    direct_io: bool,
    mechanism: Mechanism,
    path_text: Seq<char>,
    world: Answers,
)
    requires
        outcome(Operation::CreateIfAbsent, direct_io, mechanism, path_text, world) is Finish,
    ensures
        world.length is Ok,
        outcome(
            Operation::CreateIfAbsent,
            direct_io,
            mechanism,
            path_text,
            world,
        )->was_created == (world.length->Ok_0 == 0),
{
}

/// No cause is lost and no error is made up: an opening fails only with a
/// failure that the file system answered with, keeps that failure's
/// description, code and category, and attaches exactly one message, which
/// names the path and the operation. The one exception is the failed open
/// that nothing explains: its error comes back with nothing attached.
pub proof fn lemma_failures_are_attributed(
    operation: Operation,
    direct_io: bool,
    mechanism: Mechanism,
    path_text: Seq<char>,
    world: Answers,
)
    requires
        world.fresh(),
        outcome(operation, direct_io, mechanism, path_text, world) is Fail,
    ensures
        ({
            let e = outcome(operation, direct_io, mechanism, path_text, world)->Fail_0;
            &&& exists|f: IoFailureView|
                {
                    &&& #[trigger] world.has(f)
                    &&& e.cause == f.message
                    &&& e.os_code == f.os_code
                    &&& e.kind == kind_from_io(f.kind)
                }
            &&& if unexplained(operation, direct_io, mechanism, world) {
                e.context.len() == 0
            } else {
                e.context.len() == 1 && names_path(e.context[0], path_text)
            }
        }),
{
    let f = if creates(operation) && world.directories is Some {
        world.directories->0
    } else if world.primary is Some {
        if mechanism != Mechanism::OpenFlag || !world.exists {
            world.primary->0
        } else if world.plain is Some {
            world.plain->0
        } else if direct_io && world.direct is Some {
            world.direct->0
        } else {
            world.primary->0
        }
    } else if operation == Operation::CreateIfAbsent && world.length is Err {
        world.length->Err_0
    } else {
        world.cache->0
    };
    assert(world.has(f));
}

/// An opening finishes with a handle exactly when every action on the way
/// to it succeeds: the directories where the operation creates, the open,
/// the reading of the size where the operation asks whether the file is
/// new, and the file control where it is due.
pub proof fn lemma_finishes_iff_all_succeed(
    operation: Operation,
    direct_io: bool,
    mechanism: Mechanism,
    path_text: Seq<char>,
    world: Answers,
)
    ensures
        outcome(operation, direct_io, mechanism, path_text, world) is Finish <==> {
            &&& creates(operation) ==> world.directories is None
            &&& world.primary is None
            &&& operation == Operation::CreateIfAbsent ==> world.length is Ok
            &&& mechanism == Mechanism::FileControl && direct_io ==> world.cache is None
        },
{
}

} // verus!
