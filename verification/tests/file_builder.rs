use disk_bench::error::{IoErrorKind, IoFailure};
use disk_bench::file_builder::{
    Action, Event, FileBuilder, Mechanism, OpenRequest, Opening, Operation,
};
use disk_bench::{Error, ErrorKind};

fn failure(kind: IoErrorKind, os_code: i32, message: &str) -> IoFailure {
    IoFailure { kind, os_code: Some(os_code), message: message.to_string(), source: None }
}

fn not_found() -> IoFailure {
    failure(IoErrorKind::NotFound, 2, "No such file or directory (os error 2)")
}

fn already_exists() -> IoFailure {
    failure(IoErrorKind::AlreadyExists, 17, "File exists (os error 17)")
}

fn invalid_argument() -> IoFailure {
    failure(IoErrorKind::InvalidInput, 22, "Invalid argument (os error 22)")
}

fn denied() -> IoFailure {
    failure(IoErrorKind::PermissionDenied, 13, "Permission denied (os error 13)")
}

fn request(create: bool, create_new: bool, direct: bool) -> OpenRequest {
    OpenRequest { read: true, write: true, create, create_new, direct }
}

/// Walks an opening through `events` and returns the last action.
fn walk(start: (Opening, Action), events: Vec<Event>) -> (Opening, Action) {
    let (mut state, mut action) = start;
    for event in events {
        assert!(!state.is_finished());
        let next = state.step(event);
        state = next.0;
        action = next.1;
    }
    (state, action)
}

fn failed(end: (Opening, Action)) -> Error {
    assert!(end.0.is_finished());
    match end.1 {
        Action::Fail(e) => e,
        other => panic!("the opening did not fail: {:?}", other),
    }
}

#[test]
fn a_new_builder_asks_for_direct_io() {
    let builder = FileBuilder::new();
    assert!(builder.open_options(Mechanism::OpenFlag).direct);
    assert_eq!(builder, FileBuilder::default());
}

#[test]
fn direct_io_can_be_switched_off_and_on() {
    let mut builder = FileBuilder::new();
    builder.direct_io(false);
    assert!(!builder.open_options(Mechanism::OpenFlag).direct);
    builder.direct_io(true);
    assert!(builder.open_options(Mechanism::OpenFlag).direct);
    assert!(!FileBuilder::new().direct_io(false).direct_io(false).open_options(Mechanism::OpenFlag).direct);
    assert!(FileBuilder::new().direct_io(false).direct_io(true).open_options(Mechanism::OpenFlag).direct);
}

#[test]
fn open_options_read_and_write_and_never_create() {
    for mechanism in [Mechanism::OpenFlag, Mechanism::FileControl, Mechanism::Neither] {
        for enabled in [false, true] {
            let options = FileBuilder::new().direct_io(enabled).open_options(mechanism);
            assert!(options.read);
            assert!(options.write);
            assert!(!options.create);
            assert!(!options.create_new);
            assert_eq!(options.direct, enabled && mechanism == Mechanism::OpenFlag);
        }
    }
}

#[test]
fn the_flag_is_passed_only_where_the_platform_has_one() {
    let builder = FileBuilder::new();
    assert_eq!(builder.open_options(Mechanism::OpenFlag), request(false, false, true));
    assert_eq!(builder.open_options(Mechanism::FileControl), request(false, false, false));
    assert_eq!(builder.open_options(Mechanism::Neither), request(false, false, false));
}

#[test]
fn the_builder_is_unchanged_by_an_opening() {
    let mut builder = FileBuilder::new();
    builder.direct_io(false);
    let before = builder;
    let _ = builder.create(Mechanism::OpenFlag, "a.bin");
    let _ = builder.create_if_absent(Mechanism::FileControl, "a.bin");
    let _ = builder.open(Mechanism::Neither, "a.bin");
    assert_eq!(builder, before);
}

#[test]
fn create_begins_with_the_parent_directories() {
    let (state, action) = FileBuilder::new().create(Mechanism::OpenFlag, "dir/hoge.bin");
    assert!(!state.is_finished());
    assert_eq!(action, Action::CreateParentDirectories);
    let (_, action) = FileBuilder::new().create_if_absent(Mechanism::Neither, "hoge.bin");
    assert_eq!(action, Action::CreateParentDirectories);
}

#[test]
fn open_begins_with_the_open_and_makes_no_directories() {
    let (state, action) = FileBuilder::new().open(Mechanism::OpenFlag, "hoge.bin");
    assert!(!state.is_finished());
    assert_eq!(action, Action::Open(request(false, false, true)));
}

#[test]
fn begin_is_what_the_three_operations_call() {
    let mut builder = FileBuilder::new();
    assert_eq!(
        builder.begin(Operation::Create, Mechanism::OpenFlag, "a"),
        builder.create(Mechanism::OpenFlag, "a")
    );
    assert_eq!(
        builder.begin(Operation::CreateIfAbsent, Mechanism::FileControl, "a"),
        builder.create_if_absent(Mechanism::FileControl, "a")
    );
    assert_eq!(
        builder.begin(Operation::Open, Mechanism::Neither, "a"),
        builder.open(Mechanism::Neither, "a")
    );
}

#[test]
fn begin_with_shows_the_path_as_it_is_given() {
    let builder = FileBuilder::new();
    let start = builder.begin_with(Operation::Open, Mechanism::Neither, "<the file>".to_string());
    assert_eq!(start.1, Action::Open(request(false, false, false)));
    let e = failed(walk(start, vec![Event::Failed(not_found())]));
    assert_eq!(e.context(), &vec!["We cannot open the file <the file>.".to_string()]);
    let start = builder.begin_with(Operation::Create, Mechanism::OpenFlag, String::new());
    assert_eq!(start.1, Action::CreateParentDirectories);
    let e = failed(walk(start, vec![Event::Done, Event::Failed(denied()), Event::Exists(false)]));
    assert_eq!(e.context(), &vec!["We failed to create the file .".to_string()]);
}

#[test]
fn begin_quotes_the_path() {
    let builder = FileBuilder::new();
    assert_eq!(
        builder.begin(Operation::Open, Mechanism::OpenFlag, "hoge.bin"),
        builder.begin_with(Operation::Open, Mechanism::OpenFlag, "\"hoge.bin\"".to_string())
    );
    assert_ne!(
        builder.begin(Operation::Open, Mechanism::OpenFlag, "hoge.bin"),
        builder.begin_with(Operation::Open, Mechanism::OpenFlag, "hoge.bin".to_string())
    );
}

#[test]
fn create_on_a_fresh_path_succeeds() {
    let start = FileBuilder::new().create(Mechanism::OpenFlag, "hoge.bin");
    let (state, action) = walk(start, vec![Event::Done]);
    assert_eq!(action, Action::Open(request(false, true, true)));
    let (state, action) = walk((state, action), vec![Event::Done]);
    assert!(state.is_finished());
    assert_eq!(action, Action::Finish { was_created: true });
}

#[test]
fn create_on_an_existing_path_fails() {
    let start = FileBuilder::new().create(Mechanism::OpenFlag, "hoge.bin");
    let (state, action) = walk(start, vec![Event::Done, Event::Failed(already_exists())]);
    assert_eq!(action, Action::CheckExists);
    let (state, action) = walk((state, action), vec![Event::Exists(true)]);
    assert_eq!(action, Action::Probe(request(false, false, false)));
    let (state, action) = walk((state, action), vec![Event::Done]);
    assert_eq!(action, Action::Probe(request(false, false, true)));
    let e = failed(walk((state, action), vec![Event::Done]));
    assert_eq!(e, Error::from_io(already_exists()));
    assert_eq!(e.kind(), ErrorKind::Other);
    assert_eq!(e.os_code(), Some(17));
    assert!(e.context().is_empty());
}

#[test]
fn create_on_an_existing_path_fails_on_every_platform() {
    for mechanism in [Mechanism::FileControl, Mechanism::Neither] {
        for enabled in [false, true] {
            let start = FileBuilder::new().direct_io(enabled).create(mechanism, "hoge.bin");
            let e = failed(walk(start, vec![Event::Done, Event::Failed(already_exists())]));
            assert_eq!(e.kind(), ErrorKind::Other);
            assert_eq!(e.cause(), "File exists (os error 17)");
            assert_eq!(e.context(), &vec!["We cannot open the file \"hoge.bin\".".to_string()]);
        }
    }
}

#[test]
fn create_if_absent_reports_a_new_file_by_its_empty_size() {
    let start = FileBuilder::new().create_if_absent(Mechanism::OpenFlag, "hoge.bin");
    let (state, action) = walk(start, vec![Event::Done]);
    assert_eq!(action, Action::Open(request(true, false, true)));
    let (state, action) = walk((state, action), vec![Event::Done]);
    assert_eq!(action, Action::ReadLength);
    let (state, action) = walk((state, action), vec![Event::Length(0)]);
    assert!(state.is_finished());
    assert_eq!(action, Action::Finish { was_created: true });
}

#[test]
fn create_if_absent_reports_an_old_file_by_its_size() {
    for length in [1u64, 512, 1 << 40, u64::MAX] {
        let start = FileBuilder::new().create_if_absent(Mechanism::OpenFlag, "hoge.bin");
        let (state, action) = walk(start, vec![Event::Done, Event::Done, Event::Length(length)]);
        assert!(state.is_finished());
        assert_eq!(action, Action::Finish { was_created: false });
    }
}

#[test]
fn create_if_absent_twice_on_one_path() {
    let mut builder = FileBuilder::new();
    let first = walk(
        builder.create_if_absent(Mechanism::OpenFlag, "twice.bin"),
        vec![Event::Done, Event::Done, Event::Length(0)],
    );
    assert_eq!(first.1, Action::Finish { was_created: true });
    let second = walk(
        builder.create_if_absent(Mechanism::OpenFlag, "twice.bin"),
        vec![Event::Done, Event::Done, Event::Length(512)],
    );
    assert_eq!(second.1, Action::Finish { was_created: false });
}

#[test]
fn create_if_absent_fails_when_the_size_cannot_be_read() {
    let start = FileBuilder::new().create_if_absent(Mechanism::Neither, "hoge.bin");
    let e = failed(walk(start, vec![Event::Done, Event::Done, Event::Failed(denied())]));
    assert_eq!(e.kind(), ErrorKind::Other);
    assert_eq!(e.cause(), "Permission denied (os error 13)");
    assert_eq!(e.os_code(), Some(13));
    assert_eq!(
        e.context(),
        &vec!["We failed to read the size of the file \"hoge.bin\".".to_string()]
    );
}

#[test]
fn failing_to_make_the_directories_ends_the_opening() {
    for mechanism in [Mechanism::OpenFlag, Mechanism::FileControl, Mechanism::Neither] {
        let start = FileBuilder::new().create(mechanism, "no/such/hoge.bin");
        let e = failed(walk(start, vec![Event::Failed(denied())]));
        assert_eq!(e.kind(), ErrorKind::Other);
        assert_eq!(e.cause(), "Permission denied (os error 13)");
        assert_eq!(
            e.context(),
            &vec![
                "We failed to create the parent directories of the file \"no/such/hoge.bin\"."
                    .to_string()
            ]
        );
    }
}

#[test]
fn open_on_an_existing_path_succeeds() {
    let start = FileBuilder::new().open(Mechanism::OpenFlag, "hoge.bin");
    let (state, action) = walk(start, vec![Event::Done]);
    assert!(state.is_finished());
    assert_eq!(action, Action::Finish { was_created: false });
}

#[test]
fn open_on_a_missing_path_fails() {
    let start = FileBuilder::new().open(Mechanism::OpenFlag, "nope.bin");
    let (state, action) = walk(start, vec![Event::Failed(not_found())]);
    assert_eq!(action, Action::CheckExists);
    let e = failed(walk((state, action), vec![Event::Exists(false)]));
    assert_eq!(e.kind(), ErrorKind::Other);
    assert_eq!(e.cause(), "No such file or directory (os error 2)");
    assert_eq!(e.os_code(), Some(2));
    assert_eq!(
        e.context(),
        &vec!["The file \"nope.bin\" does not exist and failed to open it.".to_string()]
    );
    assert_eq!(
        e.describe(),
        "Other: No such file or directory (os error 2)\n  [0] The file \"nope.bin\" does not exist and failed to open it."
    );
}

#[test]
fn open_on_a_missing_path_fails_without_probing_where_there_is_no_flag() {
    for mechanism in [Mechanism::FileControl, Mechanism::Neither] {
        let start = FileBuilder::new().open(mechanism, "nope.bin");
        let e = failed(walk(start, vec![Event::Failed(not_found())]));
        assert_eq!(e.kind(), ErrorKind::Other);
        assert_eq!(e.cause(), "No such file or directory (os error 2)");
        assert_eq!(e.context(), &vec!["We cannot open the file \"nope.bin\".".to_string()]);
    }
}

#[test]
fn a_create_that_fails_on_a_missing_path_says_so() {
    for enabled in [false, true] {
        let start = FileBuilder::new().direct_io(enabled).create(Mechanism::OpenFlag, "d/new.bin");
        let e = failed(walk(
            start,
            vec![Event::Done, Event::Failed(denied()), Event::Exists(false)],
        ));
        assert_eq!(e.kind(), ErrorKind::Other);
        assert_eq!(e.cause(), "Permission denied (os error 13)");
        assert_eq!(e.context(), &vec!["We failed to create the file \"d/new.bin\".".to_string()]);
    }
    let start = FileBuilder::new().create_if_absent(Mechanism::OpenFlag, "d/new.bin");
    let e = failed(walk(start, vec![Event::Done, Event::Failed(denied()), Event::Exists(false)]));
    assert_eq!(e.context(), &vec!["We failed to create the file \"d/new.bin\".".to_string()]);
}

#[test]
fn a_file_that_cannot_be_opened_at_all() {
    let start = FileBuilder::new().open(Mechanism::OpenFlag, "locked.bin");
    let (state, action) =
        walk(start, vec![Event::Failed(invalid_argument()), Event::Exists(true)]);
    assert_eq!(action, Action::Probe(request(false, false, false)));
    let e = failed(walk((state, action), vec![Event::Failed(denied())]));
    assert_eq!(e.kind(), ErrorKind::Other);
    assert_eq!(e.cause(), "Permission denied (os error 13)");
    assert_eq!(e.os_code(), Some(13));
    assert_eq!(e.context(), &vec!["We cannot open the file \"locked.bin\".".to_string()]);
}

#[test]
fn a_file_that_cannot_be_opened_with_the_direct_flag() {
    let start = FileBuilder::new().open(Mechanism::OpenFlag, "tmpfs.bin");
    let (state, action) = walk(
        start,
        vec![Event::Failed(invalid_argument()), Event::Exists(true), Event::Done],
    );
    assert_eq!(action, Action::Probe(request(false, false, true)));
    let e = failed(walk((state, action), vec![Event::Failed(invalid_argument())]));
    assert_eq!(e.kind(), ErrorKind::InvalidInput);
    assert_eq!(e.cause(), "Invalid argument (os error 22)");
    assert_eq!(e.os_code(), Some(22));
    assert_eq!(
        e.context(),
        &vec!["We cannot open the file \"tmpfs.bin\" with O_DIRECT.".to_string()]
    );
}

#[test]
fn a_failure_that_nothing_explains_comes_back_unchanged() {
    let start = FileBuilder::new().open(Mechanism::OpenFlag, "odd.bin");
    let e = failed(walk(
        start,
        vec![Event::Failed(invalid_argument()), Event::Exists(true), Event::Done, Event::Done],
    ));
    assert_eq!(e, Error::from_io(invalid_argument()));
    assert!(e.context().is_empty());
}

#[test]
fn without_direct_io_the_direct_probe_is_left_out() {
    let start = FileBuilder::new().direct_io(false).open(Mechanism::OpenFlag, "odd.bin");
    assert_eq!(start.1, Action::Open(request(false, false, false)));
    let e = failed(walk(start, vec![Event::Failed(denied()), Event::Exists(true), Event::Done]));
    assert_eq!(e, Error::from_io(denied()));
}

#[test]
fn file_control_follows_a_successful_open() {
    let start = FileBuilder::new().open(Mechanism::FileControl, "hoge.bin");
    assert_eq!(start.1, Action::Open(request(false, false, false)));
    let (state, action) = walk(start, vec![Event::Done]);
    assert!(!state.is_finished());
    assert_eq!(action, Action::DisableCache);
    let (state, action) = walk((state, action), vec![Event::Done]);
    assert!(state.is_finished());
    assert_eq!(action, Action::Finish { was_created: false });
}

#[test]
fn file_control_keeps_whether_the_file_is_new() {
    for (length, was_created) in [(0u64, true), (4096, false)] {
        let start = FileBuilder::new().create_if_absent(Mechanism::FileControl, "hoge.bin");
        let (state, action) = walk(start, vec![Event::Done, Event::Done, Event::Length(length)]);
        assert_eq!(action, Action::DisableCache);
        let (_, action) = walk((state, action), vec![Event::Done]);
        assert_eq!(action, Action::Finish { was_created });
    }
    let start = FileBuilder::new().create(Mechanism::FileControl, "hoge.bin");
    let (_, action) = walk(start, vec![Event::Done, Event::Done, Event::Done]);
    assert_eq!(action, Action::Finish { was_created: true });
}

#[test]
fn file_control_that_fails_ends_the_opening_with_the_system_code() {
    let start = FileBuilder::new().create(Mechanism::FileControl, "hoge.bin");
    let e = failed(walk(
        start,
        vec![
            Event::Done,
            Event::Done,
            Event::Failed(failure(IoErrorKind::Other, 25, "Inappropriate ioctl for device (os error 25)")),
        ],
    ));
    assert_eq!(e.kind(), ErrorKind::Other);
    assert_eq!(e.os_code(), Some(25));
    assert_eq!(e.cause(), "Inappropriate ioctl for device (os error 25)");
    assert_eq!(
        e.context(),
        &vec!["We failed to disable caching for the file \"hoge.bin\".".to_string()]
    );
}

#[test]
fn file_control_is_left_out_without_direct_io() {
    let start = FileBuilder::new().direct_io(false).open(Mechanism::FileControl, "hoge.bin");
    let (state, action) = walk(start, vec![Event::Done]);
    assert!(state.is_finished());
    assert_eq!(action, Action::Finish { was_created: false });
}

#[test]
fn a_platform_with_neither_mechanism_just_opens() {
    for enabled in [false, true] {
        let mut builder = FileBuilder::new();
        builder.direct_io(enabled);
        let start = builder.create_if_absent(Mechanism::Neither, "hoge.bin");
        let (state, action) = walk(start, vec![Event::Done]);
        assert_eq!(action, Action::Open(request(true, false, false)));
        let (_, action) = walk((state, action), vec![Event::Done, Event::Length(0)]);
        assert_eq!(action, Action::Finish { was_created: true });
    }
}

#[test]
fn the_path_is_written_as_debug_formatting_writes_it() {
    let start = FileBuilder::new().open(Mechanism::Neither, "a \"b\"\\c\n.bin");
    let e = failed(walk(start, vec![Event::Failed(not_found())]));
    let expected = format!("We cannot open the file {:?}.", std::path::Path::new("a \"b\"\\c\n.bin"));
    assert_eq!(e.context(), &vec![expected]);
    assert_eq!(e.context()[0], "We cannot open the file \"a \\\"b\\\"\\\\c\\n.bin\".");
}

#[test]
fn an_event_that_does_not_answer_the_action_is_refused() {
    let misuse = Error::new(
        ErrorKind::InvalidInput,
        "the event does not answer the action that was asked for",
    );
    let cases: Vec<(Vec<Event>, Event)> = vec![
        (vec![], Event::Exists(true)),
        (vec![], Event::Length(0)),
        (vec![Event::Done], Event::Exists(false)),
        (vec![Event::Done], Event::Length(3)),
        (vec![Event::Done, Event::Failed(denied())], Event::Done),
        (vec![Event::Done, Event::Failed(denied())], Event::Failed(denied())),
        (vec![Event::Done, Event::Failed(denied())], Event::Length(0)),
        (vec![Event::Done, Event::Failed(denied()), Event::Exists(true)], Event::Exists(true)),
        (
            vec![Event::Done, Event::Failed(denied()), Event::Exists(true), Event::Done],
            Event::Length(1),
        ),
        (vec![Event::Done, Event::Done], Event::Done),
        (vec![Event::Done, Event::Done], Event::Exists(true)),
    ];
    for (events, wrong) in cases {
        let start = FileBuilder::new().create_if_absent(Mechanism::OpenFlag, "hoge.bin");
        let (state, _) = walk(start, events);
        assert!(!state.is_finished());
        let e = failed(state.step(wrong));
        assert_eq!(e, misuse);
    }
    let start = FileBuilder::new().open(Mechanism::FileControl, "hoge.bin");
    let (state, _) = walk(start, vec![Event::Done]);
    assert_eq!(failed(state.step(Event::Length(0))).kind(), ErrorKind::InvalidInput);
}

#[test]
fn every_event_after_the_end_is_refused() {
    let start = FileBuilder::new().open(Mechanism::Neither, "hoge.bin");
    let (state, action) = walk(start, vec![Event::Done]);
    assert_eq!(action, Action::Finish { was_created: false });
    assert!(state.is_finished());
    let (state, action) = state.step(Event::Done);
    assert!(state.is_finished());
    match action {
        Action::Fail(e) => assert_eq!(e.kind(), ErrorKind::InvalidInput),
        other => panic!("{:?}", other),
    }
    let (state, action) = state.step(Event::Failed(denied()));
    assert!(state.is_finished());
    assert!(matches!(action, Action::Fail(_)));
}

#[test]
fn a_failure_that_carries_an_error_of_this_crate_hands_it_on() {
    let inner = Error::new(ErrorKind::InvalidInput, "513");
    let carried = inner.clone().into_io();
    let start = FileBuilder::new().open(Mechanism::Neither, "hoge.bin");
    let e = failed(walk(start, vec![Event::Failed(carried)]));
    assert_eq!(e.kind(), ErrorKind::InvalidInput);
    assert_eq!(e.cause(), "513");
    assert_eq!(e.context(), &vec!["We cannot open the file \"hoge.bin\".".to_string()]);
}

/// What a file system answers, for a walk that needs no scripting.
struct World {
    directories: Option<IoFailure>,
    primary: Option<IoFailure>,
    exists: bool,
    plain: Option<IoFailure>,
    direct: Option<IoFailure>,
    length: Result<u64, IoFailure>,
    cache: Option<IoFailure>,
}

fn done_unless(failure: &Option<IoFailure>) -> Event {
    match failure {
        Some(f) => Event::Failed(f.clone()),
        None => Event::Done,
    }
}

fn run(start: (Opening, Action), world: &World) -> (Action, usize) {
    let (mut state, mut action) = start;
    let mut steps = 0;
    loop {
        let event = match &action {
            Action::Finish { .. } | Action::Fail(_) => return (action, steps),
            Action::CreateParentDirectories => done_unless(&world.directories),
            Action::Open(_) => done_unless(&world.primary),
            Action::CheckExists => Event::Exists(world.exists),
            Action::Probe(r) => done_unless(if r.direct { &world.direct } else { &world.plain }),
            Action::ReadLength => match &world.length {
                Ok(n) => Event::Length(*n),
                Err(f) => Event::Failed(f.clone()),
            },
            Action::DisableCache => done_unless(&world.cache),
        };
        let next = state.step(event);
        state = next.0;
        action = next.1;
        steps += 1;
    }
}

#[test]
fn every_opening_ends_within_five_steps() {
    let choices = [None, Some(denied())];
    for operation in [Operation::CreateIfAbsent, Operation::Create, Operation::Open] {
        for mechanism in [Mechanism::OpenFlag, Mechanism::FileControl, Mechanism::Neither] {
            for enabled in [false, true] {
                for bits in 0u32..128 {
                    let pick = |i: u32| choices[((bits >> i) & 1) as usize].clone();
                    let world = World {
                        directories: pick(0),
                        primary: pick(1),
                        exists: bits & 4 != 0,
                        plain: pick(3),
                        direct: pick(4),
                        length: match pick(5) {
                            Some(f) => Err(f),
                            None => Ok(0),
                        },
                        cache: pick(6),
                    };
                    let mut builder = FileBuilder::new();
                    builder.direct_io(enabled);
                    let (action, steps) = run(builder.begin(operation, mechanism, "w.bin"), &world);
                    assert!(steps <= 5);
                    let opened = (operation == Operation::Open || world.directories.is_none())
                        && world.primary.is_none();
                    match action {
                        Action::Finish { was_created } => {
                            assert!(opened);
                            assert_eq!(was_created, operation != Operation::Open);
                        },
                        Action::Fail(e) => {
                            assert_eq!(e.kind(), ErrorKind::Other);
                            assert_eq!(e.cause(), "Permission denied (os error 13)");
                        },
                        other => panic!("{:?}", other),
                    }
                }
            }
        }
    }
}
