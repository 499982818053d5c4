use sonos_cli::{Command, Line, Next, Outcome, RepeatMode, Reply, Request, Session, Step};

fn s(text: &str) -> String {
    text.to_string()
}

fn texts(step: &Step) -> Vec<(String, bool)> {
    step.lines.iter().map(|l: &Line| (l.text.clone(), l.to_stderr)).collect()
}

fn out(text: &str) -> (String, bool) {
    (text.to_string(), false)
}

fn is_call(step: &Step) -> Option<&Request> {
    match &step.next {
        Next::Call(r) => Some(r),
        Next::Finish(_) => None,
    }
}

fn outcome(step: &Step) -> Option<Outcome> {
    match &step.next {
        Next::Call(_) => None,
        Next::Finish(o) => Some(*o),
    }
}

/// Starts `command`, checks that it looks its room up, and answers that the
/// speaker was found; returns the session and the first call on the speaker.
fn found(command: Command, room: &str) -> (Session, Request) {
    let (mut session, first) = Session::begin(command);
    match first {
        Request::Find { room: r } => assert_eq!(r, room),
        other => panic!("expected a lookup, got {:?}", other),
    }
    let step = session.step(Reply::Found { found: true });
    assert!(step.lines.is_empty());
    let op = is_call(&step).expect("a call on the speaker").clone();
    (session, op)
}

#[test]
fn info_starts_with_discovery() {
    let (session, first) = Session::begin(Command::Info);
    assert!(matches!(first, Request::Discover));
    assert!(matches!(session.pending, Request::Discover));
    assert_eq!(session.room, "");
    assert!(!session.done);
}

#[test]
fn simple_commands_map_to_their_operation() {
    let cases: Vec<(Command, fn(&Request) -> bool)> = vec![
        (Command::Stop { name: s("Den") }, |r| matches!(r, Request::Stop)),
        (Command::Play { name: s("Den") }, |r| matches!(r, Request::Play)),
        (Command::Pause { name: s("Den") }, |r| matches!(r, Request::Pause)),
        (Command::Next { name: s("Den") }, |r| matches!(r, Request::Next)),
        (Command::Previous { name: s("Den") }, |r| matches!(r, Request::Previous)),
        (Command::Track { name: s("Den") }, |r| matches!(r, Request::Track)),
        (Command::Volume { name: s("Den") }, |r| matches!(r, Request::Volume)),
        (Command::SetVolume { name: s("Den"), volume: 11 }, |r| {
            matches!(r, Request::SetVolume { volume: 11 })
        }),
        (Command::Queue { name: s("Den") }, |r| matches!(r, Request::Queue)),
        (Command::Mute { name: s("Den") }, |r| matches!(r, Request::Mute)),
        (Command::Bass { name: s("Den"), opt: None }, |r| matches!(r, Request::Bass)),
        (Command::Bass { name: s("Den"), opt: Some(-3) }, |r| {
            matches!(r, Request::SetBass { level: -3 })
        }),
        (Command::Treble { name: s("Den"), opt: None }, |r| matches!(r, Request::Treble)),
        (Command::Treble { name: s("Den"), opt: Some(4) }, |r| {
            matches!(r, Request::SetTreble { level: 4 })
        }),
        (Command::Loudness { name: s("Den") }, |r| matches!(r, Request::Loudness)),
        (Command::RemoveTrack { name: s("Den"), track_no: 10 }, |r| {
            matches!(r, Request::RemoveTrack { track_no: 10 })
        }),
        (Command::ClearQueue { name: s("Den") }, |r| matches!(r, Request::ClearQueue)),
        (Command::Shuffle { name: s("Den") }, |r| matches!(r, Request::Shuffle)),
        (Command::RepeatAll { name: s("Den") }, |r| {
            matches!(r, Request::SetRepeatMode { mode: RepeatMode::All })
        }),
        (Command::RepeatOne { name: s("Den") }, |r| {
            matches!(r, Request::SetRepeatMode { mode: RepeatMode::One })
        }),
        (Command::RepeatOff { name: s("Den") }, |r| {
            matches!(r, Request::SetRepeatMode { mode: RepeatMode::Off })
        }),
        (Command::Leave { name: s("Den") }, |r| matches!(r, Request::Leave)),
        (Command::Skip { name: s("Den"), seconds: -10 }, |r| {
            matches!(r, Request::SkipBy { seconds: -10 })
        }),
        (Command::SkipTo { name: s("Den"), seconds: 30 }, |r| {
            matches!(r, Request::SkipTo { seconds: 30 })
        }),
    ];
    for (command, expected) in cases {
        let label = format!("{:?}", command);
        let (_, op) = found(command, "Den");
        assert!(expected(&op), "{} made {:?}", label, op);
    }
}

#[test]
fn queue_commands_carry_uri_and_metadata() {
    let (_, op) = found(
        Command::QueueNext { name: s("Den"), uri: s("x-file:a"), metadata: s("meta") },
        "Den",
    );
    match op {
        Request::QueueNext { uri, metadata } => {
            assert_eq!(uri, "x-file:a");
            assert_eq!(metadata, "meta");
        },
        other => panic!("{:?}", other),
    }
    let (_, op) = found(
        Command::QueueEnd { name: s("Den"), uri: s("x-file:b"), metadata: s("m2") },
        "Den",
    );
    match op {
        Request::QueueEnd { uri, metadata } => {
            assert_eq!(uri, "x-file:b");
            assert_eq!(metadata, "m2");
        },
        other => panic!("{:?}", other),
    }
}

#[test]
fn plain_operation_succeeds_silently() {
    let (mut session, _) = found(Command::Stop { name: s("Den") }, "Den");
    let step = session.step(Reply::Done);
    assert!(step.lines.is_empty());
    assert_eq!(outcome(&step), Some(Outcome::Success));
    assert!(session.done);
}

#[test]
fn plain_operation_failure_ends_the_run_with_the_error() {
    let (mut session, _) = found(Command::Play { name: s("Den") }, "Den");
    let step = session.step(Reply::Failed { message: s("timeout") });
    assert!(step.lines.is_empty());
    assert_eq!(outcome(&step), Some(Outcome::Failure));
}

#[test]
fn missing_speaker_prints_not_found() {
    let (mut session, _) = Session::begin(Command::Pause { name: s("Attic") });
    let step = session.step(Reply::Found { found: false });
    assert_eq!(
        texts(&step),
        vec![out(
            "No speaker found with that name\ntry using the `info` command to list discoverable devices"
        )]
    );
    assert_eq!(outcome(&step), Some(Outcome::Success));
}

#[test]
fn missing_speaker_for_a_reading_command_ends_cleanly() {
    let (mut session, _) = Session::begin(Command::Volume { name: s("Attic") });
    let step = session.step(Reply::Found { found: false });
    assert_eq!(texts(&step).len(), 1);
    assert_eq!(outcome(&step), Some(Outcome::Success));
}

#[test]
fn failed_lookup_is_reported_for_operations() {
    let (mut session, _) = Session::begin(Command::Next { name: s("Den") });
    let step = session.step(Reply::Failed { message: s("network down") });
    assert_eq!(
        texts(&step),
        vec![
            (s("Error: network down"), true),
            out("No speaker found with that name\ntry using the `info` command to list discoverable devices"),
        ]
    );
    assert_eq!(outcome(&step), Some(Outcome::Success));
}

#[test]
fn failed_lookup_ends_reading_commands_with_the_error() {
    let (mut session, _) = Session::begin(Command::Track { name: s("Den") });
    let step = session.step(Reply::Failed { message: s("network down") });
    assert!(step.lines.is_empty());
    assert_eq!(outcome(&step), Some(Outcome::Failure));
}

#[test]
fn track_playing_and_idle() {
    let (mut session, _) = found(Command::Track { name: s("Den") }, "Den");
    let step = session.step(Reply::Track { title: Some(s("Song - Band (Album)")) });
    assert_eq!(texts(&step), vec![out("- Currently playing 'Song - Band (Album) on 'Den")]);
    assert_eq!(outcome(&step), Some(Outcome::Success));

    let (mut session, _) = found(Command::Track { name: s("Den") }, "Den");
    let step = session.step(Reply::Track { title: None });
    assert_eq!(texts(&step), vec![out("- No track currently playing on Den")]);
}

#[test]
fn volume_is_printed_in_decimal() {
    let (mut session, _) = found(Command::Volume { name: s("Kitchen") }, "Kitchen");
    let step = session.step(Reply::Volume { level: 11 });
    assert_eq!(texts(&step), vec![out("The volume is currently at 11 on Kitchen")]);

    let (mut session, _) = found(Command::Volume { name: s("Kitchen") }, "Kitchen");
    let step = session.step(Reply::Volume { level: 0 });
    assert_eq!(texts(&step), vec![out("The volume is currently at 0 on Kitchen")]);

    let (mut session, _) = found(Command::Volume { name: s("Kitchen") }, "Kitchen");
    let step = session.step(Reply::Volume { level: 65535 });
    assert_eq!(texts(&step), vec![out("The volume is currently at 65535 on Kitchen")]);
}

#[test]
fn volume_error_is_printed() {
    let (mut session, _) = found(Command::Volume { name: s("Kitchen") }, "Kitchen");
    let step = session.step(Reply::Failed { message: s("x") });
    assert_eq!(texts(&step), vec![out("Error")]);
    assert_eq!(outcome(&step), Some(Outcome::Success));
}

#[test]
fn queue_is_listed_from_zero() {
    let (mut session, _) = found(Command::Queue { name: s("Den") }, "Den");
    let titles: Vec<String> = (0..12).map(|i| format!("Title {}", i)).collect();
    let step = session.step(Reply::Queue { titles });
    let lines = texts(&step);
    assert_eq!(lines.len(), 12);
    assert_eq!(lines[0], out("0. Title 0"));
    assert_eq!(lines[10], out("10. Title 10"));
    assert_eq!(lines[11], out("11. Title 11"));
    assert_eq!(outcome(&step), Some(Outcome::Success));
}

#[test]
fn empty_and_failed_queue() {
    let (mut session, _) = found(Command::Queue { name: s("Den") }, "Den");
    let step = session.step(Reply::Queue { titles: vec![] });
    assert!(step.lines.is_empty());

    let (mut session, _) = found(Command::Queue { name: s("Den") }, "Den");
    let step = session.step(Reply::Failed { message: s("x") });
    assert_eq!(texts(&step), vec![out("Empty Queue")]);
}

#[test]
fn mute_toggles() {
    let (mut session, op) = found(Command::Mute { name: s("Den") }, "Den");
    assert!(matches!(op, Request::Mute));
    let step = session.step(Reply::Flag { on: true });
    assert!(matches!(is_call(&step), Some(Request::SetMute { on: false })));
    let step = session.step(Reply::Done);
    assert_eq!(outcome(&step), Some(Outcome::Success));

    let (mut session, _) = found(Command::Mute { name: s("Den") }, "Den");
    let step = session.step(Reply::Flag { on: false });
    assert!(matches!(is_call(&step), Some(Request::SetMute { on: true })));
    let step = session.step(Reply::Failed { message: s("x") });
    assert_eq!(outcome(&step), Some(Outcome::Failure));
}

#[test]
fn mute_read_error() {
    let (mut session, _) = found(Command::Mute { name: s("Den") }, "Den");
    let step = session.step(Reply::Failed { message: s("x") });
    assert_eq!(texts(&step), vec![out("Error: unable to check if muted")]);
    assert_eq!(outcome(&step), Some(Outcome::Success));
}

#[test]
fn loudness_and_shuffle_toggle() {
    let (mut session, _) = found(Command::Loudness { name: s("Den") }, "Den");
    let step = session.step(Reply::Flag { on: false });
    assert!(matches!(is_call(&step), Some(Request::SetLoudness { on: true })));

    let (mut session, _) = found(Command::Shuffle { name: s("Den") }, "Den");
    let step = session.step(Reply::Flag { on: true });
    assert!(matches!(is_call(&step), Some(Request::SetShuffle { on: false })));
}

#[test]
fn loudness_and_shuffle_read_errors() {
    let (mut session, _) = found(Command::Loudness { name: s("Den") }, "Den");
    let step = session.step(Reply::Failed { message: s("x") });
    assert_eq!(texts(&step), vec![out("Error: unable to get loudness")]);

    let (mut session, _) = found(Command::Shuffle { name: s("Den") }, "Den");
    let step = session.step(Reply::Failed { message: s("x") });
    assert_eq!(texts(&step), vec![out("Error: unable to get shuffle mode")]);
}

#[test]
fn bass_read_and_set() {
    let (mut session, _) = found(Command::Bass { name: s("Den"), opt: None }, "Den");
    let step = session.step(Reply::Level { level: -7 });
    assert_eq!(texts(&step), vec![out("The bass is currently set at -7 on Den")]);

    let (mut session, _) = found(Command::Bass { name: s("Den"), opt: Some(-128) }, "Den");
    let step = session.step(Reply::Done);
    assert_eq!(texts(&step), vec![out("bass now at: -128")]);

    let (mut session, _) = found(Command::Bass { name: s("Den"), opt: Some(10) }, "Den");
    let step = session.step(Reply::Failed { message: s("x") });
    assert_eq!(texts(&step), vec![out("Error: could not set bass")]);
    assert_eq!(outcome(&step), Some(Outcome::Success));

    let (mut session, _) = found(Command::Bass { name: s("Den"), opt: None }, "Den");
    let step = session.step(Reply::Failed { message: s("x") });
    assert_eq!(texts(&step), vec![out("Error: could not get bass")]);
}

#[test]
fn treble_read_and_set() {
    let (mut session, _) = found(Command::Treble { name: s("Den"), opt: None }, "Den");
    let step = session.step(Reply::Level { level: 127 });
    assert_eq!(texts(&step), vec![out("The treble is currently set at 127 on Den")]);

    let (mut session, _) = found(Command::Treble { name: s("Den"), opt: Some(3) }, "Den");
    let step = session.step(Reply::Done);
    assert_eq!(texts(&step), vec![out("treble now at: 3")]);

    let (mut session, _) = found(Command::Treble { name: s("Den"), opt: Some(3) }, "Den");
    let step = session.step(Reply::Failed { message: s("x") });
    assert_eq!(texts(&step), vec![out("Error: could not set treble")]);

    let (mut session, _) = found(Command::Treble { name: s("Den"), opt: None }, "Den");
    let step = session.step(Reply::Failed { message: s("x") });
    assert_eq!(texts(&step), vec![out("Error: could not get treble")]);
}

#[test]
fn join_reports_the_result() {
    let (mut session, op) =
        found(Command::Join { name: s("Den"), speaker_to_join: s("Kitchen") }, "Den");
    match op {
        Request::Join { room } => assert_eq!(room, "Kitchen"),
        other => panic!("{:?}", other),
    }
    let step = session.step(Reply::Flag { on: true });
    assert_eq!(texts(&step), vec![out("joined Kitchen: true")]);

    let (mut session, _) =
        found(Command::Join { name: s("Den"), speaker_to_join: s("Kitchen") }, "Den");
    let step = session.step(Reply::Flag { on: false });
    assert_eq!(texts(&step), vec![out("joined Kitchen: false")]);

    let (mut session, _) =
        found(Command::Join { name: s("Den"), speaker_to_join: s("Kitchen") }, "Den");
    let step = session.step(Reply::Failed { message: s("not in a group") });
    assert_eq!(texts(&step), vec![(s("Error: not in a group"), true)]);
    assert_eq!(outcome(&step), Some(Outcome::Success));
}

#[test]
fn info_describes_each_speaker() {
    let (mut session, _) = Session::begin(Command::Info);
    let step = session.step(Reply::Done);
    assert!(matches!(is_call(&step), Some(Request::NextDevice)));

    let step = session.step(Reply::Device { name: Some(s("Den")) });
    match is_call(&step) {
        Some(Request::Find { room }) => assert_eq!(room, "Den"),
        other => panic!("{:?}", other),
    }
    let step = session.step(Reply::Found { found: true });
    assert!(matches!(is_call(&step), Some(Request::Track)));
    let step = session.step(Reply::Track { title: Some(s("Song")) });
    assert!(matches!(is_call(&step), Some(Request::Volume)));
    let step = session.step(Reply::Volume { level: 25 });
    assert_eq!(
        texts(&step),
        vec![out("Room: Den"), out("Volume: 25"), out("Track: Song"), out("----------")]
    );
    assert!(matches!(is_call(&step), Some(Request::NextDevice)));

    let step = session.step(Reply::Device { name: Some(s("Kitchen")) });
    assert!(matches!(is_call(&step), Some(Request::Find { .. })));
    session.step(Reply::Found { found: true });
    session.step(Reply::Track { title: None });
    let step = session.step(Reply::Volume { level: 3 });
    assert_eq!(texts(&step), vec![out("Room: Kitchen"), out("Volume: 3"), out("----------")]);

    let step = session.step(Reply::Device { name: None });
    assert!(step.lines.is_empty());
    assert_eq!(outcome(&step), Some(Outcome::Success));
}

#[test]
fn info_errors_end_the_run() {
    let (mut session, _) = Session::begin(Command::Info);
    let step = session.step(Reply::Failed { message: s("x") });
    assert_eq!(outcome(&step), Some(Outcome::Failure));

    let (mut session, _) = Session::begin(Command::Info);
    session.step(Reply::Done);
    session.step(Reply::Device { name: Some(s("Den")) });
    session.step(Reply::Found { found: true });
    session.step(Reply::Track { title: None });
    let step = session.step(Reply::Failed { message: s("x") });
    assert_eq!(texts(&step), vec![out("Room: Den")]);
    assert_eq!(outcome(&step), Some(Outcome::Failure));

    let (mut session, _) = Session::begin(Command::Info);
    session.step(Reply::Done);
    session.step(Reply::Device { name: Some(s("Den")) });
    session.step(Reply::Found { found: true });
    let step = session.step(Reply::Failed { message: s("x") });
    assert!(step.lines.is_empty());
    assert_eq!(outcome(&step), Some(Outcome::Failure));
}

#[test]
fn accepts_only_answers_to_the_awaited_request() {
    let (mut session, _) = Session::begin(Command::Volume { name: s("Den") });
    assert!(session.accepts(&Reply::Found { found: true }));
    assert!(session.accepts(&Reply::Failed { message: s("x") }));
    assert!(!session.accepts(&Reply::Done));
    assert!(!session.accepts(&Reply::Volume { level: 1 }));
    session.step(Reply::Found { found: true });
    assert!(session.accepts(&Reply::Volume { level: 1 }));
    assert!(!session.accepts(&Reply::Flag { on: true }));
    session.step(Reply::Volume { level: 1 });
    assert!(!session.accepts(&Reply::Failed { message: s("x") }));
}

#[test]
fn command_room() {
    assert_eq!(Command::Info.room(), None);
    assert_eq!(Command::Leave { name: s("Den") }.room(), Some(s("Den")));
    assert!(Command::Stop { name: s("Den") }.reports_lookup_failure());
    assert!(!Command::Queue { name: s("Den") }.reports_lookup_failure());
}
