use vstd::prelude::*;

use crate::command::{operation, reports_lookup_failure, target, Command, Request};
use crate::messages::{
    bass, bass_set, bass_set_text, bass_text, idle, idle_text, joined, joined_text, error_line,
    error_text, not_found, not_found_text, plain, playing, playing_text, queue_entry,
    queue_entry_text, room_heading, room_text, room_track, room_track_text, room_volume,
    room_volume_text, separator, separator_text, treble, treble_set, treble_set_text, treble_text,
    volume, volume_text,
};
use crate::text::{err, out, Line};

verus! {

/// What the network answered to a request.
#[derive(Clone, Debug)]
pub enum Reply {
    /// The call failed; `message` describes the error.
    Failed { message: String },
    /// A call that returns nothing succeeded, or discovery started.
    Done,
    /// The lookup ended; `found` tells whether a speaker has the room name.
    Found { found: bool },
    /// The next discovered speaker's room name, or `None` once all were seen.
    Device { name: Option<String> },
    /// The track now playing, as displayed, if any.
    Track { title: Option<String> },
    Volume { level: u16 },
    /// The titles in the queue, in order.
    Queue { titles: Vec<String> },
    /// A setting that is on or off, or whether a join took place.
    Flag { on: bool },
    /// A bass or treble level.
    Level { level: i8 },
}

/// How a run ends.
#[derive(Clone, Copy, Debug, PartialEq, Eq, Structural)]
pub enum Outcome {
    Success,
    /// The run ends with the error that the last reply carried.
    Failure,
}

/// What the client does after printing a step's lines.
#[derive(Clone, Debug)]
pub enum Next {
    Call(Request),
    Finish(Outcome),
}

/// The lines to print, then the next thing to do.
#[derive(Clone, Debug)]
pub struct Step {
    pub lines: Vec<Line>,
    pub next: Next,
}

/// The state of one run of a command.
#[derive(Clone, Debug)]
pub struct Session {
    pub command: Command,
    /// The request whose reply is awaited.
    pub pending: Request,
    /// The room being worked on: the command's room, or the speaker that
    /// `info` is describing.
    pub room: String,
    /// The track that `info` found on the current speaker.
    pub track: Option<String>,
    pub done: bool,
}

/// The printed form of a sequence of lines.
pub open spec fn shown(lines: Seq<Line>) -> Seq<(Seq<char>, bool)> {
    lines.map_values(|l: Line| l@)
}

/// Whether `reply` has the shape of an answer to `request`. A failure answers
/// every request.
pub open spec fn answers(request: Request, reply: Reply) -> bool {
    match reply {
        Reply::Failed { .. } => true,
        Reply::Done => !(request is NextDevice || request is Find || request is Track
            || request is Volume || request is Queue || request is Mute || request is Bass
            || request is Treble || request is Loudness || request is Shuffle || request is Join),
        Reply::Found { .. } => request is Find,
        Reply::Device { .. } => request is NextDevice,
        Reply::Track { .. } => request is Track,
        Reply::Volume { .. } => request is Volume,
        Reply::Queue { .. } => request is Queue,
        Reply::Flag { .. } => request is Mute || request is Loudness || request is Shuffle
            || request is Join,
        Reply::Level { .. } => request is Bass || request is Treble,
    }
}

/// The numbered listing of a queue.
pub open spec fn queue_listing(titles: Seq<String>) -> Seq<(Seq<char>, bool)> {
    Seq::new(titles.len(), |i: int| out(queue_entry_text(i as nat, titles[i]@)))
}

/// What `info` prints of one speaker.
pub open spec fn room_summary(room: Seq<char>, level: u16, track: Option<String>) -> Seq<
    (Seq<char>, bool),
> {
    let head = seq![out(room_text(room)), out(room_volume_text(level))];
    let playing = match track {
        Some(t) => seq![out(room_track_text(t@))],
        None => Seq::empty(),
    };
    head + playing + seq![out(separator_text())]
}

/// The run goes on with `request`.
pub open spec fn calling(s: Session, lines: Seq<(Seq<char>, bool)>, request: Request) -> (
    Session,
    Seq<(Seq<char>, bool)>,
    Next,
) {
    (Session { pending: request, ..s }, lines, Next::Call(request))
}

/// The run ends with `outcome`.
pub open spec fn ending(s: Session, lines: Seq<(Seq<char>, bool)>, outcome: Outcome) -> (
    Session,
    Seq<(Seq<char>, bool)>,
    Next,
) {
    (Session { done: true, ..s }, lines, Next::Finish(outcome))
}

/// The run ends successfully after printing `lines`.
pub open spec fn succeed(s: Session, lines: Seq<(Seq<char>, bool)>) -> (
    Session,
    Seq<(Seq<char>, bool)>,
    Next,
) {
    ending(s, lines, Outcome::Success)
}

/// The run ends with the error just received, printing nothing.
pub open spec fn fail(s: Session) -> (Session, Seq<(Seq<char>, bool)>, Next) {
    ending(s, Seq::empty(), Outcome::Failure)
}

/// The result of receiving `reply` in state `s`: the new state, the lines to
/// print, and what comes next.
pub open spec fn transition(s: Session, reply: Reply) -> (Session, Seq<(Seq<char>, bool)>, Next) {
    let room = s.room@;
    match s.pending {
        Request::Discover => match reply {
            Reply::Done => calling(s, Seq::empty(), Request::NextDevice),
            _ => fail(s),
        },
        Request::NextDevice => match reply {
            Reply::Device { name: Some(n) } => calling(
                Session { room: n, track: None, ..s },
                Seq::empty(),
                Request::Find { room: n },
            ),
            Reply::Device { name: None } => succeed(s, Seq::empty()),
            _ => fail(s),
        },
        Request::Find { .. } => match reply {
            Reply::Found { found: true } => calling(s, Seq::empty(), operation(s.command)),
            Reply::Found { found: false } => succeed(s, seq![out(not_found_text())]),
            Reply::Failed { message } => if reports_lookup_failure(s.command) {
                succeed(s, seq![err(error_text(message@)), out(not_found_text())])
            } else {
                fail(s)
            },
            _ => fail(s),
        },
        Request::Track => match reply {
            Reply::Track { title } => if s.command is Info {
                calling(Session { track: title, ..s }, Seq::empty(), Request::Volume)
            } else {
                match title {
                    Some(t) => succeed(s, seq![out(playing_text(t@, room))]),
                    None => succeed(s, seq![out(idle_text(room))]),
                }
            },
            _ => fail(s),
        },
        Request::Volume => match reply {
            Reply::Volume { level } => if s.command is Info {
                calling(s, room_summary(room, level, s.track), Request::NextDevice)
            } else {
                succeed(s, seq![out(volume_text(level, room))])
            },
            _ => if s.command is Info {
                ending(s, seq![out(room_text(room))], Outcome::Failure)
            } else {
                succeed(s, seq![out("Error"@)])
            },
        },
        Request::Queue => match reply {
            Reply::Queue { titles } => succeed(s, queue_listing(titles@)),
            _ => succeed(s, seq![out("Empty Queue"@)]),
        },
        Request::Mute => match reply {
            Reply::Flag { on } => calling(s, Seq::empty(), Request::SetMute { on: !on }),
            _ => succeed(s, seq![out("Error: unable to check if muted"@)]),
        },
        Request::Loudness => match reply {
            Reply::Flag { on } => calling(s, Seq::empty(), Request::SetLoudness { on: !on }),
            _ => succeed(s, seq![out("Error: unable to get loudness"@)]),
        },
        Request::Shuffle => match reply {
            Reply::Flag { on } => calling(s, Seq::empty(), Request::SetShuffle { on: !on }),
            _ => succeed(s, seq![out("Error: unable to get shuffle mode"@)]),
        },
        Request::Bass => match reply {
            Reply::Level { level } => succeed(s, seq![out(bass_text(level, room))]),
            _ => succeed(s, seq![out("Error: could not get bass"@)]),
        },
        Request::SetBass { level } => match reply {
            Reply::Done => succeed(s, seq![out(bass_set_text(level))]),
            _ => succeed(s, seq![out("Error: could not set bass"@)]),
        },
        Request::Treble => match reply {
            Reply::Level { level } => succeed(s, seq![out(treble_text(level, room))]),
            _ => succeed(s, seq![out("Error: could not get treble"@)]),
        },
        Request::SetTreble { level } => match reply {
            Reply::Done => succeed(s, seq![out(treble_set_text(level))]),
            _ => succeed(s, seq![out("Error: could not set treble"@)]),
        },
        Request::Join { room: other } => match reply {
            Reply::Flag { on } => succeed(s, seq![out(joined_text(other@, on))]),
            Reply::Failed { message } => succeed(s, seq![err(error_text(message@))]),
            _ => succeed(s, Seq::empty()),
        },
        _ => match reply {
            Reply::Done => succeed(s, Seq::empty()),
            _ => fail(s),
        },
    }
}

} // verus!

verus! {

fn one_line(a: Line) -> (r: Vec<Line>)
    ensures
        shown(r@) == seq![a@],
{
    let mut lines: Vec<Line> = Vec::new();
    lines.push(a);
    assert(shown(lines@) =~= seq![a@]);
    lines
}

fn two_lines(a: Line, b: Line) -> (r: Vec<Line>)
    ensures
        shown(r@) == seq![a@, b@],
{
    let mut lines: Vec<Line> = Vec::new();
    lines.push(a);
    lines.push(b);
    assert(shown(lines@) =~= seq![a@, b@]);
    lines
}

/// The numbered listing of a queue's titles.
pub fn listing(titles: &Vec<String>) -> (r: Vec<Line>)
    ensures
        shown(r@) == queue_listing(titles@),
{
    let mut lines: Vec<Line> = Vec::new();
    let mut i: usize = 0;
    while i < titles.len()
        invariant
            i <= titles@.len(),
            lines@.len() == i,
            forall|j: int| 0 <= j < i ==> lines@[j]@ == out(queue_entry_text(j as nat, titles@[j]@)),
        decreases titles@.len() - i,
    {
        lines.push(queue_entry(i, &titles[i]));
        i = i + 1;
    }
    assert(shown(lines@) =~= queue_listing(titles@));
    lines
}

/// What `info` prints of one speaker.
pub fn summary(room: &String, level: u16, track: &Option<String>) -> (r: Vec<Line>)
    ensures
        shown(r@) == room_summary(room@, level, *track),
{
    let mut lines: Vec<Line> = Vec::new();
    lines.push(room_heading(room));
    lines.push(room_volume(level));
    match track {
        Some(t) => lines.push(room_track(t)),
        None => {},
    }
    lines.push(separator());
    assert(shown(lines@) =~= room_summary(room@, level, *track));
    lines
}

impl Session {
    /// Starts a run of `command`: the state, and the first request to make.
    /// `info` starts by discovering the speakers; every other command starts
    /// by looking its room up.
    pub fn begin(command: Command) -> (r: (Session, Request))
        ensures
            r.0.command == command,
            r.0.pending == r.1,
            r.0.track is None,
            !r.0.done,
            command is Info ==> r.1 is Discover && r.0.room@ == Seq::<char>::empty(),
            !(command is Info) ==> target(command) == Some(r.0.room) && r.1 == (Request::Find {
                room: r.0.room,
            }),
    {
        match command.room() {
            Some(room) => {
                let first = Request::Find { room: room.clone() };
                (Session { command, pending: first.duplicate(), room, track: None, done: false }, first)
            },
            None => (
                Session {
                    command,
                    pending: Request::Discover,
                    room: String::new(),
                    track: None,
                    done: false,
                },
                Request::Discover,
            ),
        }
    }

    /// Whether `reply` can answer the awaited request.
    pub fn accepts(&self, reply: &Reply) -> (r: bool)
        ensures
            r == (!self.done && answers(self.pending, *reply)),
    {
        if self.done {
            return false;
        }
        match reply {
            Reply::Failed { .. } => true,
            Reply::Done => match self.pending {
                Request::NextDevice
                | Request::Find { .. }
                | Request::Track
                | Request::Volume
                | Request::Queue
                | Request::Mute
                | Request::Bass
                | Request::Treble
                | Request::Loudness
                | Request::Shuffle
                | Request::Join { .. } => false,
                _ => true,
            },
            Reply::Found { .. } => matches!(self.pending, Request::Find { .. }),
            Reply::Device { .. } => matches!(self.pending, Request::NextDevice),
            Reply::Track { .. } => matches!(self.pending, Request::Track),
            Reply::Volume { .. } => matches!(self.pending, Request::Volume),
            Reply::Queue { .. } => matches!(self.pending, Request::Queue),
            Reply::Flag { .. } => matches!(
                self.pending,
                Request::Mute | Request::Loudness | Request::Shuffle | Request::Join { .. }
            ),
            Reply::Level { .. } => matches!(self.pending, Request::Bass | Request::Treble),
        }
    }

    fn go_on(&mut self, lines: Vec<Line>, request: Request) -> (r: Step)
        ensures
            *final(self) == (Session { pending: request, ..*old(self) }),
            r.lines == lines,
            r.next == Next::Call(request),
    {
        self.pending = request.duplicate();
        Step { lines, next: Next::Call(request) }
    }

    fn finish(&mut self, lines: Vec<Line>, outcome: Outcome) -> (r: Step)
        ensures
            *final(self) == (Session { done: true, ..*old(self) }),
            r.lines == lines,
            r.next == Next::Finish(outcome),
    {
        self.done = true;
        Step { lines, next: Next::Finish(outcome) }
    }

    fn succeed_with(&mut self, line: Line) -> (r: Step)
        ensures
            *final(self) == (Session { done: true, ..*old(self) }),
            shown(r.lines@) == seq![line@],
            r.next == Next::Finish(Outcome::Success),
    {
        self.finish(one_line(line), Outcome::Success)
    }
}

} // verus!

verus! {

impl Session {
    /// Takes the reply to the awaited request: updates the state, and returns
    /// the lines to print and what to do next.
    pub fn step(&mut self, reply: Reply) -> (r: Step)
        requires
            !old(self).done,
            answers(old(self).pending, reply),
        ensures
            *final(self) == transition(*old(self), reply).0,
            shown(r.lines@) == transition(*old(self), reply).1,
            r.next == transition(*old(self), reply).2,
    {
        let pending = self.pending.duplicate();
        match pending {
            Request::Discover => match reply {
                Reply::Done => self.go_on(Vec::new(), Request::NextDevice),
                _ => self.finish(Vec::new(), Outcome::Failure),
            },
            Request::NextDevice => match reply {
                Reply::Device { name: Some(n) } => {
                    let find = Request::Find { room: n.clone() };
                    self.room = n;
                    self.track = None;
                    self.go_on(Vec::new(), find)
                },
                Reply::Device { name: None } => self.finish(Vec::new(), Outcome::Success),
                _ => self.finish(Vec::new(), Outcome::Failure),
            },
            Request::Find { .. } => match reply {
                Reply::Found { found } => if found {
                    let first = self.command.operation();
                    self.go_on(Vec::new(), first)
                } else {
                    self.succeed_with(not_found())
                },
                Reply::Failed { message } => if self.command.reports_lookup_failure() {
                    self.finish(two_lines(error_line(&message), not_found()), Outcome::Success)
                } else {
                    self.finish(Vec::new(), Outcome::Failure)
                },
                _ => self.finish(Vec::new(), Outcome::Failure),
            },
            Request::Track => match reply {
                Reply::Track { title } => if matches!(self.command, Command::Info) {
                    self.track = title;
                    self.go_on(Vec::new(), Request::Volume)
                } else {
                    match title {
                        Some(t) => {
                            let line = playing(&t, &self.room);
                            self.succeed_with(line)
                        },
                        None => {
                            let line = idle(&self.room);
                            self.succeed_with(line)
                        },
                    }
                },
                _ => self.finish(Vec::new(), Outcome::Failure),
            },
            Request::Volume => match reply {
                Reply::Volume { level } => if matches!(self.command, Command::Info) {
                    let lines = summary(&self.room, level, &self.track);
                    self.go_on(lines, Request::NextDevice)
                } else {
                    let line = volume(level, &self.room);
                    self.succeed_with(line)
                },
                _ => if matches!(self.command, Command::Info) {
                    let line = room_heading(&self.room);
                    self.finish(one_line(line), Outcome::Failure)
                } else {
                    self.succeed_with(plain("Error"))
                },
            },
            Request::Queue => match reply {
                Reply::Queue { titles } => {
                    let lines = listing(&titles);
                    self.finish(lines, Outcome::Success)
                },
                _ => self.succeed_with(plain("Empty Queue")),
            },
            Request::Mute => match reply {
                Reply::Flag { on } => self.go_on(Vec::new(), Request::SetMute { on: !on }),
                _ => self.succeed_with(plain("Error: unable to check if muted")),
            },
            Request::Loudness => match reply {
                Reply::Flag { on } => self.go_on(Vec::new(), Request::SetLoudness { on: !on }),
                _ => self.succeed_with(plain("Error: unable to get loudness")),
            },
            Request::Shuffle => match reply {
                Reply::Flag { on } => self.go_on(Vec::new(), Request::SetShuffle { on: !on }),
                _ => self.succeed_with(plain("Error: unable to get shuffle mode")),
            },
            Request::Bass => match reply {
                Reply::Level { level } => {
                    let line = bass(level, &self.room);
                    self.succeed_with(line)
                },
                _ => self.succeed_with(plain("Error: could not get bass")),
            },
            Request::SetBass { level } => match reply {
                Reply::Done => self.succeed_with(bass_set(level)),
                _ => self.succeed_with(plain("Error: could not set bass")),
            },
            Request::Treble => match reply {
                Reply::Level { level } => {
                    let line = treble(level, &self.room);
                    self.succeed_with(line)
                },
                _ => self.succeed_with(plain("Error: could not get treble")),
            },
            Request::SetTreble { level } => match reply {
                Reply::Done => self.succeed_with(treble_set(level)),
                _ => self.succeed_with(plain("Error: could not set treble")),
            },
            Request::Join { room: other } => match reply {
                Reply::Flag { on } => self.succeed_with(joined(&other, on)),
                Reply::Failed { message } => self.succeed_with(error_line(&message)),
                _ => self.finish(Vec::new(), Outcome::Success),
            },
            _ => match reply {
                Reply::Done => self.finish(Vec::new(), Outcome::Success),
                _ => self.finish(Vec::new(), Outcome::Failure),
            },
        }
    }
}

} // verus!

verus! {

/// A run ends in failure only right after a call failed: every failure is the
/// error of the call just made.
pub proof fn failure_follows_failed_call(s: Session, reply: Reply)
    requires
        !s.done,
        answers(s.pending, reply),
    ensures
        transition(s, reply).2 == Next::Finish(Outcome::Failure) ==> reply is Failed,
{
}

/// When no speaker answers to the room name, the run prints that no speaker
/// was found and ends without error.
pub proof fn missing_speaker_ends_cleanly(s: Session)
    requires
        s.pending is Find,
    ensures
        transition(s, Reply::Found { found: false }).1 == seq![out(not_found_text())],
        transition(s, Reply::Found { found: false }).2 == Next::Finish(Outcome::Success),
{
}

/// A found speaker gets the command's own operation as its first call.
pub proof fn found_speaker_gets_operation(s: Session)
    requires
        s.pending is Find,
    ensures
        transition(s, Reply::Found { found: true }).2 == Next::Call(operation(s.command)),
{
}

/// After any step the awaited request is the one just asked for, and a run
/// that finished is marked done.
pub proof fn pending_tracks_calls(s: Session, reply: Reply)
    requires
        !s.done,
        answers(s.pending, reply),
    ensures
        match transition(s, reply).2 {
            Next::Call(q) => transition(s, reply).0.pending == q && !transition(s, reply).0.done,
            Next::Finish(_) => transition(s, reply).0.done,
        },
        transition(s, reply).0.command == s.command,
{
}

/// The toggling commands set the opposite of the value they read.
pub proof fn toggles_invert(s: Session, on: bool)
    requires
        s.pending is Mute || s.pending is Loudness || s.pending is Shuffle,
    ensures
        s.pending is Mute ==> transition(s, Reply::Flag { on }).2 == Next::Call(
            Request::SetMute { on: !on },
        ),
        s.pending is Loudness ==> transition(s, Reply::Flag { on }).2 == Next::Call(
            Request::SetLoudness { on: !on },
        ),
        s.pending is Shuffle ==> transition(s, Reply::Flag { on }).2 == Next::Call(
            Request::SetShuffle { on: !on },
        ),
{
}

} // verus!
