use vstd::prelude::*;

verus! {

/// How a speaker repeats its queue.
#[derive(Clone, Copy, Debug, PartialEq, Eq, Structural)]
pub enum RepeatMode {
    /// Play the queue once.
    Off,
    /// Repeat the current track.
    One,
    /// Repeat the whole queue.
    All,
}

/// One invocation of the command-line client: a subcommand with its arguments.
#[derive(Clone, Debug)]
pub enum Command {
    Info,
    Stop { name: String },
    Play { name: String },
    Pause { name: String },
    Next { name: String },
    Previous { name: String },
    Track { name: String },
    Volume { name: String },
    SetVolume { name: String, volume: u16 },
    Queue { name: String },
    Mute { name: String },
    Bass { name: String, opt: Option<i8> },
    Treble { name: String, opt: Option<i8> },
    Loudness { name: String },
    RemoveTrack { name: String, track_no: u32 },
    QueueNext { name: String, uri: String, metadata: String },
    QueueEnd { name: String, uri: String, metadata: String },
    ClearQueue { name: String },
    Shuffle { name: String },
    RepeatAll { name: String },
    RepeatOne { name: String },
    RepeatOff { name: String },
    Join { name: String, speaker_to_join: String },
    Leave { name: String },
    Skip { name: String, seconds: i32 },
    SkipTo { name: String, seconds: u32 },
}

/// A call that the client asks to have made on the network.
#[derive(Clone, Debug)]
pub enum Request {
    /// Start discovering the speakers on the network.
    Discover,
    /// Name the next discovered speaker, if any is left.
    NextDevice,
    /// Look a speaker up by its room name.
    Find { room: String },
    Stop,
    Play,
    Pause,
    Next,
    Previous,
    /// Read the track now playing.
    Track,
    /// Read the volume.
    Volume,
    SetVolume { volume: u16 },
    /// Read the titles in the queue.
    Queue,
    RemoveTrack { track_no: u32 },
    QueueNext { uri: String, metadata: String },
    QueueEnd { uri: String, metadata: String },
    ClearQueue,
    /// Read whether the speaker is muted.
    Mute,
    SetMute { on: bool },
    /// Read the bass level.
    Bass,
    SetBass { level: i8 },
    /// Read the treble level.
    Treble,
    SetTreble { level: i8 },
    /// Read whether loudness is on.
    Loudness,
    SetLoudness { on: bool },
    /// Read whether shuffle is on.
    Shuffle,
    SetShuffle { on: bool },
    SetRepeatMode { mode: RepeatMode },
    /// Join the group of the speaker in the named room.
    Join { room: String },
    Leave,
    SkipBy { seconds: i32 },
    SkipTo { seconds: u32 },
}

/// The room a command targets; `Info` targets every speaker and names none.
pub open spec fn target(c: Command) -> Option<String> {
    match c {
        Command::Info => None,
        Command::Stop { name }
        | Command::Play { name }
        | Command::Pause { name }
        | Command::Next { name }
        | Command::Previous { name }
        | Command::Track { name }
        | Command::Volume { name }
        | Command::SetVolume { name, .. }
        | Command::Queue { name }
        | Command::Mute { name }
        | Command::Bass { name, .. }
        | Command::Treble { name, .. }
        | Command::Loudness { name }
        | Command::RemoveTrack { name, .. }
        | Command::QueueNext { name, .. }
        | Command::QueueEnd { name, .. }
        | Command::ClearQueue { name }
        | Command::Shuffle { name }
        | Command::RepeatAll { name }
        | Command::RepeatOne { name }
        | Command::RepeatOff { name }
        | Command::Join { name, .. }
        | Command::Leave { name }
        | Command::Skip { name, .. }
        | Command::SkipTo { name, .. } => Some(name),
    }
}

/// The first call a command makes on a speaker once it has been found.
/// Commands that toggle a setting start by reading it; `bass` and `treble`
/// read the level unless one is given, which they set.
pub open spec fn operation(c: Command) -> Request {
    match c {
        Command::Info => Request::Track,
        Command::Stop { .. } => Request::Stop,
        Command::Play { .. } => Request::Play,
        Command::Pause { .. } => Request::Pause,
        Command::Next { .. } => Request::Next,
        Command::Previous { .. } => Request::Previous,
        Command::Track { .. } => Request::Track,
        Command::Volume { .. } => Request::Volume,
        Command::SetVolume { volume, .. } => Request::SetVolume { volume },
        Command::Queue { .. } => Request::Queue,
        Command::Mute { .. } => Request::Mute,
        Command::Bass { opt, .. } => match opt {
            Some(level) => Request::SetBass { level },
            None => Request::Bass,
        },
        Command::Treble { opt, .. } => match opt {
            Some(level) => Request::SetTreble { level },
            None => Request::Treble,
        },
        Command::Loudness { .. } => Request::Loudness,
        Command::RemoveTrack { track_no, .. } => Request::RemoveTrack { track_no },
        Command::QueueNext { uri, metadata, .. } => Request::QueueNext { uri, metadata },
        Command::QueueEnd { uri, metadata, .. } => Request::QueueEnd { uri, metadata },
        Command::ClearQueue { .. } => Request::ClearQueue,
        Command::Shuffle { .. } => Request::Shuffle,
        Command::RepeatAll { .. } => Request::SetRepeatMode { mode: RepeatMode::All },
        Command::RepeatOne { .. } => Request::SetRepeatMode { mode: RepeatMode::One },
        Command::RepeatOff { .. } => Request::SetRepeatMode { mode: RepeatMode::Off },
        Command::Join { speaker_to_join, .. } => Request::Join { room: speaker_to_join },
        Command::Leave { .. } => Request::Leave,
        Command::Skip { seconds, .. } => Request::SkipBy { seconds },
        Command::SkipTo { seconds, .. } => Request::SkipTo { seconds },
    }
}

/// Whether a failed lookup is reported on the terminal and the run ends
/// successfully; for the other commands the lookup error ends the run.
pub open spec fn reports_lookup_failure(c: Command) -> bool {
    !(c is Info || c is Track || c is Volume || c is Queue || c is Bass || c is Treble
        || c is Loudness || c is Shuffle)
}

impl Command {
    /// The room this command targets.
    pub fn room(&self) -> (r: Option<String>)
        ensures
            r == target(*self),
    {
        match self {
            Command::Info => None,
            Command::Stop { name }
            | Command::Play { name }
            | Command::Pause { name }
            | Command::Next { name }
            | Command::Previous { name }
            | Command::Track { name }
            | Command::Volume { name }
            | Command::SetVolume { name, .. }
            | Command::Queue { name }
            | Command::Mute { name }
            | Command::Bass { name, .. }
            | Command::Treble { name, .. }
            | Command::Loudness { name }
            | Command::RemoveTrack { name, .. }
            | Command::QueueNext { name, .. }
            | Command::QueueEnd { name, .. }
            | Command::ClearQueue { name }
            | Command::Shuffle { name }
            | Command::RepeatAll { name }
            | Command::RepeatOne { name }
            | Command::RepeatOff { name }
            | Command::Join { name, .. }
            | Command::Leave { name }
            | Command::Skip { name, .. }
            | Command::SkipTo { name, .. } => Some(name.clone()),
        }
    }

    /// The first call this command makes on its speaker.
    pub fn operation(&self) -> (r: Request)
        ensures
            r == operation(*self),
    {
        match self {
            Command::Info => Request::Track,
            Command::Stop { .. } => Request::Stop,
            Command::Play { .. } => Request::Play,
            Command::Pause { .. } => Request::Pause,
            Command::Next { .. } => Request::Next,
            Command::Previous { .. } => Request::Previous,
            Command::Track { .. } => Request::Track,
            Command::Volume { .. } => Request::Volume,
            Command::SetVolume { volume, .. } => Request::SetVolume { volume: *volume },
            Command::Queue { .. } => Request::Queue,
            Command::Mute { .. } => Request::Mute,
            Command::Bass { opt, .. } => match opt {
                Some(level) => Request::SetBass { level: *level },
                None => Request::Bass,
            },
            Command::Treble { opt, .. } => match opt {
                Some(level) => Request::SetTreble { level: *level },
                None => Request::Treble,
            },
            Command::Loudness { .. } => Request::Loudness,
            Command::RemoveTrack { track_no, .. } => Request::RemoveTrack { track_no: *track_no },
            Command::QueueNext { uri, metadata, .. } => Request::QueueNext {
                uri: uri.clone(),
                metadata: metadata.clone(),
            },
            Command::QueueEnd { uri, metadata, .. } => Request::QueueEnd {
                uri: uri.clone(),
                metadata: metadata.clone(),
            },
            Command::ClearQueue { .. } => Request::ClearQueue,
            Command::Shuffle { .. } => Request::Shuffle,
            Command::RepeatAll { .. } => Request::SetRepeatMode { mode: RepeatMode::All },
            Command::RepeatOne { .. } => Request::SetRepeatMode { mode: RepeatMode::One },
            Command::RepeatOff { .. } => Request::SetRepeatMode { mode: RepeatMode::Off },
            Command::Join { speaker_to_join, .. } => Request::Join {
                room: speaker_to_join.clone(),
            },
            Command::Leave { .. } => Request::Leave,
            Command::Skip { seconds, .. } => Request::SkipBy { seconds: *seconds },
            Command::SkipTo { seconds, .. } => Request::SkipTo { seconds: *seconds },
        }
    }

    /// Whether a failed lookup of this command's speaker is reported on the
    /// terminal, the run then ending successfully.
    pub fn reports_lookup_failure(&self) -> (r: bool)
        ensures
            r == reports_lookup_failure(*self),
    {
        match self {
            Command::Info
            | Command::Track { .. }
            | Command::Volume { .. }
            | Command::Queue { .. }
            | Command::Bass { .. }
            | Command::Treble { .. }
            | Command::Loudness { .. }
            | Command::Shuffle { .. } => false,
            _ => true,
        }
    }
}

impl Request {
    /// A copy of this request.
    pub fn duplicate(&self) -> (r: Request)
        ensures
            r == *self,
    {
        match self {
            Request::Discover => Request::Discover,
            Request::NextDevice => Request::NextDevice,
            Request::Find { room } => Request::Find { room: room.clone() },
            Request::Stop => Request::Stop,
            Request::Play => Request::Play,
            Request::Pause => Request::Pause,
            Request::Next => Request::Next,
            Request::Previous => Request::Previous,
            Request::Track => Request::Track,
            Request::Volume => Request::Volume,
            Request::SetVolume { volume } => Request::SetVolume { volume: *volume },
            Request::Queue => Request::Queue,
            Request::RemoveTrack { track_no } => Request::RemoveTrack { track_no: *track_no },
            Request::QueueNext { uri, metadata } => Request::QueueNext {
                uri: uri.clone(),
                metadata: metadata.clone(),
            },
            Request::QueueEnd { uri, metadata } => Request::QueueEnd {
                uri: uri.clone(),
                metadata: metadata.clone(),
            },
            Request::ClearQueue => Request::ClearQueue,
            Request::Mute => Request::Mute,
            Request::SetMute { on } => Request::SetMute { on: *on },
            Request::Bass => Request::Bass,
            Request::SetBass { level } => Request::SetBass { level: *level },
            Request::Treble => Request::Treble,
            Request::SetTreble { level } => Request::SetTreble { level: *level },
            Request::Loudness => Request::Loudness,
            Request::SetLoudness { on } => Request::SetLoudness { on: *on },
            Request::Shuffle => Request::Shuffle,
            Request::SetShuffle { on } => Request::SetShuffle { on: *on },
            Request::SetRepeatMode { mode } => Request::SetRepeatMode { mode: *mode },
            Request::Join { room } => Request::Join { room: room.clone() },
            Request::Leave => Request::Leave,
            Request::SkipBy { seconds } => Request::SkipBy { seconds: *seconds },
            Request::SkipTo { seconds } => Request::SkipTo { seconds: *seconds },
        }
    }
}

} // verus!
