use vstd::prelude::*;

use crate::text::{decimal, flag_word, push_decimal, push_flag, push_signed, signed_decimal, Line};

verus! {

/// Printed when no speaker answers to the room name.
pub open spec fn not_found_text() -> Seq<char> {
    "No speaker found with that name\ntry using the `info` command to list discoverable devices"@
}

/// Printed to the error stream when a call failed and the run goes on.
pub open spec fn error_text(message: Seq<char>) -> Seq<char> {
    "Error: "@ + message
}

pub open spec fn playing_text(track: Seq<char>, room: Seq<char>) -> Seq<char> {
    "- Currently playing '"@ + track + " on '"@ + room
}

pub open spec fn idle_text(room: Seq<char>) -> Seq<char> {
    "- No track currently playing on "@ + room
}

pub open spec fn volume_text(level: u16, room: Seq<char>) -> Seq<char> {
    "The volume is currently at "@ + decimal(level as nat) + " on "@ + room
}

/// One entry of the queue listing, numbered from zero.
pub open spec fn queue_entry_text(index: nat, title: Seq<char>) -> Seq<char> {
    decimal(index) + ". "@ + title
}

pub open spec fn bass_text(level: i8, room: Seq<char>) -> Seq<char> {
    "The bass is currently set at "@ + signed_decimal(level as int) + " on "@ + room
}

pub open spec fn bass_set_text(level: i8) -> Seq<char> {
    "bass now at: "@ + signed_decimal(level as int)
}

pub open spec fn treble_text(level: i8, room: Seq<char>) -> Seq<char> {
    "The treble is currently set at "@ + signed_decimal(level as int) + " on "@ + room
}

pub open spec fn treble_set_text(level: i8) -> Seq<char> {
    "treble now at: "@ + signed_decimal(level as int)
}

pub open spec fn joined_text(room: Seq<char>, joined: bool) -> Seq<char> {
    "joined "@ + room + ": "@ + flag_word(joined)
}

pub open spec fn room_text(room: Seq<char>) -> Seq<char> {
    "Room: "@ + room
}

pub open spec fn room_volume_text(level: u16) -> Seq<char> {
    "Volume: "@ + decimal(level as nat)
}

pub open spec fn room_track_text(track: Seq<char>) -> Seq<char> {
    "Track: "@ + track
}

pub open spec fn separator_text() -> Seq<char> {
    "----------"@
}

/// A line for standard output holding `text`.
pub fn plain(text: &str) -> (r: Line)
    ensures
        r@ == (text@, false),
{
    Line { text: String::from_str(text), to_stderr: false }
}

pub fn not_found() -> (r: Line)
    ensures
        r@ == (not_found_text(), false),
{
    plain("No speaker found with that name\ntry using the `info` command to list discoverable devices")
}

pub fn error_line(message: &String) -> (r: Line)
    ensures
        r@ == (error_text(message@), true),
{
    let mut text = String::from_str("Error: ");
    text.append(message.as_str());
    Line { text, to_stderr: true }
}

pub fn playing(track: &String, room: &String) -> (r: Line)
    ensures
        r@ == (playing_text(track@, room@), false),
{
    let mut text = String::from_str("- Currently playing '");
    text.append(track.as_str());
    text.append(" on '");
    text.append(room.as_str());
    Line { text, to_stderr: false }
}

pub fn idle(room: &String) -> (r: Line)
    ensures
        r@ == (idle_text(room@), false),
{
    let mut text = String::from_str("- No track currently playing on ");
    text.append(room.as_str());
    Line { text, to_stderr: false }
}

pub fn volume(level: u16, room: &String) -> (r: Line)
    ensures
        r@ == (volume_text(level, room@), false),
{
    let mut text = String::from_str("The volume is currently at ");
    push_decimal(&mut text, level as u64);
    text.append(" on ");
    text.append(room.as_str());
    Line { text, to_stderr: false }
}

pub fn queue_entry(index: usize, title: &String) -> (r: Line)
    ensures
        r@ == (queue_entry_text(index as nat, title@), false),
{
    let mut text = String::new();
    push_decimal(&mut text, index as u64);
    text.append(". ");
    text.append(title.as_str());
    assert(text@ =~= queue_entry_text(index as nat, title@));
    Line { text, to_stderr: false }
}

pub fn bass(level: i8, room: &String) -> (r: Line)
    ensures
        r@ == (bass_text(level, room@), false),
{
    let mut text = String::from_str("The bass is currently set at ");
    push_signed(&mut text, level as i32);
    text.append(" on ");
    text.append(room.as_str());
    Line { text, to_stderr: false }
}

pub fn bass_set(level: i8) -> (r: Line)
    ensures
        r@ == (bass_set_text(level), false),
{
    let mut text = String::from_str("bass now at: ");
    push_signed(&mut text, level as i32);
    Line { text, to_stderr: false }
}

pub fn treble(level: i8, room: &String) -> (r: Line)
    ensures
        r@ == (treble_text(level, room@), false),
{
    let mut text = String::from_str("The treble is currently set at ");
    push_signed(&mut text, level as i32);
    text.append(" on ");
    text.append(room.as_str());
    Line { text, to_stderr: false }
}

pub fn treble_set(level: i8) -> (r: Line)
    ensures
        r@ == (treble_set_text(level), false),
{
    let mut text = String::from_str("treble now at: ");
    push_signed(&mut text, level as i32);
    Line { text, to_stderr: false }
}

pub fn joined(room: &String, on: bool) -> (r: Line)
    ensures
        r@ == (joined_text(room@, on), false),
{
    let mut text = String::from_str("joined ");
    text.append(room.as_str());
    text.append(": ");
    push_flag(&mut text, on);
    Line { text, to_stderr: false }
}

pub fn room_heading(room: &String) -> (r: Line)
    ensures
        r@ == (room_text(room@), false),
{
    let mut text = String::from_str("Room: ");
    text.append(room.as_str());
    Line { text, to_stderr: false }
}

pub fn room_volume(level: u16) -> (r: Line)
    ensures
        r@ == (room_volume_text(level), false),
{
    let mut text = String::from_str("Volume: ");
    push_decimal(&mut text, level as u64);
    Line { text, to_stderr: false }
}

pub fn room_track(track: &String) -> (r: Line)
    ensures
        r@ == (room_track_text(track@), false),
{
    let mut text = String::from_str("Track: ");
    text.append(track.as_str());
    Line { text, to_stderr: false }
}

pub fn separator() -> (r: Line)
    ensures
        r@ == (separator_text(), false),
{
    plain("----------")
}

} // verus!
