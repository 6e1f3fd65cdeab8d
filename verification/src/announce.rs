//! Arrival and departure announcements: a timestamped status line for the
//! status channel and the sound to play, composed from the local clock and
//! a randomly picked arrival sound.

use vstd::prelude::*;

use chrono::Datelike;
use chrono::Timelike;

use crate::text::{
    dec_str, padded2_str, padded4_str, u64_to_padded2, u64_to_padded4, u64_to_string,
};

verus! {

/// How many arrival sounds the sound pool holds; arrival playback picks one
/// of them at random.
pub const HELLO_SOUND_COUNT: u64 = 7;

/// How long an arrival announcement waits before sending, in milliseconds,
/// so as not to race the platform's own voice-connection setup for the user
/// who just arrived.
pub const HELLO_DELAY_MS: u64 = 500;

/// A local wall-clock time, broken into calendar fields.
#[derive(Clone, Copy, PartialEq, Eq, Structural, Debug)]
pub struct Timestamp {
    pub year: i64,
    pub month: u64,
    pub day: u64,
    pub hour: u64,
    pub minute: u64,
    pub second: u64,
}

impl Timestamp {
    /// Calendar field ranges; the year stays within what a 32-bit clock
    /// year can carry.
    pub open spec fn wf(&self) -> bool {
        &&& -0x8000_0000 <= self.year <= 0x7fff_ffff
        &&& 1 <= self.month <= 12
        &&& 1 <= self.day <= 31
        &&& self.hour <= 23
        &&& self.minute <= 59
        &&& self.second <= 59
    }
}

/// Relies on chrono's `Local::now` with the `Datelike` and `Timelike`
/// accessors: the month runs 1 to 12, the day 1 to 31, the hour 0 to 23,
/// the minute and the second 0 to 59, and the year is a 32-bit number.
#[verifier::external_body]
pub fn local_now() -> (t: Timestamp)
    ensures
        t.wf(),
{
    let now = chrono::Local::now();
    Timestamp {
        year: now.year() as i64,
        month: now.month() as u64,
        day: now.day() as u64,
        hour: now.hour() as u64,
        minute: now.minute() as u64,
        second: now.second() as u64,
    }
}

/// Relies on rand's `random_range`, which returns a value drawn from the
/// given range: the result is below [`HELLO_SOUND_COUNT`].
#[verifier::external_body]
pub fn random_hello_index() -> (i: u64)
    ensures
        i < HELLO_SOUND_COUNT,
{
    rand::random_range(0..HELLO_SOUND_COUNT)
}

/// The calendar year, zero-padded to four digits, negative years signed.
pub open spec fn year_str(y: int) -> Seq<char> {
    if y < 0 {
        seq!['-'] + padded4_str((-y) as nat)
    } else {
        padded4_str(y as nat)
    }
}

/// A time as "dd.mm.yyyy HH:MM:SS", every field zero-padded.
pub open spec fn timestamp_str(t: Timestamp) -> Seq<char> {
    padded2_str(t.day as nat) + seq!['.'] + padded2_str(t.month as nat) + seq!['.'] + year_str(
        t.year as int,
    ) + seq![' '] + padded2_str(t.hour as nat) + seq![':'] + padded2_str(t.minute as nat)
        + seq![':'] + padded2_str(t.second as nat)
}

/// Renders a calendar year, zero-padded to four digits.
pub fn format_year(y: i64) -> (r: String)
    requires
        -0x8000_0000 <= y <= 0x7fff_ffff,
    ensures
        r@ == year_str(y as int),
{
    if y < 0 {
        let mag = (-y) as u64;
        proof { reveal_strlit("-"); }
        let r = String::from_str("-").concat(u64_to_padded4(mag).as_str());
        proof {
            assert("-"@ =~= seq!['-']);
        }
        r
    } else {
        u64_to_padded4(y as u64)
    }
}

/// Renders a time as "dd.mm.yyyy HH:MM:SS".
pub fn format_timestamp(t: &Timestamp) -> (r: String)
    requires
        t.wf(),
    ensures
        r@ == timestamp_str(*t),
{
    proof {
        reveal_strlit(".");
        reveal_strlit(" ");
        reveal_strlit(":");
    }
    let mut s = u64_to_padded2(t.day);
    s.append(".");
    s.append(u64_to_padded2(t.month).as_str());
    s.append(".");
    s.append(format_year(t.year).as_str());
    s.append(" ");
    s.append(u64_to_padded2(t.hour).as_str());
    s.append(":");
    s.append(u64_to_padded2(t.minute).as_str());
    s.append(":");
    s.append(u64_to_padded2(t.second).as_str());
    proof {
        assert("."@ =~= seq!['.']);
        assert(" "@ =~= seq![' ']);
        assert(":"@ =~= seq![':']);
        assert(s@ =~= timestamp_str(*t));
    }
    s
}

/// The status-channel line for one arrival or departure:
/// "[dd.mm.yyyy HH:MM:SS] **name**" followed by the message tail.
pub open spec fn status_message(
    t: Timestamp,
    display_name: Seq<char>,
    message_postfix: Seq<char>,
) -> Seq<char> {
    seq!['['] + timestamp_str(t) + seq![']', ' ', '*', '*'] + display_name + seq!['*', '*']
        + message_postfix
}

/// Renders the status-channel line for a user's display name and a message
/// tail.
pub fn format_status_message(t: &Timestamp, display_name: &str, message_postfix: &str) -> (r:
    String)
    requires
        t.wf(),
    ensures
        r@ == status_message(*t, display_name@, message_postfix@),
{
    proof {
        reveal_strlit("[");
        reveal_strlit("] **");
        reveal_strlit("**");
    }
    let mut s = String::from_str("[");
    s.append(format_timestamp(t).as_str());
    s.append("] **");
    s.append(display_name);
    s.append("**");
    s.append(message_postfix);
    proof {
        assert("["@ =~= seq!['[']);
        assert("] **"@ =~= seq![']', ' ', '*', '*']);
        assert("**"@ =~= seq!['*', '*']);
        assert(s@ =~= status_message(*t, display_name@, message_postfix@));
    }
    s
}

/// One composed announcement: wait for the delay, send the message to the
/// status channel, then play the sound.
pub struct Announcement {
    pub delay_ms: u64,
    pub message: String,
    pub sound: String,
}

/// The sound name of one arrival sound.
pub open spec fn hello_sound_name(i: nat) -> Seq<char> {
    "hello"@ + dec_str(i)
}

/// Composes the arrival announcement for a user's display name: a bounded
/// delay ahead of the send, the timestamped arrival line, and one arrival
/// sound picked at random from the pool.
pub fn say_hello(display_name: &str) -> (a: Announcement)
    ensures
        a.delay_ms == HELLO_DELAY_MS,
        exists|t: Timestamp, i: nat|
            t.wf() && i < HELLO_SOUND_COUNT && a.message@ == status_message(
                t,
                display_name@,
                " joined."@,
            ) && a.sound@ == hello_sound_name(i),
{
    let now = local_now();
    let message = format_status_message(&now, display_name, " joined.");
    let index = random_hello_index();
    let sound = String::from_str("hello").concat(u64_to_string(index).as_str());
    proof {
        assert(sound@ == hello_sound_name(index as nat));
        assert(now.wf() && (index as nat) < HELLO_SOUND_COUNT && message@ == status_message(
            now,
            display_name@,
            " joined."@,
        ) && sound@ == hello_sound_name(index as nat));
    }
    Announcement { delay_ms: HELLO_DELAY_MS, message, sound }
}

/// Composes the departure announcement for a user's display name: the
/// timestamped departure line, sent at once, and the fixed departure sound.
pub fn say_goodbye(display_name: &str) -> (a: Announcement)
    ensures
        a.delay_ms == 0,
        exists|t: Timestamp|
            t.wf() && a.message@ == status_message(t, display_name@, " left."@),
        a.sound@ == "goodbye"@,
{
    let now = local_now();
    let message = format_status_message(&now, display_name, " left.");
    proof {
        assert(now.wf() && message@ == status_message(now, display_name@, " left."@));
    }
    Announcement { delay_ms: 0, message, sound: String::from_str("goodbye") }
}

} // verus!
