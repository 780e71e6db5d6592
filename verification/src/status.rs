//! The message at the foot of the screen.

use std::time::{Duration, Instant};
use vstd::prelude::*;
use crate::text::{chars_of, string_of, truncate_chars, truncated};

verus! {

/// For how many seconds a message is shown.
pub const VISIBLE_SECONDS: u64 = 5;

/// `std::time::Instant`, a moment in time. Nothing is known of what it
/// holds.
#[verifier::external_type_specification]
#[verifier::external_body]
pub struct ExInstant(std::time::Instant);

/// The present moment.
///
/// Trusted: `Instant::now` returns; nothing is claimed of the moment.
#[verifier::external_body]
fn now() -> (moment: Instant) {
    Instant::now()
}

/// The time from `earlier` to `later`, and no time at all where `earlier`
/// is the later one.
///
/// Trusted: `Instant::saturating_duration_since` returns for every pair of
/// moments; nothing is claimed of the duration.
#[verifier::external_body]
fn time_between(later: &Instant, earlier: &Instant) -> (elapsed: Duration) {
    later.saturating_duration_since(*earlier)
}

/// The whole seconds of `duration`.
///
/// Trusted: `Duration::as_secs` returns; nothing is claimed of the number.
#[verifier::external_body]
fn whole_seconds(duration: &Duration) -> (seconds: u64) {
    duration.as_secs()
}

/// A text, and the moment at which it was put up.
pub struct StatusMessage {
    text: String,
    time: Instant,
}

impl View for StatusMessage {
    type V = Seq<char>;

    closed spec fn view(&self) -> Seq<char> {
        self.text@
    }
}

/// What the message bar of a screen `width` columns wide shows of a message
/// that is `age` seconds old: the message, cut down to the width, as long
/// as it is younger than [`VISIBLE_SECONDS`], and nothing after that.
pub open spec fn message_bar(text: Seq<char>, age: u64, width: int) -> Seq<char> {
    if age < VISIBLE_SECONDS {
        truncated(text, width)
    } else {
        Seq::empty()
    }
}

impl StatusMessage {
    /// The message `message`, put up now.
    pub fn from(message: String) -> (status: StatusMessage)
        ensures
            status@ == message@,
    {
        StatusMessage { time: now(), text: message }
    }

    /// The text of the message.
    pub fn text(&self) -> (text: &String)
        ensures
            text@ == self@,
    {
        &self.text
    }

    /// The age of the message in whole seconds.
    fn age(&self) -> (seconds: u64) {
        let present = now();
        let age = time_between(&present, &self.time);
        whole_seconds(&age)
    }

    /// What the message bar shows of the message at the age `age`: see
    /// [`message_bar`].
    pub fn shown_at(&self, age: u64, width: usize) -> (bar: String)
        ensures
            bar@ == message_bar(self@, age, width as int),
    {
        if age < VISIBLE_SECONDS {
            let mut chars = chars_of(self.text.as_str());
            truncate_chars(&mut chars, width);
            string_of(&chars)
        } else {
            String::new()
        }
    }

    /// What the message bar shows of the message now: the message, cut down
    /// to the width, or nothing once the message is old.
    pub fn shown(&self, width: usize) -> (bar: String)
        ensures
            exists|age: u64| bar@ == message_bar(self@, age, width as int),
    {
        let age = self.age();
        self.shown_at(age, width)
    }
}

} // verus!
