//! Reporting how much of the subscription is used.

use crate::elevenlabs::{ApiError, UsageSnapshot};
use crate::text::{decimal, push_decimal};
use vstd::prelude::*;
use vstd::string::*;

verus! {

/// The instant that the report names as the reset, in seconds since the
/// start of 1970. Where no reset is scheduled, the report names the start of
/// 1970 itself.
pub open spec fn reset_instant(usage: UsageSnapshot) -> i64 {
    match usage.reset {
        Some(secs) => secs,
        None => 0,
    }
}

pub fn get_reset_instant(usage: &UsageSnapshot) -> (secs: i64)
    ensures
        secs == reset_instant(*usage),
{
    match usage.reset {
        Some(secs) => secs,
        None => 0,
    }
}

/// The report: a heading, the characters used of those allowed, and the
/// reset as `reset_text` tells it.
pub open spec fn usage_text(usage: UsageSnapshot, reset_text: Seq<char>) -> Seq<char> {
    "**Current ElevenLabs API Usage**\nUsed characters: "@ + decimal(usage.characters_used as int)
        + " of "@ + decimal(usage.character_limit as int) + "\nResets on: "@ + reset_text
}

/// Writes the report on `usage`. `reset_text` is the date and time of
/// [`get_reset_instant`] in the words of the place where the bot runs.
pub fn show_usage(usage: &UsageSnapshot, reset_text: &str) -> (report: String)
    ensures
        report@ == usage_text(*usage, reset_text@),
{
    let mut report = String::from_str("**Current ElevenLabs API Usage**\nUsed characters: ");
    push_decimal(&mut report, usage.characters_used);
    report.append(" of ");
    push_decimal(&mut report, usage.character_limit);
    report.append("\nResets on: ");
    report.append(reset_text);
    report
}

/// What is said when the usage could not be fetched.
pub open spec fn usage_failure_text(e: ApiError) -> Seq<char> {
    "Failed to get usage: "@ + e.message_text()
}

/// The reply to a request for the usage that failed: it names the failure.
pub fn show_usage_failure(e: &ApiError) -> (reply: String)
    ensures
        reply@ == usage_failure_text(*e),
{
    let mut reply = String::from_str("Failed to get usage: ");
    reply.append(e.message().as_str());
    reply
}

} // verus!
