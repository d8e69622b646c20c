//! What the service answers.

use crate::elevenlabs::types::Voice;
use vstd::prelude::*;

verus! {

/// The voices that the service offers.
#[derive(Debug, PartialEq, Eq)]
pub struct VoiceList {
    pub voices: Vec<Voice>,
}

/// The account behind the key, with its subscription.
#[derive(Debug, PartialEq, Eq)]
pub struct UserInfo {
    pub user_id: String,
    pub subscription: Subscription,
}

/// How much of the subscription is used. The reset is given in seconds since
/// the start of 1970.
#[derive(Clone, Copy, Debug, PartialEq, Eq, Structural)]
pub struct Subscription {
    pub character_count: i64,
    pub character_limit: i64,
    pub next_character_count_reset_unix: i64,
}

} // verus!
