//! What each command decides. A command sees the chat platform through plain
//! values: the guild it was called in, the bot's voice session there, what a
//! request for speech came to. It answers with what to do next; doing it is
//! the caller's.

pub mod join_leave;
pub mod speak;
pub mod usage;
pub mod util;

use crate::text::{decimal_digits, push_digits};
use std::collections::HashMap;
use vstd::prelude::*;
use vstd::string::*;

verus! {

/// What kind of channel a channel is. Only a voice channel can be joined.
#[derive(Clone, Copy, Debug, PartialEq, Eq, Structural)]
pub enum ChannelKind {
    Text,
    Voice,
    Other,
}

/// A channel of a guild.
#[derive(Debug, PartialEq, Eq)]
pub struct GuildChannel {
    pub id: u64,
    pub kind: ChannelKind,
    pub name: String,
}

/// The guild that a command was called in, with its channels by identifier.
#[derive(Debug, PartialEq, Eq)]
pub struct Guild {
    pub id: u64,
    pub channels: HashMap<u64, GuildChannel>,
}

/// The bot's voice session in a guild: the channel it is connected to, if
/// any.
#[derive(Clone, Copy, Debug, PartialEq, Eq, Structural)]
pub struct VoiceSession {
    pub current_channel: Option<u64>,
}

/// A command was called where it cannot work.
#[derive(Clone, Copy, Debug, PartialEq, Eq, Structural)]
pub enum ContextError {
    /// The command needs a guild and was called outside one.
    NotInGuild,
    /// The guild has no channel with this identifier.
    ChannelNotFound(u64),
}

impl ContextError {
    /// The error in words.
    pub open spec fn message_text(self) -> Seq<char> {
        match self {
            ContextError::NotInGuild => "Not in a guild"@,
            ContextError::ChannelNotFound(id) => "Channel "@ + decimal_digits(id as nat)
                + " not found"@,
        }
    }

    pub fn message(&self) -> (text: String)
        ensures
            text@ == self.message_text(),
    {
        match self {
            ContextError::NotInGuild => String::from_str("Not in a guild"),
            ContextError::ChannelNotFound(id) => {
                let mut text = String::from_str("Channel ");
                push_digits(&mut text, *id);
                text.append(" not found");
                assert(text@ =~= self.message_text());
                text
            },
        }
    }
}

} // verus!
