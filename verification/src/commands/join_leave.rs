//! Joining and leaving a voice channel.

use crate::commands::util::{channel_label, get_channel_label};
use crate::commands::{ChannelKind, ContextError, Guild, GuildChannel, VoiceSession};
use vstd::prelude::*;
use vstd::string::*;

verus! {

/// The reply to a request to join a channel that is no voice channel.
pub const NOT_A_VOICE_CHANNEL: &'static str = "That's not a voice channel!";

/// The reply when joining was tried and failed.
pub const FAILED_TO_JOIN: &'static str = "Failed to join the voice channel";

/// The reply when the bot has no voice session in the guild.
pub const NO_SESSION: &'static str = "Not in a voice channel (failed to get manager)";

/// The reply to a request to leave when the session is connected to no
/// channel.
pub const NO_CURRENT_CHANNEL: &'static str =
    "Not in a voice channel (no current channel for handler)";

/// What a request to join comes to before anything is tried.
#[derive(Debug, PartialEq, Eq)]
pub enum JoinPlan {
    /// Say `reply` and end well; nothing is joined.
    Reject { reply: String },
    /// Join `channel` in `guild`, then answer with [`join_voice_reply`].
    Join { guild: u64, channel: u64 },
}

/// Decides a request to join `channel`, called in `guild` if in any. A
/// channel that is no voice channel is turned down whatever else holds; a
/// voice channel is joined where there is a guild, and where there is none
/// the reply says so.
pub fn join_voice(channel: &GuildChannel, guild: Option<u64>) -> (plan: JoinPlan)
    ensures
        channel.kind != ChannelKind::Voice ==> (plan matches JoinPlan::Reject { reply } && reply@
            == NOT_A_VOICE_CHANNEL@),
        channel.kind == ChannelKind::Voice && guild is None ==> (
        plan matches JoinPlan::Reject { reply } && reply@
            == ContextError::NotInGuild.message_text()),
        channel.kind == ChannelKind::Voice && guild is Some ==> plan == (JoinPlan::Join {
            guild: guild->0,
            channel: channel.id,
        }),
{
    match channel.kind {
        ChannelKind::Voice => match guild {
            Some(g) => JoinPlan::Join { guild: g, channel: channel.id },
            None => JoinPlan::Reject { reply: ContextError::NotInGuild.message() },
        },
        _ => JoinPlan::Reject { reply: String::from_str(NOT_A_VOICE_CHANNEL) },
    }
}

/// What is said once joining `channel` was tried.
pub open spec fn join_reply_text(channel: &GuildChannel, joined: bool) -> Seq<char> {
    if joined {
        "Joined voice channel \""@ + channel.name@ + "\""@
    } else {
        FAILED_TO_JOIN@
    }
}

pub fn join_voice_reply(channel: &GuildChannel, joined: bool) -> (reply: String)
    ensures
        reply@ == join_reply_text(channel, joined),
{
    if joined {
        let mut reply = String::from_str("Joined voice channel \"");
        reply.append(channel.name.as_str());
        reply.append("\"");
        assert(reply@ =~= join_reply_text(channel, joined));
        reply
    } else {
        String::from_str(FAILED_TO_JOIN)
    }
}

/// What a request to leave comes to.
#[derive(Debug, PartialEq, Eq)]
pub enum LeavePlan {
    /// Say `reply` and end well; nothing is left.
    Reply { reply: String },
    /// Say `reply`, then leave the channel.
    Leave { reply: String },
}

/// Decides a request to leave, called in `guild` if in any, where `session`
/// is the bot's voice session in that guild if it has one. Only a session
/// that is connected to a channel is left; in every other case the reply
/// says what is missing.
pub fn leave_voice(guild: Option<&Guild>, session: Option<&VoiceSession>) -> (plan: LeavePlan)
    ensures
        guild is None ==> (plan matches LeavePlan::Reply { reply } && reply@
            == ContextError::NotInGuild.message_text()),
        guild is Some && session is None ==> (plan matches LeavePlan::Reply { reply } && reply@
            == NO_SESSION@),
        guild is Some && session is Some && session->0.current_channel is None ==> (
        plan matches LeavePlan::Reply { reply } && reply@ == NO_CURRENT_CHANNEL@),
        guild is Some && session is Some && session->0.current_channel is Some ==> (
        plan matches LeavePlan::Leave { reply } && reply@ == "Leaving channel "@ + channel_label(
            guild->0,
            session->0.current_channel->0,
        )),
{
    let guild = match guild {
        Some(g) => g,
        None => {
            return LeavePlan::Reply { reply: ContextError::NotInGuild.message() };
        },
    };
    match session {
        None => LeavePlan::Reply { reply: String::from_str(NO_SESSION) },
        Some(s) => match s.current_channel {
            None => LeavePlan::Reply { reply: String::from_str(NO_CURRENT_CHANNEL) },
            Some(channel) => {
                let mut reply = String::from_str("Leaving channel ");
                reply.append(get_channel_label(guild, channel).as_str());
                LeavePlan::Leave { reply }
            },
        },
    }
}

} // verus!
