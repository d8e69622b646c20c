//! Finding a channel's name.

use crate::commands::{ContextError, Guild};
use crate::text::{decimal_digits, push_digits};
use vstd::prelude::*;

verus! {

broadcast use vstd::std_specs::hash::group_hash_axioms;

/// The name of the channel `channel` in the guild, if the command was called
/// in a guild and the guild has that channel.
pub open spec fn channel_name(guild: Option<&Guild>, channel: u64) -> Result<Seq<char>, ContextError> {
    match guild {
        None => Err(ContextError::NotInGuild),
        Some(g) => if g.channels@.contains_key(channel) {
            Ok(g.channels@[channel].name@)
        } else {
            Err(ContextError::ChannelNotFound(channel))
        },
    }
}

pub fn get_channel_name(guild: Option<&Guild>, channel: u64) -> (result: Result<String, ContextError>)
    ensures
        match result {
            Ok(name) => channel_name(guild, channel) == Ok::<Seq<char>, ContextError>(name@),
            Err(e) => channel_name(guild, channel) == Err::<Seq<char>, ContextError>(e),
        },
{
    match guild {
        None => Err(ContextError::NotInGuild),
        Some(g) => match g.channels.get(&channel) {
            Some(found) => Ok(found.name.clone()),
            None => Err(ContextError::ChannelNotFound(channel)),
        },
    }
}

/// How a reply names a channel: by its name where the guild knows the
/// channel, by its identifier where it does not.
pub open spec fn channel_label(guild: &Guild, channel: u64) -> Seq<char> {
    if guild.channels@.contains_key(channel) {
        guild.channels@[channel].name@
    } else {
        decimal_digits(channel as nat)
    }
}

pub fn get_channel_label(guild: &Guild, channel: u64) -> (label: String)
    ensures
        label@ == channel_label(guild, channel),
{
    match guild.channels.get(&channel) {
        Some(found) => found.name.clone(),
        None => {
            let mut label = String::new();
            push_digits(&mut label, channel);
            assert(label@ =~= decimal_digits(channel as nat));
            label
        },
    }
}

} // verus!
