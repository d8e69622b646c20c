//! What the bot holds while it runs, and what it needs to start.

use crate::elevenlabs::ElevenLabs;
use vstd::prelude::*;
use vstd::string::*;

verus! {

/// The name under which the environment holds the chat platform's token.
pub const DISCORD_TOKEN_ENV: &'static str = "DISCORD_TOKEN";

/// The name under which the environment holds the key of the speech service.
pub const ELEVENLABS_TOKEN_ENV: &'static str = "ELEVENLABS_TOKEN";

/// The name under which the shared HTTP client is kept.
#[derive(Clone, Copy, Debug, PartialEq, Eq, Structural)]
pub struct HttpKey;

/// What every command can reach.
pub struct Data {
    pub client: ElevenLabs,
}

/// A token that the bot cannot start without is not set.
#[derive(Clone, Copy, Debug, PartialEq, Eq, Structural)]
pub enum ConfigurationError {
    MissingDiscordToken,
    MissingElevenLabsToken,
}

impl ConfigurationError {
    /// The name that has to be set.
    pub open spec fn variable(self) -> Seq<char> {
        match self {
            ConfigurationError::MissingDiscordToken => DISCORD_TOKEN_ENV@,
            ConfigurationError::MissingElevenLabsToken => ELEVENLABS_TOKEN_ENV@,
        }
    }

    /// The error in words.
    pub open spec fn message_text(self) -> Seq<char> {
        "Please set the "@ + self.variable() + " environment variable"@
    }

    pub fn message(&self) -> (text: String)
        ensures
            text@ == self.message_text(),
    {
        let mut text = String::from_str("Please set the ");
        match self {
            ConfigurationError::MissingDiscordToken => text.append(DISCORD_TOKEN_ENV),
            ConfigurationError::MissingElevenLabsToken => text.append(ELEVENLABS_TOKEN_ENV),
        }
        text.append(" environment variable");
        text
    }
}

/// The two tokens, where both are set. `discord` and `elevenlabs` are what
/// the environment holds under [`DISCORD_TOKEN_ENV`] and
/// [`ELEVENLABS_TOKEN_ENV`]. The chat platform's token is looked at first.
pub fn parse_env(discord: Option<String>, elevenlabs: Option<String>) -> (result: Result<
    (String, String),
    ConfigurationError,
>)
    ensures
        result == (match (discord, elevenlabs) {
            (None, _) => Err(ConfigurationError::MissingDiscordToken),
            (Some(_), None) => Err(ConfigurationError::MissingElevenLabsToken),
            (Some(d), Some(e)) => Ok((d, e)),
        }),
{
    let discord_token = match discord {
        Some(token) => token,
        None => {
            return Err(ConfigurationError::MissingDiscordToken);
        },
    };
    let elevenlabs_token = match elevenlabs {
        Some(token) => token,
        None => {
            return Err(ConfigurationError::MissingElevenLabsToken);
        },
    };
    Ok((discord_token, elevenlabs_token))
}

} // verus!
