//! Speaking: as a file in the chat, or into the voice channel that the bot
//! is in.

use crate::commands::join_leave::NO_SESSION;
use crate::commands::util::{channel_label, get_channel_label};
use crate::commands::{ContextError, Guild, VoiceSession};
use crate::elevenlabs::media::OutputFormat;
use crate::elevenlabs::types::{Binary32, KnownVoice, SpeechSpeed, SpeedConfig, VoiceSettings};
use crate::elevenlabs::{ApiError, ElevenLabs, HttpRequest};
use crate::streamutil::{all_chunks, broke_at, concat, write_stream_to_vec_u8, StreamItem, StreamReadError};
use vstd::prelude::*;
use vstd::string::*;

verus! {

/// What is said before speech for a file is asked for.
pub const GENERATING: &'static str = "Generating voice...";

/// What is said with the file once the speech is there.
pub const GENERATED: &'static str = "Generated voice";

/// The name of the file that carries the speech.
pub const ATTACHMENT_NAME: &'static str = "Generated voice.mp3";

/// The reply to a request to speak when the session is connected to no
/// channel.
pub const NOT_IN_VOICE_CHANNEL: &'static str = "Not in a voice channel";

/// Why there is no speech.
#[derive(Debug, PartialEq, Eq)]
pub enum SpeechError {
    /// The service was not reached, or turned the request down.
    Api(ApiError),
    /// The speech began to arrive and broke off.
    Stream(StreamReadError),
}

impl SpeechError {
    /// The failure in words.
    pub open spec fn message_text(self) -> Seq<char> {
        match self {
            SpeechError::Api(e) => e.message_text(),
            SpeechError::Stream(e) => e.message@,
        }
    }

    pub fn message(&self) -> (text: String)
        ensures
            text@ == self.message_text(),
    {
        match self {
            SpeechError::Api(e) => e.message(),
            SpeechError::Stream(e) => e.message.clone(),
        }
    }
}

/// The settings with which `voice` is asked to speak at `speed`: the voice's
/// defaults, with the speed resolved for `speed`.
pub open spec fn speech_settings(
    voice: KnownVoice,
    speed: Option<SpeechSpeed>,
    entries: Seq<(String, Binary32)>,
) -> VoiceSettings {
    VoiceSettings {
        stability: None,
        similarity_boost: None,
        style: Some(Binary32 { bits: 0 }),
        use_speaker_boost: None,
        speed: Some(voice.resolved_speed(speed, entries)),
    }
}

/// The request that asks for `text` spoken by `voice` at `speed`, as MP3 at
/// 44100 Hz and 128 kbit/s.
pub fn generate_speech_request(
    client: &ElevenLabs,
    voice: KnownVoice,
    text: String,
    speed: Option<SpeechSpeed>,
    model: Option<String>,
    config: &SpeedConfig,
) -> (req: HttpRequest)
    ensures
        req@ == client.speech_request(
            voice.id(),
            text@,
            Some(speech_settings(voice, speed, config.entries@)),
            match model {
                Some(m) => Some(m@),
                None => None,
            },
            Some(OutputFormat::spec_mp3_44100hz_128kbps()),
        ),
        speech_settings(voice, speed, config.entries@).speed->0.is_valid_speed(),
{
    let defaults = voice.get_default_voice_settings(config);
    let settings = VoiceSettings {
        stability: defaults.stability,
        similarity_boost: defaults.similarity_boost,
        style: defaults.style,
        use_speaker_boost: defaults.use_speaker_boost,
        speed: Some(voice.get_speed(speed, config)),
    };
    let format = OutputFormat::mp3_44100hz_128kbps();
    client.generate_voice(voice.get_id(), text, Some(settings), model, Some(&format))
}

/// The speech that a request came to. `opened` is what sending the request
/// gave: the items of the answer's stream, or why there is no stream.
pub fn generate_speech_bytes(opened: Result<Vec<StreamItem>, ApiError>) -> (result: Result<
    Vec<u8>,
    SpeechError,
>)
    ensures
        match result {
            Ok(audio) => opened matches Ok(items) && all_chunks(items@) && audio@ == concat(
                items@,
            ),
            Err(SpeechError::Api(e)) => opened == Err::<Vec<StreamItem>, ApiError>(e),
            Err(SpeechError::Stream(e)) => opened matches Ok(items) && broke_at(
                items@,
                e.chunks_read as int,
                e.message,
            ),
        },
{
    match opened {
        Err(e) => Err(SpeechError::Api(e)),
        Ok(items) => match write_stream_to_vec_u8(items) {
            Ok(audio) => Ok(audio),
            Err(e) => Err(SpeechError::Stream(e)),
        },
    }
}

/// What a command shows once the speech is there, or is not.
#[derive(Debug, PartialEq, Eq)]
pub enum Publication {
    /// Say `reply`; there is no speech.
    Failed { reply: String },
    /// Put `audio` into the announcing message as the file `file_name`, with
    /// `content` as its text; where `play` holds, also hand `audio` to the
    /// voice session.
    Audio { content: String, file_name: String, audio: Vec<u8>, play: bool },
}

/// What is said when there is no speech.
pub open spec fn failure_reply(e: SpeechError) -> Seq<char> {
    "Failed to generate voice: "@ + e.message_text()
}

/// What `generated` is shown as: `content` with the file where there is
/// speech, played too where `play` holds; the failure in words where there
/// is none.
pub open spec fn shown_as(
    publication: Publication,
    generated: Result<Vec<u8>, SpeechError>,
    content: Seq<char>,
    play: bool,
) -> bool {
    match generated {
        Ok(bytes) => publication matches Publication::Audio {
            content: c,
            file_name,
            audio,
            play: p,
        } && c@ == content && file_name@ == ATTACHMENT_NAME@ && audio == bytes && p == play,
        Err(e) => publication matches Publication::Failed { reply } && reply@ == failure_reply(e),
    }
}

fn publish(generated: Result<Vec<u8>, SpeechError>, content: String, play: bool) -> (publication:
    Publication)
    ensures
        shown_as(publication, generated, content@, play),
{
    match generated {
        Ok(audio) => Publication::Audio {
            content,
            file_name: String::from_str(ATTACHMENT_NAME),
            audio,
            play,
        },
        Err(e) => {
            let mut reply = String::from_str("Failed to generate voice: ");
            reply.append(e.message().as_str());
            Publication::Failed { reply }
        },
    }
}

/// Ends the command that posts speech as a file. The speech is not played.
pub fn speak(generated: Result<Vec<u8>, SpeechError>) -> (publication: Publication)
    ensures
        shown_as(publication, generated, GENERATED@, false),
{
    publish(generated, String::from_str(GENERATED), false)
}

/// What a request to speak in the voice channel comes to before any speech
/// is asked for.
#[derive(Debug, PartialEq, Eq)]
pub enum SpeakPlan {
    /// Say `reply` and end well; no speech is asked for.
    Reply { reply: String },
    /// Say `announcement`, ask for the speech, and end with
    /// [`speak_in_channel`] for the channel called `label`.
    Generate { channel: u64, label: String, announcement: String },
}

/// What is said before speech for the channel called `label` is asked for.
pub open spec fn announcement_text(label: Seq<char>) -> Seq<char> {
    "Generating voice to speak in channel \""@ + label + "\"..."@
}

/// What is said with the speech for the channel called `label`.
pub open spec fn speaking_text(label: Seq<char>) -> Seq<char> {
    "Speaking in channel \""@ + label + "\""@
}

/// Decides a request to speak in the voice channel, called in `guild` if in
/// any, where `session` is the bot's voice session in that guild if it has
/// one. Speech is asked for only where the session is connected to a
/// channel; in every other case the reply says what is missing.
pub fn speak_vs(guild: Option<&Guild>, session: Option<&VoiceSession>) -> (plan: SpeakPlan)
    ensures
        guild is None ==> (plan matches SpeakPlan::Reply { reply } && reply@
            == ContextError::NotInGuild.message_text()),
        guild is Some && session is None ==> (plan matches SpeakPlan::Reply { reply } && reply@
            == NO_SESSION@),
        guild is Some && session is Some && session->0.current_channel is None ==> (
        plan matches SpeakPlan::Reply { reply } && reply@ == NOT_IN_VOICE_CHANNEL@),
        guild is Some && session is Some && session->0.current_channel is Some ==> (
        plan matches SpeakPlan::Generate { channel, label, announcement } && channel
            == session->0.current_channel->0 && label@ == channel_label(guild->0, channel)
            && announcement@ == announcement_text(label@)),
{
    let guild = match guild {
        Some(g) => g,
        None => {
            return SpeakPlan::Reply { reply: ContextError::NotInGuild.message() };
        },
    };
    match session {
        None => SpeakPlan::Reply { reply: String::from_str(NO_SESSION) },
        Some(s) => match s.current_channel {
            None => SpeakPlan::Reply { reply: String::from_str(NOT_IN_VOICE_CHANNEL) },
            Some(channel) => {
                let label = get_channel_label(guild, channel);
                let mut announcement = String::from_str("Generating voice to speak in channel \"");
                announcement.append(label.as_str());
                announcement.append("\"...");
                SpeakPlan::Generate { channel, label, announcement }
            },
        },
    }
}

/// Ends the command that speaks in the voice channel called `label`: the
/// speech is posted as a file and played.
pub fn speak_in_channel(label: &str, generated: Result<Vec<u8>, SpeechError>) -> (publication:
    Publication)
    ensures
        shown_as(publication, generated, speaking_text(label@), true),
{
    let mut content = String::from_str("Speaking in channel \"");
    content.append(label);
    content.append("\"");
    publish(generated, content, true)
}

} // verus!
