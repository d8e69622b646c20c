use finals_tts::commands::join_leave::{
    join_voice, join_voice_reply, leave_voice, JoinPlan, LeavePlan,
};
use finals_tts::commands::speak::{
    generate_speech_bytes, generate_speech_request, speak, speak_in_channel, speak_vs,
    Publication, SpeakPlan, SpeechError, GENERATING,
};
use finals_tts::commands::usage::{get_reset_instant, show_usage, show_usage_failure};
use finals_tts::commands::util::{get_channel_label, get_channel_name};
use finals_tts::commands::{ChannelKind, ContextError, Guild, GuildChannel, VoiceSession};
use finals_tts::elevenlabs::requests::CreateSpeechRequest;
use finals_tts::elevenlabs::responses::{Subscription, UserInfo};
use finals_tts::elevenlabs::types::{Binary32, KnownVoice, SpeechSpeed, SpeedConfig, VoiceSettings};
use finals_tts::elevenlabs::{ApiError, ElevenLabs, Exchange, Method, UsageSnapshot};
use finals_tts::streamutil::{StreamItem, StreamReadError};
use finals_tts::types::{
    parse_env, ConfigurationError, Data, HttpKey, DISCORD_TOKEN_ENV, ELEVENLABS_TOKEN_ENV,
};
use std::collections::HashMap;

fn channel(id: u64, kind: ChannelKind, name: &str) -> GuildChannel {
    GuildChannel { id, kind, name: name.to_string() }
}

fn guild() -> Guild {
    let mut channels = HashMap::new();
    channels.insert(10, channel(10, ChannelKind::Text, "general"));
    channels.insert(20, channel(20, ChannelKind::Voice, "Lounge"));
    Guild { id: 1, channels }
}

fn session(current: Option<u64>) -> VoiceSession {
    VoiceSession { current_channel: current }
}

#[test]
fn join_voice_turns_down_what_is_no_voice_channel() {
    for kind in [ChannelKind::Text, ChannelKind::Other] {
        for g in [None, Some(1)] {
            assert_eq!(
                join_voice(&channel(10, kind, "general"), g),
                JoinPlan::Reject { reply: "That's not a voice channel!".to_string() }
            );
        }
    }
}

#[test]
fn join_voice_needs_a_guild() {
    assert_eq!(
        join_voice(&channel(20, ChannelKind::Voice, "Lounge"), None),
        JoinPlan::Reject { reply: "Not in a guild".to_string() }
    );
}

#[test]
fn join_voice_joins_a_voice_channel() {
    assert_eq!(
        join_voice(&channel(20, ChannelKind::Voice, "Lounge"), Some(1)),
        JoinPlan::Join { guild: 1, channel: 20 }
    );
}

#[test]
fn join_voice_replies() {
    let c = channel(20, ChannelKind::Voice, "Lounge");
    assert_eq!(join_voice_reply(&c, true), "Joined voice channel \"Lounge\"");
    assert_eq!(join_voice_reply(&c, false), "Failed to join the voice channel");
}

#[test]
fn leave_voice_needs_a_guild() {
    assert_eq!(leave_voice(None, None), LeavePlan::Reply { reply: "Not in a guild".to_string() });
    assert_eq!(
        leave_voice(None, Some(&session(Some(20)))),
        LeavePlan::Reply { reply: "Not in a guild".to_string() }
    );
}

#[test]
fn leave_voice_without_a_session_only_replies() {
    assert_eq!(
        leave_voice(Some(&guild()), None),
        LeavePlan::Reply { reply: "Not in a voice channel (failed to get manager)".to_string() }
    );
}

#[test]
fn leave_voice_without_a_current_channel_only_replies() {
    assert_eq!(
        leave_voice(Some(&guild()), Some(&session(None))),
        LeavePlan::Reply {
            reply: "Not in a voice channel (no current channel for handler)".to_string()
        }
    );
}

#[test]
fn leave_voice_names_the_channel_it_leaves() {
    assert_eq!(
        leave_voice(Some(&guild()), Some(&session(Some(20)))),
        LeavePlan::Leave { reply: "Leaving channel Lounge".to_string() }
    );
    assert_eq!(
        leave_voice(Some(&guild()), Some(&session(Some(12345678901234567890)))),
        LeavePlan::Leave { reply: "Leaving channel 12345678901234567890".to_string() }
    );
}

#[test]
fn channel_names() {
    assert_eq!(get_channel_name(Some(&guild()), 20), Ok("Lounge".to_string()));
    assert_eq!(get_channel_name(Some(&guild()), 10), Ok("general".to_string()));
    assert_eq!(get_channel_name(Some(&guild()), 30), Err(ContextError::ChannelNotFound(30)));
    assert_eq!(get_channel_name(None, 20), Err(ContextError::NotInGuild));
    assert_eq!(get_channel_label(&guild(), 20), "Lounge");
    assert_eq!(get_channel_label(&guild(), 30), "30");
    assert_eq!(get_channel_label(&guild(), 0), "0");
}

#[test]
fn context_error_messages() {
    assert_eq!(ContextError::NotInGuild.message(), "Not in a guild");
    assert_eq!(ContextError::ChannelNotFound(30).message(), "Channel 30 not found");
    assert_eq!(
        ContextError::ChannelNotFound(u64::MAX).message(),
        "Channel 18446744073709551615 not found"
    );
}

#[test]
fn speak_vs_needs_a_guild() {
    assert_eq!(
        speak_vs(None, Some(&session(Some(20)))),
        SpeakPlan::Reply { reply: "Not in a guild".to_string() }
    );
    assert_eq!(speak_vs(None, None), SpeakPlan::Reply { reply: "Not in a guild".to_string() });
}

#[test]
fn speak_vs_without_a_session_only_replies() {
    assert_eq!(
        speak_vs(Some(&guild()), None),
        SpeakPlan::Reply { reply: "Not in a voice channel (failed to get manager)".to_string() }
    );
    assert_eq!(
        speak_vs(Some(&guild()), Some(&session(None))),
        SpeakPlan::Reply { reply: "Not in a voice channel".to_string() }
    );
}

#[test]
fn speak_vs_announces_the_channel() {
    assert_eq!(
        speak_vs(Some(&guild()), Some(&session(Some(20)))),
        SpeakPlan::Generate {
            channel: 20,
            label: "Lounge".to_string(),
            announcement: "Generating voice to speak in channel \"Lounge\"...".to_string(),
        }
    );
    assert_eq!(
        speak_vs(Some(&guild()), Some(&session(Some(77)))),
        SpeakPlan::Generate {
            channel: 77,
            label: "77".to_string(),
            announcement: "Generating voice to speak in channel \"77\"...".to_string(),
        }
    );
}

#[test]
fn speak_posts_the_file() {
    assert_eq!(GENERATING, "Generating voice...");
    assert_eq!(
        speak(Ok(vec![1, 2, 3])),
        Publication::Audio {
            content: "Generated voice".to_string(),
            file_name: "Generated voice.mp3".to_string(),
            audio: vec![1, 2, 3],
            play: false,
        }
    );
}

#[test]
fn speak_reports_a_failure() {
    let e = SpeechError::Api(ApiError::Provider { status: 401, body: "denied".to_string() });
    assert_eq!(
        speak(Err(e)),
        Publication::Failed {
            reply: "Failed to generate voice: Error HTTP 401: denied".to_string()
        }
    );
    let e = SpeechError::Stream(StreamReadError { chunks_read: 4, message: "reset".to_string() });
    assert_eq!(
        speak(Err(e)),
        Publication::Failed { reply: "Failed to generate voice: reset".to_string() }
    );
}

#[test]
fn speak_in_channel_posts_and_plays() {
    assert_eq!(
        speak_in_channel("Lounge", Ok(vec![9])),
        Publication::Audio {
            content: "Speaking in channel \"Lounge\"".to_string(),
            file_name: "Generated voice.mp3".to_string(),
            audio: vec![9],
            play: true,
        }
    );
    assert_eq!(
        speak_in_channel("Lounge", Err(SpeechError::Api(ApiError::Transport("dns".to_string())))),
        Publication::Failed { reply: "Failed to generate voice: dns".to_string() }
    );
}

#[test]
fn speech_bytes_are_the_whole_stream_or_nothing() {
    let items = vec![StreamItem::Chunk(vec![1]), StreamItem::Chunk(vec![2, 3])];
    assert_eq!(generate_speech_bytes(Ok(items)), Ok(vec![1, 2, 3]));
    let items = vec![StreamItem::Chunk(vec![1]), StreamItem::Failure("cut".to_string())];
    assert_eq!(
        generate_speech_bytes(Ok(items)),
        Err(SpeechError::Stream(StreamReadError { chunks_read: 1, message: "cut".to_string() }))
    );
    assert_eq!(
        generate_speech_bytes(Err(ApiError::Decode("bad".to_string()))),
        Err(SpeechError::Api(ApiError::Decode("bad".to_string())))
    );
}

#[test]
fn speech_request_for_a_voice() {
    let client = ElevenLabs::new_from_key("key".to_string());
    let config = SpeedConfig {
        entries: vec![(
            "VOICE_SPEED_OVERRIDE_FAST_SCOTTY".to_string(),
            Binary32::from_bits(1.0f32.to_bits()),
        )],
    };
    let req = generate_speech_request(
        &client,
        KnownVoice::Scotty,
        "hi".to_string(),
        Some(SpeechSpeed::Fast),
        Some("eleven_v3".to_string()),
        &config,
    );
    assert_eq!(req.method, Method::Post);
    assert_eq!(req.url, "https://api.elevenlabs.io/v1/text-to-speech/OzxGhSRE3FmszopZTbZE");
    assert_eq!(req.headers, vec![("xi-api-key".to_string(), "key".to_string())]);
    assert_eq!(req.query, vec![("output_format".to_string(), "mp3_44100_128000".to_string())]);
    assert_eq!(
        req.body,
        Some(CreateSpeechRequest {
            text: "hi".to_string(),
            model_id: Some("eleven_v3".to_string()),
            voice_settings: Some(VoiceSettings {
                stability: None,
                similarity_boost: None,
                style: Some(Binary32::from_bits(0)),
                use_speaker_boost: None,
                speed: Some(Binary32::from_bits(1.0f32.to_bits())),
            }),
        })
    );
    let req = generate_speech_request(
        &client,
        KnownVoice::UnrealTournament,
        "hi".to_string(),
        None,
        None,
        &config,
    );
    let body = req.body.unwrap();
    assert_eq!(body.model_id, None);
    assert_eq!(body.voice_settings.unwrap().speed, Some(Binary32::from_bits(1.1f32.to_bits())));
}

#[test]
fn usage_report_with_zero_reset() {
    let client = ElevenLabs::new_from_key("key".to_string());
    let info = UserInfo {
        user_id: "u".to_string(),
        subscription: Subscription {
            character_count: 500,
            character_limit: 10000,
            next_character_count_reset_unix: 0,
        },
    };
    let usage = client
        .get_usage(Exchange::Answered { status: 200, body: String::new(), decoded: Ok(info) })
        .unwrap();
    assert_eq!(usage.reset, None);
    assert_eq!(get_reset_instant(&usage), 0);
    assert_eq!(
        show_usage(&usage, "January 01 1970 at 12:00:00 AM (+00:00)"),
        "**Current ElevenLabs API Usage**\nUsed characters: 500 of 10000\nResets on: January 01 1970 at 12:00:00 AM (+00:00)"
    );
}

#[test]
fn usage_report_without_reset_names_the_start_of_1970() {
    let usage = UsageSnapshot { characters_used: -3, character_limit: 0, reset: None };
    assert_eq!(get_reset_instant(&usage), 0);
    assert_eq!(
        show_usage(&usage, ""),
        "**Current ElevenLabs API Usage**\nUsed characters: -3 of 0\nResets on: "
    );
    let usage = UsageSnapshot { characters_used: 1, character_limit: 2, reset: Some(86_400) };
    assert_eq!(get_reset_instant(&usage), 86_400);
}

#[test]
fn tokens_are_both_needed() {
    let d = || Some("discord".to_string());
    let e = || Some("eleven".to_string());
    assert_eq!(parse_env(d(), e()), Ok(("discord".to_string(), "eleven".to_string())));
    assert_eq!(parse_env(None, e()), Err(ConfigurationError::MissingDiscordToken));
    assert_eq!(parse_env(d(), None), Err(ConfigurationError::MissingElevenLabsToken));
    assert_eq!(parse_env(None, None), Err(ConfigurationError::MissingDiscordToken));
}

#[test]
fn configuration_error_messages() {
    assert_eq!(DISCORD_TOKEN_ENV, "DISCORD_TOKEN");
    assert_eq!(ELEVENLABS_TOKEN_ENV, "ELEVENLABS_TOKEN");
    assert_eq!(
        ConfigurationError::MissingDiscordToken.message(),
        "Please set the DISCORD_TOKEN environment variable"
    );
    assert_eq!(
        ConfigurationError::MissingElevenLabsToken.message(),
        "Please set the ELEVENLABS_TOKEN environment variable"
    );
}

#[test]
fn data_holds_the_client() {
    let data = Data { client: ElevenLabs::new_from_key("key".to_string()) };
    assert_eq!(data.client.get_usage_request().headers[0].1, "key");
    assert_eq!(HttpKey, HttpKey);
}

#[test]
fn usage_failure_is_a_reply() {
    assert_eq!(
        show_usage_failure(&ApiError::Transport("connection refused".to_string())),
        "Failed to get usage: connection refused"
    );
    assert_eq!(
        show_usage_failure(&ApiError::Provider { status: 401, body: "bad key".to_string() }),
        "Failed to get usage: Error HTTP 401: bad key"
    );
    assert_eq!(
        show_usage_failure(&ApiError::Decode("missing field".to_string())),
        "Failed to get usage: missing field"
    );
}

#[test]
fn bad_answer_to_a_speech_request_is_reported() {
    let opened =
        ElevenLabs::execute_request_cursor_response(429, "slow down".to_string(), Vec::new());
    assert_eq!(
        speak(generate_speech_bytes(opened)),
        Publication::Failed {
            reply: "Failed to generate voice: Error HTTP 429: slow down".to_string()
        }
    );
    let opened = ElevenLabs::execute_request_cursor_response(
        200,
        String::new(),
        vec![StreamItem::Chunk(vec![5, 6])],
    );
    assert_eq!(generate_speech_bytes(opened), Ok(vec![5, 6]));
}
