use finals_tts::elevenlabs::media::{MediaFormat, OutputFormat};
use finals_tts::elevenlabs::requests::CreateSpeechRequest;
use finals_tts::elevenlabs::responses::{Subscription, UserInfo, VoiceList};
use finals_tts::elevenlabs::types::{Binary32, Voice, VoiceSettings};
use finals_tts::elevenlabs::{
    is_success, ApiError, ElevenLabs, Exchange, HttpRequest, Method, UsageSnapshot, API_BASE,
    API_KEY_HEADER, MAX_INSTANT, MIN_INSTANT,
};
use finals_tts::streamutil::StreamItem;

fn pair(a: &str, b: &str) -> (String, String) {
    (a.to_string(), b.to_string())
}

fn client() -> ElevenLabs {
    ElevenLabs::new_from_key("k-123".to_string())
}

fn info(reset: i64) -> UserInfo {
    UserInfo {
        user_id: "u".to_string(),
        subscription: Subscription {
            character_count: 500,
            character_limit: 10000,
            next_character_count_reset_unix: reset,
        },
    }
}

fn answered<T>(status: u16, body: &str, decoded: Result<T, String>) -> Exchange<T> {
    Exchange::Answered { status, body: body.to_string(), decoded }
}

#[test]
fn service_address() {
    assert_eq!(API_BASE, "https://api.elevenlabs.io/");
    assert_eq!(API_KEY_HEADER, "xi-api-key");
}

#[test]
fn get_base_request_carries_key_and_query() {
    let req = client().get_base_request("v1/x", vec![pair("a", "b")]);
    assert_eq!(
        req,
        HttpRequest {
            method: Method::Get,
            url: "https://api.elevenlabs.io/v1/x".to_string(),
            headers: vec![pair("xi-api-key", "k-123")],
            query: vec![pair("a", "b")],
            body: None,
        }
    );
}

#[test]
fn post_base_request_posts() {
    let req = client().post_base_request("", Vec::new());
    assert_eq!(req.method, Method::Post);
    assert_eq!(req.url, "https://api.elevenlabs.io/");
    assert_eq!(req.headers, vec![pair("xi-api-key", "k-123")]);
    assert!(req.query.is_empty());
    assert_eq!(req.body, None);
}

#[test]
fn usage_and_voice_list_requests() {
    let u = client().get_usage_request();
    assert_eq!(u.method, Method::Get);
    assert_eq!(u.url, "https://api.elevenlabs.io/v1/user");
    assert_eq!(u.headers, vec![pair("xi-api-key", "k-123")]);
    assert!(u.query.is_empty() && u.body.is_none());
    let v = client().get_voice_list_request();
    assert_eq!(v.method, Method::Get);
    assert_eq!(v.url, "https://api.elevenlabs.io/v2/voices");
    assert_eq!(v.headers, vec![pair("xi-api-key", "k-123")]);
    assert!(v.query.is_empty() && v.body.is_none());
}

#[test]
fn generate_voice_without_format_asks_for_the_default() {
    let req = client().generate_voice("vid".to_string(), "hello".to_string(), None, None, None);
    assert_eq!(
        req,
        HttpRequest {
            method: Method::Post,
            url: "https://api.elevenlabs.io/v1/text-to-speech/vid".to_string(),
            headers: vec![pair("xi-api-key", "k-123")],
            query: vec![pair("output_format", "mp3_44100_128000")],
            body: Some(CreateSpeechRequest {
                text: "hello".to_string(),
                model_id: None,
                voice_settings: None,
            }),
        }
    );
}

#[test]
fn generate_voice_with_everything_named() {
    let settings = VoiceSettings {
        stability: Some(Binary32::from_bits(0.5f32.to_bits())),
        similarity_boost: None,
        style: Some(Binary32::from_bits(0)),
        use_speaker_boost: Some(true),
        speed: Some(Binary32::from_bits(1.1f32.to_bits())),
    };
    let format = OutputFormat(MediaFormat::MP3, 22050, 32000);
    let req = client().generate_voice(
        "abc".to_string(),
        "some text".to_string(),
        Some(settings),
        Some("model-1".to_string()),
        Some(&format),
    );
    assert_eq!(req.url, "https://api.elevenlabs.io/v1/text-to-speech/abc");
    assert_eq!(req.query, vec![pair("output_format", "mp3_22050_32000")]);
    assert_eq!(
        req.body,
        Some(CreateSpeechRequest {
            text: "some text".to_string(),
            model_id: Some("model-1".to_string()),
            voice_settings: Some(settings),
        })
    );
}

#[test]
fn success_is_the_two_hundreds() {
    for (status, want) in [(0u16, false), (199, false), (200, true), (204, true), (299, true), (300, false), (404, false), (500, false), (u16::MAX, false)] {
        assert_eq!(is_success(status), want);
    }
}

#[test]
fn exchange_without_answer_is_a_transport_error() {
    let r = ElevenLabs::execute_request_json_response(Exchange::<u8>::Failed("dns".to_string()));
    assert_eq!(r, Err(ApiError::Transport("dns".to_string())));
}

#[test]
fn status_outside_the_two_hundreds_is_a_provider_error() {
    let r = ElevenLabs::execute_request_json_response(answered(401, "denied", Ok(3u8)));
    assert_eq!(r, Err(ApiError::Provider { status: 401, body: "denied".to_string() }));
    let r = ElevenLabs::execute_request_json_response(answered::<u8>(500, "", Err("eof".to_string())));
    assert_eq!(r, Err(ApiError::Provider { status: 500, body: String::new() }));
}

#[test]
fn undecodable_answer_is_a_decode_error() {
    let r = ElevenLabs::execute_request_json_response(answered::<u8>(200, "{", Err("eof".to_string())));
    assert_eq!(r, Err(ApiError::Decode("eof".to_string())));
}

#[test]
fn decoded_answer_is_handed_on() {
    let r = ElevenLabs::execute_request_json_response(answered(200, "7", Ok(7u8)));
    assert_eq!(r, Ok(7));
}

#[test]
fn error_messages() {
    assert_eq!(ApiError::Transport("timed out".to_string()).message(), "timed out");
    assert_eq!(ApiError::Decode("expected value".to_string()).message(), "expected value");
    assert_eq!(
        ApiError::Provider { status: 404, body: "{\"detail\":\"no\"}".to_string() }.message(),
        "Error HTTP 404: {\"detail\":\"no\"}"
    );
}

#[test]
fn usage_with_zero_reset_has_no_scheduled_reset() {
    let r = client().get_usage(answered(200, "{}", Ok(info(0))));
    assert_eq!(
        r,
        Ok(UsageSnapshot { characters_used: 500, character_limit: 10000, reset: None })
    );
}

#[test]
fn usage_next_to_zero_has_a_reset() {
    assert_eq!(client().get_usage(answered(200, "{}", Ok(info(1)))).unwrap().reset, Some(1));
    assert_eq!(client().get_usage(answered(200, "{}", Ok(info(-1)))).unwrap().reset, Some(-1));
}

#[test]
fn usage_with_a_reset() {
    let r = client().get_usage(answered(200, "{}", Ok(info(1_431_648_000))));
    assert_eq!(r.unwrap().reset, Some(1_431_648_000));
}

#[test]
fn usage_reset_outside_the_calendar_is_none() {
    for (secs, want) in [
        (MIN_INSTANT, Some(MIN_INSTANT)),
        (MIN_INSTANT - 1, None),
        (MAX_INSTANT, Some(MAX_INSTANT)),
        (MAX_INSTANT + 1, None),
        (i64::MIN, None),
        (i64::MAX, None),
        (-1, Some(-1)),
    ] {
        let r = client().get_usage(answered(200, "{}", Ok(info(secs))));
        assert_eq!(r.unwrap().reset, want);
        assert_eq!(chrono::DateTime::from_timestamp(secs, 0).map(|t| t.timestamp()), want);
    }
}

#[test]
fn usage_failures() {
    assert_eq!(
        client().get_usage(Exchange::Failed("refused".to_string())),
        Err(ApiError::Transport("refused".to_string()))
    );
    assert_eq!(
        client().get_usage(answered(429, "slow down", Ok(info(0)))),
        Err(ApiError::Provider { status: 429, body: "slow down".to_string() })
    );
    assert_eq!(
        client().get_usage(answered(200, "[]", Err("invalid type".to_string()))),
        Err(ApiError::Decode("invalid type".to_string()))
    );
}

#[test]
fn voice_list_is_handed_on() {
    let list = || VoiceList {
        voices: vec![Voice {
            voice_id: "v1".to_string(),
            name: "One".to_string(),
            description: None,
        }],
    };
    assert_eq!(client().get_voice_list(answered(200, "{}", Ok(list()))), Ok(list()));
    assert_eq!(
        client().get_voice_list(answered(503, "down", Ok(list()))),
        Err(ApiError::Provider { status: 503, body: "down".to_string() })
    );
}

#[test]
fn stream_of_a_good_answer_is_handed_on() {
    let items = || vec![StreamItem::Chunk(vec![1, 2]), StreamItem::Failure("cut".to_string())];
    for status in [200u16, 206, 299] {
        assert_eq!(
            ElevenLabs::execute_request_cursor_response(status, String::new(), items()),
            Ok(items())
        );
    }
    assert_eq!(
        ElevenLabs::execute_request_cursor_response(200, "ignored".to_string(), Vec::new()),
        Ok(Vec::new())
    );
}

#[test]
fn stream_of_a_bad_answer_is_a_provider_error() {
    for status in [199u16, 300, 401, 404, 500] {
        assert_eq!(
            ElevenLabs::execute_request_cursor_response(
                status,
                "{\"detail\":\"quota\"}".to_string(),
                vec![StreamItem::Chunk(vec![1, 2])],
            ),
            Err(ApiError::Provider { status, body: "{\"detail\":\"quota\"}".to_string() })
        );
    }
    let e = ElevenLabs::execute_request_cursor_response(422, "bad voice".to_string(), Vec::new())
        .unwrap_err();
    assert_eq!(e.message(), "Error HTTP 422: bad voice");
}
