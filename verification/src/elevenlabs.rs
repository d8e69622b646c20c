//! The ElevenLabs side: which request each operation sends and what its
//! answer means. Sending a request and decoding JSON are the caller's; what
//! the caller got is handed in as an [`Exchange`].

pub mod media;
pub mod requests;
pub mod responses;
pub mod types;

use crate::elevenlabs::media::OutputFormat;
use crate::elevenlabs::requests::{CreateSpeechRequest, CreateSpeechRequestView};
use crate::elevenlabs::responses::{Subscription, UserInfo, VoiceList};
use crate::elevenlabs::types::VoiceSettings;
use crate::streamutil::StreamItem;
use crate::text::{decimal, push_decimal};
use vstd::prelude::*;
use vstd::string::*;

verus! {

/// Where the service lives. Every request goes to an address below it.
pub const API_BASE: &'static str = "https://api.elevenlabs.io/";

/// The header that carries the key.
pub const API_KEY_HEADER: &'static str = "xi-api-key";

/// How a request asks.
#[derive(Clone, Copy, Debug, PartialEq, Eq, Structural)]
pub enum Method {
    Get,
    Post,
}

/// One request to the service, ready to be sent.
#[derive(Debug, PartialEq, Eq)]
pub struct HttpRequest {
    pub method: Method,
    pub url: String,
    pub headers: Vec<(String, String)>,
    pub query: Vec<(String, String)>,
    pub body: Option<CreateSpeechRequest>,
}

/// A request as plain text.
pub struct HttpRequestView {
    pub method: Method,
    pub url: Seq<char>,
    pub headers: Seq<(Seq<char>, Seq<char>)>,
    pub query: Seq<(Seq<char>, Seq<char>)>,
    pub body: Option<CreateSpeechRequestView>,
}

/// Pairs of strings as pairs of texts.
pub open spec fn pairs_view(pairs: Seq<(String, String)>) -> Seq<(Seq<char>, Seq<char>)> {
    pairs.map_values(|p: (String, String)| (p.0@, p.1@))
}

impl View for HttpRequest {
    type V = HttpRequestView;

    open spec fn view(&self) -> HttpRequestView {
        HttpRequestView {
            method: self.method,
            url: self.url@,
            headers: pairs_view(self.headers@),
            query: pairs_view(self.query@),
            body: match self.body {
                Some(b) => Some(b@),
                None => None,
            },
        }
    }
}

/// Why an operation failed.
#[derive(Debug, PartialEq, Eq)]
pub enum ApiError {
    /// The request got no answer: the connection, the name lookup or the wait
    /// failed.
    Transport(String),
    /// The service answered with a status outside the two hundreds.
    Provider { status: u16, body: String },
    /// The answer was not the JSON that was expected.
    Decode(String),
}

impl ApiError {
    /// The failure in words.
    pub open spec fn message_text(self) -> Seq<char> {
        match self {
            ApiError::Transport(m) => m@,
            ApiError::Provider { status, body } => "Error HTTP "@ + decimal(status as int) + ": "@
                + body@,
            ApiError::Decode(m) => m@,
        }
    }

    pub fn message(&self) -> (text: String)
        ensures
            text@ == self.message_text(),
    {
        match self {
            ApiError::Transport(m) => m.clone(),
            ApiError::Provider { status, body } => {
                let mut text = String::from_str("Error HTTP ");
                push_decimal(&mut text, *status as i64);
                text.append(": ");
                text.append(body.as_str());
                assert(text@ =~= self.message_text());
                text
            },
            ApiError::Decode(m) => m.clone(),
        }
    }
}

/// What one attempt at a request came to.
#[derive(Debug, PartialEq, Eq)]
pub enum Exchange<T> {
    /// No answer came.
    Failed(String),
    /// An answer came, with its status and its body as text. `decoded` is
    /// what the JSON decoder made of the body: the value, or its complaint.
    Answered { status: u16, body: String, decoded: Result<T, String> },
}

/// Whether a status reports success: the two hundreds.
pub open spec fn is_success_status(status: u16) -> bool {
    200 <= status < 300
}

#[verifier::when_used_as_spec(is_success_status)]
pub fn is_success(status: u16) -> (ok: bool)
    ensures
        ok == is_success_status(status),
{
    200 <= status && status < 300
}

/// What an exchange means: the decoded value where an answer came, reported
/// success and could be decoded, else the failure. A status that does not
/// report success decides before the decoder is asked.
pub open spec fn exchange_result<T>(exchange: Exchange<T>) -> Result<T, ApiError> {
    match exchange {
        Exchange::Failed(m) => Err(ApiError::Transport(m)),
        Exchange::Answered { status, body, decoded } => if !is_success_status(status) {
            Err(ApiError::Provider { status, body })
        } else {
            match decoded {
                Ok(value) => Ok(value),
                Err(m) => Err(ApiError::Decode(m)),
            }
        },
    }
}

/// The earliest reset that can be told as a date: the first second of the
/// year -262143.
pub const MIN_INSTANT: i64 = -8_334_601_228_800;

/// The latest reset that can be told as a date: the last second of the year
/// 262142.
pub const MAX_INSTANT: i64 = 8_210_266_876_799;

/// How much of the subscription is used, and when the count starts anew.
#[derive(Clone, Copy, Debug, PartialEq, Eq, Structural)]
pub struct UsageSnapshot {
    pub characters_used: i64,
    pub character_limit: i64,
    /// The reset in seconds since the start of 1970; `None` where no reset
    /// is scheduled.
    pub reset: Option<i64>,
}

/// The reset that a subscription names. The service writes zero where no
/// reset is scheduled; a number that is no date names none either.
pub open spec fn scheduled_reset(reset_unix: i64) -> Option<i64> {
    if reset_unix != 0 && MIN_INSTANT <= reset_unix <= MAX_INSTANT {
        Some(reset_unix)
    } else {
        None
    }
}

/// The usage that a subscription reports.
pub open spec fn usage_of(subscription: Subscription) -> UsageSnapshot {
    UsageSnapshot {
        characters_used: subscription.character_count,
        character_limit: subscription.character_limit,
        reset: scheduled_reset(subscription.next_character_count_reset_unix),
    }
}

/// Asks `chrono::DateTime::from_timestamp`, with no nanoseconds, whether
/// `secs` seconds since the start of 1970 is a date that chrono can hold.
///
/// Not proved: that chrono says yes exactly from `MIN_INSTANT` to
/// `MAX_INSTANT`. Its source turns the seconds into a day number and accepts
/// the days of the years -262143 to 262142; the two constants are the first
/// and the last second of that span.
#[verifier::external_body]
fn is_instant(secs: i64) -> (ok: bool)
    ensures
        ok == (MIN_INSTANT <= secs <= MAX_INSTANT),
{
    chrono::DateTime::from_timestamp(secs, 0).is_some()
}

/// The client: it holds the key and knows the service's addresses.
pub struct ElevenLabs {
    api_key: String,
}

impl ElevenLabs {
    /// The key that every request carries.
    pub closed spec fn key(&self) -> Seq<char> {
        self.api_key@
    }

    /// The request that every operation starts from: `method` on the address
    /// of `endpoint`, with the key in its header and `query` as given.
    pub open spec fn base_request(
        &self,
        method: Method,
        endpoint: Seq<char>,
        query: Seq<(Seq<char>, Seq<char>)>,
    ) -> HttpRequestView {
        HttpRequestView {
            method,
            url: API_BASE@ + endpoint,
            headers: seq![(API_KEY_HEADER@, self.key())],
            query,
            body: None,
        }
    }

    pub fn new_from_key(api_key: String) -> (client: ElevenLabs)
        ensures
            client.key() == api_key@,
    {
        ElevenLabs { api_key }
    }

    fn build_request(&self, method: Method, endpoint: &str, query: Vec<(String, String)>) -> (req:
        HttpRequest)
        ensures
            req@ == self.base_request(method, endpoint@, pairs_view(query@)),
    {
        let mut url = String::from_str(API_BASE);
        url.append(endpoint);
        let mut headers: Vec<(String, String)> = Vec::new();
        headers.push((String::from_str(API_KEY_HEADER), self.api_key.clone()));
        let req = HttpRequest { method, url, headers, query, body: None };
        assert(req@.headers =~= seq![(API_KEY_HEADER@, self.key())]);
        req
    }

    pub fn get_base_request(&self, endpoint: &str, query: Vec<(String, String)>) -> (req:
        HttpRequest)
        ensures
            req@ == self.base_request(Method::Get, endpoint@, pairs_view(query@)),
    {
        self.build_request(Method::Get, endpoint, query)
    }

    pub fn post_base_request(&self, endpoint: &str, query: Vec<(String, String)>) -> (req:
        HttpRequest)
        ensures
            req@ == self.base_request(Method::Post, endpoint@, pairs_view(query@)),
    {
        self.build_request(Method::Post, endpoint, query)
    }

    /// The outcome of an exchange, the same for every operation that answers
    /// in JSON.
    pub fn execute_request_json_response<T>(exchange: Exchange<T>) -> (result: Result<T, ApiError>)
        ensures
            result == exchange_result(exchange),
    {
        match exchange {
            Exchange::Failed(m) => Err(ApiError::Transport(m)),
            Exchange::Answered { status, body, decoded } => {
                if !is_success(status) {
                    Err(ApiError::Provider { status, body })
                } else {
                    match decoded {
                        Ok(value) => Ok(value),
                        Err(m) => Err(ApiError::Decode(m)),
                    }
                }
            },
        }
    }

    /// The outcome of an answer whose body is a stream. `items` is what the
    /// stream of a good answer yielded, and `body` is the text of a bad one:
    /// a status that does not report success gives the error with status and
    /// body, and nothing of the answer is taken for audio.
    pub fn execute_request_cursor_response(status: u16, body: String, items: Vec<StreamItem>) -> (opened:
        Result<Vec<StreamItem>, ApiError>)
        ensures
            opened == (if is_success_status(status) {
                Ok(items)
            } else {
                Err(ApiError::Provider { status, body })
            }),
    {
        if is_success(status) {
            Ok(items)
        } else {
            Err(ApiError::Provider { status, body })
        }
    }

    /// The request that asks for the account's usage.
    pub fn get_usage_request(&self) -> (req: HttpRequest)
        ensures
            req@ == self.base_request(Method::Get, "v1/user"@, Seq::empty()),
    {
        let req = self.get_base_request("v1/user", Vec::new());
        assert(pairs_view(Seq::<(String, String)>::empty()) =~= Seq::empty());
        req
    }

    /// The usage that the answer to [`Self::get_usage_request`] reports, or
    /// why there is none.
    pub fn get_usage(&self, exchange: Exchange<UserInfo>) -> (result: Result<UsageSnapshot, ApiError>)
        ensures
            result == (match exchange_result(exchange) {
                Ok(info) => Ok(usage_of(info.subscription)),
                Err(e) => Err(e),
            }),
    {
        match Self::execute_request_json_response(exchange) {
            Ok(info) => {
                let subscription = info.subscription;
                let reset_unix = subscription.next_character_count_reset_unix;
                let reset = if reset_unix != 0 && is_instant(reset_unix) {
                    Some(reset_unix)
                } else {
                    None
                };
                Ok(
                    UsageSnapshot {
                        characters_used: subscription.character_count,
                        character_limit: subscription.character_limit,
                        reset,
                    },
                )
            },
            Err(e) => Err(e),
        }
    }

    /// The request that asks for the voices on offer.
    pub fn get_voice_list_request(&self) -> (req: HttpRequest)
        ensures
            req@ == self.base_request(Method::Get, "v2/voices"@, Seq::empty()),
    {
        let req = self.get_base_request("v2/voices", Vec::new());
        assert(pairs_view(Seq::<(String, String)>::empty()) =~= Seq::empty());
        req
    }

    /// The voices that the answer to [`Self::get_voice_list_request`] lists,
    /// or why there are none.
    pub fn get_voice_list(&self, exchange: Exchange<VoiceList>) -> (result: Result<VoiceList, ApiError>)
        ensures
            result == exchange_result(exchange),
    {
        Self::execute_request_json_response(exchange)
    }

    /// The request for `text` spoken by the voice `voice_id`: a POST to the
    /// voice's address, the encoding as the query parameter `output_format`,
    /// and text, model and settings as the body. Where no encoding is named,
    /// the default one is asked for.
    pub open spec fn speech_request(
        &self,
        voice_id: Seq<char>,
        text: Seq<char>,
        voice_settings: Option<VoiceSettings>,
        model: Option<Seq<char>>,
        media_format: Option<OutputFormat>,
    ) -> HttpRequestView {
        let format = match media_format {
            Some(f) => f,
            None => OutputFormat::spec_default(),
        };
        HttpRequestView {
            method: Method::Post,
            url: API_BASE@ + ("v1/text-to-speech/"@ + voice_id),
            headers: seq![(API_KEY_HEADER@, self.key())],
            query: seq![("output_format"@, format.text())],
            body: Some(CreateSpeechRequestView { text, model_id: model, voice_settings }),
        }
    }

    pub fn generate_voice(
        &self,
        voice_id: String,
        text: String,
        voice_settings: Option<VoiceSettings>,
        model: Option<String>,
        media_format: Option<&OutputFormat>,
    ) -> (req: HttpRequest)
        ensures
            req@ == self.speech_request(
                voice_id@,
                text@,
                voice_settings,
                match model {
                    Some(m) => Some(m@),
                    None => None,
                },
                match media_format {
                    Some(f) => Some(*f),
                    None => None,
                },
            ),
    {
        let final_format = match media_format {
            Some(format) => *format,
            None => OutputFormat::default_output_format(),
        };
        let mut query: Vec<(String, String)> = Vec::new();
        query.push((String::from_str("output_format"), final_format.to_string()));
        let mut endpoint = String::from_str("v1/text-to-speech/");
        endpoint.append(voice_id.as_str());
        let mut req = self.post_base_request(endpoint.as_str(), query);
        req.body = Some(CreateSpeechRequest { text, model_id: model, voice_settings });
        assert(req@.query =~= seq![("output_format"@, final_format.text())]);
        req
    }
}

/// A request for speech that names no encoding asks for the default one,
/// written `mp3_44100_128000`.
pub proof fn lemma_default_format_requested(
    client: ElevenLabs,
    voice_id: Seq<char>,
    text: Seq<char>,
    voice_settings: Option<VoiceSettings>,
    model: Option<Seq<char>>,
)
    ensures
        client.speech_request(voice_id, text, voice_settings, model, None).query == seq![
            ("output_format"@, "mp3_44100_128000"@),
        ],
{
    crate::elevenlabs::media::lemma_default_format_text();
}

} // verus!
