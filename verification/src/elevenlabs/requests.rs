//! What is sent to the service.

use crate::elevenlabs::types::VoiceSettings;
use vstd::prelude::*;

verus! {

/// The body of a request for speech.
#[derive(Debug, PartialEq, Eq)]
pub struct CreateSpeechRequest {
    pub text: String,
    pub model_id: Option<String>,
    pub voice_settings: Option<VoiceSettings>,
}

/// A request for speech as plain text and numbers.
pub struct CreateSpeechRequestView {
    pub text: Seq<char>,
    pub model_id: Option<Seq<char>>,
    pub voice_settings: Option<VoiceSettings>,
}

impl View for CreateSpeechRequest {
    type V = CreateSpeechRequestView;

    open spec fn view(&self) -> CreateSpeechRequestView {
        CreateSpeechRequestView {
            text: self.text@,
            model_id: match self.model_id {
                Some(m) => Some(m@),
                None => None,
            },
            voice_settings: self.voice_settings,
        }
    }
}

} // verus!
