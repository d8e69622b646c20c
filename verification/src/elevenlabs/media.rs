//! Audio encodings that the service can be asked for.

use crate::text::{decimal, push_decimal};
use vstd::prelude::*;
use vstd::string::*;

verus! {

/// A codec of the audio that the service returns.
#[derive(Clone, Copy, Debug, PartialEq, Eq, Structural)]
pub enum MediaFormat {
    MP3,
}

impl MediaFormat {
    /// The codec's name as the service spells it.
    pub open spec fn name(self) -> Seq<char> {
        match self {
            MediaFormat::MP3 => "mp3"@,
        }
    }

    pub fn to_str(&self) -> (s: &'static str)
        ensures
            s@ == self.name(),
    {
        match self {
            MediaFormat::MP3 => "mp3",
        }
    }
}

/// An encoding: a codec, a sample rate in hertz and a bit rate in bits per
/// second.
#[derive(Clone, Copy, Debug, PartialEq, Eq, Structural)]
pub struct OutputFormat(pub MediaFormat, pub i32, pub i32);

/// The text of an encoding as the service's `output_format` parameter takes
/// it: codec, sample rate and bit rate, joined by underscores.
pub open spec fn format_text(codec: MediaFormat, sample_rate: int, bitrate: int) -> Seq<char> {
    codec.name() + seq!['_'] + decimal(sample_rate) + seq!['_'] + decimal(bitrate)
}

impl OutputFormat {
    /// MP3 at 44100 Hz and 128 kbit/s.
    pub open spec fn spec_mp3_44100hz_128kbps() -> OutputFormat {
        OutputFormat(MediaFormat::MP3, 44100, 128000)
    }

    /// The encoding that is asked for when the caller names none.
    pub open spec fn spec_default() -> OutputFormat {
        Self::spec_mp3_44100hz_128kbps()
    }

    pub open spec fn text(self) -> Seq<char> {
        format_text(self.0, self.1 as int, self.2 as int)
    }

    #[verifier::when_used_as_spec(spec_mp3_44100hz_128kbps)]
    pub fn mp3_44100hz_128kbps() -> (f: OutputFormat)
        ensures
            f == Self::spec_mp3_44100hz_128kbps(),
    {
        OutputFormat(MediaFormat::MP3, 44100, 128000)
    }

    #[verifier::when_used_as_spec(spec_default)]
    pub fn default_output_format() -> (f: OutputFormat)
        ensures
            f == Self::spec_default(),
    {
        Self::mp3_44100hz_128kbps()
    }

    pub fn get_format(&self) -> (codec: &MediaFormat)
        ensures
            *codec == self.0,
    {
        &self.0
    }

    pub fn get_sample_rate(&self) -> (rate: i32)
        ensures
            rate == self.1,
    {
        self.1
    }

    pub fn get_bitrate(&self) -> (rate: i32)
        ensures
            rate == self.2,
    {
        self.2
    }

    pub fn to_string(&self) -> (s: String)
        ensures
            s@ == self.text(),
    {
        let mut s = String::from_str(self.0.to_str());
        s.append("_");
        push_decimal(&mut s, self.1 as i64);
        s.append("_");
        push_decimal(&mut s, self.2 as i64);
        proof {
            reveal_strlit("_");
            assert(s@ =~= self.text());
        }
        s
    }
}

/// The default encoding is written `mp3_44100_128000`.
pub proof fn lemma_default_format_text()
    ensures
        OutputFormat::spec_default().text() == "mp3_44100_128000"@,
{
    reveal_strlit("mp3");
    reveal_strlit("mp3_44100_128000");
    reveal_with_fuel(crate::text::decimal_digits, 7);
    assert(OutputFormat::spec_default().text() =~= "mp3_44100_128000"@);
}

} // verus!
