//! Voices, speeds and the settings that shape one request.

use vstd::arithmetic::power2::{
    lemma_pow2_pos, lemma_pow2_strictly_increases, lemma_pow2_unfold, pow2,
};
use vstd::prelude::*;
use vstd::string::*;

verus! {

/// A single-precision number, held by its IEEE 754 bit pattern: one bit of
/// sign, eight of exponent, twenty-three of fraction.
///
/// The service takes speeds and styles as such numbers. Only their order
/// matters here, and for numbers that are not negative the order of the values
/// is the order of their bit patterns ([`lemma_valid_speed_by_value`]).
#[derive(Clone, Copy, Debug, PartialEq, Eq, Structural)]
pub struct Binary32 {
    pub bits: u32,
}

/// The bit pattern of the slowest speed that the service accepts, seven tenths.
pub const MIN_SPEED_BITS: u32 = 0x3F33_3333;

/// The bit pattern of the fastest speed that the service accepts, twelve tenths.
pub const MAX_SPEED_BITS: u32 = 0x3F99_999A;

impl Binary32 {
    pub fn from_bits(bits: u32) -> (v: Binary32)
        ensures
            v.bits == bits,
    {
        Binary32 { bits }
    }

    pub fn to_bits(&self) -> (bits: u32)
        ensures
            bits == self.bits,
    {
        self.bits
    }

    /// The sign bit: 1 for a negative number.
    pub open spec fn sign(&self) -> int {
        self.bits as int / 0x8000_0000
    }

    /// The exponent field.
    pub open spec fn exponent(&self) -> int {
        (self.bits as int / 0x80_0000) % 256
    }

    /// The fraction field.
    pub open spec fn fraction(&self) -> int {
        self.bits as int % 0x80_0000
    }

    /// Whether the pattern stands for a number, and not for an infinity or for
    /// what is not a number.
    pub open spec fn is_finite(&self) -> bool {
        self.exponent() != 255
    }

    /// The number that the pattern stands for, times two to the 149th: an
    /// integer, as every such number is a multiple of the smallest one. Only
    /// for a finite pattern.
    pub open spec fn scaled(&self) -> int {
        let magnitude = if self.exponent() == 0 {
            self.fraction()
        } else {
            (0x80_0000 + self.fraction()) * pow2((self.exponent() - 1) as nat)
        };
        if self.sign() == 1 {
            -magnitude
        } else {
            magnitude
        }
    }

    /// Whether the number is a speed that the service accepts: neither below
    /// the slowest nor above the fastest. A negative number and one that is not
    /// a number are outside.
    pub open spec fn is_valid_speed(&self) -> bool {
        MIN_SPEED_BITS <= self.bits <= MAX_SPEED_BITS
    }

    #[verifier::when_used_as_spec(is_valid_speed)]
    pub fn valid_speed(&self) -> (ok: bool)
        ensures
            ok == self.is_valid_speed(),
    {
        MIN_SPEED_BITS <= self.bits && self.bits <= MAX_SPEED_BITS
    }
}

/// The slowest accepted speed times two to the 149th. The speed itself is
/// 11744051 / 2^24, the single-precision number next to seven tenths.
pub open spec fn min_speed_scaled() -> int {
    11744051 * (pow2(125) as int)
}

/// The fastest accepted speed times two to the 149th. The speed itself is
/// 20132660 / 2^24, the single-precision number next to twelve tenths.
pub open spec fn max_speed_scaled() -> int {
    20132660 * (pow2(125) as int)
}

proof fn lemma_scale(a: int, b: int, p: int)
    requires
        p > 0,
    ensures
        a <= b <==> a * p <= b * p,
        a < b <==> a * p < b * p,
{
    assert(a <= b <==> a * p <= b * p) by (nonlinear_arith)
        requires
            p > 0,
    ;
    assert(a < b <==> a * p < b * p) by (nonlinear_arith)
        requires
            p > 0,
    ;
}

/// The two bounds are the numbers that the bit patterns of the slowest and the
/// fastest speed stand for.
pub proof fn lemma_speed_bounds_scaled()
    ensures
        (Binary32 { bits: MIN_SPEED_BITS }).scaled() == min_speed_scaled(),
        (Binary32 { bits: MAX_SPEED_BITS }).scaled() == max_speed_scaled(),
        (Binary32 { bits: MIN_SPEED_BITS }).is_finite(),
        (Binary32 { bits: MAX_SPEED_BITS }).is_finite(),
{
    let p = pow2(125) as int;
    lemma_pow2_unfold(126);
    assert(10066330 * (2 * p) == 20132660 * p) by (nonlinear_arith);
}

/// A pattern is an accepted speed exactly if it stands for a number, and that
/// number is neither below the slowest accepted speed nor above the fastest.
pub proof fn lemma_valid_speed_by_value(v: Binary32)
    ensures
        v.is_valid_speed() <==> (v.is_finite() && min_speed_scaled() <= v.scaled()
            <= max_speed_scaled()),
{
    let p = pow2(125) as int;
    let e = v.exponent();
    let m = v.fraction();
    lemma_pow2_pos(125);
    lemma_pow2_unfold(125);
    lemma_pow2_unfold(126);
    lemma_pow2_unfold(127);
    assert(v.bits as int == v.sign() * 0x8000_0000 + e * 0x80_0000 + m);
    assert(0 <= m < 0x80_0000 && 0 <= e < 256 && 0 <= v.sign() <= 1);
    lemma_scale(0, 11744051, p);
    if v.sign() == 1 {
        if e != 0 {
            lemma_pow2_pos((e - 1) as nat);
            lemma_scale(0, 0x80_0000 + m, pow2((e - 1) as nat) as int);
        }
        assert(v.scaled() <= 0);
    } else if e == 0 {
        lemma_scale(1, 11744051, p);
        assert(v.scaled() < min_speed_scaled());
    } else if e <= 125 {
        let q = pow2((e - 1) as nat) as int;
        lemma_pow2_pos((e - 1) as nat);
        if e - 1 < 124 {
            lemma_pow2_strictly_increases((e - 1) as nat, 124);
        }
        assert(q <= pow2(124));
        lemma_scale(0x80_0000 + m, 0x100_0000, q);
        lemma_scale(q, pow2(124) as int, 0x100_0000);
        assert(q * 0x100_0000 == 0x100_0000 * q) by (nonlinear_arith);
        assert(pow2(124) * 0x100_0000 == 0x80_0000 * p) by (nonlinear_arith)
            requires
                p == 2 * pow2(124),
        ;
        lemma_scale(0x80_0000, 11744051, p);
        assert(v.scaled() < min_speed_scaled());
    } else if e == 126 {
        lemma_scale(11744051, 0x80_0000 + m, p);
        lemma_scale(0x80_0000 + m, 20132660, p);
    } else if e == 127 {
        assert((0x80_0000 + m) * (2 * p) == (0x100_0000 + 2 * m) * p) by (nonlinear_arith);
        lemma_scale(11744051, 0x100_0000 + 2 * m, p);
        lemma_scale(0x100_0000 + 2 * m, 20132660, p);
    } else if e <= 254 {
        let q = pow2((e - 1) as nat) as int;
        if 127 < e - 1 {
            lemma_pow2_strictly_increases(127, (e - 1) as nat);
        }
        assert(q >= pow2(127));
        lemma_scale(0x80_0000, 0x80_0000 + m, q);
        lemma_scale(pow2(127) as int, q, 0x80_0000);
        assert(0x80_0000 * q == q * 0x80_0000) by (nonlinear_arith);
        assert(pow2(127) * 0x80_0000 == 33554432 * p) by (nonlinear_arith)
            requires
                pow2(127) == 2 * pow2(126),
                pow2(126) == 2 * p,
        ;
        lemma_scale(20132660, 33554432, p);
        assert(v.scaled() > max_speed_scaled());
    }
}

/// Every single-precision number from seven tenths to twelve tenths is an
/// accepted speed.
pub proof fn lemma_tenths_are_valid_speeds(v: Binary32)
    requires
        v.is_finite(),
        7 * pow2(149) <= 10 * v.scaled() <= 12 * pow2(149),
    ensures
        v.is_valid_speed(),
{
    let p = pow2(125) as int;
    lemma_pow2_pos(125);
    vstd::arithmetic::power2::lemma_pow2_adds(125, 24);
    vstd::arithmetic::power2::lemma2_to64();
    assert(pow2(149) == p * 0x100_0000);
    assert(10 * min_speed_scaled() <= 7 * (p * 0x100_0000)) by (nonlinear_arith)
        requires
            p > 0,
            min_speed_scaled() == 11744051 * p,
    ;
    assert(12 * (p * 0x100_0000) <= 10 * max_speed_scaled()) by (nonlinear_arith)
        requires
            p > 0,
            max_speed_scaled() == 20132660 * p,
    ;
    lemma_valid_speed_by_value(v);
}

/// A voice as the service lists it.
#[derive(Debug, PartialEq, Eq)]
pub struct Voice {
    pub voice_id: String,
    pub name: String,
    pub description: Option<String>,
}

/// What shapes the speech of one request. A field left out is left to the
/// service.
#[derive(Clone, Copy, Debug, PartialEq, Eq, Structural)]
pub struct VoiceSettings {
    pub stability: Option<Binary32>,
    pub similarity_boost: Option<Binary32>,
    pub style: Option<Binary32>,
    pub use_speaker_boost: Option<bool>,
    pub speed: Option<Binary32>,
}

/// How fast a voice is asked to speak.
#[derive(Clone, Copy, Debug, PartialEq, Eq, Structural)]
pub enum SpeechSpeed {
    Slow,
    Normal,
    Fast,
}

impl SpeechSpeed {
    /// The speed's part of a configuration name.
    pub open spec fn env_name(self) -> Seq<char> {
        match self {
            SpeechSpeed::Slow => "SLOW"@,
            SpeechSpeed::Normal => "NORMAL"@,
            SpeechSpeed::Fast => "FAST"@,
        }
    }

    pub fn get_env_name(&self) -> (name: String)
        ensures
            name@ == self.env_name(),
    {
        match self {
            SpeechSpeed::Slow => String::from_str("SLOW"),
            SpeechSpeed::Normal => String::from_str("NORMAL"),
            SpeechSpeed::Fast => String::from_str("FAST"),
        }
    }
}

/// The voices that the bot offers.
#[derive(Clone, Copy, Debug, PartialEq, Eq, Structural)]
pub enum KnownVoice {
    Scotty,
    June,
    UnrealTournament,
}

/// Numbers that a deployment has set by name, to be looked up when a request
/// is made. Of two entries with one name the first counts.
#[derive(Debug, PartialEq, Eq)]
pub struct SpeedConfig {
    pub entries: Vec<(String, Binary32)>,
}

/// The number that the first entry named `key` holds, if there is such an
/// entry.
pub open spec fn lookup(entries: Seq<(String, Binary32)>, key: Seq<char>) -> Option<Binary32>
    decreases entries.len(),
{
    if entries.len() == 0 {
        None
    } else if entries[0].0@ == key {
        Some(entries[0].1)
    } else {
        lookup(entries.drop_first(), key)
    }
}

/// An override counts only if it is a speed that the service accepts.
pub open spec fn accepted(candidate: Option<Binary32>) -> Option<Binary32> {
    match candidate {
        Some(v) => if v.is_valid_speed() {
            Some(v)
        } else {
            None
        },
        None => None,
    }
}

impl SpeedConfig {
    /// A configuration that sets nothing.
    pub fn new() -> (config: SpeedConfig)
        ensures
            config.entries@ == Seq::<(String, Binary32)>::empty(),
    {
        SpeedConfig { entries: Vec::new() }
    }

    pub fn get_float(&self, key: &String) -> (found: Option<Binary32>)
        ensures
            found == lookup(self.entries@, key@),
    {
        let mut i: usize = 0;
        assert(self.entries@.skip(0) =~= self.entries@);
        while i < self.entries.len()
            invariant
                i <= self.entries.len(),
                lookup(self.entries@, key@) == lookup(self.entries@.skip(i as int), key@),
            decreases self.entries.len() - i,
        {
            let entry = &self.entries[i];
            proof {
                let rest = self.entries@.skip(i as int);
                assert(rest[0] == self.entries@[i as int]);
                assert(rest.drop_first() =~= self.entries@.skip(i as int + 1));
            }
            if entry.0 == *key {
                return Some(entry.1);
            }
            i += 1;
        }
        None
    }
}

impl KnownVoice {
    /// The voice's part of a configuration name.
    pub open spec fn env_name(self) -> Seq<char> {
        match self {
            KnownVoice::Scotty => "SCOTTY"@,
            KnownVoice::June => "JUNE"@,
            KnownVoice::UnrealTournament => "UNREAL_TOURNAMENT"@,
        }
    }

    /// The identifier under which the service knows the voice.
    pub open spec fn id(self) -> Seq<char> {
        match self {
            KnownVoice::Scotty => "OzxGhSRE3FmszopZTbZE"@,
            KnownVoice::June => "79931Esd1pNmtJORtUBI"@,
            KnownVoice::UnrealTournament => "YOq2y2Up4RgXP2HyXjE5"@,
        }
    }

    /// The speed at which the voice speaks when none is asked for.
    pub open spec fn spec_default_speed(&self) -> SpeechSpeed {
        SpeechSpeed::Normal
    }

    /// The voice's own number for each speed.
    pub open spec fn table_speed(self, speed: SpeechSpeed) -> Binary32 {
        match self {
            KnownVoice::Scotty | KnownVoice::June => match speed {
                SpeechSpeed::Slow => Binary32 { bits: 0x3F33_3333 },
                SpeechSpeed::Normal => Binary32 { bits: 0x3F59_999A },
                SpeechSpeed::Fast => Binary32 { bits: 0x3F99_999A },
            },
            KnownVoice::UnrealTournament => match speed {
                SpeechSpeed::Slow => Binary32 { bits: 0x3F66_6666 },
                SpeechSpeed::Normal => Binary32 { bits: 0x3F8C_CCCD },
                SpeechSpeed::Fast => Binary32 { bits: 0x3F99_999A },
            },
        }
    }

    /// The name of the override for this voice at one speed.
    pub open spec fn speed_key(self, speed: SpeechSpeed) -> Seq<char> {
        "VOICE_SPEED_OVERRIDE_"@ + speed.env_name() + "_"@ + self.env_name()
    }

    /// The name of the override for this voice at every speed.
    pub open spec fn all_speeds_key(self) -> Seq<char> {
        "VOICE_SPEED_OVERRIDE_"@ + self.env_name() + "_ALL"@
    }

    /// The override in force for this voice at `speed`: the one set for that
    /// speed if the service accepts it, else the one set for every speed if the
    /// service accepts it, else none.
    pub open spec fn speed_override(
        self,
        speed: SpeechSpeed,
        entries: Seq<(String, Binary32)>,
    ) -> Option<Binary32> {
        match accepted(lookup(entries, self.speed_key(speed))) {
            Some(v) => Some(v),
            None => accepted(lookup(entries, self.all_speeds_key())),
        }
    }

    /// The number sent to the service: the override in force, else the voice's
    /// own number; for the voice's default speed where none is asked for.
    pub open spec fn resolved_speed(
        self,
        speed: Option<SpeechSpeed>,
        entries: Seq<(String, Binary32)>,
    ) -> Binary32 {
        let chosen = match speed {
            Some(s) => s,
            None => self.spec_default_speed(),
        };
        match self.speed_override(chosen, entries) {
            Some(v) => v,
            None => self.table_speed(chosen),
        }
    }

    pub fn get_env_name(&self) -> (name: String)
        ensures
            name@ == self.env_name(),
    {
        match self {
            KnownVoice::Scotty => String::from_str("SCOTTY"),
            KnownVoice::June => String::from_str("JUNE"),
            KnownVoice::UnrealTournament => String::from_str("UNREAL_TOURNAMENT"),
        }
    }

    pub fn get_id(&self) -> (id: String)
        ensures
            id@ == self.id(),
    {
        match self {
            KnownVoice::Scotty => String::from_str("OzxGhSRE3FmszopZTbZE"),
            KnownVoice::June => String::from_str("79931Esd1pNmtJORtUBI"),
            KnownVoice::UnrealTournament => String::from_str("YOq2y2Up4RgXP2HyXjE5"),
        }
    }

    #[verifier::when_used_as_spec(spec_default_speed)]
    pub fn default_speed(&self) -> (speed: SpeechSpeed)
        ensures
            speed == self.spec_default_speed(),
    {
        match self {
            KnownVoice::Scotty => SpeechSpeed::Normal,
            KnownVoice::June => SpeechSpeed::Normal,
            KnownVoice::UnrealTournament => SpeechSpeed::Normal,
        }
    }

    /// How far the voice's style is exaggerated when nothing else is asked
    /// for: not at all, the number zero.
    pub fn get_default_style_exaggeration(&self) -> (style: Binary32)
        ensures
            style.bits == 0,
    {
        Binary32 { bits: 0 }
    }

    /// The voice's own number for `speed`.
    pub fn get_table_speed(&self, speed: SpeechSpeed) -> (v: Binary32)
        ensures
            v == self.table_speed(speed),
            v.is_valid_speed(),
    {
        match self {
            KnownVoice::Scotty | KnownVoice::June => match speed {
                SpeechSpeed::Slow => Binary32 { bits: 0x3F33_3333 },
                SpeechSpeed::Normal => Binary32 { bits: 0x3F59_999A },
                SpeechSpeed::Fast => Binary32 { bits: 0x3F99_999A },
            },
            KnownVoice::UnrealTournament => match speed {
                SpeechSpeed::Slow => Binary32 { bits: 0x3F66_6666 },
                SpeechSpeed::Normal => Binary32 { bits: 0x3F8C_CCCD },
                SpeechSpeed::Fast => Binary32 { bits: 0x3F99_999A },
            },
        }
    }

    /// The name under which `config` may hold an override for this voice at
    /// `speed`.
    pub fn get_speed_key(&self, speed: SpeechSpeed) -> (key: String)
        ensures
            key@ == self.speed_key(speed),
    {
        let mut key = String::from_str("VOICE_SPEED_OVERRIDE_");
        key.append(speed.get_env_name().as_str());
        key.append("_");
        key.append(self.get_env_name().as_str());
        assert(key@ =~= self.speed_key(speed));
        key
    }

    /// The name under which `config` may hold an override for this voice at
    /// every speed.
    pub fn get_all_speeds_key(&self) -> (key: String)
        ensures
            key@ == self.all_speeds_key(),
    {
        let mut key = String::from_str("VOICE_SPEED_OVERRIDE_");
        key.append(self.get_env_name().as_str());
        key.append("_ALL");
        assert(key@ =~= self.all_speeds_key());
        key
    }

    pub fn get_speed_override(&self, speed: SpeechSpeed, config: &SpeedConfig) -> (found: Option<
        Binary32,
    >)
        ensures
            found == self.speed_override(speed, config.entries@),
            found matches Some(v) ==> v.is_valid_speed(),
    {
        if let Some(v) = config.get_float(&self.get_speed_key(speed)) {
            if v.valid_speed() {
                return Some(v);
            }
        }
        if let Some(v) = config.get_float(&self.get_all_speeds_key()) {
            if v.valid_speed() {
                return Some(v);
            }
        }
        None
    }

    pub fn get_speed(&self, speed: Option<SpeechSpeed>, config: &SpeedConfig) -> (v: Binary32)
        ensures
            v == self.resolved_speed(speed, config.entries@),
            v.is_valid_speed(),
    {
        let chosen = match speed {
            Some(s) => s,
            None => self.default_speed(),
        };
        match self.get_speed_override(chosen, config) {
            Some(v) => v,
            None => self.get_table_speed(chosen),
        }
    }

    /// The settings of a request that asks for nothing in particular.
    pub open spec fn default_voice_settings(self, entries: Seq<(String, Binary32)>) -> VoiceSettings {
        VoiceSettings {
            stability: None,
            similarity_boost: None,
            style: Some(Binary32 { bits: 0 }),
            use_speaker_boost: None,
            speed: Some(self.resolved_speed(None, entries)),
        }
    }

    pub fn get_default_voice_settings(&self, config: &SpeedConfig) -> (settings: VoiceSettings)
        ensures
            settings == self.default_voice_settings(config.entries@),
    {
        VoiceSettings {
            stability: None,
            similarity_boost: None,
            style: Some(self.get_default_style_exaggeration()),
            use_speaker_boost: None,
            speed: Some(self.get_speed(None, config)),
        }
    }
}

/// Every number in every voice's table is a speed that the service accepts.
pub proof fn lemma_table_speed_valid(voice: KnownVoice, speed: SpeechSpeed)
    ensures
        voice.table_speed(speed).is_valid_speed(),
{
}

/// Whatever is configured, the speed resolved for a voice is one that the
/// service accepts: a number from the slowest accepted speed to the fastest.
pub proof fn lemma_resolved_speed_valid(
    voice: KnownVoice,
    speed: Option<SpeechSpeed>,
    entries: Seq<(String, Binary32)>,
)
    ensures
        voice.resolved_speed(speed, entries).is_valid_speed(),
        voice.resolved_speed(speed, entries).is_finite(),
        min_speed_scaled() <= voice.resolved_speed(speed, entries).scaled() <= max_speed_scaled(),
{
    let chosen = match speed {
        Some(s) => s,
        None => voice.spec_default_speed(),
    };
    lemma_table_speed_valid(voice, chosen);
    lemma_valid_speed_by_value(voice.resolved_speed(speed, entries));
}

/// An override that the service would not accept is passed over: one set for
/// a single speed gives way to the one set for every speed, and where that one
/// is missing or not acceptable either, the voice's own number is used.
pub proof fn lemma_rejected_override_falls_back(
    voice: KnownVoice,
    speed: SpeechSpeed,
    entries: Seq<(String, Binary32)>,
)
    requires
        lookup(entries, voice.speed_key(speed)) matches Some(v) && !v.is_valid_speed(),
    ensures
        voice.speed_override(speed, entries) == accepted(lookup(entries, voice.all_speeds_key())),
        voice.resolved_speed(Some(speed), entries) == (match accepted(
            lookup(entries, voice.all_speeds_key()),
        ) {
            Some(w) => w,
            None => voice.table_speed(speed),
        }),
        Some(voice.resolved_speed(Some(speed), entries)) != lookup(
            entries,
            voice.speed_key(speed),
        ),
{
    lemma_resolved_speed_valid(voice, Some(speed), entries);
}

/// With nothing configured, a voice speaks at its own number for the speed
/// asked for.
pub proof fn lemma_unconfigured_speed_is_table(voice: KnownVoice, speed: SpeechSpeed)
    ensures
        voice.resolved_speed(Some(speed), Seq::empty()) == voice.table_speed(speed),
        voice.resolved_speed(None, Seq::empty()) == voice.table_speed(voice.spec_default_speed()),
{
}

} // verus!
