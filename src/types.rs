use vstd::prelude::*;

verus! {

/// Upper bound of the unit interval, in thousandths.
pub const UNIT_MAX: u32 = 1000;

/// Slowest accepted speech speed, in thousandths (0.70).
pub const SPEED_MIN: u32 = 700;

/// Fastest accepted speech speed, in thousandths (1.20).
pub const SPEED_MAX: u32 = 1200;

/// `v` moved into the closed interval `[lo, hi]`.
pub open spec fn clamp(v: int, lo: int, hi: int) -> int {
    if v < lo {
        lo
    } else if v > hi {
        hi
    } else {
        v
    }
}

/// A setting given below its range is stored as the lower bound, one given
/// above it as the upper bound, and one within it unchanged.
pub proof fn clamp_is_nearest_bound(v: int, lo: int, hi: int)
    requires
        lo <= hi,
    ensures
        v < lo ==> clamp(v, lo, hi) == lo,
        v > hi ==> clamp(v, lo, hi) == hi,
        lo <= v <= hi ==> clamp(v, lo, hi) == v,
        lo <= clamp(v, lo, hi) <= hi,
{
}

fn clamp_milli(v: i64, lo: u32, hi: u32) -> (r: u32)
    requires
        lo <= hi,
    ensures
        r as int == clamp(v as int, lo as int, hi as int),
{
    if v < lo as i64 {
        lo
    } else if v > hi as i64 {
        hi
    } else {
        v as u32
    }
}

/// A finalized request, ready to be framed and sent.
///
/// `voice_id` selects the endpoint path and `output_format` its query; the
/// other fields form the JSON body, where an absent optional field is left
/// out rather than sent as `null`.
#[derive(Debug, Clone)]
pub struct TtsRequest {
    pub text: String,
    pub voice_id: String,
    /// Codec, sample rate and bitrate, such as `mp3_44100_128`.
    pub output_format: Option<String>,
    pub model_id: String,
    /// ISO 639-1 code of the language the model should enforce.
    pub language_code: Option<String>,
    /// Requests with the same seed and parameters are sampled alike where
    /// the provider can.
    pub seed: Option<u32>,
    /// Text that came before this one, for continuity.
    pub previous_text: Option<String>,
    /// Text that comes after this one, for continuity.
    pub next_text: Option<String>,
    /// Identifiers of the generations before this one; at most three.
    pub previous_request_ids: Option<Vec<String>>,
    /// Identifiers of the generations after this one; at most three.
    pub next_request_ids: Option<Vec<String>>,
    /// `auto`, `on` or `off`.
    pub apply_text_normalization: Option<String>,
    pub apply_language_text_normalization: Option<bool>,
    pub voice_settings: VoiceSettings,
}

/// Voice settings for fine-tuning speech output.
///
/// Every numeric setting is a fixed-point value in thousandths: `500` stands
/// for 0.5. Stability, similarity boost and style live in `[0, 1000]`, speed
/// in `[700, 1200]`. Stability follows the continuous policy: any value of the
/// unit interval is kept, and values outside it are clamped, never rejected.
#[derive(Debug, Clone, PartialEq, Eq, Structural)]
pub struct VoiceSettings {
    /// Stability of the voice; higher is more stable and less expressive.
    pub stability: Option<u32>,
    /// How closely the output follows the original voice.
    pub similarity_boost: Option<u32>,
    /// Style exaggeration.
    pub style: Option<u32>,
    /// Boost the similarity to the original speaker.
    pub use_speaker_boost: Option<bool>,
    /// Speech rate; 1000 is normal speed.
    pub speed: Option<u32>,
}

/// An optional setting that, when present, lies in `[lo, hi]`.
pub open spec fn within(v: Option<u32>, lo: int, hi: int) -> bool {
    v matches Some(x) ==> lo <= x && x <= hi
}

/// The stored value of a setting given `v` (or `dflt` when absent), clamped.
pub open spec fn setting(v: Option<i64>, dflt: int, lo: int, hi: int) -> Option<u32> {
    Some(
        clamp(
            match v {
                Some(x) => x as int,
                None => dflt,
            },
            lo,
            hi,
        ) as u32,
    )
}

impl VoiceSettings {
    /// Every present setting lies in its documented range.
    pub open spec fn wf(&self) -> bool {
        &&& within(self.stability, 0, UNIT_MAX as int)
        &&& within(self.similarity_boost, 0, UNIT_MAX as int)
        &&& within(self.style, 0, UNIT_MAX as int)
        &&& within(self.speed, SPEED_MIN as int, SPEED_MAX as int)
    }

    /// The provider's documented defaults: stability 0.5, similarity boost
    /// 0.8, style 0, speaker boost on, normal speed.
    pub open spec fn spec_default() -> VoiceSettings {
        VoiceSettings {
            stability: Some(500),
            similarity_boost: Some(800),
            style: Some(0),
            use_speaker_boost: Some(true),
            speed: Some(1000),
        }
    }

    /// Settings from optional values in thousandths. An absent value takes
    /// its default (stability 500, similarity boost 750, style 0, speaker
    /// boost on, speed 1000); every value is clamped into its range.
    pub fn new(
        stability: Option<i64>,
        similarity_boost: Option<i64>,
        style: Option<i64>,
        use_speaker_boost: Option<bool>,
        speed: Option<i64>,
    ) -> (r: Self)
        ensures
            r.wf(),
            r.stability == setting(stability, 500, 0, UNIT_MAX as int),
            r.similarity_boost == setting(similarity_boost, 750, 0, UNIT_MAX as int),
            r.style == setting(style, 0, 0, UNIT_MAX as int),
            r.use_speaker_boost == Some(
                match use_speaker_boost {
                    Some(b) => b,
                    None => true,
                },
            ),
            r.speed == setting(speed, 1000, SPEED_MIN as int, SPEED_MAX as int),
    {
        VoiceSettings {
            stability: Some(clamp_milli(stability.unwrap_or(500), 0, UNIT_MAX)),
            similarity_boost: Some(clamp_milli(similarity_boost.unwrap_or(750), 0, UNIT_MAX)),
            style: Some(clamp_milli(style.unwrap_or(0), 0, UNIT_MAX)),
            use_speaker_boost: Some(use_speaker_boost.unwrap_or(true)),
            speed: Some(clamp_milli(speed.unwrap_or(1000), SPEED_MIN, SPEED_MAX)),
        }
    }

    /// Set stability, in thousandths, clamped into `[0, 1000]`.
    pub fn stability(self, stability: i64) -> (r: Self)
        ensures
            self.wf() ==> r.wf(),
            r == (VoiceSettings {
                stability: Some(clamp(stability as int, 0, UNIT_MAX as int) as u32),
                ..self
            }),
    {
        VoiceSettings { stability: Some(clamp_milli(stability, 0, UNIT_MAX)), ..self }
    }

    /// Set similarity boost, in thousandths, clamped into `[0, 1000]`.
    pub fn similarity_boost(self, similarity_boost: i64) -> (r: Self)
        ensures
            self.wf() ==> r.wf(),
            r == (VoiceSettings {
                similarity_boost: Some(clamp(similarity_boost as int, 0, UNIT_MAX as int) as u32),
                ..self
            }),
    {
        VoiceSettings { similarity_boost: Some(clamp_milli(similarity_boost, 0, UNIT_MAX)), ..self }
    }

    /// Set style exaggeration, in thousandths, clamped into `[0, 1000]`.
    pub fn style(self, style: i64) -> (r: Self)
        ensures
            self.wf() ==> r.wf(),
            r == (VoiceSettings {
                style: Some(clamp(style as int, 0, UNIT_MAX as int) as u32),
                ..self
            }),
    {
        VoiceSettings { style: Some(clamp_milli(style, 0, UNIT_MAX)), ..self }
    }

    /// Enable or disable speaker boost.
    pub fn speaker_boost(self, enabled: bool) -> (r: Self)
        ensures
            self.wf() ==> r.wf(),
            r == (VoiceSettings { use_speaker_boost: Some(enabled), ..self }),
    {
        VoiceSettings { use_speaker_boost: Some(enabled), ..self }
    }

    /// Set speed, in thousandths, clamped into `[700, 1200]`.
    pub fn speed(self, speed: i64) -> (r: Self)
        ensures
            self.wf() ==> r.wf(),
            r == (VoiceSettings {
                speed: Some(clamp(speed as int, SPEED_MIN as int, SPEED_MAX as int) as u32),
                ..self
            }),
    {
        VoiceSettings { speed: Some(clamp_milli(speed, SPEED_MIN, SPEED_MAX)), ..self }
    }
}

impl Default for VoiceSettings {
    fn default() -> (r: Self)
        ensures
            r.wf(),
            r == VoiceSettings::spec_default(),
    {
        VoiceSettings {
            stability: Some(500),
            similarity_boost: Some(800),
            style: Some(0),
            use_speaker_boost: Some(true),
            speed: Some(1000),
        }
    }
}

/// A voice of the provider's static catalogue: its identifier, display name
/// and gender tag.
#[derive(Debug, Clone, Copy)]
pub struct StaticVoice {
    pub voice_id: &'static str,
    pub name: &'static str,
    pub gender: &'static str,
}

impl StaticVoice {
    pub fn new(voice_id: &'static str, name: &'static str, gender: &'static str) -> (r: Self)
        ensures
            r.voice_id == voice_id,
            r.name == name,
            r.gender == gender,
    {
        StaticVoice { voice_id, name, gender }
    }

    /// The voice identifier used in API calls.
    pub fn id(&self) -> (r: &str)
        ensures
            r@ == self.voice_id@,
    {
        self.voice_id
    }
}

} // verus!
