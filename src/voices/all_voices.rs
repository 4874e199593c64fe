use vstd::prelude::*;
use crate::types::StaticVoice;

verus! {

pub const RACHEL_ID: &'static str = "21m00Tcm4TlvDq8ikWAM";

pub const ARNOLD_ID: &'static str = "VR6AewLTigWG4xSOukaG";

pub const ADAM_ID: &'static str = "pNInz6obpgDQGcFmaJgB";

pub const BELLA_ID: &'static str = "EXAVITQu4vr4xnSDxMaL";

/// Rachel, a female voice; the voice used when a request names none.
pub fn rachel() -> (r: StaticVoice)
    ensures
        r.voice_id == RACHEL_ID,
        r.name@ == "Rachel"@,
        r.gender@ == "female"@,
{
    StaticVoice::new(RACHEL_ID, "Rachel", "female")
}

/// Arnold, a male voice.
pub fn arnold() -> (r: StaticVoice)
    ensures
        r.voice_id == ARNOLD_ID,
        r.name@ == "Arnold"@,
        r.gender@ == "male"@,
{
    StaticVoice::new(ARNOLD_ID, "Arnold", "male")
}

/// Adam, a male voice.
pub fn adam() -> (r: StaticVoice)
    ensures
        r.voice_id == ADAM_ID,
        r.name@ == "Adam"@,
        r.gender@ == "male"@,
{
    StaticVoice::new(ADAM_ID, "Adam", "male")
}

/// Bella, a female voice.
pub fn bella() -> (r: StaticVoice)
    ensures
        r.voice_id == BELLA_ID,
        r.name@ == "Bella"@,
        r.gender@ == "female"@,
{
    StaticVoice::new(BELLA_ID, "Bella", "female")
}

} // verus!
