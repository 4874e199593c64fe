use vstd::prelude::*;

verus! {

pub const ELEVEN_V3: &'static str = "eleven_v3";

pub const ELEVEN_FLASH_V2_5: &'static str = "eleven_flash_v2_5";

pub const ELEVEN_FLASH_V2: &'static str = "eleven_flash_v2";

pub const ELEVEN_TURBO_V2_5: &'static str = "eleven_turbo_v2_5";

pub const ELEVEN_TURBO_V2: &'static str = "eleven_turbo_v2";

pub const ELEVEN_MULTILINGUAL_V2: &'static str = "eleven_multilingual_v2";

pub const ELEVEN_MULTILINGUAL_V1: &'static str = "eleven_multilingual_v1";

pub const ELEVEN_MULTILINGUAL_STS_V2: &'static str = "eleven_multilingual_sts_v2";

pub const ELEVEN_ENGLISH_STS_V2: &'static str = "eleven_english_sts_v2";

pub const ELEVEN_MONOLINGUAL_V1: &'static str = "eleven_monolingual_v1";

} // verus!
