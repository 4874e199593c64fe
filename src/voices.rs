//! The provider's premade voices.

pub mod all_voices;
