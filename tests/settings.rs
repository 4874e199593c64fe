use elevenlabs_tts::VoiceSettings;

#[test]
fn default_settings_are_the_documented_values() {
    let s = VoiceSettings::default();
    assert_eq!(s.stability, Some(500));
    assert_eq!(s.similarity_boost, Some(800));
    assert_eq!(s.style, Some(0));
    assert_eq!(s.use_speaker_boost, Some(true));
    assert_eq!(s.speed, Some(1000));
}

#[test]
fn unit_settings_clamp_to_nearest_bound() {
    let s = VoiceSettings::default().stability(-250).similarity_boost(1700).style(-1);
    assert_eq!(s.stability, Some(0));
    assert_eq!(s.similarity_boost, Some(1000));
    assert_eq!(s.style, Some(0));
    let t = VoiceSettings::default().stability(1001).similarity_boost(-9000).style(i64::MAX);
    assert_eq!(t.stability, Some(1000));
    assert_eq!(t.similarity_boost, Some(0));
    assert_eq!(t.style, Some(1000));
}

#[test]
fn in_range_settings_are_kept() {
    let s = VoiceSettings::default().stability(0).similarity_boost(1000).style(300);
    assert_eq!(s.stability, Some(0));
    assert_eq!(s.similarity_boost, Some(1000));
    assert_eq!(s.style, Some(300));
    assert_eq!(s.speed, Some(1000));
}

#[test]
fn speed_clamps_to_nearest_bound() {
    assert_eq!(VoiceSettings::default().speed(500).speed, Some(700));
    assert_eq!(VoiceSettings::default().speed(1500).speed, Some(1200));
    assert_eq!(VoiceSettings::default().speed(i64::MIN).speed, Some(700));
    assert_eq!(VoiceSettings::default().speed(1050).speed, Some(1050));
    assert_eq!(VoiceSettings::default().speed(700).speed, Some(700));
    assert_eq!(VoiceSettings::default().speed(1200).speed, Some(1200));
}

#[test]
fn speaker_boost_is_stored() {
    let s = VoiceSettings::default().speaker_boost(false);
    assert_eq!(s.use_speaker_boost, Some(false));
    assert_eq!(s.stability, Some(500));
}

#[test]
fn new_fills_defaults_and_clamps() {
    let s = VoiceSettings::new(None, None, None, None, None);
    assert_eq!(s.stability, Some(500));
    assert_eq!(s.similarity_boost, Some(750));
    assert_eq!(s.style, Some(0));
    assert_eq!(s.use_speaker_boost, Some(true));
    assert_eq!(s.speed, Some(1000));
    let t = VoiceSettings::new(Some(2000), Some(-5), Some(400), Some(false), Some(100));
    assert_eq!(t.stability, Some(1000));
    assert_eq!(t.similarity_boost, Some(0));
    assert_eq!(t.style, Some(400));
    assert_eq!(t.use_speaker_boost, Some(false));
    assert_eq!(t.speed, Some(700));
}
