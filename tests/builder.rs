use elevenlabs_tts::client::{DEFAULT_BASE_URL, DEFAULT_OUTPUT_FORMAT};
use elevenlabs_tts::models::elevanlabs_models::{ELEVEN_MULTILINGUAL_V2, ELEVEN_TURBO_V2_5};
use elevenlabs_tts::voices::all_voices::{arnold, rachel, ARNOLD_ID, RACHEL_ID};
use elevenlabs_tts::{ElevenLabsTTSClient, ElevenLabsTTSError, StaticVoice, VoiceSettings};

#[test]
fn test_client_creation() {
    let client = ElevenLabsTTSClient::new("test-key");
    assert_eq!(client.api_key, "test-key");
}

#[test]
fn test_builder_pattern() {
    let client = ElevenLabsTTSClient::new("test-key");
    let builder = client
        .text_to_speech("Hello")
        .voice_id("voice-123")
        .model("model-456");

    assert_eq!(builder.text, "Hello");
    assert_eq!(builder.voice_id, Some("voice-123".to_string()));
}

#[test]
fn client_defaults_to_production_endpoint() {
    let client = ElevenLabsTTSClient::new("k");
    assert_eq!(client.base_url, "https://api.elevenlabs.io/v1");
    assert_eq!(client.base_url, DEFAULT_BASE_URL);
    let other = ElevenLabsTTSClient::with_base_url("k2", "http://localhost:8080");
    assert_eq!(other.api_key, "k2");
    assert_eq!(other.base_url, "http://localhost:8080");
}

#[test]
fn unset_builder_finalizes_to_defaults() {
    let client = ElevenLabsTTSClient::new("k");
    let req = client.text_to_speech("Hi").build().unwrap();
    assert_eq!(req.text, "Hi");
    assert_eq!(req.voice_id, RACHEL_ID);
    assert_eq!(req.voice_id, "21m00Tcm4TlvDq8ikWAM");
    assert_eq!(req.model_id, ELEVEN_MULTILINGUAL_V2);
    assert_eq!(req.model_id, "eleven_multilingual_v2");
    assert_eq!(req.output_format, Some("mp3_44100_128".to_string()));
    assert_eq!(req.output_format.as_deref(), Some(DEFAULT_OUTPUT_FORMAT));
    assert_eq!(req.apply_text_normalization, Some("auto".to_string()));
    assert_eq!(req.apply_language_text_normalization, Some(false));
    assert_eq!(req.voice_settings, VoiceSettings::default());
    assert_eq!(req.language_code, None);
    assert_eq!(req.seed, None);
    assert_eq!(req.previous_text, None);
    assert_eq!(req.next_text, None);
    assert_eq!(req.previous_request_ids, None);
    assert_eq!(req.next_request_ids, None);
}

#[test]
fn set_fields_are_kept_and_later_calls_win() {
    let client = ElevenLabsTTSClient::new("k");
    let settings = VoiceSettings::default().style(300);
    let req = client
        .text_to_speech("Bonjour")
        .voice_id("first")
        .voice(&arnold())
        .model(ELEVEN_TURBO_V2_5)
        .output_format("pcm_16000")
        .language_code("fr")
        .seed(4000)
        .previous_text("before")
        .next_text("after")
        .previous_request_ids(vec!["a".to_string(), "b".to_string()])
        .next_request_ids(vec!["c".to_string()])
        .apply_text_normalization("off")
        .apply_language_text_normalization(true)
        .voice_settings(settings.clone())
        .build()
        .unwrap();
    assert_eq!(req.voice_id, ARNOLD_ID);
    assert_eq!(req.model_id, "eleven_turbo_v2_5");
    assert_eq!(req.output_format, Some("pcm_16000".to_string()));
    assert_eq!(req.language_code, Some("fr".to_string()));
    assert_eq!(req.seed, Some(4000));
    assert_eq!(req.previous_text, Some("before".to_string()));
    assert_eq!(req.next_text, Some("after".to_string()));
    assert_eq!(req.previous_request_ids, Some(vec!["a".to_string(), "b".to_string()]));
    assert_eq!(req.next_request_ids, Some(vec!["c".to_string()]));
    assert_eq!(req.apply_text_normalization, Some("off".to_string()));
    assert_eq!(req.apply_language_text_normalization, Some(true));
    assert_eq!(req.voice_settings, settings);
}

#[test]
fn empty_text_is_refused() {
    let client = ElevenLabsTTSClient::new("k");
    let r = client.text_to_speech("").build();
    assert!(matches!(r, Err(ElevenLabsTTSError::ValidationError(_))));
}

fn ids(n: usize) -> Vec<String> {
    (0..n).map(|i| format!("req-{}", i)).collect()
}

#[test]
fn four_previous_request_ids_are_refused_before_sending() {
    let client = ElevenLabsTTSClient::new("k");
    let r = client.text_to_speech("Hello").previous_request_ids(ids(4)).build();
    assert!(matches!(r, Err(ElevenLabsTTSError::ValidationError(_))));
    let p = client.text_to_speech("Hello").previous_request_ids(ids(4)).prepare();
    assert!(matches!(p, Err(ElevenLabsTTSError::ValidationError(_))));
}

#[test]
fn four_next_request_ids_are_refused() {
    let client = ElevenLabsTTSClient::new("k");
    let r = client.text_to_speech("Hello").next_request_ids(ids(4)).build();
    assert!(matches!(r, Err(ElevenLabsTTSError::ValidationError(_))));
}

#[test]
fn three_request_ids_are_accepted() {
    let client = ElevenLabsTTSClient::new("k");
    let r = client
        .text_to_speech("Hello")
        .previous_request_ids(ids(3))
        .next_request_ids(ids(3))
        .build();
    assert!(r.is_ok());
}

#[test]
fn static_voices_expose_their_identifiers() {
    let v = StaticVoice::new("id-1", "Name", "female");
    assert_eq!(v.id(), "id-1");
    assert_eq!(v.name, "Name");
    assert_eq!(v.gender, "female");
    assert_eq!(rachel().id(), "21m00Tcm4TlvDq8ikWAM");
    assert_eq!(arnold().name, "Arnold");
}

#[test]
fn catalogue_voices_carry_name_and_gender() {
    let r = rachel();
    assert_eq!((r.name, r.gender), ("Rachel", "female"));
    let a = arnold();
    assert_eq!((a.voice_id, a.name, a.gender), ("VR6AewLTigWG4xSOukaG", "Arnold", "male"));
    let d = elevenlabs_tts::voices::all_voices::adam();
    assert_eq!((d.name, d.gender), ("Adam", "male"));
    let b = elevenlabs_tts::voices::all_voices::bella();
    assert_eq!((b.name, b.gender), ("Bella", "female"));
}
