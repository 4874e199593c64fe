use elevenlabs_tts::json::{request_body, settings_body, string_list_text};
use elevenlabs_tts::models::elevanlabs_models::ELEVEN_TURBO_V2_5;
use elevenlabs_tts::voices::all_voices::{arnold, ARNOLD_ID};
use elevenlabs_tts::{ElevenLabsTTSClient, VoiceSettings};
use serde_json::Value;

fn parse(text: &str) -> Value {
    serde_json::from_str::<Value>(text).unwrap()
}

#[test]
fn body_never_holds_voice_id() {
    let client = ElevenLabsTTSClient::new("k");
    let plain = client.text_to_speech("Hi").build().unwrap();
    let full = client
        .text_to_speech("Hi")
        .voice_id("custom-voice")
        .language_code("en")
        .seed(1)
        .build()
        .unwrap();
    for req in [plain, full] {
        let v = parse(&request_body(&req));
        let obj = v.as_object().unwrap();
        assert!(!obj.contains_key("voice_id"));
        assert!(!obj.contains_key("output_format"));
    }
}

#[test]
fn unset_optional_fields_are_omitted() {
    let client = ElevenLabsTTSClient::new("k");
    let req = client.text_to_speech("Hi").build().unwrap();
    let body = request_body(&req);
    assert!(!body.contains("null"));
    let v = parse(&body);
    let obj = v.as_object().unwrap();
    let mut keys: Vec<&str> = obj.keys().map(|k| k.as_str()).collect();
    keys.sort();
    assert_eq!(
        keys,
        vec![
            "apply_language_text_normalization",
            "apply_text_normalization",
            "model_id",
            "text",
            "voice_settings"
        ]
    );
}

#[test]
fn exact_body_of_a_default_request() {
    let client = ElevenLabsTTSClient::new("k");
    let req = client.text_to_speech("Hi").build().unwrap();
    assert_eq!(
        request_body(&req),
        "{\"text\":\"Hi\",\"model_id\":\"eleven_multilingual_v2\",\
         \"apply_text_normalization\":\"auto\",\"apply_language_text_normalization\":false,\
         \"voice_settings\":{\"stability\":0.500,\"similarity_boost\":0.800,\"style\":0.000,\
         \"use_speaker_boost\":true,\"speed\":1.000}}"
    );
}

#[test]
fn body_round_trips_every_set_field() {
    let client = ElevenLabsTTSClient::new("k");
    let settings = VoiceSettings::default().stability(0).style(300).speaker_boost(false).speed(1050);
    let req = client
        .text_to_speech("He said \"hi\"\n")
        .model("m-1")
        .language_code("fr")
        .seed(4294967295)
        .previous_text("before ü")
        .next_text("after")
        .previous_request_ids(vec!["a".to_string(), "b\\c".to_string()])
        .next_request_ids(vec![])
        .apply_text_normalization("on")
        .apply_language_text_normalization(true)
        .voice_settings(settings)
        .build()
        .unwrap();
    let v = parse(&request_body(&req));
    assert_eq!(v["text"], "He said \"hi\"\n");
    assert_eq!(v["model_id"], "m-1");
    assert_eq!(v["language_code"], "fr");
    assert_eq!(v["seed"].as_u64(), Some(4294967295));
    assert_eq!(v["previous_text"], "before ü");
    assert_eq!(v["next_text"], "after");
    let prev: Vec<&str> = v["previous_request_ids"]
        .as_array()
        .unwrap()
        .iter()
        .map(|x| x.as_str().unwrap())
        .collect();
    assert_eq!(prev, vec!["a", "b\\c"]);
    assert_eq!(v["next_request_ids"].as_array().unwrap().len(), 0);
    assert_eq!(v["apply_text_normalization"], "on");
    assert_eq!(v["apply_language_text_normalization"], true);
    let s = &v["voice_settings"];
    assert_eq!(s["stability"].as_f64(), Some(0.0));
    assert_eq!(s["similarity_boost"].as_f64(), Some(0.8));
    assert_eq!(s["style"].as_f64(), Some(0.3));
    assert_eq!(s["use_speaker_boost"], false);
    assert_eq!(s["speed"].as_f64(), Some(1.05));
}

#[test]
fn absent_settings_are_omitted() {
    let s = VoiceSettings {
        stability: Some(250),
        similarity_boost: None,
        style: None,
        use_speaker_boost: None,
        speed: Some(1200),
    };
    assert_eq!(settings_body(&s), "{\"stability\":0.250,\"speed\":1.200}");
    let none = VoiceSettings {
        stability: None,
        similarity_boost: None,
        style: None,
        use_speaker_boost: None,
        speed: None,
    };
    assert_eq!(settings_body(&none), "{}");
}

#[test]
fn string_lists_are_quoted_and_escaped() {
    assert_eq!(string_list_text(&vec![]), "[]");
    assert_eq!(string_list_text(&vec!["x".to_string()]), "[\"x\"]");
    assert_eq!(
        string_list_text(&vec!["a\"b".to_string(), "c".to_string()]),
        "[\"a\\\"b\",\"c\"]"
    );
}

#[test]
fn post_is_framed_for_the_voice_and_format() {
    let client = ElevenLabsTTSClient::with_base_url("secret", "http://mock");
    let post = client
        .text_to_speech("Hello")
        .voice(&arnold())
        .model(ELEVEN_TURBO_V2_5)
        .prepare()
        .unwrap();
    assert_eq!(
        post.url,
        format!("http://mock/text-to-speech/{}?output_format=mp3_44100_128", ARNOLD_ID)
    );
    assert_eq!(
        post.headers,
        vec![
            ("xi-api-key".to_string(), "secret".to_string()),
            ("Content-Type".to_string(), "application/json".to_string()),
        ]
    );
    let v = parse(&post.body);
    assert_eq!(v["text"], "Hello");
    assert_eq!(v["model_id"], "eleven_turbo_v2_5");
}

#[test]
fn post_for_a_request_without_format_has_no_query() {
    let client = ElevenLabsTTSClient::new("k");
    let mut req = client.text_to_speech("Hi").build().unwrap();
    req.output_format = None;
    let post = client.post_for(&req);
    assert_eq!(
        post.url,
        "https://api.elevenlabs.io/v1/text-to-speech/21m00Tcm4TlvDq8ikWAM"
    );
}

#[test]
fn control_characters_are_escaped_as_stated() {
    let v = vec!["q\"b\\\u{8}\t\n\u{c}\r\u{1}\u{1f}é".to_string()];
    assert_eq!(
        string_list_text(&v),
        "[\"q\\\"b\\\\\\b\\t\\n\\f\\r\\u0001\\u001fé\"]"
    );
}
