//! The client, the request builder and the framing of the HTTP POST.

use vstd::prelude::*;
use crate::error::ElevenLabsTTSError;
use crate::json::{object, request_body, request_members, view_opt};
use crate::models::elevanlabs_models::ELEVEN_MULTILINGUAL_V2;
use crate::types::{StaticVoice, TtsRequest, VoiceSettings};
use crate::voices::all_voices::RACHEL_ID;

verus! {

/// The provider's production endpoint.
pub const DEFAULT_BASE_URL: &'static str = "https://api.elevenlabs.io/v1";

/// The audio encoding used when a request names none.
pub const DEFAULT_OUTPUT_FORMAT: &'static str = "mp3_44100_128";

/// The text normalization mode used when a request names none.
pub const DEFAULT_TEXT_NORMALIZATION: &'static str = "auto";

/// The most request identifiers the provider accepts in one list.
pub const MAX_REQUEST_IDS: usize = 3;

/// Client of the ElevenLabs API: the credential and the endpoint.
#[derive(Debug, Clone)]
pub struct ElevenLabsTTSClient {
    pub api_key: String,
    pub base_url: String,
}

/// An HTTP POST, ready for a transport to send.
#[derive(Debug, Clone)]
pub struct HttpPost {
    pub url: String,
    /// Header names and values, in order.
    pub headers: Vec<(String, String)>,
    /// The JSON body.
    pub body: String,
}

/// The URL of a synthesis: the voice in the path, the output format, when
/// given, in the query.
pub open spec fn request_url(base: Seq<char>, voice_id: Seq<char>, format: Option<Seq<char>>) -> Seq<
    char,
> {
    base + "/text-to-speech/"@ + voice_id + match format {
        Some(f) => "?output_format="@ + f,
        None => Seq::empty(),
    }
}

/// `p` is the POST that carries `req` for a client with `api_key` and
/// `base_url`.
pub open spec fn frames(p: HttpPost, api_key: Seq<char>, base_url: Seq<char>, req: TtsRequest) -> bool {
    &&& p.url@ == request_url(base_url, req.voice_id@, view_opt(req.output_format))
    &&& p.headers@.len() == 2
    &&& p.headers@[0].0@ == "xi-api-key"@
    &&& p.headers@[0].1@ == api_key
    &&& p.headers@[1].0@ == "Content-Type"@
    &&& p.headers@[1].1@ == "application/json"@
    &&& p.body@ == object(request_members(req))
}

impl ElevenLabsTTSClient {
    /// A client for the production endpoint.
    pub fn new(api_key: &str) -> (r: Self)
        ensures
            r.api_key@ == api_key@,
            r.base_url@ == DEFAULT_BASE_URL@,
    {
        ElevenLabsTTSClient {
            api_key: String::from_str(api_key),
            base_url: String::from_str(DEFAULT_BASE_URL),
        }
    }

    /// A client for another endpoint (for testing or enterprise use).
    pub fn with_base_url(api_key: &str, base_url: &str) -> (r: Self)
        ensures
            r.api_key@ == api_key@,
            r.base_url@ == base_url@,
    {
        ElevenLabsTTSClient { api_key: String::from_str(api_key), base_url: String::from_str(base_url) }
    }

    /// Starts building a request for `text`.
    pub fn text_to_speech(&self, text: &str) -> (r: TextToSpeechBuilder)
        ensures
            r.client.api_key@ == self.api_key@,
            r.client.base_url@ == self.base_url@,
            r.text@ == text@,
            r.unset(),
    {
        let client = ElevenLabsTTSClient {
            api_key: self.api_key.clone(),
            base_url: self.base_url.clone(),
        };
        TextToSpeechBuilder::new(client, String::from_str(text))
    }

    /// The POST that carries `request`: to `{base}/text-to-speech/{voice}`
    /// with the output format as query, the key in `xi-api-key`, and the
    /// JSON body.
    pub fn post_for(&self, request: &TtsRequest) -> (r: HttpPost)
        ensures
            frames(r, self.api_key@, self.base_url@, *request),
    {
        let mut url = self.base_url.clone();
        url.append("/text-to-speech/");
        url.append(request.voice_id.as_str());
        match &request.output_format {
            Some(f) => {
                url.append("?output_format=");
                url.append(f.as_str());
            },
            None => {},
        }
        let mut headers: Vec<(String, String)> = Vec::new();
        headers.push((String::from_str("xi-api-key"), self.api_key.clone()));
        headers.push((String::from_str("Content-Type"), String::from_str("application/json")));
        let r = HttpPost { url, headers, body: request_body(request) };
        assert(r.url@ =~= request_url(self.base_url@, request.voice_id@, view_opt(request.output_format)));
        r
    }
}

/// A list of request identifiers longer than the provider accepts.
pub open spec fn too_many(ids: Option<Vec<String>>) -> bool {
    ids matches Some(v) && v@.len() > MAX_REQUEST_IDS
}

/// Builder for text-to-speech requests.
pub struct TextToSpeechBuilder {
    pub client: ElevenLabsTTSClient,
    pub text: String,
    pub voice_id: Option<String>,
    pub model_id: Option<String>,
    pub output_format: Option<String>,
    pub language_code: Option<String>,
    pub seed: Option<u32>,
    pub previous_text: Option<String>,
    pub next_text: Option<String>,
    pub previous_request_ids: Option<Vec<String>>,
    pub next_request_ids: Option<Vec<String>>,
    pub apply_text_normalization: Option<String>,
    pub apply_language_text_normalization: Option<bool>,
    pub voice_settings: Option<VoiceSettings>,
}

/// The value of an optional string, or `dflt` when it is absent.
pub open spec fn or_default(v: Option<String>, dflt: Seq<char>) -> Seq<char> {
    match v {
        Some(s) => s@,
        None => dflt,
    }
}

impl TextToSpeechBuilder {
    /// No field but the text has been set.
    pub open spec fn unset(&self) -> bool {
        &&& self.voice_id is None
        &&& self.model_id is None
        &&& self.output_format is None
        &&& self.language_code is None
        &&& self.seed is None
        &&& self.previous_text is None
        &&& self.next_text is None
        &&& self.previous_request_ids is None
        &&& self.next_request_ids is None
        &&& self.apply_text_normalization is None
        &&& self.apply_language_text_normalization is None
        &&& self.voice_settings is None
    }

    /// Finalizing this builder is refused: the text is empty, or a list of
    /// request identifiers is too long.
    pub open spec fn refused(&self) -> bool {
        ||| self.text@.len() == 0
        ||| too_many(self.previous_request_ids)
        ||| too_many(self.next_request_ids)
    }

    /// `q` is this builder finalized: each unset voice, model, format,
    /// normalization mode and settings takes its default, and every other
    /// field is kept as it is.
    pub open spec fn finalized(&self, q: TtsRequest) -> bool {
        &&& q.text == self.text
        &&& q.voice_id@ == or_default(self.voice_id, RACHEL_ID@)
        &&& q.model_id@ == or_default(self.model_id, ELEVEN_MULTILINGUAL_V2@)
        &&& view_opt(q.output_format) == Some(or_default(self.output_format, DEFAULT_OUTPUT_FORMAT@))
        &&& q.language_code == self.language_code
        &&& q.seed == self.seed
        &&& q.previous_text == self.previous_text
        &&& q.next_text == self.next_text
        &&& q.previous_request_ids == self.previous_request_ids
        &&& q.next_request_ids == self.next_request_ids
        &&& view_opt(q.apply_text_normalization) == Some(
            or_default(self.apply_text_normalization, DEFAULT_TEXT_NORMALIZATION@),
        )
        &&& q.apply_language_text_normalization == Some(
            match self.apply_language_text_normalization {
                Some(b) => b,
                None => false,
            },
        )
        &&& q.voice_settings == match self.voice_settings {
            Some(s) => s,
            None => VoiceSettings::spec_default(),
        }
    }

    fn new(client: ElevenLabsTTSClient, text: String) -> (r: Self)
        ensures
            r.client == client,
            r.text == text,
            r.unset(),
    {
        TextToSpeechBuilder {
            client,
            text,
            voice_id: None,
            model_id: None,
            output_format: None,
            language_code: None,
            seed: None,
            previous_text: None,
            next_text: None,
            previous_request_ids: None,
            next_request_ids: None,
            apply_text_normalization: None,
            apply_language_text_normalization: None,
            voice_settings: None,
        }
    }

    /// Set the voice from the static catalogue.
    pub fn voice(self, voice: &StaticVoice) -> (r: Self)
        ensures
            r.voice_id matches Some(v) && v@ == voice.voice_id@,
            r == (TextToSpeechBuilder { voice_id: r.voice_id, ..self }),
    {
        TextToSpeechBuilder { voice_id: Some(String::from_str(voice.voice_id)), ..self }
    }

    /// Set the voice identifier directly (for custom voices).
    pub fn voice_id(self, voice_id: &str) -> (r: Self)
        ensures
            r.voice_id matches Some(v) && v@ == voice_id@,
            r == (TextToSpeechBuilder { voice_id: r.voice_id, ..self }),
    {
        TextToSpeechBuilder { voice_id: Some(String::from_str(voice_id)), ..self }
    }

    /// Set the output format, such as `mp3_44100_128`.
    pub fn output_format(self, output_format: &str) -> (r: Self)
        ensures
            r.output_format matches Some(v) && v@ == output_format@,
            r == (TextToSpeechBuilder { output_format: r.output_format, ..self }),
    {
        TextToSpeechBuilder { output_format: Some(String::from_str(output_format)), ..self }
    }

    /// Set the model.
    pub fn model(self, model_id: &str) -> (r: Self)
        ensures
            r.model_id matches Some(v) && v@ == model_id@,
            r == (TextToSpeechBuilder { model_id: r.model_id, ..self }),
    {
        TextToSpeechBuilder { model_id: Some(String::from_str(model_id)), ..self }
    }

    /// Set the language code.
    pub fn language_code(self, language_code: &str) -> (r: Self)
        ensures
            r.language_code matches Some(v) && v@ == language_code@,
            r == (TextToSpeechBuilder { language_code: r.language_code, ..self }),
    {
        TextToSpeechBuilder { language_code: Some(String::from_str(language_code)), ..self }
    }

    /// Set the voice settings.
    pub fn voice_settings(self, settings: VoiceSettings) -> (r: Self)
        ensures
            r == (TextToSpeechBuilder { voice_settings: Some(settings), ..self }),
    {
        TextToSpeechBuilder { voice_settings: Some(settings), ..self }
    }

    /// Set the sampling seed.
    pub fn seed(self, seed: u32) -> (r: Self)
        ensures
            r == (TextToSpeechBuilder { seed: Some(seed), ..self }),
    {
        TextToSpeechBuilder { seed: Some(seed), ..self }
    }

    /// Set the text that came before.
    pub fn previous_text(self, previous_text: &str) -> (r: Self)
        ensures
            r.previous_text matches Some(v) && v@ == previous_text@,
            r == (TextToSpeechBuilder { previous_text: r.previous_text, ..self }),
    {
        TextToSpeechBuilder { previous_text: Some(String::from_str(previous_text)), ..self }
    }

    /// Set the text that comes after.
    pub fn next_text(self, next_text: &str) -> (r: Self)
        ensures
            r.next_text matches Some(v) && v@ == next_text@,
            r == (TextToSpeechBuilder { next_text: r.next_text, ..self }),
    {
        TextToSpeechBuilder { next_text: Some(String::from_str(next_text)), ..self }
    }

    /// Set the identifiers of the generations before this one.
    pub fn previous_request_ids(self, previous_request_ids: Vec<String>) -> (r: Self)
        ensures
            r == (TextToSpeechBuilder { previous_request_ids: Some(previous_request_ids), ..self }),
    {
        TextToSpeechBuilder { previous_request_ids: Some(previous_request_ids), ..self }
    }

    /// Set the identifiers of the generations after this one.
    pub fn next_request_ids(self, next_request_ids: Vec<String>) -> (r: Self)
        ensures
            r == (TextToSpeechBuilder { next_request_ids: Some(next_request_ids), ..self }),
    {
        TextToSpeechBuilder { next_request_ids: Some(next_request_ids), ..self }
    }

    /// Set the text normalization mode: `auto`, `on` or `off`.
    pub fn apply_text_normalization(self, apply_text_normalization: &str) -> (r: Self)
        ensures
            r.apply_text_normalization matches Some(v) && v@ == apply_text_normalization@,
            r == (TextToSpeechBuilder { apply_text_normalization: r.apply_text_normalization, ..self }),
    {
        TextToSpeechBuilder {
            apply_text_normalization: Some(String::from_str(apply_text_normalization)),
            ..self
        }
    }

    /// Set language text normalization.
    pub fn apply_language_text_normalization(self, apply_language_text_normalization: bool) -> (r:
        Self)
        ensures
            r == (TextToSpeechBuilder {
                apply_language_text_normalization: Some(apply_language_text_normalization),
                ..self
            }),
    {
        TextToSpeechBuilder {
            apply_language_text_normalization: Some(apply_language_text_normalization),
            ..self
        }
    }

    /// Finalizes the request: refused with a validation error when the text
    /// is empty or a list of request identifiers holds more than three
    /// entries; otherwise each unset voice, model, output format,
    /// normalization setting and voice settings takes its default.
    pub fn build(self) -> (r: Result<TtsRequest, ElevenLabsTTSError>)
        ensures
            r is Err <==> self.refused(),
            r matches Err(e) ==> e is ValidationError,
            r matches Ok(q) ==> self.finalized(q),
    {
        if self.text.as_str().is_empty() {
            return Err(ElevenLabsTTSError::ValidationError(String::from_str("text must not be empty")));
        }
        if let Some(ids) = &self.previous_request_ids {
            if ids.len() > MAX_REQUEST_IDS {
                return Err(ElevenLabsTTSError::ValidationError(String::from_str(
                    "previous_request_ids holds more than three entries",
                )));
            }
        }
        if let Some(ids) = &self.next_request_ids {
            if ids.len() > MAX_REQUEST_IDS {
                return Err(ElevenLabsTTSError::ValidationError(String::from_str(
                    "next_request_ids holds more than three entries",
                )));
            }
        }
        let voice_id = match self.voice_id {
            Some(v) => v,
            None => String::from_str(RACHEL_ID),
        };
        let model_id = match self.model_id {
            Some(m) => m,
            None => String::from_str(ELEVEN_MULTILINGUAL_V2),
        };
        let output_format = match self.output_format {
            Some(f) => f,
            None => String::from_str(DEFAULT_OUTPUT_FORMAT),
        };
        let apply_text_normalization = match self.apply_text_normalization {
            Some(n) => n,
            None => String::from_str(DEFAULT_TEXT_NORMALIZATION),
        };
        let voice_settings = match self.voice_settings {
            Some(s) => s,
            None => VoiceSettings::default(),
        };
        Ok(TtsRequest {
            text: self.text,
            voice_id,
            output_format: Some(output_format),
            model_id,
            language_code: self.language_code,
            seed: self.seed,
            previous_text: self.previous_text,
            next_text: self.next_text,
            previous_request_ids: self.previous_request_ids,
            next_request_ids: self.next_request_ids,
            apply_text_normalization: Some(apply_text_normalization),
            apply_language_text_normalization: Some(
                match self.apply_language_text_normalization {
                    Some(b) => b,
                    None => false,
                },
            ),
            voice_settings,
        })
    }

    /// Finalizes the request and frames the POST that carries it; a refused
    /// request is reported before anything could be sent.
    pub fn prepare(self) -> (r: Result<HttpPost, ElevenLabsTTSError>)
        ensures
            r is Err <==> self.refused(),
            r matches Err(e) ==> e is ValidationError,
            r matches Ok(p) ==> exists|q: TtsRequest|
                #![auto]
                self.finalized(q) && frames(p, self.client.api_key@, self.client.base_url@, q),
    {
        let client = ElevenLabsTTSClient {
            api_key: self.client.api_key.clone(),
            base_url: self.client.base_url.clone(),
        };
        let request = self.build()?;
        Ok(client.post_for(&request))
    }
}

/// A builder whose voice, model and output format were never set finalizes
/// to the default voice, the default model and the default output format.
pub proof fn unset_builder_takes_defaults(b: TextToSpeechBuilder, q: TtsRequest)
    requires
        b.voice_id is None,
        b.model_id is None,
        b.output_format is None,
        b.finalized(q),
    ensures
        q.voice_id@ == RACHEL_ID@,
        q.model_id@ == ELEVEN_MULTILINGUAL_V2@,
        q.output_format matches Some(f) && f@ == DEFAULT_OUTPUT_FORMAT@,
{
}

/// A builder holding more than three previous request identifiers, four
/// for instance, is refused at finalization, so no POST is framed for it.
pub proof fn too_many_previous_ids_refused(b: TextToSpeechBuilder)
    requires
        b.previous_request_ids matches Some(ids) && ids@.len() > MAX_REQUEST_IDS,
    ensures
        b.refused(),
{
}

} // verus!
