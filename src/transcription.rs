use vstd::prelude::*;
use crate::codec::{
    audio_base64, base64_standard, samples_to_wav_bytes, wav_pcm16_mono, MAX_TRANSCRIBED_SAMPLES,
};
use crate::protocol::{Content, GeminiRequest, InlineData, Part, RequestError};

verus! {

/// Sample rate of every recording sent for transcription.
pub const SAMPLE_RATE: u32 = 16000;

/// Why a transcription gave no text.
#[derive(Clone, Debug, PartialEq, Eq)]
pub enum TranscribeError {
    /// No API key is configured; nothing was sent.
    Configuration,
    /// The recording could not be encoded; nothing was sent.
    Encoding(String),
    /// Every candidate model failed; this is the last one's failure.
    AllModelsFailed(RequestError),
}

pub open spec fn prompt_with_language(lang: Seq<char>) -> Seq<char> {
    "Transcribe this audio. The language is "@ + lang
        + ". Return only the transcribed text, nothing else."@
}

pub open spec fn prompt_any_language() -> Seq<char> {
    "Transcribe this audio. Return only the transcribed text, nothing else."@
}

/// The instruction for a language hint: the hint's language is named unless
/// it is absent or the sentinel `auto`.
pub open spec fn prompt_for(hint: Option<String>) -> Seq<char> {
    match hint {
        Some(lang) => if lang@ == "auto"@ {
            prompt_any_language()
        } else {
            prompt_with_language(lang@)
        },
        None => prompt_any_language(),
    }
}

/// Builds the natural-language instruction for a language hint.
pub fn build_prompt(language_hint: &Option<String>) -> (r: String)
    ensures
        r@ == prompt_for(*language_hint),
{
    match language_hint {
        Some(lang) => {
            if *lang == String::from_str("auto") {
                String::from_str("Transcribe this audio. Return only the transcribed text, nothing else.")
            } else {
                let mut p = String::from_str("Transcribe this audio. The language is ");
                p.append(lang.as_str());
                p.append(". Return only the transcribed text, nothing else.");
                p
            }
        },
        None => String::from_str("Transcribe this audio. Return only the transcribed text, nothing else."),
    }
}

/// The request carries one content of two parts: the instruction text
/// first, then the audio inline as base64 WAV.
pub open spec fn is_request_for(req: GeminiRequest, prompt: Seq<char>, audio: Seq<char>) -> bool {
    &&& req.contents@.len() == 1
    &&& req.contents@[0].parts@.len() == 2
    &&& match req.contents@[0].parts@[0] {
        Part::Text { text } => text@ == prompt,
        _ => false,
    }
    &&& match req.contents@[0].parts@[1] {
        Part::InlineData { inline_data } => inline_data.mime_type@ == "audio/wav"@
            && inline_data.data@ == audio,
        _ => false,
    }
}

/// Packages an instruction and base64 WAV audio as one request payload.
pub fn build_request(prompt: String, audio_base64: String) -> (r: GeminiRequest)
    ensures
        is_request_for(r, prompt@, audio_base64@),
{
    let mut parts: Vec<Part> = Vec::new();
    parts.push(Part::Text { text: prompt });
    parts.push(
        Part::InlineData {
            inline_data: InlineData { mime_type: String::from_str("audio/wav"), data: audio_base64 },
        },
    );
    let mut contents: Vec<Content> = Vec::new();
    contents.push(Content { parts });
    GeminiRequest { contents }
}

pub open spec fn api_base() -> Seq<char> {
    "https://generativelanguage.googleapis.com/v1beta"@
}

/// The endpoint of a model, with the API key as a query parameter.
pub open spec fn url_for(model: Seq<char>, api_key: Seq<char>) -> Seq<char> {
    api_base() + "/models/"@ + model + ":generateContent?key="@ + api_key
}

/// Builds the endpoint URL that a request to `model` is posted to.
pub fn request_url(model: &str, api_key: &str) -> (r: String)
    ensures
        r@ == url_for(model@, api_key@),
{
    let mut u = String::from_str("https://generativelanguage.googleapis.com/v1beta");
    u.append("/models/");
    u.append(model);
    u.append(":generateContent?key=");
    u.append(api_key);
    u
}

pub open spec fn primary_model() -> Seq<char> {
    "gemini-2.5-flash"@
}

pub open spec fn fallback_model() -> Seq<char> {
    "gemini-2.0-flash"@
}

/// The candidate models, in the order they are tried: primary first.
pub fn candidate_models() -> (r: Vec<String>)
    ensures
        r@.len() == 2,
        r@[0]@ == primary_model(),
        r@[1]@ == fallback_model(),
{
    let mut v: Vec<String> = Vec::new();
    v.push(String::from_str("gemini-2.5-flash"));
    v.push(String::from_str("gemini-2.0-flash"));
    v
}

/// The checks and the encoding before any request: an empty API key is a
/// configuration error; no samples means nothing to transcribe (`Ok(None)`);
/// otherwise the samples are encoded as 16 kHz WAV, then base64, and packed
/// with the instruction into the request that every candidate model gets.
/// A recording whose base64 text would not fit a 32-bit `usize` is
/// refused as an encoding failure.
/// Nothing here touches the network.
pub fn prepare_transcription(api_key: &str, samples: &Vec<i16>, language_hint: &Option<String>) -> (r:
    Result<Option<GeminiRequest>, TranscribeError>)
    ensures
        api_key@.len() == 0 ==> r == Err::<Option<GeminiRequest>, TranscribeError>(
            TranscribeError::Configuration,
        ),
        api_key@.len() > 0 && samples@.len() > MAX_TRANSCRIBED_SAMPLES ==> (r matches Err(
            TranscribeError::Encoding(_),
        )),
        api_key@.len() > 0 && samples@.len() == 0 ==> r == Ok::<
            Option<GeminiRequest>,
            TranscribeError,
        >(None),
        api_key@.len() > 0 && 0 < samples@.len() <= MAX_TRANSCRIBED_SAMPLES ==> (r matches Ok(Some(req)) && is_request_for(
            req,
            prompt_for(*language_hint),
            base64_standard(wav_pcm16_mono(samples@, SAMPLE_RATE)),
        )),
{
    if api_key.is_empty() {
        return Err(TranscribeError::Configuration);
    }
    if samples.len() == 0 {
        return Ok(None);
    }
    if samples.len() > MAX_TRANSCRIBED_SAMPLES {
        return Err(TranscribeError::Encoding(String::from_str("Recording too long to send for transcription")));
    }
    let wav = match samples_to_wav_bytes(samples, SAMPLE_RATE) {
        Ok(w) => w,
        Err(m) => return Err(TranscribeError::Encoding(m)),
    };
    let audio = audio_base64(&wav);
    let prompt = build_prompt(language_hint);
    Ok(Some(build_request(prompt, audio)))
}

/// What to do next in the fallback over candidate models.
#[derive(Clone, Debug, PartialEq, Eq)]
pub enum Step {
    /// Send the request to the model at this index.
    Send(usize),
    /// A model answered with this text; try no further models.
    Done(String),
    /// Stop with this failure.
    Failed(TranscribeError),
}

/// The decision after the model at `attempt` of `n_models` gave `outcome`:
/// the first success ends the search, a failure moves on to the next model,
/// and a failure of the last model fails with that model's error.
pub open spec fn next_step(attempt: nat, n_models: nat, outcome: Result<String, RequestError>) -> Step {
    match outcome {
        Ok(t) => Step::Done(t),
        Err(e) => if attempt + 1 < n_models {
            Step::Send((attempt + 1) as usize)
        } else {
            Step::Failed(TranscribeError::AllModelsFailed(e))
        },
    }
}

/// The first step of a transcription: the primary model.
pub fn first_step() -> (r: Step)
    ensures
        r == Step::Send(0),
{
    Step::Send(0)
}

/// Decides the step after the model at `attempt` gave `outcome`.
pub fn after_attempt(attempt: usize, n_models: usize, outcome: Result<String, RequestError>) -> (r: Step)
    requires
        attempt < n_models,
    ensures
        r == next_step(attempt as nat, n_models as nat, outcome),
{
    match outcome {
        Ok(t) => Step::Done(t),
        Err(e) => if attempt + 1 < n_models {
            Step::Send(attempt + 1)
        } else {
            Step::Failed(TranscribeError::AllModelsFailed(e))
        },
    }
}

/// With a failing primary and a succeeding fallback, the primary is tried
/// first, the fallback next, and the result is the fallback's text.
pub proof fn lemma_fallback_after_primary_failure(e: RequestError, text: String)
    ensures
        next_step(0, 2, Err(e)) == Step::Send(1),
        next_step(1, 2, Ok(text)) == Step::Done(text),
{
}

/// Models are tried one at a time in their ranked order: a failure never
/// skips a model, and a success is never followed by another attempt.
pub proof fn lemma_fallback_in_order(attempt: nat, n_models: nat, outcome: Result<String, RequestError>)
    requires
        attempt < n_models,
    ensures
        outcome is Ok ==> next_step(attempt, n_models, outcome) == Step::Done(outcome->Ok_0),
        outcome is Err && attempt + 1 < n_models ==> next_step(attempt, n_models, outcome)
            == Step::Send((attempt + 1) as usize),
        outcome is Err && attempt + 1 == n_models ==> next_step(attempt, n_models, outcome)
            == Step::Failed(TranscribeError::AllModelsFailed(outcome->Err_0)),
{
}

} // verus!
