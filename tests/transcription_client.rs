use voice_history::codec::{audio_base64, samples_to_wav_bytes};
use voice_history::protocol::{
    classify_response, extract_text, Candidate, CandidateContent, GeminiError, GeminiResponse, Part,
    RequestError, ResponsePart,
};
use voice_history::transcription::{
    after_attempt, build_prompt, build_request, candidate_models, first_step, prepare_transcription,
    request_url, Step, TranscribeError, SAMPLE_RATE,
};

fn response_with(text: Option<&str>) -> GeminiResponse {
    GeminiResponse {
        candidates: Some(vec![Candidate {
            content: Some(CandidateContent {
                parts: Some(vec![ResponsePart { text: text.map(|t| t.to_string()) }]),
            }),
        }]),
        error: None,
    }
}

#[test]
fn encoded_stream_decodes_to_same_sample_count() {
    let samples: Vec<i16> = vec![0, 1000, -1000, 32767, -32768, 5];
    let bytes = samples_to_wav_bytes(&samples, SAMPLE_RATE).unwrap();
    assert_eq!(bytes.len(), 44 + 2 * samples.len());
    let mut reader = hound::WavReader::new(std::io::Cursor::new(bytes)).unwrap();
    assert_eq!(reader.len() as usize, samples.len());
    assert_eq!(reader.spec().sample_rate, 16000);
    assert_eq!(reader.spec().channels, 1);
    let back: Vec<i16> = reader.samples::<i16>().map(|s| s.unwrap()).collect();
    assert_eq!(back, samples);
}

#[test]
fn empty_samples_encode_to_header_only() {
    let bytes = samples_to_wav_bytes(&vec![], SAMPLE_RATE).unwrap();
    assert_eq!(bytes.len(), 44);
    assert_eq!(&bytes[0..4], b"RIFF");
    let reader = hound::WavReader::new(std::io::Cursor::new(bytes)).unwrap();
    assert_eq!(reader.len(), 0);
    assert_eq!(reader.spec().bits_per_sample, 16);
}

#[test]
fn header_and_samples_are_laid_out_little_endian() {
    let bytes = samples_to_wav_bytes(&vec![1, -2], 8000).unwrap();
    let expected: Vec<u8> = vec![
        b'R', b'I', b'F', b'F', 40, 0, 0, 0, b'W', b'A', b'V', b'E', b'f', b'm', b't', b' ', 16, 0, 0, 0, 1, 0,
        1, 0, 0x40, 0x1f, 0, 0, 0x80, 0x3e, 0, 0, 2, 0, 16, 0, b'd', b'a', b't', b'a', 4, 0, 0, 0, 1, 0,
        0xfe, 0xff,
    ];
    assert_eq!(bytes, expected);
}

#[test]
fn base64_of_known_bytes() {
    assert_eq!(audio_base64(&vec![0u8, 1, 2]), "AAEC");
    assert_eq!(audio_base64(&b"Ma".to_vec()), "TWE=");
    assert_eq!(audio_base64(&vec![]), "");
}

#[test]
fn missing_api_key_is_a_configuration_error() {
    assert_eq!(prepare_transcription("", &vec![1, 2, 3], &None), Err(TranscribeError::Configuration));
    assert_eq!(prepare_transcription("", &vec![], &None), Err(TranscribeError::Configuration));
}

#[test]
fn no_samples_means_nothing_to_send() {
    assert_eq!(prepare_transcription("key", &vec![], &Some("en".to_string())), Ok(None));
}

#[test]
fn prepared_request_has_prompt_then_audio() {
    let req = prepare_transcription("key", &vec![1, 2, 3], &Some("German".to_string())).unwrap().unwrap();
    assert_eq!(req.contents.len(), 1);
    let parts = &req.contents[0].parts;
    assert_eq!(parts.len(), 2);
    match &parts[0] {
        Part::Text { text } => assert_eq!(
            text,
            "Transcribe this audio. The language is German. Return only the transcribed text, nothing else."
        ),
        _ => panic!("first part is not text"),
    }
    match &parts[1] {
        Part::InlineData { inline_data } => {
            assert_eq!(inline_data.mime_type, "audio/wav");
            assert!(inline_data.data.starts_with("UklGR"));
            assert_eq!(inline_data.data.len(), 4 * ((44 + 6 + 2) / 3));
        }
        _ => panic!("second part is not audio"),
    }
}

#[test]
fn prompt_for_hints() {
    let plain = "Transcribe this audio. Return only the transcribed text, nothing else.";
    assert_eq!(build_prompt(&None), plain);
    assert_eq!(build_prompt(&Some("auto".to_string())), plain);
    assert_eq!(
        build_prompt(&Some("fr".to_string())),
        "Transcribe this audio. The language is fr. Return only the transcribed text, nothing else."
    );
    let req = build_request("p".to_string(), "QQ==".to_string());
    assert_eq!(req.contents[0].parts.len(), 2);
}

#[test]
fn url_carries_model_and_key() {
    assert_eq!(
        request_url("gemini-2.5-flash", "abc"),
        "https://generativelanguage.googleapis.com/v1beta/models/gemini-2.5-flash:generateContent?key=abc"
    );
    let models = candidate_models();
    assert_eq!(models, vec!["gemini-2.5-flash".to_string(), "gemini-2.0-flash".to_string()]);
}

#[test]
fn extraction_trims_text() {
    assert_eq!(extract_text(&response_with(Some("  hello world \n"))), Ok("hello world".to_string()));
}

#[test]
fn extraction_is_total_over_missing_levels() {
    let no_candidates = GeminiResponse { candidates: None, error: None };
    let empty_candidates = GeminiResponse { candidates: Some(vec![]), error: None };
    let no_content = GeminiResponse { candidates: Some(vec![Candidate { content: None }]), error: None };
    let no_parts = GeminiResponse {
        candidates: Some(vec![Candidate { content: Some(CandidateContent { parts: None }) }]),
        error: None,
    };
    let no_text = response_with(None);
    for r in [no_candidates, empty_candidates, no_content, no_parts, no_text] {
        assert_eq!(extract_text(&r), Ok(String::new()));
    }
}

#[test]
fn provider_error_takes_precedence() {
    let mut r = response_with(Some("text"));
    r.error = Some(GeminiError { message: "quota".to_string(), code: Some(429) });
    assert_eq!(
        extract_text(&r),
        Err(RequestError::Provider { message: "quota".to_string(), code: Some(429) })
    );
}

#[test]
fn classify_status_and_malformed_bodies() {
    assert_eq!(
        classify_response(500, "oops".to_string(), Ok(response_with(Some("x")))),
        Err(RequestError::Status { status: 500, body: "oops".to_string() })
    );
    assert_eq!(
        classify_response(200, "{".to_string(), Err("EOF while parsing".to_string())),
        Err(RequestError::Malformed { error: "EOF while parsing".to_string(), body: "{".to_string() })
    );
    assert_eq!(classify_response(200, "b".to_string(), Ok(response_with(Some(" ok ")))), Ok("ok".to_string()));
}

#[test]
fn fallback_tries_primary_then_fallback() {
    assert_eq!(first_step(), Step::Send(0));
    let e = RequestError::Transport("down".to_string());
    assert_eq!(after_attempt(0, 2, Err(e.clone())), Step::Send(1));
    assert_eq!(after_attempt(1, 2, Ok("from fallback".to_string())), Step::Done("from fallback".to_string()));
    assert_eq!(after_attempt(0, 2, Ok("primary".to_string())), Step::Done("primary".to_string()));
}

#[test]
fn fallback_reports_last_failure() {
    let last = RequestError::Status { status: 503, body: "busy".to_string() };
    assert_eq!(
        after_attempt(1, 2, Err(last.clone())),
        Step::Failed(TranscribeError::AllModelsFailed(last))
    );
}
