use vstd::prelude::*;

verus! {

/// One part of a request: the instruction text, or the inline audio.
#[derive(Clone, Debug, PartialEq, Eq)]
pub enum Part {
    Text { text: String },
    InlineData { inline_data: InlineData },
}

#[derive(Clone, Debug, PartialEq, Eq)]
pub struct InlineData {
    pub mime_type: String,
    pub data: String,
}

#[derive(Clone, Debug, PartialEq, Eq)]
pub struct Content {
    pub parts: Vec<Part>,
}

/// The JSON body `{contents: [{parts: [...]}]}` of a generation request.
#[derive(Clone, Debug, PartialEq, Eq)]
pub struct GeminiRequest {
    pub contents: Vec<Content>,
}

/// A response body as the provider may send it: every level is optional.
#[derive(Clone, Debug, PartialEq, Eq)]
pub struct GeminiResponse {
    pub candidates: Option<Vec<Candidate>>,
    pub error: Option<GeminiError>,
}

#[derive(Clone, Debug, PartialEq, Eq)]
pub struct Candidate {
    pub content: Option<CandidateContent>,
}

#[derive(Clone, Debug, PartialEq, Eq)]
pub struct CandidateContent {
    pub parts: Option<Vec<ResponsePart>>,
}

#[derive(Clone, Debug, PartialEq, Eq)]
pub struct ResponsePart {
    pub text: Option<String>,
}

/// An error object that the provider reports in place of a result.
#[derive(Clone, Debug, PartialEq, Eq)]
pub struct GeminiError {
    pub message: String,
    pub code: Option<i32>,
}

/// Why one request to one model gave no text.
#[derive(Clone, Debug, PartialEq, Eq)]
pub enum RequestError {
    /// The request could not be sent or its body not read.
    Transport(String),
    /// The provider answered with a status outside 200..=299.
    Status { status: u16, body: String },
    /// The body is not a response that can be parsed; the parser's message
    /// and the raw body.
    Malformed { error: String, body: String },
    /// The provider reported an error object.
    Provider { message: String, code: Option<i32> },
}

/// Whether a character has the Unicode `White_Space` property.
pub uninterp spec fn is_white_space(c: char) -> bool;

/// The text without its leading whitespace.
pub open spec fn trim_start(s: Seq<char>) -> Seq<char>
    decreases s.len(),
{
    if s.len() > 0 && is_white_space(s[0]) {
        trim_start(s.drop_first())
    } else {
        s
    }
}

/// The text without its trailing whitespace.
pub open spec fn trim_end(s: Seq<char>) -> Seq<char>
    decreases s.len(),
{
    if s.len() > 0 && is_white_space(s.last()) {
        trim_end(s.drop_last())
    } else {
        s
    }
}

/// The text with its leading and trailing whitespace removed.
pub open spec fn trimmed(s: Seq<char>) -> Seq<char> {
    trim_end(trim_start(s))
}

/// Relies on `str::trim`: the slice of the text left after removing leading
/// and trailing whitespace, whitespace being the characters with the Unicode
/// `White_Space` property (as `char::is_whitespace` tests).
#[verifier::external_body]
fn trim_text(s: &str) -> (r: String)
    ensures
        r@ == trimmed(s@),
        r@.len() > 0 ==> !is_white_space(r@[0]) && !is_white_space(r@.last()),
{
    s.trim().to_string()
}

/// The text of the first part of the first candidate's content, or empty
/// text where any of those levels is missing.
pub open spec fn first_text(r: GeminiResponse) -> Seq<char> {
    match r.candidates {
        None => Seq::empty(),
        Some(cs) => if cs@.len() == 0 {
            Seq::empty()
        } else {
            match cs@[0].content {
                None => Seq::empty(),
                Some(c) => match c.parts {
                    None => Seq::empty(),
                    Some(ps) => if ps@.len() == 0 {
                        Seq::empty()
                    } else {
                        match ps@[0].text {
                            None => Seq::empty(),
                            Some(t) => t@,
                        }
                    },
                },
            }
        },
    }
}

fn first_text_of(resp: &GeminiResponse) -> (r: &str)
    ensures
        r@ == first_text(*resp),
{
    proof {
        reveal_strlit("");
    }
    match &resp.candidates {
        None => "",
        Some(cs) => if cs.len() == 0 {
            ""
        } else {
            match &cs[0].content {
                None => "",
                Some(c) => match &c.parts {
                    None => "",
                    Some(ps) => if ps.len() == 0 {
                        ""
                    } else {
                        match &ps[0].text {
                            None => "",
                            Some(t) => t.as_str(),
                        }
                    },
                },
            }
        },
    }
}

/// Recovers the transcribed text from a parsed response. A top-level error
/// object takes precedence and becomes the failure; otherwise the first
/// candidate's first part's text, trimmed, with any missing level giving
/// empty text rather than a failure.
pub fn extract_text(resp: &GeminiResponse) -> (r: Result<String, RequestError>)
    ensures
        match resp.error {
            Some(e) => r == Err::<String, RequestError>(
                RequestError::Provider { message: e.message, code: e.code },
            ),
            None => r is Ok && r->Ok_0@ == trimmed(first_text(*resp)),
        },
        resp.error is None && first_text(*resp).len() == 0 ==> r is Ok && r->Ok_0@.len() == 0,
{
    match &resp.error {
        Some(e) => Err(RequestError::Provider { message: e.message.clone(), code: e.code }),
        None => Ok(trim_text(first_text_of(resp))),
    }
}

/// Whether an HTTP status counts as success.
pub open spec fn is_success_status(status: u16) -> bool {
    200 <= status <= 299
}

/// Judges one provider answer: a status outside 200..=299 fails with the
/// status and raw body; a body that did not parse (`parsed` is `Err`) fails
/// as malformed, with the parser's message; otherwise the text is extracted
/// from the parsed response.
pub fn classify_response(status: u16, body: String, parsed: Result<GeminiResponse, String>) -> (r: Result<
    String,
    RequestError,
>)
    ensures
        !is_success_status(status) ==> r == Err::<String, RequestError>(
            RequestError::Status { status, body },
        ),
        is_success_status(status) ==> match parsed {
            Err(error) => r == Err::<String, RequestError>(RequestError::Malformed { error, body }),
            Ok(_) => true,
        },
        is_success_status(status) && parsed is Ok ==> match parsed->Ok_0.error {
            Some(e) => r == Err::<String, RequestError>(
                RequestError::Provider { message: e.message, code: e.code },
            ),
            None => r is Ok && r->Ok_0@ == trimmed(first_text(parsed->Ok_0)),
        },
        is_success_status(status) && parsed is Ok && parsed->Ok_0.error is None && first_text(
            parsed->Ok_0,
        ).len() == 0 ==> r is Ok && r->Ok_0@.len() == 0,
{
    if status < 200 || status > 299 {
        return Err(RequestError::Status { status, body });
    }
    match parsed {
        Err(error) => Err(RequestError::Malformed { error, body }),
        Ok(resp) => extract_text(&resp),
    }
}

} // verus!
