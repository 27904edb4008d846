//! The batch transcription service, as far as it is rules and not
//! transport: when a recording is cut into chunks and where, and how the
//! service's answer reads.

use vstd::prelude::*;
use crate::text::{decimal, decimal_text};
use crate::json::{field_of, json_document, Json, JsonValue};
use crate::protocol::text_of;

verus! {

/// The service's answer to a transcription.
#[derive(Debug, PartialEq)]
pub struct GroqTranscriptionResponse {
    pub text: String,
}

/// The service's answer where it refuses.
#[derive(Debug, PartialEq)]
pub struct GroqError {
    pub error: GroqErrorDetail,
}

/// What the service says of a refusal.
#[derive(Debug, PartialEq)]
pub struct GroqErrorDetail {
    pub message: String,
    pub kind: String,
    pub code: Option<String>,
}

/// Why a transcription gave no text.
#[derive(Debug, PartialEq)]
pub enum TranscribeError {
    /// The service refused, and said why.
    Api(String),
    /// The service refused with a body that is no error report.
    Http { status: String, body: String },
    /// The service accepted, but its body is not JSON.
    InvalidResponse,
}

impl TranscribeError {
    /// The text shown for the error.
    pub fn message(&self) -> (text: String)
        ensures
            text@ == match self {
                TranscribeError::Api(m) => "Groq API error: "@ + m@,
                TranscribeError::Http { status, body } => "HTTP error "@ + status@ + ": "@ + body@,
                TranscribeError::InvalidResponse => "Invalid response from the transcription service"@,
            },
    {
        match self {
            TranscribeError::Api(m) => "Groq API error: ".to_owned().concat(m.as_str()),
            TranscribeError::Http { status, body } => "HTTP error ".to_owned().concat(status.as_str()).concat(
                ": ",
            ).concat(body.as_str()),
            TranscribeError::InvalidResponse => "Invalid response from the transcription service".to_owned(),
        }
    }
}

/// Where the service lives.
pub const GROQ_BASE_URL: &'static str = "https://api.groq.com/openai/v1";

/// The model asked for unless told otherwise.
pub const DEFAULT_TRANSCRIPTION_MODEL: &'static str = "whisper-large-v3-turbo";

/// One mebibyte.
pub const MIB: usize = 1048576;

/// The key and the address the requests go to.
#[derive(Debug, PartialEq)]
pub struct GroqClient {
    pub api_key: String,
    pub base_url: String,
}

/// Whether a recording of `len` bytes is cut into chunks: above 25 MiB, or
/// above five minutes at an estimated two MiB a minute.
pub open spec fn chunked(len: nat) -> bool {
    len > 25 * MIB || len > 2 * 5 * MIB
}

/// The length of one chunk: a sixth of the recording.
pub open spec fn chunk_len(len: nat) -> nat {
    len / 6
}

/// How far one chunk starts behind the one before: a chunk less its
/// overlap, a twelfth of a chunk.
pub open spec fn chunk_stride(len: nat) -> nat {
    (chunk_len(len) - chunk_len(len) / 12) as nat
}

/// The chunks of a recording of `len` bytes from `pos` on, each as where it
/// begins and ends. The last one ends with the recording.
pub open spec fn chunks_from(len: nat, pos: nat) -> Seq<(usize, usize)>
    decreases len - pos,
{
    if pos >= len || chunk_stride(len) == 0 {
        Seq::empty()
    } else if len - pos <= chunk_len(len) {
        seq![(pos as usize, len as usize)]
    } else {
        seq![(pos as usize, (pos + chunk_len(len)) as usize)] + chunks_from(len, pos + chunk_stride(len))
    }
}

/// The texts joined by single spaces, from item `from` on.
pub open spec fn joined_from(parts: Seq<String>, from: int) -> Seq<char>
    decreases parts.len() - from,
{
    if from < 0 || from >= parts.len() {
        Seq::empty()
    } else if from == parts.len() - 1 {
        parts[from]@
    } else {
        parts[from]@ + " "@ + joined_from(parts, from + 1)
    }
}

/// The value of a [`GroqError`].
pub struct ReportModel {
    pub message: Seq<char>,
    pub kind: Seq<char>,
    pub code: Option<Seq<char>>,
}

impl View for GroqError {
    type V = ReportModel;

    open spec fn view(&self) -> ReportModel {
        ReportModel {
            message: self.error.message@,
            kind: self.error.kind@,
            code: match self.error.code {
                Some(c) => Some(c@),
                None => None,
            },
        }
    }
}

/// The error report that a document is: an object whose `error` has a text
/// `message`, a text `type`, and a `code` that is a text, null or missing.
pub open spec fn error_report(doc: JsonValue) -> Option<ReportModel> {
    let error = doc.field("error"@);
    match (text_of(field_of(error, "message"@)), text_of(field_of(error, "type"@))) {
        (Some(message), Some(kind)) => match field_of(error, "code"@) {
            None => Some(ReportModel { message, kind, code: None }),
            Some(JsonValue::Null) => Some(ReportModel { message, kind, code: None }),
            Some(JsonValue::Text(c)) => Some(ReportModel { message, kind, code: Some(c) }),
            Some(_) => None,
        },
        _ => None,
    }
}

/// The message of the error report that a body holds, where it holds one.
pub open spec fn reported_error(doc: Option<JsonValue>) -> Option<Seq<char>> {
    match doc {
        Some(d) => match error_report(d) {
            Some(r) => Some(r.message),
            None => None,
        },
        None => None,
    }
}

/// The transcript in an accepted document: its `text` where that is a text,
/// else the empty text.
pub open spec fn transcript_of(doc: JsonValue) -> Seq<char> {
    match text_of(doc.field("text"@)) {
        Some(t) => t,
        None => Seq::empty(),
    }
}

/// The value of an optional document.
pub open spec fn doc_view(doc: Option<Json>) -> Option<JsonValue> {
    match doc {
        Some(d) => Some(d@),
        None => None,
    }
}

/// What an answer means. `doc` is the body read as JSON, `None` where it is
/// not JSON.
pub open spec fn answer_of(success: bool, status: Seq<char>, body: Seq<char>, doc: Option<JsonValue>) -> Result<
    Seq<char>,
    ErrorModel,
> {
    if success {
        match doc {
            Some(d) => Ok(transcript_of(d)),
            None => Err(ErrorModel::InvalidResponse),
        }
    } else {
        match reported_error(doc) {
            Some(m) => Err(ErrorModel::Api(m)),
            None => Err(ErrorModel::Http { status, body }),
        }
    }
}

/// The value of a [`TranscribeError`].
pub enum ErrorModel {
    Api(Seq<char>),
    Http { status: Seq<char>, body: Seq<char> },
    InvalidResponse,
}

impl View for TranscribeError {
    type V = ErrorModel;

    open spec fn view(&self) -> ErrorModel {
        match self {
            TranscribeError::Api(m) => ErrorModel::Api(m@),
            TranscribeError::Http { status, body } => ErrorModel::Http { status: status@, body: body@ },
            TranscribeError::InvalidResponse => ErrorModel::InvalidResponse,
        }
    }
}

/// The value of an answer.
pub open spec fn answer_view(answer: Result<String, TranscribeError>) -> Result<Seq<char>, ErrorModel> {
    match answer {
        Ok(t) => Ok(t@),
        Err(e) => Err(e@),
    }
}

impl GroqTranscriptionResponse {
    /// Reads an accepted document.
    pub fn from_document(doc: &Json) -> (response: GroqTranscriptionResponse)
        ensures
            response.text@ == transcript_of(doc@),
    {
        let text = match doc.get("text") {
            Some(t) => match t.as_str() {
                Some(s) => s.to_owned(),
                None => String::new(),
            },
            None => String::new(),
        };
        GroqTranscriptionResponse { text }
    }
}

impl GroqError {
    /// Reads an error report; `None` where the document is none.
    pub fn from_document(doc: &Json) -> (report: Option<GroqError>)
        ensures
            match report {
                Some(r) => error_report(doc@) == Some(r@),
                None => error_report(doc@) is None,
            },
    {
        let error = doc.get("error");
        let message = match error {
            Some(e) => match e.get("message") {
                Some(m) => m.as_str(),
                None => None,
            },
            None => None,
        };
        let kind = match error {
            Some(e) => match e.get("type") {
                Some(k) => k.as_str(),
                None => None,
            },
            None => None,
        };
        let code = match error {
            Some(e) => e.get("code"),
            None => None,
        };
        match (message, kind) {
            (Some(m), Some(k)) => {
                let code = match code {
                    None => None,
                    Some(Json::Null) => None,
                    Some(Json::Text(c)) => Some(c.clone()),
                    Some(_) => {
                        return None;
                    },
                };
                Some(GroqError { error: GroqErrorDetail { message: m.to_owned(), kind: k.to_owned(), code } })
            },
            _ => None,
        }
    }
}

impl GroqClient {
    /// A client for the public service.
    pub fn new(api_key: String) -> (client: GroqClient)
        ensures
            client.api_key == api_key,
            client.base_url@ == GROQ_BASE_URL@,
    {
        GroqClient { api_key, base_url: GROQ_BASE_URL.to_owned() }
    }

    /// Whether a key is set.
    pub fn has_api_key(&self) -> (has: bool)
        ensures
            has == (self.api_key@.len() > 0),
    {
        !self.api_key.as_str().is_empty()
    }

    /// The address that transcriptions are posted to.
    pub fn transcriptions_url(&self) -> (url: String)
        ensures
            url@ == self.base_url@ + "/audio/transcriptions"@,
    {
        self.base_url.clone().concat("/audio/transcriptions")
    }

    /// The value of the authorization header.
    pub fn authorization(&self) -> (value: String)
        ensures
            value@ == "Bearer "@ + self.api_key@,
    {
        "Bearer ".to_owned().concat(self.api_key.as_str())
    }

    /// Whether a recording of `len` bytes is sent in chunks.
    pub fn needs_chunking(len: usize) -> (chunks: bool)
        ensures
            chunks == chunked(len as nat),
    {
        len > 10 * MIB
    }

    /// Where the chunks of a recording of `len` bytes begin and end, in
    /// order. Each chunk is a sixth of the recording and overlaps the one
    /// before by a twelfth of a chunk.
    pub fn chunk_ranges(len: usize) -> (ranges: Vec<(usize, usize)>)
        requires
            len >= 6,
        ensures
            ranges@ == chunks_from(len as nat, 0),
            forall|i: int| 0 <= i < ranges@.len() ==> (#[trigger] ranges@[i]).0 < ranges@[i].1 <= len,
            ranges@.len() > 0,
            ranges@[0].0 == 0,
            ranges@.last().1 == len,
            forall|i: int| 0 < i < ranges@.len() ==> (#[trigger] ranges@[i]).0 <= ranges@[i - 1].1,
    {
        let chunk_size = len / 6;
        let overlap_size = chunk_size / 12;
        let stride = chunk_size - overlap_size;
        let mut ranges: Vec<(usize, usize)> = Vec::new();
        let mut pos: usize = 0;
        let mut done = false;
        while !done
            invariant
                len >= 6,
                chunk_size == chunk_len(len as nat),
                stride == chunk_stride(len as nat),
                0 < stride <= chunk_size,
                pos <= len,
                done ==> ranges@.len() > 0 && ranges@.last().1 == len,
                !done ==> pos < len,
                !done ==> ranges@ + chunks_from(len as nat, pos as nat) == chunks_from(len as nat, 0),
                done ==> ranges@ == chunks_from(len as nat, 0),
                forall|i: int| 0 <= i < ranges@.len() ==> (#[trigger] ranges@[i]).0 < ranges@[i].1 <= len,
                ranges@.len() > 0 ==> ranges@[0].0 == 0,
                ranges@.len() == 0 ==> pos == 0,
                !done && ranges@.len() > 0 ==> pos <= ranges@.last().1,
                forall|i: int| 0 < i < ranges@.len() ==> (#[trigger] ranges@[i]).0 <= ranges@[i - 1].1,
            decreases len - pos + (if done { 0int } else { 1int }),
        {
            let ghost before = ranges@;
            let ghost rest = chunks_from(len as nat, pos as nat);
            if len - pos <= chunk_size {
                ranges.push((pos, len));
                done = true;
                assert(rest =~= seq![(pos, len)]);
                assert(ranges@ =~= before + rest);
            } else {
                ranges.push((pos, pos + chunk_size));
                assert(rest =~= seq![(pos, (pos + chunk_size) as usize)] + chunks_from(
                    len as nat,
                    (pos + stride) as nat,
                ));
                pos = pos + stride;
                assert(ranges@ + chunks_from(len as nat, pos as nat) =~= before + rest);
            }
        }
        ranges
    }

    /// The file name under which chunk `index` of a recording is sent.
    pub fn chunk_filename(index: usize, filename: &str) -> (name: String)
        ensures
            name@ == "chunk_"@ + decimal(index as nat) + "_"@ + filename@,
    {
        "chunk_".to_owned().concat(decimal_text(index as u64).as_str()).concat("_").concat(filename)
    }

    /// Reads the service's answer. `success` is whether the status was a
    /// success, `status` its text. An accepted body gives its transcript; a
    /// refusal gives the service's message where the body is an error
    /// report, and the status with the body where it is not.
    pub fn read_response(success: bool, status: &str, body: &str) -> (answer: Result<String, TranscribeError>)
        ensures
            answer_view(answer) == answer_of(success, status@, body@, json_document(body@)),
    {
        Self::interpret_response(success, status, body, Json::parse(body))
    }

    /// Reads the service's answer once its body has been read as JSON:
    /// `doc` is the document, `None` where the body is not JSON.
    pub fn interpret_response(success: bool, status: &str, body: &str, doc: Option<Json>) -> (answer: Result<
        String,
        TranscribeError,
    >)
        ensures
            answer_view(answer) == answer_of(success, status@, body@, doc_view(doc)),
    {
        if success {
            match doc {
                Some(d) => Ok(GroqTranscriptionResponse::from_document(&d).text),
                None => Err(TranscribeError::InvalidResponse),
            }
        } else {
            let report = match &doc {
                Some(d) => GroqError::from_document(d),
                None => None,
            };
            match report {
                Some(r) => Err(TranscribeError::Api(r.error.message)),
                None => Err(TranscribeError::Http { status: status.to_owned(), body: body.to_owned() }),
            }
        }
    }

    /// Joins the transcripts of the chunks that succeeded with single
    /// spaces.
    pub fn join_parts(parts: &Vec<String>) -> (combined: String)
        ensures
            combined@ == joined_from(parts@, 0),
    {
        let mut combined = String::new();
        let n = parts.len();
        let mut i: usize = n;
        while i > 0
            invariant
                i <= n,
                n == parts@.len(),
                combined@ == joined_from(parts@, i as int),
            decreases i,
        {
            i -= 1;
            let mut next = parts[i].clone();
            if i + 1 < n {
                next = next.concat(" ").concat(combined.as_str());
            }
            combined = next;
        }
        combined
    }
}

} // verus!
