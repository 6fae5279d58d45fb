//! The textual wire format: JSON responses read through serde_json.
use crate::client::DataTransformer;
use crate::error::CodecError;
use crate::movement::{MovementApiResponse, StatusCode};
use crate::text::chars_of;
use vstd::prelude::*;

verus! {

/// What the top-level object of a JSON document holds under one key.
#[derive(Clone, Debug)]
pub enum JsonMember {
    Absent,
    Text(String),
    Integer(i64),
    /// Any other value: a fraction, a boolean, null, an array, an object.
    Other,
}

pub enum JsonMemberView {
    Absent,
    Text(Seq<char>),
    Integer(int),
    Other,
}

impl View for JsonMember {
    type V = JsonMemberView;

    open spec fn view(&self) -> JsonMemberView {
        match self {
            JsonMember::Absent => JsonMemberView::Absent,
            JsonMember::Text(s) => JsonMemberView::Text(s@),
            JsonMember::Integer(i) => JsonMemberView::Integer(*i as int),
            JsonMember::Other => JsonMemberView::Other,
        }
    }
}

/// Whether `doc` is one well-formed JSON document.
pub uninterp spec fn json_parses(doc: Seq<u8>) -> bool;

/// What the top-level object of the JSON document `doc` holds under `key`;
/// `Absent` also when the document is no object.
pub uninterp spec fn json_member_of(doc: Seq<u8>, key: Seq<char>) -> JsonMemberView;

/// Relies on `serde_json::from_slice` to parse `doc` into a
/// `serde_json::Value` (failing exactly on malformed documents), on
/// `Value::get` to look `key` up in its top-level object, and on
/// `Number::as_i64` to tell integers from other numbers.
#[verifier::external_body]
fn json_member(doc: &[u8], key: &str) -> (r: Option<JsonMember>)
    ensures
        r is Some <==> json_parses(doc@),
        r matches Some(m) ==> m@ == json_member_of(doc@, key@),
{
    let value: serde_json::Value = serde_json::from_slice(doc).ok()?;
    Some(
        match value.get(key) {
            None => JsonMember::Absent,
            Some(serde_json::Value::String(s)) => JsonMember::Text(s.clone()),
            Some(serde_json::Value::Number(n)) => match n.as_i64() {
                Some(i) => JsonMember::Integer(i),
                None => JsonMember::Other,
            },
            Some(_) => JsonMember::Other,
        },
    )
}

/// Whether two texts are equal.
pub fn same_text(a: &str, b: &str) -> (r: bool)
    ensures
        r == (a@ == b@),
{
    let x = chars_of(a);
    let y = chars_of(b);
    if x.len() != y.len() {
        return false;
    }
    let mut i: usize = 0;
    while i < x.len()
        invariant
            x@ == a@,
            y@ == b@,
            x@.len() == y@.len(),
            i <= x@.len(),
            forall|k: int| 0 <= k < i ==> x@[k] == y@[k],
        decreases x@.len() - i,
    {
        if x[i] != y[i] {
            assert(a@[i as int] != b@[i as int]);
            return false;
        }
        i = i + 1;
    }
    assert(x@ =~= y@);
    true
}

/// The status a status field stands for: the texts `SUCCESS` and `FAILURE`,
/// or the integers `0` and `1`. Any other text or integer is out of range.
pub open spec fn status_of(m: JsonMemberView) -> Result<StatusCode, CodecError> {
    match m {
        JsonMemberView::Absent => Err(CodecError::MissingStatus),
        JsonMemberView::Text(t) => if t == "SUCCESS"@ {
            Ok(StatusCode::Success)
        } else if t == "FAILURE"@ {
            Ok(StatusCode::Error)
        } else {
            Err(CodecError::UnknownStatus)
        },
        JsonMemberView::Integer(i) => if i == 0 {
            Ok(StatusCode::Success)
        } else if i == 1 {
            Ok(StatusCode::Error)
        } else {
            Err(CodecError::UnknownStatus)
        },
        JsonMemberView::Other => Err(CodecError::StatusType),
    }
}

/// The message a message field stands for: none when absent, its text when
/// it is text.
pub open spec fn message_of(m: JsonMemberView) -> Result<Option<Seq<char>>, CodecError> {
    match m {
        JsonMemberView::Absent => Ok(None),
        JsonMemberView::Text(t) => Ok(Some(t)),
        _ => Err(CodecError::MessageType),
    }
}

/// A status field holding any text or integer other than the defined ones
/// is a codec error; no status is ever assumed.
pub proof fn lemma_json_status_never_defaulted(status: JsonMemberView, result: JsonMemberView, message: JsonMemberView)
    ensures
        status_field(status, result) matches JsonMemberView::Integer(i) && i != 0 && i != 1
            ==> response_of(status, result, message) == Err::<
            (StatusCode, Option<Seq<char>>),
            CodecError,
        >(CodecError::UnknownStatus),
        status_field(status, result) matches JsonMemberView::Text(t) && t != "SUCCESS"@ && t
            != "FAILURE"@ ==> response_of(status, result, message) == Err::<
            (StatusCode, Option<Seq<char>>),
            CodecError,
        >(CodecError::UnknownStatus),
{
}

/// Reads the status field.
pub fn status_from_member(m: &JsonMember) -> (r: Result<StatusCode, CodecError>)
    ensures
        r == status_of(m@),
{
    match m {
        JsonMember::Absent => Err(CodecError::MissingStatus),
        JsonMember::Text(t) => {
            if same_text(t.as_str(), "SUCCESS") {
                Ok(StatusCode::Success)
            } else if same_text(t.as_str(), "FAILURE") {
                Ok(StatusCode::Error)
            } else {
                Err(CodecError::UnknownStatus)
            }
        },
        JsonMember::Integer(i) => {
            if *i == 0 {
                Ok(StatusCode::Success)
            } else if *i == 1 {
                Ok(StatusCode::Error)
            } else {
                Err(CodecError::UnknownStatus)
            }
        },
        JsonMember::Other => Err(CodecError::StatusType),
    }
}

/// Reads the message field.
pub fn message_from_member(m: JsonMember) -> (r: Result<Option<String>, CodecError>)
    ensures
        match message_of(m@) {
            Ok(None) => r matches Ok(None),
            Ok(Some(t)) => r matches Ok(Some(s)) && s@ == t,
            Err(e) => r == Err::<Option<String>, CodecError>(e),
        },
{
    match m {
        JsonMember::Absent => Ok(None),
        JsonMember::Text(t) => Ok(Some(t)),
        _ => Err(CodecError::MessageType),
    }
}

/// The field that carries the status: `status`, or `result` where a
/// document has no `status`.
pub open spec fn status_field(status: JsonMemberView, result: JsonMemberView) -> JsonMemberView {
    match status {
        JsonMemberView::Absent => result,
        _ => status,
    }
}

/// A response, from the members `status`, `result` and `message` of a
/// document: the status is read first, then the message.
pub open spec fn response_of(
    status: JsonMemberView,
    result: JsonMemberView,
    message: JsonMemberView,
) -> Result<(StatusCode, Option<Seq<char>>), CodecError> {
    match status_of(status_field(status, result)) {
        Err(e) => Err(e),
        Ok(s) => match message_of(message) {
            Err(e) => Err(e),
            Ok(m) => Ok((s, m)),
        },
    }
}

pub open spec fn message_view(m: Option<String>) -> Option<Seq<char>> {
    match m {
        Some(s) => Some(s@),
        None => None,
    }
}

/// Builds a response from the members of a document.
pub fn response_from_members(status: JsonMember, result: JsonMember, message: JsonMember) -> (r:
    Result<MovementApiResponse, CodecError>)
    ensures
        match response_of(status@, result@, message@) {
            Ok((s, m)) => r matches Ok(resp) && resp.status == s && message_view(resp.message)
                == m,
            Err(e) => r matches Err(e2) && e2 == e,
        },
{
    let field = match status {
        JsonMember::Absent => result,
        _ => status,
    };
    let s = match status_from_member(&field) {
        Err(e) => return Err(e),
        Ok(s) => s,
    };
    match message_from_member(message) {
        Err(e) => Err(e),
        Ok(m) => Ok(MovementApiResponse { status: s, message: m }),
    }
}

/// Reads controller responses written as JSON objects.
#[derive(Clone, Copy, Debug, Default)]
pub struct JsonResponseParser;

impl JsonResponseParser {
    /// Reads one response; malformed JSON is a codec error, and so is a
    /// status that the protocol does not define.
    pub fn parse_response(&self, input: &[u8]) -> (r: Result<MovementApiResponse, CodecError>)
        ensures
            !json_parses(input@) ==> r == Err::<MovementApiResponse, CodecError>(
                CodecError::Malformed,
            ),
            json_parses(input@) ==> match response_of(
                json_member_of(input@, "status"@),
                json_member_of(input@, "result"@),
                json_member_of(input@, "message"@),
            ) {
                Ok((s, m)) => r matches Ok(resp) && resp.status == s && message_view(resp.message)
                    == m,
                Err(e) => r matches Err(e2) && e2 == e,
            },
    {
        let status = match json_member(input, "status") {
            None => return Err(CodecError::Malformed),
            Some(m) => m,
        };
        let result = match json_member(input, "result") {
            None => return Err(CodecError::Malformed),
            Some(m) => m,
        };
        let message = match json_member(input, "message") {
            None => return Err(CodecError::Malformed),
            Some(m) => m,
        };
        response_from_members(status, result, message)
    }
}

/// The outcome of reading a JSON response: the error, or `None` when it
/// reads as `(status, message)` through `json_response_of`.
pub open spec fn json_response_of(input: Seq<u8>) -> Result<(StatusCode, Option<Seq<char>>), CodecError> {
    if !json_parses(input) {
        Err(CodecError::Malformed)
    } else {
        response_of(
            json_member_of(input, "status"@),
            json_member_of(input, "result"@),
            json_member_of(input, "message"@),
        )
    }
}

impl DataTransformer<Vec<u8>, MovementApiResponse, CodecError> for JsonResponseParser {
    open spec fn failure_of(&self, input: Vec<u8>) -> Option<CodecError> {
        match json_response_of(input@) {
            Err(e) => Some(e),
            Ok(_) => None,
        }
    }

    open spec fn gives(&self, input: Vec<u8>, output: MovementApiResponse) -> bool {
        json_response_of(input@) matches Ok((s, m)) && output.status == s && message_view(
            output.message,
        ) == m
    }

    fn transform(&self, input: &Vec<u8>) -> (r: Result<MovementApiResponse, CodecError>) {
        self.parse_response(input.as_slice())
    }
}

} // verus!
