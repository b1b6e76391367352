use vstd::prelude::*;
use vstd::string::StringExecFns;

verus! {

/// The path of the status endpoint below the API's base URL.
pub const STATUS_PATH: &'static str = "/api/v1/task/status";

/// A character that may stand in an HTTP header value: a tab, or any
/// character from the space on but DEL.
pub open spec fn header_char_ok(c: char) -> bool {
    c == '\t' || (c as u32 >= 32 && c as u32 != 127)
}

/// Text that may be sent as an HTTP header value.
pub open spec fn header_text_ok(s: Seq<char>) -> bool {
    forall|i: int| 0 <= i < s.len() ==> header_char_ok(#[trigger] s[i])
}

/// Relies on reqwest::header::HeaderValue::from_str (http's HeaderValue): it
/// succeeds exactly when every byte of the text is a tab, or at least 32 and
/// not 127. Every byte of a multi-byte UTF-8 character is at least 128, so the
/// condition on bytes is the condition on characters stated here.
#[verifier::external_body]
fn header_value_accepts(s: &str) -> (r: bool)
    ensures
        r == header_text_ok(s@),
{
    reqwest::header::HeaderValue::from_str(s).is_ok()
}

/// Where the status endpoint is and the token to present to it.
pub struct APIClient {
    pub url: String,
    pub token: String,
}

/// The parts of one status request: the full URL and the value of the
/// `Token` header.
pub struct StatusRequest {
    pub url: String,
    pub token: String,
}

/// Why no request can be made.
#[derive(Debug, PartialEq, Eq, Structural)]
pub enum ClientError {
    /// The token holds a character that no header value may hold.
    InvalidToken,
}

impl APIClient {
    pub fn new(url: &str, token: &str) -> (r: APIClient)
        ensures
            r.url@ == url@,
            r.token@ == token@,
    {
        APIClient { url: url.to_owned(), token: token.to_owned() }
    }

    /// The request for the status endpoint; the same URL and header serve the
    /// state reports.
    pub fn status_request(&self) -> (r: Result<StatusRequest, ClientError>)
        ensures
            r is Ok <==> header_text_ok(self.token@),
            r matches Ok(q) ==> q.url@ == self.url@ + STATUS_PATH@ && q.token@ == self.token@,
            r matches Err(e) ==> e == ClientError::InvalidToken,
    {
        if !header_value_accepts(self.token.as_str()) {
            return Err(ClientError::InvalidToken);
        }
        let url = self.url.clone().concat(STATUS_PATH);
        Ok(StatusRequest { url, token: self.token.clone() })
    }
}

} // verus!
