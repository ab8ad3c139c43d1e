use vstd::prelude::*;
use vstd::string::StringExecFns;

verus! {

/// Why an exchange with the service gave no body.
#[derive(Debug, Clone, Copy, PartialEq, Eq, Structural)]
pub enum RequestError {
    /// The request did not reach the service, or no answer came back.
    Transport,
    /// The service answered with a status outside the success range.
    Status,
    /// The status was a success, but the body could not be read as text.
    Body,
}

impl RequestError {
    /// The text of the error.
    pub open spec fn text(self) -> Seq<char> {
        match self {
            RequestError::Transport => "Request error"@,
            RequestError::Status => "Request failed"@,
            RequestError::Body => "Failed to read response text"@,
        }
    }

    /// The text of the error.
    pub fn message(&self) -> (res: &'static str)
        ensures
            res@ == self.text(),
    {
        match self {
            RequestError::Transport => "Request error",
            RequestError::Status => "Request failed",
            RequestError::Body => "Failed to read response text",
        }
    }

    /// The text of the error, as an owned string.
    pub fn to_string(&self) -> (res: String)
        ensures
            res@ == self.text(),
    {
        String::from_str(self.message())
    }
}

/// The transport could not complete the exchange.
#[derive(Debug, Clone, Copy, PartialEq, Eq, Structural)]
pub struct TransportFailure;

/// What came back from the service: the status code, and the body as text
/// where it was read. `None` stands for a body that was not read, or could
/// not be.
#[derive(Debug)]
pub struct HttpReply {
    pub status: u16,
    pub body: Option<String>,
}

/// The value of the `Authorization` header that carries a key: the word
/// `Bearer`, a space, and the key as it is.
pub open spec fn bearer(api_key: Seq<char>) -> Seq<char> {
    "Bearer "@ + api_key
}

/// The value of the `Authorization` header for a key.
pub fn authorization(api_key: &str) -> (res: String)
    ensures
        res@ == bearer(api_key@),
{
    let mut value = String::from_str("Bearer ");
    value.append(api_key);
    value
}

/// The content type that every request announces.
pub fn content_type() -> (res: &'static str)
    ensures
        res@ == "application/json"@,
{
    "application/json"
}

/// The status codes that report a success.
pub open spec fn success_status(status: u16) -> bool {
    200 <= status < 300
}

/// Whether a status code reports a success, so that the body is worth
/// reading.
pub fn is_success(status: u16) -> (res: bool)
    ensures
        res == success_status(status),
{
    200 <= status && status < 300
}

/// What [`process_response`] makes of the outcome of an exchange.
pub open spec fn processed(response: Result<HttpReply, TransportFailure>) -> Result<
    Seq<char>,
    RequestError,
> {
    match response {
        Err(_) => Err(RequestError::Transport),
        Ok(reply) => if !success_status(reply.status) {
            Err(RequestError::Status)
        } else {
            match reply.body {
                Some(text) => Ok(text@),
                None => Err(RequestError::Body),
            }
        },
    }
}

/// The view of a processed response.
pub open spec fn result_text(res: Result<String, RequestError>) -> Result<Seq<char>, RequestError> {
    match res {
        Ok(t) => Ok(t@),
        Err(e) => Err(e),
    }
}

/// Turns the outcome of an exchange into the text of the body, unchanged, or
/// into the error that says at which step the exchange failed: in transport,
/// by a status outside the success range (whatever the body holds), or while
/// the body was read.
pub fn process_response(response: Result<HttpReply, TransportFailure>) -> (res: Result<
    String,
    RequestError,
>)
    ensures
        result_text(res) == processed(response),
{
    match response {
        Err(_) => Err(RequestError::Transport),
        Ok(reply) => {
            if is_success(reply.status) {
                match reply.body {
                    Some(text) => Ok(text),
                    None => Err(RequestError::Body),
                }
            } else {
                Err(RequestError::Status)
            }
        },
    }
}

/// An answer with a status in the success range whose body was read gives
/// that body, unchanged.
pub proof fn lemma_success_gives_body(reply: HttpReply)
    requires
        success_status(reply.status),
        reply.body.is_some(),
    ensures
        processed(Ok(reply)) == Ok::<Seq<char>, RequestError>(reply.body.unwrap()@),
{
}

/// An answer with a status outside the success range gives the same error
/// whatever its body holds, and never the body.
pub proof fn lemma_failed_status_hides_body(reply: HttpReply)
    requires
        !success_status(reply.status),
    ensures
        processed(Ok(reply)) == Err::<Seq<char>, RequestError>(RequestError::Status),
{
}

/// The three errors have three different texts.
pub proof fn lemma_error_texts_differ(a: RequestError, b: RequestError)
    ensures
        a.text() == b.text() <==> a == b,
{
    reveal_strlit("Request error");
    reveal_strlit("Request failed");
    reveal_strlit("Failed to read response text");
    assert("Request error"@.len() == 13);
    assert("Request failed"@.len() == 14);
    assert("Failed to read response text"@.len() == 28);
}

} // verus!
