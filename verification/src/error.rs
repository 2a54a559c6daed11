//! Error and Result module: the closed taxonomy of failure kinds, the
//! structured error value that carries an optional cause message, and the
//! structured extraction that the resource layer uses to classify failures.

use vstd::prelude::*;
use vstd::string::*;
use crate::json::{json_of, parse_json, value_as_str, value_get, Json};
use crate::text::{dec_rep, str_eq, u16_to_string};

verus! {

/// A simple type alias so as to DRY.
pub type ConnectResult<T> = Result<T, Error>;

/// Wrapper type which contains a failed request's status code and body.
#[derive(Debug)]
pub struct RequestNotSuccessful {
    /// Status code returned by the HTTP call.
    pub status: u16,
    /// Body returned by the HTTP call.
    pub body: String,
}

impl RequestNotSuccessful {
    /// Create a new unsuccessful request error.
    pub fn new(status: u16, body: String) -> (r: Self)
        ensures
            r.status == status,
            r.body == body,
    {
        Self { status, body }
    }

    /// What `render` returns: the status code and body after fixed labels.
    pub open spec fn spec_render(self) -> Seq<char> {
        "StatusCode: "@ + dec_rep(self.status as nat) + ", Body: "@ + self.body@
    }

    /// Renders the status code and body as one line of text.
    pub fn render(&self) -> (s: String)
        ensures
            s@ == self.spec_render(),
    {
        let mut s = String::from_str("StatusCode: ");
        s.append(u16_to_string(self.status).as_str());
        s.append(", Body: ");
        s.append(self.body.as_str());
        s
    }
}

/// Wrapper type which contains a service-level error recognized by the
/// resource layer: a status code together with the service's message.
#[derive(Debug)]
pub struct VaultError {
    /// Error message from the API.
    pub message: String,
    /// Status code returned by the HTTP call.
    pub status: u16,
}

impl VaultError {
    /// Create a new service-level error.
    pub fn new(status: u16, message: String) -> (r: Self)
        ensures
            r.status == status,
            r.message == message,
    {
        Self { status, message }
    }

    /// What `render` returns: the status code and message after fixed labels.
    pub open spec fn spec_render(self) -> Seq<char> {
        "StatusCode: "@ + dec_rep(self.status as nat) + ", Message: "@ + self.message@
    }

    /// Renders the status code and message as one line of text.
    pub fn render(&self) -> (s: String)
        ensures
            s@ == self.spec_render(),
    {
        let mut s = String::from_str("StatusCode: ");
        s.append(u16_to_string(self.status).as_str());
        s.append(", Message: ");
        s.append(self.message.as_str());
        s
    }
}

/// The closed set of failure kinds.
#[derive(Debug)]
pub enum Kind {
    /// The failure came from inside the library itself.
    InternalError,
    /// The bearer token cannot be carried in a header value.
    InvalidHeaderValue,
    /// The failure was due to the network transport not working properly.
    NetworkError,
    /// The operation is not implemented.
    NotImplementedError,
    /// A response body could not be decoded.
    ParsingError,
    /// Every attempt failed and the retry budget is spent.
    RetryError,
    /// The service answered with a non-success status code.
    RequestNotSuccessful(RequestNotSuccessful),
    /// A response body was not valid UTF-8.
    Utf8Error,
    /// A service-level condition recognized by the resource layer.
    VaultError(VaultError),
}

impl Kind {
    /// What `label` returns: the variant's bare name.
    pub open spec fn spec_label(self) -> Seq<char> {
        match self {
            Kind::InternalError => "InternalError"@,
            Kind::InvalidHeaderValue => "InvalidHeaderValue"@,
            Kind::NetworkError => "NetworkError"@,
            Kind::NotImplementedError => "NotImplementedError"@,
            Kind::ParsingError => "ParsingError"@,
            Kind::RetryError => "RetryError"@,
            Kind::RequestNotSuccessful(_) => "RequestNotSuccessful"@,
            Kind::Utf8Error => "Utf8Error"@,
            Kind::VaultError(_) => "VaultError"@,
        }
    }

    /// The variant's bare name, for diagnostic text.
    pub fn label(&self) -> (s: String)
        ensures
            s@ == self.spec_label(),
    {
        match self {
            Kind::InternalError => String::from_str("InternalError"),
            Kind::InvalidHeaderValue => String::from_str("InvalidHeaderValue"),
            Kind::NetworkError => String::from_str("NetworkError"),
            Kind::NotImplementedError => String::from_str("NotImplementedError"),
            Kind::ParsingError => String::from_str("ParsingError"),
            Kind::RetryError => String::from_str("RetryError"),
            Kind::RequestNotSuccessful(_) => String::from_str("RequestNotSuccessful"),
            Kind::Utf8Error => String::from_str("Utf8Error"),
            Kind::VaultError(_) => String::from_str("VaultError"),
        }
    }
}

/// A structured error: a kind, optionally enriched once with a cause message.
#[derive(Debug)]
pub struct Error {
    /// Which failure this is.
    pub kind: Kind,
    /// The underlying cause's message, when one was attached.
    pub cause: Option<String>,
}

impl Error {
    /// Create an error of the given kind, with no cause attached.
    pub fn new(kind: Kind) -> (r: Error)
        ensures
            r.kind == kind,
            r.cause is None,
    {
        Error { kind, cause: None }
    }

    /// Attach a cause message; the one enrichment an error receives.
    pub fn with(self, cause: String) -> (r: Error)
        ensures
            r.kind == self.kind,
            r.cause == Some(cause),
    {
        Error { kind: self.kind, cause: Some(cause) }
    }

    /// A network failure wrapping the transport's message.
    pub fn new_network_error(cause: String) -> (r: Error)
        ensures
            r.kind is NetworkError,
            r.cause == Some(cause),
    {
        Error::new(Kind::NetworkError).with(cause)
    }

    /// A decode failure wrapping the decoder's message.
    pub fn new_parsing_error(cause: String) -> (r: Error)
        ensures
            r.kind is ParsingError,
            r.cause == Some(cause),
    {
        Error::new(Kind::ParsingError).with(cause)
    }

    /// Retries exhausted, wrapping the last transport failure's message.
    pub fn new_retry_error(cause: String) -> (r: Error)
        ensures
            r.kind is RetryError,
            r.cause == Some(cause),
    {
        Error::new(Kind::RetryError).with(cause)
    }

    /// A service-level error recognized by the resource layer.
    pub fn new_vault_error(err: VaultError) -> (r: Error)
        ensures
            r.kind == Kind::VaultError(err),
            r.cause is None,
    {
        Error::new(Kind::VaultError(err))
    }

    /// A failure of the library itself.
    pub fn new_internal_error() -> (r: Error)
        ensures
            r.kind is InternalError,
            r.cause is None,
    {
        Error::new(Kind::InternalError)
    }

    /// What `message` returns: the fixed label of the kind, with the status
    /// and body or message written out for the kinds that carry them.
    pub open spec fn spec_description(self) -> Seq<char> {
        match self.kind {
            Kind::InternalError => "internal error"@,
            Kind::InvalidHeaderValue => "invalid header value"@,
            Kind::NetworkError => "network error"@,
            Kind::NotImplementedError => "not implemented error"@,
            Kind::ParsingError => "parsing error"@,
            Kind::RetryError => "retry error"@,
            Kind::RequestNotSuccessful(err) => "client returned an unsuccessful HTTP status code: "@
                + err.spec_render(),
            Kind::Utf8Error => "parsing bytes experienced a UTF8 error"@,
            Kind::VaultError(err) => "vault error: "@ + err.spec_render(),
        }
    }

    /// What `render` returns: the description, then the cause's message
    /// after a separator when a cause is attached.
    pub open spec fn spec_render(self) -> Seq<char> {
        match self.cause {
            Some(cause) => self.spec_description() + ": "@ + cause@,
            None => self.spec_description(),
        }
    }

    /// The error's standalone message, without the message from the cause.
    pub fn message(&self) -> (s: String)
        ensures
            s@ == self.spec_description(),
    {
        match &self.kind {
            Kind::InternalError => String::from_str("internal error"),
            Kind::InvalidHeaderValue => String::from_str("invalid header value"),
            Kind::NetworkError => String::from_str("network error"),
            Kind::NotImplementedError => String::from_str("not implemented error"),
            Kind::ParsingError => String::from_str("parsing error"),
            Kind::RetryError => String::from_str("retry error"),
            Kind::RequestNotSuccessful(err) => {
                let mut s = String::from_str("client returned an unsuccessful HTTP status code: ");
                s.append(err.render().as_str());
                s
            },
            Kind::Utf8Error => String::from_str("parsing bytes experienced a UTF8 error"),
            Kind::VaultError(err) => {
                let mut s = String::from_str("vault error: ");
                s.append(err.render().as_str());
                s
            },
        }
    }

    /// The full message: the description, and the cause's message when present.
    pub fn render(&self) -> (s: String)
        ensures
            s@ == self.spec_render(),
    {
        let mut s = self.message();
        match &self.cause {
            Some(cause) => {
                s.append(": ");
                s.append(cause.as_str());
                s
            },
            None => s,
        }
    }
}

/// What a structured error carries for the resource layer: the status code
/// of the failed call, when the error's kind holds one, and the same data
/// in the shape of captured text pieces.
pub struct OPError {
    /// The status code of the failed call, when the kind carries one.
    pub status_code: Option<u16>,
    /// The label `StatusCode` followed by the code's decimal text.
    pub captures: Option<Vec<String>>,
}

/// The status code that a structured error carries, if any.
pub open spec fn spec_status_of(e: Error) -> Option<u16> {
    match e.kind {
        Kind::RequestNotSuccessful(err) => Some(err.status),
        Kind::VaultError(err) => Some(err.status),
        _ => None,
    }
}

/// Extracts the status code of a failed call from the error's structure.
pub fn process_vault_error(err: &Error) -> (r: Result<OPError, Error>)
    ensures
        r is Ok,
        r->Ok_0.status_code == spec_status_of(*err),
        match spec_status_of(*err) {
            Some(status) => {
                &&& r->Ok_0.captures is Some
                &&& r->Ok_0.captures->Some_0@.len() == 2
                &&& r->Ok_0.captures->Some_0@[0]@ == "StatusCode"@
                &&& r->Ok_0.captures->Some_0@[1]@ == dec_rep(status as nat)
            },
            None => r->Ok_0.captures is None,
        },
{
    let status: Option<u16> = match &err.kind {
        Kind::RequestNotSuccessful(e) => Some(e.status),
        Kind::VaultError(e) => Some(e.status),
        _ => None,
    };
    match status {
        Some(code) => {
            let mut captures: Vec<String> = Vec::new();
            captures.push(String::from_str("StatusCode"));
            captures.push(u16_to_string(code));
            Ok(OPError { status_code: Some(code), captures: Some(captures) })
        },
        None => Ok(OPError { status_code: None, captures: None }),
    }
}

/// The `message` member of an error body: present exactly when the body is
/// a JSON object carrying a string under that name.
pub open spec fn spec_body_message(j: Option<Json>) -> Option<Seq<char>> {
    match j {
        Some(t) => if t is Obj && t->Obj_0.dom().contains("message"@) && t->Obj_0["message"@]
            is Str {
            Some(t->Obj_0["message"@]->Str_0)
        } else {
            None
        },
        None => None,
    }
}

/// Reads the `message` member out of an error body's text, if the body is
/// a JSON object that carries one.
pub fn body_message(body: &str) -> (r: Option<String>)
    ensures
        match spec_body_message(json_of(body@)) {
            Some(m) => r is Some && r->Some_0@ == m,
            None => r is None,
        },
{
    match parse_json(body) {
        Ok(v) => match value_get(&v, "message") {
            Some(f) => match value_as_str(f) {
                Some(s) => Some(s.to_owned()),
                None => None,
            },
            None => None,
        },
        Err(_) => None,
    }
}

/// The views of a list of recognized messages.
pub open spec fn strs_view(ss: Seq<&str>) -> Seq<Seq<char>> {
    ss.map_values(|s: &str| s@)
}

/// What classification does to a pipeline failure, exactly: an
/// unsuccessful-status error whose parsed body carries a recognized
/// `message` becomes the service-level error with that status and message;
/// every other failure becomes the internal kind wrapping the failure's
/// own rendering as the cause.
pub open spec fn spec_classify(err: Error, messages: Seq<Seq<char>>, r: Error) -> bool {
    if err.kind is RequestNotSuccessful && spec_body_message(
        json_of(err.kind->RequestNotSuccessful_0.body@),
    ) is Some && messages.contains(
        spec_body_message(json_of(err.kind->RequestNotSuccessful_0.body@))->Some_0,
    ) {
        &&& r.kind is VaultError
        &&& r.kind->VaultError_0.status == err.kind->RequestNotSuccessful_0.status
        &&& Some(r.kind->VaultError_0.message@) == spec_body_message(
            json_of(err.kind->RequestNotSuccessful_0.body@),
        )
        &&& r.cause is None
    } else {
        &&& r.kind is InternalError
        &&& r.cause is Some
        &&& r.cause->Some_0@ == err.spec_render()
    }
}

/// Classifies a pipeline failure against the recognized messages, by the
/// structure of the error and its parsed body, never by rendered text.
pub fn classify_failure(err: Error, expected: &[&str]) -> (r: Error)
    ensures
        spec_classify(err, strs_view(expected@), r),
{
    match &err.kind {
        Kind::RequestNotSuccessful(rns) => {
            let mut i: usize = 0;
            while i < expected.len()
                invariant
                    i <= expected@.len(),
                    err.kind is RequestNotSuccessful,
                    *rns == err.kind->RequestNotSuccessful_0,
                    forall|j: int|
                        0 <= j < i ==> spec_body_message(json_of(rns.body@)) != Some(
                            #[trigger] strs_view(expected@)[j],
                        ),
                decreases expected@.len() - i,
            {
                match classify_status_failure(rns, expected[i]) {
                    Some(ve) => {
                        proof {
                            assert(strs_view(expected@)[i as int] == expected@[i as int]@);
                        }
                        return Error::new_vault_error(ve);
                    },
                    None => {},
                }
                proof {
                    assert(strs_view(expected@)[i as int] == expected@[i as int]@);
                }
                i += 1;
            }
            proof {
                if spec_body_message(json_of(rns.body@)) is Some && strs_view(
                    expected@,
                ).contains(spec_body_message(json_of(rns.body@))->Some_0) {
                    let j = choose|j: int|
                        0 <= j < strs_view(expected@).len() && strs_view(expected@)[j]
                            == spec_body_message(json_of(rns.body@))->Some_0;
                    assert(false);
                }
            }
            Error::new_internal_error().with(err.render())
        },
        _ => Error::new_internal_error().with(err.render()),
    }
}

/// Recognizes one service-level condition in an unsuccessful-status error:
/// the expected message is matched against the parsed body, never against
/// rendered error text, and carried out with the failed call's status.
pub fn classify_status_failure(rns: &RequestNotSuccessful, expected: &str) -> (r: Option<
    VaultError,
>)
    ensures
        match r {
            Some(ve) => {
                &&& ve.status == rns.status
                &&& ve.message@ == expected@
                &&& spec_body_message(json_of(rns.body@)) == Some(expected@)
            },
            None => spec_body_message(json_of(rns.body@)) != Some(expected@),
        },
{
    match body_message(rns.body.as_str()) {
        Some(m) => {
            if str_eq(m.as_str(), expected) {
                Some(VaultError::new(rns.status, m))
            } else {
                None
            }
        },
        None => None,
    }
}

} // verus!
