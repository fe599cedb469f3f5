//! One error type for the whole server, with a closed set of kinds.

use r2d2::Error as PoolError;
use vstd::prelude::*;

verus! {

/// Status code that every error starts with.
pub const BAD_REQUEST: u16 = 400;

/// The detail-less error payload. Its body carries no detail: it is the
/// empty JSON object `{}`, which is what serialising this field-less struct
/// as JSON gives, so that every error body is JSON.
pub struct Empty {}

/// The pool error of the connection pool.
#[verifier::external_type_specification]
#[verifier::external_body]
pub struct ExPoolError(PoolError);

/// What an error carries besides its message.
pub enum ErrorKind {
    Empty(Empty),
    Simple(String),
    DieselCon(PoolError),
}

/// Structured payload attached to an error.
pub struct ErrorEvent {
    pub event: String,
}

/// An error of the server: a message for the user, a kind, a status code and
/// an optional event.
pub struct Error {
    pub message: String,
    pub error: ErrorKind,
    pub error_code: u16,
    pub event: Option<ErrorEvent>,
}

/// A lowercase hexadecimal digit.
pub open spec fn hex_digit(d: u32) -> char {
    if d < 10 {
        ((d + 48) as u8) as char
    } else {
        ((d + 87) as u8) as char
    }
}

/// How a character stands inside a JSON string: quote and backslash escaped,
/// the control characters by their short escape or as `\u00XX`, the rest as
/// they are.
pub open spec fn json_char(c: char) -> Seq<char> {
    if c == '"' {
        seq!['\\', '"']
    } else if c == '\\' {
        seq!['\\', '\\']
    } else if c == '\u{8}' {
        seq!['\\', 'b']
    } else if c == '\t' {
        seq!['\\', 't']
    } else if c == '\n' {
        seq!['\\', 'n']
    } else if c == '\u{c}' {
        seq!['\\', 'f']
    } else if c == '\r' {
        seq!['\\', 'r']
    } else if (c as u32) < 32 {
        seq!['\\', 'u', '0', '0', hex_digit((c as u32) / 16), hex_digit((c as u32) % 16)]
    } else {
        seq![c]
    }
}

/// The characters of a text, each as it stands inside a JSON string.
pub open spec fn json_escaped(s: Seq<char>) -> Seq<char>
    decreases s.len(),
{
    if s.len() == 0 {
        Seq::empty()
    } else {
        json_escaped(s.drop_last()) + json_char(s.last())
    }
}

/// The JSON string literal of a text.
pub open spec fn json_string_of(s: Seq<char>) -> Seq<char> {
    seq!['"'] + json_escaped(s) + seq!['"']
}

/// Relies on serde_json::to_string on a `str`: it writes the text between
/// quotes, escaping as its `ESCAPE` table and `write_char_escape` say, and
/// serialising a `str` into memory does not fail.
#[verifier::external_body]
fn json_string(s: &str) -> (r: String)
    ensures
        r@ == json_string_of(s@),
{
    match serde_json::to_string(s) {
        Ok(t) => t,
        Err(_) => String::new(),
    }
}

/// Relies on the pretty `Debug` form of r2d2's pool error.
#[verifier::external_body]
fn pool_error_debug(e: &PoolError) -> (r: String) {
    format!("{:#?}", e)
}

/// The JSON envelope sent for an error whose message is the JSON string `q`.
pub open spec fn api_error_spec(q: Seq<char>) -> Seq<char> {
    "{\"ErrorModel\":{\"Message\":"@ + q + ",\"Object\":\"error\"},\"ExceptionMessage\":null,\"ExceptionStackTrace\":null,\"InnerExceptionMessage\":null,\"Message\":"@
        + q + ",\"Object\":\"error\",\"ValidationErrors\":{\"\":["@ + q
        + "]},\"error\":\"\",\"error_description\":\"\"}"@
}

/// The envelope around a message that is already a JSON string.
pub fn api_error_from_json(q: &str) -> (r: String)
    ensures
        r@ == api_error_spec(q@),
{
    let mut r = String::from_str("{\"ErrorModel\":{\"Message\":");
    r.append(q);
    r.append(
        ",\"Object\":\"error\"},\"ExceptionMessage\":null,\"ExceptionStackTrace\":null,\"InnerExceptionMessage\":null,\"Message\":",
    );
    r.append(q);
    r.append(",\"Object\":\"error\",\"ValidationErrors\":{\"\":[");
    r.append(q);
    r.append("]},\"error\":\"\",\"error_description\":\"\"}");
    r
}

/// The JSON envelope for a user message.
pub fn api_error(msg: &str) -> (r: String)
    ensures
        r@ == api_error_spec(json_string_of(msg@)),
{
    let q = json_string(msg);
    api_error_from_json(q.as_str())
}

/// Hands the value on as the cause of an error.
pub fn _has_source<T>(e: T) -> (r: Option<T>)
    ensures
        r == Some(e),
{
    Some(e)
}

/// Reports that there is no cause.
pub fn _no_source<T, S>(_e: T) -> (r: Option<S>)
    ensures
        r is None,
{
    None
}

impl Error {
    /// An error of the given kind with the given message, code 400 and no event.
    pub fn from_kind(message: String, error: ErrorKind) -> (r: Error)
        ensures
            r.message == message,
            r.error == error,
            r.error_code == BAD_REQUEST,
            r.event is None,
    {
        Error { message, error, error_code: BAD_REQUEST, event: None }
    }

    /// A simple error: a message for the user and one for the log.
    pub fn new(usr_msg: String, log_msg: String) -> (r: Error)
        ensures
            r.message == usr_msg,
            r.error == ErrorKind::Simple(log_msg),
            r.error_code == BAD_REQUEST,
            r.event is None,
    {
        Error::from_kind(usr_msg, ErrorKind::Simple(log_msg))
    }

    /// An error without detail; its message is the kind's name.
    pub fn empty() -> (r: Error)
        ensures
            r.message@ == "Empty"@,
            r.error is Empty,
            r.error_code == BAD_REQUEST,
            r.event is None,
    {
        Error::from_kind(String::from_str("Empty"), ErrorKind::Empty(Empty {}))
    }

    /// An error that wraps a pool error; its message is the kind's name.
    pub fn from_pool_error(e: PoolError) -> (r: Error)
        ensures
            r.message@ == "DieselCon"@,
            r.error == ErrorKind::DieselCon(e),
            r.error_code == BAD_REQUEST,
            r.event is None,
    {
        Error::from_kind(String::from_str("DieselCon"), ErrorKind::DieselCon(e))
    }

    /// Replaces the user message.
    pub fn with_msg(self, msg: String) -> (r: Error)
        ensures
            r.message == msg,
            r.error == self.error,
            r.error_code == self.error_code,
            r.event == self.event,
    {
        let mut s = self;
        s.message = msg;
        s
    }

    /// Replaces the status code.
    pub fn with_code(self, code: u16) -> (r: Error)
        ensures
            r.message == self.message,
            r.error == self.error,
            r.error_code == code,
            r.event == self.event,
    {
        let mut s = self;
        s.error_code = code;
        s
    }

    /// Attaches an event.
    pub fn with_event(self, event: ErrorEvent) -> (r: Error)
        ensures
            r.message == self.message,
            r.error == self.error,
            r.error_code == self.error_code,
            r.event == Some(event),
    {
        let mut s = self;
        s.event = Some(event);
        s
    }

    /// The attached event, if any.
    pub fn get_event(&self) -> (r: &Option<ErrorEvent>)
        ensures
            *r == self.event,
    {
        &self.event
    }

    /// The underlying cause: only a wrapped pool error has one.
    pub fn source(&self) -> (r: Option<&PoolError>)
        ensures
            match self.error {
                ErrorKind::DieselCon(e) => r == Some(&e),
                _ => r is None,
            },
    {
        match &self.error {
            ErrorKind::Empty(e) => _no_source(e),
            ErrorKind::Simple(e) => _no_source(e),
            ErrorKind::DieselCon(e) => _has_source(e),
        }
    }

    /// The body sent to the client: `{}` for an empty error, the JSON envelope
    /// of the user message otherwise.
    pub fn response_body(&self) -> (r: String)
        ensures
            self.error is Empty ==> r@ == "{}"@,
            !(self.error is Empty) ==> r@ == api_error_spec(json_string_of(self.message@)),
    {
        match &self.error {
            ErrorKind::Empty(_) => String::from_str("{}"),
            _ => api_error(self.message.as_str()),
        }
    }

    /// The log line, given the rendered cause for an error that has one:
    /// nothing for an empty error; the message, followed by the log message
    /// where the two differ; the message and the cause for a pool error.
    pub fn log_text_with_cause(&self, cause: &str) -> (r: String)
        ensures
            r@ == log_text_spec(self, cause@),
    {
        match &self.error {
            ErrorKind::Empty(_) => String::new(),
            ErrorKind::Simple(s) => {
                if self.message == *s {
                    self.message.clone()
                } else {
                    let mut r = self.message.clone();
                    r.append(". ");
                    r.append(s.as_str());
                    r
                }
            },
            ErrorKind::DieselCon(_) => {
                let mut r = self.message.clone();
                r.append(".\n[CAUSE] ");
                r.append(cause);
                r
            },
        }
    }

    /// The log line, with the pool error's pretty debug form as the cause.
    pub fn log_text(&self) -> (r: String)
        ensures
            !(self.error is DieselCon) ==> r@ == log_text_spec(self, Seq::empty()),
            self.error is DieselCon ==> exists|c: Seq<char>| r@ == log_text_spec(self, c),
    {
        match &self.error {
            ErrorKind::DieselCon(e) => {
                let cause = pool_error_debug(e);
                self.log_text_with_cause(cause.as_str())
            },
            _ => self.log_text_with_cause(""),
        }
    }
}

/// The log line of an error, given its rendered cause.
pub open spec fn log_text_spec(e: &Error, cause: Seq<char>) -> Seq<char> {
    match e.error {
        ErrorKind::Empty(_) => Seq::empty(),
        ErrorKind::Simple(s) => if e.message@ == s@ {
            e.message@
        } else {
            e.message@ + ". "@ + s@
        },
        ErrorKind::DieselCon(_) => e.message@ + ".\n[CAUSE] "@ + cause,
    }
}

/// Turns a missing value or a failed result into an `Error` with a message.
pub trait MapResult<S>: Sized {
    /// Whether the value holds a success.
    spec fn succeeded(self) -> bool;

    /// The success value, where there is one.
    spec fn success_value(self) -> S;

    /// Whether `e`, apart from its message, is the error that a failure gives.
    spec fn failure_is(self, e: Error) -> bool;

    fn map_res(self, msg: &str) -> (r: Result<S, Error>)
        ensures
            self.succeeded() <==> r is Ok,
            self.succeeded() ==> r == Ok::<S, Error>(self.success_value()),
            r is Err ==> r->Err_0.message@ == msg@ && self.failure_is(r->Err_0),
    ;
}

impl<S> MapResult<S> for Result<S, Error> {
    open spec fn succeeded(self) -> bool {
        self is Ok
    }

    open spec fn success_value(self) -> S {
        self->Ok_0
    }

    /// The given error's kind, code and event are kept.
    open spec fn failure_is(self, e: Error) -> bool {
        &&& e.error == self->Err_0.error
        &&& e.error_code == self->Err_0.error_code
        &&& e.event == self->Err_0.event
    }

    fn map_res(self, msg: &str) -> (r: Result<S, Error>) {
        match self {
            Ok(v) => Ok(v),
            Err(e) => Err(e.with_msg(String::from_str(msg))),
        }
    }
}

impl<S> MapResult<S> for Option<S> {
    open spec fn succeeded(self) -> bool {
        self is Some
    }

    open spec fn success_value(self) -> S {
        self->Some_0
    }

    /// A simple error with an empty log message, code 400 and no event.
    open spec fn failure_is(self, e: Error) -> bool {
        &&& e.error is Simple
        &&& e.error->Simple_0@.len() == 0
        &&& e.error_code == BAD_REQUEST
        &&& e.event is None
    }

    fn map_res(self, msg: &str) -> (r: Result<S, Error>) {
        match self {
            Some(v) => Ok(v),
            None => Err(Error::new(String::from_str(msg), String::new())),
        }
    }
}

} // verus!
