//! The error taxonomy: one base error that every failure is reported as, and
//! two narrower errors that convert into it without losing their message.

use vstd::prelude::*;
use vstd::std_specs::convert::FromSpec;
use vstd::std_specs::convert::FromSpecImpl;
use vstd::string::*;

verus! {

/// Which of the three kinds of failure an [`AuthdogError`] stands for.
#[derive(Debug, Clone, Copy, PartialEq, Eq, Structural)]
pub enum ErrorKind {
    /// Transport, body-read and parse failures, and errors made directly.
    General,
    /// The provider refused the credential.
    Authentication,
    /// The provider answered with a failure of its own.
    Api,
}

/// What an [`AuthdogError`] holds, as a mathematical value.
pub struct ErrorView {
    pub kind: ErrorKind,
    pub message: Seq<char>,
}

/// Base error of the SDK. It carries a message and remembers which kind of
/// error it was made from.
#[derive(Debug)]
pub struct AuthdogError {
    kind: ErrorKind,
    message: String,
}

/// The provider refused the credential.
#[derive(Debug)]
pub struct AuthenticationError {
    message: String,
}

/// The provider reported a failure, or answered with an unexpected status.
#[derive(Debug)]
pub struct APIError {
    message: String,
}

impl View for AuthdogError {
    type V = ErrorView;

    closed spec fn view(&self) -> ErrorView {
        ErrorView { kind: self.kind, message: self.message@ }
    }
}

impl View for AuthenticationError {
    type V = Seq<char>;

    closed spec fn view(&self) -> Seq<char> {
        self.message@
    }
}

impl View for APIError {
    type V = Seq<char>;

    closed spec fn view(&self) -> Seq<char> {
        self.message@
    }
}

impl AuthdogError {
    /// A general error with the given message.
    pub fn new(message: String) -> (e: Self)
        ensures
            e@ == (ErrorView { kind: ErrorKind::General, message: message@ }),
    {
        AuthdogError { kind: ErrorKind::General, message }
    }

    /// The kind of error this value was made from.
    pub fn kind(&self) -> (k: ErrorKind)
        ensures
            k == self@.kind,
    {
        self.kind
    }

    /// The message, borrowed.
    pub fn message(&self) -> (m: &str)
        ensures
            m@ == self@.message,
    {
        self.message.as_str()
    }

    /// The message, which is all that the error displays as.
    pub fn to_string(&self) -> (s: String)
        ensures
            s@ == self@.message,
    {
        self.message.clone()
    }
}

impl AuthenticationError {
    /// An authentication error with the given message.
    pub fn new(message: String) -> (e: Self)
        ensures
            e@ == message@,
    {
        AuthenticationError { message }
    }

    /// The message, borrowed.
    pub fn message(&self) -> (m: &str)
        ensures
            m@ == self@,
    {
        self.message.as_str()
    }

    /// The message, which is all that the error displays as.
    pub fn to_string(&self) -> (s: String)
        ensures
            s@ == self@,
    {
        self.message.clone()
    }
}

impl APIError {
    /// An API error with the given message.
    pub fn new(message: String) -> (e: Self)
        ensures
            e@ == message@,
    {
        APIError { message }
    }

    /// The message, borrowed.
    pub fn message(&self) -> (m: &str)
        ensures
            m@ == self@,
    {
        self.message.as_str()
    }

    /// The message, which is all that the error displays as.
    pub fn to_string(&self) -> (s: String)
        ensures
            s@ == self@,
    {
        self.message.clone()
    }
}

impl From<AuthenticationError> for AuthdogError {
    fn from(err: AuthenticationError) -> (e: Self) {
        AuthdogError { kind: ErrorKind::Authentication, message: err.message }
    }
}

impl FromSpecImpl<AuthenticationError> for AuthdogError {
    open spec fn obeys_from_spec() -> bool {
        true
    }

    closed spec fn from_spec(err: AuthenticationError) -> Self {
        AuthdogError { kind: ErrorKind::Authentication, message: err.message }
    }
}

impl From<APIError> for AuthdogError {
    fn from(err: APIError) -> (e: Self) {
        AuthdogError { kind: ErrorKind::Api, message: err.message }
    }
}

impl FromSpecImpl<APIError> for AuthdogError {
    open spec fn obeys_from_spec() -> bool {
        true
    }

    closed spec fn from_spec(err: APIError) -> Self {
        AuthdogError { kind: ErrorKind::Api, message: err.message }
    }
}

/// An authentication error converts into a base error of kind
/// `Authentication` that carries the same message.
pub proof fn lemma_authentication_error_converts(err: AuthenticationError)
    ensures
        <AuthdogError as FromSpec<AuthenticationError>>::from_spec(err)@ == (ErrorView {
            kind: ErrorKind::Authentication,
            message: err@,
        }),
{
}

/// An API error converts into a base error of kind `Api` that carries the
/// same message.
pub proof fn lemma_api_error_converts(err: APIError)
    ensures
        <AuthdogError as FromSpec<APIError>>::from_spec(err)@ == (ErrorView {
            kind: ErrorKind::Api,
            message: err@,
        }),
{
}

/// The base error made from an authentication error with `message`.
pub fn authentication_failure(message: String) -> (e: AuthdogError)
    ensures
        e@ == (ErrorView { kind: ErrorKind::Authentication, message: message@ }),
{
    AuthdogError::from(AuthenticationError::new(message))
}

/// The base error made from an API error with `message`.
pub fn api_failure(message: String) -> (e: AuthdogError)
    ensures
        e@ == (ErrorView { kind: ErrorKind::Api, message: message@ }),
{
    AuthdogError::from(APIError::new(message))
}

} // verus!
