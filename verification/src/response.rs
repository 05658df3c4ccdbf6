//! What the SDK makes of the transport's answer: the user's information on
//! status 200 with a readable body, a typed error in every other case.

use crate::error::{api_failure, authentication_failure, AuthdogError, ErrorKind, ErrorView};
use crate::json::{from_str, json_document, parse, parse_error_text, ParseErrorView};
use crate::text::{
    contains_text, decimal, decimal_string, join, lemma_contains_prefix, lemma_contains_suffix,
    text_eq,
};
use crate::types::{ErrorResponse, ErrorResponseView, UserInfoResponse, UserInfoResponseView};
use vstd::prelude::*;
use vstd::string::*;

verus! {

/// How an exchange with the provider ended, as the transport reports it.
#[derive(Debug, Clone)]
pub enum Exchange {
    /// The request could not be sent or no response arrived. Holds the
    /// transport's description of the failure.
    SendFailed(String),
    /// A response arrived but its body could not be read. Holds the
    /// transport's description of the failure.
    BodyUnreadable(String),
    /// A response arrived and its body was read in full.
    Answered { status: u16, body: String },
}

/// An [`Exchange`] as a mathematical value.
pub enum ExchangeView {
    SendFailed(Seq<char>),
    BodyUnreadable(Seq<char>),
    Answered { status: u16, body: Seq<char> },
}

impl View for Exchange {
    type V = ExchangeView;

    open spec fn view(&self) -> ExchangeView {
        match self {
            Exchange::SendFailed(cause) => ExchangeView::SendFailed(cause@),
            Exchange::BodyUnreadable(cause) => ExchangeView::BodyUnreadable(cause@),
            Exchange::Answered { status, body } => ExchangeView::Answered {
                status: *status,
                body: body@,
            },
        }
    }
}

/// Message of the error for status 401.
pub open spec fn unauthorized_text() -> Seq<char> {
    "Unauthorized - invalid or expired token"@
}

/// Message of the error for a status that has no meaning of its own: the
/// status in decimal and the body as it came.
pub open spec fn http_error_text(status: u16, body: Seq<char>) -> Seq<char> {
    "HTTP error "@ + decimal(status as nat) + ": "@ + body
}

/// Message of the error for a body that cannot be read as the user's
/// information.
pub open spec fn parse_failure_text(error: ParseErrorView) -> Seq<char> {
    "Failed to parse response: "@ + parse_error_text(error)
}

/// The two failures that the provider names on status 500.
pub open spec fn is_provider_failure(text: Seq<char>) -> bool {
    text == "GraphQL query failed"@ || text == "Failed to fetch user info"@
}

/// Whether a body of status 500 names one of the provider's failures.
pub open spec fn names_provider_failure(body: Seq<char>) -> bool {
    parse::<ErrorResponse>(body) matches Ok(response) && is_provider_failure(response.error)
}

/// Message of the error for status 500: the provider's own word where the
/// body names a failure that is known, else the generic message.
pub open spec fn server_error_text(body: Seq<char>) -> Seq<char> {
    if names_provider_failure(body) {
        parse::<ErrorResponse>(body)->Ok_0.error
    } else {
        http_error_text(500, body)
    }
}

/// What a response with the given status and body is turned into.
pub open spec fn response_outcome(status: u16, body: Seq<char>) -> Result<
    UserInfoResponseView,
    ErrorView,
> {
    if status == 200 {
        match parse::<UserInfoResponse>(body) {
            Ok(info) => Ok(info),
            Err(error) => Err(
                ErrorView { kind: ErrorKind::General, message: parse_failure_text(error) },
            ),
        }
    } else if status == 401 {
        Err(ErrorView { kind: ErrorKind::Authentication, message: unauthorized_text() })
    } else if status == 500 {
        Err(ErrorView { kind: ErrorKind::Api, message: server_error_text(body) })
    } else {
        Err(ErrorView { kind: ErrorKind::Api, message: http_error_text(status, body) })
    }
}

/// What an exchange is turned into.
pub open spec fn exchange_outcome(exchange: ExchangeView) -> Result<
    UserInfoResponseView,
    ErrorView,
> {
    match exchange {
        ExchangeView::SendFailed(cause) => Err(
            ErrorView { kind: ErrorKind::General, message: "Request failed: "@ + cause },
        ),
        ExchangeView::BodyUnreadable(cause) => Err(
            ErrorView {
                kind: ErrorKind::General,
                message: "Failed to read response body: "@ + cause,
            },
        ),
        ExchangeView::Answered { status, body } => response_outcome(status, body),
    }
}

/// Status 200 with a readable body is the only way to success.
pub proof fn lemma_success_needs_200_and_readable_body(status: u16, body: Seq<char>)
    ensures
        response_outcome(status, body) is Ok <==> status == 200 && parse::<UserInfoResponse>(
            body,
        ) is Ok,
        response_outcome(status, body) matches Ok(info) ==> parse::<UserInfoResponse>(body) == Ok::<
            UserInfoResponseView,
            ParseErrorView,
        >(info),
{
}

/// Status 401 gives an authentication error that says "Unauthorized",
/// whatever the body holds.
pub proof fn lemma_unauthorized(body: Seq<char>)
    ensures
        response_outcome(401, body) == Err::<UserInfoResponseView, ErrorView>(
            ErrorView { kind: ErrorKind::Authentication, message: unauthorized_text() },
        ),
        contains_text(unauthorized_text(), "Unauthorized"@),
{
    reveal_strlit("Unauthorized - invalid or expired token");
    reveal_strlit("Unauthorized");
    reveal_strlit(" - invalid or expired token");
    assert(unauthorized_text() == "Unauthorized"@ + " - invalid or expired token"@);
    lemma_contains_prefix("Unauthorized"@, " - invalid or expired token"@);
}

/// Status 500 with a body that names one of the provider's failures gives
/// an API error with exactly that name as its message.
pub proof fn lemma_provider_failure_is_reported_by_name(body: Seq<char>, name: Seq<char>)
    requires
        parse::<ErrorResponse>(body) == Ok::<ErrorResponseView, ParseErrorView>(
            ErrorResponseView { error: name },
        ),
        is_provider_failure(name),
    ensures
        response_outcome(500, body) == Err::<UserInfoResponseView, ErrorView>(
            ErrorView { kind: ErrorKind::Api, message: name },
        ),
        contains_text(name, name),
{
    assert(name + Seq::<char>::empty() == name);
    lemma_contains_prefix(name, Seq::empty());
}

/// Status 500 with any other body, readable or not, gives an API error
/// whose message holds "HTTP error 500" and the body as it came.
pub proof fn lemma_unrecognized_server_error(body: Seq<char>)
    requires
        !names_provider_failure(body),
    ensures
        response_outcome(500, body) == Err::<UserInfoResponseView, ErrorView>(
            ErrorView { kind: ErrorKind::Api, message: http_error_text(500, body) },
        ),
        contains_text(http_error_text(500, body), "HTTP error 500"@),
        contains_text(http_error_text(500, body), body),
{
    lemma_http_error_text_holds_status_and_body(500, body);
    lemma_http_error_500_words();
}

/// A status other than 200, 401 and 500 gives an API error whose message
/// holds "HTTP error", the status in decimal, and the body as it came.
pub proof fn lemma_other_status(status: u16, body: Seq<char>)
    requires
        status != 200,
        status != 401,
        status != 500,
    ensures
        response_outcome(status, body) == Err::<UserInfoResponseView, ErrorView>(
            ErrorView { kind: ErrorKind::Api, message: http_error_text(status, body) },
        ),
        contains_text(http_error_text(status, body), "HTTP error "@ + decimal(status as nat)),
        contains_text(http_error_text(status, body), body),
{
    lemma_http_error_text_holds_status_and_body(status, body);
}

/// Status 200 with a body that cannot be read as the user's information
/// (not JSON at all, or JSON of another structure) gives a general error
/// whose message holds "Failed to parse response".
pub proof fn lemma_unreadable_body(body: Seq<char>)
    requires
        parse::<UserInfoResponse>(body) is Err,
    ensures
        response_outcome(200, body) matches Err(error) && error.kind == ErrorKind::General
            && contains_text(error.message, "Failed to parse response"@),
{
    let error = parse::<UserInfoResponse>(body)->Err_0;
    let rest = ": "@ + parse_error_text(error);
    reveal_strlit("Failed to parse response: ");
    reveal_strlit("Failed to parse response");
    reveal_strlit(": ");
    assert(parse_failure_text(error) == "Failed to parse response"@ + rest);
    lemma_contains_prefix("Failed to parse response"@, rest);
}

/// A body that is not JSON cannot be read as the user's information.
pub proof fn lemma_invalid_json_is_unreadable(body: Seq<char>)
    requires
        json_document(body) is Err,
    ensures
        parse::<UserInfoResponse>(body) is Err,
        response_outcome(200, body) matches Err(error) && error.kind == ErrorKind::General
            && contains_text(error.message, "Failed to parse response"@),
{
    lemma_unreadable_body(body);
}

/// The generic message holds the words "HTTP error" followed by the status,
/// and the body.
pub proof fn lemma_http_error_text_holds_status_and_body(status: u16, body: Seq<char>)
    ensures
        contains_text(http_error_text(status, body), "HTTP error "@ + decimal(status as nat)),
        contains_text(http_error_text(status, body), body),
{
    let head = "HTTP error "@ + decimal(status as nat);
    assert(http_error_text(status, body) == head + (": "@ + body));
    lemma_contains_prefix(head, ": "@ + body);
    lemma_contains_suffix(head + ": "@, body);
}

/// 500 is written "500".
proof fn lemma_decimal_500()
    ensures
        decimal(500) == seq!['5', '0', '0'],
{
    assert(decimal(5) =~= seq!['5']);
    assert(decimal(50) =~= seq!['5', '0']) by {
        assert(decimal(50) == decimal(5).push('0'));
    }
    assert(decimal(500) =~= seq!['5', '0', '0']) by {
        assert(decimal(500) == decimal(50).push('0'));
    }
}

/// The generic message for status 500 starts with the words "HTTP error 500".
proof fn lemma_http_error_500_words()
    ensures
        "HTTP error 500"@ == "HTTP error "@ + decimal(500),
{
    lemma_decimal_500();
    reveal_strlit("HTTP error 500");
    reveal_strlit("HTTP error ");
    assert("HTTP error 500"@ =~= "HTTP error "@ + seq!['5', '0', '0']);
}

/// The generic message for a status and a body.
pub fn http_error_message(status: u16, body: &str) -> (message: String)
    ensures
        message@ == http_error_text(status, body@),
{
    let mut message = String::from_str("HTTP error ");
    message.append(decimal_string(status).as_str());
    message.append(": ");
    message.append(body);
    message
}

/// The message for a body of status 500.
pub fn server_error_message(body: &str) -> (message: String)
    ensures
        message@ == server_error_text(body@),
{
    match from_str::<ErrorResponse>(body) {
        Ok(response) => {
            if text_eq(response.error.as_str(), "GraphQL query failed") {
                String::from_str("GraphQL query failed")
            } else if text_eq(response.error.as_str(), "Failed to fetch user info") {
                String::from_str("Failed to fetch user info")
            } else {
                http_error_message(500, body)
            }
        },
        Err(_) => http_error_message(500, body),
    }
}

/// Turns a response into the user's information or the error that its
/// status and body call for.
pub fn user_info_from_response(status: u16, body: &str) -> (r: Result<
    UserInfoResponse,
    AuthdogError,
>)
    ensures
        match response_outcome(status, body@) {
            Ok(info) => r matches Ok(read) && read@ == info,
            Err(error) => r matches Err(e) && e@ == error,
        },
{
    if status == 200 {
        match from_str::<UserInfoResponse>(body) {
            Ok(info) => Ok(info),
            Err(error) => Err(
                AuthdogError::new(join("Failed to parse response: ", error.to_string().as_str())),
            ),
        }
    } else if status == 401 {
        Err(authentication_failure(String::from_str("Unauthorized - invalid or expired token")))
    } else if status == 500 {
        Err(api_failure(server_error_message(body)))
    } else {
        Err(api_failure(http_error_message(status, body)))
    }
}

/// Turns the end of an exchange into the user's information or an error.
/// A failure of the transport is reported as it is; nothing is tried again.
pub fn user_info_from_exchange(exchange: &Exchange) -> (r: Result<UserInfoResponse, AuthdogError>)
    ensures
        match exchange_outcome(exchange@) {
            Ok(info) => r matches Ok(read) && read@ == info,
            Err(error) => r matches Err(e) && e@ == error,
        },
{
    match exchange {
        Exchange::SendFailed(cause) => Err(
            AuthdogError::new(join("Request failed: ", cause.as_str())),
        ),
        Exchange::BodyUnreadable(cause) => Err(
            AuthdogError::new(join("Failed to read response body: ", cause.as_str())),
        ),
        Exchange::Answered { status, body } => user_info_from_response(*status, body.as_str()),
    }
}

} // verus!
