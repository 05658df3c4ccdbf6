//! The client: its configuration, the HTTP transport it owns, and the one
//! call it offers. The client decides what is sent and what the answer
//! means; the sending itself is done by a function that the caller passes.

use crate::error::{AuthdogError, ErrorKind, ErrorView};
use crate::request::{build_user_info_request, user_info_request, UserInfoRequest};
use crate::response::{exchange_outcome, user_info_from_exchange, Exchange};
use crate::text::join;
use crate::types::UserInfoResponse;
use std::time::Duration;
use vstd::prelude::*;
use vstd::string::*;

verus! {

/// `reqwest::ClientBuilder`, the builder of the HTTP transport. Verus sees
/// nothing inside it.
#[verifier::external_type_specification]
#[verifier::external_body]
pub struct ExClientBuilder(reqwest::ClientBuilder);

/// `reqwest::Client`, the HTTP transport. Verus sees nothing inside it.
#[verifier::external_type_specification]
#[verifier::external_body]
pub struct ExClient(reqwest::Client);

/// `reqwest::Error`, what the transport fails with. Verus sees nothing
/// inside it.
#[verifier::external_type_specification]
#[verifier::external_body]
pub struct ExTransportError(reqwest::Error);

/// The length of a `std::time::Duration` in nanoseconds.
pub uninterp spec fn duration_nanos(d: Duration) -> nat;

/// `std::time::Duration::from_secs`. Trusted: the duration lasts that many
/// whole seconds and no more.
pub assume_specification[ Duration::from_secs ](secs: u64) -> (d: Duration)
    ensures
        duration_nanos(d) == secs * 1_000_000_000,
;

/// The `User-Agent` header that a builder has been given for every request,
/// if it has been given one.
pub uninterp spec fn builder_user_agent(builder: reqwest::ClientBuilder) -> Option<Seq<char>>;

/// The limit for a whole request that a builder has been given, in
/// nanoseconds, if it has been given one.
pub uninterp spec fn builder_timeout(builder: reqwest::ClientBuilder) -> Option<nat>;

/// Whether a builder has recorded an error, so that building from it fails.
pub uninterp spec fn builder_broken(builder: reqwest::ClientBuilder) -> bool;

/// The `User-Agent` header that a transport adds to each request that does
/// not bring its own, if it adds one.
pub uninterp spec fn transport_user_agent(transport: reqwest::Client) -> Option<Seq<char>>;

/// The limit that a transport puts on a whole request that does not bring
/// its own, in nanoseconds, if it puts one.
pub uninterp spec fn transport_timeout(transport: reqwest::Client) -> Option<nat>;

/// `reqwest::Client::builder`. Trusted: the new builder has no user agent,
/// no timeout and no error.
pub assume_specification[ reqwest::Client::builder ]() -> (builder: reqwest::ClientBuilder)
    ensures
        builder_user_agent(builder) is None,
        builder_timeout(builder) is None,
        !builder_broken(builder),
;

/// `reqwest::ClientBuilder::timeout`. Trusted: the builder that comes back
/// has the given timeout; its user agent and its error are as they were.
pub assume_specification[ reqwest::ClientBuilder::timeout ](
    builder: reqwest::ClientBuilder,
    timeout: Duration,
) -> (r: reqwest::ClientBuilder)
    ensures
        builder_timeout(r) == Some(duration_nanos(timeout)),
        builder_user_agent(r) == builder_user_agent(builder),
        builder_broken(r) == builder_broken(builder),
;

/// `reqwest::ClientBuilder::build`. Trusted: where a transport comes back,
/// the builder had no error, and the transport has the builder's user agent
/// and timeout. Nothing is claimed of when one comes back: building fails
/// where the TLS backend or the resolver cannot be set up.
pub assume_specification[ reqwest::ClientBuilder::build ](builder: reqwest::ClientBuilder) -> (r:
    Result<reqwest::Client, reqwest::Error>)
    ensures
        r matches Ok(transport) ==> !builder_broken(builder) && transport_user_agent(transport)
            == builder_user_agent(builder) && transport_timeout(transport) == builder_timeout(
            builder,
        ),
;

/// `reqwest::ClientBuilder::user_agent` with a text. Trusted: the builder
/// that comes back has the text as its user agent, or an error where the
/// text cannot stand in a header; an error that was there stays; the timeout
/// is as it was.
#[verifier::external_body]
fn with_user_agent(builder: reqwest::ClientBuilder, user_agent: &str) -> (r:
    reqwest::ClientBuilder)
    ensures
        builder_broken(r) || builder_user_agent(r) == Some(user_agent@),
        builder_broken(builder) ==> builder_broken(r),
        builder_timeout(r) == builder_timeout(builder),
{
    builder.user_agent(user_agent)
}

/// Configuration of a client.
#[derive(Debug, Clone)]
pub struct AuthdogClientConfig {
    /// Where the provider is. Slashes at its end do not matter.
    pub base_url: String,
    /// A static credential. Where it is set it is sent in place of the
    /// access token of each call.
    pub api_key: Option<String>,
    /// Limit for a whole request. `None` leaves it to the transport.
    pub timeout: Option<Duration>,
}

impl Default for AuthdogClientConfig {
    fn default() -> (config: Self)
        ensures
            config.base_url@ == "https://api.authdog.com"@,
            config.api_key is None,
            config.timeout matches Some(timeout) && duration_nanos(timeout) == 10_000_000_000,
    {
        AuthdogClientConfig {
            base_url: String::from_str("https://api.authdog.com"),
            api_key: None,
            timeout: Some(Duration::from_secs(10)),
        }
    }
}

/// The limit for a whole request that a configuration asks for, in
/// nanoseconds.
pub open spec fn configured_timeout(config: AuthdogClientConfig) -> Option<nat> {
    match config.timeout {
        Some(timeout) => Some(duration_nanos(timeout)),
        None => None,
    }
}

/// Client of the provider's user-info endpoint.
pub struct AuthdogClient {
    client: reqwest::Client,
    config: AuthdogClientConfig,
}

/// What the transport says it is when it sends a request.
pub fn user_agent() -> (r: &'static str)
    ensures
        r@ == "authdog-rust-sdk/0.1.0"@,
{
    "authdog-rust-sdk/0.1.0"
}

impl AuthdogClient {
    /// The configuration that the client was made with.
    pub closed spec fn configuration(&self) -> AuthdogClientConfig {
        self.config
    }

    /// The transport that the client was made with and sends through.
    pub closed spec fn http_transport(&self) -> reqwest::Client {
        self.client
    }

    /// Makes a client: builds a transport that names itself with
    /// [`user_agent`] and, where the configuration has a timeout, gives up
    /// after it; without one the transport is given no limit. Nothing is
    /// sent. Fails only where the transport cannot be built, with a general
    /// error that starts with "Failed to create HTTP client: ".
    pub fn new(config: AuthdogClientConfig) -> (r: Result<Self, AuthdogError>)
        ensures
            match r {
                Ok(client) => {
                    &&& client.configuration() == config
                    &&& transport_user_agent(client.http_transport()) == Some(
                        "authdog-rust-sdk/0.1.0"@,
                    )
                    &&& transport_timeout(client.http_transport()) == configured_timeout(config)
                },
                Err(error) => error@.kind == ErrorKind::General && exists|cause: Seq<char>|
                    error@.message == "Failed to create HTTP client: "@ + cause,
            },
    {
        let mut builder = with_user_agent(reqwest::Client::builder(), user_agent());
        if let Some(timeout) = config.timeout {
            builder = builder.timeout(timeout);
        }
        let built = match builder.build() {
            Ok(transport) => Ok(transport),
            Err(error) => Err(error.to_string()),
        };
        Self::from_transport(config, built)
    }

    /// Makes a client from a configuration and the outcome of building a
    /// transport: with a transport it succeeds, whatever the configuration
    /// holds, and the client keeps both; without one it fails with the cause
    /// in its message.
    pub fn from_transport(config: AuthdogClientConfig, built: Result<reqwest::Client, String>) -> (r:
        Result<Self, AuthdogError>)
        ensures
            match built {
                Ok(transport) => r matches Ok(client) && client.configuration() == config
                    && client.http_transport() == transport,
                Err(cause) => r matches Err(error) && error@ == (ErrorView {
                    kind: ErrorKind::General,
                    message: "Failed to create HTTP client: "@ + cause@,
                }),
            },
    {
        match built {
            Ok(transport) => Ok(AuthdogClient { client: transport, config }),
            Err(cause) => Err(
                AuthdogError::new(join("Failed to create HTTP client: ", cause.as_str())),
            ),
        }
    }

    /// The configuration that the client was made with.
    pub fn config(&self) -> (config: &AuthdogClientConfig)
        ensures
            *config == self.configuration(),
    {
        &self.config
    }

    /// The transport that the client was made with, for the caller to send
    /// a request with.
    pub fn transport(&self) -> (transport: &reqwest::Client)
        ensures
            *transport == self.http_transport(),
    {
        &self.client
    }

    /// The request that asks for a user's information. The access token is
    /// taken as it is. What comes back goes to
    /// [`user_info_from_exchange`].
    pub fn user_info_request(&self, access_token: &str) -> (r: UserInfoRequest)
        ensures
            r@ == user_info_request(
                self.configuration().base_url@,
                self.configuration().api_key.deep_view(),
                access_token@,
            ),
    {
        build_user_info_request(self.config.base_url.as_str(), &self.config.api_key, access_token)
    }

    /// Asks for a user's information: builds the request, hands it to
    /// `send` once, and turns what `send` reports into the user's
    /// information or an error. Nothing is tried a second time.
    pub fn get_user_info<F>(&self, access_token: &str, send: F) -> (r: Result<
        UserInfoResponse,
        AuthdogError,
    >) where F: FnOnce(UserInfoRequest) -> Exchange
        requires
            forall|request: UserInfoRequest|
                request@ == user_info_request(
                    self.configuration().base_url@,
                    self.configuration().api_key.deep_view(),
                    access_token@,
                ) ==> send.requires((request,)),
        ensures
            exists|request: UserInfoRequest, exchange: Exchange|
                {
                    &&& request@ == user_info_request(
                        self.configuration().base_url@,
                        self.configuration().api_key.deep_view(),
                        access_token@,
                    )
                    &&& #[trigger] send.ensures((request,), exchange)
                    &&& match exchange_outcome(exchange@) {
                        Ok(info) => r matches Ok(read) && read@ == info,
                        Err(error) => r matches Err(e) && e@ == error,
                    }
                },
    {
        let request = self.user_info_request(access_token);
        let exchange = send(request);
        user_info_from_exchange(&exchange)
    }
}

} // verus!
