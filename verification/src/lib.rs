//! Client SDK for the user-info endpoint of the Authdog identity provider.
//!
//! [`AuthdogClient::get_user_info`] builds the request, hands it once to the
//! function that sends it, and turns what comes back into the user's
//! information or a typed error. A caller that sends by other means does the
//! same in three steps: [`AuthdogClient::user_info_request`] says what to
//! send, [`AuthdogClient::transport`] is what to send it with, and
//! [`user_info_from_exchange`] takes what came back.

pub mod client;
pub mod error;
pub mod json;
pub mod request;
pub mod response;
pub mod text;
pub mod types;

pub use client::{AuthdogClient, AuthdogClientConfig};
pub use error::{APIError, AuthdogError, AuthenticationError, ErrorKind};
pub use json::{from_str, FromJson, ParseError};
pub use request::{Header, UserInfoRequest};
pub use response::{user_info_from_exchange, user_info_from_response, Exchange};
pub use types::{
    Email, ErrorResponse, Meta, Names, Photo, Session, User, UserInfoResponse, Verification,
};
