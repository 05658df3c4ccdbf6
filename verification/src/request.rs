//! The one request that the SDK sends: `GET {base_url}/v1/userinfo` with a
//! content type and a bearer credential.

use crate::json::views;
use crate::text::{
    join, lemma_trailing_slash_is_insignificant, trim_trailing_slashes, without_trailing_slashes,
};
use vstd::prelude::*;
use vstd::string::*;

verus! {

/// One header of a request.
#[derive(Debug, Clone)]
pub struct Header {
    pub name: String,
    pub value: String,
}

/// Everything the transport needs to know to ask for the user's information.
#[derive(Debug, Clone)]
pub struct UserInfoRequest {
    pub method: String,
    pub url: String,
    /// In the order in which they are to be set.
    pub headers: Vec<Header>,
}

/// A [`Header`] as a mathematical value.
pub struct HeaderView {
    pub name: Seq<char>,
    pub value: Seq<char>,
}

/// A [`UserInfoRequest`] as a mathematical value.
pub struct UserInfoRequestView {
    pub method: Seq<char>,
    pub url: Seq<char>,
    pub headers: Seq<HeaderView>,
}

impl View for Header {
    type V = HeaderView;

    open spec fn view(&self) -> HeaderView {
        HeaderView { name: self.name@, value: self.value@ }
    }
}

impl View for UserInfoRequest {
    type V = UserInfoRequestView;

    open spec fn view(&self) -> UserInfoRequestView {
        UserInfoRequestView { method: self.method@, url: self.url@, headers: views(self.headers@) }
    }
}

/// Address of the user-info resource below `base_url`. Slashes at the end of
/// the base are dropped before the path is added.
pub open spec fn user_info_url(base_url: Seq<char>) -> Seq<char> {
    without_trailing_slashes(base_url) + "/v1/userinfo"@
}

/// The credential that is sent: the configured API key where there is one,
/// else the caller's access token.
pub open spec fn credential(api_key: Option<Seq<char>>, access_token: Seq<char>) -> Seq<char> {
    match api_key {
        Some(key) => key,
        None => access_token,
    }
}

/// Value of the `Authorization` header.
pub open spec fn authorization(api_key: Option<Seq<char>>, access_token: Seq<char>) -> Seq<
    char,
> {
    "Bearer "@ + credential(api_key, access_token)
}

/// The request for the user's information.
pub open spec fn user_info_request(
    base_url: Seq<char>,
    api_key: Option<Seq<char>>,
    access_token: Seq<char>,
) -> UserInfoRequestView {
    UserInfoRequestView {
        method: "GET"@,
        url: user_info_url(base_url),
        headers: seq![
            HeaderView { name: "Content-Type"@, value: "application/json"@ },
            HeaderView { name: "Authorization"@, value: authorization(api_key, access_token) },
        ],
    }
}

/// A slash at the end of the base URL does not change the address.
pub proof fn lemma_trailing_slash_keeps_url(base_url: Seq<char>)
    ensures
        user_info_url(base_url.push('/')) == user_info_url(base_url),
{
    lemma_trailing_slash_is_insignificant(base_url);
}

/// With an API key configured, the credential is that key, whatever access
/// token the caller passes: two calls with different tokens send the same
/// `Authorization` header, and it is `Bearer ` followed by the key.
pub proof fn lemma_api_key_overrides_access_token(
    base_url: Seq<char>,
    api_key: Seq<char>,
    access_token: Seq<char>,
    other_token: Seq<char>,
)
    ensures
        authorization(Some(api_key), access_token) == "Bearer "@ + api_key,
        user_info_request(base_url, Some(api_key), access_token) == user_info_request(
            base_url,
            Some(api_key),
            other_token,
        ),
        user_info_request(base_url, Some(api_key), access_token).headers.len() == 2,
        user_info_request(base_url, Some(api_key), access_token).headers[1].value == "Bearer "@
            + api_key,
{
}

/// The request has one `Authorization` header and no more, whether an API
/// key is configured or not.
pub proof fn lemma_one_authorization_header(
    base_url: Seq<char>,
    api_key: Option<Seq<char>>,
    access_token: Seq<char>,
)
    ensures
        forall|i: int|
            0 <= i < user_info_request(base_url, api_key, access_token).headers.len() ==> (
            #[trigger] user_info_request(base_url, api_key, access_token).headers[i].name
                == "Authorization"@ <==> i == 1),
{
    reveal_strlit("Authorization");
    reveal_strlit("Content-Type");
    assert("Authorization"@.len() != "Content-Type"@.len());
}

/// Without an API key the credential is the access token.
pub proof fn lemma_access_token_is_sent_without_api_key(
    base_url: Seq<char>,
    access_token: Seq<char>,
)
    ensures
        user_info_request(base_url, None, access_token).headers[1].value == "Bearer "@
            + access_token,
{
}

/// Builds the address of the user-info resource.
pub fn build_url(base_url: &str) -> (url: String)
    ensures
        url@ == user_info_url(base_url@),
{
    join(trim_trailing_slashes(base_url), "/v1/userinfo")
}

/// Builds the value of the `Authorization` header.
pub fn build_authorization(api_key: &Option<String>, access_token: &str) -> (value: String)
    ensures
        value@ == authorization(api_key.deep_view(), access_token@),
{
    match api_key {
        Some(key) => join("Bearer ", key.as_str()),
        None => join("Bearer ", access_token),
    }
}

/// Builds the request for the user's information.
pub fn build_user_info_request(base_url: &str, api_key: &Option<String>, access_token: &str) -> (r:
    UserInfoRequest)
    ensures
        r@ == user_info_request(base_url@, api_key.deep_view(), access_token@),
{
    let mut headers: Vec<Header> = Vec::new();
    headers.push(
        Header {
            name: String::from_str("Content-Type"),
            value: String::from_str("application/json"),
        },
    );
    headers.push(
        Header {
            name: String::from_str("Authorization"),
            value: build_authorization(api_key, access_token),
        },
    );
    let r = UserInfoRequest { method: String::from_str("GET"), url: build_url(base_url), headers };
    assert(r@.headers =~= user_info_request(
        base_url@,
        api_key.deep_view(),
        access_token@,
    ).headers);
    r
}

} // verus!
