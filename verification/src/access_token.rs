use vstd::prelude::*;
use vstd::string::*;

use crate::cli::Config;
use crate::request::{headers, headers_spec, param, Method, Param, Request, RequestView};

verus! {

/// The answer of the service to a request for an access token.
#[derive(Debug)]
pub enum AccessTokenResponse {
    /// The token was granted.
    Success { access_token: String },
    /// The service refused, and says why.
    Error { error: String, message: String },
    /// The answer had any other shape; it is kept as the text of its body.
    Unexpected(String),
}

/// The request that asks for an access token with the user's name and
/// password. It carries the user agent. The client's id and secret, which the
/// sender adds as the request's basic authentication, are not among its
/// headers.
pub open spec fn access_token_request_spec(config: &Config) -> RequestView {
    RequestView {
        method: Method::Post,
        uri: "https://www.reddit.com/api/v1/access_token"@,
        headers: headers_spec(None, config.user_agent@),
        params: seq![
            ("grant_type"@, "password"@),
            ("username"@, config.username@),
            ("password"@, config.password@),
        ],
    }
}

/// The request that asks for an access token.
pub fn access_token_request(config: &Config) -> (r: Request)
    ensures
        r@ == access_token_request_spec(config),
{
    let mut params: Vec<Param> = Vec::new();
    params.push(param("grant_type", "password"));
    params.push(param("username", config.username.as_str()));
    params.push(param("password", config.password.as_str()));
    let request = Request {
        method: Method::Post,
        uri: String::from_str("https://www.reddit.com/api/v1/access_token"),
        headers: headers(None, config.user_agent.as_str()),
        params,
    };
    assert(request@.params =~= access_token_request_spec(config).params);
    request
}

/// Reads the answer to a request for an access token: the token where it was
/// granted; else the service's message, or the whole body where the answer
/// has no message.
pub fn new_access_token(response: AccessTokenResponse) -> (r: Result<String, String>)
    ensures
        r == match response {
            AccessTokenResponse::Success { access_token } => Ok::<String, String>(access_token),
            AccessTokenResponse::Error { message, .. } => Err(message),
            AccessTokenResponse::Unexpected(body) => Err(body),
        },
{
    match response {
        AccessTokenResponse::Success { access_token } => Ok(access_token),
        AccessTokenResponse::Error { message, .. } => Err(message),
        AccessTokenResponse::Unexpected(body) => Err(body),
    }
}

} // verus!
