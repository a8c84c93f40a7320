use vstd::prelude::*;
use vstd::string::*;

verus! {

/// The method of a request.
#[derive(Clone, Copy, Debug, PartialEq, Eq, Structural)]
pub enum Method {
    Get,
    Post,
    Delete,
}

/// One header of a request, or one field of its form.
#[derive(Debug)]
pub struct Param {
    pub name: String,
    pub value: String,
}

/// A request to the service.
#[derive(Debug)]
pub struct Request {
    pub method: Method,
    pub uri: String,
    /// The headers, in the order in which they are set.
    pub headers: Vec<Param>,
    /// The fields of the form, in the order in which they are sent.
    pub params: Vec<Param>,
}

/// A request as plain values.
pub struct RequestView {
    pub method: Method,
    pub uri: Seq<char>,
    pub headers: Seq<(Seq<char>, Seq<char>)>,
    pub params: Seq<(Seq<char>, Seq<char>)>,
}

/// Names and values as plain values, in order.
pub open spec fn pairs(fields: Seq<Param>) -> Seq<(Seq<char>, Seq<char>)> {
    Seq::new(fields.len(), |i: int| (fields[i].name@, fields[i].value@))
}

impl View for Request {
    type V = RequestView;

    open spec fn view(&self) -> RequestView {
        RequestView {
            method: self.method,
            uri: self.uri@,
            headers: pairs(self.headers@),
            params: pairs(self.params@),
        }
    }
}

/// The value of the `Authorization` header that carries an access token.
pub open spec fn bearer_spec(token: Seq<char>) -> Seq<char> {
    "Bearer "@ + token
}

/// The value of the `Authorization` header that carries an access token.
pub fn bearer(token: &str) -> (r: String)
    ensures
        r@ == bearer_spec(token@),
{
    let mut value = String::from_str("Bearer ");
    value.append(token);
    value
}

/// The headers of a request: the user agent on every request, and before it
/// the access token on a request that acts in the user's name.
pub open spec fn headers_spec(access_token: Option<Seq<char>>, user_agent: Seq<char>) -> Seq<
    (Seq<char>, Seq<char>),
> {
    match access_token {
        Some(token) => seq![
            ("Authorization"@, bearer_spec(token)),
            ("User-Agent"@, user_agent),
        ],
        None => seq![("User-Agent"@, user_agent)],
    }
}

/// The headers of a request that acts in the user's name, as every call does
/// that changes or removes something: `Authorization` with the access token
/// as a bearer token, and `User-Agent`.
pub open spec fn signed_headers(access_token: Seq<char>, user_agent: Seq<char>) -> Seq<
    (Seq<char>, Seq<char>),
> {
    headers_spec(Some(access_token), user_agent)
}

/// Builds the headers of a request.
pub fn headers(access_token: Option<&str>, user_agent: &str) -> (r: Vec<Param>)
    ensures
        pairs(r@) == headers_spec(
            match access_token {
                Some(token) => Some(token@),
                None => None,
            },
            user_agent@,
        ),
{
    let mut list: Vec<Param> = Vec::new();
    if let Some(token) = access_token {
        let value = bearer(token);
        list.push(param("Authorization", value.as_str()));
    }
    list.push(param("User-Agent", user_agent));
    assert(pairs(list@) =~= headers_spec(
        match access_token {
            Some(token) => Some(token@),
            None => None,
        },
        user_agent@,
    ));
    list
}

/// One header or one field of a form.
pub fn param(name: &str, value: &str) -> (r: Param)
    ensures
        r.name@ == name@,
        r.value@ == value@,
{
    Param { name: String::from_str(name), value: String::from_str(value) }
}

} // verus!
