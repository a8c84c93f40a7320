use vstd::prelude::*;
use vstd::string::*;

use crate::cli::Config;
use crate::request::{headers, param, signed_headers, Method, Param, Request, RequestView};
use crate::things::thing::Thing;

verus! {

/// The request that replaces the text of a comment or a post; other kinds
/// have none. It carries the access token and the user agent.
pub open spec fn edit_request_spec(thing: &Thing, access_token: Seq<char>, config: &Config) -> Option<
    RequestView,
> {
    if thing.has_edit_phase() {
        Some(
            RequestView {
                method: Method::Post,
                uri: "https://oauth.reddit.com/api/editusertext?raw_json=1"@,
                headers: signed_headers(access_token, config.user_agent@),
                params: seq![
                    ("thing_id"@, thing.fullname_spec().unwrap()),
                    ("text"@, config.replacement_comment@),
                ],
            },
        )
    } else {
        None
    }
}

/// The request that removes an item. It carries the access token and the
/// user agent.
pub open spec fn delete_request_spec(thing: &Thing, access_token: Seq<char>, config: &Config) -> RequestView {
    match thing {
        Thing::Friend(f) => RequestView {
            method: Method::Delete,
            uri: "https://oauth.reddit.com/api/v1/me/friends/"@ + f.username@,
            headers: signed_headers(access_token, config.user_agent@),
            params: seq![],
        },
        Thing::Upvoted(_) => RequestView {
            method: Method::Post,
            uri: "https://oauth.reddit.com/api/vote"@,
            headers: signed_headers(access_token, config.user_agent@),
            params: seq![("id"@, thing.fullname_spec().unwrap()), ("dir"@, "0"@)],
        },
        Thing::SavedComment(_) | Thing::SavedPost(_) => RequestView {
            method: Method::Post,
            uri: "https://oauth.reddit.com/api/unsave"@,
            headers: signed_headers(access_token, config.user_agent@),
            params: seq![("id"@, thing.fullname_spec().unwrap())],
        },
        Thing::Comment(_) | Thing::Post(_) => RequestView {
            method: Method::Post,
            uri: "https://oauth.reddit.com/api/del"@,
            headers: signed_headers(access_token, config.user_agent@),
            params: seq![("id"@, thing.fullname_spec().unwrap())],
        },
    }
}

/// The request that fetches a fresh, live copy of an item by its name; a
/// friend has no name to look up. It carries the access token and the user
/// agent.
pub open spec fn lookup_request_spec(thing: &Thing, access_token: Seq<char>, config: &Config) -> Option<
    RequestView,
> {
    match thing.fullname_spec() {
        Some(name) => Some(
            RequestView {
                method: Method::Get,
                uri: "https://oauth.reddit.com/api/info.json?id="@ + name,
                headers: signed_headers(access_token, config.user_agent@),
                params: seq![],
            },
        ),
        None => None,
    }
}

impl Thing {
    /// The request that replaces the item's text with the configured
    /// replacement.
    pub fn edit_request(&self, access_token: &str, config: &Config) -> (r: Option<Request>)
        ensures
            match r {
                Some(request) => edit_request_spec(self, access_token@, config) == Some(request@),
                None => edit_request_spec(self, access_token@, config).is_none(),
            },
    {
        match self {
            Thing::Comment(_) | Thing::Post(_) => {
                let name = self.fullname().unwrap();
                let mut params: Vec<Param> = Vec::new();
                params.push(param("thing_id", name.as_str()));
                params.push(param("text", config.replacement_comment.as_str()));
                let request = Request {
                    method: Method::Post,
                    uri: String::from_str("https://oauth.reddit.com/api/editusertext?raw_json=1"),
                    headers: headers(Some(access_token), config.user_agent.as_str()),
                    params,
                };
                assert(request@.params =~= edit_request_spec(
                    self,
                    access_token@,
                    config,
                ).unwrap().params);
                Some(request)
            },
            _ => None,
        }
    }

    /// The request that removes the item.
    pub fn delete_request(&self, access_token: &str, config: &Config) -> (r: Request)
        ensures
            r@ == delete_request_spec(self, access_token@, config),
    {
        let mut params: Vec<Param> = Vec::new();
        let signed = headers(Some(access_token), config.user_agent.as_str());
        let request = match self {
            Thing::Friend(f) => {
                let mut uri = String::from_str("https://oauth.reddit.com/api/v1/me/friends/");
                uri.append(f.username.as_str());
                Request { method: Method::Delete, uri, headers: signed, params }
            },
            Thing::Upvoted(u) => {
                let name = u.fullname();
                params.push(param("id", name.as_str()));
                params.push(param("dir", "0"));
                Request {
                    method: Method::Post,
                    uri: String::from_str("https://oauth.reddit.com/api/vote"),
                    headers: signed,
                    params,
                }
            },
            Thing::SavedComment(_) | Thing::SavedPost(_) => {
                let name = self.fullname().unwrap();
                params.push(param("id", name.as_str()));
                Request {
                    method: Method::Post,
                    uri: String::from_str("https://oauth.reddit.com/api/unsave"),
                    headers: signed,
                    params,
                }
            },
            Thing::Comment(_) | Thing::Post(_) => {
                let name = self.fullname().unwrap();
                params.push(param("id", name.as_str()));
                Request {
                    method: Method::Post,
                    uri: String::from_str("https://oauth.reddit.com/api/del"),
                    headers: signed,
                    params,
                }
            },
        };
        assert(request@.params =~= delete_request_spec(self, access_token@, config).params);
        request
    }

    /// The request that fetches a fresh, live copy of the item.
    pub fn lookup_request(&self, access_token: &str, config: &Config) -> (r: Option<Request>)
        ensures
            match r {
                Some(request) => lookup_request_spec(self, access_token@, config) == Some(
                    request@,
                ),
                None => lookup_request_spec(self, access_token@, config).is_none(),
            },
    {
        match self.fullname() {
            Some(name) => {
                let mut uri = String::from_str("https://oauth.reddit.com/api/info.json?id=");
                uri.append(name.as_str());
                let request = Request {
                    method: Method::Get,
                    uri,
                    headers: headers(Some(access_token), config.user_agent.as_str()),
                    params: Vec::new(),
                };
                assert(request@.params =~= Seq::<(Seq<char>, Seq<char>)>::empty());
                Some(request)
            },
            None => None,
        }
    }
}

/// Every call that changes or removes something carries the user's access
/// token as a bearer token and the configured user agent: the edit of any
/// item that has one, and the removal of any item.
pub proof fn lemma_destructive_calls_are_signed(
    thing: &Thing,
    access_token: Seq<char>,
    config: &Config,
)
    ensures
        delete_request_spec(thing, access_token, config).headers == seq![
            ("Authorization"@, "Bearer "@ + access_token),
            ("User-Agent"@, config.user_agent@),
        ],
        match edit_request_spec(thing, access_token, config) {
            Some(request) => request.headers == seq![
                ("Authorization"@, "Bearer "@ + access_token),
                ("User-Agent"@, config.user_agent@),
            ],
            None => !thing.has_edit_phase(),
        },
{
}

} // verus!
