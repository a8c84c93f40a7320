use vstd::prelude::*;
use vstd::string::*;

use crate::cli::Config;
use crate::request::{headers, headers_spec, Method, Request, RequestView};
use crate::things::thing::Thing;
use crate::things::ThingType;

verus! {

/// The address of a kind's listing for a user, before any cursor. Friends
/// have no listing.
pub open spec fn listing_base(kind: ThingType, username: Seq<char>) -> Option<Seq<char>> {
    match kind {
        ThingType::Comments => Some(
            "https://reddit.com/user/"@ + username + "/comments.json?limit=100"@,
        ),
        ThingType::Posts => Some(
            "https://reddit.com/user/"@ + username + "/submitted.json?limit=100"@,
        ),
        ThingType::SavedComments => Some(
            "https://oauth.reddit.com/user/"@ + username + "/saved.json?type=comments&limit=100"@,
        ),
        ThingType::SavedPosts => Some(
            "https://oauth.reddit.com/user/"@ + username + "/saved.json?type=links&limit=100"@,
        ),
        ThingType::Upvoted => Some(
            "https://oauth.reddit.com/user/"@ + username + "/upvoted?limit=100"@,
        ),
        ThingType::Friends => None,
    }
}

/// The address of one page of a listing: the first page where there is no
/// cursor, else the page after the item that the cursor names.
pub open spec fn listing_uri(kind: ThingType, username: Seq<char>, cursor: Option<Seq<char>>) -> Option<
    Seq<char>,
> {
    match listing_base(kind, username) {
        Some(base) => Some(
            match cursor {
                Some(last_seen) => base + "&after="@ + last_seen,
                None => base,
            },
        ),
        None => None,
    }
}

/// Whether the listing of a kind is only given to a request that carries the
/// user's access token.
pub open spec fn needs_token_spec(kind: ThingType) -> bool {
    kind == ThingType::SavedComments || kind == ThingType::SavedPosts || kind
        == ThingType::Upvoted
}

/// Whether the listing of a kind is only given to a request that carries the
/// user's access token.
pub fn needs_token(kind: ThingType) -> (r: bool)
    ensures
        r == needs_token_spec(kind),
{
    match kind {
        ThingType::SavedComments | ThingType::SavedPosts | ThingType::Upvoted => true,
        _ => false,
    }
}

/// A paginator as plain values.
pub struct PaginatorView {
    pub kind: ThingType,
    /// The name of the last item of the last page; `None` before the first
    /// page.
    pub cursor: Option<Seq<char>>,
    /// Whether the listing has ended.
    pub finished: bool,
}

/// Follows a listing of the service page by page. It is not restartable: once
/// the listing has ended, it stays ended.
#[derive(Debug)]
pub struct Paginator {
    kind: ThingType,
    cursor: Option<String>,
    finished: bool,
}

impl PaginatorView {
    /// The request for the next page; none once the listing has ended. It
    /// carries the user agent, and the access token where the listing of the
    /// kind needs it.
    pub open spec fn request(
        self,
        username: Seq<char>,
        access_token: Seq<char>,
        user_agent: Seq<char>,
    ) -> Option<RequestView> {
        if self.finished {
            None
        } else {
            match listing_uri(self.kind, username, self.cursor) {
                Some(uri) => Some(
                    RequestView {
                        method: Method::Get,
                        uri,
                        headers: headers_spec(
                            if needs_token_spec(self.kind) {
                                Some(access_token)
                            } else {
                                None
                            },
                            user_agent,
                        ),
                        params: seq![],
                    },
                ),
                None => None,
            }
        }
    }

    /// The paginator after a page has come in. An empty page ends the
    /// listing. After any other page the cursor is the name of the page's
    /// last item; where that item has no name, the listing ends as well.
    pub open spec fn received(self, page: Seq<Thing>) -> PaginatorView {
        if self.finished {
            self
        } else if page.len() == 0 {
            PaginatorView { finished: true, ..self }
        } else {
            match page.last().fullname_spec() {
                Some(name) => PaginatorView { cursor: Some(name), ..self },
                None => PaginatorView { finished: true, ..self },
            }
        }
    }

    /// The items that a page hands on: all of them, in the page's order,
    /// unless the listing had ended before.
    pub open spec fn yielded(self, page: Seq<Thing>) -> Seq<Thing> {
        if self.finished {
            Seq::empty()
        } else {
            page
        }
    }
}

impl View for Paginator {
    type V = PaginatorView;

    closed spec fn view(&self) -> PaginatorView {
        PaginatorView {
            kind: self.kind,
            cursor: match self.cursor {
                Some(name) => Some(name@),
                None => None,
            },
            finished: self.finished,
        }
    }
}

impl Paginator {
    /// A paginator at the start of the listing of a kind; none for friends,
    /// who have no listing.
    pub fn new(kind: ThingType) -> (r: Option<Paginator>)
        ensures
            match r {
                Some(p) => kind != ThingType::Friends && p@ == (PaginatorView {
                    kind,
                    cursor: None,
                    finished: false,
                }),
                None => kind == ThingType::Friends,
            },
    {
        match kind {
            ThingType::Friends => None,
            _ => Some(Paginator { kind, cursor: None, finished: false }),
        }
    }

    /// Whether the listing has ended.
    pub fn is_finished(&self) -> (r: bool)
        ensures
            r == self@.finished,
    {
        self.finished
    }

    /// The name of the last item seen, if a page has come in.
    pub fn cursor(&self) -> (r: Option<&str>)
        ensures
            match r {
                Some(name) => self@.cursor == Some(name@),
                None => self@.cursor.is_none(),
            },
    {
        match &self.cursor {
            Some(name) => Some(name.as_str()),
            None => None,
        }
    }

    /// The request for the next page of the user's listing; none once the
    /// listing has ended.
    pub fn next_request(&self, access_token: &str, config: &Config) -> (r: Option<Request>)
        ensures
            match r {
                Some(request) => self@.request(
                    config.username@,
                    access_token@,
                    config.user_agent@,
                ) == Some(request@),
                None => self@.request(
                    config.username@,
                    access_token@,
                    config.user_agent@,
                ).is_none(),
            },
    {
        if self.finished {
            return None;
        }
        let (host, path) = match self.kind {
            ThingType::Comments => ("https://reddit.com/user/", "/comments.json?limit=100"),
            ThingType::Posts => ("https://reddit.com/user/", "/submitted.json?limit=100"),
            ThingType::SavedComments => (
                "https://oauth.reddit.com/user/",
                "/saved.json?type=comments&limit=100",
            ),
            ThingType::SavedPosts => (
                "https://oauth.reddit.com/user/",
                "/saved.json?type=links&limit=100",
            ),
            ThingType::Upvoted => ("https://oauth.reddit.com/user/", "/upvoted?limit=100"),
            ThingType::Friends => {
                return None;
            },
        };
        let mut uri = String::from_str(host);
        uri.append(config.username.as_str());
        uri.append(path);
        if let Some(last_seen) = &self.cursor {
            uri.append("&after=");
            uri.append(last_seen.as_str());
        }
        let token = if needs_token(self.kind) {
            Some(access_token)
        } else {
            None
        };
        let request = Request {
            method: Method::Get,
            uri,
            headers: headers(token, config.user_agent.as_str()),
            params: Vec::new(),
        };
        assert(request@.params =~= Seq::<(Seq<char>, Seq<char>)>::empty());
        Some(request)
    }

    /// Takes in one page and hands on its items, in the page's order. An
    /// empty page ends the listing; any other page moves the cursor to the
    /// name of its last item.
    pub fn receive(&mut self, page: Vec<Thing>) -> (r: Vec<Thing>)
        ensures
            final(self)@ == old(self)@.received(page@),
            r@ == old(self)@.yielded(page@),
    {
        if self.finished {
            return Vec::new();
        }
        if page.len() == 0 {
            self.finished = true;
            return page;
        }
        match page[page.len() - 1].fullname() {
            Some(name) => {
                self.cursor = Some(name);
            },
            None => {
                self.finished = true;
            },
        }
        page
    }

    /// Ends the listing after a page could not be fetched or read.
    pub fn fail(&mut self)
        ensures
            final(self)@ == (PaginatorView { finished: true, ..old(self)@ }),
    {
        self.finished = true;
    }
}

/// An empty page ends the listing, hands on nothing and leaves no request to
/// make.
pub proof fn lemma_empty_page_ends_listing(
    p: PaginatorView,
    username: Seq<char>,
    access_token: Seq<char>,
    user_agent: Seq<char>,
)
    ensures
        p.received(Seq::empty()).finished,
        p.yielded(Seq::empty()) == Seq::<Thing>::empty(),
        p.received(Seq::empty()).request(username, access_token, user_agent).is_none(),
{
}

/// After a page that is not empty, the next request carries as its cursor
/// the name of the page's last item.
pub proof fn lemma_cursor_follows_last_item(
    p: PaginatorView,
    page: Seq<Thing>,
    username: Seq<char>,
    access_token: Seq<char>,
    user_agent: Seq<char>,
)
    requires
        !p.finished,
        page.len() > 0,
        page.last().fullname_spec().is_some(),
        listing_base(p.kind, username).is_some(),
    ensures
        p.received(page).cursor == page.last().fullname_spec(),
        !p.received(page).finished,
        p.yielded(page) == page,
        p.received(page).request(username, access_token, user_agent) == Some(
            RequestView {
                method: Method::Get,
                uri: listing_base(p.kind, username).unwrap() + "&after="@
                    + page.last().fullname_spec().unwrap(),
                headers: headers_spec(
                    if needs_token_spec(p.kind) {
                        Some(access_token)
                    } else {
                        None
                    },
                    user_agent,
                ),
                params: seq![],
            },
        ),
{
}

/// The items that a listing hands on while the service answers its requests
/// with `pages`, one page for each request.
pub open spec fn listed(p: PaginatorView, pages: Seq<Seq<Thing>>) -> Seq<Thing>
    decreases pages.len(),
{
    if pages.len() == 0 {
        Seq::empty()
    } else {
        p.yielded(pages.first()) + listed(p.received(pages.first()), pages.drop_first())
    }
}

/// How many requests a listing makes while the service answers them with
/// `pages`, one page for each request, until the listing ends or the pages
/// run out.
pub open spec fn requests_made(p: PaginatorView, pages: Seq<Seq<Thing>>) -> nat
    decreases pages.len(),
{
    if pages.len() == 0 || p.finished {
        0
    } else {
        1 + requests_made(p.received(pages.first()), pages.drop_first())
    }
}

/// A listing that has ended hands on nothing more, whatever pages come.
pub proof fn lemma_ended_listing_is_silent(p: PaginatorView, pages: Seq<Seq<Thing>>)
    requires
        p.finished,
    ensures
        listed(p, pages) == Seq::<Thing>::empty(),
        requests_made(p, pages) == 0,
    decreases pages.len(),
{
    if pages.len() > 0 {
        lemma_ended_listing_is_silent(p.received(pages.first()), pages.drop_first());
    }
}

/// A listing runs up to the first empty page: where the service answers with
/// the pages of `full`, none of them empty, and then with an empty page, the
/// listing hands on the items of `full`, page after page and each page in its
/// order, makes one request for each of those pages and one for the empty
/// page, and nothing after that, whatever else the service would answer.
pub proof fn lemma_listing_runs_to_first_empty_page(
    p: PaginatorView,
    full: Seq<Seq<Thing>>,
    beyond: Seq<Seq<Thing>>,
)
    requires
        !p.finished,
        forall|i: int|
            0 <= i < full.len() ==> (#[trigger] full[i]).len() > 0
                && full[i].last().fullname_spec().is_some(),
    ensures
        listed(p, full + seq![Seq::<Thing>::empty()] + beyond) == full.flatten(),
        requests_made(p, full + seq![Seq::<Thing>::empty()] + beyond) == full.len() + 1,
    decreases full.len(),
{
    let pages = full + seq![Seq::<Thing>::empty()] + beyond;
    if full.len() == 0 {
        assert(pages.first() == Seq::<Thing>::empty());
        lemma_ended_listing_is_silent(p.received(pages.first()), pages.drop_first());
        assert(listed(p, pages) =~= full.flatten());
    } else {
        assert(pages.first() == full[0]);
        assert(pages.drop_first() =~= full.drop_first() + seq![Seq::<Thing>::empty()] + beyond);
        assert forall|i: int| 0 <= i < full.drop_first().len() implies (
        #[trigger] full.drop_first()[i]).len() > 0
            && full.drop_first()[i].last().fullname_spec().is_some() by {
            assert(full.drop_first()[i] == full[i + 1]);
        }
        lemma_listing_runs_to_first_empty_page(p.received(full[0]), full.drop_first(), beyond);
        assert(listed(p, pages) =~= full.flatten());
    }
}

/// A listing that has ended stays ended: later pages change nothing and hand
/// on nothing.
pub proof fn lemma_ended_listing_stays_ended(p: PaginatorView, page: Seq<Thing>)
    requires
        p.finished,
    ensures
        p.received(page) == p,
        p.yielded(page) == Seq::<Thing>::empty(),
{
}

} // verus!
