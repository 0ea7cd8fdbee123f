//! The requests a resolution asks the transport to send, and the replies it gets back.
use vstd::prelude::*;

verus! {

#[derive(Clone, Copy, PartialEq, Eq, Structural, Debug)]
pub enum Method {
    Get,
    Post,
}

/// One HTTP request; `form` is sent form-encoded as the body of a `Post`.
pub struct HttpRequest {
    pub method: Method,
    pub url: String,
    pub headers: Vec<(String, String)>,
    pub form: Vec<(String, String)>,
}

/// What came back for a request: the body, and the cookies the server set.
pub struct HttpReply {
    pub body: String,
    pub cookies: Vec<(String, String)>,
}

pub type PairsView = Seq<(Seq<char>, Seq<char>)>;

pub open spec fn pairs_view(v: Seq<(String, String)>) -> PairsView {
    v.map_values(|p: (String, String)| (p.0@, p.1@))
}

pub struct RequestView {
    pub method: Method,
    pub url: Seq<char>,
    pub headers: PairsView,
    pub form: PairsView,
}

impl View for HttpRequest {
    type V = RequestView;

    open spec fn view(&self) -> RequestView {
        RequestView {
            method: self.method,
            url: self.url@,
            headers: pairs_view(self.headers@),
            form: pairs_view(self.form@),
        }
    }
}

pub struct ReplyView {
    pub body: Seq<char>,
    pub cookies: PairsView,
}

impl View for HttpReply {
    type V = ReplyView;

    open spec fn view(&self) -> ReplyView {
        ReplyView { body: self.body@, cookies: pairs_view(self.cookies@) }
    }
}

/// The browser identity that several couriers require before they answer.
pub const USER_AGENT: &'static str =
    "Mozilla/5.0 (Windows NT 10.0; Win64; x64) AppleWebKit/537.36 (KHTML, like Gecko) Chrome/96.0.4664.45 Safari/537.36";

pub open spec fn agent_headers() -> PairsView {
    seq![("User-Agent"@, USER_AGENT@)]
}

/// A `User-Agent` header with the browser identity.
pub fn agent_header() -> (r: Vec<(String, String)>)
    ensures
        pairs_view(r@) == agent_headers(),
{
    let mut r: Vec<(String, String)> = Vec::new();
    r.push(("User-Agent".to_string(), USER_AGENT.to_string()));
    proof {
        assert(pairs_view(r@) =~= agent_headers());
    }
    r
}

/// No headers.
pub fn no_headers() -> (r: Vec<(String, String)>)
    ensures
        pairs_view(r@) == Seq::<(Seq<char>, Seq<char>)>::empty(),
{
    let r: Vec<(String, String)> = Vec::new();
    proof {
        assert(pairs_view(r@) =~= Seq::<(Seq<char>, Seq<char>)>::empty());
    }
    r
}

pub open spec fn get_view(url: Seq<char>, headers: PairsView) -> RequestView {
    RequestView { method: Method::Get, url, headers, form: Seq::empty() }
}

/// A `Get` of `url` with `headers`.
pub fn get(url: String, headers: Vec<(String, String)>) -> (r: HttpRequest)
    ensures
        r@ == get_view(url@, pairs_view(headers@)),
{
    let r = HttpRequest { method: Method::Get, url, headers, form: Vec::new() };
    proof {
        assert(pairs_view(r.form@) =~= Seq::<(Seq<char>, Seq<char>)>::empty());
    }
    r
}

pub open spec fn post_view(url: Seq<char>, headers: PairsView, form: PairsView) -> RequestView {
    RequestView { method: Method::Post, url, headers, form }
}

/// A `Post` of `form` to `url` with `headers`.
pub fn post(url: String, headers: Vec<(String, String)>, form: Vec<(String, String)>) -> (r:
    HttpRequest)
    ensures
        r@ == post_view(url@, pairs_view(headers@), pairs_view(form@)),
{
    HttpRequest { method: Method::Post, url, headers, form }
}

/// Appends a pair.
pub fn push_pair(v: &mut Vec<(String, String)>, key: &str, value: &str)
    ensures
        pairs_view(final(v)@) == pairs_view(old(v)@).push((key@, value@)),
{
    v.push((key.to_string(), value.to_string()));
    proof {
        assert(pairs_view(final(v)@) =~= pairs_view(old(v)@).push((key@, value@)));
    }
}

/// A list of one pair.
pub fn pair(key: &str, value: &str) -> (r: Vec<(String, String)>)
    ensures
        pairs_view(r@) == seq![(key@, value@)],
{
    let mut r: Vec<(String, String)> = Vec::new();
    r.push((key.to_string(), value.to_string()));
    proof {
        assert(pairs_view(r@) =~= seq![(key@, value@)]);
    }
    r
}

} // verus!
