//! The client of the Zotero Web API: the requests it sends and how it reads the answers.
//!
//! The client decides what to send and what an answer means; sending and receiving is left
//! to the caller, which performs each `HttpRequest` and hands the answer back.
use vstd::prelude::*;

use crate::api::{params_view, opt_param, ExportRequest, ItemsRequest, PageRequest, TagsRequest};
use crate::config::{Config, LibraryScope};
use crate::error::ZotError;
use crate::json::JsonValue;
use crate::text::{chars_of, concat2, concat3, contains_seq, contains_str, decimal, decimal_string, opt_view};

verus! {

/// An HTTP method.
#[derive(Clone, Copy, Debug, PartialEq, Eq, Structural)]
pub enum Method {
    Get,
    Post,
    Patch,
    Delete,
}

/// The body of a request.
#[derive(Debug)]
pub enum Body {
    Empty,
    Json(JsonValue),
    Form(Vec<(String, String)>),
    Bytes(Vec<u8>),
}

/// A request to send: method, URL, query parameters, headers and body.
#[derive(Debug)]
pub struct HttpRequest {
    pub method: Method,
    pub url: String,
    pub query: Vec<(String, String)>,
    pub headers: Vec<(String, String)>,
    pub body: Body,
}

/// Name and value pairs as character sequences.
pub open spec fn pairs_view(p: Seq<(String, String)>) -> Seq<(Seq<char>, Seq<char>)> {
    p.map_values(|x: (String, String)| (x.0@, x.1@))
}

/// Appends one pair.
pub fn push_pair(pairs: &mut Vec<(String, String)>, name: &str, value: String)
    ensures
        pairs_view(final(pairs)@) == pairs_view(old(pairs)@).push((name@, value@)),
{
    let ghost before = pairs@;
    pairs.push((name.to_owned(), value));
    assert(pairs_view(pairs@) =~= pairs_view(before).push((name@, value@)));
}

/// Query parameters with owned names.
pub fn owned_params(params: Vec<(&str, String)>) -> (r: Vec<(String, String)>)
    ensures
        pairs_view(r@) == params_view(params@),
{
    let mut r: Vec<(String, String)> = Vec::new();
    let mut i: usize = 0;
    while i < params.len()
        invariant
            0 <= i <= params@.len(),
            pairs_view(r@) == params_view(params@).take(i as int),
        decreases params@.len() - i,
    {
        let (name, value) = &params[i];
        push_pair(&mut r, name, value.clone());
        assert(params_view(params@).take(i + 1) =~= params_view(params@).take(i as int).push(
            (name@, value@),
        ));
        i = i + 1;
    }
    assert(params_view(params@).take(params@.len() as int) =~= params_view(params@));
    r
}

fn copy_pairs(p: &Vec<(String, String)>) -> (r: Vec<(String, String)>)
    ensures
        pairs_view(r@) == pairs_view(p@),
{
    let mut r: Vec<(String, String)> = Vec::new();
    let mut i: usize = 0;
    while i < p.len()
        invariant
            0 <= i <= p@.len(),
            pairs_view(r@) == pairs_view(p@).take(i as int),
        decreases p@.len() - i,
    {
        push_pair(&mut r, p[i].0.as_str(), p[i].1.clone());
        assert(pairs_view(p@).take(i + 1) =~= pairs_view(p@).take(i as int).push((p@[i as int].0@, p@[i as int].1@)));
        i = i + 1;
    }
    assert(pairs_view(p@).take(p@.len() as int) =~= pairs_view(p@));
    r
}

/// A `GET` of `url` with the query `query`, without headers of its own.
pub open spec fn is_get(r: HttpRequest, url: Seq<char>, query: Seq<(Seq<char>, Seq<char>)>) -> bool {
    &&& r.method == Method::Get
    &&& r.url@ == url
    &&& pairs_view(r.query@) == query
    &&& r.headers@.len() == 0
    &&& r.body is Empty
}

fn get(url: String, query: Vec<(String, String)>) -> (r: HttpRequest)
    ensures
        is_get(r, url@, pairs_view(query@)),
{
    HttpRequest { method: Method::Get, url, query, headers: Vec::new(), body: Body::Empty }
}

/// A listing: the URL, its own parameters, and how it is paged.
#[derive(Debug)]
pub struct ListRequest {
    pub url: String,
    pub params: Vec<(String, String)>,
    pub page: PageRequest,
}

impl ListRequest {
    /// The query of the page that begins at `start`: the listing's parameters, then the paging.
    pub fn query(&self, start: u32) -> (r: Vec<(String, String)>)
        ensures
            pairs_view(r@) == self.page.spec_params(pairs_view(self.params@), start),
    {
        let mut q = copy_pairs(&self.params);
        let ghost given = pairs_view(q@);
        push_pair(&mut q, "limit", decimal_string(self.page.limit as u64));
        push_pair(&mut q, "start", decimal_string(start as u64));
        if let Some(sort) = &self.page.sort {
            push_pair(&mut q, "sort", sort.clone());
        }
        if let Some(direction) = &self.page.direction {
            push_pair(&mut q, "direction", direction.clone());
        }
        assert(pairs_view(q@) =~= self.page.spec_params(given, start));
        q
    }

    /// The request of the page that begins at `start`.
    pub fn page_request(&self, start: u32) -> (r: HttpRequest)
        ensures
            is_get(r, self.url@, self.page.spec_params(pairs_view(self.params@), start)),
    {
        get(self.url.clone(), self.query(start))
    }

    /// Where the next page begins, after a page that began at `start` gave `received` entries:
    /// only when every page is asked for and the page was full.
    pub fn next_start(&self, start: u32, received: usize) -> (r: Option<u32>)
        requires
            self.page.all && received >= self.page.limit ==> start + received <= u32::MAX,
        ensures
            r == (if self.page.all && received >= self.page.limit { Some((start + received) as u32) } else { None }),
    {
        if self.page.all && received >= self.page.limit as usize {
            Some(start + received as u32)
        } else {
            None
        }
    }
}

impl ListRequest {
    /// The listing after one more page that began at `start`: the entries gathered so far
    /// followed by the page's, in order, and where the next page begins, see
    /// [`ListRequest::next_start`].
    pub fn append_page<T>(&self, entries: Vec<T>, start: u32, page: Vec<T>) -> (r: (Vec<T>, Option<u32>))
        requires
            self.page.all && page@.len() >= self.page.limit ==> start + page@.len() <= u32::MAX,
        ensures
            r.0@ == entries@ + page@,
            r.1 == (if self.page.all && page@.len() >= self.page.limit {
                Some((start + page@.len()) as u32)
            } else {
                None
            }),
    {
        let received = page.len();
        let mut entries = entries;
        let mut page = page;
        entries.append(&mut page);
        (entries, self.next_start(start, received))
    }
}

/// Whether the text can be sent as an HTTP header value: tabs and characters from the space
/// up, except DEL.
pub open spec fn header_value_ok(s: Seq<char>) -> bool {
    forall|i: int| 0 <= i < s.len() ==> (s[i] == '\t' || (' ' <= #[trigger] s[i] && s[i] != '\x7f'))
}

fn is_header_value(s: &str) -> (b: bool)
    ensures
        b == header_value_ok(s@),
{
    let v = chars_of(s);
    let mut i: usize = 0;
    while i < v.len()
        invariant
            0 <= i <= v@.len(),
            v@ == s@,
            forall|j: int| 0 <= j < i ==> (v@[j] == '\t' || (' ' <= #[trigger] v@[j] && v@[j] != '\x7f')),
        decreases v@.len() - i,
    {
        let c = v[i];
        if !(c == '\t' || (' ' <= c && c != '\x7f')) {
            return false;
        }
        i = i + 1;
    }
    true
}

/// The user agent of the command line.
pub fn user_agent() -> (s: &'static str)
    ensures
        s@ == "zot/0.1.2"@,
{
    "zot/0.1.2"
}

/// Whether an HTTP status is a success.
pub open spec fn is_success(status: u16) -> bool {
    200 <= status <= 299
}

/// Whether an HTTP status is a success, see [`is_success`].
pub fn status_is_success(status: u16) -> (b: bool)
    ensures
        b == is_success(status),
{
    200 <= status && status <= 299
}

/// The client of one library's Web API.
#[derive(Debug, Clone)]
pub struct ZoteroClient {
    pub config: Config,
}

impl ZoteroClient {
    /// A client for the configuration; refused where the API key cannot be sent as a header.
    pub fn new(config: Config) -> (r: Result<ZoteroClient, ZotError>)
        ensures
            match opt_view(config.api_key) {
                Some(k) => if header_value_ok(k) {
                    r matches Ok(c) && c.config == config
                } else {
                    r matches Err(ZotError::InvalidApiKey)
                },
                None => r matches Ok(c) && c.config == config,
            },
    {
        if let Some(key) = &config.api_key {
            if !is_header_value(key.as_str()) {
                return Err(ZotError::InvalidApiKey);
            }
        }
        Ok(ZoteroClient { config })
    }

    /// The headers of every request: the API version, and the key where there is one.
    pub open spec fn spec_default_headers(self) -> Seq<(Seq<char>, Seq<char>)> {
        seq![("zotero-api-version"@, "3"@)] + opt_param("zotero-api-key"@, opt_view(self.config.api_key))
    }

    /// The headers of every request.
    pub fn default_headers(&self) -> (r: Vec<(String, String)>)
        ensures
            pairs_view(r@) == self.spec_default_headers(),
    {
        let mut h: Vec<(String, String)> = Vec::new();
        push_pair(&mut h, "zotero-api-version", "3".to_owned());
        if let Some(key) = &self.config.api_key {
            push_pair(&mut h, "zotero-api-key", key.clone());
        }
        assert(pairs_view(h@) =~= self.spec_default_headers());
        h
    }

    /// A search of the library's items: the query and its mode, and trashed items where asked.
    pub fn search_items(&self, query: &str, page: PageRequest, qmode: &str, include_trashed: bool) -> (r: ListRequest)
        ensures
            r.url@ == self.config.spec_library_url("items"@),
            pairs_view(r.params@) == seq![("q"@, query@), ("qmode"@, qmode@)]
                + (if include_trashed { seq![("includeTrashed"@, "1"@)] } else { seq![] }),
            r.page == page,
    {
        let mut params: Vec<(String, String)> = Vec::new();
        push_pair(&mut params, "q", query.to_owned());
        push_pair(&mut params, "qmode", qmode.to_owned());
        if include_trashed {
            push_pair(&mut params, "includeTrashed", "1".to_owned());
        }
        let ghost p = pairs_view(params@);
        assert(p =~= seq![("q"@, query@), ("qmode"@, qmode@)]
            + (if include_trashed { seq![("includeTrashed"@, "1"@)] } else { seq![] }));
        ListRequest { url: self.config.library_url("items"), params, page }
    }

    /// A listing of items, refused where the filters exclude each other.
    pub fn items(&self, request: ItemsRequest) -> (r: Result<ListRequest, ZotError>)
        ensures
            match crate::api::spec_item_list_endpoint(opt_view(request.collection), request.top, request.trash) {
                Ok(e) => r matches Ok(l) && l.url@ == self.config.spec_library_url(e)
                    && pairs_view(l.params@) == opt_param("tag"@, opt_view(request.tag)) && l.page == request.page,
                Err(e) => r == Err::<ListRequest, ZotError>(e),
            },
    {
        let endpoint = match request.endpoint() {
            Ok(e) => e,
            Err(e) => return Err(e),
        };
        let params = owned_params(request.params());
        Ok(ListRequest { url: self.config.library_url(endpoint.as_str()), params, page: request.page })
    }

    /// A listing of tags, refused where the filters exclude each other.
    pub fn tags(&self, request: TagsRequest) -> (r: Result<ListRequest, ZotError>)
        ensures
            match request.spec_endpoint() {
                Ok(e) => r matches Ok(l) && l.url@ == self.config.spec_library_url(e)
                    && pairs_view(l.params@) == seq![("qmode"@, request.qmode@)] + opt_param("q"@, opt_view(request.query))
                    && l.page == request.page,
                Err(e) => r == Err::<ListRequest, ZotError>(e),
            },
    {
        let endpoint = match request.endpoint() {
            Ok(e) => e,
            Err(e) => return Err(e),
        };
        let params = owned_params(request.params());
        Ok(ListRequest { url: self.config.library_url(endpoint.as_str()), params, page: request.page })
    }

    /// An export in a bibliographic format, refused where the filters exclude each other.
    pub fn export(&self, request: &ExportRequest) -> (r: Result<HttpRequest, ZotError>)
        ensures
            match request.spec_endpoint() {
                Ok(e) => r matches Ok(q) && is_get(q, self.config.spec_library_url(e), request.spec_params()),
                Err(e) => r == Err::<HttpRequest, ZotError>(e),
            },
    {
        let endpoint = match request.endpoint() {
            Ok(e) => e,
            Err(e) => return Err(e),
        };
        Ok(get(self.config.library_url(endpoint.as_str()), owned_params(request.params())))
    }

    /// A listing of collections: all or the top-level ones, filtered by a query where given.
    pub fn collections(&self, query: Option<&str>, page: PageRequest, top: bool) -> (r: ListRequest)
        ensures
            r.url@ == self.config.spec_library_url(if top { "collections/top"@ } else { "collections"@ }),
            pairs_view(r.params@) == opt_param("q"@, match query { Some(q) => Some(q@), None => None }),
            r.page == page,
    {
        let endpoint = if top { "collections/top" } else { "collections" };
        let mut params: Vec<(String, String)> = Vec::new();
        if let Some(q) = query {
            push_pair(&mut params, "q", q.to_owned());
        }
        assert(pairs_view(params@) =~= opt_param("q"@, match query { Some(q) => Some(q@), None => None }));
        ListRequest { url: self.config.library_url(endpoint), params, page }
    }

    /// The groups of the user: refused for a group library and in local mode.
    pub fn groups(&self, limit: u16) -> (r: Result<HttpRequest, ZotError>)
        ensures
            match self.config.library {
                LibraryScope::Group(_) => r matches Err(ZotError::GroupsNeedUserLibrary),
                LibraryScope::User(id) => if self.config.local {
                    r matches Err(ZotError::GroupsInLocalMode)
                } else {
                    r matches Ok(q) && is_get(q, self.config.spec_absolute_url("users/"@ + id@ + "/groups"@),
                        seq![("limit"@, decimal(limit as nat))])
                },
            },
    {
        let user_id = match &self.config.library {
            LibraryScope::User(id) => id,
            LibraryScope::Group(_) => return Err(ZotError::GroupsNeedUserLibrary),
        };
        if self.config.local {
            return Err(ZotError::GroupsInLocalMode);
        }
        let endpoint = concat3("users/", user_id.as_str(), "/groups");
        let mut query: Vec<(String, String)> = Vec::new();
        push_pair(&mut query, "limit", decimal_string(limit as u64));
        assert(pairs_view(query@) =~= seq![("limit"@, decimal(limit as nat))]);
        Ok(get(self.config.absolute_url(endpoint.as_str()), query))
    }

    /// One item.
    pub fn item(&self, key: &str) -> (r: HttpRequest)
        ensures
            is_get(r, self.config.spec_library_url("items/"@ + key@), seq![]),
    {
        let endpoint = concat2("items/", key);
        let r = get(self.config.library_url(endpoint.as_str()), Vec::new());
        assert(pairs_view(r.query@) =~= seq![]);
        r
    }

    /// The children of an item.
    pub fn item_children(&self, key: &str) -> (r: HttpRequest)
        ensures
            is_get(r, self.config.spec_library_url("items/"@ + key@ + "/children"@), seq![]),
    {
        let endpoint = concat3("items/", key, "/children");
        let r = get(self.config.library_url(endpoint.as_str()), Vec::new());
        assert(pairs_view(r.query@) =~= seq![]);
        r
    }

    /// At most `limit` children of an item.
    pub fn item_children_limited(&self, key: &str, limit: u16) -> (r: HttpRequest)
        ensures
            is_get(r, self.config.spec_library_url("items/"@ + key@ + "/children"@), seq![("limit"@, decimal(limit as nat))]),
    {
        let endpoint = concat3("items/", key, "/children");
        let mut query: Vec<(String, String)> = Vec::new();
        push_pair(&mut query, "limit", decimal_string(limit as u64));
        assert(pairs_view(query@) =~= seq![("limit"@, decimal(limit as nat))]);
        get(self.config.library_url(endpoint.as_str()), query)
    }

    /// A download of `url` with the client's credentials.
    pub fn download_authenticated(&self, url: &str) -> (r: HttpRequest)
        ensures
            is_get(r, url@, seq![]),
    {
        let r = get(url.to_owned(), Vec::new());
        assert(pairs_view(r.query@) =~= seq![]);
        r
    }

    /// The error that an answer which is no success (status written `status_text`, as in
    /// `404 Not Found`) with body `body` means: the local Web API being disabled, or an error of
    /// the Web API.
    pub fn answer_error(&self, status_text: &str, body: &str) -> (e: ZotError)
        ensures
            self.config.local && contains_seq(body@, "Local API is not enabled"@)
                ==> (e matches ZotError::LocalApiDisabled(b) && b@ == self.config.api_base.text@),
            !(self.config.local && contains_seq(body@, "Local API is not enabled"@))
                ==> (e matches ZotError::Api(s, t) && s@ == status_text@ && t@ == body@),
    {
        if self.config.local && contains_str(body, "Local API is not enabled") {
            ZotError::LocalApiDisabled(self.config.api_base.text.clone())
        } else {
            ZotError::Api(status_text.to_owned(), body.to_owned())
        }
    }

    /// What an answer with status `status` (written `status_text`, as in `404 Not Found`) and
    /// body `body` means: success, the local Web API being disabled, or an error of the Web API.
    pub fn require_success(&self, status: u16, status_text: &str, body: &str) -> (r: Result<(), ZotError>)
        ensures
            is_success(status) ==> r is Ok,
            !is_success(status) && self.config.local && contains_seq(body@, "Local API is not enabled"@)
                ==> (r matches Err(ZotError::LocalApiDisabled(b)) && b@ == self.config.api_base.text@),
            !is_success(status) && !(self.config.local && contains_seq(body@, "Local API is not enabled"@))
                ==> (r matches Err(ZotError::Api(s, t)) && s@ == status_text@ && t@ == body@),
    {
        if status_is_success(status) {
            Ok(())
        } else {
            Err(self.answer_error(status_text, body))
        }
    }

    /// The error of a request that got no answer: in local mode a failed connection means the
    /// local Web API is not running; otherwise the transport's own message.
    pub fn request_error(&self, is_connect: bool, message: &str) -> (r: ZotError)
        ensures
            self.config.local && is_connect ==> (r matches ZotError::LocalConnectFailed(b) && b@ == self.config.api_base.text@),
            !(self.config.local && is_connect) ==> (r matches ZotError::Transport(m) && m@ == message@),
    {
        if self.config.local && is_connect {
            ZotError::LocalConnectFailed(self.config.api_base.text.clone())
        } else {
            ZotError::Transport(message.to_owned())
        }
    }
}

} // verus!
