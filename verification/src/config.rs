//! The library that the command line works on, and where its Web API lives.
use vstd::prelude::*;

use crate::cli::ProfileArgs;
use crate::error::ZotError;
use crate::text::{
    chars_of, clone_opt, concat2, concat3, find_from, opt_view, push_str, trailing_count, lemma_trailing_count_at, first_occurrence, is_ascii_digit, is_ascii_ws, leading_count,
    lemma_first_occurrence_from, lemma_leading_count, lemma_leading_count_at, string_from_chars,
};

verus! {

/// A user library or a group library, by numeric id.
#[derive(Clone, Debug)]
pub enum LibraryScope {
    User(String),
    Group(String),
}

/// The marker that precedes the numeric user id on a public Zotero profile page.
pub open spec fn profile_marker() -> Seq<char> {
    "\"profileUserID\":"@
}

/// The user id on a profile page: the digits that follow the first marker, after ASCII
/// whitespace; none where there is no marker or no digit there.
pub open spec fn spec_profile_user_id(html: Seq<char>) -> Option<Seq<char>> {
    match first_occurrence(html, profile_marker()) {
        None => None,
        Some(i) => {
            let rest = html.skip(i + profile_marker().len());
            let ws = leading_count(rest, |c: char| is_ascii_ws(c));
            let after = rest.skip(ws as int);
            let n = leading_count(after, |c: char| is_ascii_digit(c));
            if n == 0 {
                None
            } else {
                Some(after.take(n as int))
            }
        },
    }
}

/// Finds the numeric user id on a public Zotero profile page.
pub fn extract_profile_user_id(html: &str) -> (r: Option<String>)
    ensures
        match r {
            Some(s) => spec_profile_user_id(html@) == Some(s@),
            None => spec_profile_user_id(html@) is None,
        },
{
    let h = chars_of(html);
    let marker = chars_of("\"profileUserID\":");
    let found = find_from(&h, &marker, 0);
    let i = match found {
        Some(i) => i,
        None => return None,
    };
    proof {
        lemma_first_occurrence_from(h@, marker@, 0);
    }
    let hl = h.len();
    let start = i + marker.len();
    let ghost rest = h@.skip(start as int);
    let mut p = start;
    while p < h.len() && (h[p] == ' ' || h[p] == '\t' || h[p] == '\n' || h[p] == '\r' || h[p] == '\x0C')
        invariant
            start <= p <= h@.len(),
            rest == h@.skip(start as int),
            forall|t: int| start <= t < p ==> is_ascii_ws(#[trigger] h@[t]),
        decreases h@.len() - p,
    {
        p = p + 1;
    }
    proof {
        let f = |c: char| is_ascii_ws(c);
        assert forall|t: int| 0 <= t < p - start implies f(rest[t]) by {
            assert(rest[t] == h@[start + t]);
        }
        if p < h@.len() {
            assert(rest[p - start] == h@[p as int]);
        }
        lemma_leading_count_at(rest, f, p - start);
    }
    let ghost after = h@.skip(p as int);
    let mut q = p;
    while q < h.len() && '0' <= h[q] && h[q] <= '9'
        invariant
            p <= q <= h@.len(),
            after == h@.skip(p as int),
            forall|t: int| p <= t < q ==> is_ascii_digit(#[trigger] h@[t]),
        decreases h@.len() - q,
    {
        q = q + 1;
    }
    proof {
        let g = |c: char| is_ascii_digit(c);
        assert forall|t: int| 0 <= t < q - p implies g(after[t]) by {
            assert(after[t] == h@[p + t]);
        }
        if q < h@.len() {
            assert(after[q - p] == h@[q as int]);
        }
        lemma_leading_count_at(after, g, q - p);
        assert(rest.skip(p - start) =~= after);
    }
    if q == p {
        None
    } else {
        let s = string_from_chars(&h, p, q);
        assert(s@ =~= after.take(q - p));
        Some(s)
    }
}


/// A URL as the `url` crate parses it: its serialization, host and scheme.
#[derive(Debug, Clone)]
pub struct ParsedUrl {
    pub text: String,
    pub host: Option<String>,
    pub scheme: String,
}

/// The parts of a parsed URL as character sequences.
pub struct UrlParts {
    pub text: Seq<char>,
    pub host: Option<Seq<char>>,
    pub scheme: Seq<char>,
}

impl ParsedUrl {
    /// The parts of the URL.
    pub open spec fn parts(self) -> UrlParts {
        UrlParts { text: self.text@, host: opt_view(self.host), scheme: self.scheme@ }
    }
}

/// What `url::Url::parse` gives for `s`: the parts of the URL, or the text of the parse error.
pub uninterp spec fn url_parse(s: Seq<char>) -> Result<UrlParts, Seq<char>>;

/// Parses a URL with the `url` crate.
///
/// Trusted: the result is what `Url::parse` gives, read through `Url::as_str`,
/// `Url::host_str` and `Url::scheme`, or the `Display` text of its `ParseError`; it is named
/// by `url_parse`, and which texts parse, and to what, is not stated here.
#[verifier::external_body]
pub(crate) fn parse_url(s: &str) -> (r: Result<ParsedUrl, String>)
    ensures
        match r {
            Ok(p) => url_parse(s@) == Ok::<UrlParts, Seq<char>>(p.parts()),
            Err(e) => url_parse(s@) == Err::<UrlParts, Seq<char>>(e@),
        },
{
    match url::Url::parse(s) {
        Ok(u) => Ok(ParsedUrl {
            text: u.as_str().to_owned(),
            host: u.host_str().map(str::to_owned),
            scheme: u.scheme().to_owned(),
        }),
        Err(e) => Err(e.to_string()),
    }
}

/// The Web API of the local Zotero application.
pub open spec fn local_api_base() -> Seq<char> {
    "http://localhost:23119/api"@
}

/// Where the Web API of a library lives, which library it is, and how to authenticate.
#[derive(Debug, Clone)]
pub struct Config {
    pub api_base: ParsedUrl,
    pub api_key: Option<String>,
    pub library: LibraryScope,
    pub local: bool,
}

/// How the library is known: by its id, or by a username whose id must first be looked up
/// on the user's public profile page.
#[derive(Debug, Clone)]
pub enum LibraryChoice {
    Ready(LibraryScope),
    ResolveUsername(String),
}

/// A configuration, or the username whose id is needed to finish it.
#[derive(Debug, Clone)]
pub enum ConfigStep {
    Done(Config),
    ResolveUsername(String),
}

impl LibraryScope {
    /// The path of the library in the Web API.
    pub open spec fn spec_prefix(self) -> Seq<char> {
        match self {
            LibraryScope::User(id) => "users/"@ + id@,
            LibraryScope::Group(id) => "groups/"@ + id@,
        }
    }
}

/// The library that the profile names: exactly one of a user id, a username or a group id.
pub fn choose_library(profile: &ProfileArgs) -> (r: Result<LibraryChoice, ZotError>)
    ensures
        match (opt_view(profile.user_id), opt_view(profile.username), opt_view(profile.group_id)) {
            (Some(u), None, None) => r matches Ok(LibraryChoice::Ready(LibraryScope::User(id))) && id@ == u,
            (None, Some(n), None) => r matches Ok(LibraryChoice::ResolveUsername(x)) && x@ == n,
            (None, None, Some(g)) => r matches Ok(LibraryChoice::Ready(LibraryScope::Group(id))) && id@ == g,
            (None, None, None) => r matches Err(ZotError::MissingLibraryId),
            _ => r matches Err(ZotError::MultipleLibraryIds),
        },
{
    match (&profile.user_id, &profile.username, &profile.group_id) {
        (Some(user_id), None, None) => Ok(LibraryChoice::Ready(LibraryScope::User(user_id.clone()))),
        (None, Some(username), None) => Ok(LibraryChoice::ResolveUsername(username.clone())),
        (None, None, Some(group_id)) => Ok(LibraryChoice::Ready(LibraryScope::Group(group_id.clone()))),
        (None, None, None) => Err(ZotError::MissingLibraryId),
        _ => Err(ZotError::MultipleLibraryIds),
    }
}

impl Config {
    /// The configuration of local mode: the local Web API, the user library `0`, no key.
    pub fn local() -> (r: Result<Config, ZotError>)
        ensures
            match url_parse(local_api_base()) {
                Ok(u) => r matches Ok(c) && c.local && c.api_key is None && c.api_base.parts() == u && (c.library matches LibraryScope::User(id) && id@ == "0"@),
                Err(e) => r matches Err(ZotError::InvalidUrl(m)) && m@ == e,
            },
    {
        let base = "http://localhost:23119/api";
        match parse_url(base) {
            Ok(api_base) => {
                let id = "0".to_owned();
                Ok(Config { api_base, api_key: None, library: LibraryScope::User(id), local: true })
            },
            Err(e) => Err(ZotError::InvalidUrl(e)),
        }
    }

    /// The configuration of the Web API at the profile's base, for a library already known.
    pub fn with_library(profile: &ProfileArgs, library: LibraryScope) -> (r: Result<Config, ZotError>)
        ensures
            match url_parse(profile.api_base@) {
                Ok(u) => r matches Ok(c) && !c.local && opt_view(c.api_key) == opt_view(profile.api_key)
                    && c.api_base.parts() == u && c.library == library,
                Err(e) => r matches Err(ZotError::InvalidUrl(m)) && m@ == e,
            },
    {
        match parse_url(profile.api_base.as_str()) {
            Ok(api_base) => Ok(Config { api_base, api_key: clone_opt(&profile.api_key), library, local: false }),
            Err(e) => Err(ZotError::InvalidUrl(e)),
        }
    }

    /// The configuration that the profile gives: local mode, or the Web API with the library
    /// the profile names; where that library is named by a username, the username whose id
    /// the caller must look up before finishing with `with_library`.
    pub fn from_profile(profile: &ProfileArgs) -> (r: Result<ConfigStep, ZotError>)
        ensures
            profile.local ==> match url_parse(local_api_base()) {
                Ok(u) => r matches Ok(ConfigStep::Done(c)) && c.local && c.api_key is None
                    && c.api_base.parts() == u && (c.library matches LibraryScope::User(id) && id@ == "0"@),
                Err(e) => r matches Err(ZotError::InvalidUrl(m)) && m@ == e,
            },
            !profile.local ==> match (opt_view(profile.user_id), opt_view(profile.username), opt_view(profile.group_id)) {
                (None, Some(n), None) => r matches Ok(ConfigStep::ResolveUsername(x)) && x@ == n,
                (None, None, None) => r matches Err(ZotError::MissingLibraryId),
                (Some(u), None, None) => match url_parse(profile.api_base@) {
                    Ok(b) => r matches Ok(ConfigStep::Done(c)) && !c.local && c.api_base.parts() == b
                        && opt_view(c.api_key) == opt_view(profile.api_key)
                        && (c.library matches LibraryScope::User(id) && id@ == u),
                    Err(e) => r matches Err(ZotError::InvalidUrl(m)) && m@ == e,
                },
                (None, None, Some(g)) => match url_parse(profile.api_base@) {
                    Ok(b) => r matches Ok(ConfigStep::Done(c)) && !c.local && c.api_base.parts() == b
                        && opt_view(c.api_key) == opt_view(profile.api_key)
                        && (c.library matches LibraryScope::Group(id) && id@ == g),
                    Err(e) => r matches Err(ZotError::InvalidUrl(m)) && m@ == e,
                },
                _ => r matches Err(ZotError::MultipleLibraryIds),
            },
    {
        if profile.local {
            return match Config::local() {
                Ok(c) => Ok(ConfigStep::Done(c)),
                Err(e) => Err(e),
            };
        }
        match choose_library(profile) {
            Ok(LibraryChoice::Ready(library)) => match Config::with_library(profile, library) {
                Ok(c) => Ok(ConfigStep::Done(c)),
                Err(e) => Err(e),
            },
            Ok(LibraryChoice::ResolveUsername(username)) => Ok(ConfigStep::ResolveUsername(username)),
            Err(e) => Err(e),
        }
    }

    /// The path of the library in the Web API: `users/<id>` or `groups/<id>`.
    pub fn library_prefix(&self) -> (r: String)
        ensures
            r@ == self.library.spec_prefix(),
    {
        match &self.library {
            LibraryScope::User(id) => concat2("users/", id.as_str()),
            LibraryScope::Group(id) => concat2("groups/", id.as_str()),
        }
    }
}

/// `s` without its trailing slashes, as `str::trim_end_matches('/')` leaves it.
pub open spec fn trim_slashes(s: Seq<char>) -> Seq<char> {
    s.take(s.len() - trailing_count(s, |c: char| c == '/'))
}

fn trimmed_base(s: &str) -> (r: String)
    ensures
        r@ == trim_slashes(s@),
{
    let v = chars_of(s);
    let mut b = v.len();
    while b > 0 && v[b - 1] == '/'
        invariant
            b <= v@.len(),
            forall|t: int| b <= t < v@.len() ==> v@[t] == '/',
        decreases b,
    {
        b = b - 1;
    }
    proof {
        lemma_trailing_count_at(v@, |c: char| c == '/', v@.len() - b);
    }
    string_from_chars(&v, 0, b)
}

impl Config {
    /// The URL of an endpoint outside the library: the base without trailing slashes, `/`,
    /// then the endpoint.
    pub open spec fn spec_absolute_url(self, endpoint: Seq<char>) -> Seq<char> {
        trim_slashes(self.api_base.text@) + "/"@ + endpoint
    }

    /// The URL of an endpoint of the library: the base without trailing slashes, `/`, the
    /// library's path, `/`, then the endpoint.
    pub open spec fn spec_library_url(self, endpoint: Seq<char>) -> Seq<char> {
        trim_slashes(self.api_base.text@) + "/"@ + self.library.spec_prefix() + "/"@ + endpoint
    }

    /// The URL of an endpoint outside the library.
    pub fn absolute_url(&self, endpoint: &str) -> (r: String)
        ensures
            r@ == self.spec_absolute_url(endpoint@),
    {
        let base = trimmed_base(self.api_base.text.as_str());
        concat3(base.as_str(), "/", endpoint)
    }

    /// The URL of an endpoint of the library.
    pub fn library_url(&self, endpoint: &str) -> (r: String)
        ensures
            r@ == self.spec_library_url(endpoint@),
    {
        let base = trimmed_base(self.api_base.text.as_str());
        let mut s = concat3(base.as_str(), "/", self.library_prefix().as_str());
        push_str(&mut s, "/");
        push_str(&mut s, endpoint);
        s
    }
}

/// The public profile page of a Zotero user.
pub open spec fn spec_profile_url(username: Seq<char>) -> Seq<char> {
    "https://www.zotero.org/"@ + username
}

/// The public profile page of a Zotero user, where the numeric id is looked up.
pub fn profile_url(username: &str) -> (r: String)
    ensures
        r@ == spec_profile_url(username@),
{
    concat2("https://www.zotero.org/", username)
}


/// The user id of `username`, read from the user's public profile page `html`; refused where
/// the page holds none.
pub fn resolve_user_id(username: &str, html: &str) -> (r: Result<String, ZotError>)
    ensures
        match spec_profile_user_id(html@) {
            Some(id) => r matches Ok(s) && s@ == id,
            None => r matches Err(ZotError::ProfileIdNotFound(u)) && u@ == username@,
        },
{
    match extract_profile_user_id(html) {
        Some(id) => Ok(id),
        None => Err(ZotError::ProfileIdNotFound(username.to_owned())),
    }
}

} // verus!
