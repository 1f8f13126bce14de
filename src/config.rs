//! Server configuration, built once at startup and read-only afterwards.

use vstd::prelude::*;
use vstd::string::{StrSliceExecFns, StringExecFns};

verus! {

/// Where static files are served from, and under which path.
pub struct HTTPConfig {
    pub base_path: String,
    pub dist_path: String,
}

/// The path on which connections are upgraded to the frame protocol.
pub struct WebsocketConfig {
    pub base_path: String,
}

/// Requests under `base_path` are forwarded to `forward_to`.
pub struct ProxyConfig {
    pub base_path: String,
    pub forward_to: String,
}

pub struct ServerConfig {
    pub host: String,
    pub port: u32,
    pub http: HTTPConfig,
    pub websocket: WebsocketConfig,
    pub proxy: ProxyConfig,
}

/// `s` with one `/` appended unless it already ends with one.
pub open spec fn with_slash(s: Seq<char>) -> Seq<char> {
    if s.len() > 0 && s.last() == '/' {
        s
    } else {
        s + "/"@
    }
}

/// `s` with every leading copy of `p` removed; an empty `p` removes nothing.
pub open spec fn trim_start_all(s: Seq<char>, p: Seq<char>) -> Seq<char>
    decreases s.len(),
{
    if p.len() > 0 && p.len() <= s.len() && s.subrange(0, p.len() as int) == p {
        trim_start_all(s.subrange(p.len() as int, s.len() as int), p)
    } else {
        s
    }
}

/// Whether `p` occurs in `s` at char position `at`.
fn occurs_at(s: &str, at: usize, p: &str) -> (r: bool)
    requires
        at <= s@.len(),
    ensures
        r == (at + p@.len() <= s@.len() && s@.subrange(at as int, at + p@.len()) == p@),
{
    let n = s.unicode_len();
    let m = p.unicode_len();
    if m > n - at {
        return false;
    }
    let mut i: usize = 0;
    while i < m
        invariant
            i <= m,
            m == p@.len(),
            n == s@.len(),
            at + m <= n,
            forall|j: int| 0 <= j < i ==> s@[at + j] == p@[j],
        decreases m - i,
    {
        if s.get_char(at + i) != p.get_char(i) {
            assert(s@.subrange(at as int, at + m)[i as int] != p@[i as int]);
            return false;
        }
        i = i + 1;
    }
    assert(s@.subrange(at as int, at + m) =~= p@);
    true
}

/// `s` with every leading copy of `p` removed.
fn trim_start_matches(s: &str, p: &str) -> (r: String)
    ensures
        r@ == trim_start_all(s@, p@),
{
    let n = s.unicode_len();
    let m = p.unicode_len();
    let mut at: usize = 0;
    assert(s@.subrange(0, n as int) =~= s@);
    if m > 0 {
        while occurs_at(s, at, p)
            invariant
                at <= n,
                n == s@.len(),
                m == p@.len(),
                m > 0,
                trim_start_all(s@, p@) == trim_start_all(s@.subrange(at as int, n as int), p@),
            decreases n - at,
        {
            let ghost rest = s@.subrange(at as int, n as int);
            assert(rest.subrange(0, m as int) =~= s@.subrange(at as int, at + m));
            assert(rest.subrange(m as int, rest.len() as int) =~= s@.subrange(at + m, n as int));
            at = at + m;
        }
        let ghost rest = s@.subrange(at as int, n as int);
        assert(m <= rest.len() ==> rest.subrange(0, m as int) =~= s@.subrange(
            at as int,
            at + m,
        ));
    }
    String::from_str(s.substring_char(at, n))
}

fn ends_with_slash(s: &str) -> (r: bool)
    ensures
        r == (s@.len() > 0 && s@.last() == '/'),
{
    let n = s.unicode_len();
    n > 0 && s.get_char(n - 1) == '/'
}

/// `s` with one `/` appended unless it already ends with one.
fn slash_terminated(s: &String) -> (r: String)
    ensures
        r@ == with_slash(s@),
{
    let mut r = s.clone();
    if !ends_with_slash(s.as_str()) {
        r.append("/");
    }
    r
}

impl HTTPConfig {
    /// The route of the index page, under which the base path redirects.
    pub fn index_route(&self) -> (r: String)
        ensures
            r@ == with_slash(self.base_path@) + "index.html"@,
    {
        let mut r = slash_terminated(&self.base_path);
        r.append("index.html");
        r
    }

    /// The route pattern under which the static files are served.
    pub fn files_route(&self) -> (r: String)
        ensures
            r@ == with_slash(self.base_path@) + "*path"@,
    {
        let mut r = slash_terminated(&self.base_path);
        r.append("*path");
        r
    }

    /// The path of a requested file relative to the distribution directory:
    /// the request path without its leading base paths and slashes.
    pub fn relative_path(&self, uri_path: &str) -> (r: String)
        ensures
            r@ == trim_start_all(trim_start_all(uri_path@, self.base_path@), "/"@),
    {
        let rest = trim_start_matches(uri_path, self.base_path.as_str());
        trim_start_matches(rest.as_str(), "/")
    }

    /// Where the file at the relative path `path` lies on disk.
    pub fn file_path(&self, path: &str) -> (r: String)
        ensures
            r@ == self.dist_path@ + "/"@ + path@,
    {
        let mut r = self.dist_path.clone();
        r.append("/");
        r.append(path);
        r
    }
}

impl ProxyConfig {
    /// The route pattern whose requests are forwarded.
    pub fn route(&self) -> (r: String)
        ensures
            r@ == with_slash(self.base_path@) + "*path"@,
    {
        let mut r = slash_terminated(&self.base_path);
        r.append("*path");
        r
    }

    /// The URI a request is forwarded to: the target followed by the
    /// request's path and query without their leading base paths.
    pub fn target_uri(&self, path_and_query: &str) -> (r: String)
        ensures
            r@ == self.forward_to@ + trim_start_all(path_and_query@, self.base_path@),
    {
        let rest = trim_start_matches(path_and_query, self.base_path.as_str());
        let mut r = self.forward_to.clone();
        r.append(rest.as_str());
        r
    }
}

} // verus!
