//! Request dispatch: which action an HTTP request line selects.
//!
//! The route-planning pipeline answers a health probe, a cached-path
//! lookup (a GET whose path carries an id behind `:`), and a path
//! computation (a POST with the payload as its body).  Everything
//! else is left to the next handler.

use vstd::prelude::*;
use vstd::string::StringExecFns;

use crate::config::ServerType;
use crate::service::Service;
use crate::strutil::find_sep;

verus! {

/// `pat` occurs in `s` starting at `i`.
pub open spec fn spec_contains_at(s: Seq<char>, pat: Seq<char>, i: int) -> bool {
    0 <= i && i + pat.len() <= s.len() && s.subrange(i, i + pat.len()) == pat
}

/// `pat` occurs somewhere in `s`.
pub open spec fn spec_contains(s: Seq<char>, pat: Seq<char>) -> bool {
    exists|i: int| spec_contains_at(s, pat, i)
}

/// Whether two strings hold the same characters.
pub fn str_eq(a: &str, b: &str) -> (r: bool)
    ensures
        r == (a@ == b@),
{
    let n = a.unicode_len();
    if n != b.unicode_len() {
        proof {
            assert(a@ != b@);
        }
        return false;
    }
    let mut i: usize = 0;
    while i < n
        invariant
            0 <= i <= n,
            n == a@.len(),
            n == b@.len(),
            forall|j: int| 0 <= j < i ==> a@[j] == b@[j],
        decreases n - i,
    {
        if a.get_char(i) != b.get_char(i) {
            proof {
                assert(a@[i as int] != b@[i as int]);
            }
            return false;
        }
        i = i + 1;
    }
    proof {
        assert(a@ =~= b@);
    }
    true
}

fn matches_at(s: &str, pat: &str, i: usize) -> (r: bool)
    requires
        i + pat@.len() <= s@.len(),
    ensures
        r == spec_contains_at(s@, pat@, i as int),
{
    let m = pat.unicode_len();
    let ln = s.unicode_len();
    let mut j: usize = 0;
    while j < m
        invariant
            0 <= j <= m,
            m == pat@.len(),
            ln == s@.len(),
            i + m <= s@.len(),
            forall|k: int| 0 <= k < j ==> s@[i + k] == pat@[k],
        decreases m - j,
    {
        if s.get_char(i + j) != pat.get_char(j) {
            proof {
                assert(s@.subrange(i as int, i as int + m as int) != pat@) by {
                    assert(s@.subrange(i as int, i as int + m as int)[j as int] == s@[i + j]);
                }
            }
            return false;
        }
        j = j + 1;
    }
    proof {
        assert(s@.subrange(i as int, i as int + m as int) =~= pat@);
    }
    true
}

/// Whether `pat` occurs in `s`.
pub fn str_contains(s: &str, pat: &str) -> (r: bool)
    ensures
        r == spec_contains(s@, pat@),
{
    let n = s.unicode_len();
    let m = pat.unicode_len();
    if m > n {
        proof {
            assert(!spec_contains(s@, pat@)) by {
                assert(forall|i: int| !spec_contains_at(s@, pat@, i));
            }
        }
        return false;
    }
    if m == 0 {
        proof {
            assert(spec_contains_at(s@, pat@, 0)) by {
                assert(s@.subrange(0, 0) =~= pat@);
            }
        }
        return true;
    }
    let mut i: usize = 0;
    while i <= n - m
        invariant
            0 <= i <= n - m + 1,
            1 <= m <= n,
            n == s@.len(),
            m == pat@.len(),
            forall|k: int| 0 <= k < i ==> !spec_contains_at(s@, pat@, k),
        decreases n + 1 - m - i,
    {
        if matches_at(s, pat, i) {
            return true;
        }
        i = i + 1;
    }
    proof {
        assert(!spec_contains(s@, pat@)) by {
            assert(forall|k: int| k >= i ==> !spec_contains_at(s@, pat@, k));
        }
    }
    false
}

/// Index of the first occurrence of `c` in `s`, if any.
pub fn find_char(s: &str, c: char) -> (r: Option<usize>)
    ensures
        match r {
            Option::Some(i) => find_sep(s@, c) == i as int,
            Option::None => find_sep(s@, c) == -1,
        },
{
    let n = s.unicode_len();
    let mut i: usize = 0;
    while i < n
        invariant
            0 <= i <= n,
            n == s@.len(),
            forall|j: int| 0 <= j < i ==> s@[j] != c,
        decreases n - i,
    {
        if s.get_char(i) == c {
            proof {
                crate::strutil::lemma_find_sep_is(s@, c, i as int);
            }
            return Option::Some(i);
        }
        i = i + 1;
    }
    proof {
        crate::strutil::lemma_find_sep_none(s@, c);
    }
    Option::None
}

/// The action an HTTP request line selects.
pub enum ApiRoute {
    /// Answer the health probe.
    Health,
    /// Look a cached path up by this id.
    GetId(String),
    /// Compute a path from the request body.
    FindPath,
    /// Leave the request to the next handler.
    NotHandled,
}

/// The routing rule: a GET touching the health path answers the
/// probe; a GET touching the navigation path looks up the id behind
/// the first `:`, if there is one; a POST touching the navigation
/// path computes a path; everything else goes to the next handler.
pub open spec fn spec_route(method: Seq<char>, path: Seq<char>, r: ApiRoute) -> bool {
    &&& method == "GET"@ && spec_contains(path, "/api/v1/health"@) ==> r is Health
    &&& method == "GET"@ && !spec_contains(path, "/api/v1/health"@) && spec_contains(
        path,
        "/api/v1/navi"@,
    ) ==> {
        if find_sep(path, ':') >= 0 {
            r matches ApiRoute::GetId(id) && id@ == path.subrange(
                find_sep(path, ':') + 1,
                path.len() as int,
            )
        } else {
            r is NotHandled
        }
    }
    &&& method == "GET"@ && !spec_contains(path, "/api/v1/health"@) && !spec_contains(
        path,
        "/api/v1/navi"@,
    ) ==> r is NotHandled
    &&& method == "POST"@ && spec_contains(path, "/api/v1/navi"@) ==> r is FindPath
    &&& method == "POST"@ && !spec_contains(path, "/api/v1/navi"@) ==> r is NotHandled
    &&& method != "GET"@ && method != "POST"@ ==> r is NotHandled
}

/// The route an HTTP method and path select.
pub fn route_api_request(method: &str, path: &str) -> (r: ApiRoute)
    ensures
        spec_route(method@, path@, r),
{
    proof {
        broadcast use vstd::string::group_string_axioms;

        reveal_strlit("GET");
        reveal_strlit("POST");
        assert("GET"@.len() == 3);
        assert("POST"@.len() == 4);
    }
    if str_eq(method, "GET") {
        if str_contains(path, "/api/v1/health") {
            ApiRoute::Health
        } else if str_contains(path, "/api/v1/navi") {
            match find_char(path, ':') {
                Option::Some(pos) => {
                    let n = path.unicode_len();
                    proof {
                        crate::strutil::lemma_find_sep_bounds(path@, ':');
                    }
                    let id = path.substring_char(pos + 1, n);
                    ApiRoute::GetId(String::from_str(id))
                },
                Option::None => ApiRoute::NotHandled,
            }
        } else {
            ApiRoute::NotHandled
        }
    } else if str_eq(method, "POST") {
        if str_contains(path, "/api/v1/navi") {
            ApiRoute::FindPath
        } else {
            ApiRoute::NotHandled
        }
    } else {
        ApiRoute::NotHandled
    }
}

/// The route-planning backend behind the HTTP layer.
pub struct ApiServer {
    services: Service,
}

impl ApiServer {
    /// Wraps the orchestrator for the HTTP layer.
    pub fn new(services: Service) -> (r: ApiServer)
        ensures
            r.services_view() == services@,
    {
        ApiServer { services }
    }

    /// The orchestrator's state.
    pub closed spec fn services_view(&self) -> crate::service::ServiceView {
        self.services@
    }

    /// The action a request line selects.
    pub fn route(&self, method: &str, path: &str) -> (r: ApiRoute)
        ensures
            spec_route(method@, path@, r),
    {
        route_api_request(method, path)
    }

    /// The health probe's answer.
    pub fn health_body(&self) -> (r: String)
        ensures
            r@ == "health"@,
    {
        String::from_str("health")
    }

    /// A cached path by its id; `None` is a miss the HTTP layer turns
    /// into a failure response.  The lookup changes nothing.
    pub fn get_id(&mut self, id: &String) -> (r: Option<String>)
        ensures
            final(self).services_view() == old(self).services_view(),
            match r {
                Option::Some(v) => crate::cache::spec_cache_lookup(
                    old(self).services_view().cache.store,
                    id@,
                ) == Option::Some(v@),
                Option::None => crate::cache::spec_cache_lookup(
                    old(self).services_view().cache.store,
                    id@,
                ) is None,
            },
    {
        self.services.get_value(id)
    }

    /// The orchestrator, for driving a path computation.
    pub fn services(&self) -> (r: &Service)
        ensures
            r@ == self.services_view(),
    {
        &self.services
    }

    /// The orchestrator, for steps that write the cache.
    pub fn services_mut(&mut self) -> (r: &mut Service)
        ensures
            (*r)@ == old(self).services_view(),
            final(self).services_view() == (*final(r))@,
    {
        &mut self.services
    }
}

/// Handler that serves the route-planning backend.
pub struct ApiServerHandler {
    /// The backend the handler drives.
    pub api_server: ApiServer,
}

/// Handler that serves the static-file backend; the file store itself
/// lives outside this pipeline.
pub struct FileServerHandler {}

/// Whether a configured backend can be served at all: the dispatch
/// layer refuses to start on an unknown backend.
pub fn backend_is_served(action: &ServerType) -> (r: bool)
    ensures
        r <==> !(action is UnknownServices),
{
    match action {
        ServerType::UnknownServices => false,
        ServerType::FileServices => true,
        ServerType::ApiServices => true,
    }
}

} // verus!
