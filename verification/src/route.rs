use vstd::prelude::*;

use crate::client_options::ClientOptionsInternal;

verus! {

/// The scheme of a route: `https` over a secure transport, `http` otherwise.
pub open spec fn scheme(secure: bool) -> Seq<char> {
    if secure {
        "https"@
    } else {
        "http"@
    }
}

/// The address of `route` on the instance at `domain`:
/// `http[s]://{domain}/api/v4/{route}`, with domain and route as they are.
pub open spec fn route_of(route: Seq<char>, domain: Seq<char>, secure: bool) -> Seq<char> {
    scheme(secure) + "://"@ + domain + "/api/v4/"@ + route
}

/// The address of `route`, which has no leading slash, on the instance that
/// `options` names.
pub fn build_route(route: &str, options: &ClientOptionsInternal) -> (address: String)
    ensures
        address@ == route_of(route@, options.domain@, options.secure),
{
    let mut address = String::from_str("http");
    if options.secure {
        address.append("s");
    }
    proof {
        reveal_strlit("http");
        reveal_strlit("https");
        reveal_strlit("s");
        assert(address@ =~= scheme(options.secure));
    }
    address.append("://");
    address.append(options.domain.as_str());
    address.append("/api/v4/");
    address.append(route);
    address
}

/// Whether `text` has a slash at `i` and another right behind it.
pub open spec fn double_slash_at(text: Seq<char>, i: int) -> bool {
    0 <= i && i + 1 < text.len() && text[i] == '/' && text[i + 1] == '/'
}

/// Whether a domain and a route can be joined without a slash meeting a
/// slash: the domain is not empty, neither begins nor ends with a slash, the
/// route does not begin with one, and neither holds two in a row.
pub open spec fn joins_cleanly(route: Seq<char>, domain: Seq<char>) -> bool {
    &&& domain.len() > 0
    &&& domain[0] != '/'
    &&& domain[domain.len() - 1] != '/'
    &&& (route.len() > 0 ==> route[0] != '/')
    &&& forall|i: int| !double_slash_at(domain, i)
    &&& forall|i: int| !double_slash_at(route, i)
}

/// A route over a secure transport begins with `https://`, any other with
/// `http://`; the domain, `/api/v4/` and the route follow, unchanged.
pub proof fn route_begins_with_scheme(route: Seq<char>, domain: Seq<char>, secure: bool)
    ensures
        secure ==> route_of(route, domain, secure) == "https://"@ + domain + "/api/v4/"@ + route,
        !secure ==> route_of(route, domain, secure) == "http://"@ + domain + "/api/v4/"@ + route,
        "https://"@.is_prefix_of(route_of(route, domain, secure)) <==> secure,
        "http://"@.is_prefix_of(route_of(route, domain, secure)) <==> !secure,
{
    reveal_strlit("https");
    reveal_strlit("http");
    reveal_strlit("://");
    reveal_strlit("https://");
    reveal_strlit("http://");
    let full = route_of(route, domain, secure);
    assert("https"@ + "://"@ =~= "https://"@);
    assert("http"@ + "://"@ =~= "http://"@);
    if secure {
        assert(full =~= "https://"@ + domain + "/api/v4/"@ + route);
        assert("https://"@.is_prefix_of(full));
        assert(full[4] == 's');
        assert("http://"@[4] == ':');
    } else {
        assert(full =~= "http://"@ + domain + "/api/v4/"@ + route);
        assert("http://"@.is_prefix_of(full));
        assert(full[4] == ':');
        assert("https://"@[4] == 's');
    }
}

/// The two slashes behind the scheme are the only place of a route where a
/// slash follows a slash, exactly when domain and route join cleanly.
pub proof fn route_has_no_other_double_slash(route: Seq<char>, domain: Seq<char>, secure: bool)
    ensures
        joins_cleanly(route, domain) <==> (forall|i: int|
            double_slash_at(route_of(route, domain, secure), i) <==> i == scheme(secure).len() + 1),
{
    reveal_strlit("https");
    reveal_strlit("http");
    reveal_strlit("://");
    reveal_strlit("/api/v4/");
    let full = route_of(route, domain, secure);
    let n = scheme(secure).len() as int;
    let p = n + 3;
    let q = p + domain.len();
    let t = q + 8;
    assert(full.len() == t + route.len());
    assert(forall|i: int| 0 <= i < n ==> full[i] == scheme(secure)[i]);
    assert(forall|i: int| 0 <= i < n ==> full[i] != '/');
    assert(full[n] == ':' && full[n + 1] == '/' && full[n + 2] == '/');
    assert(forall|i: int| p <= i < q ==> full[i] == domain[i - p]);
    assert(forall|i: int| q <= i < t ==> full[i] == "/api/v4/"@[i - q]);
    assert(forall|i: int| t <= i < full.len() ==> full[i] == route[i - t]);
    assert(double_slash_at(full, n + 1));
    if joins_cleanly(route, domain) {
        assert forall|i: int| double_slash_at(full, i) implies i == n + 1 by {
            if p <= i && i + 1 < q {
                assert(!double_slash_at(domain, i - p));
            }
            if t <= i {
                assert(!double_slash_at(route, i - t));
            }
        }
    }
    if forall|i: int| double_slash_at(full, i) <==> i == n + 1 {
        if domain.len() == 0 {
            assert(double_slash_at(full, n + 2));
        } else {
            if domain[0] == '/' {
                assert(double_slash_at(full, n + 2));
            }
            if domain[domain.len() - 1] == '/' {
                assert(double_slash_at(full, q - 1));
            }
        }
        if route.len() > 0 && route[0] == '/' {
            assert(double_slash_at(full, t - 1));
        }
        assert forall|i: int| !double_slash_at(domain, i) by {
            if double_slash_at(domain, i) {
                assert(double_slash_at(full, p + i));
            }
        }
        assert forall|i: int| !double_slash_at(route, i) by {
            if double_slash_at(route, i) {
                assert(double_slash_at(full, t + i));
            }
        }
    }
}

} // verus!
