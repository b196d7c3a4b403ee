use lemmy_client::client_options::ClientOptionsInternal;
use lemmy_client::route::build_route;

fn options(domain: &str, secure: bool) -> ClientOptionsInternal {
    ClientOptionsInternal { domain: domain.to_string(), secure }
}

#[test]
fn route_over_https() {
    assert_eq!(build_route("site", &options("lemmy.ml", true)), "https://lemmy.ml/api/v4/site");
}

#[test]
fn route_over_http() {
    assert_eq!(
        build_route("account/auth/login", &options("localhost:8536", false)),
        "http://localhost:8536/api/v4/account/auth/login"
    );
}

#[test]
fn route_keeps_domain_and_path_as_they_are() {
    assert_eq!(
        build_route("post/like/list", &options("sub.example.org", true)),
        "https://sub.example.org/api/v4/post/like/list"
    );
    assert_eq!(
        build_route("search?q=a b", &options("example.org", true)),
        "https://example.org/api/v4/search?q=a b"
    );
    assert_eq!(
        build_route("admin/purge/Comment", &options("Example.ORG", false)),
        "http://Example.ORG/api/v4/admin/purge/Comment"
    );
}

#[test]
fn route_has_two_slashes_in_a_row_only_behind_the_scheme() {
    for secure in [true, false] {
        for path in ["site", "community/list", "a"] {
            let route = build_route(path, &options("lemmy.ml", secure));
            let behind_scheme = if secure { "https:".len() } else { "http:".len() };
            let found: Vec<usize> = route.match_indices("//").map(|(at, _)| at).collect();
            assert_eq!(found, vec![behind_scheme]);
        }
    }
}

#[test]
fn route_of_an_empty_path_ends_with_the_version() {
    assert_eq!(build_route("", &options("lemmy.ml", true)), "https://lemmy.ml/api/v4/");
}

#[test]
fn route_does_not_mend_a_leading_slash() {
    assert_eq!(build_route("/site", &options("lemmy.ml", true)), "https://lemmy.ml/api/v4//site");
}
