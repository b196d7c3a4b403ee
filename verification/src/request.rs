use vstd::prelude::*;

use crate::header_name::same_name;
use crate::header_set::{
    distinct_names, has_header, has_header_iff_some_entry, header_value, with_default_header,
    with_default_header_law, with_header, with_header_law, HeaderSet,
};
use crate::method::{BodyEncoding, Method};

verus! {

/// Name of the header that names the client software.
pub open spec fn user_agent() -> Seq<char> {
    "user-agent"@
}

/// The value that the user agent header gets when the caller has set none.
pub open spec fn default_user_agent() -> Seq<char> {
    "Lemmy-Client-rs/1.0.0"@
}

/// Name of the header that carries the credential.
pub open spec fn authorization() -> Seq<char> {
    "authorization"@
}

/// The value of the authorization header for a bearer token.
pub open spec fn bearer(jwt: Seq<char>) -> Seq<char> {
    "Bearer "@ + jwt
}

/// Name of the header that says what kind of body a request has.
pub open spec fn content_type() -> Seq<char> {
    "content-type"@
}

/// The content type of a JSON document.
pub open spec fn json_content_type() -> Seq<char> {
    "application/json"@
}

/// What a request body is.
pub enum BodyModel {
    Empty,
    Json(Seq<char>),
    Bytes(Seq<u8>),
}

/// What a request is: everything that goes on the wire.
pub struct RequestModel {
    pub method: Method,
    pub route: Seq<char>,
    pub query: Seq<char>,
    pub headers: Seq<(Seq<char>, Seq<char>)>,
    pub body: BodyModel,
}

/// The entries of `base` once every entry of `extra` has been given to it,
/// in order.
pub open spec fn merge_headers(
    base: Seq<(Seq<char>, Seq<char>)>,
    extra: Seq<(Seq<char>, Seq<char>)>,
) -> Seq<(Seq<char>, Seq<char>)>
    decreases extra.len(),
{
    if extra.len() == 0 {
        base
    } else {
        merge_headers(with_header(base, extra[0].0, extra[0].1), extra.drop_first())
    }
}

/// The query string once `encoded` has been added to `query`: the two are
/// joined by `&` where neither is empty.
pub open spec fn joined_query(query: Seq<char>, encoded: Seq<char>) -> Seq<char> {
    if encoded.len() == 0 {
        query
    } else if query.len() == 0 {
        encoded
    } else {
        query + "&"@ + encoded
    }
}

/// The address that a request goes to: the route, and behind a `?` the query
/// string where there is one.
pub open spec fn address_of(route: Seq<char>, query: Seq<char>) -> Seq<char> {
    if query.len() == 0 {
        route
    } else {
        route + "?"@ + query
    }
}

/// The headers of an outgoing request: those of the caller's header set, the
/// default user agent where the set names none, then the credential where
/// one is given, then the JSON content type where the body is a JSON
/// document and no content type has been named.
pub open spec fn outgoing_headers(
    headers: Seq<(Seq<char>, Seq<char>)>,
    jwt: Option<Seq<char>>,
    json: bool,
) -> Seq<(Seq<char>, Seq<char>)> {
    let with_agent = with_default_header(headers, user_agent(), default_user_agent());
    let with_credential = match jwt {
        Some(token) => with_header(with_agent, authorization(), bearer(token)),
        None => with_agent,
    };
    if json {
        with_default_header(with_credential, content_type(), json_content_type())
    } else {
        with_credential
    }
}

/// The request that sends `payload`, already encoded as the verb asks, to
/// `route`: `GET` and `DELETE` carry it as the query string, `POST` and `PUT`
/// as a JSON document.
pub open spec fn planned_request(
    method: Method,
    route: Seq<char>,
    headers: Seq<(Seq<char>, Seq<char>)>,
    jwt: Option<Seq<char>>,
    payload: Seq<char>,
) -> RequestModel {
    match method.encoding_of() {
        BodyEncoding::Query => RequestModel {
            method,
            route,
            query: payload,
            headers: outgoing_headers(headers, jwt, false),
            body: BodyModel::Empty,
        },
        BodyEncoding::Json => RequestModel {
            method,
            route,
            query: Seq::empty(),
            headers: outgoing_headers(headers, jwt, true),
            body: BodyModel::Json(payload),
        },
    }
}

/// The request that posts the bytes of a file to `route`, with `query`, the
/// encoded companion of the file, as its query string.
pub open spec fn planned_file_request(
    route: Seq<char>,
    headers: Seq<(Seq<char>, Seq<char>)>,
    jwt: Option<Seq<char>>,
    query: Seq<char>,
    bytes: Seq<u8>,
) -> RequestModel {
    RequestModel {
        method: Method::Post,
        route,
        query,
        headers: outgoing_headers(headers, jwt, false),
        body: BodyModel::Bytes(bytes),
    }
}

/// Merging into a set whose names the new entries do not repeat appends them.
pub proof fn merge_of_distinct_appends(
    base: Seq<(Seq<char>, Seq<char>)>,
    extra: Seq<(Seq<char>, Seq<char>)>,
)
    requires
        distinct_names(base + extra),
    ensures
        merge_headers(base, extra) == base + extra,
    decreases extra.len(),
{
    if extra.len() == 0 {
        assert(base + extra =~= base);
    } else {
        // the first new entry repeats no name of `base`, so it goes to the end
        let all = base + extra;
        has_header_iff_some_entry(base, extra[0].0);
        if has_header(base, extra[0].0) {
            let i = choose|i: int|
                0 <= i < base.len() && same_name((#[trigger] base[i]).0, extra[0].0);
            assert(all[i] == base[i]);
            assert(all[base.len() as int] == extra[0]);
        }
        let next = with_header(base, extra[0].0, extra[0].1);
        assert(next + extra.drop_first() =~= all);
        merge_of_distinct_appends(next, extra.drop_first());
    }
}

/// Merging the caller's header set into a request that has no header yet
/// gives the request that set.
pub proof fn merge_into_empty(extra: Seq<(Seq<char>, Seq<char>)>)
    requires
        distinct_names(extra),
    ensures
        merge_headers(Seq::empty(), extra) == extra,
{
    assert(Seq::<(Seq<char>, Seq<char>)>::empty() + extra =~= extra);
    merge_of_distinct_appends(Seq::empty(), extra);
}

/// The three headers that the executor may set are three different headers:
/// their names differ in length.
pub proof fn executor_names_differ()
    ensures
        !same_name(user_agent(), authorization()),
        !same_name(authorization(), user_agent()),
        !same_name(user_agent(), content_type()),
        !same_name(content_type(), user_agent()),
        !same_name(authorization(), content_type()),
        !same_name(content_type(), authorization()),
{
    reveal_strlit("user-agent");
    reveal_strlit("authorization");
    reveal_strlit("content-type");
    assert(user_agent().len() == 10);
    assert(authorization().len() == 13);
    assert(content_type().len() == 12);
}

/// The authorization header of an outgoing request is the bearer form of the
/// credential where the caller gave one; where none was given it is what the
/// caller's header set made it, and the names are as distinct as before.
pub proof fn credential_decides_authorization(
    headers: Seq<(Seq<char>, Seq<char>)>,
    jwt: Option<Seq<char>>,
    json: bool,
)
    requires
        distinct_names(headers),
    ensures
        distinct_names(outgoing_headers(headers, jwt, json)),
        jwt is Some ==> header_value(outgoing_headers(headers, jwt, json), authorization())
            == Some(bearer(jwt->0)),
        jwt is None ==> header_value(outgoing_headers(headers, jwt, json), authorization())
            == header_value(headers, authorization()),
{
    executor_names_differ();
    let with_agent = with_default_header(headers, user_agent(), default_user_agent());
    with_default_header_law(headers, user_agent(), default_user_agent(), authorization());
    let with_credential = match jwt {
        Some(token) => with_header(with_agent, authorization(), bearer(token)),
        None => with_agent,
    };
    if jwt is Some {
        with_header_law(with_agent, authorization(), bearer(jwt->0), authorization());
    }
    with_default_header_law(
        with_credential,
        content_type(),
        json_content_type(),
        authorization(),
    );
}

/// The user agent header of an outgoing request is the one of the caller's
/// header set where the set names one, and the default where it names none.
pub proof fn user_agent_is_kept_or_defaulted(
    headers: Seq<(Seq<char>, Seq<char>)>,
    jwt: Option<Seq<char>>,
    json: bool,
)
    requires
        distinct_names(headers),
    ensures
        has_header(headers, user_agent()) ==> header_value(
            outgoing_headers(headers, jwt, json),
            user_agent(),
        ) == header_value(headers, user_agent()),
        !has_header(headers, user_agent()) ==> header_value(
            outgoing_headers(headers, jwt, json),
            user_agent(),
        ) == Some(default_user_agent()),
{
    executor_names_differ();
    let with_agent = with_default_header(headers, user_agent(), default_user_agent());
    with_default_header_law(headers, user_agent(), default_user_agent(), user_agent());
    let with_credential = match jwt {
        Some(token) => with_header(with_agent, authorization(), bearer(token)),
        None => with_agent,
    };
    if jwt is Some {
        with_header_law(with_agent, authorization(), bearer(jwt->0), user_agent());
    }
    with_default_header_law(with_credential, content_type(), json_content_type(), user_agent());
}

/// What every planned request keeps of the caller's wishes: its
/// authorization header is the bearer form of the credential of the call
/// and, where the call has none, whatever the header set names; its user
/// agent is the one of the header set and, where the set names none, the
/// default.
pub open spec fn credential_and_agent_go_out(
    planned: Seq<(Seq<char>, Seq<char>)>,
    headers: Seq<(Seq<char>, Seq<char>)>,
    jwt: Option<Seq<char>>,
) -> bool {
    &&& header_value(planned, authorization()) == match jwt {
        Some(token) => Some(bearer(token)),
        None => header_value(headers, authorization()),
    }
    &&& header_value(planned, user_agent()) == if has_header(headers, user_agent()) {
        header_value(headers, user_agent())
    } else {
        Some(default_user_agent())
    }
}

/// The headers of an outgoing request keep the caller's wishes, whatever the
/// body of the request is.
pub proof fn outgoing_headers_keep_wishes(
    headers: Seq<(Seq<char>, Seq<char>)>,
    jwt: Option<Seq<char>>,
    json: bool,
)
    requires
        distinct_names(headers),
    ensures
        credential_and_agent_go_out(outgoing_headers(headers, jwt, json), headers, jwt),
{
    credential_decides_authorization(headers, jwt, json);
    user_agent_is_kept_or_defaulted(headers, jwt, json);
}

/// Every header of the caller's set other than the three that the executor
/// may set goes out with the value that the set gives it.
pub proof fn other_headers_go_out_unchanged(
    headers: Seq<(Seq<char>, Seq<char>)>,
    jwt: Option<Seq<char>>,
    json: bool,
    name: Seq<char>,
)
    requires
        distinct_names(headers),
        !same_name(name, user_agent()),
        !same_name(name, authorization()),
        !same_name(name, content_type()),
    ensures
        header_value(outgoing_headers(headers, jwt, json), name) == header_value(headers, name),
{
    let with_agent = with_default_header(headers, user_agent(), default_user_agent());
    with_default_header_law(headers, user_agent(), default_user_agent(), name);
    let with_credential = match jwt {
        Some(token) => with_header(with_agent, authorization(), bearer(token)),
        None => with_agent,
    };
    if jwt is Some {
        with_header_law(with_agent, authorization(), bearer(jwt->0), name);
    }
    with_default_header_law(with_credential, content_type(), json_content_type(), name);
}

/// The body of a request.
#[derive(Debug, Clone, PartialEq, Eq)]
pub enum RequestBody {
    /// No body.
    Empty,
    /// A JSON document.
    Json(String),
    /// The bytes of a file.
    Bytes(Vec<u8>),
}

impl View for RequestBody {
    type V = BodyModel;

    open spec fn view(&self) -> BodyModel {
        match self {
            RequestBody::Empty => BodyModel::Empty,
            RequestBody::Json(document) => BodyModel::Json(document@),
            RequestBody::Bytes(bytes) => BodyModel::Bytes(bytes@),
        }
    }
}

/// A request that is ready to be sent: the verb, the address, the headers in
/// the order in which they are to be set, and the body. Whoever owns the
/// connection sends it as it stands.
#[derive(Debug, Clone)]
pub struct OutgoingRequest {
    pub method: Method,
    /// The address without its query string.
    pub route: String,
    /// The query string without its `?`; empty where the request has none.
    pub query: String,
    pub headers: HeaderSet,
    pub body: RequestBody,
}

impl View for OutgoingRequest {
    type V = RequestModel;

    open spec fn view(&self) -> RequestModel {
        RequestModel {
            method: self.method,
            route: self.route@,
            query: self.query@,
            headers: self.headers@,
            body: self.body@,
        }
    }
}

impl OutgoingRequest {
    /// A request to `route` without query string, headers or body.
    pub fn new(method: Method, route: String) -> (request: Self)
        ensures
            request@ == (RequestModel {
                method,
                route: route@,
                query: Seq::empty(),
                headers: Seq::empty(),
                body: BodyModel::Empty,
            }),
    {
        OutgoingRequest {
            method,
            route,
            query: String::new(),
            headers: HeaderSet::new(),
            body: RequestBody::Empty,
        }
    }

    /// Gives the request every header of `headers`, in order, and then the
    /// default user agent unless a user agent has been named.
    pub fn with_headers(self, headers: &HeaderSet) -> (request: Self)
        ensures
            request@ == (RequestModel {
                headers: with_default_header(
                    merge_headers(self@.headers, headers@),
                    user_agent(),
                    default_user_agent(),
                ),
                ..self@
            }),
    {
        let mut request = self;
        let mut i: usize = 0;
        assert(headers@.skip(0) =~= headers@);
        while i < headers.len()
            invariant
                i <= headers@.len(),
                request.method == self.method,
                request.route == self.route,
                request.query == self.query,
                request.body == self.body,
                merge_headers(request.headers@, headers@.skip(i as int)) == merge_headers(
                    self.headers@,
                    headers@,
                ),
            decreases headers@.len() - i,
        {
            let ghost rest = headers@.skip(i as int);
            proof {
                assert(rest[0] == headers@[i as int]);
                assert(rest.drop_first() =~= headers@.skip(i + 1));
            }
            match headers.get_index(i) {
                Some((name, value)) => {
                    request.headers.insert(name.to_owned(), value.to_owned());
                },
                None => {},
            }
            i += 1;
        }
        request.headers.insert_if_absent("user-agent", "Lemmy-Client-rs/1.0.0");
        request
    }

    /// Gives the request the credential, where there is one, as its
    /// authorization header.
    pub fn maybe_with_jwt(self, jwt: Option<&str>) -> (request: Self)
        ensures
            request@ == (RequestModel {
                headers: match jwt {
                    Some(token) => with_header(self@.headers, authorization(), bearer(token@)),
                    None => self@.headers,
                },
                ..self@
            }),
    {
        let mut request = self;
        match jwt {
            Some(token) => {
                let mut value = String::from_str("Bearer ");
                value.append(token);
                request.headers.insert(String::from_str("authorization"), value);
            },
            None => {},
        }
        request
    }

    /// Adds an encoded query to the query string of the request.
    pub fn query(self, encoded: &str) -> (request: Self)
        ensures
            request@ == (RequestModel { query: joined_query(self@.query, encoded@), ..self@ }),
    {
        let mut request = self;
        if encoded.unicode_len() != 0 {
            if request.query.as_str().unicode_len() != 0 {
                request.query.append("&");
            }
            request.query.append(encoded);
        }
        request
    }

    /// Makes a JSON document the body of the request, and names its content
    /// type unless one has been named.
    pub fn json(self, document: String) -> (request: Self)
        ensures
            request@ == (RequestModel {
                headers: with_default_header(
                    self@.headers,
                    content_type(),
                    json_content_type(),
                ),
                body: BodyModel::Json(document@),
                ..self@
            }),
    {
        let mut request = self;
        request.headers.insert_if_absent("content-type", "application/json");
        request.body = RequestBody::Json(document);
        request
    }

    /// Makes the bytes of a file the body of the request.
    pub fn body(self, bytes: Vec<u8>) -> (request: Self)
        ensures
            request@ == (RequestModel { body: BodyModel::Bytes(bytes@), ..self@ }),
    {
        let mut request = self;
        request.body = RequestBody::Bytes(bytes);
        request
    }

    /// The address that the request goes to, query string included.
    pub fn url(&self) -> (address: String)
        ensures
            address@ == address_of(self@.route, self@.query),
    {
        let mut address = self.route.clone();
        if self.query.as_str().unicode_len() != 0 {
            address.append("?");
            address.append(self.query.as_str());
        }
        address
    }
}

} // verus!
