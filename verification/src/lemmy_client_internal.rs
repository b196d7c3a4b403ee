use vstd::prelude::*;
use vstd::slice::slice_to_vec;

use crate::client_options::ClientOptionsInternal;
use crate::error::{Error, ErrorModel, LemmyError};
use crate::form::{encoded_text, form_encodes_as, LemmyForm, LemmyRequest};
use crate::header_set::HeaderSet;
use crate::method::{BodyEncoding, Method};
use crate::request::{
    address_of, credential_and_agent_go_out, merge_into_empty, outgoing_headers_keep_wishes,
    planned_file_request, planned_request, OutgoingRequest,
};
use crate::route::{build_route, route_of};

verus! {

/// The credential of a call as a sequence of characters.
pub open spec fn credential_of(jwt: Option<&str>) -> Option<Seq<char>> {
    match jwt {
        Some(token) => Some(token@),
        None => None,
    }
}

/// What a transport makes of a call whose body gave `encoded` when it was
/// written as the verb asks: the planned request where the body could be
/// encoded, and otherwise an unknown error that carries the encoder's
/// description.
pub open spec fn request_planned(
    domain: Seq<char>,
    secure: bool,
    method: Method,
    path: Seq<char>,
    encoded: Result<Seq<char>, Seq<char>>,
    jwt: Option<Seq<char>>,
    headers: Seq<(Seq<char>, Seq<char>)>,
    outcome: Result<OutgoingRequest, LemmyError>,
) -> bool {
    match encoded {
        Ok(payload) => outcome is Ok && outcome->Ok_0@ == planned_request(
            method,
            route_of(path, domain, secure),
            headers,
            jwt,
            payload,
        ),
        Err(message) => outcome is Err && outcome->Err_0@ == ErrorModel::Unknown(message),
    }
}

/// What a transport makes of an upload whose companion gave `encoded` when
/// it was written as a query string: the planned upload where the companion
/// could be encoded, and otherwise an unknown error that carries the
/// encoder's description.
pub open spec fn file_request_planned(
    domain: Seq<char>,
    secure: bool,
    path: Seq<char>,
    encoded: Result<Seq<char>, Seq<char>>,
    jwt: Option<Seq<char>>,
    bytes: Seq<u8>,
    headers: Seq<(Seq<char>, Seq<char>)>,
    outcome: Result<OutgoingRequest, LemmyError>,
) -> bool {
    match encoded {
        Ok(query) => outcome is Ok && outcome->Ok_0@ == planned_file_request(
            route_of(path, domain, secure),
            headers,
            jwt,
            query,
            bytes,
        ),
        Err(message) => outcome is Err && outcome->Err_0@ == ErrorModel::Unknown(message),
    }
}

/// What `make_request` gives: the body of the request is written as the verb
/// asks, and the outcome is what the transport makes of the call with what
/// the body gave.
pub open spec fn request_made<Form: LemmyForm>(
    domain: Seq<char>,
    secure: bool,
    method: Method,
    path: Seq<char>,
    request: LemmyRequest<Form>,
    headers: Seq<(Seq<char>, Seq<char>)>,
    outcome: Result<OutgoingRequest, LemmyError>,
) -> bool {
    exists|encoded: Result<String, String>| #[trigger]
        form_encodes_as(method, request.body, encoded) && request_planned(
            domain,
            secure,
            method,
            path,
            encoded_text(encoded),
            request.credential(),
            headers,
            outcome,
        )
}

/// What `make_file_request` gives: the companion of the file is written as
/// a query string, and the outcome is what the transport makes of the
/// upload with what the companion gave.
pub open spec fn file_request_made<Query: LemmyForm>(
    domain: Seq<char>,
    secure: bool,
    path: Seq<char>,
    query: Query,
    request: LemmyRequest<&[u8]>,
    headers: Seq<(Seq<char>, Seq<char>)>,
    outcome: Result<OutgoingRequest, LemmyError>,
) -> bool {
    exists|encoded: Result<String, String>| #[trigger]
        call_ensures(Query::to_query, (&query,), encoded) && file_request_planned(
            domain,
            secure,
            path,
            encoded_text(encoded),
            request.credential(),
            request.body@,
            headers,
            outcome,
        )
}

/// The transport of a native process: it plans requests for a
/// general-purpose HTTP client.
#[derive(Debug, Clone)]
pub struct ClientWrapper {
    pub options: ClientOptionsInternal,
}

impl ClientWrapper {
    /// A transport for the instance that `options` names.
    pub fn new(options: ClientOptionsInternal) -> (client: Self)
        ensures
            client.options == options,
    {
        Self { options }
    }

    /// Plans the request of a call whose body has been written as the verb
    /// asks: the headers of `headers` go first, then the default user agent
    /// if none is named, then the credential; the encoded body becomes the
    /// query string of a `GET` or `DELETE` and the document of a `POST` or
    /// `PUT`. A body that could not be encoded makes the call fail.
    pub fn prepare_request(
        &self,
        method: Method,
        path: &str,
        encoded: Result<String, String>,
        jwt: Option<&str>,
        headers: &HeaderSet,
    ) -> (outcome: Result<OutgoingRequest, LemmyError>)
        ensures
            request_planned(
                self.options.domain@,
                self.options.secure,
                method,
                path@,
                encoded_text(encoded),
                credential_of(jwt),
                headers@,
                outcome,
            ),
            outcome is Ok ==> credential_and_agent_go_out(
                outcome->Ok_0@.headers,
                headers@,
                credential_of(jwt),
            ),
    {
        match encoded {
            Ok(payload) => {
                proof {
                    use_type_invariant(headers);
                    merge_into_empty(headers@);
                    outgoing_headers_keep_wishes(
                        headers@,
                        credential_of(jwt),
                        method.encoding_of() == BodyEncoding::Json,
                    );
                }
                let route = build_route(path, &self.options);
                let addressed = OutgoingRequest::new(method, route).with_headers(
                    headers,
                ).maybe_with_jwt(jwt);
                let planned = match method.encoding() {
                    BodyEncoding::Query => addressed.query(payload.as_str()),
                    BodyEncoding::Json => addressed.json(payload),
                };
                assert(planned@.query =~= planned_request(
                    method,
                    route@,
                    headers@,
                    credential_of(jwt),
                    payload@,
                ).query);
                Ok(planned)
            },
            Err(message) => Err(LemmyError::Unknown(Error::new(message))),
        }
    }

    /// Plans the request that sends `request` with the verb `method` to the
    /// route of `path`, under the headers of `headers`.
    pub fn make_request<Form: LemmyForm>(
        &self,
        method: Method,
        path: &str,
        request: LemmyRequest<Form>,
        headers: &HeaderSet,
    ) -> (outcome: Result<OutgoingRequest, LemmyError>)
        ensures
            request_made(
                self.options.domain@,
                self.options.secure,
                method,
                path@,
                request,
                headers@,
                outcome,
            ),
    {
        let encoded = match method.encoding() {
            BodyEncoding::Query => request.body.to_query(),
            BodyEncoding::Json => request.body.to_json(),
        };
        assert(form_encodes_as(method, request.body, encoded));
        self.prepare_request(method, path, encoded, request.jwt, headers)
    }

    /// Plans the upload of a file whose companion has been written as a
    /// query string: the bytes are posted to the route of `path`; headers
    /// and credential are handled as in `prepare_request`.
    pub fn prepare_file_request(
        &self,
        path: &str,
        encoded: Result<String, String>,
        request: LemmyRequest<&[u8]>,
        headers: &HeaderSet,
    ) -> (outcome: Result<OutgoingRequest, LemmyError>)
        ensures
            file_request_planned(
                self.options.domain@,
                self.options.secure,
                path@,
                encoded_text(encoded),
                request.credential(),
                request.body@,
                headers@,
                outcome,
            ),
            outcome is Ok ==> credential_and_agent_go_out(
                outcome->Ok_0@.headers,
                headers@,
                request.credential(),
            ),
    {
        match encoded {
            Ok(query) => {
                proof {
                    use_type_invariant(headers);
                    merge_into_empty(headers@);
                    outgoing_headers_keep_wishes(headers@, request.credential(), false);
                }
                let route = build_route(path, &self.options);
                let addressed = OutgoingRequest::new(Method::Post, route).with_headers(
                    headers,
                ).maybe_with_jwt(request.jwt);
                let planned = addressed.query(query.as_str()).body(slice_to_vec(request.body));
                assert(planned@.query =~= query@);
                Ok(planned)
            },
            Err(message) => Err(LemmyError::Unknown(Error::new(message))),
        }
    }

    /// Plans the request that posts the bytes of a file to the route of
    /// `path`, with `query` as its query string, under the headers of
    /// `headers`.
    pub fn make_file_request<Query: LemmyForm>(
        &self,
        path: &str,
        query: Query,
        request: LemmyRequest<&[u8]>,
        headers: &HeaderSet,
    ) -> (outcome: Result<OutgoingRequest, LemmyError>)
        ensures
            file_request_made(
                self.options.domain@,
                self.options.secure,
                path@,
                query,
                request,
                headers@,
                outcome,
            ),
    {
        let encoded = query.to_query();
        self.prepare_file_request(path, encoded, request, headers)
    }
}

/// The transport of a browser: it plans requests for the fetch of the host.
/// It takes the four verbs that the native transport takes, and plans each
/// call as the native transport does.
#[derive(Debug, Clone)]
pub struct Fetch(pub ClientOptionsInternal);

impl Fetch {
    /// A transport for the instance that `options` names.
    pub fn new(options: ClientOptionsInternal) -> (client: Self)
        ensures
            client.0 == options,
    {
        Self(options)
    }

    /// The address that a request for `path` goes to when its form gave
    /// `encoded` as query string: the route, and behind a `?` the encoded
    /// form unless that is empty.
    pub fn build_fetch_query(&self, path: &str, encoded: &str) -> (address: String)
        ensures
            address@ == address_of(route_of(path@, self.0.domain@, self.0.secure), encoded@),
    {
        let fetched = OutgoingRequest::new(Method::Get, build_route(path, &self.0)).query(encoded);
        assert(fetched@.query =~= encoded@);
        fetched.url()
    }

    /// Plans the request of a call whose body has been written as the verb
    /// asks. The fetch of the host is given its address first and its
    /// headers after; the request is the one that the native transport
    /// plans.
    pub fn prepare_request(
        &self,
        method: Method,
        path: &str,
        encoded: Result<String, String>,
        jwt: Option<&str>,
        headers: &HeaderSet,
    ) -> (outcome: Result<OutgoingRequest, LemmyError>)
        ensures
            request_planned(
                self.0.domain@,
                self.0.secure,
                method,
                path@,
                encoded_text(encoded),
                credential_of(jwt),
                headers@,
                outcome,
            ),
            outcome is Ok ==> credential_and_agent_go_out(
                outcome->Ok_0@.headers,
                headers@,
                credential_of(jwt),
            ),
    {
        match encoded {
            Ok(payload) => {
                proof {
                    use_type_invariant(headers);
                    merge_into_empty(headers@);
                    outgoing_headers_keep_wishes(
                        headers@,
                        credential_of(jwt),
                        method.encoding_of() == BodyEncoding::Json,
                    );
                }
                let route = build_route(path, &self.0);
                let planned = match method.encoding() {
                    BodyEncoding::Query => OutgoingRequest::new(method, route).query(
                        payload.as_str(),
                    ).with_headers(headers).maybe_with_jwt(jwt),
                    BodyEncoding::Json => OutgoingRequest::new(method, route).with_headers(
                        headers,
                    ).maybe_with_jwt(jwt).json(payload),
                };
                assert(planned@.query =~= planned_request(
                    method,
                    route@,
                    headers@,
                    credential_of(jwt),
                    payload@,
                ).query);
                Ok(planned)
            },
            Err(message) => Err(LemmyError::Unknown(Error::new(message))),
        }
    }

    /// Plans the request that sends `request` with the verb `method` to the
    /// route of `path`, under the headers of `headers`.
    pub fn make_request<Form: LemmyForm>(
        &self,
        method: Method,
        path: &str,
        request: LemmyRequest<Form>,
        headers: &HeaderSet,
    ) -> (outcome: Result<OutgoingRequest, LemmyError>)
        ensures
            request_made(self.0.domain@, self.0.secure, method, path@, request, headers@, outcome),
    {
        let encoded = match method.encoding() {
            BodyEncoding::Query => request.body.to_query(),
            BodyEncoding::Json => request.body.to_json(),
        };
        assert(form_encodes_as(method, request.body, encoded));
        self.prepare_request(method, path, encoded, request.jwt, headers)
    }

    /// Plans the upload of a file whose companion has been written as a
    /// query string: the upload that the native transport plans.
    pub fn prepare_file_request(
        &self,
        path: &str,
        encoded: Result<String, String>,
        request: LemmyRequest<&[u8]>,
        headers: &HeaderSet,
    ) -> (outcome: Result<OutgoingRequest, LemmyError>)
        ensures
            file_request_planned(
                self.0.domain@,
                self.0.secure,
                path@,
                encoded_text(encoded),
                request.credential(),
                request.body@,
                headers@,
                outcome,
            ),
            outcome is Ok ==> credential_and_agent_go_out(
                outcome->Ok_0@.headers,
                headers@,
                request.credential(),
            ),
    {
        match encoded {
            Ok(query) => {
                proof {
                    use_type_invariant(headers);
                    merge_into_empty(headers@);
                    outgoing_headers_keep_wishes(headers@, request.credential(), false);
                }
                let route = build_route(path, &self.0);
                let addressed = OutgoingRequest::new(Method::Post, route).query(query.as_str());
                let planned = addressed.with_headers(headers).maybe_with_jwt(request.jwt).body(
                    slice_to_vec(request.body),
                );
                assert(planned@.query =~= query@);
                Ok(planned)
            },
            Err(message) => Err(LemmyError::Unknown(Error::new(message))),
        }
    }

    /// Plans the request that posts the bytes of a file to the route of
    /// `path`, with `query` as its query string, under the headers of
    /// `headers`.
    pub fn make_file_request<Query: LemmyForm>(
        &self,
        path: &str,
        query: Query,
        request: LemmyRequest<&[u8]>,
        headers: &HeaderSet,
    ) -> (outcome: Result<OutgoingRequest, LemmyError>)
        ensures
            file_request_made(
                self.0.domain@,
                self.0.secure,
                path@,
                query,
                request,
                headers@,
                outcome,
            ),
    {
        let encoded = query.to_query();
        self.prepare_file_request(path, encoded, request, headers)
    }
}

/// The two transports plan the same request: whatever the native transport
/// and the browser transport make of one call, with the same options and the
/// same encoded body, agrees in verb, address, headers and their order,
/// credential and body, and they fail with the same error.
pub proof fn transports_agree(
    domain: Seq<char>,
    secure: bool,
    method: Method,
    path: Seq<char>,
    encoded: Result<Seq<char>, Seq<char>>,
    jwt: Option<Seq<char>>,
    headers: Seq<(Seq<char>, Seq<char>)>,
    native: Result<OutgoingRequest, LemmyError>,
    browser: Result<OutgoingRequest, LemmyError>,
)
    requires
        request_planned(domain, secure, method, path, encoded, jwt, headers, native),
        request_planned(domain, secure, method, path, encoded, jwt, headers, browser),
    ensures
        native is Ok <==> browser is Ok,
        native is Ok ==> native->Ok_0@ == browser->Ok_0@,
        native is Err ==> native->Err_0@ == browser->Err_0@,
{
}

} // verus!
