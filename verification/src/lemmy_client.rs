use vstd::prelude::*;

use crate::client_options::{ClientOptions, ClientOptionsInternal};
use crate::error::{LemmyError, LemmyResult};
use crate::form::{LemmyForm, LemmyRequest};
use crate::header_set::{with_default_header, with_header, without_header, HeaderSet};
use crate::lemmy_client_internal::{file_request_made, request_made, ClientWrapper};
use crate::method::Method;
use crate::request::{
    authorization, bearer, default_user_agent, merge_into_empty, user_agent, BodyModel,
    OutgoingRequest, RequestModel,
};
use crate::route::{build_route, route_of};

verus! {

/// The value of an HTTP header as the `http` crate holds it.
#[verifier::external_type_specification]
#[verifier::external_body]
pub struct ExHeaderValue(http::HeaderValue);

/// The error of the `http` crate for a text that cannot be a header value.
#[verifier::external_type_specification]
#[verifier::external_body]
pub struct ExInvalidHeaderValue(http::header::InvalidHeaderValue);

/// Whether a character may stand in the value of a header: the tabulator,
/// and every character but the other control characters of ASCII.
pub open spec fn allowed_in_value(c: char) -> bool {
    (c as u32 >= 32 && c as u32 != 127) || c as u32 == 9
}

/// Whether a text can be the value of a header.
pub open spec fn valid_header_value(text: Seq<char>) -> bool {
    forall|i: int| 0 <= i < text.len() ==> allowed_in_value(#[trigger] text[i])
}

/// `HeaderValue::try_from` of the `http` crate, for a `String`: it accepts
/// a text exactly when each of its bytes is the tabulator or is neither
/// below 32 nor 127. The bytes of a character beyond ASCII are all above
/// 127, so this is a condition on the ASCII characters of the text.
#[verifier::external_body]
fn parse_header_value(text: String) -> (parsed: Result<
    http::HeaderValue,
    http::header::InvalidHeaderValue,
>)
    ensures
        parsed is Ok <==> valid_header_value(text@),
{
    http::HeaderValue::try_from(text)
}

/// A token can be sent as a bearer credential exactly when it can be the
/// value of a header itself.
pub proof fn bearer_is_valid_iff_token_is(jwt: Seq<char>)
    ensures
        valid_header_value(bearer(jwt)) <==> valid_header_value(jwt),
{
    reveal_strlit("Bearer ");
    let value = bearer(jwt);
    if valid_header_value(value) {
        assert forall|i: int| 0 <= i < jwt.len() implies allowed_in_value(#[trigger] jwt[i]) by {
            assert(value[i + 7] == jwt[i]);
        }
    }
    if valid_header_value(jwt) {
        assert forall|i: int| 0 <= i < value.len() implies allowed_in_value(
            #[trigger] value[i],
        ) by {
            if i >= 7 {
                assert(value[i] == jwt[i - 7]);
            }
        }
    }
}

/// What a client is: where it sends its requests, and the headers that go
/// out with each of them.
pub struct ClientModel {
    pub domain: Seq<char>,
    pub secure: bool,
    pub headers: Seq<(Seq<char>, Seq<char>)>,
}

/// API wrapper for Lemmy: it keeps the options and the headers, and plans
/// the request of each call.
#[derive(Debug, Clone)]
pub struct LemmyClient {
    headers: HeaderSet,
    client: ClientWrapper,
}

impl View for LemmyClient {
    type V = ClientModel;

    closed spec fn view(&self) -> ClientModel {
        ClientModel {
            domain: self.client.options.domain@,
            secure: self.client.options.secure,
            headers: self.headers@,
        }
    }
}

impl LemmyClient {
    /// Creates a new [`LemmyClient`]: one that has no header yet.
    pub fn new(options: ClientOptions) -> (client: Self)
        ensures
            client@ == (ClientModel {
                domain: options.domain@,
                secure: options.secure,
                headers: Seq::empty(),
            }),
    {
        LemmyClient {
            headers: HeaderSet::new(),
            client: ClientWrapper::new(ClientOptionsInternal::from(options)),
        }
    }

    /// Gets the options passed to the client.
    pub fn options(&self) -> (options: &ClientOptionsInternal)
        ensures
            options.domain@ == self@.domain,
            options.secure == self@.secure,
    {
        &self.client.options
    }

    /// Returns whether or not the client is making requests over HTTPS.
    pub fn secure(&self) -> (secure: bool)
        ensures
            secure == self@.secure,
    {
        self.client.options.secure
    }

    /// Returns the domain of the Lemmy instance the client should make
    /// requests to.
    pub fn domain(&self) -> (domain: &str)
        ensures
            domain@ == self@.domain,
    {
        self.client.options.domain.as_str()
    }

    /// Returns a map of headers that will be included with each request.
    pub fn headers(&self) -> (headers: &HeaderSet)
        ensures
            headers@ == self@.headers,
    {
        &self.headers
    }

    /// Returns a mutable map of headers that will be included with each
    /// request. Use this method if you want to add headers other than the
    /// JWT.
    pub fn headers_mut(&mut self) -> (headers: &mut HeaderSet)
        ensures
            headers@ == old(self)@.headers,
            final(self)@ == (ClientModel { headers: final(headers)@, ..old(self)@ }),
    {
        &mut self.headers
    }

    /// Set the authorization header with a JWT token. There is no need to
    /// include the "Bearer" part of the header value. A token that cannot
    /// stand in a header is refused, and the headers stay as they are.
    pub fn set_jwt(&mut self, jwt: &str) -> (outcome: Result<(), http::header::InvalidHeaderValue>)
        ensures
            outcome is Ok <==> valid_header_value(jwt@),
            final(self)@ == (ClientModel {
                headers: if valid_header_value(jwt@) {
                    with_header(old(self)@.headers, authorization(), bearer(jwt@))
                } else {
                    old(self)@.headers
                },
                ..old(self)@
            }),
    {
        let mut value = String::from_str("Bearer ");
        value.append(jwt);
        proof {
            bearer_is_valid_iff_token_is(jwt@);
        }
        match parse_header_value(value.clone()) {
            Ok(_) => {
                self.headers.insert(String::from_str("authorization"), value);
                Ok(())
            },
            Err(refused) => Err(refused),
        }
    }

    /// Clear the JWT used by the client. Requests made with the client
    /// after this point carry no credential unless they bring their own, or
    /// another JWT is set with [`set_jwt`](LemmyClient::set_jwt).
    pub fn clear_jwt(&mut self)
        ensures
            final(self)@ == (ClientModel {
                headers: without_header(old(self)@.headers, authorization()),
                ..old(self)@
            }),
    {
        self.headers.remove("authorization");
    }

    /// Starts the request of a call: its verb, its address, the headers of
    /// the client, and the default user agent if the client names none.
    pub fn create_request_builder(&self, method: Method, path: &str) -> (request: OutgoingRequest)
        ensures
            request@ == (RequestModel {
                method,
                route: route_of(path@, self@.domain, self@.secure),
                query: Seq::empty(),
                headers: with_default_header(
                    self@.headers,
                    user_agent(),
                    default_user_agent(),
                ),
                body: BodyModel::Empty,
            }),
    {
        proof {
            use_type_invariant(&self.headers);
            merge_into_empty(self.headers@);
        }
        OutgoingRequest::new(method, build_route(path, &self.client.options)).with_headers(
            &self.headers,
        )
    }

    /// Plans the request of a call: `request` goes with the verb `method`
    /// to the route of `path`, under the headers of the client.
    pub fn make_request<Form: LemmyForm>(
        &self,
        method: Method,
        path: &str,
        request: LemmyRequest<Form>,
    ) -> (outcome: Result<OutgoingRequest, LemmyError>)
        ensures
            request_made(
                self@.domain,
                self@.secure,
                method,
                path@,
                request,
                self@.headers,
                outcome,
            ),
    {
        self.client.make_request(method, path, request, &self.headers)
    }

    /// Plans the upload of a file: its bytes are posted to the route of
    /// `path`, with `query` as the query string, under the headers of the
    /// client.
    pub fn make_file_request<Query: LemmyForm>(
        &self,
        path: &str,
        query: Query,
        request: LemmyRequest<&[u8]>,
    ) -> (outcome: Result<OutgoingRequest, LemmyError>)
        ensures
            file_request_made(
                self@.domain,
                self@.secure,
                path@,
                query,
                request,
                self@.headers,
                outcome,
            ),
    {
        self.client.make_file_request(path, query, request, &self.headers)
    }

    /// Ends the session once the remote has answered the call that deletes
    /// it: if the call succeeded, the JWT is removed from the headers that
    /// the client sends with each request; if it failed, they stay. The
    /// answer is handed on as it is.
    pub fn logout<Response>(&mut self, response: LemmyResult<Response>) -> (outcome: LemmyResult<
        Response,
    >)
        ensures
            outcome == response,
            final(self)@ == (ClientModel {
                headers: if response is Ok {
                    without_header(old(self)@.headers, authorization())
                } else {
                    old(self)@.headers
                },
                ..old(self)@
            }),
    {
        if response.is_ok() {
            self.clear_jwt();
        }
        response
    }
}

} // verus!
