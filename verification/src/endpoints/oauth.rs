use vstd::prelude::*;

use crate::error::LemmyError;
use crate::form::{LemmyForm, LemmyRequest};
use crate::lemmy_client::LemmyClient;
use crate::lemmy_client_internal::request_made;
use crate::method::Method;
use crate::request::OutgoingRequest;

verus! {

/// The endpoints for OAuth providers. Each method plans the request of its
/// call, with the verb and the path of the endpoint; the call is made by
/// whoever sends the request.
impl LemmyClient {
    /// Add an OAuth provider your users can use to register for and log into
    /// your instance.
    ///
    /// HTTP POST /oauth_provider
    pub fn add_oauth_provider<Form: LemmyForm>(
        &self,
        request: LemmyRequest<Form>,
    ) -> (outcome: Result<OutgoingRequest, LemmyError>)
        ensures
            request_made(
                self@.domain,
                self@.secure,
                Method::Post,
                "oauth_provider"@,
                request,
                self@.headers,
                outcome,
            ),
    {
        self.make_request(Method::Post, "oauth_provider", request)
    }

    /// Edit one of your instance's OAuth providers.
    ///
    /// HTTP PUT /oauth_provider
    pub fn edit_oauth_provider<Form: LemmyForm>(
        &self,
        request: LemmyRequest<Form>,
    ) -> (outcome: Result<OutgoingRequest, LemmyError>)
        ensures
            request_made(
                self@.domain,
                self@.secure,
                Method::Put,
                "oauth_provider"@,
                request,
                self@.headers,
                outcome,
            ),
    {
        self.make_request(Method::Put, "oauth_provider", request)
    }

    /// Remove an OAuth provider from your instance.
    ///
    /// HTTP POST /oauth_provider/delete
    pub fn delete_oauth_provider<Form: LemmyForm>(
        &self,
        request: LemmyRequest<Form>,
    ) -> (outcome: Result<OutgoingRequest, LemmyError>)
        ensures
            request_made(
                self@.domain,
                self@.secure,
                Method::Post,
                "oauth_provider/delete"@,
                request,
                self@.headers,
                outcome,
            ),
    {
        self.make_request(Method::Post, "oauth_provider/delete", request)
    }

    /// Register/login to an instance using one of the OAuth providers that
    /// instance supports.
    ///
    /// HTTP POST /oauth/authenticate
    pub fn authenticate_with_oauth<Form: LemmyForm>(
        &self,
        request: LemmyRequest<Form>,
    ) -> (outcome: Result<OutgoingRequest, LemmyError>)
        ensures
            request_made(
                self@.domain,
                self@.secure,
                Method::Post,
                "oauth/authenticate"@,
                request,
                self@.headers,
                outcome,
            ),
    {
        self.make_request(Method::Post, "oauth/authenticate", request)
    }
}

} // verus!
