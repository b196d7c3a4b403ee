use vstd::prelude::*;

use crate::error::LemmyError;
use crate::form::{LemmyForm, LemmyRequest};
use crate::lemmy_client::LemmyClient;
use crate::lemmy_client_internal::request_made;
use crate::method::Method;
use crate::request::OutgoingRequest;

verus! {

/// The endpoints for the tags of a community. Each method plans the request
/// of its call, with the verb and the path of the endpoint; the call is
/// made by whoever sends the request.
impl LemmyClient {
    /// Create a tag for a community you moderate.
    ///
    /// HTTP POST /community/tag
    pub fn create_community_tag<Form: LemmyForm>(
        &self,
        request: LemmyRequest<Form>,
    ) -> (outcome: Result<OutgoingRequest, LemmyError>)
        ensures
            request_made(
                self@.domain,
                self@.secure,
                Method::Post,
                "community/tag"@,
                request,
                self@.headers,
                outcome,
            ),
    {
        self.make_request(Method::Post, "community/tag", request)
    }

    /// Update an existing tag for a community you moderate.
    ///
    /// HTTP PUT /community/tag
    pub fn update_community_tag<Form: LemmyForm>(
        &self,
        request: LemmyRequest<Form>,
    ) -> (outcome: Result<OutgoingRequest, LemmyError>)
        ensures
            request_made(
                self@.domain,
                self@.secure,
                Method::Put,
                "community/tag"@,
                request,
                self@.headers,
                outcome,
            ),
    {
        self.make_request(Method::Put, "community/tag", request)
    }

    /// Delete an existing tag for a community you moderate.
    ///
    /// HTTP DELETE /community/tag
    pub fn delete_community_tag<Form: LemmyForm>(
        &self,
        request: LemmyRequest<Form>,
    ) -> (outcome: Result<OutgoingRequest, LemmyError>)
        ensures
            request_made(
                self@.domain,
                self@.secure,
                Method::Delete,
                "community/tag"@,
                request,
                self@.headers,
                outcome,
            ),
    {
        self.make_request(Method::Delete, "community/tag", request)
    }
}

} // verus!
