use vstd::prelude::*;

use crate::error::LemmyError;
use crate::form::{LemmyForm, LemmyRequest};
use crate::lemmy_client::LemmyClient;
use crate::lemmy_client_internal::request_made;
use crate::method::Method;
use crate::request::OutgoingRequest;

verus! {

/// The endpoints for persons. Each method plans the request of its call,
/// with the verb and the path of the endpoint; the call is made by whoever
/// sends the request.
impl LemmyClient {
    /// Gets the publicly viewable details of a user's account.
    ///
    /// HTTP GET /person
    pub fn get_person_details<Form: LemmyForm>(
        &self,
        request: LemmyRequest<Form>,
    ) -> (outcome: Result<OutgoingRequest, LemmyError>)
        ensures
            request_made(
                self@.domain,
                self@.secure,
                Method::Get,
                "person"@,
                request,
                self@.headers,
                outcome,
            ),
    {
        self.make_request(Method::Get, "person", request)
    }

    /// List posts and comments made by a user.
    ///
    /// HTTP GET /person/content
    pub fn list_person_content<Form: LemmyForm>(
        &self,
        request: LemmyRequest<Form>,
    ) -> (outcome: Result<OutgoingRequest, LemmyError>)
        ensures
            request_made(
                self@.domain,
                self@.secure,
                Method::Get,
                "person/content"@,
                request,
                self@.headers,
                outcome,
            ),
    {
        self.make_request(Method::Get, "person/content", request)
    }

    /// Create a note about another user.
    ///
    /// HTTP POST /person/note
    pub fn create_person_note<Form: LemmyForm>(
        &self,
        request: LemmyRequest<Form>,
    ) -> (outcome: Result<OutgoingRequest, LemmyError>)
        ensures
            request_made(
                self@.domain,
                self@.secure,
                Method::Post,
                "person/note"@,
                request,
                self@.headers,
                outcome,
            ),
    {
        self.make_request(Method::Post, "person/note", request)
    }
}

} // verus!
