use vstd::prelude::*;

use crate::error::LemmyError;
use crate::form::{LemmyForm, LemmyRequest};
use crate::lemmy_client::LemmyClient;
use crate::lemmy_client_internal::request_made;
use crate::method::Method;
use crate::request::OutgoingRequest;

verus! {

/// The endpoints for private messages. Each method plans the request of its
/// call, with the verb and the path of the endpoint; the call is made by
/// whoever sends the request.
impl LemmyClient {
    /// Creates and send a private message to another user.
    ///
    /// HTTP POST /private_message
    pub fn create_private_message<Form: LemmyForm>(
        &self,
        request: LemmyRequest<Form>,
    ) -> (outcome: Result<OutgoingRequest, LemmyError>)
        ensures
            request_made(
                self@.domain,
                self@.secure,
                Method::Post,
                "private_message"@,
                request,
                self@.headers,
                outcome,
            ),
    {
        self.make_request(Method::Post, "private_message", request)
    }

    /// Edits a private message you have already sent.
    ///
    /// HTTP PUT /private_message
    pub fn edit_private_message<Form: LemmyForm>(
        &self,
        request: LemmyRequest<Form>,
    ) -> (outcome: Result<OutgoingRequest, LemmyError>)
        ensures
            request_made(
                self@.domain,
                self@.secure,
                Method::Put,
                "private_message"@,
                request,
                self@.headers,
                outcome,
            ),
    {
        self.make_request(Method::Put, "private_message", request)
    }

    /// Deletes a private that you have already sent.
    ///
    /// HTTP POST /private_message/delete
    pub fn delete_private_message<Form: LemmyForm>(
        &self,
        request: LemmyRequest<Form>,
    ) -> (outcome: Result<OutgoingRequest, LemmyError>)
        ensures
            request_made(
                self@.domain,
                self@.secure,
                Method::Post,
                "private_message/delete"@,
                request,
                self@.headers,
                outcome,
            ),
    {
        self.make_request(Method::Post, "private_message/delete", request)
    }

    /// Reports a private message that was sent to you to your instance's admin
    /// team and the sender's instance's admin team.
    ///
    /// HTTP POST /private_message/report
    pub fn report_private_message<Form: LemmyForm>(
        &self,
        request: LemmyRequest<Form>,
    ) -> (outcome: Result<OutgoingRequest, LemmyError>)
        ensures
            request_made(
                self@.domain,
                self@.secure,
                Method::Post,
                "private_message/report"@,
                request,
                self@.headers,
                outcome,
            ),
    {
        self.make_request(Method::Post, "private_message/report", request)
    }

    /// Resolves a report of a private message sent to a user on the instance
    /// you administrate.
    ///
    /// HTTP PUT /private_message/report/resolve
    pub fn resolve_private_message_report<Form: LemmyForm>(
        &self,
        request: LemmyRequest<Form>,
    ) -> (outcome: Result<OutgoingRequest, LemmyError>)
        ensures
            request_made(
                self@.domain,
                self@.secure,
                Method::Put,
                "private_message/report/resolve"@,
                request,
                self@.headers,
                outcome,
            ),
    {
        self.make_request(Method::Put, "private_message/report/resolve", request)
    }
}

} // verus!
