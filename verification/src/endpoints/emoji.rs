use vstd::prelude::*;

use crate::error::LemmyError;
use crate::form::{LemmyForm, LemmyRequest};
use crate::lemmy_client::LemmyClient;
use crate::lemmy_client_internal::request_made;
use crate::method::Method;
use crate::request::OutgoingRequest;

verus! {

/// The endpoints for custom emojis. Each method plans the request of its
/// call, with the verb and the path of the endpoint; the call is made by
/// whoever sends the request.
impl LemmyClient {
    /// Creates a custom emoji.
    ///
    /// HTTP POST /custom_emoji
    pub fn create_custom_emoji<Form: LemmyForm>(
        &self,
        request: LemmyRequest<Form>,
    ) -> (outcome: Result<OutgoingRequest, LemmyError>)
        ensures
            request_made(
                self@.domain,
                self@.secure,
                Method::Post,
                "custom_emoji"@,
                request,
                self@.headers,
                outcome,
            ),
    {
        self.make_request(Method::Post, "custom_emoji", request)
    }

    /// Edits an existing custom emoji.
    ///
    /// HTTP PUT /custom_emoji
    pub fn edit_custom_emoji<Form: LemmyForm>(
        &self,
        request: LemmyRequest<Form>,
    ) -> (outcome: Result<OutgoingRequest, LemmyError>)
        ensures
            request_made(
                self@.domain,
                self@.secure,
                Method::Put,
                "custom_emoji"@,
                request,
                self@.headers,
                outcome,
            ),
    {
        self.make_request(Method::Put, "custom_emoji", request)
    }

    /// Deletes an existing custom emoji.
    ///
    /// HTTP POST /custom_emoji/delete
    pub fn delete_custom_emoji<Form: LemmyForm>(
        &self,
        request: LemmyRequest<Form>,
    ) -> (outcome: Result<OutgoingRequest, LemmyError>)
        ensures
            request_made(
                self@.domain,
                self@.secure,
                Method::Post,
                "custom_emoji/delete"@,
                request,
                self@.headers,
                outcome,
            ),
    {
        self.make_request(Method::Post, "custom_emoji/delete", request)
    }

    /// List all custom emojis on the instance.
    ///
    /// HTTP GET /custom_emoji/list
    pub fn list_custom_emojis<Form: LemmyForm>(
        &self,
        request: LemmyRequest<Form>,
    ) -> (outcome: Result<OutgoingRequest, LemmyError>)
        ensures
            request_made(
                self@.domain,
                self@.secure,
                Method::Get,
                "custom_emoji/list"@,
                request,
                self@.headers,
                outcome,
            ),
    {
        self.make_request(Method::Get, "custom_emoji/list", request)
    }
}

} // verus!
