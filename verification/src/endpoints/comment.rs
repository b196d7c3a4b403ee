use vstd::prelude::*;

use crate::error::LemmyError;
use crate::form::{LemmyForm, LemmyRequest};
use crate::lemmy_client::LemmyClient;
use crate::lemmy_client_internal::request_made;
use crate::method::Method;
use crate::request::OutgoingRequest;

verus! {

/// The endpoints for comments. Each method plans the request of its call,
/// with the verb and the path of the endpoint; the call is made by whoever
/// sends the request.
impl LemmyClient {
    /// Gets a comment.
    ///
    /// HTTP GET /comment
    pub fn get_comment<Form: LemmyForm>(
        &self,
        request: LemmyRequest<Form>,
    ) -> (outcome: Result<OutgoingRequest, LemmyError>)
        ensures
            request_made(
                self@.domain,
                self@.secure,
                Method::Get,
                "comment"@,
                request,
                self@.headers,
                outcome,
            ),
    {
        self.make_request(Method::Get, "comment", request)
    }

    /// Creates a new comment.
    ///
    /// HTTP POST /comment
    pub fn create_comment<Form: LemmyForm>(
        &self,
        request: LemmyRequest<Form>,
    ) -> (outcome: Result<OutgoingRequest, LemmyError>)
        ensures
            request_made(
                self@.domain,
                self@.secure,
                Method::Post,
                "comment"@,
                request,
                self@.headers,
                outcome,
            ),
    {
        self.make_request(Method::Post, "comment", request)
    }

    /// Edits one of your already-created comments.
    ///
    /// HTTP PUT /comment
    pub fn edit_comment<Form: LemmyForm>(
        &self,
        request: LemmyRequest<Form>,
    ) -> (outcome: Result<OutgoingRequest, LemmyError>)
        ensures
            request_made(
                self@.domain,
                self@.secure,
                Method::Put,
                "comment"@,
                request,
                self@.headers,
                outcome,
            ),
    {
        self.make_request(Method::Put, "comment", request)
    }

    /// Deletes one of your already-existing comments.
    ///
    /// HTTP POST /comment/delete
    pub fn delete_comment<Form: LemmyForm>(
        &self,
        request: LemmyRequest<Form>,
    ) -> (outcome: Result<OutgoingRequest, LemmyError>)
        ensures
            request_made(
                self@.domain,
                self@.secure,
                Method::Post,
                "comment/delete"@,
                request,
                self@.headers,
                outcome,
            ),
    {
        self.make_request(Method::Post, "comment/delete", request)
    }

    /// Removes a post (moderator action).
    ///
    /// HTTP POST /comment/remove
    pub fn remove_comment<Form: LemmyForm>(
        &self,
        request: LemmyRequest<Form>,
    ) -> (outcome: Result<OutgoingRequest, LemmyError>)
        ensures
            request_made(
                self@.domain,
                self@.secure,
                Method::Post,
                "comment/remove"@,
                request,
                self@.headers,
                outcome,
            ),
    {
        self.make_request(Method::Post, "comment/remove", request)
    }

    /// Pins a comment to the top of a post's comment section (speak as
    /// moderator).
    ///
    /// HTTP POST /comment/distinguish
    pub fn distinguish_comment<Form: LemmyForm>(
        &self,
        request: LemmyRequest<Form>,
    ) -> (outcome: Result<OutgoingRequest, LemmyError>)
        ensures
            request_made(
                self@.domain,
                self@.secure,
                Method::Post,
                "comment/distinguish"@,
                request,
                self@.headers,
                outcome,
            ),
    {
        self.make_request(Method::Post, "comment/distinguish", request)
    }

    /// Votes on a comment.
    ///
    /// HTTP POST /comment/like
    pub fn like_comment<Form: LemmyForm>(
        &self,
        request: LemmyRequest<Form>,
    ) -> (outcome: Result<OutgoingRequest, LemmyError>)
        ensures
            request_made(
                self@.domain,
                self@.secure,
                Method::Post,
                "comment/like"@,
                request,
                self@.headers,
                outcome,
            ),
    {
        self.make_request(Method::Post, "comment/like", request)
    }

    /// Gets the votes for a comment.
    ///
    /// HTTP GET /comment/like/list
    pub fn list_comment_likes<Form: LemmyForm>(
        &self,
        request: LemmyRequest<Form>,
    ) -> (outcome: Result<OutgoingRequest, LemmyError>)
        ensures
            request_made(
                self@.domain,
                self@.secure,
                Method::Get,
                "comment/like/list"@,
                request,
                self@.headers,
                outcome,
            ),
    {
        self.make_request(Method::Get, "comment/like/list", request)
    }

    /// Saves a comment to your favorites list.
    ///
    /// HTTP PUT /comment/save
    pub fn save_comment<Form: LemmyForm>(
        &self,
        request: LemmyRequest<Form>,
    ) -> (outcome: Result<OutgoingRequest, LemmyError>)
        ensures
            request_made(
                self@.domain,
                self@.secure,
                Method::Put,
                "comment/save"@,
                request,
                self@.headers,
                outcome,
            ),
    {
        self.make_request(Method::Put, "comment/save", request)
    }

    /// Gets comments with various filters.
    ///
    /// HTTP GET /comment/list
    pub fn list_comments<Form: LemmyForm>(
        &self,
        request: LemmyRequest<Form>,
    ) -> (outcome: Result<OutgoingRequest, LemmyError>)
        ensures
            request_made(
                self@.domain,
                self@.secure,
                Method::Get,
                "comment/list"@,
                request,
                self@.headers,
                outcome,
            ),
    {
        self.make_request(Method::Get, "comment/list", request)
    }

    /// Retrieve a slim representation of comments.
    ///
    /// HTTP GET /comment/list/slim
    pub fn list_comments_slim<Form: LemmyForm>(
        &self,
        request: LemmyRequest<Form>,
    ) -> (outcome: Result<OutgoingRequest, LemmyError>)
        ensures
            request_made(
                self@.domain,
                self@.secure,
                Method::Get,
                "comment/list/slim"@,
                request,
                self@.headers,
                outcome,
            ),
    {
        self.make_request(Method::Get, "comment/list/slim", request)
    }

    /// Reports a comment to the moderator team of the community the comment is
    /// in, your instance's admin team, and the commenter's instance's admin
    /// team.
    ///
    /// HTTP POST /comment/report
    pub fn report_comment<Form: LemmyForm>(
        &self,
        request: LemmyRequest<Form>,
    ) -> (outcome: Result<OutgoingRequest, LemmyError>)
        ensures
            request_made(
                self@.domain,
                self@.secure,
                Method::Post,
                "comment/report"@,
                request,
                self@.headers,
                outcome,
            ),
    {
        self.make_request(Method::Post, "comment/report", request)
    }

    /// Resolves a report on a comment made in a community you moderate or
    /// instance you administrate.
    ///
    /// HTTP PUT /comment/report/resolve
    pub fn resolve_comment_report<Form: LemmyForm>(
        &self,
        request: LemmyRequest<Form>,
    ) -> (outcome: Result<OutgoingRequest, LemmyError>)
        ensures
            request_made(
                self@.domain,
                self@.secure,
                Method::Put,
                "comment/report/resolve"@,
                request,
                self@.headers,
                outcome,
            ),
    {
        self.make_request(Method::Put, "comment/report/resolve", request)
    }
}

} // verus!
