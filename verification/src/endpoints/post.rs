use vstd::prelude::*;

use crate::error::LemmyError;
use crate::form::{LemmyForm, LemmyRequest};
use crate::lemmy_client::LemmyClient;
use crate::lemmy_client_internal::request_made;
use crate::method::Method;
use crate::request::OutgoingRequest;

verus! {

/// The endpoints for posts. Each method plans the request of its call, with
/// the verb and the path of the endpoint; the call is made by whoever sends
/// the request.
impl LemmyClient {
    /// Gets a post.
    ///
    /// HTTP GET /post
    pub fn get_post<Form: LemmyForm>(
        &self,
        request: LemmyRequest<Form>,
    ) -> (outcome: Result<OutgoingRequest, LemmyError>)
        ensures
            request_made(
                self@.domain,
                self@.secure,
                Method::Get,
                "post"@,
                request,
                self@.headers,
                outcome,
            ),
    {
        self.make_request(Method::Get, "post", request)
    }

    /// Creates a post.
    ///
    /// HTTP POST /post
    pub fn create_post<Form: LemmyForm>(
        &self,
        request: LemmyRequest<Form>,
    ) -> (outcome: Result<OutgoingRequest, LemmyError>)
        ensures
            request_made(
                self@.domain,
                self@.secure,
                Method::Post,
                "post"@,
                request,
                self@.headers,
                outcome,
            ),
    {
        self.make_request(Method::Post, "post", request)
    }

    /// Edits a post you have already created.
    ///
    /// HTTP PUT /post
    pub fn edit_post<Form: LemmyForm>(
        &self,
        request: LemmyRequest<Form>,
    ) -> (outcome: Result<OutgoingRequest, LemmyError>)
        ensures
            request_made(
                self@.domain,
                self@.secure,
                Method::Put,
                "post"@,
                request,
                self@.headers,
                outcome,
            ),
    {
        self.make_request(Method::Put, "post", request)
    }

    /// Gets the content type and opengraph data of site linked in a post.
    ///
    /// HTTP GET /post/site_metadata
    pub fn get_linked_site_metadata<Form: LemmyForm>(
        &self,
        request: LemmyRequest<Form>,
    ) -> (outcome: Result<OutgoingRequest, LemmyError>)
        ensures
            request_made(
                self@.domain,
                self@.secure,
                Method::Get,
                "post/site_metadata"@,
                request,
                self@.headers,
                outcome,
            ),
    {
        self.make_request(Method::Get, "post/site_metadata", request)
    }

    /// Deletes a post you have made.
    ///
    /// HTTP POST /post/delete
    pub fn delete_post<Form: LemmyForm>(
        &self,
        request: LemmyRequest<Form>,
    ) -> (outcome: Result<OutgoingRequest, LemmyError>)
        ensures
            request_made(
                self@.domain,
                self@.secure,
                Method::Post,
                "post/delete"@,
                request,
                self@.headers,
                outcome,
            ),
    {
        self.make_request(Method::Post, "post/delete", request)
    }

    /// Removes a post (moderator action).
    ///
    /// HTTP POST /post/remove
    pub fn remove_post<Form: LemmyForm>(
        &self,
        request: LemmyRequest<Form>,
    ) -> (outcome: Result<OutgoingRequest, LemmyError>)
        ensures
            request_made(
                self@.domain,
                self@.secure,
                Method::Post,
                "post/remove"@,
                request,
                self@.headers,
                outcome,
            ),
    {
        self.make_request(Method::Post, "post/remove", request)
    }

    /// Marks a post as read.
    ///
    /// HTTP POST /post/mark_as_read
    pub fn mark_post_as_read<Form: LemmyForm>(
        &self,
        request: LemmyRequest<Form>,
    ) -> (outcome: Result<OutgoingRequest, LemmyError>)
        ensures
            request_made(
                self@.domain,
                self@.secure,
                Method::Post,
                "post/mark_as_read"@,
                request,
                self@.headers,
                outcome,
            ),
    {
        self.make_request(Method::Post, "post/mark_as_read", request)
    }

    /// Marks several posts as read.
    ///
    /// HTTP POST /post/mark_as_read/many
    pub fn mark_many_posts_as_read<Form: LemmyForm>(
        &self,
        request: LemmyRequest<Form>,
    ) -> (outcome: Result<OutgoingRequest, LemmyError>)
        ensures
            request_made(
                self@.domain,
                self@.secure,
                Method::Post,
                "post/mark_as_read/many"@,
                request,
                self@.headers,
                outcome,
            ),
    {
        self.make_request(Method::Post, "post/mark_as_read/many", request)
    }

    /// Hide a post from list views.
    ///
    /// HTTP POST /post/hide
    pub fn hide_post<Form: LemmyForm>(
        &self,
        request: LemmyRequest<Form>,
    ) -> (outcome: Result<OutgoingRequest, LemmyError>)
        ensures
            request_made(
                self@.domain,
                self@.secure,
                Method::Post,
                "post/hide"@,
                request,
                self@.headers,
                outcome,
            ),
    {
        self.make_request(Method::Post, "post/hide", request)
    }

    /// Prevents users from commenting on the post (moderator action).
    ///
    /// HTTP POST /post/lock
    pub fn lock_post<Form: LemmyForm>(
        &self,
        request: LemmyRequest<Form>,
    ) -> (outcome: Result<OutgoingRequest, LemmyError>)
        ensures
            request_made(
                self@.domain,
                self@.secure,
                Method::Post,
                "post/lock"@,
                request,
                self@.headers,
                outcome,
            ),
    {
        self.make_request(Method::Post, "post/lock", request)
    }

    /// Pins a post to the top of the community page (moderator action).
    ///
    /// HTTP POST /post/feature
    pub fn feature_post<Form: LemmyForm>(
        &self,
        request: LemmyRequest<Form>,
    ) -> (outcome: Result<OutgoingRequest, LemmyError>)
        ensures
            request_made(
                self@.domain,
                self@.secure,
                Method::Post,
                "post/feature"@,
                request,
                self@.headers,
                outcome,
            ),
    {
        self.make_request(Method::Post, "post/feature", request)
    }

    /// Gets posts with a variety of filters.
    ///
    /// HTTP GET /post/list
    pub fn list_posts<Form: LemmyForm>(
        &self,
        request: LemmyRequest<Form>,
    ) -> (outcome: Result<OutgoingRequest, LemmyError>)
        ensures
            request_made(
                self@.domain,
                self@.secure,
                Method::Get,
                "post/list"@,
                request,
                self@.headers,
                outcome,
            ),
    {
        self.make_request(Method::Get, "post/list", request)
    }

    /// Votes on a post.
    ///
    /// HTTP POST /post/like
    pub fn like_post<Form: LemmyForm>(
        &self,
        request: LemmyRequest<Form>,
    ) -> (outcome: Result<OutgoingRequest, LemmyError>)
        ensures
            request_made(
                self@.domain,
                self@.secure,
                Method::Post,
                "post/like"@,
                request,
                self@.headers,
                outcome,
            ),
    {
        self.make_request(Method::Post, "post/like", request)
    }

    /// Lists the likes for a post.
    ///
    /// HTTP GET /post/like/list
    pub fn list_post_likes<Form: LemmyForm>(
        &self,
        request: LemmyRequest<Form>,
    ) -> (outcome: Result<OutgoingRequest, LemmyError>)
        ensures
            request_made(
                self@.domain,
                self@.secure,
                Method::Get,
                "post/like/list"@,
                request,
                self@.headers,
                outcome,
            ),
    {
        self.make_request(Method::Get, "post/like/list", request)
    }

    /// Saves a post to your favorites list.
    ///
    /// HTTP PUT /post/save
    pub fn save_post<Form: LemmyForm>(
        &self,
        request: LemmyRequest<Form>,
    ) -> (outcome: Result<OutgoingRequest, LemmyError>)
        ensures
            request_made(
                self@.domain,
                self@.secure,
                Method::Put,
                "post/save"@,
                request,
                self@.headers,
                outcome,
            ),
    {
        self.make_request(Method::Put, "post/save", request)
    }

    /// Reports a post to the moderator team of the community the post is in,
    /// the admin team of your instance, and the admin team of the poster's
    /// instance.
    ///
    /// HTTP POST /post/report
    pub fn report_post<Form: LemmyForm>(
        &self,
        request: LemmyRequest<Form>,
    ) -> (outcome: Result<OutgoingRequest, LemmyError>)
        ensures
            request_made(
                self@.domain,
                self@.secure,
                Method::Post,
                "post/report"@,
                request,
                self@.headers,
                outcome,
            ),
    {
        self.make_request(Method::Post, "post/report", request)
    }

    /// Resolves a post report (moderator action).
    ///
    /// HTTP PUT /post/report/resolve
    pub fn resolve_post_report<Form: LemmyForm>(
        &self,
        request: LemmyRequest<Form>,
    ) -> (outcome: Result<OutgoingRequest, LemmyError>)
        ensures
            request_made(
                self@.domain,
                self@.secure,
                Method::Put,
                "post/report/resolve"@,
                request,
                self@.headers,
                outcome,
            ),
    {
        self.make_request(Method::Put, "post/report/resolve", request)
    }
}

} // verus!
