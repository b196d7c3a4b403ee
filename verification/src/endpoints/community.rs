use vstd::prelude::*;

use crate::error::LemmyError;
use crate::form::{LemmyForm, LemmyRequest};
use crate::lemmy_client::LemmyClient;
use crate::lemmy_client_internal::{file_request_made, request_made};
use crate::method::Method;
use crate::request::OutgoingRequest;

verus! {

/// The endpoints for communities. Each method plans the request of its
/// call, with the verb and the path of the endpoint; the call is made by
/// whoever sends the request.
impl LemmyClient {
    /// Gets a community.
    ///
    /// HTTP GET /community
    pub fn get_community<Form: LemmyForm>(
        &self,
        request: LemmyRequest<Form>,
    ) -> (outcome: Result<OutgoingRequest, LemmyError>)
        ensures
            request_made(
                self@.domain,
                self@.secure,
                Method::Get,
                "community"@,
                request,
                self@.headers,
                outcome,
            ),
    {
        self.make_request(Method::Get, "community", request)
    }

    /// Creates a new community.
    ///
    /// HTTP POST /community
    pub fn create_community<Form: LemmyForm>(
        &self,
        request: LemmyRequest<Form>,
    ) -> (outcome: Result<OutgoingRequest, LemmyError>)
        ensures
            request_made(
                self@.domain,
                self@.secure,
                Method::Post,
                "community"@,
                request,
                self@.headers,
                outcome,
            ),
    {
        self.make_request(Method::Post, "community", request)
    }

    /// Edits a community.
    ///
    /// HTTP PUT /community
    pub fn update_community<Form: LemmyForm>(
        &self,
        request: LemmyRequest<Form>,
    ) -> (outcome: Result<OutgoingRequest, LemmyError>)
        ensures
            request_made(
                self@.domain,
                self@.secure,
                Method::Put,
                "community"@,
                request,
                self@.headers,
                outcome,
            ),
    {
        self.make_request(Method::Put, "community", request)
    }

    /// Fetches a random community.
    ///
    /// HTTP GET /community/random
    pub fn get_random_community<Form: LemmyForm>(
        &self,
        request: LemmyRequest<Form>,
    ) -> (outcome: Result<OutgoingRequest, LemmyError>)
        ensures
            request_made(
                self@.domain,
                self@.secure,
                Method::Get,
                "community/random"@,
                request,
                self@.headers,
                outcome,
            ),
    {
        self.make_request(Method::Get, "community/random", request)
    }

    /// Lists communities.
    ///
    /// HTTP GET /community/list
    pub fn list_communities<Form: LemmyForm>(
        &self,
        request: LemmyRequest<Form>,
    ) -> (outcome: Result<OutgoingRequest, LemmyError>)
        ensures
            request_made(
                self@.domain,
                self@.secure,
                Method::Get,
                "community/list"@,
                request,
                self@.headers,
                outcome,
            ),
    {
        self.make_request(Method::Get, "community/list", request)
    }

    /// Subscribes to a community.
    ///
    /// HTTP POST /community/follow
    pub fn follow_community<Form: LemmyForm>(
        &self,
        request: LemmyRequest<Form>,
    ) -> (outcome: Result<OutgoingRequest, LemmyError>)
        ensures
            request_made(
                self@.domain,
                self@.secure,
                Method::Post,
                "community/follow"@,
                request,
                self@.headers,
                outcome,
            ),
    {
        self.make_request(Method::Post, "community/follow", request)
    }

    /// Deletes a community.
    ///
    /// HTTP POST /community/delete
    pub fn delete_community<Form: LemmyForm>(
        &self,
        request: LemmyRequest<Form>,
    ) -> (outcome: Result<OutgoingRequest, LemmyError>)
        ensures
            request_made(
                self@.domain,
                self@.secure,
                Method::Post,
                "community/delete"@,
                request,
                self@.headers,
                outcome,
            ),
    {
        self.make_request(Method::Post, "community/delete", request)
    }

    /// Removes a community (moderation action).
    ///
    /// HTTP POST /community/remove
    pub fn remove_community<Form: LemmyForm>(
        &self,
        request: LemmyRequest<Form>,
    ) -> (outcome: Result<OutgoingRequest, LemmyError>)
        ensures
            request_made(
                self@.domain,
                self@.secure,
                Method::Post,
                "community/remove"@,
                request,
                self@.headers,
                outcome,
            ),
    {
        self.make_request(Method::Post, "community/remove", request)
    }

    /// Transfers a community you own to another user on that community's
    /// moderation team.
    ///
    /// HTTP POST /community/transfer
    pub fn transfer_community<Form: LemmyForm>(
        &self,
        request: LemmyRequest<Form>,
    ) -> (outcome: Result<OutgoingRequest, LemmyError>)
        ensures
            request_made(
                self@.domain,
                self@.secure,
                Method::Post,
                "community/transfer"@,
                request,
                self@.headers,
                outcome,
            ),
    {
        self.make_request(Method::Post, "community/transfer", request)
    }

    /// Bans a user from a community.
    ///
    /// HTTP POST /community/ban_user
    pub fn ban_from_community<Form: LemmyForm>(
        &self,
        request: LemmyRequest<Form>,
    ) -> (outcome: Result<OutgoingRequest, LemmyError>)
        ensures
            request_made(
                self@.domain,
                self@.secure,
                Method::Post,
                "community/ban_user"@,
                request,
                self@.headers,
                outcome,
            ),
    {
        self.make_request(Method::Post, "community/ban_user", request)
    }

    /// Adds a moderator to your community.
    ///
    /// HTTP POST /community/mod
    pub fn add_mod_to_community<Form: LemmyForm>(
        &self,
        request: LemmyRequest<Form>,
    ) -> (outcome: Result<OutgoingRequest, LemmyError>)
        ensures
            request_made(
                self@.domain,
                self@.secure,
                Method::Post,
                "community/mod"@,
                request,
                self@.headers,
                outcome,
            ),
    {
        self.make_request(Method::Post, "community/mod", request)
    }

    /// Uploads an icon to represent a community.
    ///
    /// HTTP POST /community/icon
    pub fn upload_community_icon<Query: LemmyForm>(
        &self,
        query: Query,
        request: LemmyRequest<&[u8]>,
    ) -> (outcome: Result<OutgoingRequest, LemmyError>)
        ensures
            file_request_made(
                self@.domain,
                self@.secure,
                "community/icon"@,
                query,
                request,
                self@.headers,
                outcome,
            ),
    {
        self.make_file_request("community/icon", query, request)
    }

    /// Deletes the icon used by a community.
    ///
    /// HTTP DELETE /community/icon
    pub fn delete_community_icon<Form: LemmyForm>(
        &self,
        request: LemmyRequest<Form>,
    ) -> (outcome: Result<OutgoingRequest, LemmyError>)
        ensures
            request_made(
                self@.domain,
                self@.secure,
                Method::Delete,
                "community/icon"@,
                request,
                self@.headers,
                outcome,
            ),
    {
        self.make_request(Method::Delete, "community/icon", request)
    }

    /// Uploads a banner to add flair to a community
    ///
    /// HTTP POST /community/banner
    pub fn upload_community_banner<Query: LemmyForm>(
        &self,
        query: Query,
        request: LemmyRequest<&[u8]>,
    ) -> (outcome: Result<OutgoingRequest, LemmyError>)
        ensures
            file_request_made(
                self@.domain,
                self@.secure,
                "community/banner"@,
                query,
                request,
                self@.headers,
                outcome,
            ),
    {
        self.make_file_request("community/banner", query, request)
    }

    /// Deletes the banner used by a community.
    ///
    /// HTTP DELETE /community/banner
    pub fn delete_community_banner<Form: LemmyForm>(
        &self,
        request: LemmyRequest<Form>,
    ) -> (outcome: Result<OutgoingRequest, LemmyError>)
        ensures
            request_made(
                self@.domain,
                self@.secure,
                Method::Delete,
                "community/banner"@,
                request,
                self@.headers,
                outcome,
            ),
    {
        self.make_request(Method::Delete, "community/banner", request)
    }

    /// Set which notifications you want to receive for a community.
    ///
    /// HTTP POST /community/notifications
    pub fn update_community_notifications<Form: LemmyForm>(
        &self,
        request: LemmyRequest<Form>,
    ) -> (outcome: Result<OutgoingRequest, LemmyError>)
        ensures
            request_made(
                self@.domain,
                self@.secure,
                Method::Post,
                "community/notifications"@,
                request,
                self@.headers,
                outcome,
            ),
    {
        self.make_request(Method::Post, "community/notifications", request)
    }

    /// Gets number of pending follows for a given community.
    ///
    /// HTTP GET /community/pending_follows/count
    pub fn get_community_pending_follows_count<Form: LemmyForm>(
        &self,
        request: LemmyRequest<Form>,
    ) -> (outcome: Result<OutgoingRequest, LemmyError>)
        ensures
            request_made(
                self@.domain,
                self@.secure,
                Method::Get,
                "community/pending_follows/count"@,
                request,
                self@.headers,
                outcome,
            ),
    {
        self.make_request(Method::Get, "community/pending_follows/count", request)
    }

    /// Gets list of pending follows for a given community.
    ///
    /// HTTP GET /community/pending_follows/list
    pub fn list_community_pending_follows<Form: LemmyForm>(
        &self,
        request: LemmyRequest<Form>,
    ) -> (outcome: Result<OutgoingRequest, LemmyError>)
        ensures
            request_made(
                self@.domain,
                self@.secure,
                Method::Get,
                "community/pending_follows/list"@,
                request,
                self@.headers,
                outcome,
            ),
    {
        self.make_request(Method::Get, "community/pending_follows/list", request)
    }

    /// Approve a pending follow for a given community.
    ///
    /// HTTP POST /community/pending_follows/approve
    pub fn approve_community_pending_follow<Form: LemmyForm>(
        &self,
        request: LemmyRequest<Form>,
    ) -> (outcome: Result<OutgoingRequest, LemmyError>)
        ensures
            request_made(
                self@.domain,
                self@.secure,
                Method::Post,
                "community/pending_follows/approve"@,
                request,
                self@.headers,
                outcome,
            ),
    {
        self.make_request(Method::Post, "community/pending_follows/approve", request)
    }

    /// Create a multi community.
    ///
    /// HTTP POST /multi_community
    pub fn create_multi_community<Form: LemmyForm>(
        &self,
        request: LemmyRequest<Form>,
    ) -> (outcome: Result<OutgoingRequest, LemmyError>)
        ensures
            request_made(
                self@.domain,
                self@.secure,
                Method::Post,
                "multi_community"@,
                request,
                self@.headers,
                outcome,
            ),
    {
        self.make_request(Method::Post, "multi_community", request)
    }

    /// Update a multi community.
    ///
    /// HTTP PUT /multi_community
    pub fn edit_multi_community<Form: LemmyForm>(
        &self,
        request: LemmyRequest<Form>,
    ) -> (outcome: Result<OutgoingRequest, LemmyError>)
        ensures
            request_made(
                self@.domain,
                self@.secure,
                Method::Put,
                "multi_community"@,
                request,
                self@.headers,
                outcome,
            ),
    {
        self.make_request(Method::Put, "multi_community", request)
    }

    /// Get a specific multi community.
    ///
    /// HTTP GET /multi_community
    pub fn get_multi_community<Form: LemmyForm>(
        &self,
        request: LemmyRequest<Form>,
    ) -> (outcome: Result<OutgoingRequest, LemmyError>)
        ensures
            request_made(
                self@.domain,
                self@.secure,
                Method::Get,
                "multi_community"@,
                request,
                self@.headers,
                outcome,
            ),
    {
        self.make_request(Method::Get, "multi_community", request)
    }

    /// Add a community to a multi community.
    ///
    /// HTTP POST /multi_community/entry
    pub fn add_multi_community_entry<Form: LemmyForm>(
        &self,
        request: LemmyRequest<Form>,
    ) -> (outcome: Result<OutgoingRequest, LemmyError>)
        ensures
            request_made(
                self@.domain,
                self@.secure,
                Method::Post,
                "multi_community/entry"@,
                request,
                self@.headers,
                outcome,
            ),
    {
        self.make_request(Method::Post, "multi_community/entry", request)
    }

    /// Remove a community from a multi community.
    ///
    /// HTTP DELETE /multi_community/entry
    pub fn remove_multi_community_entry<Form: LemmyForm>(
        &self,
        request: LemmyRequest<Form>,
    ) -> (outcome: Result<OutgoingRequest, LemmyError>)
        ensures
            request_made(
                self@.domain,
                self@.secure,
                Method::Delete,
                "multi_community/entry"@,
                request,
                self@.headers,
                outcome,
            ),
    {
        self.make_request(Method::Delete, "multi_community/entry", request)
    }

    /// List multi communities.
    ///
    /// HTTP GET /multi_community/list
    pub fn list_multi_communities<Form: LemmyForm>(
        &self,
        request: LemmyRequest<Form>,
    ) -> (outcome: Result<OutgoingRequest, LemmyError>)
        ensures
            request_made(
                self@.domain,
                self@.secure,
                Method::Get,
                "multi_community/list"@,
                request,
                self@.headers,
                outcome,
            ),
    {
        self.make_request(Method::Get, "multi_community/list", request)
    }

    /// Remove a community from a multi community.
    ///
    /// HTTP POST /multi_community/follow
    pub fn follow_multi_community<Form: LemmyForm>(
        &self,
        request: LemmyRequest<Form>,
    ) -> (outcome: Result<OutgoingRequest, LemmyError>)
        ensures
            request_made(
                self@.domain,
                self@.secure,
                Method::Post,
                "multi_community/follow"@,
                request,
                self@.headers,
                outcome,
            ),
    {
        self.make_request(Method::Post, "multi_community/follow", request)
    }
}

} // verus!
