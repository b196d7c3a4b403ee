use vstd::prelude::*;

use crate::error::LemmyError;
use crate::form::{LemmyForm, LemmyRequest};
use crate::lemmy_client::LemmyClient;
use crate::lemmy_client_internal::request_made;
use crate::method::Method;
use crate::request::OutgoingRequest;

verus! {

/// The endpoints for the administration of an instance. Each method plans
/// the request of its call, with the verb and the path of the endpoint; the
/// call is made by whoever sends the request.
impl LemmyClient {
    /// Adds a user to your instance's admin team.
    ///
    /// HTTP POST /admin/add
    pub fn add_admin<Form: LemmyForm>(
        &self,
        request: LemmyRequest<Form>,
    ) -> (outcome: Result<OutgoingRequest, LemmyError>)
        ensures
            request_made(
                self@.domain,
                self@.secure,
                Method::Post,
                "admin/add"@,
                request,
                self@.headers,
                outcome,
            ),
    {
        self.make_request(Method::Post, "admin/add", request)
    }

    /// Gets the number of unread registration applications for the instance you
    /// administrate.
    ///
    /// HTTP GET /admin/registration_application/count
    pub fn unread_registration_application_count(
        &self,
        request: LemmyRequest<()>,
    ) -> (outcome: Result<OutgoingRequest, LemmyError>)
        ensures
            request_made(
                self@.domain,
                self@.secure,
                Method::Get,
                "admin/registration_application/count"@,
                request,
                self@.headers,
                outcome,
            ),
    {
        self.make_request(Method::Get, "admin/registration_application/count", request)
    }

    /// Gets applications to register an account on the instance you
    /// administrate.
    ///
    /// HTTP GET /admin/registration_application/list
    pub fn list_registration_applications<Form: LemmyForm>(
        &self,
        request: LemmyRequest<Form>,
    ) -> (outcome: Result<OutgoingRequest, LemmyError>)
        ensures
            request_made(
                self@.domain,
                self@.secure,
                Method::Get,
                "admin/registration_application/list"@,
                request,
                self@.headers,
                outcome,
            ),
    {
        self.make_request(Method::Get, "admin/registration_application/list", request)
    }

    /// Approves a pending registration application.
    ///
    /// HTTP PUT /admin/registration_application/approve
    pub fn approve_registration_application<Form: LemmyForm>(
        &self,
        request: LemmyRequest<Form>,
    ) -> (outcome: Result<OutgoingRequest, LemmyError>)
        ensures
            request_made(
                self@.domain,
                self@.secure,
                Method::Put,
                "admin/registration_application/approve"@,
                request,
                self@.headers,
                outcome,
            ),
    {
        self.make_request(Method::Put, "admin/registration_application/approve", request)
    }

    /// Get the application a user submitted when they first registered their
    /// account
    ///
    /// HTTP GET /admin/registration_application
    pub fn get_registration_application<Form: LemmyForm>(
        &self,
        request: LemmyRequest<Form>,
    ) -> (outcome: Result<OutgoingRequest, LemmyError>)
        ensures
            request_made(
                self@.domain,
                self@.secure,
                Method::Get,
                "admin/registration_application"@,
                request,
                self@.headers,
                outcome,
            ),
    {
        self.make_request(Method::Get, "admin/registration_application", request)
    }

    /// Purges a user from the database.
    ///
    /// HTTP POST /admin/purge/person
    pub fn purge_person<Form: LemmyForm>(
        &self,
        request: LemmyRequest<Form>,
    ) -> (outcome: Result<OutgoingRequest, LemmyError>)
        ensures
            request_made(
                self@.domain,
                self@.secure,
                Method::Post,
                "admin/purge/person"@,
                request,
                self@.headers,
                outcome,
            ),
    {
        self.make_request(Method::Post, "admin/purge/person", request)
    }

    /// Purges a community from the database.
    ///
    /// HTTP POST /admin/purge/community
    pub fn purge_community<Form: LemmyForm>(
        &self,
        request: LemmyRequest<Form>,
    ) -> (outcome: Result<OutgoingRequest, LemmyError>)
        ensures
            request_made(
                self@.domain,
                self@.secure,
                Method::Post,
                "admin/purge/community"@,
                request,
                self@.headers,
                outcome,
            ),
    {
        self.make_request(Method::Post, "admin/purge/community", request)
    }

    /// Purges a post from the database.
    ///
    /// HTTP POST /admin/purge/post
    pub fn purge_post<Form: LemmyForm>(
        &self,
        request: LemmyRequest<Form>,
    ) -> (outcome: Result<OutgoingRequest, LemmyError>)
        ensures
            request_made(
                self@.domain,
                self@.secure,
                Method::Post,
                "admin/purge/post"@,
                request,
                self@.headers,
                outcome,
            ),
    {
        self.make_request(Method::Post, "admin/purge/post", request)
    }

    /// Purges a comment from the database.
    ///
    /// HTTP POST /admin/purge/Comment
    pub fn purge_comment<Form: LemmyForm>(
        &self,
        request: LemmyRequest<Form>,
    ) -> (outcome: Result<OutgoingRequest, LemmyError>)
        ensures
            request_made(
                self@.domain,
                self@.secure,
                Method::Post,
                "admin/purge/Comment"@,
                request,
                self@.headers,
                outcome,
            ),
    {
        self.make_request(Method::Post, "admin/purge/Comment", request)
    }

    /// Adds a new tagline to the site.
    ///
    /// HTTP POST /admin/tagline
    pub fn create_tagline<Form: LemmyForm>(
        &self,
        request: LemmyRequest<Form>,
    ) -> (outcome: Result<OutgoingRequest, LemmyError>)
        ensures
            request_made(
                self@.domain,
                self@.secure,
                Method::Post,
                "admin/tagline"@,
                request,
                self@.headers,
                outcome,
            ),
    {
        self.make_request(Method::Post, "admin/tagline", request)
    }

    /// Updates an existing tagline.
    ///
    /// HTTP PUT /admin/tagline
    pub fn update_tagline<Form: LemmyForm>(
        &self,
        request: LemmyRequest<Form>,
    ) -> (outcome: Result<OutgoingRequest, LemmyError>)
        ensures
            request_made(
                self@.domain,
                self@.secure,
                Method::Put,
                "admin/tagline"@,
                request,
                self@.headers,
                outcome,
            ),
    {
        self.make_request(Method::Put, "admin/tagline", request)
    }

    /// Deletes an existing tagline.
    ///
    /// HTTP POST /admin/tagline/delete
    pub fn delete_tagline<Form: LemmyForm>(
        &self,
        request: LemmyRequest<Form>,
    ) -> (outcome: Result<OutgoingRequest, LemmyError>)
        ensures
            request_made(
                self@.domain,
                self@.secure,
                Method::Post,
                "admin/tagline/delete"@,
                request,
                self@.headers,
                outcome,
            ),
    {
        self.make_request(Method::Post, "admin/tagline/delete", request)
    }

    /// Gets the site's taglines.
    ///
    /// HTTP GET /admin/tagline/list
    pub fn list_taglines<Form: LemmyForm>(
        &self,
        request: LemmyRequest<Form>,
    ) -> (outcome: Result<OutgoingRequest, LemmyError>)
        ensures
            request_made(
                self@.domain,
                self@.secure,
                Method::Get,
                "admin/tagline/list"@,
                request,
                self@.headers,
                outcome,
            ),
    {
        self.make_request(Method::Get, "admin/tagline/list", request)
    }

    /// Bans a person from your instance.
    ///
    /// HTTP POST /admin/ban
    pub fn ban_from_site<Form: LemmyForm>(
        &self,
        request: LemmyRequest<Form>,
    ) -> (outcome: Result<OutgoingRequest, LemmyError>)
        ensures
            request_made(
                self@.domain,
                self@.secure,
                Method::Post,
                "admin/ban"@,
                request,
                self@.headers,
                outcome,
            ),
    {
        self.make_request(Method::Post, "admin/ban", request)
    }

    /// Lists users of your site.
    ///
    /// HTTP GET /admin/users
    pub fn list_users<Form: LemmyForm>(
        &self,
        request: LemmyRequest<Form>,
    ) -> (outcome: Result<OutgoingRequest, LemmyError>)
        ensures
            request_made(
                self@.domain,
                self@.secure,
                Method::Get,
                "admin/users"@,
                request,
                self@.headers,
                outcome,
            ),
    {
        self.make_request(Method::Get, "admin/users", request)
    }

    /// Leave your instance's admin team.
    ///
    /// HTTP POST /admin/leave
    pub fn leave_admin(
        &self,
        request: LemmyRequest<()>,
    ) -> (outcome: Result<OutgoingRequest, LemmyError>)
        ensures
            request_made(
                self@.domain,
                self@.secure,
                Method::Post,
                "admin/leave"@,
                request,
                self@.headers,
                outcome,
            ),
    {
        self.make_request(Method::Post, "admin/leave", request)
    }

    /// Defederates an instance from the current instance.
    ///
    /// HTTP POST /admin/instance/block
    pub fn admin_block_instance<Form: LemmyForm>(
        &self,
        request: LemmyRequest<Form>,
    ) -> (outcome: Result<OutgoingRequest, LemmyError>)
        ensures
            request_made(
                self@.domain,
                self@.secure,
                Method::Post,
                "admin/instance/block"@,
                request,
                self@.headers,
                outcome,
            ),
    {
        self.make_request(Method::Post, "admin/instance/block", request)
    }

    /// Allows a given instance to interact with the current instance.
    ///
    /// HTTP POST /admin/instance/allow
    pub fn admin_allow_instance<Form: LemmyForm>(
        &self,
        request: LemmyRequest<Form>,
    ) -> (outcome: Result<OutgoingRequest, LemmyError>)
        ensures
            request_made(
                self@.domain,
                self@.secure,
                Method::Post,
                "admin/instance/allow"@,
                request,
                self@.headers,
                outcome,
            ),
    {
        self.make_request(Method::Post, "admin/instance/allow", request)
    }

    /// Gets all media posted on an instance. Only usable by the instance's
    /// admins.
    ///
    /// HTTP GET /image/list
    pub fn list_all_media<Form: LemmyForm>(
        &self,
        request: LemmyRequest<Form>,
    ) -> (outcome: Result<OutgoingRequest, LemmyError>)
        ensures
            request_made(
                self@.domain,
                self@.secure,
                Method::Get,
                "image/list"@,
                request,
                self@.headers,
                outcome,
            ),
    {
        self.make_request(Method::Get, "image/list", request)
    }

    /// Deletes an image from the instance.
    ///
    /// HTTP DELETE /image
    pub fn delete_image_admin<Form: LemmyForm>(
        &self,
        request: LemmyRequest<Form>,
    ) -> (outcome: Result<OutgoingRequest, LemmyError>)
        ensures
            request_made(
                self@.domain,
                self@.secure,
                Method::Delete,
                "image"@,
                request,
                self@.headers,
                outcome,
            ),
    {
        self.make_request(Method::Delete, "image", request)
    }
}

} // verus!
