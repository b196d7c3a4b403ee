use vstd::prelude::*;

use crate::error::LemmyError;
use crate::form::{LemmyForm, LemmyRequest};
use crate::lemmy_client::LemmyClient;
use crate::lemmy_client_internal::request_made;
use crate::method::Method;
use crate::request::OutgoingRequest;

verus! {

/// The endpoints for accounts and sessions. Each method plans the request
/// of its call, with the verb and the path of the endpoint; the call is
/// made by whoever sends the request.
impl LemmyClient {
    /// Registers a new account on an instance.
    ///
    /// HTTP POST /account/auth/register
    pub fn register_account<Form: LemmyForm>(
        &self,
        request: LemmyRequest<Form>,
    ) -> (outcome: Result<OutgoingRequest, LemmyError>)
        ensures
            request_made(
                self@.domain,
                self@.secure,
                Method::Post,
                "account/auth/register"@,
                request,
                self@.headers,
                outcome,
            ),
    {
        self.make_request(Method::Post, "account/auth/register", request)
    }

    /// Logs into the instance, giving you a JWT to use to make authorized
    /// requests.
    ///
    /// HTTP POST /account/auth/login
    pub fn login<Form: LemmyForm>(
        &self,
        request: LemmyRequest<Form>,
    ) -> (outcome: Result<OutgoingRequest, LemmyError>)
        ensures
            request_made(
                self@.domain,
                self@.secure,
                Method::Post,
                "account/auth/login"@,
                request,
                self@.headers,
                outcome,
            ),
    {
        self.make_request(Method::Post, "account/auth/login", request)
    }

    /// Plans the call that deletes the active session associated with the JWT.
    /// Hand the answer of the remote to `logout`, which then removes the JWT
    /// from the headers of the client.
    ///
    /// HTTP POST /account/auth/logout
    pub fn logout_request(
        &self,
        request: LemmyRequest<()>,
    ) -> (outcome: Result<OutgoingRequest, LemmyError>)
        ensures
            request_made(
                self@.domain,
                self@.secure,
                Method::Post,
                "account/auth/logout"@,
                request,
                self@.headers,
                outcome,
            ),
    {
        self.make_request(Method::Post, "account/auth/logout", request)
    }

    /// Sends an email to your account (if you have one) with a one time link to
    /// change your password. Use this if you forgot your password.
    ///
    /// HTTP POST /account/auth/password_reset
    pub fn reset_password<Form: LemmyForm>(
        &self,
        request: LemmyRequest<Form>,
    ) -> (outcome: Result<OutgoingRequest, LemmyError>)
        ensures
            request_made(
                self@.domain,
                self@.secure,
                Method::Post,
                "account/auth/password_reset"@,
                request,
                self@.headers,
                outcome,
            ),
    {
        self.make_request(Method::Post, "account/auth/password_reset", request)
    }

    /// Gets a captcha.
    ///
    /// HTTP GET /account/auth/get_captcha
    pub fn get_captcha(
        &self,
        request: LemmyRequest<()>,
    ) -> (outcome: Result<OutgoingRequest, LemmyError>)
        ensures
            request_made(
                self@.domain,
                self@.secure,
                Method::Get,
                "account/auth/get_captcha"@,
                request,
                self@.headers,
                outcome,
            ),
    {
        self.make_request(Method::Get, "account/auth/get_captcha", request)
    }

    /// Follows through with one time link password reset request.
    ///
    /// HTTP POST /account/auth/password_change
    pub fn change_password_after_reset<Form: LemmyForm>(
        &self,
        request: LemmyRequest<Form>,
    ) -> (outcome: Result<OutgoingRequest, LemmyError>)
        ensures
            request_made(
                self@.domain,
                self@.secure,
                Method::Post,
                "account/auth/password_change"@,
                request,
                self@.headers,
                outcome,
            ),
    {
        self.make_request(Method::Post, "account/auth/password_change", request)
    }

    /// Changes your password if you are already logged in.
    ///
    /// HTTP POST /account/auth/change_password
    pub fn change_password<Form: LemmyForm>(
        &self,
        request: LemmyRequest<Form>,
    ) -> (outcome: Result<OutgoingRequest, LemmyError>)
        ensures
            request_made(
                self@.domain,
                self@.secure,
                Method::Post,
                "account/auth/change_password"@,
                request,
                self@.headers,
                outcome,
            ),
    {
        self.make_request(Method::Post, "account/auth/change_password", request)
    }

    /// Generates a secret to enable time-based one time passwords for two-
    /// factor authentication.
    ///
    /// HTTP POST /account/auth/totp/generate
    pub fn generate_totp_secret(
        &self,
        request: LemmyRequest<()>,
    ) -> (outcome: Result<OutgoingRequest, LemmyError>)
        ensures
            request_made(
                self@.domain,
                self@.secure,
                Method::Post,
                "account/auth/totp/generate"@,
                request,
                self@.headers,
                outcome,
            ),
    {
        self.make_request(Method::Post, "account/auth/totp/generate", request)
    }

    /// Enables/disables two-factor authentication.
    ///
    /// HTTP POST /account/auth/totp/update
    pub fn update_totp<Form: LemmyForm>(
        &self,
        request: LemmyRequest<Form>,
    ) -> (outcome: Result<OutgoingRequest, LemmyError>)
        ensures
            request_made(
                self@.domain,
                self@.secure,
                Method::Post,
                "account/auth/totp/update"@,
                request,
                self@.headers,
                outcome,
            ),
    {
        self.make_request(Method::Post, "account/auth/totp/update", request)
    }

    /// Verifies your email. Used when the instance you are registering an
    /// account on requires email verification.
    ///
    /// HTTP POST /account/auth/verify_email
    pub fn verify_email<Form: LemmyForm>(
        &self,
        request: LemmyRequest<Form>,
    ) -> (outcome: Result<OutgoingRequest, LemmyError>)
        ensures
            request_made(
                self@.domain,
                self@.secure,
                Method::Post,
                "account/auth/verify_email"@,
                request,
                self@.headers,
                outcome,
            ),
    {
        self.make_request(Method::Post, "account/auth/verify_email", request)
    }

    /// Resend a verification email.
    ///
    /// HTTP POST /account/auth/resend_verification_email
    pub fn resend_verification_email<Form: LemmyForm>(
        &self,
        request: LemmyRequest<Form>,
    ) -> (outcome: Result<OutgoingRequest, LemmyError>)
        ensures
            request_made(
                self@.domain,
                self@.secure,
                Method::Post,
                "account/auth/resend_verification_email"@,
                request,
                self@.headers,
                outcome,
            ),
    {
        self.make_request(Method::Post, "account/auth/resend_verification_email", request)
    }

    /// Return the user associated with the JWT token passed.
    ///
    /// HTTP GET /account
    pub fn get_current_user(
        &self,
        request: LemmyRequest<()>,
    ) -> (outcome: Result<OutgoingRequest, LemmyError>)
        ensures
            request_made(
                self@.domain,
                self@.secure,
                Method::Get,
                "account"@,
                request,
                self@.headers,
                outcome,
            ),
    {
        self.make_request(Method::Get, "account", request)
    }

    /// Delete an image that you uploaded.
    ///
    /// HTTP DELETE /account/media
    pub fn delete_image<Form: LemmyForm>(
        &self,
        request: LemmyRequest<Form>,
    ) -> (outcome: Result<OutgoingRequest, LemmyError>)
        ensures
            request_made(
                self@.domain,
                self@.secure,
                Method::Delete,
                "account/media"@,
                request,
                self@.headers,
                outcome,
            ),
    {
        self.make_request(Method::Delete, "account/media", request)
    }

    /// Gets all media posted by the logged in user.
    ///
    /// HTTP GET /account/media/list
    pub fn list_media<Form: LemmyForm>(
        &self,
        request: LemmyRequest<Form>,
    ) -> (outcome: Result<OutgoingRequest, LemmyError>)
        ensures
            request_made(
                self@.domain,
                self@.secure,
                Method::Get,
                "account/media/list"@,
                request,
                self@.headers,
                outcome,
            ),
    {
        self.make_request(Method::Get, "account/media/list", request)
    }

    /// Deletes your account.
    ///
    /// HTTP POST /account/delete
    pub fn delete_account<Form: LemmyForm>(
        &self,
        request: LemmyRequest<Form>,
    ) -> (outcome: Result<OutgoingRequest, LemmyError>)
        ensures
            request_made(
                self@.domain,
                self@.secure,
                Method::Post,
                "account/delete"@,
                request,
                self@.headers,
                outcome,
            ),
    {
        self.make_request(Method::Post, "account/delete", request)
    }

    /// Marks all notifications (replies, mentions, private messages) as read.
    ///
    /// HTTP POST /account/mark_as_read/all
    pub fn mark_all_notifications_as_read(
        &self,
        request: LemmyRequest<()>,
    ) -> (outcome: Result<OutgoingRequest, LemmyError>)
        ensures
            request_made(
                self@.domain,
                self@.secure,
                Method::Post,
                "account/mark_as_read/all"@,
                request,
                self@.headers,
                outcome,
            ),
    {
        self.make_request(Method::Post, "account/mark_as_read/all", request)
    }

    /// Gets number of reports you can resolve.
    ///
    /// HTTP GET /account/report_count
    pub fn report_count<Form: LemmyForm>(
        &self,
        request: LemmyRequest<Form>,
    ) -> (outcome: Result<OutgoingRequest, LemmyError>)
        ensures
            request_made(
                self@.domain,
                self@.secure,
                Method::Get,
                "account/report_count"@,
                request,
                self@.headers,
                outcome,
            ),
    {
        self.make_request(Method::Get, "account/report_count", request)
    }

    /// Lists login tokens for your user's active sessions.
    ///
    /// HTTP GET /list_logins
    pub fn list_logins(
        &self,
        request: LemmyRequest<()>,
    ) -> (outcome: Result<OutgoingRequest, LemmyError>)
        ensures
            request_made(
                self@.domain,
                self@.secure,
                Method::Get,
                "list_logins"@,
                request,
                self@.headers,
                outcome,
            ),
    {
        self.make_request(Method::Get, "list_logins", request)
    }

    /// Returns an error message if your auth token is invalid.
    ///
    /// HTTP GET /account/validate_auth
    pub fn validate_auth(
        &self,
        request: LemmyRequest<()>,
    ) -> (outcome: Result<OutgoingRequest, LemmyError>)
        ensures
            request_made(
                self@.domain,
                self@.secure,
                Method::Get,
                "account/validate_auth"@,
                request,
                self@.headers,
                outcome,
            ),
    {
        self.make_request(Method::Get, "account/validate_auth", request)
    }

    /// Make donation dialog appear for users of your instance even if a user
    /// dismissed it before.
    ///
    /// HTTP POST /account/donation_dialog_shown
    pub fn donation_dialog_shown(
        &self,
        request: LemmyRequest<()>,
    ) -> (outcome: Result<OutgoingRequest, LemmyError>)
        ensures
            request_made(
                self@.domain,
                self@.secure,
                Method::Post,
                "account/donation_dialog_shown"@,
                request,
                self@.headers,
                outcome,
            ),
    {
        self.make_request(Method::Post, "account/donation_dialog_shown", request)
    }

    /// Blocks a person.
    ///
    /// HTTP POST /account/block/person
    pub fn block_person<Form: LemmyForm>(
        &self,
        request: LemmyRequest<Form>,
    ) -> (outcome: Result<OutgoingRequest, LemmyError>)
        ensures
            request_made(
                self@.domain,
                self@.secure,
                Method::Post,
                "account/block/person"@,
                request,
                self@.headers,
                outcome,
            ),
    {
        self.make_request(Method::Post, "account/block/person", request)
    }

    /// Blocks a community.
    ///
    /// HTTP POST /account/block/community
    pub fn block_community<Form: LemmyForm>(
        &self,
        request: LemmyRequest<Form>,
    ) -> (outcome: Result<OutgoingRequest, LemmyError>)
        ensures
            request_made(
                self@.domain,
                self@.secure,
                Method::Post,
                "account/block/community"@,
                request,
                self@.headers,
                outcome,
            ),
    {
        self.make_request(Method::Post, "account/block/community", request)
    }

    /// Prevents posts from communities from the blocked instance from appearing
    /// in your feed.
    ///
    /// HTTP POST /account/block/instance/communities
    pub fn user_block_instance_communities<Form: LemmyForm>(
        &self,
        request: LemmyRequest<Form>,
    ) -> (outcome: Result<OutgoingRequest, LemmyError>)
        ensures
            request_made(
                self@.domain,
                self@.secure,
                Method::Post,
                "account/block/instance/communities"@,
                request,
                self@.headers,
                outcome,
            ),
    {
        self.make_request(Method::Post, "account/block/instance/communities", request)
    }

    /// Prevents posts and comments by users from the blocked instance from
    /// being fetched.
    ///
    /// HTTP POST /account/block/instance/persons
    pub fn user_block_instance_users<Form: LemmyForm>(
        &self,
        request: LemmyRequest<Form>,
    ) -> (outcome: Result<OutgoingRequest, LemmyError>)
        ensures
            request_made(
                self@.domain,
                self@.secure,
                Method::Post,
                "account/block/instance/persons"@,
                request,
                self@.headers,
                outcome,
            ),
    {
        self.make_request(Method::Post, "account/block/instance/persons", request)
    }

    /// List posts and comments that were saved by the authenticated user.
    ///
    /// HTTP GET /account/saved
    pub fn list_saved<Form: LemmyForm>(
        &self,
        request: LemmyRequest<Form>,
    ) -> (outcome: Result<OutgoingRequest, LemmyError>)
        ensures
            request_made(
                self@.domain,
                self@.secure,
                Method::Get,
                "account/saved"@,
                request,
                self@.headers,
                outcome,
            ),
    {
        self.make_request(Method::Get, "account/saved", request)
    }

    /// List posts and comments that were read by the authenticated user in
    /// reverse chronological order.
    ///
    /// HTTP GET /account/read
    pub fn list_read<Form: LemmyForm>(
        &self,
        request: LemmyRequest<Form>,
    ) -> (outcome: Result<OutgoingRequest, LemmyError>)
        ensures
            request_made(
                self@.domain,
                self@.secure,
                Method::Get,
                "account/read"@,
                request,
                self@.headers,
                outcome,
            ),
    {
        self.make_request(Method::Get, "account/read", request)
    }

    /// List posts and comments that were hidden by the authenticated user,
    /// ordered by date hidden.
    ///
    /// HTTP GET /account/hidden
    pub fn list_hidden<Form: LemmyForm>(
        &self,
        request: LemmyRequest<Form>,
    ) -> (outcome: Result<OutgoingRequest, LemmyError>)
        ensures
            request_made(
                self@.domain,
                self@.secure,
                Method::Get,
                "account/hidden"@,
                request,
                self@.headers,
                outcome,
            ),
    {
        self.make_request(Method::Get, "account/hidden", request)
    }

    /// List posts and comments that were liked by the authenticated user.
    ///
    /// HTTP GET /account/liked
    pub fn list_liked<Form: LemmyForm>(
        &self,
        request: LemmyRequest<Form>,
    ) -> (outcome: Result<OutgoingRequest, LemmyError>)
        ensures
            request_made(
                self@.domain,
                self@.secure,
                Method::Get,
                "account/liked"@,
                request,
                self@.headers,
                outcome,
            ),
    {
        self.make_request(Method::Get, "account/liked", request)
    }

    /// Saves your account settings.
    ///
    /// HTTP PUT /account/settings/save
    pub fn save_user_settings<Form: LemmyForm>(
        &self,
        request: LemmyRequest<Form>,
    ) -> (outcome: Result<OutgoingRequest, LemmyError>)
        ensures
            request_made(
                self@.domain,
                self@.secure,
                Method::Put,
                "account/settings/save"@,
                request,
                self@.headers,
                outcome,
            ),
    {
        self.make_request(Method::Put, "account/settings/save", request)
    }

    /// Exports a backup of your user settings - including your saved content,
    /// followed communities, and blocks - as JSON.
    ///
    /// HTTP GET /account/settings/export
    pub fn export_settings(
        &self,
        request: LemmyRequest<()>,
    ) -> (outcome: Result<OutgoingRequest, LemmyError>)
        ensures
            request_made(
                self@.domain,
                self@.secure,
                Method::Get,
                "account/settings/export"@,
                request,
                self@.headers,
                outcome,
            ),
    {
        self.make_request(Method::Get, "account/settings/export", request)
    }

    /// Imports a backup of your user settings.
    ///
    /// HTTP POST /account/settings/import
    pub fn import_settings<Form: LemmyForm>(
        &self,
        request: LemmyRequest<Form>,
    ) -> (outcome: Result<OutgoingRequest, LemmyError>)
        ensures
            request_made(
                self@.domain,
                self@.secure,
                Method::Post,
                "account/settings/import"@,
                request,
                self@.headers,
                outcome,
            ),
    {
        self.make_request(Method::Post, "account/settings/import", request)
    }
}

} // verus!
