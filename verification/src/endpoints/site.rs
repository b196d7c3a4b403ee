use vstd::prelude::*;

use crate::error::LemmyError;
use crate::form::{LemmyForm, LemmyRequest};
use crate::lemmy_client::LemmyClient;
use crate::lemmy_client_internal::{file_request_made, request_made};
use crate::method::Method;
use crate::request::OutgoingRequest;

verus! {

/// The endpoints for the site. Each method plans the request of its call,
/// with the verb and the path of the endpoint; the call is made by whoever
/// sends the request.
impl LemmyClient {
    /// Gets the site.
    ///
    /// HTTP GET /site
    pub fn get_site(
        &self,
        request: LemmyRequest<()>,
    ) -> (outcome: Result<OutgoingRequest, LemmyError>)
        ensures
            request_made(
                self@.domain,
                self@.secure,
                Method::Get,
                "site"@,
                request,
                self@.headers,
                outcome,
            ),
    {
        self.make_request(Method::Get, "site", request)
    }

    /// Creates site during initial setup.
    ///
    /// HTTP POST /site
    pub fn create_site<Form: LemmyForm>(
        &self,
        request: LemmyRequest<Form>,
    ) -> (outcome: Result<OutgoingRequest, LemmyError>)
        ensures
            request_made(
                self@.domain,
                self@.secure,
                Method::Post,
                "site"@,
                request,
                self@.headers,
                outcome,
            ),
    {
        self.make_request(Method::Post, "site", request)
    }

    /// Edit settings for the site you administer.
    ///
    /// HTTP PUT /site
    pub fn edit_site<Form: LemmyForm>(
        &self,
        request: LemmyRequest<Form>,
    ) -> (outcome: Result<OutgoingRequest, LemmyError>)
        ensures
            request_made(
                self@.domain,
                self@.secure,
                Method::Put,
                "site"@,
                request,
                self@.headers,
                outcome,
            ),
    {
        self.make_request(Method::Put, "site", request)
    }

    /// Upload an icon for your site. This is shown as the site favicon, in site
    /// header, and is used as metadata for external instance listings like
    /// [join-lemmy.org](https://join-lemmy.org/instances).
    ///
    /// HTTP POST /site/icon
    pub fn upload_site_icon(
        &self,
        request: LemmyRequest<&[u8]>,
    ) -> (outcome: Result<OutgoingRequest, LemmyError>)
        ensures
            file_request_made(
                self@.domain,
                self@.secure,
                "site/icon"@,
                (),
                request,
                self@.headers,
                outcome,
            ),
    {
        self.make_file_request("site/icon", (), request)
    }

    /// Delete your site's icon.
    ///
    /// HTTP DELETE /site/icon
    pub fn delete_site_icon<Form: LemmyForm>(
        &self,
        request: LemmyRequest<Form>,
    ) -> (outcome: Result<OutgoingRequest, LemmyError>)
        ensures
            request_made(
                self@.domain,
                self@.secure,
                Method::Delete,
                "site/icon"@,
                request,
                self@.headers,
                outcome,
            ),
    {
        self.make_request(Method::Delete, "site/icon", request)
    }

    /// Upload a banner for your site. This is shown in the site sidebar and is
    /// used as metadata for external instance listings like [join-
    /// lemmy.org](https://join-lemmy.org/instances).
    ///
    /// HTTP POST /site/banner
    pub fn upload_site_banner(
        &self,
        request: LemmyRequest<&[u8]>,
    ) -> (outcome: Result<OutgoingRequest, LemmyError>)
        ensures
            file_request_made(
                self@.domain,
                self@.secure,
                "site/banner"@,
                (),
                request,
                self@.headers,
                outcome,
            ),
    {
        self.make_file_request("site/banner", (), request)
    }

    /// Delete your site's icon.
    ///
    /// HTTP DELETE /site/banner
    pub fn delete_site_banner<Form: LemmyForm>(
        &self,
        request: LemmyRequest<Form>,
    ) -> (outcome: Result<OutgoingRequest, LemmyError>)
        ensures
            request_made(
                self@.domain,
                self@.secure,
                Method::Delete,
                "site/banner"@,
                request,
                self@.headers,
                outcome,
            ),
    {
        self.make_request(Method::Delete, "site/banner", request)
    }

    /// Gets the modlog.
    ///
    /// HTTP GET /modlog
    pub fn get_modlog<Form: LemmyForm>(
        &self,
        request: LemmyRequest<Form>,
    ) -> (outcome: Result<OutgoingRequest, LemmyError>)
        ensures
            request_made(
                self@.domain,
                self@.secure,
                Method::Get,
                "modlog"@,
                request,
                self@.headers,
                outcome,
            ),
    {
        self.make_request(Method::Get, "modlog", request)
    }

    /// Searches for content.
    ///
    /// HTTP GET /search
    pub fn search<Form: LemmyForm>(
        &self,
        request: LemmyRequest<Form>,
    ) -> (outcome: Result<OutgoingRequest, LemmyError>)
        ensures
            request_made(
                self@.domain,
                self@.secure,
                Method::Get,
                "search"@,
                request,
                self@.headers,
                outcome,
            ),
    {
        self.make_request(Method::Get, "search", request)
    }

    /// Fetches an object from a non-local instance.
    ///
    /// HTTP GET /resolve_object
    pub fn resolve_object<Form: LemmyForm>(
        &self,
        request: LemmyRequest<Form>,
    ) -> (outcome: Result<OutgoingRequest, LemmyError>)
        ensures
            request_made(
                self@.domain,
                self@.secure,
                Method::Get,
                "resolve_object"@,
                request,
                self@.headers,
                outcome,
            ),
    {
        self.make_request(Method::Get, "resolve_object", request)
    }

    /// Gets the instances that are federated with your instance.
    ///
    /// HTTP GET /federated_instances
    pub fn get_federated_instances(
        &self,
        request: LemmyRequest<()>,
    ) -> (outcome: Result<OutgoingRequest, LemmyError>)
        ensures
            request_made(
                self@.domain,
                self@.secure,
                Method::Get,
                "federated_instances"@,
                request,
                self@.headers,
                outcome,
            ),
    {
        self.make_request(Method::Get, "federated_instances", request)
    }
}

} // verus!
