use vstd::prelude::*;

use crate::error::LemmyError;
use crate::form::{LemmyForm, LemmyRequest};
use crate::lemmy_client::LemmyClient;
use crate::lemmy_client_internal::request_made;
use crate::method::Method;
use crate::request::OutgoingRequest;

verus! {

/// The endpoints for reports. Each method plans the request of its call,
/// with the verb and the path of the endpoint; the call is made by whoever
/// sends the request.
impl LemmyClient {
    /// List all reports.
    ///
    /// HTTP GET /report/list
    pub fn list_reports<Form: LemmyForm>(
        &self,
        request: LemmyRequest<Form>,
    ) -> (outcome: Result<OutgoingRequest, LemmyError>)
        ensures
            request_made(
                self@.domain,
                self@.secure,
                Method::Get,
                "report/list"@,
                request,
                self@.headers,
                outcome,
            ),
    {
        self.make_request(Method::Get, "report/list", request)
    }

    /// Report a community.
    ///
    /// HTTP POST /community/report
    pub fn report_community<Form: LemmyForm>(
        &self,
        request: LemmyRequest<Form>,
    ) -> (outcome: Result<OutgoingRequest, LemmyError>)
        ensures
            request_made(
                self@.domain,
                self@.secure,
                Method::Post,
                "community/report"@,
                request,
                self@.headers,
                outcome,
            ),
    {
        self.make_request(Method::Post, "community/report", request)
    }

    /// Resolves a community report.
    ///
    /// HTTP PUT /community/report/resolve
    pub fn resolve_community_report<Form: LemmyForm>(
        &self,
        request: LemmyRequest<Form>,
    ) -> (outcome: Result<OutgoingRequest, LemmyError>)
        ensures
            request_made(
                self@.domain,
                self@.secure,
                Method::Put,
                "community/report/resolve"@,
                request,
                self@.headers,
                outcome,
            ),
    {
        self.make_request(Method::Put, "community/report/resolve", request)
    }
}

} // verus!
