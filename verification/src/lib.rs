//! A client for the HTTP interface of Lemmy that does no I/O of its own:
//! every call is planned here, down to the last header, and whoever owns the
//! connection sends the planned request and hands the answer back to be read.

pub mod client_options;
pub mod endpoints;
pub mod error;
pub mod form;
pub mod header_name;
pub mod header_set;
pub mod lemmy_client;
pub mod lemmy_client_internal;
pub mod method;
pub mod request;
pub mod response;
pub mod route;

pub use client_options::ClientOptions;
pub use error::{Error, LemmyError, LemmyResult};
pub use form::{LemmyForm, LemmyRequest};
pub use header_set::HeaderSet;
pub use lemmy_client::LemmyClient;
pub use method::Method;
pub use request::{OutgoingRequest, RequestBody};
pub use response::{deserialize_response, LemmyResponse};
