use vstd::prelude::*;
use vstd::std_specs::convert::FromSpecImpl;

use crate::method::{BodyEncoding, Method};

verus! {

/// What an encoder gave: the encoded text, or the description of why the
/// value cannot be encoded.
pub open spec fn encoded_text(encoded: Result<String, String>) -> Result<Seq<char>, Seq<char>> {
    match encoded {
        Ok(text) => Ok(text@),
        Err(message) => Err(message@),
    }
}

/// The types that a call can send: those that can be written as a query
/// string and as a JSON document. Each method gives the encoded text, or
/// the description of why the value cannot be encoded.
pub trait LemmyForm {
    /// Writes the value as a query string, without the leading `?`.
    fn to_query(&self) -> Result<String, String>;

    /// Writes the value as a JSON document.
    fn to_json(&self) -> Result<String, String>;
}

/// Whether `encoded` is what `body` can give when it is written as the verb
/// asks: as a query string for `GET` and `DELETE`, as a JSON document for
/// `POST` and `PUT`.
pub open spec fn form_encodes_as<Form: LemmyForm>(
    method: Method,
    body: Form,
    encoded: Result<String, String>,
) -> bool {
    match method.encoding_of() {
        BodyEncoding::Query => call_ensures(Form::to_query, (&body,), encoded),
        BodyEncoding::Json => call_ensures(Form::to_json, (&body,), encoded),
    }
}

/// The unit value as a query string: the empty one.
pub open spec fn unit_query() -> Result<Seq<char>, Seq<char>> {
    Ok(Seq::empty())
}

/// The unit value as a JSON document: `null`.
pub open spec fn unit_document() -> Result<Seq<char>, Seq<char>> {
    Ok("null"@)
}

/// `serde_urlencoded::to_string` at the unit type: the unit value has no
/// fields, so the encoder writes nothing and the query string is empty.
#[verifier::external_body]
fn unit_as_query() -> (encoded: Result<String, String>)
    ensures
        encoded_text(encoded) == unit_query(),
{
    match serde_urlencoded::to_string(()) {
        Ok(text) => Ok(text),
        Err(error) => Err(error.to_string()),
    }
}

/// `serde_json::to_string` at the unit type: the unit value is written as
/// the JSON document `null`.
#[verifier::external_body]
fn unit_as_json() -> (encoded: Result<String, String>)
    ensures
        encoded_text(encoded) == unit_document(),
{
    match serde_json::to_string(&()) {
        Ok(text) => Ok(text),
        Err(error) => Err(error.to_string()),
    }
}

/// The body of a request that has nothing to say: an empty query string,
/// and the JSON document `null`.
impl LemmyForm for () {
    fn to_query(&self) -> (encoded: Result<String, String>)
        ensures
            encoded_text(encoded) == unit_query(),
    {
        unit_as_query()
    }

    fn to_json(&self) -> (encoded: Result<String, String>)
        ensures
            encoded_text(encoded) == unit_document(),
    {
        unit_as_json()
    }
}

/// A request to send to lemmy: what to send, and how to authenticate it. If
/// you don't want to set the JWT for each request, you can set the
/// authorization header of the client instead.
#[derive(Debug, Clone)]
pub struct LemmyRequest<'jwt, Body> {
    /// The body to send with the request. Uses the unit type for when a body
    /// is not required.
    pub body: Body,
    /// The JWT that is used when authorization is required.
    pub jwt: Option<&'jwt str>,
}

impl<'jwt> LemmyRequest<'jwt, ()> {
    /// Returns a request with no body or JWT.
    pub fn empty() -> (request: Self)
        ensures
            request.body == (),
            request.jwt is None,
    {
        Self { body: (), jwt: None }
    }

    /// Returns a request with no body and JWT if [`Some`].
    pub fn from_jwt(jwt: Option<&'jwt str>) -> (request: Self)
        ensures
            request.body == (),
            request.jwt == jwt,
    {
        Self { body: (), jwt }
    }
}

impl<'jwt, Body> LemmyRequest<'jwt, Body> {
    /// The credential of the request as a sequence of characters.
    pub open spec fn credential(&self) -> Option<Seq<char>> {
        match self.jwt {
            Some(token) => Some(token@),
            None => None,
        }
    }
}

impl<'jwt, Body> From<Body> for LemmyRequest<'jwt, Body> {
    fn from(body: Body) -> (request: Self) {
        Self { body, jwt: None }
    }
}

impl<'jwt, Body> FromSpecImpl<Body> for LemmyRequest<'jwt, Body> {
    open spec fn obeys_from_spec() -> bool {
        true
    }

    open spec fn from_spec(body: Body) -> Self {
        LemmyRequest { body, jwt: None }
    }
}

} // verus!
