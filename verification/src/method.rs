use vstd::prelude::*;

verus! {

/// The HTTP verbs that the remote interface uses.
#[derive(Debug, Clone, Copy, PartialEq, Eq, Structural)]
pub enum Method {
    Get,
    Post,
    Put,
    Delete,
}

/// How a request carries what it sends.
#[derive(Debug, Clone, Copy, PartialEq, Eq, Structural)]
pub enum BodyEncoding {
    /// As a query string behind the route.
    Query,
    /// As a JSON document in the request body.
    Json,
}

impl Method {
    /// The verb as it is written on the wire.
    pub open spec fn name(self) -> Seq<char> {
        match self {
            Method::Get => "GET"@,
            Method::Post => "POST"@,
            Method::Put => "PUT"@,
            Method::Delete => "DELETE"@,
        }
    }

    /// `GET` and `DELETE` send a query string, `POST` and `PUT` a JSON
    /// document.
    pub open spec fn encoding_of(self) -> BodyEncoding {
        match self {
            Method::Get | Method::Delete => BodyEncoding::Query,
            Method::Post | Method::Put => BodyEncoding::Json,
        }
    }

    /// The verb as it is written on the wire.
    pub fn as_str(&self) -> (name: &'static str)
        ensures
            name@ == self.name(),
    {
        match self {
            Method::Get => "GET",
            Method::Post => "POST",
            Method::Put => "PUT",
            Method::Delete => "DELETE",
        }
    }

    /// How a request with this verb carries what it sends.
    pub fn encoding(&self) -> (encoding: BodyEncoding)
        ensures
            encoding == self.encoding_of(),
    {
        match self {
            Method::Get | Method::Delete => BodyEncoding::Query,
            Method::Post | Method::Put => BodyEncoding::Json,
        }
    }
}

} // verus!
