use vstd::prelude::*;
use vstd::std_specs::convert::FromSpecImpl;

verus! {

/// Options for creating a [`LemmyClient`](crate::LemmyClient).
#[derive(Debug, Clone, PartialEq, Eq)]
pub struct ClientOptions {
    /// Domain of the instance the client will send requests to, without a
    /// scheme: `lemmy.ml`, not `https://lemmy.ml`.
    pub domain: String,
    /// If true, use HTTPS. If false, use HTTP.
    pub secure: bool,
}

/// The options as the client keeps them.
#[derive(Debug, Clone, PartialEq, Eq)]
pub struct ClientOptionsInternal {
    pub domain: String,
    pub secure: bool,
}

impl From<ClientOptions> for ClientOptionsInternal {
    fn from(options: ClientOptions) -> (internal: Self) {
        Self { secure: options.secure, domain: options.domain }
    }
}

impl FromSpecImpl<ClientOptions> for ClientOptionsInternal {
    open spec fn obeys_from_spec() -> bool {
        true
    }

    open spec fn from_spec(options: ClientOptions) -> Self {
        ClientOptionsInternal { secure: options.secure, domain: options.domain }
    }
}

} // verus!
