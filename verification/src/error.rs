use vstd::prelude::*;
use vstd::string::to_string_from_display_ensures;

verus! {

/// The errors that the remote interface reports by name.
#[verifier::external_type_specification]
#[verifier::external_body]
pub struct ExLemmyErrorType(lemmy_api_common::LemmyErrorType);

/// A failure of which only a description is known: what the transport
/// reported, or a response body that was not understood.
#[derive(Debug, Clone, PartialEq, Eq)]
pub struct Error(String);

impl View for Error {
    type V = Seq<char>;

    closed spec fn view(&self) -> Seq<char> {
        self.0@
    }
}

impl Error {
    /// An error with the given description.
    pub fn new(message: String) -> (error: Self)
        ensures
            error@ == message@,
    {
        Error(message)
    }

    /// Get the error message.
    pub fn message(&self) -> (message: &str)
        ensures
            message@ == self@,
    {
        self.0.as_str()
    }
}

/// What an error of a call is.
pub enum ErrorModel {
    Api(lemmy_api_common::LemmyErrorType),
    Unknown(Seq<char>),
}

/// The error of a call: either one that the remote reported by name, or a
/// failure of which only a description is known.
#[derive(Debug, PartialEq, Eq)]
pub enum LemmyError {
    /// The remote answered with one of its own errors.
    Api(lemmy_api_common::LemmyErrorType),
    /// The call failed on the way, or the answer was not understood.
    Unknown(Error),
}

impl View for LemmyError {
    type V = ErrorModel;

    open spec fn view(&self) -> ErrorModel {
        match self {
            LemmyError::Api(reported) => ErrorModel::Api(*reported),
            LemmyError::Unknown(error) => ErrorModel::Unknown(error@),
        }
    }
}

/// A return type for calls to the remote interface.
pub type LemmyResult<R> = Result<R, LemmyError>;

/// Whether `text` is what `cause` displays as.
pub open spec fn displays_as<E: core::fmt::Display>(cause: &E, text: Seq<char>) -> bool {
    exists|shown: String|
        #![auto]
        shown@ == text && to_string_from_display_ensures::<E>(cause, shown)
}

/// Makes an error of which only the description is known: the description
/// is what the cause displays as.
pub fn map_other_error<E: core::fmt::Display>(cause: E) -> (error: LemmyError)
    ensures
        error matches LemmyError::Unknown(unknown) && displays_as(&cause, unknown@),
{
    LemmyError::Unknown(Error::new(cause.to_string()))
}

} // verus!
