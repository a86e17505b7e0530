use vstd::prelude::*;

verus! {

/// The HTTP status code with which the cluster API reports a missing object.
pub const NOT_FOUND: u16 = 404;

/// The part of a failed cluster API call that the control loop inspects.
///
/// The surrounding program maps the client's error values onto this type
/// before handing them to the library: a server answer with an HTTP status
/// code keeps the code, anything else (connection loss, malformed payload)
/// becomes `Transport`.
#[derive(Clone, Copy, Debug, PartialEq, Eq, Structural)]
pub enum ApiFailure {
    /// The server answered the request with this HTTP status code.
    Status(u16),
    /// The request failed before the server produced a status.
    Transport,
}

impl ApiFailure {
    /// Whether this failure means the requested object does not exist.
    pub open spec fn spec_is_not_found(&self) -> bool {
        *self == ApiFailure::Status(NOT_FOUND)
    }

    /// Whether this failure means the requested object does not exist.
    #[verifier::when_used_as_spec(spec_is_not_found)]
    pub fn is_not_found(&self) -> (r: bool)
        ensures
            r == self.spec_is_not_found(),
    {
        match *self {
            ApiFailure::Status(code) => code == NOT_FOUND,
            ApiFailure::Transport => false,
        }
    }
}

/// A failed reconcile attempt, as reported to the dispatcher.
#[derive(Clone, Debug, PartialEq, Eq)]
pub enum Error {
    /// The cluster API reported an error.
    KubeError(ApiFailure),
    /// The desired resource itself is invalid.
    UserInputError(String),
}

/// The mathematical value of an [`Error`].
#[verifier::ext_equal]
pub enum ErrorView {
    KubeError(ApiFailure),
    UserInputError(Seq<char>),
}

impl View for Error {
    type V = ErrorView;

    open spec fn view(&self) -> ErrorView {
        match *self {
            Error::KubeError(f) => ErrorView::KubeError(f),
            Error::UserInputError(ref s) => ErrorView::UserInputError(s@),
        }
    }
}

} // verus!
