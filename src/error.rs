//! Errors that can occur while managing a file.
use vstd::prelude::*;
use vstd::std_specs::convert::IntoSpec;

verus! {

/// The category of a filesystem failure.
#[derive(Clone, Copy, Debug, PartialEq, Eq, Structural)]
pub enum IoErrorKind {
    /// The file does not exist.
    NotFound,
    /// The file may not be opened as asked.
    PermissionDenied,
    /// A non-blocking lock attempt found the file locked elsewhere.
    LockContended,
    /// Data read was not what the reader expected.
    InvalidData,
    /// Any other failure of the filesystem.
    Other,
}

/// A filesystem failure, as reported by whoever performed the operation.
#[derive(Clone, Debug)]
pub struct IoError {
    pub kind: IoErrorKind,
    pub message: String,
}

impl IoError {
    /// Creates an error of the given kind.
    pub fn new(kind: IoErrorKind, message: String) -> (r: IoError)
        ensures
            r.kind == kind,
            r.message@ == message@,
    {
        IoError { kind, message }
    }

    /// The error that a non-blocking lock attempt reports on contention.
    pub fn lock_contended() -> (r: IoError)
        ensures
            r.kind == IoErrorKind::LockContended,
    {
        IoError { kind: IoErrorKind::LockContended, message: String::new() }
    }

    /// Whether this error says that the file does not exist.
    pub fn is_not_found(&self) -> (r: bool)
        ensures
            r == (self.kind == IoErrorKind::NotFound),
    {
        self.kind == IoErrorKind::NotFound
    }
}

/// An error raised by a file format or by the filesystem.
#[derive(Debug)]
pub enum Error<FE> {
    /// The format failed to encode or decode.
    Format(FE),
    /// The filesystem failed.
    Io(IoError),
}

/// An error raised by a file format, by the filesystem, or by an operation of
/// the caller.
#[derive(Debug)]
pub enum UserError<FE, U> {
    /// The format failed to encode or decode.
    Format(FE),
    /// The filesystem failed.
    Io(IoError),
    /// The caller's own operation failed.
    User(U),
}

impl<FE> Error<FE> {
    /// Widens this error into one that may also carry a caller's error.
    pub fn into_user<U>(self) -> (r: UserError<FE, U>)
        ensures
            match (self, r) {
                (Error::Format(a), UserError::Format(b)) => a == b,
                (Error::Io(a), UserError::Io(b)) => a == b,
                _ => false,
            },
    {
        match self {
            Error::Format(e) => UserError::Format(e),
            Error::Io(e) => UserError::Io(e),
        }
    }
}

impl<FE, U> UserError<FE, U> {
    /// Maps this error into another error: format and filesystem errors go
    /// through `Into`, the caller's error through `f`.
    pub fn map_into<E, F>(self, f: F) -> (r: E) where Error<FE>: Into<E>, F: FnOnce(U) -> E
        requires
            self is User ==> f.requires((self->User_0,)),
        ensures
            match self {
                UserError::Format(e) => <Error<FE> as IntoSpec<E>>::obeys_into_spec()
                    ==> r == Error::<FE>::Format(e).into_spec(),
                UserError::Io(e) => <Error<FE> as IntoSpec<E>>::obeys_into_spec()
                    ==> r == Error::<FE>::Io(e).into_spec(),
                UserError::User(u) => f.ensures((u,), r),
            },
    {
        match self {
            UserError::Format(e) => Error::Format(e).into(),
            UserError::Io(e) => Error::Io(e).into(),
            UserError::User(u) => f(u),
        }
    }
}

impl<FE, U> From<Error<FE>> for UserError<FE, U> {
    fn from(e: Error<FE>) -> (r: UserError<FE, U>) {
        match e {
            Error::Format(x) => UserError::Format(x),
            Error::Io(x) => UserError::Io(x),
        }
    }
}

impl<FE, U> vstd::std_specs::convert::FromSpecImpl<Error<FE>> for UserError<FE, U> {
    open spec fn obeys_from_spec() -> bool {
        true
    }

    open spec fn from_spec(e: Error<FE>) -> UserError<FE, U> {
        match e {
            Error::Format(x) => UserError::Format(x),
            Error::Io(x) => UserError::Io(x),
        }
    }
}

impl<FE> From<IoError> for Error<FE> {
    fn from(e: IoError) -> (r: Error<FE>) {
        Error::Io(e)
    }
}

impl<FE> vstd::std_specs::convert::FromSpecImpl<IoError> for Error<FE> {
    open spec fn obeys_from_spec() -> bool {
        true
    }

    open spec fn from_spec(e: IoError) -> Error<FE> {
        Error::Io(e)
    }
}

impl<FE, U> From<IoError> for UserError<FE, U> {
    fn from(e: IoError) -> (r: UserError<FE, U>) {
        UserError::Io(e)
    }
}

impl<FE, U> vstd::std_specs::convert::FromSpecImpl<IoError> for UserError<FE, U> {
    open spec fn obeys_from_spec() -> bool {
        true
    }

    open spec fn from_spec(e: IoError) -> UserError<FE, U> {
        UserError::Io(e)
    }
}

} // verus!
