//! The failures the attribute operations report.

use vstd::prelude::*;

verus! {

/// The class of a failure.
#[derive(Clone, Copy, Debug, PartialEq, Eq, Structural)]
pub enum ErrorKind {
    /// The file that should carry the attribute does not exist.
    NotFound,
    /// The name addresses an entry that belongs to the operating system.
    PermissionDenied,
    /// The platform stores attributes in neither of the two supported ways.
    Unsupported,
    /// Any other failure of a native operation.
    Other,
}

/// A failure: its class and, where the operating system gave one, its code.
#[derive(Clone, Copy, Debug, PartialEq, Eq)]
pub struct Error {
    pub kind: ErrorKind,
    pub code: Option<i32>,
}

impl Error {
    /// The failure reported when the file itself is missing.
    pub open spec fn spec_not_found() -> Error {
        Error { kind: ErrorKind::NotFound, code: None }
    }

    /// The failure reported for a name that addresses a system stream.
    pub open spec fn spec_permission_denied() -> Error {
        Error { kind: ErrorKind::PermissionDenied, code: None }
    }

    /// The failure reported where no native model is available.
    pub open spec fn spec_unsupported() -> Error {
        Error { kind: ErrorKind::Unsupported, code: None }
    }

    /// A native failure known only by its code.
    pub open spec fn spec_from_code(code: i32) -> Error {
        Error { kind: ErrorKind::Other, code: Some(code) }
    }

    #[verifier::when_used_as_spec(spec_not_found)]
    pub fn not_found() -> (e: Error)
        ensures
            e == Error::spec_not_found(),
    {
        Error { kind: ErrorKind::NotFound, code: None }
    }

    #[verifier::when_used_as_spec(spec_permission_denied)]
    pub fn permission_denied() -> (e: Error)
        ensures
            e == Error::spec_permission_denied(),
    {
        Error { kind: ErrorKind::PermissionDenied, code: None }
    }

    #[verifier::when_used_as_spec(spec_unsupported)]
    pub fn unsupported() -> (e: Error)
        ensures
            e == Error::spec_unsupported(),
    {
        Error { kind: ErrorKind::Unsupported, code: None }
    }

    #[verifier::when_used_as_spec(spec_from_code)]
    pub fn from_code(code: i32) -> (e: Error)
        ensures
            e == Error::spec_from_code(code),
    {
        Error { kind: ErrorKind::Other, code: Some(code) }
    }

    /// Whether this failure says that the file is missing.
    pub fn is_not_found(&self) -> (b: bool)
        ensures
            b == (self.kind == ErrorKind::NotFound),
    {
        self.kind == ErrorKind::NotFound
    }

    /// The text that goes with a failure the library raises itself.
    pub fn message(&self) -> (text: &'static str)
        ensures
            text@ == (match self.kind {
                ErrorKind::NotFound => "file does not exist"@,
                ErrorKind::PermissionDenied => "system stream"@,
                ErrorKind::Unsupported => "unsupported OS"@,
                ErrorKind::Other => "native failure"@,
            }),
    {
        match self.kind {
            ErrorKind::NotFound => "file does not exist",
            ErrorKind::PermissionDenied => "system stream",
            ErrorKind::Unsupported => "unsupported OS",
            ErrorKind::Other => "native failure",
        }
    }
}

} // verus!
