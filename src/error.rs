//! Errors of building a route.
use vstd::prelude::*;
use vstd::string::StringExecFns;

verus! {

/// What kind of failure occurred.
#[derive(Debug, Clone, Copy, PartialEq, Eq, Structural)]
pub enum ErrorKind {
    /// The method name is not a valid HTTP method token.
    UnsupportedMethod,
    /// The status code lies outside 100 to 999.
    InvalidStatusCode,
}

impl ErrorKind {
    /// The words that describe this kind.
    pub open spec fn description_spec(self) -> Seq<char> {
        match self {
            ErrorKind::UnsupportedMethod => "Unsupported Method"@,
            ErrorKind::InvalidStatusCode => "Invalid Status Code"@,
        }
    }

    /// The words that describe this kind.
    pub fn description(&self) -> (r: &'static str)
        ensures
            r@ == self.description_spec(),
    {
        match self {
            ErrorKind::UnsupportedMethod => "Unsupported Method",
            ErrorKind::InvalidStatusCode => "Invalid Status Code",
        }
    }

    /// The description, owned.
    pub fn to_string(&self) -> (r: String)
        ensures
            r@ == self.description_spec(),
    {
        String::from_str(self.description())
    }
}

/// An error of this library, with its kind.
#[derive(Debug, Clone, Copy, PartialEq, Eq, Structural)]
pub struct Error {
    pub error_type: ErrorKind,
}

impl Error {
    /// An error of the given kind.
    pub fn new(error_type: ErrorKind) -> (r: Self)
        ensures
            r.error_type == error_type,
    {
        Error { error_type }
    }

    /// The kind of this error.
    pub fn kind(&self) -> (r: ErrorKind)
        ensures
            r == self.error_type,
    {
        self.error_type
    }

    /// The description of this error's kind.
    pub fn to_string(&self) -> (r: String)
        ensures
            r@ == self.error_type.description_spec(),
    {
        self.error_type.to_string()
    }
}

} // verus!
