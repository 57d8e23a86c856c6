//! The ways an operation on a DDS file can fail.
use vstd::prelude::*;

verus! {

/// What went wrong while decoding a file or computing its layout.
#[derive(Debug)]
pub enum Error {
    /// A failure that fits no other kind, with its description.
    General(String),
    /// The file does not start with the bytes "DDS ".
    BadMagicNumber,
    /// A structure's size tag or an enumerated field holds a value outside its set;
    /// the string names the field.
    InvalidField(String),
    /// The input ends before a fixed-size structure is complete.
    ShortFile,
    /// The format is unknown, or lacks what a layout computation needs.
    UnsupportedFormat,
    /// A requested array layer, or the bytes it covers, lies outside the texture.
    OutOfBounds,
}

impl From<String> for Error {
    fn from(s: String) -> (r: Error)
        ensures
            r == Error::General(s),
    {
        Error::General(s)
    }
}

impl vstd::std_specs::convert::FromSpecImpl<String> for Error {
    open spec fn obeys_from_spec() -> bool {
        true
    }

    open spec fn from_spec(v: String) -> Error {
        Error::General(v)
    }
}

impl From<&str> for Error {
    fn from(s: &str) -> (r: Error)
        ensures
            r matches Error::General(m) && m@ == s@,
    {
        Error::General(s.to_owned())
    }
}

/// No spec expression builds a `String` from a `&str`, so this conversion claims no
/// `from_spec` result (`obeys_from_spec` is false, and `from_spec` is never consulted); what
/// it returns is stated by the `ensures` of `from` above: a `General` error whose message
/// has the characters of `s`.
impl vstd::std_specs::convert::FromSpecImpl<&str> for Error {
    open spec fn obeys_from_spec() -> bool {
        false
    }

    open spec fn from_spec(v: &str) -> Error {
        Error::ShortFile
    }
}

/// The kind of an error, without the text that some kinds carry.
#[derive(Debug, Clone, Copy, PartialEq, Eq, Structural)]
pub enum ErrorKind {
    General,
    BadMagicNumber,
    InvalidField,
    ShortFile,
    UnsupportedFormat,
    OutOfBounds,
}

impl Error {
    pub open spec fn spec_kind(&self) -> ErrorKind {
        match self {
            Error::General(_) => ErrorKind::General,
            Error::BadMagicNumber => ErrorKind::BadMagicNumber,
            Error::InvalidField(_) => ErrorKind::InvalidField,
            Error::ShortFile => ErrorKind::ShortFile,
            Error::UnsupportedFormat => ErrorKind::UnsupportedFormat,
            Error::OutOfBounds => ErrorKind::OutOfBounds,
        }
    }

    /// The kind of this error.
    pub fn kind(&self) -> (r: ErrorKind)
        ensures
            r == self.spec_kind(),
    {
        match self {
            Error::General(_) => ErrorKind::General,
            Error::BadMagicNumber => ErrorKind::BadMagicNumber,
            Error::InvalidField(_) => ErrorKind::InvalidField,
            Error::ShortFile => ErrorKind::ShortFile,
            Error::UnsupportedFormat => ErrorKind::UnsupportedFormat,
            Error::OutOfBounds => ErrorKind::OutOfBounds,
        }
    }
}

/// A failed result of the given kind.
pub open spec fn fails_with<T>(r: Result<T, Error>, k: ErrorKind) -> bool {
    r is Err && r->Err_0.spec_kind() == k
}

} // verus!
