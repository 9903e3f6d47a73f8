//! The one error of this library: text that names no comparison operator.
use vstd::prelude::*;

verus! {

/// The diagnostic text of [`Error`].
pub open spec fn error_message() -> Seq<char> {
    "unable to parse comparison operator"@
}

/// Input that is not a recognised comparison operator.
///
/// A marker without payload: there is exactly one way for parsing to fail.
#[derive(Debug, Clone, Copy, PartialEq, Eq, Structural)]
pub struct Error;

impl Error {
    /// The fixed diagnostic message.
    #[must_use]
    pub fn as_str(self) -> (r: &'static str)
        ensures
            r@ == error_message(),
    {
        proof {
            reveal_strlit("unable to parse comparison operator");
        }
        "unable to parse comparison operator"
    }
}

impl AsRef<str> for Error {
    /// The diagnostic message.
    fn as_ref(&self) -> &str {
        self.as_str()
    }
}

impl core::borrow::Borrow<str> for Error {
    /// The diagnostic message.
    fn borrow(&self) -> &str {
        self.as_str()
    }
}

} // verus!
