use vstd::prelude::*;

verus! {

/// Why a request guard (an extractor) failed. The guards the framework ships
/// cannot fail.
#[derive(Debug, PartialEq, Eq, Structural)]
pub enum GuardError {
    Infallible,
}

/// An extension that could not be initialised, with the reason it gave.
#[derive(Debug)]
pub struct ExtensionError {
    reason: String,
}

impl ExtensionError {
    /// The reason, as text.
    pub closed spec fn reason_view(&self) -> Seq<char> {
        self.reason@
    }

    /// An error with the given reason.
    pub fn new(reason: String) -> (r: ExtensionError)
        ensures
            r.reason_view() == reason@,
    {
        ExtensionError { reason }
    }

    /// The reason this extension failed.
    pub fn reason(&self) -> (r: &str)
        ensures
            r@ == self.reason_view(),
    {
        self.reason.as_str()
    }
}

} // verus!
