//! Error taxonomy: module-reported response codes and local precondition
//! failures raised before any module call is attempted.

use vstd::prelude::*;

verus! {

/// A failure detected locally, before or after a module call, rather than
/// reported by the module itself.
#[derive(Clone, Copy, PartialEq, Eq, Structural, Debug)]
pub enum WrapperErrorKind {
    /// A protocol-mandated authorization session slot was empty.
    MissingAuthSession,
    /// The module answered with a response of an unexpected shape.
    WrongValueFromTpm,
    /// Arguments contradict the registry's bookkeeping, such as registering
    /// a handle twice under two different dispositions.
    InconsistentParams,
}

/// An error surfaced by this layer: either a non-zero response code from a
/// module call, preserved for diagnostics, or a local precondition failure.
#[derive(Clone, Copy, PartialEq, Eq, Structural, Debug)]
pub enum Error {
    /// A non-zero status code reported by the module, kept verbatim.
    Tss2Error(u32),
    /// A failure raised by this layer itself.
    WrapperError(WrapperErrorKind),
}

/// Translates a native return code: zero means success, anything else is
/// surfaced as a structured error carrying the original code.
pub fn ensure_success(response_code: u32) -> (r: Result<(), Error>)
    ensures
        response_code == 0 ==> r == Result::<(), Error>::Ok(()),
        response_code != 0 ==> r == Result::<(), Error>::Err(Error::Tss2Error(response_code)),
{
    if response_code == 0 {
        Ok(())
    } else {
        Err(Error::Tss2Error(response_code))
    }
}

} // verus!
