//! Classified failures of the descriptor-count discovery.

use vstd::prelude::*;

verus! {

/// A failure of socket activation, as surfaced to the caller.
///
/// The taxonomy distinguishes "the system library could not be opened at
/// all" — an expected condition on hosts without the activation supervisor —
/// from other dynamic-loading errors, and both from an activation failure
/// reported by the discovery function itself.
#[derive(Debug)]
pub enum Error {
    /// A general dynamic-loading failure: the library was opened but the
    /// discovery symbol was missing, or some other loading step failed.
    /// Carries the loader's own description.
    LibLoading(String),
    /// The system library itself could not be opened. Carries the loader's
    /// own description.
    LibLoadingFailedToLoadSystemd(String),
    /// The discovery function returned a negative value; carries the OS
    /// error code it encoded (the negation of the returned value).
    Systemd(i32),
}

/// A dynamic-loading failure, reported by the caller that performed the
/// loading as a plain description of which step failed.
#[derive(Debug)]
pub enum LoadFailure {
    /// Opening the system library failed because the loader could not load
    /// it (typically: the library is absent from the host).
    LibraryNotFound(String),
    /// Opening the system library failed for some other reason.
    LibraryOther(String),
    /// The library was opened, but the discovery symbol could not be
    /// resolved from it.
    SymbolNotFound(String),
}

/// Translates a dynamic-loading failure into the caller-facing error:
/// a library that could not be opened is reported as the distinct
/// "failed to load" kind, every other loading failure as the general kind.
pub fn classify_load_failure(failure: LoadFailure) -> (r: Error)
    ensures
        failure matches LoadFailure::LibraryNotFound(m)
            ==> (r matches Error::LibLoadingFailedToLoadSystemd(d) && d == m),
        failure matches LoadFailure::LibraryOther(m)
            ==> (r matches Error::LibLoading(d) && d == m),
        failure matches LoadFailure::SymbolNotFound(m)
            ==> (r matches Error::LibLoading(d) && d == m),
{
    match failure {
        LoadFailure::LibraryNotFound(m) => Error::LibLoadingFailedToLoadSystemd(m),
        LoadFailure::LibraryOther(m) => Error::LibLoading(m),
        LoadFailure::SymbolNotFound(m) => Error::LibLoading(m),
    }
}

} // verus!
