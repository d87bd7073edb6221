//! The error taxonomy of layout resolution.

use vstd::prelude::*;

verus! {

/// Why listing, fetching, decoding or resolving a layout failed.
///
/// `NotFound`, `Transport` and `RateLimitExceeded` are raised by the
/// document transport that drives the resolver; `Decode` and
/// `CyclicParent` are raised by the library itself. `RateLimitExceeded`
/// is fatal for the session: the caller is expected to stop rather than
/// retry. Each variant carries the identifier or message it concerns.
#[derive(Debug, Clone)]
pub enum LayoutError {
    /// The identifier names no document at the source.
    NotFound(String),
    /// I/O or network failure while listing or fetching.
    Transport(String),
    /// The raw document is malformed.
    Decode(String),
    /// The remote source reports an exhausted request quota.
    RateLimitExceeded(String),
    /// The layout's parent chain revisits a name.
    CyclicParent(String),
}

} // verus!
