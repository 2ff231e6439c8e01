//! The ways a request to the catalogue can fail inside this crate.

use vstd::prelude::*;

verus! {

/// A failure raised by this crate. Failures of the transport are the
/// caller's and never pass through here.
#[derive(Debug, Clone, PartialEq, Eq)]
pub enum SourceError {
    /// The site answered with its "temporarily blocked" page.
    Blocked,
    /// A named listing other than the home listing was asked for.
    UnimplementedListing { name: String },
    /// A page index does not fit the index type.
    IndexOverflow,
    /// An item of a listing could not be read as a fragment of the page.
    MalformedFragment,
    /// The pattern of deep links was rejected by the pattern engine.
    InvalidPattern,
}

} // verus!
