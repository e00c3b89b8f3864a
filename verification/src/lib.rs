//! A browser-fingerprint normalization layer for an embedded web view.
//!
//! The library models the ambient properties of one loaded document, a
//! versioned catalog of read-only property overrides that presents the
//! document as a reference mobile device, an activation guard keyed on the
//! document origin, and wrappers for the WebGL introspection methods that a
//! fingerprinting page consults. A thin host shell owns the window and the
//! web view; this crate owns the rules for what that web view reports.

pub mod catalog;
pub mod environment;
pub mod installer;
pub mod navigation;
pub mod script;
pub mod webgl;

use vstd::prelude::*;

verus! {

/// The origin of the anti-bot challenge provider: overrides are installed
/// only in documents loaded from this origin.
pub open spec fn vendor_origin() -> Seq<char> {
    "https://client-api.arkoselabs.com"@
}

/// The vendor origin as a string slice, for callers that compare origins.
pub fn vendor_origin_str() -> (r: &'static str)
    ensures
        r@ == vendor_origin(),
{
    "https://client-api.arkoselabs.com"
}

} // verus!
