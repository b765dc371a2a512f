//! The data carried through the pipeline: index documents and the references
//! they contain, as plain values.

use vstd::prelude::*;

verus! {

/// A reference to one downloadable metadata artifact. Its identity is the
/// `(vendor, name, version)` triple; `url` is only where to fetch it from.
pub struct PdscRef {
    pub url: String,
    pub vendor: String,
    pub name: String,
    pub version: String,
}

/// A pointer to one vendor's sub-index: the base URL it is served under and
/// the vendor's name.
pub struct Pidx {
    pub url: String,
    pub vendor: String,
}

/// A parsed index document: sub-index pointers and directly listed leaf
/// references. A root index and a vendor sub-index share this shape; the
/// `vendor_index` of a sub-index is never expanded further.
pub struct Vidx {
    pub vendor_index: Vec<Pidx>,
    pub pdsc_index: Vec<PdscRef>,
}

} // verus!
