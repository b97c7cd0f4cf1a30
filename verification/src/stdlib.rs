//! Decision logic of standard-library construction.
//!
//! Building the library itself is engine work; this module fixes how
//! the host's feature bitset is read. One feature is defined today, in
//! the lowest bit: HTML output.

use vstd::prelude::*;

verus! {

/// The feature indices named by a host bitset: index `i` is switched on
/// exactly when bit `i` is set, for the known bits.
pub open spec fn feature_indices_model(features: i32) -> Seq<usize> {
    if features & 1 == 1 {
        seq![0usize]
    } else {
        Seq::empty()
    }
}

/// Reads the feature indices out of a host bitset.
pub fn feature_indices(features: i32) -> (r: Vec<usize>)
    ensures
        r@ == feature_indices_model(features),
{
    let mut out: Vec<usize> = Vec::new();
    if features & 1 == 1 {
        out.push(0);
    }
    proof {
        assert(out@ =~= feature_indices_model(features));
    }
    out
}

} // verus!
