//! The integer part of pitch-preserving time stretching (WSOLA): how far the
//! similarity search may look around the nominal analysis position.

use vstd::prelude::*;

verus! {

/// Analysis/synthesis window length in frames.
pub const N: usize = 1024;

/// Synthesis hop: the output advances this many frames per window (half the
/// window, so windows overlap by half).
pub const HS: usize = 512;

/// The search radius for analysis hop `ha`: half the distance between the
/// analysis and synthesis hops, kept within `8 ..= HS - 1`.
pub open spec fn search_radius_spec(ha: int) -> int {
    let d = if ha > HS { ha - HS } else { HS - ha };
    let r = d / 2;
    if r < 8 {
        8
    } else if r > HS - 1 {
        HS - 1
    } else {
        r
    }
}

/// Similarity search radius around the nominal analysis position. Kept to half
/// the hop difference so the search can never reach the non-stretched
/// continuation and cancel the stretch.
pub fn search_radius(ha: usize) -> (r: usize)
    ensures
        r == search_radius_spec(ha as int),
{
    let d: usize = if ha > HS { ha - HS } else { HS - ha };
    let r = d / 2;
    if r < 8 {
        8
    } else if r > HS - 1 {
        HS - 1
    } else {
        r
    }
}

/// The radius stays inside the window's half and never reaches the
/// non-stretched continuation: for any analysis hop other than the synthesis
/// hop itself (beyond the minimum radius), a search of this radius around the
/// nominal position cannot land on the synthesis hop.
pub proof fn lemma_radius_bounds(ha: int)
    requires
        0 <= ha,
    ensures
        8 <= search_radius_spec(ha) <= HS - 1,
        (ha > HS + 16 || ha < HS - 16) ==> search_radius_spec(ha) * 2 <= (if ha > HS {
            ha - HS
        } else {
            HS - ha
        }),
{
}

} // verus!
