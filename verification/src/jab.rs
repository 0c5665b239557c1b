//! The variants of the Jab space.
use vstd::prelude::*;

verus! {

/// The JabSpace defines constants for transformation from JCh space into
/// JabSpace. Used for type-checking comparisons between Jab colors.
///
/// Each constant is a binary32 bit pattern.
pub trait JabSpace {
    /// The lightness divisor k_L.
    spec fn k_l_bits() -> u32;

    /// The lightness compression c1.
    spec fn c1_bits() -> u32;

    /// The colorfulness compression c2.
    spec fn c2_bits() -> u32;

    /// The lightness divisor k_L.
    fn k_l() -> (bits: u32)
        ensures
            bits == Self::k_l_bits(),
    ;

    /// The lightness compression c1.
    fn c1() -> (bits: u32)
        ensures
            bits == Self::c1_bits(),
    ;

    /// The colorfulness compression c2.
    fn c2() -> (bits: u32)
        ensures
            bits == Self::c2_bits(),
    ;
}

} // verus!
