//! Constants for CAM02 and other CIE spaces, each a binary32 bit pattern.
use crate::binary32::{rounds, value, within_ulps};
use crate::cam02::{cat02, Triple};
use crate::jab::JabSpace;
use crate::ratio::{ratio, whole};
use vstd::prelude::*;

pub mod VC;

verus! {

/// The standard D65 CIEXYZ illuminant: X = 95.047.
pub const D65_X: u32 = 0x42be_1810;

/// The standard D65 CIEXYZ illuminant: Y = 100.
pub const D65_Y: u32 = 0x42c8_0000;

/// The standard D65 CIEXYZ illuminant: Z = 108.883.
pub const D65_Z: u32 = 0x42d9_c419;

/// Transformation of the D65 CIEXYZ illuminant into CAM02 LMS: L.
pub const D65_L: u32 = 0x42bd_db0d;

/// Transformation of the D65 CIEXYZ illuminant into CAM02 LMS: M.
pub const D65_M: u32 = 0x42cf_1407;

/// Transformation of the D65 CIEXYZ illuminant into CAM02 LMS: S.
pub const D65_S: u32 = 0x42d9_70fe;

/// The tristimulus value that the three constants of the illuminant hold.
pub open spec fn d65_xyz() -> Triple {
    Triple { a: value(D65_X), b: value(D65_Y), c: value(D65_Z) }
}

/// The three constants of the illuminant are the binary32 values of its
/// tristimulus value.
pub proof fn lemma_d65_xyz()
    ensures
        rounds(D65_X, ratio(95047, 1000)),
        rounds(D65_Y, whole(100)),
        rounds(D65_Z, ratio(108883, 1000)),
{
    assert(rounds(D65_X, ratio(95047, 1000)) && rounds(D65_Y, whole(100)) && rounds(
        D65_Z,
        ratio(108883, 1000),
    )) by (bit_vector);
}

/// The cone responses of the illuminant are what the CAT02 matrix makes of
/// its tristimulus value, to within one unit in the last place.
pub proof fn lemma_d65_lms()
    ensures
        within_ulps(D65_L, whole(1), cat02(d65_xyz()).a),
        within_ulps(D65_M, whole(1), cat02(d65_xyz()).b),
        within_ulps(D65_S, whole(1), cat02(d65_xyz()).c),
{
    assert(within_ulps(D65_L, whole(1), cat02(d65_xyz()).a) && within_ulps(
        D65_M,
        whole(1),
        cat02(d65_xyz()).b,
    ) && within_ulps(D65_S, whole(1), cat02(d65_xyz()).c)) by (bit_vector);
}

/// Jab transformation coefficients optimized for Large Color Differences.
pub struct LCD;

impl JabSpace for LCD {
    open spec fn k_l_bits() -> u32 {
        0x3f45_1eb8
    }

    open spec fn c1_bits() -> u32 {
        0x3be5_6042
    }

    open spec fn c2_bits() -> u32 {
        0x3bad_ab9f
    }

    /// k_L = 0.77.
    fn k_l() -> (bits: u32)
        ensures
            rounds(bits, ratio(77, 100)),
    {
        proof {
            lemma_coefficients();
        }
        0x3f45_1eb8
    }

    /// c1 = 0.007.
    fn c1() -> (bits: u32)
        ensures
            rounds(bits, ratio(7, 1000)),
    {
        proof {
            lemma_coefficients();
        }
        0x3be5_6042
    }

    /// c2 = 0.0053.
    fn c2() -> (bits: u32)
        ensures
            rounds(bits, ratio(53, 10000)),
    {
        proof {
            lemma_coefficients();
        }
        0x3bad_ab9f
    }
}

/// Jab transformation coefficients optimized for Short Color Differences.
pub struct SCD;

impl JabSpace for SCD {
    open spec fn k_l_bits() -> u32 {
        0x3f9e_b852
    }

    open spec fn c1_bits() -> u32 {
        0x3be5_6042
    }

    open spec fn c2_bits() -> u32 {
        0x3d14_af4f
    }

    /// k_L = 1.24.
    fn k_l() -> (bits: u32)
        ensures
            rounds(bits, ratio(124, 100)),
    {
        proof {
            lemma_coefficients();
        }
        0x3f9e_b852
    }

    /// c1 = 0.007.
    fn c1() -> (bits: u32)
        ensures
            rounds(bits, ratio(7, 1000)),
    {
        proof {
            lemma_coefficients();
        }
        0x3be5_6042
    }

    /// c2 = 0.0363.
    fn c2() -> (bits: u32)
        ensures
            rounds(bits, ratio(363, 10000)),
    {
        proof {
            lemma_coefficients();
        }
        0x3d14_af4f
    }
}

/// Jab transformations to create an approximately perceptually uniform color space.
pub struct UCS;

impl JabSpace for UCS {
    open spec fn k_l_bits() -> u32 {
        0x3f80_0000
    }

    open spec fn c1_bits() -> u32 {
        0x3be5_6042
    }

    open spec fn c2_bits() -> u32 {
        0x3cba_c711
    }

    /// k_L = 1.0.
    fn k_l() -> (bits: u32)
        ensures
            rounds(bits, whole(1)),
    {
        proof {
            lemma_coefficients();
        }
        0x3f80_0000
    }

    /// c1 = 0.007.
    fn c1() -> (bits: u32)
        ensures
            rounds(bits, ratio(7, 1000)),
    {
        proof {
            lemma_coefficients();
        }
        0x3be5_6042
    }

    /// c2 = 0.0228.
    fn c2() -> (bits: u32)
        ensures
            rounds(bits, ratio(228, 10000)),
    {
        proof {
            lemma_coefficients();
        }
        0x3cba_c711
    }
}

/// The coefficients of the three variants are the binary32 values of their
/// decimal fractions.
pub proof fn lemma_coefficients()
    ensures
        rounds(0x3f45_1eb8, ratio(77, 100)),
        rounds(0x3f9e_b852, ratio(124, 100)),
        rounds(0x3f80_0000, whole(1)),
        rounds(0x3be5_6042, ratio(7, 1000)),
        rounds(0x3bad_ab9f, ratio(53, 10000)),
        rounds(0x3d14_af4f, ratio(363, 10000)),
        rounds(0x3cba_c711, ratio(228, 10000)),
{
    assert(rounds(0x3f45_1eb8, ratio(77, 100)) && rounds(0x3f9e_b852, ratio(124, 100)) && rounds(
        0x3f80_0000,
        whole(1),
    ) && rounds(0x3be5_6042, ratio(7, 1000)) && rounds(0x3bad_ab9f, ratio(53, 10000)) && rounds(
        0x3d14_af4f,
        ratio(363, 10000),
    ) && rounds(0x3cba_c711, ratio(228, 10000))) by (bit_vector);
}

/// Pre-generated lookup table for sRGB -> linear RGB conversion: the
/// linear-light intensity of each 8-bit channel value, as a binary32 bit
/// pattern.
pub const sRGB_LOOKUP: [u32; 256] = [
    0x0000_0000, 0x399f_22b4, 0x3a1f_22b4, 0x3a6e_b40e, 0x3a9f_22b4, 0x3ac6_eb61, 0x3aee_b40e, 0x3b0b_3e5d,
    0x3b1f_22b4, 0x3b33_070b, 0x3b46_eb61, 0x3b5b_518d, 0x3b70_f18d, 0x3b83_e1c6, 0x3b8f_e616, 0x3b9c_87fd,
    0x3ba9_c9b7, 0x3bb7_ad6f, 0x3bc6_3549, 0x3bd5_6361, 0x3be5_39c1, 0x3bf5_ba70, 0x3c03_73b5, 0x3c0c_6152,
    0x3c15_a703, 0x3c1f_45be, 0x3c29_3e6b, 0x3c33_91f7, 0x3c3e_4149, 0x3c49_4d43, 0x3c54_b6c7, 0x3c60_7eb1,
    0x3c6c_a5df, 0x3c79_2d22, 0x3c83_0aa8, 0x3c89_af9f, 0x3c90_85db, 0x3c97_8dc5, 0x3c9e_c7c2, 0x3ca6_3433,
    0x3cad_d37d, 0x3cb5_a601, 0x3cbd_ac20, 0x3cc5_e639, 0x3cce_54ab, 0x3cd6_f7d5, 0x3cdf_d010, 0x3ce8_ddb9,
    0x3cf2_212c, 0x3cfb_9ac1, 0x3d02_a569, 0x3d07_98dc, 0x3d0c_a7e6, 0x3d11_d2af, 0x3d17_1963, 0x3d1c_7c2e,
    0x3d21_fb3c, 0x3d27_96b2, 0x3d2d_4ebb, 0x3d33_2380, 0x3d39_152b, 0x3d3f_23e3, 0x3d45_4fd1, 0x3d4b_991c,
    0x3d51_ffef, 0x3d58_846a, 0x3d5f_26b7, 0x3d65_e6fe, 0x3d6c_c564, 0x3d73_c20f, 0x3d7a_dd29, 0x3d81_0b67,
    0x3d84_b795, 0x3d88_7330, 0x3d8c_3e4a, 0x3d90_18f6, 0x3d94_0345, 0x3d97_fd4a, 0x3d9c_0716, 0x3da0_20bb,
    0x3da4_4a4b, 0x3da8_83d7, 0x3dac_cd70, 0x3db1_2728, 0x3db5_9112, 0x3dba_0b3b, 0x3dbe_95b5, 0x3dc3_3092,
    0x3dc7_dbe2, 0x3dcc_97b6, 0x3dd1_641f, 0x3dd6_412c, 0x3ddb_2eef, 0x3de0_2d77, 0x3de5_3cd5, 0x3dea_5d19,
    0x3def_8e52, 0x3df4_d091, 0x3dfa_23e8, 0x3dff_8861, 0x3e02_7f07, 0x3e05_4280, 0x3e08_0ea3, 0x3e0a_e378,
    0x3e0d_c105, 0x3e10_a754, 0x3e13_966b, 0x3e16_8e52, 0x3e19_8f10, 0x3e1c_98ad, 0x3e1f_ab30, 0x3e22_c6a3,
    0x3e25_eb09, 0x3e29_186c, 0x3e2c_4ed0, 0x3e2f_8e41, 0x3e32_d6c4, 0x3e36_2861, 0x3e39_831e, 0x3e3c_e703,
    0x3e40_5416, 0x3e43_ca5f, 0x3e47_49e4, 0x3e4a_d2ae, 0x3e4e_64c2, 0x3e52_0027, 0x3e55_a4e6, 0x3e59_5303,
    0x3e5d_0a8b, 0x3e60_cb7c, 0x3e64_95e0, 0x3e68_69bf, 0x3e6c_4720, 0x3e70_2e0c, 0x3e74_1e84, 0x3e78_1890,
    0x3e7c_1c38, 0x3e80_14c2, 0x3e82_203c, 0x3e84_308d, 0x3e86_45ba, 0x3e88_5fc5, 0x3e8a_7eb2, 0x3e8c_a283,
    0x3e8e_cb3d, 0x3e90_f8e1, 0x3e93_2b74, 0x3e95_62f8, 0x3e97_9f71, 0x3e99_e0e2, 0x3e9c_274e, 0x3e9e_72b7,
    0x3ea0_c322, 0x3ea3_1892, 0x3ea5_7308, 0x3ea7_d289, 0x3eaa_3718, 0x3eac_a0b7, 0x3eaf_0f69, 0x3eb1_8333,
    0x3eb3_fc18, 0x3eb6_7a18, 0x3eb8_fd37, 0x3ebb_8579, 0x3ebe_12e1, 0x3ec0_a571, 0x3ec3_3d2d, 0x3ec5_da17,
    0x3ec8_7c33, 0x3ecb_2383, 0x3ecd_d00b, 0x3ed0_81cd, 0x3ed3_38cc, 0x3ed5_f50b, 0x3ed8_b68d, 0x3edb_7d54,
    0x3ede_4965, 0x3ee1_1ac1, 0x3ee3_f16b, 0x3ee6_cd67, 0x3ee9_aeb6, 0x3eec_955d, 0x3eef_815d, 0x3ef2_72ba,
    0x3ef5_6976, 0x3ef8_6594, 0x3efb_6717, 0x3efe_6e02, 0x3f00_bd2d, 0x3f02_460e, 0x3f03_d1a7, 0x3f05_5ff9,
    0x3f06_f106, 0x3f08_84cf, 0x3f0a_1b56, 0x3f0b_b49b, 0x3f0d_50a0, 0x3f0e_ef67, 0x3f10_90f1, 0x3f12_353e,
    0x3f13_dc51, 0x3f15_862b, 0x3f17_32cd, 0x3f18_e239, 0x3f1a_946f, 0x3f1c_4971, 0x3f1e_0141, 0x3f1f_bbdf,
    0x3f21_794e, 0x3f23_398e, 0x3f24_fca0, 0x3f26_c286, 0x3f28_8b41, 0x3f2a_56d3, 0x3f2c_253d, 0x3f2d_f680,
    0x3f2f_ca9e, 0x3f31_a197, 0x3f33_7b6c, 0x3f35_5820, 0x3f37_37b3, 0x3f39_1a26, 0x3f3a_ff7c, 0x3f3c_e7b5,
    0x3f3e_d2d2, 0x3f40_c0d4, 0x3f42_b1be, 0x3f44_a590, 0x3f46_9c4b, 0x3f48_95f1, 0x3f4a_9282, 0x3f4c_9201,
    0x3f4e_946e, 0x3f50_99cb, 0x3f52_a218, 0x3f54_ad57, 0x3f56_bb8a, 0x3f58_ccb0, 0x3f5a_e0cd, 0x3f5c_f7e0,
    0x3f5f_11ec, 0x3f61_2eee, 0x3f63_4eef, 0x3f65_71e9, 0x3f67_97e3, 0x3f69_c0d6, 0x3f6b_eccd, 0x3f6e_1bbf,
    0x3f70_4db8, 0x3f72_82af, 0x3f74_baae, 0x3f76_f5ae, 0x3f79_33b9, 0x3f7b_74c6, 0x3f7d_b8e0, 0x3f80_0000,
];

} // verus!
