//! Precomputed bucket boundaries of the positive native-histogram schemas.
//!
//! For schema `n` boundary `i`, in `0..2^n`, is a double within four units in
//! the last place of `2^(i / 2^n - 1)`, kept as its bit pattern. The values of
//! schemas 0 to 6 are off by up to about three units from the nearest
//! double. Schemas 7 and 8 follow the definition: at
//! an even position they repeat the boundary of the schema below at half the
//! position, and at an odd position they hold the double nearest to
//! `2^(i / 2^n - 1)`. `lemma_bounds_rounded` proves all of this. The
//! boundaries lie in `[0.5, 1)`, where the order of bit patterns is the order
//! of values.

use crate::float_bits::HALF_BITS;
use vstd::prelude::*;

verus! {

/// Bucket boundaries of schema 0, as IEEE-754 bit patterns.
pub const BOUNDS_SCHEMA_0: [u64; 1] = [
    0x3FE0_0000_0000_0000,
];

/// Bucket boundaries of schema 1, as IEEE-754 bit patterns.
pub const BOUNDS_SCHEMA_1: [u64; 2] = [
    0x3FE0_0000_0000_0000, 0x3FE6_A09E_667F_3BCC,
];

/// Bucket boundaries of schema 2, as IEEE-754 bit patterns.
pub const BOUNDS_SCHEMA_2: [u64; 4] = [
    0x3FE0_0000_0000_0000, 0x3FE3_06FE_0A31_B715, 0x3FE6_A09E_667F_3BCC, 0x3FEA_E89F_995A_D3AC,
];

/// Bucket boundaries of schema 3, as IEEE-754 bit patterns.
pub const BOUNDS_SCHEMA_3: [u64; 8] = [
    0x3FE0_0000_0000_0000, 0x3FE1_72B8_3C7D_517B, 0x3FE3_06FE_0A31_B715, 0x3FE4_BFDA_D536_2A27,
    0x3FE6_A09E_667F_3BCC, 0x3FE8_ACE5_422A_A0DB, 0x3FEA_E89F_995A_D3AC, 0x3FED_5818_DCFB_A486,
];

/// Bucket boundaries of schema 4, as IEEE-754 bit patterns.
pub const BOUNDS_SCHEMA_4: [u64; 16] = [
    0x3FE0_0000_0000_0000, 0x3FE0_B558_6CF9_890F, 0x3FE1_72B8_3C7D_517B, 0x3FE2_387A_6E75_6238,
    0x3FE3_06FE_0A31_B715, 0x3FE3_DEA6_4C12_3422, 0x3FE4_BFDA_D536_2A27, 0x3FE5_AB07_DD48_5429,
    0x3FE6_A09E_667F_3BCC, 0x3FE7_A114_73EB_0186, 0x3FE8_ACE5_422A_A0DB, 0x3FE9_C491_82A3_F08F,
    0x3FEA_E89F_995A_D3AC, 0x3FEC_199B_DD85_529A, 0x3FED_5818_DCFB_A486, 0x3FEE_A4AF_A2A4_90D8,
];

/// Bucket boundaries of schema 5, as IEEE-754 bit patterns.
pub const BOUNDS_SCHEMA_5: [u64; 32] = [
    0x3FE0_0000_0000_0000, 0x3FE0_59B0_D315_8574, 0x3FE0_B558_6CF9_890F, 0x3FE1_1301_D012_5B50,
    0x3FE1_72B8_3C7D_517B, 0x3FE1_D487_3168_B9AA, 0x3FE2_387A_6E75_6238, 0x3FE2_9E9D_F51F_DEE1,
    0x3FE3_06FE_0A31_B715, 0x3FE3_71A7_373A_A9CA, 0x3FE3_DEA6_4C12_3422, 0x3FE4_4E08_6061_892D,
    0x3FE4_BFDA_D536_2A27, 0x3FE5_342B_569D_4F81, 0x3FE5_AB07_DD48_5429, 0x3FE6_247E_B03A_5584,
    0x3FE6_A09E_667F_3BCC, 0x3FE7_1F75_E8EC_5F73, 0x3FE7_A114_73EB_0186, 0x3FE8_2589_994C_CE11,
    0x3FE8_ACE5_422A_A0DB, 0x3FE9_3737_B0CD_C5E4, 0x3FE9_C491_82A3_F08F, 0x3FEA_5503_B23E_255B,
    0x3FEA_E89F_995A_D3AC, 0x3FEB_7F76_F2FB_5E45, 0x3FEC_199B_DD85_529A, 0x3FEC_B720_DCEF_9066,
    0x3FED_5818_DCFB_A486, 0x3FED_FC97_337B_9B5D, 0x3FEE_A4AF_A2A4_90D8, 0x3FEF_5076_5B6E_453E,
];

/// Bucket boundaries of schema 6, as IEEE-754 bit patterns.
pub const BOUNDS_SCHEMA_6: [u64; 64] = [
    0x3FE0_0000_0000_0000, 0x3FE0_2C9A_3E77_8061, 0x3FE0_59B0_D315_8574, 0x3FE0_8745_1875_9BC8,
    0x3FE0_B558_6CF9_890F, 0x3FE0_E3EC_32D3_D1A2, 0x3FE1_1301_D012_5B50, 0x3FE1_429A_AEA9_2DDF,
    0x3FE1_72B8_3C7D_517B, 0x3FE1_A35B_EB6F_CB75, 0x3FE1_D487_3168_B9AA, 0x3FE2_063B_8862_8CD6,
    0x3FE2_387A_6E75_6238, 0x3FE2_6B45_65E2_7CDD, 0x3FE2_9E9D_F51F_DEE1, 0x3FE2_D285_A6E4_030B,
    0x3FE3_06FE_0A31_B715, 0x3FE3_3C08_B264_16FF, 0x3FE3_71A7_373A_A9CA, 0x3FE3_A7DB_34E5_9FF6,
    0x3FE3_DEA6_4C12_3422, 0x3FE4_160A_21F7_2E2A, 0x3FE4_4E08_6061_892D, 0x3FE4_86A2_B5C1_3CD0,
    0x3FE4_BFDA_D536_2A27, 0x3FE4_F9B2_769D_2CA7, 0x3FE5_342B_569D_4F81, 0x3FE5_6F47_36B5_27DA,
    0x3FE5_AB07_DD48_5429, 0x3FE5_E76F_15AD_2148, 0x3FE6_247E_B03A_5584, 0x3FE6_6238_8255_2224,
    0x3FE6_A09E_667F_3BCC, 0x3FE6_DFB2_3C65_1A2E, 0x3FE7_1F75_E8EC_5F73, 0x3FE7_5FEB_5642_67C8,
    0x3FE7_A114_73EB_0186, 0x3FE7_E2F3_36CF_4E61, 0x3FE8_2589_994C_CE11, 0x3FE8_68D9_9B44_92EB,
    0x3FE8_ACE5_422A_A0DB, 0x3FE8_F1AE_9915_7736, 0x3FE9_3737_B0CD_C5E4, 0x3FE9_7D82_9FDE_4E4F,
    0x3FE9_C491_82A3_F08F, 0x3FEA_0C66_7B5D_E564, 0x3FEA_5503_B23E_255B, 0x3FEA_9E6B_5579_FDBE,
    0x3FEA_E89F_995A_D3AC, 0x3FEB_33A2_B84F_15FA, 0x3FEB_7F76_F2FB_5E45, 0x3FEB_CC1E_904B_C1D0,
    0x3FEC_199B_DD85_529A, 0x3FEC_67F1_2E57_D149, 0x3FEC_B720_DCEF_9066, 0x3FED_072D_4A07_8979,
    0x3FED_5818_DCFB_A486, 0x3FED_A9E6_03DB_3284, 0x3FED_FC97_337B_9B5D, 0x3FEE_502E_E78B_3FF5,
    0x3FEE_A4AF_A2A4_90D8, 0x3FEE_FA1B_EE61_5A26, 0x3FEF_5076_5B6E_453E, 0x3FEF_A7C1_819E_90D6,
];

/// Bucket boundaries of schema 7, as IEEE-754 bit patterns.
pub const BOUNDS_SCHEMA_7: [u64; 128] = [
    0x3FE0_0000_0000_0000, 0x3FE0_163D_A9FB_3335, 0x3FE0_2C9A_3E77_8061, 0x3FE0_4315_E86E_7F85,
    0x3FE0_59B0_D315_8574, 0x3FE0_706B_29DD_F6DE, 0x3FE0_8745_1875_9BC8, 0x3FE0_9E3E_CAC6_F383,
    0x3FE0_B558_6CF9_890F, 0x3FE0_CC92_2B72_47F7, 0x3FE0_E3EC_32D3_D1A2, 0x3FE0_FB66_AFFE_D31B,
    0x3FE1_1301_D012_5B50, 0x3FE1_2ABD_C06C_31CC, 0x3FE1_429A_AEA9_2DDF, 0x3FE1_5A98_C8A5_8E51,
    0x3FE1_72B8_3C7D_517B, 0x3FE1_8AF9_388C_8DEA, 0x3FE1_A35B_EB6F_CB75, 0x3FE1_BBE0_8404_5CD4,
    0x3FE1_D487_3168_B9AA, 0x3FE1_ED50_22FC_D91D, 0x3FE2_063B_8862_8CD6, 0x3FE2_1F49_917D_DC96,
    0x3FE2_387A_6E75_6238, 0x3FE2_51CE_4FB2_A63F, 0x3FE2_6B45_65E2_7CDD, 0x3FE2_84DF_E1F5_6381,
    0x3FE2_9E9D_F51F_DEE1, 0x3FE2_B87F_D0DA_D990, 0x3FE2_D285_A6E4_030B, 0x3FE2_ECAF_A93E_2F56,
    0x3FE3_06FE_0A31_B715, 0x3FE3_2170_FC4C_D831, 0x3FE3_3C08_B264_16FF, 0x3FE3_56C5_5F92_9FF1,
    0x3FE3_71A7_373A_A9CA, 0x3FE3_8CAE_6D05_D866, 0x3FE3_A7DB_34E5_9FF6, 0x3FE3_C32D_C313_A8E5,
    0x3FE3_DEA6_4C12_3422, 0x3FE3_FA45_04AC_801C, 0x3FE4_160A_21F7_2E2A, 0x3FE4_31F5_D950_A897,
    0x3FE4_4E08_6061_892D, 0x3FE4_6A41_ED1D_0057, 0x3FE4_86A2_B5C1_3CD0, 0x3FE4_A32A_F0D7_D3DE,
    0x3FE4_BFDA_D536_2A27, 0x3FE4_DCB2_99FD_DD0D, 0x3FE4_F9B2_769D_2CA7, 0x3FE5_16DA_A2CF_6642,
    0x3FE5_342B_569D_4F81, 0x3FE5_51A4_CA5D_920F, 0x3FE5_6F47_36B5_27DA, 0x3FE5_8D12_D497_C7FD,
    0x3FE5_AB07_DD48_5429, 0x3FE5_C926_8A59_46B7, 0x3FE5_E76F_15AD_2148, 0x3FE6_05E1_B976_DC09,
    0x3FE6_247E_B03A_5584, 0x3FE6_4346_34CC_C320, 0x3FE6_6238_8255_2224, 0x3FE6_8155_D44C_A973,
    0x3FE6_A09E_667F_3BCC, 0x3FE6_C012_750B_DABF, 0x3FE6_DFB2_3C65_1A2E, 0x3FE6_FF7D_F951_9484,
    0x3FE7_1F75_E8EC_5F73, 0x3FE7_3F9A_48A5_8174, 0x3FE7_5FEB_5642_67C8, 0x3FE7_8069_4FDE_5D3F,
    0x3FE7_A114_73EB_0186, 0x3FE7_C1ED_0130_C132, 0x3FE7_E2F3_36CF_4E61, 0x3FE8_0427_543E_1A12,
    0x3FE8_2589_994C_CE11, 0x3FE8_471A_4623_C7AD, 0x3FE8_68D9_9B44_92EB, 0x3FE8_8AC7_D98A_6699,
    0x3FE8_ACE5_422A_A0DB, 0x3FE8_CF32_16B5_448C, 0x3FE8_F1AE_9915_7736, 0x3FE9_145B_0B91_FFC6,
    0x3FE9_3737_B0CD_C5E4, 0x3FE9_5A44_CBC8_520F, 0x3FE9_7D82_9FDE_4E4F, 0x3FE9_A0F1_70CA_07BA,
    0x3FE9_C491_82A3_F08F, 0x3FE9_E863_19E3_2323, 0x3FEA_0C66_7B5D_E564, 0x3FEA_309B_EC4A_2D33,
    0x3FEA_5503_B23E_255B, 0x3FEA_799E_1330_B358, 0x3FEA_9E6B_5579_FDBE, 0x3FEA_C36B_BFD3_F37A,
    0x3FEA_E89F_995A_D3AC, 0x3FEB_0E07_298D_B666, 0x3FEB_33A2_B84F_15FA, 0x3FEB_5972_8DE5_593A,
    0x3FEB_7F76_F2FB_5E45, 0x3FEB_A5B0_30A1_064A, 0x3FEB_CC1E_904B_C1D0, 0x3FEB_F2C2_5BD7_1E09,
    0x3FEC_199B_DD85_529A, 0x3FEC_40AB_5FFF_D07A, 0x3FEC_67F1_2E57_D149, 0x3FEC_8F6D_9406_E7B5,
    0x3FEC_B720_DCEF_9066, 0x3FEC_DF0B_555D_C3FA, 0x3FED_072D_4A07_8979, 0x3FED_2F87_080D_89F2,
    0x3FED_5818_DCFB_A486, 0x3FED_80E3_16C9_8398, 0x3FED_A9E6_03DB_3284, 0x3FED_D321_F301_B460,
    0x3FED_FC97_337B_9B5D, 0x3FEE_2646_14F5_A129, 0x3FEE_502E_E78B_3FF5, 0x3FEE_7A51_FBC7_4C83,
    0x3FEE_A4AF_A2A4_90D8, 0x3FEE_CF48_2D8E_67F1, 0x3FEE_FA1B_EE61_5A26, 0x3FEF_252B_376B_BA97,
    0x3FEF_5076_5B6E_453E, 0x3FEF_7BFD_AD9C_BE14, 0x3FEF_A7C1_819E_90D6, 0x3FEF_D3C2_2B8F_71F1,
];

/// Bucket boundaries of schema 8, as IEEE-754 bit patterns.
pub const BOUNDS_SCHEMA_8: [u64; 256] = [
    0x3FE0_0000_0000_0000, 0x3FE0_0B1A_FA5A_BCBF, 0x3FE0_163D_A9FB_3335, 0x3FE0_2168_143B_0281,
    0x3FE0_2C9A_3E77_8061, 0x3FE0_37D4_2E11_BBCC, 0x3FE0_4315_E86E_7F85, 0x3FE0_4E5F_72F6_54B1,
    0x3FE0_59B0_D315_8574, 0x3FE0_650A_0E3C_1F89, 0x3FE0_706B_29DD_F6DE, 0x3FE0_7BD4_2B72_A836,
    0x3FE0_8745_1875_9BC8, 0x3FE0_92BD_F666_07E0, 0x3FE0_9E3E_CAC6_F383, 0x3FE0_A9C7_9B1F_3919,
    0x3FE0_B558_6CF9_890F, 0x3FE0_C0F1_45E4_6C85, 0x3FE0_CC92_2B72_47F7, 0x3FE0_D83B_2339_5DEC,
    0x3FE0_E3EC_32D3_D1A2, 0x3FE0_EFA5_5FDF_A9C5, 0x3FE0_FB66_AFFE_D31B, 0x3FE1_0730_28D7_233E,
    0x3FE1_1301_D012_5B50, 0x3FE1_1EDB_AB5E_2AB6, 0x3FE1_2ABD_C06C_31CC, 0x3FE1_36A8_14F2_04AB,
    0x3FE1_429A_AEA9_2DDF, 0x3FE1_4E95_934F_312E, 0x3FE1_5A98_C8A5_8E51, 0x3FE1_66A4_5471_C3C2,
    0x3FE1_72B8_3C7D_517B, 0x3FE1_7ED4_8695_BBC0, 0x3FE1_8AF9_388C_8DEA, 0x3FE1_9726_5837_5D2F,
    0x3FE1_A35B_EB6F_CB75, 0x3FE1_AF99_F813_8A1C, 0x3FE1_BBE0_8404_5CD4, 0x3FE1_C82F_9528_1C6B,
    0x3FE1_D487_3168_B9AA, 0x3FE1_E0E7_5EB4_4027, 0x3FE1_ED50_22FC_D91D, 0x3FE1_F9C1_8438_CE4D,
    0x3FE2_063B_8862_8CD6, 0x3FE2_12BE_3578_A819, 0x3FE2_1F49_917D_DC96, 0x3FE2_2BDD_A279_12D1,
    0x3FE2_387A_6E75_6238, 0x3FE2_451F_FB82_140A, 0x3FE2_51CE_4FB2_A63F, 0x3FE2_5E85_711E_CE75,
    0x3FE2_6B45_65E2_7CDD, 0x3FE2_780E_341D_DF29, 0x3FE2_84DF_E1F5_6381, 0x3FE2_91BA_7591_BB70,
    0x3FE2_9E9D_F51F_DEE1, 0x3FE2_AB8A_66D1_0F13, 0x3FE2_B87F_D0DA_D990, 0x3FE2_C57E_3977_1B2F,
    0x3FE2_D285_A6E4_030B, 0x3FE2_DF96_1F64_1589, 0x3FE2_ECAF_A93E_2F56, 0x3FE2_F9D2_4ABD_886B,
    0x3FE3_06FE_0A31_B715, 0x3FE3_1432_EDEE_B2FD, 0x3FE3_2170_FC4C_D831, 0x3FE3_2EB8_3BA8_EA32,
    0x3FE3_3C08_B264_16FF, 0x3FE3_4962_66E3_FA2D, 0x3FE3_56C5_5F92_9FF1, 0x3FE3_6431_A2DE_883B,
    0x3FE3_71A7_373A_A9CA, 0x3FE3_7F26_231E_754A, 0x3FE3_8CAE_6D05_D866, 0x3FE3_9A40_1B71_40EF,
    0x3FE3_A7DB_34E5_9FF6, 0x3FE3_B57F_BFEC_6CF4, 0x3FE3_C32D_C313_A8E5, 0x3FE3_D0E5_44ED_E173,
    0x3FE3_DEA6_4C12_3422, 0x3FE3_EC70_DF1C_5175, 0x3FE3_FA45_04AC_801C, 0x3FE4_0822_C367_A024,
    0x3FE4_160A_21F7_2E2A, 0x3FE4_23FB_2709_468A, 0x3FE4_31F5_D950_A897, 0x3FE4_3FFA_3F84_B9D4,
    0x3FE4_4E08_6061_892D, 0x3FE4_5C20_42A7_D232, 0x3FE4_6A41_ED1D_0057, 0x3FE4_786D_668B_3237,
    0x3FE4_86A2_B5C1_3CD0, 0x3FE4_94E1_E192_AED2, 0x3FE4_A32A_F0D7_D3DE, 0x3FE4_B17D_EA6D_B7D7,
    0x3FE4_BFDA_D536_2A27, 0x3FE4_CE41_B817_C114, 0x3FE4_DCB2_99FD_DD0D, 0x3FE4_EB2D_81D8_ABFF,
    0x3FE4_F9B2_769D_2CA7, 0x3FE5_0841_7F45_31EE, 0x3FE5_16DA_A2CF_6642, 0x3FE5_257D_E83F_4EEF,
    0x3FE5_342B_569D_4F81, 0x3FE5_42E2_F4F6_AD27, 0x3FE5_51A4_CA5D_920F, 0x3FE5_6070_DDE9_10D2,
    0x3FE5_6F47_36B5_27DA, 0x3FE5_7E27_DBE2_C4CF, 0x3FE5_8D12_D497_C7FD, 0x3FE5_9C08_27FF_07CC,
    0x3FE5_AB07_DD48_5429, 0x3FE5_BA11_FBA8_7A03, 0x3FE5_C926_8A59_46B7, 0x3FE5_D845_9099_8B93,
    0x3FE5_E76F_15AD_2148, 0x3FE5_F6A3_20DC_EB71, 0x3FE6_05E1_B976_DC09, 0x3FE6_152A_E6CD_F6F4,
    0x3FE6_247E_B03A_5584, 0x3FE6_33DD_1D19_29FD, 0x3FE6_4346_34CC_C320, 0x3FE6_52B9_FEBC_8FB7,
    0x3FE6_6238_8255_2224, 0x3FE6_71C1_C708_33F6, 0x3FE6_8155_D44C_A973, 0x3FE6_90F4_B19E_9538,
    0x3FE6_A09E_667F_3BCC, 0x3FE6_B052_FA75_173E, 0x3FE6_C012_750B_DABF, 0x3FE6_CFDC_DDD4_7645,
    0x3FE6_DFB2_3C65_1A2E, 0x3FE6_EF92_9859_3AE5, 0x3FE6_FF7D_F951_9484, 0x3FE7_0F74_66F4_2E87,
    0x3FE7_1F75_E8EC_5F73, 0x3FE7_2F82_86EA_D08A, 0x3FE7_3F9A_48A5_8174, 0x3FE7_4FBD_35D7_CBFD,
    0x3FE7_5FEB_5642_67C8, 0x3FE7_7024_B1AB_6E09, 0x3FE7_8069_4FDE_5D3F, 0x3FE7_90B9_38AC_1CF6,
    0x3FE7_A114_73EB_0186, 0x3FE7_B17B_0976_CFDB, 0x3FE7_C1ED_0130_C132, 0x3FE7_D26A_62FF_86F0,
    0x3FE7_E2F3_36CF_4E61, 0x3FE7_F387_8491_C491, 0x3FE8_0427_543E_1A12, 0x3FE8_14D2_ADD1_06D9,
    0x3FE8_2589_994C_CE11, 0x3FE8_364C_1EB9_41F7, 0x3FE8_471A_4623_C7AD, 0x3FE8_57F4_179F_5B21,
    0x3FE8_68D9_9B44_92EB, 0x3FE8_79CA_D931_A436, 0x3FE8_8AC7_D98A_6699, 0x3FE8_9BD0_A478_580F,
    0x3FE8_ACE5_422A_A0DB, 0x3FE8_BE05_BAD6_1778, 0x3FE8_CF32_16B5_448C, 0x3FE8_E06A_5E08_66D9,
    0x3FE8_F1AE_9915_7736, 0x3FE9_02FE_D028_2C8A, 0x3FE9_145B_0B91_FFC6, 0x3FE9_25C3_53AA_2FE2,
    0x3FE9_3737_B0CD_C5E4, 0x3FE9_48B8_2B5F_98E5, 0x3FE9_5A44_CBC8_520F, 0x3FE9_6BDD_9A76_70B3,
    0x3FE9_7D82_9FDE_4E4F, 0x3FE9_8F33_E47A_22A2, 0x3FE9_A0F1_70CA_07BA, 0x3FE9_B2BB_4D53_FE0D,
    0x3FE9_C491_82A3_F08F, 0x3FE9_D674_194B_B8D5, 0x3FE9_E863_19E3_2323, 0x3FE9_FA5E_8D07_F29E,
    0x3FEA_0C66_7B5D_E564, 0x3FEA_1E7A_ED8E_B8BB, 0x3FEA_309B_EC4A_2D33, 0x3FEA_42C9_8046_0AD8,
    0x3FEA_5503_B23E_255B, 0x3FEA_674A_8AF4_6052, 0x3FEA_799E_1330_B358, 0x3FEA_8BFE_53C1_2E59,
    0x3FEA_9E6B_5579_FDBE, 0x3FEA_B0E5_2135_6EBA, 0x3FEA_C36B_BFD3_F37A, 0x3FEA_D5FF_3A3C_2774,
    0x3FEA_E89F_995A_D3AC, 0x3FEA_FB4C_E622_F2FF, 0x3FEB_0E07_298D_B666, 0x3FEB_20CE_6C9A_8952,
    0x3FEB_33A2_B84F_15FA, 0x3FEB_4684_15B7_49B1, 0x3FEB_5972_8DE5_593A, 0x3FEB_6C6E_29F1_C52A,
    0x3FEB_7F76_F2FB_5E45, 0x3FEB_928C_F227_49E4, 0x3FEB_A5B0_30A1_064A, 0x3FEB_B8E0_B79A_6F1F,
    0x3FEB_CC1E_904B_C1D0, 0x3FEB_DF69_C3F3_A207, 0x3FEB_F2C2_5BD7_1E09, 0x3FEC_0628_6141_B33D,
    0x3FEC_199B_DD85_529A, 0x3FEC_2D1C_D9FA_652C, 0x3FEC_40AB_5FFF_D07A, 0x3FEC_5447_78FA_FB22,
    0x3FEC_67F1_2E57_D149, 0x3FEC_7BA8_8988_C933, 0x3FEC_8F6D_9406_E7B5, 0x3FEC_A340_5751_C4DB,
    0x3FEC_B720_DCEF_9066, 0x3FEC_CB0F_2E6D_1675, 0x3FEC_DF0B_555D_C3FA, 0x3FEC_F315_5B5B_AB74,
    0x3FED_072D_4A07_8979, 0x3FED_1B53_2B08_C968, 0x3FED_2F87_080D_89F2, 0x3FED_43C8_EACA_A1D6,
    0x3FED_5818_DCFB_A486, 0x3FED_6C76_E862_E6D3, 0x3FED_80E3_16C9_8398, 0x3FED_955D_71FF_6075,
    0x3FED_A9E6_03DB_3284, 0x3FED_BE7C_D63A_8315, 0x3FED_D321_F301_B460, 0x3FED_E7D5_641C_0658,
    0x3FED_FC97_337B_9B5D, 0x3FEE_1167_6B19_7D17, 0x3FEE_2646_14F5_A129, 0x3FEE_3B33_3B16_EE12,
    0x3FEE_502E_E78B_3FF5, 0x3FEE_6539_2467_6D76, 0x3FEE_7A51_FBC7_4C83, 0x3FEE_8F79_77CD_B740,
    0x3FEE_A4AF_A2A4_90D8, 0x3FEE_B9F4_867C_CA6E, 0x3FEE_CF48_2D8E_67F1, 0x3FEE_E4AA_A218_8510,
    0x3FEE_FA1B_EE61_5A26, 0x3FEF_0F9C_1CB6_412A, 0x3FEF_252B_376B_BA97, 0x3FEF_3AC9_48DD_7274,
    0x3FEF_5076_5B6E_453E, 0x3FEF_6632_7988_44F8, 0x3FEF_7BFD_AD9C_BE14, 0x3FEF_91D8_0224_3C89,
    0x3FEF_A7C1_819E_90D6, 0x3FEF_BDBA_3692_D514, 0x3FEF_D3C2_2B8F_71F1, 0x3FEF_E9D9_6B2A_23D9,
];
/// The boundaries of `schema`, for the schemas `0..=8` that have a table.
#[verifier::opaque]
pub open spec fn bounds_of(schema: int) -> Seq<u64> {
    if schema == 0 {
        BOUNDS_SCHEMA_0@
    } else if schema == 1 {
        BOUNDS_SCHEMA_1@
    } else if schema == 2 {
        BOUNDS_SCHEMA_2@
    } else if schema == 3 {
        BOUNDS_SCHEMA_3@
    } else if schema == 4 {
        BOUNDS_SCHEMA_4@
    } else if schema == 5 {
        BOUNDS_SCHEMA_5@
    } else if schema == 6 {
        BOUNDS_SCHEMA_6@
    } else if schema == 7 {
        BOUNDS_SCHEMA_7@
    } else {
        BOUNDS_SCHEMA_8@
    }
}

/// Returns the precomputed bucket boundaries for `schema`.
pub fn get_native_histogram_bounds(schema: i32) -> (r: &'static [u64])
    requires
        0 <= schema <= 8,
    ensures
        r@ == bounds_of(schema as int),
{
    proof {
        reveal(bounds_of);
    }
    match schema {
        0 => &BOUNDS_SCHEMA_0,
        1 => &BOUNDS_SCHEMA_1,
        2 => &BOUNDS_SCHEMA_2,
        3 => &BOUNDS_SCHEMA_3,
        4 => &BOUNDS_SCHEMA_4,
        5 => &BOUNDS_SCHEMA_5,
        6 => &BOUNDS_SCHEMA_6,
        7 => &BOUNDS_SCHEMA_7,
        _ => &BOUNDS_SCHEMA_8,
    }
}

/// `s` ascends strictly from position `i` on.
pub open spec fn ascends_from(s: Seq<u64>, i: nat) -> bool
    decreases s.len() - i,
{
    if i + 1 >= s.len() {
        true
    } else {
        s[i as int] < s[i + 1int] && ascends_from(s, i + 1)
    }
}

/// From position `i` on, every boundary of `coarse` is the boundary of
/// `fine` at twice its position.
pub open spec fn refined_from(coarse: Seq<u64>, fine: Seq<u64>, i: nat) -> bool
    decreases coarse.len() - i,
{
    if i >= coarse.len() {
        true
    } else {
        fine[2 * (i as int)] == coarse[i as int] && refined_from(coarse, fine, i + 1)
    }
}

proof fn lemma_ascends(s: Seq<u64>, i: nat)
    requires
        ascends_from(s, i),
    ensures
        forall|a: int, b: int| i <= a < b < s.len() ==> s[a] < s[b],
    decreases s.len() - i,
{
    if i + 1 < s.len() {
        lemma_ascends(s, i + 1);
    }
}

proof fn lemma_refined(coarse: Seq<u64>, fine: Seq<u64>, i: nat)
    requires
        refined_from(coarse, fine, i),
    ensures
        forall|a: int| i <= a < coarse.len() ==> fine[2 * a] == #[trigger] coarse[a],
    decreases coarse.len() - i,
{
    if i < coarse.len() {
        lemma_refined(coarse, fine, i + 1);
    }
}

proof fn lemma_well_shaped_0()
    ensures
        well_shaped(0),
{
    reveal(bounds_of);
    vstd::arithmetic::power2::lemma2_to64();
    reveal_with_fuel(ascends_from, 33);
    assert(ascends_from(BOUNDS_SCHEMA_0@, 0));
    lemma_ascends(bounds_of(0), 0);
}

proof fn lemma_well_shaped_1()
    ensures
        well_shaped(1),
{
    reveal(bounds_of);
    vstd::arithmetic::power2::lemma2_to64();
    reveal_with_fuel(ascends_from, 33);
    assert(ascends_from(BOUNDS_SCHEMA_1@, 0));
    lemma_ascends(bounds_of(1), 0);
}

proof fn lemma_well_shaped_2()
    ensures
        well_shaped(2),
{
    reveal(bounds_of);
    vstd::arithmetic::power2::lemma2_to64();
    reveal_with_fuel(ascends_from, 33);
    assert(ascends_from(BOUNDS_SCHEMA_2@, 0));
    lemma_ascends(bounds_of(2), 0);
}

proof fn lemma_well_shaped_3()
    ensures
        well_shaped(3),
{
    reveal(bounds_of);
    vstd::arithmetic::power2::lemma2_to64();
    reveal_with_fuel(ascends_from, 33);
    assert(ascends_from(BOUNDS_SCHEMA_3@, 0));
    lemma_ascends(bounds_of(3), 0);
}

proof fn lemma_well_shaped_4()
    ensures
        well_shaped(4),
{
    reveal(bounds_of);
    vstd::arithmetic::power2::lemma2_to64();
    reveal_with_fuel(ascends_from, 33);
    assert(ascends_from(BOUNDS_SCHEMA_4@, 0));
    lemma_ascends(bounds_of(4), 0);
}

proof fn lemma_well_shaped_5()
    ensures
        well_shaped(5),
{
    reveal(bounds_of);
    vstd::arithmetic::power2::lemma2_to64();
    reveal_with_fuel(ascends_from, 33);
    assert(ascends_from(BOUNDS_SCHEMA_5@, 0));
    lemma_ascends(bounds_of(5), 0);
}

proof fn lemma_well_shaped_6()
    ensures
        well_shaped(6),
{
    reveal(bounds_of);
    vstd::arithmetic::power2::lemma2_to64();
    reveal_with_fuel(ascends_from, 33);
    assert(ascends_from(BOUNDS_SCHEMA_6@, 32));
    assert(ascends_from(BOUNDS_SCHEMA_6@, 0));
    lemma_ascends(bounds_of(6), 0);
}

proof fn lemma_well_shaped_7()
    ensures
        well_shaped(7),
{
    reveal(bounds_of);
    vstd::arithmetic::power2::lemma2_to64();
    reveal_with_fuel(ascends_from, 33);
    assert(ascends_from(BOUNDS_SCHEMA_7@, 96));
    assert(ascends_from(BOUNDS_SCHEMA_7@, 64));
    assert(ascends_from(BOUNDS_SCHEMA_7@, 32));
    assert(ascends_from(BOUNDS_SCHEMA_7@, 0));
    lemma_ascends(bounds_of(7), 0);
}

proof fn lemma_well_shaped_8()
    ensures
        well_shaped(8),
{
    reveal(bounds_of);
    vstd::arithmetic::power2::lemma2_to64();
    reveal_with_fuel(ascends_from, 33);
    assert(ascends_from(BOUNDS_SCHEMA_8@, 224));
    assert(ascends_from(BOUNDS_SCHEMA_8@, 192));
    assert(ascends_from(BOUNDS_SCHEMA_8@, 160));
    assert(ascends_from(BOUNDS_SCHEMA_8@, 128));
    assert(ascends_from(BOUNDS_SCHEMA_8@, 96));
    assert(ascends_from(BOUNDS_SCHEMA_8@, 64));
    assert(ascends_from(BOUNDS_SCHEMA_8@, 32));
    assert(ascends_from(BOUNDS_SCHEMA_8@, 0));
    lemma_ascends(bounds_of(8), 0);
}

/// The boundaries of `schema`: there are `2^schema` of them, they ascend
/// strictly, the first is `0.5` and all lie below `1.0` (bit pattern
/// `0x3FF0_0000_0000_0000`).
pub open spec fn well_shaped(schema: int) -> bool {
    let b = bounds_of(schema);
    &&& b.len() == vstd::arithmetic::power2::pow2(schema as nat)
    &&& forall|i: int, j: int| 0 <= i < j < b.len() ==> b[i] < b[j]
    &&& b[0] == HALF_BITS
    &&& b.last() < 0x3FF0_0000_0000_0000
}

/// The tables of all schemas `0..=8` are well shaped.
pub proof fn lemma_bounds_shape(schema: int)
    requires
        0 <= schema <= 8,
    ensures
        well_shaped(schema),
{
    if schema == 0 {
        lemma_well_shaped_0();
    } else if schema == 1 {
        lemma_well_shaped_1();
    } else if schema == 2 {
        lemma_well_shaped_2();
    } else if schema == 3 {
        lemma_well_shaped_3();
    } else if schema == 4 {
        lemma_well_shaped_4();
    } else if schema == 5 {
        lemma_well_shaped_5();
    } else if schema == 6 {
        lemma_well_shaped_6();
    } else if schema == 7 {
        lemma_well_shaped_7();
    } else {
        lemma_well_shaped_8();
    }
}

/// Each schema's boundaries are every other boundary of the next schema:
/// `bounds_of(s)[i] == bounds_of(s + 1)[2 * i]` for `s` in `0..8`.
pub proof fn lemma_bounds_refine(schema: int)
    requires
        0 <= schema < 8,
    ensures
        forall|i: int| 0 <= i < bounds_of(schema).len() ==> bounds_of(schema + 1)[2 * i] == #[trigger] bounds_of(schema)[i],
        bounds_of(schema + 1).len() == 2 * bounds_of(schema).len(),
{
    reveal(bounds_of);
    reveal_with_fuel(refined_from, 33);
    assert(refined_from(BOUNDS_SCHEMA_0@, BOUNDS_SCHEMA_1@, 0));
    lemma_refined(BOUNDS_SCHEMA_0@, BOUNDS_SCHEMA_1@, 0);
    assert(refined_from(BOUNDS_SCHEMA_1@, BOUNDS_SCHEMA_2@, 0));
    lemma_refined(BOUNDS_SCHEMA_1@, BOUNDS_SCHEMA_2@, 0);
    assert(refined_from(BOUNDS_SCHEMA_2@, BOUNDS_SCHEMA_3@, 0));
    lemma_refined(BOUNDS_SCHEMA_2@, BOUNDS_SCHEMA_3@, 0);
    assert(refined_from(BOUNDS_SCHEMA_3@, BOUNDS_SCHEMA_4@, 0));
    lemma_refined(BOUNDS_SCHEMA_3@, BOUNDS_SCHEMA_4@, 0);
    assert(refined_from(BOUNDS_SCHEMA_4@, BOUNDS_SCHEMA_5@, 0));
    lemma_refined(BOUNDS_SCHEMA_4@, BOUNDS_SCHEMA_5@, 0);
    assert(refined_from(BOUNDS_SCHEMA_5@, BOUNDS_SCHEMA_6@, 0));
    lemma_refined(BOUNDS_SCHEMA_5@, BOUNDS_SCHEMA_6@, 0);
    assert(refined_from(BOUNDS_SCHEMA_6@, BOUNDS_SCHEMA_7@, 32));
    assert(refined_from(BOUNDS_SCHEMA_6@, BOUNDS_SCHEMA_7@, 0));
    lemma_refined(BOUNDS_SCHEMA_6@, BOUNDS_SCHEMA_7@, 0);
    assert(refined_from(BOUNDS_SCHEMA_7@, BOUNDS_SCHEMA_8@, 96));
    assert(refined_from(BOUNDS_SCHEMA_7@, BOUNDS_SCHEMA_8@, 64));
    assert(refined_from(BOUNDS_SCHEMA_7@, BOUNDS_SCHEMA_8@, 32));
    assert(refined_from(BOUNDS_SCHEMA_7@, BOUNDS_SCHEMA_8@, 0));
    lemma_refined(BOUNDS_SCHEMA_7@, BOUNDS_SCHEMA_8@, 0);
}

} // verus!
