//! The proof of how close every bucket boundary is to `2^(i / 2^n - 1)`.
//!
//! Each boundary at an odd position is checked through two squaring chains
//! (see `rounding`) whose intermediate values are written out; each boundary
//! at an even position is the boundary of the schema below at half the
//! position.

use crate::bounds::{bounds_of, lemma_bounds_refine, lemma_bounds_shape};
use crate::float_bits::HALF_BITS;
use crate::rounding::{
    lemma_chain_lower, lemma_chain_start, lemma_chain_upper, lemma_chains_round,
    lemma_close_to_root_refine, lemma_close_to_root_widen, near_root, rounds_root,
};
use vstd::arithmetic::power2::{lemma2_to64, lemma2_to64_rest};
use vstd::prelude::*;

verus! {

/// The single boundary of schema 0, `0.5`, is exact.
proof fn rounded_0_0()
    ensures
        near_root(HALF_BITS, 0, 0),
{
    lemma2_to64();
    lemma2_to64_rest();
    lemma_chain_start(0x1F_FFFF_FFFF_FFF8int);
    lemma_chain_start(0x20_0000_0000_0008int);
    lemma_chains_round(
        HALF_BITS,
        0,
        0,
        8,
        0x1F_FFFF_FFFF_FFF8int,
        0x20_0000_0000_0008int,
        0x1F_FFFF_FFFF_FFF8int,
        0x20_0000_0000_0008int,
        0,
        53,
    );
}

/// Boundary 1 of schema 1, checked through its squaring chains.
proof fn rounded_1_1()
    ensures
        near_root(0x3FE6_A09E_667F_3BCCu64, 1, 1),
{
    lemma2_to64();
    lemma2_to64_rest();
    lemma_chain_start(0x2D413CCCFE7790int);
    lemma_chain_start(0x2D413CCCFE77A0int);
    assert(0x2D413CCCFE7790int * 0x2D413CCCFE7790int <= 0xFFFFFFFFFFFF98B7int * 0x80000000000int);
    assert(0x10000000000004DBBint * 0x80000000000int <= 0x2D413CCCFE77A0int * 0x2D413CCCFE77A0int);
    lemma_chain_upper(0x2D413CCCFE7790int, 0, 0x2D413CCCFE7790int, 0, 43, 0xFFFFFFFFFFFF98B7int);
    lemma_chain_lower(0x2D413CCCFE77A0int, 0, 0x2D413CCCFE77A0int, 0, 43, 0x10000000000004DBBint);
    lemma_chains_round(0x3FE6_A09E_667F_3BCCu64, 1, 1, 8, 0x2D413CCCFE7790int, 0x2D413CCCFE77A0int, 0xFFFFFFFFFFFF98B7int, 0x10000000000004DBBint, 43, 64);
}

/// The boundaries of schema 1 at odd positions are within four units in the last place.
proof fn lemma_rounded_odd_1(k: int)
    requires
        0 <= k < 2,
        k % 2 == 1,
    ensures
        near_root(bounds_of(1)[k], k, 1),
{
    reveal(bounds_of);
    if k == 1 {
        rounded_1_1();
    }
}

/// Boundary 1 of schema 2, checked through its squaring chains.
proof fn rounded_2_1()
    ensures
        near_root(0x3FE3_06FE_0A31_B715u64, 1, 2),
{
    lemma2_to64();
    lemma2_to64_rest();
    lemma_chain_start(0x260DFC14636E22int);
    lemma_chain_start(0x260DFC14636E32int);
    assert(0x260DFC14636E22int * 0x260DFC14636E22int <= 0xB504F333F9DE14FFint * 0x80000000000int);
    assert(0xB504F333F9DEAD36int * 0x80000000000int <= 0x260DFC14636E32int * 0x260DFC14636E32int);
    lemma_chain_upper(0x260DFC14636E22int, 0, 0x260DFC14636E22int, 0, 43, 0xB504F333F9DE14FFint);
    lemma_chain_lower(0x260DFC14636E32int, 0, 0x260DFC14636E32int, 0, 43, 0xB504F333F9DEAD36int);
    assert(0xB504F333F9DE14FFint * 0xB504F333F9DE14FFint <= 0xFFFFFFFFFFFF1F15int * 0x8000000000000000int);
    assert(0x1000000000000CD9Cint * 0x8000000000000000int <= 0xB504F333F9DEAD36int * 0xB504F333F9DEAD36int);
    lemma_chain_upper(0x260DFC14636E22int, 1, 0xB504F333F9DE14FFint, 43, 63, 0xFFFFFFFFFFFF1F15int);
    lemma_chain_lower(0x260DFC14636E32int, 1, 0xB504F333F9DEAD36int, 43, 63, 0x1000000000000CD9Cint);
    lemma_chains_round(0x3FE3_06FE_0A31_B715u64, 1, 2, 8, 0x260DFC14636E22int, 0x260DFC14636E32int, 0xFFFFFFFFFFFF1F15int, 0x1000000000000CD9Cint, 149, 64);
}

/// Boundary 3 of schema 2, checked through its squaring chains.
proof fn rounded_2_3()
    ensures
        near_root(0x3FEA_E89F_995A_D3ACu64, 3, 2),
{
    lemma2_to64();
    lemma2_to64_rest();
    lemma_chain_start(0x35D13F32B5A750int);
    lemma_chain_start(0x35D13F32B5A760int);
    assert(0x35D13F32B5A750int * 0x35D13F32B5A750int <= 0xB504F333F9DE1C47int * 0x100000000000int);
    assert(0xB504F333F9DE87E9int * 0x100000000000int <= 0x35D13F32B5A760int * 0x35D13F32B5A760int);
    lemma_chain_upper(0x35D13F32B5A750int, 0, 0x35D13F32B5A750int, 0, 44, 0xB504F333F9DE1C47int);
    lemma_chain_lower(0x35D13F32B5A760int, 0, 0x35D13F32B5A760int, 0, 44, 0xB504F333F9DE87E9int);
    assert(0xB504F333F9DE1C47int * 0xB504F333F9DE1C47int <= 0xFFFFFFFFFFFF33ADint * 0x8000000000000000int);
    assert(0x1000000000000641Bint * 0x8000000000000000int <= 0xB504F333F9DE87E9int * 0xB504F333F9DE87E9int);
    lemma_chain_upper(0x35D13F32B5A750int, 1, 0xB504F333F9DE1C47int, 44, 63, 0xFFFFFFFFFFFF33ADint);
    lemma_chain_lower(0x35D13F32B5A760int, 1, 0xB504F333F9DE87E9int, 44, 63, 0x1000000000000641Bint);
    lemma_chains_round(0x3FEA_E89F_995A_D3ACu64, 3, 2, 8, 0x35D13F32B5A750int, 0x35D13F32B5A760int, 0xFFFFFFFFFFFF33ADint, 0x1000000000000641Bint, 151, 64);
}

/// The boundaries of schema 2 at odd positions are within four units in the last place.
proof fn lemma_rounded_odd_2(k: int)
    requires
        0 <= k < 4,
        k % 2 == 1,
    ensures
        near_root(bounds_of(2)[k], k, 2),
{
    reveal(bounds_of);
    if k == 1 {
        rounded_2_1();
    } else if k == 3 {
        rounded_2_3();
    }
}

/// Boundary 1 of schema 3, checked through its squaring chains.
proof fn rounded_3_1()
    ensures
        near_root(0x3FE1_72B8_3C7D_517Bu64, 1, 3),
{
    lemma2_to64();
    lemma2_to64_rest();
    lemma_chain_start(0x22E57078FAA2EEint);
    lemma_chain_start(0x22E57078FAA2FEint);
    assert(0x22E57078FAA2EEint * 0x22E57078FAA2EEint <= 0x9837F0518DB8660Aint * 0x80000000000int);
    assert(0x9837F0518DB8F19Fint * 0x80000000000int <= 0x22E57078FAA2FEint * 0x22E57078FAA2FEint);
    lemma_chain_upper(0x22E57078FAA2EEint, 0, 0x22E57078FAA2EEint, 0, 43, 0x9837F0518DB8660Aint);
    lemma_chain_lower(0x22E57078FAA2FEint, 0, 0x22E57078FAA2FEint, 0, 43, 0x9837F0518DB8F19Fint);
    assert(0x9837F0518DB8660Aint * 0x9837F0518DB8660Aint <= 0xB504F333F9DDC439int * 0x8000000000000000int);
    assert(0xB504F333F9DF1034int * 0x8000000000000000int <= 0x9837F0518DB8F19Fint * 0x9837F0518DB8F19Fint);
    lemma_chain_upper(0x22E57078FAA2EEint, 1, 0x9837F0518DB8660Aint, 43, 63, 0xB504F333F9DDC439int);
    lemma_chain_lower(0x22E57078FAA2FEint, 1, 0x9837F0518DB8F19Fint, 43, 63, 0xB504F333F9DF1034int);
    assert(0xB504F333F9DDC439int * 0xB504F333F9DDC439int <= 0xFFFFFFFFFFFE3A9Fint * 0x8000000000000000int);
    assert(0x1000000000001E59Aint * 0x8000000000000000int <= 0xB504F333F9DF1034int * 0xB504F333F9DF1034int);
    lemma_chain_upper(0x22E57078FAA2EEint, 2, 0xB504F333F9DDC439int, 149, 63, 0xFFFFFFFFFFFE3A9Fint);
    lemma_chain_lower(0x22E57078FAA2FEint, 2, 0xB504F333F9DF1034int, 149, 63, 0x1000000000001E59Aint);
    lemma_chains_round(0x3FE1_72B8_3C7D_517Bu64, 1, 3, 8, 0x22E57078FAA2EEint, 0x22E57078FAA2FEint, 0xFFFFFFFFFFFE3A9Fint, 0x1000000000001E59Aint, 361, 64);
}

/// Boundary 3 of schema 3, checked through its squaring chains.
proof fn rounded_3_3()
    ensures
        near_root(0x3FE4_BFDA_D536_2A27u64, 3, 3),
{
    lemma2_to64();
    lemma2_to64_rest();
    lemma_chain_start(0x297FB5AA6C5446int);
    lemma_chain_start(0x297FB5AA6C5456int);
    assert(0x297FB5AA6C5446int * 0x297FB5AA6C5446int <= 0xD744FCCAD69D1596int * 0x80000000000int);
    assert(0xD744FCCAD69DBB94int * 0x80000000000int <= 0x297FB5AA6C5456int * 0x297FB5AA6C5456int);
    lemma_chain_upper(0x297FB5AA6C5446int, 0, 0x297FB5AA6C5446int, 0, 43, 0xD744FCCAD69D1596int);
    lemma_chain_lower(0x297FB5AA6C5456int, 0, 0x297FB5AA6C5456int, 0, 43, 0xD744FCCAD69DBB94int);
    assert(0xD744FCCAD69D1596int * 0xD744FCCAD69D1596int <= 0xB504F333F9DDD4F3int * 0x10000000000000000int);
    assert(0xB504F333F9DEEC1Cint * 0x10000000000000000int <= 0xD744FCCAD69DBB94int * 0xD744FCCAD69DBB94int);
    lemma_chain_upper(0x297FB5AA6C5446int, 1, 0xD744FCCAD69D1596int, 43, 64, 0xB504F333F9DDD4F3int);
    lemma_chain_lower(0x297FB5AA6C5456int, 1, 0xD744FCCAD69DBB94int, 43, 64, 0xB504F333F9DEEC1Cint);
    assert(0xB504F333F9DDD4F3int * 0xB504F333F9DDD4F3int <= 0xFFFFFFFFFFFE69EEint * 0x8000000000000000int);
    assert(0x10000000000017F83int * 0x8000000000000000int <= 0xB504F333F9DEEC1Cint * 0xB504F333F9DEEC1Cint);
    lemma_chain_upper(0x297FB5AA6C5446int, 2, 0xB504F333F9DDD4F3int, 150, 63, 0xFFFFFFFFFFFE69EEint);
    lemma_chain_lower(0x297FB5AA6C5456int, 2, 0xB504F333F9DEEC1Cint, 150, 63, 0x10000000000017F83int);
    lemma_chains_round(0x3FE4_BFDA_D536_2A27u64, 3, 3, 8, 0x297FB5AA6C5446int, 0x297FB5AA6C5456int, 0xFFFFFFFFFFFE69EEint, 0x10000000000017F83int, 363, 64);
}

/// Boundary 5 of schema 3, checked through its squaring chains.
proof fn rounded_3_5()
    ensures
        near_root(0x3FE8_ACE5_422A_A0DBu64, 5, 3),
{
    lemma2_to64();
    lemma2_to64_rest();
    lemma_chain_start(0x3159CA845541AEint);
    lemma_chain_start(0x3159CA845541BEint);
    assert(0x3159CA845541AEint * 0x3159CA845541AEint <= 0x9837F0518DB873ABint * 0x100000000000int);
    assert(0x9837F0518DB8D65Eint * 0x100000000000int <= 0x3159CA845541BEint * 0x3159CA845541BEint);
    lemma_chain_upper(0x3159CA845541AEint, 0, 0x3159CA845541AEint, 0, 44, 0x9837F0518DB873ABint);
    lemma_chain_lower(0x3159CA845541BEint, 0, 0x3159CA845541BEint, 0, 44, 0x9837F0518DB8D65Eint);
    assert(0x9837F0518DB873ABint * 0x9837F0518DB873ABint <= 0xB504F333F9DDE4A4int * 0x8000000000000000int);
    assert(0xB504F333F9DECF62int * 0x8000000000000000int <= 0x9837F0518DB8D65Eint * 0x9837F0518DB8D65Eint);
    lemma_chain_upper(0x3159CA845541AEint, 1, 0x9837F0518DB873ABint, 44, 63, 0xB504F333F9DDE4A4int);
    lemma_chain_lower(0x3159CA845541BEint, 1, 0x9837F0518DB8D65Eint, 44, 63, 0xB504F333F9DECF62int);
    assert(0xB504F333F9DDE4A4int * 0xB504F333F9DDE4A4int <= 0xFFFFFFFFFFFE9650int * 0x8000000000000000int);
    assert(0x10000000000012E43int * 0x8000000000000000int <= 0xB504F333F9DECF62int * 0xB504F333F9DECF62int);
    lemma_chain_upper(0x3159CA845541AEint, 2, 0xB504F333F9DDE4A4int, 151, 63, 0xFFFFFFFFFFFE9650int);
    lemma_chain_lower(0x3159CA845541BEint, 2, 0xB504F333F9DECF62int, 151, 63, 0x10000000000012E43int);
    lemma_chains_round(0x3FE8_ACE5_422A_A0DBu64, 5, 3, 8, 0x3159CA845541AEint, 0x3159CA845541BEint, 0xFFFFFFFFFFFE9650int, 0x10000000000012E43int, 365, 64);
}

/// Boundary 7 of schema 3, checked through its squaring chains.
proof fn rounded_3_7()
    ensures
        near_root(0x3FED_5818_DCFB_A486u64, 7, 3),
{
    lemma2_to64();
    lemma2_to64_rest();
    lemma_chain_start(0x3AB031B9F74904int);
    lemma_chain_start(0x3AB031B9F74914int);
    assert(0x3AB031B9F74904int * 0x3AB031B9F74904int <= 0xD744FCCAD69D1F6Dint * 0x100000000000int);
    assert(0xD744FCCAD69D94CDint * 0x100000000000int <= 0x3AB031B9F74914int * 0x3AB031B9F74914int);
    lemma_chain_upper(0x3AB031B9F74904int, 0, 0x3AB031B9F74904int, 0, 44, 0xD744FCCAD69D1F6Dint);
    lemma_chain_lower(0x3AB031B9F74914int, 0, 0x3AB031B9F74914int, 0, 44, 0xD744FCCAD69D94CDint);
    assert(0xD744FCCAD69D1F6Dint * 0xD744FCCAD69D1F6Dint <= 0xB504F333F9DDE57Fint * 0x10000000000000000int);
    assert(0xB504F333F9DEAAE5int * 0x10000000000000000int <= 0xD744FCCAD69D94CDint * 0xD744FCCAD69D94CDint);
    lemma_chain_upper(0x3AB031B9F74904int, 1, 0xD744FCCAD69D1F6Dint, 44, 64, 0xB504F333F9DDE57Fint);
    lemma_chain_lower(0x3AB031B9F74914int, 1, 0xD744FCCAD69D94CDint, 44, 64, 0xB504F333F9DEAAE5int);
    assert(0xB504F333F9DDE57Fint * 0xB504F333F9DDE57Fint <= 0xFFFFFFFFFFFE98BCint * 0x8000000000000000int);
    assert(0x1000000000000C70Eint * 0x8000000000000000int <= 0xB504F333F9DEAAE5int * 0xB504F333F9DEAAE5int);
    lemma_chain_upper(0x3AB031B9F74904int, 2, 0xB504F333F9DDE57Fint, 152, 63, 0xFFFFFFFFFFFE98BCint);
    lemma_chain_lower(0x3AB031B9F74914int, 2, 0xB504F333F9DEAAE5int, 152, 63, 0x1000000000000C70Eint);
    lemma_chains_round(0x3FED_5818_DCFB_A486u64, 7, 3, 8, 0x3AB031B9F74904int, 0x3AB031B9F74914int, 0xFFFFFFFFFFFE98BCint, 0x1000000000000C70Eint, 367, 64);
}

/// The boundaries of schema 3 at odd positions are within four units in the last place.
proof fn lemma_rounded_odd_3(k: int)
    requires
        0 <= k < 8,
        k % 2 == 1,
    ensures
        near_root(bounds_of(3)[k], k, 3),
{
    reveal(bounds_of);
    if k == 1 {
        rounded_3_1();
    } else if k == 3 {
        rounded_3_3();
    } else if k == 5 {
        rounded_3_5();
    } else if k == 7 {
        rounded_3_7();
    }
}

/// Boundary 1 of schema 4, checked through its squaring chains.
proof fn rounded_4_1()
    ensures
        near_root(0x3FE0_B558_6CF9_890Fu64, 1, 4),
{
    lemma2_to64();
    lemma2_to64_rest();
    lemma_chain_start(0x216AB0D9F31216int);
    lemma_chain_start(0x216AB0D9F31226int);
    assert(0x216AB0D9F31216int * 0x216AB0D9F31216int <= 0x8B95C1E3EA8B8DA3int * 0x80000000000int);
    assert(0x8B95C1E3EA8C134Cint * 0x80000000000int <= 0x216AB0D9F31226int * 0x216AB0D9F31226int);
    lemma_chain_upper(0x216AB0D9F31216int, 0, 0x216AB0D9F31216int, 0, 43, 0x8B95C1E3EA8B8DA3int);
    lemma_chain_lower(0x216AB0D9F31226int, 0, 0x216AB0D9F31226int, 0, 43, 0x8B95C1E3EA8C134Cint);
    assert(0x8B95C1E3EA8B8DA3int * 0x8B95C1E3EA8B8DA3int <= 0x9837F0518DB809A5int * 0x8000000000000000int);
    assert(0x9837F0518DB92D27int * 0x8000000000000000int <= 0x8B95C1E3EA8C134Cint * 0x8B95C1E3EA8C134Cint);
    lemma_chain_upper(0x216AB0D9F31216int, 1, 0x8B95C1E3EA8B8DA3int, 43, 63, 0x9837F0518DB809A5int);
    lemma_chain_lower(0x216AB0D9F31226int, 1, 0x8B95C1E3EA8C134Cint, 43, 63, 0x9837F0518DB92D27int);
    assert(0x9837F0518DB809A5int * 0x9837F0518DB809A5int <= 0xB504F333F9DCE879int * 0x8000000000000000int);
    assert(0xB504F333F9DF9DCBint * 0x8000000000000000int <= 0x9837F0518DB92D27int * 0x9837F0518DB92D27int);
    lemma_chain_upper(0x216AB0D9F31216int, 2, 0x9837F0518DB809A5int, 149, 63, 0xB504F333F9DCE879int);
    lemma_chain_lower(0x216AB0D9F31226int, 2, 0x9837F0518DB92D27int, 149, 63, 0xB504F333F9DF9DCBint);
    assert(0xB504F333F9DCE879int * 0xB504F333F9DCE879int <= 0xFFFFFFFFFFFBCD13int * 0x8000000000000000int);
    assert(0x10000000000037614int * 0x8000000000000000int <= 0xB504F333F9DF9DCBint * 0xB504F333F9DF9DCBint);
    lemma_chain_upper(0x216AB0D9F31216int, 3, 0xB504F333F9DCE879int, 361, 63, 0xFFFFFFFFFFFBCD13int);
    lemma_chain_lower(0x216AB0D9F31226int, 3, 0xB504F333F9DF9DCBint, 361, 63, 0x10000000000037614int);
    lemma_chains_round(0x3FE0_B558_6CF9_890Fu64, 1, 4, 8, 0x216AB0D9F31216int, 0x216AB0D9F31226int, 0xFFFFFFFFFFFBCD13int, 0x10000000000037614int, 785, 64);
}

/// Boundary 3 of schema 4, checked through its squaring chains.
proof fn rounded_4_3()
    ensures
        near_root(0x3FE2_387A_6E75_6238u64, 3, 4),
{
    lemma2_to64();
    lemma2_to64_rest();
    lemma_chain_start(0x2470F4DCEAC468int);
    lemma_chain_start(0x2470F4DCEAC478int);
    assert(0x2470F4DCEAC468int * 0x2470F4DCEAC468int <= 0xA5FED6A9B150E8B8int * 0x80000000000int);
    assert(0xA5FED6A9B1517A7Bint * 0x80000000000int <= 0x2470F4DCEAC478int * 0x2470F4DCEAC478int);
    lemma_chain_upper(0x2470F4DCEAC468int, 0, 0x2470F4DCEAC468int, 0, 43, 0xA5FED6A9B150E8B8int);
    lemma_chain_lower(0x2470F4DCEAC478int, 0, 0x2470F4DCEAC478int, 0, 43, 0xA5FED6A9B1517A7Bint);
    assert(0xA5FED6A9B150E8B8int * 0xA5FED6A9B150E8B8int <= 0xD744FCCAD69C9AF4int * 0x8000000000000000int);
    assert(0xD744FCCAD69E1502int * 0x8000000000000000int <= 0xA5FED6A9B1517A7Bint * 0xA5FED6A9B1517A7Bint);
    lemma_chain_upper(0x2470F4DCEAC468int, 1, 0xA5FED6A9B150E8B8int, 43, 63, 0xD744FCCAD69C9AF4int);
    lemma_chain_lower(0x2470F4DCEAC478int, 1, 0xA5FED6A9B1517A7Bint, 43, 63, 0xD744FCCAD69E1502int);
    assert(0xD744FCCAD69C9AF4int * 0xD744FCCAD69C9AF4int <= 0xB504F333F9DD06B4int * 0x10000000000000000int);
    assert(0xB504F333F9DF8283int * 0x10000000000000000int <= 0xD744FCCAD69E1502int * 0xD744FCCAD69E1502int);
    lemma_chain_upper(0x2470F4DCEAC468int, 2, 0xD744FCCAD69C9AF4int, 149, 64, 0xB504F333F9DD06B4int);
    lemma_chain_lower(0x2470F4DCEAC478int, 2, 0xD744FCCAD69E1502int, 149, 64, 0xB504F333F9DF8283int);
    assert(0xB504F333F9DD06B4int * 0xB504F333F9DD06B4int <= 0xFFFFFFFFFFFC2294int * 0x8000000000000000int);
    assert(0x100000000000328EAint * 0x8000000000000000int <= 0xB504F333F9DF8283int * 0xB504F333F9DF8283int);
    lemma_chain_upper(0x2470F4DCEAC468int, 3, 0xB504F333F9DD06B4int, 362, 63, 0xFFFFFFFFFFFC2294int);
    lemma_chain_lower(0x2470F4DCEAC478int, 3, 0xB504F333F9DF8283int, 362, 63, 0x100000000000328EAint);
    lemma_chains_round(0x3FE2_387A_6E75_6238u64, 3, 4, 8, 0x2470F4DCEAC468int, 0x2470F4DCEAC478int, 0xFFFFFFFFFFFC2294int, 0x100000000000328EAint, 787, 64);
}

/// Boundary 5 of schema 4, checked through its squaring chains.
proof fn rounded_4_5()
    ensures
        near_root(0x3FE3_DEA6_4C12_3422u64, 5, 4),
{
    lemma2_to64();
    lemma2_to64_rest();
    lemma_chain_start(0x27BD4C9824683Cint);
    lemma_chain_start(0x27BD4C9824684Cint);
    assert(0x27BD4C9824683Cint * 0x27BD4C9824683Cint <= 0xC5672A1155068738int * 0x80000000000int);
    assert(0xC5672A115507262Cint * 0x80000000000int <= 0x27BD4C9824684Cint * 0x27BD4C9824684Cint);
    lemma_chain_upper(0x27BD4C9824683Cint, 0, 0x27BD4C9824683Cint, 0, 43, 0xC5672A1155068738int);
    lemma_chain_lower(0x27BD4C9824684Cint, 0, 0x27BD4C9824684Cint, 0, 43, 0xC5672A115507262Cint);
    assert(0xC5672A1155068738int * 0xC5672A1155068738int <= 0x9837F0518DB82870int * 0x10000000000000000int);
    assert(0x9837F0518DB91D93int * 0x10000000000000000int <= 0xC5672A115507262Cint * 0xC5672A115507262Cint);
    lemma_chain_upper(0x27BD4C9824683Cint, 1, 0xC5672A1155068738int, 43, 64, 0x9837F0518DB82870int);
    lemma_chain_lower(0x27BD4C9824684Cint, 1, 0xC5672A115507262Cint, 43, 64, 0x9837F0518DB91D93int);
    assert(0x9837F0518DB82870int * 0x9837F0518DB82870int <= 0xB504F333F9DD31B6int * 0x8000000000000000int);
    assert(0xB504F333F9DF78BEint * 0x8000000000000000int <= 0x9837F0518DB91D93int * 0x9837F0518DB91D93int);
    lemma_chain_upper(0x27BD4C9824683Cint, 2, 0x9837F0518DB82870int, 150, 63, 0xB504F333F9DD31B6int);
    lemma_chain_lower(0x27BD4C9824684Cint, 2, 0x9837F0518DB91D93int, 150, 63, 0xB504F333F9DF78BEint);
    assert(0xB504F333F9DD31B6int * 0xB504F333F9DD31B6int <= 0xFFFFFFFFFFFC9C39int * 0x8000000000000000int);
    assert(0x10000000000030D48int * 0x8000000000000000int <= 0xB504F333F9DF78BEint * 0xB504F333F9DF78BEint);
    lemma_chain_upper(0x27BD4C9824683Cint, 3, 0xB504F333F9DD31B6int, 363, 63, 0xFFFFFFFFFFFC9C39int);
    lemma_chain_lower(0x27BD4C9824684Cint, 3, 0xB504F333F9DF78BEint, 363, 63, 0x10000000000030D48int);
    lemma_chains_round(0x3FE3_DEA6_4C12_3422u64, 5, 4, 8, 0x27BD4C9824683Cint, 0x27BD4C9824684Cint, 0xFFFFFFFFFFFC9C39int, 0x10000000000030D48int, 789, 64);
}

/// Boundary 7 of schema 4, checked through its squaring chains.
proof fn rounded_4_7()
    ensures
        near_root(0x3FE5_AB07_DD48_5429u64, 7, 4),
{
    lemma2_to64();
    lemma2_to64_rest();
    lemma_chain_start(0x2B560FBA90A84Aint);
    lemma_chain_start(0x2B560FBA90A85Aint);
    assert(0x2B560FBA90A84Aint * 0x2B560FBA90A84Aint <= 0xEAC0C6E7DD23DAFFint * 0x80000000000int);
    assert(0xEAC0C6E7DD248857int * 0x80000000000int <= 0x2B560FBA90A85Aint * 0x2B560FBA90A85Aint);
    lemma_chain_upper(0x2B560FBA90A84Aint, 0, 0x2B560FBA90A84Aint, 0, 43, 0xEAC0C6E7DD23DAFFint);
    lemma_chain_lower(0x2B560FBA90A85Aint, 0, 0x2B560FBA90A85Aint, 0, 43, 0xEAC0C6E7DD248857int);
    assert(0xEAC0C6E7DD23DAFFint * 0xEAC0C6E7DD23DAFFint <= 0xD744FCCAD69CBE37int * 0x10000000000000000int);
    assert(0xD744FCCAD69DFC20int * 0x10000000000000000int <= 0xEAC0C6E7DD248857int * 0xEAC0C6E7DD248857int);
    lemma_chain_upper(0x2B560FBA90A84Aint, 1, 0xEAC0C6E7DD23DAFFint, 43, 64, 0xD744FCCAD69CBE37int);
    lemma_chain_lower(0x2B560FBA90A85Aint, 1, 0xEAC0C6E7DD248857int, 43, 64, 0xD744FCCAD69DFC20int);
    assert(0xD744FCCAD69CBE37int * 0xD744FCCAD69CBE37int <= 0xB504F333F9DD4202int * 0x10000000000000000int);
    assert(0xB504F333F9DF58AAint * 0x10000000000000000int <= 0xD744FCCAD69DFC20int * 0xD744FCCAD69DFC20int);
    lemma_chain_upper(0x2B560FBA90A84Aint, 2, 0xD744FCCAD69CBE37int, 150, 64, 0xB504F333F9DD4202int);
    lemma_chain_lower(0x2B560FBA90A85Aint, 2, 0xD744FCCAD69DFC20int, 150, 64, 0xB504F333F9DF58AAint);
    assert(0xB504F333F9DD4202int * 0xB504F333F9DD4202int <= 0xFFFFFFFFFFFCCA51int * 0x8000000000000000int);
    assert(0x1000000000002B28Dint * 0x8000000000000000int <= 0xB504F333F9DF58AAint * 0xB504F333F9DF58AAint);
    lemma_chain_upper(0x2B560FBA90A84Aint, 3, 0xB504F333F9DD4202int, 364, 63, 0xFFFFFFFFFFFCCA51int);
    lemma_chain_lower(0x2B560FBA90A85Aint, 3, 0xB504F333F9DF58AAint, 364, 63, 0x1000000000002B28Dint);
    lemma_chains_round(0x3FE5_AB07_DD48_5429u64, 7, 4, 8, 0x2B560FBA90A84Aint, 0x2B560FBA90A85Aint, 0xFFFFFFFFFFFCCA51int, 0x1000000000002B28Dint, 791, 64);
}

/// Boundary 9 of schema 4, checked through its squaring chains.
proof fn rounded_4_9()
    ensures
        near_root(0x3FE7_A114_73EB_0186u64, 9, 4),
{
    lemma2_to64();
    lemma2_to64_rest();
    lemma_chain_start(0x2F4228E7D60304int);
    lemma_chain_start(0x2F4228E7D60314int);
    assert(0x2F4228E7D60304int * 0x2F4228E7D60304int <= 0x8B95C1E3EA8B9DAFint * 0x100000000000int);
    assert(0x8B95C1E3EA8BFC33int * 0x100000000000int <= 0x2F4228E7D60314int * 0x2F4228E7D60314int);
    lemma_chain_upper(0x2F4228E7D60304int, 0, 0x2F4228E7D60304int, 0, 44, 0x8B95C1E3EA8B9DAFint);
    lemma_chain_lower(0x2F4228E7D60314int, 0, 0x2F4228E7D60314int, 0, 44, 0x8B95C1E3EA8BFC33int);
    assert(0x8B95C1E3EA8B9DAFint * 0x8B95C1E3EA8B9DAFint <= 0x9837F0518DB82CA4int * 0x8000000000000000int);
    assert(0x9837F0518DB8FAC7int * 0x8000000000000000int <= 0x8B95C1E3EA8BFC33int * 0x8B95C1E3EA8BFC33int);
    lemma_chain_upper(0x2F4228E7D60304int, 1, 0x8B95C1E3EA8B9DAFint, 44, 63, 0x9837F0518DB82CA4int);
    lemma_chain_lower(0x2F4228E7D60314int, 1, 0x8B95C1E3EA8BFC33int, 44, 63, 0x9837F0518DB8FAC7int);
    assert(0x9837F0518DB82CA4int * 0x9837F0518DB82CA4int <= 0xB504F333F9DD3BB5int * 0x8000000000000000int);
    assert(0xB504F333F9DF25FBint * 0x8000000000000000int <= 0x9837F0518DB8FAC7int * 0x9837F0518DB8FAC7int);
    lemma_chain_upper(0x2F4228E7D60304int, 2, 0x9837F0518DB82CA4int, 151, 63, 0xB504F333F9DD3BB5int);
    lemma_chain_lower(0x2F4228E7D60314int, 2, 0x9837F0518DB8FAC7int, 151, 63, 0xB504F333F9DF25FBint);
    assert(0xB504F333F9DD3BB5int * 0xB504F333F9DD3BB5int <= 0xFFFFFFFFFFFCB87Fint * 0x8000000000000000int);
    assert(0x10000000000022332int * 0x8000000000000000int <= 0xB504F333F9DF25FBint * 0xB504F333F9DF25FBint);
    lemma_chain_upper(0x2F4228E7D60304int, 3, 0xB504F333F9DD3BB5int, 365, 63, 0xFFFFFFFFFFFCB87Fint);
    lemma_chain_lower(0x2F4228E7D60314int, 3, 0xB504F333F9DF25FBint, 365, 63, 0x10000000000022332int);
    lemma_chains_round(0x3FE7_A114_73EB_0186u64, 9, 4, 8, 0x2F4228E7D60304int, 0x2F4228E7D60314int, 0xFFFFFFFFFFFCB87Fint, 0x10000000000022332int, 793, 64);
}

/// Boundary 11 of schema 4, checked through its squaring chains.
proof fn rounded_4_11()
    ensures
        near_root(0x3FE9_C491_82A3_F08Fu64, 11, 4),
{
    lemma2_to64();
    lemma2_to64_rest();
    lemma_chain_start(0x3389230547E116int);
    lemma_chain_start(0x3389230547E126int);
    assert(0x3389230547E116int * 0x3389230547E116int <= 0xA5FED6A9B150F710int * 0x100000000000int);
    assert(0xA5FED6A9B1515E21int * 0x100000000000int <= 0x3389230547E126int * 0x3389230547E126int);
    lemma_chain_upper(0x3389230547E116int, 0, 0x3389230547E116int, 0, 44, 0xA5FED6A9B150F710int);
    lemma_chain_lower(0x3389230547E126int, 0, 0x3389230547E126int, 0, 44, 0xA5FED6A9B1515E21int);
    assert(0xA5FED6A9B150F710int * 0xA5FED6A9B150F710int <= 0xD744FCCAD69CC028int * 0x8000000000000000int);
    assert(0xD744FCCAD69DCB79int * 0x8000000000000000int <= 0xA5FED6A9B1515E21int * 0xA5FED6A9B1515E21int);
    lemma_chain_upper(0x3389230547E116int, 1, 0xA5FED6A9B150F710int, 44, 63, 0xD744FCCAD69CC028int);
    lemma_chain_lower(0x3389230547E126int, 1, 0xA5FED6A9B1515E21int, 44, 63, 0xD744FCCAD69DCB79int);
    assert(0xD744FCCAD69CC028int * 0xD744FCCAD69CC028int <= 0xB504F333F9DD4546int * 0x10000000000000000int);
    assert(0xB504F333F9DF06D7int * 0x10000000000000000int <= 0xD744FCCAD69DCB79int * 0xD744FCCAD69DCB79int);
    lemma_chain_upper(0x3389230547E116int, 2, 0xD744FCCAD69CC028int, 151, 64, 0xB504F333F9DD4546int);
    lemma_chain_lower(0x3389230547E126int, 2, 0xD744FCCAD69DCB79int, 151, 64, 0xB504F333F9DF06D7int);
    assert(0xB504F333F9DD4546int * 0xB504F333F9DD4546int <= 0xFFFFFFFFFFFCD38Eint * 0x8000000000000000int);
    assert(0x1000000000001CB1Eint * 0x8000000000000000int <= 0xB504F333F9DF06D7int * 0xB504F333F9DF06D7int);
    lemma_chain_upper(0x3389230547E116int, 3, 0xB504F333F9DD4546int, 366, 63, 0xFFFFFFFFFFFCD38Eint);
    lemma_chain_lower(0x3389230547E126int, 3, 0xB504F333F9DF06D7int, 366, 63, 0x1000000000001CB1Eint);
    lemma_chains_round(0x3FE9_C491_82A3_F08Fu64, 11, 4, 8, 0x3389230547E116int, 0x3389230547E126int, 0xFFFFFFFFFFFCD38Eint, 0x1000000000001CB1Eint, 795, 64);
}

/// Boundary 13 of schema 4, checked through its squaring chains.
proof fn rounded_4_13()
    ensures
        near_root(0x3FEC_199B_DD85_529Au64, 13, 4),
{
    lemma2_to64();
    lemma2_to64_rest();
    lemma_chain_start(0x383337BB0AA52Cint);
    lemma_chain_start(0x383337BB0AA53Cint);
    assert(0x383337BB0AA52Cint * 0x383337BB0AA52Cint <= 0xC5672A11550684B1int * 0x100000000000int);
    assert(0xC5672A115506F517int * 0x100000000000int <= 0x383337BB0AA53Cint * 0x383337BB0AA53Cint);
    lemma_chain_upper(0x383337BB0AA52Cint, 0, 0x383337BB0AA52Cint, 0, 44, 0xC5672A11550684B1int);
    lemma_chain_lower(0x383337BB0AA53Cint, 0, 0x383337BB0AA53Cint, 0, 44, 0xC5672A115506F517int);
    assert(0xC5672A11550684B1int * 0xC5672A11550684B1int <= 0x9837F0518DB8248Aint * 0x10000000000000000int);
    assert(0x9837F0518DB8D1E1int * 0x10000000000000000int <= 0xC5672A115506F517int * 0xC5672A115506F517int);
    lemma_chain_upper(0x383337BB0AA52Cint, 1, 0xC5672A11550684B1int, 44, 64, 0x9837F0518DB8248Aint);
    lemma_chain_lower(0x383337BB0AA53Cint, 1, 0xC5672A115506F517int, 44, 64, 0x9837F0518DB8D1E1int);
    assert(0x9837F0518DB8248Aint * 0x9837F0518DB8248Aint <= 0xB504F333F9DD2870int * 0x8000000000000000int);
    assert(0xB504F333F9DEC4B5int * 0x8000000000000000int <= 0x9837F0518DB8D1E1int * 0x9837F0518DB8D1E1int);
    lemma_chain_upper(0x383337BB0AA52Cint, 2, 0x9837F0518DB8248Aint, 152, 63, 0xB504F333F9DD2870int);
    lemma_chain_lower(0x383337BB0AA53Cint, 2, 0x9837F0518DB8D1E1int, 152, 63, 0xB504F333F9DEC4B5int);
    assert(0xB504F333F9DD2870int * 0xB504F333F9DD2870int <= 0xFFFFFFFFFFFC81FFint * 0x8000000000000000int);
    assert(0x10000000000011011int * 0x8000000000000000int <= 0xB504F333F9DEC4B5int * 0xB504F333F9DEC4B5int);
    lemma_chain_upper(0x383337BB0AA52Cint, 3, 0xB504F333F9DD2870int, 367, 63, 0xFFFFFFFFFFFC81FFint);
    lemma_chain_lower(0x383337BB0AA53Cint, 3, 0xB504F333F9DEC4B5int, 367, 63, 0x10000000000011011int);
    lemma_chains_round(0x3FEC_199B_DD85_529Au64, 13, 4, 8, 0x383337BB0AA52Cint, 0x383337BB0AA53Cint, 0xFFFFFFFFFFFC81FFint, 0x10000000000011011int, 797, 64);
}

/// Boundary 15 of schema 4, checked through its squaring chains.
proof fn rounded_4_15()
    ensures
        near_root(0x3FEE_A4AF_A2A4_90D8u64, 15, 4),
{
    lemma2_to64();
    lemma2_to64_rest();
    lemma_chain_start(0x3D495F454921A8int);
    lemma_chain_start(0x3D495F454921B8int);
    assert(0x3D495F454921A8int * 0x3D495F454921A8int <= 0xEAC0C6E7DD23E495int * 0x100000000000int);
    assert(0xEAC0C6E7DD245F27int * 0x100000000000int <= 0x3D495F454921B8int * 0x3D495F454921B8int);
    lemma_chain_upper(0x3D495F454921A8int, 0, 0x3D495F454921A8int, 0, 44, 0xEAC0C6E7DD23E495int);
    lemma_chain_lower(0x3D495F454921B8int, 0, 0x3D495F454921B8int, 0, 44, 0xEAC0C6E7DD245F27int);
    assert(0xEAC0C6E7DD23E495int * 0xEAC0C6E7DD23E495int <= 0xD744FCCAD69CCFCCint * 0x10000000000000000int);
    assert(0xD744FCCAD69DB097int * 0x10000000000000000int <= 0xEAC0C6E7DD245F27int * 0xEAC0C6E7DD245F27int);
    lemma_chain_upper(0x3D495F454921A8int, 1, 0xEAC0C6E7DD23E495int, 44, 64, 0xD744FCCAD69CCFCCint);
    lemma_chain_lower(0x3D495F454921B8int, 1, 0xEAC0C6E7DD245F27int, 44, 64, 0xD744FCCAD69DB097int);
    assert(0xD744FCCAD69CCFCCint * 0xD744FCCAD69CCFCCint <= 0xB504F333F9DD5F94int * 0x10000000000000000int);
    assert(0xB504F333F9DED9A1int * 0x10000000000000000int <= 0xD744FCCAD69DB097int * 0xD744FCCAD69DB097int);
    lemma_chain_upper(0x3D495F454921A8int, 2, 0xD744FCCAD69CCFCCint, 152, 64, 0xB504F333F9DD5F94int);
    lemma_chain_lower(0x3D495F454921B8int, 2, 0xD744FCCAD69DB097int, 152, 64, 0xB504F333F9DED9A1int);
    assert(0xB504F333F9DD5F94int * 0xB504F333F9DD5F94int <= 0xFFFFFFFFFFFD1DF5int * 0x8000000000000000int);
    assert(0x10000000000014B3Eint * 0x8000000000000000int <= 0xB504F333F9DED9A1int * 0xB504F333F9DED9A1int);
    lemma_chain_upper(0x3D495F454921A8int, 3, 0xB504F333F9DD5F94int, 368, 63, 0xFFFFFFFFFFFD1DF5int);
    lemma_chain_lower(0x3D495F454921B8int, 3, 0xB504F333F9DED9A1int, 368, 63, 0x10000000000014B3Eint);
    lemma_chains_round(0x3FEE_A4AF_A2A4_90D8u64, 15, 4, 8, 0x3D495F454921A8int, 0x3D495F454921B8int, 0xFFFFFFFFFFFD1DF5int, 0x10000000000014B3Eint, 799, 64);
}

/// The boundaries of schema 4 at odd positions are within four units in the last place.
proof fn lemma_rounded_odd_4(k: int)
    requires
        0 <= k < 16,
        k % 2 == 1,
    ensures
        near_root(bounds_of(4)[k], k, 4),
{
    reveal(bounds_of);
    if k == 1 {
        rounded_4_1();
    } else if k == 3 {
        rounded_4_3();
    } else if k == 5 {
        rounded_4_5();
    } else if k == 7 {
        rounded_4_7();
    } else if k == 9 {
        rounded_4_9();
    } else if k == 11 {
        rounded_4_11();
    } else if k == 13 {
        rounded_4_13();
    } else if k == 15 {
        rounded_4_15();
    }
}

/// Boundary 1 of schema 5, checked through its squaring chains.
proof fn rounded_5_1()
    ensures
        near_root(0x3FE0_59B0_D315_8574u64, 1, 5),
{
    lemma2_to64();
    lemma2_to64_rest();
    lemma_chain_start(0x20B361A62B0AE0int);
    lemma_chain_start(0x20B361A62B0AF0int);
    assert(0x20B361A62B0AE0int * 0x20B361A62B0AE0int <= 0x85AAC367CC4835EBint * 0x80000000000int);
    assert(0x85AAC367CC48B8B8int * 0x80000000000int <= 0x20B361A62B0AF0int * 0x20B361A62B0AF0int);
    lemma_chain_upper(0x20B361A62B0AE0int, 0, 0x20B361A62B0AE0int, 0, 43, 0x85AAC367CC4835EBint);
    lemma_chain_lower(0x20B361A62B0AF0int, 0, 0x20B361A62B0AF0int, 0, 43, 0x85AAC367CC48B8B8int);
    assert(0x85AAC367CC4835EBint * 0x85AAC367CC4835EBint <= 0x8B95C1E3EA8B4674int * 0x8000000000000000int);
    assert(0x8B95C1E3EA8C57A2int * 0x8000000000000000int <= 0x85AAC367CC48B8B8int * 0x85AAC367CC48B8B8int);
    lemma_chain_upper(0x20B361A62B0AE0int, 1, 0x85AAC367CC4835EBint, 43, 63, 0x8B95C1E3EA8B4674int);
    lemma_chain_lower(0x20B361A62B0AF0int, 1, 0x85AAC367CC48B8B8int, 43, 63, 0x8B95C1E3EA8C57A2int);
    assert(0x8B95C1E3EA8B4674int * 0x8B95C1E3EA8B4674int <= 0x9837F0518DB76E64int * 0x8000000000000000int);
    assert(0x9837F0518DB9C232int * 0x8000000000000000int <= 0x8B95C1E3EA8C57A2int * 0x8B95C1E3EA8C57A2int);
    lemma_chain_upper(0x20B361A62B0AE0int, 2, 0x8B95C1E3EA8B4674int, 149, 63, 0x9837F0518DB76E64int);
    lemma_chain_lower(0x20B361A62B0AF0int, 2, 0x8B95C1E3EA8C57A2int, 149, 63, 0x9837F0518DB9C232int);
    assert(0x9837F0518DB76E64int * 0x9837F0518DB76E64int <= 0xB504F333F9DB7737int * 0x8000000000000000int);
    assert(0xB504F333F9E10048int * 0x8000000000000000int <= 0x9837F0518DB9C232int * 0x9837F0518DB9C232int);
    lemma_chain_upper(0x20B361A62B0AE0int, 3, 0x9837F0518DB76E64int, 361, 63, 0xB504F333F9DB7737int);
    lemma_chain_lower(0x20B361A62B0AF0int, 3, 0x9837F0518DB9C232int, 361, 63, 0xB504F333F9E10048int);
    assert(0xB504F333F9DB7737int * 0xB504F333F9DB7737int <= 0xFFFFFFFFFFF7B8A8int * 0x8000000000000000int);
    assert(0x100000000000760B8int * 0x8000000000000000int <= 0xB504F333F9E10048int * 0xB504F333F9E10048int);
    lemma_chain_upper(0x20B361A62B0AE0int, 4, 0xB504F333F9DB7737int, 785, 63, 0xFFFFFFFFFFF7B8A8int);
    lemma_chain_lower(0x20B361A62B0AF0int, 4, 0xB504F333F9E10048int, 785, 63, 0x100000000000760B8int);
    lemma_chains_round(0x3FE0_59B0_D315_8574u64, 1, 5, 8, 0x20B361A62B0AE0int, 0x20B361A62B0AF0int, 0xFFFFFFFFFFF7B8A8int, 0x100000000000760B8int, 1633, 64);
}

/// Boundary 3 of schema 5, checked through its squaring chains.
proof fn rounded_5_3()
    ensures
        near_root(0x3FE1_1301_D012_5B50u64, 3, 5),
{
    lemma2_to64();
    lemma2_to64_rest();
    lemma_chain_start(0x222603A024B698int);
    lemma_chain_start(0x222603A024B6A8int);
    assert(0x222603A024B698int * 0x222603A024B698int <= 0x91C3D373AB1173EBint * 0x80000000000int);
    assert(0x91C3D373AB11FC82int * 0x80000000000int <= 0x222603A024B6A8int * 0x222603A024B6A8int);
    lemma_chain_upper(0x222603A024B698int, 0, 0x222603A024B698int, 0, 43, 0x91C3D373AB1173EBint);
    lemma_chain_lower(0x222603A024B6A8int, 0, 0x222603A024B6A8int, 0, 43, 0x91C3D373AB11FC82int);
    assert(0x91C3D373AB1173EBint * 0x91C3D373AB1173EBint <= 0xA5FED6A9B1508452int * 0x8000000000000000int);
    assert(0xA5FED6A9B151BB69int * 0x8000000000000000int <= 0x91C3D373AB11FC82int * 0x91C3D373AB11FC82int);
    lemma_chain_upper(0x222603A024B698int, 1, 0x91C3D373AB1173EBint, 43, 63, 0xA5FED6A9B1508452int);
    lemma_chain_lower(0x222603A024B6A8int, 1, 0x91C3D373AB11FC82int, 43, 63, 0xA5FED6A9B151BB69int);
    assert(0xA5FED6A9B1508452int * 0xA5FED6A9B1508452int <= 0xD744FCCAD69B968Dint * 0x8000000000000000int);
    assert(0xD744FCCAD69EBD6Aint * 0x8000000000000000int <= 0xA5FED6A9B151BB69int * 0xA5FED6A9B151BB69int);
    lemma_chain_upper(0x222603A024B698int, 2, 0xA5FED6A9B1508452int, 149, 63, 0xD744FCCAD69B968Dint);
    lemma_chain_lower(0x222603A024B6A8int, 2, 0xA5FED6A9B151BB69int, 149, 63, 0xD744FCCAD69EBD6Aint);
    assert(0xD744FCCAD69B968Dint * 0xD744FCCAD69B968Dint <= 0xB504F333F9DB50C3int * 0x10000000000000000int);
    assert(0xB504F333F9E09DBCint * 0x10000000000000000int <= 0xD744FCCAD69EBD6Aint * 0xD744FCCAD69EBD6Aint);
    lemma_chain_upper(0x222603A024B698int, 3, 0xD744FCCAD69B968Dint, 361, 64, 0xB504F333F9DB50C3int);
    lemma_chain_lower(0x222603A024B6A8int, 3, 0xD744FCCAD69EBD6Aint, 361, 64, 0xB504F333F9E09DBCint);
    assert(0xB504F333F9DB50C3int * 0xB504F333F9DB50C3int <= 0xFFFFFFFFFFF74BE5int * 0x8000000000000000int);
    assert(0x100000000000649FDint * 0x8000000000000000int <= 0xB504F333F9E09DBCint * 0xB504F333F9E09DBCint);
    lemma_chain_upper(0x222603A024B698int, 4, 0xB504F333F9DB50C3int, 786, 63, 0xFFFFFFFFFFF74BE5int);
    lemma_chain_lower(0x222603A024B6A8int, 4, 0xB504F333F9E09DBCint, 786, 63, 0x100000000000649FDint);
    lemma_chains_round(0x3FE1_1301_D012_5B50u64, 3, 5, 8, 0x222603A024B698int, 0x222603A024B6A8int, 0xFFFFFFFFFFF74BE5int, 0x100000000000649FDint, 1635, 64);
}

/// Boundary 5 of schema 5, checked through its squaring chains.
proof fn rounded_5_5()
    ensures
        near_root(0x3FE1_D487_3168_B9AAu64, 5, 5),
{
    lemma2_to64();
    lemma2_to64_rest();
    lemma_chain_start(0x23A90E62D1734Cint);
    lemma_chain_start(0x23A90E62D1735Cint);
    assert(0x23A90E62D1734Cint * 0x23A90E62D1734Cint <= 0x9EF5326091A0C200int * 0x80000000000int);
    assert(0x9EF5326091A150A3int * 0x80000000000int <= 0x23A90E62D1735Cint * 0x23A90E62D1735Cint);
    lemma_chain_upper(0x23A90E62D1734Cint, 0, 0x23A90E62D1734Cint, 0, 43, 0x9EF5326091A0C200int);
    lemma_chain_lower(0x23A90E62D1735Cint, 0, 0x23A90E62D1735Cint, 0, 43, 0x9EF5326091A150A3int);
    assert(0x9EF5326091A0C200int * 0x9EF5326091A0C200int <= 0xC5672A11550614F8int * 0x8000000000000000int);
    assert(0xC5672A115507773Cint * 0x8000000000000000int <= 0x9EF5326091A150A3int * 0x9EF5326091A150A3int);
    lemma_chain_upper(0x23A90E62D1734Cint, 1, 0x9EF5326091A0C200int, 43, 63, 0xC5672A11550614F8int);
    lemma_chain_lower(0x23A90E62D1735Cint, 1, 0x9EF5326091A150A3int, 43, 63, 0xC5672A115507773Cint);
    assert(0xC5672A11550614F8int * 0xC5672A11550614F8int <= 0x9837F0518DB7783Dint * 0x10000000000000000int);
    assert(0x9837F0518DB99A97int * 0x10000000000000000int <= 0xC5672A115507773Cint * 0xC5672A115507773Cint);
    lemma_chain_upper(0x23A90E62D1734Cint, 2, 0xC5672A11550614F8int, 149, 64, 0x9837F0518DB7783Dint);
    lemma_chain_lower(0x23A90E62D1735Cint, 2, 0xC5672A115507773Cint, 149, 64, 0x9837F0518DB99A97int);
    assert(0x9837F0518DB7783Dint * 0x9837F0518DB7783Dint <= 0xB504F333F9DB8EA3int * 0x8000000000000000int);
    assert(0xB504F333F9E0A215int * 0x8000000000000000int <= 0x9837F0518DB99A97int * 0x9837F0518DB99A97int);
    lemma_chain_upper(0x23A90E62D1734Cint, 3, 0x9837F0518DB7783Dint, 362, 63, 0xB504F333F9DB8EA3int);
    lemma_chain_lower(0x23A90E62D1735Cint, 3, 0x9837F0518DB99A97int, 362, 63, 0xB504F333F9E0A215int);
    assert(0xB504F333F9DB8EA3int * 0xB504F333F9DB8EA3int <= 0xFFFFFFFFFFF7FAE7int * 0x8000000000000000int);
    assert(0x10000000000065649int * 0x8000000000000000int <= 0xB504F333F9E0A215int * 0xB504F333F9E0A215int);
    lemma_chain_upper(0x23A90E62D1734Cint, 4, 0xB504F333F9DB8EA3int, 787, 63, 0xFFFFFFFFFFF7FAE7int);
    lemma_chain_lower(0x23A90E62D1735Cint, 4, 0xB504F333F9E0A215int, 787, 63, 0x10000000000065649int);
    lemma_chains_round(0x3FE1_D487_3168_B9AAu64, 5, 5, 8, 0x23A90E62D1734Cint, 0x23A90E62D1735Cint, 0xFFFFFFFFFFF7FAE7int, 0x10000000000065649int, 1637, 64);
}

/// Boundary 7 of schema 5, checked through its squaring chains.
proof fn rounded_5_7()
    ensures
        near_root(0x3FE2_9E9D_F51F_DEE1u64, 7, 5),
{
    lemma2_to64();
    lemma2_to64_rest();
    lemma_chain_start(0x253D3BEA3FBDBAint);
    lemma_chain_start(0x253D3BEA3FBDCAint);
    assert(0x253D3BEA3FBDBAint * 0x253D3BEA3FBDBAint <= 0xAD583EEA42A0FD16int * 0x80000000000int);
    assert(0xAD583EEA42A1920Aint * 0x80000000000int <= 0x253D3BEA3FBDCAint * 0x253D3BEA3FBDCAint);
    lemma_chain_upper(0x253D3BEA3FBDBAint, 0, 0x253D3BEA3FBDBAint, 0, 43, 0xAD583EEA42A0FD16int);
    lemma_chain_lower(0x253D3BEA3FBDCAint, 0, 0x253D3BEA3FBDCAint, 0, 43, 0xAD583EEA42A1920Aint);
    assert(0xAD583EEA42A0FD16int * 0xAD583EEA42A0FD16int <= 0xEAC0C6E7DD2366C4int * 0x8000000000000000int);
    assert(0xEAC0C6E7DD24FA34int * 0x8000000000000000int <= 0xAD583EEA42A1920Aint * 0xAD583EEA42A1920Aint);
    lemma_chain_upper(0x253D3BEA3FBDBAint, 1, 0xAD583EEA42A0FD16int, 43, 63, 0xEAC0C6E7DD2366C4int);
    lemma_chain_lower(0x253D3BEA3FBDCAint, 1, 0xAD583EEA42A1920Aint, 43, 63, 0xEAC0C6E7DD24FA34int);
    assert(0xEAC0C6E7DD2366C4int * 0xEAC0C6E7DD2366C4int <= 0xD744FCCAD69BE90Dint * 0x10000000000000000int);
    assert(0xD744FCCAD69ECCF4int * 0x10000000000000000int <= 0xEAC0C6E7DD24FA34int * 0xEAC0C6E7DD24FA34int);
    lemma_chain_upper(0x253D3BEA3FBDBAint, 2, 0xEAC0C6E7DD2366C4int, 149, 64, 0xD744FCCAD69BE90Dint);
    lemma_chain_lower(0x253D3BEA3FBDCAint, 2, 0xEAC0C6E7DD24FA34int, 149, 64, 0xD744FCCAD69ECCF4int);
    assert(0xD744FCCAD69BE90Dint * 0xD744FCCAD69BE90Dint <= 0xB504F333F9DBDB82int * 0x10000000000000000int);
    assert(0xB504F333F9E0B7DEint * 0x10000000000000000int <= 0xD744FCCAD69ECCF4int * 0xD744FCCAD69ECCF4int);
    lemma_chain_upper(0x253D3BEA3FBDBAint, 3, 0xD744FCCAD69BE90Dint, 362, 64, 0xB504F333F9DBDB82int);
    lemma_chain_lower(0x253D3BEA3FBDCAint, 3, 0xD744FCCAD69ECCF4int, 362, 64, 0xB504F333F9E0B7DEint);
    assert(0xB504F333F9DBDB82int * 0xB504F333F9DBDB82int <= 0xFFFFFFFFFFF8D454int * 0x8000000000000000int);
    assert(0x100000000000693E7int * 0x8000000000000000int <= 0xB504F333F9E0B7DEint * 0xB504F333F9E0B7DEint);
    lemma_chain_upper(0x253D3BEA3FBDBAint, 4, 0xB504F333F9DBDB82int, 788, 63, 0xFFFFFFFFFFF8D454int);
    lemma_chain_lower(0x253D3BEA3FBDCAint, 4, 0xB504F333F9E0B7DEint, 788, 63, 0x100000000000693E7int);
    lemma_chains_round(0x3FE2_9E9D_F51F_DEE1u64, 7, 5, 8, 0x253D3BEA3FBDBAint, 0x253D3BEA3FBDCAint, 0xFFFFFFFFFFF8D454int, 0x100000000000693E7int, 1639, 64);
}

/// Boundary 9 of schema 5, checked through its squaring chains.
proof fn rounded_5_9()
    ensures
        near_root(0x3FE3_71A7_373A_A9CAu64, 9, 5),
{
    lemma2_to64();
    lemma2_to64_rest();
    lemma_chain_start(0x26E34E6E75538Cint);
    lemma_chain_start(0x26E34E6E75539Cint);
    assert(0x26E34E6E75538Cint * 0x26E34E6E75538Cint <= 0xBD08A39F580BDC48int * 0x80000000000int);
    assert(0xBD08A39F580C77D4int * 0x80000000000int <= 0x26E34E6E75539Cint * 0x26E34E6E75539Cint);
    lemma_chain_upper(0x26E34E6E75538Cint, 0, 0x26E34E6E75538Cint, 0, 43, 0xBD08A39F580BDC48int);
    lemma_chain_lower(0x26E34E6E75539Cint, 0, 0x26E34E6E75539Cint, 0, 43, 0xBD08A39F580C77D4int);
    assert(0xBD08A39F580BDC48int * 0xBD08A39F580BDC48int <= 0x8B95C1E3EA8B514Eint * 0x10000000000000000int);
    assert(0x8B95C1E3EA8C3704int * 0x10000000000000000int <= 0xBD08A39F580C77D4int * 0xBD08A39F580C77D4int);
    lemma_chain_upper(0x26E34E6E75538Cint, 1, 0xBD08A39F580BDC48int, 43, 64, 0x8B95C1E3EA8B514Eint);
    lemma_chain_lower(0x26E34E6E75539Cint, 1, 0xBD08A39F580C77D4int, 43, 64, 0x8B95C1E3EA8C3704int);
    assert(0x8B95C1E3EA8B514Eint * 0x8B95C1E3EA8B514Eint <= 0x9837F0518DB7860Fint * 0x8000000000000000int);
    assert(0x9837F0518DB97B0Fint * 0x8000000000000000int <= 0x8B95C1E3EA8C3704int * 0x8B95C1E3EA8C3704int);
    lemma_chain_upper(0x26E34E6E75538Cint, 2, 0x8B95C1E3EA8B514Eint, 150, 63, 0x9837F0518DB7860Fint);
    lemma_chain_lower(0x26E34E6E75539Cint, 2, 0x8B95C1E3EA8C3704int, 150, 63, 0x9837F0518DB97B0Fint);
    assert(0x9837F0518DB7860Fint * 0x9837F0518DB7860Fint <= 0xB504F333F9DBAF82int * 0x8000000000000000int);
    assert(0xB504F333F9E05716int * 0x8000000000000000int <= 0x9837F0518DB97B0Fint * 0x9837F0518DB97B0Fint);
    lemma_chain_upper(0x26E34E6E75538Cint, 3, 0x9837F0518DB7860Fint, 363, 63, 0xB504F333F9DBAF82int);
    lemma_chain_lower(0x26E34E6E75539Cint, 3, 0x9837F0518DB97B0Fint, 363, 63, 0xB504F333F9E05716int);
    assert(0xB504F333F9DBAF82int * 0xB504F333F9DBAF82int <= 0xFFFFFFFFFFF857E0int * 0x8000000000000000int);
    assert(0x1000000000005822Aint * 0x8000000000000000int <= 0xB504F333F9E05716int * 0xB504F333F9E05716int);
    lemma_chain_upper(0x26E34E6E75538Cint, 4, 0xB504F333F9DBAF82int, 789, 63, 0xFFFFFFFFFFF857E0int);
    lemma_chain_lower(0x26E34E6E75539Cint, 4, 0xB504F333F9E05716int, 789, 63, 0x1000000000005822Aint);
    lemma_chains_round(0x3FE3_71A7_373A_A9CAu64, 9, 5, 8, 0x26E34E6E75538Cint, 0x26E34E6E75539Cint, 0xFFFFFFFFFFF857E0int, 0x1000000000005822Aint, 1641, 64);
}

/// Boundary 11 of schema 5, checked through its squaring chains.
proof fn rounded_5_11()
    ensures
        near_root(0x3FE4_4E08_6061_892Du64, 11, 5),
{
    lemma2_to64();
    lemma2_to64_rest();
    lemma_chain_start(0x289C10C0C31252int);
    lemma_chain_start(0x289C10C0C31262int);
    assert(0x289C10C0C31252int * 0x289C10C0C31252int <= 0xCE248C151F842F6Eint * 0x80000000000int);
    assert(0xCE248C151F84D1DDint * 0x80000000000int <= 0x289C10C0C31262int * 0x289C10C0C31262int);
    lemma_chain_upper(0x289C10C0C31252int, 0, 0x289C10C0C31252int, 0, 43, 0xCE248C151F842F6Eint);
    lemma_chain_lower(0x289C10C0C31262int, 0, 0x289C10C0C31262int, 0, 43, 0xCE248C151F84D1DDint);
    assert(0xCE248C151F842F6Eint * 0xCE248C151F842F6Eint <= 0xA5FED6A9B150B5BAint * 0x10000000000000000int);
    assert(0xA5FED6A9B151BB52int * 0x10000000000000000int <= 0xCE248C151F84D1DDint * 0xCE248C151F84D1DDint);
    lemma_chain_upper(0x289C10C0C31252int, 1, 0xCE248C151F842F6Eint, 43, 64, 0xA5FED6A9B150B5BAint);
    lemma_chain_lower(0x289C10C0C31262int, 1, 0xCE248C151F84D1DDint, 43, 64, 0xA5FED6A9B151BB52int);
    assert(0xA5FED6A9B150B5BAint * 0xA5FED6A9B150B5BAint <= 0xD744FCCAD69C16B2int * 0x8000000000000000int);
    assert(0xD744FCCAD69EBD2Fint * 0x8000000000000000int <= 0xA5FED6A9B151BB52int * 0xA5FED6A9B151BB52int);
    lemma_chain_upper(0x289C10C0C31252int, 2, 0xA5FED6A9B150B5BAint, 150, 63, 0xD744FCCAD69C16B2int);
    lemma_chain_lower(0x289C10C0C31262int, 2, 0xA5FED6A9B151BB52int, 150, 63, 0xD744FCCAD69EBD2Fint);
    assert(0xD744FCCAD69C16B2int * 0xD744FCCAD69C16B2int <= 0xB504F333F9DC2846int * 0x10000000000000000int);
    assert(0xB504F333F9E09D59int * 0x10000000000000000int <= 0xD744FCCAD69EBD2Fint * 0xD744FCCAD69EBD2Fint);
    lemma_chain_upper(0x289C10C0C31252int, 3, 0xD744FCCAD69C16B2int, 363, 64, 0xB504F333F9DC2846int);
    lemma_chain_lower(0x289C10C0C31262int, 3, 0xD744FCCAD69EBD2Fint, 363, 64, 0xB504F333F9E09D59int);
    assert(0xB504F333F9DC2846int * 0xB504F333F9DC2846int <= 0xFFFFFFFFFFF9AD74int * 0x8000000000000000int);
    assert(0x100000000000648E5int * 0x8000000000000000int <= 0xB504F333F9E09D59int * 0xB504F333F9E09D59int);
    lemma_chain_upper(0x289C10C0C31252int, 4, 0xB504F333F9DC2846int, 790, 63, 0xFFFFFFFFFFF9AD74int);
    lemma_chain_lower(0x289C10C0C31262int, 4, 0xB504F333F9E09D59int, 790, 63, 0x100000000000648E5int);
    lemma_chains_round(0x3FE4_4E08_6061_892Du64, 11, 5, 8, 0x289C10C0C31252int, 0x289C10C0C31262int, 0xFFFFFFFFFFF9AD74int, 0x100000000000648E5int, 1643, 64);
}

/// Boundary 13 of schema 5, checked through its squaring chains.
proof fn rounded_5_13()
    ensures
        near_root(0x3FE5_342B_569D_4F81u64, 13, 5),
{
    lemma2_to64();
    lemma2_to64_rest();
    lemma_chain_start(0x2A6856AD3A9EFAint);
    lemma_chain_start(0x2A6856AD3A9F0Aint);
    assert(0x2A6856AD3A9EFAint * 0x2A6856AD3A9EFAint <= 0xE0CCDEEC2A9479C8int * 0x80000000000int);
    assert(0xE0CCDEEC2A952368int * 0x80000000000int <= 0x2A6856AD3A9F0Aint * 0x2A6856AD3A9F0Aint);
    lemma_chain_upper(0x2A6856AD3A9EFAint, 0, 0x2A6856AD3A9EFAint, 0, 43, 0xE0CCDEEC2A9479C8int);
    lemma_chain_lower(0x2A6856AD3A9F0Aint, 0, 0x2A6856AD3A9F0Aint, 0, 43, 0xE0CCDEEC2A952368int);
    assert(0xE0CCDEEC2A9479C8int * 0xE0CCDEEC2A9479C8int <= 0xC5672A1155062579int * 0x10000000000000000int);
    assert(0xC5672A1155074F5Fint * 0x10000000000000000int <= 0xE0CCDEEC2A952368int * 0xE0CCDEEC2A952368int);
    lemma_chain_upper(0x2A6856AD3A9EFAint, 1, 0xE0CCDEEC2A9479C8int, 43, 64, 0xC5672A1155062579int);
    lemma_chain_lower(0x2A6856AD3A9F0Aint, 1, 0xE0CCDEEC2A952368int, 43, 64, 0xC5672A1155074F5Fint);
    assert(0xC5672A1155062579int * 0xC5672A1155062579int <= 0x9837F0518DB791B1int * 0x10000000000000000int);
    assert(0x9837F0518DB95D1Cint * 0x10000000000000000int <= 0xC5672A1155074F5Fint * 0xC5672A1155074F5Fint);
    lemma_chain_upper(0x2A6856AD3A9EFAint, 2, 0xC5672A1155062579int, 150, 64, 0x9837F0518DB791B1int);
    lemma_chain_lower(0x2A6856AD3A9F0Aint, 2, 0xC5672A1155074F5Fint, 150, 64, 0x9837F0518DB95D1Cint);
    assert(0x9837F0518DB791B1int * 0x9837F0518DB791B1int <= 0xB504F333F9DBCB2Cint * 0x8000000000000000int);
    assert(0xB504F333F9E00FDBint * 0x8000000000000000int <= 0x9837F0518DB95D1Cint * 0x9837F0518DB95D1Cint);
    lemma_chain_upper(0x2A6856AD3A9EFAint, 3, 0x9837F0518DB791B1int, 364, 63, 0xB504F333F9DBCB2Cint);
    lemma_chain_lower(0x2A6856AD3A9F0Aint, 3, 0x9837F0518DB95D1Cint, 364, 63, 0xB504F333F9E00FDBint);
    assert(0xB504F333F9DBCB2Cint * 0xB504F333F9DBCB2Cint <= 0xFFFFFFFFFFF8A61Fint * 0x8000000000000000int);
    assert(0x1000000000004B8B2int * 0x8000000000000000int <= 0xB504F333F9E00FDBint * 0xB504F333F9E00FDBint);
    lemma_chain_upper(0x2A6856AD3A9EFAint, 4, 0xB504F333F9DBCB2Cint, 791, 63, 0xFFFFFFFFFFF8A61Fint);
    lemma_chain_lower(0x2A6856AD3A9F0Aint, 4, 0xB504F333F9E00FDBint, 791, 63, 0x1000000000004B8B2int);
    lemma_chains_round(0x3FE5_342B_569D_4F81u64, 13, 5, 8, 0x2A6856AD3A9EFAint, 0x2A6856AD3A9F0Aint, 0xFFFFFFFFFFF8A61Fint, 0x1000000000004B8B2int, 1645, 64);
}

/// Boundary 15 of schema 5, checked through its squaring chains.
proof fn rounded_5_15()
    ensures
        near_root(0x3FE6_247E_B03A_5584u64, 15, 5),
{
    lemma2_to64();
    lemma2_to64_rest();
    lemma_chain_start(0x2C48FD6074AB00int);
    lemma_chain_start(0x2C48FD6074AB10int);
    assert(0x2C48FD6074AB00int * 0x2C48FD6074AB00int <= 0xF5257D1524866437int * 0x80000000000int);
    assert(0xF5257D152487155Aint * 0x80000000000int <= 0x2C48FD6074AB10int * 0x2C48FD6074AB10int);
    lemma_chain_upper(0x2C48FD6074AB00int, 0, 0x2C48FD6074AB00int, 0, 43, 0xF5257D1524866437int);
    lemma_chain_lower(0x2C48FD6074AB10int, 0, 0x2C48FD6074AB10int, 0, 43, 0xF5257D152487155Aint);
    assert(0xF5257D1524866437int * 0xF5257D1524866437int <= 0xEAC0C6E7DD237215int * 0x10000000000000000int);
    assert(0xEAC0C6E7DD24C555int * 0x10000000000000000int <= 0xF5257D152487155Aint * 0xF5257D152487155Aint);
    lemma_chain_upper(0x2C48FD6074AB00int, 1, 0xF5257D1524866437int, 43, 64, 0xEAC0C6E7DD237215int);
    lemma_chain_lower(0x2C48FD6074AB10int, 1, 0xF5257D152487155Aint, 43, 64, 0xEAC0C6E7DD24C555int);
    assert(0xEAC0C6E7DD237215int * 0xEAC0C6E7DD237215int <= 0xD744FCCAD69BFDCEint * 0x10000000000000000int);
    assert(0xD744FCCAD69E6BFDint * 0x10000000000000000int <= 0xEAC0C6E7DD24C555int * 0xEAC0C6E7DD24C555int);
    lemma_chain_upper(0x2C48FD6074AB00int, 2, 0xEAC0C6E7DD237215int, 150, 64, 0xD744FCCAD69BFDCEint);
    lemma_chain_lower(0x2C48FD6074AB10int, 2, 0xEAC0C6E7DD24C555int, 150, 64, 0xD744FCCAD69E6BFDint);
    assert(0xD744FCCAD69BFDCEint * 0xD744FCCAD69BFDCEint <= 0xB504F333F9DBFE6Aint * 0x10000000000000000int);
    assert(0xB504F333F9E014CBint * 0x10000000000000000int <= 0xD744FCCAD69E6BFDint * 0xD744FCCAD69E6BFDint);
    lemma_chain_upper(0x2C48FD6074AB00int, 3, 0xD744FCCAD69BFDCEint, 364, 64, 0xB504F333F9DBFE6Aint);
    lemma_chain_lower(0x2C48FD6074AB10int, 3, 0xD744FCCAD69E6BFDint, 364, 64, 0xB504F333F9E014CBint);
    assert(0xB504F333F9DBFE6Aint * 0xB504F333F9DBFE6Aint <= 0xFFFFFFFFFFF9370Eint * 0x8000000000000000int);
    assert(0x1000000000004C6A9int * 0x8000000000000000int <= 0xB504F333F9E014CBint * 0xB504F333F9E014CBint);
    lemma_chain_upper(0x2C48FD6074AB00int, 4, 0xB504F333F9DBFE6Aint, 792, 63, 0xFFFFFFFFFFF9370Eint);
    lemma_chain_lower(0x2C48FD6074AB10int, 4, 0xB504F333F9E014CBint, 792, 63, 0x1000000000004C6A9int);
    lemma_chains_round(0x3FE6_247E_B03A_5584u64, 15, 5, 8, 0x2C48FD6074AB00int, 0x2C48FD6074AB10int, 0xFFFFFFFFFFF9370Eint, 0x1000000000004C6A9int, 1647, 64);
}

/// Boundary 17 of schema 5, checked through its squaring chains.
proof fn rounded_5_17()
    ensures
        near_root(0x3FE7_1F75_E8EC_5F73u64, 17, 5),
{
    lemma2_to64();
    lemma2_to64_rest();
    lemma_chain_start(0x2E3EEBD1D8BEDEint);
    lemma_chain_start(0x2E3EEBD1D8BEEEint);
    assert(0x2E3EEBD1D8BEDEint * 0x2E3EEBD1D8BEDEint <= 0x85AAC367CC4842DAint * 0x100000000000int);
    assert(0x85AAC367CC489F57int * 0x100000000000int <= 0x2E3EEBD1D8BEEEint * 0x2E3EEBD1D8BEEEint);
    lemma_chain_upper(0x2E3EEBD1D8BEDEint, 0, 0x2E3EEBD1D8BEDEint, 0, 44, 0x85AAC367CC4842DAint);
    lemma_chain_lower(0x2E3EEBD1D8BEEEint, 0, 0x2E3EEBD1D8BEEEint, 0, 44, 0x85AAC367CC489F57int);
    assert(0x85AAC367CC4842DAint * 0x85AAC367CC4842DAint <= 0x8B95C1E3EA8B6177int * 0x8000000000000000int);
    assert(0x8B95C1E3EA8C22A1int * 0x8000000000000000int <= 0x85AAC367CC489F57int * 0x85AAC367CC489F57int);
    lemma_chain_upper(0x2E3EEBD1D8BEDEint, 1, 0x85AAC367CC4842DAint, 44, 63, 0x8B95C1E3EA8B6177int);
    lemma_chain_lower(0x2E3EEBD1D8BEEEint, 1, 0x85AAC367CC489F57int, 44, 63, 0x8B95C1E3EA8C22A1int);
    assert(0x8B95C1E3EA8B6177int * 0x8B95C1E3EA8B6177int <= 0x9837F0518DB7A94Eint * 0x8000000000000000int);
    assert(0x9837F0518DB94E98int * 0x8000000000000000int <= 0x8B95C1E3EA8C22A1int * 0x8B95C1E3EA8C22A1int);
    lemma_chain_upper(0x2E3EEBD1D8BEDEint, 2, 0x8B95C1E3EA8B6177int, 151, 63, 0x9837F0518DB7A94Eint);
    lemma_chain_lower(0x2E3EEBD1D8BEEEint, 2, 0x8B95C1E3EA8C22A1int, 151, 63, 0x9837F0518DB94E98int);
    assert(0x9837F0518DB7A94Eint * 0x9837F0518DB7A94Eint <= 0xB504F333F9DC0356int * 0x8000000000000000int);
    assert(0xB504F333F9DFED55int * 0x8000000000000000int <= 0x9837F0518DB94E98int * 0x9837F0518DB94E98int);
    lemma_chain_upper(0x2E3EEBD1D8BEDEint, 3, 0x9837F0518DB7A94Eint, 365, 63, 0xB504F333F9DC0356int);
    lemma_chain_lower(0x2E3EEBD1D8BEEEint, 3, 0x9837F0518DB94E98int, 365, 63, 0xB504F333F9DFED55int);
    assert(0xB504F333F9DC0356int * 0xB504F333F9DC0356int <= 0xFFFFFFFFFFF944FAint * 0x8000000000000000int);
    assert(0x1000000000004570Cint * 0x8000000000000000int <= 0xB504F333F9DFED55int * 0xB504F333F9DFED55int);
    lemma_chain_upper(0x2E3EEBD1D8BEDEint, 4, 0xB504F333F9DC0356int, 793, 63, 0xFFFFFFFFFFF944FAint);
    lemma_chain_lower(0x2E3EEBD1D8BEEEint, 4, 0xB504F333F9DFED55int, 793, 63, 0x1000000000004570Cint);
    lemma_chains_round(0x3FE7_1F75_E8EC_5F73u64, 17, 5, 8, 0x2E3EEBD1D8BEDEint, 0x2E3EEBD1D8BEEEint, 0xFFFFFFFFFFF944FAint, 0x1000000000004570Cint, 1649, 64);
}

/// Boundary 19 of schema 5, checked through its squaring chains.
proof fn rounded_5_19()
    ensures
        near_root(0x3FE8_2589_994C_CE11u64, 19, 5),
{
    lemma2_to64();
    lemma2_to64_rest();
    lemma_chain_start(0x304B1332999C1Aint);
    lemma_chain_start(0x304B1332999C2Aint);
    assert(0x304B1332999C1Aint * 0x304B1332999C1Aint <= 0x91C3D373AB11804Dint * 0x100000000000int);
    assert(0x91C3D373AB11E0E2int * 0x100000000000int <= 0x304B1332999C2Aint * 0x304B1332999C2Aint);
    lemma_chain_upper(0x304B1332999C1Aint, 0, 0x304B1332999C1Aint, 0, 44, 0x91C3D373AB11804Dint);
    lemma_chain_lower(0x304B1332999C2Aint, 0, 0x304B1332999C2Aint, 0, 44, 0x91C3D373AB11E0E2int);
    assert(0x91C3D373AB11804Dint * 0x91C3D373AB11804Dint <= 0xA5FED6A9B150A086int * 0x8000000000000000int);
    assert(0xA5FED6A9B1517C7Eint * 0x8000000000000000int <= 0x91C3D373AB11E0E2int * 0x91C3D373AB11E0E2int);
    lemma_chain_upper(0x304B1332999C1Aint, 1, 0x91C3D373AB11804Dint, 44, 63, 0xA5FED6A9B150A086int);
    lemma_chain_lower(0x304B1332999C2Aint, 1, 0x91C3D373AB11E0E2int, 44, 63, 0xA5FED6A9B1517C7Eint);
    assert(0xA5FED6A9B150A086int * 0xA5FED6A9B150A086int <= 0xD744FCCAD69BDFB4int * 0x8000000000000000int);
    assert(0xD744FCCAD69E1A3Aint * 0x8000000000000000int <= 0xA5FED6A9B1517C7Eint * 0xA5FED6A9B1517C7Eint);
    lemma_chain_upper(0x304B1332999C1Aint, 2, 0xA5FED6A9B150A086int, 151, 63, 0xD744FCCAD69BDFB4int);
    lemma_chain_lower(0x304B1332999C2Aint, 2, 0xA5FED6A9B1517C7Eint, 151, 63, 0xD744FCCAD69E1A3Aint);
    assert(0xD744FCCAD69BDFB4int * 0xD744FCCAD69BDFB4int <= 0xB504F333F9DBCBCAint * 0x10000000000000000int);
    assert(0xB504F333F9DF8B4Aint * 0x10000000000000000int <= 0xD744FCCAD69E1A3Aint * 0xD744FCCAD69E1A3Aint);
    lemma_chain_upper(0x304B1332999C1Aint, 3, 0xD744FCCAD69BDFB4int, 365, 64, 0xB504F333F9DBCBCAint);
    lemma_chain_lower(0x304B1332999C2Aint, 3, 0xD744FCCAD69E1A3Aint, 365, 64, 0xB504F333F9DF8B4Aint);
    assert(0xB504F333F9DBCBCAint * 0xB504F333F9DBCBCAint <= 0xFFFFFFFFFFF8A7DEint * 0x8000000000000000int);
    assert(0x100000000000341BDint * 0x8000000000000000int <= 0xB504F333F9DF8B4Aint * 0xB504F333F9DF8B4Aint);
    lemma_chain_upper(0x304B1332999C1Aint, 4, 0xB504F333F9DBCBCAint, 794, 63, 0xFFFFFFFFFFF8A7DEint);
    lemma_chain_lower(0x304B1332999C2Aint, 4, 0xB504F333F9DF8B4Aint, 794, 63, 0x100000000000341BDint);
    lemma_chains_round(0x3FE8_2589_994C_CE11u64, 19, 5, 8, 0x304B1332999C1Aint, 0x304B1332999C2Aint, 0xFFFFFFFFFFF8A7DEint, 0x100000000000341BDint, 1651, 64);
}

/// Boundary 21 of schema 5, checked through its squaring chains.
proof fn rounded_5_21()
    ensures
        near_root(0x3FE9_3737_B0CD_C5E4u64, 21, 5),
{
    lemma2_to64();
    lemma2_to64_rest();
    lemma_chain_start(0x326E6F619B8BC0int);
    lemma_chain_start(0x326E6F619B8BD0int);
    assert(0x326E6F619B8BC0int * 0x326E6F619B8BC0int <= 0x9EF5326091A0D337int * 0x100000000000int);
    assert(0x9EF5326091A13813int * 0x100000000000int <= 0x326E6F619B8BD0int * 0x326E6F619B8BD0int);
    lemma_chain_upper(0x326E6F619B8BC0int, 0, 0x326E6F619B8BC0int, 0, 44, 0x9EF5326091A0D337int);
    lemma_chain_lower(0x326E6F619B8BD0int, 0, 0x326E6F619B8BD0int, 0, 44, 0x9EF5326091A13813int);
    assert(0x9EF5326091A0D337int * 0x9EF5326091A0D337int <= 0xC5672A1155063FBAint * 0x8000000000000000int);
    assert(0xC5672A1155073A3Aint * 0x8000000000000000int <= 0x9EF5326091A13813int * 0x9EF5326091A13813int);
    lemma_chain_upper(0x326E6F619B8BC0int, 1, 0x9EF5326091A0D337int, 44, 63, 0xC5672A1155063FBAint);
    lemma_chain_lower(0x326E6F619B8BD0int, 1, 0x9EF5326091A13813int, 44, 63, 0xC5672A1155073A3Aint);
    assert(0xC5672A1155063FBAint * 0xC5672A1155063FBAint <= 0x9837F0518DB7BA2Eint * 0x10000000000000000int);
    assert(0x9837F0518DB93C80int * 0x10000000000000000int <= 0xC5672A1155073A3Aint * 0xC5672A1155073A3Aint);
    lemma_chain_upper(0x326E6F619B8BC0int, 2, 0xC5672A1155063FBAint, 151, 64, 0x9837F0518DB7BA2Eint);
    lemma_chain_lower(0x326E6F619B8BD0int, 2, 0xC5672A1155073A3Aint, 151, 64, 0x9837F0518DB93C80int);
    assert(0x9837F0518DB7BA2Eint * 0x9837F0518DB7BA2Eint <= 0xB504F333F9DC2B79int * 0x8000000000000000int);
    assert(0xB504F333F9DFC24Cint * 0x8000000000000000int <= 0x9837F0518DB93C80int * 0x9837F0518DB93C80int);
    lemma_chain_upper(0x326E6F619B8BC0int, 3, 0x9837F0518DB7BA2Eint, 366, 63, 0xB504F333F9DC2B79int);
    lemma_chain_lower(0x326E6F619B8BD0int, 3, 0x9837F0518DB93C80int, 366, 63, 0xB504F333F9DFC24Cint);
    assert(0xB504F333F9DC2B79int * 0xB504F333F9DC2B79int <= 0xFFFFFFFFFFF9B680int * 0x8000000000000000int);
    assert(0x1000000000003DD53int * 0x8000000000000000int <= 0xB504F333F9DFC24Cint * 0xB504F333F9DFC24Cint);
    lemma_chain_upper(0x326E6F619B8BC0int, 4, 0xB504F333F9DC2B79int, 795, 63, 0xFFFFFFFFFFF9B680int);
    lemma_chain_lower(0x326E6F619B8BD0int, 4, 0xB504F333F9DFC24Cint, 795, 63, 0x1000000000003DD53int);
    lemma_chains_round(0x3FE9_3737_B0CD_C5E4u64, 21, 5, 8, 0x326E6F619B8BC0int, 0x326E6F619B8BD0int, 0xFFFFFFFFFFF9B680int, 0x1000000000003DD53int, 1653, 64);
}

/// Boundary 23 of schema 5, checked through its squaring chains.
proof fn rounded_5_23()
    ensures
        near_root(0x3FEA_5503_B23E_255Bu64, 23, 5),
{
    lemma2_to64();
    lemma2_to64_rest();
    lemma_chain_start(0x34AA07647C4AAEint);
    lemma_chain_start(0x34AA07647C4ABEint);
    assert(0x34AA07647C4AAEint * 0x34AA07647C4AAEint <= 0xAD583EEA42A101C9int * 0x100000000000int);
    assert(0xAD583EEA42A16B1Cint * 0x100000000000int <= 0x34AA07647C4ABEint * 0x34AA07647C4ABEint);
    lemma_chain_upper(0x34AA07647C4AAEint, 0, 0x34AA07647C4AAEint, 0, 44, 0xAD583EEA42A101C9int);
    lemma_chain_lower(0x34AA07647C4ABEint, 0, 0x34AA07647C4ABEint, 0, 44, 0xAD583EEA42A16B1Cint);
    assert(0xAD583EEA42A101C9int * 0xAD583EEA42A101C9int <= 0xEAC0C6E7DD23737Eint * 0x8000000000000000int);
    assert(0xEAC0C6E7DD2490C3int * 0x8000000000000000int <= 0xAD583EEA42A16B1Cint * 0xAD583EEA42A16B1Cint);
    lemma_chain_upper(0x34AA07647C4AAEint, 1, 0xAD583EEA42A101C9int, 44, 63, 0xEAC0C6E7DD23737Eint);
    lemma_chain_lower(0x34AA07647C4ABEint, 1, 0xAD583EEA42A16B1Cint, 44, 63, 0xEAC0C6E7DD2490C3int);
    assert(0xEAC0C6E7DD23737Eint * 0xEAC0C6E7DD23737Eint <= 0xD744FCCAD69C0064int * 0x10000000000000000int);
    assert(0xD744FCCAD69E0B93int * 0x10000000000000000int <= 0xEAC0C6E7DD2490C3int * 0xEAC0C6E7DD2490C3int);
    lemma_chain_upper(0x34AA07647C4AAEint, 2, 0xEAC0C6E7DD23737Eint, 151, 64, 0xD744FCCAD69C0064int);
    lemma_chain_lower(0x34AA07647C4ABEint, 2, 0xEAC0C6E7DD2490C3int, 151, 64, 0xD744FCCAD69E0B93int);
    assert(0xD744FCCAD69C0064int * 0xD744FCCAD69C0064int <= 0xB504F333F9DC02C3int * 0x10000000000000000int);
    assert(0xB504F333F9DF72A5int * 0x10000000000000000int <= 0xD744FCCAD69E0B93int * 0xD744FCCAD69E0B93int);
    lemma_chain_upper(0x34AA07647C4AAEint, 3, 0xD744FCCAD69C0064int, 366, 64, 0xB504F333F9DC02C3int);
    lemma_chain_lower(0x34AA07647C4ABEint, 3, 0xD744FCCAD69E0B93int, 366, 64, 0xB504F333F9DF72A5int);
    assert(0xB504F333F9DC02C3int * 0xB504F333F9DC02C3int <= 0xFFFFFFFFFFF9435Bint * 0x8000000000000000int);
    assert(0x1000000000002FC09int * 0x8000000000000000int <= 0xB504F333F9DF72A5int * 0xB504F333F9DF72A5int);
    lemma_chain_upper(0x34AA07647C4AAEint, 4, 0xB504F333F9DC02C3int, 796, 63, 0xFFFFFFFFFFF9435Bint);
    lemma_chain_lower(0x34AA07647C4ABEint, 4, 0xB504F333F9DF72A5int, 796, 63, 0x1000000000002FC09int);
    lemma_chains_round(0x3FEA_5503_B23E_255Bu64, 23, 5, 8, 0x34AA07647C4AAEint, 0x34AA07647C4ABEint, 0xFFFFFFFFFFF9435Bint, 0x1000000000002FC09int, 1655, 64);
}

/// Boundary 25 of schema 5, checked through its squaring chains.
proof fn rounded_5_25()
    ensures
        near_root(0x3FEB_7F76_F2FB_5E45u64, 25, 5),
{
    lemma2_to64();
    lemma2_to64_rest();
    lemma_chain_start(0x36FEEDE5F6BC82int);
    lemma_chain_start(0x36FEEDE5F6BC92int);
    assert(0x36FEEDE5F6BC82int * 0x36FEEDE5F6BC82int <= 0xBD08A39F580BE566int * 0x100000000000int);
    assert(0xBD08A39F580C5363int * 0x100000000000int <= 0x36FEEDE5F6BC92int * 0x36FEEDE5F6BC92int);
    lemma_chain_upper(0x36FEEDE5F6BC82int, 0, 0x36FEEDE5F6BC82int, 0, 44, 0xBD08A39F580BE566int);
    lemma_chain_lower(0x36FEEDE5F6BC92int, 0, 0x36FEEDE5F6BC92int, 0, 44, 0xBD08A39F580C5363int);
    assert(0xBD08A39F580BE566int * 0xBD08A39F580BE566int <= 0x8B95C1E3EA8B5EC5int * 0x10000000000000000int);
    assert(0x8B95C1E3EA8C0133int * 0x10000000000000000int <= 0xBD08A39F580C5363int * 0xBD08A39F580C5363int);
    lemma_chain_upper(0x36FEEDE5F6BC82int, 1, 0xBD08A39F580BE566int, 44, 64, 0x8B95C1E3EA8B5EC5int);
    lemma_chain_lower(0x36FEEDE5F6BC92int, 1, 0xBD08A39F580C5363int, 44, 64, 0x8B95C1E3EA8C0133int);
    assert(0x8B95C1E3EA8B5EC5int * 0x8B95C1E3EA8B5EC5int <= 0x9837F0518DB7A36Dint * 0x8000000000000000int);
    assert(0x9837F0518DB905AFint * 0x8000000000000000int <= 0x8B95C1E3EA8C0133int * 0x8B95C1E3EA8C0133int);
    lemma_chain_upper(0x36FEEDE5F6BC82int, 2, 0x8B95C1E3EA8B5EC5int, 152, 63, 0x9837F0518DB7A36Dint);
    lemma_chain_lower(0x36FEEDE5F6BC92int, 2, 0x8B95C1E3EA8C0133int, 152, 63, 0x9837F0518DB905AFint);
    assert(0x9837F0518DB7A36Dint * 0x9837F0518DB7A36Dint <= 0xB504F333F9DBF55Aint * 0x8000000000000000int);
    assert(0xB504F333F9DF3FECint * 0x8000000000000000int <= 0x9837F0518DB905AFint * 0x9837F0518DB905AFint);
    lemma_chain_upper(0x36FEEDE5F6BC82int, 3, 0x9837F0518DB7A36Dint, 367, 63, 0xB504F333F9DBF55Aint);
    lemma_chain_lower(0x36FEEDE5F6BC92int, 3, 0x9837F0518DB905AFint, 367, 63, 0xB504F333F9DF3FECint);
    assert(0xB504F333F9DBF55Aint * 0xB504F333F9DBF55Aint <= 0xFFFFFFFFFFF91D6Dint * 0x8000000000000000int);
    assert(0x10000000000026C92int * 0x8000000000000000int <= 0xB504F333F9DF3FECint * 0xB504F333F9DF3FECint);
    lemma_chain_upper(0x36FEEDE5F6BC82int, 4, 0xB504F333F9DBF55Aint, 797, 63, 0xFFFFFFFFFFF91D6Dint);
    lemma_chain_lower(0x36FEEDE5F6BC92int, 4, 0xB504F333F9DF3FECint, 797, 63, 0x10000000000026C92int);
    lemma_chains_round(0x3FEB_7F76_F2FB_5E45u64, 25, 5, 8, 0x36FEEDE5F6BC82int, 0x36FEEDE5F6BC92int, 0xFFFFFFFFFFF91D6Dint, 0x10000000000026C92int, 1657, 64);
}

/// Boundary 27 of schema 5, checked through its squaring chains.
proof fn rounded_5_27()
    ensures
        near_root(0x3FEC_B720_DCEF_9066u64, 27, 5),
{
    lemma2_to64();
    lemma2_to64_rest();
    lemma_chain_start(0x396E41B9DF20C4int);
    lemma_chain_start(0x396E41B9DF20D4int);
    assert(0x396E41B9DF20C4int * 0x396E41B9DF20C4int <= 0xCE248C151F841B36int * 0x100000000000int);
    assert(0xCE248C151F848E11int * 0x100000000000int <= 0x396E41B9DF20D4int * 0x396E41B9DF20D4int);
    lemma_chain_upper(0x396E41B9DF20C4int, 0, 0x396E41B9DF20C4int, 0, 44, 0xCE248C151F841B36int);
    lemma_chain_lower(0x396E41B9DF20D4int, 0, 0x396E41B9DF20D4int, 0, 44, 0xCE248C151F848E11int);
    assert(0xCE248C151F841B36int * 0xCE248C151F841B36int <= 0xA5FED6A9B150952Aint * 0x10000000000000000int);
    assert(0xA5FED6A9B1514E22int * 0x10000000000000000int <= 0xCE248C151F848E11int * 0xCE248C151F848E11int);
    lemma_chain_upper(0x396E41B9DF20C4int, 1, 0xCE248C151F841B36int, 44, 64, 0xA5FED6A9B150952Aint);
    lemma_chain_lower(0x396E41B9DF20D4int, 1, 0xCE248C151F848E11int, 44, 64, 0xA5FED6A9B1514E22int);
    assert(0xA5FED6A9B150952Aint * 0xA5FED6A9B150952Aint <= 0xD744FCCAD69BC23Dint * 0x8000000000000000int);
    assert(0xD744FCCAD69DA1FCint * 0x8000000000000000int <= 0xA5FED6A9B1514E22int * 0xA5FED6A9B1514E22int);
    lemma_chain_upper(0x396E41B9DF20C4int, 2, 0xA5FED6A9B150952Aint, 152, 63, 0xD744FCCAD69BC23Dint);
    lemma_chain_lower(0x396E41B9DF20D4int, 2, 0xA5FED6A9B1514E22int, 152, 63, 0xD744FCCAD69DA1FCint);
    assert(0xD744FCCAD69BC23Dint * 0xD744FCCAD69BC23Dint <= 0xB504F333F9DB9A3Cint * 0x10000000000000000int);
    assert(0xB504F333F9DEC111int * 0x10000000000000000int <= 0xD744FCCAD69DA1FCint * 0xD744FCCAD69DA1FCint);
    lemma_chain_upper(0x396E41B9DF20C4int, 3, 0xD744FCCAD69BC23Dint, 367, 64, 0xB504F333F9DB9A3Cint);
    lemma_chain_lower(0x396E41B9DF20D4int, 3, 0xD744FCCAD69DA1FCint, 367, 64, 0xB504F333F9DEC111int);
    assert(0xB504F333F9DB9A3Cint * 0xB504F333F9DB9A3Cint <= 0xFFFFFFFFFFF81BB5int * 0x8000000000000000int);
    assert(0x100000000000105C4int * 0x8000000000000000int <= 0xB504F333F9DEC111int * 0xB504F333F9DEC111int);
    lemma_chain_upper(0x396E41B9DF20C4int, 4, 0xB504F333F9DB9A3Cint, 798, 63, 0xFFFFFFFFFFF81BB5int);
    lemma_chain_lower(0x396E41B9DF20D4int, 4, 0xB504F333F9DEC111int, 798, 63, 0x100000000000105C4int);
    lemma_chains_round(0x3FEC_B720_DCEF_9066u64, 27, 5, 8, 0x396E41B9DF20C4int, 0x396E41B9DF20D4int, 0xFFFFFFFFFFF81BB5int, 0x100000000000105C4int, 1659, 64);
}

/// Boundary 29 of schema 5, checked through its squaring chains.
proof fn rounded_5_29()
    ensures
        near_root(0x3FED_FC97_337B_9B5Du64, 29, 5),
{
    lemma2_to64();
    lemma2_to64_rest();
    lemma_chain_start(0x3BF92E66F736B2int);
    lemma_chain_start(0x3BF92E66F736C2int);
    assert(0x3BF92E66F736B2int * 0x3BF92E66F736B2int <= 0xE0CCDEEC2A948B3Eint * 0x100000000000int);
    assert(0xE0CCDEEC2A950330int * 0x100000000000int <= 0x3BF92E66F736C2int * 0x3BF92E66F736C2int);
    lemma_chain_upper(0x3BF92E66F736B2int, 0, 0x3BF92E66F736B2int, 0, 44, 0xE0CCDEEC2A948B3Eint);
    lemma_chain_lower(0x3BF92E66F736C2int, 0, 0x3BF92E66F736C2int, 0, 44, 0xE0CCDEEC2A950330int);
    assert(0xE0CCDEEC2A948B3Eint * 0xE0CCDEEC2A948B3Eint <= 0xC5672A1155064423int * 0x10000000000000000int);
    assert(0xC5672A11550716CAint * 0x10000000000000000int <= 0xE0CCDEEC2A950330int * 0xE0CCDEEC2A950330int);
    lemma_chain_upper(0x3BF92E66F736B2int, 1, 0xE0CCDEEC2A948B3Eint, 44, 64, 0xC5672A1155064423int);
    lemma_chain_lower(0x3BF92E66F736C2int, 1, 0xE0CCDEEC2A950330int, 44, 64, 0xC5672A11550716CAint);
    assert(0xC5672A1155064423int * 0xC5672A1155064423int <= 0x9837F0518DB7C0FCint * 0x10000000000000000int);
    assert(0x9837F0518DB905D9int * 0x10000000000000000int <= 0xC5672A11550716CAint * 0xC5672A11550716CAint);
    lemma_chain_upper(0x3BF92E66F736B2int, 2, 0xC5672A1155064423int, 152, 64, 0x9837F0518DB7C0FCint);
    lemma_chain_lower(0x3BF92E66F736C2int, 2, 0xC5672A11550716CAint, 152, 64, 0x9837F0518DB905D9int);
    assert(0x9837F0518DB7C0FCint * 0x9837F0518DB7C0FCint <= 0xB504F333F9DC3BA8int * 0x8000000000000000int);
    assert(0xB504F333F9DF4050int * 0x8000000000000000int <= 0x9837F0518DB905D9int * 0x9837F0518DB905D9int);
    lemma_chain_upper(0x3BF92E66F736B2int, 3, 0x9837F0518DB7C0FCint, 368, 63, 0xB504F333F9DC3BA8int);
    lemma_chain_lower(0x3BF92E66F736C2int, 3, 0x9837F0518DB905D9int, 368, 63, 0xB504F333F9DF4050int);
    assert(0xB504F333F9DC3BA8int * 0xB504F333F9DC3BA8int <= 0xFFFFFFFFFFF9E447int * 0x8000000000000000int);
    assert(0x10000000000026DACint * 0x8000000000000000int <= 0xB504F333F9DF4050int * 0xB504F333F9DF4050int);
    lemma_chain_upper(0x3BF92E66F736B2int, 4, 0xB504F333F9DC3BA8int, 799, 63, 0xFFFFFFFFFFF9E447int);
    lemma_chain_lower(0x3BF92E66F736C2int, 4, 0xB504F333F9DF4050int, 799, 63, 0x10000000000026DACint);
    lemma_chains_round(0x3FED_FC97_337B_9B5Du64, 29, 5, 8, 0x3BF92E66F736B2int, 0x3BF92E66F736C2int, 0xFFFFFFFFFFF9E447int, 0x10000000000026DACint, 1661, 64);
}

/// Boundary 31 of schema 5, checked through its squaring chains.
proof fn rounded_5_31()
    ensures
        near_root(0x3FEF_5076_5B6E_453Eu64, 31, 5),
{
    lemma2_to64();
    lemma2_to64_rest();
    lemma_chain_start(0x3EA0ECB6DC8A74int);
    lemma_chain_start(0x3EA0ECB6DC8A84int);
    assert(0x3EA0ECB6DC8A74int * 0x3EA0ECB6DC8A74int <= 0xF5257D15248667EAint * 0x100000000000int);
    assert(0xF5257D152486E52Bint * 0x100000000000int <= 0x3EA0ECB6DC8A84int * 0x3EA0ECB6DC8A84int);
    lemma_chain_upper(0x3EA0ECB6DC8A74int, 0, 0x3EA0ECB6DC8A74int, 0, 44, 0xF5257D15248667EAint);
    lemma_chain_lower(0x3EA0ECB6DC8A84int, 0, 0x3EA0ECB6DC8A84int, 0, 44, 0xF5257D152486E52Bint);
    assert(0xF5257D15248667EAint * 0xF5257D15248667EAint <= 0xEAC0C6E7DD23792Bint * 0x10000000000000000int);
    assert(0xEAC0C6E7DD24690Dint * 0x10000000000000000int <= 0xF5257D152486E52Bint * 0xF5257D152486E52Bint);
    lemma_chain_upper(0x3EA0ECB6DC8A74int, 1, 0xF5257D15248667EAint, 44, 64, 0xEAC0C6E7DD23792Bint);
    lemma_chain_lower(0x3EA0ECB6DC8A84int, 1, 0xF5257D152486E52Bint, 44, 64, 0xEAC0C6E7DD24690Dint);
    assert(0xEAC0C6E7DD23792Bint * 0xEAC0C6E7DD23792Bint <= 0xD744FCCAD69C0ACDint * 0x10000000000000000int);
    assert(0xD744FCCAD69DC2BEint * 0x10000000000000000int <= 0xEAC0C6E7DD24690Dint * 0xEAC0C6E7DD24690Dint);
    lemma_chain_upper(0x3EA0ECB6DC8A74int, 2, 0xEAC0C6E7DD23792Bint, 152, 64, 0xD744FCCAD69C0ACDint);
    lemma_chain_lower(0x3EA0ECB6DC8A84int, 2, 0xEAC0C6E7DD24690Dint, 152, 64, 0xD744FCCAD69DC2BEint);
    assert(0xD744FCCAD69C0ACDint * 0xD744FCCAD69C0ACDint <= 0xB504F333F9DC1445int * 0x10000000000000000int);
    assert(0xB504F333F9DEF828int * 0x10000000000000000int <= 0xD744FCCAD69DC2BEint * 0xD744FCCAD69DC2BEint);
    lemma_chain_upper(0x3EA0ECB6DC8A74int, 3, 0xD744FCCAD69C0ACDint, 368, 64, 0xB504F333F9DC1445int);
    lemma_chain_lower(0x3EA0ECB6DC8A84int, 3, 0xD744FCCAD69DC2BEint, 368, 64, 0xB504F333F9DEF828int);
    assert(0xB504F333F9DC1445int * 0xB504F333F9DC1445int <= 0xFFFFFFFFFFF974E0int * 0x8000000000000000int);
    assert(0x1000000000001A196int * 0x8000000000000000int <= 0xB504F333F9DEF828int * 0xB504F333F9DEF828int);
    lemma_chain_upper(0x3EA0ECB6DC8A74int, 4, 0xB504F333F9DC1445int, 800, 63, 0xFFFFFFFFFFF974E0int);
    lemma_chain_lower(0x3EA0ECB6DC8A84int, 4, 0xB504F333F9DEF828int, 800, 63, 0x1000000000001A196int);
    lemma_chains_round(0x3FEF_5076_5B6E_453Eu64, 31, 5, 8, 0x3EA0ECB6DC8A74int, 0x3EA0ECB6DC8A84int, 0xFFFFFFFFFFF974E0int, 0x1000000000001A196int, 1663, 64);
}

/// The boundaries of schema 5 at odd positions are within four units in the last place.
proof fn lemma_rounded_odd_5(k: int)
    requires
        0 <= k < 32,
        k % 2 == 1,
    ensures
        near_root(bounds_of(5)[k], k, 5),
{
    reveal(bounds_of);
    if k == 1 {
        rounded_5_1();
    } else if k == 3 {
        rounded_5_3();
    } else if k == 5 {
        rounded_5_5();
    } else if k == 7 {
        rounded_5_7();
    } else if k == 9 {
        rounded_5_9();
    } else if k == 11 {
        rounded_5_11();
    } else if k == 13 {
        rounded_5_13();
    } else if k == 15 {
        rounded_5_15();
    } else if k == 17 {
        rounded_5_17();
    } else if k == 19 {
        rounded_5_19();
    } else if k == 21 {
        rounded_5_21();
    } else if k == 23 {
        rounded_5_23();
    } else if k == 25 {
        rounded_5_25();
    } else if k == 27 {
        rounded_5_27();
    } else if k == 29 {
        rounded_5_29();
    } else if k == 31 {
        rounded_5_31();
    }
}

/// Boundary 1 of schema 6, checked through its squaring chains.
proof fn rounded_6_1()
    ensures
        near_root(0x3FE0_2C9A_3E77_8061u64, 1, 6),
{
    lemma2_to64();
    lemma2_to64_rest();
    lemma_chain_start(0x2059347CEF00BAint);
    lemma_chain_start(0x2059347CEF00CAint);
    assert(0x2059347CEF00BAint * 0x2059347CEF00BAint <= 0x82CD8698AC2B6241int * 0x80000000000int);
    assert(0x82CD8698AC2BE3A5int * 0x80000000000int <= 0x2059347CEF00CAint * 0x2059347CEF00CAint);
    lemma_chain_upper(0x2059347CEF00BAint, 0, 0x2059347CEF00BAint, 0, 43, 0x82CD8698AC2B6241int);
    lemma_chain_lower(0x2059347CEF00CAint, 0, 0x2059347CEF00CAint, 0, 43, 0x82CD8698AC2BE3A5int);
    assert(0x82CD8698AC2B6241int * 0x82CD8698AC2B6241int <= 0x85AAC367CC47F920int * 0x8000000000000000int);
    assert(0x85AAC367CC490192int * 0x8000000000000000int <= 0x82CD8698AC2BE3A5int * 0x82CD8698AC2BE3A5int);
    lemma_chain_upper(0x2059347CEF00BAint, 1, 0x82CD8698AC2B6241int, 43, 63, 0x85AAC367CC47F920int);
    lemma_chain_lower(0x2059347CEF00CAint, 1, 0x82CD8698AC2BE3A5int, 43, 63, 0x85AAC367CC490192int);
    assert(0x85AAC367CC47F920int * 0x85AAC367CC47F920int <= 0x8B95C1E3EA8AC77Cint * 0x8000000000000000int);
    assert(0x8B95C1E3EA8CEFCAint * 0x8000000000000000int <= 0x85AAC367CC490192int * 0x85AAC367CC490192int);
    lemma_chain_upper(0x2059347CEF00BAint, 2, 0x85AAC367CC47F920int, 149, 63, 0x8B95C1E3EA8AC77Cint);
    lemma_chain_lower(0x2059347CEF00CAint, 2, 0x85AAC367CC490192int, 149, 63, 0x8B95C1E3EA8CEFCAint);
    assert(0x8B95C1E3EA8AC77Cint * 0x8B95C1E3EA8AC77Cint <= 0x9837F0518DB65978int * 0x8000000000000000int);
    assert(0x9837F0518DBB0E0Dint * 0x8000000000000000int <= 0x8B95C1E3EA8CEFCAint * 0x8B95C1E3EA8CEFCAint);
    lemma_chain_upper(0x2059347CEF00BAint, 3, 0x8B95C1E3EA8AC77Cint, 361, 63, 0x9837F0518DB65978int);
    lemma_chain_lower(0x2059347CEF00CAint, 3, 0x8B95C1E3EA8CEFCAint, 361, 63, 0x9837F0518DBB0E0Dint);
    assert(0x9837F0518DB65978int * 0x9837F0518DB65978int <= 0xB504F333F9D8E494int * 0x8000000000000000int);
    assert(0xB504F333F9E41592int * 0x8000000000000000int <= 0x9837F0518DBB0E0Dint * 0x9837F0518DBB0E0Dint);
    lemma_chain_upper(0x2059347CEF00BAint, 4, 0x9837F0518DB65978int, 785, 63, 0xB504F333F9D8E494int);
    lemma_chain_lower(0x2059347CEF00CAint, 4, 0x9837F0518DBB0E0Dint, 785, 63, 0xB504F333F9E41592int);
    assert(0xB504F333F9D8E494int * 0xB504F333F9D8E494int <= 0xFFFFFFFFFFF071C0int * 0x8000000000000000int);
    assert(0x1000000000010192Bint * 0x8000000000000000int <= 0xB504F333F9E41592int * 0xB504F333F9E41592int);
    lemma_chain_upper(0x2059347CEF00BAint, 5, 0xB504F333F9D8E494int, 1633, 63, 0xFFFFFFFFFFF071C0int);
    lemma_chain_lower(0x2059347CEF00CAint, 5, 0xB504F333F9E41592int, 1633, 63, 0x1000000000010192Bint);
    lemma_chains_round(0x3FE0_2C9A_3E77_8061u64, 1, 6, 8, 0x2059347CEF00BAint, 0x2059347CEF00CAint, 0xFFFFFFFFFFF071C0int, 0x1000000000010192Bint, 3329, 64);
}

/// Boundary 3 of schema 6, checked through its squaring chains.
proof fn rounded_6_3()
    ensures
        near_root(0x3FE0_8745_1875_9BC8u64, 3, 6),
{
    lemma2_to64();
    lemma2_to64_rest();
    lemma_chain_start(0x210E8A30EB3788int);
    lemma_chain_start(0x210E8A30EB3798int);
    assert(0x210E8A30EB3788int * 0x210E8A30EB3788int <= 0x88980E8092DA427Aint * 0x80000000000int);
    assert(0x88980E8092DAC6B3int * 0x80000000000int <= 0x210E8A30EB3798int * 0x210E8A30EB3798int);
    lemma_chain_upper(0x210E8A30EB3788int, 0, 0x210E8A30EB3788int, 0, 43, 0x88980E8092DA427Aint);
    lemma_chain_lower(0x210E8A30EB3798int, 0, 0x210E8A30EB3798int, 0, 43, 0x88980E8092DAC6B3int);
    assert(0x88980E8092DA427Aint * 0x88980E8092DA427Aint <= 0x91C3D373AB1134E8int * 0x8000000000000000int);
    assert(0x91C3D373AB124F1Aint * 0x8000000000000000int <= 0x88980E8092DAC6B3int * 0x88980E8092DAC6B3int);
    lemma_chain_upper(0x210E8A30EB3788int, 1, 0x88980E8092DA427Aint, 43, 63, 0x91C3D373AB1134E8int);
    lemma_chain_lower(0x210E8A30EB3798int, 1, 0x88980E8092DAC6B3int, 43, 63, 0x91C3D373AB124F1Aint);
    assert(0x91C3D373AB1134E8int * 0x91C3D373AB1134E8int <= 0xA5FED6A9B14FF4CEint * 0x8000000000000000int);
    assert(0xA5FED6A9B1527786int * 0x8000000000000000int <= 0x91C3D373AB124F1Aint * 0x91C3D373AB124F1Aint);
    lemma_chain_upper(0x210E8A30EB3788int, 2, 0x91C3D373AB1134E8int, 149, 63, 0xA5FED6A9B14FF4CEint);
    lemma_chain_lower(0x210E8A30EB3798int, 2, 0x91C3D373AB124F1Aint, 149, 63, 0xA5FED6A9B1527786int);
    assert(0xA5FED6A9B14FF4CEint * 0xA5FED6A9B14FF4CEint <= 0xD744FCCAD69A2252int * 0x8000000000000000int);
    assert(0xD744FCCAD6A0A552int * 0x8000000000000000int <= 0xA5FED6A9B1527786int * 0xA5FED6A9B1527786int);
    lemma_chain_upper(0x210E8A30EB3788int, 3, 0xA5FED6A9B14FF4CEint, 361, 63, 0xD744FCCAD69A2252int);
    lemma_chain_lower(0x210E8A30EB3798int, 3, 0xA5FED6A9B1527786int, 361, 63, 0xD744FCCAD6A0A552int);
    assert(0xD744FCCAD69A2252int * 0xD744FCCAD69A2252int <= 0xB504F333F9D8DEBFint * 0x10000000000000000int);
    assert(0xB504F333F9E3D24Bint * 0x10000000000000000int <= 0xD744FCCAD6A0A552int * 0xD744FCCAD6A0A552int);
    lemma_chain_upper(0x210E8A30EB3788int, 4, 0xD744FCCAD69A2252int, 785, 64, 0xB504F333F9D8DEBFint);
    lemma_chain_lower(0x210E8A30EB3798int, 4, 0xD744FCCAD6A0A552int, 785, 64, 0xB504F333F9E3D24Bint);
    assert(0xB504F333F9D8DEBFint * 0xB504F333F9D8DEBFint <= 0xFFFFFFFFFFF06141int * 0x8000000000000000int);
    assert(0x100000000000F5AE1int * 0x8000000000000000int <= 0xB504F333F9E3D24Bint * 0xB504F333F9E3D24Bint);
    lemma_chain_upper(0x210E8A30EB3788int, 5, 0xB504F333F9D8DEBFint, 1634, 63, 0xFFFFFFFFFFF06141int);
    lemma_chain_lower(0x210E8A30EB3798int, 5, 0xB504F333F9E3D24Bint, 1634, 63, 0x100000000000F5AE1int);
    lemma_chains_round(0x3FE0_8745_1875_9BC8u64, 3, 6, 8, 0x210E8A30EB3788int, 0x210E8A30EB3798int, 0xFFFFFFFFFFF06141int, 0x100000000000F5AE1int, 3331, 64);
}

/// Boundary 5 of schema 6, checked through its squaring chains.
proof fn rounded_6_5()
    ensures
        near_root(0x3FE0_E3EC_32D3_D1A2u64, 5, 6),
{
    lemma2_to64();
    lemma2_to64_rest();
    lemma_chain_start(0x21C7D865A7A33Cint);
    lemma_chain_start(0x21C7D865A7A34Cint);
    assert(0x21C7D865A7A33Cint * 0x21C7D865A7A33Cint <= 0x8EA4398B45CD100Fint * 0x80000000000int);
    assert(0x8EA4398B45CD972Dint * 0x80000000000int <= 0x21C7D865A7A34Cint * 0x21C7D865A7A34Cint);
    lemma_chain_upper(0x21C7D865A7A33Cint, 0, 0x21C7D865A7A33Cint, 0, 43, 0x8EA4398B45CD100Fint);
    lemma_chain_lower(0x21C7D865A7A34Cint, 0, 0x21C7D865A7A34Cint, 0, 43, 0x8EA4398B45CD972Dint);
    assert(0x8EA4398B45CD100Fint * 0x8EA4398B45CD100Fint <= 0x9EF5326091A07ACFint * 0x8000000000000000int);
    assert(0x9EF5326091A1A7F4int * 0x8000000000000000int <= 0x8EA4398B45CD972Dint * 0x8EA4398B45CD972Dint);
    lemma_chain_upper(0x21C7D865A7A33Cint, 1, 0x8EA4398B45CD100Fint, 43, 63, 0x9EF5326091A07ACFint);
    lemma_chain_lower(0x21C7D865A7A34Cint, 1, 0x8EA4398B45CD972Dint, 43, 63, 0x9EF5326091A1A7F4int);
    assert(0x9EF5326091A07ACFint * 0x9EF5326091A07ACFint <= 0xC5672A1155056426int * 0x8000000000000000int);
    assert(0xC5672A115508501Aint * 0x8000000000000000int <= 0x9EF5326091A1A7F4int * 0x9EF5326091A1A7F4int);
    lemma_chain_upper(0x21C7D865A7A33Cint, 2, 0x9EF5326091A07ACFint, 149, 63, 0xC5672A1155056426int);
    lemma_chain_lower(0x21C7D865A7A34Cint, 2, 0x9EF5326091A1A7F4int, 149, 63, 0xC5672A115508501Aint);
    assert(0xC5672A1155056426int * 0xC5672A1155056426int <= 0x9837F0518DB6678Cint * 0x10000000000000000int);
    assert(0x9837F0518DBAE90Bint * 0x10000000000000000int <= 0xC5672A115508501Aint * 0xC5672A115508501Aint);
    lemma_chain_upper(0x21C7D865A7A33Cint, 3, 0xC5672A1155056426int, 361, 64, 0x9837F0518DB6678Cint);
    lemma_chain_lower(0x21C7D865A7A34Cint, 3, 0xC5672A115508501Aint, 361, 64, 0x9837F0518DBAE90Bint);
    assert(0x9837F0518DB6678Cint * 0x9837F0518DB6678Cint <= 0xB504F333F9D90610int * 0x8000000000000000int);
    assert(0xB504F333F9E3BD8Dint * 0x8000000000000000int <= 0x9837F0518DBAE90Bint * 0x9837F0518DBAE90Bint);
    lemma_chain_upper(0x21C7D865A7A33Cint, 4, 0x9837F0518DB6678Cint, 786, 63, 0xB504F333F9D90610int);
    lemma_chain_lower(0x21C7D865A7A34Cint, 4, 0x9837F0518DBAE90Bint, 786, 63, 0xB504F333F9E3BD8Dint);
    assert(0xB504F333F9D90610int * 0xB504F333F9D90610int <= 0xFFFFFFFFFFF0D075int * 0x8000000000000000int);
    assert(0x100000000000F2036int * 0x8000000000000000int <= 0xB504F333F9E3BD8Dint * 0xB504F333F9E3BD8Dint);
    lemma_chain_upper(0x21C7D865A7A33Cint, 5, 0xB504F333F9D90610int, 1635, 63, 0xFFFFFFFFFFF0D075int);
    lemma_chain_lower(0x21C7D865A7A34Cint, 5, 0xB504F333F9E3BD8Dint, 1635, 63, 0x100000000000F2036int);
    lemma_chains_round(0x3FE0_E3EC_32D3_D1A2u64, 5, 6, 8, 0x21C7D865A7A33Cint, 0x21C7D865A7A34Cint, 0xFFFFFFFFFFF0D075int, 0x100000000000F2036int, 3333, 64);
}

/// Boundary 7 of schema 6, checked through its squaring chains.
proof fn rounded_6_7()
    ensures
        near_root(0x3FE1_429A_AEA9_2DDFu64, 7, 6),
{
    lemma2_to64();
    lemma2_to64_rest();
    lemma_chain_start(0x2285355D525BB6int);
    lemma_chain_start(0x2285355D525BC6int);
    assert(0x2285355D525BB6int * 0x2285355D525BB6int <= 0x94F4EFA8FEF6B841int * 0x80000000000int);
    assert(0x94F4EFA8FEF74255int * 0x80000000000int <= 0x2285355D525BC6int * 0x2285355D525BC6int);
    lemma_chain_upper(0x2285355D525BB6int, 0, 0x2285355D525BB6int, 0, 43, 0x94F4EFA8FEF6B841int);
    lemma_chain_lower(0x2285355D525BC6int, 0, 0x2285355D525BC6int, 0, 43, 0x94F4EFA8FEF74255int);
    assert(0x94F4EFA8FEF6B841int * 0x94F4EFA8FEF6B841int <= 0xAD583EEA42A08DF6int * 0x8000000000000000int);
    assert(0xAD583EEA42A1CF54int * 0x8000000000000000int <= 0x94F4EFA8FEF74255int * 0x94F4EFA8FEF74255int);
    lemma_chain_upper(0x2285355D525BB6int, 1, 0x94F4EFA8FEF6B841int, 43, 63, 0xAD583EEA42A08DF6int);
    lemma_chain_lower(0x2285355D525BC6int, 1, 0x94F4EFA8FEF74255int, 43, 63, 0xAD583EEA42A1CF54int);
    assert(0xAD583EEA42A08DF6int * 0xAD583EEA42A08DF6int <= 0xEAC0C6E7DD2239C8int * 0x8000000000000000int);
    assert(0xEAC0C6E7DD25A034int * 0x8000000000000000int <= 0xAD583EEA42A1CF54int * 0xAD583EEA42A1CF54int);
    lemma_chain_upper(0x2285355D525BB6int, 2, 0xAD583EEA42A08DF6int, 149, 63, 0xEAC0C6E7DD2239C8int);
    lemma_chain_lower(0x2285355D525BC6int, 2, 0xAD583EEA42A1CF54int, 149, 63, 0xEAC0C6E7DD25A034int);
    assert(0xEAC0C6E7DD2239C8int * 0xEAC0C6E7DD2239C8int <= 0xD744FCCAD699C10Bint * 0x10000000000000000int);
    assert(0xD744FCCAD69FFD66int * 0x10000000000000000int <= 0xEAC0C6E7DD25A034int * 0xEAC0C6E7DD25A034int);
    lemma_chain_upper(0x2285355D525BB6int, 3, 0xEAC0C6E7DD2239C8int, 361, 64, 0xD744FCCAD699C10Bint);
    lemma_chain_lower(0x2285355D525BC6int, 3, 0xEAC0C6E7DD25A034int, 361, 64, 0xD744FCCAD69FFD66int);
    assert(0xD744FCCAD699C10Bint * 0xD744FCCAD699C10Bint <= 0xB504F333F9D83B26int * 0x10000000000000000int);
    assert(0xB504F333F9E2B7E2int * 0x10000000000000000int <= 0xD744FCCAD69FFD66int * 0xD744FCCAD69FFD66int);
    lemma_chain_upper(0x2285355D525BB6int, 4, 0xD744FCCAD699C10Bint, 786, 64, 0xB504F333F9D83B26int);
    lemma_chain_lower(0x2285355D525BC6int, 4, 0xD744FCCAD69FFD66int, 786, 64, 0xB504F333F9E2B7E2int);
    assert(0xB504F333F9D83B26int * 0xB504F333F9D83B26int <= 0xFFFFFFFFFFEE9288int * 0x8000000000000000int);
    assert(0x100000000000C3C1Aint * 0x8000000000000000int <= 0xB504F333F9E2B7E2int * 0xB504F333F9E2B7E2int);
    lemma_chain_upper(0x2285355D525BB6int, 5, 0xB504F333F9D83B26int, 1636, 63, 0xFFFFFFFFFFEE9288int);
    lemma_chain_lower(0x2285355D525BC6int, 5, 0xB504F333F9E2B7E2int, 1636, 63, 0x100000000000C3C1Aint);
    lemma_chains_round(0x3FE1_429A_AEA9_2DDFu64, 7, 6, 8, 0x2285355D525BB6int, 0x2285355D525BC6int, 0xFFFFFFFFFFEE9288int, 0x100000000000C3C1Aint, 3335, 64);
}

/// Boundary 9 of schema 6, checked through its squaring chains.
proof fn rounded_6_9()
    ensures
        near_root(0x3FE1_A35B_EB6F_CB75u64, 9, 6),
{
    lemma2_to64();
    lemma2_to64_rest();
    lemma_chain_start(0x2346B7D6DF96E2int);
    lemma_chain_start(0x2346B7D6DF96F2int);
    assert(0x2346B7D6DF96E2int * 0x2346B7D6DF96E2int <= 0x9B8D39B9D54E0A7Dint * 0x80000000000int);
    assert(0x9B8D39B9D54E9797int * 0x80000000000int <= 0x2346B7D6DF96F2int * 0x2346B7D6DF96F2int);
    lemma_chain_upper(0x2346B7D6DF96E2int, 0, 0x2346B7D6DF96E2int, 0, 43, 0x9B8D39B9D54E0A7Dint);
    lemma_chain_lower(0x2346B7D6DF96F2int, 0, 0x2346B7D6DF96F2int, 0, 43, 0x9B8D39B9D54E9797int);
    assert(0x9B8D39B9D54E0A7Dint * 0x9B8D39B9D54E0A7Dint <= 0xBD08A39F580B811Cint * 0x8000000000000000int);
    assert(0xBD08A39F580CD80Dint * 0x8000000000000000int <= 0x9B8D39B9D54E9797int * 0x9B8D39B9D54E9797int);
    lemma_chain_upper(0x2346B7D6DF96E2int, 1, 0x9B8D39B9D54E0A7Dint, 43, 63, 0xBD08A39F580B811Cint);
    lemma_chain_lower(0x2346B7D6DF96F2int, 1, 0x9B8D39B9D54E9797int, 43, 63, 0xBD08A39F580CD80Dint);
    assert(0xBD08A39F580B811Cint * 0xBD08A39F580B811Cint <= 0x8B95C1E3EA8ACAA9int * 0x10000000000000000int);
    assert(0x8B95C1E3EA8CC51Fint * 0x10000000000000000int <= 0xBD08A39F580CD80Dint * 0xBD08A39F580CD80Dint);
    lemma_chain_upper(0x2346B7D6DF96E2int, 2, 0xBD08A39F580B811Cint, 149, 64, 0x8B95C1E3EA8ACAA9int);
    lemma_chain_lower(0x2346B7D6DF96F2int, 2, 0xBD08A39F580CD80Dint, 149, 64, 0x8B95C1E3EA8CC51Fint);
    assert(0x8B95C1E3EA8ACAA9int * 0x8B95C1E3EA8ACAA9int <= 0x9837F0518DB66065int * 0x8000000000000000int);
    assert(0x9837F0518DBAB0FEint * 0x8000000000000000int <= 0x8B95C1E3EA8CC51Fint * 0x8B95C1E3EA8CC51Fint);
    lemma_chain_upper(0x2346B7D6DF96E2int, 3, 0x8B95C1E3EA8ACAA9int, 362, 63, 0x9837F0518DB66065int);
    lemma_chain_lower(0x2346B7D6DF96F2int, 3, 0x8B95C1E3EA8CC51Fint, 362, 63, 0x9837F0518DBAB0FEint);
    assert(0x9837F0518DB66065int * 0x9837F0518DB66065int <= 0xB504F333F9D8F50Dint * 0x8000000000000000int);
    assert(0xB504F333F9E3383Dint * 0x8000000000000000int <= 0x9837F0518DBAB0FEint * 0x9837F0518DBAB0FEint);
    lemma_chain_upper(0x2346B7D6DF96E2int, 4, 0x9837F0518DB66065int, 787, 63, 0xB504F333F9D8F50Dint);
    lemma_chain_lower(0x2346B7D6DF96F2int, 4, 0x9837F0518DBAB0FEint, 787, 63, 0xB504F333F9E3383Dint);
    assert(0xB504F333F9D8F50Dint * 0xB504F333F9D8F50Dint <= 0xFFFFFFFFFFF0A057int * 0x8000000000000000int);
    assert(0x100000000000DA725int * 0x8000000000000000int <= 0xB504F333F9E3383Dint * 0xB504F333F9E3383Dint);
    lemma_chain_upper(0x2346B7D6DF96E2int, 5, 0xB504F333F9D8F50Dint, 1637, 63, 0xFFFFFFFFFFF0A057int);
    lemma_chain_lower(0x2346B7D6DF96F2int, 5, 0xB504F333F9E3383Dint, 1637, 63, 0x100000000000DA725int);
    lemma_chains_round(0x3FE1_A35B_EB6F_CB75u64, 9, 6, 8, 0x2346B7D6DF96E2int, 0x2346B7D6DF96F2int, 0xFFFFFFFFFFF0A057int, 0x100000000000DA725int, 3337, 64);
}

/// Boundary 11 of schema 6, checked through its squaring chains.
proof fn rounded_6_11()
    ensures
        near_root(0x3FE2_063B_8862_8CD6u64, 11, 6),
{
    lemma2_to64();
    lemma2_to64_rest();
    lemma_chain_start(0x240C7710C519A4int);
    lemma_chain_start(0x240C7710C519B4int);
    assert(0x240C7710C519A4int * 0x240C7710C519A4int <= 0xA27043030C491BCFint * 0x80000000000int);
    assert(0xA27043030C49AC00int * 0x80000000000int <= 0x240C7710C519B4int * 0x240C7710C519B4int);
    lemma_chain_upper(0x240C7710C519A4int, 0, 0x240C7710C519A4int, 0, 43, 0xA27043030C491BCFint);
    lemma_chain_lower(0x240C7710C519B4int, 0, 0x240C7710C519B4int, 0, 43, 0xA27043030C49AC00int);
    assert(0xA27043030C491BCFint * 0xA27043030C491BCFint <= 0xCE248C151F83BF44int * 0x8000000000000000int);
    assert(0xCE248C151F852D3Cint * 0x8000000000000000int <= 0xA27043030C49AC00int * 0xA27043030C49AC00int);
    lemma_chain_upper(0x240C7710C519A4int, 1, 0xA27043030C491BCFint, 43, 63, 0xCE248C151F83BF44int);
    lemma_chain_lower(0x240C7710C519B4int, 1, 0xA27043030C49AC00int, 43, 63, 0xCE248C151F852D3Cint);
    assert(0xCE248C151F83BF44int * 0xCE248C151F83BF44int <= 0xA5FED6A9B1500116int * 0x10000000000000000int);
    assert(0xA5FED6A9B1524E79int * 0x10000000000000000int <= 0xCE248C151F852D3Cint * 0xCE248C151F852D3Cint);
    lemma_chain_upper(0x240C7710C519A4int, 2, 0xCE248C151F83BF44int, 149, 64, 0xA5FED6A9B1500116int);
    lemma_chain_lower(0x240C7710C519B4int, 2, 0xCE248C151F852D3Cint, 149, 64, 0xA5FED6A9B1524E79int);
    assert(0xA5FED6A9B1500116int * 0xA5FED6A9B1500116int <= 0xD744FCCAD69A422Cint * 0x8000000000000000int);
    assert(0xD744FCCAD6A03AD9int * 0x8000000000000000int <= 0xA5FED6A9B1524E79int * 0xA5FED6A9B1524E79int);
    lemma_chain_upper(0x240C7710C519A4int, 3, 0xA5FED6A9B1500116int, 362, 63, 0xD744FCCAD69A422Cint);
    lemma_chain_lower(0x240C7710C519B4int, 3, 0xA5FED6A9B1524E79int, 362, 63, 0xD744FCCAD6A03AD9int);
    assert(0xD744FCCAD69A422Cint * 0xD744FCCAD69A422Cint <= 0xB504F333F9D91451int * 0x10000000000000000int);
    assert(0xB504F333F9E31F3Aint * 0x10000000000000000int <= 0xD744FCCAD6A03AD9int * 0xD744FCCAD6A03AD9int);
    lemma_chain_upper(0x240C7710C519A4int, 4, 0xD744FCCAD69A422Cint, 787, 64, 0xB504F333F9D91451int);
    lemma_chain_lower(0x240C7710C519B4int, 4, 0xD744FCCAD6A03AD9int, 787, 64, 0xB504F333F9E31F3Aint);
    assert(0xB504F333F9D91451int * 0xB504F333F9D91451int <= 0xFFFFFFFFFFF0F8C6int * 0x8000000000000000int);
    assert(0x100000000000D6067int * 0x8000000000000000int <= 0xB504F333F9E31F3Aint * 0xB504F333F9E31F3Aint);
    lemma_chain_upper(0x240C7710C519A4int, 5, 0xB504F333F9D91451int, 1638, 63, 0xFFFFFFFFFFF0F8C6int);
    lemma_chain_lower(0x240C7710C519B4int, 5, 0xB504F333F9E31F3Aint, 1638, 63, 0x100000000000D6067int);
    lemma_chains_round(0x3FE2_063B_8862_8CD6u64, 11, 6, 8, 0x240C7710C519A4int, 0x240C7710C519B4int, 0xFFFFFFFFFFF0F8C6int, 0x100000000000D6067int, 3339, 64);
}

/// Boundary 13 of schema 6, checked through its squaring chains.
proof fn rounded_6_13()
    ensures
        near_root(0x3FE2_6B45_65E2_7CDDu64, 13, 6),
{
    lemma2_to64();
    lemma2_to64_rest();
    lemma_chain_start(0x24D68ACBC4F9B2int);
    lemma_chain_start(0x24D68ACBC4F9C2int);
    assert(0x24D68ACBC4F9B2int * 0x24D68ACBC4F9B2int <= 0xA9A15AB4EA7BC299int * 0x80000000000int);
    assert(0xA9A15AB4EA7C55F3int * 0x80000000000int <= 0x24D68ACBC4F9C2int * 0x24D68ACBC4F9C2int);
    lemma_chain_upper(0x24D68ACBC4F9B2int, 0, 0x24D68ACBC4F9B2int, 0, 43, 0xA9A15AB4EA7BC299int);
    lemma_chain_lower(0x24D68ACBC4F9C2int, 0, 0x24D68ACBC4F9C2int, 0, 43, 0xA9A15AB4EA7C55F3int);
    assert(0xA9A15AB4EA7BC299int * 0xA9A15AB4EA7BC299int <= 0xE0CCDEEC2A9416A5int * 0x8000000000000000int);
    assert(0xE0CCDEEC2A959D31int * 0x8000000000000000int <= 0xA9A15AB4EA7C55F3int * 0xA9A15AB4EA7C55F3int);
    lemma_chain_upper(0x24D68ACBC4F9B2int, 1, 0xA9A15AB4EA7BC299int, 43, 63, 0xE0CCDEEC2A9416A5int);
    lemma_chain_lower(0x24D68ACBC4F9C2int, 1, 0xA9A15AB4EA7C55F3int, 43, 63, 0xE0CCDEEC2A959D31int);
    assert(0xE0CCDEEC2A9416A5int * 0xE0CCDEEC2A9416A5int <= 0xC5672A115505775Dint * 0x10000000000000000int);
    assert(0xC5672A1155082542int * 0x10000000000000000int <= 0xE0CCDEEC2A959D31int * 0xE0CCDEEC2A959D31int);
    lemma_chain_upper(0x24D68ACBC4F9B2int, 2, 0xE0CCDEEC2A9416A5int, 149, 64, 0xC5672A115505775Dint);
    lemma_chain_lower(0x24D68ACBC4F9C2int, 2, 0xE0CCDEEC2A959D31int, 149, 64, 0xC5672A1155082542int);
    assert(0xC5672A115505775Dint * 0xC5672A115505775Dint <= 0x9837F0518DB6852Eint * 0x10000000000000000int);
    assert(0x9837F0518DBAA6F8int * 0x10000000000000000int <= 0xC5672A1155082542int * 0xC5672A1155082542int);
    lemma_chain_upper(0x24D68ACBC4F9B2int, 3, 0xC5672A115505775Dint, 362, 64, 0x9837F0518DB6852Eint);
    lemma_chain_lower(0x24D68ACBC4F9C2int, 3, 0xC5672A1155082542int, 362, 64, 0x9837F0518DBAA6F8int);
    assert(0x9837F0518DB6852Eint * 0x9837F0518DB6852Eint <= 0xB504F333F9D94C8Bint * 0x8000000000000000int);
    assert(0xB504F333F9E32066int * 0x8000000000000000int <= 0x9837F0518DBAA6F8int * 0x9837F0518DBAA6F8int);
    lemma_chain_upper(0x24D68ACBC4F9B2int, 4, 0x9837F0518DB6852Eint, 788, 63, 0xB504F333F9D94C8Bint);
    lemma_chain_lower(0x24D68ACBC4F9C2int, 4, 0x9837F0518DBAA6F8int, 788, 63, 0xB504F333F9E32066int);
    assert(0xB504F333F9D94C8Bint * 0xB504F333F9D94C8Bint <= 0xFFFFFFFFFFF197CEint * 0x8000000000000000int);
    assert(0x100000000000D63B7int * 0x8000000000000000int <= 0xB504F333F9E32066int * 0xB504F333F9E32066int);
    lemma_chain_upper(0x24D68ACBC4F9B2int, 5, 0xB504F333F9D94C8Bint, 1639, 63, 0xFFFFFFFFFFF197CEint);
    lemma_chain_lower(0x24D68ACBC4F9C2int, 5, 0xB504F333F9E32066int, 1639, 63, 0x100000000000D63B7int);
    lemma_chains_round(0x3FE2_6B45_65E2_7CDDu64, 13, 6, 8, 0x24D68ACBC4F9B2int, 0x24D68ACBC4F9C2int, 0xFFFFFFFFFFF197CEint, 0x100000000000D63B7int, 3341, 64);
}

/// Boundary 15 of schema 6, checked through its squaring chains.
proof fn rounded_6_15()
    ensures
        near_root(0x3FE2_D285_A6E4_030Bu64, 15, 6),
{
    lemma2_to64();
    lemma2_to64_rest();
    lemma_chain_start(0x25A50B4DC8060Eint);
    lemma_chain_start(0x25A50B4DC8061Eint);
    assert(0x25A50B4DC8060Eint * 0x25A50B4DC8060Eint <= 0xB123F581D2ABD591int * 0x80000000000int);
    assert(0xB123F581D2AC6C24int * 0x80000000000int <= 0x25A50B4DC8061Eint * 0x25A50B4DC8061Eint);
    lemma_chain_upper(0x25A50B4DC8060Eint, 0, 0x25A50B4DC8060Eint, 0, 43, 0xB123F581D2ABD591int);
    lemma_chain_lower(0x25A50B4DC8061Eint, 0, 0x25A50B4DC8061Eint, 0, 43, 0xB123F581D2AC6C24int);
    assert(0xB123F581D2ABD591int * 0xB123F581D2ABD591int <= 0xF5257D152485EEC4int * 0x8000000000000000int);
    assert(0xF5257D1524878F86int * 0x8000000000000000int <= 0xB123F581D2AC6C24int * 0xB123F581D2AC6C24int);
    lemma_chain_upper(0x25A50B4DC8060Eint, 1, 0xB123F581D2ABD591int, 43, 63, 0xF5257D152485EEC4int);
    lemma_chain_lower(0x25A50B4DC8061Eint, 1, 0xB123F581D2AC6C24int, 43, 63, 0xF5257D1524878F86int);
    assert(0xF5257D152485EEC4int * 0xF5257D152485EEC4int <= 0xEAC0C6E7DD229124int * 0x10000000000000000int);
    assert(0xEAC0C6E7DD25AF51int * 0x10000000000000000int <= 0xF5257D1524878F86int * 0xF5257D1524878F86int);
    lemma_chain_upper(0x25A50B4DC8060Eint, 2, 0xF5257D152485EEC4int, 149, 64, 0xEAC0C6E7DD229124int);
    lemma_chain_lower(0x25A50B4DC8061Eint, 2, 0xF5257D1524878F86int, 149, 64, 0xEAC0C6E7DD25AF51int);
    assert(0xEAC0C6E7DD229124int * 0xEAC0C6E7DD229124int <= 0xD744FCCAD69A6142int * 0x10000000000000000int);
    assert(0xD744FCCAD6A0191Eint * 0x10000000000000000int <= 0xEAC0C6E7DD25AF51int * 0xEAC0C6E7DD25AF51int);
    lemma_chain_upper(0x25A50B4DC8060Eint, 3, 0xEAC0C6E7DD229124int, 362, 64, 0xD744FCCAD69A6142int);
    lemma_chain_lower(0x25A50B4DC8061Eint, 3, 0xEAC0C6E7DD25AF51int, 362, 64, 0xD744FCCAD6A0191Eint);
    assert(0xD744FCCAD69A6142int * 0xD744FCCAD69A6142int <= 0xB504F333F9D94898int * 0x10000000000000000int);
    assert(0xB504F333F9E2E680int * 0x10000000000000000int <= 0xD744FCCAD6A0191Eint * 0xD744FCCAD6A0191Eint);
    lemma_chain_upper(0x25A50B4DC8060Eint, 4, 0xD744FCCAD69A6142int, 788, 64, 0xB504F333F9D94898int);
    lemma_chain_lower(0x25A50B4DC8061Eint, 4, 0xD744FCCAD6A0191Eint, 788, 64, 0xB504F333F9E2E680int);
    assert(0xB504F333F9D94898int * 0xB504F333F9D94898int <= 0xFFFFFFFFFFF18CA3int * 0x8000000000000000int);
    assert(0x100000000000CBFF4int * 0x8000000000000000int <= 0xB504F333F9E2E680int * 0xB504F333F9E2E680int);
    lemma_chain_upper(0x25A50B4DC8060Eint, 5, 0xB504F333F9D94898int, 1640, 63, 0xFFFFFFFFFFF18CA3int);
    lemma_chain_lower(0x25A50B4DC8061Eint, 5, 0xB504F333F9E2E680int, 1640, 63, 0x100000000000CBFF4int);
    lemma_chains_round(0x3FE2_D285_A6E4_030Bu64, 15, 6, 8, 0x25A50B4DC8060Eint, 0x25A50B4DC8061Eint, 0xFFFFFFFFFFF18CA3int, 0x100000000000CBFF4int, 3343, 64);
}

/// Boundary 17 of schema 6, checked through its squaring chains.
proof fn rounded_6_17()
    ensures
        near_root(0x3FE3_3C08_B264_16FFu64, 17, 6),
{
    lemma2_to64();
    lemma2_to64_rest();
    lemma_chain_start(0x26781164C82DF6int);
    lemma_chain_start(0x26781164C82E06int);
    assert(0x26781164C82DF6int * 0x26781164C82DF6int <= 0xB8FBAF4762FB4C38int * 0x80000000000int);
    assert(0xB8FBAF4762FBE617int * 0x80000000000int <= 0x26781164C82E06int * 0x26781164C82E06int);
    lemma_chain_upper(0x26781164C82DF6int, 0, 0x26781164C82DF6int, 0, 43, 0xB8FBAF4762FB4C38int);
    lemma_chain_lower(0x26781164C82E06int, 0, 0x26781164C82E06int, 0, 43, 0xB8FBAF4762FBE617int);
    assert(0xB8FBAF4762FB4C38int * 0xB8FBAF4762FB4C38int <= 0x85AAC367CC480394int * 0x10000000000000000int);
    assert(0x85AAC367CC48E1F2int * 0x10000000000000000int <= 0xB8FBAF4762FBE617int * 0xB8FBAF4762FBE617int);
    lemma_chain_upper(0x26781164C82DF6int, 1, 0xB8FBAF4762FB4C38int, 43, 64, 0x85AAC367CC480394int);
    lemma_chain_lower(0x26781164C82E06int, 1, 0xB8FBAF4762FBE617int, 43, 64, 0x85AAC367CC48E1F2int);
    assert(0x85AAC367CC480394int * 0x85AAC367CC480394int <= 0x8B95C1E3EA8ADD51int * 0x8000000000000000int);
    assert(0x8B95C1E3EA8CADBDint * 0x8000000000000000int <= 0x85AAC367CC48E1F2int * 0x85AAC367CC48E1F2int);
    lemma_chain_upper(0x26781164C82DF6int, 2, 0x85AAC367CC480394int, 150, 63, 0x8B95C1E3EA8ADD51int);
    lemma_chain_lower(0x26781164C82E06int, 2, 0x85AAC367CC48E1F2int, 150, 63, 0x8B95C1E3EA8CADBDint);
    assert(0x8B95C1E3EA8ADD51int * 0x8B95C1E3EA8ADD51int <= 0x9837F0518DB68916int * 0x8000000000000000int);
    assert(0x9837F0518DBA7DFEint * 0x8000000000000000int <= 0x8B95C1E3EA8CADBDint * 0x8B95C1E3EA8CADBDint);
    lemma_chain_upper(0x26781164C82DF6int, 3, 0x8B95C1E3EA8ADD51int, 363, 63, 0x9837F0518DB68916int);
    lemma_chain_lower(0x26781164C82E06int, 3, 0x8B95C1E3EA8CADBDint, 363, 63, 0x9837F0518DBA7DFEint);
    assert(0x9837F0518DB68916int * 0x9837F0518DB68916int <= 0xB504F333F9D955D5int * 0x8000000000000000int);
    assert(0xB504F333F9E2BEF0int * 0x8000000000000000int <= 0x9837F0518DBA7DFEint * 0x9837F0518DBA7DFEint);
    lemma_chain_upper(0x26781164C82DF6int, 4, 0x9837F0518DB68916int, 789, 63, 0xB504F333F9D955D5int);
    lemma_chain_lower(0x26781164C82E06int, 4, 0x9837F0518DBA7DFEint, 789, 63, 0xB504F333F9E2BEF0int);
    assert(0xB504F333F9D955D5int * 0xB504F333F9D955D5int <= 0xFFFFFFFFFFF1B214int * 0x8000000000000000int);
    assert(0x100000000000C500Eint * 0x8000000000000000int <= 0xB504F333F9E2BEF0int * 0xB504F333F9E2BEF0int);
    lemma_chain_upper(0x26781164C82DF6int, 5, 0xB504F333F9D955D5int, 1641, 63, 0xFFFFFFFFFFF1B214int);
    lemma_chain_lower(0x26781164C82E06int, 5, 0xB504F333F9E2BEF0int, 1641, 63, 0x100000000000C500Eint);
    lemma_chains_round(0x3FE3_3C08_B264_16FFu64, 17, 6, 8, 0x26781164C82DF6int, 0x26781164C82E06int, 0xFFFFFFFFFFF1B214int, 0x100000000000C500Eint, 3345, 64);
}

/// Boundary 19 of schema 6, checked through its squaring chains.
proof fn rounded_6_19()
    ensures
        near_root(0x3FE3_A7DB_34E5_9FF6u64, 19, 6),
{
    lemma2_to64();
    lemma2_to64_rest();
    lemma_chain_start(0x274FB669CB3FE4int);
    lemma_chain_start(0x274FB669CB3FF4int);
    assert(0x274FB669CB3FE4int * 0x274FB669CB3FE4int <= 0xC12C4CCA667033BEint * 0x80000000000int);
    assert(0xC12C4CCA6670D0FCint * 0x80000000000int <= 0x274FB669CB3FF4int * 0x274FB669CB3FF4int);
    lemma_chain_upper(0x274FB669CB3FE4int, 0, 0x274FB669CB3FE4int, 0, 43, 0xC12C4CCA667033BEint);
    lemma_chain_lower(0x274FB669CB3FF4int, 0, 0x274FB669CB3FF4int, 0, 43, 0xC12C4CCA6670D0FCint);
    assert(0xC12C4CCA667033BEint * 0xC12C4CCA667033BEint <= 0x91C3D373AB11316Fint * 0x10000000000000000int);
    assert(0x91C3D373AB121EBCint * 0x10000000000000000int <= 0xC12C4CCA6670D0FCint * 0xC12C4CCA6670D0FCint);
    lemma_chain_upper(0x274FB669CB3FE4int, 1, 0xC12C4CCA667033BEint, 43, 64, 0x91C3D373AB11316Fint);
    lemma_chain_lower(0x274FB669CB3FF4int, 1, 0xC12C4CCA6670D0FCint, 43, 64, 0x91C3D373AB121EBCint);
    assert(0x91C3D373AB11316Fint * 0x91C3D373AB11316Fint <= 0xA5FED6A9B14FECE6int * 0x8000000000000000int);
    assert(0xA5FED6A9B152095Dint * 0x8000000000000000int <= 0x91C3D373AB121EBCint * 0x91C3D373AB121EBCint);
    lemma_chain_upper(0x274FB669CB3FE4int, 2, 0x91C3D373AB11316Fint, 150, 63, 0xA5FED6A9B14FECE6int);
    lemma_chain_lower(0x274FB669CB3FF4int, 2, 0x91C3D373AB121EBCint, 150, 63, 0xA5FED6A9B152095Dint);
    assert(0xA5FED6A9B14FECE6int * 0xA5FED6A9B14FECE6int <= 0xD744FCCAD69A0DD0int * 0x8000000000000000int);
    assert(0xD744FCCAD69F879Aint * 0x8000000000000000int <= 0xA5FED6A9B152095Dint * 0xA5FED6A9B152095Dint);
    lemma_chain_upper(0x274FB669CB3FE4int, 3, 0xA5FED6A9B14FECE6int, 363, 63, 0xD744FCCAD69A0DD0int);
    lemma_chain_lower(0x274FB669CB3FF4int, 3, 0xA5FED6A9B152095Dint, 363, 63, 0xD744FCCAD69F879Aint);
    assert(0xD744FCCAD69A0DD0int * 0xD744FCCAD69A0DD0int <= 0xB504F333F9D8BC42int * 0x10000000000000000int);
    assert(0xB504F333F9E1F1C6int * 0x10000000000000000int <= 0xD744FCCAD69F879Aint * 0xD744FCCAD69F879Aint);
    lemma_chain_upper(0x274FB669CB3FE4int, 4, 0xD744FCCAD69A0DD0int, 789, 64, 0xB504F333F9D8BC42int);
    lemma_chain_lower(0x274FB669CB3FF4int, 4, 0xD744FCCAD69F879Aint, 789, 64, 0xB504F333F9E1F1C6int);
    assert(0xB504F333F9D8BC42int * 0xB504F333F9D8BC42int <= 0xFFFFFFFFFFEFFFB5int * 0x8000000000000000int);
    assert(0x100000000000A0BC3int * 0x8000000000000000int <= 0xB504F333F9E1F1C6int * 0xB504F333F9E1F1C6int);
    lemma_chain_upper(0x274FB669CB3FE4int, 5, 0xB504F333F9D8BC42int, 1642, 63, 0xFFFFFFFFFFEFFFB5int);
    lemma_chain_lower(0x274FB669CB3FF4int, 5, 0xB504F333F9E1F1C6int, 1642, 63, 0x100000000000A0BC3int);
    lemma_chains_round(0x3FE3_A7DB_34E5_9FF6u64, 19, 6, 8, 0x274FB669CB3FE4int, 0x274FB669CB3FF4int, 0xFFFFFFFFFFEFFFB5int, 0x100000000000A0BC3int, 3347, 64);
}

/// Boundary 21 of schema 6, checked through its squaring chains.
proof fn rounded_6_21()
    ensures
        near_root(0x3FE4_160A_21F7_2E2Au64, 21, 6),
{
    lemma2_to64();
    lemma2_to64_rest();
    lemma_chain_start(0x282C1443EE5C4Cint);
    lemma_chain_start(0x282C1443EE5C5Cint);
    assert(0x282C1443EE5C4Cint * 0x282C1443EE5C4Cint <= 0xC9B9BD866E2ED7E6int * 0x80000000000int);
    assert(0xC9B9BD866E2F7896int * 0x80000000000int <= 0x282C1443EE5C5Cint * 0x282C1443EE5C5Cint);
    lemma_chain_upper(0x282C1443EE5C4Cint, 0, 0x282C1443EE5C4Cint, 0, 43, 0xC9B9BD866E2ED7E6int);
    lemma_chain_lower(0x282C1443EE5C5Cint, 0, 0x282C1443EE5C5Cint, 0, 43, 0xC9B9BD866E2F7896int);
    assert(0xC9B9BD866E2ED7E6int * 0xC9B9BD866E2ED7E6int <= 0x9EF5326091A09404int * 0x10000000000000000int);
    assert(0x9EF5326091A19141int * 0x10000000000000000int <= 0xC9B9BD866E2F7896int * 0xC9B9BD866E2F7896int);
    lemma_chain_upper(0x282C1443EE5C4Cint, 1, 0xC9B9BD866E2ED7E6int, 43, 64, 0x9EF5326091A09404int);
    lemma_chain_lower(0x282C1443EE5C5Cint, 1, 0xC9B9BD866E2F7896int, 43, 64, 0x9EF5326091A19141int);
    assert(0x9EF5326091A09404int * 0x9EF5326091A09404int <= 0xC5672A115505A2C2int * 0x8000000000000000int);
    assert(0xC5672A11550817B9int * 0x8000000000000000int <= 0x9EF5326091A19141int * 0x9EF5326091A19141int);
    lemma_chain_upper(0x282C1443EE5C4Cint, 2, 0x9EF5326091A09404int, 150, 63, 0xC5672A115505A2C2int);
    lemma_chain_lower(0x282C1443EE5C5Cint, 2, 0x9EF5326091A19141int, 150, 63, 0xC5672A11550817B9int);
    assert(0xC5672A115505A2C2int * 0xC5672A115505A2C2int <= 0x9837F0518DB6C81Aint * 0x10000000000000000int);
    assert(0x9837F0518DBA9218int * 0x10000000000000000int <= 0xC5672A11550817B9int * 0xC5672A11550817B9int);
    lemma_chain_upper(0x282C1443EE5C4Cint, 3, 0xC5672A115505A2C2int, 363, 64, 0x9837F0518DB6C81Aint);
    lemma_chain_lower(0x282C1443EE5C5Cint, 3, 0xC5672A11550817B9int, 363, 64, 0x9837F0518DBA9218int);
    assert(0x9837F0518DB6C81Aint * 0x9837F0518DB6C81Aint <= 0xB504F333F9D9EBB6int * 0x8000000000000000int);
    assert(0xB504F333F9E2EEC0int * 0x8000000000000000int <= 0x9837F0518DBA9218int * 0x9837F0518DBA9218int);
    lemma_chain_upper(0x282C1443EE5C4Cint, 4, 0x9837F0518DB6C81Aint, 790, 63, 0xB504F333F9D9EBB6int);
    lemma_chain_lower(0x282C1443EE5C5Cint, 4, 0x9837F0518DBA9218int, 790, 63, 0xB504F333F9E2EEC0int);
    assert(0xB504F333F9D9EBB6int * 0xB504F333F9D9EBB6int <= 0xFFFFFFFFFFF35A00int * 0x8000000000000000int);
    assert(0x100000000000CD74Aint * 0x8000000000000000int <= 0xB504F333F9E2EEC0int * 0xB504F333F9E2EEC0int);
    lemma_chain_upper(0x282C1443EE5C4Cint, 5, 0xB504F333F9D9EBB6int, 1643, 63, 0xFFFFFFFFFFF35A00int);
    lemma_chain_lower(0x282C1443EE5C5Cint, 5, 0xB504F333F9E2EEC0int, 1643, 63, 0x100000000000CD74Aint);
    lemma_chains_round(0x3FE4_160A_21F7_2E2Au64, 21, 6, 8, 0x282C1443EE5C4Cint, 0x282C1443EE5C5Cint, 0xFFFFFFFFFFF35A00int, 0x100000000000CD74Aint, 3349, 64);
}

/// Boundary 23 of schema 6, checked through its squaring chains.
proof fn rounded_6_23()
    ensures
        near_root(0x3FE4_86A2_B5C1_3CD0u64, 23, 6),
{
    lemma2_to64();
    lemma2_to64_rest();
    lemma_chain_start(0x290D456B827998int);
    lemma_chain_start(0x290D456B8279A8int);
    assert(0x290D456B827998int * 0x290D456B827998int <= 0xD2A81D91F12A90ABint * 0x80000000000int);
    assert(0xD2A81D91F12B34DFint * 0x80000000000int <= 0x290D456B8279A8int * 0x290D456B8279A8int);
    lemma_chain_upper(0x290D456B827998int, 0, 0x290D456B827998int, 0, 43, 0xD2A81D91F12A90ABint);
    lemma_chain_lower(0x290D456B8279A8int, 0, 0x290D456B8279A8int, 0, 43, 0xD2A81D91F12B34DFint);
    assert(0xD2A81D91F12A90ABint * 0xD2A81D91F12A90ABint <= 0xAD583EEA42A0C10Eint * 0x10000000000000000int);
    assert(0xAD583EEA42A1CF4Aint * 0x10000000000000000int <= 0xD2A81D91F12B34DFint * 0xD2A81D91F12B34DFint);
    lemma_chain_upper(0x290D456B827998int, 1, 0xD2A81D91F12A90ABint, 43, 64, 0xAD583EEA42A0C10Eint);
    lemma_chain_lower(0x290D456B8279A8int, 1, 0xD2A81D91F12B34DFint, 43, 64, 0xAD583EEA42A1CF4Aint);
    assert(0xAD583EEA42A0C10Eint * 0xAD583EEA42A0C10Eint <= 0xEAC0C6E7DD22C42Bint * 0x8000000000000000int);
    assert(0xEAC0C6E7DD25A019int * 0x8000000000000000int <= 0xAD583EEA42A1CF4Aint * 0xAD583EEA42A1CF4Aint);
    lemma_chain_upper(0x290D456B827998int, 2, 0xAD583EEA42A0C10Eint, 150, 63, 0xEAC0C6E7DD22C42Bint);
    lemma_chain_lower(0x290D456B8279A8int, 2, 0xAD583EEA42A1CF4Aint, 150, 63, 0xEAC0C6E7DD25A019int);
    assert(0xEAC0C6E7DD22C42Bint * 0xEAC0C6E7DD22C42Bint <= 0xD744FCCAD69ABED8int * 0x10000000000000000int);
    assert(0xD744FCCAD69FFD34int * 0x10000000000000000int <= 0xEAC0C6E7DD25A019int * 0xEAC0C6E7DD25A019int);
    lemma_chain_upper(0x290D456B827998int, 3, 0xEAC0C6E7DD22C42Bint, 363, 64, 0xD744FCCAD69ABED8int);
    lemma_chain_lower(0x290D456B8279A8int, 3, 0xEAC0C6E7DD25A019int, 363, 64, 0xD744FCCAD69FFD34int);
    assert(0xD744FCCAD69ABED8int * 0xD744FCCAD69ABED8int <= 0xB504F333F9D9E5FDint * 0x10000000000000000int);
    assert(0xB504F333F9E2B78Eint * 0x10000000000000000int <= 0xD744FCCAD69FFD34int * 0xD744FCCAD69FFD34int);
    lemma_chain_upper(0x290D456B827998int, 4, 0xD744FCCAD69ABED8int, 790, 64, 0xB504F333F9D9E5FDint);
    lemma_chain_lower(0x290D456B8279A8int, 4, 0xD744FCCAD69FFD34int, 790, 64, 0xB504F333F9E2B78Eint);
    assert(0xB504F333F9D9E5FDint * 0xB504F333F9D9E5FDint <= 0xFFFFFFFFFFF349D1int * 0x8000000000000000int);
    assert(0x100000000000C3B2Cint * 0x8000000000000000int <= 0xB504F333F9E2B78Eint * 0xB504F333F9E2B78Eint);
    lemma_chain_upper(0x290D456B827998int, 5, 0xB504F333F9D9E5FDint, 1644, 63, 0xFFFFFFFFFFF349D1int);
    lemma_chain_lower(0x290D456B8279A8int, 5, 0xB504F333F9E2B78Eint, 1644, 63, 0x100000000000C3B2Cint);
    lemma_chains_round(0x3FE4_86A2_B5C1_3CD0u64, 23, 6, 8, 0x290D456B827998int, 0x290D456B8279A8int, 0xFFFFFFFFFFF349D1int, 0x100000000000C3B2Cint, 3351, 64);
}

/// Boundary 25 of schema 6, checked through its squaring chains.
proof fn rounded_6_25()
    ensures
        near_root(0x3FE4_F9B2_769D_2CA7u64, 25, 6),
{
    lemma2_to64();
    lemma2_to64_rest();
    lemma_chain_start(0x29F364ED3A5946int);
    lemma_chain_start(0x29F364ED3A5956int);
    assert(0x29F364ED3A5946int * 0x29F364ED3A5946int <= 0xDBFBB797DAF1EA38int * 0x80000000000int);
    assert(0xDBFBB797DAF29204int * 0x80000000000int <= 0x29F364ED3A5956int * 0x29F364ED3A5956int);
    lemma_chain_upper(0x29F364ED3A5946int, 0, 0x29F364ED3A5946int, 0, 43, 0xDBFBB797DAF1EA38int);
    lemma_chain_lower(0x29F364ED3A5956int, 0, 0x29F364ED3A5956int, 0, 43, 0xDBFBB797DAF29204int);
    assert(0xDBFBB797DAF1EA38int * 0xDBFBB797DAF1EA38int <= 0xBD08A39F580BB237int * 0x10000000000000000int);
    assert(0xBD08A39F580CD297int * 0x10000000000000000int <= 0xDBFBB797DAF29204int * 0xDBFBB797DAF29204int);
    lemma_chain_upper(0x29F364ED3A5946int, 1, 0xDBFBB797DAF1EA38int, 43, 64, 0xBD08A39F580BB237int);
    lemma_chain_lower(0x29F364ED3A5956int, 1, 0xDBFBB797DAF29204int, 43, 64, 0xBD08A39F580CD297int);
    assert(0xBD08A39F580BB237int * 0xBD08A39F580BB237int <= 0x8B95C1E3EA8B132Eint * 0x10000000000000000int);
    assert(0x8B95C1E3EA8CBD0Eint * 0x10000000000000000int <= 0xBD08A39F580CD297int * 0xBD08A39F580CD297int);
    lemma_chain_upper(0x29F364ED3A5946int, 2, 0xBD08A39F580BB237int, 150, 64, 0x8B95C1E3EA8B132Eint);
    lemma_chain_lower(0x29F364ED3A5956int, 2, 0xBD08A39F580CD297int, 150, 64, 0x8B95C1E3EA8CBD0Eint);
    assert(0x8B95C1E3EA8B132Eint * 0x8B95C1E3EA8B132Eint <= 0x9837F0518DB6FE90int * 0x8000000000000000int);
    assert(0x9837F0518DBA9F66int * 0x8000000000000000int <= 0x8B95C1E3EA8CBD0Eint * 0x8B95C1E3EA8CBD0Eint);
    lemma_chain_upper(0x29F364ED3A5946int, 3, 0x8B95C1E3EA8B132Eint, 364, 63, 0x9837F0518DB6FE90int);
    lemma_chain_lower(0x29F364ED3A5956int, 3, 0x8B95C1E3EA8CBD0Eint, 364, 63, 0x9837F0518DBA9F66int);
    assert(0x9837F0518DB6FE90int * 0x9837F0518DB6FE90int <= 0xB504F333F9DA6D3Dint * 0x8000000000000000int);
    assert(0xB504F333F9E30E65int * 0x8000000000000000int <= 0x9837F0518DBA9F66int * 0x9837F0518DBA9F66int);
    lemma_chain_upper(0x29F364ED3A5946int, 4, 0x9837F0518DB6FE90int, 791, 63, 0xB504F333F9DA6D3Dint);
    lemma_chain_lower(0x29F364ED3A5956int, 4, 0x9837F0518DBA9F66int, 791, 63, 0xB504F333F9E30E65int);
    assert(0xB504F333F9DA6D3Dint * 0xB504F333F9DA6D3Dint <= 0xFFFFFFFFFFF4C85Cint * 0x8000000000000000int);
    assert(0x100000000000D30CBint * 0x8000000000000000int <= 0xB504F333F9E30E65int * 0xB504F333F9E30E65int);
    lemma_chain_upper(0x29F364ED3A5946int, 5, 0xB504F333F9DA6D3Dint, 1645, 63, 0xFFFFFFFFFFF4C85Cint);
    lemma_chain_lower(0x29F364ED3A5956int, 5, 0xB504F333F9E30E65int, 1645, 63, 0x100000000000D30CBint);
    lemma_chains_round(0x3FE4_F9B2_769D_2CA7u64, 25, 6, 8, 0x29F364ED3A5946int, 0x29F364ED3A5956int, 0xFFFFFFFFFFF4C85Cint, 0x100000000000D30CBint, 3353, 64);
}

/// Boundary 27 of schema 6, checked through its squaring chains.
proof fn rounded_6_27()
    ensures
        near_root(0x3FE5_6F47_36B5_27DAu64, 27, 6),
{
    lemma2_to64();
    lemma2_to64_rest();
    lemma_chain_start(0x2ADE8E6D6A4FACint);
    lemma_chain_start(0x2ADE8E6D6A4FBCint);
    assert(0x2ADE8E6D6A4FACint * 0x2ADE8E6D6A4FACint <= 0xE5B906E77C82EA4Dint * 0x80000000000int);
    assert(0xE5B906E77C8395C7int * 0x80000000000int <= 0x2ADE8E6D6A4FBCint * 0x2ADE8E6D6A4FBCint);
    lemma_chain_upper(0x2ADE8E6D6A4FACint, 0, 0x2ADE8E6D6A4FACint, 0, 43, 0xE5B906E77C82EA4Dint);
    lemma_chain_lower(0x2ADE8E6D6A4FBCint, 0, 0x2ADE8E6D6A4FBCint, 0, 43, 0xE5B906E77C8395C7int);
    assert(0xE5B906E77C82EA4Dint * 0xE5B906E77C82EA4Dint <= 0xCE248C151F83D78Dint * 0x10000000000000000int);
    assert(0xCE248C151F850B4Cint * 0x10000000000000000int <= 0xE5B906E77C8395C7int * 0xE5B906E77C8395C7int);
    lemma_chain_upper(0x2ADE8E6D6A4FACint, 1, 0xE5B906E77C82EA4Dint, 43, 64, 0xCE248C151F83D78Dint);
    lemma_chain_lower(0x2ADE8E6D6A4FBCint, 1, 0xE5B906E77C8395C7int, 43, 64, 0xCE248C151F850B4Cint);
    assert(0xCE248C151F83D78Dint * 0xCE248C151F83D78Dint <= 0xA5FED6A9B1502832int * 0x10000000000000000int);
    assert(0xA5FED6A9B15217D1int * 0x10000000000000000int <= 0xCE248C151F850B4Cint * 0xCE248C151F850B4Cint);
    lemma_chain_upper(0x2ADE8E6D6A4FACint, 2, 0xCE248C151F83D78Dint, 150, 64, 0xA5FED6A9B1502832int);
    lemma_chain_lower(0x2ADE8E6D6A4FBCint, 2, 0xCE248C151F850B4Cint, 150, 64, 0xA5FED6A9B15217D1int);
    assert(0xA5FED6A9B1502832int * 0xA5FED6A9B1502832int <= 0xD744FCCAD69AA79Cint * 0x8000000000000000int);
    assert(0xD744FCCAD69FAD17int * 0x8000000000000000int <= 0xA5FED6A9B15217D1int * 0xA5FED6A9B15217D1int);
    lemma_chain_upper(0x2ADE8E6D6A4FACint, 3, 0xA5FED6A9B1502832int, 364, 63, 0xD744FCCAD69AA79Cint);
    lemma_chain_lower(0x2ADE8E6D6A4FBCint, 3, 0xA5FED6A9B15217D1int, 364, 63, 0xD744FCCAD69FAD17int);
    assert(0xD744FCCAD69AA79Cint * 0xD744FCCAD69AA79Cint <= 0xB504F333F9D9BEE9int * 0x10000000000000000int);
    assert(0xB504F333F9E230D2int * 0x10000000000000000int <= 0xD744FCCAD69FAD17int * 0xD744FCCAD69FAD17int);
    lemma_chain_upper(0x2ADE8E6D6A4FACint, 4, 0xD744FCCAD69AA79Cint, 791, 64, 0xB504F333F9D9BEE9int);
    lemma_chain_lower(0x2ADE8E6D6A4FBCint, 4, 0xD744FCCAD69FAD17int, 791, 64, 0xB504F333F9E230D2int);
    assert(0xB504F333F9D9BEE9int * 0xB504F333F9D9BEE9int <= 0xFFFFFFFFFFF2DB49int * 0x8000000000000000int);
    assert(0x100000000000ABE16int * 0x8000000000000000int <= 0xB504F333F9E230D2int * 0xB504F333F9E230D2int);
    lemma_chain_upper(0x2ADE8E6D6A4FACint, 5, 0xB504F333F9D9BEE9int, 1646, 63, 0xFFFFFFFFFFF2DB49int);
    lemma_chain_lower(0x2ADE8E6D6A4FBCint, 5, 0xB504F333F9E230D2int, 1646, 63, 0x100000000000ABE16int);
    lemma_chains_round(0x3FE5_6F47_36B5_27DAu64, 27, 6, 8, 0x2ADE8E6D6A4FACint, 0x2ADE8E6D6A4FBCint, 0xFFFFFFFFFFF2DB49int, 0x100000000000ABE16int, 3355, 64);
}

/// Boundary 29 of schema 6, checked through its squaring chains.
proof fn rounded_6_29()
    ensures
        near_root(0x3FE5_E76F_15AD_2148u64, 29, 6),
{
    lemma2_to64();
    lemma2_to64_rest();
    lemma_chain_start(0x2BCEDE2B5A4288int);
    lemma_chain_start(0x2BCEDE2B5A4298int);
    assert(0x2BCEDE2B5A4288int * 0x2BCEDE2B5A4288int <= 0xEFE4B99BDCDA94B7int * 0x80000000000int);
    assert(0xEFE4B99BDCDB43F2int * 0x80000000000int <= 0x2BCEDE2B5A4298int * 0x2BCEDE2B5A4298int);
    lemma_chain_upper(0x2BCEDE2B5A4288int, 0, 0x2BCEDE2B5A4288int, 0, 43, 0xEFE4B99BDCDA94B7int);
    lemma_chain_lower(0x2BCEDE2B5A4298int, 0, 0x2BCEDE2B5A4298int, 0, 43, 0xEFE4B99BDCDB43F2int);
    assert(0xEFE4B99BDCDA94B7int * 0xEFE4B99BDCDA94B7int <= 0xE0CCDEEC2A942B20int * 0x10000000000000000int);
    assert(0xE0CCDEEC2A957388int * 0x10000000000000000int <= 0xEFE4B99BDCDB43F2int * 0xEFE4B99BDCDB43F2int);
    lemma_chain_upper(0x2BCEDE2B5A4288int, 1, 0xEFE4B99BDCDA94B7int, 43, 64, 0xE0CCDEEC2A942B20int);
    lemma_chain_lower(0x2BCEDE2B5A4298int, 1, 0xEFE4B99BDCDB43F2int, 43, 64, 0xE0CCDEEC2A957388int);
    assert(0xE0CCDEEC2A942B20int * 0xE0CCDEEC2A942B20int <= 0xC5672A1155059B55int * 0x10000000000000000int);
    assert(0xC5672A115507DC17int * 0x10000000000000000int <= 0xE0CCDEEC2A957388int * 0xE0CCDEEC2A957388int);
    lemma_chain_upper(0x2BCEDE2B5A4288int, 2, 0xE0CCDEEC2A942B20int, 150, 64, 0xC5672A1155059B55int);
    lemma_chain_lower(0x2BCEDE2B5A4298int, 2, 0xE0CCDEEC2A957388int, 150, 64, 0xC5672A115507DC17int);
    assert(0xC5672A1155059B55int * 0xC5672A1155059B55int <= 0x9837F0518DB6BCA7int * 0x10000000000000000int);
    assert(0x9837F0518DBA3621int * 0x10000000000000000int <= 0xC5672A115507DC17int * 0xC5672A115507DC17int);
    lemma_chain_upper(0x2BCEDE2B5A4288int, 3, 0xC5672A1155059B55int, 364, 64, 0x9837F0518DB6BCA7int);
    lemma_chain_lower(0x2BCEDE2B5A4298int, 3, 0xC5672A115507DC17int, 364, 64, 0x9837F0518DBA3621int);
    assert(0x9837F0518DB6BCA7int * 0x9837F0518DB6BCA7int <= 0xB504F333F9D9D07Aint * 0x8000000000000000int);
    assert(0xB504F333F9E21405int * 0x8000000000000000int <= 0x9837F0518DBA3621int * 0x9837F0518DBA3621int);
    lemma_chain_upper(0x2BCEDE2B5A4288int, 4, 0x9837F0518DB6BCA7int, 792, 63, 0xB504F333F9D9D07Aint);
    lemma_chain_lower(0x2BCEDE2B5A4298int, 4, 0x9837F0518DBA3621int, 792, 63, 0xB504F333F9E21405int);
    assert(0xB504F333F9D9D07Aint * 0xB504F333F9D9D07Aint <= 0xFFFFFFFFFFF30CF9int * 0x8000000000000000int);
    assert(0x100000000000A6CA0int * 0x8000000000000000int <= 0xB504F333F9E21405int * 0xB504F333F9E21405int);
    lemma_chain_upper(0x2BCEDE2B5A4288int, 5, 0xB504F333F9D9D07Aint, 1647, 63, 0xFFFFFFFFFFF30CF9int);
    lemma_chain_lower(0x2BCEDE2B5A4298int, 5, 0xB504F333F9E21405int, 1647, 63, 0x100000000000A6CA0int);
    lemma_chains_round(0x3FE5_E76F_15AD_2148u64, 29, 6, 8, 0x2BCEDE2B5A4288int, 0x2BCEDE2B5A4298int, 0xFFFFFFFFFFF30CF9int, 0x100000000000A6CA0int, 3357, 64);
}

/// Boundary 31 of schema 6, checked through its squaring chains.
proof fn rounded_6_31()
    ensures
        near_root(0x3FE6_6238_8255_2224u64, 31, 6),
{
    lemma2_to64();
    lemma2_to64_rest();
    lemma_chain_start(0x2CC47104AA4440int);
    lemma_chain_start(0x2CC47104AA4450int);
    assert(0x2CC47104AA4440int * 0x2CC47104AA4440int <= 0xFA83B2DB72299D01int * 0x80000000000int);
    assert(0xFA83B2DB722A5012int * 0x80000000000int <= 0x2CC47104AA4450int * 0x2CC47104AA4450int);
    lemma_chain_upper(0x2CC47104AA4440int, 0, 0x2CC47104AA4440int, 0, 43, 0xFA83B2DB72299D01int);
    lemma_chain_lower(0x2CC47104AA4450int, 0, 0x2CC47104AA4450int, 0, 43, 0xFA83B2DB722A5012int);
    assert(0xFA83B2DB72299D01int * 0xFA83B2DB72299D01int <= 0xF5257D152486041Cint * 0x10000000000000000int);
    assert(0xF5257D1524876290int * 0x10000000000000000int <= 0xFA83B2DB722A5012int * 0xFA83B2DB722A5012int);
    lemma_chain_upper(0x2CC47104AA4440int, 1, 0xFA83B2DB72299D01int, 43, 64, 0xF5257D152486041Cint);
    lemma_chain_lower(0x2CC47104AA4450int, 1, 0xFA83B2DB722A5012int, 43, 64, 0xF5257D1524876290int);
    assert(0xF5257D152486041Cint * 0xF5257D152486041Cint <= 0xEAC0C6E7DD22BA05int * 0x10000000000000000int);
    assert(0xEAC0C6E7DD255935int * 0x10000000000000000int <= 0xF5257D1524876290int * 0xF5257D1524876290int);
    lemma_chain_upper(0x2CC47104AA4440int, 2, 0xF5257D152486041Cint, 150, 64, 0xEAC0C6E7DD22BA05int);
    lemma_chain_lower(0x2CC47104AA4450int, 2, 0xF5257D1524876290int, 150, 64, 0xEAC0C6E7DD255935int);
    assert(0xEAC0C6E7DD22BA05int * 0xEAC0C6E7DD22BA05int <= 0xD744FCCAD69AAC3Bint * 0x10000000000000000int);
    assert(0xD744FCCAD69F7B31int * 0x10000000000000000int <= 0xEAC0C6E7DD255935int * 0xEAC0C6E7DD255935int);
    lemma_chain_upper(0x2CC47104AA4440int, 3, 0xEAC0C6E7DD22BA05int, 364, 64, 0xD744FCCAD69AAC3Bint);
    lemma_chain_lower(0x2CC47104AA4450int, 3, 0xEAC0C6E7DD255935int, 364, 64, 0xD744FCCAD69F7B31int);
    assert(0xD744FCCAD69AAC3Bint * 0xD744FCCAD69AAC3Bint <= 0xB504F333F9D9C6AFint * 0x10000000000000000int);
    assert(0xB504F333F9E1DCE7int * 0x10000000000000000int <= 0xD744FCCAD69F7B31int * 0xD744FCCAD69F7B31int);
    lemma_chain_upper(0x2CC47104AA4440int, 4, 0xD744FCCAD69AAC3Bint, 792, 64, 0xB504F333F9D9C6AFint);
    lemma_chain_lower(0x2CC47104AA4450int, 4, 0xD744FCCAD69F7B31int, 792, 64, 0xB504F333F9E1DCE7int);
    assert(0xB504F333F9D9C6AFint * 0xB504F333F9D9C6AFint <= 0xFFFFFFFFFFF2F146int * 0x8000000000000000int);
    assert(0x1000000000009D0BBint * 0x8000000000000000int <= 0xB504F333F9E1DCE7int * 0xB504F333F9E1DCE7int);
    lemma_chain_upper(0x2CC47104AA4440int, 5, 0xB504F333F9D9C6AFint, 1648, 63, 0xFFFFFFFFFFF2F146int);
    lemma_chain_lower(0x2CC47104AA4450int, 5, 0xB504F333F9E1DCE7int, 1648, 63, 0x1000000000009D0BBint);
    lemma_chains_round(0x3FE6_6238_8255_2224u64, 31, 6, 8, 0x2CC47104AA4440int, 0x2CC47104AA4450int, 0xFFFFFFFFFFF2F146int, 0x1000000000009D0BBint, 3359, 64);
}

/// Boundary 33 of schema 6, checked through its squaring chains.
proof fn rounded_6_33()
    ensures
        near_root(0x3FE6_DFB2_3C65_1A2Eu64, 33, 6),
{
    lemma2_to64();
    lemma2_to64_rest();
    lemma_chain_start(0x2DBF6478CA3454int);
    lemma_chain_start(0x2DBF6478CA3464int);
    assert(0x2DBF6478CA3454int * 0x2DBF6478CA3454int <= 0x82CD8698AC2B6947int * 0x100000000000int);
    assert(0x82CD8698AC2BC4C5int * 0x100000000000int <= 0x2DBF6478CA3464int * 0x2DBF6478CA3464int);
    lemma_chain_upper(0x2DBF6478CA3454int, 0, 0x2DBF6478CA3454int, 0, 44, 0x82CD8698AC2B6947int);
    lemma_chain_lower(0x2DBF6478CA3464int, 0, 0x2DBF6478CA3464int, 0, 44, 0x82CD8698AC2BC4C5int);
    assert(0x82CD8698AC2B6947int * 0x82CD8698AC2B6947int <= 0x85AAC367CC48077Bint * 0x8000000000000000int);
    assert(0x85AAC367CC48C277int * 0x8000000000000000int <= 0x82CD8698AC2BC4C5int * 0x82CD8698AC2BC4C5int);
    lemma_chain_upper(0x2DBF6478CA3454int, 1, 0x82CD8698AC2B6947int, 44, 63, 0x85AAC367CC48077Bint);
    lemma_chain_lower(0x2DBF6478CA3464int, 1, 0x82CD8698AC2BC4C5int, 44, 63, 0x85AAC367CC48C277int);
    assert(0x85AAC367CC48077Bint * 0x85AAC367CC48077Bint <= 0x8B95C1E3EA8AE577int * 0x8000000000000000int);
    assert(0x8B95C1E3EA8C6BFDint * 0x8000000000000000int <= 0x85AAC367CC48C277int * 0x85AAC367CC48C277int);
    lemma_chain_upper(0x2DBF6478CA3454int, 2, 0x85AAC367CC48077Bint, 151, 63, 0x8B95C1E3EA8AE577int);
    lemma_chain_lower(0x2DBF6478CA3464int, 2, 0x85AAC367CC48C277int, 151, 63, 0x8B95C1E3EA8C6BFDint);
    assert(0x8B95C1E3EA8AE577int * 0x8B95C1E3EA8AE577int <= 0x9837F0518DB69ADCint * 0x8000000000000000int);
    assert(0x9837F0518DB9EE97int * 0x8000000000000000int <= 0x8B95C1E3EA8C6BFDint * 0x8B95C1E3EA8C6BFDint);
    lemma_chain_upper(0x2DBF6478CA3454int, 3, 0x8B95C1E3EA8AE577int, 365, 63, 0x9837F0518DB69ADCint);
    lemma_chain_lower(0x2DBF6478CA3464int, 3, 0x8B95C1E3EA8C6BFDint, 365, 63, 0x9837F0518DB9EE97int);
    assert(0x9837F0518DB69ADCint * 0x9837F0518DB69ADCint <= 0xB504F333F9D9801Bint * 0x8000000000000000int);
    assert(0xB504F333F9E169DEint * 0x8000000000000000int <= 0x9837F0518DB9EE97int * 0x9837F0518DB9EE97int);
    lemma_chain_upper(0x2DBF6478CA3454int, 4, 0x9837F0518DB69ADCint, 793, 63, 0xB504F333F9D9801Bint);
    lemma_chain_lower(0x2DBF6478CA3464int, 4, 0x9837F0518DB9EE97int, 793, 63, 0xB504F333F9E169DEint);
    assert(0xB504F333F9D9801Bint * 0xB504F333F9D9801Bint <= 0xFFFFFFFFFFF229A6int * 0x8000000000000000int);
    assert(0x10000000000088B5Dint * 0x8000000000000000int <= 0xB504F333F9E169DEint * 0xB504F333F9E169DEint);
    lemma_chain_upper(0x2DBF6478CA3454int, 5, 0xB504F333F9D9801Bint, 1649, 63, 0xFFFFFFFFFFF229A6int);
    lemma_chain_lower(0x2DBF6478CA3464int, 5, 0xB504F333F9E169DEint, 1649, 63, 0x10000000000088B5Dint);
    lemma_chains_round(0x3FE6_DFB2_3C65_1A2Eu64, 33, 6, 8, 0x2DBF6478CA3454int, 0x2DBF6478CA3464int, 0xFFFFFFFFFFF229A6int, 0x10000000000088B5Dint, 3361, 64);
}

/// Boundary 35 of schema 6, checked through its squaring chains.
proof fn rounded_6_35()
    ensures
        near_root(0x3FE7_5FEB_5642_67C8u64, 35, 6),
{
    lemma2_to64();
    lemma2_to64_rest();
    lemma_chain_start(0x2EBFD6AC84CF88int);
    lemma_chain_start(0x2EBFD6AC84CF98int);
    assert(0x2EBFD6AC84CF88int * 0x2EBFD6AC84CF88int <= 0x88980E8092DA4DABint * 0x100000000000int);
    assert(0x88980E8092DAAB29int * 0x100000000000int <= 0x2EBFD6AC84CF98int * 0x2EBFD6AC84CF98int);
    lemma_chain_upper(0x2EBFD6AC84CF88int, 0, 0x2EBFD6AC84CF88int, 0, 44, 0x88980E8092DA4DABint);
    lemma_chain_lower(0x2EBFD6AC84CF98int, 0, 0x2EBFD6AC84CF98int, 0, 44, 0x88980E8092DAAB29int);
    assert(0x88980E8092DA4DABint * 0x88980E8092DA4DABint <= 0x91C3D373AB114CCAint * 0x8000000000000000int);
    assert(0x91C3D373AB121453int * 0x8000000000000000int <= 0x88980E8092DAAB29int * 0x88980E8092DAAB29int);
    lemma_chain_upper(0x2EBFD6AC84CF88int, 1, 0x88980E8092DA4DABint, 44, 63, 0x91C3D373AB114CCAint);
    lemma_chain_lower(0x2EBFD6AC84CF98int, 1, 0x88980E8092DAAB29int, 44, 63, 0x91C3D373AB121453int);
    assert(0x91C3D373AB114CCAint * 0x91C3D373AB114CCAint <= 0xA5FED6A9B1502B33int * 0x8000000000000000int);
    assert(0xA5FED6A9B151F1A7int * 0x8000000000000000int <= 0x91C3D373AB121453int * 0x91C3D373AB121453int);
    lemma_chain_upper(0x2EBFD6AC84CF88int, 2, 0x91C3D373AB114CCAint, 151, 63, 0xA5FED6A9B1502B33int);
    lemma_chain_lower(0x2EBFD6AC84CF98int, 2, 0x91C3D373AB121453int, 151, 63, 0xA5FED6A9B151F1A7int);
    assert(0xA5FED6A9B1502B33int * 0xA5FED6A9B1502B33int <= 0xD744FCCAD69AAF67int * 0x8000000000000000int);
    assert(0xD744FCCAD69F4A1Aint * 0x8000000000000000int <= 0xA5FED6A9B151F1A7int * 0xA5FED6A9B151F1A7int);
    lemma_chain_upper(0x2EBFD6AC84CF88int, 3, 0xA5FED6A9B1502B33int, 365, 63, 0xD744FCCAD69AAF67int);
    lemma_chain_lower(0x2EBFD6AC84CF98int, 3, 0xA5FED6A9B151F1A7int, 365, 63, 0xD744FCCAD69F4A1Aint);
    assert(0xD744FCCAD69AAF67int * 0xD744FCCAD69AAF67int <= 0xB504F333F9D9CC05int * 0x10000000000000000int);
    assert(0xB504F333F9E18A58int * 0x10000000000000000int <= 0xD744FCCAD69F4A1Aint * 0xD744FCCAD69F4A1Aint);
    lemma_chain_upper(0x2EBFD6AC84CF88int, 4, 0xD744FCCAD69AAF67int, 793, 64, 0xB504F333F9D9CC05int);
    lemma_chain_lower(0x2EBFD6AC84CF98int, 4, 0xD744FCCAD69F4A1Aint, 793, 64, 0xB504F333F9E18A58int);
    assert(0xB504F333F9D9CC05int * 0xB504F333F9D9CC05int <= 0xFFFFFFFFFFF3005Dint * 0x8000000000000000int);
    assert(0x1000000000008E738int * 0x8000000000000000int <= 0xB504F333F9E18A58int * 0xB504F333F9E18A58int);
    lemma_chain_upper(0x2EBFD6AC84CF88int, 5, 0xB504F333F9D9CC05int, 1650, 63, 0xFFFFFFFFFFF3005Dint);
    lemma_chain_lower(0x2EBFD6AC84CF98int, 5, 0xB504F333F9E18A58int, 1650, 63, 0x1000000000008E738int);
    lemma_chains_round(0x3FE7_5FEB_5642_67C8u64, 35, 6, 8, 0x2EBFD6AC84CF88int, 0x2EBFD6AC84CF98int, 0xFFFFFFFFFFF3005Dint, 0x1000000000008E738int, 3363, 64);
}

/// Boundary 37 of schema 6, checked through its squaring chains.
proof fn rounded_6_37()
    ensures
        near_root(0x3FE7_E2F3_36CF_4E61u64, 37, 6),
{
    lemma2_to64();
    lemma2_to64_rest();
    lemma_chain_start(0x2FC5E66D9E9CBAint);
    lemma_chain_start(0x2FC5E66D9E9CCAint);
    assert(0x2FC5E66D9E9CBAint * 0x2FC5E66D9E9CBAint <= 0x8EA4398B45CD1746int * 0x100000000000int);
    assert(0x8EA4398B45CD76D1int * 0x100000000000int <= 0x2FC5E66D9E9CCAint * 0x2FC5E66D9E9CCAint);
    lemma_chain_upper(0x2FC5E66D9E9CBAint, 0, 0x2FC5E66D9E9CBAint, 0, 44, 0x8EA4398B45CD1746int);
    lemma_chain_lower(0x2FC5E66D9E9CCAint, 0, 0x2FC5E66D9E9CCAint, 0, 44, 0x8EA4398B45CD76D1int);
    assert(0x8EA4398B45CD1746int * 0x8EA4398B45CD1746int <= 0x9EF5326091A08AE4int * 0x8000000000000000int);
    assert(0x9EF5326091A15FD4int * 0x8000000000000000int <= 0x8EA4398B45CD76D1int * 0x8EA4398B45CD76D1int);
    lemma_chain_upper(0x2FC5E66D9E9CBAint, 1, 0x8EA4398B45CD1746int, 44, 63, 0x9EF5326091A08AE4int);
    lemma_chain_lower(0x2FC5E66D9E9CCAint, 1, 0x8EA4398B45CD76D1int, 44, 63, 0x9EF5326091A15FD4int);
    assert(0x9EF5326091A08AE4int * 0x9EF5326091A08AE4int <= 0xC5672A1155058C18int * 0x8000000000000000int);
    assert(0xC5672A1155079CF7int * 0x8000000000000000int <= 0x9EF5326091A15FD4int * 0x9EF5326091A15FD4int);
    lemma_chain_upper(0x2FC5E66D9E9CBAint, 2, 0x9EF5326091A08AE4int, 151, 63, 0xC5672A1155058C18int);
    lemma_chain_lower(0x2FC5E66D9E9CCAint, 2, 0x9EF5326091A15FD4int, 151, 63, 0xC5672A1155079CF7int);
    assert(0xC5672A1155058C18int * 0xC5672A1155058C18int <= 0x9837F0518DB6A526int * 0x10000000000000000int);
    assert(0x9837F0518DB9D4C7int * 0x10000000000000000int <= 0xC5672A1155079CF7int * 0xC5672A1155079CF7int);
    lemma_chain_upper(0x2FC5E66D9E9CBAint, 3, 0xC5672A1155058C18int, 365, 64, 0x9837F0518DB6A526int);
    lemma_chain_lower(0x2FC5E66D9E9CCAint, 3, 0xC5672A1155079CF7int, 365, 64, 0x9837F0518DB9D4C7int);
    assert(0x9837F0518DB6A526int * 0x9837F0518DB6A526int <= 0xB504F333F9D99894int * 0x8000000000000000int);
    assert(0xB504F333F9E12C7Aint * 0x8000000000000000int <= 0x9837F0518DB9D4C7int * 0x9837F0518DB9D4C7int);
    lemma_chain_upper(0x2FC5E66D9E9CBAint, 4, 0x9837F0518DB6A526int, 794, 63, 0xB504F333F9D99894int);
    lemma_chain_lower(0x2FC5E66D9E9CCAint, 4, 0x9837F0518DB9D4C7int, 794, 63, 0xB504F333F9E12C7Aint);
    assert(0xB504F333F9D99894int * 0xB504F333F9D99894int <= 0xFFFFFFFFFFF26EDEint * 0x8000000000000000int);
    assert(0x1000000000007DDB9int * 0x8000000000000000int <= 0xB504F333F9E12C7Aint * 0xB504F333F9E12C7Aint);
    lemma_chain_upper(0x2FC5E66D9E9CBAint, 5, 0xB504F333F9D99894int, 1651, 63, 0xFFFFFFFFFFF26EDEint);
    lemma_chain_lower(0x2FC5E66D9E9CCAint, 5, 0xB504F333F9E12C7Aint, 1651, 63, 0x1000000000007DDB9int);
    lemma_chains_round(0x3FE7_E2F3_36CF_4E61u64, 37, 6, 8, 0x2FC5E66D9E9CBAint, 0x2FC5E66D9E9CCAint, 0xFFFFFFFFFFF26EDEint, 0x1000000000007DDB9int, 3365, 64);
}

/// Boundary 39 of schema 6, checked through its squaring chains.
proof fn rounded_6_39()
    ensures
        near_root(0x3FE8_68D9_9B44_92EBu64, 39, 6),
{
    lemma2_to64();
    lemma2_to64_rest();
    lemma_chain_start(0x30D1B3368925CEint);
    lemma_chain_start(0x30D1B3368925DEint);
    assert(0x30D1B3368925CEint * 0x30D1B3368925CEint <= 0x94F4EFA8FEF6C636int * 0x100000000000int);
    assert(0x94F4EFA8FEF727D9int * 0x100000000000int <= 0x30D1B3368925DEint * 0x30D1B3368925DEint);
    lemma_chain_upper(0x30D1B3368925CEint, 0, 0x30D1B3368925CEint, 0, 44, 0x94F4EFA8FEF6C636int);
    lemma_chain_lower(0x30D1B3368925DEint, 0, 0x30D1B3368925DEint, 0, 44, 0x94F4EFA8FEF727D9int);
    assert(0x94F4EFA8FEF6C636int * 0x94F4EFA8FEF6C636int <= 0xAD583EEA42A0AE72int * 0x8000000000000000int);
    assert(0xAD583EEA42A191AFint * 0x8000000000000000int <= 0x94F4EFA8FEF727D9int * 0x94F4EFA8FEF727D9int);
    lemma_chain_upper(0x30D1B3368925CEint, 1, 0x94F4EFA8FEF6C636int, 44, 63, 0xAD583EEA42A0AE72int);
    lemma_chain_lower(0x30D1B3368925DEint, 1, 0x94F4EFA8FEF727D9int, 44, 63, 0xAD583EEA42A191AFint);
    assert(0xAD583EEA42A0AE72int * 0xAD583EEA42A0AE72int <= 0xEAC0C6E7DD2291C4int * 0x8000000000000000int);
    assert(0xEAC0C6E7DD24F93Dint * 0x8000000000000000int <= 0xAD583EEA42A191AFint * 0xAD583EEA42A191AFint);
    lemma_chain_upper(0x30D1B3368925CEint, 2, 0xAD583EEA42A0AE72int, 151, 63, 0xEAC0C6E7DD2291C4int);
    lemma_chain_lower(0x30D1B3368925DEint, 2, 0xAD583EEA42A191AFint, 151, 63, 0xEAC0C6E7DD24F93Dint);
    assert(0xEAC0C6E7DD2291C4int * 0xEAC0C6E7DD2291C4int <= 0xD744FCCAD69A6268int * 0x10000000000000000int);
    assert(0xD744FCCAD69ECB2Fint * 0x10000000000000000int <= 0xEAC0C6E7DD24F93Dint * 0xEAC0C6E7DD24F93Dint);
    lemma_chain_upper(0x30D1B3368925CEint, 3, 0xEAC0C6E7DD2291C4int, 365, 64, 0xD744FCCAD69A6268int);
    lemma_chain_lower(0x30D1B3368925DEint, 3, 0xEAC0C6E7DD24F93Dint, 365, 64, 0xD744FCCAD69ECB2Fint);
    assert(0xD744FCCAD69A6268int * 0xD744FCCAD69A6268int <= 0xB504F333F9D94A87int * 0x10000000000000000int);
    assert(0xB504F333F9E0B4E4int * 0x10000000000000000int <= 0xD744FCCAD69ECB2Fint * 0xD744FCCAD69ECB2Fint);
    lemma_chain_upper(0x30D1B3368925CEint, 4, 0xD744FCCAD69A6268int, 794, 64, 0xB504F333F9D94A87int);
    lemma_chain_lower(0x30D1B3368925DEint, 4, 0xD744FCCAD69ECB2Fint, 794, 64, 0xB504F333F9E0B4E4int);
    assert(0xB504F333F9D94A87int * 0xB504F333F9D94A87int <= 0xFFFFFFFFFFF1921Bint * 0x8000000000000000int);
    assert(0x10000000000068B7Cint * 0x8000000000000000int <= 0xB504F333F9E0B4E4int * 0xB504F333F9E0B4E4int);
    lemma_chain_upper(0x30D1B3368925CEint, 5, 0xB504F333F9D94A87int, 1652, 63, 0xFFFFFFFFFFF1921Bint);
    lemma_chain_lower(0x30D1B3368925DEint, 5, 0xB504F333F9E0B4E4int, 1652, 63, 0x10000000000068B7Cint);
    lemma_chains_round(0x3FE8_68D9_9B44_92EBu64, 39, 6, 8, 0x30D1B3368925CEint, 0x30D1B3368925DEint, 0xFFFFFFFFFFF1921Bint, 0x10000000000068B7Cint, 3367, 64);
}

/// Boundary 41 of schema 6, checked through its squaring chains.
proof fn rounded_6_41()
    ensures
        near_root(0x3FE8_F1AE_9915_7736u64, 41, 6),
{
    lemma2_to64();
    lemma2_to64_rest();
    lemma_chain_start(0x31E35D322AEE64int);
    lemma_chain_start(0x31E35D322AEE74int);
    assert(0x31E35D322AEE64int * 0x31E35D322AEE64int <= 0x9B8D39B9D54E2136int * 0x100000000000int);
    assert(0x9B8D39B9D54E84FCint * 0x100000000000int <= 0x31E35D322AEE74int * 0x31E35D322AEE74int);
    lemma_chain_upper(0x31E35D322AEE64int, 0, 0x31E35D322AEE64int, 0, 44, 0x9B8D39B9D54E2136int);
    lemma_chain_lower(0x31E35D322AEE74int, 0, 0x31E35D322AEE74int, 0, 44, 0x9B8D39B9D54E84FCint);
    assert(0x9B8D39B9D54E2136int * 0x9B8D39B9D54E2136int <= 0xBD08A39F580BB856int * 0x8000000000000000int);
    assert(0xBD08A39F580CAAD5int * 0x8000000000000000int <= 0x9B8D39B9D54E84FCint * 0x9B8D39B9D54E84FCint);
    lemma_chain_upper(0x31E35D322AEE64int, 1, 0x9B8D39B9D54E2136int, 44, 63, 0xBD08A39F580BB856int);
    lemma_chain_lower(0x31E35D322AEE74int, 1, 0x9B8D39B9D54E84FCint, 44, 63, 0xBD08A39F580CAAD5int);
    assert(0xBD08A39F580BB856int * 0xBD08A39F580BB856int <= 0x8B95C1E3EA8B1C38int * 0x10000000000000000int);
    assert(0x8B95C1E3EA8C8257int * 0x10000000000000000int <= 0xBD08A39F580CAAD5int * 0xBD08A39F580CAAD5int);
    lemma_chain_upper(0x31E35D322AEE64int, 2, 0xBD08A39F580BB856int, 151, 64, 0x8B95C1E3EA8B1C38int);
    lemma_chain_lower(0x31E35D322AEE74int, 2, 0xBD08A39F580CAAD5int, 151, 64, 0x8B95C1E3EA8C8257int);
    assert(0x8B95C1E3EA8B1C38int * 0x8B95C1E3EA8B1C38int <= 0x9837F0518DB71247int * 0x8000000000000000int);
    assert(0x9837F0518DBA1F57int * 0x8000000000000000int <= 0x8B95C1E3EA8C8257int * 0x8B95C1E3EA8C8257int);
    lemma_chain_upper(0x31E35D322AEE64int, 3, 0x8B95C1E3EA8B1C38int, 366, 63, 0x9837F0518DB71247int);
    lemma_chain_lower(0x31E35D322AEE74int, 3, 0x8B95C1E3EA8C8257int, 366, 63, 0x9837F0518DBA1F57int);
    assert(0x9837F0518DB71247int * 0x9837F0518DB71247int <= 0xB504F333F9DA9C21int * 0x8000000000000000int);
    assert(0xB504F333F9E1DDD1int * 0x8000000000000000int <= 0x9837F0518DBA1F57int * 0x9837F0518DBA1F57int);
    lemma_chain_upper(0x31E35D322AEE64int, 4, 0x9837F0518DB71247int, 795, 63, 0xB504F333F9DA9C21int);
    lemma_chain_lower(0x31E35D322AEE74int, 4, 0x9837F0518DBA1F57int, 795, 63, 0xB504F333F9E1DDD1int);
    assert(0xB504F333F9DA9C21int * 0xB504F333F9DA9C21int <= 0xFFFFFFFFFFF54CFDint * 0x8000000000000000int);
    assert(0x1000000000009D351int * 0x8000000000000000int <= 0xB504F333F9E1DDD1int * 0xB504F333F9E1DDD1int);
    lemma_chain_upper(0x31E35D322AEE64int, 5, 0xB504F333F9DA9C21int, 1653, 63, 0xFFFFFFFFFFF54CFDint);
    lemma_chain_lower(0x31E35D322AEE74int, 5, 0xB504F333F9E1DDD1int, 1653, 63, 0x1000000000009D351int);
    lemma_chains_round(0x3FE8_F1AE_9915_7736u64, 41, 6, 8, 0x31E35D322AEE64int, 0x31E35D322AEE74int, 0xFFFFFFFFFFF54CFDint, 0x1000000000009D351int, 3369, 64);
}

/// Boundary 43 of schema 6, checked through its squaring chains.
proof fn rounded_6_43()
    ensures
        near_root(0x3FE9_7D82_9FDE_4E4Fu64, 43, 6),
{
    lemma2_to64();
    lemma2_to64_rest();
    lemma_chain_start(0x32FB053FBC9C96int);
    lemma_chain_start(0x32FB053FBC9CA6int);
    assert(0x32FB053FBC9C96int * 0x32FB053FBC9C96int <= 0xA27043030C492E2Bint * 0x100000000000int);
    assert(0xA27043030C499420int * 0x100000000000int <= 0x32FB053FBC9CA6int * 0x32FB053FBC9CA6int);
    lemma_chain_upper(0x32FB053FBC9C96int, 0, 0x32FB053FBC9C96int, 0, 44, 0xA27043030C492E2Bint);
    lemma_chain_lower(0x32FB053FBC9CA6int, 0, 0x32FB053FBC9CA6int, 0, 44, 0xA27043030C499420int);
    assert(0xA27043030C492E2Bint * 0xA27043030C492E2Bint <= 0xCE248C151F83EDDDint * 0x8000000000000000int);
    assert(0xCE248C151F84F0A3int * 0x8000000000000000int <= 0xA27043030C499420int * 0xA27043030C499420int);
    lemma_chain_upper(0x32FB053FBC9C96int, 1, 0xA27043030C492E2Bint, 44, 63, 0xCE248C151F83EDDDint);
    lemma_chain_lower(0x32FB053FBC9CA6int, 1, 0xA27043030C499420int, 44, 63, 0xCE248C151F84F0A3int);
    assert(0xCE248C151F83EDDDint * 0xCE248C151F83EDDDint <= 0xA5FED6A9B1504C22int * 0x10000000000000000int);
    assert(0xA5FED6A9B151ECE1int * 0x10000000000000000int <= 0xCE248C151F84F0A3int * 0xCE248C151F84F0A3int);
    lemma_chain_upper(0x32FB053FBC9C96int, 2, 0xCE248C151F83EDDDint, 151, 64, 0xA5FED6A9B1504C22int);
    lemma_chain_lower(0x32FB053FBC9CA6int, 2, 0xCE248C151F84F0A3int, 151, 64, 0xA5FED6A9B151ECE1int);
    assert(0xA5FED6A9B1504C22int * 0xA5FED6A9B1504C22int <= 0xD744FCCAD69B04D2int * 0x8000000000000000int);
    assert(0xD744FCCAD69F3DB9int * 0x8000000000000000int <= 0xA5FED6A9B151ECE1int * 0xA5FED6A9B151ECE1int);
    lemma_chain_upper(0x32FB053FBC9C96int, 3, 0xA5FED6A9B1504C22int, 366, 63, 0xD744FCCAD69B04D2int);
    lemma_chain_lower(0x32FB053FBC9CA6int, 3, 0xA5FED6A9B151ECE1int, 366, 63, 0xD744FCCAD69F3DB9int);
    assert(0xD744FCCAD69B04D2int * 0xD744FCCAD69B04D2int <= 0xB504F333F9DA5BACint * 0x10000000000000000int);
    assert(0xB504F333F9E17586int * 0x10000000000000000int <= 0xD744FCCAD69F3DB9int * 0xD744FCCAD69F3DB9int);
    lemma_chain_upper(0x32FB053FBC9C96int, 4, 0xD744FCCAD69B04D2int, 795, 64, 0xB504F333F9DA5BACint);
    lemma_chain_lower(0x32FB053FBC9CA6int, 4, 0xD744FCCAD69F3DB9int, 795, 64, 0xB504F333F9E17586int);
    assert(0xB504F333F9DA5BACint * 0xB504F333F9DA5BACint <= 0xFFFFFFFFFFF496ADint * 0x8000000000000000int);
    assert(0x1000000000008AC55int * 0x8000000000000000int <= 0xB504F333F9E17586int * 0xB504F333F9E17586int);
    lemma_chain_upper(0x32FB053FBC9C96int, 5, 0xB504F333F9DA5BACint, 1654, 63, 0xFFFFFFFFFFF496ADint);
    lemma_chain_lower(0x32FB053FBC9CA6int, 5, 0xB504F333F9E17586int, 1654, 63, 0x1000000000008AC55int);
    lemma_chains_round(0x3FE9_7D82_9FDE_4E4Fu64, 43, 6, 8, 0x32FB053FBC9C96int, 0x32FB053FBC9CA6int, 0xFFFFFFFFFFF496ADint, 0x1000000000008AC55int, 3371, 64);
}

/// Boundary 45 of schema 6, checked through its squaring chains.
proof fn rounded_6_45()
    ensures
        near_root(0x3FEA_0C66_7B5D_E564u64, 45, 6),
{
    lemma2_to64();
    lemma2_to64_rest();
    lemma_chain_start(0x3418CCF6BBCAC0int);
    lemma_chain_start(0x3418CCF6BBCAD0int);
    assert(0x3418CCF6BBCAC0int * 0x3418CCF6BBCAC0int <= 0xA9A15AB4EA7BD1CAint * 0x100000000000int);
    assert(0xA9A15AB4EA7C39FAint * 0x100000000000int <= 0x3418CCF6BBCAD0int * 0x3418CCF6BBCAD0int);
    lemma_chain_upper(0x3418CCF6BBCAC0int, 0, 0x3418CCF6BBCAC0int, 0, 44, 0xA9A15AB4EA7BD1CAint);
    lemma_chain_lower(0x3418CCF6BBCAD0int, 0, 0x3418CCF6BBCAD0int, 0, 44, 0xA9A15AB4EA7C39FAint);
    assert(0xA9A15AB4EA7BD1CAint * 0xA9A15AB4EA7BD1CAint <= 0xE0CCDEEC2A943EE9int * 0x8000000000000000int);
    assert(0xE0CCDEEC2A95530Dint * 0x8000000000000000int <= 0xA9A15AB4EA7C39FAint * 0xA9A15AB4EA7C39FAint);
    lemma_chain_upper(0x3418CCF6BBCAC0int, 1, 0xA9A15AB4EA7BD1CAint, 44, 63, 0xE0CCDEEC2A943EE9int);
    lemma_chain_lower(0x3418CCF6BBCAD0int, 1, 0xA9A15AB4EA7C39FAint, 44, 63, 0xE0CCDEEC2A95530Dint);
    assert(0xE0CCDEEC2A943EE9int * 0xE0CCDEEC2A943EE9int <= 0xC5672A115505BE14int * 0x10000000000000000int);
    assert(0xC5672A115507A30Cint * 0x10000000000000000int <= 0xE0CCDEEC2A95530Dint * 0xE0CCDEEC2A95530Dint);
    lemma_chain_upper(0x3418CCF6BBCAC0int, 2, 0xE0CCDEEC2A943EE9int, 151, 64, 0xC5672A115505BE14int);
    lemma_chain_lower(0x3418CCF6BBCAD0int, 2, 0xE0CCDEEC2A95530Dint, 151, 64, 0xC5672A115507A30Cint);
    assert(0xC5672A115505BE14int * 0xC5672A115505BE14int <= 0x9837F0518DB6F23Dint * 0x10000000000000000int);
    assert(0x9837F0518DB9DE28int * 0x10000000000000000int <= 0xC5672A115507A30Cint * 0xC5672A115507A30Cint);
    lemma_chain_upper(0x3418CCF6BBCAC0int, 3, 0xC5672A115505BE14int, 366, 64, 0x9837F0518DB6F23Dint);
    lemma_chain_lower(0x3418CCF6BBCAD0int, 3, 0xC5672A115507A30Cint, 366, 64, 0x9837F0518DB9DE28int);
    assert(0x9837F0518DB6F23Dint * 0x9837F0518DB6F23Dint <= 0xB504F333F9DA4FEEint * 0x8000000000000000int);
    assert(0xB504F333F9E142C8int * 0x8000000000000000int <= 0x9837F0518DB9DE28int * 0x9837F0518DB9DE28int);
    lemma_chain_upper(0x3418CCF6BBCAC0int, 4, 0x9837F0518DB6F23Dint, 796, 63, 0xB504F333F9DA4FEEint);
    lemma_chain_lower(0x3418CCF6BBCAD0int, 4, 0x9837F0518DB9DE28int, 796, 63, 0xB504F333F9E142C8int);
    assert(0xB504F333F9DA4FEEint * 0xB504F333F9DA4FEEint <= 0xFFFFFFFFFFF47577int * 0x8000000000000000int);
    assert(0x10000000000081CD0int * 0x8000000000000000int <= 0xB504F333F9E142C8int * 0xB504F333F9E142C8int);
    lemma_chain_upper(0x3418CCF6BBCAC0int, 5, 0xB504F333F9DA4FEEint, 1655, 63, 0xFFFFFFFFFFF47577int);
    lemma_chain_lower(0x3418CCF6BBCAD0int, 5, 0xB504F333F9E142C8int, 1655, 63, 0x10000000000081CD0int);
    lemma_chains_round(0x3FEA_0C66_7B5D_E564u64, 45, 6, 8, 0x3418CCF6BBCAC0int, 0x3418CCF6BBCAD0int, 0xFFFFFFFFFFF47577int, 0x10000000000081CD0int, 3373, 64);
}

/// Boundary 47 of schema 6, checked through its squaring chains.
proof fn rounded_6_47()
    ensures
        near_root(0x3FEA_9E6B_5579_FDBEu64, 47, 6),
{
    lemma2_to64();
    lemma2_to64_rest();
    lemma_chain_start(0x353CD6AAF3FB74int);
    lemma_chain_start(0x353CD6AAF3FB84int);
    assert(0x353CD6AAF3FB74int * 0x353CD6AAF3FB74int <= 0xB123F581D2ABDF7Cint * 0x100000000000int);
    assert(0xB123F581D2AC49F5int * 0x100000000000int <= 0x353CD6AAF3FB84int * 0x353CD6AAF3FB84int);
    lemma_chain_upper(0x353CD6AAF3FB74int, 0, 0x353CD6AAF3FB74int, 0, 44, 0xB123F581D2ABDF7Cint);
    lemma_chain_lower(0x353CD6AAF3FB84int, 0, 0x353CD6AAF3FB84int, 0, 44, 0xB123F581D2AC49F5int);
    assert(0xB123F581D2ABDF7Cint * 0xB123F581D2ABDF7Cint <= 0xF5257D1524860A38int * 0x8000000000000000int);
    assert(0xF5257D15248730E9int * 0x8000000000000000int <= 0xB123F581D2AC49F5int * 0xB123F581D2AC49F5int);
    lemma_chain_upper(0x353CD6AAF3FB74int, 1, 0xB123F581D2ABDF7Cint, 44, 63, 0xF5257D1524860A38int);
    lemma_chain_lower(0x353CD6AAF3FB84int, 1, 0xB123F581D2AC49F5int, 44, 63, 0xF5257D15248730E9int);
    assert(0xF5257D1524860A38int * 0xF5257D1524860A38int <= 0xEAC0C6E7DD22C5B9int * 0x10000000000000000int);
    assert(0xEAC0C6E7DD24FA1Dint * 0x10000000000000000int <= 0xF5257D15248730E9int * 0xF5257D15248730E9int);
    lemma_chain_upper(0x353CD6AAF3FB74int, 2, 0xF5257D1524860A38int, 151, 64, 0xEAC0C6E7DD22C5B9int);
    lemma_chain_lower(0x353CD6AAF3FB84int, 2, 0xF5257D15248730E9int, 151, 64, 0xEAC0C6E7DD24FA1Dint);
    assert(0xEAC0C6E7DD22C5B9int * 0xEAC0C6E7DD22C5B9int <= 0xD744FCCAD69AC1B2int * 0x10000000000000000int);
    assert(0xD744FCCAD69ECCCAint * 0x10000000000000000int <= 0xEAC0C6E7DD24FA1Dint * 0xEAC0C6E7DD24FA1Dint);
    lemma_chain_upper(0x353CD6AAF3FB74int, 3, 0xEAC0C6E7DD22C5B9int, 366, 64, 0xD744FCCAD69AC1B2int);
    lemma_chain_lower(0x353CD6AAF3FB84int, 3, 0xEAC0C6E7DD24FA1Dint, 366, 64, 0xD744FCCAD69ECCCAint);
    assert(0xD744FCCAD69AC1B2int * 0xD744FCCAD69AC1B2int <= 0xB504F333F9D9EAC8int * 0x10000000000000000int);
    assert(0xB504F333F9E0B798int * 0x10000000000000000int <= 0xD744FCCAD69ECCCAint * 0xD744FCCAD69ECCCAint);
    lemma_chain_upper(0x353CD6AAF3FB74int, 4, 0xD744FCCAD69AC1B2int, 796, 64, 0xB504F333F9D9EAC8int);
    lemma_chain_lower(0x353CD6AAF3FB84int, 4, 0xD744FCCAD69ECCCAint, 796, 64, 0xB504F333F9E0B798int);
    assert(0xB504F333F9D9EAC8int * 0xB504F333F9D9EAC8int <= 0xFFFFFFFFFFF3575Fint * 0x8000000000000000int);
    assert(0x10000000000069321int * 0x8000000000000000int <= 0xB504F333F9E0B798int * 0xB504F333F9E0B798int);
    lemma_chain_upper(0x353CD6AAF3FB74int, 5, 0xB504F333F9D9EAC8int, 1656, 63, 0xFFFFFFFFFFF3575Fint);
    lemma_chain_lower(0x353CD6AAF3FB84int, 5, 0xB504F333F9E0B798int, 1656, 63, 0x10000000000069321int);
    lemma_chains_round(0x3FEA_9E6B_5579_FDBEu64, 47, 6, 8, 0x353CD6AAF3FB74int, 0x353CD6AAF3FB84int, 0xFFFFFFFFFFF3575Fint, 0x10000000000069321int, 3375, 64);
}

/// Boundary 49 of schema 6, checked through its squaring chains.
proof fn rounded_6_49()
    ensures
        near_root(0x3FEB_33A2_B84F_15FAu64, 49, 6),
{
    lemma2_to64();
    lemma2_to64_rest();
    lemma_chain_start(0x366745709E2BECint);
    lemma_chain_start(0x366745709E2BFCint);
    assert(0x366745709E2BECint * 0x366745709E2BECint <= 0xB8FBAF4762FB5B66int * 0x100000000000int);
    assert(0xB8FBAF4762FBC834int * 0x100000000000int <= 0x366745709E2BFCint * 0x366745709E2BFCint);
    lemma_chain_upper(0x366745709E2BECint, 0, 0x366745709E2BECint, 0, 44, 0xB8FBAF4762FB5B66int);
    lemma_chain_lower(0x366745709E2BFCint, 0, 0x366745709E2BFCint, 0, 44, 0xB8FBAF4762FBC834int);
    assert(0xB8FBAF4762FB5B66int * 0xB8FBAF4762FB5B66int <= 0x85AAC367CC481984int * 0x10000000000000000int);
    assert(0x85AAC367CC48B6C1int * 0x10000000000000000int <= 0xB8FBAF4762FBC834int * 0xB8FBAF4762FBC834int);
    lemma_chain_upper(0x366745709E2BECint, 1, 0xB8FBAF4762FB5B66int, 44, 64, 0x85AAC367CC481984int);
    lemma_chain_lower(0x366745709E2BFCint, 1, 0xB8FBAF4762FBC834int, 44, 64, 0x85AAC367CC48B6C1int);
    assert(0x85AAC367CC481984int * 0x85AAC367CC481984int <= 0x8B95C1E3EA8B0B22int * 0x8000000000000000int);
    assert(0x8B95C1E3EA8C5388int * 0x8000000000000000int <= 0x85AAC367CC48B6C1int * 0x85AAC367CC48B6C1int);
    lemma_chain_upper(0x366745709E2BECint, 2, 0x85AAC367CC481984int, 152, 63, 0x8B95C1E3EA8B0B22int);
    lemma_chain_lower(0x366745709E2BFCint, 2, 0x85AAC367CC48B6C1int, 152, 63, 0x8B95C1E3EA8C5388int);
    assert(0x8B95C1E3EA8B0B22int * 0x8B95C1E3EA8B0B22int <= 0x9837F0518DB6ED03int * 0x8000000000000000int);
    assert(0x9837F0518DB9B940int * 0x8000000000000000int <= 0x8B95C1E3EA8C5388int * 0x8B95C1E3EA8C5388int);
    lemma_chain_upper(0x366745709E2BECint, 3, 0x8B95C1E3EA8B0B22int, 367, 63, 0x9837F0518DB6ED03int);
    lemma_chain_lower(0x366745709E2BFCint, 3, 0x8B95C1E3EA8C5388int, 367, 63, 0x9837F0518DB9B940int);
    assert(0x9837F0518DB6ED03int * 0x9837F0518DB6ED03int <= 0xB504F333F9DA437Fint * 0x8000000000000000int);
    assert(0xB504F333F9E0EB01int * 0x8000000000000000int <= 0x9837F0518DB9B940int * 0x9837F0518DB9B940int);
    lemma_chain_upper(0x366745709E2BECint, 4, 0x9837F0518DB6ED03int, 797, 63, 0xB504F333F9DA437Fint);
    lemma_chain_lower(0x366745709E2BFCint, 4, 0x9837F0518DB9B940int, 797, 63, 0xB504F333F9E0EB01int);
    assert(0xB504F333F9DA437Fint * 0xB504F333F9DA437Fint <= 0xFFFFFFFFFFF4524Cint * 0x8000000000000000int);
    assert(0x1000000000007248Aint * 0x8000000000000000int <= 0xB504F333F9E0EB01int * 0xB504F333F9E0EB01int);
    lemma_chain_upper(0x366745709E2BECint, 5, 0xB504F333F9DA437Fint, 1657, 63, 0xFFFFFFFFFFF4524Cint);
    lemma_chain_lower(0x366745709E2BFCint, 5, 0xB504F333F9E0EB01int, 1657, 63, 0x1000000000007248Aint);
    lemma_chains_round(0x3FEB_33A2_B84F_15FAu64, 49, 6, 8, 0x366745709E2BECint, 0x366745709E2BFCint, 0xFFFFFFFFFFF4524Cint, 0x1000000000007248Aint, 3377, 64);
}

/// Boundary 51 of schema 6, checked through its squaring chains.
proof fn rounded_6_51()
    ensures
        near_root(0x3FEB_CC1E_904B_C1D0u64, 51, 6),
{
    lemma2_to64();
    lemma2_to64_rest();
    lemma_chain_start(0x37983D20978398int);
    lemma_chain_start(0x37983D209783A8int);
    assert(0x37983D20978398int * 0x37983D20978398int <= 0xC12C4CCA66703EF8int * 0x100000000000int);
    assert(0xC12C4CCA6670AE27int * 0x100000000000int <= 0x37983D209783A8int * 0x37983D209783A8int);
    lemma_chain_upper(0x37983D20978398int, 0, 0x37983D20978398int, 0, 44, 0xC12C4CCA66703EF8int);
    lemma_chain_lower(0x37983D209783A8int, 0, 0x37983D209783A8int, 0, 44, 0xC12C4CCA6670AE27int);
    assert(0xC12C4CCA66703EF8int * 0xC12C4CCA66703EF8int <= 0x91C3D373AB114261int * 0x10000000000000000int);
    assert(0x91C3D373AB11EA2Bint * 0x10000000000000000int <= 0xC12C4CCA6670AE27int * 0xC12C4CCA6670AE27int);
    lemma_chain_upper(0x37983D20978398int, 1, 0xC12C4CCA66703EF8int, 44, 64, 0x91C3D373AB114261int);
    lemma_chain_lower(0x37983D209783A8int, 1, 0xC12C4CCA6670AE27int, 44, 64, 0x91C3D373AB11EA2Bint);
    assert(0x91C3D373AB114261int * 0x91C3D373AB114261int <= 0xA5FED6A9B150137Eint * 0x8000000000000000int);
    assert(0xA5FED6A9B15191A4int * 0x8000000000000000int <= 0x91C3D373AB11EA2Bint * 0x91C3D373AB11EA2Bint);
    lemma_chain_upper(0x37983D20978398int, 2, 0x91C3D373AB114261int, 152, 63, 0xA5FED6A9B150137Eint);
    lemma_chain_lower(0x37983D209783A8int, 2, 0x91C3D373AB11EA2Bint, 152, 63, 0xA5FED6A9B15191A4int);
    assert(0xA5FED6A9B150137Eint * 0xA5FED6A9B150137Eint <= 0xD744FCCAD69A71EAint * 0x8000000000000000int);
    assert(0xD744FCCAD69E5114int * 0x8000000000000000int <= 0xA5FED6A9B15191A4int * 0xA5FED6A9B15191A4int);
    lemma_chain_upper(0x37983D20978398int, 3, 0xA5FED6A9B150137Eint, 367, 63, 0xD744FCCAD69A71EAint);
    lemma_chain_lower(0x37983D209783A8int, 3, 0xA5FED6A9B15191A4int, 367, 63, 0xD744FCCAD69E5114int);
    assert(0xD744FCCAD69A71EAint * 0xD744FCCAD69A71EAint <= 0xB504F333F9D9649Cint * 0x10000000000000000int);
    assert(0xB504F333F9DFE789int * 0x10000000000000000int <= 0xD744FCCAD69E5114int * 0xD744FCCAD69E5114int);
    lemma_chain_upper(0x37983D20978398int, 4, 0xD744FCCAD69A71EAint, 797, 64, 0xB504F333F9D9649Cint);
    lemma_chain_lower(0x37983D209783A8int, 4, 0xD744FCCAD69E5114int, 797, 64, 0xB504F333F9DFE789int);
    assert(0xB504F333F9D9649Cint * 0xB504F333F9D9649Cint <= 0xFFFFFFFFFFF1DBE0int * 0x8000000000000000int);
    assert(0x100000000000446A7int * 0x8000000000000000int <= 0xB504F333F9DFE789int * 0xB504F333F9DFE789int);
    lemma_chain_upper(0x37983D20978398int, 5, 0xB504F333F9D9649Cint, 1658, 63, 0xFFFFFFFFFFF1DBE0int);
    lemma_chain_lower(0x37983D209783A8int, 5, 0xB504F333F9DFE789int, 1658, 63, 0x100000000000446A7int);
    lemma_chains_round(0x3FEB_CC1E_904B_C1D0u64, 51, 6, 8, 0x37983D20978398int, 0x37983D209783A8int, 0xFFFFFFFFFFF1DBE0int, 0x100000000000446A7int, 3379, 64);
}

/// Boundary 53 of schema 6, checked through its squaring chains.
proof fn rounded_6_53()
    ensures
        near_root(0x3FEC_67F1_2E57_D149u64, 53, 6),
{
    lemma2_to64();
    lemma2_to64_rest();
    lemma_chain_start(0x38CFE25CAFA28Aint);
    lemma_chain_start(0x38CFE25CAFA29Aint);
    assert(0x38CFE25CAFA28Aint * 0x38CFE25CAFA28Aint <= 0xC9B9BD866E2ECE4Eint * 0x100000000000int);
    assert(0xC9B9BD866E2F3FEDint * 0x100000000000int <= 0x38CFE25CAFA29Aint * 0x38CFE25CAFA29Aint);
    lemma_chain_upper(0x38CFE25CAFA28Aint, 0, 0x38CFE25CAFA28Aint, 0, 44, 0xC9B9BD866E2ECE4Eint);
    lemma_chain_lower(0x38CFE25CAFA29Aint, 0, 0x38CFE25CAFA29Aint, 0, 44, 0xC9B9BD866E2F3FEDint);
    assert(0xC9B9BD866E2ECE4Eint * 0xC9B9BD866E2ECE4Eint <= 0x9EF5326091A084E6int * 0x10000000000000000int);
    assert(0x9EF5326091A137F5int * 0x10000000000000000int <= 0xC9B9BD866E2F3FEDint * 0xC9B9BD866E2F3FEDint);
    lemma_chain_upper(0x38CFE25CAFA28Aint, 1, 0xC9B9BD866E2ECE4Eint, 44, 64, 0x9EF5326091A084E6int);
    lemma_chain_lower(0x38CFE25CAFA29Aint, 1, 0xC9B9BD866E2F3FEDint, 44, 64, 0x9EF5326091A137F5int);
    assert(0x9EF5326091A084E6int * 0x9EF5326091A084E6int <= 0xC5672A1155057D36int * 0x8000000000000000int);
    assert(0xC5672A11550739F0int * 0x8000000000000000int <= 0x9EF5326091A137F5int * 0x9EF5326091A137F5int);
    lemma_chain_upper(0x38CFE25CAFA28Aint, 2, 0x9EF5326091A084E6int, 152, 63, 0xC5672A1155057D36int);
    lemma_chain_lower(0x38CFE25CAFA29Aint, 2, 0x9EF5326091A137F5int, 152, 63, 0xC5672A11550739F0int);
    assert(0xC5672A1155057D36int * 0xC5672A1155057D36int <= 0x9837F0518DB68E33int * 0x10000000000000000int);
    assert(0x9837F0518DB93C0Eint * 0x10000000000000000int <= 0xC5672A11550739F0int * 0xC5672A11550739F0int);
    lemma_chain_upper(0x38CFE25CAFA28Aint, 3, 0xC5672A1155057D36int, 367, 64, 0x9837F0518DB68E33int);
    lemma_chain_lower(0x38CFE25CAFA29Aint, 3, 0xC5672A11550739F0int, 367, 64, 0x9837F0518DB93C0Eint);
    assert(0x9837F0518DB68E33int * 0x9837F0518DB68E33int <= 0xB504F333F9D961FEint * 0x8000000000000000int);
    assert(0xB504F333F9DFC13Dint * 0x8000000000000000int <= 0x9837F0518DB93C0Eint * 0x9837F0518DB93C0Eint);
    lemma_chain_upper(0x38CFE25CAFA28Aint, 4, 0x9837F0518DB68E33int, 798, 63, 0xB504F333F9D961FEint);
    lemma_chain_lower(0x38CFE25CAFA29Aint, 4, 0x9837F0518DB93C0Eint, 798, 63, 0xB504F333F9DFC13Dint);
    assert(0xB504F333F9D961FEint * 0xB504F333F9D961FEint <= 0xFFFFFFFFFFF1D479int * 0x8000000000000000int);
    assert(0x1000000000003DA55int * 0x8000000000000000int <= 0xB504F333F9DFC13Dint * 0xB504F333F9DFC13Dint);
    lemma_chain_upper(0x38CFE25CAFA28Aint, 5, 0xB504F333F9D961FEint, 1659, 63, 0xFFFFFFFFFFF1D479int);
    lemma_chain_lower(0x38CFE25CAFA29Aint, 5, 0xB504F333F9DFC13Dint, 1659, 63, 0x1000000000003DA55int);
    lemma_chains_round(0x3FEC_67F1_2E57_D149u64, 53, 6, 8, 0x38CFE25CAFA28Aint, 0x38CFE25CAFA29Aint, 0xFFFFFFFFFFF1D479int, 0x1000000000003DA55int, 3381, 64);
}

/// Boundary 55 of schema 6, checked through its squaring chains.
proof fn rounded_6_55()
    ensures
        near_root(0x3FED_072D_4A07_8979u64, 55, 6),
{
    lemma2_to64();
    lemma2_to64_rest();
    lemma_chain_start(0x3A0E5A940F12EAint);
    lemma_chain_start(0x3A0E5A940F12FAint);
    assert(0x3A0E5A940F12EAint * 0x3A0E5A940F12EAint <= 0xD2A81D91F12A8546int * 0x100000000000int);
    assert(0xD2A81D91F12AF961int * 0x100000000000int <= 0x3A0E5A940F12FAint * 0x3A0E5A940F12FAint);
    lemma_chain_upper(0x3A0E5A940F12EAint, 0, 0x3A0E5A940F12EAint, 0, 44, 0xD2A81D91F12A8546int);
    lemma_chain_lower(0x3A0E5A940F12FAint, 0, 0x3A0E5A940F12FAint, 0, 44, 0xD2A81D91F12AF961int);
    assert(0xD2A81D91F12A8546int * 0xD2A81D91F12A8546int <= 0xAD583EEA42A0AE4Dint * 0x10000000000000000int);
    assert(0xAD583EEA42A16D61int * 0x10000000000000000int <= 0xD2A81D91F12AF961int * 0xD2A81D91F12AF961int);
    lemma_chain_upper(0x3A0E5A940F12EAint, 1, 0xD2A81D91F12A8546int, 44, 64, 0xAD583EEA42A0AE4Dint);
    lemma_chain_lower(0x3A0E5A940F12FAint, 1, 0xD2A81D91F12AF961int, 44, 64, 0xAD583EEA42A16D61int);
    assert(0xAD583EEA42A0AE4Dint * 0xAD583EEA42A0AE4Dint <= 0xEAC0C6E7DD229160int * 0x8000000000000000int);
    assert(0xEAC0C6E7DD2496E8int * 0x8000000000000000int <= 0xAD583EEA42A16D61int * 0xAD583EEA42A16D61int);
    lemma_chain_upper(0x3A0E5A940F12EAint, 2, 0xAD583EEA42A0AE4Dint, 152, 63, 0xEAC0C6E7DD229160int);
    lemma_chain_lower(0x3A0E5A940F12FAint, 2, 0xAD583EEA42A16D61int, 152, 63, 0xEAC0C6E7DD2496E8int);
    assert(0xEAC0C6E7DD229160int * 0xEAC0C6E7DD229160int <= 0xD744FCCAD69A61B0int * 0x10000000000000000int);
    assert(0xD744FCCAD69E16D7int * 0x10000000000000000int <= 0xEAC0C6E7DD2496E8int * 0xEAC0C6E7DD2496E8int);
    lemma_chain_upper(0x3A0E5A940F12EAint, 3, 0xEAC0C6E7DD229160int, 367, 64, 0xD744FCCAD69A61B0int);
    lemma_chain_lower(0x3A0E5A940F12FAint, 3, 0xEAC0C6E7DD2496E8int, 367, 64, 0xD744FCCAD69E16D7int);
    assert(0xD744FCCAD69A61B0int * 0xD744FCCAD69A61B0int <= 0xB504F333F9D94951int * 0x10000000000000000int);
    assert(0xB504F333F9DF8597int * 0x10000000000000000int <= 0xD744FCCAD69E16D7int * 0xD744FCCAD69E16D7int);
    lemma_chain_upper(0x3A0E5A940F12EAint, 4, 0xD744FCCAD69A61B0int, 798, 64, 0xB504F333F9D94951int);
    lemma_chain_lower(0x3A0E5A940F12FAint, 4, 0xD744FCCAD69E16D7int, 798, 64, 0xB504F333F9DF8597int);
    assert(0xB504F333F9D94951int * 0xB504F333F9D94951int <= 0xFFFFFFFFFFF18EAEint * 0x8000000000000000int);
    assert(0x1000000000003319Fint * 0x8000000000000000int <= 0xB504F333F9DF8597int * 0xB504F333F9DF8597int);
    lemma_chain_upper(0x3A0E5A940F12EAint, 5, 0xB504F333F9D94951int, 1660, 63, 0xFFFFFFFFFFF18EAEint);
    lemma_chain_lower(0x3A0E5A940F12FAint, 5, 0xB504F333F9DF8597int, 1660, 63, 0x1000000000003319Fint);
    lemma_chains_round(0x3FED_072D_4A07_8979u64, 55, 6, 8, 0x3A0E5A940F12EAint, 0x3A0E5A940F12FAint, 0xFFFFFFFFFFF18EAEint, 0x1000000000003319Fint, 3383, 64);
}

/// Boundary 57 of schema 6, checked through its squaring chains.
proof fn rounded_6_57()
    ensures
        near_root(0x3FED_A9E6_03DB_3284u64, 57, 6),
{
    lemma2_to64();
    lemma2_to64_rest();
    lemma_chain_start(0x3B53CC07B66500int);
    lemma_chain_start(0x3B53CC07B66510int);
    assert(0x3B53CC07B66500int * 0x3B53CC07B66500int <= 0xDBFBB797DAF1E6A8int * 0x100000000000int);
    assert(0xDBFBB797DAF25D4Eint * 0x100000000000int <= 0x3B53CC07B66510int * 0x3B53CC07B66510int);
    lemma_chain_upper(0x3B53CC07B66500int, 0, 0x3B53CC07B66500int, 0, 44, 0xDBFBB797DAF1E6A8int);
    lemma_chain_lower(0x3B53CC07B66510int, 0, 0x3B53CC07B66510int, 0, 44, 0xDBFBB797DAF25D4Eint);
    assert(0xDBFBB797DAF1E6A8int * 0xDBFBB797DAF1E6A8int <= 0xBD08A39F580BAC18int * 0x10000000000000000int);
    assert(0xBD08A39F580C7800int * 0x10000000000000000int <= 0xDBFBB797DAF25D4Eint * 0xDBFBB797DAF25D4Eint);
    lemma_chain_upper(0x3B53CC07B66500int, 1, 0xDBFBB797DAF1E6A8int, 44, 64, 0xBD08A39F580BAC18int);
    lemma_chain_lower(0x3B53CC07B66510int, 1, 0xDBFBB797DAF25D4Eint, 44, 64, 0xBD08A39F580C7800int);
    assert(0xBD08A39F580BAC18int * 0xBD08A39F580BAC18int <= 0x8B95C1E3EA8B0A24int * 0x10000000000000000int);
    assert(0x8B95C1E3EA8C3745int * 0x10000000000000000int <= 0xBD08A39F580C7800int * 0xBD08A39F580C7800int);
    lemma_chain_upper(0x3B53CC07B66500int, 2, 0xBD08A39F580BAC18int, 152, 64, 0x8B95C1E3EA8B0A24int);
    lemma_chain_lower(0x3B53CC07B66510int, 2, 0xBD08A39F580C7800int, 152, 64, 0x8B95C1E3EA8C3745int);
    assert(0x8B95C1E3EA8B0A24int * 0x8B95C1E3EA8B0A24int <= 0x9837F0518DB6EAD9int * 0x8000000000000000int);
    assert(0x9837F0518DB97B9Cint * 0x8000000000000000int <= 0x8B95C1E3EA8C3745int * 0x8B95C1E3EA8C3745int);
    lemma_chain_upper(0x3B53CC07B66500int, 3, 0x8B95C1E3EA8B0A24int, 368, 63, 0x9837F0518DB6EAD9int);
    lemma_chain_lower(0x3B53CC07B66510int, 3, 0x8B95C1E3EA8C3745int, 368, 63, 0x9837F0518DB97B9Cint);
    assert(0x9837F0518DB6EAD9int * 0x9837F0518DB6EAD9int <= 0xB504F333F9DA3E5Aint * 0x8000000000000000int);
    assert(0xB504F333F9E05866int * 0x8000000000000000int <= 0x9837F0518DB97B9Cint * 0x9837F0518DB97B9Cint);
    lemma_chain_upper(0x3B53CC07B66500int, 4, 0x9837F0518DB6EAD9int, 799, 63, 0xB504F333F9DA3E5Aint);
    lemma_chain_lower(0x3B53CC07B66510int, 4, 0x9837F0518DB97B9Cint, 799, 63, 0xB504F333F9E05866int);
    assert(0xB504F333F9DA3E5Aint * 0xB504F333F9DA3E5Aint <= 0xFFFFFFFFFFF443BFint * 0x8000000000000000int);
    assert(0x100000000000585E0int * 0x8000000000000000int <= 0xB504F333F9E05866int * 0xB504F333F9E05866int);
    lemma_chain_upper(0x3B53CC07B66500int, 5, 0xB504F333F9DA3E5Aint, 1661, 63, 0xFFFFFFFFFFF443BFint);
    lemma_chain_lower(0x3B53CC07B66510int, 5, 0xB504F333F9E05866int, 1661, 63, 0x100000000000585E0int);
    lemma_chains_round(0x3FED_A9E6_03DB_3284u64, 57, 6, 8, 0x3B53CC07B66500int, 0x3B53CC07B66510int, 0xFFFFFFFFFFF443BFint, 0x100000000000585E0int, 3385, 64);
}

/// Boundary 59 of schema 6, checked through its squaring chains.
proof fn rounded_6_59()
    ensures
        near_root(0x3FEE_502E_E78B_3FF5u64, 59, 6),
{
    lemma2_to64();
    lemma2_to64_rest();
    lemma_chain_start(0x3CA05DCF167FE2int);
    lemma_chain_start(0x3CA05DCF167FF2int);
    assert(0x3CA05DCF167FE2int * 0x3CA05DCF167FE2int <= 0xE5B906E77C82FA8Dint * 0x100000000000int);
    assert(0xE5B906E77C8373CDint * 0x100000000000int <= 0x3CA05DCF167FF2int * 0x3CA05DCF167FF2int);
    lemma_chain_upper(0x3CA05DCF167FE2int, 0, 0x3CA05DCF167FE2int, 0, 44, 0xE5B906E77C82FA8Dint);
    lemma_chain_lower(0x3CA05DCF167FF2int, 0, 0x3CA05DCF167FF2int, 0, 44, 0xE5B906E77C8373CDint);
    assert(0xE5B906E77C82FA8Dint * 0xE5B906E77C82FA8Dint <= 0xCE248C151F83F4B7int * 0x10000000000000000int);
    assert(0xCE248C151F84CE52int * 0x10000000000000000int <= 0xE5B906E77C8373CDint * 0xE5B906E77C8373CDint);
    lemma_chain_upper(0x3CA05DCF167FE2int, 1, 0xE5B906E77C82FA8Dint, 44, 64, 0xCE248C151F83F4B7int);
    lemma_chain_lower(0x3CA05DCF167FF2int, 1, 0xE5B906E77C8373CDint, 44, 64, 0xCE248C151F84CE52int);
    assert(0xCE248C151F83F4B7int * 0xCE248C151F83F4B7int <= 0xA5FED6A9B150572Aint * 0x10000000000000000int);
    assert(0xA5FED6A9B151B59Dint * 0x10000000000000000int <= 0xCE248C151F84CE52int * 0xCE248C151F84CE52int);
    lemma_chain_upper(0x3CA05DCF167FE2int, 2, 0xCE248C151F83F4B7int, 152, 64, 0xA5FED6A9B150572Aint);
    lemma_chain_lower(0x3CA05DCF167FF2int, 2, 0xCE248C151F84CE52int, 152, 64, 0xA5FED6A9B151B59Dint);
    assert(0xA5FED6A9B150572Aint * 0xA5FED6A9B150572Aint <= 0xD744FCCAD69B216Fint * 0x8000000000000000int);
    assert(0xD744FCCAD69EAE61int * 0x8000000000000000int <= 0xA5FED6A9B151B59Dint * 0xA5FED6A9B151B59Dint);
    lemma_chain_upper(0x3CA05DCF167FE2int, 3, 0xA5FED6A9B150572Aint, 368, 63, 0xD744FCCAD69B216Fint);
    lemma_chain_lower(0x3CA05DCF167FF2int, 3, 0xA5FED6A9B151B59Dint, 368, 63, 0xD744FCCAD69EAE61int);
    assert(0xD744FCCAD69B216Fint * 0xD744FCCAD69B216Fint <= 0xB504F333F9DA8BCBint * 0x10000000000000000int);
    assert(0xB504F333F9E08473int * 0x10000000000000000int <= 0xD744FCCAD69EAE61int * 0xD744FCCAD69EAE61int);
    lemma_chain_upper(0x3CA05DCF167FE2int, 4, 0xD744FCCAD69B216Fint, 799, 64, 0xB504F333F9DA8BCBint);
    lemma_chain_lower(0x3CA05DCF167FF2int, 4, 0xD744FCCAD69EAE61int, 799, 64, 0xB504F333F9E08473int);
    assert(0xB504F333F9DA8BCBint * 0xB504F333F9DA8BCBint <= 0xFFFFFFFFFFF51EC8int * 0x8000000000000000int);
    assert(0x10000000000060279int * 0x8000000000000000int <= 0xB504F333F9E08473int * 0xB504F333F9E08473int);
    lemma_chain_upper(0x3CA05DCF167FE2int, 5, 0xB504F333F9DA8BCBint, 1662, 63, 0xFFFFFFFFFFF51EC8int);
    lemma_chain_lower(0x3CA05DCF167FF2int, 5, 0xB504F333F9E08473int, 1662, 63, 0x10000000000060279int);
    lemma_chains_round(0x3FEE_502E_E78B_3FF5u64, 59, 6, 8, 0x3CA05DCF167FE2int, 0x3CA05DCF167FF2int, 0xFFFFFFFFFFF51EC8int, 0x10000000000060279int, 3387, 64);
}

/// Boundary 61 of schema 6, checked through its squaring chains.
proof fn rounded_6_61()
    ensures
        near_root(0x3FEE_FA1B_EE61_5A26u64, 61, 6),
{
    lemma2_to64();
    lemma2_to64_rest();
    lemma_chain_start(0x3DF437DCC2B444int);
    lemma_chain_start(0x3DF437DCC2B454int);
    assert(0x3DF437DCC2B444int * 0x3DF437DCC2B444int <= 0xEFE4B99BDCDAA125int * 0x100000000000int);
    assert(0xEFE4B99BDCDB1D0Dint * 0x100000000000int <= 0x3DF437DCC2B454int * 0x3DF437DCC2B454int);
    lemma_chain_upper(0x3DF437DCC2B444int, 0, 0x3DF437DCC2B444int, 0, 44, 0xEFE4B99BDCDAA125int);
    lemma_chain_lower(0x3DF437DCC2B454int, 0, 0x3DF437DCC2B454int, 0, 44, 0xEFE4B99BDCDB1D0Dint);
    assert(0xEFE4B99BDCDAA125int * 0xEFE4B99BDCDAA125int <= 0xE0CCDEEC2A94426Cint * 0x10000000000000000int);
    assert(0xE0CCDEEC2A952AA3int * 0x10000000000000000int <= 0xEFE4B99BDCDB1D0Dint * 0xEFE4B99BDCDB1D0Dint);
    lemma_chain_upper(0x3DF437DCC2B444int, 1, 0xEFE4B99BDCDAA125int, 44, 64, 0xE0CCDEEC2A94426Cint);
    lemma_chain_lower(0x3DF437DCC2B454int, 1, 0xEFE4B99BDCDB1D0Dint, 44, 64, 0xE0CCDEEC2A952AA3int);
    assert(0xE0CCDEEC2A94426Cint * 0xE0CCDEEC2A94426Cint <= 0xC5672A115505C43Fint * 0x10000000000000000int);
    assert(0xC5672A1155075C12int * 0x10000000000000000int <= 0xE0CCDEEC2A952AA3int * 0xE0CCDEEC2A952AA3int);
    lemma_chain_upper(0x3DF437DCC2B444int, 2, 0xE0CCDEEC2A94426Cint, 152, 64, 0xC5672A115505C43Fint);
    lemma_chain_lower(0x3DF437DCC2B454int, 2, 0xE0CCDEEC2A952AA3int, 152, 64, 0xC5672A1155075C12int);
    assert(0xC5672A115505C43Fint * 0xC5672A115505C43Fint <= 0x9837F0518DB6FBC0int * 0x10000000000000000int);
    assert(0x9837F0518DB970B2int * 0x10000000000000000int <= 0xC5672A1155075C12int * 0xC5672A1155075C12int);
    lemma_chain_upper(0x3DF437DCC2B444int, 3, 0xC5672A115505C43Fint, 368, 64, 0x9837F0518DB6FBC0int);
    lemma_chain_lower(0x3DF437DCC2B454int, 3, 0xC5672A1155075C12int, 368, 64, 0x9837F0518DB970B2int);
    assert(0x9837F0518DB6FBC0int * 0x9837F0518DB6FBC0int <= 0xB504F333F9DA668Dint * 0x8000000000000000int);
    assert(0xB504F333F9E03E70int * 0x8000000000000000int <= 0x9837F0518DB970B2int * 0x9837F0518DB970B2int);
    lemma_chain_upper(0x3DF437DCC2B444int, 4, 0x9837F0518DB6FBC0int, 800, 63, 0xB504F333F9DA668Dint);
    lemma_chain_lower(0x3DF437DCC2B454int, 4, 0x9837F0518DB970B2int, 800, 63, 0xB504F333F9E03E70int);
    assert(0xB504F333F9DA668Dint * 0xB504F333F9DA668Dint <= 0xFFFFFFFFFFF4B572int * 0x8000000000000000int);
    assert(0x10000000000053C73int * 0x8000000000000000int <= 0xB504F333F9E03E70int * 0xB504F333F9E03E70int);
    lemma_chain_upper(0x3DF437DCC2B444int, 5, 0xB504F333F9DA668Dint, 1663, 63, 0xFFFFFFFFFFF4B572int);
    lemma_chain_lower(0x3DF437DCC2B454int, 5, 0xB504F333F9E03E70int, 1663, 63, 0x10000000000053C73int);
    lemma_chains_round(0x3FEE_FA1B_EE61_5A26u64, 61, 6, 8, 0x3DF437DCC2B444int, 0x3DF437DCC2B454int, 0xFFFFFFFFFFF4B572int, 0x10000000000053C73int, 3389, 64);
}

/// Boundary 63 of schema 6, checked through its squaring chains.
proof fn rounded_6_63()
    ensures
        near_root(0x3FEF_A7C1_819E_90D6u64, 63, 6),
{
    lemma2_to64();
    lemma2_to64_rest();
    lemma_chain_start(0x3F4F83033D21A4int);
    lemma_chain_start(0x3F4F83033D21B4int);
    assert(0x3F4F83033D21A4int * 0x3F4F83033D21A4int <= 0xFA83B2DB7229A163int * 0x100000000000int);
    assert(0xFA83B2DB722A2001int * 0x100000000000int <= 0x3F4F83033D21B4int * 0x3F4F83033D21B4int);
    lemma_chain_upper(0x3F4F83033D21A4int, 0, 0x3F4F83033D21A4int, 0, 44, 0xFA83B2DB7229A163int);
    lemma_chain_lower(0x3F4F83033D21B4int, 0, 0x3F4F83033D21B4int, 0, 44, 0xFA83B2DB722A2001int);
    assert(0xFA83B2DB7229A163int * 0xFA83B2DB7229A163int <= 0xF5257D1524860CAFint * 0x10000000000000000int);
    assert(0xF5257D152487047Dint * 0x10000000000000000int <= 0xFA83B2DB722A2001int * 0xFA83B2DB722A2001int);
    lemma_chain_upper(0x3F4F83033D21A4int, 1, 0xFA83B2DB7229A163int, 44, 64, 0xF5257D1524860CAFint);
    lemma_chain_lower(0x3F4F83033D21B4int, 1, 0xFA83B2DB722A2001int, 44, 64, 0xF5257D152487047Dint);
    assert(0xF5257D1524860CAFint * 0xF5257D1524860CAFint <= 0xEAC0C6E7DD22CA71int * 0x10000000000000000int);
    assert(0xEAC0C6E7DD24A509int * 0x10000000000000000int <= 0xF5257D152487047Dint * 0xF5257D152487047Dint);
    lemma_chain_upper(0x3F4F83033D21A4int, 2, 0xF5257D1524860CAFint, 152, 64, 0xEAC0C6E7DD22CA71int);
    lemma_chain_lower(0x3F4F83033D21B4int, 2, 0xF5257D152487047Dint, 152, 64, 0xEAC0C6E7DD24A509int);
    assert(0xEAC0C6E7DD22CA71int * 0xEAC0C6E7DD22CA71int <= 0xD744FCCAD69ACA59int * 0x10000000000000000int);
    assert(0xD744FCCAD69E30C1int * 0x10000000000000000int <= 0xEAC0C6E7DD24A509int * 0xEAC0C6E7DD24A509int);
    lemma_chain_upper(0x3F4F83033D21A4int, 3, 0xEAC0C6E7DD22CA71int, 368, 64, 0xD744FCCAD69ACA59int);
    lemma_chain_lower(0x3F4F83033D21B4int, 3, 0xEAC0C6E7DD24A509int, 368, 64, 0xD744FCCAD69E30C1int);
    assert(0xD744FCCAD69ACA59int * 0xD744FCCAD69ACA59int <= 0xB504F333F9D9F956int * 0x10000000000000000int);
    assert(0xB504F333F9DFB12Cint * 0x10000000000000000int <= 0xD744FCCAD69E30C1int * 0xD744FCCAD69E30C1int);
    lemma_chain_upper(0x3F4F83033D21A4int, 4, 0xD744FCCAD69ACA59int, 800, 64, 0xB504F333F9D9F956int);
    lemma_chain_lower(0x3F4F83033D21B4int, 4, 0xD744FCCAD69E30C1int, 800, 64, 0xB504F333F9DFB12Cint);
    assert(0xB504F333F9D9F956int * 0xB504F333F9D9F956int <= 0xFFFFFFFFFFF3808Aint * 0x8000000000000000int);
    assert(0x1000000000003ACE3int * 0x8000000000000000int <= 0xB504F333F9DFB12Cint * 0xB504F333F9DFB12Cint);
    lemma_chain_upper(0x3F4F83033D21A4int, 5, 0xB504F333F9D9F956int, 1664, 63, 0xFFFFFFFFFFF3808Aint);
    lemma_chain_lower(0x3F4F83033D21B4int, 5, 0xB504F333F9DFB12Cint, 1664, 63, 0x1000000000003ACE3int);
    lemma_chains_round(0x3FEF_A7C1_819E_90D6u64, 63, 6, 8, 0x3F4F83033D21A4int, 0x3F4F83033D21B4int, 0xFFFFFFFFFFF3808Aint, 0x1000000000003ACE3int, 3391, 64);
}

/// The boundaries of schema 6 at odd positions are within four units in the last place.
proof fn lemma_rounded_odd_6(k: int)
    requires
        0 <= k < 64,
        k % 2 == 1,
    ensures
        near_root(bounds_of(6)[k], k, 6),
{
    reveal(bounds_of);
    if k == 1 {
        rounded_6_1();
    } else if k == 3 {
        rounded_6_3();
    } else if k == 5 {
        rounded_6_5();
    } else if k == 7 {
        rounded_6_7();
    } else if k == 9 {
        rounded_6_9();
    } else if k == 11 {
        rounded_6_11();
    } else if k == 13 {
        rounded_6_13();
    } else if k == 15 {
        rounded_6_15();
    } else if k == 17 {
        rounded_6_17();
    } else if k == 19 {
        rounded_6_19();
    } else if k == 21 {
        rounded_6_21();
    } else if k == 23 {
        rounded_6_23();
    } else if k == 25 {
        rounded_6_25();
    } else if k == 27 {
        rounded_6_27();
    } else if k == 29 {
        rounded_6_29();
    } else if k == 31 {
        rounded_6_31();
    } else if k == 33 {
        rounded_6_33();
    } else if k == 35 {
        rounded_6_35();
    } else if k == 37 {
        rounded_6_37();
    } else if k == 39 {
        rounded_6_39();
    } else if k == 41 {
        rounded_6_41();
    } else if k == 43 {
        rounded_6_43();
    } else if k == 45 {
        rounded_6_45();
    } else if k == 47 {
        rounded_6_47();
    } else if k == 49 {
        rounded_6_49();
    } else if k == 51 {
        rounded_6_51();
    } else if k == 53 {
        rounded_6_53();
    } else if k == 55 {
        rounded_6_55();
    } else if k == 57 {
        rounded_6_57();
    } else if k == 59 {
        rounded_6_59();
    } else if k == 61 {
        rounded_6_61();
    } else if k == 63 {
        rounded_6_63();
    }
}

/// Boundary 1 of schema 7, checked through its squaring chains.
proof fn rounded_7_1()
    ensures
        rounds_root(0x3FE0_163D_A9FB_3335u64, 1, 7),
{
    lemma2_to64();
    lemma2_to64_rest();
    lemma_chain_start(0x202C7B53F66669int);
    lemma_chain_start(0x202C7B53F6666Bint);
    assert(0x202C7B53F66669int * 0x202C7B53F66669int <= 0x8164D1F3BC02F887int * 0x80000000000int);
    assert(0x8164D1F3BC03089Cint * 0x80000000000int <= 0x202C7B53F6666Bint * 0x202C7B53F6666Bint);
    lemma_chain_upper(0x202C7B53F66669int, 0, 0x202C7B53F66669int, 0, 43, 0x8164D1F3BC02F887int);
    lemma_chain_lower(0x202C7B53F6666Bint, 0, 0x202C7B53F6666Bint, 0, 43, 0x8164D1F3BC03089Cint);
    assert(0x8164D1F3BC02F887int * 0x8164D1F3BC02F887int <= 0x82CD8698AC2B83ACint * 0x8000000000000000int);
    assert(0x82CD8698AC2BA42Eint * 0x8000000000000000int <= 0x8164D1F3BC03089Cint * 0x8164D1F3BC03089Cint);
    lemma_chain_upper(0x202C7B53F66669int, 1, 0x8164D1F3BC02F887int, 43, 63, 0x82CD8698AC2B83ACint);
    lemma_chain_lower(0x202C7B53F6666Bint, 1, 0x8164D1F3BC03089Cint, 43, 63, 0x82CD8698AC2BA42Eint);
    assert(0x82CD8698AC2B83ACint * 0x82CD8698AC2B83ACint <= 0x85AAC367CC483D6Dint * 0x8000000000000000int);
    assert(0x85AAC367CC487FDCint * 0x8000000000000000int <= 0x82CD8698AC2BA42Eint * 0x82CD8698AC2BA42Eint);
    lemma_chain_upper(0x202C7B53F66669int, 2, 0x82CD8698AC2B83ACint, 149, 63, 0x85AAC367CC483D6Dint);
    lemma_chain_lower(0x202C7B53F6666Bint, 2, 0x82CD8698AC2BA42Eint, 149, 63, 0x85AAC367CC487FDCint);
    assert(0x85AAC367CC483D6Dint * 0x85AAC367CC483D6Dint <= 0x8B95C1E3EA8B5622int * 0x8000000000000000int);
    assert(0x8B95C1E3EA8BE0E1int * 0x8000000000000000int <= 0x85AAC367CC487FDCint * 0x85AAC367CC487FDCint);
    lemma_chain_upper(0x202C7B53F66669int, 3, 0x85AAC367CC483D6Dint, 361, 63, 0x8B95C1E3EA8B5622int);
    lemma_chain_lower(0x202C7B53F6666Bint, 3, 0x85AAC367CC487FDCint, 361, 63, 0x8B95C1E3EA8BE0E1int);
    assert(0x8B95C1E3EA8B5622int * 0x8B95C1E3EA8B5622int <= 0x9837F0518DB79097int * 0x8000000000000000int);
    assert(0x9837F0518DB8BF31int * 0x8000000000000000int <= 0x8B95C1E3EA8BE0E1int * 0x8B95C1E3EA8BE0E1int);
    lemma_chain_upper(0x202C7B53F66669int, 4, 0x8B95C1E3EA8B5622int, 785, 63, 0x9837F0518DB79097int);
    lemma_chain_lower(0x202C7B53F6666Bint, 4, 0x8B95C1E3EA8BE0E1int, 785, 63, 0x9837F0518DB8BF31int);
    assert(0x9837F0518DB79097int * 0x9837F0518DB79097int <= 0xB504F333F9DBC88Eint * 0x8000000000000000int);
    assert(0xB504F333F9DE9843int * 0x8000000000000000int <= 0x9837F0518DB8BF31int * 0x9837F0518DB8BF31int);
    lemma_chain_upper(0x202C7B53F66669int, 5, 0x9837F0518DB79097int, 1633, 63, 0xB504F333F9DBC88Eint);
    lemma_chain_lower(0x202C7B53F6666Bint, 5, 0x9837F0518DB8BF31int, 1633, 63, 0xB504F333F9DE9843int);
    assert(0xB504F333F9DBC88Eint * 0xB504F333F9DBC88Eint <= 0xFFFFFFFFFFF89EB8int * 0x8000000000000000int);
    assert(0x1000000000000925Bint * 0x8000000000000000int <= 0xB504F333F9DE9843int * 0xB504F333F9DE9843int);
    lemma_chain_upper(0x202C7B53F66669int, 6, 0xB504F333F9DBC88Eint, 3329, 63, 0xFFFFFFFFFFF89EB8int);
    lemma_chain_lower(0x202C7B53F6666Bint, 6, 0xB504F333F9DE9843int, 3329, 63, 0x1000000000000925Bint);
    lemma_chains_round(0x3FE0_163D_A9FB_3335u64, 1, 7, 1, 0x202C7B53F66669int, 0x202C7B53F6666Bint, 0xFFFFFFFFFFF89EB8int, 0x1000000000000925Bint, 6721, 64);
}

/// Boundary 3 of schema 7, checked through its squaring chains.
proof fn rounded_7_3()
    ensures
        rounds_root(0x3FE0_4315_E86E_7F85u64, 3, 7),
{
    lemma2_to64();
    lemma2_to64_rest();
    lemma_chain_start(0x20862BD0DCFF09int);
    lemma_chain_start(0x20862BD0DCFF0Bint);
    assert(0x20862BD0DCFF09int * 0x20862BD0DCFF09int <= 0x843A28C3ACDE3C5Fint * 0x80000000000int);
    assert(0x843A28C3ACDE4CA1int * 0x80000000000int <= 0x20862BD0DCFF0Bint * 0x20862BD0DCFF0Bint);
    lemma_chain_upper(0x20862BD0DCFF09int, 0, 0x20862BD0DCFF09int, 0, 43, 0x843A28C3ACDE3C5Fint);
    lemma_chain_lower(0x20862BD0DCFF0Bint, 0, 0x20862BD0DCFF0Bint, 0, 43, 0x843A28C3ACDE4CA1int);
    assert(0x843A28C3ACDE3C5Fint * 0x843A28C3ACDE3C5Fint <= 0x88980E8092DA7D18int * 0x8000000000000000int);
    assert(0x88980E8092DA9EAEint * 0x8000000000000000int <= 0x843A28C3ACDE4CA1int * 0x843A28C3ACDE4CA1int);
    lemma_chain_upper(0x20862BD0DCFF09int, 1, 0x843A28C3ACDE3C5Fint, 43, 63, 0x88980E8092DA7D18int);
    lemma_chain_lower(0x20862BD0DCFF0Bint, 1, 0x843A28C3ACDE4CA1int, 43, 63, 0x88980E8092DA9EAEint);
    assert(0x88980E8092DA7D18int * 0x88980E8092DA7D18int <= 0x91C3D373AB11B203int * 0x8000000000000000int);
    assert(0x91C3D373AB11F9B0int * 0x8000000000000000int <= 0x88980E8092DA9EAEint * 0x88980E8092DA9EAEint);
    lemma_chain_upper(0x20862BD0DCFF09int, 2, 0x88980E8092DA7D18int, 149, 63, 0x91C3D373AB11B203int);
    lemma_chain_lower(0x20862BD0DCFF0Bint, 2, 0x88980E8092DA9EAEint, 149, 63, 0x91C3D373AB11F9B0int);
    assert(0x91C3D373AB11B203int * 0x91C3D373AB11B203int <= 0xA5FED6A9B15111BEint * 0x8000000000000000int);
    assert(0xA5FED6A9B151B4FDint * 0x8000000000000000int <= 0x91C3D373AB11F9B0int * 0x91C3D373AB11F9B0int);
    lemma_chain_upper(0x20862BD0DCFF09int, 3, 0x91C3D373AB11B203int, 361, 63, 0xA5FED6A9B15111BEint);
    lemma_chain_lower(0x20862BD0DCFF0Bint, 3, 0x91C3D373AB11F9B0int, 361, 63, 0xA5FED6A9B151B4FDint);
    assert(0xA5FED6A9B15111BEint * 0xA5FED6A9B15111BEint <= 0xD744FCCAD69D055Bint * 0x8000000000000000int);
    assert(0xD744FCCAD69EACC2int * 0x8000000000000000int <= 0xA5FED6A9B151B4FDint * 0xA5FED6A9B151B4FDint);
    lemma_chain_upper(0x20862BD0DCFF09int, 4, 0xA5FED6A9B15111BEint, 785, 63, 0xD744FCCAD69D055Bint);
    lemma_chain_lower(0x20862BD0DCFF0Bint, 4, 0xA5FED6A9B151B4FDint, 785, 63, 0xD744FCCAD69EACC2int);
    assert(0xD744FCCAD69D055Bint * 0xD744FCCAD69D055Bint <= 0xB504F333F9DDB9A7int * 0x10000000000000000int);
    assert(0xB504F333F9E081B9int * 0x10000000000000000int <= 0xD744FCCAD69EACC2int * 0xD744FCCAD69EACC2int);
    lemma_chain_upper(0x20862BD0DCFF09int, 5, 0xD744FCCAD69D055Bint, 1633, 64, 0xB504F333F9DDB9A7int);
    lemma_chain_lower(0x20862BD0DCFF0Bint, 5, 0xD744FCCAD69EACC2int, 1633, 64, 0xB504F333F9E081B9int);
    assert(0xB504F333F9DDB9A7int * 0xB504F333F9DDB9A7int <= 0xFFFFFFFFFFFE1CB9int * 0x8000000000000000int);
    assert(0x1000000000005FAC2int * 0x8000000000000000int <= 0xB504F333F9E081B9int * 0xB504F333F9E081B9int);
    lemma_chain_upper(0x20862BD0DCFF09int, 6, 0xB504F333F9DDB9A7int, 3330, 63, 0xFFFFFFFFFFFE1CB9int);
    lemma_chain_lower(0x20862BD0DCFF0Bint, 6, 0xB504F333F9E081B9int, 3330, 63, 0x1000000000005FAC2int);
    lemma_chains_round(0x3FE0_4315_E86E_7F85u64, 3, 7, 1, 0x20862BD0DCFF09int, 0x20862BD0DCFF0Bint, 0xFFFFFFFFFFFE1CB9int, 0x1000000000005FAC2int, 6723, 64);
}

/// Boundary 5 of schema 7, checked through its squaring chains.
proof fn rounded_7_5()
    ensures
        rounds_root(0x3FE0_706B_29DD_F6DEu64, 5, 7),
{
    lemma2_to64();
    lemma2_to64_rest();
    lemma_chain_start(0x20E0D653BBEDBBint);
    lemma_chain_start(0x20E0D653BBEDBDint);
    assert(0x20E0D653BBEDBBint * 0x20E0D653BBEDBBint <= 0x871F61969E8D0B84int * 0x80000000000int);
    assert(0x871F61969E8D1BF3int * 0x80000000000int <= 0x20E0D653BBEDBDint * 0x20E0D653BBEDBDint);
    lemma_chain_upper(0x20E0D653BBEDBBint, 0, 0x20E0D653BBEDBBint, 0, 43, 0x871F61969E8D0B84int);
    lemma_chain_lower(0x20E0D653BBEDBDint, 0, 0x20E0D653BBEDBDint, 0, 43, 0x871F61969E8D1BF3int);
    assert(0x871F61969E8D0B84int * 0x871F61969E8D0B84int <= 0x8EA4398B45CD4A27int * 0x8000000000000000int);
    assert(0x8EA4398B45CD6CD8int * 0x8000000000000000int <= 0x871F61969E8D1BF3int * 0x871F61969E8D1BF3int);
    lemma_chain_upper(0x20E0D653BBEDBBint, 1, 0x871F61969E8D0B84int, 43, 63, 0x8EA4398B45CD4A27int);
    lemma_chain_lower(0x20E0D653BBEDBDint, 1, 0x871F61969E8D1BF3int, 43, 63, 0x8EA4398B45CD6CD8int);
    assert(0x8EA4398B45CD4A27int * 0x8EA4398B45CD4A27int <= 0x9EF5326091A0FC4Aint * 0x8000000000000000int);
    assert(0x9EF5326091A1499Aint * 0x8000000000000000int <= 0x8EA4398B45CD6CD8int * 0x8EA4398B45CD6CD8int);
    lemma_chain_upper(0x20E0D653BBEDBBint, 2, 0x8EA4398B45CD4A27int, 149, 63, 0x9EF5326091A0FC4Aint);
    lemma_chain_lower(0x20E0D653BBEDBDint, 2, 0x8EA4398B45CD6CD8int, 149, 63, 0x9EF5326091A1499Aint);
    assert(0x9EF5326091A0FC4Aint * 0x9EF5326091A0FC4Aint <= 0xC5672A115506A5BEint * 0x8000000000000000int);
    assert(0xC5672A11550765C3int * 0x8000000000000000int <= 0x9EF5326091A1499Aint * 0x9EF5326091A1499Aint);
    lemma_chain_upper(0x20E0D653BBEDBBint, 3, 0x9EF5326091A0FC4Aint, 361, 63, 0xC5672A115506A5BEint);
    lemma_chain_lower(0x20E0D653BBEDBDint, 3, 0x9EF5326091A1499Aint, 361, 63, 0xC5672A11550765C3int);
    assert(0xC5672A115506A5BEint * 0xC5672A115506A5BEint <= 0x9837F0518DB85783int * 0x10000000000000000int);
    assert(0x9837F0518DB97FA4int * 0x10000000000000000int <= 0xC5672A11550765C3int * 0xC5672A11550765C3int);
    lemma_chain_upper(0x20E0D653BBEDBBint, 4, 0xC5672A115506A5BEint, 785, 64, 0x9837F0518DB85783int);
    lemma_chain_lower(0x20E0D653BBEDBDint, 4, 0xC5672A11550765C3int, 785, 64, 0x9837F0518DB97FA4int);
    assert(0x9837F0518DB85783int * 0x9837F0518DB85783int <= 0xB504F333F9DDA1ACint * 0x8000000000000000int);
    assert(0xB504F333F9E061FCint * 0x8000000000000000int <= 0x9837F0518DB97FA4int * 0x9837F0518DB97FA4int);
    lemma_chain_upper(0x20E0D653BBEDBBint, 5, 0x9837F0518DB85783int, 1634, 63, 0xB504F333F9DDA1ACint);
    lemma_chain_lower(0x20E0D653BBEDBDint, 5, 0x9837F0518DB97FA4int, 1634, 63, 0xB504F333F9E061FCint);
    assert(0xB504F333F9DDA1ACint * 0xB504F333F9DDA1ACint <= 0xFFFFFFFFFFFDD8E6int * 0x8000000000000000int);
    assert(0x1000000000005A0FDint * 0x8000000000000000int <= 0xB504F333F9E061FCint * 0xB504F333F9E061FCint);
    lemma_chain_upper(0x20E0D653BBEDBBint, 6, 0xB504F333F9DDA1ACint, 3331, 63, 0xFFFFFFFFFFFDD8E6int);
    lemma_chain_lower(0x20E0D653BBEDBDint, 6, 0xB504F333F9E061FCint, 3331, 63, 0x1000000000005A0FDint);
    lemma_chains_round(0x3FE0_706B_29DD_F6DEu64, 5, 7, 1, 0x20E0D653BBEDBBint, 0x20E0D653BBEDBDint, 0xFFFFFFFFFFFDD8E6int, 0x1000000000005A0FDint, 6725, 64);
}

/// Boundary 7 of schema 7, checked through its squaring chains.
proof fn rounded_7_7()
    ensures
        rounds_root(0x3FE0_9E3E_CAC6_F383u64, 7, 7),
{
    lemma2_to64();
    lemma2_to64_rest();
    lemma_chain_start(0x213C7D958DE705int);
    lemma_chain_start(0x213C7D958DE707int);
    assert(0x213C7D958DE705int * 0x213C7D958DE705int <= 0x8A14D575496EF0CFint * 0x80000000000int);
    assert(0x8A14D575496F016Cint * 0x80000000000int <= 0x213C7D958DE707int * 0x213C7D958DE707int);
    lemma_chain_upper(0x213C7D958DE705int, 0, 0x213C7D958DE705int, 0, 43, 0x8A14D575496EF0CFint);
    lemma_chain_lower(0x213C7D958DE707int, 0, 0x213C7D958DE707int, 0, 43, 0x8A14D575496F016Cint);
    assert(0x8A14D575496EF0CFint * 0x8A14D575496EF0CFint <= 0x94F4EFA8FEF6EDC8int * 0x8000000000000000int);
    assert(0x94F4EFA8FEF7119Fint * 0x8000000000000000int <= 0x8A14D575496F016Cint * 0x8A14D575496F016Cint);
    lemma_chain_upper(0x213C7D958DE705int, 1, 0x8A14D575496EF0CFint, 43, 63, 0x94F4EFA8FEF6EDC8int);
    lemma_chain_lower(0x213C7D958DE707int, 1, 0x8A14D575496F016Cint, 43, 63, 0x94F4EFA8FEF7119Fint);
    assert(0x94F4EFA8FEF6EDC8int * 0x94F4EFA8FEF6EDC8int <= 0xAD583EEA42A10A8Bint * 0x8000000000000000int);
    assert(0xAD583EEA42A15DF4int * 0x8000000000000000int <= 0x94F4EFA8FEF7119Fint * 0x94F4EFA8FEF7119Fint);
    lemma_chain_upper(0x213C7D958DE705int, 2, 0x94F4EFA8FEF6EDC8int, 149, 63, 0xAD583EEA42A10A8Bint);
    lemma_chain_lower(0x213C7D958DE707int, 2, 0x94F4EFA8FEF7119Fint, 149, 63, 0xAD583EEA42A15DF4int);
    assert(0xAD583EEA42A10A8Bint * 0xAD583EEA42A10A8Bint <= 0xEAC0C6E7DD238B36int * 0x8000000000000000int);
    assert(0xEAC0C6E7DD246D20int * 0x8000000000000000int <= 0xAD583EEA42A15DF4int * 0xAD583EEA42A15DF4int);
    lemma_chain_upper(0x213C7D958DE705int, 3, 0xAD583EEA42A10A8Bint, 361, 63, 0xEAC0C6E7DD238B36int);
    lemma_chain_lower(0x213C7D958DE707int, 3, 0xAD583EEA42A15DF4int, 361, 63, 0xEAC0C6E7DD246D20int);
    assert(0xEAC0C6E7DD238B36int * 0xEAC0C6E7DD238B36int <= 0xD744FCCAD69C2BE4int * 0x10000000000000000int);
    assert(0xD744FCCAD69DCA37int * 0x10000000000000000int <= 0xEAC0C6E7DD246D20int * 0xEAC0C6E7DD246D20int);
    lemma_chain_upper(0x213C7D958DE705int, 4, 0xEAC0C6E7DD238B36int, 785, 64, 0xD744FCCAD69C2BE4int);
    lemma_chain_lower(0x213C7D958DE707int, 4, 0xEAC0C6E7DD246D20int, 785, 64, 0xD744FCCAD69DCA37int);
    assert(0xD744FCCAD69C2BE4int * 0xD744FCCAD69C2BE4int <= 0xB504F333F9DC4BECint * 0x10000000000000000int);
    assert(0xB504F333F9DF04B9int * 0x10000000000000000int <= 0xD744FCCAD69DCA37int * 0xD744FCCAD69DCA37int);
    lemma_chain_upper(0x213C7D958DE705int, 5, 0xD744FCCAD69C2BE4int, 1634, 64, 0xB504F333F9DC4BECint);
    lemma_chain_lower(0x213C7D958DE707int, 5, 0xD744FCCAD69DCA37int, 1634, 64, 0xB504F333F9DF04B9int);
    assert(0xB504F333F9DC4BECint * 0xB504F333F9DC4BECint <= 0xFFFFFFFFFFFA1248int * 0x8000000000000000int);
    assert(0x1000000000001C521int * 0x8000000000000000int <= 0xB504F333F9DF04B9int * 0xB504F333F9DF04B9int);
    lemma_chain_upper(0x213C7D958DE705int, 6, 0xB504F333F9DC4BECint, 3332, 63, 0xFFFFFFFFFFFA1248int);
    lemma_chain_lower(0x213C7D958DE707int, 6, 0xB504F333F9DF04B9int, 3332, 63, 0x1000000000001C521int);
    lemma_chains_round(0x3FE0_9E3E_CAC6_F383u64, 7, 7, 1, 0x213C7D958DE705int, 0x213C7D958DE707int, 0xFFFFFFFFFFFA1248int, 0x1000000000001C521int, 6727, 64);
}

/// Boundary 9 of schema 7, checked through its squaring chains.
proof fn rounded_7_9()
    ensures
        rounds_root(0x3FE0_CC92_2B72_47F7u64, 9, 7),
{
    lemma2_to64();
    lemma2_to64_rest();
    lemma_chain_start(0x21992456E48FEDint);
    lemma_chain_start(0x21992456E48FEFint);
    assert(0x21992456E48FEDint * 0x21992456E48FEDint <= 0x8D1ADF5B7E5B9D45int * 0x80000000000int);
    assert(0x8D1ADF5B7E5BAE10int * 0x80000000000int <= 0x21992456E48FEFint * 0x21992456E48FEFint);
    lemma_chain_upper(0x21992456E48FEDint, 0, 0x21992456E48FEDint, 0, 43, 0x8D1ADF5B7E5B9D45int);
    lemma_chain_lower(0x21992456E48FEFint, 0, 0x21992456E48FEFint, 0, 43, 0x8D1ADF5B7E5BAE10int);
    assert(0x8D1ADF5B7E5B9D45int * 0x8D1ADF5B7E5B9D45int <= 0x9B8D39B9D54E3962int * 0x8000000000000000int);
    assert(0x9B8D39B9D54E5E67int * 0x8000000000000000int <= 0x8D1ADF5B7E5BAE10int * 0x8D1ADF5B7E5BAE10int);
    lemma_chain_upper(0x21992456E48FEDint, 1, 0x8D1ADF5B7E5B9D45int, 43, 63, 0x9B8D39B9D54E3962int);
    lemma_chain_lower(0x21992456E48FEFint, 1, 0x8D1ADF5B7E5BAE10int, 43, 63, 0x9B8D39B9D54E5E67int);
    assert(0x9B8D39B9D54E3962int * 0x9B8D39B9D54E3962int <= 0xBD08A39F580BF316int * 0x8000000000000000int);
    assert(0xBD08A39F580C4D0Fint * 0x8000000000000000int <= 0x9B8D39B9D54E5E67int * 0x9B8D39B9D54E5E67int);
    lemma_chain_upper(0x21992456E48FEDint, 2, 0x9B8D39B9D54E3962int, 149, 63, 0xBD08A39F580BF316int);
    lemma_chain_lower(0x21992456E48FEFint, 2, 0x9B8D39B9D54E5E67int, 149, 63, 0xBD08A39F580C4D0Fint);
    assert(0xBD08A39F580BF316int * 0xBD08A39F580BF316int <= 0x8B95C1E3EA8B72FCint * 0x10000000000000000int);
    assert(0x8B95C1E3EA8BF7DBint * 0x10000000000000000int <= 0xBD08A39F580C4D0Fint * 0xBD08A39F580C4D0Fint);
    lemma_chain_upper(0x21992456E48FEDint, 3, 0xBD08A39F580BF316int, 361, 64, 0x8B95C1E3EA8B72FCint);
    lemma_chain_lower(0x21992456E48FEFint, 3, 0xBD08A39F580C4D0Fint, 361, 64, 0x8B95C1E3EA8BF7DBint);
    assert(0x8B95C1E3EA8B72FCint * 0x8B95C1E3EA8B72FCint <= 0x9837F0518DB7CF84int * 0x8000000000000000int);
    assert(0x9837F0518DB8F14Eint * 0x8000000000000000int <= 0x8B95C1E3EA8BF7DBint * 0x8B95C1E3EA8BF7DBint);
    lemma_chain_upper(0x21992456E48FEDint, 4, 0x8B95C1E3EA8B72FCint, 786, 63, 0x9837F0518DB7CF84int);
    lemma_chain_lower(0x21992456E48FEFint, 4, 0x8B95C1E3EA8BF7DBint, 786, 63, 0x9837F0518DB8F14Eint);
    assert(0x9837F0518DB7CF84int * 0x9837F0518DB7CF84int <= 0xB504F333F9DC5E38int * 0x8000000000000000int);
    assert(0xB504F333F9DF0F74int * 0x8000000000000000int <= 0x9837F0518DB8F14Eint * 0x9837F0518DB8F14Eint);
    lemma_chain_upper(0x21992456E48FEDint, 5, 0x9837F0518DB7CF84int, 1635, 63, 0xB504F333F9DC5E38int);
    lemma_chain_lower(0x21992456E48FEFint, 5, 0x9837F0518DB8F14Eint, 1635, 63, 0xB504F333F9DF0F74int);
    assert(0xB504F333F9DC5E38int * 0xB504F333F9DC5E38int <= 0xFFFFFFFFFFFA4608int * 0x8000000000000000int);
    assert(0x1000000000001E37Aint * 0x8000000000000000int <= 0xB504F333F9DF0F74int * 0xB504F333F9DF0F74int);
    lemma_chain_upper(0x21992456E48FEDint, 6, 0xB504F333F9DC5E38int, 3333, 63, 0xFFFFFFFFFFFA4608int);
    lemma_chain_lower(0x21992456E48FEFint, 6, 0xB504F333F9DF0F74int, 3333, 63, 0x1000000000001E37Aint);
    lemma_chains_round(0x3FE0_CC92_2B72_47F7u64, 9, 7, 1, 0x21992456E48FEDint, 0x21992456E48FEFint, 0xFFFFFFFFFFFA4608int, 0x1000000000001E37Aint, 6729, 64);
}

/// Boundary 11 of schema 7, checked through its squaring chains.
proof fn rounded_7_11()
    ensures
        rounds_root(0x3FE0_FB66_AFFE_D31Bu64, 11, 7),
{
    lemma2_to64();
    lemma2_to64_rest();
    lemma_chain_start(0x21F6CD5FFDA635int);
    lemma_chain_start(0x21F6CD5FFDA637int);
    assert(0x21F6CD5FFDA635int * 0x21F6CD5FFDA635int <= 0x9031DC431466AA4Aint * 0x80000000000int);
    assert(0x9031DC431466BB44int * 0x80000000000int <= 0x21F6CD5FFDA637int * 0x21F6CD5FFDA637int);
    lemma_chain_upper(0x21F6CD5FFDA635int, 0, 0x21F6CD5FFDA635int, 0, 43, 0x9031DC431466AA4Aint);
    lemma_chain_lower(0x21F6CD5FFDA637int, 0, 0x21F6CD5FFDA637int, 0, 43, 0x9031DC431466BB44int);
    assert(0x9031DC431466AA4Aint * 0x9031DC431466AA4Aint <= 0xA27043030C49570Aint * 0x8000000000000000int);
    assert(0xA27043030C497D48int * 0x8000000000000000int <= 0x9031DC431466BB44int * 0x9031DC431466BB44int);
    lemma_chain_upper(0x21F6CD5FFDA635int, 1, 0x9031DC431466AA4Aint, 43, 63, 0xA27043030C49570Aint);
    lemma_chain_lower(0x21F6CD5FFDA637int, 1, 0x9031DC431466BB44int, 43, 63, 0xA27043030C497D48int);
    assert(0xA27043030C49570Aint * 0xA27043030C49570Aint <= 0xCE248C151F845599int * 0x8000000000000000int);
    assert(0xCE248C151F84B6A9int * 0x8000000000000000int <= 0xA27043030C497D48int * 0xA27043030C497D48int);
    lemma_chain_upper(0x21F6CD5FFDA635int, 2, 0xA27043030C49570Aint, 149, 63, 0xCE248C151F845599int);
    lemma_chain_lower(0x21F6CD5FFDA637int, 2, 0xA27043030C497D48int, 149, 63, 0xCE248C151F84B6A9int);
    assert(0xCE248C151F845599int * 0xCE248C151F845599int <= 0xA5FED6A9B150F332int * 0x10000000000000000int);
    assert(0xA5FED6A9B1518F82int * 0x10000000000000000int <= 0xCE248C151F84B6A9int * 0xCE248C151F84B6A9int);
    lemma_chain_upper(0x21F6CD5FFDA635int, 3, 0xCE248C151F845599int, 361, 64, 0xA5FED6A9B150F332int);
    lemma_chain_lower(0x21F6CD5FFDA637int, 3, 0xCE248C151F84B6A9int, 361, 64, 0xA5FED6A9B1518F82int);
    assert(0xA5FED6A9B150F332int * 0xA5FED6A9B150F332int <= 0xD744FCCAD69CB620int * 0x8000000000000000int);
    assert(0xD744FCCAD69E4B8Cint * 0x8000000000000000int <= 0xA5FED6A9B1518F82int * 0xA5FED6A9B1518F82int);
    lemma_chain_upper(0x21F6CD5FFDA635int, 4, 0xA5FED6A9B150F332int, 786, 63, 0xD744FCCAD69CB620int);
    lemma_chain_lower(0x21F6CD5FFDA637int, 4, 0xA5FED6A9B1518F82int, 786, 63, 0xD744FCCAD69E4B8Cint);
    assert(0xD744FCCAD69CB620int * 0xD744FCCAD69CB620int <= 0xB504F333F9DD3467int * 0x10000000000000000int);
    assert(0xB504F333F9DFDE3Cint * 0x10000000000000000int <= 0xD744FCCAD69E4B8Cint * 0xD744FCCAD69E4B8Cint);
    lemma_chain_upper(0x21F6CD5FFDA635int, 5, 0xD744FCCAD69CB620int, 1635, 64, 0xB504F333F9DD3467int);
    lemma_chain_lower(0x21F6CD5FFDA637int, 5, 0xD744FCCAD69E4B8Cint, 1635, 64, 0xB504F333F9DFDE3Cint);
    assert(0xB504F333F9DD3467int * 0xB504F333F9DD3467int <= 0xFFFFFFFFFFFCA3D6int * 0x8000000000000000int);
    assert(0x10000000000042C58int * 0x8000000000000000int <= 0xB504F333F9DFDE3Cint * 0xB504F333F9DFDE3Cint);
    lemma_chain_upper(0x21F6CD5FFDA635int, 6, 0xB504F333F9DD3467int, 3334, 63, 0xFFFFFFFFFFFCA3D6int);
    lemma_chain_lower(0x21F6CD5FFDA637int, 6, 0xB504F333F9DFDE3Cint, 3334, 63, 0x10000000000042C58int);
    lemma_chains_round(0x3FE0_FB66_AFFE_D31Bu64, 11, 7, 1, 0x21F6CD5FFDA635int, 0x21F6CD5FFDA637int, 0xFFFFFFFFFFFCA3D6int, 0x10000000000042C58int, 6731, 64);
}

/// Boundary 13 of schema 7, checked through its squaring chains.
proof fn rounded_7_13()
    ensures
        rounds_root(0x3FE1_2ABD_C06C_31CCu64, 13, 7),
{
    lemma2_to64();
    lemma2_to64_rest();
    lemma_chain_start(0x22557B80D86397int);
    lemma_chain_start(0x22557B80D86399int);
    assert(0x22557B80D86397int * 0x22557B80D86397int <= 0x935A2B2F13E6E0E3int * 0x80000000000int);
    assert(0x935A2B2F13E6F20Dint * 0x80000000000int <= 0x22557B80D86399int * 0x22557B80D86399int);
    lemma_chain_upper(0x22557B80D86397int, 0, 0x22557B80D86397int, 0, 43, 0x935A2B2F13E6E0E3int);
    lemma_chain_lower(0x22557B80D86399int, 0, 0x22557B80D86399int, 0, 43, 0x935A2B2F13E6F20Dint);
    assert(0x935A2B2F13E6E0E3int * 0x935A2B2F13E6E0E3int <= 0xA9A15AB4EA7BFBE6int * 0x8000000000000000int);
    assert(0xA9A15AB4EA7C236Aint * 0x8000000000000000int <= 0x935A2B2F13E6F20Dint * 0x935A2B2F13E6F20Dint);
    lemma_chain_upper(0x22557B80D86397int, 1, 0x935A2B2F13E6E0E3int, 43, 63, 0xA9A15AB4EA7BFBE6int);
    lemma_chain_lower(0x22557B80D86399int, 1, 0x935A2B2F13E6F20Dint, 43, 63, 0xA9A15AB4EA7C236Aint);
    assert(0xA9A15AB4EA7BFBE6int * 0xA9A15AB4EA7BFBE6int <= 0xE0CCDEEC2A94AE85int * 0x8000000000000000int);
    assert(0xE0CCDEEC2A951740int * 0x8000000000000000int <= 0xA9A15AB4EA7C236Aint * 0xA9A15AB4EA7C236Aint);
    lemma_chain_upper(0x22557B80D86397int, 2, 0xA9A15AB4EA7BFBE6int, 149, 63, 0xE0CCDEEC2A94AE85int);
    lemma_chain_lower(0x22557B80D86399int, 2, 0xA9A15AB4EA7C236Aint, 149, 63, 0xE0CCDEEC2A951740int);
    assert(0xE0CCDEEC2A94AE85int * 0xE0CCDEEC2A94AE85int <= 0xC5672A1155068218int * 0x10000000000000000int);
    assert(0xC5672A1155073A06int * 0x10000000000000000int <= 0xE0CCDEEC2A951740int * 0xE0CCDEEC2A951740int);
    lemma_chain_upper(0x22557B80D86397int, 3, 0xE0CCDEEC2A94AE85int, 361, 64, 0xC5672A1155068218int);
    lemma_chain_lower(0x22557B80D86399int, 3, 0xE0CCDEEC2A951740int, 361, 64, 0xC5672A1155073A06int);
    assert(0xC5672A1155068218int * 0xC5672A1155068218int <= 0x9837F0518DB82089int * 0x10000000000000000int);
    assert(0x9837F0518DB93C30int * 0x10000000000000000int <= 0xC5672A1155073A06int * 0xC5672A1155073A06int);
    lemma_chain_upper(0x22557B80D86397int, 4, 0xC5672A1155068218int, 786, 64, 0x9837F0518DB82089int);
    lemma_chain_lower(0x22557B80D86399int, 4, 0xC5672A1155073A06int, 786, 64, 0x9837F0518DB93C30int);
    assert(0x9837F0518DB82089int * 0x9837F0518DB82089int <= 0xB504F333F9DD1EEAint * 0x8000000000000000int);
    assert(0xB504F333F9DFC18Eint * 0x8000000000000000int <= 0x9837F0518DB93C30int * 0x9837F0518DB93C30int);
    lemma_chain_upper(0x22557B80D86397int, 5, 0x9837F0518DB82089int, 1636, 63, 0xB504F333F9DD1EEAint);
    lemma_chain_lower(0x22557B80D86399int, 5, 0x9837F0518DB93C30int, 1636, 63, 0xB504F333F9DFC18Eint);
    assert(0xB504F333F9DD1EEAint * 0xB504F333F9DD1EEAint <= 0xFFFFFFFFFFFC670Fint * 0x8000000000000000int);
    assert(0x1000000000003DB3Aint * 0x8000000000000000int <= 0xB504F333F9DFC18Eint * 0xB504F333F9DFC18Eint);
    lemma_chain_upper(0x22557B80D86397int, 6, 0xB504F333F9DD1EEAint, 3335, 63, 0xFFFFFFFFFFFC670Fint);
    lemma_chain_lower(0x22557B80D86399int, 6, 0xB504F333F9DFC18Eint, 3335, 63, 0x1000000000003DB3Aint);
    lemma_chains_round(0x3FE1_2ABD_C06C_31CCu64, 13, 7, 1, 0x22557B80D86397int, 0x22557B80D86399int, 0xFFFFFFFFFFFC670Fint, 0x1000000000003DB3Aint, 6733, 64);
}

/// Boundary 15 of schema 7, checked through its squaring chains.
proof fn rounded_7_15()
    ensures
        rounds_root(0x3FE1_5A98_C8A5_8E51u64, 15, 7),
{
    lemma2_to64();
    lemma2_to64_rest();
    lemma_chain_start(0x22B531914B1CA1int);
    lemma_chain_start(0x22B531914B1CA3int);
    assert(0x22B531914B1CA1int * 0x22B531914B1CA1int <= 0x96942D3720184EDAint * 0x80000000000int);
    assert(0x96942D3720186034int * 0x80000000000int <= 0x22B531914B1CA3int * 0x22B531914B1CA3int);
    lemma_chain_upper(0x22B531914B1CA1int, 0, 0x22B531914B1CA1int, 0, 43, 0x96942D3720184EDAint);
    lemma_chain_lower(0x22B531914B1CA3int, 0, 0x22B531914B1CA3int, 0, 43, 0x96942D3720186034int);
    assert(0x96942D3720184EDAint * 0x96942D3720184EDAint <= 0xB123F581D2AC0B54int * 0x8000000000000000int);
    assert(0xB123F581D2AC3427int * 0x8000000000000000int <= 0x96942D3720186034int * 0x96942D3720186034int);
    lemma_chain_upper(0x22B531914B1CA1int, 1, 0x96942D3720184EDAint, 43, 63, 0xB123F581D2AC0B54int);
    lemma_chain_lower(0x22B531914B1CA3int, 1, 0x96942D3720186034int, 43, 63, 0xB123F581D2AC3427int);
    assert(0xB123F581D2AC0B54int * 0xB123F581D2AC0B54int <= 0xF5257D1524868392int * 0x8000000000000000int);
    assert(0xF5257D152486F48Fint * 0x8000000000000000int <= 0xB123F581D2AC3427int * 0xB123F581D2AC3427int);
    lemma_chain_upper(0x22B531914B1CA1int, 2, 0xB123F581D2AC0B54int, 149, 63, 0xF5257D1524868392int);
    lemma_chain_lower(0x22B531914B1CA3int, 2, 0xB123F581D2AC3427int, 149, 63, 0xF5257D152486F48Fint);
    assert(0xF5257D1524868392int * 0xF5257D1524868392int <= 0xEAC0C6E7DD23AE22int * 0x10000000000000000int);
    assert(0xEAC0C6E7DD248687int * 0x10000000000000000int <= 0xF5257D152486F48Fint * 0xF5257D152486F48Fint);
    lemma_chain_upper(0x22B531914B1CA1int, 3, 0xF5257D1524868392int, 361, 64, 0xEAC0C6E7DD23AE22int);
    lemma_chain_lower(0x22B531914B1CA3int, 3, 0xF5257D152486F48Fint, 361, 64, 0xEAC0C6E7DD248687int);
    assert(0xEAC0C6E7DD23AE22int * 0xEAC0C6E7DD23AE22int <= 0xD744FCCAD69C6BF0int * 0x10000000000000000int);
    assert(0xD744FCCAD69DF8CDint * 0x10000000000000000int <= 0xEAC0C6E7DD248687int * 0xEAC0C6E7DD248687int);
    lemma_chain_upper(0x22B531914B1CA1int, 4, 0xEAC0C6E7DD23AE22int, 786, 64, 0xD744FCCAD69C6BF0int);
    lemma_chain_lower(0x22B531914B1CA3int, 4, 0xEAC0C6E7DD248687int, 786, 64, 0xD744FCCAD69DF8CDint);
    assert(0xD744FCCAD69C6BF0int * 0xD744FCCAD69C6BF0int <= 0xB504F333F9DCB7A2int * 0x10000000000000000int);
    assert(0xB504F333F9DF5312int * 0x10000000000000000int <= 0xD744FCCAD69DF8CDint * 0xD744FCCAD69DF8CDint);
    lemma_chain_upper(0x22B531914B1CA1int, 5, 0xD744FCCAD69C6BF0int, 1636, 64, 0xB504F333F9DCB7A2int);
    lemma_chain_lower(0x22B531914B1CA3int, 5, 0xD744FCCAD69DF8CDint, 1636, 64, 0xB504F333F9DF5312int);
    assert(0xB504F333F9DCB7A2int * 0xB504F333F9DCB7A2int <= 0xFFFFFFFFFFFB42EFint * 0x8000000000000000int);
    assert(0x1000000000002A2BBint * 0x8000000000000000int <= 0xB504F333F9DF5312int * 0xB504F333F9DF5312int);
    lemma_chain_upper(0x22B531914B1CA1int, 6, 0xB504F333F9DCB7A2int, 3336, 63, 0xFFFFFFFFFFFB42EFint);
    lemma_chain_lower(0x22B531914B1CA3int, 6, 0xB504F333F9DF5312int, 3336, 63, 0x1000000000002A2BBint);
    lemma_chains_round(0x3FE1_5A98_C8A5_8E51u64, 15, 7, 1, 0x22B531914B1CA1int, 0x22B531914B1CA3int, 0xFFFFFFFFFFFB42EFint, 0x1000000000002A2BBint, 6735, 64);
}

/// Boundary 17 of schema 7, checked through its squaring chains.
proof fn rounded_7_17()
    ensures
        rounds_root(0x3FE1_8AF9_388C_8DEAu64, 17, 7),
{
    lemma2_to64();
    lemma2_to64_rest();
    lemma_chain_start(0x2315F271191BD3int);
    lemma_chain_start(0x2315F271191BD5int);
    assert(0x2315F271191BD3int * 0x2315F271191BD3int <= 0x99E0459320B7F64Dint * 0x80000000000int);
    assert(0x99E0459320B807D7int * 0x80000000000int <= 0x2315F271191BD5int * 0x2315F271191BD5int);
    lemma_chain_upper(0x2315F271191BD3int, 0, 0x2315F271191BD3int, 0, 43, 0x99E0459320B7F64Dint);
    lemma_chain_lower(0x2315F271191BD5int, 0, 0x2315F271191BD5int, 0, 43, 0x99E0459320B807D7int);
    assert(0x99E0459320B7F64Dint * 0x99E0459320B7F64Dint <= 0xB8FBAF4762FB9512int * 0x8000000000000000int);
    assert(0xB8FBAF4762FBBF3Dint * 0x8000000000000000int <= 0x99E0459320B807D7int * 0x99E0459320B807D7int);
    lemma_chain_upper(0x2315F271191BD3int, 1, 0x99E0459320B7F64Dint, 43, 63, 0xB8FBAF4762FB9512int);
    lemma_chain_lower(0x2315F271191BD5int, 1, 0x99E0459320B807D7int, 43, 63, 0xB8FBAF4762FBBF3Dint);
    assert(0xB8FBAF4762FB9512int * 0xB8FBAF4762FB9512int <= 0x85AAC367CC486CDDint * 0x10000000000000000int);
    assert(0x85AAC367CC48A9CCint * 0x10000000000000000int <= 0xB8FBAF4762FBBF3Dint * 0xB8FBAF4762FBBF3Dint);
    lemma_chain_upper(0x2315F271191BD3int, 2, 0xB8FBAF4762FB9512int, 149, 64, 0x85AAC367CC486CDDint);
    lemma_chain_lower(0x2315F271191BD5int, 2, 0xB8FBAF4762FBBF3Dint, 149, 64, 0x85AAC367CC48A9CCint);
    assert(0x85AAC367CC486CDDint * 0x85AAC367CC486CDDint <= 0x8B95C1E3EA8BB936int * 0x8000000000000000int);
    assert(0x8B95C1E3EA8C3878int * 0x8000000000000000int <= 0x85AAC367CC48A9CCint * 0x85AAC367CC48A9CCint);
    lemma_chain_upper(0x2315F271191BD3int, 3, 0x85AAC367CC486CDDint, 362, 63, 0x8B95C1E3EA8BB936int);
    lemma_chain_lower(0x2315F271191BD5int, 3, 0x85AAC367CC48A9CCint, 362, 63, 0x8B95C1E3EA8C3878int);
    assert(0x8B95C1E3EA8BB936int * 0x8B95C1E3EA8BB936int <= 0x9837F0518DB868AEint * 0x8000000000000000int);
    assert(0x9837F0518DB97E3Aint * 0x8000000000000000int <= 0x8B95C1E3EA8C3878int * 0x8B95C1E3EA8C3878int);
    lemma_chain_upper(0x2315F271191BD3int, 4, 0x8B95C1E3EA8BB936int, 787, 63, 0x9837F0518DB868AEint);
    lemma_chain_lower(0x2315F271191BD5int, 4, 0x8B95C1E3EA8C3878int, 787, 63, 0x9837F0518DB97E3Aint);
    assert(0x9837F0518DB868AEint * 0x9837F0518DB868AEint <= 0xB504F333F9DDCA81int * 0x8000000000000000int);
    assert(0xB504F333F9E05E9Fint * 0x8000000000000000int <= 0x9837F0518DB97E3Aint * 0x9837F0518DB97E3Aint);
    lemma_chain_upper(0x2315F271191BD3int, 5, 0x9837F0518DB868AEint, 1637, 63, 0xB504F333F9DDCA81int);
    lemma_chain_lower(0x2315F271191BD5int, 5, 0x9837F0518DB97E3Aint, 1637, 63, 0xB504F333F9E05E9Fint);
    assert(0xB504F333F9DDCA81int * 0xB504F333F9DDCA81int <= 0xFFFFFFFFFFFE4C63int * 0x8000000000000000int);
    assert(0x1000000000005977Aint * 0x8000000000000000int <= 0xB504F333F9E05E9Fint * 0xB504F333F9E05E9Fint);
    lemma_chain_upper(0x2315F271191BD3int, 6, 0xB504F333F9DDCA81int, 3337, 63, 0xFFFFFFFFFFFE4C63int);
    lemma_chain_lower(0x2315F271191BD5int, 6, 0xB504F333F9E05E9Fint, 3337, 63, 0x1000000000005977Aint);
    lemma_chains_round(0x3FE1_8AF9_388C_8DEAu64, 17, 7, 1, 0x2315F271191BD3int, 0x2315F271191BD5int, 0xFFFFFFFFFFFE4C63int, 0x1000000000005977Aint, 6737, 64);
}

/// Boundary 19 of schema 7, checked through its squaring chains.
proof fn rounded_7_19()
    ensures
        rounds_root(0x3FE1_BBE0_8404_5CD4u64, 19, 7),
{
    lemma2_to64();
    lemma2_to64_rest();
    lemma_chain_start(0x2377C10808B9A7int);
    lemma_chain_start(0x2377C10808B9A9int);
    assert(0x2377C10808B9A7int * 0x2377C10808B9A7int <= 0x9D3ED9A72CFFB578int * 0x80000000000int);
    assert(0x9D3ED9A72CFFC733int * 0x80000000000int <= 0x2377C10808B9A9int * 0x2377C10808B9A9int);
    lemma_chain_upper(0x2377C10808B9A7int, 0, 0x2377C10808B9A7int, 0, 43, 0x9D3ED9A72CFFB578int);
    lemma_chain_lower(0x2377C10808B9A9int, 0, 0x2377C10808B9A9int, 0, 43, 0x9D3ED9A72CFFC733int);
    assert(0x9D3ED9A72CFFB578int * 0x9D3ED9A72CFFB578int <= 0xC12C4CCA66708FCDint * 0x8000000000000000int);
    assert(0xC12C4CCA6670BB5Cint * 0x8000000000000000int <= 0x9D3ED9A72CFFC733int * 0x9D3ED9A72CFFC733int);
    lemma_chain_upper(0x2377C10808B9A7int, 1, 0x9D3ED9A72CFFB578int, 43, 63, 0xC12C4CCA66708FCDint);
    lemma_chain_lower(0x2377C10808B9A9int, 1, 0x9D3ED9A72CFFC733int, 43, 63, 0xC12C4CCA6670BB5Cint);
    assert(0xC12C4CCA66708FCDint * 0xC12C4CCA66708FCDint <= 0x91C3D373AB11BC5Eint * 0x10000000000000000int);
    assert(0x91C3D373AB11FE19int * 0x10000000000000000int <= 0xC12C4CCA6670BB5Cint * 0xC12C4CCA6670BB5Cint);
    lemma_chain_upper(0x2377C10808B9A7int, 2, 0xC12C4CCA66708FCDint, 149, 64, 0x91C3D373AB11BC5Eint);
    lemma_chain_lower(0x2377C10808B9A9int, 2, 0xC12C4CCA6670BB5Cint, 149, 64, 0x91C3D373AB11FE19int);
    assert(0x91C3D373AB11BC5Eint * 0x91C3D373AB11BC5Eint <= 0xA5FED6A9B1512954int * 0x8000000000000000int);
    assert(0xA5FED6A9B151BF08int * 0x8000000000000000int <= 0x91C3D373AB11FE19int * 0x91C3D373AB11FE19int);
    lemma_chain_upper(0x2377C10808B9A7int, 3, 0x91C3D373AB11BC5Eint, 362, 63, 0xA5FED6A9B1512954int);
    lemma_chain_lower(0x2377C10808B9A9int, 3, 0x91C3D373AB11FE19int, 362, 63, 0xA5FED6A9B151BF08int);
    assert(0xA5FED6A9B1512954int * 0xA5FED6A9B1512954int <= 0xD744FCCAD69D4288int * 0x8000000000000000int);
    assert(0xD744FCCAD69EC6CFint * 0x8000000000000000int <= 0xA5FED6A9B151BF08int * 0xA5FED6A9B151BF08int);
    lemma_chain_upper(0x2377C10808B9A7int, 4, 0xA5FED6A9B1512954int, 787, 63, 0xD744FCCAD69D4288int);
    lemma_chain_lower(0x2377C10808B9A9int, 4, 0xA5FED6A9B151BF08int, 787, 63, 0xD744FCCAD69EC6CFint);
    assert(0xD744FCCAD69D4288int * 0xD744FCCAD69D4288int <= 0xB504F333F9DE2089int * 0x10000000000000000int);
    assert(0xB504F333F9E0AD89int * 0x10000000000000000int <= 0xD744FCCAD69EC6CFint * 0xD744FCCAD69EC6CFint);
    lemma_chain_upper(0x2377C10808B9A7int, 5, 0xD744FCCAD69D4288int, 1637, 64, 0xB504F333F9DE2089int);
    lemma_chain_lower(0x2377C10808B9A9int, 5, 0xD744FCCAD69EC6CFint, 1637, 64, 0xB504F333F9E0AD89int);
    assert(0xB504F333F9DE2089int * 0xB504F333F9DE2089int <= 0xFFFFFFFFFFFF3FB8int * 0x8000000000000000int);
    assert(0x100000000000676AEint * 0x8000000000000000int <= 0xB504F333F9E0AD89int * 0xB504F333F9E0AD89int);
    lemma_chain_upper(0x2377C10808B9A7int, 6, 0xB504F333F9DE2089int, 3338, 63, 0xFFFFFFFFFFFF3FB8int);
    lemma_chain_lower(0x2377C10808B9A9int, 6, 0xB504F333F9E0AD89int, 3338, 63, 0x100000000000676AEint);
    lemma_chains_round(0x3FE1_BBE0_8404_5CD4u64, 19, 7, 1, 0x2377C10808B9A7int, 0x2377C10808B9A9int, 0xFFFFFFFFFFFF3FB8int, 0x100000000000676AEint, 6739, 64);
}

/// Boundary 21 of schema 7, checked through its squaring chains.
proof fn rounded_7_21()
    ensures
        rounds_root(0x3FE1_ED50_22FC_D91Du64, 21, 7),
{
    lemma2_to64();
    lemma2_to64_rest();
    lemma_chain_start(0x23DAA045F9B239int);
    lemma_chain_start(0x23DAA045F9B23Bint);
    assert(0x23DAA045F9B239int * 0x23DAA045F9B239int <= 0xA0B0510FB9714BCEint * 0x80000000000int);
    assert(0xA0B0510FB9715DBAint * 0x80000000000int <= 0x23DAA045F9B23Bint * 0x23DAA045F9B23Bint);
    lemma_chain_upper(0x23DAA045F9B239int, 0, 0x23DAA045F9B239int, 0, 43, 0xA0B0510FB9714BCEint);
    lemma_chain_lower(0x23DAA045F9B23Bint, 0, 0x23DAA045F9B23Bint, 0, 43, 0xA0B0510FB9715DBAint);
    assert(0xA0B0510FB9714BCEint * 0xA0B0510FB9714BCEint <= 0xC9B9BD866E2F1DB6int * 0x8000000000000000int);
    assert(0xC9B9BD866E2F4AB4int * 0x8000000000000000int <= 0xA0B0510FB9715DBAint * 0xA0B0510FB9715DBAint);
    lemma_chain_upper(0x23DAA045F9B239int, 1, 0xA0B0510FB9714BCEint, 43, 63, 0xC9B9BD866E2F1DB6int);
    lemma_chain_lower(0x23DAA045F9B23Bint, 1, 0xA0B0510FB9715DBAint, 43, 63, 0xC9B9BD866E2F4AB4int);
    assert(0xC9B9BD866E2F1DB6int * 0xC9B9BD866E2F1DB6int <= 0x9EF5326091A1020Aint * 0x10000000000000000int);
    assert(0x9EF5326091A148F1int * 0x10000000000000000int <= 0xC9B9BD866E2F4AB4int * 0xC9B9BD866E2F4AB4int);
    lemma_chain_upper(0x23DAA045F9B239int, 2, 0xC9B9BD866E2F1DB6int, 149, 64, 0x9EF5326091A1020Aint);
    lemma_chain_lower(0x23DAA045F9B23Bint, 2, 0xC9B9BD866E2F4AB4int, 149, 64, 0x9EF5326091A148F1int);
    assert(0x9EF5326091A1020Aint * 0x9EF5326091A1020Aint <= 0xC5672A115506B406int * 0x8000000000000000int);
    assert(0xC5672A115507641Fint * 0x8000000000000000int <= 0x9EF5326091A148F1int * 0x9EF5326091A148F1int);
    lemma_chain_upper(0x23DAA045F9B239int, 3, 0x9EF5326091A1020Aint, 362, 63, 0xC5672A115506B406int);
    lemma_chain_lower(0x23DAA045F9B23Bint, 3, 0x9EF5326091A148F1int, 362, 63, 0xC5672A115507641Fint);
    assert(0xC5672A115506B406int * 0xC5672A115506B406int <= 0x9837F0518DB86D89int * 0x10000000000000000int);
    assert(0x9837F0518DB97D1Dint * 0x10000000000000000int <= 0xC5672A115507641Fint * 0xC5672A115507641Fint);
    lemma_chain_upper(0x23DAA045F9B239int, 4, 0xC5672A115506B406int, 787, 64, 0x9837F0518DB86D89int);
    lemma_chain_lower(0x23DAA045F9B23Bint, 4, 0xC5672A115507641Fint, 787, 64, 0x9837F0518DB97D1Dint);
    assert(0x9837F0518DB86D89int * 0x9837F0518DB86D89int <= 0xB504F333F9DDD60Eint * 0x8000000000000000int);
    assert(0xB504F333F9E05BF9int * 0x8000000000000000int <= 0x9837F0518DB97D1Dint * 0x9837F0518DB97D1Dint);
    lemma_chain_upper(0x23DAA045F9B239int, 5, 0x9837F0518DB86D89int, 1638, 63, 0xB504F333F9DDD60Eint);
    lemma_chain_lower(0x23DAA045F9B23Bint, 5, 0x9837F0518DB97D1Dint, 1638, 63, 0xB504F333F9E05BF9int);
    assert(0xB504F333F9DDD60Eint * 0xB504F333F9DDD60Eint <= 0xFFFFFFFFFFFE6D0Fint * 0x8000000000000000int);
    assert(0x10000000000058FFCint * 0x8000000000000000int <= 0xB504F333F9E05BF9int * 0xB504F333F9E05BF9int);
    lemma_chain_upper(0x23DAA045F9B239int, 6, 0xB504F333F9DDD60Eint, 3339, 63, 0xFFFFFFFFFFFE6D0Fint);
    lemma_chain_lower(0x23DAA045F9B23Bint, 6, 0xB504F333F9E05BF9int, 3339, 63, 0x10000000000058FFCint);
    lemma_chains_round(0x3FE1_ED50_22FC_D91Du64, 21, 7, 1, 0x23DAA045F9B239int, 0x23DAA045F9B23Bint, 0xFFFFFFFFFFFE6D0Fint, 0x10000000000058FFCint, 6741, 64);
}

/// Boundary 23 of schema 7, checked through its squaring chains.
proof fn rounded_7_23()
    ensures
        rounds_root(0x3FE2_1F49_917D_DC96u64, 23, 7),
{
    lemma2_to64();
    lemma2_to64_rest();
    lemma_chain_start(0x243E9322FBB92Bint);
    lemma_chain_start(0x243E9322FBB92Dint);
    assert(0x243E9322FBB92Bint * 0x243E9322FBB92Bint <= 0xA43515AE09E674EBint * 0x80000000000int);
    assert(0xA43515AE09E68709int * 0x80000000000int <= 0x243E9322FBB92Dint * 0x243E9322FBB92Dint);
    lemma_chain_upper(0x243E9322FBB92Bint, 0, 0x243E9322FBB92Bint, 0, 43, 0xA43515AE09E674EBint);
    lemma_chain_lower(0x243E9322FBB92Dint, 0, 0x243E9322FBB92Dint, 0, 43, 0xA43515AE09E68709int);
    assert(0xA43515AE09E674EBint * 0xA43515AE09E674EBint <= 0xD2A81D91F12AC656int * 0x8000000000000000int);
    assert(0xD2A81D91F12AF4D1int * 0x8000000000000000int <= 0xA43515AE09E68709int * 0xA43515AE09E68709int);
    lemma_chain_upper(0x243E9322FBB92Bint, 1, 0xA43515AE09E674EBint, 43, 63, 0xD2A81D91F12AC656int);
    lemma_chain_lower(0x243E9322FBB92Dint, 1, 0xA43515AE09E68709int, 43, 63, 0xD2A81D91F12AF4D1int);
    assert(0xD2A81D91F12AC656int * 0xD2A81D91F12AC656int <= 0xAD583EEA42A11961int * 0x10000000000000000int);
    assert(0xAD583EEA42A165DFint * 0x10000000000000000int <= 0xD2A81D91F12AF4D1int * 0xD2A81D91F12AF4D1int);
    lemma_chain_upper(0x243E9322FBB92Bint, 2, 0xD2A81D91F12AC656int, 149, 64, 0xAD583EEA42A11961int);
    lemma_chain_lower(0x243E9322FBB92Dint, 2, 0xD2A81D91F12AF4D1int, 149, 64, 0xAD583EEA42A165DFint);
    assert(0xAD583EEA42A11961int * 0xAD583EEA42A11961int <= 0xEAC0C6E7DD23B365int * 0x8000000000000000int);
    assert(0xEAC0C6E7DD248292int * 0x8000000000000000int <= 0xAD583EEA42A165DFint * 0xAD583EEA42A165DFint);
    lemma_chain_upper(0x243E9322FBB92Bint, 3, 0xAD583EEA42A11961int, 362, 63, 0xEAC0C6E7DD23B365int);
    lemma_chain_lower(0x243E9322FBB92Dint, 3, 0xAD583EEA42A165DFint, 362, 63, 0xEAC0C6E7DD248292int);
    assert(0xEAC0C6E7DD23B365int * 0xEAC0C6E7DD23B365int <= 0xD744FCCAD69C7596int * 0x10000000000000000int);
    assert(0xD744FCCAD69DF18Cint * 0x10000000000000000int <= 0xEAC0C6E7DD248292int * 0xEAC0C6E7DD248292int);
    lemma_chain_upper(0x243E9322FBB92Bint, 4, 0xEAC0C6E7DD23B365int, 787, 64, 0xD744FCCAD69C7596int);
    lemma_chain_lower(0x243E9322FBB92Dint, 4, 0xEAC0C6E7DD248292int, 787, 64, 0xD744FCCAD69DF18Cint);
    assert(0xD744FCCAD69C7596int * 0xD744FCCAD69C7596int <= 0xB504F333F9DCC7DCint * 0x10000000000000000int);
    assert(0xB504F333F9DF46DFint * 0x10000000000000000int <= 0xD744FCCAD69DF18Cint * 0xD744FCCAD69DF18Cint);
    lemma_chain_upper(0x243E9322FBB92Bint, 5, 0xD744FCCAD69C7596int, 1638, 64, 0xB504F333F9DCC7DCint);
    lemma_chain_lower(0x243E9322FBB92Dint, 5, 0xD744FCCAD69DF18Cint, 1638, 64, 0xB504F333F9DF46DFint);
    assert(0xB504F333F9DCC7DCint * 0xB504F333F9DCC7DCint <= 0xFFFFFFFFFFFB70D4int * 0x8000000000000000int);
    assert(0x10000000000028039int * 0x8000000000000000int <= 0xB504F333F9DF46DFint * 0xB504F333F9DF46DFint);
    lemma_chain_upper(0x243E9322FBB92Bint, 6, 0xB504F333F9DCC7DCint, 3340, 63, 0xFFFFFFFFFFFB70D4int);
    lemma_chain_lower(0x243E9322FBB92Dint, 6, 0xB504F333F9DF46DFint, 3340, 63, 0x10000000000028039int);
    lemma_chains_round(0x3FE2_1F49_917D_DC96u64, 23, 7, 1, 0x243E9322FBB92Bint, 0x243E9322FBB92Dint, 0xFFFFFFFFFFFB70D4int, 0x10000000000028039int, 6743, 64);
}

/// Boundary 25 of schema 7, checked through its squaring chains.
proof fn rounded_7_25()
    ensures
        rounds_root(0x3FE2_51CE_4FB2_A63Fu64, 25, 7),
{
    lemma2_to64();
    lemma2_to64_rest();
    lemma_chain_start(0x24A39C9F654C7Dint);
    lemma_chain_start(0x24A39C9F654C7Fint);
    assert(0x24A39C9F654C7Dint * 0x24A39C9F654C7Dint <= 0xA7CD93B4E965286Dint * 0x80000000000int);
    assert(0xA7CD93B4E9653ABEint * 0x80000000000int <= 0x24A39C9F654C7Fint * 0x24A39C9F654C7Fint);
    lemma_chain_upper(0x24A39C9F654C7Dint, 0, 0x24A39C9F654C7Dint, 0, 43, 0xA7CD93B4E965286Dint);
    lemma_chain_lower(0x24A39C9F654C7Fint, 0, 0x24A39C9F654C7Fint, 0, 43, 0xA7CD93B4E9653ABEint);
    assert(0xA7CD93B4E965286Dint * 0xA7CD93B4E965286Dint <= 0xDBFBB797DAF21549int * 0x8000000000000000int);
    assert(0xDBFBB797DAF2454Eint * 0x8000000000000000int <= 0xA7CD93B4E9653ABEint * 0xA7CD93B4E9653ABEint);
    lemma_chain_upper(0x24A39C9F654C7Dint, 1, 0xA7CD93B4E965286Dint, 43, 63, 0xDBFBB797DAF21549int);
    lemma_chain_lower(0x24A39C9F654C7Fint, 1, 0xA7CD93B4E9653ABEint, 43, 63, 0xDBFBB797DAF2454Eint);
    assert(0xDBFBB797DAF21549int * 0xDBFBB797DAF21549int <= 0xBD08A39F580BFC3Bint * 0x10000000000000000int);
    assert(0xBD08A39F580C4EC1int * 0x10000000000000000int <= 0xDBFBB797DAF2454Eint * 0xDBFBB797DAF2454Eint);
    lemma_chain_upper(0x24A39C9F654C7Dint, 2, 0xDBFBB797DAF21549int, 149, 64, 0xBD08A39F580BFC3Bint);
    lemma_chain_lower(0x24A39C9F654C7Fint, 2, 0xDBFBB797DAF2454Eint, 149, 64, 0xBD08A39F580C4EC1int);
    assert(0xBD08A39F580BFC3Bint * 0xBD08A39F580BFC3Bint <= 0x8B95C1E3EA8B807Dint * 0x10000000000000000int);
    assert(0x8B95C1E3EA8BFA5Cint * 0x10000000000000000int <= 0xBD08A39F580C4EC1int * 0xBD08A39F580C4EC1int);
    lemma_chain_upper(0x24A39C9F654C7Dint, 3, 0xBD08A39F580BFC3Bint, 362, 64, 0x8B95C1E3EA8B807Dint);
    lemma_chain_lower(0x24A39C9F654C7Fint, 3, 0xBD08A39F580C4EC1int, 362, 64, 0x8B95C1E3EA8BFA5Cint);
    assert(0x8B95C1E3EA8B807Dint * 0x8B95C1E3EA8B807Dint <= 0x9837F0518DB7ECF7int * 0x8000000000000000int);
    assert(0x9837F0518DB8F6C4int * 0x8000000000000000int <= 0x8B95C1E3EA8BFA5Cint * 0x8B95C1E3EA8BFA5Cint);
    lemma_chain_upper(0x24A39C9F654C7Dint, 4, 0x8B95C1E3EA8B807Dint, 788, 63, 0x9837F0518DB7ECF7int);
    lemma_chain_lower(0x24A39C9F654C7Fint, 4, 0x8B95C1E3EA8BFA5Cint, 788, 63, 0x9837F0518DB8F6C4int);
    assert(0x9837F0518DB7ECF7int * 0x9837F0518DB7ECF7int <= 0xB504F333F9DCA442int * 0x8000000000000000int);
    assert(0xB504F333F9DF1C71int * 0x8000000000000000int <= 0x9837F0518DB8F6C4int * 0x9837F0518DB8F6C4int);
    lemma_chain_upper(0x24A39C9F654C7Dint, 5, 0x9837F0518DB7ECF7int, 1639, 63, 0xB504F333F9DCA442int);
    lemma_chain_lower(0x24A39C9F654C7Fint, 5, 0x9837F0518DB8F6C4int, 1639, 63, 0xB504F333F9DF1C71int);
    assert(0xB504F333F9DCA442int * 0xB504F333F9DCA442int <= 0xFFFFFFFFFFFB0C22int * 0x8000000000000000int);
    assert(0x10000000000020837int * 0x8000000000000000int <= 0xB504F333F9DF1C71int * 0xB504F333F9DF1C71int);
    lemma_chain_upper(0x24A39C9F654C7Dint, 6, 0xB504F333F9DCA442int, 3341, 63, 0xFFFFFFFFFFFB0C22int);
    lemma_chain_lower(0x24A39C9F654C7Fint, 6, 0xB504F333F9DF1C71int, 3341, 63, 0x10000000000020837int);
    lemma_chains_round(0x3FE2_51CE_4FB2_A63Fu64, 25, 7, 1, 0x24A39C9F654C7Dint, 0x24A39C9F654C7Fint, 0xFFFFFFFFFFFB0C22int, 0x10000000000020837int, 6745, 64);
}

/// Boundary 27 of schema 7, checked through its squaring chains.
proof fn rounded_7_27()
    ensures
        rounds_root(0x3FE2_84DF_E1F5_6381u64, 27, 7),
{
    lemma2_to64();
    lemma2_to64_rest();
    lemma_chain_start(0x2509BFC3EAC701int);
    lemma_chain_start(0x2509BFC3EAC703int);
    assert(0x2509BFC3EAC701int * 0x2509BFC3EAC701int <= 0xAB7A39B5A93ED191int * 0x80000000000int);
    assert(0xAB7A39B5A93EE415int * 0x80000000000int <= 0x2509BFC3EAC703int * 0x2509BFC3EAC703int);
    lemma_chain_upper(0x2509BFC3EAC701int, 0, 0x2509BFC3EAC701int, 0, 43, 0xAB7A39B5A93ED191int);
    lemma_chain_lower(0x2509BFC3EAC703int, 0, 0x2509BFC3EAC703int, 0, 43, 0xAB7A39B5A93EE415int);
    assert(0xAB7A39B5A93ED191int * 0xAB7A39B5A93ED191int <= 0xE5B906E77C83443Dint * 0x8000000000000000int);
    assert(0xE5B906E77C8375D8int * 0x8000000000000000int <= 0xAB7A39B5A93EE415int * 0xAB7A39B5A93EE415int);
    lemma_chain_upper(0x2509BFC3EAC701int, 1, 0xAB7A39B5A93ED191int, 43, 63, 0xE5B906E77C83443Dint);
    lemma_chain_lower(0x2509BFC3EAC703int, 1, 0xAB7A39B5A93EE415int, 43, 63, 0xE5B906E77C8375D8int);
    assert(0xE5B906E77C83443Dint * 0xE5B906E77C83443Dint <= 0xCE248C151F8478F6int * 0x10000000000000000int);
    assert(0xCE248C151F84D1FCint * 0x10000000000000000int <= 0xE5B906E77C8375D8int * 0xE5B906E77C8375D8int);
    lemma_chain_upper(0x2509BFC3EAC701int, 2, 0xE5B906E77C83443Dint, 149, 64, 0xCE248C151F8478F6int);
    lemma_chain_lower(0x2509BFC3EAC703int, 2, 0xE5B906E77C8375D8int, 149, 64, 0xCE248C151F84D1FCint);
    assert(0xCE248C151F8478F6int * 0xCE248C151F8478F6int <= 0xA5FED6A9B1512C26int * 0x10000000000000000int);
    assert(0xA5FED6A9B151BB84int * 0x10000000000000000int <= 0xCE248C151F84D1FCint * 0xCE248C151F84D1FCint);
    lemma_chain_upper(0x2509BFC3EAC701int, 3, 0xCE248C151F8478F6int, 362, 64, 0xA5FED6A9B1512C26int);
    lemma_chain_lower(0x2509BFC3EAC703int, 3, 0xCE248C151F84D1FCint, 362, 64, 0xA5FED6A9B151BB84int);
    assert(0xA5FED6A9B1512C26int * 0xA5FED6A9B1512C26int <= 0xD744FCCAD69D49D8int * 0x8000000000000000int);
    assert(0xD744FCCAD69EBDB1int * 0x8000000000000000int <= 0xA5FED6A9B151BB84int * 0xA5FED6A9B151BB84int);
    lemma_chain_upper(0x2509BFC3EAC701int, 4, 0xA5FED6A9B1512C26int, 788, 63, 0xD744FCCAD69D49D8int);
    lemma_chain_lower(0x2509BFC3EAC703int, 4, 0xA5FED6A9B151BB84int, 788, 63, 0xD744FCCAD69EBDB1int);
    assert(0xD744FCCAD69D49D8int * 0xD744FCCAD69D49D8int <= 0xB504F333F9DE2CD6int * 0x10000000000000000int);
    assert(0xB504F333F9E09E33int * 0x10000000000000000int <= 0xD744FCCAD69EBDB1int * 0xD744FCCAD69EBDB1int);
    lemma_chain_upper(0x2509BFC3EAC701int, 5, 0xD744FCCAD69D49D8int, 1639, 64, 0xB504F333F9DE2CD6int);
    lemma_chain_lower(0x2509BFC3EAC703int, 5, 0xD744FCCAD69EBDB1int, 1639, 64, 0xB504F333F9E09E33int);
    assert(0xB504F333F9DE2CD6int * 0xB504F333F9DE2CD6int <= 0xFFFFFFFFFFFF6283int * 0x8000000000000000int);
    assert(0x10000000000064B4Dint * 0x8000000000000000int <= 0xB504F333F9E09E33int * 0xB504F333F9E09E33int);
    lemma_chain_upper(0x2509BFC3EAC701int, 6, 0xB504F333F9DE2CD6int, 3342, 63, 0xFFFFFFFFFFFF6283int);
    lemma_chain_lower(0x2509BFC3EAC703int, 6, 0xB504F333F9E09E33int, 3342, 63, 0x10000000000064B4Dint);
    lemma_chains_round(0x3FE2_84DF_E1F5_6381u64, 27, 7, 1, 0x2509BFC3EAC701int, 0x2509BFC3EAC703int, 0xFFFFFFFFFFFF6283int, 0x10000000000064B4Dint, 6747, 64);
}

/// Boundary 29 of schema 7, checked through its squaring chains.
proof fn rounded_7_29()
    ensures
        rounds_root(0x3FE2_B87F_D0DA_D990u64, 29, 7),
{
    lemma2_to64();
    lemma2_to64_rest();
    lemma_chain_start(0x2570FFA1B5B31Fint);
    lemma_chain_start(0x2570FFA1B5B321int);
    assert(0x2570FFA1B5B31Fint * 0x2570FFA1B5B31Fint <= 0xAF3B78AD690A3A41int * 0x80000000000int);
    assert(0xAF3B78AD690A4CF9int * 0x80000000000int <= 0x2570FFA1B5B321int * 0x2570FFA1B5B321int);
    lemma_chain_upper(0x2570FFA1B5B31Fint, 0, 0x2570FFA1B5B31Fint, 0, 43, 0xAF3B78AD690A3A41int);
    lemma_chain_lower(0x2570FFA1B5B321int, 0, 0x2570FFA1B5B321int, 0, 43, 0xAF3B78AD690A4CF9int);
    assert(0xAF3B78AD690A3A41int * 0xAF3B78AD690A3A41int <= 0xEFE4B99BDCDADC99int * 0x8000000000000000int);
    assert(0xEFE4B99BDCDB0FD9int * 0x8000000000000000int <= 0xAF3B78AD690A4CF9int * 0xAF3B78AD690A4CF9int);
    lemma_chain_upper(0x2570FFA1B5B31Fint, 1, 0xAF3B78AD690A3A41int, 43, 63, 0xEFE4B99BDCDADC99int);
    lemma_chain_lower(0x2570FFA1B5B321int, 1, 0xAF3B78AD690A4CF9int, 43, 63, 0xEFE4B99BDCDB0FD9int);
    assert(0xEFE4B99BDCDADC99int * 0xEFE4B99BDCDADC99int <= 0xE0CCDEEC2A94B1D9int * 0x10000000000000000int);
    assert(0xE0CCDEEC2A9511E5int * 0x10000000000000000int <= 0xEFE4B99BDCDB0FD9int * 0xEFE4B99BDCDB0FD9int);
    lemma_chain_upper(0x2570FFA1B5B31Fint, 2, 0xEFE4B99BDCDADC99int, 149, 64, 0xE0CCDEEC2A94B1D9int);
    lemma_chain_lower(0x2570FFA1B5B321int, 2, 0xEFE4B99BDCDB0FD9int, 149, 64, 0xE0CCDEEC2A9511E5int);
    assert(0xE0CCDEEC2A94B1D9int * 0xE0CCDEEC2A94B1D9int <= 0xC5672A11550687F0int * 0x10000000000000000int);
    assert(0xC5672A115507309Eint * 0x10000000000000000int <= 0xE0CCDEEC2A9511E5int * 0xE0CCDEEC2A9511E5int);
    lemma_chain_upper(0x2570FFA1B5B31Fint, 3, 0xE0CCDEEC2A94B1D9int, 362, 64, 0xC5672A11550687F0int);
    lemma_chain_lower(0x2570FFA1B5B321int, 3, 0xE0CCDEEC2A9511E5int, 362, 64, 0xC5672A115507309Eint);
    assert(0xC5672A11550687F0int * 0xC5672A11550687F0int <= 0x9837F0518DB8298Cint * 0x10000000000000000int);
    assert(0x9837F0518DB92DAFint * 0x10000000000000000int <= 0xC5672A115507309Eint * 0xC5672A115507309Eint);
    lemma_chain_upper(0x2570FFA1B5B31Fint, 4, 0xC5672A11550687F0int, 788, 64, 0x9837F0518DB8298Cint);
    lemma_chain_lower(0x2570FFA1B5B321int, 4, 0xC5672A115507309Eint, 788, 64, 0x9837F0518DB92DAFint);
    assert(0x9837F0518DB8298Cint * 0x9837F0518DB8298Cint <= 0xB504F333F9DD3459int * 0x8000000000000000int);
    assert(0xB504F333F9DF9F0Fint * 0x8000000000000000int <= 0x9837F0518DB92DAFint * 0x9837F0518DB92DAFint);
    lemma_chain_upper(0x2570FFA1B5B31Fint, 5, 0x9837F0518DB8298Cint, 1640, 63, 0xB504F333F9DD3459int);
    lemma_chain_lower(0x2570FFA1B5B321int, 5, 0x9837F0518DB92DAFint, 1640, 63, 0xB504F333F9DF9F0Fint);
    assert(0xB504F333F9DD3459int * 0xB504F333F9DD3459int <= 0xFFFFFFFFFFFCA3AEint * 0x8000000000000000int);
    assert(0x100000000000379A8int * 0x8000000000000000int <= 0xB504F333F9DF9F0Fint * 0xB504F333F9DF9F0Fint);
    lemma_chain_upper(0x2570FFA1B5B31Fint, 6, 0xB504F333F9DD3459int, 3343, 63, 0xFFFFFFFFFFFCA3AEint);
    lemma_chain_lower(0x2570FFA1B5B321int, 6, 0xB504F333F9DF9F0Fint, 3343, 63, 0x100000000000379A8int);
    lemma_chains_round(0x3FE2_B87F_D0DA_D990u64, 29, 7, 1, 0x2570FFA1B5B31Fint, 0x2570FFA1B5B321int, 0xFFFFFFFFFFFCA3AEint, 0x100000000000379A8int, 6749, 64);
}

/// Boundary 31 of schema 7, checked through its squaring chains.
proof fn rounded_7_31()
    ensures
        rounds_root(0x3FE2_ECAF_A93E_2F56u64, 31, 7),
{
    lemma2_to64();
    lemma2_to64_rest();
    lemma_chain_start(0x25D95F527C5EABint);
    lemma_chain_start(0x25D95F527C5EADint);
    assert(0x25D95F527C5EABint * 0x25D95F527C5EABint <= 0xB311C412A91119C3int * 0x80000000000int);
    assert(0xB311C412A9112CAEint * 0x80000000000int <= 0x25D95F527C5EADint * 0x25D95F527C5EADint);
    lemma_chain_upper(0x25D95F527C5EABint, 0, 0x25D95F527C5EABint, 0, 43, 0xB311C412A91119C3int);
    lemma_chain_lower(0x25D95F527C5EADint, 0, 0x25D95F527C5EADint, 0, 43, 0xB311C412A9112CAEint);
    assert(0xB311C412A91119C3int * 0xB311C412A91119C3int <= 0xFA83B2DB7229E516int * 0x8000000000000000int);
    assert(0xFA83B2DB722A1A03int * 0x8000000000000000int <= 0xB311C412A9112CAEint * 0xB311C412A9112CAEint);
    lemma_chain_upper(0x25D95F527C5EABint, 1, 0xB311C412A91119C3int, 43, 63, 0xFA83B2DB7229E516int);
    lemma_chain_lower(0x25D95F527C5EADint, 1, 0xB311C412A9112CAEint, 43, 63, 0xFA83B2DB722A1A03int);
    assert(0xFA83B2DB7229E516int * 0xFA83B2DB7229E516int <= 0xF5257D152486912Fint * 0x10000000000000000int);
    assert(0xF5257D152486F8C3int * 0x10000000000000000int <= 0xFA83B2DB722A1A03int * 0xFA83B2DB722A1A03int);
    lemma_chain_upper(0x25D95F527C5EABint, 2, 0xFA83B2DB7229E516int, 149, 64, 0xF5257D152486912Fint);
    lemma_chain_lower(0x25D95F527C5EADint, 2, 0xFA83B2DB722A1A03int, 149, 64, 0xF5257D152486F8C3int);
    assert(0xF5257D152486912Fint * 0xF5257D152486912Fint <= 0xEAC0C6E7DD23C835int * 0x10000000000000000int);
    assert(0xEAC0C6E7DD248E93int * 0x10000000000000000int <= 0xF5257D152486F8C3int * 0xF5257D152486F8C3int);
    lemma_chain_upper(0x25D95F527C5EABint, 3, 0xF5257D152486912Fint, 362, 64, 0xEAC0C6E7DD23C835int);
    lemma_chain_lower(0x25D95F527C5EADint, 3, 0xF5257D152486F8C3int, 362, 64, 0xEAC0C6E7DD248E93int);
    assert(0xEAC0C6E7DD23C835int * 0xEAC0C6E7DD23C835int <= 0xD744FCCAD69C9BC2int * 0x10000000000000000int);
    assert(0xD744FCCAD69E078Fint * 0x10000000000000000int <= 0xEAC0C6E7DD248E93int * 0xEAC0C6E7DD248E93int);
    lemma_chain_upper(0x25D95F527C5EABint, 4, 0xEAC0C6E7DD23C835int, 788, 64, 0xD744FCCAD69C9BC2int);
    lemma_chain_lower(0x25D95F527C5EADint, 4, 0xEAC0C6E7DD248E93int, 788, 64, 0xD744FCCAD69E078Fint);
    assert(0xD744FCCAD69C9BC2int * 0xD744FCCAD69C9BC2int <= 0xB504F333F9DD080Fint * 0x10000000000000000int);
    assert(0xB504F333F9DF6BE4int * 0x10000000000000000int <= 0xD744FCCAD69E078Fint * 0xD744FCCAD69E078Fint);
    lemma_chain_upper(0x25D95F527C5EABint, 5, 0xD744FCCAD69C9BC2int, 1640, 64, 0xB504F333F9DD080Fint);
    lemma_chain_lower(0x25D95F527C5EADint, 5, 0xD744FCCAD69E078Fint, 1640, 64, 0xB504F333F9DF6BE4int);
    assert(0xB504F333F9DD080Fint * 0xB504F333F9DD080Fint <= 0xFFFFFFFFFFFC266Aint * 0x8000000000000000int);
    assert(0x1000000000002E8EEint * 0x8000000000000000int <= 0xB504F333F9DF6BE4int * 0xB504F333F9DF6BE4int);
    lemma_chain_upper(0x25D95F527C5EABint, 6, 0xB504F333F9DD080Fint, 3344, 63, 0xFFFFFFFFFFFC266Aint);
    lemma_chain_lower(0x25D95F527C5EADint, 6, 0xB504F333F9DF6BE4int, 3344, 63, 0x1000000000002E8EEint);
    lemma_chains_round(0x3FE2_ECAF_A93E_2F56u64, 31, 7, 1, 0x25D95F527C5EABint, 0x25D95F527C5EADint, 0xFFFFFFFFFFFC266Aint, 0x1000000000002E8EEint, 6751, 64);
}

/// Boundary 33 of schema 7, checked through its squaring chains.
proof fn rounded_7_33()
    ensures
        rounds_root(0x3FE3_2170_FC4C_D831u64, 33, 7),
{
    lemma2_to64();
    lemma2_to64_rest();
    lemma_chain_start(0x2642E1F899B061int);
    lemma_chain_start(0x2642E1F899B063int);
    assert(0x2642E1F899B061int * 0x2642E1F899B061int <= 0xB6FD91E328D16A07int * 0x80000000000int);
    assert(0xB6FD91E328D17D27int * 0x80000000000int <= 0x2642E1F899B063int * 0x2642E1F899B063int);
    lemma_chain_upper(0x2642E1F899B061int, 0, 0x2642E1F899B061int, 0, 43, 0xB6FD91E328D16A07int);
    lemma_chain_lower(0x2642E1F899B063int, 0, 0x2642E1F899B063int, 0, 43, 0xB6FD91E328D17D27int);
    assert(0xB6FD91E328D16A07int * 0xB6FD91E328D16A07int <= 0x82CD8698AC2B8E7Dint * 0x10000000000000000int);
    assert(0x82CD8698AC2BA9D3int * 0x10000000000000000int <= 0xB6FD91E328D17D27int * 0xB6FD91E328D17D27int);
    lemma_chain_upper(0x2642E1F899B061int, 1, 0xB6FD91E328D16A07int, 43, 64, 0x82CD8698AC2B8E7Dint);
    lemma_chain_lower(0x2642E1F899B063int, 1, 0xB6FD91E328D17D27int, 43, 64, 0x82CD8698AC2BA9D3int);
    assert(0x82CD8698AC2B8E7Dint * 0x82CD8698AC2B8E7Dint <= 0x85AAC367CC485388int * 0x8000000000000000int);
    assert(0x85AAC367CC488B65int * 0x8000000000000000int <= 0x82CD8698AC2BA9D3int * 0x82CD8698AC2BA9D3int);
    lemma_chain_upper(0x2642E1F899B061int, 2, 0x82CD8698AC2B8E7Dint, 150, 63, 0x85AAC367CC485388int);
    lemma_chain_lower(0x2642E1F899B063int, 2, 0x82CD8698AC2BA9D3int, 150, 63, 0x85AAC367CC488B65int);
    assert(0x85AAC367CC485388int * 0x85AAC367CC485388int <= 0x8B95C1E3EA8B844Dint * 0x8000000000000000int);
    assert(0x8B95C1E3EA8BF8F9int * 0x8000000000000000int <= 0x85AAC367CC488B65int * 0x85AAC367CC488B65int);
    lemma_chain_upper(0x2642E1F899B061int, 3, 0x85AAC367CC485388int, 363, 63, 0x8B95C1E3EA8B844Dint);
    lemma_chain_lower(0x2642E1F899B063int, 3, 0x85AAC367CC488B65int, 363, 63, 0x8B95C1E3EA8BF8F9int);
    assert(0x8B95C1E3EA8B844Dint * 0x8B95C1E3EA8B844Dint <= 0x9837F0518DB7F548int * 0x8000000000000000int);
    assert(0x9837F0518DB8F3BEint * 0x8000000000000000int <= 0x8B95C1E3EA8BF8F9int * 0x8B95C1E3EA8BF8F9int);
    lemma_chain_upper(0x2642E1F899B061int, 4, 0x8B95C1E3EA8B844Dint, 789, 63, 0x9837F0518DB7F548int);
    lemma_chain_lower(0x2642E1F899B063int, 4, 0x8B95C1E3EA8BF8F9int, 789, 63, 0x9837F0518DB8F3BEint);
    assert(0x9837F0518DB7F548int * 0x9837F0518DB7F548int <= 0xB504F333F9DCB80Aint * 0x8000000000000000int);
    assert(0xB504F333F9DF1540int * 0x8000000000000000int <= 0x9837F0518DB8F3BEint * 0x9837F0518DB8F3BEint);
    lemma_chain_upper(0x2642E1F899B061int, 5, 0x9837F0518DB7F548int, 1641, 63, 0xB504F333F9DCB80Aint);
    lemma_chain_lower(0x2642E1F899B063int, 5, 0x9837F0518DB8F3BEint, 1641, 63, 0xB504F333F9DF1540int);
    assert(0xB504F333F9DCB80Aint * 0xB504F333F9DCB80Aint <= 0xFFFFFFFFFFFB4415int * 0x8000000000000000int);
    assert(0x1000000000001F3E0int * 0x8000000000000000int <= 0xB504F333F9DF1540int * 0xB504F333F9DF1540int);
    lemma_chain_upper(0x2642E1F899B061int, 6, 0xB504F333F9DCB80Aint, 3345, 63, 0xFFFFFFFFFFFB4415int);
    lemma_chain_lower(0x2642E1F899B063int, 6, 0xB504F333F9DF1540int, 3345, 63, 0x1000000000001F3E0int);
    lemma_chains_round(0x3FE3_2170_FC4C_D831u64, 33, 7, 1, 0x2642E1F899B061int, 0x2642E1F899B063int, 0xFFFFFFFFFFFB4415int, 0x1000000000001F3E0int, 6753, 64);
}

/// Boundary 35 of schema 7, checked through its squaring chains.
proof fn rounded_7_35()
    ensures
        rounds_root(0x3FE3_56C5_5F92_9FF1u64, 35, 7),
{
    lemma2_to64();
    lemma2_to64_rest();
    lemma_chain_start(0x26AD8ABF253FE1int);
    lemma_chain_start(0x26AD8ABF253FE3int);
    assert(0x26AD8ABF253FE1int * 0x26AD8ABF253FE1int <= 0xBAFF5AB2133E4073int * 0x80000000000int);
    assert(0xBAFF5AB2133E53C9int * 0x80000000000int <= 0x26AD8ABF253FE3int * 0x26AD8ABF253FE3int);
    lemma_chain_upper(0x26AD8ABF253FE1int, 0, 0x26AD8ABF253FE1int, 0, 43, 0xBAFF5AB2133E4073int);
    lemma_chain_lower(0x26AD8ABF253FE3int, 0, 0x26AD8ABF253FE3int, 0, 43, 0xBAFF5AB2133E53C9int);
    assert(0xBAFF5AB2133E4073int * 0xBAFF5AB2133E4073int <= 0x88980E8092DA7D13int * 0x10000000000000000int);
    assert(0x88980E8092DA9951int * 0x10000000000000000int <= 0xBAFF5AB2133E53C9int * 0xBAFF5AB2133E53C9int);
    lemma_chain_upper(0x26AD8ABF253FE1int, 1, 0xBAFF5AB2133E4073int, 43, 64, 0x88980E8092DA7D13int);
    lemma_chain_lower(0x26AD8ABF253FE3int, 1, 0xBAFF5AB2133E53C9int, 43, 64, 0x88980E8092DA9951int);
    assert(0x88980E8092DA7D13int * 0x88980E8092DA7D13int <= 0x91C3D373AB11B1F8int * 0x8000000000000000int);
    assert(0x91C3D373AB11EE3Eint * 0x8000000000000000int <= 0x88980E8092DA9951int * 0x88980E8092DA9951int);
    lemma_chain_upper(0x26AD8ABF253FE1int, 2, 0x88980E8092DA7D13int, 150, 63, 0x91C3D373AB11B1F8int);
    lemma_chain_lower(0x26AD8ABF253FE3int, 2, 0x88980E8092DA9951int, 150, 63, 0x91C3D373AB11EE3Eint);
    assert(0x91C3D373AB11B1F8int * 0x91C3D373AB11B1F8int <= 0xA5FED6A9B15111A5int * 0x8000000000000000int);
    assert(0xA5FED6A9B1519AEBint * 0x8000000000000000int <= 0x91C3D373AB11EE3Eint * 0x91C3D373AB11EE3Eint);
    lemma_chain_upper(0x26AD8ABF253FE1int, 3, 0x91C3D373AB11B1F8int, 363, 63, 0xA5FED6A9B15111A5int);
    lemma_chain_lower(0x26AD8ABF253FE3int, 3, 0x91C3D373AB11EE3Eint, 363, 63, 0xA5FED6A9B1519AEBint);
    assert(0xA5FED6A9B15111A5int * 0xA5FED6A9B15111A5int <= 0xD744FCCAD69D051Aint * 0x8000000000000000int);
    assert(0xD744FCCAD69E6924int * 0x8000000000000000int <= 0xA5FED6A9B1519AEBint * 0xA5FED6A9B1519AEBint);
    lemma_chain_upper(0x26AD8ABF253FE1int, 4, 0xA5FED6A9B15111A5int, 789, 63, 0xD744FCCAD69D051Aint);
    lemma_chain_lower(0x26AD8ABF253FE3int, 4, 0xA5FED6A9B1519AEBint, 789, 63, 0xD744FCCAD69E6924int);
    assert(0xD744FCCAD69D051Aint * 0xD744FCCAD69D051Aint <= 0xB504F333F9DDB939int * 0x10000000000000000int);
    assert(0xB504F333F9E01001int * 0x10000000000000000int <= 0xD744FCCAD69E6924int * 0xD744FCCAD69E6924int);
    lemma_chain_upper(0x26AD8ABF253FE1int, 5, 0xD744FCCAD69D051Aint, 1641, 64, 0xB504F333F9DDB939int);
    lemma_chain_lower(0x26AD8ABF253FE3int, 5, 0xD744FCCAD69E6924int, 1641, 64, 0xB504F333F9E01001int);
    assert(0xB504F333F9DDB939int * 0xB504F333F9DDB939int <= 0xFFFFFFFFFFFE1B82int * 0x8000000000000000int);
    assert(0x1000000000004B91Dint * 0x8000000000000000int <= 0xB504F333F9E01001int * 0xB504F333F9E01001int);
    lemma_chain_upper(0x26AD8ABF253FE1int, 6, 0xB504F333F9DDB939int, 3346, 63, 0xFFFFFFFFFFFE1B82int);
    lemma_chain_lower(0x26AD8ABF253FE3int, 6, 0xB504F333F9E01001int, 3346, 63, 0x1000000000004B91Dint);
    lemma_chains_round(0x3FE3_56C5_5F92_9FF1u64, 35, 7, 1, 0x26AD8ABF253FE1int, 0x26AD8ABF253FE3int, 0xFFFFFFFFFFFE1B82int, 0x1000000000004B91Dint, 6755, 64);
}

/// Boundary 37 of schema 7, checked through its squaring chains.
proof fn rounded_7_37()
    ensures
        rounds_root(0x3FE3_8CAE_6D05_D866u64, 37, 7),
{
    lemma2_to64();
    lemma2_to64_rest();
    lemma_chain_start(0x27195CDA0BB0CBint);
    lemma_chain_start(0x27195CDA0BB0CDint);
    assert(0x27195CDA0BB0CBint * 0x27195CDA0BB0CBint <= 0xBF1799B67A731015int * 0x80000000000int);
    assert(0xBF1799B67A7323A0int * 0x80000000000int <= 0x27195CDA0BB0CDint * 0x27195CDA0BB0CDint);
    lemma_chain_upper(0x27195CDA0BB0CBint, 0, 0x27195CDA0BB0CBint, 0, 43, 0xBF1799B67A731015int);
    lemma_chain_lower(0x27195CDA0BB0CDint, 0, 0x27195CDA0BB0CDint, 0, 43, 0xBF1799B67A7323A0int);
    assert(0xBF1799B67A731015int * 0xBF1799B67A731015int <= 0x8EA4398B45CD531Dint * 0x10000000000000000int);
    assert(0x8EA4398B45CD7049int * 0x10000000000000000int <= 0xBF1799B67A7323A0int * 0xBF1799B67A7323A0int);
    lemma_chain_upper(0x27195CDA0BB0CBint, 1, 0xBF1799B67A731015int, 43, 64, 0x8EA4398B45CD531Dint);
    lemma_chain_lower(0x27195CDA0BB0CDint, 1, 0xBF1799B67A7323A0int, 43, 64, 0x8EA4398B45CD7049int);
    assert(0x8EA4398B45CD531Dint * 0x8EA4398B45CD531Dint <= 0x9EF5326091A11042int * 0x8000000000000000int);
    assert(0x9EF5326091A15146int * 0x8000000000000000int <= 0x8EA4398B45CD7049int * 0x8EA4398B45CD7049int);
    lemma_chain_upper(0x27195CDA0BB0CBint, 2, 0x8EA4398B45CD531Dint, 150, 63, 0x9EF5326091A11042int);
    lemma_chain_lower(0x27195CDA0BB0CDint, 2, 0x8EA4398B45CD7049int, 150, 63, 0x9EF5326091A15146int);
    assert(0x9EF5326091A11042int * 0x9EF5326091A11042int <= 0xC5672A115506D757int * 0x8000000000000000int);
    assert(0xC5672A11550778D1int * 0x8000000000000000int <= 0x9EF5326091A15146int * 0x9EF5326091A15146int);
    lemma_chain_upper(0x27195CDA0BB0CBint, 3, 0x9EF5326091A11042int, 363, 63, 0xC5672A115506D757int);
    lemma_chain_lower(0x27195CDA0BB0CDint, 3, 0x9EF5326091A15146int, 363, 63, 0xC5672A11550778D1int);
    assert(0xC5672A115506D757int * 0xC5672A115506D757int <= 0x9837F0518DB8A400int * 0x10000000000000000int);
    assert(0x9837F0518DB99D07int * 0x10000000000000000int <= 0xC5672A11550778D1int * 0xC5672A11550778D1int);
    lemma_chain_upper(0x27195CDA0BB0CBint, 4, 0xC5672A115506D757int, 789, 64, 0x9837F0518DB8A400int);
    lemma_chain_lower(0x27195CDA0BB0CDint, 4, 0xC5672A11550778D1int, 789, 64, 0x9837F0518DB99D07int);
    assert(0x9837F0518DB8A400int * 0x9837F0518DB8A400int <= 0xB504F333F9DE5798int * 0x8000000000000000int);
    assert(0xB504F333F9E0A7E1int * 0x8000000000000000int <= 0x9837F0518DB99D07int * 0x9837F0518DB99D07int);
    lemma_chain_upper(0x27195CDA0BB0CBint, 5, 0x9837F0518DB8A400int, 1642, 63, 0xB504F333F9DE5798int);
    lemma_chain_lower(0x27195CDA0BB0CDint, 5, 0x9837F0518DB99D07int, 1642, 63, 0xB504F333F9E0A7E1int);
    assert(0xB504F333F9DE5798int * 0xB504F333F9DE5798int <= 0xFFFFFFFFFFFFDB73int * 0x8000000000000000int);
    assert(0x100000000000666AEint * 0x8000000000000000int <= 0xB504F333F9E0A7E1int * 0xB504F333F9E0A7E1int);
    lemma_chain_upper(0x27195CDA0BB0CBint, 6, 0xB504F333F9DE5798int, 3347, 63, 0xFFFFFFFFFFFFDB73int);
    lemma_chain_lower(0x27195CDA0BB0CDint, 6, 0xB504F333F9E0A7E1int, 3347, 63, 0x100000000000666AEint);
    lemma_chains_round(0x3FE3_8CAE_6D05_D866u64, 37, 7, 1, 0x27195CDA0BB0CBint, 0x27195CDA0BB0CDint, 0xFFFFFFFFFFFFDB73int, 0x100000000000666AEint, 6757, 64);
}

/// Boundary 39 of schema 7, checked through its squaring chains.
proof fn rounded_7_39()
    ensures
        rounds_root(0x3FE3_C32D_C313_A8E5u64, 39, 7),
{
    lemma2_to64();
    lemma2_to64_rest();
    lemma_chain_start(0x27865B862751C9int);
    lemma_chain_start(0x27865B862751CBint);
    assert(0x27865B862751C9int * 0x27865B862751C9int <= 0xC346CCDA249763B9int * 0x80000000000int);
    assert(0xC346CCDA2497777Bint * 0x80000000000int <= 0x27865B862751CBint * 0x27865B862751CBint);
    lemma_chain_upper(0x27865B862751C9int, 0, 0x27865B862751C9int, 0, 43, 0xC346CCDA249763B9int);
    lemma_chain_lower(0x27865B862751CBint, 0, 0x27865B862751CBint, 0, 43, 0xC346CCDA2497777Bint);
    assert(0xC346CCDA249763B9int * 0xC346CCDA249763B9int <= 0x94F4EFA8FEF708EAint * 0x10000000000000000int);
    assert(0x94F4EFA8FEF7270Eint * 0x10000000000000000int <= 0xC346CCDA2497777Bint * 0xC346CCDA2497777Bint);
    lemma_chain_upper(0x27865B862751C9int, 1, 0xC346CCDA249763B9int, 43, 64, 0x94F4EFA8FEF708EAint);
    lemma_chain_lower(0x27865B862751CBint, 1, 0xC346CCDA2497777Bint, 43, 64, 0x94F4EFA8FEF7270Eint);
    assert(0x94F4EFA8FEF708EAint * 0x94F4EFA8FEF708EAint <= 0xAD583EEA42A149B1int * 0x8000000000000000int);
    assert(0xAD583EEA42A18FD7int * 0x8000000000000000int <= 0x94F4EFA8FEF7270Eint * 0x94F4EFA8FEF7270Eint);
    lemma_chain_upper(0x27865B862751C9int, 2, 0x94F4EFA8FEF708EAint, 150, 63, 0xAD583EEA42A149B1int);
    lemma_chain_lower(0x27865B862751CBint, 2, 0x94F4EFA8FEF7270Eint, 150, 63, 0xAD583EEA42A18FD7int);
    assert(0xAD583EEA42A149B1int * 0xAD583EEA42A149B1int <= 0xEAC0C6E7DD243640int * 0x8000000000000000int);
    assert(0xEAC0C6E7DD24F43Fint * 0x8000000000000000int <= 0xAD583EEA42A18FD7int * 0xAD583EEA42A18FD7int);
    lemma_chain_upper(0x27865B862751C9int, 3, 0xAD583EEA42A149B1int, 363, 63, 0xEAC0C6E7DD243640int);
    lemma_chain_lower(0x27865B862751CBint, 3, 0xAD583EEA42A18FD7int, 363, 63, 0xEAC0C6E7DD24F43Fint);
    assert(0xEAC0C6E7DD243640int * 0xEAC0C6E7DD243640int <= 0xD744FCCAD69D6594int * 0x10000000000000000int);
    assert(0xD744FCCAD69EC207int * 0x10000000000000000int <= 0xEAC0C6E7DD24F43Fint * 0xEAC0C6E7DD24F43Fint);
    lemma_chain_upper(0x27865B862751C9int, 4, 0xEAC0C6E7DD243640int, 789, 64, 0xD744FCCAD69D6594int);
    lemma_chain_lower(0x27865B862751CBint, 4, 0xEAC0C6E7DD24F43Fint, 789, 64, 0xD744FCCAD69EC207int);
    assert(0xD744FCCAD69D6594int * 0xD744FCCAD69D6594int <= 0xB504F333F9DE5B7Aint * 0x10000000000000000int);
    assert(0xB504F333F9E0A57Eint * 0x10000000000000000int <= 0xD744FCCAD69EC207int * 0xD744FCCAD69EC207int);
    lemma_chain_upper(0x27865B862751C9int, 5, 0xD744FCCAD69D6594int, 1642, 64, 0xB504F333F9DE5B7Aint);
    lemma_chain_lower(0x27865B862751CBint, 5, 0xD744FCCAD69EC207int, 1642, 64, 0xB504F333F9E0A57Eint);
    assert(0xB504F333F9DE5B7Aint * 0xB504F333F9DE5B7Aint <= 0xFFFFFFFFFFFFE66Fint * 0x8000000000000000int);
    assert(0x10000000000065FEEint * 0x8000000000000000int <= 0xB504F333F9E0A57Eint * 0xB504F333F9E0A57Eint);
    lemma_chain_upper(0x27865B862751C9int, 6, 0xB504F333F9DE5B7Aint, 3348, 63, 0xFFFFFFFFFFFFE66Fint);
    lemma_chain_lower(0x27865B862751CBint, 6, 0xB504F333F9E0A57Eint, 3348, 63, 0x10000000000065FEEint);
    lemma_chains_round(0x3FE3_C32D_C313_A8E5u64, 39, 7, 1, 0x27865B862751C9int, 0x27865B862751CBint, 0xFFFFFFFFFFFFE66Fint, 0x10000000000065FEEint, 6759, 64);
}

/// Boundary 41 of schema 7, checked through its squaring chains.
proof fn rounded_7_41()
    ensures
        rounds_root(0x3FE3_FA45_04AC_801Cu64, 41, 7),
{
    lemma2_to64();
    lemma2_to64_rest();
    lemma_chain_start(0x27F48A09590037int);
    lemma_chain_start(0x27F48A09590039int);
    assert(0x27F48A09590037int * 0x27F48A09590037int <= 0xC78D74C8ABB9AECFint * 0x80000000000int);
    assert(0xC78D74C8ABB9C2C8int * 0x80000000000int <= 0x27F48A09590039int * 0x27F48A09590039int);
    lemma_chain_upper(0x27F48A09590037int, 0, 0x27F48A09590037int, 0, 43, 0xC78D74C8ABB9AECFint);
    lemma_chain_lower(0x27F48A09590039int, 0, 0x27F48A09590039int, 0, 43, 0xC78D74C8ABB9C2C8int);
    assert(0xC78D74C8ABB9AECFint * 0xC78D74C8ABB9AECFint <= 0x9B8D39B9D54E513Eint * 0x10000000000000000int);
    assert(0x9B8D39B9D54E7060int * 0x10000000000000000int <= 0xC78D74C8ABB9C2C8int * 0xC78D74C8ABB9C2C8int);
    lemma_chain_upper(0x27F48A09590037int, 1, 0xC78D74C8ABB9AECFint, 43, 64, 0x9B8D39B9D54E513Eint);
    lemma_chain_lower(0x27F48A09590039int, 1, 0xC78D74C8ABB9C2C8int, 43, 64, 0x9B8D39B9D54E7060int);
    assert(0x9B8D39B9D54E513Eint * 0x9B8D39B9D54E513Eint <= 0xBD08A39F580C2D13int * 0x8000000000000000int);
    assert(0xBD08A39F580C78BDint * 0x8000000000000000int <= 0x9B8D39B9D54E7060int * 0x9B8D39B9D54E7060int);
    lemma_chain_upper(0x27F48A09590037int, 2, 0x9B8D39B9D54E513Eint, 150, 63, 0xBD08A39F580C2D13int);
    lemma_chain_lower(0x27F48A09590039int, 2, 0x9B8D39B9D54E7060int, 150, 63, 0xBD08A39F580C78BDint);
    assert(0xBD08A39F580C2D13int * 0xBD08A39F580C2D13int <= 0x8B95C1E3EA8BC89Fint * 0x10000000000000000int);
    assert(0x8B95C1E3EA8C385Cint * 0x10000000000000000int <= 0xBD08A39F580C78BDint * 0xBD08A39F580C78BDint);
    lemma_chain_upper(0x27F48A09590037int, 3, 0xBD08A39F580C2D13int, 363, 64, 0x8B95C1E3EA8BC89Fint);
    lemma_chain_lower(0x27F48A09590039int, 3, 0xBD08A39F580C78BDint, 363, 64, 0x8B95C1E3EA8C385Cint);
    assert(0x8B95C1E3EA8BC89Fint * 0x8B95C1E3EA8BC89Fint <= 0x9837F0518DB88A4Aint * 0x8000000000000000int);
    assert(0x9837F0518DB97DFDint * 0x8000000000000000int <= 0x8B95C1E3EA8C385Cint * 0x8B95C1E3EA8C385Cint);
    lemma_chain_upper(0x27F48A09590037int, 4, 0x8B95C1E3EA8BC89Fint, 790, 63, 0x9837F0518DB88A4Aint);
    lemma_chain_lower(0x27F48A09590039int, 4, 0x8B95C1E3EA8C385Cint, 790, 63, 0x9837F0518DB97DFDint);
    assert(0x9837F0518DB88A4Aint * 0x9837F0518DB88A4Aint <= 0xB504F333F9DE1A71int * 0x8000000000000000int);
    assert(0xB504F333F9E05E0Eint * 0x8000000000000000int <= 0x9837F0518DB97DFDint * 0x9837F0518DB97DFDint);
    lemma_chain_upper(0x27F48A09590037int, 5, 0x9837F0518DB88A4Aint, 1643, 63, 0xB504F333F9DE1A71int);
    lemma_chain_lower(0x27F48A09590039int, 5, 0x9837F0518DB97DFDint, 1643, 63, 0xB504F333F9E05E0Eint);
    assert(0xB504F333F9DE1A71int * 0xB504F333F9DE1A71int <= 0xFFFFFFFFFFFF2E7Cint * 0x8000000000000000int);
    assert(0x100000000000595E0int * 0x8000000000000000int <= 0xB504F333F9E05E0Eint * 0xB504F333F9E05E0Eint);
    lemma_chain_upper(0x27F48A09590037int, 6, 0xB504F333F9DE1A71int, 3349, 63, 0xFFFFFFFFFFFF2E7Cint);
    lemma_chain_lower(0x27F48A09590039int, 6, 0xB504F333F9E05E0Eint, 3349, 63, 0x100000000000595E0int);
    lemma_chains_round(0x3FE3_FA45_04AC_801Cu64, 41, 7, 1, 0x27F48A09590037int, 0x27F48A09590039int, 0xFFFFFFFFFFFF2E7Cint, 0x100000000000595E0int, 6761, 64);
}

/// Boundary 43 of schema 7, checked through its squaring chains.
proof fn rounded_7_43()
    ensures
        rounds_root(0x3FE4_31F5_D950_A897u64, 43, 7),
{
    lemma2_to64();
    lemma2_to64_rest();
    lemma_chain_start(0x2863EBB2A1512Dint);
    lemma_chain_start(0x2863EBB2A1512Fint);
    assert(0x2863EBB2A1512Dint * 0x2863EBB2A1512Dint <= 0xCBEC14FEF2727513int * 0x80000000000int);
    assert(0xCBEC14FEF2728944int * 0x80000000000int <= 0x2863EBB2A1512Fint * 0x2863EBB2A1512Fint);
    lemma_chain_upper(0x2863EBB2A1512Dint, 0, 0x2863EBB2A1512Dint, 0, 43, 0xCBEC14FEF2727513int);
    lemma_chain_lower(0x2863EBB2A1512Fint, 0, 0x2863EBB2A1512Fint, 0, 43, 0xCBEC14FEF2728944int);
    assert(0xCBEC14FEF2727513int * 0xCBEC14FEF2727513int <= 0xA27043030C495C7Cint * 0x10000000000000000int);
    assert(0xA27043030C497CA6int * 0x10000000000000000int <= 0xCBEC14FEF2728944int * 0xCBEC14FEF2728944int);
    lemma_chain_upper(0x2863EBB2A1512Dint, 1, 0xCBEC14FEF2727513int, 43, 64, 0xA27043030C495C7Cint);
    lemma_chain_lower(0x2863EBB2A1512Fint, 1, 0xCBEC14FEF2728944int, 43, 64, 0xA27043030C497CA6int);
    assert(0xA27043030C495C7Cint * 0xA27043030C495C7Cint <= 0xCE248C151F84636Cint * 0x8000000000000000int);
    assert(0xCE248C151F84B50Dint * 0x8000000000000000int <= 0xA27043030C497CA6int * 0xA27043030C497CA6int);
    lemma_chain_upper(0x2863EBB2A1512Dint, 2, 0xA27043030C495C7Cint, 150, 63, 0xCE248C151F84636Cint);
    lemma_chain_lower(0x2863EBB2A1512Fint, 2, 0xA27043030C497CA6int, 150, 63, 0xCE248C151F84B50Dint);
    assert(0xCE248C151F84636Cint * 0xCE248C151F84636Cint <= 0xA5FED6A9B1510975int * 0x10000000000000000int);
    assert(0xA5FED6A9B1518CEBint * 0x10000000000000000int <= 0xCE248C151F84B50Dint * 0xCE248C151F84B50Dint);
    lemma_chain_upper(0x2863EBB2A1512Dint, 3, 0xCE248C151F84636Cint, 363, 64, 0xA5FED6A9B1510975int);
    lemma_chain_lower(0x2863EBB2A1512Fint, 3, 0xCE248C151F84B50Dint, 363, 64, 0xA5FED6A9B1518CEBint);
    assert(0xA5FED6A9B1510975int * 0xA5FED6A9B1510975int <= 0xD744FCCAD69CEFDEint * 0x8000000000000000int);
    assert(0xD744FCCAD69E44D5int * 0x8000000000000000int <= 0xA5FED6A9B1518CEBint * 0xA5FED6A9B1518CEBint);
    lemma_chain_upper(0x2863EBB2A1512Dint, 4, 0xA5FED6A9B1510975int, 790, 63, 0xD744FCCAD69CEFDEint);
    lemma_chain_lower(0x2863EBB2A1512Fint, 4, 0xA5FED6A9B1518CEBint, 790, 63, 0xD744FCCAD69E44D5int);
    assert(0xD744FCCAD69CEFDEint * 0xD744FCCAD69CEFDEint <= 0xB504F333F9DD9583int * 0x10000000000000000int);
    assert(0xB504F333F9DFD2F1int * 0x10000000000000000int <= 0xD744FCCAD69E44D5int * 0xD744FCCAD69E44D5int);
    lemma_chain_upper(0x2863EBB2A1512Dint, 5, 0xD744FCCAD69CEFDEint, 1643, 64, 0xB504F333F9DD9583int);
    lemma_chain_lower(0x2863EBB2A1512Fint, 5, 0xD744FCCAD69E44D5int, 1643, 64, 0xB504F333F9DFD2F1int);
    assert(0xB504F333F9DD9583int * 0xB504F333F9DD9583int <= 0xFFFFFFFFFFFDB681int * 0x8000000000000000int);
    assert(0x10000000000040C67int * 0x8000000000000000int <= 0xB504F333F9DFD2F1int * 0xB504F333F9DFD2F1int);
    lemma_chain_upper(0x2863EBB2A1512Dint, 6, 0xB504F333F9DD9583int, 3350, 63, 0xFFFFFFFFFFFDB681int);
    lemma_chain_lower(0x2863EBB2A1512Fint, 6, 0xB504F333F9DFD2F1int, 3350, 63, 0x10000000000040C67int);
    lemma_chains_round(0x3FE4_31F5_D950_A897u64, 43, 7, 1, 0x2863EBB2A1512Dint, 0x2863EBB2A1512Fint, 0xFFFFFFFFFFFDB681int, 0x10000000000040C67int, 6763, 64);
}

/// Boundary 45 of schema 7, checked through its squaring chains.
proof fn rounded_7_45()
    ensures
        rounds_root(0x3FE4_6A41_ED1D_0057u64, 45, 7),
{
    lemma2_to64();
    lemma2_to64_rest();
    lemma_chain_start(0x28D483DA3A00ADint);
    lemma_chain_start(0x28D483DA3A00AFint);
    assert(0x28D483DA3A00ADint * 0x28D483DA3A00ADint <= 0xD06333DAEF2B1242int * 0x80000000000int);
    assert(0xD06333DAEF2B26ACint * 0x80000000000int <= 0x28D483DA3A00AFint * 0x28D483DA3A00AFint);
    lemma_chain_upper(0x28D483DA3A00ADint, 0, 0x28D483DA3A00ADint, 0, 43, 0xD06333DAEF2B1242int);
    lemma_chain_lower(0x28D483DA3A00AFint, 0, 0x28D483DA3A00AFint, 0, 43, 0xD06333DAEF2B26ACint);
    assert(0xD06333DAEF2B1242int * 0xD06333DAEF2B1242int <= 0xA9A15AB4EA7BEF83int * 0x10000000000000000int);
    assert(0xA9A15AB4EA7C10BEint * 0x10000000000000000int <= 0xD06333DAEF2B26ACint * 0xD06333DAEF2B26ACint);
    lemma_chain_upper(0x28D483DA3A00ADint, 1, 0xD06333DAEF2B1242int, 43, 64, 0xA9A15AB4EA7BEF83int);
    lemma_chain_lower(0x28D483DA3A00AFint, 1, 0xD06333DAEF2B26ACint, 43, 64, 0xA9A15AB4EA7C10BEint);
    assert(0xA9A15AB4EA7BEF83int * 0xA9A15AB4EA7BEF83int <= 0xE0CCDEEC2A948DB0int * 0x8000000000000000int);
    assert(0xE0CCDEEC2A94E5C3int * 0x8000000000000000int <= 0xA9A15AB4EA7C10BEint * 0xA9A15AB4EA7C10BEint);
    lemma_chain_upper(0x28D483DA3A00ADint, 2, 0xA9A15AB4EA7BEF83int, 150, 63, 0xE0CCDEEC2A948DB0int);
    lemma_chain_lower(0x28D483DA3A00AFint, 2, 0xA9A15AB4EA7C10BEint, 150, 63, 0xE0CCDEEC2A94E5C3int);
    assert(0xE0CCDEEC2A948DB0int * 0xE0CCDEEC2A948DB0int <= 0xC5672A115506486Eint * 0x10000000000000000int);
    assert(0xC5672A115506E31Cint * 0x10000000000000000int <= 0xE0CCDEEC2A94E5C3int * 0xE0CCDEEC2A94E5C3int);
    lemma_chain_upper(0x28D483DA3A00ADint, 3, 0xE0CCDEEC2A948DB0int, 363, 64, 0xC5672A115506486Eint);
    lemma_chain_lower(0x28D483DA3A00AFint, 3, 0xE0CCDEEC2A94E5C3int, 363, 64, 0xC5672A115506E31Cint);
    assert(0xC5672A115506486Eint * 0xC5672A115506486Eint <= 0x9837F0518DB7C79Bint * 0x10000000000000000int);
    assert(0x9837F0518DB8B626int * 0x10000000000000000int <= 0xC5672A115506E31Cint * 0xC5672A115506E31Cint);
    lemma_chain_upper(0x28D483DA3A00ADint, 4, 0xC5672A115506486Eint, 790, 64, 0x9837F0518DB7C79Bint);
    lemma_chain_lower(0x28D483DA3A00AFint, 4, 0xC5672A115506E31Cint, 790, 64, 0x9837F0518DB8B626int);
    assert(0x9837F0518DB7C79Bint * 0x9837F0518DB7C79Bint <= 0xB504F333F9DC4B67int * 0x8000000000000000int);
    assert(0xB504F333F9DE82C1int * 0x8000000000000000int <= 0x9837F0518DB8B626int * 0x9837F0518DB8B626int);
    lemma_chain_upper(0x28D483DA3A00ADint, 5, 0x9837F0518DB7C79Bint, 1644, 63, 0xB504F333F9DC4B67int);
    lemma_chain_lower(0x28D483DA3A00AFint, 5, 0x9837F0518DB8B626int, 1644, 63, 0xB504F333F9DE82C1int);
    assert(0xB504F333F9DC4B67int * 0xB504F333F9DC4B67int <= 0xFFFFFFFFFFFA10D0int * 0x8000000000000000int);
    assert(0x10000000000005585int * 0x8000000000000000int <= 0xB504F333F9DE82C1int * 0xB504F333F9DE82C1int);
    lemma_chain_upper(0x28D483DA3A00ADint, 6, 0xB504F333F9DC4B67int, 3351, 63, 0xFFFFFFFFFFFA10D0int);
    lemma_chain_lower(0x28D483DA3A00AFint, 6, 0xB504F333F9DE82C1int, 3351, 63, 0x10000000000005585int);
    lemma_chains_round(0x3FE4_6A41_ED1D_0057u64, 45, 7, 1, 0x28D483DA3A00ADint, 0x28D483DA3A00AFint, 0xFFFFFFFFFFFA10D0int, 0x10000000000005585int, 6765, 64);
}

/// Boundary 47 of schema 7, checked through its squaring chains.
proof fn rounded_7_47()
    ensures
        rounds_root(0x3FE4_A32A_F0D7_D3DEu64, 47, 7),
{
    lemma2_to64();
    lemma2_to64_rest();
    lemma_chain_start(0x294655E1AFA7BBint);
    lemma_chain_start(0x294655E1AFA7BDint);
    assert(0x294655E1AFA7BBint * 0x294655E1AFA7BBint <= 0xD4F35AABCFEDE77Dint * 0x80000000000int);
    assert(0xD4F35AABCFEDFC1Fint * 0x80000000000int <= 0x294655E1AFA7BDint * 0x294655E1AFA7BDint);
    lemma_chain_upper(0x294655E1AFA7BBint, 0, 0x294655E1AFA7BBint, 0, 43, 0xD4F35AABCFEDE77Dint);
    lemma_chain_lower(0x294655E1AFA7BDint, 0, 0x294655E1AFA7BDint, 0, 43, 0xD4F35AABCFEDFC1Fint);
    assert(0xD4F35AABCFEDE77Dint * 0xD4F35AABCFEDE77Dint <= 0xB123F581D2AC0690int * 0x10000000000000000int);
    assert(0xB123F581D2AC28E2int * 0x10000000000000000int <= 0xD4F35AABCFEDFC1Fint * 0xD4F35AABCFEDFC1Fint);
    lemma_chain_upper(0x294655E1AFA7BBint, 1, 0xD4F35AABCFEDE77Dint, 43, 64, 0xB123F581D2AC0690int);
    lemma_chain_lower(0x294655E1AFA7BDint, 1, 0xD4F35AABCFEDFC1Fint, 43, 64, 0xB123F581D2AC28E2int);
    assert(0xB123F581D2AC0690int * 0xB123F581D2AC0690int <= 0xF5257D1524867661int * 0x8000000000000000int);
    assert(0xF5257D152486D55Eint * 0x8000000000000000int <= 0xB123F581D2AC28E2int * 0xB123F581D2AC28E2int);
    lemma_chain_upper(0x294655E1AFA7BBint, 2, 0xB123F581D2AC0690int, 150, 63, 0xF5257D1524867661int);
    lemma_chain_lower(0x294655E1AFA7BDint, 2, 0xB123F581D2AC28E2int, 150, 63, 0xF5257D152486D55Eint);
    assert(0xF5257D1524867661int * 0xF5257D1524867661int <= 0xEAC0C6E7DD2394DFint * 0x10000000000000000int);
    assert(0xEAC0C6E7DD244ACAint * 0x10000000000000000int <= 0xF5257D152486D55Eint * 0xF5257D152486D55Eint);
    lemma_chain_upper(0x294655E1AFA7BBint, 3, 0xF5257D1524867661int, 363, 64, 0xEAC0C6E7DD2394DFint);
    lemma_chain_lower(0x294655E1AFA7BDint, 3, 0xF5257D152486D55Eint, 363, 64, 0xEAC0C6E7DD244ACAint);
    assert(0xEAC0C6E7DD2394DFint * 0xEAC0C6E7DD2394DFint <= 0xD744FCCAD69C3D9Bint * 0x10000000000000000int);
    assert(0xD744FCCAD69D8B3Eint * 0x10000000000000000int <= 0xEAC0C6E7DD244ACAint * 0xEAC0C6E7DD244ACAint);
    lemma_chain_upper(0x294655E1AFA7BBint, 4, 0xEAC0C6E7DD2394DFint, 790, 64, 0xD744FCCAD69C3D9Bint);
    lemma_chain_lower(0x294655E1AFA7BDint, 4, 0xEAC0C6E7DD244ACAint, 790, 64, 0xD744FCCAD69D8B3Eint);
    assert(0xD744FCCAD69C3D9Bint * 0xD744FCCAD69C3D9Bint <= 0xB504F333F9DC69B7int * 0x10000000000000000int);
    assert(0xB504F333F9DE9AD1int * 0x10000000000000000int <= 0xD744FCCAD69D8B3Eint * 0xD744FCCAD69D8B3Eint);
    lemma_chain_upper(0x294655E1AFA7BBint, 5, 0xD744FCCAD69C3D9Bint, 1644, 64, 0xB504F333F9DC69B7int);
    lemma_chain_lower(0x294655E1AFA7BDint, 5, 0xD744FCCAD69D8B3Eint, 1644, 64, 0xB504F333F9DE9AD1int);
    assert(0xB504F333F9DC69B7int * 0xB504F333F9DC69B7int <= 0xFFFFFFFFFFFA668Dint * 0x8000000000000000int);
    assert(0x10000000000009994int * 0x8000000000000000int <= 0xB504F333F9DE9AD1int * 0xB504F333F9DE9AD1int);
    lemma_chain_upper(0x294655E1AFA7BBint, 6, 0xB504F333F9DC69B7int, 3352, 63, 0xFFFFFFFFFFFA668Dint);
    lemma_chain_lower(0x294655E1AFA7BDint, 6, 0xB504F333F9DE9AD1int, 3352, 63, 0x10000000000009994int);
    lemma_chains_round(0x3FE4_A32A_F0D7_D3DEu64, 47, 7, 1, 0x294655E1AFA7BBint, 0x294655E1AFA7BDint, 0xFFFFFFFFFFFA668Dint, 0x10000000000009994int, 6767, 64);
}

/// Boundary 49 of schema 7, checked through its squaring chains.
proof fn rounded_7_49()
    ensures
        rounds_root(0x3FE4_DCB2_99FD_DD0Du64, 49, 7),
{
    lemma2_to64();
    lemma2_to64_rest();
    lemma_chain_start(0x29B96533FBBA19int);
    lemma_chain_start(0x29B96533FBBA1Bint);
    assert(0x29B96533FBBA19int * 0x29B96533FBBA19int <= 0xD99D15C278AFC528int * 0x80000000000int);
    assert(0xD99D15C278AFDA04int * 0x80000000000int <= 0x29B96533FBBA1Bint * 0x29B96533FBBA1Bint);
    lemma_chain_upper(0x29B96533FBBA19int, 0, 0x29B96533FBBA19int, 0, 43, 0xD99D15C278AFC528int);
    lemma_chain_lower(0x29B96533FBBA1Bint, 0, 0x29B96533FBBA1Bint, 0, 43, 0xD99D15C278AFDA04int);
    assert(0xD99D15C278AFC528int * 0xD99D15C278AFC528int <= 0xB8FBAF4762FB7F5Eint * 0x10000000000000000int);
    assert(0xB8FBAF4762FBA2D4int * 0x10000000000000000int <= 0xD99D15C278AFDA04int * 0xD99D15C278AFDA04int);
    lemma_chain_upper(0x29B96533FBBA19int, 1, 0xD99D15C278AFC528int, 43, 64, 0xB8FBAF4762FB7F5Eint);
    lemma_chain_lower(0x29B96533FBBA1Bint, 1, 0xD99D15C278AFDA04int, 43, 64, 0xB8FBAF4762FBA2D4int);
    assert(0xB8FBAF4762FB7F5Eint * 0xB8FBAF4762FB7F5Eint <= 0x85AAC367CC484D7Fint * 0x10000000000000000int);
    assert(0x85AAC367CC4880BEint * 0x10000000000000000int <= 0xB8FBAF4762FBA2D4int * 0xB8FBAF4762FBA2D4int);
    lemma_chain_upper(0x29B96533FBBA19int, 2, 0xB8FBAF4762FB7F5Eint, 150, 64, 0x85AAC367CC484D7Fint);
    lemma_chain_lower(0x29B96533FBBA1Bint, 2, 0xB8FBAF4762FBA2D4int, 150, 64, 0x85AAC367CC4880BEint);
    assert(0x85AAC367CC484D7Fint * 0x85AAC367CC484D7Fint <= 0x8B95C1E3EA8B77B3int * 0x8000000000000000int);
    assert(0x8B95C1E3EA8BE2B9int * 0x8000000000000000int <= 0x85AAC367CC4880BEint * 0x85AAC367CC4880BEint);
    lemma_chain_upper(0x29B96533FBBA19int, 3, 0x85AAC367CC484D7Fint, 364, 63, 0x8B95C1E3EA8B77B3int);
    lemma_chain_lower(0x29B96533FBBA1Bint, 3, 0x85AAC367CC4880BEint, 364, 63, 0x8B95C1E3EA8BE2B9int);
    assert(0x8B95C1E3EA8B77B3int * 0x8B95C1E3EA8B77B3int <= 0x9837F0518DB7D9CCint * 0x8000000000000000int);
    assert(0x9837F0518DB8C337int * 0x8000000000000000int <= 0x8B95C1E3EA8BE2B9int * 0x8B95C1E3EA8BE2B9int);
    lemma_chain_upper(0x29B96533FBBA19int, 4, 0x8B95C1E3EA8B77B3int, 791, 63, 0x9837F0518DB7D9CCint);
    lemma_chain_lower(0x29B96533FBBA1Bint, 4, 0x8B95C1E3EA8BE2B9int, 791, 63, 0x9837F0518DB8C337int);
    assert(0x9837F0518DB7D9CCint * 0x9837F0518DB7D9CCint <= 0xB504F333F9DC76ACint * 0x8000000000000000int);
    assert(0xB504F333F9DEA1D5int * 0x8000000000000000int <= 0x9837F0518DB8C337int * 0x9837F0518DB8C337int);
    lemma_chain_upper(0x29B96533FBBA19int, 5, 0x9837F0518DB7D9CCint, 1645, 63, 0xB504F333F9DC76ACint);
    lemma_chain_lower(0x29B96533FBBA1Bint, 5, 0x9837F0518DB8C337int, 1645, 63, 0xB504F333F9DEA1D5int);
    assert(0xB504F333F9DC76ACint * 0xB504F333F9DC76ACint <= 0xFFFFFFFFFFFA8B32int * 0x8000000000000000int);
    assert(0x1000000000000AD6Cint * 0x8000000000000000int <= 0xB504F333F9DEA1D5int * 0xB504F333F9DEA1D5int);
    lemma_chain_upper(0x29B96533FBBA19int, 6, 0xB504F333F9DC76ACint, 3353, 63, 0xFFFFFFFFFFFA8B32int);
    lemma_chain_lower(0x29B96533FBBA1Bint, 6, 0xB504F333F9DEA1D5int, 3353, 63, 0x1000000000000AD6Cint);
    lemma_chains_round(0x3FE4_DCB2_99FD_DD0Du64, 49, 7, 1, 0x29B96533FBBA19int, 0x29B96533FBBA1Bint, 0xFFFFFFFFFFFA8B32int, 0x1000000000000AD6Cint, 6769, 64);
}

/// Boundary 51 of schema 7, checked through its squaring chains.
proof fn rounded_7_51()
    ensures
        rounds_root(0x3FE5_16DA_A2CF_6642u64, 51, 7),
{
    lemma2_to64();
    lemma2_to64_rest();
    lemma_chain_start(0x2A2DB5459ECC83int);
    lemma_chain_start(0x2A2DB5459ECC85int);
    assert(0x2A2DB5459ECC83int * 0x2A2DB5459ECC83int <= 0xDE60F4825E0E8BC8int * 0x80000000000int);
    assert(0xDE60F4825E0EA0DEint * 0x80000000000int <= 0x2A2DB5459ECC85int * 0x2A2DB5459ECC85int);
    lemma_chain_upper(0x2A2DB5459ECC83int, 0, 0x2A2DB5459ECC83int, 0, 43, 0xDE60F4825E0E8BC8int);
    lemma_chain_lower(0x2A2DB5459ECC85int, 0, 0x2A2DB5459ECC85int, 0, 43, 0xDE60F4825E0EA0DEint);
    assert(0xDE60F4825E0E8BC8int * 0xDE60F4825E0E8BC8int <= 0xC12C4CCA66708B08int * 0x10000000000000000int);
    assert(0xC12C4CCA6670AFA9int * 0x10000000000000000int <= 0xDE60F4825E0EA0DEint * 0xDE60F4825E0EA0DEint);
    lemma_chain_upper(0x2A2DB5459ECC83int, 1, 0xDE60F4825E0E8BC8int, 43, 64, 0xC12C4CCA66708B08int);
    lemma_chain_lower(0x2A2DB5459ECC85int, 1, 0xDE60F4825E0EA0DEint, 43, 64, 0xC12C4CCA6670AFA9int);
    assert(0xC12C4CCA66708B08int * 0xC12C4CCA66708B08int <= 0x91C3D373AB11B52Bint * 0x10000000000000000int);
    assert(0x91C3D373AB11EC71int * 0x10000000000000000int <= 0xC12C4CCA6670AFA9int * 0xC12C4CCA6670AFA9int);
    lemma_chain_upper(0x2A2DB5459ECC83int, 2, 0xC12C4CCA66708B08int, 150, 64, 0x91C3D373AB11B52Bint);
    lemma_chain_lower(0x2A2DB5459ECC85int, 2, 0xC12C4CCA6670AFA9int, 150, 64, 0x91C3D373AB11EC71int);
    assert(0x91C3D373AB11B52Bint * 0x91C3D373AB11B52Bint <= 0xA5FED6A9B15118EFint * 0x8000000000000000int);
    assert(0xA5FED6A9B15196D1int * 0x8000000000000000int <= 0x91C3D373AB11EC71int * 0x91C3D373AB11EC71int);
    lemma_chain_upper(0x2A2DB5459ECC83int, 3, 0x91C3D373AB11B52Bint, 364, 63, 0xA5FED6A9B15118EFint);
    lemma_chain_lower(0x2A2DB5459ECC85int, 3, 0x91C3D373AB11EC71int, 364, 63, 0xA5FED6A9B15196D1int);
    assert(0xA5FED6A9B15118EFint * 0xA5FED6A9B15118EFint <= 0xD744FCCAD69D1802int * 0x8000000000000000int);
    assert(0xD744FCCAD69E5E81int * 0x8000000000000000int <= 0xA5FED6A9B15196D1int * 0xA5FED6A9B15196D1int);
    lemma_chain_upper(0x2A2DB5459ECC83int, 4, 0xA5FED6A9B15118EFint, 791, 63, 0xD744FCCAD69D1802int);
    lemma_chain_lower(0x2A2DB5459ECC85int, 4, 0xA5FED6A9B15196D1int, 791, 63, 0xD744FCCAD69E5E81int);
    assert(0xD744FCCAD69D1802int * 0xD744FCCAD69D1802int <= 0xB504F333F9DDD905int * 0x10000000000000000int);
    assert(0xB504F333F9DFFE1Eint * 0x10000000000000000int <= 0xD744FCCAD69E5E81int * 0xD744FCCAD69E5E81int);
    lemma_chain_upper(0x2A2DB5459ECC83int, 5, 0xD744FCCAD69D1802int, 1645, 64, 0xB504F333F9DDD905int);
    lemma_chain_lower(0x2A2DB5459ECC85int, 5, 0xD744FCCAD69E5E81int, 1645, 64, 0xB504F333F9DFFE1Eint);
    assert(0xB504F333F9DDD905int * 0xB504F333F9DDD905int <= 0xFFFFFFFFFFFE7572int * 0x8000000000000000int);
    assert(0x10000000000048686int * 0x8000000000000000int <= 0xB504F333F9DFFE1Eint * 0xB504F333F9DFFE1Eint);
    lemma_chain_upper(0x2A2DB5459ECC83int, 6, 0xB504F333F9DDD905int, 3354, 63, 0xFFFFFFFFFFFE7572int);
    lemma_chain_lower(0x2A2DB5459ECC85int, 6, 0xB504F333F9DFFE1Eint, 3354, 63, 0x10000000000048686int);
    lemma_chains_round(0x3FE5_16DA_A2CF_6642u64, 51, 7, 1, 0x2A2DB5459ECC83int, 0x2A2DB5459ECC85int, 0xFFFFFFFFFFFE7572int, 0x10000000000048686int, 6771, 64);
}

/// Boundary 53 of schema 7, checked through its squaring chains.
proof fn rounded_7_53()
    ensures
        rounds_root(0x3FE5_51A4_CA5D_920Fu64, 53, 7),
{
    lemma2_to64();
    lemma2_to64_rest();
    lemma_chain_start(0x2AA34994BB241Dint);
    lemma_chain_start(0x2AA34994BB241Fint);
    assert(0x2AA34994BB241Dint * 0x2AA34994BB241Dint <= 0xE33F8972BE8A548Fint * 0x80000000000int);
    assert(0xE33F8972BE8A69DFint * 0x80000000000int <= 0x2AA34994BB241Fint * 0x2AA34994BB241Fint);
    lemma_chain_upper(0x2AA34994BB241Dint, 0, 0x2AA34994BB241Dint, 0, 43, 0xE33F8972BE8A548Fint);
    lemma_chain_lower(0x2AA34994BB241Fint, 0, 0x2AA34994BB241Fint, 0, 43, 0xE33F8972BE8A69DFint);
    assert(0xE33F8972BE8A548Fint * 0xE33F8972BE8A548Fint <= 0xC9B9BD866E2F1D6Aint * 0x10000000000000000int);
    assert(0xC9B9BD866E2F433Fint * 0x10000000000000000int <= 0xE33F8972BE8A69DFint * 0xE33F8972BE8A69DFint);
    lemma_chain_upper(0x2AA34994BB241Dint, 1, 0xE33F8972BE8A548Fint, 43, 64, 0xC9B9BD866E2F1D6Aint);
    lemma_chain_lower(0x2AA34994BB241Fint, 1, 0xE33F8972BE8A69DFint, 43, 64, 0xC9B9BD866E2F433Fint);
    assert(0xC9B9BD866E2F1D6Aint * 0xC9B9BD866E2F1D6Aint <= 0x9EF5326091A10193int * 0x10000000000000000int);
    assert(0x9EF5326091A13D31int * 0x10000000000000000int <= 0xC9B9BD866E2F433Fint * 0xC9B9BD866E2F433Fint);
    lemma_chain_upper(0x2AA34994BB241Dint, 2, 0xC9B9BD866E2F1D6Aint, 150, 64, 0x9EF5326091A10193int);
    lemma_chain_lower(0x2AA34994BB241Fint, 2, 0xC9B9BD866E2F433Fint, 150, 64, 0x9EF5326091A13D31int);
    assert(0x9EF5326091A10193int * 0x9EF5326091A10193int <= 0xC5672A115506B2DEint * 0x8000000000000000int);
    assert(0xC5672A11550746F0int * 0x8000000000000000int <= 0x9EF5326091A13D31int * 0x9EF5326091A13D31int);
    lemma_chain_upper(0x2AA34994BB241Dint, 3, 0x9EF5326091A10193int, 364, 63, 0xC5672A115506B2DEint);
    lemma_chain_lower(0x2AA34994BB241Fint, 3, 0x9EF5326091A13D31int, 364, 63, 0xC5672A11550746F0int);
    assert(0xC5672A115506B2DEint * 0xC5672A115506B2DEint <= 0x9837F0518DB86BC1int * 0x10000000000000000int);
    assert(0x9837F0518DB9501Bint * 0x10000000000000000int <= 0xC5672A11550746F0int * 0xC5672A11550746F0int);
    lemma_chain_upper(0x2AA34994BB241Dint, 4, 0xC5672A115506B2DEint, 791, 64, 0x9837F0518DB86BC1int);
    lemma_chain_lower(0x2AA34994BB241Fint, 4, 0xC5672A11550746F0int, 791, 64, 0x9837F0518DB9501Bint);
    assert(0x9837F0518DB86BC1int * 0x9837F0518DB86BC1int <= 0xB504F333F9DDD1D1int * 0x8000000000000000int);
    assert(0xB504F333F9DFF0EDint * 0x8000000000000000int <= 0x9837F0518DB9501Bint * 0x9837F0518DB9501Bint);
    lemma_chain_upper(0x2AA34994BB241Dint, 5, 0x9837F0518DB86BC1int, 1646, 63, 0xB504F333F9DDD1D1int);
    lemma_chain_lower(0x2AA34994BB241Fint, 5, 0x9837F0518DB9501Bint, 1646, 63, 0xB504F333F9DFF0EDint);
    assert(0xB504F333F9DDD1D1int * 0xB504F333F9DDD1D1int <= 0xFFFFFFFFFFFE6112int * 0x8000000000000000int);
    assert(0x10000000000046136int * 0x8000000000000000int <= 0xB504F333F9DFF0EDint * 0xB504F333F9DFF0EDint);
    lemma_chain_upper(0x2AA34994BB241Dint, 6, 0xB504F333F9DDD1D1int, 3355, 63, 0xFFFFFFFFFFFE6112int);
    lemma_chain_lower(0x2AA34994BB241Fint, 6, 0xB504F333F9DFF0EDint, 3355, 63, 0x10000000000046136int);
    lemma_chains_round(0x3FE5_51A4_CA5D_920Fu64, 53, 7, 1, 0x2AA34994BB241Dint, 0x2AA34994BB241Fint, 0xFFFFFFFFFFFE6112int, 0x10000000000046136int, 6773, 64);
}

/// Boundary 55 of schema 7, checked through its squaring chains.
proof fn rounded_7_55()
    ensures
        rounds_root(0x3FE5_8D12_D497_C7FDu64, 55, 7),
{
    lemma2_to64();
    lemma2_to64_rest();
    lemma_chain_start(0x2B1A25A92F8FF9int);
    lemma_chain_start(0x2B1A25A92F8FFBint);
    assert(0x2B1A25A92F8FF9int * 0x2B1A25A92F8FF9int <= 0xE8396A503C4BCE81int * 0x80000000000int);
    assert(0xE8396A503C4BE40Dint * 0x80000000000int <= 0x2B1A25A92F8FFBint * 0x2B1A25A92F8FFBint);
    lemma_chain_upper(0x2B1A25A92F8FF9int, 0, 0x2B1A25A92F8FF9int, 0, 43, 0xE8396A503C4BCE81int);
    lemma_chain_lower(0x2B1A25A92F8FFBint, 0, 0x2B1A25A92F8FFBint, 0, 43, 0xE8396A503C4BE40Dint);
    assert(0xE8396A503C4BCE81int * 0xE8396A503C4BCE81int <= 0xD2A81D91F12ACB21int * 0x10000000000000000int);
    assert(0xD2A81D91F12AF237int * 0x10000000000000000int <= 0xE8396A503C4BE40Dint * 0xE8396A503C4BE40Dint);
    lemma_chain_upper(0x2B1A25A92F8FF9int, 1, 0xE8396A503C4BCE81int, 43, 64, 0xD2A81D91F12ACB21int);
    lemma_chain_lower(0x2B1A25A92F8FFBint, 1, 0xE8396A503C4BE40Dint, 43, 64, 0xD2A81D91F12AF237int);
    assert(0xD2A81D91F12ACB21int * 0xD2A81D91F12ACB21int <= 0xAD583EEA42A12144int * 0x10000000000000000int);
    assert(0xAD583EEA42A16196int * 0x10000000000000000int <= 0xD2A81D91F12AF237int * 0xD2A81D91F12AF237int);
    lemma_chain_upper(0x2B1A25A92F8FF9int, 2, 0xD2A81D91F12ACB21int, 150, 64, 0xAD583EEA42A12144int);
    lemma_chain_lower(0x2B1A25A92F8FFBint, 2, 0xD2A81D91F12AF237int, 150, 64, 0xAD583EEA42A16196int);
    assert(0xAD583EEA42A12144int * 0xAD583EEA42A12144int <= 0xEAC0C6E7DD23C8C2int * 0x8000000000000000int);
    assert(0xEAC0C6E7DD2476F7int * 0x8000000000000000int <= 0xAD583EEA42A16196int * 0xAD583EEA42A16196int);
    lemma_chain_upper(0x2B1A25A92F8FF9int, 3, 0xAD583EEA42A12144int, 364, 63, 0xEAC0C6E7DD23C8C2int);
    lemma_chain_lower(0x2B1A25A92F8FFBint, 3, 0xAD583EEA42A16196int, 364, 63, 0xEAC0C6E7DD2476F7int);
    assert(0xEAC0C6E7DD23C8C2int * 0xEAC0C6E7DD23C8C2int <= 0xD744FCCAD69C9CC4int * 0x10000000000000000int);
    assert(0xD744FCCAD69DDC43int * 0x10000000000000000int <= 0xEAC0C6E7DD2476F7int * 0xEAC0C6E7DD2476F7int);
    lemma_chain_upper(0x2B1A25A92F8FF9int, 4, 0xEAC0C6E7DD23C8C2int, 791, 64, 0xD744FCCAD69C9CC4int);
    lemma_chain_lower(0x2B1A25A92F8FFBint, 4, 0xEAC0C6E7DD2476F7int, 791, 64, 0xD744FCCAD69DDC43int);
    assert(0xD744FCCAD69C9CC4int * 0xD744FCCAD69C9CC4int <= 0xB504F333F9DD09C1int * 0x10000000000000000int);
    assert(0xB504F333F9DF2313int * 0x10000000000000000int <= 0xD744FCCAD69DDC43int * 0xD744FCCAD69DDC43int);
    lemma_chain_upper(0x2B1A25A92F8FF9int, 5, 0xD744FCCAD69C9CC4int, 1646, 64, 0xB504F333F9DD09C1int);
    lemma_chain_lower(0x2B1A25A92F8FFBint, 5, 0xD744FCCAD69DDC43int, 1646, 64, 0xB504F333F9DF2313int);
    assert(0xB504F333F9DD09C1int * 0xB504F333F9DD09C1int <= 0xFFFFFFFFFFFC2B35int * 0x8000000000000000int);
    assert(0x10000000000021AFAint * 0x8000000000000000int <= 0xB504F333F9DF2313int * 0xB504F333F9DF2313int);
    lemma_chain_upper(0x2B1A25A92F8FF9int, 6, 0xB504F333F9DD09C1int, 3356, 63, 0xFFFFFFFFFFFC2B35int);
    lemma_chain_lower(0x2B1A25A92F8FFBint, 6, 0xB504F333F9DF2313int, 3356, 63, 0x10000000000021AFAint);
    lemma_chains_round(0x3FE5_8D12_D497_C7FDu64, 55, 7, 1, 0x2B1A25A92F8FF9int, 0x2B1A25A92F8FFBint, 0xFFFFFFFFFFFC2B35int, 0x10000000000021AFAint, 6775, 64);
}

/// Boundary 57 of schema 7, checked through its squaring chains.
proof fn rounded_7_57()
    ensures
        rounds_root(0x3FE5_C926_8A59_46B7u64, 57, 7),
{
    lemma2_to64();
    lemma2_to64_rest();
    lemma_chain_start(0x2B924D14B28D6Dint);
    lemma_chain_start(0x2B924D14B28D6Fint);
    assert(0x2B924D14B28D6Dint * 0x2B924D14B28D6Dint <= 0xED4F301ED994207Aint * 0x80000000000int);
    assert(0xED4F301ED9943642int * 0x80000000000int <= 0x2B924D14B28D6Fint * 0x2B924D14B28D6Fint);
    lemma_chain_upper(0x2B924D14B28D6Dint, 0, 0x2B924D14B28D6Dint, 0, 43, 0xED4F301ED994207Aint);
    lemma_chain_lower(0x2B924D14B28D6Fint, 0, 0x2B924D14B28D6Fint, 0, 43, 0xED4F301ED9943642int);
    assert(0xED4F301ED994207Aint * 0xED4F301ED994207Aint <= 0xDBFBB797DAF222DEint * 0x10000000000000000int);
    assert(0xDBFBB797DAF24B3Eint * 0x10000000000000000int <= 0xED4F301ED9943642int * 0xED4F301ED9943642int);
    lemma_chain_upper(0x2B924D14B28D6Dint, 1, 0xED4F301ED994207Aint, 43, 64, 0xDBFBB797DAF222DEint);
    lemma_chain_lower(0x2B924D14B28D6Fint, 1, 0xED4F301ED9943642int, 43, 64, 0xDBFBB797DAF24B3Eint);
    assert(0xDBFBB797DAF222DEint * 0xDBFBB797DAF222DEint <= 0xBD08A39F580C1393int * 0x10000000000000000int);
    assert(0xBD08A39F580C58F6int * 0x10000000000000000int <= 0xDBFBB797DAF24B3Eint * 0xDBFBB797DAF24B3Eint);
    lemma_chain_upper(0x2B924D14B28D6Dint, 2, 0xDBFBB797DAF222DEint, 150, 64, 0xBD08A39F580C1393int);
    lemma_chain_lower(0x2B924D14B28D6Fint, 2, 0xDBFBB797DAF24B3Eint, 150, 64, 0xBD08A39F580C58F6int);
    assert(0xBD08A39F580C1393int * 0xBD08A39F580C1393int <= 0x8B95C1E3EA8BA2F7int * 0x10000000000000000int);
    assert(0x8B95C1E3EA8C096Fint * 0x10000000000000000int <= 0xBD08A39F580C58F6int * 0xBD08A39F580C58F6int);
    lemma_chain_upper(0x2B924D14B28D6Dint, 3, 0xBD08A39F580C1393int, 364, 64, 0x8B95C1E3EA8BA2F7int);
    lemma_chain_lower(0x2B924D14B28D6Fint, 3, 0xBD08A39F580C58F6int, 364, 64, 0x8B95C1E3EA8C096Fint);
    assert(0x8B95C1E3EA8BA2F7int * 0x8B95C1E3EA8BA2F7int <= 0x9837F0518DB83829int * 0x8000000000000000int);
    assert(0x9837F0518DB917A4int * 0x8000000000000000int <= 0x8B95C1E3EA8C096Fint * 0x8B95C1E3EA8C096Fint);
    lemma_chain_upper(0x2B924D14B28D6Dint, 4, 0x8B95C1E3EA8BA2F7int, 792, 63, 0x9837F0518DB83829int);
    lemma_chain_lower(0x2B924D14B28D6Fint, 4, 0x8B95C1E3EA8C096Fint, 792, 63, 0x9837F0518DB917A4int);
    assert(0x9837F0518DB83829int * 0x9837F0518DB83829int <= 0xB504F333F9DD571Bint * 0x8000000000000000int);
    assert(0xB504F333F9DF6AA1int * 0x8000000000000000int <= 0x9837F0518DB917A4int * 0x9837F0518DB917A4int);
    lemma_chain_upper(0x2B924D14B28D6Dint, 5, 0x9837F0518DB83829int, 1647, 63, 0xB504F333F9DD571Bint);
    lemma_chain_lower(0x2B924D14B28D6Fint, 5, 0x9837F0518DB917A4int, 1647, 63, 0xB504F333F9DF6AA1int);
    assert(0xB504F333F9DD571Bint * 0xB504F333F9DD571Bint <= 0xFFFFFFFFFFFD05FEint * 0x8000000000000000int);
    assert(0x1000000000002E55Dint * 0x8000000000000000int <= 0xB504F333F9DF6AA1int * 0xB504F333F9DF6AA1int);
    lemma_chain_upper(0x2B924D14B28D6Dint, 6, 0xB504F333F9DD571Bint, 3357, 63, 0xFFFFFFFFFFFD05FEint);
    lemma_chain_lower(0x2B924D14B28D6Fint, 6, 0xB504F333F9DF6AA1int, 3357, 63, 0x1000000000002E55Dint);
    lemma_chains_round(0x3FE5_C926_8A59_46B7u64, 57, 7, 1, 0x2B924D14B28D6Dint, 0x2B924D14B28D6Fint, 0xFFFFFFFFFFFD05FEint, 0x1000000000002E55Dint, 6777, 64);
}

/// Boundary 59 of schema 7, checked through its squaring chains.
proof fn rounded_7_59()
    ensures
        rounds_root(0x3FE6_05E1_B976_DC09u64, 59, 7),
{
    lemma2_to64();
    lemma2_to64_rest();
    lemma_chain_start(0x2C0BC372EDB811int);
    lemma_chain_start(0x2C0BC372EDB813int);
    assert(0x2C0BC372EDB811int * 0x2C0BC372EDB811int <= 0xF281773C59FFAD0Fint * 0x80000000000int);
    assert(0xF281773C59FFC314int * 0x80000000000int <= 0x2C0BC372EDB813int * 0x2C0BC372EDB813int);
    lemma_chain_upper(0x2C0BC372EDB811int, 0, 0x2C0BC372EDB811int, 0, 43, 0xF281773C59FFAD0Fint);
    lemma_chain_lower(0x2C0BC372EDB813int, 0, 0x2C0BC372EDB813int, 0, 43, 0xF281773C59FFC314int);
    assert(0xF281773C59FFAD0Fint * 0xF281773C59FFAD0Fint <= 0xE5B906E77C8340C3int * 0x10000000000000000int);
    assert(0xE5B906E77C836A7Aint * 0x10000000000000000int <= 0xF281773C59FFC314int * 0xF281773C59FFC314int);
    lemma_chain_upper(0x2C0BC372EDB811int, 1, 0xF281773C59FFAD0Fint, 43, 64, 0xE5B906E77C8340C3int);
    lemma_chain_lower(0x2C0BC372EDB813int, 1, 0xF281773C59FFC314int, 43, 64, 0xE5B906E77C836A7Aint);
    assert(0xE5B906E77C8340C3int * 0xE5B906E77C8340C3int <= 0xCE248C151F8472B9int * 0x10000000000000000int);
    assert(0xCE248C151F84BD96int * 0x10000000000000000int <= 0xE5B906E77C836A7Aint * 0xE5B906E77C836A7Aint);
    lemma_chain_upper(0x2C0BC372EDB811int, 2, 0xE5B906E77C8340C3int, 150, 64, 0xCE248C151F8472B9int);
    lemma_chain_lower(0x2C0BC372EDB813int, 2, 0xE5B906E77C836A7Aint, 150, 64, 0xCE248C151F84BD96int);
    assert(0xCE248C151F8472B9int * 0xCE248C151F8472B9int <= 0xA5FED6A9B151221Aint * 0x10000000000000000int);
    assert(0xA5FED6A9B1519AAAint * 0x10000000000000000int <= 0xCE248C151F84BD96int * 0xCE248C151F84BD96int);
    lemma_chain_upper(0x2C0BC372EDB811int, 3, 0xCE248C151F8472B9int, 364, 64, 0xA5FED6A9B151221Aint);
    lemma_chain_lower(0x2C0BC372EDB813int, 3, 0xCE248C151F84BD96int, 364, 64, 0xA5FED6A9B1519AAAint);
    assert(0xA5FED6A9B151221Aint * 0xA5FED6A9B151221Aint <= 0xD744FCCAD69D2FC9int * 0x8000000000000000int);
    assert(0xD744FCCAD69E687Cint * 0x8000000000000000int <= 0xA5FED6A9B1519AAAint * 0xA5FED6A9B1519AAAint);
    lemma_chain_upper(0x2C0BC372EDB811int, 4, 0xA5FED6A9B151221Aint, 792, 63, 0xD744FCCAD69D2FC9int);
    lemma_chain_lower(0x2C0BC372EDB813int, 4, 0xA5FED6A9B1519AAAint, 792, 63, 0xD744FCCAD69E687Cint);
    assert(0xD744FCCAD69D2FC9int * 0xD744FCCAD69D2FC9int <= 0xB504F333F9DE0102int * 0x10000000000000000int);
    assert(0xB504F333F9E00EE7int * 0x10000000000000000int <= 0xD744FCCAD69E687Cint * 0xD744FCCAD69E687Cint);
    lemma_chain_upper(0x2C0BC372EDB811int, 5, 0xD744FCCAD69D2FC9int, 1647, 64, 0xB504F333F9DE0102int);
    lemma_chain_lower(0x2C0BC372EDB813int, 5, 0xD744FCCAD69E687Cint, 1647, 64, 0xB504F333F9E00EE7int);
    assert(0xB504F333F9DE0102int * 0xB504F333F9DE0102int <= 0xFFFFFFFFFFFEE68Cint * 0x8000000000000000int);
    assert(0x1000000000004B5FFint * 0x8000000000000000int <= 0xB504F333F9E00EE7int * 0xB504F333F9E00EE7int);
    lemma_chain_upper(0x2C0BC372EDB811int, 6, 0xB504F333F9DE0102int, 3358, 63, 0xFFFFFFFFFFFEE68Cint);
    lemma_chain_lower(0x2C0BC372EDB813int, 6, 0xB504F333F9E00EE7int, 3358, 63, 0x1000000000004B5FFint);
    lemma_chains_round(0x3FE6_05E1_B976_DC09u64, 59, 7, 1, 0x2C0BC372EDB811int, 0x2C0BC372EDB813int, 0xFFFFFFFFFFFEE68Cint, 0x1000000000004B5FFint, 6779, 64);
}

/// Boundary 61 of schema 7, checked through its squaring chains.
proof fn rounded_7_61()
    ensures
        rounds_root(0x3FE6_4346_34CC_C320u64, 61, 7),
{
    lemma2_to64();
    lemma2_to64_rest();
    lemma_chain_start(0x2C868C6999863Fint);
    lemma_chain_start(0x2C868C69998641int);
    assert(0x2C868C6999863Fint * 0x2C868C6999863Fint <= 0xF7D0DF730AD13583int * 0x80000000000int);
    assert(0xF7D0DF730AD14BC5int * 0x80000000000int <= 0x2C868C69998641int * 0x2C868C69998641int);
    lemma_chain_upper(0x2C868C6999863Fint, 0, 0x2C868C6999863Fint, 0, 43, 0xF7D0DF730AD13583int);
    lemma_chain_lower(0x2C868C69998641int, 0, 0x2C868C69998641int, 0, 43, 0xF7D0DF730AD14BC5int);
    assert(0xF7D0DF730AD13583int * 0xF7D0DF730AD13583int <= 0xEFE4B99BDCDAE9C5int * 0x10000000000000000int);
    assert(0xEFE4B99BDCDB14DCint * 0x10000000000000000int <= 0xF7D0DF730AD14BC5int * 0xF7D0DF730AD14BC5int);
    lemma_chain_upper(0x2C868C6999863Fint, 1, 0xF7D0DF730AD13583int, 43, 64, 0xEFE4B99BDCDAE9C5int);
    lemma_chain_lower(0x2C868C69998641int, 1, 0xF7D0DF730AD14BC5int, 43, 64, 0xEFE4B99BDCDB14DCint);
    assert(0xEFE4B99BDCDAE9C5int * 0xEFE4B99BDCDAE9C5int <= 0xE0CCDEEC2A94CA88int * 0x10000000000000000int);
    assert(0xE0CCDEEC2A951B49int * 0x10000000000000000int <= 0xEFE4B99BDCDB14DCint * 0xEFE4B99BDCDB14DCint);
    lemma_chain_upper(0x2C868C6999863Fint, 2, 0xEFE4B99BDCDAE9C5int, 150, 64, 0xE0CCDEEC2A94CA88int);
    lemma_chain_lower(0x2C868C69998641int, 2, 0xEFE4B99BDCDB14DCint, 150, 64, 0xE0CCDEEC2A951B49int);
    assert(0xE0CCDEEC2A94CA88int * 0xE0CCDEEC2A94CA88int <= 0xC5672A115506B34Aint * 0x10000000000000000int);
    assert(0xC5672A115507411Cint * 0x10000000000000000int <= 0xE0CCDEEC2A951B49int * 0xE0CCDEEC2A951B49int);
    lemma_chain_upper(0x2C868C6999863Fint, 3, 0xE0CCDEEC2A94CA88int, 364, 64, 0xC5672A115506B34Aint);
    lemma_chain_lower(0x2C868C69998641int, 3, 0xE0CCDEEC2A951B49int, 364, 64, 0xC5672A115507411Cint);
    assert(0xC5672A115506B34Aint * 0xC5672A115506B34Aint <= 0x9837F0518DB86C67int * 0x10000000000000000int);
    assert(0x9837F0518DB9471Eint * 0x10000000000000000int <= 0xC5672A115507411Cint * 0xC5672A115507411Cint);
    lemma_chain_upper(0x2C868C6999863Fint, 4, 0xC5672A115506B34Aint, 792, 64, 0x9837F0518DB86C67int);
    lemma_chain_lower(0x2C868C69998641int, 4, 0xC5672A115507411Cint, 792, 64, 0x9837F0518DB9471Eint);
    assert(0x9837F0518DB86C67int * 0x9837F0518DB86C67int <= 0xB504F333F9DDD35Cint * 0x8000000000000000int);
    assert(0xB504F333F9DFDB8Dint * 0x8000000000000000int <= 0x9837F0518DB9471Eint * 0x9837F0518DB9471Eint);
    lemma_chain_upper(0x2C868C6999863Fint, 5, 0x9837F0518DB86C67int, 1648, 63, 0xB504F333F9DDD35Cint);
    lemma_chain_lower(0x2C868C69998641int, 5, 0x9837F0518DB9471Eint, 1648, 63, 0xB504F333F9DFDB8Dint);
    assert(0xB504F333F9DDD35Cint * 0xB504F333F9DDD35Cint <= 0xFFFFFFFFFFFE656Fint * 0x8000000000000000int);
    assert(0x100000000000424C1int * 0x8000000000000000int <= 0xB504F333F9DFDB8Dint * 0xB504F333F9DFDB8Dint);
    lemma_chain_upper(0x2C868C6999863Fint, 6, 0xB504F333F9DDD35Cint, 3359, 63, 0xFFFFFFFFFFFE656Fint);
    lemma_chain_lower(0x2C868C69998641int, 6, 0xB504F333F9DFDB8Dint, 3359, 63, 0x100000000000424C1int);
    lemma_chains_round(0x3FE6_4346_34CC_C320u64, 61, 7, 1, 0x2C868C6999863Fint, 0x2C868C69998641int, 0xFFFFFFFFFFFE656Fint, 0x100000000000424C1int, 6781, 64);
}

/// Boundary 63 of schema 7, checked through its squaring chains.
proof fn rounded_7_63()
    ensures
        rounds_root(0x3FE6_8155_D44C_A973u64, 63, 7),
{
    lemma2_to64();
    lemma2_to64_rest();
    lemma_chain_start(0x2D02ABA89952E5int);
    lemma_chain_start(0x2D02ABA89952E7int);
    assert(0x2D02ABA89952E5int * 0x2D02ABA89952E5int <= 0xFD3E0C0CF486B57Eint * 0x80000000000int);
    assert(0xFD3E0C0CF486CBFEint * 0x80000000000int <= 0x2D02ABA89952E7int * 0x2D02ABA89952E7int);
    lemma_chain_upper(0x2D02ABA89952E5int, 0, 0x2D02ABA89952E5int, 0, 43, 0xFD3E0C0CF486B57Eint);
    lemma_chain_lower(0x2D02ABA89952E7int, 0, 0x2D02ABA89952E7int, 0, 43, 0xFD3E0C0CF486CBFEint);
    assert(0xFD3E0C0CF486B57Eint * 0xFD3E0C0CF486B57Eint <= 0xFA83B2DB7229EB90int * 0x10000000000000000int);
    assert(0xFA83B2DB722A1813int * 0x10000000000000000int <= 0xFD3E0C0CF486CBFEint * 0xFD3E0C0CF486CBFEint);
    lemma_chain_upper(0x2D02ABA89952E5int, 1, 0xFD3E0C0CF486B57Eint, 43, 64, 0xFA83B2DB7229EB90int);
    lemma_chain_lower(0x2D02ABA89952E7int, 1, 0xFD3E0C0CF486CBFEint, 43, 64, 0xFA83B2DB722A1813int);
    assert(0xFA83B2DB7229EB90int * 0xFA83B2DB7229EB90int <= 0xF5257D1524869DDCint * 0x10000000000000000int);
    assert(0xF5257D152486F4F8int * 0x10000000000000000int <= 0xFA83B2DB722A1813int * 0xFA83B2DB722A1813int);
    lemma_chain_upper(0x2D02ABA89952E5int, 2, 0xFA83B2DB7229EB90int, 150, 64, 0xF5257D1524869DDCint);
    lemma_chain_lower(0x2D02ABA89952E7int, 2, 0xFA83B2DB722A1813int, 150, 64, 0xF5257D152486F4F8int);
    assert(0xF5257D1524869DDCint * 0xF5257D1524869DDCint <= 0xEAC0C6E7DD23E07Cint * 0x10000000000000000int);
    assert(0xEAC0C6E7DD248750int * 0x10000000000000000int <= 0xF5257D152486F4F8int * 0xF5257D152486F4F8int);
    lemma_chain_upper(0x2D02ABA89952E5int, 3, 0xF5257D1524869DDCint, 364, 64, 0xEAC0C6E7DD23E07Cint);
    lemma_chain_lower(0x2D02ABA89952E7int, 3, 0xF5257D152486F4F8int, 364, 64, 0xEAC0C6E7DD248750int);
    assert(0xEAC0C6E7DD23E07Cint * 0xEAC0C6E7DD23E07Cint <= 0xD744FCCAD69CC848int * 0x10000000000000000int);
    assert(0xD744FCCAD69DFA3Eint * 0x10000000000000000int <= 0xEAC0C6E7DD248750int * 0xEAC0C6E7DD248750int);
    lemma_chain_upper(0x2D02ABA89952E5int, 4, 0xEAC0C6E7DD23E07Cint, 792, 64, 0xD744FCCAD69CC848int);
    lemma_chain_lower(0x2D02ABA89952E7int, 4, 0xEAC0C6E7DD248750int, 792, 64, 0xD744FCCAD69DFA3Eint);
    assert(0xD744FCCAD69CC848int * 0xD744FCCAD69CC848int <= 0xB504F333F9DD52F0int * 0x10000000000000000int);
    assert(0xB504F333F9DF557Fint * 0x10000000000000000int <= 0xD744FCCAD69DFA3Eint * 0xD744FCCAD69DFA3Eint);
    lemma_chain_upper(0x2D02ABA89952E5int, 5, 0xD744FCCAD69CC848int, 1648, 64, 0xB504F333F9DD52F0int);
    lemma_chain_lower(0x2D02ABA89952E7int, 5, 0xD744FCCAD69DFA3Eint, 1648, 64, 0xB504F333F9DF557Fint);
    assert(0xB504F333F9DD52F0int * 0xB504F333F9DD52F0int <= 0xFFFFFFFFFFFCFA34int * 0x8000000000000000int);
    assert(0x1000000000002A997int * 0x8000000000000000int <= 0xB504F333F9DF557Fint * 0xB504F333F9DF557Fint);
    lemma_chain_upper(0x2D02ABA89952E5int, 6, 0xB504F333F9DD52F0int, 3360, 63, 0xFFFFFFFFFFFCFA34int);
    lemma_chain_lower(0x2D02ABA89952E7int, 6, 0xB504F333F9DF557Fint, 3360, 63, 0x1000000000002A997int);
    lemma_chains_round(0x3FE6_8155_D44C_A973u64, 63, 7, 1, 0x2D02ABA89952E5int, 0x2D02ABA89952E7int, 0xFFFFFFFFFFFCFA34int, 0x1000000000002A997int, 6783, 64);
}

/// Boundary 65 of schema 7, checked through its squaring chains.
proof fn rounded_7_65()
    ensures
        rounds_root(0x3FE6_C012_750B_DABFu64, 65, 7),
{
    lemma2_to64();
    lemma2_to64_rest();
    lemma_chain_start(0x2D8024EA17B57Dint);
    lemma_chain_start(0x2D8024EA17B57Fint);
    assert(0x2D8024EA17B57Dint * 0x2D8024EA17B57Dint <= 0x8164D1F3BC030297int * 0x100000000000int);
    assert(0x8164D1F3BC030DF6int * 0x100000000000int <= 0x2D8024EA17B57Fint * 0x2D8024EA17B57Fint);
    lemma_chain_upper(0x2D8024EA17B57Dint, 0, 0x2D8024EA17B57Dint, 0, 44, 0x8164D1F3BC030297int);
    lemma_chain_lower(0x2D8024EA17B57Fint, 0, 0x2D8024EA17B57Fint, 0, 44, 0x8164D1F3BC030DF6int);
    assert(0x8164D1F3BC030297int * 0x8164D1F3BC030297int <= 0x82CD8698AC2B9804int * 0x8000000000000000int);
    assert(0x82CD8698AC2BAF00int * 0x8000000000000000int <= 0x8164D1F3BC030DF6int * 0x8164D1F3BC030DF6int);
    lemma_chain_upper(0x2D8024EA17B57Dint, 1, 0x8164D1F3BC030297int, 44, 63, 0x82CD8698AC2B9804int);
    lemma_chain_lower(0x2D8024EA17B57Fint, 1, 0x8164D1F3BC030DF6int, 44, 63, 0x82CD8698AC2BAF00int);
    assert(0x82CD8698AC2B9804int * 0x82CD8698AC2B9804int <= 0x85AAC367CC486701int * 0x8000000000000000int);
    assert(0x85AAC367CC4895F9int * 0x8000000000000000int <= 0x82CD8698AC2BAF00int * 0x82CD8698AC2BAF00int);
    lemma_chain_upper(0x2D8024EA17B57Dint, 2, 0x82CD8698AC2B9804int, 151, 63, 0x85AAC367CC486701int);
    lemma_chain_lower(0x2D8024EA17B57Fint, 2, 0x82CD8698AC2BAF00int, 151, 63, 0x85AAC367CC4895F9int);
    assert(0x85AAC367CC486701int * 0x85AAC367CC486701int <= 0x8B95C1E3EA8BACF9int * 0x8000000000000000int);
    assert(0x8B95C1E3EA8C0F11int * 0x8000000000000000int <= 0x85AAC367CC4895F9int * 0x85AAC367CC4895F9int);
    lemma_chain_upper(0x2D8024EA17B57Dint, 3, 0x85AAC367CC486701int, 365, 63, 0x8B95C1E3EA8BACF9int);
    lemma_chain_lower(0x2D8024EA17B57Fint, 3, 0x85AAC367CC4895F9int, 365, 63, 0x8B95C1E3EA8C0F11int);
    assert(0x8B95C1E3EA8BACF9int * 0x8B95C1E3EA8BACF9int <= 0x9837F0518DB84DFDint * 0x8000000000000000int);
    assert(0x9837F0518DB923EDint * 0x8000000000000000int <= 0x8B95C1E3EA8C0F11int * 0x8B95C1E3EA8C0F11int);
    lemma_chain_upper(0x2D8024EA17B57Dint, 4, 0x8B95C1E3EA8BACF9int, 793, 63, 0x9837F0518DB84DFDint);
    lemma_chain_lower(0x2D8024EA17B57Fint, 4, 0x8B95C1E3EA8C0F11int, 793, 63, 0x9837F0518DB923EDint);
    assert(0x9837F0518DB84DFDint * 0x9837F0518DB84DFDint <= 0xB504F333F9DD8B06int * 0x8000000000000000int);
    assert(0xB504F333F9DF87DAint * 0x8000000000000000int <= 0x9837F0518DB923EDint * 0x9837F0518DB923EDint);
    lemma_chain_upper(0x2D8024EA17B57Dint, 5, 0x9837F0518DB84DFDint, 1649, 63, 0xB504F333F9DD8B06int);
    lemma_chain_lower(0x2D8024EA17B57Fint, 5, 0x9837F0518DB923EDint, 1649, 63, 0xB504F333F9DF87DAint);
    assert(0xB504F333F9DD8B06int * 0xB504F333F9DD8B06int <= 0xFFFFFFFFFFFD98D6int * 0x8000000000000000int);
    assert(0x10000000000033804int * 0x8000000000000000int <= 0xB504F333F9DF87DAint * 0xB504F333F9DF87DAint);
    lemma_chain_upper(0x2D8024EA17B57Dint, 6, 0xB504F333F9DD8B06int, 3361, 63, 0xFFFFFFFFFFFD98D6int);
    lemma_chain_lower(0x2D8024EA17B57Fint, 6, 0xB504F333F9DF87DAint, 3361, 63, 0x10000000000033804int);
    lemma_chains_round(0x3FE6_C012_750B_DABFu64, 65, 7, 1, 0x2D8024EA17B57Dint, 0x2D8024EA17B57Fint, 0xFFFFFFFFFFFD98D6int, 0x10000000000033804int, 6785, 64);
}

/// Boundary 67 of schema 7, checked through its squaring chains.
proof fn rounded_7_67()
    ensures
        rounds_root(0x3FE6_FF7D_F951_9484u64, 67, 7),
{
    lemma2_to64();
    lemma2_to64_rest();
    lemma_chain_start(0x2DFEFBF2A32907int);
    lemma_chain_start(0x2DFEFBF2A32909int);
    assert(0x2DFEFBF2A32907int * 0x2DFEFBF2A32907int <= 0x843A28C3ACDE3CB4int * 0x100000000000int);
    assert(0x843A28C3ACDE4833int * 0x100000000000int <= 0x2DFEFBF2A32909int * 0x2DFEFBF2A32909int);
    lemma_chain_upper(0x2DFEFBF2A32907int, 0, 0x2DFEFBF2A32907int, 0, 44, 0x843A28C3ACDE3CB4int);
    lemma_chain_lower(0x2DFEFBF2A32909int, 0, 0x2DFEFBF2A32909int, 0, 44, 0x843A28C3ACDE4833int);
    assert(0x843A28C3ACDE3CB4int * 0x843A28C3ACDE3CB4int <= 0x88980E8092DA7DC7int * 0x8000000000000000int);
    assert(0x88980E8092DA9587int * 0x8000000000000000int <= 0x843A28C3ACDE4833int * 0x843A28C3ACDE4833int);
    lemma_chain_upper(0x2DFEFBF2A32907int, 1, 0x843A28C3ACDE3CB4int, 44, 63, 0x88980E8092DA7DC7int);
    lemma_chain_lower(0x2DFEFBF2A32909int, 1, 0x843A28C3ACDE4833int, 44, 63, 0x88980E8092DA9587int);
    assert(0x88980E8092DA7DC7int * 0x88980E8092DA7DC7int <= 0x91C3D373AB11B378int * 0x8000000000000000int);
    assert(0x91C3D373AB11E628int * 0x8000000000000000int <= 0x88980E8092DA9587int * 0x88980E8092DA9587int);
    lemma_chain_upper(0x2DFEFBF2A32907int, 2, 0x88980E8092DA7DC7int, 151, 63, 0x91C3D373AB11B378int);
    lemma_chain_lower(0x2DFEFBF2A32909int, 2, 0x88980E8092DA9587int, 151, 63, 0x91C3D373AB11E628int);
    assert(0x91C3D373AB11B378int * 0x91C3D373AB11B378int <= 0xA5FED6A9B1511510int * 0x8000000000000000int);
    assert(0xA5FED6A9B1518881int * 0x8000000000000000int <= 0x91C3D373AB11E628int * 0x91C3D373AB11E628int);
    lemma_chain_upper(0x2DFEFBF2A32907int, 3, 0x91C3D373AB11B378int, 365, 63, 0xA5FED6A9B1511510int);
    lemma_chain_lower(0x2DFEFBF2A32909int, 3, 0x91C3D373AB11E628int, 365, 63, 0xA5FED6A9B1518881int);
    assert(0xA5FED6A9B1511510int * 0xA5FED6A9B1511510int <= 0xD744FCCAD69D0DF8int * 0x8000000000000000int);
    assert(0xD744FCCAD69E3962int * 0x8000000000000000int <= 0xA5FED6A9B1518881int * 0xA5FED6A9B1518881int);
    lemma_chain_upper(0x2DFEFBF2A32907int, 4, 0xA5FED6A9B1511510int, 793, 63, 0xD744FCCAD69D0DF8int);
    lemma_chain_lower(0x2DFEFBF2A32909int, 4, 0xA5FED6A9B1518881int, 793, 63, 0xD744FCCAD69E3962int);
    assert(0xD744FCCAD69D0DF8int * 0xD744FCCAD69D0DF8int <= 0xB504F333F9DDC823int * 0x10000000000000000int);
    assert(0xB504F333F9DFBFAFint * 0x10000000000000000int <= 0xD744FCCAD69E3962int * 0xD744FCCAD69E3962int);
    lemma_chain_upper(0x2DFEFBF2A32907int, 5, 0xD744FCCAD69D0DF8int, 1649, 64, 0xB504F333F9DDC823int);
    lemma_chain_lower(0x2DFEFBF2A32909int, 5, 0xD744FCCAD69E3962int, 1649, 64, 0xB504F333F9DFBFAFint);
    assert(0xB504F333F9DDC823int * 0xB504F333F9DDC823int <= 0xFFFFFFFFFFFE45B1int * 0x8000000000000000int);
    assert(0x1000000000003D5EFint * 0x8000000000000000int <= 0xB504F333F9DFBFAFint * 0xB504F333F9DFBFAFint);
    lemma_chain_upper(0x2DFEFBF2A32907int, 6, 0xB504F333F9DDC823int, 3362, 63, 0xFFFFFFFFFFFE45B1int);
    lemma_chain_lower(0x2DFEFBF2A32909int, 6, 0xB504F333F9DFBFAFint, 3362, 63, 0x1000000000003D5EFint);
    lemma_chains_round(0x3FE6_FF7D_F951_9484u64, 67, 7, 1, 0x2DFEFBF2A32907int, 0x2DFEFBF2A32909int, 0xFFFFFFFFFFFE45B1int, 0x1000000000003D5EFint, 6787, 64);
}

/// Boundary 69 of schema 7, checked through its squaring chains.
proof fn rounded_7_69()
    ensures
        rounds_root(0x3FE7_3F9A_48A5_8174u64, 69, 7),
{
    lemma2_to64();
    lemma2_to64_rest();
    lemma_chain_start(0x2E7F34914B02E7int);
    lemma_chain_start(0x2E7F34914B02E9int);
    assert(0x2E7F34914B02E7int * 0x2E7F34914B02E7int <= 0x871F61969E8D0D47int * 0x100000000000int);
    assert(0x871F61969E8D18E6int * 0x100000000000int <= 0x2E7F34914B02E9int * 0x2E7F34914B02E9int);
    lemma_chain_upper(0x2E7F34914B02E7int, 0, 0x2E7F34914B02E7int, 0, 44, 0x871F61969E8D0D47int);
    lemma_chain_lower(0x2E7F34914B02E9int, 0, 0x2E7F34914B02E9int, 0, 44, 0x871F61969E8D18E6int);
    assert(0x871F61969E8D0D47int * 0x871F61969E8D0D47int <= 0x8EA4398B45CD4DDFint * 0x8000000000000000int);
    assert(0x8EA4398B45CD6667int * 0x8000000000000000int <= 0x871F61969E8D18E6int * 0x871F61969E8D18E6int);
    lemma_chain_upper(0x2E7F34914B02E7int, 1, 0x871F61969E8D0D47int, 44, 63, 0x8EA4398B45CD4DDFint);
    lemma_chain_lower(0x2E7F34914B02E9int, 1, 0x871F61969E8D18E6int, 44, 63, 0x8EA4398B45CD6667int);
    assert(0x8EA4398B45CD4DDFint * 0x8EA4398B45CD4DDFint <= 0x9EF5326091A10493int * 0x8000000000000000int);
    assert(0x9EF5326091A13B3Fint * 0x8000000000000000int <= 0x8EA4398B45CD6667int * 0x8EA4398B45CD6667int);
    lemma_chain_upper(0x2E7F34914B02E7int, 2, 0x8EA4398B45CD4DDFint, 151, 63, 0x9EF5326091A10493int);
    lemma_chain_lower(0x2E7F34914B02E9int, 2, 0x8EA4398B45CD6667int, 151, 63, 0x9EF5326091A13B3Fint);
    assert(0x9EF5326091A10493int * 0x9EF5326091A10493int <= 0xC5672A115506BA52int * 0x8000000000000000int);
    assert(0xC5672A115507421Bint * 0x8000000000000000int <= 0x9EF5326091A13B3Fint * 0x9EF5326091A13B3Fint);
    lemma_chain_upper(0x2E7F34914B02E7int, 3, 0x9EF5326091A10493int, 365, 63, 0xC5672A115506BA52int);
    lemma_chain_lower(0x2E7F34914B02E9int, 3, 0x9EF5326091A13B3Fint, 365, 63, 0xC5672A115507421Bint);
    assert(0xC5672A115506BA52int * 0xC5672A115506BA52int <= 0x9837F0518DB8773Fint * 0x10000000000000000int);
    assert(0x9837F0518DB948A7int * 0x10000000000000000int <= 0xC5672A115507421Bint * 0xC5672A115507421Bint);
    lemma_chain_upper(0x2E7F34914B02E7int, 4, 0xC5672A115506BA52int, 793, 64, 0x9837F0518DB8773Fint);
    lemma_chain_lower(0x2E7F34914B02E9int, 4, 0xC5672A115507421Bint, 793, 64, 0x9837F0518DB948A7int);
    assert(0x9837F0518DB8773Fint * 0x9837F0518DB8773Fint <= 0xB504F333F9DDED26int * 0x8000000000000000int);
    assert(0xB504F333F9DFDF33int * 0x8000000000000000int <= 0x9837F0518DB948A7int * 0x9837F0518DB948A7int);
    lemma_chain_upper(0x2E7F34914B02E7int, 5, 0x9837F0518DB8773Fint, 1650, 63, 0xB504F333F9DDED26int);
    lemma_chain_lower(0x2E7F34914B02E9int, 5, 0x9837F0518DB948A7int, 1650, 63, 0xB504F333F9DFDF33int);
    assert(0xB504F333F9DDED26int * 0xB504F333F9DDED26int <= 0xFFFFFFFFFFFEAE60int * 0x8000000000000000int);
    assert(0x10000000000042F13int * 0x8000000000000000int <= 0xB504F333F9DFDF33int * 0xB504F333F9DFDF33int);
    lemma_chain_upper(0x2E7F34914B02E7int, 6, 0xB504F333F9DDED26int, 3363, 63, 0xFFFFFFFFFFFEAE60int);
    lemma_chain_lower(0x2E7F34914B02E9int, 6, 0xB504F333F9DFDF33int, 3363, 63, 0x10000000000042F13int);
    lemma_chains_round(0x3FE7_3F9A_48A5_8174u64, 69, 7, 1, 0x2E7F34914B02E7int, 0x2E7F34914B02E9int, 0xFFFFFFFFFFFEAE60int, 0x10000000000042F13int, 6789, 64);
}

/// Boundary 71 of schema 7, checked through its squaring chains.
proof fn rounded_7_71()
    ensures
        rounds_root(0x3FE7_8069_4FDE_5D3Fu64, 71, 7),
{
    lemma2_to64();
    lemma2_to64_rest();
    lemma_chain_start(0x2F00D29FBCBA7Dint);
    lemma_chain_start(0x2F00D29FBCBA7Fint);
    assert(0x2F00D29FBCBA7Dint * 0x2F00D29FBCBA7Dint <= 0x8A14D575496EF33Fint * 0x100000000000int);
    assert(0x8A14D575496EFEFFint * 0x100000000000int <= 0x2F00D29FBCBA7Fint * 0x2F00D29FBCBA7Fint);
    lemma_chain_upper(0x2F00D29FBCBA7Dint, 0, 0x2F00D29FBCBA7Dint, 0, 44, 0x8A14D575496EF33Fint);
    lemma_chain_lower(0x2F00D29FBCBA7Fint, 0, 0x2F00D29FBCBA7Fint, 0, 44, 0x8A14D575496EFEFFint);
    assert(0x8A14D575496EF33Fint * 0x8A14D575496EF33Fint <= 0x94F4EFA8FEF6F30Aint * 0x8000000000000000int);
    assert(0x94F4EFA8FEF70C63int * 0x8000000000000000int <= 0x8A14D575496EFEFFint * 0x8A14D575496EFEFFint);
    lemma_chain_upper(0x2F00D29FBCBA7Dint, 1, 0x8A14D575496EF33Fint, 44, 63, 0x94F4EFA8FEF6F30Aint);
    lemma_chain_lower(0x2F00D29FBCBA7Fint, 1, 0x8A14D575496EFEFFint, 44, 63, 0x94F4EFA8FEF70C63int);
    assert(0x94F4EFA8FEF6F30Aint * 0x94F4EFA8FEF6F30Aint <= 0xAD583EEA42A116C8int * 0x8000000000000000int);
    assert(0xAD583EEA42A151C6int * 0x8000000000000000int <= 0x94F4EFA8FEF70C63int * 0x94F4EFA8FEF70C63int);
    lemma_chain_upper(0x2F00D29FBCBA7Dint, 2, 0x94F4EFA8FEF6F30Aint, 151, 63, 0xAD583EEA42A116C8int);
    lemma_chain_lower(0x2F00D29FBCBA7Fint, 2, 0x94F4EFA8FEF70C63int, 151, 63, 0xAD583EEA42A151C6int);
    assert(0xAD583EEA42A116C8int * 0xAD583EEA42A116C8int <= 0xEAC0C6E7DD23AC5Cint * 0x8000000000000000int);
    assert(0xEAC0C6E7DD244C23int * 0x8000000000000000int <= 0xAD583EEA42A151C6int * 0xAD583EEA42A151C6int);
    lemma_chain_upper(0x2F00D29FBCBA7Dint, 3, 0xAD583EEA42A116C8int, 365, 63, 0xEAC0C6E7DD23AC5Cint);
    lemma_chain_lower(0x2F00D29FBCBA7Fint, 3, 0xAD583EEA42A151C6int, 365, 63, 0xEAC0C6E7DD244C23int);
    assert(0xEAC0C6E7DD23AC5Cint * 0xEAC0C6E7DD23AC5Cint <= 0xD744FCCAD69C68AFint * 0x10000000000000000int);
    assert(0xD744FCCAD69D8DB7int * 0x10000000000000000int <= 0xEAC0C6E7DD244C23int * 0xEAC0C6E7DD244C23int);
    lemma_chain_upper(0x2F00D29FBCBA7Dint, 4, 0xEAC0C6E7DD23AC5Cint, 793, 64, 0xD744FCCAD69C68AFint);
    lemma_chain_lower(0x2F00D29FBCBA7Fint, 4, 0xEAC0C6E7DD244C23int, 793, 64, 0xD744FCCAD69D8DB7int);
    assert(0xD744FCCAD69C68AFint * 0xD744FCCAD69C68AFint <= 0xB504F333F9DCB229int * 0x10000000000000000int);
    assert(0xB504F333F9DE9EFAint * 0x10000000000000000int <= 0xD744FCCAD69D8DB7int * 0xD744FCCAD69D8DB7int);
    lemma_chain_upper(0x2F00D29FBCBA7Dint, 5, 0xD744FCCAD69C68AFint, 1650, 64, 0xB504F333F9DCB229int);
    lemma_chain_lower(0x2F00D29FBCBA7Fint, 5, 0xD744FCCAD69D8DB7int, 1650, 64, 0xB504F333F9DE9EFAint);
    assert(0xB504F333F9DCB229int * 0xB504F333F9DCB229int <= 0xFFFFFFFFFFFB3375int * 0x8000000000000000int);
    assert(0x1000000000000A559int * 0x8000000000000000int <= 0xB504F333F9DE9EFAint * 0xB504F333F9DE9EFAint);
    lemma_chain_upper(0x2F00D29FBCBA7Dint, 6, 0xB504F333F9DCB229int, 3364, 63, 0xFFFFFFFFFFFB3375int);
    lemma_chain_lower(0x2F00D29FBCBA7Fint, 6, 0xB504F333F9DE9EFAint, 3364, 63, 0x1000000000000A559int);
    lemma_chains_round(0x3FE7_8069_4FDE_5D3Fu64, 71, 7, 1, 0x2F00D29FBCBA7Dint, 0x2F00D29FBCBA7Fint, 0xFFFFFFFFFFFB3375int, 0x1000000000000A559int, 6791, 64);
}

/// Boundary 73 of schema 7, checked through its squaring chains.
proof fn rounded_7_73()
    ensures
        rounds_root(0x3FE7_C1ED_0130_C132u64, 73, 7),
{
    lemma2_to64();
    lemma2_to64_rest();
    lemma_chain_start(0x2F83DA02618263int);
    lemma_chain_start(0x2F83DA02618265int);
    assert(0x2F83DA02618263int * 0x2F83DA02618263int <= 0x8D1ADF5B7E5B9E31int * 0x100000000000int);
    assert(0x8D1ADF5B7E5BAA11int * 0x100000000000int <= 0x2F83DA02618265int * 0x2F83DA02618265int);
    lemma_chain_upper(0x2F83DA02618263int, 0, 0x2F83DA02618263int, 0, 44, 0x8D1ADF5B7E5B9E31int);
    lemma_chain_lower(0x2F83DA02618265int, 0, 0x2F83DA02618265int, 0, 44, 0x8D1ADF5B7E5BAA11int);
    assert(0x8D1ADF5B7E5B9E31int * 0x8D1ADF5B7E5B9E31int <= 0x9B8D39B9D54E3B6Aint * 0x8000000000000000int);
    assert(0x9B8D39B9D54E5598int * 0x8000000000000000int <= 0x8D1ADF5B7E5BAA11int * 0x8D1ADF5B7E5BAA11int);
    lemma_chain_upper(0x2F83DA02618263int, 1, 0x8D1ADF5B7E5B9E31int, 44, 63, 0x9B8D39B9D54E3B6Aint);
    lemma_chain_lower(0x2F83DA02618265int, 1, 0x8D1ADF5B7E5BAA11int, 44, 63, 0x9B8D39B9D54E5598int);
    assert(0x9B8D39B9D54E3B6Aint * 0x9B8D39B9D54E3B6Aint <= 0xBD08A39F580BF806int * 0x8000000000000000int);
    assert(0xBD08A39F580C37A6int * 0x8000000000000000int <= 0x9B8D39B9D54E5598int * 0x9B8D39B9D54E5598int);
    lemma_chain_upper(0x2F83DA02618263int, 2, 0x9B8D39B9D54E3B6Aint, 151, 63, 0xBD08A39F580BF806int);
    lemma_chain_lower(0x2F83DA02618265int, 2, 0x9B8D39B9D54E5598int, 151, 63, 0xBD08A39F580C37A6int);
    assert(0xBD08A39F580BF806int * 0xBD08A39F580BF806int <= 0x8B95C1E3EA8B7A47int * 0x10000000000000000int);
    assert(0x8B95C1E3EA8BD83Cint * 0x10000000000000000int <= 0xBD08A39F580C37A6int * 0xBD08A39F580C37A6int);
    lemma_chain_upper(0x2F83DA02618263int, 3, 0xBD08A39F580BF806int, 365, 64, 0x8B95C1E3EA8B7A47int);
    lemma_chain_lower(0x2F83DA02618265int, 3, 0xBD08A39F580C37A6int, 365, 64, 0x8B95C1E3EA8BD83Cint);
    assert(0x8B95C1E3EA8B7A47int * 0x8B95C1E3EA8B7A47int <= 0x9837F0518DB7DF6Cint * 0x8000000000000000int);
    assert(0x9837F0518DB8AC57int * 0x8000000000000000int <= 0x8B95C1E3EA8BD83Cint * 0x8B95C1E3EA8BD83Cint);
    lemma_chain_upper(0x2F83DA02618263int, 4, 0x8B95C1E3EA8B7A47int, 794, 63, 0x9837F0518DB7DF6Cint);
    lemma_chain_lower(0x2F83DA02618265int, 4, 0x8B95C1E3EA8BD83Cint, 794, 63, 0x9837F0518DB8AC57int);
    assert(0x9837F0518DB7DF6Cint * 0x9837F0518DB7DF6Cint <= 0xB504F333F9DC840Dint * 0x8000000000000000int);
    assert(0xB504F333F9DE6B6Dint * 0x8000000000000000int <= 0x9837F0518DB8AC57int * 0x9837F0518DB8AC57int);
    lemma_chain_upper(0x2F83DA02618263int, 5, 0x9837F0518DB7DF6Cint, 1651, 63, 0xB504F333F9DC840Dint);
    lemma_chain_lower(0x2F83DA02618265int, 5, 0x9837F0518DB8AC57int, 1651, 63, 0xB504F333F9DE6B6Dint);
    assert(0xB504F333F9DC840Dint * 0xB504F333F9DC840Dint <= 0xFFFFFFFFFFFAB10Aint * 0x8000000000000000int);
    assert(0x1000000000000138Aint * 0x8000000000000000int <= 0xB504F333F9DE6B6Dint * 0xB504F333F9DE6B6Dint);
    lemma_chain_upper(0x2F83DA02618263int, 6, 0xB504F333F9DC840Dint, 3365, 63, 0xFFFFFFFFFFFAB10Aint);
    lemma_chain_lower(0x2F83DA02618265int, 6, 0xB504F333F9DE6B6Dint, 3365, 63, 0x1000000000000138Aint);
    lemma_chains_round(0x3FE7_C1ED_0130_C132u64, 73, 7, 1, 0x2F83DA02618263int, 0x2F83DA02618265int, 0xFFFFFFFFFFFAB10Aint, 0x1000000000000138Aint, 6793, 64);
}

/// Boundary 75 of schema 7, checked through its squaring chains.
proof fn rounded_7_75()
    ensures
        rounds_root(0x3FE8_0427_543E_1A12u64, 75, 7),
{
    lemma2_to64();
    lemma2_to64_rest();
    lemma_chain_start(0x30084EA87C3423int);
    lemma_chain_start(0x30084EA87C3425int);
    assert(0x30084EA87C3423int * 0x30084EA87C3423int <= 0x9031DC431466AF54int * 0x100000000000int);
    assert(0x9031DC431466BB55int * 0x100000000000int <= 0x30084EA87C3425int * 0x30084EA87C3425int);
    lemma_chain_upper(0x30084EA87C3423int, 0, 0x30084EA87C3423int, 0, 44, 0x9031DC431466AF54int);
    lemma_chain_lower(0x30084EA87C3425int, 0, 0x30084EA87C3425int, 0, 44, 0x9031DC431466BB55int);
    assert(0x9031DC431466AF54int * 0x9031DC431466AF54int <= 0xA27043030C496264int * 0x8000000000000000int);
    assert(0xA27043030C497D6Fint * 0x8000000000000000int <= 0x9031DC431466BB55int * 0x9031DC431466BB55int);
    lemma_chain_upper(0x30084EA87C3423int, 1, 0x9031DC431466AF54int, 44, 63, 0xA27043030C496264int);
    lemma_chain_lower(0x30084EA87C3425int, 1, 0x9031DC431466BB55int, 44, 63, 0xA27043030C497D6Fint);
    assert(0xA27043030C496264int * 0xA27043030C496264int <= 0xCE248C151F847269int * 0x8000000000000000int);
    assert(0xCE248C151F84B70Bint * 0x8000000000000000int <= 0xA27043030C497D6Fint * 0xA27043030C497D6Fint);
    lemma_chain_upper(0x30084EA87C3423int, 2, 0xA27043030C496264int, 151, 63, 0xCE248C151F847269int);
    lemma_chain_lower(0x30084EA87C3425int, 2, 0xA27043030C497D6Fint, 151, 63, 0xCE248C151F84B70Bint);
    assert(0xCE248C151F847269int * 0xCE248C151F847269int <= 0xA5FED6A9B1512199int * 0x10000000000000000int);
    assert(0xA5FED6A9B1519020int * 0x10000000000000000int <= 0xCE248C151F84B70Bint * 0xCE248C151F84B70Bint);
    lemma_chain_upper(0x30084EA87C3423int, 3, 0xCE248C151F847269int, 365, 64, 0xA5FED6A9B1512199int);
    lemma_chain_lower(0x30084EA87C3425int, 3, 0xCE248C151F84B70Bint, 365, 64, 0xA5FED6A9B1519020int);
    assert(0xA5FED6A9B1512199int * 0xA5FED6A9B1512199int <= 0xD744FCCAD69D2E7Bint * 0x8000000000000000int);
    assert(0xD744FCCAD69E4D26int * 0x8000000000000000int <= 0xA5FED6A9B1519020int * 0xA5FED6A9B1519020int);
    lemma_chain_upper(0x30084EA87C3423int, 4, 0xA5FED6A9B1512199int, 794, 63, 0xD744FCCAD69D2E7Bint);
    lemma_chain_lower(0x30084EA87C3425int, 4, 0xA5FED6A9B1519020int, 794, 63, 0xD744FCCAD69E4D26int);
    assert(0xD744FCCAD69D2E7Bint * 0xD744FCCAD69D2E7Bint <= 0xB504F333F9DDFED1int * 0x10000000000000000int);
    assert(0xB504F333F9DFE0EDint * 0x10000000000000000int <= 0xD744FCCAD69E4D26int * 0xD744FCCAD69E4D26int);
    lemma_chain_upper(0x30084EA87C3423int, 5, 0xD744FCCAD69D2E7Bint, 1651, 64, 0xB504F333F9DDFED1int);
    lemma_chain_lower(0x30084EA87C3425int, 5, 0xD744FCCAD69E4D26int, 1651, 64, 0xB504F333F9DFE0EDint);
    assert(0xB504F333F9DDFED1int * 0xB504F333F9DDFED1int <= 0xFFFFFFFFFFFEE059int * 0x8000000000000000int);
    assert(0x100000000000433F5int * 0x8000000000000000int <= 0xB504F333F9DFE0EDint * 0xB504F333F9DFE0EDint);
    lemma_chain_upper(0x30084EA87C3423int, 6, 0xB504F333F9DDFED1int, 3366, 63, 0xFFFFFFFFFFFEE059int);
    lemma_chain_lower(0x30084EA87C3425int, 6, 0xB504F333F9DFE0EDint, 3366, 63, 0x100000000000433F5int);
    lemma_chains_round(0x3FE8_0427_543E_1A12u64, 75, 7, 1, 0x30084EA87C3423int, 0x30084EA87C3425int, 0xFFFFFFFFFFFEE059int, 0x100000000000433F5int, 6795, 64);
}

/// Boundary 77 of schema 7, checked through its squaring chains.
proof fn rounded_7_77()
    ensures
        rounds_root(0x3FE8_471A_4623_C7ADu64, 77, 7),
{
    lemma2_to64();
    lemma2_to64_rest();
    lemma_chain_start(0x308E348C478F59int);
    lemma_chain_start(0x308E348C478F5Bint);
    assert(0x308E348C478F59int * 0x308E348C478F59int <= 0x935A2B2F13E6E576int * 0x100000000000int);
    assert(0x935A2B2F13E6F198int * 0x100000000000int <= 0x308E348C478F5Bint * 0x308E348C478F5Bint);
    lemma_chain_upper(0x308E348C478F59int, 0, 0x308E348C478F59int, 0, 44, 0x935A2B2F13E6E576int);
    lemma_chain_lower(0x308E348C478F5Bint, 0, 0x308E348C478F5Bint, 0, 44, 0x935A2B2F13E6F198int);
    assert(0x935A2B2F13E6E576int * 0x935A2B2F13E6E576int <= 0xA9A15AB4EA7C066Eint * 0x8000000000000000int);
    assert(0xA9A15AB4EA7C225Cint * 0x8000000000000000int <= 0x935A2B2F13E6F198int * 0x935A2B2F13E6F198int);
    lemma_chain_upper(0x308E348C478F59int, 1, 0x935A2B2F13E6E576int, 44, 63, 0xA9A15AB4EA7C066Eint);
    lemma_chain_lower(0x308E348C478F5Bint, 1, 0x935A2B2F13E6F198int, 44, 63, 0xA9A15AB4EA7C225Cint);
    assert(0xA9A15AB4EA7C066Eint * 0xA9A15AB4EA7C066Eint <= 0xE0CCDEEC2A94CA6Fint * 0x8000000000000000int);
    assert(0xE0CCDEEC2A951475int * 0x8000000000000000int <= 0xA9A15AB4EA7C225Cint * 0xA9A15AB4EA7C225Cint);
    lemma_chain_upper(0x308E348C478F59int, 2, 0xA9A15AB4EA7C066Eint, 151, 63, 0xE0CCDEEC2A94CA6Fint);
    lemma_chain_lower(0x308E348C478F5Bint, 2, 0xA9A15AB4EA7C225Cint, 151, 63, 0xE0CCDEEC2A951475int);
    assert(0xE0CCDEEC2A94CA6Fint * 0xE0CCDEEC2A94CA6Fint <= 0xC5672A115506B31Eint * 0x10000000000000000int);
    assert(0xC5672A115507351Eint * 0x10000000000000000int <= 0xE0CCDEEC2A951475int * 0xE0CCDEEC2A951475int);
    lemma_chain_upper(0x308E348C478F59int, 3, 0xE0CCDEEC2A94CA6Fint, 365, 64, 0xC5672A115506B31Eint);
    lemma_chain_lower(0x308E348C478F5Bint, 3, 0xE0CCDEEC2A951475int, 365, 64, 0xC5672A115507351Eint);
    assert(0xC5672A115506B31Eint * 0xC5672A115506B31Eint <= 0x9837F0518DB86C23int * 0x10000000000000000int);
    assert(0x9837F0518DB9349Fint * 0x10000000000000000int <= 0xC5672A115507351Eint * 0xC5672A115507351Eint);
    lemma_chain_upper(0x308E348C478F59int, 4, 0xC5672A115506B31Eint, 794, 64, 0x9837F0518DB86C23int);
    lemma_chain_lower(0x308E348C478F5Bint, 4, 0xC5672A115507351Eint, 794, 64, 0x9837F0518DB9349Fint);
    assert(0x9837F0518DB86C23int * 0x9837F0518DB86C23int <= 0xB504F333F9DDD2BAint * 0x8000000000000000int);
    assert(0xB504F333F9DFAF8Fint * 0x8000000000000000int <= 0x9837F0518DB9349Fint * 0x9837F0518DB9349Fint);
    lemma_chain_upper(0x308E348C478F59int, 5, 0x9837F0518DB86C23int, 1652, 63, 0xB504F333F9DDD2BAint);
    lemma_chain_lower(0x308E348C478F5Bint, 5, 0x9837F0518DB9349Fint, 1652, 63, 0xB504F333F9DFAF8Fint);
    assert(0xB504F333F9DDD2BAint * 0xB504F333F9DDD2BAint <= 0xFFFFFFFFFFFE63A5int * 0x8000000000000000int);
    assert(0x1000000000003A853int * 0x8000000000000000int <= 0xB504F333F9DFAF8Fint * 0xB504F333F9DFAF8Fint);
    lemma_chain_upper(0x308E348C478F59int, 6, 0xB504F333F9DDD2BAint, 3367, 63, 0xFFFFFFFFFFFE63A5int);
    lemma_chain_lower(0x308E348C478F5Bint, 6, 0xB504F333F9DFAF8Fint, 3367, 63, 0x1000000000003A853int);
    lemma_chains_round(0x3FE8_471A_4623_C7ADu64, 77, 7, 1, 0x308E348C478F59int, 0x308E348C478F5Bint, 0xFFFFFFFFFFFE63A5int, 0x1000000000003A853int, 6797, 64);
}

/// Boundary 79 of schema 7, checked through its squaring chains.
proof fn rounded_7_79()
    ensures
        rounds_root(0x3FE8_8AC7_D98A_6699u64, 79, 7),
{
    lemma2_to64();
    lemma2_to64_rest();
    lemma_chain_start(0x31158FB314CD31int);
    lemma_chain_start(0x31158FB314CD33int);
    assert(0x31158FB314CD31int * 0x31158FB314CD31int <= 0x96942D3720184EF6int * 0x100000000000int);
    assert(0x96942D3720185B3Bint * 0x100000000000int <= 0x31158FB314CD33int * 0x31158FB314CD33int);
    lemma_chain_upper(0x31158FB314CD31int, 0, 0x31158FB314CD31int, 0, 44, 0x96942D3720184EF6int);
    lemma_chain_lower(0x31158FB314CD33int, 0, 0x31158FB314CD33int, 0, 44, 0x96942D3720185B3Bint);
    assert(0x96942D3720184EF6int * 0x96942D3720184EF6int <= 0xB123F581D2AC0B96int * 0x8000000000000000int);
    assert(0xB123F581D2AC2873int * 0x8000000000000000int <= 0x96942D3720185B3Bint * 0x96942D3720185B3Bint);
    lemma_chain_upper(0x31158FB314CD31int, 1, 0x96942D3720184EF6int, 44, 63, 0xB123F581D2AC0B96int);
    lemma_chain_lower(0x31158FB314CD33int, 1, 0x96942D3720185B3Bint, 44, 63, 0xB123F581D2AC2873int);
    assert(0xB123F581D2AC0B96int * 0xB123F581D2AC0B96int <= 0xF5257D1524868448int * 0x8000000000000000int);
    assert(0xF5257D152486D42Bint * 0x8000000000000000int <= 0xB123F581D2AC2873int * 0xB123F581D2AC2873int);
    lemma_chain_upper(0x31158FB314CD31int, 2, 0xB123F581D2AC0B96int, 151, 63, 0xF5257D1524868448int);
    lemma_chain_lower(0x31158FB314CD33int, 2, 0xB123F581D2AC2873int, 151, 63, 0xF5257D152486D42Bint);
    assert(0xF5257D1524868448int * 0xF5257D1524868448int <= 0xEAC0C6E7DD23AF7Fint * 0x10000000000000000int);
    assert(0xEAC0C6E7DD24487Eint * 0x10000000000000000int <= 0xF5257D152486D42Bint * 0xF5257D152486D42Bint);
    lemma_chain_upper(0x31158FB314CD31int, 3, 0xF5257D1524868448int, 365, 64, 0xEAC0C6E7DD23AF7Fint);
    lemma_chain_lower(0x31158FB314CD33int, 3, 0xF5257D152486D42Bint, 365, 64, 0xEAC0C6E7DD24487Eint);
    assert(0xEAC0C6E7DD23AF7Fint * 0xEAC0C6E7DD23AF7Fint <= 0xD744FCCAD69C6E70int * 0x10000000000000000int);
    assert(0xD744FCCAD69D8708int * 0x10000000000000000int <= 0xEAC0C6E7DD24487Eint * 0xEAC0C6E7DD24487Eint);
    lemma_chain_upper(0x31158FB314CD31int, 4, 0xEAC0C6E7DD23AF7Fint, 794, 64, 0xD744FCCAD69C6E70int);
    lemma_chain_lower(0x31158FB314CD33int, 4, 0xEAC0C6E7DD24487Eint, 794, 64, 0xD744FCCAD69D8708int);
    assert(0xD744FCCAD69C6E70int * 0xD744FCCAD69C6E70int <= 0xB504F333F9DCBBD7int * 0x10000000000000000int);
    assert(0xB504F333F9DE93BCint * 0x10000000000000000int <= 0xD744FCCAD69D8708int * 0xD744FCCAD69D8708int);
    lemma_chain_upper(0x31158FB314CD31int, 5, 0xD744FCCAD69C6E70int, 1652, 64, 0xB504F333F9DCBBD7int);
    lemma_chain_lower(0x31158FB314CD33int, 5, 0xD744FCCAD69D8708int, 1652, 64, 0xB504F333F9DE93BCint);
    assert(0xB504F333F9DCBBD7int * 0xB504F333F9DCBBD7int <= 0xFFFFFFFFFFFB4ED5int * 0x8000000000000000int);
    assert(0x1000000000000858Dint * 0x8000000000000000int <= 0xB504F333F9DE93BCint * 0xB504F333F9DE93BCint);
    lemma_chain_upper(0x31158FB314CD31int, 6, 0xB504F333F9DCBBD7int, 3368, 63, 0xFFFFFFFFFFFB4ED5int);
    lemma_chain_lower(0x31158FB314CD33int, 6, 0xB504F333F9DE93BCint, 3368, 63, 0x1000000000000858Dint);
    lemma_chains_round(0x3FE8_8AC7_D98A_6699u64, 79, 7, 1, 0x31158FB314CD31int, 0x31158FB314CD33int, 0xFFFFFFFFFFFB4ED5int, 0x1000000000000858Dint, 6799, 64);
}

/// Boundary 81 of schema 7, checked through its squaring chains.
proof fn rounded_7_81()
    ensures
        rounds_root(0x3FE8_CF32_16B5_448Cu64, 81, 7),
{
    lemma2_to64();
    lemma2_to64_rest();
    lemma_chain_start(0x319E642D6A8917int);
    lemma_chain_start(0x319E642D6A8919int);
    assert(0x319E642D6A8917int * 0x319E642D6A8917int <= 0x99E0459320B7F502int * 0x100000000000int);
    assert(0x99E0459320B80169int * 0x100000000000int <= 0x319E642D6A8919int * 0x319E642D6A8919int);
    lemma_chain_upper(0x319E642D6A8917int, 0, 0x319E642D6A8917int, 0, 44, 0x99E0459320B7F502int);
    lemma_chain_lower(0x319E642D6A8919int, 0, 0x319E642D6A8919int, 0, 44, 0x99E0459320B80169int);
    assert(0x99E0459320B7F502int * 0x99E0459320B7F502int <= 0xB8FBAF4762FB91F6int * 0x8000000000000000int);
    assert(0xB8FBAF4762FBAFC7int * 0x8000000000000000int <= 0x99E0459320B80169int * 0x99E0459320B80169int);
    lemma_chain_upper(0x319E642D6A8917int, 1, 0x99E0459320B7F502int, 44, 63, 0xB8FBAF4762FB91F6int);
    lemma_chain_lower(0x319E642D6A8919int, 1, 0x99E0459320B80169int, 44, 63, 0xB8FBAF4762FBAFC7int);
    assert(0xB8FBAF4762FB91F6int * 0xB8FBAF4762FB91F6int <= 0x85AAC367CC48685Eint * 0x10000000000000000int);
    assert(0x85AAC367CC489374int * 0x10000000000000000int <= 0xB8FBAF4762FBAFC7int * 0xB8FBAF4762FBAFC7int);
    lemma_chain_upper(0x319E642D6A8917int, 2, 0xB8FBAF4762FB91F6int, 151, 64, 0x85AAC367CC48685Eint);
    lemma_chain_lower(0x319E642D6A8919int, 2, 0xB8FBAF4762FBAFC7int, 151, 64, 0x85AAC367CC489374int);
    assert(0x85AAC367CC48685Eint * 0x85AAC367CC48685Eint <= 0x8B95C1E3EA8BAFD2int * 0x8000000000000000int);
    assert(0x8B95C1E3EA8C09CDint * 0x8000000000000000int <= 0x85AAC367CC489374int * 0x85AAC367CC489374int);
    lemma_chain_upper(0x319E642D6A8917int, 3, 0x85AAC367CC48685Eint, 366, 63, 0x8B95C1E3EA8BAFD2int);
    lemma_chain_lower(0x319E642D6A8919int, 3, 0x85AAC367CC489374int, 366, 63, 0x8B95C1E3EA8C09CDint);
    assert(0x8B95C1E3EA8BAFD2int * 0x8B95C1E3EA8BAFD2int <= 0x9837F0518DB85433int * 0x8000000000000000int);
    assert(0x9837F0518DB91871int * 0x8000000000000000int <= 0x8B95C1E3EA8C09CDint * 0x8B95C1E3EA8C09CDint);
    lemma_chain_upper(0x319E642D6A8917int, 4, 0x8B95C1E3EA8BAFD2int, 795, 63, 0x9837F0518DB85433int);
    lemma_chain_lower(0x319E642D6A8919int, 4, 0x8B95C1E3EA8C09CDint, 795, 63, 0x9837F0518DB91871int);
    assert(0x9837F0518DB85433int * 0x9837F0518DB85433int <= 0xB504F333F9DD99CBint * 0x8000000000000000int);
    assert(0xB504F333F9DF6C89int * 0x8000000000000000int <= 0x9837F0518DB91871int * 0x9837F0518DB91871int);
    lemma_chain_upper(0x319E642D6A8917int, 5, 0x9837F0518DB85433int, 1653, 63, 0xB504F333F9DD99CBint);
    lemma_chain_lower(0x319E642D6A8919int, 5, 0x9837F0518DB91871int, 1653, 63, 0xB504F333F9DF6C89int);
    assert(0xB504F333F9DD99CBint * 0xB504F333F9DD99CBint <= 0xFFFFFFFFFFFDC29Dint * 0x8000000000000000int);
    assert(0x1000000000002EAC1int * 0x8000000000000000int <= 0xB504F333F9DF6C89int * 0xB504F333F9DF6C89int);
    lemma_chain_upper(0x319E642D6A8917int, 6, 0xB504F333F9DD99CBint, 3369, 63, 0xFFFFFFFFFFFDC29Dint);
    lemma_chain_lower(0x319E642D6A8919int, 6, 0xB504F333F9DF6C89int, 3369, 63, 0x1000000000002EAC1int);
    lemma_chains_round(0x3FE8_CF32_16B5_448Cu64, 81, 7, 1, 0x319E642D6A8917int, 0x319E642D6A8919int, 0xFFFFFFFFFFFDC29Dint, 0x1000000000002EAC1int, 6801, 64);
}

/// Boundary 83 of schema 7, checked through its squaring chains.
proof fn rounded_7_83()
    ensures
        rounds_root(0x3FE9_145B_0B91_FFC6u64, 83, 7),
{
    lemma2_to64();
    lemma2_to64_rest();
    lemma_chain_start(0x3228B61723FF8Bint);
    lemma_chain_start(0x3228B61723FF8Dint);
    assert(0x3228B61723FF8Bint * 0x3228B61723FF8Bint <= 0x9D3ED9A72CFFB6E5int * 0x100000000000int);
    assert(0x9D3ED9A72CFFC36Eint * 0x100000000000int <= 0x3228B61723FF8Dint * 0x3228B61723FF8Dint);
    lemma_chain_upper(0x3228B61723FF8Bint, 0, 0x3228B61723FF8Bint, 0, 44, 0x9D3ED9A72CFFB6E5int);
    lemma_chain_lower(0x3228B61723FF8Dint, 0, 0x3228B61723FF8Dint, 0, 44, 0x9D3ED9A72CFFC36Eint);
    assert(0x9D3ED9A72CFFB6E5int * 0x9D3ED9A72CFFB6E5int <= 0xC12C4CCA6670934Eint * 0x8000000000000000int);
    assert(0xC12C4CCA6670B219int * 0x8000000000000000int <= 0x9D3ED9A72CFFC36Eint * 0x9D3ED9A72CFFC36Eint);
    lemma_chain_upper(0x3228B61723FF8Bint, 1, 0x9D3ED9A72CFFB6E5int, 44, 63, 0xC12C4CCA6670934Eint);
    lemma_chain_lower(0x3228B61723FF8Dint, 1, 0x9D3ED9A72CFFC36Eint, 44, 63, 0xC12C4CCA6670B219int);
    assert(0xC12C4CCA6670934Eint * 0xC12C4CCA6670934Eint <= 0x91C3D373AB11C1A7int * 0x10000000000000000int);
    assert(0x91C3D373AB11F01Fint * 0x10000000000000000int <= 0xC12C4CCA6670B219int * 0xC12C4CCA6670B219int);
    lemma_chain_upper(0x3228B61723FF8Bint, 2, 0xC12C4CCA6670934Eint, 151, 64, 0x91C3D373AB11C1A7int);
    lemma_chain_lower(0x3228B61723FF8Dint, 2, 0xC12C4CCA6670B219int, 151, 64, 0x91C3D373AB11F01Fint);
    assert(0x91C3D373AB11C1A7int * 0x91C3D373AB11C1A7int <= 0xA5FED6A9B151355Eint * 0x8000000000000000int);
    assert(0xA5FED6A9B1519F33int * 0x8000000000000000int <= 0x91C3D373AB11F01Fint * 0x91C3D373AB11F01Fint);
    lemma_chain_upper(0x3228B61723FF8Bint, 3, 0x91C3D373AB11C1A7int, 366, 63, 0xA5FED6A9B151355Eint);
    lemma_chain_lower(0x3228B61723FF8Dint, 3, 0x91C3D373AB11F01Fint, 366, 63, 0xA5FED6A9B1519F33int);
    assert(0xA5FED6A9B151355Eint * 0xA5FED6A9B151355Eint <= 0xD744FCCAD69D61C1int * 0x8000000000000000int);
    assert(0xD744FCCAD69E743Fint * 0x8000000000000000int <= 0xA5FED6A9B1519F33int * 0xA5FED6A9B1519F33int);
    lemma_chain_upper(0x3228B61723FF8Bint, 4, 0xA5FED6A9B151355Eint, 795, 63, 0xD744FCCAD69D61C1int);
    lemma_chain_lower(0x3228B61723FF8Dint, 4, 0xA5FED6A9B1519F33int, 795, 63, 0xD744FCCAD69E743Fint);
    assert(0xD744FCCAD69D61C1int * 0xD744FCCAD69D61C1int <= 0xB504F333F9DE550Cint * 0x10000000000000000int);
    assert(0xB504F333F9E022AEint * 0x10000000000000000int <= 0xD744FCCAD69E743Fint * 0xD744FCCAD69E743Fint);
    lemma_chain_upper(0x3228B61723FF8Bint, 5, 0xD744FCCAD69D61C1int, 1653, 64, 0xB504F333F9DE550Cint);
    lemma_chain_lower(0x3228B61723FF8Dint, 5, 0xD744FCCAD69E743Fint, 1653, 64, 0xB504F333F9E022AEint);
    assert(0xB504F333F9DE550Cint * 0xB504F333F9DE550Cint <= 0xFFFFFFFFFFFFD43Fint * 0x8000000000000000int);
    assert(0x1000000000004EDF0int * 0x8000000000000000int <= 0xB504F333F9E022AEint * 0xB504F333F9E022AEint);
    lemma_chain_upper(0x3228B61723FF8Bint, 6, 0xB504F333F9DE550Cint, 3370, 63, 0xFFFFFFFFFFFFD43Fint);
    lemma_chain_lower(0x3228B61723FF8Dint, 6, 0xB504F333F9E022AEint, 3370, 63, 0x1000000000004EDF0int);
    lemma_chains_round(0x3FE9_145B_0B91_FFC6u64, 83, 7, 1, 0x3228B61723FF8Bint, 0x3228B61723FF8Dint, 0xFFFFFFFFFFFFD43Fint, 0x1000000000004EDF0int, 6803, 64);
}

/// Boundary 85 of schema 7, checked through its squaring chains.
proof fn rounded_7_85()
    ensures
        rounds_root(0x3FE9_5A44_CBC8_520Fu64, 85, 7),
{
    lemma2_to64();
    lemma2_to64_rest();
    lemma_chain_start(0x32B4899790A41Dint);
    lemma_chain_start(0x32B4899790A41Fint);
    assert(0x32B4899790A41Dint * 0x32B4899790A41Dint <= 0xA0B0510FB9714A87int * 0x100000000000int);
    assert(0xA0B0510FB9715733int * 0x100000000000int <= 0x32B4899790A41Fint * 0x32B4899790A41Fint);
    lemma_chain_upper(0x32B4899790A41Dint, 0, 0x32B4899790A41Dint, 0, 44, 0xA0B0510FB9714A87int);
    lemma_chain_lower(0x32B4899790A41Fint, 0, 0x32B4899790A41Fint, 0, 44, 0xA0B0510FB9715733int);
    assert(0xA0B0510FB9714A87int * 0xA0B0510FB9714A87int <= 0xC9B9BD866E2F1A81int * 0x8000000000000000int);
    assert(0xC9B9BD866E2F3A51int * 0x8000000000000000int <= 0xA0B0510FB9715733int * 0xA0B0510FB9715733int);
    lemma_chain_upper(0x32B4899790A41Dint, 1, 0xA0B0510FB9714A87int, 44, 63, 0xC9B9BD866E2F1A81int);
    lemma_chain_lower(0x32B4899790A41Fint, 1, 0xA0B0510FB9715733int, 44, 63, 0xC9B9BD866E2F3A51int);
    assert(0xC9B9BD866E2F1A81int * 0xC9B9BD866E2F1A81int <= 0x9EF5326091A0FCFCint * 0x10000000000000000int);
    assert(0x9EF5326091A12F1Eint * 0x10000000000000000int <= 0xC9B9BD866E2F3A51int * 0xC9B9BD866E2F3A51int);
    lemma_chain_upper(0x32B4899790A41Dint, 2, 0xC9B9BD866E2F1A81int, 151, 64, 0x9EF5326091A0FCFCint);
    lemma_chain_lower(0x32B4899790A41Fint, 2, 0xC9B9BD866E2F3A51int, 151, 64, 0x9EF5326091A12F1Eint);
    assert(0x9EF5326091A0FCFCint * 0x9EF5326091A0FCFCint <= 0xC5672A115506A778int * 0x8000000000000000int);
    assert(0xC5672A11550723FBint * 0x8000000000000000int <= 0x9EF5326091A12F1Eint * 0x9EF5326091A12F1Eint);
    lemma_chain_upper(0x32B4899790A41Dint, 3, 0x9EF5326091A0FCFCint, 366, 63, 0xC5672A115506A778int);
    lemma_chain_lower(0x32B4899790A41Fint, 3, 0x9EF5326091A12F1Eint, 366, 63, 0xC5672A11550723FBint);
    assert(0xC5672A115506A778int * 0xC5672A115506A778int <= 0x9837F0518DB85A2Dint * 0x10000000000000000int);
    assert(0x9837F0518DB91A32int * 0x10000000000000000int <= 0xC5672A11550723FBint * 0xC5672A11550723FBint);
    lemma_chain_upper(0x32B4899790A41Dint, 4, 0xC5672A115506A778int, 795, 64, 0x9837F0518DB85A2Dint);
    lemma_chain_lower(0x32B4899790A41Fint, 4, 0xC5672A11550723FBint, 795, 64, 0x9837F0518DB91A32int);
    assert(0x9837F0518DB85A2Dint * 0x9837F0518DB85A2Dint <= 0xB504F333F9DDA802int * 0x8000000000000000int);
    assert(0xB504F333F9DF70B5int * 0x8000000000000000int <= 0x9837F0518DB91A32int * 0x9837F0518DB91A32int);
    lemma_chain_upper(0x32B4899790A41Dint, 5, 0x9837F0518DB85A2Dint, 1654, 63, 0xB504F333F9DDA802int);
    lemma_chain_lower(0x32B4899790A41Fint, 5, 0x9837F0518DB91A32int, 1654, 63, 0xB504F333F9DF70B5int);
    assert(0xB504F333F9DDA802int * 0xB504F333F9DDA802int <= 0xFFFFFFFFFFFDEAD1int * 0x8000000000000000int);
    assert(0x1000000000002F68Eint * 0x8000000000000000int <= 0xB504F333F9DF70B5int * 0xB504F333F9DF70B5int);
    lemma_chain_upper(0x32B4899790A41Dint, 6, 0xB504F333F9DDA802int, 3371, 63, 0xFFFFFFFFFFFDEAD1int);
    lemma_chain_lower(0x32B4899790A41Fint, 6, 0xB504F333F9DF70B5int, 3371, 63, 0x1000000000002F68Eint);
    lemma_chains_round(0x3FE9_5A44_CBC8_520Fu64, 85, 7, 1, 0x32B4899790A41Dint, 0x32B4899790A41Fint, 0xFFFFFFFFFFFDEAD1int, 0x1000000000002F68Eint, 6805, 64);
}

/// Boundary 87 of schema 7, checked through its squaring chains.
proof fn rounded_7_87()
    ensures
        rounds_root(0x3FE9_A0F1_70CA_07BAu64, 87, 7),
{
    lemma2_to64();
    lemma2_to64_rest();
    lemma_chain_start(0x3341E2E1940F73int);
    lemma_chain_start(0x3341E2E1940F75int);
    assert(0x3341E2E1940F73int * 0x3341E2E1940F73int <= 0xA43515AE09E67DB5int * 0x100000000000int);
    assert(0xA43515AE09E68A84int * 0x100000000000int <= 0x3341E2E1940F75int * 0x3341E2E1940F75int);
    lemma_chain_upper(0x3341E2E1940F73int, 0, 0x3341E2E1940F73int, 0, 44, 0xA43515AE09E67DB5int);
    lemma_chain_lower(0x3341E2E1940F75int, 0, 0x3341E2E1940F75int, 0, 44, 0xA43515AE09E68A84int);
    assert(0xA43515AE09E67DB5int * 0xA43515AE09E67DB5int <= 0xD2A81D91F12ADCE3int * 0x8000000000000000int);
    assert(0xD2A81D91F12AFDBFint * 0x8000000000000000int <= 0xA43515AE09E68A84int * 0xA43515AE09E68A84int);
    lemma_chain_upper(0x3341E2E1940F73int, 1, 0xA43515AE09E67DB5int, 44, 63, 0xD2A81D91F12ADCE3int);
    lemma_chain_lower(0x3341E2E1940F75int, 1, 0xA43515AE09E68A84int, 44, 63, 0xD2A81D91F12AFDBFint);
    assert(0xD2A81D91F12ADCE3int * 0xD2A81D91F12ADCE3int <= 0xAD583EEA42A13E7Eint * 0x10000000000000000int);
    assert(0xAD583EEA42A17491int * 0x10000000000000000int <= 0xD2A81D91F12AFDBFint * 0xD2A81D91F12AFDBFint);
    lemma_chain_upper(0x3341E2E1940F73int, 2, 0xD2A81D91F12ADCE3int, 151, 64, 0xAD583EEA42A13E7Eint);
    lemma_chain_lower(0x3341E2E1940F75int, 2, 0xD2A81D91F12AFDBFint, 151, 64, 0xAD583EEA42A17491int);
    assert(0xAD583EEA42A13E7Eint * 0xAD583EEA42A13E7Eint <= 0xEAC0C6E7DD2417EBint * 0x8000000000000000int);
    assert(0xEAC0C6E7DD24AA60int * 0x8000000000000000int <= 0xAD583EEA42A17491int * 0xAD583EEA42A17491int);
    lemma_chain_upper(0x3341E2E1940F73int, 3, 0xAD583EEA42A13E7Eint, 366, 63, 0xEAC0C6E7DD2417EBint);
    lemma_chain_lower(0x3341E2E1940F75int, 3, 0xAD583EEA42A17491int, 366, 63, 0xEAC0C6E7DD24AA60int);
    assert(0xEAC0C6E7DD2417EBint * 0xEAC0C6E7DD2417EBint <= 0xD744FCCAD69D2DF3int * 0x10000000000000000int);
    assert(0xD744FCCAD69E3A8Cint * 0x10000000000000000int <= 0xEAC0C6E7DD24AA60int * 0xEAC0C6E7DD24AA60int);
    lemma_chain_upper(0x3341E2E1940F73int, 4, 0xEAC0C6E7DD2417EBint, 795, 64, 0xD744FCCAD69D2DF3int);
    lemma_chain_lower(0x3341E2E1940F75int, 4, 0xEAC0C6E7DD24AA60int, 795, 64, 0xD744FCCAD69E3A8Cint);
    assert(0xD744FCCAD69D2DF3int * 0xD744FCCAD69D2DF3int <= 0xB504F333F9DDFDECint * 0x10000000000000000int);
    assert(0xB504F333F9DFC1A5int * 0x10000000000000000int <= 0xD744FCCAD69E3A8Cint * 0xD744FCCAD69E3A8Cint);
    lemma_chain_upper(0x3341E2E1940F73int, 5, 0xD744FCCAD69D2DF3int, 1654, 64, 0xB504F333F9DDFDECint);
    lemma_chain_lower(0x3341E2E1940F75int, 5, 0xD744FCCAD69E3A8Cint, 1654, 64, 0xB504F333F9DFC1A5int);
    assert(0xB504F333F9DDFDECint * 0xB504F333F9DDFDECint <= 0xFFFFFFFFFFFEDDD2int * 0x8000000000000000int);
    assert(0x1000000000003DB7Bint * 0x8000000000000000int <= 0xB504F333F9DFC1A5int * 0xB504F333F9DFC1A5int);
    lemma_chain_upper(0x3341E2E1940F73int, 6, 0xB504F333F9DDFDECint, 3372, 63, 0xFFFFFFFFFFFEDDD2int);
    lemma_chain_lower(0x3341E2E1940F75int, 6, 0xB504F333F9DFC1A5int, 3372, 63, 0x1000000000003DB7Bint);
    lemma_chains_round(0x3FE9_A0F1_70CA_07BAu64, 87, 7, 1, 0x3341E2E1940F73int, 0x3341E2E1940F75int, 0xFFFFFFFFFFFEDDD2int, 0x1000000000003DB7Bint, 6807, 64);
}

/// Boundary 89 of schema 7, checked through its squaring chains.
proof fn rounded_7_89()
    ensures
        rounds_root(0x3FE9_E863_19E3_2323u64, 89, 7),
{
    lemma2_to64();
    lemma2_to64_rest();
    lemma_chain_start(0x33D0C633C64645int);
    lemma_chain_start(0x33D0C633C64647int);
    assert(0x33D0C633C64645int * 0x33D0C633C64645int <= 0xA7CD93B4E9652DB7int * 0x100000000000int);
    assert(0xA7CD93B4E9653AAAint * 0x100000000000int <= 0x33D0C633C64647int * 0x33D0C633C64647int);
    lemma_chain_upper(0x33D0C633C64645int, 0, 0x33D0C633C64645int, 0, 44, 0xA7CD93B4E9652DB7int);
    lemma_chain_lower(0x33D0C633C64647int, 0, 0x33D0C633C64647int, 0, 44, 0xA7CD93B4E9653AAAint);
    assert(0xA7CD93B4E9652DB7int * 0xA7CD93B4E9652DB7int <= 0xDBFBB797DAF22327int * 0x8000000000000000int);
    assert(0xDBFBB797DAF2451Aint * 0x8000000000000000int <= 0xA7CD93B4E9653AAAint * 0xA7CD93B4E9653AAAint);
    lemma_chain_upper(0x33D0C633C64645int, 1, 0xA7CD93B4E9652DB7int, 44, 63, 0xDBFBB797DAF22327int);
    lemma_chain_lower(0x33D0C633C64647int, 1, 0xA7CD93B4E9653AAAint, 44, 63, 0xDBFBB797DAF2451Aint);
    assert(0xDBFBB797DAF22327int * 0xDBFBB797DAF22327int <= 0xBD08A39F580C1410int * 0x10000000000000000int);
    assert(0xBD08A39F580C4E68int * 0x10000000000000000int <= 0xDBFBB797DAF2451Aint * 0xDBFBB797DAF2451Aint);
    lemma_chain_upper(0x33D0C633C64645int, 2, 0xDBFBB797DAF22327int, 151, 64, 0xBD08A39F580C1410int);
    lemma_chain_lower(0x33D0C633C64647int, 2, 0xDBFBB797DAF2451Aint, 151, 64, 0xBD08A39F580C4E68int);
    assert(0xBD08A39F580C1410int * 0xBD08A39F580C1410int <= 0x8B95C1E3EA8BA3AFint * 0x10000000000000000int);
    assert(0x8B95C1E3EA8BF9D8int * 0x10000000000000000int <= 0xBD08A39F580C4E68int * 0xBD08A39F580C4E68int);
    lemma_chain_upper(0x33D0C633C64645int, 3, 0xBD08A39F580C1410int, 366, 64, 0x8B95C1E3EA8BA3AFint);
    lemma_chain_lower(0x33D0C633C64647int, 3, 0xBD08A39F580C4E68int, 366, 64, 0x8B95C1E3EA8BF9D8int);
    assert(0x8B95C1E3EA8BA3AFint * 0x8B95C1E3EA8BA3AFint <= 0x9837F0518DB839BAint * 0x8000000000000000int);
    assert(0x9837F0518DB8F5A4int * 0x8000000000000000int <= 0x8B95C1E3EA8BF9D8int * 0x8B95C1E3EA8BF9D8int);
    lemma_chain_upper(0x33D0C633C64645int, 4, 0x8B95C1E3EA8BA3AFint, 796, 63, 0x9837F0518DB839BAint);
    lemma_chain_lower(0x33D0C633C64647int, 4, 0x8B95C1E3EA8BF9D8int, 796, 63, 0x9837F0518DB8F5A4int);
    assert(0x9837F0518DB839BAint * 0x9837F0518DB839BAint <= 0xB504F333F9DD5AD5int * 0x8000000000000000int);
    assert(0xB504F333F9DF19C4int * 0x8000000000000000int <= 0x9837F0518DB8F5A4int * 0x9837F0518DB8F5A4int);
    lemma_chain_upper(0x33D0C633C64645int, 5, 0x9837F0518DB839BAint, 1655, 63, 0xB504F333F9DD5AD5int);
    lemma_chain_lower(0x33D0C633C64647int, 5, 0x9837F0518DB8F5A4int, 1655, 63, 0xB504F333F9DF19C4int);
    assert(0xB504F333F9DD5AD5int * 0xB504F333F9DD5AD5int <= 0xFFFFFFFFFFFD1088int * 0x8000000000000000int);
    assert(0x100000000000200A6int * 0x8000000000000000int <= 0xB504F333F9DF19C4int * 0xB504F333F9DF19C4int);
    lemma_chain_upper(0x33D0C633C64645int, 6, 0xB504F333F9DD5AD5int, 3373, 63, 0xFFFFFFFFFFFD1088int);
    lemma_chain_lower(0x33D0C633C64647int, 6, 0xB504F333F9DF19C4int, 3373, 63, 0x100000000000200A6int);
    lemma_chains_round(0x3FE9_E863_19E3_2323u64, 89, 7, 1, 0x33D0C633C64645int, 0x33D0C633C64647int, 0xFFFFFFFFFFFD1088int, 0x100000000000200A6int, 6809, 64);
}

/// Boundary 91 of schema 7, checked through its squaring chains.
proof fn rounded_7_91()
    ensures
        rounds_root(0x3FEA_309B_EC4A_2D33u64, 91, 7),
{
    lemma2_to64();
    lemma2_to64_rest();
    lemma_chain_start(0x346137D8945A65int);
    lemma_chain_start(0x346137D8945A67int);
    assert(0x346137D8945A65int * 0x346137D8945A65int <= 0xAB7A39B5A93EC821int * 0x100000000000int);
    assert(0xAB7A39B5A93ED539int * 0x100000000000int <= 0x346137D8945A67int * 0x346137D8945A67int);
    lemma_chain_upper(0x346137D8945A65int, 0, 0x346137D8945A65int, 0, 44, 0xAB7A39B5A93EC821int);
    lemma_chain_lower(0x346137D8945A67int, 0, 0x346137D8945A67int, 0, 44, 0xAB7A39B5A93ED539int);
    assert(0xAB7A39B5A93EC821int * 0xAB7A39B5A93EC821int <= 0xE5B906E77C832AF4int * 0x8000000000000000int);
    assert(0xE5B906E77C834E08int * 0x8000000000000000int <= 0xAB7A39B5A93ED539int * 0xAB7A39B5A93ED539int);
    lemma_chain_upper(0x346137D8945A65int, 1, 0xAB7A39B5A93EC821int, 44, 63, 0xE5B906E77C832AF4int);
    lemma_chain_lower(0x346137D8945A67int, 1, 0xAB7A39B5A93ED539int, 44, 63, 0xE5B906E77C834E08int);
    assert(0xE5B906E77C832AF4int * 0xE5B906E77C832AF4int <= 0xCE248C151F844B95int * 0x10000000000000000int);
    assert(0xCE248C151F848A89int * 0x10000000000000000int <= 0xE5B906E77C834E08int * 0xE5B906E77C834E08int);
    lemma_chain_upper(0x346137D8945A65int, 2, 0xE5B906E77C832AF4int, 151, 64, 0xCE248C151F844B95int);
    lemma_chain_lower(0x346137D8945A67int, 2, 0xE5B906E77C834E08int, 151, 64, 0xCE248C151F848A89int);
    assert(0xCE248C151F844B95int * 0xCE248C151F844B95int <= 0xA5FED6A9B150E310int * 0x10000000000000000int);
    assert(0xA5FED6A9B1514872int * 0x10000000000000000int <= 0xCE248C151F848A89int * 0xCE248C151F848A89int);
    lemma_chain_upper(0x346137D8945A65int, 3, 0xCE248C151F844B95int, 366, 64, 0xA5FED6A9B150E310int);
    lemma_chain_lower(0x346137D8945A67int, 3, 0xCE248C151F848A89int, 366, 64, 0xA5FED6A9B1514872int);
    assert(0xA5FED6A9B150E310int * 0xA5FED6A9B150E310int <= 0xD744FCCAD69C8C49int * 0x8000000000000000int);
    assert(0xD744FCCAD69D933Cint * 0x8000000000000000int <= 0xA5FED6A9B1514872int * 0xA5FED6A9B1514872int);
    lemma_chain_upper(0x346137D8945A65int, 4, 0xA5FED6A9B150E310int, 796, 63, 0xD744FCCAD69C8C49int);
    lemma_chain_lower(0x346137D8945A67int, 4, 0xA5FED6A9B1514872int, 796, 63, 0xD744FCCAD69D933Cint);
    assert(0xD744FCCAD69C8C49int * 0xD744FCCAD69C8C49int <= 0xB504F333F9DCEE09int * 0x10000000000000000int);
    assert(0xB504F333F9DEA842int * 0x10000000000000000int <= 0xD744FCCAD69D933Cint * 0xD744FCCAD69D933Cint);
    lemma_chain_upper(0x346137D8945A65int, 5, 0xD744FCCAD69C8C49int, 1655, 64, 0xB504F333F9DCEE09int);
    lemma_chain_lower(0x346137D8945A67int, 5, 0xD744FCCAD69D933Cint, 1655, 64, 0xB504F333F9DEA842int);
    assert(0xB504F333F9DCEE09int * 0xB504F333F9DCEE09int <= 0xFFFFFFFFFFFBDCCFint * 0x8000000000000000int);
    assert(0x1000000000000BF99int * 0x8000000000000000int <= 0xB504F333F9DEA842int * 0xB504F333F9DEA842int);
    lemma_chain_upper(0x346137D8945A65int, 6, 0xB504F333F9DCEE09int, 3374, 63, 0xFFFFFFFFFFFBDCCFint);
    lemma_chain_lower(0x346137D8945A67int, 6, 0xB504F333F9DEA842int, 3374, 63, 0x1000000000000BF99int);
    lemma_chains_round(0x3FEA_309B_EC4A_2D33u64, 91, 7, 1, 0x346137D8945A65int, 0x346137D8945A67int, 0xFFFFFFFFFFFBDCCFint, 0x1000000000000BF99int, 6811, 64);
}

/// Boundary 93 of schema 7, checked through its squaring chains.
proof fn rounded_7_93()
    ensures
        rounds_root(0x3FEA_799E_1330_B358u64, 93, 7),
{
    lemma2_to64();
    lemma2_to64_rest();
    lemma_chain_start(0x34F33C266166AFint);
    lemma_chain_start(0x34F33C266166B1int);
    assert(0x34F33C266166AFint * 0x34F33C266166AFint <= 0xAF3B78AD690A3717int * 0x100000000000int);
    assert(0xAF3B78AD690A4453int * 0x100000000000int <= 0x34F33C266166B1int * 0x34F33C266166B1int);
    lemma_chain_upper(0x34F33C266166AFint, 0, 0x34F33C266166AFint, 0, 44, 0xAF3B78AD690A3717int);
    lemma_chain_lower(0x34F33C266166B1int, 0, 0x34F33C266166B1int, 0, 44, 0xAF3B78AD690A4453int);
    assert(0xAF3B78AD690A3717int * 0xAF3B78AD690A3717int <= 0xEFE4B99BDCDAD3F0int * 0x8000000000000000int);
    assert(0xEFE4B99BDCDAF82Bint * 0x8000000000000000int <= 0xAF3B78AD690A4453int * 0xAF3B78AD690A4453int);
    lemma_chain_upper(0x34F33C266166AFint, 1, 0xAF3B78AD690A3717int, 44, 63, 0xEFE4B99BDCDAD3F0int);
    lemma_chain_lower(0x34F33C266166B1int, 1, 0xAF3B78AD690A4453int, 44, 63, 0xEFE4B99BDCDAF82Bint);
    assert(0xEFE4B99BDCDAD3F0int * 0xEFE4B99BDCDAD3F0int <= 0xE0CCDEEC2A94A19Eint * 0x10000000000000000int);
    assert(0xE0CCDEEC2A94E584int * 0x10000000000000000int <= 0xEFE4B99BDCDAF82Bint * 0xEFE4B99BDCDAF82Bint);
    lemma_chain_upper(0x34F33C266166AFint, 2, 0xEFE4B99BDCDAD3F0int, 151, 64, 0xE0CCDEEC2A94A19Eint);
    lemma_chain_lower(0x34F33C266166B1int, 2, 0xEFE4B99BDCDAF82Bint, 151, 64, 0xE0CCDEEC2A94E584int);
    assert(0xE0CCDEEC2A94A19Eint * 0xE0CCDEEC2A94A19Eint <= 0xC5672A1155066B6Fint * 0x10000000000000000int);
    assert(0xC5672A115506E2ADint * 0x10000000000000000int <= 0xE0CCDEEC2A94E584int * 0xE0CCDEEC2A94E584int);
    lemma_chain_upper(0x34F33C266166AFint, 3, 0xE0CCDEEC2A94A19Eint, 366, 64, 0xC5672A1155066B6Fint);
    lemma_chain_lower(0x34F33C266166B1int, 3, 0xE0CCDEEC2A94E584int, 366, 64, 0xC5672A115506E2ADint);
    assert(0xC5672A1155066B6Fint * 0xC5672A1155066B6Fint <= 0x9837F0518DB7FD96int * 0x10000000000000000int);
    assert(0x9837F0518DB8B57Bint * 0x10000000000000000int <= 0xC5672A115506E2ADint * 0xC5672A115506E2ADint);
    lemma_chain_upper(0x34F33C266166AFint, 4, 0xC5672A1155066B6Fint, 796, 64, 0x9837F0518DB7FD96int);
    lemma_chain_lower(0x34F33C266166B1int, 4, 0xC5672A115506E2ADint, 796, 64, 0x9837F0518DB8B57Bint);
    assert(0x9837F0518DB7FD96int * 0x9837F0518DB7FD96int <= 0xB504F333F9DCCBCBint * 0x8000000000000000int);
    assert(0xB504F333F9DE812Aint * 0x8000000000000000int <= 0x9837F0518DB8B57Bint * 0x9837F0518DB8B57Bint);
    lemma_chain_upper(0x34F33C266166AFint, 5, 0x9837F0518DB7FD96int, 1656, 63, 0xB504F333F9DCCBCBint);
    lemma_chain_lower(0x34F33C266166B1int, 5, 0x9837F0518DB8B57Bint, 1656, 63, 0xB504F333F9DE812Aint);
    assert(0xB504F333F9DCCBCBint * 0xB504F333F9DCCBCBint <= 0xFFFFFFFFFFFB7BF5int * 0x8000000000000000int);
    assert(0x10000000000005106int * 0x8000000000000000int <= 0xB504F333F9DE812Aint * 0xB504F333F9DE812Aint);
    lemma_chain_upper(0x34F33C266166AFint, 6, 0xB504F333F9DCCBCBint, 3375, 63, 0xFFFFFFFFFFFB7BF5int);
    lemma_chain_lower(0x34F33C266166B1int, 6, 0xB504F333F9DE812Aint, 3375, 63, 0x10000000000005106int);
    lemma_chains_round(0x3FEA_799E_1330_B358u64, 93, 7, 1, 0x34F33C266166AFint, 0x34F33C266166B1int, 0xFFFFFFFFFFFB7BF5int, 0x10000000000005106int, 6813, 64);
}

/// Boundary 95 of schema 7, checked through its squaring chains.
proof fn rounded_7_95()
    ensures
        rounds_root(0x3FEA_C36B_BFD3_F37Au64, 95, 7),
{
    lemma2_to64();
    lemma2_to64_rest();
    lemma_chain_start(0x3586D77FA7E6F3int);
    lemma_chain_start(0x3586D77FA7E6F5int);
    assert(0x3586D77FA7E6F3int * 0x3586D77FA7E6F3int <= 0xB311C412A9112126int * 0x100000000000int);
    assert(0xB311C412A9112E87int * 0x100000000000int <= 0x3586D77FA7E6F5int * 0x3586D77FA7E6F5int);
    lemma_chain_upper(0x3586D77FA7E6F3int, 0, 0x3586D77FA7E6F3int, 0, 44, 0xB311C412A9112126int);
    lemma_chain_lower(0x3586D77FA7E6F5int, 0, 0x3586D77FA7E6F5int, 0, 44, 0xB311C412A9112E87int);
    assert(0xB311C412A9112126int * 0xB311C412A9112126int <= 0xFA83B2DB7229F9C0int * 0x8000000000000000int);
    assert(0xFA83B2DB722A1F2Eint * 0x8000000000000000int <= 0xB311C412A9112E87int * 0xB311C412A9112E87int);
    lemma_chain_upper(0x3586D77FA7E6F3int, 1, 0xB311C412A9112126int, 44, 63, 0xFA83B2DB7229F9C0int);
    lemma_chain_lower(0x3586D77FA7E6F5int, 1, 0xB311C412A9112E87int, 44, 63, 0xFA83B2DB722A1F2Eint);
    assert(0xFA83B2DB7229F9C0int * 0xFA83B2DB7229F9C0int <= 0xF5257D152486B9A0int * 0x10000000000000000int);
    assert(0xF5257D15248702E0int * 0x10000000000000000int <= 0xFA83B2DB722A1F2Eint * 0xFA83B2DB722A1F2Eint);
    lemma_chain_upper(0x3586D77FA7E6F3int, 2, 0xFA83B2DB7229F9C0int, 151, 64, 0xF5257D152486B9A0int);
    lemma_chain_lower(0x3586D77FA7E6F5int, 2, 0xFA83B2DB722A1F2Eint, 151, 64, 0xF5257D15248702E0int);
    assert(0xF5257D152486B9A0int * 0xF5257D152486B9A0int <= 0xEAC0C6E7DD2415A9int * 0x10000000000000000int);
    assert(0xEAC0C6E7DD24A1F2int * 0x10000000000000000int <= 0xF5257D15248702E0int * 0xF5257D15248702E0int);
    lemma_chain_upper(0x3586D77FA7E6F3int, 3, 0xF5257D152486B9A0int, 366, 64, 0xEAC0C6E7DD2415A9int);
    lemma_chain_lower(0x3586D77FA7E6F5int, 3, 0xF5257D15248702E0int, 366, 64, 0xEAC0C6E7DD24A1F2int);
    assert(0xEAC0C6E7DD2415A9int * 0xEAC0C6E7DD2415A9int <= 0xD744FCCAD69D29CFint * 0x10000000000000000int);
    assert(0xD744FCCAD69E2B16int * 0x10000000000000000int <= 0xEAC0C6E7DD24A1F2int * 0xEAC0C6E7DD24A1F2int);
    lemma_chain_upper(0x3586D77FA7E6F3int, 4, 0xEAC0C6E7DD2415A9int, 796, 64, 0xD744FCCAD69D29CFint);
    lemma_chain_lower(0x3586D77FA7E6F5int, 4, 0xEAC0C6E7DD24A1F2int, 796, 64, 0xD744FCCAD69E2B16int);
    assert(0xD744FCCAD69D29CFint * 0xD744FCCAD69D29CFint <= 0xB504F333F9DDF6F5int * 0x10000000000000000int);
    assert(0xB504F333F9DFA7A4int * 0x10000000000000000int <= 0xD744FCCAD69E2B16int * 0xD744FCCAD69E2B16int);
    lemma_chain_upper(0x3586D77FA7E6F3int, 5, 0xD744FCCAD69D29CFint, 1656, 64, 0xB504F333F9DDF6F5int);
    lemma_chain_lower(0x3586D77FA7E6F5int, 5, 0xD744FCCAD69E2B16int, 1656, 64, 0xB504F333F9DFA7A4int);
    assert(0xB504F333F9DDF6F5int * 0xB504F333F9DDF6F5int <= 0xFFFFFFFFFFFECA1Fint * 0x8000000000000000int);
    assert(0x100000000000391EEint * 0x8000000000000000int <= 0xB504F333F9DFA7A4int * 0xB504F333F9DFA7A4int);
    lemma_chain_upper(0x3586D77FA7E6F3int, 6, 0xB504F333F9DDF6F5int, 3376, 63, 0xFFFFFFFFFFFECA1Fint);
    lemma_chain_lower(0x3586D77FA7E6F5int, 6, 0xB504F333F9DFA7A4int, 3376, 63, 0x100000000000391EEint);
    lemma_chains_round(0x3FEA_C36B_BFD3_F37Au64, 95, 7, 1, 0x3586D77FA7E6F3int, 0x3586D77FA7E6F5int, 0xFFFFFFFFFFFECA1Fint, 0x100000000000391EEint, 6815, 64);
}

/// Boundary 97 of schema 7, checked through its squaring chains.
proof fn rounded_7_97()
    ensures
        rounds_root(0x3FEB_0E07_298D_B666u64, 97, 7),
{
    lemma2_to64();
    lemma2_to64_rest();
    lemma_chain_start(0x361C0E531B6CCBint);
    lemma_chain_start(0x361C0E531B6CCDint);
    assert(0x361C0E531B6CCBint * 0x361C0E531B6CCBint <= 0xB6FD91E328D176B2int * 0x100000000000int);
    assert(0xB6FD91E328D18438int * 0x100000000000int <= 0x361C0E531B6CCDint * 0x361C0E531B6CCDint);
    lemma_chain_upper(0x361C0E531B6CCBint, 0, 0x361C0E531B6CCBint, 0, 44, 0xB6FD91E328D176B2int);
    lemma_chain_lower(0x361C0E531B6CCDint, 0, 0x361C0E531B6CCDint, 0, 44, 0xB6FD91E328D18438int);
    assert(0xB6FD91E328D176B2int * 0xB6FD91E328D176B2int <= 0x82CD8698AC2BA099int * 0x10000000000000000int);
    assert(0x82CD8698AC2BB3EDint * 0x10000000000000000int <= 0xB6FD91E328D18438int * 0xB6FD91E328D18438int);
    lemma_chain_upper(0x361C0E531B6CCBint, 1, 0xB6FD91E328D176B2int, 44, 64, 0x82CD8698AC2BA099int);
    lemma_chain_lower(0x361C0E531B6CCDint, 1, 0xB6FD91E328D18438int, 44, 64, 0x82CD8698AC2BB3EDint);
    assert(0x82CD8698AC2BA099int * 0x82CD8698AC2BA099int <= 0x85AAC367CC48788Bint * 0x8000000000000000int);
    assert(0x85AAC367CC48A00Bint * 0x8000000000000000int <= 0x82CD8698AC2BB3EDint * 0x82CD8698AC2BB3EDint);
    lemma_chain_upper(0x361C0E531B6CCBint, 2, 0x82CD8698AC2BA099int, 152, 63, 0x85AAC367CC48788Bint);
    lemma_chain_lower(0x361C0E531B6CCDint, 2, 0x82CD8698AC2BB3EDint, 152, 63, 0x85AAC367CC48A00Bint);
    assert(0x85AAC367CC48788Bint * 0x85AAC367CC48788Bint <= 0x8B95C1E3EA8BD19Aint * 0x8000000000000000int);
    assert(0x8B95C1E3EA8C2419int * 0x8000000000000000int <= 0x85AAC367CC48A00Bint * 0x85AAC367CC48A00Bint);
    lemma_chain_upper(0x361C0E531B6CCBint, 3, 0x85AAC367CC48788Bint, 367, 63, 0x8B95C1E3EA8BD19Aint);
    lemma_chain_lower(0x361C0E531B6CCDint, 3, 0x85AAC367CC48A00Bint, 367, 63, 0x8B95C1E3EA8C2419int);
    assert(0x8B95C1E3EA8BD19Aint * 0x8B95C1E3EA8BD19Aint <= 0x9837F0518DB89DE0int * 0x8000000000000000int);
    assert(0x9837F0518DB951CCint * 0x8000000000000000int <= 0x8B95C1E3EA8C2419int * 0x8B95C1E3EA8C2419int);
    lemma_chain_upper(0x361C0E531B6CCBint, 4, 0x8B95C1E3EA8BD19Aint, 797, 63, 0x9837F0518DB89DE0int);
    lemma_chain_lower(0x361C0E531B6CCDint, 4, 0x8B95C1E3EA8C2419int, 797, 63, 0x9837F0518DB951CCint);
    assert(0x9837F0518DB89DE0int * 0x9837F0518DB89DE0int <= 0xB504F333F9DE4906int * 0x8000000000000000int);
    assert(0xB504F333F9DFF4F3int * 0x8000000000000000int <= 0x9837F0518DB951CCint * 0x9837F0518DB951CCint);
    lemma_chain_upper(0x361C0E531B6CCBint, 5, 0x9837F0518DB89DE0int, 1657, 63, 0xB504F333F9DE4906int);
    lemma_chain_lower(0x361C0E531B6CCDint, 5, 0x9837F0518DB951CCint, 1657, 63, 0xB504F333F9DFF4F3int);
    assert(0xB504F333F9DE4906int * 0xB504F333F9DE4906int <= 0xFFFFFFFFFFFFB23Dint * 0x8000000000000000int);
    assert(0x10000000000046C97int * 0x8000000000000000int <= 0xB504F333F9DFF4F3int * 0xB504F333F9DFF4F3int);
    lemma_chain_upper(0x361C0E531B6CCBint, 6, 0xB504F333F9DE4906int, 3377, 63, 0xFFFFFFFFFFFFB23Dint);
    lemma_chain_lower(0x361C0E531B6CCDint, 6, 0xB504F333F9DFF4F3int, 3377, 63, 0x10000000000046C97int);
    lemma_chains_round(0x3FEB_0E07_298D_B666u64, 97, 7, 1, 0x361C0E531B6CCBint, 0x361C0E531B6CCDint, 0xFFFFFFFFFFFFB23Dint, 0x10000000000046C97int, 6817, 64);
}

/// Boundary 99 of schema 7, checked through its squaring chains.
proof fn rounded_7_99()
    ensures
        rounds_root(0x3FEB_5972_8DE5_593Au64, 99, 7),
{
    lemma2_to64();
    lemma2_to64_rest();
    lemma_chain_start(0x36B2E51BCAB273int);
    lemma_chain_start(0x36B2E51BCAB275int);
    assert(0x36B2E51BCAB273int * 0x36B2E51BCAB273int <= 0xBAFF5AB2133E4539int * 0x100000000000int);
    assert(0xBAFF5AB2133E52E5int * 0x100000000000int <= 0x36B2E51BCAB275int * 0x36B2E51BCAB275int);
    lemma_chain_upper(0x36B2E51BCAB273int, 0, 0x36B2E51BCAB273int, 0, 44, 0xBAFF5AB2133E4539int);
    lemma_chain_lower(0x36B2E51BCAB275int, 0, 0x36B2E51BCAB275int, 0, 44, 0xBAFF5AB2133E52E5int);
    assert(0xBAFF5AB2133E4539int * 0xBAFF5AB2133E4539int <= 0x88980E8092DA840Cint * 0x10000000000000000int);
    assert(0x88980E8092DA9804int * 0x10000000000000000int <= 0xBAFF5AB2133E52E5int * 0xBAFF5AB2133E52E5int);
    lemma_chain_upper(0x36B2E51BCAB273int, 1, 0xBAFF5AB2133E4539int, 44, 64, 0x88980E8092DA840Cint);
    lemma_chain_lower(0x36B2E51BCAB275int, 1, 0xBAFF5AB2133E52E5int, 44, 64, 0x88980E8092DA9804int);
    assert(0x88980E8092DA840Cint * 0x88980E8092DA840Cint <= 0x91C3D373AB11C0DAint * 0x8000000000000000int);
    assert(0x91C3D373AB11EB77int * 0x8000000000000000int <= 0x88980E8092DA9804int * 0x88980E8092DA9804int);
    lemma_chain_upper(0x36B2E51BCAB273int, 2, 0x88980E8092DA840Cint, 152, 63, 0x91C3D373AB11C0DAint);
    lemma_chain_lower(0x36B2E51BCAB275int, 2, 0x88980E8092DA9804int, 152, 63, 0x91C3D373AB11EB77int);
    assert(0x91C3D373AB11C0DAint * 0x91C3D373AB11C0DAint <= 0xA5FED6A9B151338Bint * 0x8000000000000000int);
    assert(0xA5FED6A9B1519498int * 0x8000000000000000int <= 0x91C3D373AB11EB77int * 0x91C3D373AB11EB77int);
    lemma_chain_upper(0x36B2E51BCAB273int, 3, 0x91C3D373AB11C0DAint, 367, 63, 0xA5FED6A9B151338Bint);
    lemma_chain_lower(0x36B2E51BCAB275int, 3, 0x91C3D373AB11EB77int, 367, 63, 0xA5FED6A9B1519498int);
    assert(0xA5FED6A9B151338Bint * 0xA5FED6A9B151338Bint <= 0xD744FCCAD69D5D06int * 0x8000000000000000int);
    assert(0xD744FCCAD69E58BDint * 0x8000000000000000int <= 0xA5FED6A9B1519498int * 0xA5FED6A9B1519498int);
    lemma_chain_upper(0x36B2E51BCAB273int, 4, 0xA5FED6A9B151338Bint, 797, 63, 0xD744FCCAD69D5D06int);
    lemma_chain_lower(0x36B2E51BCAB275int, 4, 0xA5FED6A9B1519498int, 797, 63, 0xD744FCCAD69E58BDint);
    assert(0xD744FCCAD69D5D06int * 0xD744FCCAD69D5D06int <= 0xB504F333F9DE4D17int * 0x10000000000000000int);
    assert(0xB504F333F9DFF46Bint * 0x10000000000000000int <= 0xD744FCCAD69E58BDint * 0xD744FCCAD69E58BDint);
    lemma_chain_upper(0x36B2E51BCAB273int, 5, 0xD744FCCAD69D5D06int, 1657, 64, 0xB504F333F9DE4D17int);
    lemma_chain_lower(0x36B2E51BCAB275int, 5, 0xD744FCCAD69E58BDint, 1657, 64, 0xB504F333F9DFF46Bint);
    assert(0xB504F333F9DE4D17int * 0xB504F333F9DE4D17int <= 0xFFFFFFFFFFFFBDBDint * 0x8000000000000000int);
    assert(0x10000000000046B17int * 0x8000000000000000int <= 0xB504F333F9DFF46Bint * 0xB504F333F9DFF46Bint);
    lemma_chain_upper(0x36B2E51BCAB273int, 6, 0xB504F333F9DE4D17int, 3378, 63, 0xFFFFFFFFFFFFBDBDint);
    lemma_chain_lower(0x36B2E51BCAB275int, 6, 0xB504F333F9DFF46Bint, 3378, 63, 0x10000000000046B17int);
    lemma_chains_round(0x3FEB_5972_8DE5_593Au64, 99, 7, 1, 0x36B2E51BCAB273int, 0x36B2E51BCAB275int, 0xFFFFFFFFFFFFBDBDint, 0x10000000000046B17int, 6819, 64);
}

/// Boundary 101 of schema 7, checked through its squaring chains.
proof fn rounded_7_101()
    ensures
        rounds_root(0x3FEB_A5B0_30A1_064Au64, 101, 7),
{
    lemma2_to64();
    lemma2_to64_rest();
    lemma_chain_start(0x374B6061420C93int);
    lemma_chain_start(0x374B6061420C95int);
    assert(0x374B6061420C93int * 0x374B6061420C93int <= 0xBF1799B67A73104Bint * 0x100000000000int);
    assert(0xBF1799B67A731E1Dint * 0x100000000000int <= 0x374B6061420C95int * 0x374B6061420C95int);
    lemma_chain_upper(0x374B6061420C93int, 0, 0x374B6061420C93int, 0, 44, 0xBF1799B67A73104Bint);
    lemma_chain_lower(0x374B6061420C95int, 0, 0x374B6061420C95int, 0, 44, 0xBF1799B67A731E1Dint);
    assert(0xBF1799B67A73104Bint * 0xBF1799B67A73104Bint <= 0x8EA4398B45CD536Dint * 0x10000000000000000int);
    assert(0x8EA4398B45CD680Eint * 0x10000000000000000int <= 0xBF1799B67A731E1Dint * 0xBF1799B67A731E1Dint);
    lemma_chain_upper(0x374B6061420C93int, 1, 0xBF1799B67A73104Bint, 44, 64, 0x8EA4398B45CD536Dint);
    lemma_chain_lower(0x374B6061420C95int, 1, 0xBF1799B67A731E1Dint, 44, 64, 0x8EA4398B45CD680Eint);
    assert(0x8EA4398B45CD536Dint * 0x8EA4398B45CD536Dint <= 0x9EF5326091A110F5int * 0x8000000000000000int);
    assert(0x9EF5326091A13EEEint * 0x8000000000000000int <= 0x8EA4398B45CD680Eint * 0x8EA4398B45CD680Eint);
    lemma_chain_upper(0x374B6061420C93int, 2, 0x8EA4398B45CD536Dint, 152, 63, 0x9EF5326091A110F5int);
    lemma_chain_lower(0x374B6061420C95int, 2, 0x8EA4398B45CD680Eint, 152, 63, 0x9EF5326091A13EEEint);
    assert(0x9EF5326091A110F5int * 0x9EF5326091A110F5int <= 0xC5672A115506D913int * 0x8000000000000000int);
    assert(0xC5672A1155074B41int * 0x8000000000000000int <= 0x9EF5326091A13EEEint * 0x9EF5326091A13EEEint);
    lemma_chain_upper(0x374B6061420C93int, 3, 0x9EF5326091A110F5int, 367, 63, 0xC5672A115506D913int);
    lemma_chain_lower(0x374B6061420C95int, 3, 0x9EF5326091A13EEEint, 367, 63, 0xC5672A1155074B41int);
    assert(0xC5672A115506D913int * 0xC5672A115506D913int <= 0x9837F0518DB8A6ADint * 0x10000000000000000int);
    assert(0x9837F0518DB956C3int * 0x10000000000000000int <= 0xC5672A1155074B41int * 0xC5672A1155074B41int);
    lemma_chain_upper(0x374B6061420C93int, 4, 0xC5672A115506D913int, 797, 64, 0x9837F0518DB8A6ADint);
    lemma_chain_lower(0x374B6061420C95int, 4, 0xC5672A1155074B41int, 797, 64, 0x9837F0518DB956C3int);
    assert(0x9837F0518DB8A6ADint * 0x9837F0518DB8A6ADint <= 0xB504F333F9DE5DF5int * 0x8000000000000000int);
    assert(0xB504F333F9E000C2int * 0x8000000000000000int <= 0x9837F0518DB956C3int * 0x9837F0518DB956C3int);
    lemma_chain_upper(0x374B6061420C93int, 5, 0x9837F0518DB8A6ADint, 1658, 63, 0xB504F333F9DE5DF5int);
    lemma_chain_lower(0x374B6061420C95int, 5, 0x9837F0518DB956C3int, 1658, 63, 0xB504F333F9E000C2int);
    assert(0xB504F333F9DE5DF5int * 0xB504F333F9DE5DF5int <= 0xFFFFFFFFFFFFED73int * 0x8000000000000000int);
    assert(0x10000000000048DFEint * 0x8000000000000000int <= 0xB504F333F9E000C2int * 0xB504F333F9E000C2int);
    lemma_chain_upper(0x374B6061420C93int, 6, 0xB504F333F9DE5DF5int, 3379, 63, 0xFFFFFFFFFFFFED73int);
    lemma_chain_lower(0x374B6061420C95int, 6, 0xB504F333F9E000C2int, 3379, 63, 0x10000000000048DFEint);
    lemma_chains_round(0x3FEB_A5B0_30A1_064Au64, 101, 7, 1, 0x374B6061420C93int, 0x374B6061420C95int, 0xFFFFFFFFFFFFED73int, 0x10000000000048DFEint, 6821, 64);
}

/// Boundary 103 of schema 7, checked through its squaring chains.
proof fn rounded_7_103()
    ensures
        rounds_root(0x3FEB_F2C2_5BD7_1E09u64, 103, 7),
{
    lemma2_to64();
    lemma2_to64_rest();
    lemma_chain_start(0x37E584B7AE3C11int);
    lemma_chain_start(0x37E584B7AE3C13int);
    assert(0x37E584B7AE3C11int * 0x37E584B7AE3C11int <= 0xC346CCDA249763CFint * 0x100000000000int);
    assert(0xC346CCDA249771C8int * 0x100000000000int <= 0x37E584B7AE3C13int * 0x37E584B7AE3C13int);
    lemma_chain_upper(0x37E584B7AE3C11int, 0, 0x37E584B7AE3C11int, 0, 44, 0xC346CCDA249763CFint);
    lemma_chain_lower(0x37E584B7AE3C13int, 0, 0x37E584B7AE3C13int, 0, 44, 0xC346CCDA249771C8int);
    assert(0xC346CCDA249763CFint * 0xC346CCDA249763CFint <= 0x94F4EFA8FEF7090Cint * 0x10000000000000000int);
    assert(0x94F4EFA8FEF71E5Cint * 0x10000000000000000int <= 0xC346CCDA249771C8int * 0xC346CCDA249771C8int);
    lemma_chain_upper(0x37E584B7AE3C11int, 1, 0xC346CCDA249763CFint, 44, 64, 0x94F4EFA8FEF7090Cint);
    lemma_chain_lower(0x37E584B7AE3C13int, 1, 0xC346CCDA249771C8int, 44, 64, 0x94F4EFA8FEF71E5Cint);
    assert(0x94F4EFA8FEF7090Cint * 0x94F4EFA8FEF7090Cint <= 0xAD583EEA42A14A01int * 0x8000000000000000int);
    assert(0xAD583EEA42A17B9Aint * 0x8000000000000000int <= 0x94F4EFA8FEF71E5Cint * 0x94F4EFA8FEF71E5Cint);
    lemma_chain_upper(0x37E584B7AE3C11int, 2, 0x94F4EFA8FEF7090Cint, 152, 63, 0xAD583EEA42A14A01int);
    lemma_chain_lower(0x37E584B7AE3C13int, 2, 0x94F4EFA8FEF71E5Cint, 152, 63, 0xAD583EEA42A17B9Aint);
    assert(0xAD583EEA42A14A01int * 0xAD583EEA42A14A01int <= 0xEAC0C6E7DD243719int * 0x8000000000000000int);
    assert(0xEAC0C6E7DD24BD6Eint * 0x8000000000000000int <= 0xAD583EEA42A17B9Aint * 0xAD583EEA42A17B9Aint);
    lemma_chain_upper(0x37E584B7AE3C11int, 3, 0xAD583EEA42A14A01int, 367, 63, 0xEAC0C6E7DD243719int);
    lemma_chain_lower(0x37E584B7AE3C13int, 3, 0xAD583EEA42A17B9Aint, 367, 63, 0xEAC0C6E7DD24BD6Eint);
    assert(0xEAC0C6E7DD243719int * 0xEAC0C6E7DD243719int <= 0xD744FCCAD69D6722int * 0x10000000000000000int);
    assert(0xD744FCCAD69E5D7Eint * 0x10000000000000000int <= 0xEAC0C6E7DD24BD6Eint * 0xEAC0C6E7DD24BD6Eint);
    lemma_chain_upper(0x37E584B7AE3C11int, 4, 0xEAC0C6E7DD243719int, 797, 64, 0xD744FCCAD69D6722int);
    lemma_chain_lower(0x37E584B7AE3C13int, 4, 0xEAC0C6E7DD24BD6Eint, 797, 64, 0xD744FCCAD69E5D7Eint);
    assert(0xD744FCCAD69D6722int * 0xD744FCCAD69D6722int <= 0xB504F333F9DE5E18int * 0x10000000000000000int);
    assert(0xB504F333F9DFFC6Aint * 0x10000000000000000int <= 0xD744FCCAD69E5D7Eint * 0xD744FCCAD69E5D7Eint);
    lemma_chain_upper(0x37E584B7AE3C11int, 5, 0xD744FCCAD69D6722int, 1658, 64, 0xB504F333F9DE5E18int);
    lemma_chain_lower(0x37E584B7AE3C13int, 5, 0xD744FCCAD69E5D7Eint, 1658, 64, 0xB504F333F9DFFC6Aint);
    assert(0xB504F333F9DE5E18int * 0xB504F333F9DE5E18int <= 0xFFFFFFFFFFFFEDD6int * 0x8000000000000000int);
    assert(0x100000000000481B5int * 0x8000000000000000int <= 0xB504F333F9DFFC6Aint * 0xB504F333F9DFFC6Aint);
    lemma_chain_upper(0x37E584B7AE3C11int, 6, 0xB504F333F9DE5E18int, 3380, 63, 0xFFFFFFFFFFFFEDD6int);
    lemma_chain_lower(0x37E584B7AE3C13int, 6, 0xB504F333F9DFFC6Aint, 3380, 63, 0x100000000000481B5int);
    lemma_chains_round(0x3FEB_F2C2_5BD7_1E09u64, 103, 7, 1, 0x37E584B7AE3C11int, 0x37E584B7AE3C13int, 0xFFFFFFFFFFFFEDD6int, 0x100000000000481B5int, 6823, 64);
}

/// Boundary 105 of schema 7, checked through its squaring chains.
proof fn rounded_7_105()
    ensures
        rounds_root(0x3FEC_40AB_5FFF_D07Au64, 105, 7),
{
    lemma2_to64();
    lemma2_to64_rest();
    lemma_chain_start(0x388156BFFFA0F3int);
    lemma_chain_start(0x388156BFFFA0F5int);
    assert(0x388156BFFFA0F3int * 0x388156BFFFA0F3int <= 0xC78D74C8ABB9A448int * 0x100000000000int);
    assert(0xC78D74C8ABB9B268int * 0x100000000000int <= 0x388156BFFFA0F5int * 0x388156BFFFA0F5int);
    lemma_chain_upper(0x388156BFFFA0F3int, 0, 0x388156BFFFA0F3int, 0, 44, 0xC78D74C8ABB9A448int);
    lemma_chain_lower(0x388156BFFFA0F5int, 0, 0x388156BFFFA0F5int, 0, 44, 0xC78D74C8ABB9B268int);
    assert(0xC78D74C8ABB9A448int * 0xC78D74C8ABB9A448int <= 0x9B8D39B9D54E40D4int * 0x10000000000000000int);
    assert(0x9B8D39B9D54E56D9int * 0x10000000000000000int <= 0xC78D74C8ABB9B268int * 0xC78D74C8ABB9B268int);
    lemma_chain_upper(0x388156BFFFA0F3int, 1, 0xC78D74C8ABB9A448int, 44, 64, 0x9B8D39B9D54E40D4int);
    lemma_chain_lower(0x388156BFFFA0F5int, 1, 0xC78D74C8ABB9B268int, 44, 64, 0x9B8D39B9D54E56D9int);
    assert(0x9B8D39B9D54E40D4int * 0x9B8D39B9D54E40D4int <= 0xBD08A39F580C052Eint * 0x8000000000000000int);
    assert(0xBD08A39F580C3AB2int * 0x8000000000000000int <= 0x9B8D39B9D54E56D9int * 0x9B8D39B9D54E56D9int);
    lemma_chain_upper(0x388156BFFFA0F3int, 2, 0x9B8D39B9D54E40D4int, 152, 63, 0xBD08A39F580C052Eint);
    lemma_chain_lower(0x388156BFFFA0F5int, 2, 0x9B8D39B9D54E56D9int, 152, 63, 0xBD08A39F580C3AB2int);
    assert(0xBD08A39F580C052Eint * 0xBD08A39F580C052Eint <= 0x8B95C1E3EA8B8DB5int * 0x10000000000000000int);
    assert(0x8B95C1E3EA8BDCBCint * 0x10000000000000000int <= 0xBD08A39F580C3AB2int * 0xBD08A39F580C3AB2int);
    lemma_chain_upper(0x388156BFFFA0F3int, 3, 0xBD08A39F580C052Eint, 367, 64, 0x8B95C1E3EA8B8DB5int);
    lemma_chain_lower(0x388156BFFFA0F5int, 3, 0xBD08A39F580C3AB2int, 367, 64, 0x8B95C1E3EA8BDCBCint);
    assert(0x8B95C1E3EA8B8DB5int * 0x8B95C1E3EA8B8DB5int <= 0x9837F0518DB809CCint * 0x8000000000000000int);
    assert(0x9837F0518DB8B627int * 0x8000000000000000int <= 0x8B95C1E3EA8BDCBCint * 0x8B95C1E3EA8BDCBCint);
    lemma_chain_upper(0x388156BFFFA0F3int, 4, 0x8B95C1E3EA8B8DB5int, 798, 63, 0x9837F0518DB809CCint);
    lemma_chain_lower(0x388156BFFFA0F5int, 4, 0x8B95C1E3EA8BDCBCint, 798, 63, 0x9837F0518DB8B627int);
    assert(0x9837F0518DB809CCint * 0x9837F0518DB809CCint <= 0xB504F333F9DCE8D6int * 0x8000000000000000int);
    assert(0xB504F333F9DE82C3int * 0x8000000000000000int <= 0x9837F0518DB8B627int * 0x9837F0518DB8B627int);
    lemma_chain_upper(0x388156BFFFA0F3int, 5, 0x9837F0518DB809CCint, 1659, 63, 0xB504F333F9DCE8D6int);
    lemma_chain_lower(0x388156BFFFA0F5int, 5, 0x9837F0518DB8B627int, 1659, 63, 0xB504F333F9DE82C3int);
    assert(0xB504F333F9DCE8D6int * 0xB504F333F9DCE8D6int <= 0xFFFFFFFFFFFBCE1Aint * 0x8000000000000000int);
    assert(0x1000000000000558Bint * 0x8000000000000000int <= 0xB504F333F9DE82C3int * 0xB504F333F9DE82C3int);
    lemma_chain_upper(0x388156BFFFA0F3int, 6, 0xB504F333F9DCE8D6int, 3381, 63, 0xFFFFFFFFFFFBCE1Aint);
    lemma_chain_lower(0x388156BFFFA0F5int, 6, 0xB504F333F9DE82C3int, 3381, 63, 0x1000000000000558Bint);
    lemma_chains_round(0x3FEC_40AB_5FFF_D07Au64, 105, 7, 1, 0x388156BFFFA0F3int, 0x388156BFFFA0F5int, 0xFFFFFFFFFFFBCE1Aint, 0x1000000000000558Bint, 6825, 64);
}

/// Boundary 107 of schema 7, checked through its squaring chains.
proof fn rounded_7_107()
    ensures
        rounds_root(0x3FEC_8F6D_9406_E7B5u64, 107, 7),
{
    lemma2_to64();
    lemma2_to64_rest();
    lemma_chain_start(0x391EDB280DCF69int);
    lemma_chain_start(0x391EDB280DCF6Bint);
    assert(0x391EDB280DCF69int * 0x391EDB280DCF69int <= 0xCBEC14FEF272743Dint * 0x100000000000int);
    assert(0xCBEC14FEF2728284int * 0x100000000000int <= 0x391EDB280DCF6Bint * 0x391EDB280DCF6Bint);
    lemma_chain_upper(0x391EDB280DCF69int, 0, 0x391EDB280DCF69int, 0, 44, 0xCBEC14FEF272743Dint);
    lemma_chain_lower(0x391EDB280DCF6Bint, 0, 0x391EDB280DCF6Bint, 0, 44, 0xCBEC14FEF2728284int);
    assert(0xCBEC14FEF272743Dint * 0xCBEC14FEF272743Dint <= 0xA27043030C495B27int * 0x10000000000000000int);
    assert(0xA27043030C4971E5int * 0x10000000000000000int <= 0xCBEC14FEF2728284int * 0xCBEC14FEF2728284int);
    lemma_chain_upper(0x391EDB280DCF69int, 1, 0xCBEC14FEF272743Dint, 44, 64, 0xA27043030C495B27int);
    lemma_chain_lower(0x391EDB280DCF6Bint, 1, 0xCBEC14FEF2728284int, 44, 64, 0xA27043030C4971E5int);
    assert(0xA27043030C495B27int * 0xA27043030C495B27int <= 0xCE248C151F84600Aint * 0x8000000000000000int);
    assert(0xCE248C151F8499C2int * 0x8000000000000000int <= 0xA27043030C4971E5int * 0xA27043030C4971E5int);
    lemma_chain_upper(0x391EDB280DCF69int, 2, 0xA27043030C495B27int, 152, 63, 0xCE248C151F84600Aint);
    lemma_chain_lower(0x391EDB280DCF6Bint, 2, 0xA27043030C4971E5int, 152, 63, 0xCE248C151F8499C2int);
    assert(0xCE248C151F84600Aint * 0xCE248C151F84600Aint <= 0xA5FED6A9B1510403int * 0x10000000000000000int);
    assert(0xA5FED6A9B15160F6int * 0x10000000000000000int <= 0xCE248C151F8499C2int * 0xCE248C151F8499C2int);
    lemma_chain_upper(0x391EDB280DCF69int, 3, 0xCE248C151F84600Aint, 367, 64, 0xA5FED6A9B1510403int);
    lemma_chain_lower(0x391EDB280DCF6Bint, 3, 0xCE248C151F8499C2int, 367, 64, 0xA5FED6A9B15160F6int);
    assert(0xA5FED6A9B1510403int * 0xA5FED6A9B1510403int <= 0xD744FCCAD69CE1BEint * 0x8000000000000000int);
    assert(0xD744FCCAD69DD2D2int * 0x8000000000000000int <= 0xA5FED6A9B15160F6int * 0xA5FED6A9B15160F6int);
    lemma_chain_upper(0x391EDB280DCF69int, 4, 0xA5FED6A9B1510403int, 798, 63, 0xD744FCCAD69CE1BEint);
    lemma_chain_lower(0x391EDB280DCF6Bint, 4, 0xA5FED6A9B15160F6int, 798, 63, 0xD744FCCAD69DD2D2int);
    assert(0xD744FCCAD69CE1BEint * 0xD744FCCAD69CE1BEint <= 0xB504F333F9DD7DC2int * 0x10000000000000000int);
    assert(0xB504F333F9DF1332int * 0x10000000000000000int <= 0xD744FCCAD69DD2D2int * 0xD744FCCAD69DD2D2int);
    lemma_chain_upper(0x391EDB280DCF69int, 5, 0xD744FCCAD69CE1BEint, 1659, 64, 0xB504F333F9DD7DC2int);
    lemma_chain_lower(0x391EDB280DCF6Bint, 5, 0xD744FCCAD69DD2D2int, 1659, 64, 0xB504F333F9DF1332int);
    assert(0xB504F333F9DD7DC2int * 0xB504F333F9DD7DC2int <= 0xFFFFFFFFFFFD7351int * 0x8000000000000000int);
    assert(0x1000000000001EE10int * 0x8000000000000000int <= 0xB504F333F9DF1332int * 0xB504F333F9DF1332int);
    lemma_chain_upper(0x391EDB280DCF69int, 6, 0xB504F333F9DD7DC2int, 3382, 63, 0xFFFFFFFFFFFD7351int);
    lemma_chain_lower(0x391EDB280DCF6Bint, 6, 0xB504F333F9DF1332int, 3382, 63, 0x1000000000001EE10int);
    lemma_chains_round(0x3FEC_8F6D_9406_E7B5u64, 107, 7, 1, 0x391EDB280DCF69int, 0x391EDB280DCF6Bint, 0xFFFFFFFFFFFD7351int, 0x1000000000001EE10int, 6827, 64);
}

/// Boundary 109 of schema 7, checked through its squaring chains.
proof fn rounded_7_109()
    ensures
        rounds_root(0x3FEC_DF0B_555D_C3FAu64, 109, 7),
{
    lemma2_to64();
    lemma2_to64_rest();
    lemma_chain_start(0x39BE16AABB87F3int);
    lemma_chain_start(0x39BE16AABB87F5int);
    assert(0x39BE16AABB87F3int * 0x39BE16AABB87F3int <= 0xD06333DAEF2B21BBint * 0x100000000000int);
    assert(0xD06333DAEF2B302Aint * 0x100000000000int <= 0x39BE16AABB87F5int * 0x39BE16AABB87F5int);
    lemma_chain_upper(0x39BE16AABB87F3int, 0, 0x39BE16AABB87F3int, 0, 44, 0xD06333DAEF2B21BBint);
    lemma_chain_lower(0x39BE16AABB87F5int, 0, 0x39BE16AABB87F5int, 0, 44, 0xD06333DAEF2B302Aint);
    assert(0xD06333DAEF2B21BBint * 0xD06333DAEF2B21BBint <= 0xA9A15AB4EA7C08B4int * 0x10000000000000000int);
    assert(0xA9A15AB4EA7C2032int * 0x10000000000000000int <= 0xD06333DAEF2B302Aint * 0xD06333DAEF2B302Aint);
    lemma_chain_upper(0x39BE16AABB87F3int, 1, 0xD06333DAEF2B21BBint, 44, 64, 0xA9A15AB4EA7C08B4int);
    lemma_chain_lower(0x39BE16AABB87F5int, 1, 0xD06333DAEF2B302Aint, 44, 64, 0xA9A15AB4EA7C2032int);
    assert(0xA9A15AB4EA7C08B4int * 0xA9A15AB4EA7C08B4int <= 0xE0CCDEEC2A94D075int * 0x8000000000000000int);
    assert(0xE0CCDEEC2A950EB8int * 0x8000000000000000int <= 0xA9A15AB4EA7C2032int * 0xA9A15AB4EA7C2032int);
    lemma_chain_upper(0x39BE16AABB87F3int, 2, 0xA9A15AB4EA7C08B4int, 152, 63, 0xE0CCDEEC2A94D075int);
    lemma_chain_lower(0x39BE16AABB87F5int, 2, 0xA9A15AB4EA7C2032int, 152, 63, 0xE0CCDEEC2A950EB8int);
    assert(0xE0CCDEEC2A94D075int * 0xE0CCDEEC2A94D075int <= 0xC5672A115506BDB2int * 0x10000000000000000int);
    assert(0xC5672A1155072B0Aint * 0x10000000000000000int <= 0xE0CCDEEC2A950EB8int * 0xE0CCDEEC2A950EB8int);
    lemma_chain_upper(0x39BE16AABB87F3int, 3, 0xE0CCDEEC2A94D075int, 367, 64, 0xC5672A115506BDB2int);
    lemma_chain_lower(0x39BE16AABB87F5int, 3, 0xE0CCDEEC2A950EB8int, 367, 64, 0xC5672A1155072B0Aint);
    assert(0xC5672A115506BDB2int * 0xC5672A115506BDB2int <= 0x9837F0518DB87C74int * 0x10000000000000000int);
    assert(0x9837F0518DB92514int * 0x10000000000000000int <= 0xC5672A1155072B0Aint * 0xC5672A1155072B0Aint);
    lemma_chain_upper(0x39BE16AABB87F3int, 4, 0xC5672A115506BDB2int, 798, 64, 0x9837F0518DB87C74int);
    lemma_chain_lower(0x39BE16AABB87F5int, 4, 0xC5672A1155072B0Aint, 798, 64, 0x9837F0518DB92514int);
    assert(0x9837F0518DB87C74int * 0x9837F0518DB87C74int <= 0xB504F333F9DDF989int * 0x8000000000000000int);
    assert(0xB504F333F9DF8A97int * 0x8000000000000000int <= 0x9837F0518DB92514int * 0x9837F0518DB92514int);
    lemma_chain_upper(0x39BE16AABB87F3int, 5, 0x9837F0518DB87C74int, 1660, 63, 0xB504F333F9DDF989int);
    lemma_chain_lower(0x39BE16AABB87F5int, 5, 0x9837F0518DB92514int, 1660, 63, 0xB504F333F9DF8A97int);
    assert(0xB504F333F9DDF989int * 0xB504F333F9DDF989int <= 0xFFFFFFFFFFFED169int * 0x8000000000000000int);
    assert(0x10000000000033FC3int * 0x8000000000000000int <= 0xB504F333F9DF8A97int * 0xB504F333F9DF8A97int);
    lemma_chain_upper(0x39BE16AABB87F3int, 6, 0xB504F333F9DDF989int, 3383, 63, 0xFFFFFFFFFFFED169int);
    lemma_chain_lower(0x39BE16AABB87F5int, 6, 0xB504F333F9DF8A97int, 3383, 63, 0x10000000000033FC3int);
    lemma_chains_round(0x3FEC_DF0B_555D_C3FAu64, 109, 7, 1, 0x39BE16AABB87F3int, 0x39BE16AABB87F5int, 0xFFFFFFFFFFFED169int, 0x10000000000033FC3int, 6829, 64);
}

/// Boundary 111 of schema 7, checked through its squaring chains.
proof fn rounded_7_111()
    ensures
        rounds_root(0x3FED_2F87_080D_89F2u64, 111, 7),
{
    lemma2_to64();
    lemma2_to64_rest();
    lemma_chain_start(0x3A5F0E101B13E3int);
    lemma_chain_start(0x3A5F0E101B13E5int);
    assert(0x3A5F0E101B13E3int * 0x3A5F0E101B13E3int <= 0xD4F35AABCFEDF981int * 0x100000000000int);
    assert(0xD4F35AABCFEE0818int * 0x100000000000int <= 0x3A5F0E101B13E5int * 0x3A5F0E101B13E5int);
    lemma_chain_upper(0x3A5F0E101B13E3int, 0, 0x3A5F0E101B13E3int, 0, 44, 0xD4F35AABCFEDF981int);
    lemma_chain_lower(0x3A5F0E101B13E5int, 0, 0x3A5F0E101B13E5int, 0, 44, 0xD4F35AABCFEE0818int);
    assert(0xD4F35AABCFEDF981int * 0xD4F35AABCFEDF981int <= 0xB123F581D2AC2489int * 0x10000000000000000int);
    assert(0xB123F581D2AC3CCDint * 0x10000000000000000int <= 0xD4F35AABCFEE0818int * 0xD4F35AABCFEE0818int);
    lemma_chain_upper(0x3A5F0E101B13E3int, 1, 0xD4F35AABCFEDF981int, 44, 64, 0xB123F581D2AC2489int);
    lemma_chain_lower(0x3A5F0E101B13E5int, 1, 0xD4F35AABCFEE0818int, 44, 64, 0xB123F581D2AC3CCDint);
    assert(0xB123F581D2AC2489int * 0xB123F581D2AC2489int <= 0xF5257D152486C956int * 0x8000000000000000int);
    assert(0xF5257D1524870C7Fint * 0x8000000000000000int <= 0xB123F581D2AC3CCDint * 0xB123F581D2AC3CCDint);
    lemma_chain_upper(0x3A5F0E101B13E3int, 2, 0xB123F581D2AC2489int, 152, 63, 0xF5257D152486C956int);
    lemma_chain_lower(0x3A5F0E101B13E5int, 2, 0xB123F581D2AC3CCDint, 152, 63, 0xF5257D1524870C7Fint);
    assert(0xF5257D152486C956int * 0xF5257D152486C956int <= 0xEAC0C6E7DD2433C0int * 0x10000000000000000int);
    assert(0xEAC0C6E7DD24B45Fint * 0x10000000000000000int <= 0xF5257D1524870C7Fint * 0xF5257D1524870C7Fint);
    lemma_chain_upper(0x3A5F0E101B13E3int, 3, 0xF5257D152486C956int, 367, 64, 0xEAC0C6E7DD2433C0int);
    lemma_chain_lower(0x3A5F0E101B13E5int, 3, 0xF5257D1524870C7Fint, 367, 64, 0xEAC0C6E7DD24B45Fint);
    assert(0xEAC0C6E7DD2433C0int * 0xEAC0C6E7DD2433C0int <= 0xD744FCCAD69D60FEint * 0x10000000000000000int);
    assert(0xD744FCCAD69E4CE1int * 0x10000000000000000int <= 0xEAC0C6E7DD24B45Fint * 0xEAC0C6E7DD24B45Fint);
    lemma_chain_upper(0x3A5F0E101B13E3int, 4, 0xEAC0C6E7DD2433C0int, 798, 64, 0xD744FCCAD69D60FEint);
    lemma_chain_lower(0x3A5F0E101B13E5int, 4, 0xEAC0C6E7DD24B45Fint, 798, 64, 0xD744FCCAD69E4CE1int);
    assert(0xD744FCCAD69D60FEint * 0xD744FCCAD69D60FEint <= 0xB504F333F9DE53C4int * 0x10000000000000000int);
    assert(0xB504F333F9DFE079int * 0x10000000000000000int <= 0xD744FCCAD69E4CE1int * 0xD744FCCAD69E4CE1int);
    lemma_chain_upper(0x3A5F0E101B13E3int, 5, 0xD744FCCAD69D60FEint, 1660, 64, 0xB504F333F9DE53C4int);
    lemma_chain_lower(0x3A5F0E101B13E5int, 5, 0xD744FCCAD69E4CE1int, 1660, 64, 0xB504F333F9DFE079int);
    assert(0xB504F333F9DE53C4int * 0xB504F333F9DE53C4int <= 0xFFFFFFFFFFFFD09Fint * 0x8000000000000000int);
    assert(0x100000000000432ADint * 0x8000000000000000int <= 0xB504F333F9DFE079int * 0xB504F333F9DFE079int);
    lemma_chain_upper(0x3A5F0E101B13E3int, 6, 0xB504F333F9DE53C4int, 3384, 63, 0xFFFFFFFFFFFFD09Fint);
    lemma_chain_lower(0x3A5F0E101B13E5int, 6, 0xB504F333F9DFE079int, 3384, 63, 0x100000000000432ADint);
    lemma_chains_round(0x3FED_2F87_080D_89F2u64, 111, 7, 1, 0x3A5F0E101B13E3int, 0x3A5F0E101B13E5int, 0xFFFFFFFFFFFFD09Fint, 0x100000000000432ADint, 6831, 64);
}

/// Boundary 113 of schema 7, checked through its squaring chains.
proof fn rounded_7_113()
    ensures
        rounds_root(0x3FED_80E3_16C9_8398u64, 113, 7),
{
    lemma2_to64();
    lemma2_to64_rest();
    lemma_chain_start(0x3B01C62D93072Fint);
    lemma_chain_start(0x3B01C62D930731int);
    assert(0x3B01C62D93072Fint * 0x3B01C62D93072Fint <= 0xD99D15C278AFD448int * 0x100000000000int);
    assert(0xD99D15C278AFE308int * 0x100000000000int <= 0x3B01C62D930731int * 0x3B01C62D930731int);
    lemma_chain_upper(0x3B01C62D93072Fint, 0, 0x3B01C62D93072Fint, 0, 44, 0xD99D15C278AFD448int);
    lemma_chain_lower(0x3B01C62D930731int, 0, 0x3B01C62D930731int, 0, 44, 0xD99D15C278AFE308int);
    assert(0xD99D15C278AFD448int * 0xD99D15C278AFD448int <= 0xB8FBAF4762FB9915int * 0x10000000000000000int);
    assert(0xB8FBAF4762FBB228int * 0x10000000000000000int <= 0xD99D15C278AFE308int * 0xD99D15C278AFE308int);
    lemma_chain_upper(0x3B01C62D93072Fint, 1, 0xD99D15C278AFD448int, 44, 64, 0xB8FBAF4762FB9915int);
    lemma_chain_lower(0x3B01C62D930731int, 1, 0xD99D15C278AFE308int, 44, 64, 0xB8FBAF4762FBB228int);
    assert(0xB8FBAF4762FB9915int * 0xB8FBAF4762FB9915int <= 0x85AAC367CC4872A9int * 0x10000000000000000int);
    assert(0x85AAC367CC4896E5int * 0x10000000000000000int <= 0xB8FBAF4762FBB228int * 0xB8FBAF4762FBB228int);
    lemma_chain_upper(0x3B01C62D93072Fint, 2, 0xB8FBAF4762FB9915int, 152, 64, 0x85AAC367CC4872A9int);
    lemma_chain_lower(0x3B01C62D930731int, 2, 0xB8FBAF4762FBB228int, 152, 64, 0x85AAC367CC4896E5int);
    assert(0x85AAC367CC4872A9int * 0x85AAC367CC4872A9int <= 0x8B95C1E3EA8BC551int * 0x8000000000000000int);
    assert(0x8B95C1E3EA8C10FDint * 0x8000000000000000int <= 0x85AAC367CC4896E5int * 0x85AAC367CC4896E5int);
    lemma_chain_upper(0x3B01C62D93072Fint, 3, 0x85AAC367CC4872A9int, 368, 63, 0x8B95C1E3EA8BC551int);
    lemma_chain_lower(0x3B01C62D930731int, 3, 0x85AAC367CC4896E5int, 368, 63, 0x8B95C1E3EA8C10FDint);
    assert(0x8B95C1E3EA8BC551int * 0x8B95C1E3EA8BC551int <= 0x9837F0518DB88315int * 0x8000000000000000int);
    assert(0x9837F0518DB9281Fint * 0x8000000000000000int <= 0x8B95C1E3EA8C10FDint * 0x8B95C1E3EA8C10FDint);
    lemma_chain_upper(0x3B01C62D93072Fint, 4, 0x8B95C1E3EA8BC551int, 799, 63, 0x9837F0518DB88315int);
    lemma_chain_lower(0x3B01C62D930731int, 4, 0x8B95C1E3EA8C10FDint, 799, 63, 0x9837F0518DB9281Fint);
    assert(0x9837F0518DB88315int * 0x9837F0518DB88315int <= 0xB504F333F9DE094Dint * 0x8000000000000000int);
    assert(0xB504F333F9DF91D4int * 0x8000000000000000int <= 0x9837F0518DB9281Fint * 0x9837F0518DB9281Fint);
    lemma_chain_upper(0x3B01C62D93072Fint, 5, 0x9837F0518DB88315int, 1661, 63, 0xB504F333F9DE094Dint);
    lemma_chain_lower(0x3B01C62D930731int, 5, 0x9837F0518DB9281Fint, 1661, 63, 0xB504F333F9DF91D4int);
    assert(0xB504F333F9DE094Dint * 0xB504F333F9DE094Dint <= 0xFFFFFFFFFFFEFE01int * 0x8000000000000000int);
    assert(0x1000000000003543Cint * 0x8000000000000000int <= 0xB504F333F9DF91D4int * 0xB504F333F9DF91D4int);
    lemma_chain_upper(0x3B01C62D93072Fint, 6, 0xB504F333F9DE094Dint, 3385, 63, 0xFFFFFFFFFFFEFE01int);
    lemma_chain_lower(0x3B01C62D930731int, 6, 0xB504F333F9DF91D4int, 3385, 63, 0x1000000000003543Cint);
    lemma_chains_round(0x3FED_80E3_16C9_8398u64, 113, 7, 1, 0x3B01C62D93072Fint, 0x3B01C62D930731int, 0xFFFFFFFFFFFEFE01int, 0x1000000000003543Cint, 6833, 64);
}

/// Boundary 115 of schema 7, checked through its squaring chains.
proof fn rounded_7_115()
    ensures
        rounds_root(0x3FED_D321_F301_B460u64, 115, 7),
{
    lemma2_to64();
    lemma2_to64_rest();
    lemma_chain_start(0x3BA643E60368BFint);
    lemma_chain_start(0x3BA643E60368C1int);
    assert(0x3BA643E60368BFint * 0x3BA643E60368BFint <= 0xDE60F4825E0E854Bint * 0x100000000000int);
    assert(0xDE60F4825E0E9434int * 0x100000000000int <= 0x3BA643E60368C1int * 0x3BA643E60368C1int);
    lemma_chain_upper(0x3BA643E60368BFint, 0, 0x3BA643E60368BFint, 0, 44, 0xDE60F4825E0E854Bint);
    lemma_chain_lower(0x3BA643E60368C1int, 0, 0x3BA643E60368C1int, 0, 44, 0xDE60F4825E0E9434int);
    assert(0xDE60F4825E0E854Bint * 0xDE60F4825E0E854Bint <= 0xC12C4CCA66707FC2int * 0x10000000000000000int);
    assert(0xC12C4CCA667099A8int * 0x10000000000000000int <= 0xDE60F4825E0E9434int * 0xDE60F4825E0E9434int);
    lemma_chain_upper(0x3BA643E60368BFint, 1, 0xDE60F4825E0E854Bint, 44, 64, 0xC12C4CCA66707FC2int);
    lemma_chain_lower(0x3BA643E60368C1int, 1, 0xDE60F4825E0E9434int, 44, 64, 0xC12C4CCA667099A8int);
    assert(0xC12C4CCA66707FC2int * 0xC12C4CCA66707FC2int <= 0x91C3D373AB11A428int * 0x10000000000000000int);
    assert(0x91C3D373AB11CB3Cint * 0x10000000000000000int <= 0xC12C4CCA667099A8int * 0xC12C4CCA667099A8int);
    lemma_chain_upper(0x3BA643E60368BFint, 2, 0xC12C4CCA66707FC2int, 152, 64, 0x91C3D373AB11A428int);
    lemma_chain_lower(0x3BA643E60368C1int, 2, 0xC12C4CCA667099A8int, 152, 64, 0x91C3D373AB11CB3Cint);
    assert(0x91C3D373AB11A428int * 0x91C3D373AB11A428int <= 0xA5FED6A9B150F230int * 0x8000000000000000int);
    assert(0xA5FED6A9B1514B30int * 0x8000000000000000int <= 0x91C3D373AB11CB3Cint * 0x91C3D373AB11CB3Cint);
    lemma_chain_upper(0x3BA643E60368BFint, 3, 0x91C3D373AB11A428int, 368, 63, 0xA5FED6A9B150F230int);
    lemma_chain_lower(0x3BA643E60368C1int, 3, 0x91C3D373AB11CB3Cint, 368, 63, 0xA5FED6A9B1514B30int);
    assert(0xA5FED6A9B150F230int * 0xA5FED6A9B150F230int <= 0xD744FCCAD69CB383int * 0x8000000000000000int);
    assert(0xD744FCCAD69D9A59int * 0x8000000000000000int <= 0xA5FED6A9B1514B30int * 0xA5FED6A9B1514B30int);
    lemma_chain_upper(0x3BA643E60368BFint, 4, 0xA5FED6A9B150F230int, 799, 63, 0xD744FCCAD69CB383int);
    lemma_chain_lower(0x3BA643E60368C1int, 4, 0xA5FED6A9B1514B30int, 799, 63, 0xD744FCCAD69D9A59int);
    assert(0xD744FCCAD69CB383int * 0xD744FCCAD69CB383int <= 0xB504F333F9DD3002int * 0x10000000000000000int);
    assert(0xB504F333F9DEB439int * 0x10000000000000000int <= 0xD744FCCAD69D9A59int * 0xD744FCCAD69D9A59int);
    lemma_chain_upper(0x3BA643E60368BFint, 5, 0xD744FCCAD69CB383int, 1661, 64, 0xB504F333F9DD3002int);
    lemma_chain_lower(0x3BA643E60368C1int, 5, 0xD744FCCAD69D9A59int, 1661, 64, 0xB504F333F9DEB439int);
    assert(0xB504F333F9DD3002int * 0xB504F333F9DD3002int <= 0xFFFFFFFFFFFC9768int * 0x8000000000000000int);
    assert(0x1000000000000E171int * 0x8000000000000000int <= 0xB504F333F9DEB439int * 0xB504F333F9DEB439int);
    lemma_chain_upper(0x3BA643E60368BFint, 6, 0xB504F333F9DD3002int, 3386, 63, 0xFFFFFFFFFFFC9768int);
    lemma_chain_lower(0x3BA643E60368C1int, 6, 0xB504F333F9DEB439int, 3386, 63, 0x1000000000000E171int);
    lemma_chains_round(0x3FED_D321_F301_B460u64, 115, 7, 1, 0x3BA643E60368BFint, 0x3BA643E60368C1int, 0xFFFFFFFFFFFC9768int, 0x1000000000000E171int, 6835, 64);
}

/// Boundary 117 of schema 7, checked through its squaring chains.
proof fn rounded_7_117()
    ensures
        rounds_root(0x3FEE_2646_14F5_A129u64, 117, 7),
{
    lemma2_to64();
    lemma2_to64_rest();
    lemma_chain_start(0x3C4C8C29EB4251int);
    lemma_chain_start(0x3C4C8C29EB4253int);
    assert(0x3C4C8C29EB4251int * 0x3C4C8C29EB4251int <= 0xE33F8972BE8A585Eint * 0x100000000000int);
    assert(0xE33F8972BE8A6770int * 0x100000000000int <= 0x3C4C8C29EB4253int * 0x3C4C8C29EB4253int);
    lemma_chain_upper(0x3C4C8C29EB4251int, 0, 0x3C4C8C29EB4251int, 0, 44, 0xE33F8972BE8A585Eint);
    lemma_chain_lower(0x3C4C8C29EB4253int, 0, 0x3C4C8C29EB4253int, 0, 44, 0xE33F8972BE8A6770int);
    assert(0xE33F8972BE8A585Eint * 0xE33F8972BE8A585Eint <= 0xC9B9BD866E2F242Dint * 0x10000000000000000int);
    assert(0xC9B9BD866E2F3EEDint * 0x10000000000000000int <= 0xE33F8972BE8A6770int * 0xE33F8972BE8A6770int);
    lemma_chain_upper(0x3C4C8C29EB4251int, 1, 0xE33F8972BE8A585Eint, 44, 64, 0xC9B9BD866E2F242Dint);
    lemma_chain_lower(0x3C4C8C29EB4253int, 1, 0xE33F8972BE8A6770int, 44, 64, 0xC9B9BD866E2F3EEDint);
    assert(0xC9B9BD866E2F242Dint * 0xC9B9BD866E2F242Dint <= 0x9EF5326091A10C3Bint * 0x10000000000000000int);
    assert(0x9EF5326091A13662int * 0x10000000000000000int <= 0xC9B9BD866E2F3EEDint * 0xC9B9BD866E2F3EEDint);
    lemma_chain_upper(0x3C4C8C29EB4251int, 2, 0xC9B9BD866E2F242Dint, 152, 64, 0x9EF5326091A10C3Bint);
    lemma_chain_lower(0x3C4C8C29EB4253int, 2, 0xC9B9BD866E2F3EEDint, 152, 64, 0x9EF5326091A13662int);
    assert(0x9EF5326091A10C3Bint * 0x9EF5326091A10C3Bint <= 0xC5672A115506CD56int * 0x8000000000000000int);
    assert(0xC5672A1155073607int * 0x8000000000000000int <= 0x9EF5326091A13662int * 0x9EF5326091A13662int);
    lemma_chain_upper(0x3C4C8C29EB4251int, 3, 0x9EF5326091A10C3Bint, 368, 63, 0xC5672A115506CD56int);
    lemma_chain_lower(0x3C4C8C29EB4253int, 3, 0x9EF5326091A13662int, 368, 63, 0xC5672A1155073607int);
    assert(0xC5672A115506CD56int * 0xC5672A115506CD56int <= 0x9837F0518DB89493int * 0x10000000000000000int);
    assert(0x9837F0518DB93607int * 0x10000000000000000int <= 0xC5672A1155073607int * 0xC5672A1155073607int);
    lemma_chain_upper(0x3C4C8C29EB4251int, 4, 0xC5672A115506CD56int, 799, 64, 0x9837F0518DB89493int);
    lemma_chain_lower(0x3C4C8C29EB4253int, 4, 0xC5672A1155073607int, 799, 64, 0x9837F0518DB93607int);
    assert(0x9837F0518DB89493int * 0x9837F0518DB89493int <= 0xB504F333F9DE32E7int * 0x8000000000000000int);
    assert(0xB504F333F9DFB2E7int * 0x8000000000000000int <= 0x9837F0518DB93607int * 0x9837F0518DB93607int);
    lemma_chain_upper(0x3C4C8C29EB4251int, 5, 0x9837F0518DB89493int, 1662, 63, 0xB504F333F9DE32E7int);
    lemma_chain_lower(0x3C4C8C29EB4253int, 5, 0x9837F0518DB93607int, 1662, 63, 0xB504F333F9DFB2E7int);
    assert(0xB504F333F9DE32E7int * 0xB504F333F9DE32E7int <= 0xFFFFFFFFFFFF73ACint * 0x8000000000000000int);
    assert(0x1000000000003B1C8int * 0x8000000000000000int <= 0xB504F333F9DFB2E7int * 0xB504F333F9DFB2E7int);
    lemma_chain_upper(0x3C4C8C29EB4251int, 6, 0xB504F333F9DE32E7int, 3387, 63, 0xFFFFFFFFFFFF73ACint);
    lemma_chain_lower(0x3C4C8C29EB4253int, 6, 0xB504F333F9DFB2E7int, 3387, 63, 0x1000000000003B1C8int);
    lemma_chains_round(0x3FEE_2646_14F5_A129u64, 117, 7, 1, 0x3C4C8C29EB4251int, 0x3C4C8C29EB4253int, 0xFFFFFFFFFFFF73ACint, 0x1000000000003B1C8int, 6837, 64);
}

/// Boundary 119 of schema 7, checked through its squaring chains.
proof fn rounded_7_119()
    ensures
        rounds_root(0x3FEE_7A51_FBC7_4C83u64, 119, 7),
{
    lemma2_to64();
    lemma2_to64_rest();
    lemma_chain_start(0x3CF4A3F78E9905int);
    lemma_chain_start(0x3CF4A3F78E9907int);
    assert(0x3CF4A3F78E9905int * 0x3CF4A3F78E9905int <= 0xE8396A503C4BD04Eint * 0x100000000000int);
    assert(0xE8396A503C4BDF8Bint * 0x100000000000int <= 0x3CF4A3F78E9907int * 0x3CF4A3F78E9907int);
    lemma_chain_upper(0x3CF4A3F78E9905int, 0, 0x3CF4A3F78E9905int, 0, 44, 0xE8396A503C4BD04Eint);
    lemma_chain_lower(0x3CF4A3F78E9907int, 0, 0x3CF4A3F78E9907int, 0, 44, 0xE8396A503C4BDF8Bint);
    assert(0xE8396A503C4BD04Eint * 0xE8396A503C4BD04Eint <= 0xD2A81D91F12ACE65int * 0x10000000000000000int);
    assert(0xD2A81D91F12AEA0Aint * 0x10000000000000000int <= 0xE8396A503C4BDF8Bint * 0xE8396A503C4BDF8Bint);
    lemma_chain_upper(0x3CF4A3F78E9905int, 1, 0xE8396A503C4BD04Eint, 44, 64, 0xD2A81D91F12ACE65int);
    lemma_chain_lower(0x3CF4A3F78E9907int, 1, 0xE8396A503C4BDF8Bint, 44, 64, 0xD2A81D91F12AEA0Aint);
    assert(0xD2A81D91F12ACE65int * 0xD2A81D91F12ACE65int <= 0xAD583EEA42A126A4int * 0x10000000000000000int);
    assert(0xAD583EEA42A15422int * 0x10000000000000000int <= 0xD2A81D91F12AEA0Aint * 0xD2A81D91F12AEA0Aint);
    lemma_chain_upper(0x3CF4A3F78E9905int, 2, 0xD2A81D91F12ACE65int, 152, 64, 0xAD583EEA42A126A4int);
    lemma_chain_lower(0x3CF4A3F78E9907int, 2, 0xD2A81D91F12AEA0Aint, 152, 64, 0xAD583EEA42A15422int);
    assert(0xAD583EEA42A126A4int * 0xAD583EEA42A126A4int <= 0xEAC0C6E7DD23D751int * 0x8000000000000000int);
    assert(0xEAC0C6E7DD245287int * 0x8000000000000000int <= 0xAD583EEA42A15422int * 0xAD583EEA42A15422int);
    lemma_chain_upper(0x3CF4A3F78E9905int, 3, 0xAD583EEA42A126A4int, 368, 63, 0xEAC0C6E7DD23D751int);
    lemma_chain_lower(0x3CF4A3F78E9907int, 3, 0xAD583EEA42A15422int, 368, 63, 0xEAC0C6E7DD245287int);
    assert(0xEAC0C6E7DD23D751int * 0xEAC0C6E7DD23D751int <= 0xD744FCCAD69CB778int * 0x10000000000000000int);
    assert(0xD744FCCAD69D996Fint * 0x10000000000000000int <= 0xEAC0C6E7DD245287int * 0xEAC0C6E7DD245287int);
    lemma_chain_upper(0x3CF4A3F78E9905int, 4, 0xEAC0C6E7DD23D751int, 799, 64, 0xD744FCCAD69CB778int);
    lemma_chain_lower(0x3CF4A3F78E9907int, 4, 0xEAC0C6E7DD245287int, 799, 64, 0xD744FCCAD69D996Fint);
    assert(0xD744FCCAD69CB778int * 0xD744FCCAD69CB778int <= 0xB504F333F9DD36A9int * 0x10000000000000000int);
    assert(0xB504F333F9DEB2AFint * 0x10000000000000000int <= 0xD744FCCAD69D996Fint * 0xD744FCCAD69D996Fint);
    lemma_chain_upper(0x3CF4A3F78E9905int, 5, 0xD744FCCAD69CB778int, 1662, 64, 0xB504F333F9DD36A9int);
    lemma_chain_lower(0x3CF4A3F78E9907int, 5, 0xD744FCCAD69D996Fint, 1662, 64, 0xB504F333F9DEB2AFint);
    assert(0xB504F333F9DD36A9int * 0xB504F333F9DD36A9int <= 0xFFFFFFFFFFFCAA39int * 0x8000000000000000int);
    assert(0x1000000000000DD16int * 0x8000000000000000int <= 0xB504F333F9DEB2AFint * 0xB504F333F9DEB2AFint);
    lemma_chain_upper(0x3CF4A3F78E9905int, 6, 0xB504F333F9DD36A9int, 3388, 63, 0xFFFFFFFFFFFCAA39int);
    lemma_chain_lower(0x3CF4A3F78E9907int, 6, 0xB504F333F9DEB2AFint, 3388, 63, 0x1000000000000DD16int);
    lemma_chains_round(0x3FEE_7A51_FBC7_4C83u64, 119, 7, 1, 0x3CF4A3F78E9905int, 0x3CF4A3F78E9907int, 0xFFFFFFFFFFFCAA39int, 0x1000000000000DD16int, 6839, 64);
}

/// Boundary 121 of schema 7, checked through its squaring chains.
proof fn rounded_7_121()
    ensures
        rounds_root(0x3FEE_CF48_2D8E_67F1u64, 121, 7),
{
    lemma2_to64();
    lemma2_to64_rest();
    lemma_chain_start(0x3D9E905B1CCFE1int);
    lemma_chain_start(0x3D9E905B1CCFE3int);
    assert(0x3D9E905B1CCFE1int * 0x3D9E905B1CCFE1int <= 0xED4F301ED9942AB2int * 0x100000000000int);
    assert(0xED4F301ED9943A19int * 0x100000000000int <= 0x3D9E905B1CCFE3int * 0x3D9E905B1CCFE3int);
    lemma_chain_upper(0x3D9E905B1CCFE1int, 0, 0x3D9E905B1CCFE1int, 0, 44, 0xED4F301ED9942AB2int);
    lemma_chain_lower(0x3D9E905B1CCFE3int, 0, 0x3D9E905B1CCFE3int, 0, 44, 0xED4F301ED9943A19int);
    assert(0xED4F301ED9942AB2int * 0xED4F301ED9942AB2int <= 0xDBFBB797DAF235D0int * 0x10000000000000000int);
    assert(0xDBFBB797DAF2525Dint * 0x10000000000000000int <= 0xED4F301ED9943A19int * 0xED4F301ED9943A19int);
    lemma_chain_upper(0x3D9E905B1CCFE1int, 1, 0xED4F301ED9942AB2int, 44, 64, 0xDBFBB797DAF235D0int);
    lemma_chain_lower(0x3D9E905B1CCFE3int, 1, 0xED4F301ED9943A19int, 44, 64, 0xDBFBB797DAF2525Dint);
    assert(0xDBFBB797DAF235D0int * 0xDBFBB797DAF235D0int <= 0xBD08A39F580C3422int * 0x10000000000000000int);
    assert(0xBD08A39F580C6533int * 0x10000000000000000int <= 0xDBFBB797DAF2525Dint * 0xDBFBB797DAF2525Dint);
    lemma_chain_upper(0x3D9E905B1CCFE1int, 2, 0xDBFBB797DAF235D0int, 152, 64, 0xBD08A39F580C3422int);
    lemma_chain_lower(0x3D9E905B1CCFE3int, 2, 0xDBFBB797DAF2525Dint, 152, 64, 0xBD08A39F580C6533int);
    assert(0xBD08A39F580C3422int * 0xBD08A39F580C3422int <= 0x8B95C1E3EA8BD30Cint * 0x10000000000000000int);
    assert(0x8B95C1E3EA8C1B81int * 0x10000000000000000int <= 0xBD08A39F580C6533int * 0xBD08A39F580C6533int);
    lemma_chain_upper(0x3D9E905B1CCFE1int, 3, 0xBD08A39F580C3422int, 368, 64, 0x8B95C1E3EA8BD30Cint);
    lemma_chain_lower(0x3D9E905B1CCFE3int, 3, 0xBD08A39F580C6533int, 368, 64, 0x8B95C1E3EA8C1B81int);
    assert(0x8B95C1E3EA8BD30Cint * 0x8B95C1E3EA8BD30Cint <= 0x9837F0518DB8A107int * 0x8000000000000000int);
    assert(0x9837F0518DB93F0Eint * 0x8000000000000000int <= 0x8B95C1E3EA8C1B81int * 0x8B95C1E3EA8C1B81int);
    lemma_chain_upper(0x3D9E905B1CCFE1int, 4, 0x8B95C1E3EA8BD30Cint, 800, 63, 0x9837F0518DB8A107int);
    lemma_chain_lower(0x3D9E905B1CCFE3int, 4, 0x8B95C1E3EA8C1B81int, 800, 63, 0x9837F0518DB93F0Eint);
    assert(0x9837F0518DB8A107int * 0x9837F0518DB8A107int <= 0xB504F333F9DE5086int * 0x8000000000000000int);
    assert(0xB504F333F9DFC860int * 0x8000000000000000int <= 0x9837F0518DB93F0Eint * 0x9837F0518DB93F0Eint);
    lemma_chain_upper(0x3D9E905B1CCFE1int, 5, 0x9837F0518DB8A107int, 1663, 63, 0xB504F333F9DE5086int);
    lemma_chain_lower(0x3D9E905B1CCFE3int, 5, 0x9837F0518DB93F0Eint, 1663, 63, 0xB504F333F9DFC860int);
    assert(0xB504F333F9DE5086int * 0xB504F333F9DE5086int <= 0xFFFFFFFFFFFFC774int * 0x8000000000000000int);
    assert(0x1000000000003EE84int * 0x8000000000000000int <= 0xB504F333F9DFC860int * 0xB504F333F9DFC860int);
    lemma_chain_upper(0x3D9E905B1CCFE1int, 6, 0xB504F333F9DE5086int, 3389, 63, 0xFFFFFFFFFFFFC774int);
    lemma_chain_lower(0x3D9E905B1CCFE3int, 6, 0xB504F333F9DFC860int, 3389, 63, 0x1000000000003EE84int);
    lemma_chains_round(0x3FEE_CF48_2D8E_67F1u64, 121, 7, 1, 0x3D9E905B1CCFE1int, 0x3D9E905B1CCFE3int, 0xFFFFFFFFFFFFC774int, 0x1000000000003EE84int, 6841, 64);
}

/// Boundary 123 of schema 7, checked through its squaring chains.
proof fn rounded_7_123()
    ensures
        rounds_root(0x3FEF_252B_376B_BA97u64, 123, 7),
{
    lemma2_to64();
    lemma2_to64_rest();
    lemma_chain_start(0x3E4A566ED7752Dint);
    lemma_chain_start(0x3E4A566ED7752Fint);
    assert(0x3E4A566ED7752Dint * 0x3E4A566ED7752Dint <= 0xF281773C59FFA4AAint * 0x100000000000int);
    assert(0xF281773C59FFB43Cint * 0x100000000000int <= 0x3E4A566ED7752Fint * 0x3E4A566ED7752Fint);
    lemma_chain_upper(0x3E4A566ED7752Dint, 0, 0x3E4A566ED7752Dint, 0, 44, 0xF281773C59FFA4AAint);
    lemma_chain_lower(0x3E4A566ED7752Fint, 0, 0x3E4A566ED7752Fint, 0, 44, 0xF281773C59FFB43Cint);
    assert(0xF281773C59FFA4AAint * 0xF281773C59FFA4AAint <= 0xE5B906E77C8330DCint * 0x10000000000000000int);
    assert(0xE5B906E77C834E5Bint * 0x10000000000000000int <= 0xF281773C59FFB43Cint * 0xF281773C59FFB43Cint);
    lemma_chain_upper(0x3E4A566ED7752Dint, 1, 0xF281773C59FFA4AAint, 44, 64, 0xE5B906E77C8330DCint);
    lemma_chain_lower(0x3E4A566ED7752Fint, 1, 0xF281773C59FFB43Cint, 44, 64, 0xE5B906E77C834E5Bint);
    assert(0xE5B906E77C8330DCint * 0xE5B906E77C8330DCint <= 0xCE248C151F84562Fint * 0x10000000000000000int);
    assert(0xCE248C151F848B1Eint * 0x10000000000000000int <= 0xE5B906E77C834E5Bint * 0xE5B906E77C834E5Bint);
    lemma_chain_upper(0x3E4A566ED7752Dint, 2, 0xE5B906E77C8330DCint, 152, 64, 0xCE248C151F84562Fint);
    lemma_chain_lower(0x3E4A566ED7752Fint, 2, 0xE5B906E77C834E5Bint, 152, 64, 0xCE248C151F848B1Eint);
    assert(0xCE248C151F84562Fint * 0xCE248C151F84562Fint <= 0xA5FED6A9B150F423int * 0x10000000000000000int);
    assert(0xA5FED6A9B1514962int * 0x10000000000000000int <= 0xCE248C151F848B1Eint * 0xCE248C151F848B1Eint);
    lemma_chain_upper(0x3E4A566ED7752Dint, 3, 0xCE248C151F84562Fint, 368, 64, 0xA5FED6A9B150F423int);
    lemma_chain_lower(0x3E4A566ED7752Fint, 3, 0xCE248C151F848B1Eint, 368, 64, 0xA5FED6A9B1514962int);
    assert(0xA5FED6A9B150F423int * 0xA5FED6A9B150F423int <= 0xD744FCCAD69CB892int * 0x8000000000000000int);
    assert(0xD744FCCAD69D95AAint * 0x8000000000000000int <= 0xA5FED6A9B1514962int * 0xA5FED6A9B1514962int);
    lemma_chain_upper(0x3E4A566ED7752Dint, 4, 0xA5FED6A9B150F423int, 800, 63, 0xD744FCCAD69CB892int);
    lemma_chain_lower(0x3E4A566ED7752Fint, 4, 0xA5FED6A9B1514962int, 800, 63, 0xD744FCCAD69D95AAint);
    assert(0xD744FCCAD69CB892int * 0xD744FCCAD69CB892int <= 0xB504F333F9DD3884int * 0x10000000000000000int);
    assert(0xB504F333F9DEAC58int * 0x10000000000000000int <= 0xD744FCCAD69D95AAint * 0xD744FCCAD69D95AAint);
    lemma_chain_upper(0x3E4A566ED7752Dint, 5, 0xD744FCCAD69CB892int, 1663, 64, 0xB504F333F9DD3884int);
    lemma_chain_lower(0x3E4A566ED7752Fint, 5, 0xD744FCCAD69D95AAint, 1663, 64, 0xB504F333F9DEAC58int);
    assert(0xB504F333F9DD3884int * 0xB504F333F9DD3884int <= 0xFFFFFFFFFFFCAF78int * 0x8000000000000000int);
    assert(0x1000000000000CB28int * 0x8000000000000000int <= 0xB504F333F9DEAC58int * 0xB504F333F9DEAC58int);
    lemma_chain_upper(0x3E4A566ED7752Dint, 6, 0xB504F333F9DD3884int, 3390, 63, 0xFFFFFFFFFFFCAF78int);
    lemma_chain_lower(0x3E4A566ED7752Fint, 6, 0xB504F333F9DEAC58int, 3390, 63, 0x1000000000000CB28int);
    lemma_chains_round(0x3FEF_252B_376B_BA97u64, 123, 7, 1, 0x3E4A566ED7752Dint, 0x3E4A566ED7752Fint, 0xFFFFFFFFFFFCAF78int, 0x1000000000000CB28int, 6843, 64);
}

/// Boundary 125 of schema 7, checked through its squaring chains.
proof fn rounded_7_125()
    ensures
        rounds_root(0x3FEF_7BFD_AD9C_BE14u64, 125, 7),
{
    lemma2_to64();
    lemma2_to64_rest();
    lemma_chain_start(0x3EF7FB5B397C27int);
    lemma_chain_start(0x3EF7FB5B397C29int);
    assert(0x3EF7FB5B397C27int * 0x3EF7FB5B397C27int <= 0xF7D0DF730AD13B2Bint * 0x100000000000int);
    assert(0xF7D0DF730AD14AE8int * 0x100000000000int <= 0x3EF7FB5B397C29int * 0x3EF7FB5B397C29int);
    lemma_chain_upper(0x3EF7FB5B397C27int, 0, 0x3EF7FB5B397C27int, 0, 44, 0xF7D0DF730AD13B2Bint);
    lemma_chain_lower(0x3EF7FB5B397C29int, 0, 0x3EF7FB5B397C29int, 0, 44, 0xF7D0DF730AD14AE8int);
    assert(0xF7D0DF730AD13B2Bint * 0xF7D0DF730AD13B2Bint <= 0xEFE4B99BDCDAF4B9int * 0x10000000000000000int);
    assert(0xEFE4B99BDCDB1330int * 0x10000000000000000int <= 0xF7D0DF730AD14AE8int * 0xF7D0DF730AD14AE8int);
    lemma_chain_upper(0x3EF7FB5B397C27int, 1, 0xF7D0DF730AD13B2Bint, 44, 64, 0xEFE4B99BDCDAF4B9int);
    lemma_chain_lower(0x3EF7FB5B397C29int, 1, 0xF7D0DF730AD14AE8int, 44, 64, 0xEFE4B99BDCDB1330int);
    assert(0xEFE4B99BDCDAF4B9int * 0xEFE4B99BDCDAF4B9int <= 0xE0CCDEEC2A94DF0Fint * 0x10000000000000000int);
    assert(0xE0CCDEEC2A951827int * 0x10000000000000000int <= 0xEFE4B99BDCDB1330int * 0xEFE4B99BDCDB1330int);
    lemma_chain_upper(0x3EF7FB5B397C27int, 2, 0xEFE4B99BDCDAF4B9int, 152, 64, 0xE0CCDEEC2A94DF0Fint);
    lemma_chain_lower(0x3EF7FB5B397C29int, 2, 0xEFE4B99BDCDB1330int, 152, 64, 0xE0CCDEEC2A951827int);
    assert(0xE0CCDEEC2A94DF0Fint * 0xE0CCDEEC2A94DF0Fint <= 0xC5672A115506D757int * 0x10000000000000000int);
    assert(0xC5672A1155073B9Bint * 0x10000000000000000int <= 0xE0CCDEEC2A951827int * 0xE0CCDEEC2A951827int);
    lemma_chain_upper(0x3EF7FB5B397C27int, 3, 0xE0CCDEEC2A94DF0Fint, 368, 64, 0xC5672A115506D757int);
    lemma_chain_lower(0x3EF7FB5B397C29int, 3, 0xE0CCDEEC2A951827int, 368, 64, 0xC5672A1155073B9Bint);
    assert(0xC5672A115506D757int * 0xC5672A115506D757int <= 0x9837F0518DB8A400int * 0x10000000000000000int);
    assert(0x9837F0518DB93EA1int * 0x10000000000000000int <= 0xC5672A1155073B9Bint * 0xC5672A1155073B9Bint);
    lemma_chain_upper(0x3EF7FB5B397C27int, 4, 0xC5672A115506D757int, 800, 64, 0x9837F0518DB8A400int);
    lemma_chain_lower(0x3EF7FB5B397C29int, 4, 0xC5672A1155073B9Bint, 800, 64, 0x9837F0518DB93EA1int);
    assert(0x9837F0518DB8A400int * 0x9837F0518DB8A400int <= 0xB504F333F9DE5798int * 0x8000000000000000int);
    assert(0xB504F333F9DFC75Cint * 0x8000000000000000int <= 0x9837F0518DB93EA1int * 0x9837F0518DB93EA1int);
    lemma_chain_upper(0x3EF7FB5B397C27int, 5, 0x9837F0518DB8A400int, 1664, 63, 0xB504F333F9DE5798int);
    lemma_chain_lower(0x3EF7FB5B397C29int, 5, 0x9837F0518DB93EA1int, 1664, 63, 0xB504F333F9DFC75Cint);
    assert(0xB504F333F9DE5798int * 0xB504F333F9DE5798int <= 0xFFFFFFFFFFFFDB73int * 0x8000000000000000int);
    assert(0x1000000000003EBA5int * 0x8000000000000000int <= 0xB504F333F9DFC75Cint * 0xB504F333F9DFC75Cint);
    lemma_chain_upper(0x3EF7FB5B397C27int, 6, 0xB504F333F9DE5798int, 3391, 63, 0xFFFFFFFFFFFFDB73int);
    lemma_chain_lower(0x3EF7FB5B397C29int, 6, 0xB504F333F9DFC75Cint, 3391, 63, 0x1000000000003EBA5int);
    lemma_chains_round(0x3FEF_7BFD_AD9C_BE14u64, 125, 7, 1, 0x3EF7FB5B397C27int, 0x3EF7FB5B397C29int, 0xFFFFFFFFFFFFDB73int, 0x1000000000003EBA5int, 6845, 64);
}

/// Boundary 127 of schema 7, checked through its squaring chains.
proof fn rounded_7_127()
    ensures
        rounds_root(0x3FEF_D3C2_2B8F_71F1u64, 127, 7),
{
    lemma2_to64();
    lemma2_to64_rest();
    lemma_chain_start(0x3FA784571EE3E1int);
    lemma_chain_start(0x3FA784571EE3E3int);
    assert(0x3FA784571EE3E1int * 0x3FA784571EE3E1int <= 0xFD3E0C0CF486B8EAint * 0x100000000000int);
    assert(0xFD3E0C0CF486C8D2int * 0x100000000000int <= 0x3FA784571EE3E3int * 0x3FA784571EE3E3int);
    lemma_chain_upper(0x3FA784571EE3E1int, 0, 0x3FA784571EE3E1int, 0, 44, 0xFD3E0C0CF486B8EAint);
    lemma_chain_lower(0x3FA784571EE3E3int, 0, 0x3FA784571EE3E3int, 0, 44, 0xFD3E0C0CF486C8D2int);
    assert(0xFD3E0C0CF486B8EAint * 0xFD3E0C0CF486B8EAint <= 0xFA83B2DB7229F255int * 0x10000000000000000int);
    assert(0xFA83B2DB722A11CCint * 0x10000000000000000int <= 0xFD3E0C0CF486C8D2int * 0xFD3E0C0CF486C8D2int);
    lemma_chain_upper(0x3FA784571EE3E1int, 1, 0xFD3E0C0CF486B8EAint, 44, 64, 0xFA83B2DB7229F255int);
    lemma_chain_lower(0x3FA784571EE3E3int, 1, 0xFD3E0C0CF486C8D2int, 44, 64, 0xFA83B2DB722A11CCint);
    assert(0xFA83B2DB7229F255int * 0xFA83B2DB7229F255int <= 0xF5257D152486AB1Bint * 0x10000000000000000int);
    assert(0xF5257D152486E8AFint * 0x10000000000000000int <= 0xFA83B2DB722A11CCint * 0xFA83B2DB722A11CCint);
    lemma_chain_upper(0x3FA784571EE3E1int, 2, 0xFA83B2DB7229F255int, 152, 64, 0xF5257D152486AB1Bint);
    lemma_chain_lower(0x3FA784571EE3E3int, 2, 0xFA83B2DB722A11CCint, 152, 64, 0xF5257D152486E8AFint);
    assert(0xF5257D152486AB1Bint * 0xF5257D152486AB1Bint <= 0xEAC0C6E7DD23F9DAint * 0x10000000000000000int);
    assert(0xEAC0C6E7DD246FC8int * 0x10000000000000000int <= 0xF5257D152486E8AFint * 0xF5257D152486E8AFint);
    lemma_chain_upper(0x3FA784571EE3E1int, 3, 0xF5257D152486AB1Bint, 368, 64, 0xEAC0C6E7DD23F9DAint);
    lemma_chain_lower(0x3FA784571EE3E3int, 3, 0xF5257D152486E8AFint, 368, 64, 0xEAC0C6E7DD246FC8int);
    assert(0xEAC0C6E7DD23F9DAint * 0xEAC0C6E7DD23F9DAint <= 0xD744FCCAD69CF6CEint * 0x10000000000000000int);
    assert(0xD744FCCAD69DCF16int * 0x10000000000000000int <= 0xEAC0C6E7DD246FC8int * 0xEAC0C6E7DD246FC8int);
    lemma_chain_upper(0x3FA784571EE3E1int, 4, 0xEAC0C6E7DD23F9DAint, 800, 64, 0xD744FCCAD69CF6CEint);
    lemma_chain_lower(0x3FA784571EE3E3int, 4, 0xEAC0C6E7DD246FC8int, 800, 64, 0xD744FCCAD69DCF16int);
    assert(0xD744FCCAD69CF6CEint * 0xD744FCCAD69CF6CEint <= 0xB504F333F9DDA12Eint * 0x10000000000000000int);
    assert(0xB504F333F9DF0CEBint * 0x10000000000000000int <= 0xD744FCCAD69DCF16int * 0xD744FCCAD69DCF16int);
    lemma_chain_upper(0x3FA784571EE3E1int, 5, 0xD744FCCAD69CF6CEint, 1664, 64, 0xB504F333F9DDA12Eint);
    lemma_chain_lower(0x3FA784571EE3E3int, 5, 0xD744FCCAD69DCF16int, 1664, 64, 0xB504F333F9DF0CEBint);
    assert(0xB504F333F9DDA12Eint * 0xB504F333F9DDA12Eint <= 0xFFFFFFFFFFFDD781int * 0x8000000000000000int);
    assert(0x1000000000001DC4Fint * 0x8000000000000000int <= 0xB504F333F9DF0CEBint * 0xB504F333F9DF0CEBint);
    lemma_chain_upper(0x3FA784571EE3E1int, 6, 0xB504F333F9DDA12Eint, 3392, 63, 0xFFFFFFFFFFFDD781int);
    lemma_chain_lower(0x3FA784571EE3E3int, 6, 0xB504F333F9DF0CEBint, 3392, 63, 0x1000000000001DC4Fint);
    lemma_chains_round(0x3FEF_D3C2_2B8F_71F1u64, 127, 7, 1, 0x3FA784571EE3E1int, 0x3FA784571EE3E3int, 0xFFFFFFFFFFFDD781int, 0x1000000000001DC4Fint, 6847, 64);
}

/// The boundaries of schema 7 at odd positions are the nearest doubles.
proof fn lemma_rounded_odd_7(k: int)
    requires
        0 <= k < 128,
        k % 2 == 1,
    ensures
        near_root(bounds_of(7)[k], k, 7),
        rounds_root(bounds_of(7)[k], k, 7),
{
    reveal(bounds_of);
    if k == 1 {
        rounded_7_1();
        lemma_close_to_root_widen(bounds_of(7)[k], k, 7, 1, 8);
    } else if k == 3 {
        rounded_7_3();
        lemma_close_to_root_widen(bounds_of(7)[k], k, 7, 1, 8);
    } else if k == 5 {
        rounded_7_5();
        lemma_close_to_root_widen(bounds_of(7)[k], k, 7, 1, 8);
    } else if k == 7 {
        rounded_7_7();
        lemma_close_to_root_widen(bounds_of(7)[k], k, 7, 1, 8);
    } else if k == 9 {
        rounded_7_9();
        lemma_close_to_root_widen(bounds_of(7)[k], k, 7, 1, 8);
    } else if k == 11 {
        rounded_7_11();
        lemma_close_to_root_widen(bounds_of(7)[k], k, 7, 1, 8);
    } else if k == 13 {
        rounded_7_13();
        lemma_close_to_root_widen(bounds_of(7)[k], k, 7, 1, 8);
    } else if k == 15 {
        rounded_7_15();
        lemma_close_to_root_widen(bounds_of(7)[k], k, 7, 1, 8);
    } else if k == 17 {
        rounded_7_17();
        lemma_close_to_root_widen(bounds_of(7)[k], k, 7, 1, 8);
    } else if k == 19 {
        rounded_7_19();
        lemma_close_to_root_widen(bounds_of(7)[k], k, 7, 1, 8);
    } else if k == 21 {
        rounded_7_21();
        lemma_close_to_root_widen(bounds_of(7)[k], k, 7, 1, 8);
    } else if k == 23 {
        rounded_7_23();
        lemma_close_to_root_widen(bounds_of(7)[k], k, 7, 1, 8);
    } else if k == 25 {
        rounded_7_25();
        lemma_close_to_root_widen(bounds_of(7)[k], k, 7, 1, 8);
    } else if k == 27 {
        rounded_7_27();
        lemma_close_to_root_widen(bounds_of(7)[k], k, 7, 1, 8);
    } else if k == 29 {
        rounded_7_29();
        lemma_close_to_root_widen(bounds_of(7)[k], k, 7, 1, 8);
    } else if k == 31 {
        rounded_7_31();
        lemma_close_to_root_widen(bounds_of(7)[k], k, 7, 1, 8);
    } else if k == 33 {
        rounded_7_33();
        lemma_close_to_root_widen(bounds_of(7)[k], k, 7, 1, 8);
    } else if k == 35 {
        rounded_7_35();
        lemma_close_to_root_widen(bounds_of(7)[k], k, 7, 1, 8);
    } else if k == 37 {
        rounded_7_37();
        lemma_close_to_root_widen(bounds_of(7)[k], k, 7, 1, 8);
    } else if k == 39 {
        rounded_7_39();
        lemma_close_to_root_widen(bounds_of(7)[k], k, 7, 1, 8);
    } else if k == 41 {
        rounded_7_41();
        lemma_close_to_root_widen(bounds_of(7)[k], k, 7, 1, 8);
    } else if k == 43 {
        rounded_7_43();
        lemma_close_to_root_widen(bounds_of(7)[k], k, 7, 1, 8);
    } else if k == 45 {
        rounded_7_45();
        lemma_close_to_root_widen(bounds_of(7)[k], k, 7, 1, 8);
    } else if k == 47 {
        rounded_7_47();
        lemma_close_to_root_widen(bounds_of(7)[k], k, 7, 1, 8);
    } else if k == 49 {
        rounded_7_49();
        lemma_close_to_root_widen(bounds_of(7)[k], k, 7, 1, 8);
    } else if k == 51 {
        rounded_7_51();
        lemma_close_to_root_widen(bounds_of(7)[k], k, 7, 1, 8);
    } else if k == 53 {
        rounded_7_53();
        lemma_close_to_root_widen(bounds_of(7)[k], k, 7, 1, 8);
    } else if k == 55 {
        rounded_7_55();
        lemma_close_to_root_widen(bounds_of(7)[k], k, 7, 1, 8);
    } else if k == 57 {
        rounded_7_57();
        lemma_close_to_root_widen(bounds_of(7)[k], k, 7, 1, 8);
    } else if k == 59 {
        rounded_7_59();
        lemma_close_to_root_widen(bounds_of(7)[k], k, 7, 1, 8);
    } else if k == 61 {
        rounded_7_61();
        lemma_close_to_root_widen(bounds_of(7)[k], k, 7, 1, 8);
    } else if k == 63 {
        rounded_7_63();
        lemma_close_to_root_widen(bounds_of(7)[k], k, 7, 1, 8);
    } else if k == 65 {
        rounded_7_65();
        lemma_close_to_root_widen(bounds_of(7)[k], k, 7, 1, 8);
    } else if k == 67 {
        rounded_7_67();
        lemma_close_to_root_widen(bounds_of(7)[k], k, 7, 1, 8);
    } else if k == 69 {
        rounded_7_69();
        lemma_close_to_root_widen(bounds_of(7)[k], k, 7, 1, 8);
    } else if k == 71 {
        rounded_7_71();
        lemma_close_to_root_widen(bounds_of(7)[k], k, 7, 1, 8);
    } else if k == 73 {
        rounded_7_73();
        lemma_close_to_root_widen(bounds_of(7)[k], k, 7, 1, 8);
    } else if k == 75 {
        rounded_7_75();
        lemma_close_to_root_widen(bounds_of(7)[k], k, 7, 1, 8);
    } else if k == 77 {
        rounded_7_77();
        lemma_close_to_root_widen(bounds_of(7)[k], k, 7, 1, 8);
    } else if k == 79 {
        rounded_7_79();
        lemma_close_to_root_widen(bounds_of(7)[k], k, 7, 1, 8);
    } else if k == 81 {
        rounded_7_81();
        lemma_close_to_root_widen(bounds_of(7)[k], k, 7, 1, 8);
    } else if k == 83 {
        rounded_7_83();
        lemma_close_to_root_widen(bounds_of(7)[k], k, 7, 1, 8);
    } else if k == 85 {
        rounded_7_85();
        lemma_close_to_root_widen(bounds_of(7)[k], k, 7, 1, 8);
    } else if k == 87 {
        rounded_7_87();
        lemma_close_to_root_widen(bounds_of(7)[k], k, 7, 1, 8);
    } else if k == 89 {
        rounded_7_89();
        lemma_close_to_root_widen(bounds_of(7)[k], k, 7, 1, 8);
    } else if k == 91 {
        rounded_7_91();
        lemma_close_to_root_widen(bounds_of(7)[k], k, 7, 1, 8);
    } else if k == 93 {
        rounded_7_93();
        lemma_close_to_root_widen(bounds_of(7)[k], k, 7, 1, 8);
    } else if k == 95 {
        rounded_7_95();
        lemma_close_to_root_widen(bounds_of(7)[k], k, 7, 1, 8);
    } else if k == 97 {
        rounded_7_97();
        lemma_close_to_root_widen(bounds_of(7)[k], k, 7, 1, 8);
    } else if k == 99 {
        rounded_7_99();
        lemma_close_to_root_widen(bounds_of(7)[k], k, 7, 1, 8);
    } else if k == 101 {
        rounded_7_101();
        lemma_close_to_root_widen(bounds_of(7)[k], k, 7, 1, 8);
    } else if k == 103 {
        rounded_7_103();
        lemma_close_to_root_widen(bounds_of(7)[k], k, 7, 1, 8);
    } else if k == 105 {
        rounded_7_105();
        lemma_close_to_root_widen(bounds_of(7)[k], k, 7, 1, 8);
    } else if k == 107 {
        rounded_7_107();
        lemma_close_to_root_widen(bounds_of(7)[k], k, 7, 1, 8);
    } else if k == 109 {
        rounded_7_109();
        lemma_close_to_root_widen(bounds_of(7)[k], k, 7, 1, 8);
    } else if k == 111 {
        rounded_7_111();
        lemma_close_to_root_widen(bounds_of(7)[k], k, 7, 1, 8);
    } else if k == 113 {
        rounded_7_113();
        lemma_close_to_root_widen(bounds_of(7)[k], k, 7, 1, 8);
    } else if k == 115 {
        rounded_7_115();
        lemma_close_to_root_widen(bounds_of(7)[k], k, 7, 1, 8);
    } else if k == 117 {
        rounded_7_117();
        lemma_close_to_root_widen(bounds_of(7)[k], k, 7, 1, 8);
    } else if k == 119 {
        rounded_7_119();
        lemma_close_to_root_widen(bounds_of(7)[k], k, 7, 1, 8);
    } else if k == 121 {
        rounded_7_121();
        lemma_close_to_root_widen(bounds_of(7)[k], k, 7, 1, 8);
    } else if k == 123 {
        rounded_7_123();
        lemma_close_to_root_widen(bounds_of(7)[k], k, 7, 1, 8);
    } else if k == 125 {
        rounded_7_125();
        lemma_close_to_root_widen(bounds_of(7)[k], k, 7, 1, 8);
    } else if k == 127 {
        rounded_7_127();
        lemma_close_to_root_widen(bounds_of(7)[k], k, 7, 1, 8);
    }
}

/// Boundary 1 of schema 8, checked through its squaring chains.
proof fn rounded_8_1()
    ensures
        rounds_root(0x3FE0_0B1A_FA5A_BCBFu64, 1, 8),
{
    lemma2_to64();
    lemma2_to64_rest();
    lemma_chain_start(0x201635F4B5797Dint);
    lemma_chain_start(0x201635F4B5797Fint);
    assert(0x201635F4B5797Dint * 0x201635F4B5797Dint <= 0x80B1ED4FD999A608int * 0x80000000000int);
    assert(0x80B1ED4FD999B612int * 0x80000000000int <= 0x201635F4B5797Fint * 0x201635F4B5797Fint);
    lemma_chain_upper(0x201635F4B5797Dint, 0, 0x201635F4B5797Dint, 0, 43, 0x80B1ED4FD999A608int);
    lemma_chain_lower(0x201635F4B5797Fint, 0, 0x201635F4B5797Fint, 0, 43, 0x80B1ED4FD999B612int);
    assert(0x80B1ED4FD999A608int * 0x80B1ED4FD999A608int <= 0x8164D1F3BC02FC9Dint * 0x8000000000000000int);
    assert(0x8164D1F3BC031CDCint * 0x8000000000000000int <= 0x80B1ED4FD999B612int * 0x80B1ED4FD999B612int);
    lemma_chain_upper(0x201635F4B5797Dint, 1, 0x80B1ED4FD999A608int, 43, 63, 0x8164D1F3BC02FC9Dint);
    lemma_chain_lower(0x201635F4B5797Fint, 1, 0x80B1ED4FD999B612int, 43, 63, 0x8164D1F3BC031CDCint);
    assert(0x8164D1F3BC02FC9Dint * 0x8164D1F3BC02FC9Dint <= 0x82CD8698AC2B8BEEint * 0x8000000000000000int);
    assert(0x82CD8698AC2BCD1Fint * 0x8000000000000000int <= 0x8164D1F3BC031CDCint * 0x8164D1F3BC031CDCint);
    lemma_chain_upper(0x201635F4B5797Dint, 2, 0x8164D1F3BC02FC9Dint, 149, 63, 0x82CD8698AC2B8BEEint);
    lemma_chain_lower(0x201635F4B5797Fint, 2, 0x8164D1F3BC031CDCint, 149, 63, 0x82CD8698AC2BCD1Fint);
    assert(0x82CD8698AC2B8BEEint * 0x82CD8698AC2B8BEEint <= 0x85AAC367CC484E4Dint * 0x8000000000000000int);
    assert(0x85AAC367CC48D389int * 0x8000000000000000int <= 0x82CD8698AC2BCD1Fint * 0x82CD8698AC2BCD1Fint);
    lemma_chain_upper(0x201635F4B5797Dint, 3, 0x82CD8698AC2B8BEEint, 361, 63, 0x85AAC367CC484E4Dint);
    lemma_chain_lower(0x201635F4B5797Fint, 3, 0x82CD8698AC2BCD1Fint, 361, 63, 0x85AAC367CC48D389int);
    assert(0x85AAC367CC484E4Dint * 0x85AAC367CC484E4Dint <= 0x8B95C1E3EA8B7961int * 0x8000000000000000int);
    assert(0x8B95C1E3EA8C8FA4int * 0x8000000000000000int <= 0x85AAC367CC48D389int * 0x85AAC367CC48D389int);
    lemma_chain_upper(0x201635F4B5797Dint, 4, 0x85AAC367CC484E4Dint, 785, 63, 0x8B95C1E3EA8B7961int);
    lemma_chain_lower(0x201635F4B5797Fint, 4, 0x85AAC367CC48D389int, 785, 63, 0x8B95C1E3EA8C8FA4int);
    assert(0x8B95C1E3EA8B7961int * 0x8B95C1E3EA8B7961int <= 0x9837F0518DB7DD76int * 0x8000000000000000int);
    assert(0x9837F0518DBA3C5Aint * 0x8000000000000000int <= 0x8B95C1E3EA8C8FA4int * 0x8B95C1E3EA8C8FA4int);
    lemma_chain_upper(0x201635F4B5797Dint, 5, 0x8B95C1E3EA8B7961int, 1633, 63, 0x9837F0518DB7DD76int);
    lemma_chain_lower(0x201635F4B5797Fint, 5, 0x8B95C1E3EA8C8FA4int, 1633, 63, 0x9837F0518DBA3C5Aint);
    assert(0x9837F0518DB7DD76int * 0x9837F0518DB7DD76int <= 0xB504F333F9DC7F63int * 0x8000000000000000int);
    assert(0xB504F333F9E222D1int * 0x8000000000000000int <= 0x9837F0518DBA3C5Aint * 0x9837F0518DBA3C5Aint);
    lemma_chain_upper(0x201635F4B5797Dint, 6, 0x9837F0518DB7DD76int, 3329, 63, 0xB504F333F9DC7F63int);
    lemma_chain_lower(0x201635F4B5797Fint, 6, 0x9837F0518DBA3C5Aint, 3329, 63, 0xB504F333F9E222D1int);
    assert(0xB504F333F9DC7F63int * 0xB504F333F9DC7F63int <= 0xFFFFFFFFFFFAA3D9int * 0x8000000000000000int);
    assert(0x100000000000A967Aint * 0x8000000000000000int <= 0xB504F333F9E222D1int * 0xB504F333F9E222D1int);
    lemma_chain_upper(0x201635F4B5797Dint, 7, 0xB504F333F9DC7F63int, 6721, 63, 0xFFFFFFFFFFFAA3D9int);
    lemma_chain_lower(0x201635F4B5797Fint, 7, 0xB504F333F9E222D1int, 6721, 63, 0x100000000000A967Aint);
    lemma_chains_round(0x3FE0_0B1A_FA5A_BCBFu64, 1, 8, 1, 0x201635F4B5797Dint, 0x201635F4B5797Fint, 0xFFFFFFFFFFFAA3D9int, 0x100000000000A967Aint, 13505, 64);
}

/// Boundary 3 of schema 8, checked through its squaring chains.
proof fn rounded_8_3()
    ensures
        rounds_root(0x3FE0_2168_143B_0281u64, 3, 8),
{
    lemma2_to64();
    lemma2_to64_rest();
    lemma_chain_start(0x2042D028760501int);
    lemma_chain_start(0x2042D028760503int);
    assert(0x2042D028760501int * 0x2042D028760501int <= 0x8218AF4373FC2038int * 0x80000000000int);
    assert(0x8218AF4373FC3059int * 0x80000000000int <= 0x2042D028760503int * 0x2042D028760503int);
    lemma_chain_upper(0x2042D028760501int, 0, 0x2042D028760501int, 0, 43, 0x8218AF4373FC2038int);
    lemma_chain_lower(0x2042D028760503int, 0, 0x2042D028760503int, 0, 43, 0x8218AF4373FC3059int);
    assert(0x8218AF4373FC2038int * 0x8218AF4373FC2038int <= 0x843A28C3ACDE34B0int * 0x8000000000000000int);
    assert(0x843A28C3ACDE5578int * 0x8000000000000000int <= 0x8218AF4373FC3059int * 0x8218AF4373FC3059int);
    lemma_chain_upper(0x2042D028760501int, 1, 0x8218AF4373FC2038int, 43, 63, 0x843A28C3ACDE34B0int);
    lemma_chain_lower(0x2042D028760503int, 1, 0x8218AF4373FC3059int, 43, 63, 0x843A28C3ACDE5578int);
    assert(0x843A28C3ACDE34B0int * 0x843A28C3ACDE34B0int <= 0x88980E8092DA6D38int * 0x8000000000000000int);
    assert(0x88980E8092DAB0F1int * 0x8000000000000000int <= 0x843A28C3ACDE5578int * 0x843A28C3ACDE5578int);
    lemma_chain_upper(0x2042D028760501int, 2, 0x843A28C3ACDE34B0int, 149, 63, 0x88980E8092DA6D38int);
    lemma_chain_lower(0x2042D028760503int, 2, 0x843A28C3ACDE5578int, 149, 63, 0x88980E8092DAB0F1int);
    assert(0x88980E8092DA6D38int * 0x88980E8092DA6D38int <= 0x91C3D373AB119021int * 0x8000000000000000int);
    assert(0x91C3D373AB1220AAint * 0x8000000000000000int <= 0x88980E8092DAB0F1int * 0x88980E8092DAB0F1int);
    lemma_chain_upper(0x2042D028760501int, 3, 0x88980E8092DA6D38int, 361, 63, 0x91C3D373AB119021int);
    lemma_chain_lower(0x2042D028760503int, 3, 0x88980E8092DAB0F1int, 361, 63, 0x91C3D373AB1220AAint);
    assert(0x91C3D373AB119021int * 0x91C3D373AB119021int <= 0xA5FED6A9B150C493int * 0x8000000000000000int);
    assert(0xA5FED6A9B1520DC2int * 0x8000000000000000int <= 0x91C3D373AB1220AAint * 0x91C3D373AB1220AAint);
    lemma_chain_upper(0x2042D028760501int, 4, 0x91C3D373AB119021int, 785, 63, 0xA5FED6A9B150C493int);
    lemma_chain_lower(0x2042D028760503int, 4, 0x91C3D373AB1220AAint, 785, 63, 0xA5FED6A9B1520DC2int);
    assert(0xA5FED6A9B150C493int * 0xA5FED6A9B150C493int <= 0xD744FCCAD69C3D35int * 0x8000000000000000int);
    assert(0xD744FCCAD69F9300int * 0x8000000000000000int <= 0xA5FED6A9B1520DC2int * 0xA5FED6A9B1520DC2int);
    lemma_chain_upper(0x2042D028760501int, 5, 0xA5FED6A9B150C493int, 1633, 63, 0xD744FCCAD69C3D35int);
    lemma_chain_lower(0x2042D028760503int, 5, 0xA5FED6A9B1520DC2int, 1633, 63, 0xD744FCCAD69F9300int);
    assert(0xD744FCCAD69C3D35int * 0xD744FCCAD69C3D35int <= 0xB504F333F9DC690Bint * 0x10000000000000000int);
    assert(0xB504F333F9E204F1int * 0x10000000000000000int <= 0xD744FCCAD69F9300int * 0xD744FCCAD69F9300int);
    lemma_chain_upper(0x2042D028760501int, 6, 0xD744FCCAD69C3D35int, 3329, 64, 0xB504F333F9DC690Bint);
    lemma_chain_lower(0x2042D028760503int, 6, 0xD744FCCAD69F9300int, 3329, 64, 0xB504F333F9E204F1int);
    assert(0xB504F333F9DC690Bint * 0xB504F333F9DC690Bint <= 0xFFFFFFFFFFFA64A6int * 0x8000000000000000int);
    assert(0x100000000000A41FBint * 0x8000000000000000int <= 0xB504F333F9E204F1int * 0xB504F333F9E204F1int);
    lemma_chain_upper(0x2042D028760501int, 7, 0xB504F333F9DC690Bint, 6722, 63, 0xFFFFFFFFFFFA64A6int);
    lemma_chain_lower(0x2042D028760503int, 7, 0xB504F333F9E204F1int, 6722, 63, 0x100000000000A41FBint);
    lemma_chains_round(0x3FE0_2168_143B_0281u64, 3, 8, 1, 0x2042D028760501int, 0x2042D028760503int, 0xFFFFFFFFFFFA64A6int, 0x100000000000A41FBint, 13507, 64);
}

/// Boundary 5 of schema 8, checked through its squaring chains.
proof fn rounded_8_5()
    ensures
        rounds_root(0x3FE0_37D4_2E11_BBCCu64, 5, 8),
{
    lemma2_to64();
    lemma2_to64_rest();
    lemma_chain_start(0x206FA85C237797int);
    lemma_chain_start(0x206FA85C237799int);
    assert(0x206FA85C237797int * 0x206FA85C237797int <= 0x8383594EEFB6E56Eint * 0x80000000000int);
    assert(0x8383594EEFB6F5A5int * 0x80000000000int <= 0x206FA85C237799int * 0x206FA85C237799int);
    lemma_chain_upper(0x206FA85C237797int, 0, 0x206FA85C237797int, 0, 43, 0x8383594EEFB6E56Eint);
    lemma_chain_lower(0x206FA85C237799int, 0, 0x206FA85C237799int, 0, 43, 0x8383594EEFB6F5A5int);
    assert(0x8383594EEFB6E56Eint * 0x8383594EEFB6E56Eint <= 0x871F61969E8CFE04int * 0x8000000000000000int);
    assert(0x871F61969E8D1F54int * 0x8000000000000000int <= 0x8383594EEFB6F5A5int * 0x8383594EEFB6F5A5int);
    lemma_chain_upper(0x206FA85C237797int, 1, 0x8383594EEFB6E56Eint, 43, 63, 0x871F61969E8CFE04int);
    lemma_chain_lower(0x206FA85C237799int, 1, 0x8383594EEFB6F5A5int, 43, 63, 0x871F61969E8D1F54int);
    assert(0x871F61969E8CFE04int * 0x871F61969E8CFE04int <= 0x8EA4398B45CD2DA6int * 0x8000000000000000int);
    assert(0x8EA4398B45CD73FAint * 0x8000000000000000int <= 0x871F61969E8D1F54int * 0x871F61969E8D1F54int);
    lemma_chain_upper(0x206FA85C237797int, 2, 0x871F61969E8CFE04int, 149, 63, 0x8EA4398B45CD2DA6int);
    lemma_chain_lower(0x206FA85C237799int, 2, 0x871F61969E8D1F54int, 149, 63, 0x8EA4398B45CD73FAint);
    assert(0x8EA4398B45CD2DA6int * 0x8EA4398B45CD2DA6int <= 0x9EF5326091A0BCC2int * 0x8000000000000000int);
    assert(0x9EF5326091A15980int * 0x8000000000000000int <= 0x8EA4398B45CD73FAint * 0x8EA4398B45CD73FAint);
    lemma_chain_upper(0x206FA85C237797int, 3, 0x8EA4398B45CD2DA6int, 361, 63, 0x9EF5326091A0BCC2int);
    lemma_chain_lower(0x206FA85C237799int, 3, 0x8EA4398B45CD73FAint, 361, 63, 0x9EF5326091A15980int);
    assert(0x9EF5326091A0BCC2int * 0x9EF5326091A0BCC2int <= 0xC5672A11550607F3int * 0x8000000000000000int);
    assert(0xC5672A1155078D3Fint * 0x8000000000000000int <= 0x9EF5326091A15980int * 0x9EF5326091A15980int);
    lemma_chain_upper(0x206FA85C237797int, 4, 0x9EF5326091A0BCC2int, 785, 63, 0xC5672A11550607F3int);
    lemma_chain_lower(0x206FA85C237799int, 4, 0x9EF5326091A15980int, 785, 63, 0xC5672A1155078D3Fint);
    assert(0xC5672A11550607F3int * 0xC5672A11550607F3int <= 0x9837F0518DB76429int * 0x10000000000000000int);
    assert(0x9837F0518DB9BC89int * 0x10000000000000000int <= 0xC5672A1155078D3Fint * 0xC5672A1155078D3Fint);
    lemma_chain_upper(0x206FA85C237797int, 5, 0xC5672A11550607F3int, 1633, 64, 0x9837F0518DB76429int);
    lemma_chain_lower(0x206FA85C237799int, 5, 0xC5672A1155078D3Fint, 1633, 64, 0x9837F0518DB9BC89int);
    assert(0x9837F0518DB76429int * 0x9837F0518DB76429int <= 0xB504F333F9DB5EE2int * 0x8000000000000000int);
    assert(0xB504F333F9E0F2D1int * 0x8000000000000000int <= 0x9837F0518DB9BC89int * 0x9837F0518DB9BC89int);
    lemma_chain_upper(0x206FA85C237797int, 6, 0x9837F0518DB76429int, 3330, 63, 0xB504F333F9DB5EE2int);
    lemma_chain_lower(0x206FA85C237799int, 6, 0x9837F0518DB9BC89int, 3330, 63, 0xB504F333F9E0F2D1int);
    assert(0xB504F333F9DB5EE2int * 0xB504F333F9DB5EE2int <= 0xFFFFFFFFFFF773D6int * 0x8000000000000000int);
    assert(0x10000000000073AA3int * 0x8000000000000000int <= 0xB504F333F9E0F2D1int * 0xB504F333F9E0F2D1int);
    lemma_chain_upper(0x206FA85C237797int, 7, 0xB504F333F9DB5EE2int, 6723, 63, 0xFFFFFFFFFFF773D6int);
    lemma_chain_lower(0x206FA85C237799int, 7, 0xB504F333F9E0F2D1int, 6723, 63, 0x10000000000073AA3int);
    lemma_chains_round(0x3FE0_37D4_2E11_BBCCu64, 5, 8, 1, 0x206FA85C237797int, 0x206FA85C237799int, 0xFFFFFFFFFFF773D6int, 0x10000000000073AA3int, 13509, 64);
}

/// Boundary 7 of schema 8, checked through its squaring chains.
proof fn rounded_8_7()
    ensures
        rounds_root(0x3FE0_4E5F_72F6_54B1u64, 7, 8),
{
    lemma2_to64();
    lemma2_to64_rest();
    lemma_chain_start(0x209CBEE5ECA961int);
    lemma_chain_start(0x209CBEE5ECA963int);
    assert(0x209CBEE5ECA961int * 0x209CBEE5ECA961int <= 0x84F1F656379C0F5Dint * 0x80000000000int);
    assert(0x84F1F656379C1FABint * 0x80000000000int <= 0x209CBEE5ECA963int * 0x209CBEE5ECA963int);
    lemma_chain_upper(0x209CBEE5ECA961int, 0, 0x209CBEE5ECA961int, 0, 43, 0x84F1F656379C0F5Dint);
    lemma_chain_lower(0x209CBEE5ECA963int, 0, 0x209CBEE5ECA963int, 0, 43, 0x84F1F656379C1FABint);
    assert(0x84F1F656379C0F5Dint * 0x84F1F656379C0F5Dint <= 0x8A14D575496EE72Dint * 0x8000000000000000int);
    assert(0x8A14D575496F090Aint * 0x8000000000000000int <= 0x84F1F656379C1FABint * 0x84F1F656379C1FABint);
    lemma_chain_upper(0x209CBEE5ECA961int, 1, 0x84F1F656379C0F5Dint, 43, 63, 0x8A14D575496EE72Dint);
    lemma_chain_lower(0x209CBEE5ECA963int, 1, 0x84F1F656379C1FABint, 43, 63, 0x8A14D575496F090Aint);
    assert(0x8A14D575496EE72Dint * 0x8A14D575496EE72Dint <= 0x94F4EFA8FEF6D8FFint * 0x8000000000000000int);
    assert(0x94F4EFA8FEF7220Eint * 0x8000000000000000int <= 0x8A14D575496F090Aint * 0x8A14D575496F090Aint);
    lemma_chain_upper(0x209CBEE5ECA961int, 2, 0x8A14D575496EE72Dint, 149, 63, 0x94F4EFA8FEF6D8FFint);
    lemma_chain_lower(0x209CBEE5ECA963int, 2, 0x8A14D575496F090Aint, 149, 63, 0x94F4EFA8FEF7220Eint);
    assert(0x94F4EFA8FEF6D8FFint * 0x94F4EFA8FEF6D8FFint <= 0xAD583EEA42A0DA2Bint * 0x8000000000000000int);
    assert(0xAD583EEA42A18434int * 0x8000000000000000int <= 0x94F4EFA8FEF7220Eint * 0x94F4EFA8FEF7220Eint);
    lemma_chain_upper(0x209CBEE5ECA961int, 3, 0x94F4EFA8FEF6D8FFint, 361, 63, 0xAD583EEA42A0DA2Bint);
    lemma_chain_lower(0x209CBEE5ECA963int, 3, 0x94F4EFA8FEF7220Eint, 361, 63, 0xAD583EEA42A18434int);
    assert(0xAD583EEA42A0DA2Bint * 0xAD583EEA42A0DA2Bint <= 0xEAC0C6E7DD230830int * 0x8000000000000000int);
    assert(0xEAC0C6E7DD24D4BAint * 0x8000000000000000int <= 0xAD583EEA42A18434int * 0xAD583EEA42A18434int);
    lemma_chain_upper(0x209CBEE5ECA961int, 4, 0xAD583EEA42A0DA2Bint, 785, 63, 0xEAC0C6E7DD230830int);
    lemma_chain_lower(0x209CBEE5ECA963int, 4, 0xAD583EEA42A18434int, 785, 63, 0xEAC0C6E7DD24D4BAint);
    assert(0xEAC0C6E7DD230830int * 0xEAC0C6E7DD230830int <= 0xD744FCCAD69B3B98int * 0x10000000000000000int);
    assert(0xD744FCCAD69E8838int * 0x10000000000000000int <= 0xEAC0C6E7DD24D4BAint * 0xEAC0C6E7DD24D4BAint);
    lemma_chain_upper(0x209CBEE5ECA961int, 5, 0xEAC0C6E7DD230830int, 1633, 64, 0xD744FCCAD69B3B98int);
    lemma_chain_lower(0x209CBEE5ECA963int, 5, 0xEAC0C6E7DD24D4BAint, 1633, 64, 0xD744FCCAD69E8838int);
    assert(0xD744FCCAD69B3B98int * 0xD744FCCAD69B3B98int <= 0xB504F333F9DAB7CAint * 0x10000000000000000int);
    assert(0xB504F333F9E04445int * 0x10000000000000000int <= 0xD744FCCAD69E8838int * 0xD744FCCAD69E8838int);
    lemma_chain_upper(0x209CBEE5ECA961int, 6, 0xD744FCCAD69B3B98int, 3330, 64, 0xB504F333F9DAB7CAint);
    lemma_chain_lower(0x209CBEE5ECA963int, 6, 0xD744FCCAD69E8838int, 3330, 64, 0xB504F333F9E04445int);
    assert(0xB504F333F9DAB7CAint * 0xB504F333F9DAB7CAint <= 0xFFFFFFFFFFF59B39int * 0x8000000000000000int);
    assert(0x10000000000054CF1int * 0x8000000000000000int <= 0xB504F333F9E04445int * 0xB504F333F9E04445int);
    lemma_chain_upper(0x209CBEE5ECA961int, 7, 0xB504F333F9DAB7CAint, 6724, 63, 0xFFFFFFFFFFF59B39int);
    lemma_chain_lower(0x209CBEE5ECA963int, 7, 0xB504F333F9E04445int, 6724, 63, 0x10000000000054CF1int);
    lemma_chains_round(0x3FE0_4E5F_72F6_54B1u64, 7, 8, 1, 0x209CBEE5ECA961int, 0x209CBEE5ECA963int, 0xFFFFFFFFFFF59B39int, 0x10000000000054CF1int, 13511, 64);
}

/// Boundary 9 of schema 8, checked through its squaring chains.
proof fn rounded_8_9()
    ensures
        rounds_root(0x3FE0_650A_0E3C_1F89u64, 9, 8),
{
    lemma2_to64();
    lemma2_to64_rest();
    lemma_chain_start(0x20CA141C783F11int);
    lemma_chain_start(0x20CA141C783F13int);
    assert(0x20CA141C783F11int * 0x20CA141C783F11int <= 0x8664915B923FB767int * 0x80000000000int);
    assert(0x8664915B923FC7CBint * 0x80000000000int <= 0x20CA141C783F13int * 0x20CA141C783F13int);
    lemma_chain_upper(0x20CA141C783F11int, 0, 0x20CA141C783F11int, 0, 43, 0x8664915B923FB767int);
    lemma_chain_lower(0x20CA141C783F13int, 0, 0x20CA141C783F13int, 0, 43, 0x8664915B923FC7CBint);
    assert(0x8664915B923FB767int * 0x8664915B923FB767int <= 0x8D1ADF5B7E5BA46Aint * 0x8000000000000000int);
    assert(0x8D1ADF5B7E5BC6D4int * 0x8000000000000000int <= 0x8664915B923FC7CBint * 0x8664915B923FC7CBint);
    lemma_chain_upper(0x20CA141C783F11int, 1, 0x8664915B923FB767int, 43, 63, 0x8D1ADF5B7E5BA46Aint);
    lemma_chain_lower(0x20CA141C783F13int, 1, 0x8664915B923FC7CBint, 43, 63, 0x8D1ADF5B7E5BC6D4int);
    assert(0x8D1ADF5B7E5BA46Aint * 0x8D1ADF5B7E5BA46Aint <= 0x9B8D39B9D54E4922int * 0x8000000000000000int);
    assert(0x9B8D39B9D54E9501int * 0x8000000000000000int <= 0x8D1ADF5B7E5BC6D4int * 0x8D1ADF5B7E5BC6D4int);
    lemma_chain_upper(0x20CA141C783F11int, 2, 0x8D1ADF5B7E5BA46Aint, 149, 63, 0x9B8D39B9D54E4922int);
    lemma_chain_lower(0x20CA141C783F13int, 2, 0x8D1ADF5B7E5BC6D4int, 149, 63, 0x9B8D39B9D54E9501int);
    assert(0x9B8D39B9D54E4922int * 0x9B8D39B9D54E4922int <= 0xBD08A39F580C195Eint * 0x8000000000000000int);
    assert(0xBD08A39F580CD1C4int * 0x8000000000000000int <= 0x9B8D39B9D54E9501int * 0x9B8D39B9D54E9501int);
    lemma_chain_upper(0x20CA141C783F11int, 3, 0x9B8D39B9D54E4922int, 361, 63, 0xBD08A39F580C195Eint);
    lemma_chain_lower(0x20CA141C783F13int, 3, 0x9B8D39B9D54E9501int, 361, 63, 0xBD08A39F580CD1C4int);
    assert(0xBD08A39F580C195Eint * 0xBD08A39F580C195Eint <= 0x8B95C1E3EA8BAB85int * 0x10000000000000000int);
    assert(0x8B95C1E3EA8CBBD7int * 0x10000000000000000int <= 0xBD08A39F580CD1C4int * 0xBD08A39F580CD1C4int);
    lemma_chain_upper(0x20CA141C783F11int, 4, 0xBD08A39F580C195Eint, 785, 64, 0x8B95C1E3EA8BAB85int);
    lemma_chain_lower(0x20CA141C783F13int, 4, 0xBD08A39F580CD1C4int, 785, 64, 0x8B95C1E3EA8CBBD7int);
    assert(0x8B95C1E3EA8BAB85int * 0x8B95C1E3EA8BAB85int <= 0x9837F0518DB84AD1int * 0x8000000000000000int);
    assert(0x9837F0518DBA9CC0int * 0x8000000000000000int <= 0x8B95C1E3EA8CBBD7int * 0x8B95C1E3EA8CBBD7int);
    lemma_chain_upper(0x20CA141C783F11int, 5, 0x8B95C1E3EA8BAB85int, 1634, 63, 0x9837F0518DB84AD1int);
    lemma_chain_lower(0x20CA141C783F13int, 5, 0x8B95C1E3EA8CBBD7int, 1634, 63, 0x9837F0518DBA9CC0int);
    assert(0x9837F0518DB84AD1int * 0x9837F0518DB84AD1int <= 0xB504F333F9DD837Aint * 0x8000000000000000int);
    assert(0xB504F333F9E30818int * 0x8000000000000000int <= 0x9837F0518DBA9CC0int * 0x9837F0518DBA9CC0int);
    lemma_chain_upper(0x20CA141C783F11int, 6, 0x9837F0518DB84AD1int, 3331, 63, 0xB504F333F9DD837Aint);
    lemma_chain_lower(0x20CA141C783F13int, 6, 0x9837F0518DBA9CC0int, 3331, 63, 0xB504F333F9E30818int);
    assert(0xB504F333F9DD837Aint * 0xB504F333F9DD837Aint <= 0xFFFFFFFFFFFD837Eint * 0x8000000000000000int);
    assert(0x100000000000D1EF9int * 0x8000000000000000int <= 0xB504F333F9E30818int * 0xB504F333F9E30818int);
    lemma_chain_upper(0x20CA141C783F11int, 7, 0xB504F333F9DD837Aint, 6725, 63, 0xFFFFFFFFFFFD837Eint);
    lemma_chain_lower(0x20CA141C783F13int, 7, 0xB504F333F9E30818int, 6725, 63, 0x100000000000D1EF9int);
    lemma_chains_round(0x3FE0_650A_0E3C_1F89u64, 9, 8, 1, 0x20CA141C783F11int, 0x20CA141C783F13int, 0xFFFFFFFFFFFD837Eint, 0x100000000000D1EF9int, 13513, 64);
}

/// Boundary 11 of schema 8, checked through its squaring chains.
proof fn rounded_8_11()
    ensures
        rounds_root(0x3FE0_7BD4_2B72_A836u64, 11, 8),
{
    lemma2_to64();
    lemma2_to64_rest();
    lemma_chain_start(0x20F7A856E5506Bint);
    lemma_chain_start(0x20F7A856E5506Dint);
    assert(0x20F7A856E5506Bint * 0x20F7A856E5506Bint <= 0x87DB357FF698CCDDint * 0x80000000000int);
    assert(0x87DB357FF698DD58int * 0x80000000000int <= 0x20F7A856E5506Dint * 0x20F7A856E5506Dint);
    lemma_chain_upper(0x20F7A856E5506Bint, 0, 0x20F7A856E5506Bint, 0, 43, 0x87DB357FF698CCDDint);
    lemma_chain_lower(0x20F7A856E5506Dint, 0, 0x20F7A856E5506Dint, 0, 43, 0x87DB357FF698DD58int);
    assert(0x87DB357FF698CCDDint * 0x87DB357FF698CCDDint <= 0x9031DC4314669B23int * 0x8000000000000000int);
    assert(0x9031DC431466BE1Eint * 0x8000000000000000int <= 0x87DB357FF698DD58int * 0x87DB357FF698DD58int);
    lemma_chain_upper(0x20F7A856E5506Bint, 1, 0x87DB357FF698CCDDint, 43, 63, 0x9031DC4314669B23int);
    lemma_chain_lower(0x20F7A856E5506Dint, 1, 0x87DB357FF698DD58int, 43, 63, 0x9031DC431466BE1Eint);
    assert(0x9031DC4314669B23int * 0x9031DC4314669B23int <= 0xA27043030C4934E6int * 0x8000000000000000int);
    assert(0xA27043030C4983B5int * 0x8000000000000000int <= 0x9031DC431466BE1Eint * 0x9031DC431466BE1Eint);
    lemma_chain_upper(0x20F7A856E5506Bint, 2, 0x9031DC4314669B23int, 149, 63, 0xA27043030C4934E6int);
    lemma_chain_lower(0x20F7A856E5506Dint, 2, 0x9031DC431466BE1Eint, 149, 63, 0xA27043030C4983B5int);
    assert(0xA27043030C4934E6int * 0xA27043030C4934E6int <= 0xCE248C151F83FEF2int * 0x8000000000000000int);
    assert(0xCE248C151F84C6F8int * 0x8000000000000000int <= 0xA27043030C4983B5int * 0xA27043030C4983B5int);
    lemma_chain_upper(0x20F7A856E5506Bint, 3, 0xA27043030C4934E6int, 361, 63, 0xCE248C151F83FEF2int);
    lemma_chain_lower(0x20F7A856E5506Dint, 3, 0xA27043030C4983B5int, 361, 63, 0xCE248C151F84C6F8int);
    assert(0xCE248C151F83FEF2int * 0xCE248C151F83FEF2int <= 0xA5FED6A9B15067A4int * 0x10000000000000000int);
    assert(0xA5FED6A9B151A9C6int * 0x10000000000000000int <= 0xCE248C151F84C6F8int * 0xCE248C151F84C6F8int);
    lemma_chain_upper(0x20F7A856E5506Bint, 4, 0xCE248C151F83FEF2int, 785, 64, 0xA5FED6A9B15067A4int);
    lemma_chain_lower(0x20F7A856E5506Dint, 4, 0xCE248C151F84C6F8int, 785, 64, 0xA5FED6A9B151A9C6int);
    assert(0xA5FED6A9B15067A4int * 0xA5FED6A9B15067A4int <= 0xD744FCCAD69B4C2Bint * 0x8000000000000000int);
    assert(0xD744FCCAD69E8FACint * 0x8000000000000000int <= 0xA5FED6A9B151A9C6int * 0xA5FED6A9B151A9C6int);
    lemma_chain_upper(0x20F7A856E5506Bint, 5, 0xA5FED6A9B15067A4int, 1634, 63, 0xD744FCCAD69B4C2Bint);
    lemma_chain_lower(0x20F7A856E5506Dint, 5, 0xA5FED6A9B151A9C6int, 1634, 63, 0xD744FCCAD69E8FACint);
    assert(0xD744FCCAD69B4C2Bint * 0xD744FCCAD69B4C2Bint <= 0xB504F333F9DAD3AAint * 0x10000000000000000int);
    assert(0xB504F333F9E050CEint * 0x10000000000000000int <= 0xD744FCCAD69E8FACint * 0xD744FCCAD69E8FACint);
    lemma_chain_upper(0x20F7A856E5506Bint, 6, 0xD744FCCAD69B4C2Bint, 3331, 64, 0xB504F333F9DAD3AAint);
    lemma_chain_lower(0x20F7A856E5506Dint, 6, 0xD744FCCAD69E8FACint, 3331, 64, 0xB504F333F9E050CEint);
    assert(0xB504F333F9DAD3AAint * 0xB504F333F9DAD3AAint <= 0xFFFFFFFFFFF5EA10int * 0x8000000000000000int);
    assert(0x10000000000057066int * 0x8000000000000000int <= 0xB504F333F9E050CEint * 0xB504F333F9E050CEint);
    lemma_chain_upper(0x20F7A856E5506Bint, 7, 0xB504F333F9DAD3AAint, 6726, 63, 0xFFFFFFFFFFF5EA10int);
    lemma_chain_lower(0x20F7A856E5506Dint, 7, 0xB504F333F9E050CEint, 6726, 63, 0x10000000000057066int);
    lemma_chains_round(0x3FE0_7BD4_2B72_A836u64, 11, 8, 1, 0x20F7A856E5506Bint, 0x20F7A856E5506Dint, 0xFFFFFFFFFFF5EA10int, 0x10000000000057066int, 13515, 64);
}

/// Boundary 13 of schema 8, checked through its squaring chains.
proof fn rounded_8_13()
    ensures
        rounds_root(0x3FE0_92BD_F666_07E0u64, 13, 8),
{
    lemma2_to64();
    lemma2_to64_rest();
    lemma_chain_start(0x21257BECCC0FBFint);
    lemma_chain_start(0x21257BECCC0FC1int);
    assert(0x21257BECCC0FBFint * 0x21257BECCC0FBFint <= 0x8955EE03618E5D67int * 0x80000000000int);
    assert(0x8955EE03618E6DF9int * 0x80000000000int <= 0x21257BECCC0FC1int * 0x21257BECCC0FC1int);
    lemma_chain_upper(0x21257BECCC0FBFint, 0, 0x21257BECCC0FBFint, 0, 43, 0x8955EE03618E5D67int);
    lemma_chain_lower(0x21257BECCC0FC1int, 0, 0x21257BECCC0FC1int, 0, 43, 0x8955EE03618E6DF9int);
    assert(0x8955EE03618E5D67int * 0x8955EE03618E5D67int <= 0x935A2B2F13E6E3E5int * 0x8000000000000000int);
    assert(0x935A2B2F13E70773int * 0x8000000000000000int <= 0x8955EE03618E6DF9int * 0x8955EE03618E6DF9int);
    lemma_chain_upper(0x21257BECCC0FBFint, 1, 0x8955EE03618E5D67int, 43, 63, 0x935A2B2F13E6E3E5int);
    lemma_chain_lower(0x21257BECCC0FC1int, 1, 0x8955EE03618E6DF9int, 43, 63, 0x935A2B2F13E70773int);
    assert(0x935A2B2F13E6E3E5int * 0x935A2B2F13E6E3E5int <= 0xA9A15AB4EA7C02D3int * 0x8000000000000000int);
    assert(0xA9A15AB4EA7C54AEint * 0x8000000000000000int <= 0x935A2B2F13E70773int * 0x935A2B2F13E70773int);
    lemma_chain_upper(0x21257BECCC0FBFint, 2, 0x935A2B2F13E6E3E5int, 149, 63, 0xA9A15AB4EA7C02D3int);
    lemma_chain_lower(0x21257BECCC0FC1int, 2, 0x935A2B2F13E70773int, 149, 63, 0xA9A15AB4EA7C54AEint);
    assert(0xA9A15AB4EA7C02D3int * 0xA9A15AB4EA7C02D3int <= 0xE0CCDEEC2A94C0E0int * 0x8000000000000000int);
    assert(0xE0CCDEEC2A9599D4int * 0x8000000000000000int <= 0xA9A15AB4EA7C54AEint * 0xA9A15AB4EA7C54AEint);
    lemma_chain_upper(0x21257BECCC0FBFint, 3, 0xA9A15AB4EA7C02D3int, 361, 63, 0xE0CCDEEC2A94C0E0int);
    lemma_chain_lower(0x21257BECCC0FC1int, 3, 0xA9A15AB4EA7C54AEint, 361, 63, 0xE0CCDEEC2A9599D4int);
    assert(0xE0CCDEEC2A94C0E0int * 0xE0CCDEEC2A94C0E0int <= 0xC5672A115506A254int * 0x10000000000000000int);
    assert(0xC5672A1155081F5Aint * 0x10000000000000000int <= 0xE0CCDEEC2A9599D4int * 0xE0CCDEEC2A9599D4int);
    lemma_chain_upper(0x21257BECCC0FBFint, 4, 0xE0CCDEEC2A94C0E0int, 785, 64, 0xC5672A115506A254int);
    lemma_chain_lower(0x21257BECCC0FC1int, 4, 0xE0CCDEEC2A9599D4int, 785, 64, 0xC5672A1155081F5Aint);
    assert(0xC5672A115506A254int * 0xC5672A115506A254int <= 0x9837F0518DB8523Fint * 0x10000000000000000int);
    assert(0x9837F0518DBA9DDCint * 0x10000000000000000int <= 0xC5672A1155081F5Aint * 0xC5672A1155081F5Aint);
    lemma_chain_upper(0x21257BECCC0FBFint, 5, 0xC5672A115506A254int, 1634, 64, 0x9837F0518DB8523Fint);
    lemma_chain_lower(0x21257BECCC0FC1int, 5, 0xC5672A1155081F5Aint, 1634, 64, 0x9837F0518DBA9DDCint);
    assert(0x9837F0518DB8523Fint * 0x9837F0518DB8523Fint <= 0xB504F333F9DD9526int * 0x8000000000000000int);
    assert(0xB504F333F9E30ABBint * 0x8000000000000000int <= 0x9837F0518DBA9DDCint * 0x9837F0518DBA9DDCint);
    lemma_chain_upper(0x21257BECCC0FBFint, 6, 0x9837F0518DB8523Fint, 3332, 63, 0xB504F333F9DD9526int);
    lemma_chain_lower(0x21257BECCC0FC1int, 6, 0x9837F0518DBA9DDCint, 3332, 63, 0xB504F333F9E30ABBint);
    assert(0xB504F333F9DD9526int * 0xB504F333F9DD9526int <= 0xFFFFFFFFFFFDB57Aint * 0x8000000000000000int);
    assert(0x100000000000D266Eint * 0x8000000000000000int <= 0xB504F333F9E30ABBint * 0xB504F333F9E30ABBint);
    lemma_chain_upper(0x21257BECCC0FBFint, 7, 0xB504F333F9DD9526int, 6727, 63, 0xFFFFFFFFFFFDB57Aint);
    lemma_chain_lower(0x21257BECCC0FC1int, 7, 0xB504F333F9E30ABBint, 6727, 63, 0x100000000000D266Eint);
    lemma_chains_round(0x3FE0_92BD_F666_07E0u64, 13, 8, 1, 0x21257BECCC0FBFint, 0x21257BECCC0FC1int, 0xFFFFFFFFFFFDB57Aint, 0x100000000000D266Eint, 13517, 64);
}

/// Boundary 15 of schema 8, checked through its squaring chains.
proof fn rounded_8_15()
    ensures
        rounds_root(0x3FE0_A9C7_9B1F_3919u64, 15, 8),
{
    lemma2_to64();
    lemma2_to64_rest();
    lemma_chain_start(0x21538F363E7231int);
    lemma_chain_start(0x21538F363E7233int);
    assert(0x21538F363E7231int * 0x21538F363E7231int <= 0x8AD4C6452C727DF9int * 0x80000000000int);
    assert(0x8AD4C6452C728EA1int * 0x80000000000int <= 0x21538F363E7233int * 0x21538F363E7233int);
    lemma_chain_upper(0x21538F363E7231int, 0, 0x21538F363E7231int, 0, 43, 0x8AD4C6452C727DF9int);
    lemma_chain_lower(0x21538F363E7233int, 0, 0x21538F363E7233int, 0, 43, 0x8AD4C6452C728EA1int);
    assert(0x8AD4C6452C727DF9int * 0x8AD4C6452C727DF9int <= 0x96942D37201841C7int * 0x8000000000000000int);
    assert(0x96942D37201865E8int * 0x8000000000000000int <= 0x8AD4C6452C728EA1int * 0x8AD4C6452C728EA1int);
    lemma_chain_upper(0x21538F363E7231int, 1, 0x8AD4C6452C727DF9int, 43, 63, 0x96942D37201841C7int);
    lemma_chain_lower(0x21538F363E7233int, 1, 0x8AD4C6452C728EA1int, 43, 63, 0x96942D37201865E8int);
    assert(0x96942D37201841C7int * 0x96942D37201841C7int <= 0xB123F581D2ABEC92int * 0x8000000000000000int);
    assert(0xB123F581D2AC4192int * 0x8000000000000000int <= 0x96942D37201865E8int * 0x96942D37201865E8int);
    lemma_chain_upper(0x21538F363E7231int, 2, 0x96942D37201841C7int, 149, 63, 0xB123F581D2ABEC92int);
    lemma_chain_lower(0x21538F363E7233int, 2, 0x96942D37201865E8int, 149, 63, 0xB123F581D2AC4192int);
    assert(0xB123F581D2ABEC92int * 0xB123F581D2ABEC92int <= 0xF5257D1524862E70int * 0x8000000000000000int);
    assert(0xF5257D15248719B3int * 0x8000000000000000int <= 0xB123F581D2AC4192int * 0xB123F581D2AC4192int);
    lemma_chain_upper(0x21538F363E7231int, 3, 0xB123F581D2ABEC92int, 361, 63, 0xF5257D1524862E70int);
    lemma_chain_lower(0x21538F363E7233int, 3, 0xB123F581D2AC4192int, 361, 63, 0xF5257D15248719B3int);
    assert(0xF5257D1524862E70int * 0xF5257D1524862E70int <= 0xEAC0C6E7DD230B16int * 0x10000000000000000int);
    assert(0xEAC0C6E7DD24CDA8int * 0x10000000000000000int <= 0xF5257D15248719B3int * 0xF5257D15248719B3int);
    lemma_chain_upper(0x21538F363E7231int, 4, 0xF5257D1524862E70int, 785, 64, 0xEAC0C6E7DD230B16int);
    lemma_chain_lower(0x21538F363E7233int, 4, 0xF5257D15248719B3int, 785, 64, 0xEAC0C6E7DD24CDA8int);
    assert(0xEAC0C6E7DD230B16int * 0xEAC0C6E7DD230B16int <= 0xD744FCCAD69B40E8int * 0x10000000000000000int);
    assert(0xD744FCCAD69E7B41int * 0x10000000000000000int <= 0xEAC0C6E7DD24CDA8int * 0xEAC0C6E7DD24CDA8int);
    lemma_chain_upper(0x21538F363E7231int, 5, 0xEAC0C6E7DD230B16int, 1634, 64, 0xD744FCCAD69B40E8int);
    lemma_chain_lower(0x21538F363E7233int, 5, 0xEAC0C6E7DD24CDA8int, 1634, 64, 0xD744FCCAD69E7B41int);
    assert(0xD744FCCAD69B40E8int * 0xD744FCCAD69B40E8int <= 0xB504F333F9DAC0BAint * 0x10000000000000000int);
    assert(0xB504F333F9E02E78int * 0x10000000000000000int <= 0xD744FCCAD69E7B41int * 0xD744FCCAD69E7B41int);
    lemma_chain_upper(0x21538F363E7231int, 6, 0xD744FCCAD69B40E8int, 3332, 64, 0xB504F333F9DAC0BAint);
    lemma_chain_lower(0x21538F363E7233int, 6, 0xD744FCCAD69E7B41int, 3332, 64, 0xB504F333F9E02E78int);
    assert(0xB504F333F9DAC0BAint * 0xB504F333F9DAC0BAint <= 0xFFFFFFFFFFF5B480int * 0x8000000000000000int);
    assert(0x10000000000050F48int * 0x8000000000000000int <= 0xB504F333F9E02E78int * 0xB504F333F9E02E78int);
    lemma_chain_upper(0x21538F363E7231int, 7, 0xB504F333F9DAC0BAint, 6728, 63, 0xFFFFFFFFFFF5B480int);
    lemma_chain_lower(0x21538F363E7233int, 7, 0xB504F333F9E02E78int, 6728, 63, 0x10000000000050F48int);
    lemma_chains_round(0x3FE0_A9C7_9B1F_3919u64, 15, 8, 1, 0x21538F363E7231int, 0x21538F363E7233int, 0xFFFFFFFFFFF5B480int, 0x10000000000050F48int, 13519, 64);
}

/// Boundary 17 of schema 8, checked through its squaring chains.
proof fn rounded_8_17()
    ensures
        rounds_root(0x3FE0_C0F1_45E4_6C85u64, 17, 8),
{
    lemma2_to64();
    lemma2_to64_rest();
    lemma_chain_start(0x2181E28BC8D909int);
    lemma_chain_start(0x2181E28BC8D90Bint);
    assert(0x2181E28BC8D909int * 0x2181E28BC8D909int <= 0x8C57C9C4646F4000int * 0x80000000000int);
    assert(0x8C57C9C4646F50C0int * 0x80000000000int <= 0x2181E28BC8D90Bint * 0x2181E28BC8D90Bint);
    lemma_chain_upper(0x2181E28BC8D909int, 0, 0x2181E28BC8D909int, 0, 43, 0x8C57C9C4646F4000int);
    lemma_chain_lower(0x2181E28BC8D90Bint, 0, 0x2181E28BC8D90Bint, 0, 43, 0x8C57C9C4646F50C0int);
    assert(0x8C57C9C4646F4000int * 0x8C57C9C4646F4000int <= 0x99E0459320B7DBFDint * 0x8000000000000000int);
    assert(0x99E0459320B800B7int * 0x8000000000000000int <= 0x8C57C9C4646F50C0int * 0x8C57C9C4646F50C0int);
    lemma_chain_upper(0x2181E28BC8D909int, 1, 0x8C57C9C4646F4000int, 43, 63, 0x99E0459320B7DBFDint);
    lemma_chain_lower(0x2181E28BC8D90Bint, 1, 0x8C57C9C4646F50C0int, 43, 63, 0x99E0459320B800B7int);
    assert(0x99E0459320B7DBFDint * 0x99E0459320B7DBFDint <= 0xB8FBAF4762FB55CFint * 0x8000000000000000int);
    assert(0xB8FBAF4762FBAE1Bint * 0x8000000000000000int <= 0x99E0459320B800B7int * 0x99E0459320B800B7int);
    lemma_chain_upper(0x2181E28BC8D909int, 2, 0x99E0459320B7DBFDint, 149, 63, 0xB8FBAF4762FB55CFint);
    lemma_chain_lower(0x2181E28BC8D90Bint, 2, 0x99E0459320B800B7int, 149, 63, 0xB8FBAF4762FBAE1Bint);
    assert(0xB8FBAF4762FB55CFint * 0xB8FBAF4762FB55CFint <= 0x85AAC367CC481170int * 0x10000000000000000int);
    assert(0x85AAC367CC48910Aint * 0x10000000000000000int <= 0xB8FBAF4762FBAE1Bint * 0xB8FBAF4762FBAE1Bint);
    lemma_chain_upper(0x2181E28BC8D909int, 3, 0xB8FBAF4762FB55CFint, 361, 64, 0x85AAC367CC481170int);
    lemma_chain_lower(0x2181E28BC8D90Bint, 3, 0xB8FBAF4762FBAE1Bint, 361, 64, 0x85AAC367CC48910Aint);
    assert(0x85AAC367CC481170int * 0x85AAC367CC481170int <= 0x8B95C1E3EA8AFA43int * 0x8000000000000000int);
    assert(0x8B95C1E3EA8C04C3int * 0x8000000000000000int <= 0x85AAC367CC48910Aint * 0x85AAC367CC48910Aint);
    lemma_chain_upper(0x2181E28BC8D909int, 4, 0x85AAC367CC481170int, 786, 63, 0x8B95C1E3EA8AFA43int);
    lemma_chain_lower(0x2181E28BC8D90Bint, 4, 0x85AAC367CC48910Aint, 786, 63, 0x8B95C1E3EA8C04C3int);
    assert(0x8B95C1E3EA8AFA43int * 0x8B95C1E3EA8AFA43int <= 0x9837F0518DB6C837int * 0x8000000000000000int);
    assert(0x9837F0518DB90D74int * 0x8000000000000000int <= 0x8B95C1E3EA8C04C3int * 0x8B95C1E3EA8C04C3int);
    lemma_chain_upper(0x2181E28BC8D909int, 5, 0x8B95C1E3EA8AFA43int, 1635, 63, 0x9837F0518DB6C837int);
    lemma_chain_lower(0x2181E28BC8D90Bint, 5, 0x8B95C1E3EA8C04C3int, 1635, 63, 0x9837F0518DB90D74int);
    assert(0x9837F0518DB6C837int * 0x9837F0518DB6C837int <= 0xB504F333F9D9EBFBint * 0x8000000000000000int);
    assert(0xB504F333F9DF5266int * 0x8000000000000000int <= 0x9837F0518DB90D74int * 0x9837F0518DB90D74int);
    lemma_chain_upper(0x2181E28BC8D909int, 6, 0x9837F0518DB6C837int, 3333, 63, 0xB504F333F9D9EBFBint);
    lemma_chain_lower(0x2181E28BC8D90Bint, 6, 0x9837F0518DB90D74int, 3333, 63, 0xB504F333F9DF5266int);
    assert(0xB504F333F9D9EBFBint * 0xB504F333F9D9EBFBint <= 0xFFFFFFFFFFF35AC4int * 0x8000000000000000int);
    assert(0x1000000000002A0D4int * 0x8000000000000000int <= 0xB504F333F9DF5266int * 0xB504F333F9DF5266int);
    lemma_chain_upper(0x2181E28BC8D909int, 7, 0xB504F333F9D9EBFBint, 6729, 63, 0xFFFFFFFFFFF35AC4int);
    lemma_chain_lower(0x2181E28BC8D90Bint, 7, 0xB504F333F9DF5266int, 6729, 63, 0x1000000000002A0D4int);
    lemma_chains_round(0x3FE0_C0F1_45E4_6C85u64, 17, 8, 1, 0x2181E28BC8D909int, 0x2181E28BC8D90Bint, 0xFFFFFFFFFFF35AC4int, 0x1000000000002A0D4int, 13521, 64);
}

/// Boundary 19 of schema 8, checked through its squaring chains.
proof fn rounded_8_19()
    ensures
        rounds_root(0x3FE0_D83B_2339_5DECu64, 19, 8),
{
    lemma2_to64();
    lemma2_to64_rest();
    lemma_chain_start(0x21B0764672BBD7int);
    lemma_chain_start(0x21B0764672BBD9int);
    assert(0x21B0764672BBD7int * 0x21B0764672BBD7int <= 0x8DDF042022E69BB8int * 0x80000000000int);
    assert(0x8DDF042022E6AC8Fint * 0x80000000000int <= 0x21B0764672BBD9int * 0x21B0764672BBD9int);
    lemma_chain_upper(0x21B0764672BBD7int, 0, 0x21B0764672BBD7int, 0, 43, 0x8DDF042022E69BB8int);
    lemma_chain_lower(0x21B0764672BBD9int, 0, 0x21B0764672BBD9int, 0, 43, 0x8DDF042022E6AC8Fint);
    assert(0x8DDF042022E69BB8int * 0x8DDF042022E69BB8int <= 0x9D3ED9A72CFFB4D8int * 0x8000000000000000int);
    assert(0x9D3ED9A72CFFDA2Cint * 0x8000000000000000int <= 0x8DDF042022E6AC8Fint * 0x8DDF042022E6AC8Fint);
    lemma_chain_upper(0x21B0764672BBD7int, 1, 0x8DDF042022E69BB8int, 43, 63, 0x9D3ED9A72CFFB4D8int);
    lemma_chain_lower(0x21B0764672BBD9int, 1, 0x8DDF042022E6AC8Fint, 43, 63, 0x9D3ED9A72CFFDA2Cint);
    assert(0x9D3ED9A72CFFB4D8int * 0x9D3ED9A72CFFB4D8int <= 0xC12C4CCA66708E44int * 0x8000000000000000int);
    assert(0xC12C4CCA6670E9FAint * 0x8000000000000000int <= 0x9D3ED9A72CFFDA2Cint * 0x9D3ED9A72CFFDA2Cint);
    lemma_chain_upper(0x21B0764672BBD7int, 2, 0x9D3ED9A72CFFB4D8int, 149, 63, 0xC12C4CCA66708E44int);
    lemma_chain_lower(0x21B0764672BBD9int, 2, 0x9D3ED9A72CFFDA2Cint, 149, 63, 0xC12C4CCA6670E9FAint);
    assert(0xC12C4CCA66708E44int * 0xC12C4CCA66708E44int <= 0x91C3D373AB11BA0Dint * 0x10000000000000000int);
    assert(0x91C3D373AB124474int * 0x10000000000000000int <= 0xC12C4CCA6670E9FAint * 0xC12C4CCA6670E9FAint);
    lemma_chain_upper(0x21B0764672BBD7int, 3, 0xC12C4CCA66708E44int, 361, 64, 0x91C3D373AB11BA0Dint);
    lemma_chain_lower(0x21B0764672BBD9int, 3, 0xC12C4CCA6670E9FAint, 361, 64, 0x91C3D373AB124474int);
    assert(0x91C3D373AB11BA0Dint * 0x91C3D373AB11BA0Dint <= 0xA5FED6A9B151240Eint * 0x8000000000000000int);
    assert(0xA5FED6A9B1525F45int * 0x8000000000000000int <= 0x91C3D373AB124474int * 0x91C3D373AB124474int);
    lemma_chain_upper(0x21B0764672BBD7int, 4, 0x91C3D373AB11BA0Dint, 786, 63, 0xA5FED6A9B151240Eint);
    lemma_chain_lower(0x21B0764672BBD9int, 4, 0x91C3D373AB124474int, 786, 63, 0xA5FED6A9B1525F45int);
    assert(0xA5FED6A9B151240Eint * 0xA5FED6A9B151240Eint <= 0xD744FCCAD69D34DAint * 0x8000000000000000int);
    assert(0xD744FCCAD6A0666Aint * 0x8000000000000000int <= 0xA5FED6A9B1525F45int * 0xA5FED6A9B1525F45int);
    lemma_chain_upper(0x21B0764672BBD7int, 5, 0xA5FED6A9B151240Eint, 1635, 63, 0xD744FCCAD69D34DAint);
    lemma_chain_lower(0x21B0764672BBD9int, 5, 0xA5FED6A9B1525F45int, 1635, 63, 0xD744FCCAD6A0666Aint);
    assert(0xD744FCCAD69D34DAint * 0xD744FCCAD69D34DAint <= 0xB504F333F9DE0988int * 0x10000000000000000int);
    assert(0xB504F333F9E3687Fint * 0x10000000000000000int <= 0xD744FCCAD6A0666Aint * 0xD744FCCAD6A0666Aint);
    lemma_chain_upper(0x21B0764672BBD7int, 6, 0xD744FCCAD69D34DAint, 3333, 64, 0xB504F333F9DE0988int);
    lemma_chain_lower(0x21B0764672BBD9int, 6, 0xD744FCCAD6A0666Aint, 3333, 64, 0xB504F333F9E3687Fint);
    assert(0xB504F333F9DE0988int * 0xB504F333F9DE0988int <= 0xFFFFFFFFFFFEFEA8int * 0x8000000000000000int);
    assert(0x100000000000E2FA4int * 0x8000000000000000int <= 0xB504F333F9E3687Fint * 0xB504F333F9E3687Fint);
    lemma_chain_upper(0x21B0764672BBD7int, 7, 0xB504F333F9DE0988int, 6730, 63, 0xFFFFFFFFFFFEFEA8int);
    lemma_chain_lower(0x21B0764672BBD9int, 7, 0xB504F333F9E3687Fint, 6730, 63, 0x100000000000E2FA4int);
    lemma_chains_round(0x3FE0_D83B_2339_5DECu64, 19, 8, 1, 0x21B0764672BBD7int, 0x21B0764672BBD9int, 0xFFFFFFFFFFFEFEA8int, 0x100000000000E2FA4int, 13523, 64);
}

/// Boundary 21 of schema 8, checked through its squaring chains.
proof fn rounded_8_21()
    ensures
        rounds_root(0x3FE0_EFA5_5FDF_A9C5u64, 21, 8),
{
    lemma2_to64();
    lemma2_to64_rest();
    lemma_chain_start(0x21DF4ABFBF5389int);
    lemma_chain_start(0x21DF4ABFBF538Bint);
    assert(0x21DF4ABFBF5389int * 0x21DF4ABFBF5389int <= 0x8F6A8117E6C8E2C1int * 0x80000000000int);
    assert(0x8F6A8117E6C8F3B0int * 0x80000000000int <= 0x21DF4ABFBF538Bint * 0x21DF4ABFBF538Bint);
    lemma_chain_upper(0x21DF4ABFBF5389int, 0, 0x21DF4ABFBF5389int, 0, 43, 0x8F6A8117E6C8E2C1int);
    lemma_chain_lower(0x21DF4ABFBF538Bint, 0, 0x21DF4ABFBF538Bint, 0, 43, 0x8F6A8117E6C8F3B0int);
    assert(0x8F6A8117E6C8E2C1int * 0x8F6A8117E6C8E2C1int <= 0xA0B0510FB9714903int * 0x8000000000000000int);
    assert(0xA0B0510FB9716EF4int * 0x8000000000000000int <= 0x8F6A8117E6C8F3B0int * 0x8F6A8117E6C8F3B0int);
    lemma_chain_upper(0x21DF4ABFBF5389int, 1, 0x8F6A8117E6C8E2C1int, 43, 63, 0xA0B0510FB9714903int);
    lemma_chain_lower(0x21DF4ABFBF538Bint, 1, 0x8F6A8117E6C8F3B0int, 43, 63, 0xA0B0510FB9716EF4int);
    assert(0xA0B0510FB9714903int * 0xA0B0510FB9714903int <= 0xC9B9BD866E2F16B3int * 0x8000000000000000int);
    assert(0xC9B9BD866E2F75F5int * 0x8000000000000000int <= 0xA0B0510FB9716EF4int * 0xA0B0510FB9716EF4int);
    lemma_chain_upper(0x21DF4ABFBF5389int, 2, 0xA0B0510FB9714903int, 149, 63, 0xC9B9BD866E2F16B3int);
    lemma_chain_lower(0x21DF4ABFBF538Bint, 2, 0xA0B0510FB9716EF4int, 149, 63, 0xC9B9BD866E2F75F5int);
    assert(0xC9B9BD866E2F16B3int * 0xC9B9BD866E2F16B3int <= 0x9EF5326091A0F6FDint * 0x10000000000000000int);
    assert(0x9EF5326091A18D1Cint * 0x10000000000000000int <= 0xC9B9BD866E2F75F5int * 0xC9B9BD866E2F75F5int);
    lemma_chain_upper(0x21DF4ABFBF5389int, 3, 0xC9B9BD866E2F16B3int, 361, 64, 0x9EF5326091A0F6FDint);
    lemma_chain_lower(0x21DF4ABFBF538Bint, 3, 0xC9B9BD866E2F75F5int, 361, 64, 0x9EF5326091A18D1Cint);
    assert(0x9EF5326091A0F6FDint * 0x9EF5326091A0F6FDint <= 0xC5672A1155069893int * 0x8000000000000000int);
    assert(0xC5672A1155080D6Eint * 0x8000000000000000int <= 0x9EF5326091A18D1Cint * 0x9EF5326091A18D1Cint);
    lemma_chain_upper(0x21DF4ABFBF5389int, 4, 0x9EF5326091A0F6FDint, 786, 63, 0xC5672A1155069893int);
    lemma_chain_lower(0x21DF4ABFBF538Bint, 4, 0x9EF5326091A18D1Cint, 786, 63, 0xC5672A1155080D6Eint);
    assert(0xC5672A1155069893int * 0xC5672A1155069893int <= 0x9837F0518DB84334int * 0x10000000000000000int);
    assert(0x9837F0518DBA8239int * 0x10000000000000000int <= 0xC5672A1155080D6Eint * 0xC5672A1155080D6Eint);
    lemma_chain_upper(0x21DF4ABFBF5389int, 5, 0xC5672A1155069893int, 1635, 64, 0x9837F0518DB84334int);
    lemma_chain_lower(0x21DF4ABFBF538Bint, 5, 0xC5672A1155080D6Eint, 1635, 64, 0x9837F0518DBA8239int);
    assert(0x9837F0518DB84334int * 0x9837F0518DB84334int <= 0xB504F333F9DD715Fint * 0x8000000000000000int);
    assert(0xB504F333F9E2C900int * 0x8000000000000000int <= 0x9837F0518DBA8239int * 0x9837F0518DBA8239int);
    lemma_chain_upper(0x21DF4ABFBF5389int, 6, 0x9837F0518DB84334int, 3334, 63, 0xB504F333F9DD715Fint);
    lemma_chain_lower(0x21DF4ABFBF538Bint, 6, 0x9837F0518DBA8239int, 3334, 63, 0xB504F333F9E2C900int);
    assert(0xB504F333F9DD715Fint * 0xB504F333F9DD715Fint <= 0xFFFFFFFFFFFD5048int * 0x8000000000000000int);
    assert(0x100000000000C6C84int * 0x8000000000000000int <= 0xB504F333F9E2C900int * 0xB504F333F9E2C900int);
    lemma_chain_upper(0x21DF4ABFBF5389int, 7, 0xB504F333F9DD715Fint, 6731, 63, 0xFFFFFFFFFFFD5048int);
    lemma_chain_lower(0x21DF4ABFBF538Bint, 7, 0xB504F333F9E2C900int, 6731, 63, 0x100000000000C6C84int);
    lemma_chains_round(0x3FE0_EFA5_5FDF_A9C5u64, 21, 8, 1, 0x21DF4ABFBF5389int, 0x21DF4ABFBF538Bint, 0xFFFFFFFFFFFD5048int, 0x100000000000C6C84int, 13525, 64);
}

/// Boundary 23 of schema 8, checked through its squaring chains.
proof fn rounded_8_23()
    ensures
        rounds_root(0x3FE1_0730_28D7_233Eu64, 23, 8),
{
    lemma2_to64();
    lemma2_to64_rest();
    lemma_chain_start(0x220E6051AE467Bint);
    lemma_chain_start(0x220E6051AE467Dint);
    assert(0x220E6051AE467Bint * 0x220E6051AE467Bint <= 0x90FA4C8BEEE4A4C2int * 0x80000000000int);
    assert(0x90FA4C8BEEE4B5C9int * 0x80000000000int <= 0x220E6051AE467Dint * 0x220E6051AE467Dint);
    lemma_chain_upper(0x220E6051AE467Bint, 0, 0x220E6051AE467Bint, 0, 43, 0x90FA4C8BEEE4A4C2int);
    lemma_chain_lower(0x220E6051AE467Dint, 0, 0x220E6051AE467Dint, 0, 43, 0x90FA4C8BEEE4B5C9int);
    assert(0x90FA4C8BEEE4A4C2int * 0x90FA4C8BEEE4A4C2int <= 0xA43515AE09E66483int * 0x8000000000000000int);
    assert(0xA43515AE09E68B14int * 0x8000000000000000int <= 0x90FA4C8BEEE4B5C9int * 0x90FA4C8BEEE4B5C9int);
    lemma_chain_upper(0x220E6051AE467Bint, 1, 0x90FA4C8BEEE4A4C2int, 43, 63, 0xA43515AE09E66483int);
    lemma_chain_lower(0x220E6051AE467Dint, 1, 0x90FA4C8BEEE4B5C9int, 43, 63, 0xA43515AE09E68B14int);
    assert(0xA43515AE09E66483int * 0xA43515AE09E66483int <= 0xD2A81D91F12A9C3Eint * 0x8000000000000000int);
    assert(0xD2A81D91F12AFF30int * 0x8000000000000000int <= 0xA43515AE09E68B14int * 0xA43515AE09E68B14int);
    lemma_chain_upper(0x220E6051AE467Bint, 2, 0xA43515AE09E66483int, 149, 63, 0xD2A81D91F12A9C3Eint);
    lemma_chain_lower(0x220E6051AE467Dint, 2, 0xA43515AE09E68B14int, 149, 63, 0xD2A81D91F12AFF30int);
    assert(0xD2A81D91F12A9C3Eint * 0xD2A81D91F12A9C3Eint <= 0xAD583EEA42A0D41Aint * 0x10000000000000000int);
    assert(0xAD583EEA42A176F0int * 0x10000000000000000int <= 0xD2A81D91F12AFF30int * 0xD2A81D91F12AFF30int);
    lemma_chain_upper(0x220E6051AE467Bint, 3, 0xD2A81D91F12A9C3Eint, 361, 64, 0xAD583EEA42A0D41Aint);
    lemma_chain_lower(0x220E6051AE467Dint, 3, 0xD2A81D91F12AFF30int, 361, 64, 0xAD583EEA42A176F0int);
    assert(0xAD583EEA42A0D41Aint * 0xAD583EEA42A0D41Aint <= 0xEAC0C6E7DD22F7C2int * 0x8000000000000000int);
    assert(0xEAC0C6E7DD24B0CCint * 0x8000000000000000int <= 0xAD583EEA42A176F0int * 0xAD583EEA42A176F0int);
    lemma_chain_upper(0x220E6051AE467Bint, 4, 0xAD583EEA42A0D41Aint, 786, 63, 0xEAC0C6E7DD22F7C2int);
    lemma_chain_lower(0x220E6051AE467Dint, 4, 0xAD583EEA42A176F0int, 786, 63, 0xEAC0C6E7DD24B0CCint);
    assert(0xEAC0C6E7DD22F7C2int * 0xEAC0C6E7DD22F7C2int <= 0xD744FCCAD69B1D76int * 0x10000000000000000int);
    assert(0xD744FCCAD69E4653int * 0x10000000000000000int <= 0xEAC0C6E7DD24B0CCint * 0xEAC0C6E7DD24B0CCint);
    lemma_chain_upper(0x220E6051AE467Bint, 5, 0xEAC0C6E7DD22F7C2int, 1635, 64, 0xD744FCCAD69B1D76int);
    lemma_chain_lower(0x220E6051AE467Dint, 5, 0xEAC0C6E7DD24B0CCint, 1635, 64, 0xD744FCCAD69E4653int);
    assert(0xD744FCCAD69B1D76int * 0xD744FCCAD69B1D76int <= 0xB504F333F9DA851Dint * 0x10000000000000000int);
    assert(0xB504F333F9DFD573int * 0x10000000000000000int <= 0xD744FCCAD69E4653int * 0xD744FCCAD69E4653int);
    lemma_chain_upper(0x220E6051AE467Bint, 6, 0xD744FCCAD69B1D76int, 3334, 64, 0xB504F333F9DA851Dint);
    lemma_chain_lower(0x220E6051AE467Dint, 6, 0xD744FCCAD69E4653int, 3334, 64, 0xB504F333F9DFD573int);
    assert(0xB504F333F9DA851Dint * 0xB504F333F9DA851Dint <= 0xFFFFFFFFFFF50BE4int * 0x8000000000000000int);
    assert(0x1000000000004137Fint * 0x8000000000000000int <= 0xB504F333F9DFD573int * 0xB504F333F9DFD573int);
    lemma_chain_upper(0x220E6051AE467Bint, 7, 0xB504F333F9DA851Dint, 6732, 63, 0xFFFFFFFFFFF50BE4int);
    lemma_chain_lower(0x220E6051AE467Dint, 7, 0xB504F333F9DFD573int, 6732, 63, 0x1000000000004137Fint);
    lemma_chains_round(0x3FE1_0730_28D7_233Eu64, 23, 8, 1, 0x220E6051AE467Bint, 0x220E6051AE467Dint, 0xFFFFFFFFFFF50BE4int, 0x1000000000004137Fint, 13527, 64);
}

/// Boundary 25 of schema 8, checked through its squaring chains.
proof fn rounded_8_25()
    ensures
        rounds_root(0x3FE1_1EDB_AB5E_2AB6u64, 25, 8),
{
    lemma2_to64();
    lemma2_to64_rest();
    lemma_chain_start(0x223DB756BC556Bint);
    lemma_chain_start(0x223DB756BC556Dint);
    assert(0x223DB756BC556Bint * 0x223DB756BC556Bint <= 0x928E727D9531F8C7int * 0x80000000000int);
    assert(0x928E727D953209E4int * 0x80000000000int <= 0x223DB756BC556Dint * 0x223DB756BC556Dint);
    lemma_chain_upper(0x223DB756BC556Bint, 0, 0x223DB756BC556Bint, 0, 43, 0x928E727D9531F8C7int);
    lemma_chain_lower(0x223DB756BC556Dint, 0, 0x223DB756BC556Dint, 0, 43, 0x928E727D953209E4int);
    assert(0x928E727D9531F8C7int * 0x928E727D9531F8C7int <= 0xA7CD93B4E965335Eint * 0x8000000000000000int);
    assert(0xA7CD93B4E9655A8Dint * 0x8000000000000000int <= 0x928E727D953209E4int * 0x928E727D953209E4int);
    lemma_chain_upper(0x223DB756BC556Bint, 1, 0x928E727D9531F8C7int, 43, 63, 0xA7CD93B4E965335Eint);
    lemma_chain_lower(0x223DB756BC556Dint, 1, 0x928E727D953209E4int, 43, 63, 0xA7CD93B4E9655A8Dint);
    assert(0xA7CD93B4E965335Eint * 0xA7CD93B4E965335Eint <= 0xDBFBB797DAF231F9int * 0x8000000000000000int);
    assert(0xDBFBB797DAF298B4int * 0x8000000000000000int <= 0xA7CD93B4E9655A8Dint * 0xA7CD93B4E9655A8Dint);
    lemma_chain_upper(0x223DB756BC556Bint, 2, 0xA7CD93B4E965335Eint, 149, 63, 0xDBFBB797DAF231F9int);
    lemma_chain_lower(0x223DB756BC556Dint, 2, 0xA7CD93B4E9655A8Dint, 149, 63, 0xDBFBB797DAF298B4int);
    assert(0xDBFBB797DAF231F9int * 0xDBFBB797DAF231F9int <= 0xBD08A39F580C2D89int * 0x10000000000000000int);
    assert(0xBD08A39F580CDE16int * 0x10000000000000000int <= 0xDBFBB797DAF298B4int * 0xDBFBB797DAF298B4int);
    lemma_chain_upper(0x223DB756BC556Bint, 3, 0xDBFBB797DAF231F9int, 361, 64, 0xBD08A39F580C2D89int);
    lemma_chain_lower(0x223DB756BC556Dint, 3, 0xDBFBB797DAF298B4int, 361, 64, 0xBD08A39F580CDE16int);
    assert(0xBD08A39F580C2D89int * 0xBD08A39F580C2D89int <= 0x8B95C1E3EA8BC94Eint * 0x10000000000000000int);
    assert(0x8B95C1E3EA8CCE09int * 0x10000000000000000int <= 0xBD08A39F580CDE16int * 0xBD08A39F580CDE16int);
    lemma_chain_upper(0x223DB756BC556Bint, 4, 0xBD08A39F580C2D89int, 786, 64, 0x8B95C1E3EA8BC94Eint);
    lemma_chain_lower(0x223DB756BC556Dint, 4, 0xBD08A39F580CDE16int, 786, 64, 0x8B95C1E3EA8CCE09int);
    assert(0x8B95C1E3EA8BC94Eint * 0x8B95C1E3EA8BC94Eint <= 0x9837F0518DB88BC8int * 0x8000000000000000int);
    assert(0x9837F0518DBAC46Fint * 0x8000000000000000int <= 0x8B95C1E3EA8CCE09int * 0x8B95C1E3EA8CCE09int);
    lemma_chain_upper(0x223DB756BC556Bint, 5, 0x8B95C1E3EA8BC94Eint, 1636, 63, 0x9837F0518DB88BC8int);
    lemma_chain_lower(0x223DB756BC556Dint, 5, 0x8B95C1E3EA8CCE09int, 1636, 63, 0x9837F0518DBAC46Fint);
    assert(0x9837F0518DB88BC8int * 0x9837F0518DB88BC8int <= 0xB504F333F9DE1DFEint * 0x8000000000000000int);
    assert(0xB504F333F9E3667Aint * 0x8000000000000000int <= 0x9837F0518DBAC46Fint * 0x9837F0518DBAC46Fint);
    lemma_chain_upper(0x223DB756BC556Bint, 6, 0x9837F0518DB88BC8int, 3335, 63, 0xB504F333F9DE1DFEint);
    lemma_chain_lower(0x223DB756BC556Dint, 6, 0x9837F0518DBAC46Fint, 3335, 63, 0xB504F333F9E3667Aint);
    assert(0xB504F333F9DE1DFEint * 0xB504F333F9DE1DFEint <= 0xFFFFFFFFFFFF3887int * 0x8000000000000000int);
    assert(0x100000000000E29EDint * 0x8000000000000000int <= 0xB504F333F9E3667Aint * 0xB504F333F9E3667Aint);
    lemma_chain_upper(0x223DB756BC556Bint, 7, 0xB504F333F9DE1DFEint, 6733, 63, 0xFFFFFFFFFFFF3887int);
    lemma_chain_lower(0x223DB756BC556Dint, 7, 0xB504F333F9E3667Aint, 6733, 63, 0x100000000000E29EDint);
    lemma_chains_round(0x3FE1_1EDB_AB5E_2AB6u64, 25, 8, 1, 0x223DB756BC556Bint, 0x223DB756BC556Dint, 0xFFFFFFFFFFFF3887int, 0x100000000000E29EDint, 13529, 64);
}

/// Boundary 27 of schema 8, checked through its squaring chains.
proof fn rounded_8_27()
    ensures
        rounds_root(0x3FE1_36A8_14F2_04ABu64, 27, 8),
{
    lemma2_to64();
    lemma2_to64_rest();
    lemma_chain_start(0x226D5029E40955int);
    lemma_chain_start(0x226D5029E40957int);
    assert(0x226D5029E40955int * 0x226D5029E40955int <= 0x9426FF0FAB1BFCE2int * 0x80000000000int);
    assert(0x9426FF0FAB1C0E18int * 0x80000000000int <= 0x226D5029E40957int * 0x226D5029E40957int);
    lemma_chain_upper(0x226D5029E40955int, 0, 0x226D5029E40955int, 0, 43, 0x9426FF0FAB1BFCE2int);
    lemma_chain_lower(0x226D5029E40957int, 0, 0x226D5029E40957int, 0, 43, 0x9426FF0FAB1C0E18int);
    assert(0x9426FF0FAB1BFCE2int * 0x9426FF0FAB1BFCE2int <= 0xAB7A39B5A93EC118int * 0x8000000000000000int);
    assert(0xAB7A39B5A93EE8EEint * 0x8000000000000000int <= 0x9426FF0FAB1C0E18int * 0x9426FF0FAB1C0E18int);
    lemma_chain_upper(0x226D5029E40955int, 1, 0x9426FF0FAB1BFCE2int, 43, 63, 0xAB7A39B5A93EC118int);
    lemma_chain_lower(0x226D5029E40957int, 1, 0x9426FF0FAB1C0E18int, 43, 63, 0xAB7A39B5A93EE8EEint);
    assert(0xAB7A39B5A93EC118int * 0xAB7A39B5A93EC118int <= 0xE5B906E77C83181Aint * 0x8000000000000000int);
    assert(0xE5B906E77C8382D5int * 0x8000000000000000int <= 0xAB7A39B5A93EE8EEint * 0xAB7A39B5A93EE8EEint);
    lemma_chain_upper(0x226D5029E40955int, 2, 0xAB7A39B5A93EC118int, 149, 63, 0xE5B906E77C83181Aint);
    lemma_chain_lower(0x226D5029E40957int, 2, 0xAB7A39B5A93EE8EEint, 149, 63, 0xE5B906E77C8382D5int);
    assert(0xE5B906E77C83181Aint * 0xE5B906E77C83181Aint <= 0xCE248C151F8429C0int * 0x10000000000000000int);
    assert(0xCE248C151F84E94Cint * 0x10000000000000000int <= 0xE5B906E77C8382D5int * 0xE5B906E77C8382D5int);
    lemma_chain_upper(0x226D5029E40955int, 3, 0xE5B906E77C83181Aint, 361, 64, 0xCE248C151F8429C0int);
    lemma_chain_lower(0x226D5029E40957int, 3, 0xE5B906E77C8382D5int, 361, 64, 0xCE248C151F84E94Cint);
    assert(0xCE248C151F8429C0int * 0xCE248C151F8429C0int <= 0xA5FED6A9B150AC94int * 0x10000000000000000int);
    assert(0xA5FED6A9B151E10Fint * 0x10000000000000000int <= 0xCE248C151F84E94Cint * 0xCE248C151F84E94Cint);
    lemma_chain_upper(0x226D5029E40955int, 4, 0xCE248C151F8429C0int, 786, 64, 0xA5FED6A9B150AC94int);
    lemma_chain_lower(0x226D5029E40957int, 4, 0xCE248C151F84E94Cint, 786, 64, 0xA5FED6A9B151E10Fint);
    assert(0xA5FED6A9B150AC94int * 0xA5FED6A9B150AC94int <= 0xD744FCCAD69BFEF8int * 0x8000000000000000int);
    assert(0xD744FCCAD69F1F10int * 0x8000000000000000int <= 0xA5FED6A9B151E10Fint * 0xA5FED6A9B151E10Fint);
    lemma_chain_upper(0x226D5029E40955int, 5, 0xA5FED6A9B150AC94int, 1636, 63, 0xD744FCCAD69BFEF8int);
    lemma_chain_lower(0x226D5029E40957int, 5, 0xA5FED6A9B151E10Fint, 1636, 63, 0xD744FCCAD69F1F10int);
    assert(0xD744FCCAD69BFEF8int * 0xD744FCCAD69BFEF8int <= 0xB504F333F9DC005Fint * 0x10000000000000000int);
    assert(0xB504F333F9E141F6int * 0x10000000000000000int <= 0xD744FCCAD69F1F10int * 0xD744FCCAD69F1F10int);
    lemma_chain_upper(0x226D5029E40955int, 6, 0xD744FCCAD69BFEF8int, 3335, 64, 0xB504F333F9DC005Fint);
    lemma_chain_lower(0x226D5029E40957int, 6, 0xD744FCCAD69F1F10int, 3335, 64, 0xB504F333F9E141F6int);
    assert(0xB504F333F9DC005Fint * 0xB504F333F9DC005Fint <= 0xFFFFFFFFFFF93C98int * 0x8000000000000000int);
    assert(0x10000000000081A7Eint * 0x8000000000000000int <= 0xB504F333F9E141F6int * 0xB504F333F9E141F6int);
    lemma_chain_upper(0x226D5029E40955int, 7, 0xB504F333F9DC005Fint, 6734, 63, 0xFFFFFFFFFFF93C98int);
    lemma_chain_lower(0x226D5029E40957int, 7, 0xB504F333F9E141F6int, 6734, 63, 0x10000000000081A7Eint);
    lemma_chains_round(0x3FE1_36A8_14F2_04ABu64, 27, 8, 1, 0x226D5029E40955int, 0x226D5029E40957int, 0xFFFFFFFFFFF93C98int, 0x10000000000081A7Eint, 13531, 64);
}

/// Boundary 29 of schema 8, checked through its squaring chains.
proof fn rounded_8_29()
    ensures
        rounds_root(0x3FE1_4E95_934F_312Eu64, 29, 8),
{
    lemma2_to64();
    lemma2_to64_rest();
    lemma_chain_start(0x229D2B269E625Bint);
    lemma_chain_start(0x229D2B269E625Dint);
    assert(0x229D2B269E625Bint * 0x229D2B269E625Bint <= 0x95C3FE86D6CC7B02int * 0x80000000000int);
    assert(0x95C3FE86D6CC8C50int * 0x80000000000int <= 0x229D2B269E625Dint * 0x229D2B269E625Dint);
    lemma_chain_upper(0x229D2B269E625Bint, 0, 0x229D2B269E625Bint, 0, 43, 0x95C3FE86D6CC7B02int);
    lemma_chain_lower(0x229D2B269E625Dint, 0, 0x229D2B269E625Dint, 0, 43, 0x95C3FE86D6CC8C50int);
    assert(0x95C3FE86D6CC7B02int * 0x95C3FE86D6CC7B02int <= 0xAF3B78AD690A37EFint * 0x8000000000000000int);
    assert(0xAF3B78AD690A606Cint * 0x8000000000000000int <= 0x95C3FE86D6CC8C50int * 0x95C3FE86D6CC8C50int);
    lemma_chain_upper(0x229D2B269E625Bint, 1, 0x95C3FE86D6CC7B02int, 43, 63, 0xAF3B78AD690A37EFint);
    lemma_chain_lower(0x229D2B269E625Dint, 1, 0x95C3FE86D6CC8C50int, 43, 63, 0xAF3B78AD690A606Cint);
    assert(0xAF3B78AD690A37EFint * 0xAF3B78AD690A37EFint <= 0xEFE4B99BDCDAD63Fint * 0x8000000000000000int);
    assert(0xEFE4B99BDCDB4519int * 0x8000000000000000int <= 0xAF3B78AD690A606Cint * 0xAF3B78AD690A606Cint);
    lemma_chain_upper(0x229D2B269E625Bint, 2, 0xAF3B78AD690A37EFint, 149, 63, 0xEFE4B99BDCDAD63Fint);
    lemma_chain_lower(0x229D2B269E625Dint, 2, 0xAF3B78AD690A606Cint, 149, 63, 0xEFE4B99BDCDB4519int);
    assert(0xEFE4B99BDCDAD63Fint * 0xEFE4B99BDCDAD63Fint <= 0xE0CCDEEC2A94A5F1int * 0x10000000000000000int);
    assert(0xE0CCDEEC2A9575B1int * 0x10000000000000000int <= 0xEFE4B99BDCDB4519int * 0xEFE4B99BDCDB4519int);
    lemma_chain_upper(0x229D2B269E625Bint, 3, 0xEFE4B99BDCDAD63Fint, 361, 64, 0xE0CCDEEC2A94A5F1int);
    lemma_chain_lower(0x229D2B269E625Dint, 3, 0xEFE4B99BDCDB4519int, 361, 64, 0xE0CCDEEC2A9575B1int);
    assert(0xE0CCDEEC2A94A5F1int * 0xE0CCDEEC2A94A5F1int <= 0xC5672A1155067307int * 0x10000000000000000int);
    assert(0xC5672A115507DFE3int * 0x10000000000000000int <= 0xE0CCDEEC2A9575B1int * 0xE0CCDEEC2A9575B1int);
    lemma_chain_upper(0x229D2B269E625Bint, 4, 0xE0CCDEEC2A94A5F1int, 786, 64, 0xC5672A1155067307int);
    lemma_chain_lower(0x229D2B269E625Dint, 4, 0xE0CCDEEC2A9575B1int, 786, 64, 0xC5672A115507DFE3int);
    assert(0xC5672A1155067307int * 0xC5672A1155067307int <= 0x9837F0518DB8094Cint * 0x10000000000000000int);
    assert(0x9837F0518DBA3BFCint * 0x10000000000000000int <= 0xC5672A115507DFE3int * 0xC5672A115507DFE3int);
    lemma_chain_upper(0x229D2B269E625Bint, 5, 0xC5672A1155067307int, 1636, 64, 0x9837F0518DB8094Cint);
    lemma_chain_lower(0x229D2B269E625Dint, 5, 0xC5672A115507DFE3int, 1636, 64, 0x9837F0518DBA3BFCint);
    assert(0x9837F0518DB8094Cint * 0x9837F0518DB8094Cint <= 0xB504F333F9DCE7A5int * 0x8000000000000000int);
    assert(0xB504F333F9E221F2int * 0x8000000000000000int <= 0x9837F0518DBA3BFCint * 0x9837F0518DBA3BFCint);
    lemma_chain_upper(0x229D2B269E625Bint, 6, 0x9837F0518DB8094Cint, 3336, 63, 0xB504F333F9DCE7A5int);
    lemma_chain_lower(0x229D2B269E625Dint, 6, 0x9837F0518DBA3BFCint, 3336, 63, 0xB504F333F9E221F2int);
    assert(0xB504F333F9DCE7A5int * 0xB504F333F9DCE7A5int <= 0xFFFFFFFFFFFBCABBint * 0x8000000000000000int);
    assert(0x100000000000A9404int * 0x8000000000000000int <= 0xB504F333F9E221F2int * 0xB504F333F9E221F2int);
    lemma_chain_upper(0x229D2B269E625Bint, 7, 0xB504F333F9DCE7A5int, 6735, 63, 0xFFFFFFFFFFFBCABBint);
    lemma_chain_lower(0x229D2B269E625Dint, 7, 0xB504F333F9E221F2int, 6735, 63, 0x100000000000A9404int);
    lemma_chains_round(0x3FE1_4E95_934F_312Eu64, 29, 8, 1, 0x229D2B269E625Bint, 0x229D2B269E625Dint, 0xFFFFFFFFFFFBCABBint, 0x100000000000A9404int, 13533, 64);
}

/// Boundary 31 of schema 8, checked through its squaring chains.
proof fn rounded_8_31()
    ensures
        rounds_root(0x3FE1_66A4_5471_C3C2u64, 31, 8),
{
    lemma2_to64();
    lemma2_to64_rest();
    lemma_chain_start(0x22CD48A8E38783int);
    lemma_chain_start(0x22CD48A8E38785int);
    assert(0x22CD48A8E38783int * 0x22CD48A8E38783int <= 0x97657D49F17AA76Fint * 0x80000000000int);
    assert(0x97657D49F17AB8D5int * 0x80000000000int <= 0x22CD48A8E38785int * 0x22CD48A8E38785int);
    lemma_chain_upper(0x22CD48A8E38783int, 0, 0x22CD48A8E38783int, 0, 43, 0x97657D49F17AA76Fint);
    lemma_chain_lower(0x22CD48A8E38785int, 0, 0x22CD48A8E38785int, 0, 43, 0x97657D49F17AB8D5int);
    assert(0x97657D49F17AA76Fint * 0x97657D49F17AA76Fint <= 0xB311C412A9110EF5int * 0x8000000000000000int);
    assert(0xB311C412A911381Dint * 0x8000000000000000int <= 0x97657D49F17AB8D5int * 0x97657D49F17AB8D5int);
    lemma_chain_upper(0x22CD48A8E38783int, 1, 0x97657D49F17AA76Fint, 43, 63, 0xB311C412A9110EF5int);
    lemma_chain_lower(0x22CD48A8E38785int, 1, 0x97657D49F17AB8D5int, 43, 63, 0xB311C412A911381Dint);
    assert(0xB311C412A9110EF5int * 0xB311C412A9110EF5int <= 0xFA83B2DB7229C6DAint * 0x8000000000000000int);
    assert(0xFA83B2DB722A3A01int * 0x8000000000000000int <= 0xB311C412A911381Dint * 0xB311C412A911381Dint);
    lemma_chain_upper(0x22CD48A8E38783int, 2, 0xB311C412A9110EF5int, 149, 63, 0xFA83B2DB7229C6DAint);
    lemma_chain_lower(0x22CD48A8E38785int, 2, 0xB311C412A911381Dint, 149, 63, 0xFA83B2DB722A3A01int);
    assert(0xFA83B2DB7229C6DAint * 0xFA83B2DB7229C6DAint <= 0xF5257D1524865602int * 0x10000000000000000int);
    assert(0xF5257D1524873760int * 0x10000000000000000int <= 0xFA83B2DB722A3A01int * 0xFA83B2DB722A3A01int);
    lemma_chain_upper(0x22CD48A8E38783int, 3, 0xFA83B2DB7229C6DAint, 361, 64, 0xF5257D1524865602int);
    lemma_chain_lower(0x22CD48A8E38785int, 3, 0xFA83B2DB722A3A01int, 361, 64, 0xF5257D1524873760int);
    assert(0xF5257D1524865602int * 0xF5257D1524865602int <= 0xEAC0C6E7DD2356DFint * 0x10000000000000000int);
    assert(0xEAC0C6E7DD25067Eint * 0x10000000000000000int <= 0xF5257D1524873760int * 0xF5257D1524873760int);
    lemma_chain_upper(0x22CD48A8E38783int, 4, 0xF5257D1524865602int, 786, 64, 0xEAC0C6E7DD2356DFint);
    lemma_chain_lower(0x22CD48A8E38785int, 4, 0xF5257D1524873760int, 786, 64, 0xEAC0C6E7DD25067Eint);
    assert(0xEAC0C6E7DD2356DFint * 0xEAC0C6E7DD2356DFint <= 0xD744FCCAD69BCBE6int * 0x10000000000000000int);
    assert(0xD744FCCAD69EE37Eint * 0x10000000000000000int <= 0xEAC0C6E7DD25067Eint * 0xEAC0C6E7DD25067Eint);
    lemma_chain_upper(0x22CD48A8E38783int, 5, 0xEAC0C6E7DD2356DFint, 1636, 64, 0xD744FCCAD69BCBE6int);
    lemma_chain_lower(0x22CD48A8E38785int, 5, 0xEAC0C6E7DD25067Eint, 1636, 64, 0xD744FCCAD69EE37Eint);
    assert(0xD744FCCAD69BCBE6int * 0xD744FCCAD69BCBE6int <= 0xB504F333F9DBAA7Bint * 0x10000000000000000int);
    assert(0xB504F333F9E0DDC6int * 0x10000000000000000int <= 0xD744FCCAD69EE37Eint * 0xD744FCCAD69EE37Eint);
    lemma_chain_upper(0x22CD48A8E38783int, 6, 0xD744FCCAD69BCBE6int, 3336, 64, 0xB504F333F9DBAA7Bint);
    lemma_chain_lower(0x22CD48A8E38785int, 6, 0xD744FCCAD69EE37Eint, 3336, 64, 0xB504F333F9E0DDC6int);
    assert(0xB504F333F9DBAA7Bint * 0xB504F333F9DBAA7Bint <= 0xFFFFFFFFFFF849A8int * 0x8000000000000000int);
    assert(0x1000000000006FF1Eint * 0x8000000000000000int <= 0xB504F333F9E0DDC6int * 0xB504F333F9E0DDC6int);
    lemma_chain_upper(0x22CD48A8E38783int, 7, 0xB504F333F9DBAA7Bint, 6736, 63, 0xFFFFFFFFFFF849A8int);
    lemma_chain_lower(0x22CD48A8E38785int, 7, 0xB504F333F9E0DDC6int, 6736, 63, 0x1000000000006FF1Eint);
    lemma_chains_round(0x3FE1_66A4_5471_C3C2u64, 31, 8, 1, 0x22CD48A8E38783int, 0x22CD48A8E38785int, 0xFFFFFFFFFFF849A8int, 0x1000000000006FF1Eint, 13535, 64);
}

/// Boundary 33 of schema 8, checked through its squaring chains.
proof fn rounded_8_33()
    ensures
        rounds_root(0x3FE1_7ED4_8695_BBC0u64, 33, 8),
{
    lemma2_to64();
    lemma2_to64_rest();
    lemma_chain_start(0x22FDA90D2B777Fint);
    lemma_chain_start(0x22FDA90D2B7781int);
    assert(0x22FDA90D2B777Fint * 0x22FDA90D2B777Fint <= 0x990B87E266C17FC8int * 0x80000000000int);
    assert(0x990B87E266C19146int * 0x80000000000int <= 0x22FDA90D2B7781int * 0x22FDA90D2B7781int);
    lemma_chain_upper(0x22FDA90D2B777Fint, 0, 0x22FDA90D2B777Fint, 0, 43, 0x990B87E266C17FC8int);
    lemma_chain_lower(0x22FDA90D2B7781int, 0, 0x22FDA90D2B7781int, 0, 43, 0x990B87E266C19146int);
    assert(0x990B87E266C17FC8int * 0x990B87E266C17FC8int <= 0xB6FD91E328D15FF0int * 0x8000000000000000int);
    assert(0xB6FD91E328D189C3int * 0x8000000000000000int <= 0x990B87E266C19146int * 0x990B87E266C19146int);
    lemma_chain_upper(0x22FDA90D2B777Fint, 1, 0x990B87E266C17FC8int, 43, 63, 0xB6FD91E328D15FF0int);
    lemma_chain_lower(0x22FDA90D2B7781int, 1, 0x990B87E266C19146int, 43, 63, 0xB6FD91E328D189C3int);
    assert(0xB6FD91E328D15FF0int * 0xB6FD91E328D15FF0int <= 0x82CD8698AC2B8010int * 0x10000000000000000int);
    assert(0x82CD8698AC2BBBDAint * 0x10000000000000000int <= 0xB6FD91E328D189C3int * 0xB6FD91E328D189C3int);
    lemma_chain_upper(0x22FDA90D2B777Fint, 2, 0xB6FD91E328D15FF0int, 149, 64, 0x82CD8698AC2B8010int);
    lemma_chain_lower(0x22FDA90D2B7781int, 2, 0xB6FD91E328D189C3int, 149, 64, 0x82CD8698AC2BBBDAint);
    assert(0x82CD8698AC2B8010int * 0x82CD8698AC2B8010int <= 0x85AAC367CC48360Cint * 0x8000000000000000int);
    assert(0x85AAC367CC48B03Dint * 0x8000000000000000int <= 0x82CD8698AC2BBBDAint * 0x82CD8698AC2BBBDAint);
    lemma_chain_upper(0x22FDA90D2B777Fint, 3, 0x82CD8698AC2B8010int, 362, 63, 0x85AAC367CC48360Cint);
    lemma_chain_lower(0x22FDA90D2B7781int, 3, 0x82CD8698AC2BBBDAint, 362, 63, 0x85AAC367CC48B03Dint);
    assert(0x85AAC367CC48360Cint * 0x85AAC367CC48360Cint <= 0x8B95C1E3EA8B46B9int * 0x8000000000000000int);
    assert(0x8B95C1E3EA8C45ECint * 0x8000000000000000int <= 0x85AAC367CC48B03Dint * 0x85AAC367CC48B03Dint);
    lemma_chain_upper(0x22FDA90D2B777Fint, 4, 0x85AAC367CC48360Cint, 787, 63, 0x8B95C1E3EA8B46B9int);
    lemma_chain_lower(0x22FDA90D2B7781int, 4, 0x85AAC367CC48B03Dint, 787, 63, 0x8B95C1E3EA8C45ECint);
    assert(0x8B95C1E3EA8B46B9int * 0x8B95C1E3EA8B46B9int <= 0x9837F0518DB76EFBint * 0x8000000000000000int);
    assert(0x9837F0518DB99B91int * 0x8000000000000000int <= 0x8B95C1E3EA8C45ECint * 0x8B95C1E3EA8C45ECint);
    lemma_chain_upper(0x22FDA90D2B777Fint, 5, 0x8B95C1E3EA8B46B9int, 1637, 63, 0x9837F0518DB76EFBint);
    lemma_chain_lower(0x22FDA90D2B7781int, 5, 0x8B95C1E3EA8C45ECint, 1637, 63, 0x9837F0518DB99B91int);
    assert(0x9837F0518DB76EFBint * 0x9837F0518DB76EFBint <= 0xB504F333F9DB789Eint * 0x8000000000000000int);
    assert(0xB504F333F9E0A468int * 0x8000000000000000int <= 0x9837F0518DB99B91int * 0x9837F0518DB99B91int);
    lemma_chain_upper(0x22FDA90D2B777Fint, 6, 0x9837F0518DB76EFBint, 3337, 63, 0xB504F333F9DB789Eint);
    lemma_chain_lower(0x22FDA90D2B7781int, 6, 0x9837F0518DB99B91int, 3337, 63, 0xB504F333F9E0A468int);
    assert(0xB504F333F9DB789Eint * 0xB504F333F9DB789Eint <= 0xFFFFFFFFFFF7BC9Fint * 0x8000000000000000int);
    assert(0x10000000000065CDCint * 0x8000000000000000int <= 0xB504F333F9E0A468int * 0xB504F333F9E0A468int);
    lemma_chain_upper(0x22FDA90D2B777Fint, 7, 0xB504F333F9DB789Eint, 6737, 63, 0xFFFFFFFFFFF7BC9Fint);
    lemma_chain_lower(0x22FDA90D2B7781int, 7, 0xB504F333F9E0A468int, 6737, 63, 0x10000000000065CDCint);
    lemma_chains_round(0x3FE1_7ED4_8695_BBC0u64, 33, 8, 1, 0x22FDA90D2B777Fint, 0x22FDA90D2B7781int, 0xFFFFFFFFFFF7BC9Fint, 0x10000000000065CDCint, 13537, 64);
}

/// Boundary 35 of schema 8, checked through its squaring chains.
proof fn rounded_8_35()
    ensures
        rounds_root(0x3FE1_9726_5837_5D2Fu64, 35, 8),
{
    lemma2_to64();
    lemma2_to64_rest();
    lemma_chain_start(0x232E4CB06EBA5Dint);
    lemma_chain_start(0x232E4CB06EBA5Fint);
    assert(0x232E4CB06EBA5Dint * 0x232E4CB06EBA5Dint <= 0x9AB62AFC94FF77D1int * 0x80000000000int);
    assert(0x9AB62AFC94FF8967int * 0x80000000000int <= 0x232E4CB06EBA5Fint * 0x232E4CB06EBA5Fint);
    lemma_chain_upper(0x232E4CB06EBA5Dint, 0, 0x232E4CB06EBA5Dint, 0, 43, 0x9AB62AFC94FF77D1int);
    lemma_chain_lower(0x232E4CB06EBA5Fint, 0, 0x232E4CB06EBA5Fint, 0, 43, 0x9AB62AFC94FF8967int);
    assert(0x9AB62AFC94FF77D1int * 0x9AB62AFC94FF77D1int <= 0xBAFF5AB2133E22FFint * 0x8000000000000000int);
    assert(0xBAFF5AB2133E4D81int * 0x8000000000000000int <= 0x9AB62AFC94FF8967int * 0x9AB62AFC94FF8967int);
    lemma_chain_upper(0x232E4CB06EBA5Dint, 1, 0x9AB62AFC94FF77D1int, 43, 63, 0xBAFF5AB2133E22FFint);
    lemma_chain_lower(0x232E4CB06EBA5Fint, 1, 0x9AB62AFC94FF8967int, 43, 63, 0xBAFF5AB2133E4D81int);
    assert(0xBAFF5AB2133E22FFint * 0xBAFF5AB2133E22FFint <= 0x88980E8092DA520Bint * 0x10000000000000000int);
    assert(0x88980E8092DA9024int * 0x10000000000000000int <= 0xBAFF5AB2133E4D81int * 0xBAFF5AB2133E4D81int);
    lemma_chain_upper(0x232E4CB06EBA5Dint, 2, 0xBAFF5AB2133E22FFint, 149, 64, 0x88980E8092DA520Bint);
    lemma_chain_lower(0x232E4CB06EBA5Fint, 2, 0xBAFF5AB2133E4D81int, 149, 64, 0x88980E8092DA9024int);
    assert(0x88980E8092DA520Bint * 0x88980E8092DA520Bint <= 0x91C3D373AB115621int * 0x8000000000000000int);
    assert(0x91C3D373AB11DAA9int * 0x8000000000000000int <= 0x88980E8092DA9024int * 0x88980E8092DA9024int);
    lemma_chain_upper(0x232E4CB06EBA5Dint, 3, 0x88980E8092DA520Bint, 362, 63, 0x91C3D373AB115621int);
    lemma_chain_lower(0x232E4CB06EBA5Fint, 3, 0x88980E8092DA9024int, 362, 63, 0x91C3D373AB11DAA9int);
    assert(0x91C3D373AB115621int * 0x91C3D373AB115621int <= 0xA5FED6A9B1504079int * 0x8000000000000000int);
    assert(0xA5FED6A9B1516E52int * 0x8000000000000000int <= 0x91C3D373AB11DAA9int * 0x91C3D373AB11DAA9int);
    lemma_chain_upper(0x232E4CB06EBA5Dint, 4, 0x91C3D373AB115621int, 787, 63, 0xA5FED6A9B1504079int);
    lemma_chain_lower(0x232E4CB06EBA5Fint, 4, 0x91C3D373AB11DAA9int, 787, 63, 0xA5FED6A9B1516E52int);
    assert(0xA5FED6A9B1504079int * 0xA5FED6A9B1504079int <= 0xD744FCCAD69AE694int * 0x8000000000000000int);
    assert(0xD744FCCAD69DF578int * 0x8000000000000000int <= 0xA5FED6A9B1516E52int * 0xA5FED6A9B1516E52int);
    lemma_chain_upper(0x232E4CB06EBA5Dint, 5, 0xA5FED6A9B1504079int, 1637, 63, 0xD744FCCAD69AE694int);
    lemma_chain_lower(0x232E4CB06EBA5Fint, 5, 0xA5FED6A9B1516E52int, 1637, 63, 0xD744FCCAD69DF578int);
    assert(0xD744FCCAD69AE694int * 0xD744FCCAD69AE694int <= 0xB504F333F9DA28D0int * 0x10000000000000000int);
    assert(0xB504F333F9DF4D78int * 0x10000000000000000int <= 0xD744FCCAD69DF578int * 0xD744FCCAD69DF578int);
    lemma_chain_upper(0x232E4CB06EBA5Dint, 6, 0xD744FCCAD69AE694int, 3337, 64, 0xB504F333F9DA28D0int);
    lemma_chain_lower(0x232E4CB06EBA5Fint, 6, 0xD744FCCAD69DF578int, 3337, 64, 0xB504F333F9DF4D78int);
    assert(0xB504F333F9DA28D0int * 0xB504F333F9DA28D0int <= 0xFFFFFFFFFFF406D3int * 0x8000000000000000int);
    assert(0x100000000000292E3int * 0x8000000000000000int <= 0xB504F333F9DF4D78int * 0xB504F333F9DF4D78int);
    lemma_chain_upper(0x232E4CB06EBA5Dint, 7, 0xB504F333F9DA28D0int, 6738, 63, 0xFFFFFFFFFFF406D3int);
    lemma_chain_lower(0x232E4CB06EBA5Fint, 7, 0xB504F333F9DF4D78int, 6738, 63, 0x100000000000292E3int);
    lemma_chains_round(0x3FE1_9726_5837_5D2Fu64, 35, 8, 1, 0x232E4CB06EBA5Dint, 0x232E4CB06EBA5Fint, 0xFFFFFFFFFFF406D3int, 0x100000000000292E3int, 13539, 64);
}

/// Boundary 37 of schema 8, checked through its squaring chains.
proof fn rounded_8_37()
    ensures
        rounds_root(0x3FE1_AF99_F813_8A1Cu64, 37, 8),
{
    lemma2_to64();
    lemma2_to64_rest();
    lemma_chain_start(0x235F33F0271437int);
    lemma_chain_start(0x235F33F0271439int);
    assert(0x235F33F0271437int * 0x235F33F0271437int <= 0x9C6573682EC31CC6int * 0x80000000000int);
    assert(0x9C6573682EC32E75int * 0x80000000000int <= 0x235F33F0271439int * 0x235F33F0271439int);
    lemma_chain_upper(0x235F33F0271437int, 0, 0x235F33F0271437int, 0, 43, 0x9C6573682EC31CC6int);
    lemma_chain_lower(0x235F33F0271439int, 0, 0x235F33F0271439int, 0, 43, 0x9C6573682EC32E75int);
    assert(0x9C6573682EC31CC6int * 0x9C6573682EC31CC6int <= 0xBF1799B67A72EADFint * 0x8000000000000000int);
    assert(0xBF1799B67A731615int * 0x8000000000000000int <= 0x9C6573682EC32E75int * 0x9C6573682EC32E75int);
    lemma_chain_upper(0x235F33F0271437int, 1, 0x9C6573682EC31CC6int, 43, 63, 0xBF1799B67A72EADFint);
    lemma_chain_lower(0x235F33F0271439int, 1, 0x9C6573682EC32E75int, 43, 63, 0xBF1799B67A731615int);
    assert(0xBF1799B67A72EADFint * 0xBF1799B67A72EADFint <= 0x8EA4398B45CD1B8Fint * 0x10000000000000000int);
    assert(0x8EA4398B45CD5C11int * 0x10000000000000000int <= 0xBF1799B67A731615int * 0xBF1799B67A731615int);
    lemma_chain_upper(0x235F33F0271437int, 2, 0xBF1799B67A72EADFint, 149, 64, 0x8EA4398B45CD1B8Fint);
    lemma_chain_lower(0x235F33F0271439int, 2, 0xBF1799B67A731615int, 149, 64, 0x8EA4398B45CD5C11int);
    assert(0x8EA4398B45CD1B8Fint * 0x8EA4398B45CD1B8Fint <= 0x9EF5326091A09471int * 0x8000000000000000int);
    assert(0x9EF5326091A12436int * 0x8000000000000000int <= 0x8EA4398B45CD5C11int * 0x8EA4398B45CD5C11int);
    lemma_chain_upper(0x235F33F0271437int, 3, 0x8EA4398B45CD1B8Fint, 362, 63, 0x9EF5326091A09471int);
    lemma_chain_lower(0x235F33F0271439int, 3, 0x8EA4398B45CD5C11int, 362, 63, 0x9EF5326091A12436int);
    assert(0x9EF5326091A09471int * 0x9EF5326091A09471int <= 0xC5672A115505A3D0int * 0x8000000000000000int);
    assert(0xC5672A11550708E4int * 0x8000000000000000int <= 0x9EF5326091A12436int * 0x9EF5326091A12436int);
    lemma_chain_upper(0x235F33F0271437int, 4, 0x9EF5326091A09471int, 787, 63, 0xC5672A115505A3D0int);
    lemma_chain_lower(0x235F33F0271439int, 4, 0x9EF5326091A12436int, 787, 63, 0xC5672A11550708E4int);
    assert(0xC5672A115505A3D0int * 0xC5672A115505A3D0int <= 0x9837F0518DB6C9BBint * 0x10000000000000000int);
    assert(0x9837F0518DB8F06Aint * 0x10000000000000000int <= 0xC5672A11550708E4int * 0xC5672A11550708E4int);
    lemma_chain_upper(0x235F33F0271437int, 5, 0xC5672A115505A3D0int, 1637, 64, 0x9837F0518DB6C9BBint);
    lemma_chain_lower(0x235F33F0271439int, 5, 0xC5672A11550708E4int, 1637, 64, 0x9837F0518DB8F06Aint);
    assert(0x9837F0518DB6C9BBint * 0x9837F0518DB6C9BBint <= 0xB504F333F9D9EF95int * 0x8000000000000000int);
    assert(0xB504F333F9DF0D55int * 0x8000000000000000int <= 0x9837F0518DB8F06Aint * 0x9837F0518DB8F06Aint);
    lemma_chain_upper(0x235F33F0271437int, 6, 0x9837F0518DB6C9BBint, 3338, 63, 0xB504F333F9D9EF95int);
    lemma_chain_lower(0x235F33F0271439int, 6, 0x9837F0518DB8F06Aint, 3338, 63, 0xB504F333F9DF0D55int);
    assert(0xB504F333F9D9EF95int * 0xB504F333F9D9EF95int <= 0xFFFFFFFFFFF364F3int * 0x8000000000000000int);
    assert(0x1000000000001DD7Bint * 0x8000000000000000int <= 0xB504F333F9DF0D55int * 0xB504F333F9DF0D55int);
    lemma_chain_upper(0x235F33F0271437int, 7, 0xB504F333F9D9EF95int, 6739, 63, 0xFFFFFFFFFFF364F3int);
    lemma_chain_lower(0x235F33F0271439int, 7, 0xB504F333F9DF0D55int, 6739, 63, 0x1000000000001DD7Bint);
    lemma_chains_round(0x3FE1_AF99_F813_8A1Cu64, 37, 8, 1, 0x235F33F0271437int, 0x235F33F0271439int, 0xFFFFFFFFFFF364F3int, 0x1000000000001DD7Bint, 13541, 64);
}

/// Boundary 39 of schema 8, checked through its squaring chains.
proof fn rounded_8_39()
    ensures
        rounds_root(0x3FE1_C82F_9528_1C6Bu64, 39, 8),
{
    lemma2_to64();
    lemma2_to64_rest();
    lemma_chain_start(0x23905F2A5038D5int);
    lemma_chain_start(0x23905F2A5038D7int);
    assert(0x23905F2A5038D5int * 0x23905F2A5038D5int <= 0x9E196E189D4716C8int * 0x80000000000int);
    assert(0x9E196E189D47288Fint * 0x80000000000int <= 0x23905F2A5038D7int * 0x23905F2A5038D7int);
    lemma_chain_upper(0x23905F2A5038D5int, 0, 0x23905F2A5038D5int, 0, 43, 0x9E196E189D4716C8int);
    lemma_chain_lower(0x23905F2A5038D7int, 0, 0x23905F2A5038D7int, 0, 43, 0x9E196E189D47288Fint);
    assert(0x9E196E189D4716C8int * 0x9E196E189D4716C8int <= 0xC346CCDA24974311int * 0x8000000000000000int);
    assert(0xC346CCDA24976EFAint * 0x8000000000000000int <= 0x9E196E189D47288Fint * 0x9E196E189D47288Fint);
    lemma_chain_upper(0x23905F2A5038D5int, 1, 0x9E196E189D4716C8int, 43, 63, 0xC346CCDA24974311int);
    lemma_chain_lower(0x23905F2A5038D7int, 1, 0x9E196E189D47288Fint, 43, 63, 0xC346CCDA24976EFAint);
    assert(0xC346CCDA24974311int * 0xC346CCDA24974311int <= 0x94F4EFA8FEF6D718int * 0x10000000000000000int);
    assert(0x94F4EFA8FEF71A15int * 0x10000000000000000int <= 0xC346CCDA24976EFAint * 0xC346CCDA24976EFAint);
    lemma_chain_upper(0x23905F2A5038D5int, 2, 0xC346CCDA24974311int, 149, 64, 0x94F4EFA8FEF6D718int);
    lemma_chain_lower(0x23905F2A5038D7int, 2, 0xC346CCDA24976EFAint, 149, 64, 0x94F4EFA8FEF71A15int);
    assert(0x94F4EFA8FEF6D718int * 0x94F4EFA8FEF6D718int <= 0xAD583EEA42A0D5BDint * 0x8000000000000000int);
    assert(0xAD583EEA42A171A6int * 0x8000000000000000int <= 0x94F4EFA8FEF71A15int * 0x94F4EFA8FEF71A15int);
    lemma_chain_upper(0x23905F2A5038D5int, 3, 0x94F4EFA8FEF6D718int, 362, 63, 0xAD583EEA42A0D5BDint);
    lemma_chain_lower(0x23905F2A5038D7int, 3, 0x94F4EFA8FEF71A15int, 362, 63, 0xAD583EEA42A171A6int);
    assert(0xAD583EEA42A0D5BDint * 0xAD583EEA42A0D5BDint <= 0xEAC0C6E7DD22FC31int * 0x8000000000000000int);
    assert(0xEAC0C6E7DD24A279int * 0x8000000000000000int <= 0xAD583EEA42A171A6int * 0xAD583EEA42A171A6int);
    lemma_chain_upper(0x23905F2A5038D5int, 4, 0xAD583EEA42A0D5BDint, 787, 63, 0xEAC0C6E7DD22FC31int);
    lemma_chain_lower(0x23905F2A5038D7int, 4, 0xAD583EEA42A171A6int, 787, 63, 0xEAC0C6E7DD24A279int);
    assert(0xEAC0C6E7DD22FC31int * 0xEAC0C6E7DD22FC31int <= 0xD744FCCAD69B2597int * 0x10000000000000000int);
    assert(0xD744FCCAD69E2C0Eint * 0x10000000000000000int <= 0xEAC0C6E7DD24A279int * 0xEAC0C6E7DD24A279int);
    lemma_chain_upper(0x23905F2A5038D5int, 5, 0xEAC0C6E7DD22FC31int, 1637, 64, 0xD744FCCAD69B2597int);
    lemma_chain_lower(0x23905F2A5038D7int, 5, 0xEAC0C6E7DD24A279int, 1637, 64, 0xD744FCCAD69E2C0Eint);
    assert(0xD744FCCAD69B2597int * 0xD744FCCAD69B2597int <= 0xB504F333F9DA92C9int * 0x10000000000000000int);
    assert(0xB504F333F9DFA945int * 0x10000000000000000int <= 0xD744FCCAD69E2C0Eint * 0xD744FCCAD69E2C0Eint);
    lemma_chain_upper(0x23905F2A5038D5int, 6, 0xD744FCCAD69B2597int, 3338, 64, 0xB504F333F9DA92C9int);
    lemma_chain_lower(0x23905F2A5038D7int, 6, 0xD744FCCAD69E2C0Eint, 3338, 64, 0xB504F333F9DFA945int);
    assert(0xB504F333F9DA92C9int * 0xB504F333F9DA92C9int <= 0xFFFFFFFFFFF5328Fint * 0x8000000000000000int);
    assert(0x10000000000039689int * 0x8000000000000000int <= 0xB504F333F9DFA945int * 0xB504F333F9DFA945int);
    lemma_chain_upper(0x23905F2A5038D5int, 7, 0xB504F333F9DA92C9int, 6740, 63, 0xFFFFFFFFFFF5328Fint);
    lemma_chain_lower(0x23905F2A5038D7int, 7, 0xB504F333F9DFA945int, 6740, 63, 0x10000000000039689int);
    lemma_chains_round(0x3FE1_C82F_9528_1C6Bu64, 39, 8, 1, 0x23905F2A5038D5int, 0x23905F2A5038D7int, 0xFFFFFFFFFFF5328Fint, 0x10000000000039689int, 13543, 64);
}

/// Boundary 41 of schema 8, checked through its squaring chains.
proof fn rounded_8_41()
    ensures
        rounds_root(0x3FE1_E0E7_5EB4_4027u64, 41, 8),
{
    lemma2_to64();
    lemma2_to64_rest();
    lemma_chain_start(0x23C1CEBD68804Dint);
    lemma_chain_start(0x23C1CEBD68804Fint);
    assert(0x23C1CEBD68804Dint * 0x23C1CEBD68804Dint <= 0x9FD228256400DA82int * 0x80000000000int);
    assert(0x9FD228256400EC62int * 0x80000000000int <= 0x23C1CEBD68804Fint * 0x23C1CEBD68804Fint);
    lemma_chain_upper(0x23C1CEBD68804Dint, 0, 0x23C1CEBD68804Dint, 0, 43, 0x9FD228256400DA82int);
    lemma_chain_lower(0x23C1CEBD68804Fint, 0, 0x23C1CEBD68804Fint, 0, 43, 0x9FD228256400EC62int);
    assert(0x9FD228256400DA82int * 0x9FD228256400DA82int <= 0xC78D74C8ABB9AB15int * 0x8000000000000000int);
    assert(0xC78D74C8ABB9D7B7int * 0x8000000000000000int <= 0x9FD228256400EC62int * 0x9FD228256400EC62int);
    lemma_chain_upper(0x23C1CEBD68804Dint, 1, 0x9FD228256400DA82int, 43, 63, 0xC78D74C8ABB9AB15int);
    lemma_chain_lower(0x23C1CEBD68804Fint, 1, 0x9FD228256400EC62int, 43, 63, 0xC78D74C8ABB9D7B7int);
    assert(0xC78D74C8ABB9AB15int * 0xC78D74C8ABB9AB15int <= 0x9B8D39B9D54E4B6Fint * 0x10000000000000000int);
    assert(0x9B8D39B9D54E9103int * 0x10000000000000000int <= 0xC78D74C8ABB9D7B7int * 0xC78D74C8ABB9D7B7int);
    lemma_chain_upper(0x23C1CEBD68804Dint, 2, 0xC78D74C8ABB9AB15int, 149, 64, 0x9B8D39B9D54E4B6Fint);
    lemma_chain_lower(0x23C1CEBD68804Fint, 2, 0xC78D74C8ABB9D7B7int, 149, 64, 0x9B8D39B9D54E9103int);
    assert(0x9B8D39B9D54E4B6Fint * 0x9B8D39B9D54E4B6Fint <= 0xBD08A39F580C1EF5int * 0x8000000000000000int);
    assert(0xBD08A39F580CC810int * 0x8000000000000000int <= 0x9B8D39B9D54E9103int * 0x9B8D39B9D54E9103int);
    lemma_chain_upper(0x23C1CEBD68804Dint, 3, 0x9B8D39B9D54E4B6Fint, 362, 63, 0xBD08A39F580C1EF5int);
    lemma_chain_lower(0x23C1CEBD68804Fint, 3, 0x9B8D39B9D54E9103int, 362, 63, 0xBD08A39F580CC810int);
    assert(0xBD08A39F580C1EF5int * 0xBD08A39F580C1EF5int <= 0x8B95C1E3EA8BB3C6int * 0x10000000000000000int);
    assert(0x8B95C1E3EA8CAD82int * 0x10000000000000000int <= 0xBD08A39F580CC810int * 0xBD08A39F580CC810int);
    lemma_chain_upper(0x23C1CEBD68804Dint, 4, 0xBD08A39F580C1EF5int, 787, 64, 0x8B95C1E3EA8BB3C6int);
    lemma_chain_lower(0x23C1CEBD68804Fint, 4, 0xBD08A39F580CC810int, 787, 64, 0x8B95C1E3EA8CAD82int);
    assert(0x8B95C1E3EA8BB3C6int * 0x8B95C1E3EA8BB3C6int <= 0x9837F0518DB85CD2int * 0x8000000000000000int);
    assert(0x9837F0518DBA7D7Eint * 0x8000000000000000int <= 0x8B95C1E3EA8CAD82int * 0x8B95C1E3EA8CAD82int);
    lemma_chain_upper(0x23C1CEBD68804Dint, 5, 0x8B95C1E3EA8BB3C6int, 1638, 63, 0x9837F0518DB85CD2int);
    lemma_chain_lower(0x23C1CEBD68804Fint, 5, 0x8B95C1E3EA8CAD82int, 1638, 63, 0x9837F0518DBA7D7Eint);
    assert(0x9837F0518DB85CD2int * 0x9837F0518DB85CD2int <= 0xB504F333F9DDAE4Cint * 0x8000000000000000int);
    assert(0xB504F333F9E2BDC0int * 0x8000000000000000int <= 0x9837F0518DBA7D7Eint * 0x9837F0518DBA7D7Eint);
    lemma_chain_upper(0x23C1CEBD68804Dint, 6, 0x9837F0518DB85CD2int, 3339, 63, 0xB504F333F9DDAE4Cint);
    lemma_chain_lower(0x23C1CEBD68804Fint, 6, 0x9837F0518DBA7D7Eint, 3339, 63, 0xB504F333F9E2BDC0int);
    assert(0xB504F333F9DDAE4Cint * 0xB504F333F9DDAE4Cint <= 0xFFFFFFFFFFFDFC9Bint * 0x8000000000000000int);
    assert(0x100000000000C4CB2int * 0x8000000000000000int <= 0xB504F333F9E2BDC0int * 0xB504F333F9E2BDC0int);
    lemma_chain_upper(0x23C1CEBD68804Dint, 7, 0xB504F333F9DDAE4Cint, 6741, 63, 0xFFFFFFFFFFFDFC9Bint);
    lemma_chain_lower(0x23C1CEBD68804Fint, 7, 0xB504F333F9E2BDC0int, 6741, 63, 0x100000000000C4CB2int);
    lemma_chains_round(0x3FE1_E0E7_5EB4_4027u64, 41, 8, 1, 0x23C1CEBD68804Dint, 0x23C1CEBD68804Fint, 0xFFFFFFFFFFFDFC9Bint, 0x100000000000C4CB2int, 13545, 64);
}

/// Boundary 43 of schema 8, checked through its squaring chains.
proof fn rounded_8_43()
    ensures
        rounds_root(0x3FE1_F9C1_8438_CE4Du64, 43, 8),
{
    lemma2_to64();
    lemma2_to64_rest();
    lemma_chain_start(0x23F38308719C99int);
    lemma_chain_start(0x23F38308719C9Bint);
    assert(0x23F38308719C99int * 0x23F38308719C99int <= 0xA18FAECA8544B5C1int * 0x80000000000int);
    assert(0xA18FAECA8544C7BAint * 0x80000000000int <= 0x23F38308719C9Bint * 0x23F38308719C9Bint);
    lemma_chain_upper(0x23F38308719C99int, 0, 0x23F38308719C99int, 0, 43, 0xA18FAECA8544B5C1int);
    lemma_chain_lower(0x23F38308719C9Bint, 0, 0x23F38308719C9Bint, 0, 43, 0xA18FAECA8544C7BAint);
    assert(0xA18FAECA8544B5C1int * 0xA18FAECA8544B5C1int <= 0xCBEC14FEF2727980int * 0x8000000000000000int);
    assert(0xCBEC14FEF272A6DEint * 0x8000000000000000int <= 0xA18FAECA8544C7BAint * 0xA18FAECA8544C7BAint);
    lemma_chain_upper(0x23F38308719C99int, 1, 0xA18FAECA8544B5C1int, 43, 63, 0xCBEC14FEF2727980int);
    lemma_chain_lower(0x23F38308719C9Bint, 1, 0xA18FAECA8544C7BAint, 43, 63, 0xCBEC14FEF272A6DEint);
    assert(0xCBEC14FEF2727980int * 0xCBEC14FEF2727980int <= 0xA27043030C496389int * 0x10000000000000000int);
    assert(0xA27043030C49ABCFint * 0x10000000000000000int <= 0xCBEC14FEF272A6DEint * 0xCBEC14FEF272A6DEint);
    lemma_chain_upper(0x23F38308719C99int, 2, 0xCBEC14FEF2727980int, 149, 64, 0xA27043030C496389int);
    lemma_chain_lower(0x23F38308719C9Bint, 2, 0xCBEC14FEF272A6DEint, 149, 64, 0xA27043030C49ABCFint);
    assert(0xA27043030C496389int * 0xA27043030C496389int <= 0xCE248C151F847551int * 0x8000000000000000int);
    assert(0xCE248C151F852CC0int * 0x8000000000000000int <= 0xA27043030C49ABCFint * 0xA27043030C49ABCFint);
    lemma_chain_upper(0x23F38308719C99int, 3, 0xA27043030C496389int, 362, 63, 0xCE248C151F847551int);
    lemma_chain_lower(0x23F38308719C9Bint, 3, 0xA27043030C49ABCFint, 362, 63, 0xCE248C151F852CC0int);
    assert(0xCE248C151F847551int * 0xCE248C151F847551int <= 0xA5FED6A9B1512647int * 0x10000000000000000int);
    assert(0xA5FED6A9B1524DB1int * 0x10000000000000000int <= 0xCE248C151F852CC0int * 0xCE248C151F852CC0int);
    lemma_chain_upper(0x23F38308719C99int, 4, 0xCE248C151F847551int, 787, 64, 0xA5FED6A9B1512647int);
    lemma_chain_lower(0x23F38308719C9Bint, 4, 0xCE248C151F852CC0int, 787, 64, 0xA5FED6A9B1524DB1int);
    assert(0xA5FED6A9B1512647int * 0xA5FED6A9B1512647int <= 0xD744FCCAD69D3A9Eint * 0x8000000000000000int);
    assert(0xD744FCCAD6A038D3int * 0x8000000000000000int <= 0xA5FED6A9B1524DB1int * 0xA5FED6A9B1524DB1int);
    lemma_chain_upper(0x23F38308719C99int, 5, 0xA5FED6A9B1512647int, 1638, 63, 0xD744FCCAD69D3A9Eint);
    lemma_chain_lower(0x23F38308719C9Bint, 5, 0xA5FED6A9B1524DB1int, 1638, 63, 0xD744FCCAD6A038D3int);
    assert(0xD744FCCAD69D3A9Eint * 0xD744FCCAD69D3A9Eint <= 0xB504F333F9DE133Aint * 0x10000000000000000int);
    assert(0xB504F333F9E31BD3int * 0x10000000000000000int <= 0xD744FCCAD6A038D3int * 0xD744FCCAD6A038D3int);
    lemma_chain_upper(0x23F38308719C99int, 6, 0xD744FCCAD69D3A9Eint, 3339, 64, 0xB504F333F9DE133Aint);
    lemma_chain_lower(0x23F38308719C9Bint, 6, 0xD744FCCAD6A038D3int, 3339, 64, 0xB504F333F9E31BD3int);
    assert(0xB504F333F9DE133Aint * 0xB504F333F9DE133Aint <= 0xFFFFFFFFFFFF1A14int * 0x8000000000000000int);
    assert(0x100000000000D56C7int * 0x8000000000000000int <= 0xB504F333F9E31BD3int * 0xB504F333F9E31BD3int);
    lemma_chain_upper(0x23F38308719C99int, 7, 0xB504F333F9DE133Aint, 6742, 63, 0xFFFFFFFFFFFF1A14int);
    lemma_chain_lower(0x23F38308719C9Bint, 7, 0xB504F333F9E31BD3int, 6742, 63, 0x100000000000D56C7int);
    lemma_chains_round(0x3FE1_F9C1_8438_CE4Du64, 43, 8, 1, 0x23F38308719C99int, 0x23F38308719C9Bint, 0xFFFFFFFFFFFF1A14int, 0x100000000000D56C7int, 13547, 64);
}

/// Boundary 45 of schema 8, checked through its squaring chains.
proof fn rounded_8_45()
    ensures
        rounds_root(0x3FE2_12BE_3578_A819u64, 45, 8),
{
    lemma2_to64();
    lemma2_to64_rest();
    lemma_chain_start(0x24257C6AF15031int);
    lemma_chain_start(0x24257C6AF15033int);
    assert(0x24257C6AF15031int * 0x24257C6AF15031int <= 0xA3520F68E802AD13int * 0x80000000000int);
    assert(0xA3520F68E802BF25int * 0x80000000000int <= 0x24257C6AF15033int * 0x24257C6AF15033int);
    lemma_chain_upper(0x24257C6AF15031int, 0, 0x24257C6AF15031int, 0, 43, 0xA3520F68E802AD13int);
    lemma_chain_lower(0x24257C6AF15033int, 0, 0x24257C6AF15033int, 0, 43, 0xA3520F68E802BF25int);
    assert(0xA3520F68E802AD13int * 0xA3520F68E802AD13int <= 0xD06333DAEF2B0096int * 0x8000000000000000int);
    assert(0xD06333DAEF2B2EB2int * 0x8000000000000000int <= 0xA3520F68E802BF25int * 0xA3520F68E802BF25int);
    lemma_chain_upper(0x24257C6AF15031int, 1, 0xA3520F68E802AD13int, 43, 63, 0xD06333DAEF2B0096int);
    lemma_chain_lower(0x24257C6AF15033int, 1, 0xA3520F68E802BF25int, 43, 63, 0xD06333DAEF2B2EB2int);
    assert(0xD06333DAEF2B0096int * 0xD06333DAEF2B0096int <= 0xA9A15AB4EA7BD2BEint * 0x10000000000000000int);
    assert(0xA9A15AB4EA7C1DCEint * 0x10000000000000000int <= 0xD06333DAEF2B2EB2int * 0xD06333DAEF2B2EB2int);
    lemma_chain_upper(0x24257C6AF15031int, 2, 0xD06333DAEF2B0096int, 149, 64, 0xA9A15AB4EA7BD2BEint);
    lemma_chain_lower(0x24257C6AF15033int, 2, 0xD06333DAEF2B2EB2int, 149, 64, 0xA9A15AB4EA7C1DCEint);
    assert(0xA9A15AB4EA7BD2BEint * 0xA9A15AB4EA7BD2BEint <= 0xE0CCDEEC2A944170int * 0x8000000000000000int);
    assert(0xE0CCDEEC2A950862int * 0x8000000000000000int <= 0xA9A15AB4EA7C1DCEint * 0xA9A15AB4EA7C1DCEint);
    lemma_chain_upper(0x24257C6AF15031int, 3, 0xA9A15AB4EA7BD2BEint, 362, 63, 0xE0CCDEEC2A944170int);
    lemma_chain_lower(0x24257C6AF15033int, 3, 0xA9A15AB4EA7C1DCEint, 362, 63, 0xE0CCDEEC2A950862int);
    assert(0xE0CCDEEC2A944170int * 0xE0CCDEEC2A944170int <= 0xC5672A115505C284int * 0x10000000000000000int);
    assert(0xC5672A1155071FE9int * 0x10000000000000000int <= 0xE0CCDEEC2A950862int * 0xE0CCDEEC2A950862int);
    lemma_chain_upper(0x24257C6AF15031int, 4, 0xE0CCDEEC2A944170int, 787, 64, 0xC5672A115505C284int);
    lemma_chain_lower(0x24257C6AF15033int, 4, 0xE0CCDEEC2A950862int, 787, 64, 0xC5672A1155071FE9int);
    assert(0xC5672A115505C284int * 0xC5672A115505C284int <= 0x9837F0518DB6F914int * 0x10000000000000000int);
    assert(0x9837F0518DB913EBint * 0x10000000000000000int <= 0xC5672A1155071FE9int * 0xC5672A1155071FE9int);
    lemma_chain_upper(0x24257C6AF15031int, 5, 0xC5672A115505C284int, 1638, 64, 0x9837F0518DB6F914int);
    lemma_chain_lower(0x24257C6AF15033int, 5, 0xC5672A1155071FE9int, 1638, 64, 0x9837F0518DB913EBint);
    assert(0x9837F0518DB6F914int * 0x9837F0518DB6F914int <= 0xB504F333F9DA6032int * 0x8000000000000000int);
    assert(0xB504F333F9DF61C7int * 0x8000000000000000int <= 0x9837F0518DB913EBint * 0x9837F0518DB913EBint);
    lemma_chain_upper(0x24257C6AF15031int, 6, 0x9837F0518DB6F914int, 3340, 63, 0xB504F333F9DA6032int);
    lemma_chain_lower(0x24257C6AF15033int, 6, 0x9837F0518DB913EBint, 3340, 63, 0xB504F333F9DF61C7int);
    assert(0xB504F333F9DA6032int * 0xB504F333F9DA6032int <= 0xFFFFFFFFFFF4A378int * 0x8000000000000000int);
    assert(0x1000000000002CC54int * 0x8000000000000000int <= 0xB504F333F9DF61C7int * 0xB504F333F9DF61C7int);
    lemma_chain_upper(0x24257C6AF15031int, 7, 0xB504F333F9DA6032int, 6743, 63, 0xFFFFFFFFFFF4A378int);
    lemma_chain_lower(0x24257C6AF15033int, 7, 0xB504F333F9DF61C7int, 6743, 63, 0x1000000000002CC54int);
    lemma_chains_round(0x3FE2_12BE_3578_A819u64, 45, 8, 1, 0x24257C6AF15031int, 0x24257C6AF15033int, 0xFFFFFFFFFFF4A378int, 0x1000000000002CC54int, 13549, 64);
}

/// Boundary 47 of schema 8, checked through its squaring chains.
proof fn rounded_8_47()
    ensures
        rounds_root(0x3FE2_2BDD_A279_12D1u64, 47, 8),
{
    lemma2_to64();
    lemma2_to64_rest();
    lemma_chain_start(0x2457BB44F225A1int);
    lemma_chain_start(0x2457BB44F225A3int);
    assert(0x2457BB44F225A1int * 0x2457BB44F225A1int <= 0xA5195786BE9EE5FFint * 0x80000000000int);
    assert(0xA5195786BE9EF829int * 0x80000000000int <= 0x2457BB44F225A3int * 0x2457BB44F225A3int);
    lemma_chain_upper(0x2457BB44F225A1int, 0, 0x2457BB44F225A1int, 0, 43, 0xA5195786BE9EE5FFint);
    lemma_chain_lower(0x2457BB44F225A3int, 0, 0x2457BB44F225A3int, 0, 43, 0xA5195786BE9EF829int);
    assert(0xA5195786BE9EE5FFint * 0xA5195786BE9EE5FFint <= 0xD4F35AABCFEDD800int * 0x8000000000000000int);
    assert(0xD4F35AABCFEE06DAint * 0x8000000000000000int <= 0xA5195786BE9EF829int * 0xA5195786BE9EF829int);
    lemma_chain_upper(0x2457BB44F225A1int, 1, 0xA5195786BE9EE5FFint, 43, 63, 0xD4F35AABCFEDD800int);
    lemma_chain_lower(0x2457BB44F225A3int, 1, 0xA5195786BE9EF829int, 43, 63, 0xD4F35AABCFEE06DAint);
    assert(0xD4F35AABCFEDD800int * 0xD4F35AABCFEDD800int <= 0xB123F581D2ABECCBint * 0x10000000000000000int);
    assert(0xB123F581D2AC3ABCint * 0x10000000000000000int <= 0xD4F35AABCFEE06DAint * 0xD4F35AABCFEE06DAint);
    lemma_chain_upper(0x2457BB44F225A1int, 2, 0xD4F35AABCFEDD800int, 149, 64, 0xB123F581D2ABECCBint);
    lemma_chain_lower(0x2457BB44F225A3int, 2, 0xD4F35AABCFEE06DAint, 149, 64, 0xB123F581D2AC3ABCint);
    assert(0xB123F581D2ABECCBint * 0xB123F581D2ABECCBint <= 0xF5257D1524862F0Eint * 0x8000000000000000int);
    assert(0xF5257D15248706C7int * 0x8000000000000000int <= 0xB123F581D2AC3ABCint * 0xB123F581D2AC3ABCint);
    lemma_chain_upper(0x2457BB44F225A1int, 3, 0xB123F581D2ABECCBint, 362, 63, 0xF5257D1524862F0Eint);
    lemma_chain_lower(0x2457BB44F225A3int, 3, 0xB123F581D2AC3ABCint, 362, 63, 0xF5257D15248706C7int);
    assert(0xF5257D1524862F0Eint * 0xF5257D1524862F0Eint <= 0xEAC0C6E7DD230C45int * 0x10000000000000000int);
    assert(0xEAC0C6E7DD24A96Bint * 0x10000000000000000int <= 0xF5257D15248706C7int * 0xF5257D15248706C7int);
    lemma_chain_upper(0x2457BB44F225A1int, 4, 0xF5257D1524862F0Eint, 787, 64, 0xEAC0C6E7DD230C45int);
    lemma_chain_lower(0x2457BB44F225A3int, 4, 0xF5257D15248706C7int, 787, 64, 0xEAC0C6E7DD24A96Bint);
    assert(0xEAC0C6E7DD230C45int * 0xEAC0C6E7DD230C45int <= 0xD744FCCAD69B4314int * 0x10000000000000000int);
    assert(0xD744FCCAD69E38CBint * 0x10000000000000000int <= 0xEAC0C6E7DD24A96Bint * 0xEAC0C6E7DD24A96Bint);
    lemma_chain_upper(0x2457BB44F225A1int, 5, 0xEAC0C6E7DD230C45int, 1638, 64, 0xD744FCCAD69B4314int);
    lemma_chain_lower(0x2457BB44F225A3int, 5, 0xEAC0C6E7DD24A96Bint, 1638, 64, 0xD744FCCAD69E38CBint);
    assert(0xD744FCCAD69B4314int * 0xD744FCCAD69B4314int <= 0xB504F333F9DAC461int * 0x10000000000000000int);
    assert(0xB504F333F9DFBEB2int * 0x10000000000000000int <= 0xD744FCCAD69E38CBint * 0xD744FCCAD69E38CBint);
    lemma_chain_upper(0x2457BB44F225A1int, 6, 0xD744FCCAD69B4314int, 3340, 64, 0xB504F333F9DAC461int);
    lemma_chain_lower(0x2457BB44F225A3int, 6, 0xD744FCCAD69E38CBint, 3340, 64, 0xB504F333F9DFBEB2int);
    assert(0xB504F333F9DAC461int * 0xB504F333F9DAC461int <= 0xFFFFFFFFFFF5BED5int * 0x8000000000000000int);
    assert(0x1000000000003D323int * 0x8000000000000000int <= 0xB504F333F9DFBEB2int * 0xB504F333F9DFBEB2int);
    lemma_chain_upper(0x2457BB44F225A1int, 7, 0xB504F333F9DAC461int, 6744, 63, 0xFFFFFFFFFFF5BED5int);
    lemma_chain_lower(0x2457BB44F225A3int, 7, 0xB504F333F9DFBEB2int, 6744, 63, 0x1000000000003D323int);
    lemma_chains_round(0x3FE2_2BDD_A279_12D1u64, 47, 8, 1, 0x2457BB44F225A1int, 0x2457BB44F225A3int, 0xFFFFFFFFFFF5BED5int, 0x1000000000003D323int, 13551, 64);
}

/// Boundary 49 of schema 8, checked through its squaring chains.
proof fn rounded_8_49()
    ensures
        rounds_root(0x3FE2_451F_FB82_140Au64, 49, 8),
{
    lemma2_to64();
    lemma2_to64_rest();
    lemma_chain_start(0x248A3FF7042813int);
    lemma_chain_start(0x248A3FF7042815int);
    assert(0x248A3FF7042813int * 0x248A3FF7042813int <= 0xA6E594CFEEE85E28int * 0x80000000000int);
    assert(0xA6E594CFEEE8706Cint * 0x80000000000int <= 0x248A3FF7042815int * 0x248A3FF7042815int);
    lemma_chain_upper(0x248A3FF7042813int, 0, 0x248A3FF7042813int, 0, 43, 0xA6E594CFEEE85E28int);
    lemma_chain_lower(0x248A3FF7042815int, 0, 0x248A3FF7042815int, 0, 43, 0xA6E594CFEEE8706Cint);
    assert(0xA6E594CFEEE85E28int * 0xA6E594CFEEE85E28int <= 0xD99D15C278AFB5EBint * 0x8000000000000000int);
    assert(0xD99D15C278AFE58Cint * 0x8000000000000000int <= 0xA6E594CFEEE8706Cint * 0xA6E594CFEEE8706Cint);
    lemma_chain_upper(0x248A3FF7042813int, 1, 0xA6E594CFEEE85E28int, 43, 63, 0xD99D15C278AFB5EBint);
    lemma_chain_lower(0x248A3FF7042815int, 1, 0xA6E594CFEEE8706Cint, 43, 63, 0xD99D15C278AFE58Cint);
    assert(0xD99D15C278AFB5EBint * 0xD99D15C278AFB5EBint <= 0xB8FBAF4762FB6576int * 0x10000000000000000int);
    assert(0xB8FBAF4762FBB66Eint * 0x10000000000000000int <= 0xD99D15C278AFE58Cint * 0xD99D15C278AFE58Cint);
    lemma_chain_upper(0x248A3FF7042813int, 2, 0xD99D15C278AFB5EBint, 149, 64, 0xB8FBAF4762FB6576int);
    lemma_chain_lower(0x248A3FF7042815int, 2, 0xD99D15C278AFE58Cint, 149, 64, 0xB8FBAF4762FBB66Eint);
    assert(0xB8FBAF4762FB6576int * 0xB8FBAF4762FB6576int <= 0x85AAC367CC48280Fint * 0x10000000000000000int);
    assert(0x85AAC367CC489D12int * 0x10000000000000000int <= 0xB8FBAF4762FBB66Eint * 0xB8FBAF4762FBB66Eint);
    lemma_chain_upper(0x248A3FF7042813int, 3, 0xB8FBAF4762FB6576int, 362, 64, 0x85AAC367CC48280Fint);
    lemma_chain_lower(0x248A3FF7042815int, 3, 0xB8FBAF4762FBB66Eint, 362, 64, 0x85AAC367CC489D12int);
    assert(0x85AAC367CC48280Fint * 0x85AAC367CC48280Fint <= 0x8B95C1E3EA8B2982int * 0x8000000000000000int);
    assert(0x8B95C1E3EA8C1DE3int * 0x8000000000000000int <= 0x85AAC367CC489D12int * 0x85AAC367CC489D12int);
    lemma_chain_upper(0x248A3FF7042813int, 4, 0x85AAC367CC48280Fint, 788, 63, 0x8B95C1E3EA8B2982int);
    lemma_chain_lower(0x248A3FF7042815int, 4, 0x85AAC367CC489D12int, 788, 63, 0x8B95C1E3EA8C1DE3int);
    assert(0x8B95C1E3EA8B2982int * 0x8B95C1E3EA8B2982int <= 0x9837F0518DB72F43int * 0x8000000000000000int);
    assert(0x9837F0518DB94440int * 0x8000000000000000int <= 0x8B95C1E3EA8C1DE3int * 0x8B95C1E3EA8C1DE3int);
    lemma_chain_upper(0x248A3FF7042813int, 5, 0x8B95C1E3EA8B2982int, 1639, 63, 0x9837F0518DB72F43int);
    lemma_chain_lower(0x248A3FF7042815int, 5, 0x8B95C1E3EA8C1DE3int, 1639, 63, 0x9837F0518DB94440int);
    assert(0x9837F0518DB72F43int * 0x9837F0518DB72F43int <= 0xB504F333F9DAE111int * 0x8000000000000000int);
    assert(0xB504F333F9DFD4BBint * 0x8000000000000000int <= 0x9837F0518DB94440int * 0x9837F0518DB94440int);
    lemma_chain_upper(0x248A3FF7042813int, 6, 0x9837F0518DB72F43int, 3341, 63, 0xB504F333F9DAE111int);
    lemma_chain_lower(0x248A3FF7042815int, 6, 0x9837F0518DB94440int, 3341, 63, 0xB504F333F9DFD4BBint);
    assert(0xB504F333F9DAE111int * 0xB504F333F9DAE111int <= 0xFFFFFFFFFFF60FF9int * 0x8000000000000000int);
    assert(0x10000000000041177int * 0x8000000000000000int <= 0xB504F333F9DFD4BBint * 0xB504F333F9DFD4BBint);
    lemma_chain_upper(0x248A3FF7042813int, 7, 0xB504F333F9DAE111int, 6745, 63, 0xFFFFFFFFFFF60FF9int);
    lemma_chain_lower(0x248A3FF7042815int, 7, 0xB504F333F9DFD4BBint, 6745, 63, 0x10000000000041177int);
    lemma_chains_round(0x3FE2_451F_FB82_140Au64, 49, 8, 1, 0x248A3FF7042813int, 0x248A3FF7042815int, 0xFFFFFFFFFFF60FF9int, 0x10000000000041177int, 13553, 64);
}

/// Boundary 51 of schema 8, checked through its squaring chains.
proof fn rounded_8_51()
    ensures
        rounds_root(0x3FE2_5E85_711E_CE75u64, 51, 8),
{
    lemma2_to64();
    lemma2_to64_rest();
    lemma_chain_start(0x24BD0AE23D9CE9int);
    lemma_chain_start(0x24BD0AE23D9CEBint);
    assert(0x24BD0AE23D9CE9int * 0x24BD0AE23D9CE9int <= 0xA8B6D5167B31FF25int * 0x80000000000int);
    assert(0xA8B6D5167B321183int * 0x80000000000int <= 0x24BD0AE23D9CEBint * 0x24BD0AE23D9CEBint);
    lemma_chain_upper(0x24BD0AE23D9CE9int, 0, 0x24BD0AE23D9CE9int, 0, 43, 0xA8B6D5167B31FF25int);
    lemma_chain_lower(0x24BD0AE23D9CEBint, 0, 0x24BD0AE23D9CEBint, 0, 43, 0xA8B6D5167B321183int);
    assert(0xA8B6D5167B31FF25int * 0xA8B6D5167B31FF25int <= 0xDE60F4825E0E69E4int * 0x8000000000000000int);
    assert(0xDE60F4825E0E9A4Fint * 0x8000000000000000int <= 0xA8B6D5167B321183int * 0xA8B6D5167B321183int);
    lemma_chain_upper(0x24BD0AE23D9CE9int, 1, 0xA8B6D5167B31FF25int, 43, 63, 0xDE60F4825E0E69E4int);
    lemma_chain_lower(0x24BD0AE23D9CEBint, 1, 0xA8B6D5167B321183int, 43, 63, 0xDE60F4825E0E9A4Fint);
    assert(0xDE60F4825E0E69E4int * 0xDE60F4825E0E69E4int <= 0xC12C4CCA66705026int * 0x10000000000000000int);
    assert(0xC12C4CCA6670A444int * 0x10000000000000000int <= 0xDE60F4825E0E9A4Fint * 0xDE60F4825E0E9A4Fint);
    lemma_chain_upper(0x24BD0AE23D9CE9int, 2, 0xDE60F4825E0E69E4int, 149, 64, 0xC12C4CCA66705026int);
    lemma_chain_lower(0x24BD0AE23D9CEBint, 2, 0xDE60F4825E0E9A4Fint, 149, 64, 0xC12C4CCA6670A444int);
    assert(0xC12C4CCA66705026int * 0xC12C4CCA66705026int <= 0x91C3D373AB115C4Eint * 0x10000000000000000int);
    assert(0x91C3D373AB11DB3Fint * 0x10000000000000000int <= 0xC12C4CCA6670A444int * 0xC12C4CCA6670A444int);
    lemma_chain_upper(0x24BD0AE23D9CE9int, 3, 0xC12C4CCA66705026int, 362, 64, 0x91C3D373AB115C4Eint);
    lemma_chain_lower(0x24BD0AE23D9CEBint, 3, 0xC12C4CCA6670A444int, 362, 64, 0x91C3D373AB11DB3Fint);
    assert(0x91C3D373AB115C4Eint * 0x91C3D373AB115C4Eint <= 0xA5FED6A9B1504E8Aint * 0x8000000000000000int);
    assert(0xA5FED6A9B1516FA7int * 0x8000000000000000int <= 0x91C3D373AB11DB3Fint * 0x91C3D373AB11DB3Fint);
    lemma_chain_upper(0x24BD0AE23D9CE9int, 4, 0x91C3D373AB115C4Eint, 788, 63, 0xA5FED6A9B1504E8Aint);
    lemma_chain_lower(0x24BD0AE23D9CEBint, 4, 0x91C3D373AB11DB3Fint, 788, 63, 0xA5FED6A9B1516FA7int);
    assert(0xA5FED6A9B1504E8Aint * 0xA5FED6A9B1504E8Aint <= 0xD744FCCAD69B0B10int * 0x8000000000000000int);
    assert(0xD744FCCAD69DF8EDint * 0x8000000000000000int <= 0xA5FED6A9B1516FA7int * 0xA5FED6A9B1516FA7int);
    lemma_chain_upper(0x24BD0AE23D9CE9int, 5, 0xA5FED6A9B1504E8Aint, 1639, 63, 0xD744FCCAD69B0B10int);
    lemma_chain_lower(0x24BD0AE23D9CEBint, 5, 0xA5FED6A9B1516FA7int, 1639, 63, 0xD744FCCAD69DF8EDint);
    assert(0xD744FCCAD69B0B10int * 0xD744FCCAD69B0B10int <= 0xB504F333F9DA662Cint * 0x10000000000000000int);
    assert(0xB504F333F9DF5348int * 0x10000000000000000int <= 0xD744FCCAD69DF8EDint * 0xD744FCCAD69DF8EDint);
    lemma_chain_upper(0x24BD0AE23D9CE9int, 6, 0xD744FCCAD69B0B10int, 3341, 64, 0xB504F333F9DA662Cint);
    lemma_chain_lower(0x24BD0AE23D9CEBint, 6, 0xD744FCCAD69DF8EDint, 3341, 64, 0xB504F333F9DF5348int);
    assert(0xB504F333F9DA662Cint * 0xB504F333F9DA662Cint <= 0xFFFFFFFFFFF4B460int * 0x8000000000000000int);
    assert(0x1000000000002A353int * 0x8000000000000000int <= 0xB504F333F9DF5348int * 0xB504F333F9DF5348int);
    lemma_chain_upper(0x24BD0AE23D9CE9int, 7, 0xB504F333F9DA662Cint, 6746, 63, 0xFFFFFFFFFFF4B460int);
    lemma_chain_lower(0x24BD0AE23D9CEBint, 7, 0xB504F333F9DF5348int, 6746, 63, 0x1000000000002A353int);
    lemma_chains_round(0x3FE2_5E85_711E_CE75u64, 51, 8, 1, 0x24BD0AE23D9CE9int, 0x24BD0AE23D9CEBint, 0xFFFFFFFFFFF4B460int, 0x1000000000002A353int, 13555, 64);
}

/// Boundary 53 of schema 8, checked through its squaring chains.
proof fn rounded_8_53()
    ensures
        rounds_root(0x3FE2_780E_341D_DF29u64, 53, 8),
{
    lemma2_to64();
    lemma2_to64_rest();
    lemma_chain_start(0x24F01C683BBE51int);
    lemma_chain_start(0x24F01C683BBE53int);
    assert(0x24F01C683BBE51int * 0x24F01C683BBE51int <= 0xAA8D2652EC906444int * 0x80000000000int);
    assert(0xAA8D2652EC9076BBint * 0x80000000000int <= 0x24F01C683BBE53int * 0x24F01C683BBE53int);
    lemma_chain_upper(0x24F01C683BBE51int, 0, 0x24F01C683BBE51int, 0, 43, 0xAA8D2652EC906444int);
    lemma_chain_lower(0x24F01C683BBE53int, 0, 0x24F01C683BBE53int, 0, 43, 0xAA8D2652EC9076BBint);
    assert(0xAA8D2652EC906444int * 0xAA8D2652EC906444int <= 0xE33F8972BE8A2AA1int * 0x8000000000000000int);
    assert(0xE33F8972BE8A5BD4int * 0x8000000000000000int <= 0xAA8D2652EC9076BBint * 0xAA8D2652EC9076BBint);
    lemma_chain_upper(0x24F01C683BBE51int, 1, 0xAA8D2652EC906444int, 43, 63, 0xE33F8972BE8A2AA1int);
    lemma_chain_lower(0x24F01C683BBE53int, 1, 0xAA8D2652EC9076BBint, 43, 63, 0xE33F8972BE8A5BD4int);
    assert(0xE33F8972BE8A2AA1int * 0xE33F8972BE8A2AA1int <= 0xC9B9BD866E2ED2F9int * 0x10000000000000000int);
    assert(0xC9B9BD866E2F2A51int * 0x10000000000000000int <= 0xE33F8972BE8A5BD4int * 0xE33F8972BE8A5BD4int);
    lemma_chain_upper(0x24F01C683BBE51int, 2, 0xE33F8972BE8A2AA1int, 149, 64, 0xC9B9BD866E2ED2F9int);
    lemma_chain_lower(0x24F01C683BBE53int, 2, 0xE33F8972BE8A5BD4int, 149, 64, 0xC9B9BD866E2F2A51int);
    assert(0xC9B9BD866E2ED2F9int * 0xC9B9BD866E2ED2F9int <= 0x9EF5326091A08C41int * 0x10000000000000000int);
    assert(0x9EF5326091A115E7int * 0x10000000000000000int <= 0xC9B9BD866E2F2A51int * 0xC9B9BD866E2F2A51int);
    lemma_chain_upper(0x24F01C683BBE51int, 3, 0xC9B9BD866E2ED2F9int, 362, 64, 0x9EF5326091A08C41int);
    lemma_chain_lower(0x24F01C683BBE53int, 3, 0xC9B9BD866E2F2A51int, 362, 64, 0x9EF5326091A115E7int);
    assert(0x9EF5326091A08C41int * 0x9EF5326091A08C41int <= 0xC5672A1155058F7Aint * 0x8000000000000000int);
    assert(0xC5672A115506E55Bint * 0x8000000000000000int <= 0x9EF5326091A115E7int * 0x9EF5326091A115E7int);
    lemma_chain_upper(0x24F01C683BBE51int, 4, 0x9EF5326091A08C41int, 788, 63, 0xC5672A1155058F7Aint);
    lemma_chain_lower(0x24F01C683BBE53int, 4, 0x9EF5326091A115E7int, 788, 63, 0xC5672A115506E55Bint);
    assert(0xC5672A1155058F7Aint * 0xC5672A1155058F7Aint <= 0x9837F0518DB6AA5Eint * 0x10000000000000000int);
    assert(0x9837F0518DB8B99Dint * 0x10000000000000000int <= 0xC5672A115506E55Bint * 0xC5672A115506E55Bint);
    lemma_chain_upper(0x24F01C683BBE51int, 5, 0xC5672A1155058F7Aint, 1639, 64, 0x9837F0518DB6AA5Eint);
    lemma_chain_lower(0x24F01C683BBE53int, 5, 0xC5672A115506E55Bint, 1639, 64, 0x9837F0518DB8B99Dint);
    assert(0x9837F0518DB6AA5Eint * 0x9837F0518DB6AA5Eint <= 0xB504F333F9D9A4FDint * 0x8000000000000000int);
    assert(0xB504F333F9DE8AFFint * 0x8000000000000000int <= 0x9837F0518DB8B99Dint * 0x9837F0518DB8B99Dint);
    lemma_chain_upper(0x24F01C683BBE51int, 6, 0x9837F0518DB6AA5Eint, 3342, 63, 0xB504F333F9D9A4FDint);
    lemma_chain_lower(0x24F01C683BBE53int, 6, 0x9837F0518DB8B99Dint, 3342, 63, 0xB504F333F9DE8AFFint);
    assert(0xB504F333F9D9A4FDint * 0xB504F333F9D9A4FDint <= 0xFFFFFFFFFFF291F8int * 0x8000000000000000int);
    assert(0x10000000000006CD5int * 0x8000000000000000int <= 0xB504F333F9DE8AFFint * 0xB504F333F9DE8AFFint);
    lemma_chain_upper(0x24F01C683BBE51int, 7, 0xB504F333F9D9A4FDint, 6747, 63, 0xFFFFFFFFFFF291F8int);
    lemma_chain_lower(0x24F01C683BBE53int, 7, 0xB504F333F9DE8AFFint, 6747, 63, 0x10000000000006CD5int);
    lemma_chains_round(0x3FE2_780E_341D_DF29u64, 53, 8, 1, 0x24F01C683BBE51int, 0x24F01C683BBE53int, 0xFFFFFFFFFFF291F8int, 0x10000000000006CD5int, 13557, 64);
}

/// Boundary 55 of schema 8, checked through its squaring chains.
proof fn rounded_8_55()
    ensures
        rounds_root(0x3FE2_91BA_7591_BB70u64, 55, 8),
{
    lemma2_to64();
    lemma2_to64_rest();
    lemma_chain_start(0x252374EB2376DFint);
    lemma_chain_start(0x252374EB2376E1int);
    assert(0x252374EB2376DFint * 0x252374EB2376DFint <= 0xAC6896A4BE3FE29Bint * 0x80000000000int);
    assert(0xAC6896A4BE3FF52Cint * 0x80000000000int <= 0x252374EB2376E1int * 0x252374EB2376E1int);
    lemma_chain_upper(0x252374EB2376DFint, 0, 0x252374EB2376DFint, 0, 43, 0xAC6896A4BE3FE29Bint);
    lemma_chain_lower(0x252374EB2376E1int, 0, 0x252374EB2376E1int, 0, 43, 0xAC6896A4BE3FF52Cint);
    assert(0xAC6896A4BE3FE29Bint * 0xAC6896A4BE3FE29Bint <= 0xE8396A503C4BCAC0int * 0x8000000000000000int);
    assert(0xE8396A503C4BFCC3int * 0x8000000000000000int <= 0xAC6896A4BE3FF52Cint * 0xAC6896A4BE3FF52Cint);
    lemma_chain_upper(0x252374EB2376DFint, 1, 0xAC6896A4BE3FE29Bint, 43, 63, 0xE8396A503C4BCAC0int);
    lemma_chain_lower(0x252374EB2376E1int, 1, 0xAC6896A4BE3FF52Cint, 43, 63, 0xE8396A503C4BFCC3int);
    assert(0xE8396A503C4BCAC0int * 0xE8396A503C4BCAC0int <= 0xD2A81D91F12AC451int * 0x10000000000000000int);
    assert(0xD2A81D91F12B1F0Cint * 0x10000000000000000int <= 0xE8396A503C4BFCC3int * 0xE8396A503C4BFCC3int);
    lemma_chain_upper(0x252374EB2376DFint, 2, 0xE8396A503C4BCAC0int, 149, 64, 0xD2A81D91F12AC451int);
    lemma_chain_lower(0x252374EB2376E1int, 2, 0xE8396A503C4BFCC3int, 149, 64, 0xD2A81D91F12B1F0Cint);
    assert(0xD2A81D91F12AC451int * 0xD2A81D91F12AC451int <= 0xAD583EEA42A1160Eint * 0x10000000000000000int);
    assert(0xAD583EEA42A1AB5Fint * 0x10000000000000000int <= 0xD2A81D91F12B1F0Cint * 0xD2A81D91F12B1F0Cint);
    lemma_chain_upper(0x252374EB2376DFint, 3, 0xD2A81D91F12AC451int, 362, 64, 0xAD583EEA42A1160Eint);
    lemma_chain_lower(0x252374EB2376E1int, 3, 0xD2A81D91F12B1F0Cint, 362, 64, 0xAD583EEA42A1AB5Fint);
    assert(0xAD583EEA42A1160Eint * 0xAD583EEA42A1160Eint <= 0xEAC0C6E7DD23AA64int * 0x8000000000000000int);
    assert(0xEAC0C6E7DD253ED0int * 0x8000000000000000int <= 0xAD583EEA42A1AB5Fint * 0xAD583EEA42A1AB5Fint);
    lemma_chain_upper(0x252374EB2376DFint, 4, 0xAD583EEA42A1160Eint, 788, 63, 0xEAC0C6E7DD23AA64int);
    lemma_chain_lower(0x252374EB2376E1int, 4, 0xAD583EEA42A1AB5Fint, 788, 63, 0xEAC0C6E7DD253ED0int);
    assert(0xEAC0C6E7DD23AA64int * 0xEAC0C6E7DD23AA64int <= 0xD744FCCAD69C6513int * 0x10000000000000000int);
    assert(0xD744FCCAD69F4AC8int * 0x10000000000000000int <= 0xEAC0C6E7DD253ED0int * 0xEAC0C6E7DD253ED0int);
    lemma_chain_upper(0x252374EB2376DFint, 5, 0xEAC0C6E7DD23AA64int, 1639, 64, 0xD744FCCAD69C6513int);
    lemma_chain_lower(0x252374EB2376E1int, 5, 0xEAC0C6E7DD253ED0int, 1639, 64, 0xD744FCCAD69F4AC8int);
    assert(0xD744FCCAD69C6513int * 0xD744FCCAD69C6513int <= 0xB504F333F9DCAC17int * 0x10000000000000000int);
    assert(0xB504F333F9E18B7Cint * 0x10000000000000000int <= 0xD744FCCAD69F4AC8int * 0xD744FCCAD69F4AC8int);
    lemma_chain_upper(0x252374EB2376DFint, 6, 0xD744FCCAD69C6513int, 3342, 64, 0xB504F333F9DCAC17int);
    lemma_chain_lower(0x252374EB2376E1int, 6, 0xD744FCCAD69F4AC8int, 3342, 64, 0xB504F333F9E18B7Cint);
    assert(0xB504F333F9DCAC17int * 0xB504F333F9DCAC17int <= 0xFFFFFFFFFFFB2249int * 0x8000000000000000int);
    assert(0x1000000000008EA72int * 0x8000000000000000int <= 0xB504F333F9E18B7Cint * 0xB504F333F9E18B7Cint);
    lemma_chain_upper(0x252374EB2376DFint, 7, 0xB504F333F9DCAC17int, 6748, 63, 0xFFFFFFFFFFFB2249int);
    lemma_chain_lower(0x252374EB2376E1int, 7, 0xB504F333F9E18B7Cint, 6748, 63, 0x1000000000008EA72int);
    lemma_chains_round(0x3FE2_91BA_7591_BB70u64, 55, 8, 1, 0x252374EB2376DFint, 0x252374EB2376E1int, 0xFFFFFFFFFFFB2249int, 0x1000000000008EA72int, 13559, 64);
}

/// Boundary 57 of schema 8, checked through its squaring chains.
proof fn rounded_8_57()
    ensures
        rounds_root(0x3FE2_AB8A_66D1_0F13u64, 57, 8),
{
    lemma2_to64();
    lemma2_to64_rest();
    lemma_chain_start(0x255714CDA21E25int);
    lemma_chain_start(0x255714CDA21E27int);
    assert(0x255714CDA21E25int * 0x255714CDA21E25int <= 0xAE493452CA35B61Dint * 0x80000000000int);
    assert(0xAE493452CA35C8C8int * 0x80000000000int <= 0x255714CDA21E27int * 0x255714CDA21E27int);
    lemma_chain_upper(0x255714CDA21E25int, 0, 0x255714CDA21E25int, 0, 43, 0xAE493452CA35B61Dint);
    lemma_chain_lower(0x255714CDA21E27int, 0, 0x255714CDA21E27int, 0, 43, 0xAE493452CA35C8C8int);
    assert(0xAE493452CA35B61Dint * 0xAE493452CA35B61Dint <= 0xED4F301ED994263Bint * 0x8000000000000000int);
    assert(0xED4F301ED9945910int * 0x8000000000000000int <= 0xAE493452CA35C8C8int * 0xAE493452CA35C8C8int);
    lemma_chain_upper(0x255714CDA21E25int, 1, 0xAE493452CA35B61Dint, 43, 63, 0xED4F301ED994263Bint);
    lemma_chain_lower(0x255714CDA21E27int, 1, 0xAE493452CA35C8C8int, 43, 63, 0xED4F301ED9945910int);
    assert(0xED4F301ED994263Bint * 0xED4F301ED994263Bint <= 0xDBFBB797DAF22D89int * 0x10000000000000000int);
    assert(0xDBFBB797DAF28BC5int * 0x10000000000000000int <= 0xED4F301ED9945910int * 0xED4F301ED9945910int);
    lemma_chain_upper(0x255714CDA21E25int, 2, 0xED4F301ED994263Bint, 149, 64, 0xDBFBB797DAF22D89int);
    lemma_chain_lower(0x255714CDA21E27int, 2, 0xED4F301ED9945910int, 149, 64, 0xDBFBB797DAF28BC5int);
    assert(0xDBFBB797DAF22D89int * 0xDBFBB797DAF22D89int <= 0xBD08A39F580C25E8int * 0x10000000000000000int);
    assert(0xBD08A39F580CC7DBint * 0x10000000000000000int <= 0xDBFBB797DAF28BC5int * 0xDBFBB797DAF28BC5int);
    lemma_chain_upper(0x255714CDA21E25int, 3, 0xDBFBB797DAF22D89int, 362, 64, 0xBD08A39F580C25E8int);
    lemma_chain_lower(0x255714CDA21E27int, 3, 0xDBFBB797DAF28BC5int, 362, 64, 0xBD08A39F580CC7DBint);
    assert(0xBD08A39F580C25E8int * 0xBD08A39F580C25E8int <= 0x8B95C1E3EA8BBE09int * 0x10000000000000000int);
    assert(0x8B95C1E3EA8CAD34int * 0x10000000000000000int <= 0xBD08A39F580CC7DBint * 0xBD08A39F580CC7DBint);
    lemma_chain_upper(0x255714CDA21E25int, 4, 0xBD08A39F580C25E8int, 788, 64, 0x8B95C1E3EA8BBE09int);
    lemma_chain_lower(0x255714CDA21E27int, 4, 0xBD08A39F580CC7DBint, 788, 64, 0x8B95C1E3EA8CAD34int);
    assert(0x8B95C1E3EA8BBE09int * 0x8B95C1E3EA8BBE09int <= 0x9837F0518DB87333int * 0x8000000000000000int);
    assert(0x9837F0518DBA7CD4int * 0x8000000000000000int <= 0x8B95C1E3EA8CAD34int * 0x8B95C1E3EA8CAD34int);
    lemma_chain_upper(0x255714CDA21E25int, 5, 0x8B95C1E3EA8BBE09int, 1640, 63, 0x9837F0518DB87333int);
    lemma_chain_lower(0x255714CDA21E27int, 5, 0x8B95C1E3EA8CAD34int, 1640, 63, 0x9837F0518DBA7CD4int);
    assert(0x9837F0518DB87333int * 0x9837F0518DB87333int <= 0xB504F333F9DDE386int * 0x8000000000000000int);
    assert(0xB504F333F9E2BC2Cint * 0x8000000000000000int <= 0x9837F0518DBA7CD4int * 0x9837F0518DBA7CD4int);
    lemma_chain_upper(0x255714CDA21E25int, 6, 0x9837F0518DB87333int, 3343, 63, 0xB504F333F9DDE386int);
    lemma_chain_lower(0x255714CDA21E27int, 6, 0x9837F0518DBA7CD4int, 3343, 63, 0xB504F333F9E2BC2Cint);
    assert(0xB504F333F9DDE386int * 0xB504F333F9DDE386int <= 0xFFFFFFFFFFFE9327int * 0x8000000000000000int);
    assert(0x100000000000C483Cint * 0x8000000000000000int <= 0xB504F333F9E2BC2Cint * 0xB504F333F9E2BC2Cint);
    lemma_chain_upper(0x255714CDA21E25int, 7, 0xB504F333F9DDE386int, 6749, 63, 0xFFFFFFFFFFFE9327int);
    lemma_chain_lower(0x255714CDA21E27int, 7, 0xB504F333F9E2BC2Cint, 6749, 63, 0x100000000000C483Cint);
    lemma_chains_round(0x3FE2_AB8A_66D1_0F13u64, 57, 8, 1, 0x255714CDA21E25int, 0x255714CDA21E27int, 0xFFFFFFFFFFFE9327int, 0x100000000000C483Cint, 13561, 64);
}

/// Boundary 59 of schema 8, checked through its squaring chains.
proof fn rounded_8_59()
    ensures
        rounds_root(0x3FE2_C57E_3977_1B2Fu64, 59, 8),
{
    lemma2_to64();
    lemma2_to64_rest();
    lemma_chain_start(0x258AFC72EE365Dint);
    lemma_chain_start(0x258AFC72EE365Fint);
    assert(0x258AFC72EE365Dint * 0x258AFC72EE365Dint <= 0xB02F0DCBB6E0424Bint * 0x80000000000int);
    assert(0xB02F0DCBB6E0550Fint * 0x80000000000int <= 0x258AFC72EE365Fint * 0x258AFC72EE365Fint);
    lemma_chain_upper(0x258AFC72EE365Dint, 0, 0x258AFC72EE365Dint, 0, 43, 0xB02F0DCBB6E0424Bint);
    lemma_chain_lower(0x258AFC72EE365Fint, 0, 0x258AFC72EE365Fint, 0, 43, 0xB02F0DCBB6E0550Fint);
    assert(0xB02F0DCBB6E0424Bint * 0xB02F0DCBB6E0424Bint <= 0xF281773C59FFA85Cint * 0x8000000000000000int);
    assert(0xF281773C59FFDC04int * 0x8000000000000000int <= 0xB02F0DCBB6E0550Fint * 0xB02F0DCBB6E0550Fint);
    lemma_chain_upper(0x258AFC72EE365Dint, 1, 0xB02F0DCBB6E0424Bint, 43, 63, 0xF281773C59FFA85Cint);
    lemma_chain_lower(0x258AFC72EE365Fint, 1, 0xB02F0DCBB6E0550Fint, 43, 63, 0xF281773C59FFDC04int);
    assert(0xF281773C59FFA85Cint * 0xF281773C59FFA85Cint <= 0xE5B906E77C8337DCint * 0x10000000000000000int);
    assert(0xE5B906E77C8399B9int * 0x10000000000000000int <= 0xF281773C59FFDC04int * 0xF281773C59FFDC04int);
    lemma_chain_upper(0x258AFC72EE365Dint, 2, 0xF281773C59FFA85Cint, 149, 64, 0xE5B906E77C8337DCint);
    lemma_chain_lower(0x258AFC72EE365Fint, 2, 0xF281773C59FFDC04int, 149, 64, 0xE5B906E77C8399B9int);
    assert(0xE5B906E77C8337DCint * 0xE5B906E77C8337DCint <= 0xCE248C151F8462BFint * 0x10000000000000000int);
    assert(0xCE248C151F851261int * 0x10000000000000000int <= 0xE5B906E77C8399B9int * 0xE5B906E77C8399B9int);
    lemma_chain_upper(0x258AFC72EE365Dint, 3, 0xE5B906E77C8337DCint, 362, 64, 0xCE248C151F8462BFint);
    lemma_chain_lower(0x258AFC72EE365Fint, 3, 0xE5B906E77C8399B9int, 362, 64, 0xCE248C151F851261int);
    assert(0xCE248C151F8462BFint * 0xCE248C151F8462BFint <= 0xA5FED6A9B151085Fint * 0x10000000000000000int);
    assert(0xA5FED6A9B1522339int * 0x10000000000000000int <= 0xCE248C151F851261int * 0xCE248C151F851261int);
    lemma_chain_upper(0x258AFC72EE365Dint, 4, 0xCE248C151F8462BFint, 788, 64, 0xA5FED6A9B151085Fint);
    lemma_chain_lower(0x258AFC72EE365Fint, 4, 0xCE248C151F851261int, 788, 64, 0xA5FED6A9B1522339int);
    assert(0xA5FED6A9B151085Fint * 0xA5FED6A9B151085Fint <= 0xD744FCCAD69CED0Dint * 0x8000000000000000int);
    assert(0xD744FCCAD69FCAACint * 0x8000000000000000int <= 0xA5FED6A9B1522339int * 0xA5FED6A9B1522339int);
    lemma_chain_upper(0x258AFC72EE365Dint, 5, 0xA5FED6A9B151085Fint, 1640, 63, 0xD744FCCAD69CED0Dint);
    lemma_chain_lower(0x258AFC72EE365Fint, 5, 0xA5FED6A9B1522339int, 1640, 63, 0xD744FCCAD69FCAACint);
    assert(0xD744FCCAD69CED0Dint * 0xD744FCCAD69CED0Dint <= 0xB504F333F9DD90C7int * 0x10000000000000000int);
    assert(0xB504F333F9E26292int * 0x10000000000000000int <= 0xD744FCCAD69FCAACint * 0xD744FCCAD69FCAACint);
    lemma_chain_upper(0x258AFC72EE365Dint, 6, 0xD744FCCAD69CED0Dint, 3343, 64, 0xB504F333F9DD90C7int);
    lemma_chain_lower(0x258AFC72EE365Fint, 6, 0xD744FCCAD69FCAACint, 3343, 64, 0xB504F333F9E26292int);
    assert(0xB504F333F9DD90C7int * 0xB504F333F9DD90C7int <= 0xFFFFFFFFFFFDA91Dint * 0x8000000000000000int);
    assert(0x100000000000B4ACDint * 0x8000000000000000int <= 0xB504F333F9E26292int * 0xB504F333F9E26292int);
    lemma_chain_upper(0x258AFC72EE365Dint, 7, 0xB504F333F9DD90C7int, 6750, 63, 0xFFFFFFFFFFFDA91Dint);
    lemma_chain_lower(0x258AFC72EE365Fint, 7, 0xB504F333F9E26292int, 6750, 63, 0x100000000000B4ACDint);
    lemma_chains_round(0x3FE2_C57E_3977_1B2Fu64, 59, 8, 1, 0x258AFC72EE365Dint, 0x258AFC72EE365Fint, 0xFFFFFFFFFFFDA91Dint, 0x100000000000B4ACDint, 13563, 64);
}

/// Boundary 61 of schema 8, checked through its squaring chains.
proof fn rounded_8_61()
    ensures
        rounds_root(0x3FE2_DF96_1F64_1589u64, 61, 8),
{
    lemma2_to64();
    lemma2_to64_rest();
    lemma_chain_start(0x25BF2C3EC82B11int);
    lemma_chain_start(0x25BF2C3EC82B13int);
    assert(0x25BF2C3EC82B11int * 0x25BF2C3EC82B11int <= 0xB21A31A66618EC38int * 0x80000000000int);
    assert(0xB21A31A66618FF17int * 0x80000000000int <= 0x25BF2C3EC82B13int * 0x25BF2C3EC82B13int);
    lemma_chain_upper(0x25BF2C3EC82B11int, 0, 0x25BF2C3EC82B11int, 0, 43, 0xB21A31A66618EC38int);
    lemma_chain_lower(0x25BF2C3EC82B13int, 0, 0x25BF2C3EC82B13int, 0, 43, 0xB21A31A66618FF17int);
    assert(0xB21A31A66618EC38int * 0xB21A31A66618EC38int <= 0xF7D0DF730AD10998int * 0x8000000000000000int);
    assert(0xF7D0DF730AD13E1Bint * 0x8000000000000000int <= 0xB21A31A66618FF17int * 0xB21A31A66618FF17int);
    lemma_chain_upper(0x25BF2C3EC82B11int, 1, 0xB21A31A66618EC38int, 43, 63, 0xF7D0DF730AD10998int);
    lemma_chain_lower(0x25BF2C3EC82B13int, 1, 0xB21A31A66618FF17int, 43, 63, 0xF7D0DF730AD13E1Bint);
    assert(0xF7D0DF730AD10998int * 0xF7D0DF730AD10998int <= 0xEFE4B99BDCDA94BEint * 0x10000000000000000int);
    assert(0xEFE4B99BDCDAFA68int * 0x10000000000000000int <= 0xF7D0DF730AD13E1Bint * 0xF7D0DF730AD13E1Bint);
    lemma_chain_upper(0x25BF2C3EC82B11int, 2, 0xF7D0DF730AD10998int, 149, 64, 0xEFE4B99BDCDA94BEint);
    lemma_chain_lower(0x25BF2C3EC82B13int, 2, 0xF7D0DF730AD13E1Bint, 149, 64, 0xEFE4B99BDCDAFA68int);
    assert(0xEFE4B99BDCDA94BEint * 0xEFE4B99BDCDA94BEint <= 0xE0CCDEEC2A942B2Dint * 0x10000000000000000int);
    assert(0xE0CCDEEC2A94E9B5int * 0x10000000000000000int <= 0xEFE4B99BDCDAFA68int * 0xEFE4B99BDCDAFA68int);
    lemma_chain_upper(0x25BF2C3EC82B11int, 3, 0xEFE4B99BDCDA94BEint, 362, 64, 0xE0CCDEEC2A942B2Dint);
    lemma_chain_lower(0x25BF2C3EC82B13int, 3, 0xEFE4B99BDCDAFA68int, 362, 64, 0xE0CCDEEC2A94E9B5int);
    assert(0xE0CCDEEC2A942B2Dint * 0xE0CCDEEC2A942B2Dint <= 0xC5672A1155059B6Cint * 0x10000000000000000int);
    assert(0xC5672A115506EA0Aint * 0x10000000000000000int <= 0xE0CCDEEC2A94E9B5int * 0xE0CCDEEC2A94E9B5int);
    lemma_chain_upper(0x25BF2C3EC82B11int, 4, 0xE0CCDEEC2A942B2Dint, 788, 64, 0xC5672A1155059B6Cint);
    lemma_chain_lower(0x25BF2C3EC82B13int, 4, 0xE0CCDEEC2A94E9B5int, 788, 64, 0xC5672A115506EA0Aint);
    assert(0xC5672A1155059B6Cint * 0xC5672A1155059B6Cint <= 0x9837F0518DB6BCCAint * 0x10000000000000000int);
    assert(0x9837F0518DB8C0D6int * 0x10000000000000000int <= 0xC5672A115506EA0Aint * 0xC5672A115506EA0Aint);
    lemma_chain_upper(0x25BF2C3EC82B11int, 5, 0xC5672A1155059B6Cint, 1640, 64, 0x9837F0518DB6BCCAint);
    lemma_chain_lower(0x25BF2C3EC82B13int, 5, 0xC5672A115506EA0Aint, 1640, 64, 0x9837F0518DB8C0D6int);
    assert(0x9837F0518DB6BCCAint * 0x9837F0518DB6BCCAint <= 0xB504F333F9D9D0CEint * 0x8000000000000000int);
    assert(0xB504F333F9DE9C2Cint * 0x8000000000000000int <= 0x9837F0518DB8C0D6int * 0x9837F0518DB8C0D6int);
    lemma_chain_upper(0x25BF2C3EC82B11int, 6, 0x9837F0518DB6BCCAint, 3344, 63, 0xB504F333F9D9D0CEint);
    lemma_chain_lower(0x25BF2C3EC82B13int, 6, 0x9837F0518DB8C0D6int, 3344, 63, 0xB504F333F9DE9C2Cint);
    assert(0xB504F333F9D9D0CEint * 0xB504F333F9D9D0CEint <= 0xFFFFFFFFFFF30DE6int * 0x8000000000000000int);
    assert(0x10000000000009D6Aint * 0x8000000000000000int <= 0xB504F333F9DE9C2Cint * 0xB504F333F9DE9C2Cint);
    lemma_chain_upper(0x25BF2C3EC82B11int, 7, 0xB504F333F9D9D0CEint, 6751, 63, 0xFFFFFFFFFFF30DE6int);
    lemma_chain_lower(0x25BF2C3EC82B13int, 7, 0xB504F333F9DE9C2Cint, 6751, 63, 0x10000000000009D6Aint);
    lemma_chains_round(0x3FE2_DF96_1F64_1589u64, 61, 8, 1, 0x25BF2C3EC82B11int, 0x25BF2C3EC82B13int, 0xFFFFFFFFFFF30DE6int, 0x10000000000009D6Aint, 13565, 64);
}

/// Boundary 63 of schema 8, checked through its squaring chains.
proof fn rounded_8_63()
    ensures
        rounds_root(0x3FE2_F9D2_4ABD_886Bu64, 63, 8),
{
    lemma2_to64();
    lemma2_to64_rest();
    lemma_chain_start(0x25F3A4957B10D5int);
    lemma_chain_start(0x25F3A4957B10D7int);
    assert(0x25F3A4957B10D5int * 0x25F3A4957B10D5int <= 0xB40AAEA2654B8F8Eint * 0x80000000000int);
    assert(0xB40AAEA2654BA287int * 0x80000000000int <= 0x25F3A4957B10D7int * 0x25F3A4957B10D7int);
    lemma_chain_upper(0x25F3A4957B10D5int, 0, 0x25F3A4957B10D5int, 0, 43, 0xB40AAEA2654B8F8Eint);
    lemma_chain_lower(0x25F3A4957B10D7int, 0, 0x25F3A4957B10D7int, 0, 43, 0xB40AAEA2654BA287int);
    assert(0xB40AAEA2654B8F8Eint * 0xB40AAEA2654B8F8Eint <= 0xFD3E0C0CF486A8FCint * 0x8000000000000000int);
    assert(0xFD3E0C0CF486DE5Bint * 0x8000000000000000int <= 0xB40AAEA2654BA287int * 0xB40AAEA2654BA287int);
    lemma_chain_upper(0x25F3A4957B10D5int, 1, 0xB40AAEA2654B8F8Eint, 43, 63, 0xFD3E0C0CF486A8FCint);
    lemma_chain_lower(0x25F3A4957B10D7int, 1, 0xB40AAEA2654BA287int, 43, 63, 0xFD3E0C0CF486DE5Bint);
    assert(0xFD3E0C0CF486A8FCint * 0xFD3E0C0CF486A8FCint <= 0xFA83B2DB7229D2D1int * 0x10000000000000000int);
    assert(0xFA83B2DB722A3C68int * 0x10000000000000000int <= 0xFD3E0C0CF486DE5Bint * 0xFD3E0C0CF486DE5Bint);
    lemma_chain_upper(0x25F3A4957B10D5int, 2, 0xFD3E0C0CF486A8FCint, 149, 64, 0xFA83B2DB7229D2D1int);
    lemma_chain_lower(0x25F3A4957B10D7int, 2, 0xFD3E0C0CF486DE5Bint, 149, 64, 0xFA83B2DB722A3C68int);
    assert(0xFA83B2DB7229D2D1int * 0xFA83B2DB7229D2D1int <= 0xF5257D1524866D6Dint * 0x10000000000000000int);
    assert(0xF5257D1524873C14int * 0x10000000000000000int <= 0xFA83B2DB722A3C68int * 0xFA83B2DB722A3C68int);
    lemma_chain_upper(0x25F3A4957B10D5int, 3, 0xFA83B2DB7229D2D1int, 362, 64, 0xF5257D1524866D6Dint);
    lemma_chain_lower(0x25F3A4957B10D7int, 3, 0xFA83B2DB722A3C68int, 362, 64, 0xF5257D1524873C14int);
    assert(0xF5257D1524866D6Dint * 0xF5257D1524866D6Dint <= 0xEAC0C6E7DD2383B9int * 0x10000000000000000int);
    assert(0xEAC0C6E7DD250F80int * 0x10000000000000000int <= 0xF5257D1524873C14int * 0xF5257D1524873C14int);
    lemma_chain_upper(0x25F3A4957B10D5int, 4, 0xF5257D1524866D6Dint, 788, 64, 0xEAC0C6E7DD2383B9int);
    lemma_chain_lower(0x25F3A4957B10D7int, 4, 0xF5257D1524873C14int, 788, 64, 0xEAC0C6E7DD250F80int);
    assert(0xEAC0C6E7DD2383B9int * 0xEAC0C6E7DD2383B9int <= 0xD744FCCAD69C1E28int * 0x10000000000000000int);
    assert(0xD744FCCAD69EF403int * 0x10000000000000000int <= 0xEAC0C6E7DD250F80int * 0xEAC0C6E7DD250F80int);
    lemma_chain_upper(0x25F3A4957B10D5int, 5, 0xEAC0C6E7DD2383B9int, 1640, 64, 0xD744FCCAD69C1E28int);
    lemma_chain_lower(0x25F3A4957B10D7int, 5, 0xEAC0C6E7DD250F80int, 1640, 64, 0xD744FCCAD69EF403int);
    assert(0xD744FCCAD69C1E28int * 0xD744FCCAD69C1E28int <= 0xB504F333F9DC34D2int * 0x10000000000000000int);
    assert(0xB504F333F9E0F98Fint * 0x10000000000000000int <= 0xD744FCCAD69EF403int * 0xD744FCCAD69EF403int);
    lemma_chain_upper(0x25F3A4957B10D5int, 6, 0xD744FCCAD69C1E28int, 3344, 64, 0xB504F333F9DC34D2int);
    lemma_chain_lower(0x25F3A4957B10D7int, 6, 0xD744FCCAD69EF403int, 3344, 64, 0xB504F333F9E0F98Fint);
    assert(0xB504F333F9DC34D2int * 0xB504F333F9DC34D2int <= 0xFFFFFFFFFFF9D0F1int * 0x8000000000000000int);
    assert(0x10000000000074DB5int * 0x8000000000000000int <= 0xB504F333F9E0F98Fint * 0xB504F333F9E0F98Fint);
    lemma_chain_upper(0x25F3A4957B10D5int, 7, 0xB504F333F9DC34D2int, 6752, 63, 0xFFFFFFFFFFF9D0F1int);
    lemma_chain_lower(0x25F3A4957B10D7int, 7, 0xB504F333F9E0F98Fint, 6752, 63, 0x10000000000074DB5int);
    lemma_chains_round(0x3FE2_F9D2_4ABD_886Bu64, 63, 8, 1, 0x25F3A4957B10D5int, 0x25F3A4957B10D7int, 0xFFFFFFFFFFF9D0F1int, 0x10000000000074DB5int, 13567, 64);
}

/// Boundary 65 of schema 8, checked through its squaring chains.
proof fn rounded_8_65()
    ensures
        rounds_root(0x3FE3_1432_EDEE_B2FDu64, 65, 8),
{
    lemma2_to64();
    lemma2_to64_rest();
    lemma_chain_start(0x262865DBDD65F9int);
    lemma_chain_start(0x262865DBDD65FBint);
    assert(0x262865DBDD65F9int * 0x262865DBDD65F9int <= 0xB60093A85ED5EA1Bint * 0x80000000000int);
    assert(0xB60093A85ED5FD2Eint * 0x80000000000int <= 0x262865DBDD65FBint * 0x262865DBDD65FBint);
    lemma_chain_upper(0x262865DBDD65F9int, 0, 0x262865DBDD65F9int, 0, 43, 0xB60093A85ED5EA1Bint);
    lemma_chain_lower(0x262865DBDD65FBint, 0, 0x262865DBDD65FBint, 0, 43, 0xB60093A85ED5FD2Eint);
    assert(0xB60093A85ED5EA1Bint * 0xB60093A85ED5EA1Bint <= 0x8164D1F3BC02F485int * 0x10000000000000000int);
    assert(0x8164D1F3BC030FA3int * 0x10000000000000000int <= 0xB60093A85ED5FD2Eint * 0xB60093A85ED5FD2Eint);
    lemma_chain_upper(0x262865DBDD65F9int, 1, 0xB60093A85ED5EA1Bint, 43, 64, 0x8164D1F3BC02F485int);
    lemma_chain_lower(0x262865DBDD65FBint, 1, 0xB60093A85ED5FD2Eint, 43, 64, 0x8164D1F3BC030FA3int);
    assert(0x8164D1F3BC02F485int * 0x8164D1F3BC02F485int <= 0x82CD8698AC2B7B91int * 0x8000000000000000int);
    assert(0x82CD8698AC2BB263int * 0x8000000000000000int <= 0x8164D1F3BC030FA3int * 0x8164D1F3BC030FA3int);
    lemma_chain_upper(0x262865DBDD65F9int, 2, 0x8164D1F3BC02F485int, 150, 63, 0x82CD8698AC2B7B91int);
    lemma_chain_lower(0x262865DBDD65FBint, 2, 0x8164D1F3BC030FA3int, 150, 63, 0x82CD8698AC2BB263int);
    assert(0x82CD8698AC2B7B91int * 0x82CD8698AC2B7B91int <= 0x85AAC367CC482CDCint * 0x8000000000000000int);
    assert(0x85AAC367CC489CE5int * 0x8000000000000000int <= 0x82CD8698AC2BB263int * 0x82CD8698AC2BB263int);
    lemma_chain_upper(0x262865DBDD65F9int, 3, 0x82CD8698AC2B7B91int, 363, 63, 0x85AAC367CC482CDCint);
    lemma_chain_lower(0x262865DBDD65FBint, 3, 0x82CD8698AC2BB263int, 363, 63, 0x85AAC367CC489CE5int);
    assert(0x85AAC367CC482CDCint * 0x85AAC367CC482CDCint <= 0x8B95C1E3EA8B3389int * 0x8000000000000000int);
    assert(0x8B95C1E3EA8C1D85int * 0x8000000000000000int <= 0x85AAC367CC489CE5int * 0x85AAC367CC489CE5int);
    lemma_chain_upper(0x262865DBDD65F9int, 4, 0x85AAC367CC482CDCint, 789, 63, 0x8B95C1E3EA8B3389int);
    lemma_chain_lower(0x262865DBDD65FBint, 4, 0x85AAC367CC489CE5int, 789, 63, 0x8B95C1E3EA8C1D85int);
    assert(0x8B95C1E3EA8B3389int * 0x8B95C1E3EA8B3389int <= 0x9837F0518DB74521int * 0x8000000000000000int);
    assert(0x9837F0518DB94373int * 0x8000000000000000int <= 0x8B95C1E3EA8C1D85int * 0x8B95C1E3EA8C1D85int);
    lemma_chain_upper(0x262865DBDD65F9int, 5, 0x8B95C1E3EA8B3389int, 1641, 63, 0x9837F0518DB74521int);
    lemma_chain_lower(0x262865DBDD65FBint, 5, 0x8B95C1E3EA8C1D85int, 1641, 63, 0x9837F0518DB94373int);
    assert(0x9837F0518DB74521int * 0x9837F0518DB74521int <= 0xB504F333F9DB1514int * 0x8000000000000000int);
    assert(0xB504F333F9DFD2D3int * 0x8000000000000000int <= 0x9837F0518DB94373int * 0x9837F0518DB94373int);
    lemma_chain_upper(0x262865DBDD65F9int, 6, 0x9837F0518DB74521int, 3345, 63, 0xB504F333F9DB1514int);
    lemma_chain_lower(0x262865DBDD65FBint, 6, 0x9837F0518DB94373int, 3345, 63, 0xB504F333F9DFD2D3int);
    assert(0xB504F333F9DB1514int * 0xB504F333F9DB1514int <= 0xFFFFFFFFFFF6A315int * 0x8000000000000000int);
    assert(0x10000000000040C12int * 0x8000000000000000int <= 0xB504F333F9DFD2D3int * 0xB504F333F9DFD2D3int);
    lemma_chain_upper(0x262865DBDD65F9int, 7, 0xB504F333F9DB1514int, 6753, 63, 0xFFFFFFFFFFF6A315int);
    lemma_chain_lower(0x262865DBDD65FBint, 7, 0xB504F333F9DFD2D3int, 6753, 63, 0x10000000000040C12int);
    lemma_chains_round(0x3FE3_1432_EDEE_B2FDu64, 65, 8, 1, 0x262865DBDD65F9int, 0x262865DBDD65FBint, 0xFFFFFFFFFFF6A315int, 0x10000000000040C12int, 13569, 64);
}

/// Boundary 67 of schema 8, checked through its squaring chains.
proof fn rounded_8_67()
    ensures
        rounds_root(0x3FE3_2EB8_3BA8_EA32u64, 67, 8),
{
    lemma2_to64();
    lemma2_to64_rest();
    lemma_chain_start(0x265D707751D463int);
    lemma_chain_start(0x265D707751D465int);
    assert(0x265D707751D463int * 0x265D707751D463int <= 0xB7FBEFCA8CA41D5Fint * 0x80000000000int);
    assert(0xB7FBEFCA8CA4308Cint * 0x80000000000int <= 0x265D707751D465int * 0x265D707751D465int);
    lemma_chain_upper(0x265D707751D463int, 0, 0x265D707751D463int, 0, 43, 0xB7FBEFCA8CA41D5Fint);
    lemma_chain_lower(0x265D707751D465int, 0, 0x265D707751D465int, 0, 43, 0xB7FBEFCA8CA4308Cint);
    assert(0xB7FBEFCA8CA41D5Fint * 0xB7FBEFCA8CA41D5Fint <= 0x843A28C3ACDE3EADint * 0x10000000000000000int);
    assert(0x843A28C3ACDE5A3Cint * 0x10000000000000000int <= 0xB7FBEFCA8CA4308Cint * 0xB7FBEFCA8CA4308Cint);
    lemma_chain_upper(0x265D707751D463int, 1, 0xB7FBEFCA8CA41D5Fint, 43, 64, 0x843A28C3ACDE3EADint);
    lemma_chain_lower(0x265D707751D465int, 1, 0xB7FBEFCA8CA4308Cint, 43, 64, 0x843A28C3ACDE5A3Cint);
    assert(0x843A28C3ACDE3EADint * 0x843A28C3ACDE3EADint <= 0x88980E8092DA81DBint * 0x8000000000000000int);
    assert(0x88980E8092DABACAint * 0x8000000000000000int <= 0x843A28C3ACDE5A3Cint * 0x843A28C3ACDE5A3Cint);
    lemma_chain_upper(0x265D707751D463int, 2, 0x843A28C3ACDE3EADint, 150, 63, 0x88980E8092DA81DBint);
    lemma_chain_lower(0x265D707751D465int, 2, 0x843A28C3ACDE5A3Cint, 150, 63, 0x88980E8092DABACAint);
    assert(0x88980E8092DA81DBint * 0x88980E8092DA81DBint <= 0x91C3D373AB11BC2Cint * 0x8000000000000000int);
    assert(0x91C3D373AB1235AFint * 0x8000000000000000int <= 0x88980E8092DABACAint * 0x88980E8092DABACAint);
    lemma_chain_upper(0x265D707751D463int, 3, 0x88980E8092DA81DBint, 363, 63, 0x91C3D373AB11BC2Cint);
    lemma_chain_lower(0x265D707751D465int, 3, 0x88980E8092DABACAint, 363, 63, 0x91C3D373AB1235AFint);
    assert(0x91C3D373AB11BC2Cint * 0x91C3D373AB11BC2Cint <= 0xA5FED6A9B15128E2int * 0x8000000000000000int);
    assert(0xA5FED6A9B1523DA2int * 0x8000000000000000int <= 0x91C3D373AB1235AFint * 0x91C3D373AB1235AFint);
    lemma_chain_upper(0x265D707751D463int, 4, 0x91C3D373AB11BC2Cint, 789, 63, 0xA5FED6A9B15128E2int);
    lemma_chain_lower(0x265D707751D465int, 4, 0x91C3D373AB1235AFint, 789, 63, 0xA5FED6A9B1523DA2int);
    assert(0xA5FED6A9B15128E2int * 0xA5FED6A9B15128E2int <= 0xD744FCCAD69D4160int * 0x8000000000000000int);
    assert(0xD744FCCAD6A00F2Cint * 0x8000000000000000int <= 0xA5FED6A9B1523DA2int * 0xA5FED6A9B1523DA2int);
    lemma_chain_upper(0x265D707751D463int, 5, 0xA5FED6A9B15128E2int, 1641, 63, 0xD744FCCAD69D4160int);
    lemma_chain_lower(0x265D707751D465int, 5, 0xA5FED6A9B1523DA2int, 1641, 63, 0xD744FCCAD6A00F2Cint);
    assert(0xD744FCCAD69D4160int * 0xD744FCCAD69D4160int <= 0xB504F333F9DE1E97int * 0x10000000000000000int);
    assert(0xB504F333F9E2D5C6int * 0x10000000000000000int <= 0xD744FCCAD6A00F2Cint * 0xD744FCCAD6A00F2Cint);
    lemma_chain_upper(0x265D707751D463int, 6, 0xD744FCCAD69D4160int, 3345, 64, 0xB504F333F9DE1E97int);
    lemma_chain_lower(0x265D707751D465int, 6, 0xD744FCCAD6A00F2Cint, 3345, 64, 0xB504F333F9E2D5C6int);
    assert(0xB504F333F9DE1E97int * 0xB504F333F9DE1E97int <= 0xFFFFFFFFFFFF3A38int * 0x8000000000000000int);
    assert(0x100000000000C90A5int * 0x8000000000000000int <= 0xB504F333F9E2D5C6int * 0xB504F333F9E2D5C6int);
    lemma_chain_upper(0x265D707751D463int, 7, 0xB504F333F9DE1E97int, 6754, 63, 0xFFFFFFFFFFFF3A38int);
    lemma_chain_lower(0x265D707751D465int, 7, 0xB504F333F9E2D5C6int, 6754, 63, 0x100000000000C90A5int);
    lemma_chains_round(0x3FE3_2EB8_3BA8_EA32u64, 67, 8, 1, 0x265D707751D463int, 0x265D707751D465int, 0xFFFFFFFFFFFF3A38int, 0x100000000000C90A5int, 13571, 64);
}

/// Boundary 69 of schema 8, checked through its squaring chains.
proof fn rounded_8_69()
    ensures
        rounds_root(0x3FE3_4962_66E3_FA2Du64, 69, 8),
{
    lemma2_to64();
    lemma2_to64_rest();
    lemma_chain_start(0x2692C4CDC7F459int);
    lemma_chain_start(0x2692C4CDC7F45Bint);
    assert(0x2692C4CDC7F459int * 0x2692C4CDC7F459int <= 0xB9FCD2452C0B9731int * 0x80000000000int);
    assert(0xB9FCD2452C0BAA7Aint * 0x80000000000int <= 0x2692C4CDC7F45Bint * 0x2692C4CDC7F45Bint);
    lemma_chain_upper(0x2692C4CDC7F459int, 0, 0x2692C4CDC7F459int, 0, 43, 0xB9FCD2452C0B9731int);
    lemma_chain_lower(0x2692C4CDC7F45Bint, 0, 0x2692C4CDC7F45Bint, 0, 43, 0xB9FCD2452C0BAA7Aint);
    assert(0xB9FCD2452C0B9731int * 0xB9FCD2452C0B9731int <= 0x871F61969E8D064Bint * 0x10000000000000000int);
    assert(0x871F61969E8D224Fint * 0x10000000000000000int <= 0xB9FCD2452C0BAA7Aint * 0xB9FCD2452C0BAA7Aint);
    lemma_chain_upper(0x2692C4CDC7F459int, 1, 0xB9FCD2452C0B9731int, 43, 64, 0x871F61969E8D064Bint);
    lemma_chain_lower(0x2692C4CDC7F45Bint, 1, 0xB9FCD2452C0BAA7Aint, 43, 64, 0x871F61969E8D224Fint);
    assert(0x871F61969E8D064Bint * 0x871F61969E8D064Bint <= 0x8EA4398B45CD3F20int * 0x8000000000000000int);
    assert(0x8EA4398B45CD7A45int * 0x8000000000000000int <= 0x871F61969E8D224Fint * 0x871F61969E8D224Fint);
    lemma_chain_upper(0x2692C4CDC7F459int, 2, 0x871F61969E8D064Bint, 150, 63, 0x8EA4398B45CD3F20int);
    lemma_chain_lower(0x2692C4CDC7F45Bint, 2, 0x871F61969E8D224Fint, 150, 63, 0x8EA4398B45CD7A45int);
    assert(0x8EA4398B45CD3F20int * 0x8EA4398B45CD3F20int <= 0x9EF5326091A0E3B6int * 0x8000000000000000int);
    assert(0x9EF5326091A16787int * 0x8000000000000000int <= 0x8EA4398B45CD7A45int * 0x8EA4398B45CD7A45int);
    lemma_chain_upper(0x2692C4CDC7F459int, 3, 0x8EA4398B45CD3F20int, 363, 63, 0x9EF5326091A0E3B6int);
    lemma_chain_lower(0x2692C4CDC7F45Bint, 3, 0x8EA4398B45CD7A45int, 363, 63, 0x9EF5326091A16787int);
    assert(0x9EF5326091A0E3B6int * 0x9EF5326091A0E3B6int <= 0xC5672A11550668B2int * 0x8000000000000000int);
    assert(0xC5672A115507B016int * 0x8000000000000000int <= 0x9EF5326091A16787int * 0x9EF5326091A16787int);
    lemma_chain_upper(0x2692C4CDC7F459int, 4, 0x9EF5326091A0E3B6int, 789, 63, 0xC5672A11550668B2int);
    lemma_chain_lower(0x2692C4CDC7F45Bint, 4, 0x9EF5326091A16787int, 789, 63, 0xC5672A115507B016int);
    assert(0xC5672A11550668B2int * 0xC5672A11550668B2int <= 0x9837F0518DB7F95Dint * 0x10000000000000000int);
    assert(0x9837F0518DB9F244int * 0x10000000000000000int <= 0xC5672A115507B016int * 0xC5672A115507B016int);
    lemma_chain_upper(0x2692C4CDC7F459int, 5, 0xC5672A11550668B2int, 1641, 64, 0x9837F0518DB7F95Dint);
    lemma_chain_lower(0x2692C4CDC7F45Bint, 5, 0xC5672A115507B016int, 1641, 64, 0x9837F0518DB9F244int);
    assert(0x9837F0518DB7F95Dint * 0x9837F0518DB7F95Dint <= 0xB504F333F9DCC1C0int * 0x8000000000000000int);
    assert(0xB504F333F9E1729Cint * 0x8000000000000000int <= 0x9837F0518DB9F244int * 0x9837F0518DB9F244int);
    lemma_chain_upper(0x2692C4CDC7F459int, 6, 0x9837F0518DB7F95Dint, 3346, 63, 0xB504F333F9DCC1C0int);
    lemma_chain_lower(0x2692C4CDC7F45Bint, 6, 0x9837F0518DB9F244int, 3346, 63, 0xB504F333F9E1729Cint);
    assert(0xB504F333F9DCC1C0int * 0xB504F333F9DCC1C0int <= 0xFFFFFFFFFFFB5F8Dint * 0x8000000000000000int);
    assert(0x1000000000008A417int * 0x8000000000000000int <= 0xB504F333F9E1729Cint * 0xB504F333F9E1729Cint);
    lemma_chain_upper(0x2692C4CDC7F459int, 7, 0xB504F333F9DCC1C0int, 6755, 63, 0xFFFFFFFFFFFB5F8Dint);
    lemma_chain_lower(0x2692C4CDC7F45Bint, 7, 0xB504F333F9E1729Cint, 6755, 63, 0x1000000000008A417int);
    lemma_chains_round(0x3FE3_4962_66E3_FA2Du64, 69, 8, 1, 0x2692C4CDC7F459int, 0x2692C4CDC7F45Bint, 0xFFFFFFFFFFFB5F8Dint, 0x1000000000008A417int, 13573, 64);
}

/// Boundary 71 of schema 8, checked through its squaring chains.
proof fn rounded_8_71()
    ensures
        rounds_root(0x3FE3_6431_A2DE_883Bu64, 71, 8),
{
    lemma2_to64();
    lemma2_to64_rest();
    lemma_chain_start(0x26C86345BD1075int);
    lemma_chain_start(0x26C86345BD1077int);
    assert(0x26C86345BD1075int * 0x26C86345BD1075int <= 0xBC034A7EF2E9F5A1int * 0x80000000000int);
    assert(0xBC034A7EF2EA0904int * 0x80000000000int <= 0x26C86345BD1077int * 0x26C86345BD1077int);
    lemma_chain_upper(0x26C86345BD1075int, 0, 0x26C86345BD1075int, 0, 43, 0xBC034A7EF2E9F5A1int);
    lemma_chain_lower(0x26C86345BD1077int, 0, 0x26C86345BD1077int, 0, 43, 0xBC034A7EF2EA0904int);
    assert(0xBC034A7EF2E9F5A1int * 0xBC034A7EF2E9F5A1int <= 0x8A14D575496EF5A4int * 0x10000000000000000int);
    assert(0x8A14D575496F121Dint * 0x10000000000000000int <= 0xBC034A7EF2EA0904int * 0xBC034A7EF2EA0904int);
    lemma_chain_upper(0x26C86345BD1075int, 1, 0xBC034A7EF2E9F5A1int, 43, 64, 0x8A14D575496EF5A4int);
    lemma_chain_lower(0x26C86345BD1077int, 1, 0xBC034A7EF2EA0904int, 43, 64, 0x8A14D575496F121Dint);
    assert(0x8A14D575496EF5A4int * 0x8A14D575496EF5A4int <= 0x94F4EFA8FEF6F835int * 0x8000000000000000int);
    assert(0x94F4EFA8FEF735A2int * 0x8000000000000000int <= 0x8A14D575496F121Dint * 0x8A14D575496F121Dint);
    lemma_chain_upper(0x26C86345BD1075int, 2, 0x8A14D575496EF5A4int, 150, 63, 0x94F4EFA8FEF6F835int);
    lemma_chain_lower(0x26C86345BD1077int, 2, 0x8A14D575496F121Dint, 150, 63, 0x94F4EFA8FEF735A2int);
    assert(0x94F4EFA8FEF6F835int * 0x94F4EFA8FEF6F835int <= 0xAD583EEA42A122CFint * 0x8000000000000000int);
    assert(0xAD583EEA42A1B1C5int * 0x8000000000000000int <= 0x94F4EFA8FEF735A2int * 0x94F4EFA8FEF735A2int);
    lemma_chain_upper(0x26C86345BD1075int, 3, 0x94F4EFA8FEF6F835int, 363, 63, 0xAD583EEA42A122CFint);
    lemma_chain_lower(0x26C86345BD1077int, 3, 0x94F4EFA8FEF735A2int, 363, 63, 0xAD583EEA42A1B1C5int);
    assert(0xAD583EEA42A122CFint * 0xAD583EEA42A122CFint <= 0xEAC0C6E7DD23CCF0int * 0x8000000000000000int);
    assert(0xEAC0C6E7DD255025int * 0x8000000000000000int <= 0xAD583EEA42A1B1C5int * 0xAD583EEA42A1B1C5int);
    lemma_chain_upper(0x26C86345BD1075int, 4, 0xAD583EEA42A122CFint, 789, 63, 0xEAC0C6E7DD23CCF0int);
    lemma_chain_lower(0x26C86345BD1077int, 4, 0xAD583EEA42A1B1C5int, 789, 63, 0xEAC0C6E7DD255025int);
    assert(0xEAC0C6E7DD23CCF0int * 0xEAC0C6E7DD23CCF0int <= 0xD744FCCAD69CA46Fint * 0x10000000000000000int);
    assert(0xD744FCCAD69F6A92int * 0x10000000000000000int <= 0xEAC0C6E7DD255025int * 0xEAC0C6E7DD255025int);
    lemma_chain_upper(0x26C86345BD1075int, 5, 0xEAC0C6E7DD23CCF0int, 1641, 64, 0xD744FCCAD69CA46Fint);
    lemma_chain_lower(0x26C86345BD1077int, 5, 0xEAC0C6E7DD255025int, 1641, 64, 0xD744FCCAD69F6A92int);
    assert(0xD744FCCAD69CA46Fint * 0xD744FCCAD69CA46Fint <= 0xB504F333F9DD16A6int * 0x10000000000000000int);
    assert(0xB504F333F9E1C0F3int * 0x10000000000000000int <= 0xD744FCCAD69F6A92int * 0xD744FCCAD69F6A92int);
    lemma_chain_upper(0x26C86345BD1075int, 6, 0xD744FCCAD69CA46Fint, 3346, 64, 0xB504F333F9DD16A6int);
    lemma_chain_lower(0x26C86345BD1077int, 6, 0xD744FCCAD69F6A92int, 3346, 64, 0xB504F333F9E1C0F3int);
    assert(0xB504F333F9DD16A6int * 0xB504F333F9DD16A6int <= 0xFFFFFFFFFFFC4FAEint * 0x8000000000000000int);
    assert(0x100000000000981ABint * 0x8000000000000000int <= 0xB504F333F9E1C0F3int * 0xB504F333F9E1C0F3int);
    lemma_chain_upper(0x26C86345BD1075int, 7, 0xB504F333F9DD16A6int, 6756, 63, 0xFFFFFFFFFFFC4FAEint);
    lemma_chain_lower(0x26C86345BD1077int, 7, 0xB504F333F9E1C0F3int, 6756, 63, 0x100000000000981ABint);
    lemma_chains_round(0x3FE3_6431_A2DE_883Bu64, 71, 8, 1, 0x26C86345BD1075int, 0x26C86345BD1077int, 0xFFFFFFFFFFFC4FAEint, 0x100000000000981ABint, 13575, 64);
}

/// Boundary 73 of schema 8, checked through its squaring chains.
proof fn rounded_8_73()
    ensures
        rounds_root(0x3FE3_7F26_231E_754Au64, 73, 8),
{
    lemma2_to64();
    lemma2_to64_rest();
    lemma_chain_start(0x26FE4C463CEA93int);
    lemma_chain_start(0x26FE4C463CEA95int);
    assert(0x26FE4C463CEA93int * 0x26FE4C463CEA93int <= 0xBE0F68098609920Cint * 0x80000000000int);
    assert(0xBE0F68098609A58Aint * 0x80000000000int <= 0x26FE4C463CEA95int * 0x26FE4C463CEA95int);
    lemma_chain_upper(0x26FE4C463CEA93int, 0, 0x26FE4C463CEA93int, 0, 43, 0xBE0F68098609920Cint);
    lemma_chain_lower(0x26FE4C463CEA95int, 0, 0x26FE4C463CEA95int, 0, 43, 0xBE0F68098609A58Aint);
    assert(0xBE0F68098609920Cint * 0xBE0F68098609920Cint <= 0x8D1ADF5B7E5BA72Cint * 0x10000000000000000int);
    assert(0x8D1ADF5B7E5BC41Cint * 0x10000000000000000int <= 0xBE0F68098609A58Aint * 0xBE0F68098609A58Aint);
    lemma_chain_upper(0x26FE4C463CEA93int, 1, 0xBE0F68098609920Cint, 43, 64, 0x8D1ADF5B7E5BA72Cint);
    lemma_chain_lower(0x26FE4C463CEA95int, 1, 0xBE0F68098609A58Aint, 43, 64, 0x8D1ADF5B7E5BC41Cint);
    assert(0x8D1ADF5B7E5BA72Cint * 0x8D1ADF5B7E5BA72Cint <= 0x9B8D39B9D54E4F37int * 0x8000000000000000int);
    assert(0x9B8D39B9D54E8F03int * 0x8000000000000000int <= 0x8D1ADF5B7E5BC41Cint * 0x8D1ADF5B7E5BC41Cint);
    lemma_chain_upper(0x26FE4C463CEA93int, 2, 0x8D1ADF5B7E5BA72Cint, 150, 63, 0x9B8D39B9D54E4F37int);
    lemma_chain_lower(0x26FE4C463CEA95int, 2, 0x8D1ADF5B7E5BC41Cint, 150, 63, 0x9B8D39B9D54E8F03int);
    assert(0x9B8D39B9D54E4F37int * 0x9B8D39B9D54E4F37int <= 0xBD08A39F580C2826int * 0x8000000000000000int);
    assert(0xBD08A39F580CC334int * 0x8000000000000000int <= 0x9B8D39B9D54E8F03int * 0x9B8D39B9D54E8F03int);
    lemma_chain_upper(0x26FE4C463CEA93int, 3, 0x9B8D39B9D54E4F37int, 363, 63, 0xBD08A39F580C2826int);
    lemma_chain_lower(0x26FE4C463CEA95int, 3, 0x9B8D39B9D54E8F03int, 363, 63, 0xBD08A39F580CC334int);
    assert(0xBD08A39F580C2826int * 0xBD08A39F580C2826int <= 0x8B95C1E3EA8BC159int * 0x10000000000000000int);
    assert(0x8B95C1E3EA8CA655int * 0x10000000000000000int <= 0xBD08A39F580CC334int * 0xBD08A39F580CC334int);
    lemma_chain_upper(0x26FE4C463CEA93int, 4, 0xBD08A39F580C2826int, 789, 64, 0x8B95C1E3EA8BC159int);
    lemma_chain_lower(0x26FE4C463CEA95int, 4, 0xBD08A39F580CC334int, 789, 64, 0x8B95C1E3EA8CA655int);
    assert(0x8B95C1E3EA8BC159int * 0x8B95C1E3EA8BC159int <= 0x9837F0518DB87A6Dint * 0x8000000000000000int);
    assert(0x9837F0518DBA6DD7int * 0x8000000000000000int <= 0x8B95C1E3EA8CA655int * 0x8B95C1E3EA8CA655int);
    lemma_chain_upper(0x26FE4C463CEA93int, 5, 0x8B95C1E3EA8BC159int, 1642, 63, 0x9837F0518DB87A6Dint);
    lemma_chain_lower(0x26FE4C463CEA95int, 5, 0x8B95C1E3EA8CA655int, 1642, 63, 0x9837F0518DBA6DD7int);
    assert(0x9837F0518DB87A6Dint * 0x9837F0518DB87A6Dint <= 0xB504F333F9DDF4B6int * 0x8000000000000000int);
    assert(0xB504F333F9E29886int * 0x8000000000000000int <= 0x9837F0518DBA6DD7int * 0x9837F0518DBA6DD7int);
    lemma_chain_upper(0x26FE4C463CEA93int, 6, 0x9837F0518DB87A6Dint, 3347, 63, 0xB504F333F9DDF4B6int);
    lemma_chain_lower(0x26FE4C463CEA95int, 6, 0x9837F0518DBA6DD7int, 3347, 63, 0xB504F333F9E29886int);
    assert(0xB504F333F9DDF4B6int * 0xB504F333F9DDF4B6int <= 0xFFFFFFFFFFFEC3C4int * 0x8000000000000000int);
    assert(0x100000000000BE367int * 0x8000000000000000int <= 0xB504F333F9E29886int * 0xB504F333F9E29886int);
    lemma_chain_upper(0x26FE4C463CEA93int, 7, 0xB504F333F9DDF4B6int, 6757, 63, 0xFFFFFFFFFFFEC3C4int);
    lemma_chain_lower(0x26FE4C463CEA95int, 7, 0xB504F333F9E29886int, 6757, 63, 0x100000000000BE367int);
    lemma_chains_round(0x3FE3_7F26_231E_754Au64, 73, 8, 1, 0x26FE4C463CEA93int, 0x26FE4C463CEA95int, 0xFFFFFFFFFFFEC3C4int, 0x100000000000BE367int, 13577, 64);
}

/// Boundary 75 of schema 8, checked through its squaring chains.
proof fn rounded_8_75()
    ensures
        rounds_root(0x3FE3_9A40_1B71_40EFu64, 75, 8),
{
    lemma2_to64();
    lemma2_to64_rest();
    lemma_chain_start(0x27348036E281DDint);
    lemma_chain_start(0x27348036E281DFint);
    assert(0x27348036E281DDint * 0x27348036E281DDint <= 0xC0213AA1F0D08BC0int * 0x80000000000int);
    assert(0xC0213AA1F0D09F59int * 0x80000000000int <= 0x27348036E281DFint * 0x27348036E281DFint);
    lemma_chain_upper(0x27348036E281DDint, 0, 0x27348036E281DDint, 0, 43, 0xC0213AA1F0D08BC0int);
    lemma_chain_lower(0x27348036E281DFint, 0, 0x27348036E281DFint, 0, 43, 0xC0213AA1F0D09F59int);
    assert(0xC0213AA1F0D08BC0int * 0xC0213AA1F0D08BC0int <= 0x9031DC431466AEF4int * 0x10000000000000000int);
    assert(0x9031DC431466CC5Dint * 0x10000000000000000int <= 0xC0213AA1F0D09F59int * 0xC0213AA1F0D09F59int);
    lemma_chain_upper(0x27348036E281DDint, 1, 0xC0213AA1F0D08BC0int, 43, 64, 0x9031DC431466AEF4int);
    lemma_chain_lower(0x27348036E281DFint, 1, 0xC0213AA1F0D09F59int, 43, 64, 0x9031DC431466CC5Dint);
    assert(0x9031DC431466AEF4int * 0x9031DC431466AEF4int <= 0xA27043030C49618Cint * 0x8000000000000000int);
    assert(0xA27043030C49A3CEint * 0x8000000000000000int <= 0x9031DC431466CC5Dint * 0x9031DC431466CC5Dint);
    lemma_chain_upper(0x27348036E281DDint, 2, 0x9031DC431466AEF4int, 150, 63, 0xA27043030C49618Cint);
    lemma_chain_lower(0x27348036E281DFint, 2, 0x9031DC431466CC5Dint, 150, 63, 0xA27043030C49A3CEint);
    assert(0xA27043030C49618Cint * 0xA27043030C49618Cint <= 0xCE248C151F847045int * 0x8000000000000000int);
    assert(0xCE248C151F85186Fint * 0x8000000000000000int <= 0xA27043030C49A3CEint * 0xA27043030C49A3CEint);
    lemma_chain_upper(0x27348036E281DDint, 3, 0xA27043030C49618Cint, 363, 63, 0xCE248C151F847045int);
    lemma_chain_lower(0x27348036E281DFint, 3, 0xA27043030C49A3CEint, 363, 63, 0xCE248C151F85186Fint);
    assert(0xCE248C151F847045int * 0xCE248C151F847045int <= 0xA5FED6A9B1511E26int * 0x10000000000000000int);
    assert(0xA5FED6A9B1522CF9int * 0x10000000000000000int <= 0xCE248C151F85186Fint * 0xCE248C151F85186Fint);
    lemma_chain_upper(0x27348036E281DDint, 4, 0xCE248C151F847045int, 789, 64, 0xA5FED6A9B1511E26int);
    lemma_chain_lower(0x27348036E281DFint, 4, 0xCE248C151F85186Fint, 789, 64, 0xA5FED6A9B1522CF9int);
    assert(0xA5FED6A9B1511E26int * 0xA5FED6A9B1511E26int <= 0xD744FCCAD69D2589int * 0x8000000000000000int);
    assert(0xD744FCCAD69FE3F6int * 0x8000000000000000int <= 0xA5FED6A9B1522CF9int * 0xA5FED6A9B1522CF9int);
    lemma_chain_upper(0x27348036E281DDint, 5, 0xA5FED6A9B1511E26int, 1642, 63, 0xD744FCCAD69D2589int);
    lemma_chain_lower(0x27348036E281DFint, 5, 0xA5FED6A9B1522CF9int, 1642, 63, 0xD744FCCAD69FE3F6int);
    assert(0xD744FCCAD69D2589int * 0xD744FCCAD69D2589int <= 0xB504F333F9DDEFC5int * 0x10000000000000000int);
    assert(0xB504F333F9E28D1Aint * 0x10000000000000000int <= 0xD744FCCAD69FE3F6int * 0xD744FCCAD69FE3F6int);
    lemma_chain_upper(0x27348036E281DDint, 6, 0xD744FCCAD69D2589int, 3347, 64, 0xB504F333F9DDEFC5int);
    lemma_chain_lower(0x27348036E281DFint, 6, 0xD744FCCAD69FE3F6int, 3347, 64, 0xB504F333F9E28D1Aint);
    assert(0xB504F333F9DDEFC5int * 0xB504F333F9DDEFC5int <= 0xFFFFFFFFFFFEB5CAint * 0x8000000000000000int);
    assert(0x100000000000BC319int * 0x8000000000000000int <= 0xB504F333F9E28D1Aint * 0xB504F333F9E28D1Aint);
    lemma_chain_upper(0x27348036E281DDint, 7, 0xB504F333F9DDEFC5int, 6758, 63, 0xFFFFFFFFFFFEB5CAint);
    lemma_chain_lower(0x27348036E281DFint, 7, 0xB504F333F9E28D1Aint, 6758, 63, 0x100000000000BC319int);
    lemma_chains_round(0x3FE3_9A40_1B71_40EFu64, 75, 8, 1, 0x27348036E281DDint, 0x27348036E281DFint, 0xFFFFFFFFFFFEB5CAint, 0x100000000000BC319int, 13579, 64);
}

/// Boundary 77 of schema 8, checked through its squaring chains.
proof fn rounded_8_77()
    ensures
        rounds_root(0x3FE3_B57F_BFEC_6CF4u64, 77, 8),
{
    lemma2_to64();
    lemma2_to64_rest();
    lemma_chain_start(0x276AFF7FD8D9E7int);
    lemma_chain_start(0x276AFF7FD8D9E9int);
    assert(0x276AFF7FD8D9E7int * 0x276AFF7FD8D9E7int <= 0xC238D2311E3D5609int * 0x80000000000int);
    assert(0xC238D2311E3D69BEint * 0x80000000000int <= 0x276AFF7FD8D9E9int * 0x276AFF7FD8D9E9int);
    lemma_chain_upper(0x276AFF7FD8D9E7int, 0, 0x276AFF7FD8D9E7int, 0, 43, 0xC238D2311E3D5609int);
    lemma_chain_lower(0x276AFF7FD8D9E9int, 0, 0x276AFF7FD8D9E9int, 0, 43, 0xC238D2311E3D69BEint);
    assert(0xC238D2311E3D5609int * 0xC238D2311E3D5609int <= 0x935A2B2F13E6D045int * 0x10000000000000000int);
    assert(0x935A2B2F13E6EE2Bint * 0x10000000000000000int <= 0xC238D2311E3D69BEint * 0xC238D2311E3D69BEint);
    lemma_chain_upper(0x276AFF7FD8D9E7int, 1, 0xC238D2311E3D5609int, 43, 64, 0x935A2B2F13E6D045int);
    lemma_chain_lower(0x276AFF7FD8D9E9int, 1, 0xC238D2311E3D69BEint, 43, 64, 0x935A2B2F13E6EE2Bint);
    assert(0x935A2B2F13E6D045int * 0x935A2B2F13E6D045int <= 0xA9A15AB4EA7BD5A4int * 0x8000000000000000int);
    assert(0xA9A15AB4EA7C1A79int * 0x8000000000000000int <= 0x935A2B2F13E6EE2Bint * 0x935A2B2F13E6EE2Bint);
    lemma_chain_upper(0x276AFF7FD8D9E7int, 2, 0x935A2B2F13E6D045int, 150, 63, 0xA9A15AB4EA7BD5A4int);
    lemma_chain_lower(0x276AFF7FD8D9E9int, 2, 0x935A2B2F13E6EE2Bint, 150, 63, 0xA9A15AB4EA7C1A79int);
    assert(0xA9A15AB4EA7BD5A4int * 0xA9A15AB4EA7BD5A4int <= 0xE0CCDEEC2A94491Eint * 0x8000000000000000int);
    assert(0xE0CCDEEC2A94FF8Dint * 0x8000000000000000int <= 0xA9A15AB4EA7C1A79int * 0xA9A15AB4EA7C1A79int);
    lemma_chain_upper(0x276AFF7FD8D9E7int, 3, 0xA9A15AB4EA7BD5A4int, 363, 63, 0xE0CCDEEC2A94491Eint);
    lemma_chain_lower(0x276AFF7FD8D9E9int, 3, 0xA9A15AB4EA7C1A79int, 363, 63, 0xE0CCDEEC2A94FF8Dint);
    assert(0xE0CCDEEC2A94491Eint * 0xE0CCDEEC2A94491Eint <= 0xC5672A115505D001int * 0x10000000000000000int);
    assert(0xC5672A1155071066int * 0x10000000000000000int <= 0xE0CCDEEC2A94FF8Dint * 0xE0CCDEEC2A94FF8Dint);
    lemma_chain_upper(0x276AFF7FD8D9E7int, 4, 0xE0CCDEEC2A94491Eint, 789, 64, 0xC5672A115505D001int);
    lemma_chain_lower(0x276AFF7FD8D9E9int, 4, 0xE0CCDEEC2A94FF8Dint, 789, 64, 0xC5672A1155071066int);
    assert(0xC5672A115505D001int * 0xC5672A115505D001int <= 0x9837F0518DB70DE2int * 0x10000000000000000int);
    assert(0x9837F0518DB8FBFEint * 0x10000000000000000int <= 0xC5672A1155071066int * 0xC5672A1155071066int);
    lemma_chain_upper(0x276AFF7FD8D9E7int, 5, 0xC5672A115505D001int, 1642, 64, 0x9837F0518DB70DE2int);
    lemma_chain_lower(0x276AFF7FD8D9E9int, 5, 0xC5672A1155071066int, 1642, 64, 0x9837F0518DB8FBFEint);
    assert(0x9837F0518DB70DE2int * 0x9837F0518DB70DE2int <= 0xB504F333F9DA91AEint * 0x8000000000000000int);
    assert(0xB504F333F9DF28DFint * 0x8000000000000000int <= 0x9837F0518DB8FBFEint * 0x9837F0518DB8FBFEint);
    lemma_chain_upper(0x276AFF7FD8D9E7int, 6, 0x9837F0518DB70DE2int, 3348, 63, 0xB504F333F9DA91AEint);
    lemma_chain_lower(0x276AFF7FD8D9E9int, 6, 0x9837F0518DB8FBFEint, 3348, 63, 0xB504F333F9DF28DFint);
    assert(0xB504F333F9DA91AEint * 0xB504F333F9DA91AEint <= 0xFFFFFFFFFFF52F6Fint * 0x8000000000000000int);
    assert(0x10000000000022B5Fint * 0x8000000000000000int <= 0xB504F333F9DF28DFint * 0xB504F333F9DF28DFint);
    lemma_chain_upper(0x276AFF7FD8D9E7int, 7, 0xB504F333F9DA91AEint, 6759, 63, 0xFFFFFFFFFFF52F6Fint);
    lemma_chain_lower(0x276AFF7FD8D9E9int, 7, 0xB504F333F9DF28DFint, 6759, 63, 0x10000000000022B5Fint);
    lemma_chains_round(0x3FE3_B57F_BFEC_6CF4u64, 77, 8, 1, 0x276AFF7FD8D9E7int, 0x276AFF7FD8D9E9int, 0xFFFFFFFFFFF52F6Fint, 0x10000000000022B5Fint, 13581, 64);
}

/// Boundary 79 of schema 8, checked through its squaring chains.
proof fn rounded_8_79()
    ensures
        rounds_root(0x3FE3_D0E5_44ED_E173u64, 79, 8),
{
    lemma2_to64();
    lemma2_to64_rest();
    lemma_chain_start(0x27A1CA89DBC2E5int);
    lemma_chain_start(0x27A1CA89DBC2E7int);
    assert(0x27A1CA89DBC2E5int * 0x27A1CA89DBC2E5int <= 0xC4563ECC5334BED2int * 0x80000000000int);
    assert(0xC4563ECC5334D2A2int * 0x80000000000int <= 0x27A1CA89DBC2E7int * 0x27A1CA89DBC2E7int);
    lemma_chain_upper(0x27A1CA89DBC2E5int, 0, 0x27A1CA89DBC2E5int, 0, 43, 0xC4563ECC5334BED2int);
    lemma_chain_lower(0x27A1CA89DBC2E7int, 0, 0x27A1CA89DBC2E7int, 0, 43, 0xC4563ECC5334D2A2int);
    assert(0xC4563ECC5334BED2int * 0xC4563ECC5334BED2int <= 0x96942D3720184705int * 0x10000000000000000int);
    assert(0x96942D3720186567int * 0x10000000000000000int <= 0xC4563ECC5334D2A2int * 0xC4563ECC5334D2A2int);
    lemma_chain_upper(0x27A1CA89DBC2E5int, 1, 0xC4563ECC5334BED2int, 43, 64, 0x96942D3720184705int);
    lemma_chain_lower(0x27A1CA89DBC2E7int, 1, 0xC4563ECC5334D2A2int, 43, 64, 0x96942D3720186567int);
    assert(0x96942D3720184705int * 0x96942D3720184705int <= 0xB123F581D2ABF8E7int * 0x8000000000000000int);
    assert(0xB123F581D2AC4062int * 0x8000000000000000int <= 0x96942D3720186567int * 0x96942D3720186567int);
    lemma_chain_upper(0x27A1CA89DBC2E5int, 2, 0x96942D3720184705int, 150, 63, 0xB123F581D2ABF8E7int);
    lemma_chain_lower(0x27A1CA89DBC2E7int, 2, 0x96942D3720186567int, 150, 63, 0xB123F581D2AC4062int);
    assert(0xB123F581D2ABF8E7int * 0xB123F581D2ABF8E7int <= 0xF5257D1524865092int * 0x8000000000000000int);
    assert(0xF5257D1524871669int * 0x8000000000000000int <= 0xB123F581D2AC4062int * 0xB123F581D2AC4062int);
    lemma_chain_upper(0x27A1CA89DBC2E5int, 3, 0xB123F581D2ABF8E7int, 363, 63, 0xF5257D1524865092int);
    lemma_chain_lower(0x27A1CA89DBC2E7int, 3, 0xB123F581D2AC4062int, 363, 63, 0xF5257D1524871669int);
    assert(0xF5257D1524865092int * 0xF5257D1524865092int <= 0xEAC0C6E7DD234C75int * 0x10000000000000000int);
    assert(0xEAC0C6E7DD24C75Cint * 0x10000000000000000int <= 0xF5257D1524871669int * 0xF5257D1524871669int);
    lemma_chain_upper(0x27A1CA89DBC2E5int, 4, 0xF5257D1524865092int, 789, 64, 0xEAC0C6E7DD234C75int);
    lemma_chain_lower(0x27A1CA89DBC2E7int, 4, 0xF5257D1524871669int, 789, 64, 0xEAC0C6E7DD24C75Cint);
    assert(0xEAC0C6E7DD234C75int * 0xEAC0C6E7DD234C75int <= 0xD744FCCAD69BB8CDint * 0x10000000000000000int);
    assert(0xD744FCCAD69E6FB4int * 0x10000000000000000int <= 0xEAC0C6E7DD24C75Cint * 0xEAC0C6E7DD24C75Cint);
    lemma_chain_upper(0x27A1CA89DBC2E5int, 5, 0xEAC0C6E7DD234C75int, 1642, 64, 0xD744FCCAD69BB8CDint);
    lemma_chain_lower(0x27A1CA89DBC2E7int, 5, 0xEAC0C6E7DD24C75Cint, 1642, 64, 0xD744FCCAD69E6FB4int);
    assert(0xD744FCCAD69BB8CDint * 0xD744FCCAD69BB8CDint <= 0xB504F333F9DB8A5Dint * 0x10000000000000000int);
    assert(0xB504F333F9E01B0Bint * 0x10000000000000000int <= 0xD744FCCAD69E6FB4int * 0xD744FCCAD69E6FB4int);
    lemma_chain_upper(0x27A1CA89DBC2E5int, 6, 0xD744FCCAD69BB8CDint, 3348, 64, 0xB504F333F9DB8A5Dint);
    lemma_chain_lower(0x27A1CA89DBC2E7int, 6, 0xD744FCCAD69E6FB4int, 3348, 64, 0xB504F333F9E01B0Bint);
    assert(0xB504F333F9DB8A5Dint * 0xB504F333F9DB8A5Dint <= 0xFFFFFFFFFFF7EED1int * 0x8000000000000000int);
    assert(0x1000000000004D856int * 0x8000000000000000int <= 0xB504F333F9E01B0Bint * 0xB504F333F9E01B0Bint);
    lemma_chain_upper(0x27A1CA89DBC2E5int, 7, 0xB504F333F9DB8A5Dint, 6760, 63, 0xFFFFFFFFFFF7EED1int);
    lemma_chain_lower(0x27A1CA89DBC2E7int, 7, 0xB504F333F9E01B0Bint, 6760, 63, 0x1000000000004D856int);
    lemma_chains_round(0x3FE3_D0E5_44ED_E173u64, 79, 8, 1, 0x27A1CA89DBC2E5int, 0x27A1CA89DBC2E7int, 0xFFFFFFFFFFF7EED1int, 0x1000000000004D856int, 13583, 64);
}

/// Boundary 81 of schema 8, checked through its squaring chains.
proof fn rounded_8_81()
    ensures
        rounds_root(0x3FE3_EC70_DF1C_5175u64, 81, 8),
{
    lemma2_to64();
    lemma2_to64_rest();
    lemma_chain_start(0x27D8E1BE38A2E9int);
    lemma_chain_start(0x27D8E1BE38A2EBint);
    assert(0x27D8E1BE38A2E9int * 0x27D8E1BE38A2E9int <= 0xC67990B5AA2459B6int * 0x80000000000int);
    assert(0xC67990B5AA246DA1int * 0x80000000000int <= 0x27D8E1BE38A2EBint * 0x27D8E1BE38A2EBint);
    lemma_chain_upper(0x27D8E1BE38A2E9int, 0, 0x27D8E1BE38A2E9int, 0, 43, 0xC67990B5AA2459B6int);
    lemma_chain_lower(0x27D8E1BE38A2EBint, 0, 0x27D8E1BE38A2EBint, 0, 43, 0xC67990B5AA246DA1int);
    assert(0xC67990B5AA2459B6int * 0xC67990B5AA2459B6int <= 0x99E0459320B7F176int * 0x10000000000000000int);
    assert(0x99E0459320B81057int * 0x10000000000000000int <= 0xC67990B5AA246DA1int * 0xC67990B5AA246DA1int);
    lemma_chain_upper(0x27D8E1BE38A2E9int, 1, 0xC67990B5AA2459B6int, 43, 64, 0x99E0459320B7F176int);
    lemma_chain_lower(0x27D8E1BE38A2EBint, 1, 0xC67990B5AA246DA1int, 43, 64, 0x99E0459320B81057int);
    assert(0x99E0459320B7F176int * 0x99E0459320B7F176int <= 0xB8FBAF4762FB896Fint * 0x8000000000000000int);
    assert(0xB8FBAF4762FBD3ACint * 0x8000000000000000int <= 0x99E0459320B81057int * 0x99E0459320B81057int);
    lemma_chain_upper(0x27D8E1BE38A2E9int, 2, 0x99E0459320B7F176int, 150, 63, 0xB8FBAF4762FB896Fint);
    lemma_chain_lower(0x27D8E1BE38A2EBint, 2, 0x99E0459320B81057int, 150, 63, 0xB8FBAF4762FBD3ACint);
    assert(0xB8FBAF4762FB896Fint * 0xB8FBAF4762FB896Fint <= 0x85AAC367CC485C0Cint * 0x10000000000000000int);
    assert(0x85AAC367CC48C754int * 0x10000000000000000int <= 0xB8FBAF4762FBD3ACint * 0xB8FBAF4762FBD3ACint);
    lemma_chain_upper(0x27D8E1BE38A2E9int, 3, 0xB8FBAF4762FB896Fint, 363, 64, 0x85AAC367CC485C0Cint);
    lemma_chain_lower(0x27D8E1BE38A2EBint, 3, 0xB8FBAF4762FBD3ACint, 363, 64, 0x85AAC367CC48C754int);
    assert(0x85AAC367CC485C0Cint * 0x85AAC367CC485C0Cint <= 0x8B95C1E3EA8B9616int * 0x8000000000000000int);
    assert(0x8B95C1E3EA8C7625int * 0x8000000000000000int <= 0x85AAC367CC48C754int * 0x85AAC367CC48C754int);
    lemma_chain_upper(0x27D8E1BE38A2E9int, 4, 0x85AAC367CC485C0Cint, 790, 63, 0x8B95C1E3EA8B9616int);
    lemma_chain_lower(0x27D8E1BE38A2EBint, 4, 0x85AAC367CC48C754int, 790, 63, 0x8B95C1E3EA8C7625int);
    assert(0x8B95C1E3EA8B9616int * 0x8B95C1E3EA8B9616int <= 0x9837F0518DB81C12int * 0x8000000000000000int);
    assert(0x9837F0518DBA04BEint * 0x8000000000000000int <= 0x8B95C1E3EA8C7625int * 0x8B95C1E3EA8C7625int);
    lemma_chain_upper(0x27D8E1BE38A2E9int, 5, 0x8B95C1E3EA8B9616int, 1643, 63, 0x9837F0518DB81C12int);
    lemma_chain_lower(0x27D8E1BE38A2EBint, 5, 0x8B95C1E3EA8C7625int, 1643, 63, 0x9837F0518DBA04BEint);
    assert(0x9837F0518DB81C12int * 0x9837F0518DB81C12int <= 0xB504F333F9DD144Cint * 0x8000000000000000int);
    assert(0xB504F333F9E19E8Eint * 0x8000000000000000int <= 0x9837F0518DBA04BEint * 0x9837F0518DBA04BEint);
    lemma_chain_upper(0x27D8E1BE38A2E9int, 6, 0x9837F0518DB81C12int, 3349, 63, 0xB504F333F9DD144Cint);
    lemma_chain_lower(0x27D8E1BE38A2EBint, 6, 0x9837F0518DBA04BEint, 3349, 63, 0xB504F333F9E19E8Eint);
    assert(0xB504F333F9DD144Cint * 0xB504F333F9DD144Cint <= 0xFFFFFFFFFFFC4907int * 0x8000000000000000int);
    assert(0x10000000000092063int * 0x8000000000000000int <= 0xB504F333F9E19E8Eint * 0xB504F333F9E19E8Eint);
    lemma_chain_upper(0x27D8E1BE38A2E9int, 7, 0xB504F333F9DD144Cint, 6761, 63, 0xFFFFFFFFFFFC4907int);
    lemma_chain_lower(0x27D8E1BE38A2EBint, 7, 0xB504F333F9E19E8Eint, 6761, 63, 0x10000000000092063int);
    lemma_chains_round(0x3FE3_EC70_DF1C_5175u64, 81, 8, 1, 0x27D8E1BE38A2E9int, 0x27D8E1BE38A2EBint, 0xFFFFFFFFFFFC4907int, 0x10000000000092063int, 13585, 64);
}

/// Boundary 83 of schema 8, checked through its squaring chains.
proof fn rounded_8_83()
    ensures
        rounds_root(0x3FE4_0822_C367_A024u64, 83, 8),
{
    lemma2_to64();
    lemma2_to64_rest();
    lemma_chain_start(0x28104586CF4047int);
    lemma_chain_start(0x28104586CF4049int);
    assert(0x28104586CF4047int * 0x28104586CF4047int <= 0xC8A2D85C8FFE1DE5int * 0x80000000000int);
    assert(0xC8A2D85C8FFE31ECint * 0x80000000000int <= 0x28104586CF4049int * 0x28104586CF4049int);
    lemma_chain_upper(0x28104586CF4047int, 0, 0x28104586CF4047int, 0, 43, 0xC8A2D85C8FFE1DE5int);
    lemma_chain_lower(0x28104586CF4049int, 0, 0x28104586CF4049int, 0, 43, 0xC8A2D85C8FFE31ECint);
    assert(0xC8A2D85C8FFE1DE5int * 0xC8A2D85C8FFE1DE5int <= 0x9D3ED9A72CFFA0C9int * 0x10000000000000000int);
    assert(0x9D3ED9A72CFFC02Cint * 0x10000000000000000int <= 0xC8A2D85C8FFE31ECint * 0xC8A2D85C8FFE31ECint);
    lemma_chain_upper(0x28104586CF4047int, 1, 0xC8A2D85C8FFE1DE5int, 43, 64, 0x9D3ED9A72CFFA0C9int);
    lemma_chain_lower(0x28104586CF4049int, 1, 0xC8A2D85C8FFE31ECint, 43, 64, 0x9D3ED9A72CFFC02Cint);
    assert(0x9D3ED9A72CFFA0C9int * 0x9D3ED9A72CFFA0C9int <= 0xC12C4CCA66705CFCint * 0x8000000000000000int);
    assert(0xC12C4CCA6670AA18int * 0x8000000000000000int <= 0x9D3ED9A72CFFC02Cint * 0x9D3ED9A72CFFC02Cint);
    lemma_chain_upper(0x28104586CF4047int, 2, 0x9D3ED9A72CFFA0C9int, 150, 63, 0xC12C4CCA66705CFCint);
    lemma_chain_lower(0x28104586CF4049int, 2, 0x9D3ED9A72CFFC02Cint, 150, 63, 0xC12C4CCA6670AA18int);
    assert(0xC12C4CCA66705CFCint * 0xC12C4CCA66705CFCint <= 0x91C3D373AB116FADint * 0x10000000000000000int);
    assert(0x91C3D373AB11E40Bint * 0x10000000000000000int <= 0xC12C4CCA6670AA18int * 0xC12C4CCA6670AA18int);
    lemma_chain_upper(0x28104586CF4047int, 3, 0xC12C4CCA66705CFCint, 363, 64, 0x91C3D373AB116FADint);
    lemma_chain_lower(0x28104586CF4049int, 3, 0xC12C4CCA6670AA18int, 363, 64, 0x91C3D373AB11E40Bint);
    assert(0x91C3D373AB116FADint * 0x91C3D373AB116FADint <= 0xA5FED6A9B1507AA8int * 0x8000000000000000int);
    assert(0xA5FED6A9B15183B1int * 0x8000000000000000int <= 0x91C3D373AB11E40Bint * 0x91C3D373AB11E40Bint);
    lemma_chain_upper(0x28104586CF4047int, 4, 0x91C3D373AB116FADint, 790, 63, 0xA5FED6A9B1507AA8int);
    lemma_chain_lower(0x28104586CF4049int, 4, 0x91C3D373AB11E40Bint, 790, 63, 0xA5FED6A9B15183B1int);
    assert(0xA5FED6A9B1507AA8int * 0xA5FED6A9B1507AA8int <= 0xD744FCCAD69B7D7Dint * 0x8000000000000000int);
    assert(0xD744FCCAD69E2CE6int * 0x8000000000000000int <= 0xA5FED6A9B15183B1int * 0xA5FED6A9B15183B1int);
    lemma_chain_upper(0x28104586CF4047int, 5, 0xA5FED6A9B1507AA8int, 1643, 63, 0xD744FCCAD69B7D7Dint);
    lemma_chain_lower(0x28104586CF4049int, 5, 0xA5FED6A9B15183B1int, 1643, 63, 0xD744FCCAD69E2CE6int);
    assert(0xD744FCCAD69B7D7Dint * 0xD744FCCAD69B7D7Dint <= 0xB504F333F9DB269Dint * 0x10000000000000000int);
    assert(0xB504F333F9DFAAB0int * 0x10000000000000000int <= 0xD744FCCAD69E2CE6int * 0xD744FCCAD69E2CE6int);
    lemma_chain_upper(0x28104586CF4047int, 6, 0xD744FCCAD69B7D7Dint, 3349, 64, 0xB504F333F9DB269Dint);
    lemma_chain_lower(0x28104586CF4049int, 6, 0xD744FCCAD69E2CE6int, 3349, 64, 0xB504F333F9DFAAB0int);
    assert(0xB504F333F9DB269Dint * 0xB504F333F9DB269Dint <= 0xFFFFFFFFFFF6D4AEint * 0x8000000000000000int);
    assert(0x10000000000039A8Cint * 0x8000000000000000int <= 0xB504F333F9DFAAB0int * 0xB504F333F9DFAAB0int);
    lemma_chain_upper(0x28104586CF4047int, 7, 0xB504F333F9DB269Dint, 6762, 63, 0xFFFFFFFFFFF6D4AEint);
    lemma_chain_lower(0x28104586CF4049int, 7, 0xB504F333F9DFAAB0int, 6762, 63, 0x10000000000039A8Cint);
    lemma_chains_round(0x3FE4_0822_C367_A024u64, 83, 8, 1, 0x28104586CF4047int, 0x28104586CF4049int, 0xFFFFFFFFFFF6D4AEint, 0x10000000000039A8Cint, 13587, 64);
}

/// Boundary 85 of schema 8, checked through its squaring chains.
proof fn rounded_8_85()
    ensures
        rounds_root(0x3FE4_23FB_2709_468Au64, 85, 8),
{
    lemma2_to64();
    lemma2_to64_rest();
    lemma_chain_start(0x2847F64E128D13int);
    lemma_chain_start(0x2847F64E128D15int);
    assert(0x2847F64E128D13int * 0x2847F64E128D13int <= 0xCAD2265E429074E0int * 0x80000000000int);
    assert(0xCAD2265E42908903int * 0x80000000000int <= 0x2847F64E128D15int * 0x2847F64E128D15int);
    lemma_chain_upper(0x2847F64E128D13int, 0, 0x2847F64E128D13int, 0, 43, 0xCAD2265E429074E0int);
    lemma_chain_lower(0x2847F64E128D15int, 0, 0x2847F64E128D15int, 0, 43, 0xCAD2265E42908903int);
    assert(0xCAD2265E429074E0int * 0xCAD2265E429074E0int <= 0xA0B0510FB9714BEAint * 0x10000000000000000int);
    assert(0xA0B0510FB9716BD1int * 0x10000000000000000int <= 0xCAD2265E42908903int * 0xCAD2265E42908903int);
    lemma_chain_upper(0x2847F64E128D13int, 1, 0xCAD2265E429074E0int, 43, 64, 0xA0B0510FB9714BEAint);
    lemma_chain_lower(0x2847F64E128D15int, 1, 0xCAD2265E42908903int, 43, 64, 0xA0B0510FB9716BD1int);
    assert(0xA0B0510FB9714BEAint * 0xA0B0510FB9714BEAint <= 0xC9B9BD866E2F1DFCint * 0x8000000000000000int);
    assert(0xC9B9BD866E2F6E15int * 0x8000000000000000int <= 0xA0B0510FB9716BD1int * 0xA0B0510FB9716BD1int);
    lemma_chain_upper(0x2847F64E128D13int, 2, 0xA0B0510FB9714BEAint, 150, 63, 0xC9B9BD866E2F1DFCint);
    lemma_chain_lower(0x2847F64E128D15int, 2, 0xA0B0510FB9716BD1int, 150, 63, 0xC9B9BD866E2F6E15int);
    assert(0xC9B9BD866E2F1DFCint * 0xC9B9BD866E2F1DFCint <= 0x9EF5326091A10279int * 0x10000000000000000int);
    assert(0x9EF5326091A180B3int * 0x10000000000000000int <= 0xC9B9BD866E2F6E15int * 0xC9B9BD866E2F6E15int);
    lemma_chain_upper(0x2847F64E128D13int, 3, 0xC9B9BD866E2F1DFCint, 363, 64, 0x9EF5326091A10279int);
    lemma_chain_lower(0x2847F64E128D15int, 3, 0xC9B9BD866E2F6E15int, 363, 64, 0x9EF5326091A180B3int);
    assert(0x9EF5326091A10279int * 0x9EF5326091A10279int <= 0xC5672A115506B51Aint * 0x8000000000000000int);
    assert(0xC5672A115507EE9Bint * 0x8000000000000000int <= 0x9EF5326091A180B3int * 0x9EF5326091A180B3int);
    lemma_chain_upper(0x2847F64E128D13int, 4, 0x9EF5326091A10279int, 790, 63, 0xC5672A115506B51Aint);
    lemma_chain_lower(0x2847F64E128D15int, 4, 0x9EF5326091A180B3int, 790, 63, 0xC5672A115507EE9Bint);
    assert(0xC5672A115506B51Aint * 0xC5672A115506B51Aint <= 0x9837F0518DB86F33int * 0x10000000000000000int);
    assert(0x9837F0518DBA52AFint * 0x10000000000000000int <= 0xC5672A115507EE9Bint * 0xC5672A115507EE9Bint);
    lemma_chain_upper(0x2847F64E128D13int, 5, 0xC5672A115506B51Aint, 1643, 64, 0x9837F0518DB86F33int);
    lemma_chain_lower(0x2847F64E128D15int, 5, 0xC5672A115507EE9Bint, 1643, 64, 0x9837F0518DBA52AFint);
    assert(0x9837F0518DB86F33int * 0x9837F0518DB86F33int <= 0xB504F333F9DDDA03int * 0x8000000000000000int);
    assert(0xB504F333F9E257EFint * 0x8000000000000000int <= 0x9837F0518DBA52AFint * 0x9837F0518DBA52AFint);
    lemma_chain_upper(0x2847F64E128D13int, 6, 0x9837F0518DB86F33int, 3350, 63, 0xB504F333F9DDDA03int);
    lemma_chain_lower(0x2847F64E128D15int, 6, 0x9837F0518DBA52AFint, 3350, 63, 0xB504F333F9E257EFint);
    assert(0xB504F333F9DDDA03int * 0xB504F333F9DDDA03int <= 0xFFFFFFFFFFFE7840int * 0x8000000000000000int);
    assert(0x100000000000B2CB7int * 0x8000000000000000int <= 0xB504F333F9E257EFint * 0xB504F333F9E257EFint);
    lemma_chain_upper(0x2847F64E128D13int, 7, 0xB504F333F9DDDA03int, 6763, 63, 0xFFFFFFFFFFFE7840int);
    lemma_chain_lower(0x2847F64E128D15int, 7, 0xB504F333F9E257EFint, 6763, 63, 0x100000000000B2CB7int);
    lemma_chains_round(0x3FE4_23FB_2709_468Au64, 85, 8, 1, 0x2847F64E128D13int, 0x2847F64E128D15int, 0xFFFFFFFFFFFE7840int, 0x100000000000B2CB7int, 13589, 64);
}

/// Boundary 87 of schema 8, checked through its squaring chains.
proof fn rounded_8_87()
    ensures
        rounds_root(0x3FE4_3FFA_3F84_B9D4u64, 87, 8),
{
    lemma2_to64();
    lemma2_to64_rest();
    lemma_chain_start(0x287FF47F0973A7int);
    lemma_chain_start(0x287FF47F0973A9int);
    assert(0x287FF47F0973A7int * 0x287FF47F0973A7int <= 0xCD078B86503DBFD2int * 0x80000000000int);
    assert(0xCD078B86503DD411int * 0x80000000000int <= 0x287FF47F0973A9int * 0x287FF47F0973A9int);
    lemma_chain_upper(0x287FF47F0973A7int, 0, 0x287FF47F0973A7int, 0, 43, 0xCD078B86503DBFD2int);
    lemma_chain_lower(0x287FF47F0973A9int, 0, 0x287FF47F0973A9int, 0, 43, 0xCD078B86503DD411int);
    assert(0xCD078B86503DBFD2int * 0xCD078B86503DBFD2int <= 0xA43515AE09E66A32int * 0x10000000000000000int);
    assert(0xA43515AE09E68AA0int * 0x10000000000000000int <= 0xCD078B86503DD411int * 0xCD078B86503DD411int);
    lemma_chain_upper(0x287FF47F0973A7int, 1, 0xCD078B86503DBFD2int, 43, 64, 0xA43515AE09E66A32int);
    lemma_chain_lower(0x287FF47F0973A9int, 1, 0xCD078B86503DD411int, 43, 64, 0xA43515AE09E68AA0int);
    assert(0xA43515AE09E66A32int * 0xA43515AE09E66A32int <= 0xD2A81D91F12AAAD3int * 0x8000000000000000int);
    assert(0xD2A81D91F12AFE07int * 0x8000000000000000int <= 0xA43515AE09E68AA0int * 0xA43515AE09E68AA0int);
    lemma_chain_upper(0x287FF47F0973A7int, 2, 0xA43515AE09E66A32int, 150, 63, 0xD2A81D91F12AAAD3int);
    lemma_chain_lower(0x287FF47F0973A9int, 2, 0xA43515AE09E68AA0int, 150, 63, 0xD2A81D91F12AFE07int);
    assert(0xD2A81D91F12AAAD3int * 0xD2A81D91F12AAAD3int <= 0xAD583EEA42A0EC1Aint * 0x10000000000000000int);
    assert(0xAD583EEA42A17507int * 0x10000000000000000int <= 0xD2A81D91F12AFE07int * 0xD2A81D91F12AFE07int);
    lemma_chain_upper(0x287FF47F0973A7int, 3, 0xD2A81D91F12AAAD3int, 363, 64, 0xAD583EEA42A0EC1Aint);
    lemma_chain_lower(0x287FF47F0973A9int, 3, 0xD2A81D91F12AFE07int, 363, 64, 0xAD583EEA42A17507int);
    assert(0xAD583EEA42A0EC1Aint * 0xAD583EEA42A0EC1Aint <= 0xEAC0C6E7DD2338C3int * 0x8000000000000000int);
    assert(0xEAC0C6E7DD24ABA0int * 0x8000000000000000int <= 0xAD583EEA42A17507int * 0xAD583EEA42A17507int);
    lemma_chain_upper(0x287FF47F0973A7int, 4, 0xAD583EEA42A0EC1Aint, 790, 63, 0xEAC0C6E7DD2338C3int);
    lemma_chain_lower(0x287FF47F0973A9int, 4, 0xAD583EEA42A17507int, 790, 63, 0xEAC0C6E7DD24ABA0int);
    assert(0xEAC0C6E7DD2338C3int * 0xEAC0C6E7DD2338C3int <= 0xD744FCCAD69B94ADint * 0x10000000000000000int);
    assert(0xD744FCCAD69E3CD7int * 0x10000000000000000int <= 0xEAC0C6E7DD24ABA0int * 0xEAC0C6E7DD24ABA0int);
    lemma_chain_upper(0x287FF47F0973A7int, 5, 0xEAC0C6E7DD2338C3int, 1643, 64, 0xD744FCCAD69B94ADint);
    lemma_chain_lower(0x287FF47F0973A9int, 5, 0xEAC0C6E7DD24ABA0int, 1643, 64, 0xD744FCCAD69E3CD7int);
    assert(0xD744FCCAD69B94ADint * 0xD744FCCAD69B94ADint <= 0xB504F333F9DB4D9Cint * 0x10000000000000000int);
    assert(0xB504F333F9DFC580int * 0x10000000000000000int <= 0xD744FCCAD69E3CD7int * 0xD744FCCAD69E3CD7int);
    lemma_chain_upper(0x287FF47F0973A7int, 6, 0xD744FCCAD69B94ADint, 3350, 64, 0xB504F333F9DB4D9Cint);
    lemma_chain_lower(0x287FF47F0973A9int, 6, 0xD744FCCAD69E3CD7int, 3350, 64, 0xB504F333F9DFC580int);
    assert(0xB504F333F9DB4D9Cint * 0xB504F333F9DB4D9Cint <= 0xFFFFFFFFFFF742FAint * 0x8000000000000000int);
    assert(0x1000000000003E662int * 0x8000000000000000int <= 0xB504F333F9DFC580int * 0xB504F333F9DFC580int);
    lemma_chain_upper(0x287FF47F0973A7int, 7, 0xB504F333F9DB4D9Cint, 6764, 63, 0xFFFFFFFFFFF742FAint);
    lemma_chain_lower(0x287FF47F0973A9int, 7, 0xB504F333F9DFC580int, 6764, 63, 0x1000000000003E662int);
    lemma_chains_round(0x3FE4_3FFA_3F84_B9D4u64, 87, 8, 1, 0x287FF47F0973A7int, 0x287FF47F0973A9int, 0xFFFFFFFFFFF742FAint, 0x1000000000003E662int, 13591, 64);
}

/// Boundary 89 of schema 8, checked through its squaring chains.
proof fn rounded_8_89()
    ensures
        rounds_root(0x3FE4_5C20_42A7_D232u64, 89, 8),
{
    lemma2_to64();
    lemma2_to64_rest();
    lemma_chain_start(0x28B840854FA463int);
    lemma_chain_start(0x28B840854FA465int);
    assert(0x28B840854FA463int * 0x28B840854FA463int <= 0xCF4318CF19190F8Cint * 0x80000000000int);
    assert(0xCF4318CF191923E7int * 0x80000000000int <= 0x28B840854FA465int * 0x28B840854FA465int);
    lemma_chain_upper(0x28B840854FA463int, 0, 0x28B840854FA463int, 0, 43, 0xCF4318CF19190F8Cint);
    lemma_chain_lower(0x28B840854FA465int, 0, 0x28B840854FA465int, 0, 43, 0xCF4318CF191923E7int);
    assert(0xCF4318CF19190F8Cint * 0xCF4318CF19190F8Cint <= 0xA7CD93B4E9652681int * 0x10000000000000000int);
    assert(0xA7CD93B4E9654776int * 0x10000000000000000int <= 0xCF4318CF191923E7int * 0xCF4318CF191923E7int);
    lemma_chain_upper(0x28B840854FA463int, 1, 0xCF4318CF19190F8Cint, 43, 64, 0xA7CD93B4E9652681int);
    lemma_chain_lower(0x28B840854FA465int, 1, 0xCF4318CF191923E7int, 43, 64, 0xA7CD93B4E9654776int);
    assert(0xA7CD93B4E9652681int * 0xA7CD93B4E9652681int <= 0xDBFBB797DAF2103Fint * 0x8000000000000000int);
    assert(0xDBFBB797DAF266A7int * 0x8000000000000000int <= 0xA7CD93B4E9654776int * 0xA7CD93B4E9654776int);
    lemma_chain_upper(0x28B840854FA463int, 2, 0xA7CD93B4E9652681int, 150, 63, 0xDBFBB797DAF2103Fint);
    lemma_chain_lower(0x28B840854FA465int, 2, 0xA7CD93B4E9654776int, 150, 63, 0xDBFBB797DAF266A7int);
    assert(0xDBFBB797DAF2103Fint * 0xDBFBB797DAF2103Fint <= 0xBD08A39F580BF392int * 0x10000000000000000int);
    assert(0xBD08A39F580C8811int * 0x10000000000000000int <= 0xDBFBB797DAF266A7int * 0xDBFBB797DAF266A7int);
    lemma_chain_upper(0x28B840854FA463int, 3, 0xDBFBB797DAF2103Fint, 363, 64, 0xBD08A39F580BF392int);
    lemma_chain_lower(0x28B840854FA465int, 3, 0xDBFBB797DAF266A7int, 363, 64, 0xBD08A39F580C8811int);
    assert(0xBD08A39F580BF392int * 0xBD08A39F580BF392int <= 0x8B95C1E3EA8B73B3int * 0x10000000000000000int);
    assert(0x8B95C1E3EA8C4F00int * 0x10000000000000000int <= 0xBD08A39F580C8811int * 0xBD08A39F580C8811int);
    lemma_chain_upper(0x28B840854FA463int, 4, 0xBD08A39F580BF392int, 790, 64, 0x8B95C1E3EA8B73B3int);
    lemma_chain_lower(0x28B840854FA465int, 4, 0xBD08A39F580C8811int, 790, 64, 0x8B95C1E3EA8C4F00int);
    assert(0x8B95C1E3EA8B73B3int * 0x8B95C1E3EA8B73B3int <= 0x9837F0518DB7D113int * 0x8000000000000000int);
    assert(0x9837F0518DB9AF5Eint * 0x8000000000000000int <= 0x8B95C1E3EA8C4F00int * 0x8B95C1E3EA8C4F00int);
    lemma_chain_upper(0x28B840854FA463int, 5, 0x8B95C1E3EA8B73B3int, 1644, 63, 0x9837F0518DB7D113int);
    lemma_chain_lower(0x28B840854FA465int, 5, 0x8B95C1E3EA8C4F00int, 1644, 63, 0x9837F0518DB9AF5Eint);
    assert(0x9837F0518DB7D113int * 0x9837F0518DB7D113int <= 0xB504F333F9DC61EDint * 0x8000000000000000int);
    assert(0xB504F333F9E0D380int * 0x8000000000000000int <= 0x9837F0518DB9AF5Eint * 0x9837F0518DB9AF5Eint);
    lemma_chain_upper(0x28B840854FA463int, 6, 0x9837F0518DB7D113int, 3351, 63, 0xB504F333F9DC61EDint);
    lemma_chain_lower(0x28B840854FA465int, 6, 0x9837F0518DB9AF5Eint, 3351, 63, 0xB504F333F9E0D380int);
    assert(0xB504F333F9DC61EDint * 0xB504F333F9DC61EDint <= 0xFFFFFFFFFFFA5085int * 0x8000000000000000int);
    assert(0x1000000000006E20Fint * 0x8000000000000000int <= 0xB504F333F9E0D380int * 0xB504F333F9E0D380int);
    lemma_chain_upper(0x28B840854FA463int, 7, 0xB504F333F9DC61EDint, 6765, 63, 0xFFFFFFFFFFFA5085int);
    lemma_chain_lower(0x28B840854FA465int, 7, 0xB504F333F9E0D380int, 6765, 63, 0x1000000000006E20Fint);
    lemma_chains_round(0x3FE4_5C20_42A7_D232u64, 89, 8, 1, 0x28B840854FA463int, 0x28B840854FA465int, 0xFFFFFFFFFFFA5085int, 0x1000000000006E20Fint, 13593, 64);
}

/// Boundary 91 of schema 8, checked through its squaring chains.
proof fn rounded_8_91()
    ensures
        rounds_root(0x3FE4_786D_668B_3237u64, 91, 8),
{
    lemma2_to64();
    lemma2_to64_rest();
    lemma_chain_start(0x28F0DACD16646Dint);
    lemma_chain_start(0x28F0DACD16646Fint);
    assert(0x28F0DACD16646Dint * 0x28F0DACD16646Dint <= 0xD184DF625169998Aint * 0x80000000000int);
    assert(0xD184DF625169AE01int * 0x80000000000int <= 0x28F0DACD16646Fint * 0x28F0DACD16646Fint);
    lemma_chain_upper(0x28F0DACD16646Dint, 0, 0x28F0DACD16646Dint, 0, 43, 0xD184DF625169998Aint);
    lemma_chain_lower(0x28F0DACD16646Fint, 0, 0x28F0DACD16646Fint, 0, 43, 0xD184DF625169AE01int);
    assert(0xD184DF625169998Aint * 0xD184DF625169998Aint <= 0xAB7A39B5A93ED133int * 0x10000000000000000int);
    assert(0xAB7A39B5A93EF2B1int * 0x10000000000000000int <= 0xD184DF625169AE01int * 0xD184DF625169AE01int);
    lemma_chain_upper(0x28F0DACD16646Dint, 1, 0xD184DF625169998Aint, 43, 64, 0xAB7A39B5A93ED133int);
    lemma_chain_lower(0x28F0DACD16646Fint, 1, 0xD184DF625169AE01int, 43, 64, 0xAB7A39B5A93EF2B1int);
    assert(0xAB7A39B5A93ED133int * 0xAB7A39B5A93ED133int <= 0xE5B906E77C834341int * 0x8000000000000000int);
    assert(0xE5B906E77C839CFDint * 0x8000000000000000int <= 0xAB7A39B5A93EF2B1int * 0xAB7A39B5A93EF2B1int);
    lemma_chain_upper(0x28F0DACD16646Dint, 2, 0xAB7A39B5A93ED133int, 150, 63, 0xE5B906E77C834341int);
    lemma_chain_lower(0x28F0DACD16646Fint, 2, 0xAB7A39B5A93EF2B1int, 150, 63, 0xE5B906E77C839CFDint);
    assert(0xE5B906E77C834341int * 0xE5B906E77C834341int <= 0xCE248C151F847732int * 0x10000000000000000int);
    assert(0xCE248C151F85183Dint * 0x10000000000000000int <= 0xE5B906E77C839CFDint * 0xE5B906E77C839CFDint);
    lemma_chain_upper(0x28F0DACD16646Dint, 3, 0xE5B906E77C834341int, 363, 64, 0xCE248C151F847732int);
    lemma_chain_lower(0x28F0DACD16646Fint, 3, 0xE5B906E77C839CFDint, 363, 64, 0xCE248C151F85183Dint);
    assert(0xCE248C151F847732int * 0xCE248C151F847732int <= 0xA5FED6A9B151294Eint * 0x10000000000000000int);
    assert(0xA5FED6A9B1522CA8int * 0x10000000000000000int <= 0xCE248C151F85183Dint * 0xCE248C151F85183Dint);
    lemma_chain_upper(0x28F0DACD16646Dint, 4, 0xCE248C151F847732int, 790, 64, 0xA5FED6A9B151294Eint);
    lemma_chain_lower(0x28F0DACD16646Fint, 4, 0xCE248C151F85183Dint, 790, 64, 0xA5FED6A9B1522CA8int);
    assert(0xA5FED6A9B151294Eint * 0xA5FED6A9B151294Eint <= 0xD744FCCAD69D4278int * 0x8000000000000000int);
    assert(0xD744FCCAD69FE324int * 0x8000000000000000int <= 0xA5FED6A9B1522CA8int * 0xA5FED6A9B1522CA8int);
    lemma_chain_upper(0x28F0DACD16646Dint, 5, 0xA5FED6A9B151294Eint, 1644, 63, 0xD744FCCAD69D4278int);
    lemma_chain_lower(0x28F0DACD16646Fint, 5, 0xA5FED6A9B1522CA8int, 1644, 63, 0xD744FCCAD69FE324int);
    assert(0xD744FCCAD69D4278int * 0xD744FCCAD69D4278int <= 0xB504F333F9DE206Eint * 0x10000000000000000int);
    assert(0xB504F333F9E28BB9int * 0x10000000000000000int <= 0xD744FCCAD69FE324int * 0xD744FCCAD69FE324int);
    lemma_chain_upper(0x28F0DACD16646Dint, 6, 0xD744FCCAD69D4278int, 3351, 64, 0xB504F333F9DE206Eint);
    lemma_chain_lower(0x28F0DACD16646Fint, 6, 0xD744FCCAD69FE324int, 3351, 64, 0xB504F333F9E28BB9int);
    assert(0xB504F333F9DE206Eint * 0xB504F333F9DE206Eint <= 0xFFFFFFFFFFFF3F6Cint * 0x8000000000000000int);
    assert(0x100000000000BBF33int * 0x8000000000000000int <= 0xB504F333F9E28BB9int * 0xB504F333F9E28BB9int);
    lemma_chain_upper(0x28F0DACD16646Dint, 7, 0xB504F333F9DE206Eint, 6766, 63, 0xFFFFFFFFFFFF3F6Cint);
    lemma_chain_lower(0x28F0DACD16646Fint, 7, 0xB504F333F9E28BB9int, 6766, 63, 0x100000000000BBF33int);
    lemma_chains_round(0x3FE4_786D_668B_3237u64, 91, 8, 1, 0x28F0DACD16646Dint, 0x28F0DACD16646Fint, 0xFFFFFFFFFFFF3F6Cint, 0x100000000000BBF33int, 13595, 64);
}

/// Boundary 93 of schema 8, checked through its squaring chains.
proof fn rounded_8_93()
    ensures
        rounds_root(0x3FE4_94E1_E192_AED2u64, 93, 8),
{
    lemma2_to64();
    lemma2_to64_rest();
    lemma_chain_start(0x2929C3C3255DA3int);
    lemma_chain_start(0x2929C3C3255DA5int);
    assert(0x2929C3C3255DA3int * 0x2929C3C3255DA3int <= 0xD3CCF099859ABC5Aint * 0x80000000000int);
    assert(0xD3CCF099859AD0EEint * 0x80000000000int <= 0x2929C3C3255DA5int * 0x2929C3C3255DA5int);
    lemma_chain_upper(0x2929C3C3255DA3int, 0, 0x2929C3C3255DA3int, 0, 43, 0xD3CCF099859ABC5Aint);
    lemma_chain_lower(0x2929C3C3255DA5int, 0, 0x2929C3C3255DA5int, 0, 43, 0xD3CCF099859AD0EEint);
    assert(0xD3CCF099859ABC5Aint * 0xD3CCF099859ABC5Aint <= 0xAF3B78AD690A37ACint * 0x10000000000000000int);
    assert(0xAF3B78AD690A59B8int * 0x10000000000000000int <= 0xD3CCF099859AD0EEint * 0xD3CCF099859AD0EEint);
    lemma_chain_upper(0x2929C3C3255DA3int, 1, 0xD3CCF099859ABC5Aint, 43, 64, 0xAF3B78AD690A37ACint);
    lemma_chain_lower(0x2929C3C3255DA5int, 1, 0xD3CCF099859AD0EEint, 43, 64, 0xAF3B78AD690A59B8int);
    assert(0xAF3B78AD690A37ACint * 0xAF3B78AD690A37ACint <= 0xEFE4B99BDCDAD588int * 0x8000000000000000int);
    assert(0xEFE4B99BDCDB32BFint * 0x8000000000000000int <= 0xAF3B78AD690A59B8int * 0xAF3B78AD690A59B8int);
    lemma_chain_upper(0x2929C3C3255DA3int, 2, 0xAF3B78AD690A37ACint, 150, 63, 0xEFE4B99BDCDAD588int);
    lemma_chain_lower(0x2929C3C3255DA5int, 2, 0xAF3B78AD690A59B8int, 150, 63, 0xEFE4B99BDCDB32BFint);
    assert(0xEFE4B99BDCDAD588int * 0xEFE4B99BDCDAD588int <= 0xE0CCDEEC2A94A49Aint * 0x10000000000000000int);
    assert(0xE0CCDEEC2A95534Dint * 0x10000000000000000int <= 0xEFE4B99BDCDB32BFint * 0xEFE4B99BDCDB32BFint);
    lemma_chain_upper(0x2929C3C3255DA3int, 3, 0xEFE4B99BDCDAD588int, 363, 64, 0xE0CCDEEC2A94A49Aint);
    lemma_chain_lower(0x2929C3C3255DA5int, 3, 0xEFE4B99BDCDB32BFint, 363, 64, 0xE0CCDEEC2A95534Dint);
    assert(0xE0CCDEEC2A94A49Aint * 0xE0CCDEEC2A94A49Aint <= 0xC5672A11550670ADint * 0x10000000000000000int);
    assert(0xC5672A115507A37Dint * 0x10000000000000000int <= 0xE0CCDEEC2A95534Dint * 0xE0CCDEEC2A95534Dint);
    lemma_chain_upper(0x2929C3C3255DA3int, 4, 0xE0CCDEEC2A94A49Aint, 790, 64, 0xC5672A11550670ADint);
    lemma_chain_lower(0x2929C3C3255DA5int, 4, 0xE0CCDEEC2A95534Dint, 790, 64, 0xC5672A115507A37Dint);
    assert(0xC5672A11550670ADint * 0xC5672A11550670ADint <= 0x9837F0518DB805ACint * 0x10000000000000000int);
    assert(0x9837F0518DB9DED6int * 0x10000000000000000int <= 0xC5672A115507A37Dint * 0xC5672A115507A37Dint);
    lemma_chain_upper(0x2929C3C3255DA3int, 5, 0xC5672A11550670ADint, 1644, 64, 0x9837F0518DB805ACint);
    lemma_chain_lower(0x2929C3C3255DA5int, 5, 0xC5672A115507A37Dint, 1644, 64, 0x9837F0518DB9DED6int);
    assert(0x9837F0518DB805ACint * 0x9837F0518DB805ACint <= 0xB504F333F9DCDF06int * 0x8000000000000000int);
    assert(0xB504F333F9E14466int * 0x8000000000000000int <= 0x9837F0518DB9DED6int * 0x9837F0518DB9DED6int);
    lemma_chain_upper(0x2929C3C3255DA3int, 6, 0x9837F0518DB805ACint, 3352, 63, 0xB504F333F9DCDF06int);
    lemma_chain_lower(0x2929C3C3255DA5int, 6, 0x9837F0518DB9DED6int, 3352, 63, 0xB504F333F9E14466int);
    assert(0xB504F333F9DCDF06int * 0xB504F333F9DCDF06int <= 0xFFFFFFFFFFFBB259int * 0x8000000000000000int);
    assert(0x10000000000082163int * 0x8000000000000000int <= 0xB504F333F9E14466int * 0xB504F333F9E14466int);
    lemma_chain_upper(0x2929C3C3255DA3int, 7, 0xB504F333F9DCDF06int, 6767, 63, 0xFFFFFFFFFFFBB259int);
    lemma_chain_lower(0x2929C3C3255DA5int, 7, 0xB504F333F9E14466int, 6767, 63, 0x10000000000082163int);
    lemma_chains_round(0x3FE4_94E1_E192_AED2u64, 93, 8, 1, 0x2929C3C3255DA3int, 0x2929C3C3255DA5int, 0xFFFFFFFFFFFBB259int, 0x10000000000082163int, 13597, 64);
}

/// Boundary 95 of schema 8, checked through its squaring chains.
proof fn rounded_8_95()
    ensures
        rounds_root(0x3FE4_B17D_EA6D_B7D7u64, 95, 8),
{
    lemma2_to64();
    lemma2_to64_rest();
    lemma_chain_start(0x2962FBD4DB6FADint);
    lemma_chain_start(0x2962FBD4DB6FAFint);
    assert(0x2962FBD4DB6FADint * 0x2962FBD4DB6FADint <= 0xD61B5DFE9F9BC674int * 0x80000000000int);
    assert(0xD61B5DFE9F9BDB25int * 0x80000000000int <= 0x2962FBD4DB6FAFint * 0x2962FBD4DB6FAFint);
    lemma_chain_upper(0x2962FBD4DB6FADint, 0, 0x2962FBD4DB6FADint, 0, 43, 0xD61B5DFE9F9BC674int);
    lemma_chain_lower(0x2962FBD4DB6FAFint, 0, 0x2962FBD4DB6FAFint, 0, 43, 0xD61B5DFE9F9BDB25int);
    assert(0xD61B5DFE9F9BC674int * 0xD61B5DFE9F9BC674int <= 0xB311C412A91117DFint * 0x10000000000000000int);
    assert(0xB311C412A9113A7Aint * 0x10000000000000000int <= 0xD61B5DFE9F9BDB25int * 0xD61B5DFE9F9BDB25int);
    lemma_chain_upper(0x2962FBD4DB6FADint, 1, 0xD61B5DFE9F9BC674int, 43, 64, 0xB311C412A91117DFint);
    lemma_chain_lower(0x2962FBD4DB6FAFint, 1, 0xD61B5DFE9F9BDB25int, 43, 64, 0xB311C412A9113A7Aint);
    assert(0xB311C412A91117DFint * 0xB311C412A91117DFint <= 0xFA83B2DB7229DFCBint * 0x8000000000000000int);
    assert(0xFA83B2DB722A409Dint * 0x8000000000000000int <= 0xB311C412A9113A7Aint * 0xB311C412A9113A7Aint);
    lemma_chain_upper(0x2962FBD4DB6FADint, 2, 0xB311C412A91117DFint, 150, 63, 0xFA83B2DB7229DFCBint);
    lemma_chain_lower(0x2962FBD4DB6FAFint, 2, 0xB311C412A9113A7Aint, 150, 63, 0xFA83B2DB722A409Dint);
    assert(0xFA83B2DB7229DFCBint * 0xFA83B2DB7229DFCBint <= 0xF5257D15248686D3int * 0x10000000000000000int);
    assert(0xF5257D1524874450int * 0x10000000000000000int <= 0xFA83B2DB722A409Dint * 0xFA83B2DB722A409Dint);
    lemma_chain_upper(0x2962FBD4DB6FADint, 3, 0xFA83B2DB7229DFCBint, 363, 64, 0xF5257D15248686D3int);
    lemma_chain_lower(0x2962FBD4DB6FAFint, 3, 0xFA83B2DB722A409Dint, 363, 64, 0xF5257D1524874450int);
    assert(0xF5257D15248686D3int * 0xF5257D15248686D3int <= 0xEAC0C6E7DD23B45Eint * 0x10000000000000000int);
    assert(0xEAC0C6E7DD251F45int * 0x10000000000000000int <= 0xF5257D1524874450int * 0xF5257D1524874450int);
    lemma_chain_upper(0x2962FBD4DB6FADint, 4, 0xF5257D15248686D3int, 790, 64, 0xEAC0C6E7DD23B45Eint);
    lemma_chain_lower(0x2962FBD4DB6FAFint, 4, 0xF5257D1524874450int, 790, 64, 0xEAC0C6E7DD251F45int);
    assert(0xEAC0C6E7DD23B45Eint * 0xEAC0C6E7DD23B45Eint <= 0xD744FCCAD69C775Fint * 0x10000000000000000int);
    assert(0xD744FCCAD69F10EFint * 0x10000000000000000int <= 0xEAC0C6E7DD251F45int * 0xEAC0C6E7DD251F45int);
    lemma_chain_upper(0x2962FBD4DB6FADint, 5, 0xEAC0C6E7DD23B45Eint, 1644, 64, 0xD744FCCAD69C775Fint);
    lemma_chain_lower(0x2962FBD4DB6FAFint, 5, 0xEAC0C6E7DD251F45int, 1644, 64, 0xD744FCCAD69F10EFint);
    assert(0xD744FCCAD69C775Fint * 0xD744FCCAD69C775Fint <= 0xB504F333F9DCCADDint * 0x10000000000000000int);
    assert(0xB504F333F9E12A33int * 0x10000000000000000int <= 0xD744FCCAD69F10EFint * 0xD744FCCAD69F10EFint);
    lemma_chain_upper(0x2962FBD4DB6FADint, 6, 0xD744FCCAD69C775Fint, 3352, 64, 0xB504F333F9DCCADDint);
    lemma_chain_lower(0x2962FBD4DB6FAFint, 6, 0xD744FCCAD69F10EFint, 3352, 64, 0xB504F333F9E12A33int);
    assert(0xB504F333F9DCCADDint * 0xB504F333F9DCCADDint <= 0xFFFFFFFFFFFB7954int * 0x8000000000000000int);
    assert(0x1000000000007D748int * 0x8000000000000000int <= 0xB504F333F9E12A33int * 0xB504F333F9E12A33int);
    lemma_chain_upper(0x2962FBD4DB6FADint, 7, 0xB504F333F9DCCADDint, 6768, 63, 0xFFFFFFFFFFFB7954int);
    lemma_chain_lower(0x2962FBD4DB6FAFint, 7, 0xB504F333F9E12A33int, 6768, 63, 0x1000000000007D748int);
    lemma_chains_round(0x3FE4_B17D_EA6D_B7D7u64, 95, 8, 1, 0x2962FBD4DB6FADint, 0x2962FBD4DB6FAFint, 0xFFFFFFFFFFFB7954int, 0x1000000000007D748int, 13599, 64);
}

/// Boundary 97 of schema 8, checked through its squaring chains.
proof fn rounded_8_97()
    ensures
        rounds_root(0x3FE4_CE41_B817_C114u64, 97, 8),
{
    lemma2_to64();
    lemma2_to64_rest();
    lemma_chain_start(0x299C83702F8227int);
    lemma_chain_start(0x299C83702F8229int);
    assert(0x299C83702F8227int * 0x299C83702F8227int <= 0xD870394C6DB31CCBint * 0x80000000000int);
    assert(0xD870394C6DB33199int * 0x80000000000int <= 0x299C83702F8229int * 0x299C83702F8229int);
    lemma_chain_upper(0x299C83702F8227int, 0, 0x299C83702F8227int, 0, 43, 0xD870394C6DB31CCBint);
    lemma_chain_lower(0x299C83702F8229int, 0, 0x299C83702F8229int, 0, 43, 0xD870394C6DB33199int);
    assert(0xD870394C6DB31CCBint * 0xD870394C6DB31CCBint <= 0xB6FD91E328D15CFBint * 0x10000000000000000int);
    assert(0xB6FD91E328D18028int * 0x10000000000000000int <= 0xD870394C6DB33199int * 0xD870394C6DB33199int);
    lemma_chain_upper(0x299C83702F8227int, 1, 0xD870394C6DB31CCBint, 43, 64, 0xB6FD91E328D15CFBint);
    lemma_chain_lower(0x299C83702F8229int, 1, 0xD870394C6DB33199int, 43, 64, 0xB6FD91E328D18028int);
    assert(0xB6FD91E328D15CFBint * 0xB6FD91E328D15CFBint <= 0x82CD8698AC2B7BD6int * 0x10000000000000000int);
    assert(0x82CD8698AC2BAE1Eint * 0x10000000000000000int <= 0xB6FD91E328D18028int * 0xB6FD91E328D18028int);
    lemma_chain_upper(0x299C83702F8227int, 2, 0xB6FD91E328D15CFBint, 150, 64, 0x82CD8698AC2B7BD6int);
    lemma_chain_lower(0x299C83702F8229int, 2, 0xB6FD91E328D18028int, 150, 64, 0x82CD8698AC2BAE1Eint);
    assert(0x82CD8698AC2B7BD6int * 0x82CD8698AC2B7BD6int <= 0x85AAC367CC482D69int * 0x8000000000000000int);
    assert(0x85AAC367CC48942Bint * 0x8000000000000000int <= 0x82CD8698AC2BAE1Eint * 0x82CD8698AC2BAE1Eint);
    lemma_chain_upper(0x299C83702F8227int, 3, 0x82CD8698AC2B7BD6int, 364, 63, 0x85AAC367CC482D69int);
    lemma_chain_lower(0x299C83702F8229int, 3, 0x82CD8698AC2BAE1Eint, 364, 63, 0x85AAC367CC48942Bint);
    assert(0x85AAC367CC482D69int * 0x85AAC367CC482D69int <= 0x8B95C1E3EA8B34AFint * 0x8000000000000000int);
    assert(0x8B95C1E3EA8C0B4Cint * 0x8000000000000000int <= 0x85AAC367CC48942Bint * 0x85AAC367CC48942Bint);
    lemma_chain_upper(0x299C83702F8227int, 4, 0x85AAC367CC482D69int, 791, 63, 0x8B95C1E3EA8B34AFint);
    lemma_chain_lower(0x299C83702F8229int, 4, 0x85AAC367CC48942Bint, 791, 63, 0x8B95C1E3EA8C0B4Cint);
    assert(0x8B95C1E3EA8B34AFint * 0x8B95C1E3EA8B34AFint <= 0x9837F0518DB747A3int * 0x8000000000000000int);
    assert(0x9837F0518DB91BB5int * 0x8000000000000000int <= 0x8B95C1E3EA8C0B4Cint * 0x8B95C1E3EA8C0B4Cint);
    lemma_chain_upper(0x299C83702F8227int, 5, 0x8B95C1E3EA8B34AFint, 1645, 63, 0x9837F0518DB747A3int);
    lemma_chain_lower(0x299C83702F8229int, 5, 0x8B95C1E3EA8C0B4Cint, 1645, 63, 0x9837F0518DB91BB5int);
    assert(0x9837F0518DB747A3int * 0x9837F0518DB747A3int <= 0xB504F333F9DB1B0Aint * 0x8000000000000000int);
    assert(0xB504F333F9DF744Dint * 0x8000000000000000int <= 0x9837F0518DB91BB5int * 0x9837F0518DB91BB5int);
    lemma_chain_upper(0x299C83702F8227int, 6, 0x9837F0518DB747A3int, 3353, 63, 0xB504F333F9DB1B0Aint);
    lemma_chain_lower(0x299C83702F8229int, 6, 0x9837F0518DB91BB5int, 3353, 63, 0xB504F333F9DF744Dint);
    assert(0xB504F333F9DB1B0Aint * 0xB504F333F9DB1B0Aint <= 0xFFFFFFFFFFF6B3F1int * 0x8000000000000000int);
    assert(0x100000000000300B8int * 0x8000000000000000int <= 0xB504F333F9DF744Dint * 0xB504F333F9DF744Dint);
    lemma_chain_upper(0x299C83702F8227int, 7, 0xB504F333F9DB1B0Aint, 6769, 63, 0xFFFFFFFFFFF6B3F1int);
    lemma_chain_lower(0x299C83702F8229int, 7, 0xB504F333F9DF744Dint, 6769, 63, 0x100000000000300B8int);
    lemma_chains_round(0x3FE4_CE41_B817_C114u64, 97, 8, 1, 0x299C83702F8227int, 0x299C83702F8229int, 0xFFFFFFFFFFF6B3F1int, 0x100000000000300B8int, 13601, 64);
}

/// Boundary 99 of schema 8, checked through its squaring chains.
proof fn rounded_8_99()
    ensures
        rounds_root(0x3FE4_EB2D_81D8_ABFFu64, 99, 8),
{
    lemma2_to64();
    lemma2_to64_rest();
    lemma_chain_start(0x29D65B03B157FDint);
    lemma_chain_start(0x29D65B03B157FFint);
    assert(0x29D65B03B157FDint * 0x29D65B03B157FDint <= 0xDACB946F2AC9C8E6int * 0x80000000000int);
    assert(0xDACB946F2AC9DDD0int * 0x80000000000int <= 0x29D65B03B157FFint * 0x29D65B03B157FFint);
    lemma_chain_upper(0x29D65B03B157FDint, 0, 0x29D65B03B157FDint, 0, 43, 0xDACB946F2AC9C8E6int);
    lemma_chain_lower(0x29D65B03B157FFint, 0, 0x29D65B03B157FFint, 0, 43, 0xDACB946F2AC9DDD0int);
    assert(0xDACB946F2AC9C8E6int * 0xDACB946F2AC9C8E6int <= 0xBAFF5AB2133E3FECint * 0x10000000000000000int);
    assert(0xBAFF5AB2133E63ABint * 0x10000000000000000int <= 0xDACB946F2AC9DDD0int * 0xDACB946F2AC9DDD0int);
    lemma_chain_upper(0x29D65B03B157FDint, 1, 0xDACB946F2AC9C8E6int, 43, 64, 0xBAFF5AB2133E3FECint);
    lemma_chain_lower(0x29D65B03B157FFint, 1, 0xDACB946F2AC9DDD0int, 43, 64, 0xBAFF5AB2133E63ABint);
    assert(0xBAFF5AB2133E3FECint * 0xBAFF5AB2133E3FECint <= 0x88980E8092DA7C4Dint * 0x10000000000000000int);
    assert(0x88980E8092DAB085int * 0x10000000000000000int <= 0xBAFF5AB2133E63ABint * 0xBAFF5AB2133E63ABint);
    lemma_chain_upper(0x29D65B03B157FDint, 2, 0xBAFF5AB2133E3FECint, 150, 64, 0x88980E8092DA7C4Dint);
    lemma_chain_lower(0x29D65B03B157FFint, 2, 0xBAFF5AB2133E63ABint, 150, 64, 0x88980E8092DAB085int);
    assert(0x88980E8092DA7C4Dint * 0x88980E8092DA7C4Dint <= 0x91C3D373AB11B051int * 0x8000000000000000int);
    assert(0x91C3D373AB121FC4int * 0x8000000000000000int <= 0x88980E8092DAB085int * 0x88980E8092DAB085int);
    lemma_chain_upper(0x29D65B03B157FDint, 3, 0x88980E8092DA7C4Dint, 364, 63, 0x91C3D373AB11B051int);
    lemma_chain_lower(0x29D65B03B157FFint, 3, 0x88980E8092DAB085int, 364, 63, 0x91C3D373AB121FC4int);
    assert(0x91C3D373AB11B051int * 0x91C3D373AB11B051int <= 0xA5FED6A9B1510DE2int * 0x8000000000000000int);
    assert(0xA5FED6A9B1520BB6int * 0x8000000000000000int <= 0x91C3D373AB121FC4int * 0x91C3D373AB121FC4int);
    lemma_chain_upper(0x29D65B03B157FDint, 4, 0x91C3D373AB11B051int, 791, 63, 0xA5FED6A9B1510DE2int);
    lemma_chain_lower(0x29D65B03B157FFint, 4, 0x91C3D373AB121FC4int, 791, 63, 0xA5FED6A9B1520BB6int);
    assert(0xA5FED6A9B1510DE2int * 0xA5FED6A9B1510DE2int <= 0xD744FCCAD69CFB58int * 0x8000000000000000int);
    assert(0xD744FCCAD69F8DB1int * 0x8000000000000000int <= 0xA5FED6A9B1520BB6int * 0xA5FED6A9B1520BB6int);
    lemma_chain_upper(0x29D65B03B157FDint, 5, 0xA5FED6A9B1510DE2int, 1645, 63, 0xD744FCCAD69CFB58int);
    lemma_chain_lower(0x29D65B03B157FFint, 5, 0xA5FED6A9B1520BB6int, 1645, 63, 0xD744FCCAD69F8DB1int);
    assert(0xD744FCCAD69CFB58int * 0xD744FCCAD69CFB58int <= 0xB504F333F9DDA8D0int * 0x10000000000000000int);
    assert(0xB504F333F9E1FC04int * 0x10000000000000000int <= 0xD744FCCAD69F8DB1int * 0xD744FCCAD69F8DB1int);
    lemma_chain_upper(0x29D65B03B157FDint, 6, 0xD744FCCAD69CFB58int, 3353, 64, 0xB504F333F9DDA8D0int);
    lemma_chain_lower(0x29D65B03B157FFint, 6, 0xD744FCCAD69F8DB1int, 3353, 64, 0xB504F333F9E1FC04int);
    assert(0xB504F333F9DDA8D0int * 0xB504F333F9DDA8D0int <= 0xFFFFFFFFFFFDED18int * 0x8000000000000000int);
    assert(0x100000000000A28BCint * 0x8000000000000000int <= 0xB504F333F9E1FC04int * 0xB504F333F9E1FC04int);
    lemma_chain_upper(0x29D65B03B157FDint, 7, 0xB504F333F9DDA8D0int, 6770, 63, 0xFFFFFFFFFFFDED18int);
    lemma_chain_lower(0x29D65B03B157FFint, 7, 0xB504F333F9E1FC04int, 6770, 63, 0x100000000000A28BCint);
    lemma_chains_round(0x3FE4_EB2D_81D8_ABFFu64, 99, 8, 1, 0x29D65B03B157FDint, 0x29D65B03B157FFint, 0xFFFFFFFFFFFDED18int, 0x100000000000A28BCint, 13603, 64);
}

/// Boundary 101 of schema 8, checked through its squaring chains.
proof fn rounded_8_101()
    ensures
        rounds_root(0x3FE5_0841_7F45_31EEu64, 101, 8),
{
    lemma2_to64();
    lemma2_to64_rest();
    lemma_chain_start(0x2A1082FE8A63DBint);
    lemma_chain_start(0x2A1082FE8A63DDint);
    assert(0x2A1082FE8A63DBint * 0x2A1082FE8A63DBint <= 0xDD2D818508323F77int * 0x80000000000int);
    assert(0xDD2D81850832547Eint * 0x80000000000int <= 0x2A1082FE8A63DDint * 0x2A1082FE8A63DDint);
    lemma_chain_upper(0x2A1082FE8A63DBint, 0, 0x2A1082FE8A63DBint, 0, 43, 0xDD2D818508323F77int);
    lemma_chain_lower(0x2A1082FE8A63DDint, 0, 0x2A1082FE8A63DDint, 0, 43, 0xDD2D81850832547Eint);
    assert(0xDD2D818508323F77int * 0xDD2D818508323F77int <= 0xBF1799B67A72FAA2int * 0x10000000000000000int);
    assert(0xBF1799B67A731EF7int * 0x10000000000000000int <= 0xDD2D81850832547Eint * 0xDD2D81850832547Eint);
    lemma_chain_upper(0x2A1082FE8A63DBint, 1, 0xDD2D818508323F77int, 43, 64, 0xBF1799B67A72FAA2int);
    lemma_chain_lower(0x2A1082FE8A63DDint, 1, 0xDD2D81850832547Eint, 43, 64, 0xBF1799B67A731EF7int);
    assert(0xBF1799B67A72FAA2int * 0xBF1799B67A72FAA2int <= 0x8EA4398B45CD3317int * 0x10000000000000000int);
    assert(0x8EA4398B45CD6954int * 0x10000000000000000int <= 0xBF1799B67A731EF7int * 0xBF1799B67A731EF7int);
    lemma_chain_upper(0x2A1082FE8A63DBint, 2, 0xBF1799B67A72FAA2int, 150, 64, 0x8EA4398B45CD3317int);
    lemma_chain_lower(0x2A1082FE8A63DDint, 2, 0xBF1799B67A731EF7int, 150, 64, 0x8EA4398B45CD6954int);
    assert(0x8EA4398B45CD3317int * 0x8EA4398B45CD3317int <= 0x9EF5326091A0C8E3int * 0x8000000000000000int);
    assert(0x9EF5326091A141C4int * 0x8000000000000000int <= 0x8EA4398B45CD6954int * 0x8EA4398B45CD6954int);
    lemma_chain_upper(0x2A1082FE8A63DBint, 3, 0x8EA4398B45CD3317int, 364, 63, 0x9EF5326091A0C8E3int);
    lemma_chain_lower(0x2A1082FE8A63DDint, 3, 0x8EA4398B45CD6954int, 364, 63, 0x9EF5326091A141C4int);
    assert(0x9EF5326091A0C8E3int * 0x9EF5326091A0C8E3int <= 0xC5672A1155062613int * 0x8000000000000000int);
    assert(0xC5672A115507524Cint * 0x8000000000000000int <= 0x9EF5326091A141C4int * 0x9EF5326091A141C4int);
    lemma_chain_upper(0x2A1082FE8A63DBint, 4, 0x9EF5326091A0C8E3int, 791, 63, 0xC5672A1155062613int);
    lemma_chain_lower(0x2A1082FE8A63DDint, 4, 0x9EF5326091A141C4int, 791, 63, 0xC5672A115507524Cint);
    assert(0xC5672A1155062613int * 0xC5672A1155062613int <= 0x9837F0518DB7929Fint * 0x10000000000000000int);
    assert(0x9837F0518DB9619Fint * 0x10000000000000000int <= 0xC5672A115507524Cint * 0xC5672A115507524Cint);
    lemma_chain_upper(0x2A1082FE8A63DBint, 5, 0xC5672A1155062613int, 1645, 64, 0x9837F0518DB7929Fint);
    lemma_chain_lower(0x2A1082FE8A63DDint, 5, 0xC5672A115507524Cint, 1645, 64, 0x9837F0518DB9619Fint);
    assert(0x9837F0518DB7929Fint * 0x9837F0518DB7929Fint <= 0xB504F333F9DBCD62int * 0x8000000000000000int);
    assert(0xB504F333F9E01A96int * 0x8000000000000000int <= 0x9837F0518DB9619Fint * 0x9837F0518DB9619Fint);
    lemma_chain_upper(0x2A1082FE8A63DBint, 6, 0x9837F0518DB7929Fint, 3354, 63, 0xB504F333F9DBCD62int);
    lemma_chain_lower(0x2A1082FE8A63DDint, 6, 0x9837F0518DB9619Fint, 3354, 63, 0xB504F333F9E01A96int);
    assert(0xB504F333F9DBCD62int * 0xB504F333F9DBCD62int <= 0xFFFFFFFFFFF8AC60int * 0x8000000000000000int);
    assert(0x1000000000004D70Bint * 0x8000000000000000int <= 0xB504F333F9E01A96int * 0xB504F333F9E01A96int);
    lemma_chain_upper(0x2A1082FE8A63DBint, 7, 0xB504F333F9DBCD62int, 6771, 63, 0xFFFFFFFFFFF8AC60int);
    lemma_chain_lower(0x2A1082FE8A63DDint, 7, 0xB504F333F9E01A96int, 6771, 63, 0x1000000000004D70Bint);
    lemma_chains_round(0x3FE5_0841_7F45_31EEu64, 101, 8, 1, 0x2A1082FE8A63DBint, 0x2A1082FE8A63DDint, 0xFFFFFFFFFFF8AC60int, 0x1000000000004D70Bint, 13605, 64);
}

/// Boundary 103 of schema 8, checked through its squaring chains.
proof fn rounded_8_103()
    ensures
        rounds_root(0x3FE5_257D_E83F_4EEFu64, 103, 8),
{
    lemma2_to64();
    lemma2_to64_rest();
    lemma_chain_start(0x2A4AFBD07E9DDDint);
    lemma_chain_start(0x2A4AFBD07E9DDFint);
    assert(0x2A4AFBD07E9DDDint * 0x2A4AFBD07E9DDDint <= 0xDF9612DEB8F03BEBint * 0x80000000000int);
    assert(0xDF9612DEB8F0510Fint * 0x80000000000int <= 0x2A4AFBD07E9DDFint * 0x2A4AFBD07E9DDFint);
    lemma_chain_upper(0x2A4AFBD07E9DDDint, 0, 0x2A4AFBD07E9DDDint, 0, 43, 0xDF9612DEB8F03BEBint);
    lemma_chain_lower(0x2A4AFBD07E9DDFint, 0, 0x2A4AFBD07E9DDFint, 0, 43, 0xDF9612DEB8F0510Fint);
    assert(0xDF9612DEB8F03BEBint * 0xDF9612DEB8F03BEBint <= 0xC346CCDA249755B1int * 0x10000000000000000int);
    assert(0xC346CCDA24977A9Eint * 0x10000000000000000int <= 0xDF9612DEB8F0510Fint * 0xDF9612DEB8F0510Fint);
    lemma_chain_upper(0x2A4AFBD07E9DDDint, 1, 0xDF9612DEB8F03BEBint, 43, 64, 0xC346CCDA249755B1int);
    lemma_chain_lower(0x2A4AFBD07E9DDFint, 1, 0xDF9612DEB8F0510Fint, 43, 64, 0xC346CCDA24977A9Eint);
    assert(0xC346CCDA249755B1int * 0xC346CCDA249755B1int <= 0x94F4EFA8FEF6F383int * 0x10000000000000000int);
    assert(0x94F4EFA8FEF72BD7int * 0x10000000000000000int <= 0xC346CCDA24977A9Eint * 0xC346CCDA24977A9Eint);
    lemma_chain_upper(0x2A4AFBD07E9DDDint, 2, 0xC346CCDA249755B1int, 150, 64, 0x94F4EFA8FEF6F383int);
    lemma_chain_lower(0x2A4AFBD07E9DDFint, 2, 0xC346CCDA24977A9Eint, 150, 64, 0x94F4EFA8FEF72BD7int);
    assert(0x94F4EFA8FEF6F383int * 0x94F4EFA8FEF6F383int <= 0xAD583EEA42A117E1int * 0x8000000000000000int);
    assert(0xAD583EEA42A19AFAint * 0x8000000000000000int <= 0x94F4EFA8FEF72BD7int * 0x94F4EFA8FEF72BD7int);
    lemma_chain_upper(0x2A4AFBD07E9DDDint, 3, 0x94F4EFA8FEF6F383int, 364, 63, 0xAD583EEA42A117E1int);
    lemma_chain_lower(0x2A4AFBD07E9DDFint, 3, 0x94F4EFA8FEF72BD7int, 364, 63, 0xAD583EEA42A19AFAint);
    assert(0xAD583EEA42A117E1int * 0xAD583EEA42A117E1int <= 0xEAC0C6E7DD23AF55int * 0x8000000000000000int);
    assert(0xEAC0C6E7DD251269int * 0x8000000000000000int <= 0xAD583EEA42A19AFAint * 0xAD583EEA42A19AFAint);
    lemma_chain_upper(0x2A4AFBD07E9DDDint, 4, 0xAD583EEA42A117E1int, 791, 63, 0xEAC0C6E7DD23AF55int);
    lemma_chain_lower(0x2A4AFBD07E9DDFint, 4, 0xAD583EEA42A19AFAint, 791, 63, 0xEAC0C6E7DD251269int);
    assert(0xEAC0C6E7DD23AF55int * 0xEAC0C6E7DD23AF55int <= 0xD744FCCAD69C6E23int * 0x10000000000000000int);
    assert(0xD744FCCAD69EF959int * 0x10000000000000000int <= 0xEAC0C6E7DD251269int * 0xEAC0C6E7DD251269int);
    lemma_chain_upper(0x2A4AFBD07E9DDDint, 5, 0xEAC0C6E7DD23AF55int, 1645, 64, 0xD744FCCAD69C6E23int);
    lemma_chain_lower(0x2A4AFBD07E9DDFint, 5, 0xEAC0C6E7DD251269int, 1645, 64, 0xD744FCCAD69EF959int);
    assert(0xD744FCCAD69C6E23int * 0xD744FCCAD69C6E23int <= 0xB504F333F9DCBB55int * 0x10000000000000000int);
    assert(0xB504F333F9E10288int * 0x10000000000000000int <= 0xD744FCCAD69EF959int * 0xD744FCCAD69EF959int);
    lemma_chain_upper(0x2A4AFBD07E9DDDint, 6, 0xD744FCCAD69C6E23int, 3354, 64, 0xB504F333F9DCBB55int);
    lemma_chain_lower(0x2A4AFBD07E9DDFint, 6, 0xD744FCCAD69EF959int, 3354, 64, 0xB504F333F9E10288int);
    assert(0xB504F333F9DCBB55int * 0xB504F333F9DCBB55int <= 0xFFFFFFFFFFFB4D66int * 0x8000000000000000int);
    assert(0x10000000000076716int * 0x8000000000000000int <= 0xB504F333F9E10288int * 0xB504F333F9E10288int);
    lemma_chain_upper(0x2A4AFBD07E9DDDint, 7, 0xB504F333F9DCBB55int, 6772, 63, 0xFFFFFFFFFFFB4D66int);
    lemma_chain_lower(0x2A4AFBD07E9DDFint, 7, 0xB504F333F9E10288int, 6772, 63, 0x10000000000076716int);
    lemma_chains_round(0x3FE5_257D_E83F_4EEFu64, 103, 8, 1, 0x2A4AFBD07E9DDDint, 0x2A4AFBD07E9DDFint, 0xFFFFFFFFFFFB4D66int, 0x10000000000076716int, 13607, 64);
}

/// Boundary 105 of schema 8, checked through its squaring chains.
proof fn rounded_8_105()
    ensures
        rounds_root(0x3FE5_42E2_F4F6_AD27u64, 105, 8),
{
    lemma2_to64();
    lemma2_to64_rest();
    lemma_chain_start(0x2A85C5E9ED5A4Dint);
    lemma_chain_start(0x2A85C5E9ED5A4Fint);
    assert(0x2A85C5E9ED5A4Dint * 0x2A85C5E9ED5A4Dint <= 0xE2055AFFFE83C4DDint * 0x80000000000int);
    assert(0xE2055AFFFE83DA1Fint * 0x80000000000int <= 0x2A85C5E9ED5A4Fint * 0x2A85C5E9ED5A4Fint);
    lemma_chain_upper(0x2A85C5E9ED5A4Dint, 0, 0x2A85C5E9ED5A4Dint, 0, 43, 0xE2055AFFFE83C4DDint);
    lemma_chain_lower(0x2A85C5E9ED5A4Fint, 0, 0x2A85C5E9ED5A4Fint, 0, 43, 0xE2055AFFFE83DA1Fint);
    assert(0xE2055AFFFE83C4DDint * 0xE2055AFFFE83C4DDint <= 0xC78D74C8ABB997AEint * 0x10000000000000000int);
    assert(0xC78D74C8ABB9BD36int * 0x10000000000000000int <= 0xE2055AFFFE83DA1Fint * 0xE2055AFFFE83DA1Fint);
    lemma_chain_upper(0x2A85C5E9ED5A4Dint, 1, 0xE2055AFFFE83C4DDint, 43, 64, 0xC78D74C8ABB997AEint);
    lemma_chain_lower(0x2A85C5E9ED5A4Fint, 1, 0xE2055AFFFE83DA1Fint, 43, 64, 0xC78D74C8ABB9BD36int);
    assert(0xC78D74C8ABB997AEint * 0xC78D74C8ABB997AEint <= 0x9B8D39B9D54E2D2Fint * 0x10000000000000000int);
    assert(0x9B8D39B9D54E67B1int * 0x10000000000000000int <= 0xC78D74C8ABB9BD36int * 0xC78D74C8ABB9BD36int);
    lemma_chain_upper(0x2A85C5E9ED5A4Dint, 2, 0xC78D74C8ABB997AEint, 150, 64, 0x9B8D39B9D54E2D2Fint);
    lemma_chain_lower(0x2A85C5E9ED5A4Fint, 2, 0xC78D74C8ABB9BD36int, 150, 64, 0x9B8D39B9D54E67B1int);
    assert(0x9B8D39B9D54E2D2Fint * 0x9B8D39B9D54E2D2Fint <= 0xBD08A39F580BD56Fint * 0x8000000000000000int);
    assert(0xBD08A39F580C63A2int * 0x8000000000000000int <= 0x9B8D39B9D54E67B1int * 0x9B8D39B9D54E67B1int);
    lemma_chain_upper(0x2A85C5E9ED5A4Dint, 3, 0x9B8D39B9D54E2D2Fint, 364, 63, 0xBD08A39F580BD56Fint);
    lemma_chain_lower(0x2A85C5E9ED5A4Fint, 3, 0x9B8D39B9D54E67B1int, 364, 63, 0xBD08A39F580C63A2int);
    assert(0xBD08A39F580BD56Fint * 0xBD08A39F580BD56Fint <= 0x8B95C1E3EA8B4731int * 0x10000000000000000int);
    assert(0x8B95C1E3EA8C1931int * 0x10000000000000000int <= 0xBD08A39F580C63A2int * 0xBD08A39F580C63A2int);
    lemma_chain_upper(0x2A85C5E9ED5A4Dint, 4, 0xBD08A39F580BD56Fint, 791, 64, 0x8B95C1E3EA8B4731int);
    lemma_chain_lower(0x2A85C5E9ED5A4Fint, 4, 0xBD08A39F580C63A2int, 791, 64, 0x8B95C1E3EA8C1931int);
    assert(0x8B95C1E3EA8B4731int * 0x8B95C1E3EA8B4731int <= 0x9837F0518DB77000int * 0x8000000000000000int);
    assert(0x9837F0518DB93A03int * 0x8000000000000000int <= 0x8B95C1E3EA8C1931int * 0x8B95C1E3EA8C1931int);
    lemma_chain_upper(0x2A85C5E9ED5A4Dint, 5, 0x8B95C1E3EA8B4731int, 1646, 63, 0x9837F0518DB77000int);
    lemma_chain_lower(0x2A85C5E9ED5A4Fint, 5, 0x8B95C1E3EA8C1931int, 1646, 63, 0x9837F0518DB93A03int);
    assert(0x9837F0518DB77000int * 0x9837F0518DB77000int <= 0xB504F333F9DB7B0Bint * 0x8000000000000000int);
    assert(0xB504F333F9DFBC61int * 0x8000000000000000int <= 0x9837F0518DB93A03int * 0x9837F0518DB93A03int);
    lemma_chain_upper(0x2A85C5E9ED5A4Dint, 6, 0x9837F0518DB77000int, 3355, 63, 0xB504F333F9DB7B0Bint);
    lemma_chain_lower(0x2A85C5E9ED5A4Fint, 6, 0x9837F0518DB93A03int, 3355, 63, 0xB504F333F9DFBC61int);
    assert(0xB504F333F9DB7B0Bint * 0xB504F333F9DB7B0Bint <= 0xFFFFFFFFFFF7C37Cint * 0x8000000000000000int);
    assert(0x1000000000003CC96int * 0x8000000000000000int <= 0xB504F333F9DFBC61int * 0xB504F333F9DFBC61int);
    lemma_chain_upper(0x2A85C5E9ED5A4Dint, 7, 0xB504F333F9DB7B0Bint, 6773, 63, 0xFFFFFFFFFFF7C37Cint);
    lemma_chain_lower(0x2A85C5E9ED5A4Fint, 7, 0xB504F333F9DFBC61int, 6773, 63, 0x1000000000003CC96int);
    lemma_chains_round(0x3FE5_42E2_F4F6_AD27u64, 105, 8, 1, 0x2A85C5E9ED5A4Dint, 0x2A85C5E9ED5A4Fint, 0xFFFFFFFFFFF7C37Cint, 0x1000000000003CC96int, 13609, 64);
}

/// Boundary 107 of schema 8, checked through its squaring chains.
proof fn rounded_8_107()
    ensures
        rounds_root(0x3FE5_6070_DDE9_10D2u64, 107, 8),
{
    lemma2_to64();
    lemma2_to64_rest();
    lemma_chain_start(0x2AC0E1BBD221A3int);
    lemma_chain_start(0x2AC0E1BBD221A5int);
    assert(0x2AC0E1BBD221A3int * 0x2AC0E1BBD221A3int <= 0xE47B6CA0373DA38Aint * 0x80000000000int);
    assert(0xE47B6CA0373DB8E9int * 0x80000000000int <= 0x2AC0E1BBD221A5int * 0x2AC0E1BBD221A5int);
    lemma_chain_upper(0x2AC0E1BBD221A3int, 0, 0x2AC0E1BBD221A3int, 0, 43, 0xE47B6CA0373DA38Aint);
    lemma_chain_lower(0x2AC0E1BBD221A5int, 0, 0x2AC0E1BBD221A5int, 0, 43, 0xE47B6CA0373DB8E9int);
    assert(0xE47B6CA0373DA38Aint * 0xE47B6CA0373DA38Aint <= 0xCBEC14FEF272736Bint * 0x10000000000000000int);
    assert(0xCBEC14FEF272998Fint * 0x10000000000000000int <= 0xE47B6CA0373DB8E9int * 0xE47B6CA0373DB8E9int);
    lemma_chain_upper(0x2AC0E1BBD221A3int, 1, 0xE47B6CA0373DA38Aint, 43, 64, 0xCBEC14FEF272736Bint);
    lemma_chain_lower(0x2AC0E1BBD221A5int, 1, 0xE47B6CA0373DB8E9int, 43, 64, 0xCBEC14FEF272998Fint);
    assert(0xCBEC14FEF272736Bint * 0xCBEC14FEF272736Bint <= 0xA27043030C4959D9int * 0x10000000000000000int);
    assert(0xA27043030C49969Bint * 0x10000000000000000int <= 0xCBEC14FEF272998Fint * 0xCBEC14FEF272998Fint);
    lemma_chain_upper(0x2AC0E1BBD221A3int, 2, 0xCBEC14FEF272736Bint, 150, 64, 0xA27043030C4959D9int);
    lemma_chain_lower(0x2AC0E1BBD221A5int, 2, 0xCBEC14FEF272998Fint, 150, 64, 0xA27043030C49969Bint);
    assert(0xA27043030C4959D9int * 0xA27043030C4959D9int <= 0xCE248C151F845CBAint * 0x8000000000000000int);
    assert(0xCE248C151F84F6EFint * 0x8000000000000000int <= 0xA27043030C49969Bint * 0xA27043030C49969Bint);
    lemma_chain_upper(0x2AC0E1BBD221A3int, 3, 0xA27043030C4959D9int, 364, 63, 0xCE248C151F845CBAint);
    lemma_chain_lower(0x2AC0E1BBD221A5int, 3, 0xA27043030C49969Bint, 364, 63, 0xCE248C151F84F6EFint);
    assert(0xCE248C151F845CBAint * 0xCE248C151F845CBAint <= 0xA5FED6A9B150FEADint * 0x10000000000000000int);
    assert(0xA5FED6A9B151F705int * 0x10000000000000000int <= 0xCE248C151F84F6EFint * 0xCE248C151F84F6EFint);
    lemma_chain_upper(0x2AC0E1BBD221A3int, 4, 0xCE248C151F845CBAint, 791, 64, 0xA5FED6A9B150FEADint);
    lemma_chain_lower(0x2AC0E1BBD221A5int, 4, 0xCE248C151F84F6EFint, 791, 64, 0xA5FED6A9B151F705int);
    assert(0xA5FED6A9B150FEADint * 0xA5FED6A9B150FEADint <= 0xD744FCCAD69CD3E7int * 0x8000000000000000int);
    assert(0xD744FCCAD69F5806int * 0x8000000000000000int <= 0xA5FED6A9B151F705int * 0xA5FED6A9B151F705int);
    lemma_chain_upper(0x2AC0E1BBD221A3int, 5, 0xA5FED6A9B150FEADint, 1646, 63, 0xD744FCCAD69CD3E7int);
    lemma_chain_lower(0x2AC0E1BBD221A5int, 5, 0xA5FED6A9B151F705int, 1646, 63, 0xD744FCCAD69F5806int);
    assert(0xD744FCCAD69CD3E7int * 0xD744FCCAD69CD3E7int <= 0xB504F333F9DD667Bint * 0x10000000000000000int);
    assert(0xB504F333F9E1A1C1int * 0x10000000000000000int <= 0xD744FCCAD69F5806int * 0xD744FCCAD69F5806int);
    lemma_chain_upper(0x2AC0E1BBD221A3int, 6, 0xD744FCCAD69CD3E7int, 3355, 64, 0xB504F333F9DD667Bint);
    lemma_chain_lower(0x2AC0E1BBD221A5int, 6, 0xD744FCCAD69F5806int, 3355, 64, 0xB504F333F9E1A1C1int);
    assert(0xB504F333F9DD667Bint * 0xB504F333F9DD667Bint <= 0xFFFFFFFFFFFD317Aint * 0x8000000000000000int);
    assert(0x1000000000009296Fint * 0x8000000000000000int <= 0xB504F333F9E1A1C1int * 0xB504F333F9E1A1C1int);
    lemma_chain_upper(0x2AC0E1BBD221A3int, 7, 0xB504F333F9DD667Bint, 6774, 63, 0xFFFFFFFFFFFD317Aint);
    lemma_chain_lower(0x2AC0E1BBD221A5int, 7, 0xB504F333F9E1A1C1int, 6774, 63, 0x1000000000009296Fint);
    lemma_chains_round(0x3FE5_6070_DDE9_10D2u64, 107, 8, 1, 0x2AC0E1BBD221A3int, 0x2AC0E1BBD221A5int, 0xFFFFFFFFFFFD317Aint, 0x1000000000009296Fint, 13611, 64);
}

/// Boundary 109 of schema 8, checked through its squaring chains.
proof fn rounded_8_109()
    ensures
        rounds_root(0x3FE5_7E27_DBE2_C4CFu64, 109, 8),
{
    lemma2_to64();
    lemma2_to64_rest();
    lemma_chain_start(0x2AFC4FB7C5899Dint);
    lemma_chain_start(0x2AFC4FB7C5899Fint);
    assert(0x2AFC4FB7C5899Dint * 0x2AFC4FB7C5899Dint <= 0xE6F85AAAEE1FC902int * 0x80000000000int);
    assert(0xE6F85AAAEE1FDE7Fint * 0x80000000000int <= 0x2AFC4FB7C5899Fint * 0x2AFC4FB7C5899Fint);
    lemma_chain_upper(0x2AFC4FB7C5899Dint, 0, 0x2AFC4FB7C5899Dint, 0, 43, 0xE6F85AAAEE1FC902int);
    lemma_chain_lower(0x2AFC4FB7C5899Fint, 0, 0x2AFC4FB7C5899Fint, 0, 43, 0xE6F85AAAEE1FDE7Fint);
    assert(0xE6F85AAAEE1FC902int * 0xE6F85AAAEE1FC902int <= 0xD06333DAEF2B1C55int * 0x10000000000000000int);
    assert(0xD06333DAEF2B431Aint * 0x10000000000000000int <= 0xE6F85AAAEE1FDE7Fint * 0xE6F85AAAEE1FDE7Fint);
    lemma_chain_upper(0x2AFC4FB7C5899Dint, 1, 0xE6F85AAAEE1FC902int, 43, 64, 0xD06333DAEF2B1C55int);
    lemma_chain_lower(0x2AFC4FB7C5899Fint, 1, 0xE6F85AAAEE1FDE7Fint, 43, 64, 0xD06333DAEF2B431Aint);
    assert(0xD06333DAEF2B1C55int * 0xD06333DAEF2B1C55int <= 0xA9A15AB4EA7BFFEAint * 0x10000000000000000int);
    assert(0xA9A15AB4EA7C3F07int * 0x10000000000000000int <= 0xD06333DAEF2B431Aint * 0xD06333DAEF2B431Aint);
    lemma_chain_upper(0x2AFC4FB7C5899Dint, 2, 0xD06333DAEF2B1C55int, 150, 64, 0xA9A15AB4EA7BFFEAint);
    lemma_chain_lower(0x2AFC4FB7C5899Fint, 2, 0xD06333DAEF2B431Aint, 150, 64, 0xA9A15AB4EA7C3F07int);
    assert(0xA9A15AB4EA7BFFEAint * 0xA9A15AB4EA7BFFEAint <= 0xE0CCDEEC2A94B92Aint * 0x8000000000000000int);
    assert(0xE0CCDEEC2A956070int * 0x8000000000000000int <= 0xA9A15AB4EA7C3F07int * 0xA9A15AB4EA7C3F07int);
    lemma_chain_upper(0x2AFC4FB7C5899Dint, 3, 0xA9A15AB4EA7BFFEAint, 364, 63, 0xE0CCDEEC2A94B92Aint);
    lemma_chain_lower(0x2AFC4FB7C5899Fint, 3, 0xA9A15AB4EA7C3F07int, 364, 63, 0xE0CCDEEC2A956070int);
    assert(0xE0CCDEEC2A94B92Aint * 0xE0CCDEEC2A94B92Aint <= 0xC5672A11550694CAint * 0x10000000000000000int);
    assert(0xC5672A115507BA8Fint * 0x10000000000000000int <= 0xE0CCDEEC2A956070int * 0xE0CCDEEC2A956070int);
    lemma_chain_upper(0x2AFC4FB7C5899Dint, 4, 0xE0CCDEEC2A94B92Aint, 791, 64, 0xC5672A11550694CAint);
    lemma_chain_lower(0x2AFC4FB7C5899Fint, 4, 0xE0CCDEEC2A956070int, 791, 64, 0xC5672A115507BA8Fint);
    assert(0xC5672A11550694CAint * 0xC5672A11550694CAint <= 0x9837F0518DB83D5Eint * 0x10000000000000000int);
    assert(0x9837F0518DBA026Bint * 0x10000000000000000int <= 0xC5672A115507BA8Fint * 0xC5672A115507BA8Fint);
    lemma_chain_upper(0x2AFC4FB7C5899Dint, 5, 0xC5672A11550694CAint, 1646, 64, 0x9837F0518DB83D5Eint);
    lemma_chain_lower(0x2AFC4FB7C5899Fint, 5, 0xC5672A115507BA8Fint, 1646, 64, 0x9837F0518DBA026Bint);
    assert(0x9837F0518DB83D5Eint * 0x9837F0518DB83D5Eint <= 0xB504F333F9DD637Dint * 0x8000000000000000int);
    assert(0xB504F333F9E19907int * 0x8000000000000000int <= 0x9837F0518DBA026Bint * 0x9837F0518DBA026Bint);
    lemma_chain_upper(0x2AFC4FB7C5899Dint, 6, 0x9837F0518DB83D5Eint, 3356, 63, 0xB504F333F9DD637Dint);
    lemma_chain_lower(0x2AFC4FB7C5899Fint, 6, 0x9837F0518DBA026Bint, 3356, 63, 0xB504F333F9E19907int);
    assert(0xB504F333F9DD637Dint * 0xB504F333F9DD637Dint <= 0xFFFFFFFFFFFD2904int * 0x8000000000000000int);
    assert(0x100000000000910C0int * 0x8000000000000000int <= 0xB504F333F9E19907int * 0xB504F333F9E19907int);
    lemma_chain_upper(0x2AFC4FB7C5899Dint, 7, 0xB504F333F9DD637Dint, 6775, 63, 0xFFFFFFFFFFFD2904int);
    lemma_chain_lower(0x2AFC4FB7C5899Fint, 7, 0xB504F333F9E19907int, 6775, 63, 0x100000000000910C0int);
    lemma_chains_round(0x3FE5_7E27_DBE2_C4CFu64, 109, 8, 1, 0x2AFC4FB7C5899Dint, 0x2AFC4FB7C5899Fint, 0xFFFFFFFFFFFD2904int, 0x100000000000910C0int, 13613, 64);
}

/// Boundary 111 of schema 8, checked through its squaring chains.
proof fn rounded_8_111()
    ensures
        rounds_root(0x3FE5_9C08_27FF_07CCu64, 111, 8),
{
    lemma2_to64();
    lemma2_to64_rest();
    lemma_chain_start(0x2B38104FFE0F97int);
    lemma_chain_start(0x2B38104FFE0F99int);
    assert(0x2B38104FFE0F97int * 0x2B38104FFE0F97int <= 0xE97C38406C4F899Aint * 0x80000000000int);
    assert(0xE97C38406C4F9F35int * 0x80000000000int <= 0x2B38104FFE0F99int * 0x2B38104FFE0F99int);
    lemma_chain_upper(0x2B38104FFE0F97int, 0, 0x2B38104FFE0F97int, 0, 43, 0xE97C38406C4F899Aint);
    lemma_chain_lower(0x2B38104FFE0F99int, 0, 0x2B38104FFE0F99int, 0, 43, 0xE97C38406C4F9F35int);
    assert(0xE97C38406C4F899Aint * 0xE97C38406C4F899Aint <= 0xD4F35AABCFEDF521int * 0x10000000000000000int);
    assert(0xD4F35AABCFEE1C89int * 0x10000000000000000int <= 0xE97C38406C4F9F35int * 0xE97C38406C4F9F35int);
    lemma_chain_upper(0x2B38104FFE0F97int, 1, 0xE97C38406C4F899Aint, 43, 64, 0xD4F35AABCFEDF521int);
    lemma_chain_lower(0x2B38104FFE0F99int, 1, 0xE97C38406C4F9F35int, 43, 64, 0xD4F35AABCFEE1C89int);
    assert(0xD4F35AABCFEDF521int * 0xD4F35AABCFEDF521int <= 0xB123F581D2AC1D41int * 0x10000000000000000int);
    assert(0xB123F581D2AC5ECFint * 0x10000000000000000int <= 0xD4F35AABCFEE1C89int * 0xD4F35AABCFEE1C89int);
    lemma_chain_upper(0x2B38104FFE0F97int, 2, 0xD4F35AABCFEDF521int, 150, 64, 0xB123F581D2AC1D41int);
    lemma_chain_lower(0x2B38104FFE0F99int, 2, 0xD4F35AABCFEE1C89int, 150, 64, 0xB123F581D2AC5ECFint);
    assert(0xB123F581D2AC1D41int * 0xB123F581D2AC1D41int <= 0xF5257D152486B52Fint * 0x8000000000000000int);
    assert(0xF5257D1524876AA0int * 0x8000000000000000int <= 0xB123F581D2AC5ECFint * 0xB123F581D2AC5ECFint);
    lemma_chain_upper(0x2B38104FFE0F97int, 3, 0xB123F581D2AC1D41int, 364, 63, 0xF5257D152486B52Fint);
    lemma_chain_lower(0x2B38104FFE0F99int, 3, 0xB123F581D2AC5ECFint, 364, 63, 0xF5257D1524876AA0int);
    assert(0xF5257D152486B52Fint * 0xF5257D152486B52Fint <= 0xEAC0C6E7DD240D27int * 0x10000000000000000int);
    assert(0xEAC0C6E7DD2568A6int * 0x10000000000000000int <= 0xF5257D1524876AA0int * 0xF5257D1524876AA0int);
    lemma_chain_upper(0x2B38104FFE0F97int, 4, 0xF5257D152486B52Fint, 791, 64, 0xEAC0C6E7DD240D27int);
    lemma_chain_lower(0x2B38104FFE0F99int, 4, 0xF5257D1524876AA0int, 791, 64, 0xEAC0C6E7DD2568A6int);
    assert(0xEAC0C6E7DD240D27int * 0xEAC0C6E7DD240D27int <= 0xD744FCCAD69D1A34int * 0x10000000000000000int);
    assert(0xD744FCCAD69F9783int * 0x10000000000000000int <= 0xEAC0C6E7DD2568A6int * 0xEAC0C6E7DD2568A6int);
    lemma_chain_upper(0x2B38104FFE0F97int, 5, 0xEAC0C6E7DD240D27int, 1646, 64, 0xD744FCCAD69D1A34int);
    lemma_chain_lower(0x2B38104FFE0F99int, 5, 0xEAC0C6E7DD2568A6int, 1646, 64, 0xD744FCCAD69F9783int);
    assert(0xD744FCCAD69D1A34int * 0xD744FCCAD69D1A34int <= 0xB504F333F9DDDCB6int * 0x10000000000000000int);
    assert(0xB504F333F9E20C88int * 0x10000000000000000int <= 0xD744FCCAD69F9783int * 0xD744FCCAD69F9783int);
    lemma_chain_upper(0x2B38104FFE0F97int, 6, 0xD744FCCAD69D1A34int, 3356, 64, 0xB504F333F9DDDCB6int);
    lemma_chain_lower(0x2B38104FFE0F99int, 6, 0xD744FCCAD69F9783int, 3356, 64, 0xB504F333F9E20C88int);
    assert(0xB504F333F9DDDCB6int * 0xB504F333F9DDDCB6int <= 0xFFFFFFFFFFFE7FE2int * 0x8000000000000000int);
    assert(0x100000000000A5772int * 0x8000000000000000int <= 0xB504F333F9E20C88int * 0xB504F333F9E20C88int);
    lemma_chain_upper(0x2B38104FFE0F97int, 7, 0xB504F333F9DDDCB6int, 6776, 63, 0xFFFFFFFFFFFE7FE2int);
    lemma_chain_lower(0x2B38104FFE0F99int, 7, 0xB504F333F9E20C88int, 6776, 63, 0x100000000000A5772int);
    lemma_chains_round(0x3FE5_9C08_27FF_07CCu64, 111, 8, 1, 0x2B38104FFE0F97int, 0x2B38104FFE0F99int, 0xFFFFFFFFFFFE7FE2int, 0x100000000000A5772int, 13615, 64);
}

/// Boundary 113 of schema 8, checked through its squaring chains.
proof fn rounded_8_113()
    ensures
        rounds_root(0x3FE5_BA11_FBA8_7A03u64, 113, 8),
{
    lemma2_to64();
    lemma2_to64_rest();
    lemma_chain_start(0x2B7423F750F405int);
    lemma_chain_start(0x2B7423F750F407int);
    assert(0x2B7423F750F405int * 0x2B7423F750F405int <= 0xEC0718B64C1CBC53int * 0x80000000000int);
    assert(0xEC0718B64C1CD20Cint * 0x80000000000int <= 0x2B7423F750F407int * 0x2B7423F750F407int);
    lemma_chain_upper(0x2B7423F750F405int, 0, 0x2B7423F750F405int, 0, 43, 0xEC0718B64C1CBC53int);
    lemma_chain_lower(0x2B7423F750F407int, 0, 0x2B7423F750F407int, 0, 43, 0xEC0718B64C1CD20Cint);
    assert(0xEC0718B64C1CBC53int * 0xEC0718B64C1CBC53int <= 0xD99D15C278AFD4E2int * 0x10000000000000000int);
    assert(0xD99D15C278AFFCEFint * 0x10000000000000000int <= 0xEC0718B64C1CD20Cint * 0xEC0718B64C1CD20Cint);
    lemma_chain_upper(0x2B7423F750F405int, 1, 0xEC0718B64C1CBC53int, 43, 64, 0xD99D15C278AFD4E2int);
    lemma_chain_lower(0x2B7423F750F407int, 1, 0xEC0718B64C1CD20Cint, 43, 64, 0xD99D15C278AFFCEFint);
    assert(0xD99D15C278AFD4E2int * 0xD99D15C278AFD4E2int <= 0xB8FBAF4762FB9A1Bint * 0x10000000000000000int);
    assert(0xB8FBAF4762FBDE31int * 0x10000000000000000int <= 0xD99D15C278AFFCEFint * 0xD99D15C278AFFCEFint);
    lemma_chain_upper(0x2B7423F750F405int, 2, 0xD99D15C278AFD4E2int, 150, 64, 0xB8FBAF4762FB9A1Bint);
    lemma_chain_lower(0x2B7423F750F407int, 2, 0xD99D15C278AFFCEFint, 150, 64, 0xB8FBAF4762FBDE31int);
    assert(0xB8FBAF4762FB9A1Bint * 0xB8FBAF4762FB9A1Bint <= 0x85AAC367CC487424int * 0x10000000000000000int);
    assert(0x85AAC367CC48D688int * 0x10000000000000000int <= 0xB8FBAF4762FBDE31int * 0xB8FBAF4762FBDE31int);
    lemma_chain_upper(0x2B7423F750F405int, 3, 0xB8FBAF4762FB9A1Bint, 364, 64, 0x85AAC367CC487424int);
    lemma_chain_lower(0x2B7423F750F407int, 3, 0xB8FBAF4762FBDE31int, 364, 64, 0x85AAC367CC48D688int);
    assert(0x85AAC367CC487424int * 0x85AAC367CC487424int <= 0x8B95C1E3EA8BC869int * 0x8000000000000000int);
    assert(0x8B95C1E3EA8C95E6int * 0x8000000000000000int <= 0x85AAC367CC48D688int * 0x85AAC367CC48D688int);
    lemma_chain_upper(0x2B7423F750F405int, 4, 0x85AAC367CC487424int, 792, 63, 0x8B95C1E3EA8BC869int);
    lemma_chain_lower(0x2B7423F750F407int, 4, 0x85AAC367CC48D688int, 792, 63, 0x8B95C1E3EA8C95E6int);
    assert(0x8B95C1E3EA8BC869int * 0x8B95C1E3EA8BC869int <= 0x9837F0518DB889D4int * 0x8000000000000000int);
    assert(0x9837F0518DBA4A00int * 0x8000000000000000int <= 0x8B95C1E3EA8C95E6int * 0x8B95C1E3EA8C95E6int);
    lemma_chain_upper(0x2B7423F750F405int, 5, 0x8B95C1E3EA8BC869int, 1647, 63, 0x9837F0518DB889D4int);
    lemma_chain_lower(0x2B7423F750F407int, 5, 0x8B95C1E3EA8C95E6int, 1647, 63, 0x9837F0518DBA4A00int);
    assert(0x9837F0518DB889D4int * 0x9837F0518DB889D4int <= 0xB504F333F9DE1958int * 0x8000000000000000int);
    assert(0xB504F333F9E24348int * 0x8000000000000000int <= 0x9837F0518DBA4A00int * 0x9837F0518DBA4A00int);
    lemma_chain_upper(0x2B7423F750F405int, 6, 0x9837F0518DB889D4int, 3357, 63, 0xB504F333F9DE1958int);
    lemma_chain_lower(0x2B7423F750F407int, 6, 0x9837F0518DBA4A00int, 3357, 63, 0xB504F333F9E24348int);
    assert(0xB504F333F9DE1958int * 0xB504F333F9DE1958int <= 0xFFFFFFFFFFFF2B61int * 0x8000000000000000int);
    assert(0x100000000000AF24Dint * 0x8000000000000000int <= 0xB504F333F9E24348int * 0xB504F333F9E24348int);
    lemma_chain_upper(0x2B7423F750F405int, 7, 0xB504F333F9DE1958int, 6777, 63, 0xFFFFFFFFFFFF2B61int);
    lemma_chain_lower(0x2B7423F750F407int, 7, 0xB504F333F9E24348int, 6777, 63, 0x100000000000AF24Dint);
    lemma_chains_round(0x3FE5_BA11_FBA8_7A03u64, 113, 8, 1, 0x2B7423F750F405int, 0x2B7423F750F407int, 0xFFFFFFFFFFFF2B61int, 0x100000000000AF24Dint, 13617, 64);
}

/// Boundary 115 of schema 8, checked through its squaring chains.
proof fn rounded_8_115()
    ensures
        rounds_root(0x3FE5_D845_9099_8B93u64, 115, 8),
{
    lemma2_to64();
    lemma2_to64_rest();
    lemma_chain_start(0x2BB08B21331725int);
    lemma_chain_start(0x2BB08B21331727int);
    assert(0x2BB08B21331725int * 0x2BB08B21331725int <= 0xEE990F980DA30148int * 0x80000000000int);
    assert(0xEE990F980DA3171Fint * 0x80000000000int <= 0x2BB08B21331727int * 0x2BB08B21331727int);
    lemma_chain_upper(0x2BB08B21331725int, 0, 0x2BB08B21331725int, 0, 43, 0xEE990F980DA30148int);
    lemma_chain_lower(0x2BB08B21331727int, 0, 0x2BB08B21331727int, 0, 43, 0xEE990F980DA3171Fint);
    assert(0xEE990F980DA30148int * 0xEE990F980DA30148int <= 0xDE60F4825E0E8F23int * 0x10000000000000000int);
    assert(0xDE60F4825E0EB7D8int * 0x10000000000000000int <= 0xEE990F980DA3171Fint * 0xEE990F980DA3171Fint);
    lemma_chain_upper(0x2BB08B21331725int, 1, 0xEE990F980DA30148int, 43, 64, 0xDE60F4825E0E8F23int);
    lemma_chain_lower(0x2BB08B21331727int, 1, 0xEE990F980DA3171Fint, 43, 64, 0xDE60F4825E0EB7D8int);
    assert(0xDE60F4825E0E8F23int * 0xDE60F4825E0E8F23int <= 0xC12C4CCA667090DCint * 0x10000000000000000int);
    assert(0xC12C4CCA6670D794int * 0x10000000000000000int <= 0xDE60F4825E0EB7D8int * 0xDE60F4825E0EB7D8int);
    lemma_chain_upper(0x2BB08B21331725int, 2, 0xDE60F4825E0E8F23int, 150, 64, 0xC12C4CCA667090DCint);
    lemma_chain_lower(0x2BB08B21331727int, 2, 0xDE60F4825E0EB7D8int, 150, 64, 0xC12C4CCA6670D794int);
    assert(0xC12C4CCA667090DCint * 0xC12C4CCA667090DCint <= 0x91C3D373AB11BDF7int * 0x10000000000000000int);
    assert(0x91C3D373AB1228B0int * 0x10000000000000000int <= 0xC12C4CCA6670D794int * 0xC12C4CCA6670D794int);
    lemma_chain_upper(0x2BB08B21331725int, 3, 0xC12C4CCA667090DCint, 364, 64, 0x91C3D373AB11BDF7int);
    lemma_chain_lower(0x2BB08B21331727int, 3, 0xC12C4CCA6670D794int, 364, 64, 0x91C3D373AB1228B0int);
    assert(0x91C3D373AB11BDF7int * 0x91C3D373AB11BDF7int <= 0xA5FED6A9B1512CF8int * 0x8000000000000000int);
    assert(0xA5FED6A9B1522008int * 0x8000000000000000int <= 0x91C3D373AB1228B0int * 0x91C3D373AB1228B0int);
    lemma_chain_upper(0x2BB08B21331725int, 4, 0x91C3D373AB11BDF7int, 792, 63, 0xA5FED6A9B1512CF8int);
    lemma_chain_lower(0x2BB08B21331727int, 4, 0x91C3D373AB1228B0int, 792, 63, 0xA5FED6A9B1522008int);
    assert(0xA5FED6A9B1512CF8int * 0xA5FED6A9B1512CF8int <= 0xD744FCCAD69D4BF9int * 0x8000000000000000int);
    assert(0xD744FCCAD69FC265int * 0x8000000000000000int <= 0xA5FED6A9B1522008int * 0xA5FED6A9B1522008int);
    lemma_chain_upper(0x2BB08B21331725int, 5, 0xA5FED6A9B1512CF8int, 1647, 63, 0xD744FCCAD69D4BF9int);
    lemma_chain_lower(0x2BB08B21331727int, 5, 0xA5FED6A9B1522008int, 1647, 63, 0xD744FCCAD69FC265int);
    assert(0xD744FCCAD69D4BF9int * 0xD744FCCAD69D4BF9int <= 0xB504F333F9DE306Aint * 0x10000000000000000int);
    assert(0xB504F333F9E254A6int * 0x10000000000000000int <= 0xD744FCCAD69FC265int * 0xD744FCCAD69FC265int);
    lemma_chain_upper(0x2BB08B21331725int, 6, 0xD744FCCAD69D4BF9int, 3357, 64, 0xB504F333F9DE306Aint);
    lemma_chain_lower(0x2BB08B21331727int, 6, 0xD744FCCAD69FC265int, 3357, 64, 0xB504F333F9E254A6int);
    assert(0xB504F333F9DE306Aint * 0xB504F333F9DE306Aint <= 0xFFFFFFFFFFFF6CA2int * 0x8000000000000000int);
    assert(0x100000000000B236Dint * 0x8000000000000000int <= 0xB504F333F9E254A6int * 0xB504F333F9E254A6int);
    lemma_chain_upper(0x2BB08B21331725int, 7, 0xB504F333F9DE306Aint, 6778, 63, 0xFFFFFFFFFFFF6CA2int);
    lemma_chain_lower(0x2BB08B21331727int, 7, 0xB504F333F9E254A6int, 6778, 63, 0x100000000000B236Dint);
    lemma_chains_round(0x3FE5_D845_9099_8B93u64, 115, 8, 1, 0x2BB08B21331725int, 0x2BB08B21331727int, 0xFFFFFFFFFFFF6CA2int, 0x100000000000B236Dint, 13619, 64);
}

/// Boundary 117 of schema 8, checked through its squaring chains.
proof fn rounded_8_117()
    ensures
        rounds_root(0x3FE5_F6A3_20DC_EB71u64, 117, 8),
{
    lemma2_to64();
    lemma2_to64_rest();
    lemma_chain_start(0x2BED4641B9D6E1int);
    lemma_chain_start(0x2BED4641B9D6E3int);
    assert(0x2BED4641B9D6E1int * 0x2BED4641B9D6E1int <= 0xF13230A7AD093E81int * 0x80000000000int);
    assert(0xF13230A7AD095477int * 0x80000000000int <= 0x2BED4641B9D6E3int * 0x2BED4641B9D6E3int);
    lemma_chain_upper(0x2BED4641B9D6E1int, 0, 0x2BED4641B9D6E1int, 0, 43, 0xF13230A7AD093E81int);
    lemma_chain_lower(0x2BED4641B9D6E3int, 0, 0x2BED4641B9D6E3int, 0, 43, 0xF13230A7AD095477int);
    assert(0xF13230A7AD093E81int * 0xF13230A7AD093E81int <= 0xE33F8972BE8A4E02int * 0x10000000000000000int);
    assert(0xE33F8972BE8A7763int * 0x10000000000000000int <= 0xF13230A7AD095477int * 0xF13230A7AD095477int);
    lemma_chain_upper(0x2BED4641B9D6E1int, 1, 0xF13230A7AD093E81int, 43, 64, 0xE33F8972BE8A4E02int);
    lemma_chain_lower(0x2BED4641B9D6E3int, 1, 0xF13230A7AD095477int, 43, 64, 0xE33F8972BE8A7763int);
    assert(0xE33F8972BE8A4E02int * 0xE33F8972BE8A4E02int <= 0xC9B9BD866E2F11C9int * 0x10000000000000000int);
    assert(0xC9B9BD866E2F5B3Eint * 0x10000000000000000int <= 0xE33F8972BE8A7763int * 0xE33F8972BE8A7763int);
    lemma_chain_upper(0x2BED4641B9D6E1int, 2, 0xE33F8972BE8A4E02int, 150, 64, 0xC9B9BD866E2F11C9int);
    lemma_chain_lower(0x2BED4641B9D6E3int, 2, 0xE33F8972BE8A7763int, 150, 64, 0xC9B9BD866E2F5B3Eint);
    assert(0xC9B9BD866E2F11C9int * 0xC9B9BD866E2F11C9int <= 0x9EF5326091A0EF3Fint * 0x10000000000000000int);
    assert(0x9EF5326091A16302int * 0x10000000000000000int <= 0xC9B9BD866E2F5B3Eint * 0xC9B9BD866E2F5B3Eint);
    lemma_chain_upper(0x2BED4641B9D6E1int, 3, 0xC9B9BD866E2F11C9int, 364, 64, 0x9EF5326091A0EF3Fint);
    lemma_chain_lower(0x2BED4641B9D6E3int, 3, 0xC9B9BD866E2F5B3Eint, 364, 64, 0x9EF5326091A16302int);
    assert(0x9EF5326091A0EF3Fint * 0x9EF5326091A0EF3Fint <= 0xC5672A1155068559int * 0x8000000000000000int);
    assert(0xC5672A115507A4DDint * 0x8000000000000000int <= 0x9EF5326091A16302int * 0x9EF5326091A16302int);
    lemma_chain_upper(0x2BED4641B9D6E1int, 4, 0x9EF5326091A0EF3Fint, 792, 63, 0xC5672A1155068559int);
    lemma_chain_lower(0x2BED4641B9D6E3int, 4, 0x9EF5326091A16302int, 792, 63, 0xC5672A115507A4DDint);
    assert(0xC5672A1155068559int * 0xC5672A1155068559int <= 0x9837F0518DB8258Dint * 0x10000000000000000int);
    assert(0x9837F0518DB9E0F5int * 0x10000000000000000int <= 0xC5672A115507A4DDint * 0xC5672A115507A4DDint);
    lemma_chain_upper(0x2BED4641B9D6E1int, 5, 0xC5672A1155068559int, 1647, 64, 0x9837F0518DB8258Dint);
    lemma_chain_lower(0x2BED4641B9D6E3int, 5, 0xC5672A115507A4DDint, 1647, 64, 0x9837F0518DB9E0F5int);
    assert(0x9837F0518DB8258Dint * 0x9837F0518DB8258Dint <= 0xB504F333F9DD2AD8int * 0x8000000000000000int);
    assert(0xB504F333F9E14972int * 0x8000000000000000int <= 0x9837F0518DB9E0F5int * 0x9837F0518DB9E0F5int);
    lemma_chain_upper(0x2BED4641B9D6E1int, 6, 0x9837F0518DB8258Dint, 3358, 63, 0xB504F333F9DD2AD8int);
    lemma_chain_lower(0x2BED4641B9D6E3int, 6, 0x9837F0518DB9E0F5int, 3358, 63, 0xB504F333F9E14972int);
    assert(0xB504F333F9DD2AD8int * 0xB504F333F9DD2AD8int <= 0xFFFFFFFFFFFC88CDint * 0x8000000000000000int);
    assert(0x10000000000082FA9int * 0x8000000000000000int <= 0xB504F333F9E14972int * 0xB504F333F9E14972int);
    lemma_chain_upper(0x2BED4641B9D6E1int, 7, 0xB504F333F9DD2AD8int, 6779, 63, 0xFFFFFFFFFFFC88CDint);
    lemma_chain_lower(0x2BED4641B9D6E3int, 7, 0xB504F333F9E14972int, 6779, 63, 0x10000000000082FA9int);
    lemma_chains_round(0x3FE5_F6A3_20DC_EB71u64, 117, 8, 1, 0x2BED4641B9D6E1int, 0x2BED4641B9D6E3int, 0xFFFFFFFFFFFC88CDint, 0x10000000000082FA9int, 13621, 64);
}

/// Boundary 119 of schema 8, checked through its squaring chains.
proof fn rounded_8_119()
    ensures
        rounds_root(0x3FE6_152A_E6CD_F6F4u64, 119, 8),
{
    lemma2_to64();
    lemma2_to64_rest();
    lemma_chain_start(0x2C2A55CD9BEDE7int);
    lemma_chain_start(0x2C2A55CD9BEDE9int);
    assert(0x2C2A55CD9BEDE7int * 0x2C2A55CD9BEDE7int <= 0xF3D28FDE3A6404DDint * 0x80000000000int);
    assert(0xF3D28FDE3A641AF1int * 0x80000000000int <= 0x2C2A55CD9BEDE9int * 0x2C2A55CD9BEDE9int);
    lemma_chain_upper(0x2C2A55CD9BEDE7int, 0, 0x2C2A55CD9BEDE7int, 0, 43, 0xF3D28FDE3A6404DDint);
    lemma_chain_lower(0x2C2A55CD9BEDE9int, 0, 0x2C2A55CD9BEDE9int, 0, 43, 0xF3D28FDE3A641AF1int);
    assert(0xF3D28FDE3A6404DDint * 0xF3D28FDE3A6404DDint <= 0xE8396A503C4BB379int * 0x10000000000000000int);
    assert(0xE8396A503C4BDD86int * 0x10000000000000000int <= 0xF3D28FDE3A641AF1int * 0xF3D28FDE3A641AF1int);
    lemma_chain_upper(0x2C2A55CD9BEDE7int, 1, 0xF3D28FDE3A6404DDint, 43, 64, 0xE8396A503C4BB379int);
    lemma_chain_lower(0x2C2A55CD9BEDE9int, 1, 0xF3D28FDE3A641AF1int, 43, 64, 0xE8396A503C4BDD86int);
    assert(0xE8396A503C4BB379int * 0xE8396A503C4BB379int <= 0xD2A81D91F12A9A16int * 0x10000000000000000int);
    assert(0xD2A81D91F12AE660int * 0x10000000000000000int <= 0xE8396A503C4BDD86int * 0xE8396A503C4BDD86int);
    lemma_chain_upper(0x2C2A55CD9BEDE7int, 2, 0xE8396A503C4BB379int, 150, 64, 0xD2A81D91F12A9A16int);
    lemma_chain_lower(0x2C2A55CD9BEDE9int, 2, 0xE8396A503C4BDD86int, 150, 64, 0xD2A81D91F12AE660int);
    assert(0xD2A81D91F12A9A16int * 0xD2A81D91F12A9A16int <= 0xAD583EEA42A0D08Eint * 0x10000000000000000int);
    assert(0xAD583EEA42A14E1Aint * 0x10000000000000000int <= 0xD2A81D91F12AE660int * 0xD2A81D91F12AE660int);
    lemma_chain_upper(0x2C2A55CD9BEDE7int, 3, 0xD2A81D91F12A9A16int, 364, 64, 0xAD583EEA42A0D08Eint);
    lemma_chain_lower(0x2C2A55CD9BEDE9int, 3, 0xD2A81D91F12AE660int, 364, 64, 0xAD583EEA42A14E1Aint);
    assert(0xAD583EEA42A0D08Eint * 0xAD583EEA42A0D08Eint <= 0xEAC0C6E7DD22EE27int * 0x8000000000000000int);
    assert(0xEAC0C6E7DD244231int * 0x8000000000000000int <= 0xAD583EEA42A14E1Aint * 0xAD583EEA42A14E1Aint);
    lemma_chain_upper(0x2C2A55CD9BEDE7int, 4, 0xAD583EEA42A0D08Eint, 792, 63, 0xEAC0C6E7DD22EE27int);
    lemma_chain_lower(0x2C2A55CD9BEDE9int, 4, 0xAD583EEA42A14E1Aint, 792, 63, 0xEAC0C6E7DD244231int);
    assert(0xEAC0C6E7DD22EE27int * 0xEAC0C6E7DD22EE27int <= 0xD744FCCAD69B0BD8int * 0x10000000000000000int);
    assert(0xD744FCCAD69D7B79int * 0x10000000000000000int <= 0xEAC0C6E7DD244231int * 0xEAC0C6E7DD244231int);
    lemma_chain_upper(0x2C2A55CD9BEDE7int, 5, 0xEAC0C6E7DD22EE27int, 1647, 64, 0xD744FCCAD69B0BD8int);
    lemma_chain_lower(0x2C2A55CD9BEDE9int, 5, 0xEAC0C6E7DD244231int, 1647, 64, 0xD744FCCAD69D7B79int);
    assert(0xD744FCCAD69B0BD8int * 0xD744FCCAD69B0BD8int <= 0xB504F333F9DA677Cint * 0x10000000000000000int);
    assert(0xB504F333F9DE804Cint * 0x10000000000000000int <= 0xD744FCCAD69D7B79int * 0xD744FCCAD69D7B79int);
    lemma_chain_upper(0x2C2A55CD9BEDE7int, 6, 0xD744FCCAD69B0BD8int, 3358, 64, 0xB504F333F9DA677Cint);
    lemma_chain_lower(0x2C2A55CD9BEDE9int, 6, 0xD744FCCAD69D7B79int, 3358, 64, 0xB504F333F9DE804Cint);
    assert(0xB504F333F9DA677Cint * 0xB504F333F9DA677Cint <= 0xFFFFFFFFFFF4B816int * 0x8000000000000000int);
    assert(0x10000000000004E92int * 0x8000000000000000int <= 0xB504F333F9DE804Cint * 0xB504F333F9DE804Cint);
    lemma_chain_upper(0x2C2A55CD9BEDE7int, 7, 0xB504F333F9DA677Cint, 6780, 63, 0xFFFFFFFFFFF4B816int);
    lemma_chain_lower(0x2C2A55CD9BEDE9int, 7, 0xB504F333F9DE804Cint, 6780, 63, 0x10000000000004E92int);
    lemma_chains_round(0x3FE6_152A_E6CD_F6F4u64, 119, 8, 1, 0x2C2A55CD9BEDE7int, 0x2C2A55CD9BEDE9int, 0xFFFFFFFFFFF4B816int, 0x10000000000004E92int, 13623, 64);
}

/// Boundary 121 of schema 8, checked through its squaring chains.
proof fn rounded_8_121()
    ensures
        rounds_root(0x3FE6_33DD_1D19_29FDu64, 121, 8),
{
    lemma2_to64();
    lemma2_to64_rest();
    lemma_chain_start(0x2C67BA3A3253F9int);
    lemma_chain_start(0x2C67BA3A3253FBint);
    assert(0x2C67BA3A3253F9int * 0x2C67BA3A3253F9int <= 0xF67A416C733F70E8int * 0x80000000000int);
    assert(0xF67A416C733F871Bint * 0x80000000000int <= 0x2C67BA3A3253FBint * 0x2C67BA3A3253FBint);
    lemma_chain_upper(0x2C67BA3A3253F9int, 0, 0x2C67BA3A3253F9int, 0, 43, 0xF67A416C733F70E8int);
    lemma_chain_lower(0x2C67BA3A3253FBint, 0, 0x2C67BA3A3253FBint, 0, 43, 0xF67A416C733F871Bint);
    assert(0xF67A416C733F70E8int * 0xF67A416C733F70E8int <= 0xED4F301ED99405EEint * 0x10000000000000000int);
    assert(0xED4F301ED99430ACint * 0x10000000000000000int <= 0xF67A416C733F871Bint * 0xF67A416C733F871Bint);
    lemma_chain_upper(0x2C67BA3A3253F9int, 1, 0xF67A416C733F70E8int, 43, 64, 0xED4F301ED99405EEint);
    lemma_chain_lower(0x2C67BA3A3253FBint, 1, 0xF67A416C733F871Bint, 43, 64, 0xED4F301ED99430ACint);
    assert(0xED4F301ED99405EEint * 0xED4F301ED99405EEint <= 0xDBFBB797DAF1F1A6int * 0x10000000000000000int);
    assert(0xDBFBB797DAF240E3int * 0x10000000000000000int <= 0xED4F301ED99430ACint * 0xED4F301ED99430ACint);
    lemma_chain_upper(0x2C67BA3A3253F9int, 2, 0xED4F301ED99405EEint, 150, 64, 0xDBFBB797DAF1F1A6int);
    lemma_chain_lower(0x2C67BA3A3253FBint, 2, 0xED4F301ED99430ACint, 150, 64, 0xDBFBB797DAF240E3int);
    assert(0xDBFBB797DAF1F1A6int * 0xDBFBB797DAF1F1A6int <= 0xBD08A39F580BBEFCint * 0x10000000000000000int);
    assert(0xBD08A39F580C4729int * 0x10000000000000000int <= 0xDBFBB797DAF240E3int * 0xDBFBB797DAF240E3int);
    lemma_chain_upper(0x2C67BA3A3253F9int, 3, 0xDBFBB797DAF1F1A6int, 364, 64, 0xBD08A39F580BBEFCint);
    lemma_chain_lower(0x2C67BA3A3253FBint, 3, 0xDBFBB797DAF240E3int, 364, 64, 0xBD08A39F580C4729int);
    assert(0xBD08A39F580BBEFCint * 0xBD08A39F580BBEFCint <= 0x8B95C1E3EA8B260Aint * 0x10000000000000000int);
    assert(0x8B95C1E3EA8BEF25int * 0x10000000000000000int <= 0xBD08A39F580C4729int * 0xBD08A39F580C4729int);
    lemma_chain_upper(0x2C67BA3A3253F9int, 4, 0xBD08A39F580BBEFCint, 792, 64, 0x8B95C1E3EA8B260Aint);
    lemma_chain_lower(0x2C67BA3A3253FBint, 4, 0xBD08A39F580C4729int, 792, 64, 0x8B95C1E3EA8BEF25int);
    assert(0x8B95C1E3EA8B260Aint * 0x8B95C1E3EA8B260Aint <= 0x9837F0518DB727B2int * 0x8000000000000000int);
    assert(0x9837F0518DB8DE4Eint * 0x8000000000000000int <= 0x8B95C1E3EA8BEF25int * 0x8B95C1E3EA8BEF25int);
    lemma_chain_upper(0x2C67BA3A3253F9int, 5, 0x8B95C1E3EA8B260Aint, 1648, 63, 0x9837F0518DB727B2int);
    lemma_chain_lower(0x2C67BA3A3253FBint, 5, 0x8B95C1E3EA8BEF25int, 1648, 63, 0x9837F0518DB8DE4Eint);
    assert(0x9837F0518DB727B2int * 0x9837F0518DB727B2int <= 0xB504F333F9DACF12int * 0x8000000000000000int);
    assert(0xB504F333F9DEE243int * 0x8000000000000000int <= 0x9837F0518DB8DE4Eint * 0x9837F0518DB8DE4Eint);
    lemma_chain_upper(0x2C67BA3A3253F9int, 6, 0x9837F0518DB727B2int, 3359, 63, 0xB504F333F9DACF12int);
    lemma_chain_lower(0x2C67BA3A3253FBint, 6, 0x9837F0518DB8DE4Eint, 3359, 63, 0xB504F333F9DEE243int);
    assert(0xB504F333F9DACF12int * 0xB504F333F9DACF12int <= 0xFFFFFFFFFFF5DD12int * 0x8000000000000000int);
    assert(0x100000000000163A8int * 0x8000000000000000int <= 0xB504F333F9DEE243int * 0xB504F333F9DEE243int);
    lemma_chain_upper(0x2C67BA3A3253F9int, 7, 0xB504F333F9DACF12int, 6781, 63, 0xFFFFFFFFFFF5DD12int);
    lemma_chain_lower(0x2C67BA3A3253FBint, 7, 0xB504F333F9DEE243int, 6781, 63, 0x100000000000163A8int);
    lemma_chains_round(0x3FE6_33DD_1D19_29FDu64, 121, 8, 1, 0x2C67BA3A3253F9int, 0x2C67BA3A3253FBint, 0xFFFFFFFFFFF5DD12int, 0x100000000000163A8int, 13625, 64);
}

/// Boundary 123 of schema 8, checked through its squaring chains.
proof fn rounded_8_123()
    ensures
        rounds_root(0x3FE6_52B9_FEBC_8FB7u64, 123, 8),
{
    lemma2_to64();
    lemma2_to64_rest();
    lemma_chain_start(0x2CA573FD791F6Dint);
    lemma_chain_start(0x2CA573FD791F6Fint);
    assert(0x2CA573FD791F6Dint * 0x2CA573FD791F6Dint <= 0xF92959BB5DD4B8ACint * 0x80000000000int);
    assert(0xF92959BB5DD4CEFEint * 0x80000000000int <= 0x2CA573FD791F6Fint * 0x2CA573FD791F6Fint);
    lemma_chain_upper(0x2CA573FD791F6Dint, 0, 0x2CA573FD791F6Dint, 0, 43, 0xF92959BB5DD4B8ACint);
    lemma_chain_lower(0x2CA573FD791F6Fint, 0, 0x2CA573FD791F6Fint, 0, 43, 0xF92959BB5DD4CEFEint);
    assert(0xF92959BB5DD4B8ACint * 0xF92959BB5DD4B8ACint <= 0xF281773C59FFADC2int * 0x10000000000000000int);
    assert(0xF281773C59FFD934int * 0x10000000000000000int <= 0xF92959BB5DD4CEFEint * 0xF92959BB5DD4CEFEint);
    lemma_chain_upper(0x2CA573FD791F6Dint, 1, 0xF92959BB5DD4B8ACint, 43, 64, 0xF281773C59FFADC2int);
    lemma_chain_lower(0x2CA573FD791F6Fint, 1, 0xF92959BB5DD4CEFEint, 43, 64, 0xF281773C59FFD934int);
    assert(0xF281773C59FFADC2int * 0xF281773C59FFADC2int <= 0xE5B906E77C834216int * 0x10000000000000000int);
    assert(0xE5B906E77C839465int * 0x10000000000000000int <= 0xF281773C59FFD934int * 0xF281773C59FFD934int);
    lemma_chain_upper(0x2CA573FD791F6Dint, 2, 0xF281773C59FFADC2int, 150, 64, 0xE5B906E77C834216int);
    lemma_chain_lower(0x2CA573FD791F6Fint, 2, 0xF281773C59FFD934int, 150, 64, 0xE5B906E77C839465int);
    assert(0xE5B906E77C834216int * 0xE5B906E77C834216int <= 0xCE248C151F847519int * 0x10000000000000000int);
    assert(0xCE248C151F8508D1int * 0x10000000000000000int <= 0xE5B906E77C839465int * 0xE5B906E77C839465int);
    lemma_chain_upper(0x2CA573FD791F6Dint, 3, 0xE5B906E77C834216int, 364, 64, 0xCE248C151F847519int);
    lemma_chain_lower(0x2CA573FD791F6Fint, 3, 0xE5B906E77C839465int, 364, 64, 0xCE248C151F8508D1int);
    assert(0xCE248C151F847519int * 0xCE248C151F847519int <= 0xA5FED6A9B15125EDint * 0x10000000000000000int);
    assert(0xA5FED6A9B15213D2int * 0x10000000000000000int <= 0xCE248C151F8508D1int * 0xCE248C151F8508D1int);
    lemma_chain_upper(0x2CA573FD791F6Dint, 4, 0xCE248C151F847519int, 792, 64, 0xA5FED6A9B15125EDint);
    lemma_chain_lower(0x2CA573FD791F6Fint, 4, 0xCE248C151F8508D1int, 792, 64, 0xA5FED6A9B15213D2int);
    assert(0xA5FED6A9B15125EDint * 0xA5FED6A9B15125EDint <= 0xD744FCCAD69D39B5int * 0x8000000000000000int);
    assert(0xD744FCCAD69FA2B9int * 0x8000000000000000int <= 0xA5FED6A9B15213D2int * 0xA5FED6A9B15213D2int);
    lemma_chain_upper(0x2CA573FD791F6Dint, 5, 0xA5FED6A9B15125EDint, 1648, 63, 0xD744FCCAD69D39B5int);
    lemma_chain_lower(0x2CA573FD791F6Fint, 5, 0xA5FED6A9B15213D2int, 1648, 63, 0xD744FCCAD69FA2B9int);
    assert(0xD744FCCAD69D39B5int * 0xD744FCCAD69D39B5int <= 0xB504F333F9DE11B2int * 0x10000000000000000int);
    assert(0xB504F333F9E21F62int * 0x10000000000000000int <= 0xD744FCCAD69FA2B9int * 0xD744FCCAD69FA2B9int);
    lemma_chain_upper(0x2CA573FD791F6Dint, 6, 0xD744FCCAD69D39B5int, 3359, 64, 0xB504F333F9DE11B2int);
    lemma_chain_lower(0x2CA573FD791F6Fint, 6, 0xD744FCCAD69FA2B9int, 3359, 64, 0xB504F333F9E21F62int);
    assert(0xB504F333F9DE11B2int * 0xB504F333F9DE11B2int <= 0xFFFFFFFFFFFF15BFint * 0x8000000000000000int);
    assert(0x100000000000A8CC4int * 0x8000000000000000int <= 0xB504F333F9E21F62int * 0xB504F333F9E21F62int);
    lemma_chain_upper(0x2CA573FD791F6Dint, 7, 0xB504F333F9DE11B2int, 6782, 63, 0xFFFFFFFFFFFF15BFint);
    lemma_chain_lower(0x2CA573FD791F6Fint, 7, 0xB504F333F9E21F62int, 6782, 63, 0x100000000000A8CC4int);
    lemma_chains_round(0x3FE6_52B9_FEBC_8FB7u64, 123, 8, 1, 0x2CA573FD791F6Dint, 0x2CA573FD791F6Fint, 0xFFFFFFFFFFFF15BFint, 0x100000000000A8CC4int, 13627, 64);
}

/// Boundary 125 of schema 8, checked through its squaring chains.
proof fn rounded_8_125()
    ensures
        rounds_root(0x3FE6_71C1_C708_33F6u64, 125, 8),
{
    lemma2_to64();
    lemma2_to64_rest();
    lemma_chain_start(0x2CE3838E1067EBint);
    lemma_chain_start(0x2CE3838E1067EDint);
    assert(0x2CE3838E1067EBint * 0x2CE3838E1067EBint <= 0xFBDFED6CE5F0966Bint * 0x80000000000int);
    assert(0xFBDFED6CE5F0ACDBint * 0x80000000000int <= 0x2CE3838E1067EDint * 0x2CE3838E1067EDint);
    lemma_chain_upper(0x2CE3838E1067EBint, 0, 0x2CE3838E1067EBint, 0, 43, 0xFBDFED6CE5F0966Bint);
    lemma_chain_lower(0x2CE3838E1067EDint, 0, 0x2CE3838E1067EDint, 0, 43, 0xFBDFED6CE5F0ACDBint);
    assert(0xFBDFED6CE5F0966Bint * 0xFBDFED6CE5F0966Bint <= 0xF7D0DF730AD1302Fint * 0x10000000000000000int);
    assert(0xF7D0DF730AD15C55int * 0x10000000000000000int <= 0xFBDFED6CE5F0ACDBint * 0xFBDFED6CE5F0ACDBint);
    lemma_chain_upper(0x2CE3838E1067EBint, 1, 0xFBDFED6CE5F0966Bint, 43, 64, 0xF7D0DF730AD1302Fint);
    lemma_chain_lower(0x2CE3838E1067EDint, 1, 0xFBDFED6CE5F0ACDBint, 43, 64, 0xF7D0DF730AD15C55int);
    assert(0xF7D0DF730AD1302Fint * 0xF7D0DF730AD1302Fint <= 0xEFE4B99BDCDADF75int * 0x10000000000000000int);
    assert(0xEFE4B99BDCDB34EDint * 0x10000000000000000int <= 0xF7D0DF730AD15C55int * 0xF7D0DF730AD15C55int);
    lemma_chain_upper(0x2CE3838E1067EBint, 2, 0xF7D0DF730AD1302Fint, 150, 64, 0xEFE4B99BDCDADF75int);
    lemma_chain_lower(0x2CE3838E1067EDint, 2, 0xF7D0DF730AD15C55int, 150, 64, 0xEFE4B99BDCDB34EDint);
    assert(0xEFE4B99BDCDADF75int * 0xEFE4B99BDCDADF75int <= 0xE0CCDEEC2A94B735int * 0x10000000000000000int);
    assert(0xE0CCDEEC2A955762int * 0x10000000000000000int <= 0xEFE4B99BDCDB34EDint * 0xEFE4B99BDCDB34EDint);
    lemma_chain_upper(0x2CE3838E1067EBint, 3, 0xEFE4B99BDCDADF75int, 364, 64, 0xE0CCDEEC2A94B735int);
    lemma_chain_lower(0x2CE3838E1067EDint, 3, 0xEFE4B99BDCDB34EDint, 364, 64, 0xE0CCDEEC2A955762int);
    assert(0xE0CCDEEC2A94B735int * 0xE0CCDEEC2A94B735int <= 0xC5672A115506915Aint * 0x10000000000000000int);
    assert(0xC5672A115507AAA8int * 0x10000000000000000int <= 0xE0CCDEEC2A955762int * 0xE0CCDEEC2A955762int);
    lemma_chain_upper(0x2CE3838E1067EBint, 4, 0xE0CCDEEC2A94B735int, 792, 64, 0xC5672A115506915Aint);
    lemma_chain_lower(0x2CE3838E1067EDint, 4, 0xE0CCDEEC2A955762int, 792, 64, 0xC5672A115507AAA8int);
    assert(0xC5672A115506915Aint * 0xC5672A115506915Aint <= 0x9837F0518DB83811int * 0x10000000000000000int);
    assert(0x9837F0518DB9E9E4int * 0x10000000000000000int <= 0xC5672A115507AAA8int * 0xC5672A115507AAA8int);
    lemma_chain_upper(0x2CE3838E1067EBint, 5, 0xC5672A115506915Aint, 1648, 64, 0x9837F0518DB83811int);
    lemma_chain_lower(0x2CE3838E1067EDint, 5, 0xC5672A115507AAA8int, 1648, 64, 0x9837F0518DB9E9E4int);
    assert(0x9837F0518DB83811int * 0x9837F0518DB83811int <= 0xB504F333F9DD56E2int * 0x8000000000000000int);
    assert(0xB504F333F9E15EB1int * 0x8000000000000000int <= 0x9837F0518DB9E9E4int * 0x9837F0518DB9E9E4int);
    lemma_chain_upper(0x2CE3838E1067EBint, 6, 0x9837F0518DB83811int, 3360, 63, 0xB504F333F9DD56E2int);
    lemma_chain_lower(0x2CE3838E1067EDint, 6, 0x9837F0518DB9E9E4int, 3360, 63, 0xB504F333F9E15EB1int);
    assert(0xB504F333F9DD56E2int * 0xB504F333F9DD56E2int <= 0xFFFFFFFFFFFD055Dint * 0x8000000000000000int);
    assert(0x10000000000086BC1int * 0x8000000000000000int <= 0xB504F333F9E15EB1int * 0xB504F333F9E15EB1int);
    lemma_chain_upper(0x2CE3838E1067EBint, 7, 0xB504F333F9DD56E2int, 6783, 63, 0xFFFFFFFFFFFD055Dint);
    lemma_chain_lower(0x2CE3838E1067EDint, 7, 0xB504F333F9E15EB1int, 6783, 63, 0x10000000000086BC1int);
    lemma_chains_round(0x3FE6_71C1_C708_33F6u64, 125, 8, 1, 0x2CE3838E1067EBint, 0x2CE3838E1067EDint, 0xFFFFFFFFFFFD055Dint, 0x10000000000086BC1int, 13629, 64);
}

/// Boundary 127 of schema 8, checked through its squaring chains.
proof fn rounded_8_127()
    ensures
        rounds_root(0x3FE6_90F4_B19E_9538u64, 127, 8),
{
    lemma2_to64();
    lemma2_to64_rest();
    lemma_chain_start(0x2D21E9633D2A6Fint);
    lemma_chain_start(0x2D21E9633D2A71int);
    assert(0x2D21E9633D2A6Fint * 0x2D21E9633D2A6Fint <= 0xFE9E115C7B8F78C8int * 0x80000000000int);
    assert(0xFE9E115C7B8F8F58int * 0x80000000000int <= 0x2D21E9633D2A71int * 0x2D21E9633D2A71int);
    lemma_chain_upper(0x2D21E9633D2A6Fint, 0, 0x2D21E9633D2A6Fint, 0, 43, 0xFE9E115C7B8F78C8int);
    lemma_chain_lower(0x2D21E9633D2A71int, 0, 0x2D21E9633D2A71int, 0, 43, 0xFE9E115C7B8F8F58int);
    assert(0xFE9E115C7B8F78C8int * 0xFE9E115C7B8F78C8int <= 0xFD3E0C0CF486A299int * 0x10000000000000000int);
    assert(0xFD3E0C0CF486CF79int * 0x10000000000000000int <= 0xFE9E115C7B8F8F58int * 0xFE9E115C7B8F8F58int);
    lemma_chain_upper(0x2D21E9633D2A6Fint, 1, 0xFE9E115C7B8F78C8int, 43, 64, 0xFD3E0C0CF486A299int);
    lemma_chain_lower(0x2D21E9633D2A71int, 1, 0xFE9E115C7B8F8F58int, 43, 64, 0xFD3E0C0CF486CF79int);
    assert(0xFD3E0C0CF486A299int * 0xFD3E0C0CF486A299int <= 0xFA83B2DB7229C62Eint * 0x10000000000000000int);
    assert(0xFA83B2DB722A1EF6int * 0x10000000000000000int <= 0xFD3E0C0CF486CF79int * 0xFD3E0C0CF486CF79int);
    lemma_chain_upper(0x2D21E9633D2A6Fint, 2, 0xFD3E0C0CF486A299int, 150, 64, 0xFA83B2DB7229C62Eint);
    lemma_chain_lower(0x2D21E9633D2A71int, 2, 0xFD3E0C0CF486CF79int, 150, 64, 0xFA83B2DB722A1EF6int);
    assert(0xFA83B2DB7229C62Eint * 0xFA83B2DB7229C62Eint <= 0xF5257D15248654B2int * 0x10000000000000000int);
    assert(0xF5257D1524870273int * 0x10000000000000000int <= 0xFA83B2DB722A1EF6int * 0xFA83B2DB722A1EF6int);
    lemma_chain_upper(0x2D21E9633D2A6Fint, 3, 0xFA83B2DB7229C62Eint, 364, 64, 0xF5257D15248654B2int);
    lemma_chain_lower(0x2D21E9633D2A71int, 3, 0xFA83B2DB722A1EF6int, 364, 64, 0xF5257D1524870273int);
    assert(0xF5257D15248654B2int * 0xF5257D15248654B2int <= 0xEAC0C6E7DD23545Cint * 0x10000000000000000int);
    assert(0xEAC0C6E7DD24A121int * 0x10000000000000000int <= 0xF5257D1524870273int * 0xF5257D1524870273int);
    lemma_chain_upper(0x2D21E9633D2A6Fint, 4, 0xF5257D15248654B2int, 792, 64, 0xEAC0C6E7DD23545Cint);
    lemma_chain_lower(0x2D21E9633D2A71int, 4, 0xF5257D1524870273int, 792, 64, 0xEAC0C6E7DD24A121int);
    assert(0xEAC0C6E7DD23545Cint * 0xEAC0C6E7DD23545Cint <= 0xD744FCCAD69BC74Bint * 0x10000000000000000int);
    assert(0xD744FCCAD69E2997int * 0x10000000000000000int <= 0xEAC0C6E7DD24A121int * 0xEAC0C6E7DD24A121int);
    lemma_chain_upper(0x2D21E9633D2A6Fint, 5, 0xEAC0C6E7DD23545Cint, 1648, 64, 0xD744FCCAD69BC74Bint);
    lemma_chain_lower(0x2D21E9633D2A71int, 5, 0xEAC0C6E7DD24A121int, 1648, 64, 0xD744FCCAD69E2997int);
    assert(0xD744FCCAD69BC74Bint * 0xD744FCCAD69BC74Bint <= 0xB504F333F9DBA2BCint * 0x10000000000000000int);
    assert(0xB504F333F9DFA520int * 0x10000000000000000int <= 0xD744FCCAD69E2997int * 0xD744FCCAD69E2997int);
    lemma_chain_upper(0x2D21E9633D2A6Fint, 6, 0xD744FCCAD69BC74Bint, 3360, 64, 0xB504F333F9DBA2BCint);
    lemma_chain_lower(0x2D21E9633D2A71int, 6, 0xD744FCCAD69E2997int, 3360, 64, 0xB504F333F9DFA520int);
    assert(0xB504F333F9DBA2BCint * 0xB504F333F9DBA2BCint <= 0xFFFFFFFFFFF833BFint * 0x8000000000000000int);
    assert(0x10000000000038AD0int * 0x8000000000000000int <= 0xB504F333F9DFA520int * 0xB504F333F9DFA520int);
    lemma_chain_upper(0x2D21E9633D2A6Fint, 7, 0xB504F333F9DBA2BCint, 6784, 63, 0xFFFFFFFFFFF833BFint);
    lemma_chain_lower(0x2D21E9633D2A71int, 7, 0xB504F333F9DFA520int, 6784, 63, 0x10000000000038AD0int);
    lemma_chains_round(0x3FE6_90F4_B19E_9538u64, 127, 8, 1, 0x2D21E9633D2A6Fint, 0x2D21E9633D2A71int, 0xFFFFFFFFFFF833BFint, 0x10000000000038AD0int, 13631, 64);
}

/// Boundary 129 of schema 8, checked through its squaring chains.
proof fn rounded_8_129()
    ensures
        rounds_root(0x3FE6_B052_FA75_173Eu64, 129, 8),
{
    lemma2_to64();
    lemma2_to64_rest();
    lemma_chain_start(0x2D60A5F4EA2E7Bint);
    lemma_chain_start(0x2D60A5F4EA2E7Dint);
    assert(0x2D60A5F4EA2E7Bint * 0x2D60A5F4EA2E7Bint <= 0x80B1ED4FD999A497int * 0x100000000000int);
    assert(0x80B1ED4FD999AFEEint * 0x100000000000int <= 0x2D60A5F4EA2E7Dint * 0x2D60A5F4EA2E7Dint);
    lemma_chain_upper(0x2D60A5F4EA2E7Bint, 0, 0x2D60A5F4EA2E7Bint, 0, 44, 0x80B1ED4FD999A497int);
    lemma_chain_lower(0x2D60A5F4EA2E7Dint, 0, 0x2D60A5F4EA2E7Dint, 0, 44, 0x80B1ED4FD999AFEEint);
    assert(0x80B1ED4FD999A497int * 0x80B1ED4FD999A497int <= 0x8164D1F3BC02F9B7int * 0x8000000000000000int);
    assert(0x8164D1F3BC031083int * 0x8000000000000000int <= 0x80B1ED4FD999AFEEint * 0x80B1ED4FD999AFEEint);
    lemma_chain_upper(0x2D60A5F4EA2E7Bint, 1, 0x80B1ED4FD999A497int, 44, 63, 0x8164D1F3BC02F9B7int);
    lemma_chain_lower(0x2D60A5F4EA2E7Dint, 1, 0x80B1ED4FD999AFEEint, 44, 63, 0x8164D1F3BC031083int);
    assert(0x8164D1F3BC02F9B7int * 0x8164D1F3BC02F9B7int <= 0x82CD8698AC2B8612int * 0x8000000000000000int);
    assert(0x82CD8698AC2BB428int * 0x8000000000000000int <= 0x8164D1F3BC031083int * 0x8164D1F3BC031083int);
    lemma_chain_upper(0x2D60A5F4EA2E7Bint, 2, 0x8164D1F3BC02F9B7int, 151, 63, 0x82CD8698AC2B8612int);
    lemma_chain_lower(0x2D60A5F4EA2E7Dint, 2, 0x8164D1F3BC031083int, 151, 63, 0x82CD8698AC2BB428int);
    assert(0x82CD8698AC2B8612int * 0x82CD8698AC2B8612int <= 0x85AAC367CC484253int * 0x8000000000000000int);
    assert(0x85AAC367CC48A083int * 0x8000000000000000int <= 0x82CD8698AC2BB428int * 0x82CD8698AC2BB428int);
    lemma_chain_upper(0x2D60A5F4EA2E7Bint, 3, 0x82CD8698AC2B8612int, 365, 63, 0x85AAC367CC484253int);
    lemma_chain_lower(0x2D60A5F4EA2E7Dint, 3, 0x82CD8698AC2BB428int, 365, 63, 0x85AAC367CC48A083int);
    assert(0x85AAC367CC484253int * 0x85AAC367CC484253int <= 0x8B95C1E3EA8B605Dint * 0x8000000000000000int);
    assert(0x8B95C1E3EA8C2513int * 0x8000000000000000int <= 0x85AAC367CC48A083int * 0x85AAC367CC48A083int);
    lemma_chain_upper(0x2D60A5F4EA2E7Bint, 4, 0x85AAC367CC484253int, 793, 63, 0x8B95C1E3EA8B605Dint);
    lemma_chain_lower(0x2D60A5F4EA2E7Dint, 4, 0x85AAC367CC48A083int, 793, 63, 0x8B95C1E3EA8C2513int);
    assert(0x8B95C1E3EA8B605Dint * 0x8B95C1E3EA8B605Dint <= 0x9837F0518DB7A6E7int * 0x8000000000000000int);
    assert(0x9837F0518DB953EDint * 0x8000000000000000int <= 0x8B95C1E3EA8C2513int * 0x8B95C1E3EA8C2513int);
    lemma_chain_upper(0x2D60A5F4EA2E7Bint, 5, 0x8B95C1E3EA8B605Dint, 1649, 63, 0x9837F0518DB7A6E7int);
    lemma_chain_lower(0x2D60A5F4EA2E7Dint, 5, 0x8B95C1E3EA8C2513int, 1649, 63, 0x9837F0518DB953EDint);
    assert(0x9837F0518DB7A6E7int * 0x9837F0518DB7A6E7int <= 0xB504F333F9DBFD9Fint * 0x8000000000000000int);
    assert(0xB504F333F9DFFA03int * 0x8000000000000000int <= 0x9837F0518DB953EDint * 0x9837F0518DB953EDint);
    lemma_chain_upper(0x2D60A5F4EA2E7Bint, 6, 0x9837F0518DB7A6E7int, 3361, 63, 0xB504F333F9DBFD9Fint);
    lemma_chain_lower(0x2D60A5F4EA2E7Dint, 6, 0x9837F0518DB953EDint, 3361, 63, 0xB504F333F9DFFA03int);
    assert(0xB504F333F9DBFD9Fint * 0xB504F333F9DBFD9Fint <= 0xFFFFFFFFFFF934D0int * 0x8000000000000000int);
    assert(0x10000000000047AE9int * 0x8000000000000000int <= 0xB504F333F9DFFA03int * 0xB504F333F9DFFA03int);
    lemma_chain_upper(0x2D60A5F4EA2E7Bint, 7, 0xB504F333F9DBFD9Fint, 6785, 63, 0xFFFFFFFFFFF934D0int);
    lemma_chain_lower(0x2D60A5F4EA2E7Dint, 7, 0xB504F333F9DFFA03int, 6785, 63, 0x10000000000047AE9int);
    lemma_chains_round(0x3FE6_B052_FA75_173Eu64, 129, 8, 1, 0x2D60A5F4EA2E7Bint, 0x2D60A5F4EA2E7Dint, 0xFFFFFFFFFFF934D0int, 0x10000000000047AE9int, 13633, 64);
}

/// Boundary 131 of schema 8, checked through its squaring chains.
proof fn rounded_8_131()
    ensures
        rounds_root(0x3FE6_CFDC_DDD4_7645u64, 131, 8),
{
    lemma2_to64();
    lemma2_to64_rest();
    lemma_chain_start(0x2D9FB9BBA8EC89int);
    lemma_chain_start(0x2D9FB9BBA8EC8Bint);
    assert(0x2D9FB9BBA8EC89int * 0x2D9FB9BBA8EC89int <= 0x8218AF4373FC1B25int * 0x100000000000int);
    assert(0x8218AF4373FC268Cint * 0x100000000000int <= 0x2D9FB9BBA8EC8Bint * 0x2D9FB9BBA8EC8Bint);
    lemma_chain_upper(0x2D9FB9BBA8EC89int, 0, 0x2D9FB9BBA8EC89int, 0, 44, 0x8218AF4373FC1B25int);
    lemma_chain_lower(0x2D9FB9BBA8EC8Bint, 0, 0x2D9FB9BBA8EC8Bint, 0, 44, 0x8218AF4373FC268Cint);
    assert(0x8218AF4373FC1B25int * 0x8218AF4373FC1B25int <= 0x843A28C3ACDE2A5Fint * 0x8000000000000000int);
    assert(0x843A28C3ACDE418Cint * 0x8000000000000000int <= 0x8218AF4373FC268Cint * 0x8218AF4373FC268Cint);
    lemma_chain_upper(0x2D9FB9BBA8EC89int, 1, 0x8218AF4373FC1B25int, 44, 63, 0x843A28C3ACDE2A5Fint);
    lemma_chain_lower(0x2D9FB9BBA8EC8Bint, 1, 0x8218AF4373FC268Cint, 44, 63, 0x843A28C3ACDE418Cint);
    assert(0x843A28C3ACDE2A5Fint * 0x843A28C3ACDE2A5Fint <= 0x88980E8092DA57E7int * 0x8000000000000000int);
    assert(0x88980E8092DA87C8int * 0x8000000000000000int <= 0x843A28C3ACDE418Cint * 0x843A28C3ACDE418Cint);
    lemma_chain_upper(0x2D9FB9BBA8EC89int, 2, 0x843A28C3ACDE2A5Fint, 151, 63, 0x88980E8092DA57E7int);
    lemma_chain_lower(0x2D9FB9BBA8EC8Bint, 2, 0x843A28C3ACDE418Cint, 151, 63, 0x88980E8092DA87C8int);
    assert(0x88980E8092DA57E7int * 0x88980E8092DA57E7int <= 0x91C3D373AB1162A2int * 0x8000000000000000int);
    assert(0x91C3D373AB11C8D1int * 0x8000000000000000int <= 0x88980E8092DA87C8int * 0x88980E8092DA87C8int);
    lemma_chain_upper(0x2D9FB9BBA8EC89int, 3, 0x88980E8092DA57E7int, 365, 63, 0x91C3D373AB1162A2int);
    lemma_chain_lower(0x2D9FB9BBA8EC8Bint, 3, 0x88980E8092DA87C8int, 365, 63, 0x91C3D373AB11C8D1int);
    assert(0x91C3D373AB1162A2int * 0x91C3D373AB1162A2int <= 0xA5FED6A9B1505CF4int * 0x8000000000000000int);
    assert(0xA5FED6A9B15145AEint * 0x8000000000000000int <= 0x91C3D373AB11C8D1int * 0x91C3D373AB11C8D1int);
    lemma_chain_upper(0x2D9FB9BBA8EC89int, 4, 0x91C3D373AB1162A2int, 793, 63, 0xA5FED6A9B1505CF4int);
    lemma_chain_lower(0x2D9FB9BBA8EC8Bint, 4, 0x91C3D373AB11C8D1int, 793, 63, 0xA5FED6A9B15145AEint);
    assert(0xA5FED6A9B1505CF4int * 0xA5FED6A9B1505CF4int <= 0xD744FCCAD69B3072int * 0x8000000000000000int);
    assert(0xD744FCCAD69D8C10int * 0x8000000000000000int <= 0xA5FED6A9B15145AEint * 0xA5FED6A9B15145AEint);
    lemma_chain_upper(0x2D9FB9BBA8EC89int, 5, 0xA5FED6A9B1505CF4int, 1649, 63, 0xD744FCCAD69B3072int);
    lemma_chain_lower(0x2D9FB9BBA8EC8Bint, 5, 0xA5FED6A9B15145AEint, 1649, 63, 0xD744FCCAD69D8C10int);
    assert(0xD744FCCAD69B3072int * 0xD744FCCAD69B3072int <= 0xB504F333F9DAA50Bint * 0x10000000000000000int);
    assert(0xB504F333F9DE9C32int * 0x10000000000000000int <= 0xD744FCCAD69D8C10int * 0xD744FCCAD69D8C10int);
    lemma_chain_upper(0x2D9FB9BBA8EC89int, 6, 0xD744FCCAD69B3072int, 3361, 64, 0xB504F333F9DAA50Bint);
    lemma_chain_lower(0x2D9FB9BBA8EC8Bint, 6, 0xD744FCCAD69D8C10int, 3361, 64, 0xB504F333F9DE9C32int);
    assert(0xB504F333F9DAA50Bint * 0xB504F333F9DAA50Bint <= 0xFFFFFFFFFFF56633int * 0x8000000000000000int);
    assert(0x10000000000009D7Bint * 0x8000000000000000int <= 0xB504F333F9DE9C32int * 0xB504F333F9DE9C32int);
    lemma_chain_upper(0x2D9FB9BBA8EC89int, 7, 0xB504F333F9DAA50Bint, 6786, 63, 0xFFFFFFFFFFF56633int);
    lemma_chain_lower(0x2D9FB9BBA8EC8Bint, 7, 0xB504F333F9DE9C32int, 6786, 63, 0x10000000000009D7Bint);
    lemma_chains_round(0x3FE6_CFDC_DDD4_7645u64, 131, 8, 1, 0x2D9FB9BBA8EC89int, 0x2D9FB9BBA8EC8Bint, 0xFFFFFFFFFFF56633int, 0x10000000000009D7Bint, 13635, 64);
}

/// Boundary 133 of schema 8, checked through its squaring chains.
proof fn rounded_8_133()
    ensures
        rounds_root(0x3FE6_EF92_9859_3AE5u64, 133, 8),
{
    lemma2_to64();
    lemma2_to64_rest();
    lemma_chain_start(0x2DDF2530B275C9int);
    lemma_chain_start(0x2DDF2530B275CBint);
    assert(0x2DDF2530B275C9int * 0x2DDF2530B275C9int <= 0x8383594EEFB6EB7Bint * 0x100000000000int);
    assert(0x8383594EEFB6F6F1int * 0x100000000000int <= 0x2DDF2530B275CBint * 0x2DDF2530B275CBint);
    lemma_chain_upper(0x2DDF2530B275C9int, 0, 0x2DDF2530B275C9int, 0, 44, 0x8383594EEFB6EB7Bint);
    lemma_chain_lower(0x2DDF2530B275CBint, 0, 0x2DDF2530B275CBint, 0, 44, 0x8383594EEFB6F6F1int);
    assert(0x8383594EEFB6EB7Bint * 0x8383594EEFB6EB7Bint <= 0x871F61969E8D0A73int * 0x8000000000000000int);
    assert(0x871F61969E8D21FFint * 0x8000000000000000int <= 0x8383594EEFB6F6F1int * 0x8383594EEFB6F6F1int);
    lemma_chain_upper(0x2DDF2530B275C9int, 1, 0x8383594EEFB6EB7Bint, 44, 63, 0x871F61969E8D0A73int);
    lemma_chain_lower(0x2DDF2530B275CBint, 1, 0x8383594EEFB6F6F1int, 44, 63, 0x871F61969E8D21FFint);
    assert(0x871F61969E8D0A73int * 0x871F61969E8D0A73int <= 0x8EA4398B45CD47E6int * 0x8000000000000000int);
    assert(0x8EA4398B45CD799Cint * 0x8000000000000000int <= 0x871F61969E8D21FFint * 0x871F61969E8D21FFint);
    lemma_chain_upper(0x2DDF2530B275C9int, 2, 0x871F61969E8D0A73int, 151, 63, 0x8EA4398B45CD47E6int);
    lemma_chain_lower(0x2DDF2530B275CBint, 2, 0x871F61969E8D21FFint, 151, 63, 0x8EA4398B45CD799Cint);
    assert(0x8EA4398B45CD47E6int * 0x8EA4398B45CD47E6int <= 0x9EF5326091A0F744int * 0x8000000000000000int);
    assert(0x9EF5326091A1660Eint * 0x8000000000000000int <= 0x8EA4398B45CD799Cint * 0x8EA4398B45CD799Cint);
    lemma_chain_upper(0x2DDF2530B275C9int, 3, 0x8EA4398B45CD47E6int, 365, 63, 0x9EF5326091A0F744int);
    lemma_chain_lower(0x2DDF2530B275CBint, 3, 0x8EA4398B45CD799Cint, 365, 63, 0x9EF5326091A1660Eint);
    assert(0x9EF5326091A0F744int * 0x9EF5326091A0F744int <= 0xC5672A1155069944int * 0x8000000000000000int);
    assert(0xC5672A115507AC6Eint * 0x8000000000000000int <= 0x9EF5326091A1660Eint * 0x9EF5326091A1660Eint);
    lemma_chain_upper(0x2DDF2530B275C9int, 4, 0x9EF5326091A0F744int, 793, 63, 0xC5672A1155069944int);
    lemma_chain_lower(0x2DDF2530B275CBint, 4, 0x9EF5326091A1660Eint, 793, 63, 0xC5672A115507AC6Eint);
    assert(0xC5672A1155069944int * 0xC5672A1155069944int <= 0x9837F0518DB84445int * 0x10000000000000000int);
    assert(0x9837F0518DB9ECA0int * 0x10000000000000000int <= 0xC5672A115507AC6Eint * 0xC5672A115507AC6Eint);
    lemma_chain_upper(0x2DDF2530B275C9int, 5, 0xC5672A1155069944int, 1649, 64, 0x9837F0518DB84445int);
    lemma_chain_lower(0x2DDF2530B275CBint, 5, 0xC5672A115507AC6Eint, 1649, 64, 0x9837F0518DB9ECA0int);
    assert(0x9837F0518DB84445int * 0x9837F0518DB84445int <= 0xB504F333F9DD73E8int * 0x8000000000000000int);
    assert(0xB504F333F9E16532int * 0x8000000000000000int <= 0x9837F0518DB9ECA0int * 0x9837F0518DB9ECA0int);
    lemma_chain_upper(0x2DDF2530B275C9int, 6, 0x9837F0518DB84445int, 3362, 63, 0xB504F333F9DD73E8int);
    lemma_chain_lower(0x2DDF2530B275CBint, 6, 0x9837F0518DB9ECA0int, 3362, 63, 0xB504F333F9E16532int);
    assert(0xB504F333F9DD73E8int * 0xB504F333F9DD73E8int <= 0xFFFFFFFFFFFD5774int * 0x8000000000000000int);
    assert(0x10000000000087E26int * 0x8000000000000000int <= 0xB504F333F9E16532int * 0xB504F333F9E16532int);
    lemma_chain_upper(0x2DDF2530B275C9int, 7, 0xB504F333F9DD73E8int, 6787, 63, 0xFFFFFFFFFFFD5774int);
    lemma_chain_lower(0x2DDF2530B275CBint, 7, 0xB504F333F9E16532int, 6787, 63, 0x10000000000087E26int);
    lemma_chains_round(0x3FE6_EF92_9859_3AE5u64, 133, 8, 1, 0x2DDF2530B275C9int, 0x2DDF2530B275CBint, 0xFFFFFFFFFFFD5774int, 0x10000000000087E26int, 13637, 64);
}

/// Boundary 135 of schema 8, checked through its squaring chains.
proof fn rounded_8_135()
    ensures
        rounds_root(0x3FE7_0F74_66F4_2E87u64, 135, 8),
{
    lemma2_to64();
    lemma2_to64_rest();
    lemma_chain_start(0x2E1EE8CDE85D0Dint);
    lemma_chain_start(0x2E1EE8CDE85D0Fint);
    assert(0x2E1EE8CDE85D0Dint * 0x2E1EE8CDE85D0Dint <= 0x84F1F656379C141Bint * 0x100000000000int);
    assert(0x84F1F656379C1FA2int * 0x100000000000int <= 0x2E1EE8CDE85D0Fint * 0x2E1EE8CDE85D0Fint);
    lemma_chain_upper(0x2E1EE8CDE85D0Dint, 0, 0x2E1EE8CDE85D0Dint, 0, 44, 0x84F1F656379C141Bint);
    lemma_chain_lower(0x2E1EE8CDE85D0Fint, 0, 0x2E1EE8CDE85D0Fint, 0, 44, 0x84F1F656379C1FA2int);
    assert(0x84F1F656379C141Bint * 0x84F1F656379C141Bint <= 0x8A14D575496EF107int * 0x8000000000000000int);
    assert(0x8A14D575496F08F8int * 0x8000000000000000int <= 0x84F1F656379C1FA2int * 0x84F1F656379C1FA2int);
    lemma_chain_upper(0x2E1EE8CDE85D0Dint, 1, 0x84F1F656379C141Bint, 44, 63, 0x8A14D575496EF107int);
    lemma_chain_lower(0x2E1EE8CDE85D0Fint, 1, 0x84F1F656379C1FA2int, 44, 63, 0x8A14D575496F08F8int);
    assert(0x8A14D575496EF107int * 0x8A14D575496EF107int <= 0x94F4EFA8FEF6EE41int * 0x8000000000000000int);
    assert(0x94F4EFA8FEF721E7int * 0x8000000000000000int <= 0x8A14D575496F08F8int * 0x8A14D575496F08F8int);
    lemma_chain_upper(0x2E1EE8CDE85D0Dint, 2, 0x8A14D575496EF107int, 151, 63, 0x94F4EFA8FEF6EE41int);
    lemma_chain_lower(0x2E1EE8CDE85D0Fint, 2, 0x8A14D575496F08F8int, 151, 63, 0x94F4EFA8FEF721E7int);
    assert(0x94F4EFA8FEF6EE41int * 0x94F4EFA8FEF6EE41int <= 0xAD583EEA42A10BA5int * 0x8000000000000000int);
    assert(0xAD583EEA42A183D9int * 0x8000000000000000int <= 0x94F4EFA8FEF721E7int * 0x94F4EFA8FEF721E7int);
    lemma_chain_upper(0x2E1EE8CDE85D0Dint, 3, 0x94F4EFA8FEF6EE41int, 365, 63, 0xAD583EEA42A10BA5int);
    lemma_chain_lower(0x2E1EE8CDE85D0Fint, 3, 0x94F4EFA8FEF721E7int, 365, 63, 0xAD583EEA42A183D9int);
    assert(0xAD583EEA42A10BA5int * 0xAD583EEA42A10BA5int <= 0xEAC0C6E7DD238E32int * 0x8000000000000000int);
    assert(0xEAC0C6E7DD24D3C4int * 0x8000000000000000int <= 0xAD583EEA42A183D9int * 0xAD583EEA42A183D9int);
    lemma_chain_upper(0x2E1EE8CDE85D0Dint, 4, 0xAD583EEA42A10BA5int, 793, 63, 0xEAC0C6E7DD238E32int);
    lemma_chain_lower(0x2E1EE8CDE85D0Fint, 4, 0xAD583EEA42A183D9int, 793, 63, 0xEAC0C6E7DD24D3C4int);
    assert(0xEAC0C6E7DD238E32int * 0xEAC0C6E7DD238E32int <= 0xD744FCCAD69C315Dint * 0x10000000000000000int);
    assert(0xD744FCCAD69E8675int * 0x10000000000000000int <= 0xEAC0C6E7DD24D3C4int * 0xEAC0C6E7DD24D3C4int);
    lemma_chain_upper(0x2E1EE8CDE85D0Dint, 5, 0xEAC0C6E7DD238E32int, 1649, 64, 0xD744FCCAD69C315Dint);
    lemma_chain_lower(0x2E1EE8CDE85D0Fint, 5, 0xEAC0C6E7DD24D3C4int, 1649, 64, 0xD744FCCAD69E8675int);
    assert(0xD744FCCAD69C315Dint * 0xD744FCCAD69C315Dint <= 0xB504F333F9DC5520int * 0x10000000000000000int);
    assert(0xB504F333F9E0414Fint * 0x10000000000000000int <= 0xD744FCCAD69E8675int * 0xD744FCCAD69E8675int);
    lemma_chain_upper(0x2E1EE8CDE85D0Dint, 6, 0xD744FCCAD69C315Dint, 3362, 64, 0xB504F333F9DC5520int);
    lemma_chain_lower(0x2E1EE8CDE85D0Fint, 6, 0xD744FCCAD69E8675int, 3362, 64, 0xB504F333F9E0414Fint);
    assert(0xB504F333F9DC5520int * 0xB504F333F9DC5520int <= 0xFFFFFFFFFFFA2C50int * 0x8000000000000000int);
    assert(0x10000000000054491int * 0x8000000000000000int <= 0xB504F333F9E0414Fint * 0xB504F333F9E0414Fint);
    lemma_chain_upper(0x2E1EE8CDE85D0Dint, 7, 0xB504F333F9DC5520int, 6788, 63, 0xFFFFFFFFFFFA2C50int);
    lemma_chain_lower(0x2E1EE8CDE85D0Fint, 7, 0xB504F333F9E0414Fint, 6788, 63, 0x10000000000054491int);
    lemma_chains_round(0x3FE7_0F74_66F4_2E87u64, 135, 8, 1, 0x2E1EE8CDE85D0Dint, 0x2E1EE8CDE85D0Fint, 0xFFFFFFFFFFFA2C50int, 0x10000000000054491int, 13639, 64);
}

/// Boundary 137 of schema 8, checked through its squaring chains.
proof fn rounded_8_137()
    ensures
        rounds_root(0x3FE7_2F82_86EA_D08Au64, 137, 8),
{
    lemma2_to64();
    lemma2_to64_rest();
    lemma_chain_start(0x2E5F050DD5A113int);
    lemma_chain_start(0x2E5F050DD5A115int);
    assert(0x2E5F050DD5A113int * 0x2E5F050DD5A113int <= 0x8664915B923FB77Dint * 0x100000000000int);
    assert(0x8664915B923FC314int * 0x100000000000int <= 0x2E5F050DD5A115int * 0x2E5F050DD5A115int);
    lemma_chain_upper(0x2E5F050DD5A113int, 0, 0x2E5F050DD5A113int, 0, 44, 0x8664915B923FB77Dint);
    lemma_chain_lower(0x2E5F050DD5A115int, 0, 0x2E5F050DD5A115int, 0, 44, 0x8664915B923FC314int);
    assert(0x8664915B923FB77Dint * 0x8664915B923FB77Dint <= 0x8D1ADF5B7E5BA498int * 0x8000000000000000int);
    assert(0x8D1ADF5B7E5BBCEDint * 0x8000000000000000int <= 0x8664915B923FC314int * 0x8664915B923FC314int);
    lemma_chain_upper(0x2E5F050DD5A113int, 1, 0x8664915B923FB77Dint, 44, 63, 0x8D1ADF5B7E5BA498int);
    lemma_chain_lower(0x2E5F050DD5A115int, 1, 0x8664915B923FC314int, 44, 63, 0x8D1ADF5B7E5BBCEDint);
    assert(0x8D1ADF5B7E5BA498int * 0x8D1ADF5B7E5BA498int <= 0x9B8D39B9D54E4988int * 0x8000000000000000int);
    assert(0x9B8D39B9D54E7F2Cint * 0x8000000000000000int <= 0x8D1ADF5B7E5BBCEDint * 0x8D1ADF5B7E5BBCEDint);
    lemma_chain_upper(0x2E5F050DD5A113int, 2, 0x8D1ADF5B7E5BA498int, 151, 63, 0x9B8D39B9D54E4988int);
    lemma_chain_lower(0x2E5F050DD5A115int, 2, 0x8D1ADF5B7E5BBCEDint, 151, 63, 0x9B8D39B9D54E7F2Cint);
    assert(0x9B8D39B9D54E4988int * 0x9B8D39B9D54E4988int <= 0xBD08A39F580C1A56int * 0x8000000000000000int);
    assert(0xBD08A39F580C9CB4int * 0x8000000000000000int <= 0x9B8D39B9D54E7F2Cint * 0x9B8D39B9D54E7F2Cint);
    lemma_chain_upper(0x2E5F050DD5A113int, 3, 0x9B8D39B9D54E4988int, 365, 63, 0xBD08A39F580C1A56int);
    lemma_chain_lower(0x2E5F050DD5A115int, 3, 0x9B8D39B9D54E7F2Cint, 365, 63, 0xBD08A39F580C9CB4int);
    assert(0xBD08A39F580C1A56int * 0xBD08A39F580C1A56int <= 0x8B95C1E3EA8BACF3int * 0x10000000000000000int);
    assert(0x8B95C1E3EA8C6D7Aint * 0x10000000000000000int <= 0xBD08A39F580C9CB4int * 0xBD08A39F580C9CB4int);
    lemma_chain_upper(0x2E5F050DD5A113int, 4, 0xBD08A39F580C1A56int, 793, 64, 0x8B95C1E3EA8BACF3int);
    lemma_chain_lower(0x2E5F050DD5A115int, 4, 0xBD08A39F580C9CB4int, 793, 64, 0x8B95C1E3EA8C6D7Aint);
    assert(0x8B95C1E3EA8BACF3int * 0x8B95C1E3EA8BACF3int <= 0x9837F0518DB84DF0int * 0x8000000000000000int);
    assert(0x9837F0518DB9F1D6int * 0x8000000000000000int <= 0x8B95C1E3EA8C6D7Aint * 0x8B95C1E3EA8C6D7Aint);
    lemma_chain_upper(0x2E5F050DD5A113int, 5, 0x8B95C1E3EA8BACF3int, 1650, 63, 0x9837F0518DB84DF0int);
    lemma_chain_lower(0x2E5F050DD5A115int, 5, 0x8B95C1E3EA8C6D7Aint, 1650, 63, 0x9837F0518DB9F1D6int);
    assert(0x9837F0518DB84DF0int * 0x9837F0518DB84DF0int <= 0xB504F333F9DD8AE7int * 0x8000000000000000int);
    assert(0xB504F333F9E17197int * 0x8000000000000000int <= 0x9837F0518DB9F1D6int * 0x9837F0518DB9F1D6int);
    lemma_chain_upper(0x2E5F050DD5A113int, 6, 0x9837F0518DB84DF0int, 3363, 63, 0xB504F333F9DD8AE7int);
    lemma_chain_lower(0x2E5F050DD5A115int, 6, 0x9837F0518DB9F1D6int, 3363, 63, 0xB504F333F9E17197int);
    assert(0xB504F333F9DD8AE7int * 0xB504F333F9DD8AE7int <= 0xFFFFFFFFFFFD987Fint * 0x8000000000000000int);
    assert(0x1000000000008A135int * 0x8000000000000000int <= 0xB504F333F9E17197int * 0xB504F333F9E17197int);
    lemma_chain_upper(0x2E5F050DD5A113int, 7, 0xB504F333F9DD8AE7int, 6789, 63, 0xFFFFFFFFFFFD987Fint);
    lemma_chain_lower(0x2E5F050DD5A115int, 7, 0xB504F333F9E17197int, 6789, 63, 0x1000000000008A135int);
    lemma_chains_round(0x3FE7_2F82_86EA_D08Au64, 137, 8, 1, 0x2E5F050DD5A113int, 0x2E5F050DD5A115int, 0xFFFFFFFFFFFD987Fint, 0x1000000000008A135int, 13641, 64);
}

/// Boundary 139 of schema 8, checked through its squaring chains.
proof fn rounded_8_139()
    ensures
        rounds_root(0x3FE7_4FBD_35D7_CBFDu64, 139, 8),
{
    lemma2_to64();
    lemma2_to64_rest();
    lemma_chain_start(0x2E9F7A6BAF97F9int);
    lemma_chain_start(0x2E9F7A6BAF97FBint);
    assert(0x2E9F7A6BAF97F9int * 0x2E9F7A6BAF97F9int <= 0x87DB357FF698CEC7int * 0x100000000000int);
    assert(0x87DB357FF698DA6Eint * 0x100000000000int <= 0x2E9F7A6BAF97FBint * 0x2E9F7A6BAF97FBint);
    lemma_chain_upper(0x2E9F7A6BAF97F9int, 0, 0x2E9F7A6BAF97F9int, 0, 44, 0x87DB357FF698CEC7int);
    lemma_chain_lower(0x2E9F7A6BAF97FBint, 0, 0x2E9F7A6BAF97FBint, 0, 44, 0x87DB357FF698DA6Eint);
    assert(0x87DB357FF698CEC7int * 0x87DB357FF698CEC7int <= 0x9031DC4314669F34int * 0x8000000000000000int);
    assert(0x9031DC431466B7EFint * 0x8000000000000000int <= 0x87DB357FF698DA6Eint * 0x87DB357FF698DA6Eint);
    lemma_chain_upper(0x2E9F7A6BAF97F9int, 1, 0x87DB357FF698CEC7int, 44, 63, 0x9031DC4314669F34int);
    lemma_chain_lower(0x2E9F7A6BAF97FBint, 1, 0x87DB357FF698DA6Eint, 44, 63, 0x9031DC431466B7EFint);
    assert(0x9031DC4314669F34int * 0x9031DC4314669F34int <= 0xA27043030C493E10int * 0x8000000000000000int);
    assert(0xA27043030C4975C7int * 0x8000000000000000int <= 0x9031DC431466B7EFint * 0x9031DC431466B7EFint);
    lemma_chain_upper(0x2E9F7A6BAF97F9int, 2, 0x9031DC4314669F34int, 151, 63, 0xA27043030C493E10int);
    lemma_chain_lower(0x2E9F7A6BAF97FBint, 2, 0x9031DC431466B7EFint, 151, 63, 0xA27043030C4975C7int);
    assert(0xA27043030C493E10int * 0xA27043030C493E10int <= 0xCE248C151F841635int * 0x8000000000000000int);
    assert(0xCE248C151F84A39Dint * 0x8000000000000000int <= 0xA27043030C4975C7int * 0xA27043030C4975C7int);
    lemma_chain_upper(0x2E9F7A6BAF97F9int, 3, 0xA27043030C493E10int, 365, 63, 0xCE248C151F841635int);
    lemma_chain_lower(0x2E9F7A6BAF97FBint, 3, 0xA27043030C4975C7int, 365, 63, 0xCE248C151F84A39Dint);
    assert(0xCE248C151F841635int * 0xCE248C151F841635int <= 0xA5FED6A9B1508D1Bint * 0x10000000000000000int);
    assert(0xA5FED6A9B15170D5int * 0x10000000000000000int <= 0xCE248C151F84A39Dint * 0xCE248C151F84A39Dint);
    lemma_chain_upper(0x2E9F7A6BAF97F9int, 4, 0xCE248C151F841635int, 793, 64, 0xA5FED6A9B1508D1Bint);
    lemma_chain_lower(0x2E9F7A6BAF97FBint, 4, 0xCE248C151F84A39Dint, 793, 64, 0xA5FED6A9B15170D5int);
    assert(0xA5FED6A9B1508D1Bint * 0xA5FED6A9B1508D1Bint <= 0xD744FCCAD69BAD57int * 0x8000000000000000int);
    assert(0xD744FCCAD69DFBFCint * 0x8000000000000000int <= 0xA5FED6A9B15170D5int * 0xA5FED6A9B15170D5int);
    lemma_chain_upper(0x2E9F7A6BAF97F9int, 5, 0xA5FED6A9B1508D1Bint, 1650, 63, 0xD744FCCAD69BAD57int);
    lemma_chain_lower(0x2E9F7A6BAF97FBint, 5, 0xA5FED6A9B15170D5int, 1650, 63, 0xD744FCCAD69DFBFCint);
    assert(0xD744FCCAD69BAD57int * 0xD744FCCAD69BAD57int <= 0xB504F333F9DB7717int * 0x10000000000000000int);
    assert(0xB504F333F9DF586Dint * 0x10000000000000000int <= 0xD744FCCAD69DFBFCint * 0xD744FCCAD69DFBFCint);
    lemma_chain_upper(0x2E9F7A6BAF97F9int, 6, 0xD744FCCAD69BAD57int, 3363, 64, 0xB504F333F9DB7717int);
    lemma_chain_lower(0x2E9F7A6BAF97FBint, 6, 0xD744FCCAD69DFBFCint, 3363, 64, 0xB504F333F9DF586Dint);
    assert(0xB504F333F9DB7717int * 0xB504F333F9DB7717int <= 0xFFFFFFFFFFF7B84Dint * 0x8000000000000000int);
    assert(0x1000000000002B1E0int * 0x8000000000000000int <= 0xB504F333F9DF586Dint * 0xB504F333F9DF586Dint);
    lemma_chain_upper(0x2E9F7A6BAF97F9int, 7, 0xB504F333F9DB7717int, 6790, 63, 0xFFFFFFFFFFF7B84Dint);
    lemma_chain_lower(0x2E9F7A6BAF97FBint, 7, 0xB504F333F9DF586Dint, 6790, 63, 0x1000000000002B1E0int);
    lemma_chains_round(0x3FE7_4FBD_35D7_CBFDu64, 139, 8, 1, 0x2E9F7A6BAF97F9int, 0x2E9F7A6BAF97FBint, 0xFFFFFFFFFFF7B84Dint, 0x1000000000002B1E0int, 13643, 64);
}

/// Boundary 141 of schema 8, checked through its squaring chains.
proof fn rounded_8_141()
    ensures
        rounds_root(0x3FE7_7024_B1AB_6E09u64, 141, 8),
{
    lemma2_to64();
    lemma2_to64_rest();
    lemma_chain_start(0x2EE0496356DC11int);
    lemma_chain_start(0x2EE0496356DC13int);
    assert(0x2EE0496356DC11int * 0x2EE0496356DC11int <= 0x8955EE03618E54F9int * 0x100000000000int);
    assert(0x8955EE03618E60B0int * 0x100000000000int <= 0x2EE0496356DC13int * 0x2EE0496356DC13int);
    lemma_chain_upper(0x2EE0496356DC11int, 0, 0x2EE0496356DC11int, 0, 44, 0x8955EE03618E54F9int);
    lemma_chain_lower(0x2EE0496356DC13int, 0, 0x2EE0496356DC13int, 0, 44, 0x8955EE03618E60B0int);
    assert(0x8955EE03618E54F9int * 0x8955EE03618E54F9int <= 0x935A2B2F13E6D1CFint * 0x8000000000000000int);
    assert(0x935A2B2F13E6EAF1int * 0x8000000000000000int <= 0x8955EE03618E60B0int * 0x8955EE03618E60B0int);
    lemma_chain_upper(0x2EE0496356DC11int, 1, 0x8955EE03618E54F9int, 44, 63, 0x935A2B2F13E6D1CFint);
    lemma_chain_lower(0x2EE0496356DC13int, 1, 0x8955EE03618E60B0int, 44, 63, 0x935A2B2F13E6EAF1int);
    assert(0x935A2B2F13E6D1CFint * 0x935A2B2F13E6D1CFint <= 0xA9A15AB4EA7BD92Fint * 0x8000000000000000int);
    assert(0xA9A15AB4EA7C130Bint * 0x8000000000000000int <= 0x935A2B2F13E6EAF1int * 0x935A2B2F13E6EAF1int);
    lemma_chain_upper(0x2EE0496356DC11int, 2, 0x935A2B2F13E6D1CFint, 151, 63, 0xA9A15AB4EA7BD92Fint);
    lemma_chain_lower(0x2EE0496356DC13int, 2, 0x935A2B2F13E6EAF1int, 151, 63, 0xA9A15AB4EA7C130Bint);
    assert(0xA9A15AB4EA7BD92Fint * 0xA9A15AB4EA7BD92Fint <= 0xE0CCDEEC2A945282int * 0x8000000000000000int);
    assert(0xE0CCDEEC2A94EBDCint * 0x8000000000000000int <= 0xA9A15AB4EA7C130Bint * 0xA9A15AB4EA7C130Bint);
    lemma_chain_upper(0x2EE0496356DC11int, 3, 0xA9A15AB4EA7BD92Fint, 365, 63, 0xE0CCDEEC2A945282int);
    lemma_chain_lower(0x2EE0496356DC13int, 3, 0xA9A15AB4EA7C130Bint, 365, 63, 0xE0CCDEEC2A94EBDCint);
    assert(0xE0CCDEEC2A945282int * 0xE0CCDEEC2A945282int <= 0xC5672A115505E07Fint * 0x10000000000000000int);
    assert(0xC5672A115506EDD1int * 0x10000000000000000int <= 0xE0CCDEEC2A94EBDCint * 0xE0CCDEEC2A94EBDCint);
    lemma_chain_upper(0x2EE0496356DC11int, 4, 0xE0CCDEEC2A945282int, 793, 64, 0xC5672A115505E07Fint);
    lemma_chain_lower(0x2EE0496356DC13int, 4, 0xE0CCDEEC2A94EBDCint, 793, 64, 0xC5672A115506EDD1int);
    assert(0xC5672A115505E07Fint * 0xC5672A115505E07Fint <= 0x9837F0518DB72751int * 0x10000000000000000int);
    assert(0x9837F0518DB8C6A9int * 0x10000000000000000int <= 0xC5672A115506EDD1int * 0xC5672A115506EDD1int);
    lemma_chain_upper(0x2EE0496356DC11int, 5, 0xC5672A115505E07Fint, 1650, 64, 0x9837F0518DB72751int);
    lemma_chain_lower(0x2EE0496356DC13int, 5, 0xC5672A115506EDD1int, 1650, 64, 0x9837F0518DB8C6A9int);
    assert(0x9837F0518DB72751int * 0x9837F0518DB72751int <= 0xB504F333F9DACE2Bint * 0x8000000000000000int);
    assert(0xB504F333F9DEAA06int * 0x8000000000000000int <= 0x9837F0518DB8C6A9int * 0x9837F0518DB8C6A9int);
    lemma_chain_upper(0x2EE0496356DC11int, 6, 0x9837F0518DB72751int, 3364, 63, 0xB504F333F9DACE2Bint);
    lemma_chain_lower(0x2EE0496356DC13int, 6, 0x9837F0518DB8C6A9int, 3364, 63, 0xB504F333F9DEAA06int);
    assert(0xB504F333F9DACE2Bint * 0xB504F333F9DACE2Bint <= 0xFFFFFFFFFFF5DA85int * 0x8000000000000000int);
    assert(0x1000000000000C498int * 0x8000000000000000int <= 0xB504F333F9DEAA06int * 0xB504F333F9DEAA06int);
    lemma_chain_upper(0x2EE0496356DC11int, 7, 0xB504F333F9DACE2Bint, 6791, 63, 0xFFFFFFFFFFF5DA85int);
    lemma_chain_lower(0x2EE0496356DC13int, 7, 0xB504F333F9DEAA06int, 6791, 63, 0x1000000000000C498int);
    lemma_chains_round(0x3FE7_7024_B1AB_6E09u64, 141, 8, 1, 0x2EE0496356DC11int, 0x2EE0496356DC13int, 0xFFFFFFFFFFF5DA85int, 0x1000000000000C498int, 13645, 64);
}

/// Boundary 143 of schema 8, checked through its squaring chains.
proof fn rounded_8_143()
    ensures
        rounds_root(0x3FE7_90B9_38AC_1CF6u64, 143, 8),
{
    lemma2_to64();
    lemma2_to64_rest();
    lemma_chain_start(0x2F2172715839EBint);
    lemma_chain_start(0x2F2172715839EDint);
    assert(0x2F2172715839EBint * 0x2F2172715839EBint <= 0x8AD4C6452C727FB3int * 0x100000000000int);
    assert(0x8AD4C6452C728B7Bint * 0x100000000000int <= 0x2F2172715839EDint * 0x2F2172715839EDint);
    lemma_chain_upper(0x2F2172715839EBint, 0, 0x2F2172715839EBint, 0, 44, 0x8AD4C6452C727FB3int);
    lemma_chain_lower(0x2F2172715839EDint, 0, 0x2F2172715839EDint, 0, 44, 0x8AD4C6452C728B7Bint);
    assert(0x8AD4C6452C727FB3int * 0x8AD4C6452C727FB3int <= 0x96942D3720184586int * 0x8000000000000000int);
    assert(0x96942D3720185F13int * 0x8000000000000000int <= 0x8AD4C6452C728B7Bint * 0x8AD4C6452C728B7Bint);
    lemma_chain_upper(0x2F2172715839EBint, 1, 0x8AD4C6452C727FB3int, 44, 63, 0x96942D3720184586int);
    lemma_chain_lower(0x2F2172715839EDint, 1, 0x8AD4C6452C728B7Bint, 44, 63, 0x96942D3720185F13int);
    assert(0x96942D3720184586int * 0x96942D3720184586int <= 0xB123F581D2ABF562int * 0x8000000000000000int);
    assert(0xB123F581D2AC317Fint * 0x8000000000000000int <= 0x96942D3720185F13int * 0x96942D3720185F13int);
    lemma_chain_upper(0x2F2172715839EBint, 2, 0x96942D3720184586int, 151, 63, 0xB123F581D2ABF562int);
    lemma_chain_lower(0x2F2172715839EDint, 2, 0x96942D3720185F13int, 151, 63, 0xB123F581D2AC317Fint);
    assert(0xB123F581D2ABF562int * 0xB123F581D2ABF562int <= 0xF5257D15248646D4int * 0x8000000000000000int);
    assert(0xF5257D152486ED35int * 0x8000000000000000int <= 0xB123F581D2AC317Fint * 0xB123F581D2AC317Fint);
    lemma_chain_upper(0x2F2172715839EBint, 3, 0xB123F581D2ABF562int, 365, 63, 0xF5257D15248646D4int);
    lemma_chain_lower(0x2F2172715839EDint, 3, 0xB123F581D2AC317Fint, 365, 63, 0xF5257D152486ED35int);
    assert(0xF5257D15248646D4int * 0xF5257D15248646D4int <= 0xEAC0C6E7DD2339CDint * 0x10000000000000000int);
    assert(0xEAC0C6E7DD247872int * 0x10000000000000000int <= 0xF5257D152486ED35int * 0xF5257D152486ED35int);
    lemma_chain_upper(0x2F2172715839EBint, 4, 0xF5257D15248646D4int, 793, 64, 0xEAC0C6E7DD2339CDint);
    lemma_chain_lower(0x2F2172715839EDint, 4, 0xF5257D152486ED35int, 793, 64, 0xEAC0C6E7DD247872int);
    assert(0xEAC0C6E7DD2339CDint * 0xEAC0C6E7DD2339CDint <= 0xD744FCCAD69B9695int * 0x10000000000000000int);
    assert(0xD744FCCAD69DDEFAint * 0x10000000000000000int <= 0xEAC0C6E7DD247872int * 0xEAC0C6E7DD247872int);
    lemma_chain_upper(0x2F2172715839EBint, 5, 0xEAC0C6E7DD2339CDint, 1650, 64, 0xD744FCCAD69B9695int);
    lemma_chain_lower(0x2F2172715839EDint, 5, 0xEAC0C6E7DD247872int, 1650, 64, 0xD744FCCAD69DDEFAint);
    assert(0xD744FCCAD69B9695int * 0xD744FCCAD69B9695int <= 0xB504F333F9DB50D0int * 0x10000000000000000int);
    assert(0xB504F333F9DF27A4int * 0x10000000000000000int <= 0xD744FCCAD69DDEFAint * 0xD744FCCAD69DDEFAint);
    lemma_chain_upper(0x2F2172715839EBint, 6, 0xD744FCCAD69B9695int, 3364, 64, 0xB504F333F9DB50D0int);
    lemma_chain_lower(0x2F2172715839EDint, 6, 0xD744FCCAD69DDEFAint, 3364, 64, 0xB504F333F9DF27A4int);
    assert(0xB504F333F9DB50D0int * 0xB504F333F9DB50D0int <= 0xFFFFFFFFFFF74C0Aint * 0x8000000000000000int);
    assert(0x100000000000227E4int * 0x8000000000000000int <= 0xB504F333F9DF27A4int * 0xB504F333F9DF27A4int);
    lemma_chain_upper(0x2F2172715839EBint, 7, 0xB504F333F9DB50D0int, 6792, 63, 0xFFFFFFFFFFF74C0Aint);
    lemma_chain_lower(0x2F2172715839EDint, 7, 0xB504F333F9DF27A4int, 6792, 63, 0x100000000000227E4int);
    lemma_chains_round(0x3FE7_90B9_38AC_1CF6u64, 143, 8, 1, 0x2F2172715839EBint, 0x2F2172715839EDint, 0xFFFFFFFFFFF74C0Aint, 0x100000000000227E4int, 13647, 64);
}

/// Boundary 145 of schema 8, checked through its squaring chains.
proof fn rounded_8_145()
    ensures
        rounds_root(0x3FE7_B17B_0976_CFDBu64, 145, 8),
{
    lemma2_to64();
    lemma2_to64_rest();
    lemma_chain_start(0x2F62F612ED9FB5int);
    lemma_chain_start(0x2F62F612ED9FB7int);
    assert(0x2F62F612ED9FB5int * 0x2F62F612ED9FB5int <= 0x8C57C9C4646F4D1Dint * 0x100000000000int);
    assert(0x8C57C9C4646F58F5int * 0x100000000000int <= 0x2F62F612ED9FB7int * 0x2F62F612ED9FB7int);
    lemma_chain_upper(0x2F62F612ED9FB5int, 0, 0x2F62F612ED9FB5int, 0, 44, 0x8C57C9C4646F4D1Dint);
    lemma_chain_lower(0x2F62F612ED9FB7int, 0, 0x2F62F612ED9FB7int, 0, 44, 0x8C57C9C4646F58F5int);
    assert(0x8C57C9C4646F4D1Dint * 0x8C57C9C4646F4D1Dint <= 0x99E0459320B7F8BEint * 0x8000000000000000int);
    assert(0x99E0459320B812B6int * 0x8000000000000000int <= 0x8C57C9C4646F58F5int * 0x8C57C9C4646F58F5int);
    lemma_chain_upper(0x2F62F612ED9FB5int, 1, 0x8C57C9C4646F4D1Dint, 44, 63, 0x99E0459320B7F8BEint);
    lemma_chain_lower(0x2F62F612ED9FB7int, 1, 0x8C57C9C4646F58F5int, 44, 63, 0x99E0459320B812B6int);
    assert(0x99E0459320B7F8BEint * 0x99E0459320B7F8BEint <= 0xB8FBAF4762FB9AF1int * 0x8000000000000000int);
    assert(0xB8FBAF4762FBD960int * 0x8000000000000000int <= 0x99E0459320B812B6int * 0x99E0459320B812B6int);
    lemma_chain_upper(0x2F62F612ED9FB5int, 2, 0x99E0459320B7F8BEint, 151, 63, 0xB8FBAF4762FB9AF1int);
    lemma_chain_lower(0x2F62F612ED9FB7int, 2, 0x99E0459320B812B6int, 151, 63, 0xB8FBAF4762FBD960int);
    assert(0xB8FBAF4762FB9AF1int * 0xB8FBAF4762FB9AF1int <= 0x85AAC367CC487559int * 0x10000000000000000int);
    assert(0x85AAC367CC48CF92int * 0x10000000000000000int <= 0xB8FBAF4762FBD960int * 0xB8FBAF4762FBD960int);
    lemma_chain_upper(0x2F62F612ED9FB5int, 3, 0xB8FBAF4762FB9AF1int, 365, 64, 0x85AAC367CC487559int);
    lemma_chain_lower(0x2F62F612ED9FB7int, 3, 0xB8FBAF4762FBD960int, 365, 64, 0x85AAC367CC48CF92int);
    assert(0x85AAC367CC487559int * 0x85AAC367CC487559int <= 0x8B95C1E3EA8BCAEEint * 0x8000000000000000int);
    assert(0x8B95C1E3EA8C875Cint * 0x8000000000000000int <= 0x85AAC367CC48CF92int * 0x85AAC367CC48CF92int);
    lemma_chain_upper(0x2F62F612ED9FB5int, 4, 0x85AAC367CC487559int, 794, 63, 0x8B95C1E3EA8BCAEEint);
    lemma_chain_lower(0x2F62F612ED9FB7int, 4, 0x85AAC367CC48CF92int, 794, 63, 0x8B95C1E3EA8C875Cint);
    assert(0x8B95C1E3EA8BCAEEint * 0x8B95C1E3EA8BCAEEint <= 0x9837F0518DB88F53int * 0x8000000000000000int);
    assert(0x9837F0518DBA2A4Aint * 0x8000000000000000int <= 0x8B95C1E3EA8C875Cint * 0x8B95C1E3EA8C875Cint);
    lemma_chain_upper(0x2F62F612ED9FB5int, 5, 0x8B95C1E3EA8BCAEEint, 1651, 63, 0x9837F0518DB88F53int);
    lemma_chain_lower(0x2F62F612ED9FB7int, 5, 0x8B95C1E3EA8C875Cint, 1651, 63, 0x9837F0518DBA2A4Aint);
    assert(0x9837F0518DB88F53int * 0x9837F0518DB88F53int <= 0xB504F333F9DE266Bint * 0x8000000000000000int);
    assert(0xB504F333F9E1F7DCint * 0x8000000000000000int <= 0x9837F0518DBA2A4Aint * 0x9837F0518DBA2A4Aint);
    lemma_chain_upper(0x2F62F612ED9FB5int, 6, 0x9837F0518DB88F53int, 3365, 63, 0xB504F333F9DE266Bint);
    lemma_chain_lower(0x2F62F612ED9FB7int, 6, 0x9837F0518DBA2A4Aint, 3365, 63, 0xB504F333F9E1F7DCint);
    assert(0xB504F333F9DE266Bint * 0xB504F333F9DE266Bint <= 0xFFFFFFFFFFFF505Cint * 0x8000000000000000int);
    assert(0x100000000000A1CFAint * 0x8000000000000000int <= 0xB504F333F9E1F7DCint * 0xB504F333F9E1F7DCint);
    lemma_chain_upper(0x2F62F612ED9FB5int, 7, 0xB504F333F9DE266Bint, 6793, 63, 0xFFFFFFFFFFFF505Cint);
    lemma_chain_lower(0x2F62F612ED9FB7int, 7, 0xB504F333F9E1F7DCint, 6793, 63, 0x100000000000A1CFAint);
    lemma_chains_round(0x3FE7_B17B_0976_CFDBu64, 145, 8, 1, 0x2F62F612ED9FB5int, 0x2F62F612ED9FB7int, 0xFFFFFFFFFFFF505Cint, 0x100000000000A1CFAint, 13649, 64);
}

/// Boundary 147 of schema 8, checked through its squaring chains.
proof fn rounded_8_147()
    ensures
        rounds_root(0x3FE7_D26A_62FF_86F0u64, 147, 8),
{
    lemma2_to64();
    lemma2_to64_rest();
    lemma_chain_start(0x2FA4D4C5FF0DDFint);
    lemma_chain_start(0x2FA4D4C5FF0DE1int);
    assert(0x2FA4D4C5FF0DDFint * 0x2FA4D4C5FF0DDFint <= 0x8DDF042022E69394int * 0x100000000000int);
    assert(0x8DDF042022E69F7Cint * 0x100000000000int <= 0x2FA4D4C5FF0DE1int * 0x2FA4D4C5FF0DE1int);
    lemma_chain_upper(0x2FA4D4C5FF0DDFint, 0, 0x2FA4D4C5FF0DDFint, 0, 44, 0x8DDF042022E69394int);
    lemma_chain_lower(0x2FA4D4C5FF0DE1int, 0, 0x2FA4D4C5FF0DE1int, 0, 44, 0x8DDF042022E69F7Cint);
    assert(0x8DDF042022E69394int * 0x8DDF042022E69394int <= 0x9D3ED9A72CFFA2CDint * 0x8000000000000000int);
    assert(0x9D3ED9A72CFFBD30int * 0x8000000000000000int <= 0x8DDF042022E69F7Cint * 0x8DDF042022E69F7Cint);
    lemma_chain_upper(0x2FA4D4C5FF0DDFint, 1, 0x8DDF042022E69394int, 44, 63, 0x9D3ED9A72CFFA2CDint);
    lemma_chain_lower(0x2FA4D4C5FF0DE1int, 1, 0x8DDF042022E69F7Cint, 44, 63, 0x9D3ED9A72CFFBD30int);
    assert(0x9D3ED9A72CFFA2CDint * 0x9D3ED9A72CFFA2CDint <= 0xC12C4CCA667061EFint * 0x8000000000000000int);
    assert(0xC12C4CCA6670A2C3int * 0x8000000000000000int <= 0x9D3ED9A72CFFBD30int * 0x9D3ED9A72CFFBD30int);
    lemma_chain_upper(0x2FA4D4C5FF0DDFint, 2, 0x9D3ED9A72CFFA2CDint, 151, 63, 0xC12C4CCA667061EFint);
    lemma_chain_lower(0x2FA4D4C5FF0DE1int, 2, 0x9D3ED9A72CFFBD30int, 151, 63, 0xC12C4CCA6670A2C3int);
    assert(0xC12C4CCA667061EFint * 0xC12C4CCA667061EFint <= 0x91C3D373AB117725int * 0x10000000000000000int);
    assert(0x91C3D373AB11D8FAint * 0x10000000000000000int <= 0xC12C4CCA6670A2C3int * 0xC12C4CCA6670A2C3int);
    lemma_chain_upper(0x2FA4D4C5FF0DDFint, 3, 0xC12C4CCA667061EFint, 365, 64, 0x91C3D373AB117725int);
    lemma_chain_lower(0x2FA4D4C5FF0DE1int, 3, 0xC12C4CCA6670A2C3int, 365, 64, 0x91C3D373AB11D8FAint);
    assert(0x91C3D373AB117725int * 0x91C3D373AB117725int <= 0xA5FED6A9B1508BABint * 0x8000000000000000int);
    assert(0xA5FED6A9B1516A7Cint * 0x8000000000000000int <= 0x91C3D373AB11D8FAint * 0x91C3D373AB11D8FAint);
    lemma_chain_upper(0x2FA4D4C5FF0DDFint, 4, 0x91C3D373AB117725int, 794, 63, 0xA5FED6A9B1508BABint);
    lemma_chain_lower(0x2FA4D4C5FF0DE1int, 4, 0x91C3D373AB11D8FAint, 794, 63, 0xA5FED6A9B1516A7Cint);
    assert(0xA5FED6A9B1508BABint * 0xA5FED6A9B1508BABint <= 0xD744FCCAD69BA99Cint * 0x8000000000000000int);
    assert(0xD744FCCAD69DEB85int * 0x8000000000000000int <= 0xA5FED6A9B1516A7Cint * 0xA5FED6A9B1516A7Cint);
    lemma_chain_upper(0x2FA4D4C5FF0DDFint, 5, 0xA5FED6A9B1508BABint, 1651, 63, 0xD744FCCAD69BA99Cint);
    lemma_chain_lower(0x2FA4D4C5FF0DE1int, 5, 0xA5FED6A9B1516A7Cint, 1651, 63, 0xD744FCCAD69DEB85int);
    assert(0xD744FCCAD69BA99Cint * 0xD744FCCAD69BA99Cint <= 0xB504F333F9DB70D0int * 0x10000000000000000int);
    assert(0xB504F333F9DF3CBCint * 0x10000000000000000int <= 0xD744FCCAD69DEB85int * 0xD744FCCAD69DEB85int);
    lemma_chain_upper(0x2FA4D4C5FF0DDFint, 6, 0xD744FCCAD69BA99Cint, 3365, 64, 0xB504F333F9DB70D0int);
    lemma_chain_lower(0x2FA4D4C5FF0DE1int, 6, 0xD744FCCAD69DEB85int, 3365, 64, 0xB504F333F9DF3CBCint);
    assert(0xB504F333F9DB70D0int * 0xB504F333F9DB70D0int <= 0xFFFFFFFFFFF7A68Cint * 0x8000000000000000int);
    assert(0x1000000000002638Eint * 0x8000000000000000int <= 0xB504F333F9DF3CBCint * 0xB504F333F9DF3CBCint);
    lemma_chain_upper(0x2FA4D4C5FF0DDFint, 7, 0xB504F333F9DB70D0int, 6794, 63, 0xFFFFFFFFFFF7A68Cint);
    lemma_chain_lower(0x2FA4D4C5FF0DE1int, 7, 0xB504F333F9DF3CBCint, 6794, 63, 0x1000000000002638Eint);
    lemma_chains_round(0x3FE7_D26A_62FF_86F0u64, 147, 8, 1, 0x2FA4D4C5FF0DDFint, 0x2FA4D4C5FF0DE1int, 0xFFFFFFFFFFF7A68Cint, 0x1000000000002638Eint, 13651, 64);
}

/// Boundary 149 of schema 8, checked through its squaring chains.
proof fn rounded_8_149()
    ensures
        rounds_root(0x3FE7_F387_8491_C491u64, 149, 8),
{
    lemma2_to64();
    lemma2_to64_rest();
    lemma_chain_start(0x2FE70F09238921int);
    lemma_chain_start(0x2FE70F09238923int);
    assert(0x2FE70F09238921int * 0x2FE70F09238921int <= 0x8F6A8117E6C8E153int * 0x100000000000int);
    assert(0x8F6A8117E6C8ED4Cint * 0x100000000000int <= 0x2FE70F09238923int * 0x2FE70F09238923int);
    lemma_chain_upper(0x2FE70F09238921int, 0, 0x2FE70F09238921int, 0, 44, 0x8F6A8117E6C8E153int);
    lemma_chain_lower(0x2FE70F09238923int, 0, 0x2FE70F09238923int, 0, 44, 0x8F6A8117E6C8ED4Cint);
    assert(0x8F6A8117E6C8E153int * 0x8F6A8117E6C8E153int <= 0xA0B0510FB97145CFint * 0x8000000000000000int);
    assert(0xA0B0510FB97160A2int * 0x8000000000000000int <= 0x8F6A8117E6C8ED4Cint * 0x8F6A8117E6C8ED4Cint);
    lemma_chain_upper(0x2FE70F09238921int, 1, 0x8F6A8117E6C8E153int, 44, 63, 0xA0B0510FB97145CFint);
    lemma_chain_lower(0x2FE70F09238923int, 1, 0x8F6A8117E6C8ED4Cint, 44, 63, 0xA0B0510FB97160A2int);
    assert(0xA0B0510FB97145CFint * 0xA0B0510FB97145CFint <= 0xC9B9BD866E2F0EA8int * 0x8000000000000000int);
    assert(0xC9B9BD866E2F5200int * 0x8000000000000000int <= 0xA0B0510FB97160A2int * 0xA0B0510FB97160A2int);
    lemma_chain_upper(0x2FE70F09238921int, 2, 0xA0B0510FB97145CFint, 151, 63, 0xC9B9BD866E2F0EA8int);
    lemma_chain_lower(0x2FE70F09238923int, 2, 0xA0B0510FB97160A2int, 151, 63, 0xC9B9BD866E2F5200int);
    assert(0xC9B9BD866E2F0EA8int * 0xC9B9BD866E2F0EA8int <= 0x9EF5326091A0EA51int * 0x10000000000000000int);
    assert(0x9EF5326091A15471int * 0x10000000000000000int <= 0xC9B9BD866E2F5200int * 0xC9B9BD866E2F5200int);
    lemma_chain_upper(0x2FE70F09238921int, 3, 0xC9B9BD866E2F0EA8int, 365, 64, 0x9EF5326091A0EA51int);
    lemma_chain_lower(0x2FE70F09238923int, 3, 0xC9B9BD866E2F5200int, 365, 64, 0x9EF5326091A15471int);
    assert(0x9EF5326091A0EA51int * 0x9EF5326091A0EA51int <= 0xC5672A115506791Aint * 0x8000000000000000int);
    assert(0xC5672A11550780AFint * 0x8000000000000000int <= 0x9EF5326091A15471int * 0x9EF5326091A15471int);
    lemma_chain_upper(0x2FE70F09238921int, 4, 0x9EF5326091A0EA51int, 794, 63, 0xC5672A115506791Aint);
    lemma_chain_lower(0x2FE70F09238923int, 4, 0x9EF5326091A15471int, 794, 63, 0xC5672A11550780AFint);
    assert(0xC5672A115506791Aint * 0xC5672A115506791Aint <= 0x9837F0518DB812AAint * 0x10000000000000000int);
    assert(0x9837F0518DB9A929int * 0x10000000000000000int <= 0xC5672A11550780AFint * 0xC5672A11550780AFint);
    lemma_chain_upper(0x2FE70F09238921int, 5, 0xC5672A115506791Aint, 1651, 64, 0x9837F0518DB812AAint);
    lemma_chain_lower(0x2FE70F09238923int, 5, 0xC5672A11550780AFint, 1651, 64, 0x9837F0518DB9A929int);
    assert(0x9837F0518DB812AAint * 0x9837F0518DB812AAint <= 0xB504F333F9DCFDEDint * 0x8000000000000000int);
    assert(0xB504F333F9E0C4BCint * 0x8000000000000000int <= 0x9837F0518DB9A929int * 0x9837F0518DB9A929int);
    lemma_chain_upper(0x2FE70F09238921int, 6, 0x9837F0518DB812AAint, 3366, 63, 0xB504F333F9DCFDEDint);
    lemma_chain_lower(0x2FE70F09238923int, 6, 0x9837F0518DB9A929int, 3366, 63, 0xB504F333F9E0C4BCint);
    assert(0xB504F333F9DCFDEDint * 0xB504F333F9DCFDEDint <= 0xFFFFFFFFFFFC09C1int * 0x8000000000000000int);
    assert(0x1000000000006B84Cint * 0x8000000000000000int <= 0xB504F333F9E0C4BCint * 0xB504F333F9E0C4BCint);
    lemma_chain_upper(0x2FE70F09238921int, 7, 0xB504F333F9DCFDEDint, 6795, 63, 0xFFFFFFFFFFFC09C1int);
    lemma_chain_lower(0x2FE70F09238923int, 7, 0xB504F333F9E0C4BCint, 6795, 63, 0x1000000000006B84Cint);
    lemma_chains_round(0x3FE7_F387_8491_C491u64, 149, 8, 1, 0x2FE70F09238921int, 0x2FE70F09238923int, 0xFFFFFFFFFFFC09C1int, 0x1000000000006B84Cint, 13653, 64);
}

/// Boundary 151 of schema 8, checked through its squaring chains.
proof fn rounded_8_151()
    ensures
        rounds_root(0x3FE8_14D2_ADD1_06D9u64, 151, 8),
{
    lemma2_to64();
    lemma2_to64_rest();
    lemma_chain_start(0x3029A55BA20DB1int);
    lemma_chain_start(0x3029A55BA20DB3int);
    assert(0x3029A55BA20DB1int * 0x3029A55BA20DB1int <= 0x90FA4C8BEEE4A750int * 0x100000000000int);
    assert(0x90FA4C8BEEE4B359int * 0x100000000000int <= 0x3029A55BA20DB3int * 0x3029A55BA20DB3int);
    lemma_chain_upper(0x3029A55BA20DB1int, 0, 0x3029A55BA20DB1int, 0, 44, 0x90FA4C8BEEE4A750int);
    lemma_chain_lower(0x3029A55BA20DB3int, 0, 0x3029A55BA20DB3int, 0, 44, 0x90FA4C8BEEE4B359int);
    assert(0x90FA4C8BEEE4A750int * 0x90FA4C8BEEE4A750int <= 0xA43515AE09E66A4Cint * 0x8000000000000000int);
    assert(0xA43515AE09E6858Eint * 0x8000000000000000int <= 0x90FA4C8BEEE4B359int * 0x90FA4C8BEEE4B359int);
    lemma_chain_upper(0x3029A55BA20DB1int, 1, 0x90FA4C8BEEE4A750int, 44, 63, 0xA43515AE09E66A4Cint);
    lemma_chain_lower(0x3029A55BA20DB3int, 1, 0x90FA4C8BEEE4B359int, 44, 63, 0xA43515AE09E6858Eint);
    assert(0xA43515AE09E66A4Cint * 0xA43515AE09E66A4Cint <= 0xD2A81D91F12AAB16int * 0x8000000000000000int);
    assert(0xD2A81D91F12AF105int * 0x8000000000000000int <= 0xA43515AE09E6858Eint * 0xA43515AE09E6858Eint);
    lemma_chain_upper(0x3029A55BA20DB1int, 2, 0xA43515AE09E66A4Cint, 151, 63, 0xD2A81D91F12AAB16int);
    lemma_chain_lower(0x3029A55BA20DB3int, 2, 0xA43515AE09E6858Eint, 151, 63, 0xD2A81D91F12AF105int);
    assert(0xD2A81D91F12AAB16int * 0xD2A81D91F12AAB16int <= 0xAD583EEA42A0EC88int * 0x10000000000000000int);
    assert(0xAD583EEA42A15F9Fint * 0x10000000000000000int <= 0xD2A81D91F12AF105int * 0xD2A81D91F12AF105int);
    lemma_chain_upper(0x3029A55BA20DB1int, 3, 0xD2A81D91F12AAB16int, 365, 64, 0xAD583EEA42A0EC88int);
    lemma_chain_lower(0x3029A55BA20DB3int, 3, 0xD2A81D91F12AF105int, 365, 64, 0xAD583EEA42A15F9Fint);
    assert(0xAD583EEA42A0EC88int * 0xAD583EEA42A0EC88int <= 0xEAC0C6E7DD2339EDint * 0x8000000000000000int);
    assert(0xEAC0C6E7DD2471A5int * 0x8000000000000000int <= 0xAD583EEA42A15F9Fint * 0xAD583EEA42A15F9Fint);
    lemma_chain_upper(0x3029A55BA20DB1int, 4, 0xAD583EEA42A0EC88int, 794, 63, 0xEAC0C6E7DD2339EDint);
    lemma_chain_lower(0x3029A55BA20DB3int, 4, 0xAD583EEA42A15F9Fint, 794, 63, 0xEAC0C6E7DD2471A5int);
    assert(0xEAC0C6E7DD2339EDint * 0xEAC0C6E7DD2339EDint <= 0xD744FCCAD69B96D0int * 0x10000000000000000int);
    assert(0xD744FCCAD69DD281int * 0x10000000000000000int <= 0xEAC0C6E7DD2471A5int * 0xEAC0C6E7DD2471A5int);
    lemma_chain_upper(0x3029A55BA20DB1int, 5, 0xEAC0C6E7DD2339EDint, 1651, 64, 0xD744FCCAD69B96D0int);
    lemma_chain_lower(0x3029A55BA20DB3int, 5, 0xEAC0C6E7DD2471A5int, 1651, 64, 0xD744FCCAD69DD281int);
    assert(0xD744FCCAD69B96D0int * 0xD744FCCAD69B96D0int <= 0xB504F333F9DB5134int * 0x10000000000000000int);
    assert(0xB504F333F9DF12AAint * 0x10000000000000000int <= 0xD744FCCAD69DD281int * 0xD744FCCAD69DD281int);
    lemma_chain_upper(0x3029A55BA20DB1int, 6, 0xD744FCCAD69B96D0int, 3366, 64, 0xB504F333F9DB5134int);
    lemma_chain_lower(0x3029A55BA20DB3int, 6, 0xD744FCCAD69DD281int, 3366, 64, 0xB504F333F9DF12AAint);
    assert(0xB504F333F9DB5134int * 0xB504F333F9DB5134int <= 0xFFFFFFFFFFF74D24int * 0x8000000000000000int);
    assert(0x1000000000001EC8Fint * 0x8000000000000000int <= 0xB504F333F9DF12AAint * 0xB504F333F9DF12AAint);
    lemma_chain_upper(0x3029A55BA20DB1int, 7, 0xB504F333F9DB5134int, 6796, 63, 0xFFFFFFFFFFF74D24int);
    lemma_chain_lower(0x3029A55BA20DB3int, 7, 0xB504F333F9DF12AAint, 6796, 63, 0x1000000000001EC8Fint);
    lemma_chains_round(0x3FE8_14D2_ADD1_06D9u64, 151, 8, 1, 0x3029A55BA20DB1int, 0x3029A55BA20DB3int, 0xFFFFFFFFFFF74D24int, 0x1000000000001EC8Fint, 13655, 64);
}

/// Boundary 153 of schema 8, checked through its squaring chains.
proof fn rounded_8_153()
    ensures
        rounds_root(0x3FE8_364C_1EB9_41F7u64, 153, 8),
{
    lemma2_to64();
    lemma2_to64_rest();
    lemma_chain_start(0x306C983D7283EDint);
    lemma_chain_start(0x306C983D7283EFint);
    assert(0x306C983D7283EDint * 0x306C983D7283EDint <= 0x928E727D9531EEC7int * 0x100000000000int);
    assert(0x928E727D9531FAE1int * 0x100000000000int <= 0x306C983D7283EFint * 0x306C983D7283EFint);
    lemma_chain_upper(0x306C983D7283EDint, 0, 0x306C983D7283EDint, 0, 44, 0x928E727D9531EEC7int);
    lemma_chain_lower(0x306C983D7283EFint, 0, 0x306C983D7283EFint, 0, 44, 0x928E727D9531FAE1int);
    assert(0x928E727D9531EEC7int * 0x928E727D9531EEC7int <= 0xA7CD93B4E9651C77int * 0x8000000000000000int);
    assert(0xA7CD93B4E965382Dint * 0x8000000000000000int <= 0x928E727D9531FAE1int * 0x928E727D9531FAE1int);
    lemma_chain_upper(0x306C983D7283EDint, 1, 0x928E727D9531EEC7int, 44, 63, 0xA7CD93B4E9651C77int);
    lemma_chain_lower(0x306C983D7283EFint, 1, 0x928E727D9531FAE1int, 44, 63, 0xA7CD93B4E965382Dint);
    assert(0xA7CD93B4E9651C77int * 0xA7CD93B4E9651C77int <= 0xDBFBB797DAF1F5EDint * 0x8000000000000000int);
    assert(0xDBFBB797DAF23E93int * 0x8000000000000000int <= 0xA7CD93B4E965382Dint * 0xA7CD93B4E965382Dint);
    lemma_chain_upper(0x306C983D7283EDint, 2, 0xA7CD93B4E9651C77int, 151, 63, 0xDBFBB797DAF1F5EDint);
    lemma_chain_lower(0x306C983D7283EFint, 2, 0xA7CD93B4E965382Dint, 151, 63, 0xDBFBB797DAF23E93int);
    assert(0xDBFBB797DAF1F5EDint * 0xDBFBB797DAF1F5EDint <= 0xBD08A39F580BC656int * 0x10000000000000000int);
    assert(0xBD08A39F580C4330int * 0x10000000000000000int <= 0xDBFBB797DAF23E93int * 0xDBFBB797DAF23E93int);
    lemma_chain_upper(0x306C983D7283EDint, 3, 0xDBFBB797DAF1F5EDint, 365, 64, 0xBD08A39F580BC656int);
    lemma_chain_lower(0x306C983D7283EFint, 3, 0xDBFBB797DAF23E93int, 365, 64, 0xBD08A39F580C4330int);
    assert(0xBD08A39F580BC656int * 0xBD08A39F580BC656int <= 0x8B95C1E3EA8B30E5int * 0x10000000000000000int);
    assert(0x8B95C1E3EA8BE947int * 0x10000000000000000int <= 0xBD08A39F580C4330int * 0xBD08A39F580C4330int);
    lemma_chain_upper(0x306C983D7283EDint, 4, 0xBD08A39F580BC656int, 794, 64, 0x8B95C1E3EA8B30E5int);
    lemma_chain_lower(0x306C983D7283EFint, 4, 0xBD08A39F580C4330int, 794, 64, 0x8B95C1E3EA8BE947int);
    assert(0x8B95C1E3EA8B30E5int * 0x8B95C1E3EA8B30E5int <= 0x9837F0518DB73F5Fint * 0x8000000000000000int);
    assert(0x9837F0518DB8D182int * 0x8000000000000000int <= 0x8B95C1E3EA8BE947int * 0x8B95C1E3EA8BE947int);
    lemma_chain_upper(0x306C983D7283EDint, 5, 0x8B95C1E3EA8B30E5int, 1652, 63, 0x9837F0518DB73F5Fint);
    lemma_chain_lower(0x306C983D7283EFint, 5, 0x8B95C1E3EA8BE947int, 1652, 63, 0x9837F0518DB8D182int);
    assert(0x9837F0518DB73F5Fint * 0x9837F0518DB73F5Fint <= 0xB504F333F9DB0762int * 0x8000000000000000int);
    assert(0xB504F333F9DEC3D3int * 0x8000000000000000int <= 0x9837F0518DB8D182int * 0x9837F0518DB8D182int);
    lemma_chain_upper(0x306C983D7283EDint, 6, 0x9837F0518DB73F5Fint, 3367, 63, 0xB504F333F9DB0762int);
    lemma_chain_lower(0x306C983D7283EFint, 6, 0x9837F0518DB8D182int, 3367, 63, 0xB504F333F9DEC3D3int);
    assert(0xB504F333F9DB0762int * 0xB504F333F9DB0762int <= 0xFFFFFFFFFFF67C59int * 0x8000000000000000int);
    assert(0x10000000000010D91int * 0x8000000000000000int <= 0xB504F333F9DEC3D3int * 0xB504F333F9DEC3D3int);
    lemma_chain_upper(0x306C983D7283EDint, 7, 0xB504F333F9DB0762int, 6797, 63, 0xFFFFFFFFFFF67C59int);
    lemma_chain_lower(0x306C983D7283EFint, 7, 0xB504F333F9DEC3D3int, 6797, 63, 0x10000000000010D91int);
    lemma_chains_round(0x3FE8_364C_1EB9_41F7u64, 153, 8, 1, 0x306C983D7283EDint, 0x306C983D7283EFint, 0xFFFFFFFFFFF67C59int, 0x10000000000010D91int, 13657, 64);
}

/// Boundary 155 of schema 8, checked through its squaring chains.
proof fn rounded_8_155()
    ensures
        rounds_root(0x3FE8_57F4_179F_5B21u64, 155, 8),
{
    lemma2_to64();
    lemma2_to64_rest();
    lemma_chain_start(0x30AFE82F3EB641int);
    lemma_chain_start(0x30AFE82F3EB643int);
    assert(0x30AFE82F3EB641int * 0x30AFE82F3EB641int <= 0x9426FF0FAB1BFEF5int * 0x100000000000int);
    assert(0x9426FF0FAB1C0B20int * 0x100000000000int <= 0x30AFE82F3EB643int * 0x30AFE82F3EB643int);
    lemma_chain_upper(0x30AFE82F3EB641int, 0, 0x30AFE82F3EB641int, 0, 44, 0x9426FF0FAB1BFEF5int);
    lemma_chain_lower(0x30AFE82F3EB643int, 0, 0x30AFE82F3EB643int, 0, 44, 0x9426FF0FAB1C0B20int);
    assert(0x9426FF0FAB1BFEF5int * 0x9426FF0FAB1BFEF5int <= 0xAB7A39B5A93EC5E5int * 0x8000000000000000int);
    assert(0xAB7A39B5A93EE20Fint * 0x8000000000000000int <= 0x9426FF0FAB1C0B20int * 0x9426FF0FAB1C0B20int);
    lemma_chain_upper(0x30AFE82F3EB641int, 1, 0x9426FF0FAB1BFEF5int, 44, 63, 0xAB7A39B5A93EC5E5int);
    lemma_chain_lower(0x30AFE82F3EB643int, 1, 0x9426FF0FAB1C0B20int, 44, 63, 0xAB7A39B5A93EE20Fint);
    assert(0xAB7A39B5A93EC5E5int * 0xAB7A39B5A93EC5E5int <= 0xE5B906E77C8324F7int * 0x8000000000000000int);
    assert(0xE5B906E77C83706Cint * 0x8000000000000000int <= 0xAB7A39B5A93EE20Fint * 0xAB7A39B5A93EE20Fint);
    lemma_chain_upper(0x30AFE82F3EB641int, 2, 0xAB7A39B5A93EC5E5int, 151, 63, 0xE5B906E77C8324F7int);
    lemma_chain_lower(0x30AFE82F3EB643int, 2, 0xAB7A39B5A93EE20Fint, 151, 63, 0xE5B906E77C83706Cint);
    assert(0xE5B906E77C8324F7int * 0xE5B906E77C8324F7int <= 0xCE248C151F8440D6int * 0x10000000000000000int);
    assert(0xCE248C151F84C841int * 0x10000000000000000int <= 0xE5B906E77C83706Cint * 0xE5B906E77C83706Cint);
    lemma_chain_upper(0x30AFE82F3EB641int, 3, 0xE5B906E77C8324F7int, 365, 64, 0xCE248C151F8440D6int);
    lemma_chain_lower(0x30AFE82F3EB643int, 3, 0xE5B906E77C83706Cint, 365, 64, 0xCE248C151F84C841int);
    assert(0xCE248C151F8440D6int * 0xCE248C151F8440D6int <= 0xA5FED6A9B150D1C2int * 0x10000000000000000int);
    assert(0xA5FED6A9B151ABD8int * 0x10000000000000000int <= 0xCE248C151F84C841int * 0xCE248C151F84C841int);
    lemma_chain_upper(0x30AFE82F3EB641int, 4, 0xCE248C151F8440D6int, 794, 64, 0xA5FED6A9B150D1C2int);
    lemma_chain_lower(0x30AFE82F3EB643int, 4, 0xCE248C151F84C841int, 794, 64, 0xA5FED6A9B151ABD8int);
    assert(0xA5FED6A9B150D1C2int * 0xA5FED6A9B150D1C2int <= 0xD744FCCAD69C5F67int * 0x8000000000000000int);
    assert(0xD744FCCAD69E950Bint * 0x8000000000000000int <= 0xA5FED6A9B151ABD8int * 0xA5FED6A9B151ABD8int);
    lemma_chain_upper(0x30AFE82F3EB641int, 5, 0xA5FED6A9B150D1C2int, 1652, 63, 0xD744FCCAD69C5F67int);
    lemma_chain_lower(0x30AFE82F3EB643int, 5, 0xA5FED6A9B151ABD8int, 1652, 63, 0xD744FCCAD69E950Bint);
    assert(0xD744FCCAD69C5F67int * 0xD744FCCAD69C5F67int <= 0xB504F333F9DCA28Dint * 0x10000000000000000int);
    assert(0xB504F333F9E059D7int * 0x10000000000000000int <= 0xD744FCCAD69E950Bint * 0xD744FCCAD69E950Bint);
    lemma_chain_upper(0x30AFE82F3EB641int, 6, 0xD744FCCAD69C5F67int, 3367, 64, 0xB504F333F9DCA28Dint);
    lemma_chain_lower(0x30AFE82F3EB643int, 6, 0xD744FCCAD69E950Bint, 3367, 64, 0xB504F333F9E059D7int);
    assert(0xB504F333F9DCA28Dint * 0xB504F333F9DCA28Dint <= 0xFFFFFFFFFFFB074Eint * 0x8000000000000000int);
    assert(0x100000000000589F4int * 0x8000000000000000int <= 0xB504F333F9E059D7int * 0xB504F333F9E059D7int);
    lemma_chain_upper(0x30AFE82F3EB641int, 7, 0xB504F333F9DCA28Dint, 6798, 63, 0xFFFFFFFFFFFB074Eint);
    lemma_chain_lower(0x30AFE82F3EB643int, 7, 0xB504F333F9E059D7int, 6798, 63, 0x100000000000589F4int);
    lemma_chains_round(0x3FE8_57F4_179F_5B21u64, 155, 8, 1, 0x30AFE82F3EB641int, 0x30AFE82F3EB643int, 0xFFFFFFFFFFFB074Eint, 0x100000000000589F4int, 13659, 64);
}

/// Boundary 157 of schema 8, checked through its squaring chains.
proof fn rounded_8_157()
    ensures
        rounds_root(0x3FE8_79CA_D931_A436u64, 157, 8),
{
    lemma2_to64();
    lemma2_to64_rest();
    lemma_chain_start(0x30F395B263486Bint);
    lemma_chain_start(0x30F395B263486Dint);
    assert(0x30F395B263486Bint * 0x30F395B263486Bint <= 0x95C3FE86D6CC77BBint * 0x100000000000int);
    assert(0x95C3FE86D6CC83F7int * 0x100000000000int <= 0x30F395B263486Dint * 0x30F395B263486Dint);
    lemma_chain_upper(0x30F395B263486Bint, 0, 0x30F395B263486Bint, 0, 44, 0x95C3FE86D6CC77BBint);
    lemma_chain_lower(0x30F395B263486Dint, 0, 0x30F395B263486Dint, 0, 44, 0x95C3FE86D6CC83F7int);
    assert(0x95C3FE86D6CC77BBint * 0x95C3FE86D6CC77BBint <= 0xAF3B78AD690A3043int * 0x8000000000000000int);
    assert(0xAF3B78AD690A4CE3int * 0x8000000000000000int <= 0x95C3FE86D6CC83F7int * 0x95C3FE86D6CC83F7int);
    lemma_chain_upper(0x30F395B263486Bint, 1, 0x95C3FE86D6CC77BBint, 44, 63, 0xAF3B78AD690A3043int);
    lemma_chain_lower(0x30F395B263486Dint, 1, 0x95C3FE86D6CC83F7int, 44, 63, 0xAF3B78AD690A4CE3int);
    assert(0xAF3B78AD690A3043int * 0xAF3B78AD690A3043int <= 0xEFE4B99BDCDAC13Eint * 0x8000000000000000int);
    assert(0xEFE4B99BDCDB0F9Dint * 0x8000000000000000int <= 0xAF3B78AD690A4CE3int * 0xAF3B78AD690A4CE3int);
    lemma_chain_upper(0x30F395B263486Bint, 2, 0xAF3B78AD690A3043int, 151, 63, 0xEFE4B99BDCDAC13Eint);
    lemma_chain_lower(0x30F395B263486Dint, 2, 0xAF3B78AD690A4CE3int, 151, 63, 0xEFE4B99BDCDB0F9Dint);
    assert(0xEFE4B99BDCDAC13Eint * 0xEFE4B99BDCDAC13Eint <= 0xE0CCDEEC2A947E94int * 0x10000000000000000int);
    assert(0xE0CCDEEC2A951174int * 0x10000000000000000int <= 0xEFE4B99BDCDB0F9Dint * 0xEFE4B99BDCDB0F9Dint);
    lemma_chain_upper(0x30F395B263486Bint, 3, 0xEFE4B99BDCDAC13Eint, 365, 64, 0xE0CCDEEC2A947E94int);
    lemma_chain_lower(0x30F395B263486Dint, 3, 0xEFE4B99BDCDB0F9Dint, 365, 64, 0xE0CCDEEC2A951174int);
    assert(0xE0CCDEEC2A947E94int * 0xE0CCDEEC2A947E94int <= 0xC5672A1155062DE5int * 0x10000000000000000int);
    assert(0xC5672A1155072FD7int * 0x10000000000000000int <= 0xE0CCDEEC2A951174int * 0xE0CCDEEC2A951174int);
    lemma_chain_upper(0x30F395B263486Bint, 4, 0xE0CCDEEC2A947E94int, 794, 64, 0xC5672A1155062DE5int);
    lemma_chain_lower(0x30F395B263486Dint, 4, 0xE0CCDEEC2A951174int, 794, 64, 0xC5672A1155072FD7int);
    assert(0xC5672A1155062DE5int * 0xC5672A1155062DE5int <= 0x9837F0518DB79EAEint * 0x10000000000000000int);
    assert(0x9837F0518DB92C7Cint * 0x10000000000000000int <= 0xC5672A1155072FD7int * 0xC5672A1155072FD7int);
    lemma_chain_upper(0x30F395B263486Bint, 5, 0xC5672A1155062DE5int, 1652, 64, 0x9837F0518DB79EAEint);
    lemma_chain_lower(0x30F395B263486Dint, 5, 0xC5672A1155072FD7int, 1652, 64, 0x9837F0518DB92C7Cint);
    assert(0x9837F0518DB79EAEint * 0x9837F0518DB79EAEint <= 0xB504F333F9DBEA11int * 0x8000000000000000int);
    assert(0xB504F333F9DF9C35int * 0x8000000000000000int <= 0x9837F0518DB92C7Cint * 0x9837F0518DB92C7Cint);
    lemma_chain_upper(0x30F395B263486Bint, 6, 0x9837F0518DB79EAEint, 3368, 63, 0xB504F333F9DBEA11int);
    lemma_chain_lower(0x30F395B263486Dint, 6, 0x9837F0518DB92C7Cint, 3368, 63, 0xB504F333F9DF9C35int);
    assert(0xB504F333F9DBEA11int * 0xB504F333F9DBEA11int <= 0xFFFFFFFFFFF8FD81int * 0x8000000000000000int);
    assert(0x10000000000037197int * 0x8000000000000000int <= 0xB504F333F9DF9C35int * 0xB504F333F9DF9C35int);
    lemma_chain_upper(0x30F395B263486Bint, 7, 0xB504F333F9DBEA11int, 6799, 63, 0xFFFFFFFFFFF8FD81int);
    lemma_chain_lower(0x30F395B263486Dint, 7, 0xB504F333F9DF9C35int, 6799, 63, 0x10000000000037197int);
    lemma_chains_round(0x3FE8_79CA_D931_A436u64, 157, 8, 1, 0x30F395B263486Bint, 0x30F395B263486Dint, 0xFFFFFFFFFFF8FD81int, 0x10000000000037197int, 13661, 64);
}

/// Boundary 159 of schema 8, checked through its squaring chains.
proof fn rounded_8_159()
    ensures
        rounds_root(0x3FE8_9BD0_A478_580Fu64, 159, 8),
{
    lemma2_to64();
    lemma2_to64_rest();
    lemma_chain_start(0x3137A148F0B01Dint);
    lemma_chain_start(0x3137A148F0B01Fint);
    assert(0x3137A148F0B01Dint * 0x3137A148F0B01Dint <= 0x97657D49F17AA4C4int * 0x100000000000int);
    assert(0x97657D49F17AB111int * 0x100000000000int <= 0x3137A148F0B01Fint * 0x3137A148F0B01Fint);
    lemma_chain_upper(0x3137A148F0B01Dint, 0, 0x3137A148F0B01Dint, 0, 44, 0x97657D49F17AA4C4int);
    lemma_chain_lower(0x3137A148F0B01Fint, 0, 0x3137A148F0B01Fint, 0, 44, 0x97657D49F17AB111int);
    assert(0x97657D49F17AA4C4int * 0x97657D49F17AA4C4int <= 0xB311C412A91108A6int * 0x8000000000000000int);
    assert(0xB311C412A91125BEint * 0x8000000000000000int <= 0x97657D49F17AB111int * 0x97657D49F17AB111int);
    lemma_chain_upper(0x3137A148F0B01Dint, 1, 0x97657D49F17AA4C4int, 44, 63, 0xB311C412A91108A6int);
    lemma_chain_lower(0x3137A148F0B01Fint, 1, 0x97657D49F17AB111int, 44, 63, 0xB311C412A91125BEint);
    assert(0xB311C412A91108A6int * 0xB311C412A91108A6int <= 0xFA83B2DB7229B534int * 0x8000000000000000int);
    assert(0xFA83B2DB722A069Aint * 0x8000000000000000int <= 0xB311C412A91125BEint * 0xB311C412A91125BEint);
    lemma_chain_upper(0x3137A148F0B01Dint, 2, 0xB311C412A91108A6int, 151, 63, 0xFA83B2DB7229B534int);
    lemma_chain_lower(0x3137A148F0B01Fint, 2, 0xB311C412A91125BEint, 151, 63, 0xFA83B2DB722A069Aint);
    assert(0xFA83B2DB7229B534int * 0xFA83B2DB7229B534int <= 0xF5257D1524863378int * 0x10000000000000000int);
    assert(0xF5257D152486D2C6int * 0x10000000000000000int <= 0xFA83B2DB722A069Aint * 0xFA83B2DB722A069Aint);
    lemma_chain_upper(0x3137A148F0B01Dint, 3, 0xFA83B2DB7229B534int, 365, 64, 0xF5257D1524863378int);
    lemma_chain_lower(0x3137A148F0B01Fint, 3, 0xFA83B2DB722A069Aint, 365, 64, 0xF5257D152486D2C6int);
    assert(0xF5257D1524863378int * 0xF5257D1524863378int <= 0xEAC0C6E7DD2314B9int * 0x10000000000000000int);
    assert(0xEAC0C6E7DD2445D2int * 0x10000000000000000int <= 0xF5257D152486D2C6int * 0xF5257D152486D2C6int);
    lemma_chain_upper(0x3137A148F0B01Dint, 4, 0xF5257D1524863378int, 794, 64, 0xEAC0C6E7DD2314B9int);
    lemma_chain_lower(0x3137A148F0B01Fint, 4, 0xF5257D152486D2C6int, 794, 64, 0xEAC0C6E7DD2445D2int);
    assert(0xEAC0C6E7DD2314B9int * 0xEAC0C6E7DD2314B9int <= 0xD744FCCAD69B5295int * 0x10000000000000000int);
    assert(0xD744FCCAD69D8221int * 0x10000000000000000int <= 0xEAC0C6E7DD2445D2int * 0xEAC0C6E7DD2445D2int);
    lemma_chain_upper(0x3137A148F0B01Dint, 5, 0xEAC0C6E7DD2314B9int, 1652, 64, 0xD744FCCAD69B5295int);
    lemma_chain_lower(0x3137A148F0B01Fint, 5, 0xEAC0C6E7DD2445D2int, 1652, 64, 0xD744FCCAD69D8221int);
    assert(0xD744FCCAD69B5295int * 0xD744FCCAD69B5295int <= 0xB504F333F9DADE74int * 0x10000000000000000int);
    assert(0xB504F333F9DE8B7Eint * 0x10000000000000000int <= 0xD744FCCAD69D8221int * 0xD744FCCAD69D8221int);
    lemma_chain_upper(0x3137A148F0B01Dint, 6, 0xD744FCCAD69B5295int, 3368, 64, 0xB504F333F9DADE74int);
    lemma_chain_lower(0x3137A148F0B01Fint, 6, 0xD744FCCAD69D8221int, 3368, 64, 0xB504F333F9DE8B7Eint);
    assert(0xB504F333F9DADE74int * 0xB504F333F9DADE74int <= 0xFFFFFFFFFFF60894int * 0x8000000000000000int);
    assert(0x10000000000006E3Dint * 0x8000000000000000int <= 0xB504F333F9DE8B7Eint * 0xB504F333F9DE8B7Eint);
    lemma_chain_upper(0x3137A148F0B01Dint, 7, 0xB504F333F9DADE74int, 6800, 63, 0xFFFFFFFFFFF60894int);
    lemma_chain_lower(0x3137A148F0B01Fint, 7, 0xB504F333F9DE8B7Eint, 6800, 63, 0x10000000000006E3Dint);
    lemma_chains_round(0x3FE8_9BD0_A478_580Fu64, 159, 8, 1, 0x3137A148F0B01Dint, 0x3137A148F0B01Fint, 0xFFFFFFFFFFF60894int, 0x10000000000006E3Dint, 13663, 64);
}

/// Boundary 161 of schema 8, checked through its squaring chains.
proof fn rounded_8_161()
    ensures
        rounds_root(0x3FE8_BE05_BAD6_1778u64, 161, 8),
{
    lemma2_to64();
    lemma2_to64_rest();
    lemma_chain_start(0x317C0B75AC2EEFint);
    lemma_chain_start(0x317C0B75AC2EF1int);
    assert(0x317C0B75AC2EEFint * 0x317C0B75AC2EEFint <= 0x990B87E266C17D87int * 0x100000000000int);
    assert(0x990B87E266C189E5int * 0x100000000000int <= 0x317C0B75AC2EF1int * 0x317C0B75AC2EF1int);
    lemma_chain_upper(0x317C0B75AC2EEFint, 0, 0x317C0B75AC2EEFint, 0, 44, 0x990B87E266C17D87int);
    lemma_chain_lower(0x317C0B75AC2EF1int, 0, 0x317C0B75AC2EF1int, 0, 44, 0x990B87E266C189E5int);
    assert(0x990B87E266C17D87int * 0x990B87E266C17D87int <= 0xB6FD91E328D15A8Cint * 0x8000000000000000int);
    assert(0xB6FD91E328D1781Eint * 0x8000000000000000int <= 0x990B87E266C189E5int * 0x990B87E266C189E5int);
    lemma_chain_upper(0x317C0B75AC2EEFint, 1, 0x990B87E266C17D87int, 44, 63, 0xB6FD91E328D15A8Cint);
    lemma_chain_lower(0x317C0B75AC2EF1int, 1, 0x990B87E266C189E5int, 44, 63, 0xB6FD91E328D1781Eint);
    assert(0xB6FD91E328D15A8Cint * 0xB6FD91E328D15A8Cint <= 0x82CD8698AC2B785Bint * 0x10000000000000000int);
    assert(0x82CD8698AC2BA2A0int * 0x10000000000000000int <= 0xB6FD91E328D1781Eint * 0xB6FD91E328D1781Eint);
    lemma_chain_upper(0x317C0B75AC2EEFint, 2, 0xB6FD91E328D15A8Cint, 151, 64, 0x82CD8698AC2B785Bint);
    lemma_chain_lower(0x317C0B75AC2EF1int, 2, 0xB6FD91E328D1781Eint, 151, 64, 0x82CD8698AC2BA2A0int);
    assert(0x82CD8698AC2B785Bint * 0x82CD8698AC2B785Bint <= 0x85AAC367CC48264Cint * 0x8000000000000000int);
    assert(0x85AAC367CC487CAFint * 0x8000000000000000int <= 0x82CD8698AC2BA2A0int * 0x82CD8698AC2BA2A0int);
    lemma_chain_upper(0x317C0B75AC2EEFint, 3, 0x82CD8698AC2B785Bint, 366, 63, 0x85AAC367CC48264Cint);
    lemma_chain_lower(0x317C0B75AC2EF1int, 3, 0x82CD8698AC2BA2A0int, 366, 63, 0x85AAC367CC487CAFint);
    assert(0x85AAC367CC48264Cint * 0x85AAC367CC48264Cint <= 0x8B95C1E3EA8B25D4int * 0x8000000000000000int);
    assert(0x8B95C1E3EA8BDA3Fint * 0x8000000000000000int <= 0x85AAC367CC487CAFint * 0x85AAC367CC487CAFint);
    lemma_chain_upper(0x317C0B75AC2EEFint, 4, 0x85AAC367CC48264Cint, 795, 63, 0x8B95C1E3EA8B25D4int);
    lemma_chain_lower(0x317C0B75AC2EF1int, 4, 0x85AAC367CC487CAFint, 795, 63, 0x8B95C1E3EA8BDA3Fint);
    assert(0x8B95C1E3EA8B25D4int * 0x8B95C1E3EA8B25D4int <= 0x9837F0518DB7273Cint * 0x8000000000000000int);
    assert(0x9837F0518DB8B0BAint * 0x8000000000000000int <= 0x8B95C1E3EA8BDA3Fint * 0x8B95C1E3EA8BDA3Fint);
    lemma_chain_upper(0x317C0B75AC2EEFint, 5, 0x8B95C1E3EA8B25D4int, 1653, 63, 0x9837F0518DB7273Cint);
    lemma_chain_lower(0x317C0B75AC2EF1int, 5, 0x8B95C1E3EA8BDA3Fint, 1653, 63, 0x9837F0518DB8B0BAint);
    assert(0x9837F0518DB7273Cint * 0x9837F0518DB7273Cint <= 0xB504F333F9DACDFAint * 0x8000000000000000int);
    assert(0xB504F333F9DE75DCint * 0x8000000000000000int <= 0x9837F0518DB8B0BAint * 0x9837F0518DB8B0BAint);
    lemma_chain_upper(0x317C0B75AC2EEFint, 6, 0x9837F0518DB7273Cint, 3369, 63, 0xB504F333F9DACDFAint);
    lemma_chain_lower(0x317C0B75AC2EF1int, 6, 0x9837F0518DB8B0BAint, 3369, 63, 0xB504F333F9DE75DCint);
    assert(0xB504F333F9DACDFAint * 0xB504F333F9DACDFAint <= 0xFFFFFFFFFFF5D9FAint * 0x8000000000000000int);
    assert(0x1000000000000310Dint * 0x8000000000000000int <= 0xB504F333F9DE75DCint * 0xB504F333F9DE75DCint);
    lemma_chain_upper(0x317C0B75AC2EEFint, 7, 0xB504F333F9DACDFAint, 6801, 63, 0xFFFFFFFFFFF5D9FAint);
    lemma_chain_lower(0x317C0B75AC2EF1int, 7, 0xB504F333F9DE75DCint, 6801, 63, 0x1000000000000310Dint);
    lemma_chains_round(0x3FE8_BE05_BAD6_1778u64, 161, 8, 1, 0x317C0B75AC2EEFint, 0x317C0B75AC2EF1int, 0xFFFFFFFFFFF5D9FAint, 0x1000000000000310Dint, 13665, 64);
}

/// Boundary 163 of schema 8, checked through its squaring chains.
proof fn rounded_8_163()
    ensures
        rounds_root(0x3FE8_E06A_5E08_66D9u64, 163, 8),
{
    lemma2_to64();
    lemma2_to64_rest();
    lemma_chain_start(0x31C0D4BC10CDB1int);
    lemma_chain_start(0x31C0D4BC10CDB3int);
    assert(0x31C0D4BC10CDB1int * 0x31C0D4BC10CDB1int <= 0x9AB62AFC94FF848Eint * 0x100000000000int);
    assert(0x9AB62AFC94FF90FDint * 0x100000000000int <= 0x31C0D4BC10CDB3int * 0x31C0D4BC10CDB3int);
    lemma_chain_upper(0x31C0D4BC10CDB1int, 0, 0x31C0D4BC10CDB1int, 0, 44, 0x9AB62AFC94FF848Eint);
    lemma_chain_lower(0x31C0D4BC10CDB3int, 0, 0x31C0D4BC10CDB3int, 0, 44, 0x9AB62AFC94FF90FDint);
    assert(0x9AB62AFC94FF848Eint * 0x9AB62AFC94FF848Eint <= 0xBAFF5AB2133E41CAint * 0x8000000000000000int);
    assert(0xBAFF5AB2133E5FD8int * 0x8000000000000000int <= 0x9AB62AFC94FF90FDint * 0x9AB62AFC94FF90FDint);
    lemma_chain_upper(0x31C0D4BC10CDB1int, 1, 0x9AB62AFC94FF848Eint, 44, 63, 0xBAFF5AB2133E41CAint);
    lemma_chain_lower(0x31C0D4BC10CDB3int, 1, 0x9AB62AFC94FF90FDint, 44, 63, 0xBAFF5AB2133E5FD8int);
    assert(0xBAFF5AB2133E41CAint * 0xBAFF5AB2133E41CAint <= 0x88980E8092DA7F08int * 0x10000000000000000int);
    assert(0x88980E8092DAAAEFint * 0x10000000000000000int <= 0xBAFF5AB2133E5FD8int * 0xBAFF5AB2133E5FD8int);
    lemma_chain_upper(0x31C0D4BC10CDB1int, 2, 0xBAFF5AB2133E41CAint, 151, 64, 0x88980E8092DA7F08int);
    lemma_chain_lower(0x31C0D4BC10CDB3int, 2, 0xBAFF5AB2133E5FD8int, 151, 64, 0x88980E8092DAAAEFint);
    assert(0x88980E8092DA7F08int * 0x88980E8092DA7F08int <= 0x91C3D373AB11B625int * 0x8000000000000000int);
    assert(0x91C3D373AB1213D8int * 0x8000000000000000int <= 0x88980E8092DAAAEFint * 0x88980E8092DAAAEFint);
    lemma_chain_upper(0x31C0D4BC10CDB1int, 3, 0x88980E8092DA7F08int, 366, 63, 0x91C3D373AB11B625int);
    lemma_chain_lower(0x31C0D4BC10CDB3int, 3, 0x88980E8092DAAAEFint, 366, 63, 0x91C3D373AB1213D8int);
    assert(0x91C3D373AB11B625int * 0x91C3D373AB11B625int <= 0xA5FED6A9B1511B28int * 0x8000000000000000int);
    assert(0xA5FED6A9B151F08Fint * 0x8000000000000000int <= 0x91C3D373AB1213D8int * 0x91C3D373AB1213D8int);
    lemma_chain_upper(0x31C0D4BC10CDB1int, 4, 0x91C3D373AB11B625int, 795, 63, 0xA5FED6A9B1511B28int);
    lemma_chain_lower(0x31C0D4BC10CDB3int, 4, 0x91C3D373AB1213D8int, 795, 63, 0xA5FED6A9B151F08Fint);
    assert(0xA5FED6A9B1511B28int * 0xA5FED6A9B1511B28int <= 0xD744FCCAD69D1DC6int * 0x8000000000000000int);
    assert(0xD744FCCAD69F4744int * 0x8000000000000000int <= 0xA5FED6A9B151F08Fint * 0xA5FED6A9B151F08Fint);
    lemma_chain_upper(0x31C0D4BC10CDB1int, 5, 0xA5FED6A9B1511B28int, 1653, 63, 0xD744FCCAD69D1DC6int);
    lemma_chain_lower(0x31C0D4BC10CDB3int, 5, 0xA5FED6A9B151F08Fint, 1653, 63, 0xD744FCCAD69F4744int);
    assert(0xD744FCCAD69D1DC6int * 0xD744FCCAD69D1DC6int <= 0xB504F333F9DDE2B8int * 0x10000000000000000int);
    assert(0xB504F333F9E18593int * 0x10000000000000000int <= 0xD744FCCAD69F4744int * 0xD744FCCAD69F4744int);
    lemma_chain_upper(0x31C0D4BC10CDB1int, 6, 0xD744FCCAD69D1DC6int, 3369, 64, 0xB504F333F9DDE2B8int);
    lemma_chain_lower(0x31C0D4BC10CDB3int, 6, 0xD744FCCAD69F4744int, 3369, 64, 0xB504F333F9E18593int);
    assert(0xB504F333F9DDE2B8int * 0xB504F333F9DDE2B8int <= 0xFFFFFFFFFFFE90E1int * 0x8000000000000000int);
    assert(0x1000000000008D9BBint * 0x8000000000000000int <= 0xB504F333F9E18593int * 0xB504F333F9E18593int);
    lemma_chain_upper(0x31C0D4BC10CDB1int, 7, 0xB504F333F9DDE2B8int, 6802, 63, 0xFFFFFFFFFFFE90E1int);
    lemma_chain_lower(0x31C0D4BC10CDB3int, 7, 0xB504F333F9E18593int, 6802, 63, 0x1000000000008D9BBint);
    lemma_chains_round(0x3FE8_E06A_5E08_66D9u64, 163, 8, 1, 0x31C0D4BC10CDB1int, 0x31C0D4BC10CDB3int, 0xFFFFFFFFFFFE90E1int, 0x1000000000008D9BBint, 13667, 64);
}

/// Boundary 165 of schema 8, checked through its squaring chains.
proof fn rounded_8_165()
    ensures
        rounds_root(0x3FE9_02FE_D028_2C8Au64, 165, 8),
{
    lemma2_to64();
    lemma2_to64_rest();
    lemma_chain_start(0x3205FDA0505913int);
    lemma_chain_start(0x3205FDA0505915int);
    assert(0x3205FDA0505913int * 0x3205FDA0505913int <= 0x9C6573682EC321B6int * 0x100000000000int);
    assert(0x9C6573682EC32E36int * 0x100000000000int <= 0x3205FDA0505915int * 0x3205FDA0505915int);
    lemma_chain_upper(0x3205FDA0505913int, 0, 0x3205FDA0505913int, 0, 44, 0x9C6573682EC321B6int);
    lemma_chain_lower(0x3205FDA0505915int, 0, 0x3205FDA0505915int, 0, 44, 0x9C6573682EC32E36int);
    assert(0x9C6573682EC321B6int * 0x9C6573682EC321B6int <= 0xBF1799B67A72F6F0int * 0x8000000000000000int);
    assert(0xBF1799B67A73157Bint * 0x8000000000000000int <= 0x9C6573682EC32E36int * 0x9C6573682EC32E36int);
    lemma_chain_upper(0x3205FDA0505913int, 1, 0x9C6573682EC321B6int, 44, 63, 0xBF1799B67A72F6F0int);
    lemma_chain_lower(0x3205FDA0505915int, 1, 0x9C6573682EC32E36int, 44, 63, 0xBF1799B67A73157Bint);
    assert(0xBF1799B67A72F6F0int * 0xBF1799B67A72F6F0int <= 0x8EA4398B45CD2D93int * 0x10000000000000000int);
    assert(0x8EA4398B45CD5B2Bint * 0x10000000000000000int <= 0xBF1799B67A73157Bint * 0xBF1799B67A73157Bint);
    lemma_chain_upper(0x3205FDA0505913int, 2, 0xBF1799B67A72F6F0int, 151, 64, 0x8EA4398B45CD2D93int);
    lemma_chain_lower(0x3205FDA0505915int, 2, 0xBF1799B67A73157Bint, 151, 64, 0x8EA4398B45CD5B2Bint);
    assert(0x8EA4398B45CD2D93int * 0x8EA4398B45CD2D93int <= 0x9EF5326091A0BC98int * 0x8000000000000000int);
    assert(0x9EF5326091A12235int * 0x8000000000000000int <= 0x8EA4398B45CD5B2Bint * 0x8EA4398B45CD5B2Bint);
    lemma_chain_upper(0x3205FDA0505913int, 3, 0x8EA4398B45CD2D93int, 366, 63, 0x9EF5326091A0BC98int);
    lemma_chain_lower(0x3205FDA0505915int, 3, 0x8EA4398B45CD5B2Bint, 366, 63, 0x9EF5326091A12235int);
    assert(0x9EF5326091A0BC98int * 0x9EF5326091A0BC98int <= 0xC5672A115506078Aint * 0x8000000000000000int);
    assert(0xC5672A11550703EAint * 0x8000000000000000int <= 0x9EF5326091A12235int * 0x9EF5326091A12235int);
    lemma_chain_upper(0x3205FDA0505913int, 4, 0x9EF5326091A0BC98int, 795, 63, 0xC5672A115506078Aint);
    lemma_chain_lower(0x3205FDA0505915int, 4, 0x9EF5326091A12235int, 795, 63, 0xC5672A11550703EAint);
    assert(0xC5672A115506078Aint * 0xC5672A115506078Aint <= 0x9837F0518DB76387int * 0x10000000000000000int);
    assert(0x9837F0518DB8E8BDint * 0x10000000000000000int <= 0xC5672A11550703EAint * 0xC5672A11550703EAint);
    lemma_chain_upper(0x3205FDA0505913int, 5, 0xC5672A115506078Aint, 1653, 64, 0x9837F0518DB76387int);
    lemma_chain_lower(0x3205FDA0505915int, 5, 0xC5672A11550703EAint, 1653, 64, 0x9837F0518DB8E8BDint);
    assert(0x9837F0518DB76387int * 0x9837F0518DB76387int <= 0xB504F333F9DB5D60int * 0x8000000000000000int);
    assert(0xB504F333F9DEFB14int * 0x8000000000000000int <= 0x9837F0518DB8E8BDint * 0x9837F0518DB8E8BDint);
    lemma_chain_upper(0x3205FDA0505913int, 6, 0x9837F0518DB76387int, 3370, 63, 0xB504F333F9DB5D60int);
    lemma_chain_lower(0x3205FDA0505915int, 6, 0x9837F0518DB8E8BDint, 3370, 63, 0xB504F333F9DEFB14int);
    assert(0xB504F333F9DB5D60int * 0xB504F333F9DB5D60int <= 0xFFFFFFFFFFF76F92int * 0x8000000000000000int);
    assert(0x1000000000001A9D9int * 0x8000000000000000int <= 0xB504F333F9DEFB14int * 0xB504F333F9DEFB14int);
    lemma_chain_upper(0x3205FDA0505913int, 7, 0xB504F333F9DB5D60int, 6803, 63, 0xFFFFFFFFFFF76F92int);
    lemma_chain_lower(0x3205FDA0505915int, 7, 0xB504F333F9DEFB14int, 6803, 63, 0x1000000000001A9D9int);
    lemma_chains_round(0x3FE9_02FE_D028_2C8Au64, 165, 8, 1, 0x3205FDA0505913int, 0x3205FDA0505915int, 0xFFFFFFFFFFF76F92int, 0x1000000000001A9D9int, 13669, 64);
}

/// Boundary 167 of schema 8, checked through its squaring chains.
proof fn rounded_8_167()
    ensures
        rounds_root(0x3FE9_25C3_53AA_2FE2u64, 167, 8),
{
    lemma2_to64();
    lemma2_to64_rest();
    lemma_chain_start(0x324B86A7545FC3int);
    lemma_chain_start(0x324B86A7545FC5int);
    assert(0x324B86A7545FC3int * 0x324B86A7545FC3int <= 0x9E196E189D471FBCint * 0x100000000000int);
    assert(0x9E196E189D472C4Eint * 0x100000000000int <= 0x324B86A7545FC5int * 0x324B86A7545FC5int);
    lemma_chain_upper(0x324B86A7545FC3int, 0, 0x324B86A7545FC3int, 0, 44, 0x9E196E189D471FBCint);
    lemma_chain_lower(0x324B86A7545FC5int, 0, 0x324B86A7545FC5int, 0, 44, 0x9E196E189D472C4Eint);
    assert(0x9E196E189D471FBCint * 0x9E196E189D471FBCint <= 0xC346CCDA2497592Fint * 0x8000000000000000int);
    assert(0xC346CCDA2497783Bint * 0x8000000000000000int <= 0x9E196E189D472C4Eint * 0x9E196E189D472C4Eint);
    lemma_chain_upper(0x324B86A7545FC3int, 1, 0x9E196E189D471FBCint, 44, 63, 0xC346CCDA2497592Fint);
    lemma_chain_lower(0x324B86A7545FC5int, 1, 0x9E196E189D472C4Eint, 44, 63, 0xC346CCDA2497783Bint);
    assert(0xC346CCDA2497592Fint * 0xC346CCDA2497592Fint <= 0x94F4EFA8FEF6F8D6int * 0x10000000000000000int);
    assert(0x94F4EFA8FEF72833int * 0x10000000000000000int <= 0xC346CCDA2497783Bint * 0xC346CCDA2497783Bint);
    lemma_chain_upper(0x324B86A7545FC3int, 2, 0xC346CCDA2497592Fint, 151, 64, 0x94F4EFA8FEF6F8D6int);
    lemma_chain_lower(0x324B86A7545FC5int, 2, 0xC346CCDA2497783Bint, 151, 64, 0x94F4EFA8FEF72833int);
    assert(0x94F4EFA8FEF6F8D6int * 0x94F4EFA8FEF6F8D6int <= 0xAD583EEA42A12446int * 0x8000000000000000int);
    assert(0xAD583EEA42A19281int * 0x8000000000000000int <= 0x94F4EFA8FEF72833int * 0x94F4EFA8FEF72833int);
    lemma_chain_upper(0x324B86A7545FC3int, 3, 0x94F4EFA8FEF6F8D6int, 366, 63, 0xAD583EEA42A12446int);
    lemma_chain_lower(0x324B86A7545FC5int, 3, 0x94F4EFA8FEF72833int, 366, 63, 0xAD583EEA42A19281int);
    assert(0xAD583EEA42A12446int * 0xAD583EEA42A12446int <= 0xEAC0C6E7DD23D0E7int * 0x8000000000000000int);
    assert(0xEAC0C6E7DD24FB76int * 0x8000000000000000int <= 0xAD583EEA42A19281int * 0xAD583EEA42A19281int);
    lemma_chain_upper(0x324B86A7545FC3int, 4, 0xAD583EEA42A12446int, 795, 63, 0xEAC0C6E7DD23D0E7int);
    lemma_chain_lower(0x324B86A7545FC5int, 4, 0xAD583EEA42A19281int, 795, 63, 0xEAC0C6E7DD24FB76int);
    assert(0xEAC0C6E7DD23D0E7int * 0xEAC0C6E7DD23D0E7int <= 0xD744FCCAD69CABB4int * 0x10000000000000000int);
    assert(0xD744FCCAD69ECF42int * 0x10000000000000000int <= 0xEAC0C6E7DD24FB76int * 0xEAC0C6E7DD24FB76int);
    lemma_chain_upper(0x324B86A7545FC3int, 5, 0xEAC0C6E7DD23D0E7int, 1653, 64, 0xD744FCCAD69CABB4int);
    lemma_chain_lower(0x324B86A7545FC5int, 5, 0xEAC0C6E7DD24FB76int, 1653, 64, 0xD744FCCAD69ECF42int);
    assert(0xD744FCCAD69CABB4int * 0xD744FCCAD69CABB4int <= 0xB504F333F9DD22E0int * 0x10000000000000000int);
    assert(0xB504F333F9E0BBBFint * 0x10000000000000000int <= 0xD744FCCAD69ECF42int * 0xD744FCCAD69ECF42int);
    lemma_chain_upper(0x324B86A7545FC3int, 6, 0xD744FCCAD69CABB4int, 3370, 64, 0xB504F333F9DD22E0int);
    lemma_chain_lower(0x324B86A7545FC5int, 6, 0xD744FCCAD69ECF42int, 3370, 64, 0xB504F333F9E0BBBFint);
    assert(0xB504F333F9DD22E0int * 0xB504F333F9DD22E0int <= 0xFFFFFFFFFFFC7243int * 0x8000000000000000int);
    assert(0x10000000000069EE0int * 0x8000000000000000int <= 0xB504F333F9E0BBBFint * 0xB504F333F9E0BBBFint);
    lemma_chain_upper(0x324B86A7545FC3int, 7, 0xB504F333F9DD22E0int, 6804, 63, 0xFFFFFFFFFFFC7243int);
    lemma_chain_lower(0x324B86A7545FC5int, 7, 0xB504F333F9E0BBBFint, 6804, 63, 0x10000000000069EE0int);
    lemma_chains_round(0x3FE9_25C3_53AA_2FE2u64, 167, 8, 1, 0x324B86A7545FC3int, 0x324B86A7545FC5int, 0xFFFFFFFFFFFC7243int, 0x10000000000069EE0int, 13671, 64);
}

/// Boundary 169 of schema 8, checked through its squaring chains.
proof fn rounded_8_169()
    ensures
        rounds_root(0x3FE9_48B8_2B5F_98E5u64, 169, 8),
{
    lemma2_to64();
    lemma2_to64_rest();
    lemma_chain_start(0x32917056BF31C9int);
    lemma_chain_start(0x32917056BF31CBint);
    assert(0x32917056BF31C9int * 0x32917056BF31C9int <= 0x9FD228256400D9A5int * 0x100000000000int);
    assert(0x9FD228256400E648int * 0x100000000000int <= 0x32917056BF31CBint * 0x32917056BF31CBint);
    lemma_chain_upper(0x32917056BF31C9int, 0, 0x32917056BF31C9int, 0, 44, 0x9FD228256400D9A5int);
    lemma_chain_lower(0x32917056BF31CBint, 0, 0x32917056BF31CBint, 0, 44, 0x9FD228256400E648int);
    assert(0x9FD228256400D9A5int * 0x9FD228256400D9A5int <= 0xC78D74C8ABB9A8EDint * 0x8000000000000000int);
    assert(0xC78D74C8ABB9C87Bint * 0x8000000000000000int <= 0x9FD228256400E648int * 0x9FD228256400E648int);
    lemma_chain_upper(0x32917056BF31C9int, 1, 0x9FD228256400D9A5int, 44, 63, 0xC78D74C8ABB9A8EDint);
    lemma_chain_lower(0x32917056BF31CBint, 1, 0x9FD228256400E648int, 44, 63, 0xC78D74C8ABB9C87Bint);
    assert(0xC78D74C8ABB9A8EDint * 0xC78D74C8ABB9A8EDint <= 0x9B8D39B9D54E4812int * 0x10000000000000000int);
    assert(0x9B8D39B9D54E7943int * 0x10000000000000000int <= 0xC78D74C8ABB9C87Bint * 0xC78D74C8ABB9C87Bint);
    lemma_chain_upper(0x32917056BF31C9int, 2, 0xC78D74C8ABB9A8EDint, 151, 64, 0x9B8D39B9D54E4812int);
    lemma_chain_lower(0x32917056BF31CBint, 2, 0xC78D74C8ABB9C87Bint, 151, 64, 0x9B8D39B9D54E7943int);
    assert(0x9B8D39B9D54E4812int * 0x9B8D39B9D54E4812int <= 0xBD08A39F580C16C9int * 0x8000000000000000int);
    assert(0xBD08A39F580C8E57int * 0x8000000000000000int <= 0x9B8D39B9D54E7943int * 0x9B8D39B9D54E7943int);
    lemma_chain_upper(0x32917056BF31C9int, 3, 0x9B8D39B9D54E4812int, 366, 63, 0xBD08A39F580C16C9int);
    lemma_chain_lower(0x32917056BF31CBint, 3, 0x9B8D39B9D54E7943int, 366, 63, 0xBD08A39F580C8E57int);
    assert(0xBD08A39F580C16C9int * 0xBD08A39F580C16C9int <= 0x8B95C1E3EA8BA7B5int * 0x10000000000000000int);
    assert(0x8B95C1E3EA8C5843int * 0x10000000000000000int <= 0xBD08A39F580C8E57int * 0xBD08A39F580C8E57int);
    lemma_chain_upper(0x32917056BF31C9int, 4, 0xBD08A39F580C16C9int, 795, 64, 0x8B95C1E3EA8BA7B5int);
    lemma_chain_lower(0x32917056BF31CBint, 4, 0xBD08A39F580C8E57int, 795, 64, 0x8B95C1E3EA8C5843int);
    assert(0x8B95C1E3EA8BA7B5int * 0x8B95C1E3EA8BA7B5int <= 0x9837F0518DB84281int * 0x8000000000000000int);
    assert(0x9837F0518DB9C391int * 0x8000000000000000int <= 0x8B95C1E3EA8C5843int * 0x8B95C1E3EA8C5843int);
    lemma_chain_upper(0x32917056BF31C9int, 5, 0x8B95C1E3EA8BA7B5int, 1654, 63, 0x9837F0518DB84281int);
    lemma_chain_lower(0x32917056BF31CBint, 5, 0x8B95C1E3EA8C5843int, 1654, 63, 0x9837F0518DB9C391int);
    assert(0x9837F0518DB84281int * 0x9837F0518DB84281int <= 0xB504F333F9DD6FB5int * 0x8000000000000000int);
    assert(0xB504F333F9E1038Bint * 0x8000000000000000int <= 0x9837F0518DB9C391int * 0x9837F0518DB9C391int);
    lemma_chain_upper(0x32917056BF31C9int, 6, 0x9837F0518DB84281int, 3371, 63, 0xB504F333F9DD6FB5int);
    lemma_chain_lower(0x32917056BF31CBint, 6, 0x9837F0518DB9C391int, 3371, 63, 0xB504F333F9E1038Bint);
    assert(0xB504F333F9DD6FB5int * 0xB504F333F9DD6FB5int <= 0xFFFFFFFFFFFD4B93int * 0x8000000000000000int);
    assert(0x100000000000769F2int * 0x8000000000000000int <= 0xB504F333F9E1038Bint * 0xB504F333F9E1038Bint);
    lemma_chain_upper(0x32917056BF31C9int, 7, 0xB504F333F9DD6FB5int, 6805, 63, 0xFFFFFFFFFFFD4B93int);
    lemma_chain_lower(0x32917056BF31CBint, 7, 0xB504F333F9E1038Bint, 6805, 63, 0x100000000000769F2int);
    lemma_chains_round(0x3FE9_48B8_2B5F_98E5u64, 169, 8, 1, 0x32917056BF31C9int, 0x32917056BF31CBint, 0xFFFFFFFFFFFD4B93int, 0x100000000000769F2int, 13673, 64);
}

/// Boundary 171 of schema 8, checked through its squaring chains.
proof fn rounded_8_171()
    ensures
        rounds_root(0x3FE9_6BDD_9A76_70B3u64, 171, 8),
{
    lemma2_to64();
    lemma2_to64_rest();
    lemma_chain_start(0x32D7BB34ECE165int);
    lemma_chain_start(0x32D7BB34ECE167int);
    assert(0x32D7BB34ECE165int * 0x32D7BB34ECE165int <= 0xA18FAECA8544B0E1int * 0x100000000000int);
    assert(0xA18FAECA8544BD96int * 0x100000000000int <= 0x32D7BB34ECE167int * 0x32D7BB34ECE167int);
    lemma_chain_upper(0x32D7BB34ECE165int, 0, 0x32D7BB34ECE165int, 0, 44, 0xA18FAECA8544B0E1int);
    lemma_chain_lower(0x32D7BB34ECE167int, 0, 0x32D7BB34ECE167int, 0, 44, 0xA18FAECA8544BD96int);
    assert(0xA18FAECA8544B0E1int * 0xA18FAECA8544B0E1int <= 0xCBEC14FEF2726D32int * 0x8000000000000000int);
    assert(0xCBEC14FEF2728D45int * 0x8000000000000000int <= 0xA18FAECA8544BD96int * 0xA18FAECA8544BD96int);
    lemma_chain_upper(0x32D7BB34ECE165int, 1, 0xA18FAECA8544B0E1int, 44, 63, 0xCBEC14FEF2726D32int);
    lemma_chain_lower(0x32D7BB34ECE167int, 1, 0xA18FAECA8544BD96int, 44, 63, 0xCBEC14FEF2728D45int);
    assert(0xCBEC14FEF2726D32int * 0xCBEC14FEF2726D32int <= 0xA27043030C494FEFint * 0x10000000000000000int);
    assert(0xA27043030C498307int * 0x10000000000000000int <= 0xCBEC14FEF2728D45int * 0xCBEC14FEF2728D45int);
    lemma_chain_upper(0x32D7BB34ECE165int, 2, 0xCBEC14FEF2726D32int, 151, 64, 0xA27043030C494FEFint);
    lemma_chain_lower(0x32D7BB34ECE167int, 2, 0xCBEC14FEF2728D45int, 151, 64, 0xA27043030C498307int);
    assert(0xA27043030C494FEFint * 0xA27043030C494FEFint <= 0xCE248C151F844391int * 0x8000000000000000int);
    assert(0xCE248C151F84C53Eint * 0x8000000000000000int <= 0xA27043030C498307int * 0xA27043030C498307int);
    lemma_chain_upper(0x32D7BB34ECE165int, 3, 0xA27043030C494FEFint, 366, 63, 0xCE248C151F844391int);
    lemma_chain_lower(0x32D7BB34ECE167int, 3, 0xA27043030C498307int, 366, 63, 0xCE248C151F84C53Eint);
    assert(0xCE248C151F844391int * 0xCE248C151F844391int <= 0xA5FED6A9B150D628int * 0x10000000000000000int);
    assert(0xA5FED6A9B151A6FEint * 0x10000000000000000int <= 0xCE248C151F84C53Eint * 0xCE248C151F84C53Eint);
    lemma_chain_upper(0x32D7BB34ECE165int, 4, 0xCE248C151F844391int, 795, 64, 0xA5FED6A9B150D628int);
    lemma_chain_lower(0x32D7BB34ECE167int, 4, 0xCE248C151F84C53Eint, 795, 64, 0xA5FED6A9B151A6FEint);
    assert(0xA5FED6A9B150D628int * 0xA5FED6A9B150D628int <= 0xD744FCCAD69C6ACFint * 0x8000000000000000int);
    assert(0xD744FCCAD69E8875int * 0x8000000000000000int <= 0xA5FED6A9B151A6FEint * 0xA5FED6A9B151A6FEint);
    lemma_chain_upper(0x32D7BB34ECE165int, 5, 0xA5FED6A9B150D628int, 1654, 63, 0xD744FCCAD69C6ACFint);
    lemma_chain_lower(0x32D7BB34ECE167int, 5, 0xA5FED6A9B151A6FEint, 1654, 63, 0xD744FCCAD69E8875int);
    assert(0xD744FCCAD69C6ACFint * 0xD744FCCAD69C6ACFint <= 0xB504F333F9DCB5BCint * 0x10000000000000000int);
    assert(0xB504F333F9E044ACint * 0x10000000000000000int <= 0xD744FCCAD69E8875int * 0xD744FCCAD69E8875int);
    lemma_chain_upper(0x32D7BB34ECE165int, 6, 0xD744FCCAD69C6ACFint, 3371, 64, 0xB504F333F9DCB5BCint);
    lemma_chain_lower(0x32D7BB34ECE167int, 6, 0xD744FCCAD69E8875int, 3371, 64, 0xB504F333F9E044ACint);
    assert(0xB504F333F9DCB5BCint * 0xB504F333F9DCB5BCint <= 0xFFFFFFFFFFFB3D91int * 0x8000000000000000int);
    assert(0x10000000000054E15int * 0x8000000000000000int <= 0xB504F333F9E044ACint * 0xB504F333F9E044ACint);
    lemma_chain_upper(0x32D7BB34ECE165int, 7, 0xB504F333F9DCB5BCint, 6806, 63, 0xFFFFFFFFFFFB3D91int);
    lemma_chain_lower(0x32D7BB34ECE167int, 7, 0xB504F333F9E044ACint, 6806, 63, 0x10000000000054E15int);
    lemma_chains_round(0x3FE9_6BDD_9A76_70B3u64, 171, 8, 1, 0x32D7BB34ECE165int, 0x32D7BB34ECE167int, 0xFFFFFFFFFFFB3D91int, 0x10000000000054E15int, 13675, 64);
}

/// Boundary 173 of schema 8, checked through its squaring chains.
proof fn rounded_8_173()
    ensures
        rounds_root(0x3FE9_8F33_E47A_22A2u64, 173, 8),
{
    lemma2_to64();
    lemma2_to64_rest();
    lemma_chain_start(0x331E67C8F44543int);
    lemma_chain_start(0x331E67C8F44545int);
    assert(0x331E67C8F44543int * 0x331E67C8F44543int <= 0xA3520F68E802B3C1int * 0x100000000000int);
    assert(0xA3520F68E802C087int * 0x100000000000int <= 0x331E67C8F44545int * 0x331E67C8F44545int);
    lemma_chain_upper(0x331E67C8F44543int, 0, 0x331E67C8F44543int, 0, 44, 0xA3520F68E802B3C1int);
    lemma_chain_lower(0x331E67C8F44545int, 0, 0x331E67C8F44545int, 0, 44, 0xA3520F68E802C087int);
    assert(0xA3520F68E802B3C1int * 0xA3520F68E802B3C1int <= 0xD06333DAEF2B11A2int * 0x8000000000000000int);
    assert(0xD06333DAEF2B3239int * 0x8000000000000000int <= 0xA3520F68E802C087int * 0xA3520F68E802C087int);
    lemma_chain_upper(0x331E67C8F44543int, 1, 0xA3520F68E802B3C1int, 44, 63, 0xD06333DAEF2B11A2int);
    lemma_chain_lower(0x331E67C8F44545int, 1, 0xA3520F68E802C087int, 44, 63, 0xD06333DAEF2B3239int);
    assert(0xD06333DAEF2B11A2int * 0xD06333DAEF2B11A2int <= 0xA9A15AB4EA7BEE7Fint * 0x10000000000000000int);
    assert(0xA9A15AB4EA7C238Cint * 0x10000000000000000int <= 0xD06333DAEF2B3239int * 0xD06333DAEF2B3239int);
    lemma_chain_upper(0x331E67C8F44543int, 2, 0xD06333DAEF2B11A2int, 151, 64, 0xA9A15AB4EA7BEE7Fint);
    lemma_chain_lower(0x331E67C8F44545int, 2, 0xD06333DAEF2B3239int, 151, 64, 0xA9A15AB4EA7C238Cint);
    assert(0xA9A15AB4EA7BEE7Fint * 0xA9A15AB4EA7BEE7Fint <= 0xE0CCDEEC2A948AFFint * 0x8000000000000000int);
    assert(0xE0CCDEEC2A95179Aint * 0x8000000000000000int <= 0xA9A15AB4EA7C238Cint * 0xA9A15AB4EA7C238Cint);
    lemma_chain_upper(0x331E67C8F44543int, 3, 0xA9A15AB4EA7BEE7Fint, 366, 63, 0xE0CCDEEC2A948AFFint);
    lemma_chain_lower(0x331E67C8F44545int, 3, 0xA9A15AB4EA7C238Cint, 366, 63, 0xE0CCDEEC2A95179Aint);
    assert(0xE0CCDEEC2A948AFFint * 0xE0CCDEEC2A948AFFint <= 0xC5672A11550643B4int * 0x10000000000000000int);
    assert(0xC5672A1155073AA4int * 0x10000000000000000int <= 0xE0CCDEEC2A95179Aint * 0xE0CCDEEC2A95179Aint);
    lemma_chain_upper(0x331E67C8F44543int, 4, 0xE0CCDEEC2A948AFFint, 795, 64, 0xC5672A11550643B4int);
    lemma_chain_lower(0x331E67C8F44545int, 4, 0xE0CCDEEC2A95179Aint, 795, 64, 0xC5672A1155073AA4int);
    assert(0xC5672A11550643B4int * 0xC5672A11550643B4int <= 0x9837F0518DB7C050int * 0x10000000000000000int);
    assert(0x9837F0518DB93D24int * 0x10000000000000000int <= 0xC5672A1155073AA4int * 0xC5672A1155073AA4int);
    lemma_chain_upper(0x331E67C8F44543int, 5, 0xC5672A11550643B4int, 1654, 64, 0x9837F0518DB7C050int);
    lemma_chain_lower(0x331E67C8F44545int, 5, 0xC5672A1155073AA4int, 1654, 64, 0x9837F0518DB93D24int);
    assert(0x9837F0518DB7C050int * 0x9837F0518DB7C050int <= 0xB504F333F9DC3A0Fint * 0x8000000000000000int);
    assert(0xB504F333F9DFC3D2int * 0x8000000000000000int <= 0x9837F0518DB93D24int * 0x9837F0518DB93D24int);
    lemma_chain_upper(0x331E67C8F44543int, 6, 0x9837F0518DB7C050int, 3372, 63, 0xB504F333F9DC3A0Fint);
    lemma_chain_lower(0x331E67C8F44545int, 6, 0x9837F0518DB93D24int, 3372, 63, 0xB504F333F9DFC3D2int);
    assert(0xB504F333F9DC3A0Fint * 0xB504F333F9DC3A0Fint <= 0xFFFFFFFFFFF9DFC2int * 0x8000000000000000int);
    assert(0x1000000000003E1A2int * 0x8000000000000000int <= 0xB504F333F9DFC3D2int * 0xB504F333F9DFC3D2int);
    lemma_chain_upper(0x331E67C8F44543int, 7, 0xB504F333F9DC3A0Fint, 6807, 63, 0xFFFFFFFFFFF9DFC2int);
    lemma_chain_lower(0x331E67C8F44545int, 7, 0xB504F333F9DFC3D2int, 6807, 63, 0x1000000000003E1A2int);
    lemma_chains_round(0x3FE9_8F33_E47A_22A2u64, 173, 8, 1, 0x331E67C8F44543int, 0x331E67C8F44545int, 0xFFFFFFFFFFF9DFC2int, 0x1000000000003E1A2int, 13677, 64);
}

/// Boundary 175 of schema 8, checked through its squaring chains.
proof fn rounded_8_175()
    ensures
        rounds_root(0x3FE9_B2BB_4D53_FE0Du64, 175, 8),
{
    lemma2_to64();
    lemma2_to64_rest();
    lemma_chain_start(0x3365769AA7FC19int);
    lemma_chain_start(0x3365769AA7FC1Bint);
    assert(0x3365769AA7FC19int * 0x3365769AA7FC19int <= 0xA5195786BE9EF2CBint * 0x100000000000int);
    assert(0xA5195786BE9EFFA4int * 0x100000000000int <= 0x3365769AA7FC1Bint * 0x3365769AA7FC1Bint);
    lemma_chain_upper(0x3365769AA7FC19int, 0, 0x3365769AA7FC19int, 0, 44, 0xA5195786BE9EF2CBint);
    lemma_chain_lower(0x3365769AA7FC1Bint, 0, 0x3365769AA7FC1Bint, 0, 44, 0xA5195786BE9EFFA4int);
    assert(0xA5195786BE9EF2CBint * 0xA5195786BE9EF2CBint <= 0xD4F35AABCFEDF903int * 0x8000000000000000int);
    assert(0xD4F35AABCFEE1A27int * 0x8000000000000000int <= 0xA5195786BE9EFFA4int * 0xA5195786BE9EFFA4int);
    lemma_chain_upper(0x3365769AA7FC19int, 1, 0xA5195786BE9EF2CBint, 44, 63, 0xD4F35AABCFEDF903int);
    lemma_chain_lower(0x3365769AA7FC1Bint, 1, 0xA5195786BE9EFFA4int, 44, 63, 0xD4F35AABCFEE1A27int);
    assert(0xD4F35AABCFEDF903int * 0xD4F35AABCFEDF903int <= 0xB123F581D2AC23B7int * 0x10000000000000000int);
    assert(0xB123F581D2AC5AD9int * 0x10000000000000000int <= 0xD4F35AABCFEE1A27int * 0xD4F35AABCFEE1A27int);
    lemma_chain_upper(0x3365769AA7FC19int, 2, 0xD4F35AABCFEDF903int, 151, 64, 0xB123F581D2AC23B7int);
    lemma_chain_lower(0x3365769AA7FC1Bint, 2, 0xD4F35AABCFEE1A27int, 151, 64, 0xB123F581D2AC5AD9int);
    assert(0xB123F581D2AC23B7int * 0xB123F581D2AC23B7int <= 0xF5257D152486C711int * 0x8000000000000000int);
    assert(0xF5257D1524875FA9int * 0x8000000000000000int <= 0xB123F581D2AC5AD9int * 0xB123F581D2AC5AD9int);
    lemma_chain_upper(0x3365769AA7FC19int, 3, 0xB123F581D2AC23B7int, 366, 63, 0xF5257D152486C711int);
    lemma_chain_lower(0x3365769AA7FC1Bint, 3, 0xB123F581D2AC5AD9int, 366, 63, 0xF5257D1524875FA9int);
    assert(0xF5257D152486C711int * 0xF5257D152486C711int <= 0xEAC0C6E7DD242F67int * 0x10000000000000000int);
    assert(0xEAC0C6E7DD2553A6int * 0x10000000000000000int <= 0xF5257D1524875FA9int * 0xF5257D1524875FA9int);
    lemma_chain_upper(0x3365769AA7FC19int, 4, 0xF5257D152486C711int, 795, 64, 0xEAC0C6E7DD242F67int);
    lemma_chain_lower(0x3365769AA7FC1Bint, 4, 0xF5257D1524875FA9int, 795, 64, 0xEAC0C6E7DD2553A6int);
    assert(0xEAC0C6E7DD242F67int * 0xEAC0C6E7DD242F67int <= 0xD744FCCAD69D5905int * 0x10000000000000000int);
    assert(0xD744FCCAD69F70FFint * 0x10000000000000000int <= 0xEAC0C6E7DD2553A6int * 0xEAC0C6E7DD2553A6int);
    lemma_chain_upper(0x3365769AA7FC19int, 5, 0xEAC0C6E7DD242F67int, 1654, 64, 0xD744FCCAD69D5905int);
    lemma_chain_lower(0x3365769AA7FC1Bint, 5, 0xEAC0C6E7DD2553A6int, 1654, 64, 0xD744FCCAD69F70FFint);
    assert(0xD744FCCAD69D5905int * 0xD744FCCAD69D5905int <= 0xB504F333F9DE465Bint * 0x10000000000000000int);
    assert(0xB504F333F9E1CBC1int * 0x10000000000000000int <= 0xD744FCCAD69F70FFint * 0xD744FCCAD69F70FFint);
    lemma_chain_upper(0x3365769AA7FC19int, 6, 0xD744FCCAD69D5905int, 3372, 64, 0xB504F333F9DE465Bint);
    lemma_chain_lower(0x3365769AA7FC1Bint, 6, 0xD744FCCAD69F70FFint, 3372, 64, 0xB504F333F9E1CBC1int);
    assert(0xB504F333F9DE465Bint * 0xB504F333F9DE465Bint <= 0xFFFFFFFFFFFFAAB1int * 0x8000000000000000int);
    assert(0x1000000000009A03Aint * 0x8000000000000000int <= 0xB504F333F9E1CBC1int * 0xB504F333F9E1CBC1int);
    lemma_chain_upper(0x3365769AA7FC19int, 7, 0xB504F333F9DE465Bint, 6808, 63, 0xFFFFFFFFFFFFAAB1int);
    lemma_chain_lower(0x3365769AA7FC1Bint, 7, 0xB504F333F9E1CBC1int, 6808, 63, 0x1000000000009A03Aint);
    lemma_chains_round(0x3FE9_B2BB_4D53_FE0Du64, 175, 8, 1, 0x3365769AA7FC19int, 0x3365769AA7FC1Bint, 0xFFFFFFFFFFFFAAB1int, 0x1000000000009A03Aint, 13679, 64);
}

/// Boundary 177 of schema 8, checked through its squaring chains.
proof fn rounded_8_177()
    ensures
        rounds_root(0x3FE9_D674_194B_B8D5u64, 177, 8),
{
    lemma2_to64();
    lemma2_to64_rest();
    lemma_chain_start(0x33ACE8329771A9int);
    lemma_chain_start(0x33ACE8329771ABint);
    assert(0x33ACE8329771A9int * 0x33ACE8329771A9int <= 0xA6E594CFEEE868EAint * 0x100000000000int);
    assert(0xA6E594CFEEE875D4int * 0x100000000000int <= 0x33ACE8329771ABint * 0x33ACE8329771ABint);
    lemma_chain_upper(0x33ACE8329771A9int, 0, 0x33ACE8329771A9int, 0, 44, 0xA6E594CFEEE868EAint);
    lemma_chain_lower(0x33ACE8329771ABint, 0, 0x33ACE8329771ABint, 0, 44, 0xA6E594CFEEE875D4int);
    assert(0xA6E594CFEEE868EAint * 0xA6E594CFEEE868EAint <= 0xD99D15C278AFD1F9int * 0x8000000000000000int);
    assert(0xD99D15C278AFF3A5int * 0x8000000000000000int <= 0xA6E594CFEEE875D4int * 0xA6E594CFEEE875D4int);
    lemma_chain_upper(0x33ACE8329771A9int, 1, 0xA6E594CFEEE868EAint, 44, 63, 0xD99D15C278AFD1F9int);
    lemma_chain_lower(0x33ACE8329771ABint, 1, 0xA6E594CFEEE875D4int, 44, 63, 0xD99D15C278AFF3A5int);
    assert(0xD99D15C278AFD1F9int * 0xD99D15C278AFD1F9int <= 0xB8FBAF4762FB9528int * 0x10000000000000000int);
    assert(0xB8FBAF4762FBCE66int * 0x10000000000000000int <= 0xD99D15C278AFF3A5int * 0xD99D15C278AFF3A5int);
    lemma_chain_upper(0x33ACE8329771A9int, 2, 0xD99D15C278AFD1F9int, 151, 64, 0xB8FBAF4762FB9528int);
    lemma_chain_lower(0x33ACE8329771ABint, 2, 0xD99D15C278AFF3A5int, 151, 64, 0xB8FBAF4762FBCE66int);
    assert(0xB8FBAF4762FB9528int * 0xB8FBAF4762FB9528int <= 0x85AAC367CC486CFDint * 0x10000000000000000int);
    assert(0x85AAC367CC48BFB5int * 0x10000000000000000int <= 0xB8FBAF4762FBCE66int * 0xB8FBAF4762FBCE66int);
    lemma_chain_upper(0x33ACE8329771A9int, 3, 0xB8FBAF4762FB9528int, 366, 64, 0x85AAC367CC486CFDint);
    lemma_chain_lower(0x33ACE8329771ABint, 3, 0xB8FBAF4762FBCE66int, 366, 64, 0x85AAC367CC48BFB5int);
    assert(0x85AAC367CC486CFDint * 0x85AAC367CC486CFDint <= 0x8B95C1E3EA8BB978int * 0x8000000000000000int);
    assert(0x8B95C1E3EA8C663Bint * 0x8000000000000000int <= 0x85AAC367CC48BFB5int * 0x85AAC367CC48BFB5int);
    lemma_chain_upper(0x33ACE8329771A9int, 4, 0x85AAC367CC486CFDint, 796, 63, 0x8B95C1E3EA8BB978int);
    lemma_chain_lower(0x33ACE8329771ABint, 4, 0x85AAC367CC48BFB5int, 796, 63, 0x8B95C1E3EA8C663Bint);
    assert(0x8B95C1E3EA8BB978int * 0x8B95C1E3EA8BB978int <= 0x9837F0518DB8693Eint * 0x8000000000000000int);
    assert(0x9837F0518DB9E209int * 0x8000000000000000int <= 0x8B95C1E3EA8C663Bint * 0x8B95C1E3EA8C663Bint);
    lemma_chain_upper(0x33ACE8329771A9int, 5, 0x8B95C1E3EA8BB978int, 1655, 63, 0x9837F0518DB8693Eint);
    lemma_chain_lower(0x33ACE8329771ABint, 5, 0x8B95C1E3EA8C663Bint, 1655, 63, 0x9837F0518DB9E209int);
    assert(0x9837F0518DB8693Eint * 0x9837F0518DB8693Eint <= 0xB504F333F9DDCBD8int * 0x8000000000000000int);
    assert(0xB504F333F9E14C02int * 0x8000000000000000int <= 0x9837F0518DB9E209int * 0x9837F0518DB9E209int);
    lemma_chain_upper(0x33ACE8329771A9int, 6, 0x9837F0518DB8693Eint, 3373, 63, 0xB504F333F9DDCBD8int);
    lemma_chain_lower(0x33ACE8329771ABint, 6, 0x9837F0518DB9E209int, 3373, 63, 0xB504F333F9E14C02int);
    assert(0xB504F333F9DDCBD8int * 0xB504F333F9DDCBD8int <= 0xFFFFFFFFFFFE502Dint * 0x8000000000000000int);
    assert(0x100000000000836E8int * 0x8000000000000000int <= 0xB504F333F9E14C02int * 0xB504F333F9E14C02int);
    lemma_chain_upper(0x33ACE8329771A9int, 7, 0xB504F333F9DDCBD8int, 6809, 63, 0xFFFFFFFFFFFE502Dint);
    lemma_chain_lower(0x33ACE8329771ABint, 7, 0xB504F333F9E14C02int, 6809, 63, 0x100000000000836E8int);
    lemma_chains_round(0x3FE9_D674_194B_B8D5u64, 177, 8, 1, 0x33ACE8329771A9int, 0x33ACE8329771ABint, 0xFFFFFFFFFFFE502Dint, 0x100000000000836E8int, 13681, 64);
}

/// Boundary 179 of schema 8, checked through its squaring chains.
proof fn rounded_8_179()
    ensures
        rounds_root(0x3FE9_FA5E_8D07_F29Eu64, 179, 8),
{
    lemma2_to64();
    lemma2_to64_rest();
    lemma_chain_start(0x33F4BD1A0FE53Bint);
    lemma_chain_start(0x33F4BD1A0FE53Dint);
    assert(0x33F4BD1A0FE53Bint * 0x33F4BD1A0FE53Bint <= 0xA8B6D5167B3209A3int * 0x100000000000int);
    assert(0xA8B6D5167B32169Fint * 0x100000000000int <= 0x33F4BD1A0FE53Dint * 0x33F4BD1A0FE53Dint);
    lemma_chain_upper(0x33F4BD1A0FE53Bint, 0, 0x33F4BD1A0FE53Bint, 0, 44, 0xA8B6D5167B3209A3int);
    lemma_chain_lower(0x33F4BD1A0FE53Dint, 0, 0x33F4BD1A0FE53Dint, 0, 44, 0xA8B6D5167B32169Fint);
    assert(0xA8B6D5167B3209A3int * 0xA8B6D5167B3209A3int <= 0xDE60F4825E0E858Dint * 0x8000000000000000int);
    assert(0xDE60F4825E0EA7C7int * 0x8000000000000000int <= 0xA8B6D5167B32169Fint * 0xA8B6D5167B32169Fint);
    lemma_chain_upper(0x33F4BD1A0FE53Bint, 1, 0xA8B6D5167B3209A3int, 44, 63, 0xDE60F4825E0E858Dint);
    lemma_chain_lower(0x33F4BD1A0FE53Dint, 1, 0xA8B6D5167B32169Fint, 44, 63, 0xDE60F4825E0EA7C7int);
    assert(0xDE60F4825E0E858Dint * 0xDE60F4825E0E858Dint <= 0xC12C4CCA66708035int * 0x10000000000000000int);
    assert(0xC12C4CCA6670BBAAint * 0x10000000000000000int <= 0xDE60F4825E0EA7C7int * 0xDE60F4825E0EA7C7int);
    lemma_chain_upper(0x33F4BD1A0FE53Bint, 2, 0xDE60F4825E0E858Dint, 151, 64, 0xC12C4CCA66708035int);
    lemma_chain_lower(0x33F4BD1A0FE53Dint, 2, 0xDE60F4825E0EA7C7int, 151, 64, 0xC12C4CCA6670BBAAint);
    assert(0xC12C4CCA66708035int * 0xC12C4CCA66708035int <= 0x91C3D373AB11A4D5int * 0x10000000000000000int);
    assert(0x91C3D373AB11FE8Fint * 0x10000000000000000int <= 0xC12C4CCA6670BBAAint * 0xC12C4CCA6670BBAAint);
    lemma_chain_upper(0x33F4BD1A0FE53Bint, 3, 0xC12C4CCA66708035int, 366, 64, 0x91C3D373AB11A4D5int);
    lemma_chain_lower(0x33F4BD1A0FE53Dint, 3, 0xC12C4CCA6670BBAAint, 366, 64, 0x91C3D373AB11FE8Fint);
    assert(0x91C3D373AB11A4D5int * 0x91C3D373AB11A4D5int <= 0xA5FED6A9B150F3BAint * 0x8000000000000000int);
    assert(0xA5FED6A9B151C015int * 0x8000000000000000int <= 0x91C3D373AB11FE8Fint * 0x91C3D373AB11FE8Fint);
    lemma_chain_upper(0x33F4BD1A0FE53Bint, 4, 0x91C3D373AB11A4D5int, 796, 63, 0xA5FED6A9B150F3BAint);
    lemma_chain_lower(0x33F4BD1A0FE53Dint, 4, 0x91C3D373AB11FE8Fint, 796, 63, 0xA5FED6A9B151C015int);
    assert(0xA5FED6A9B150F3BAint * 0xA5FED6A9B150F3BAint <= 0xD744FCCAD69CB781int * 0x8000000000000000int);
    assert(0xD744FCCAD69EC989int * 0x8000000000000000int <= 0xA5FED6A9B151C015int * 0xA5FED6A9B151C015int);
    lemma_chain_upper(0x33F4BD1A0FE53Bint, 5, 0xA5FED6A9B150F3BAint, 1655, 63, 0xD744FCCAD69CB781int);
    lemma_chain_lower(0x33F4BD1A0FE53Dint, 5, 0xA5FED6A9B151C015int, 1655, 63, 0xD744FCCAD69EC989int);
    assert(0xD744FCCAD69CB781int * 0xD744FCCAD69CB781int <= 0xB504F333F9DD36B9int * 0x10000000000000000int);
    assert(0xB504F333F9E0B21Fint * 0x10000000000000000int <= 0xD744FCCAD69EC989int * 0xD744FCCAD69EC989int);
    lemma_chain_upper(0x33F4BD1A0FE53Bint, 6, 0xD744FCCAD69CB781int, 3373, 64, 0xB504F333F9DD36B9int);
    lemma_chain_lower(0x33F4BD1A0FE53Dint, 6, 0xD744FCCAD69EC989int, 3373, 64, 0xB504F333F9E0B21Fint);
    assert(0xB504F333F9DD36B9int * 0xB504F333F9DD36B9int <= 0xFFFFFFFFFFFCAA66int * 0x8000000000000000int);
    assert(0x100000000000683A6int * 0x8000000000000000int <= 0xB504F333F9E0B21Fint * 0xB504F333F9E0B21Fint);
    lemma_chain_upper(0x33F4BD1A0FE53Bint, 7, 0xB504F333F9DD36B9int, 6810, 63, 0xFFFFFFFFFFFCAA66int);
    lemma_chain_lower(0x33F4BD1A0FE53Dint, 7, 0xB504F333F9E0B21Fint, 6810, 63, 0x100000000000683A6int);
    lemma_chains_round(0x3FE9_FA5E_8D07_F29Eu64, 179, 8, 1, 0x33F4BD1A0FE53Bint, 0x33F4BD1A0FE53Dint, 0xFFFFFFFFFFFCAA66int, 0x100000000000683A6int, 13683, 64);
}

/// Boundary 181 of schema 8, checked through its squaring chains.
proof fn rounded_8_181()
    ensures
        rounds_root(0x3FEA_1E7A_ED8E_B8BBu64, 181, 8),
{
    lemma2_to64();
    lemma2_to64_rest();
    lemma_chain_start(0x343CF5DB1D7175int);
    lemma_chain_start(0x343CF5DB1D7177int);
    assert(0x343CF5DB1D7175int * 0x343CF5DB1D7175int <= 0xAA8D2652EC9069D7int * 0x100000000000int);
    assert(0xAA8D2652EC9076E5int * 0x100000000000int <= 0x343CF5DB1D7177int * 0x343CF5DB1D7177int);
    lemma_chain_upper(0x343CF5DB1D7175int, 0, 0x343CF5DB1D7175int, 0, 44, 0xAA8D2652EC9069D7int);
    lemma_chain_lower(0x343CF5DB1D7177int, 0, 0x343CF5DB1D7177int, 0, 44, 0xAA8D2652EC9076E5int);
    assert(0xAA8D2652EC9069D7int * 0xAA8D2652EC9069D7int <= 0xE33F8972BE8A397Bint * 0x8000000000000000int);
    assert(0xE33F8972BE8A5C44int * 0x8000000000000000int <= 0xAA8D2652EC9076E5int * 0xAA8D2652EC9076E5int);
    lemma_chain_upper(0x343CF5DB1D7175int, 1, 0xAA8D2652EC9069D7int, 44, 63, 0xE33F8972BE8A397Bint);
    lemma_chain_lower(0x343CF5DB1D7177int, 1, 0xAA8D2652EC9076E5int, 44, 63, 0xE33F8972BE8A5C44int);
    assert(0xE33F8972BE8A397Bint * 0xE33F8972BE8A397Bint <= 0xC9B9BD866E2EED57int * 0x10000000000000000int);
    assert(0xC9B9BD866E2F2B18int * 0x10000000000000000int <= 0xE33F8972BE8A5C44int * 0xE33F8972BE8A5C44int);
    lemma_chain_upper(0x343CF5DB1D7175int, 2, 0xE33F8972BE8A397Bint, 151, 64, 0xC9B9BD866E2EED57int);
    lemma_chain_lower(0x343CF5DB1D7177int, 2, 0xE33F8972BE8A5C44int, 151, 64, 0xC9B9BD866E2F2B18int);
    assert(0xC9B9BD866E2EED57int * 0xC9B9BD866E2EED57int <= 0x9EF5326091A0B5CFint * 0x10000000000000000int);
    assert(0x9EF5326091A11721int * 0x10000000000000000int <= 0xC9B9BD866E2F2B18int * 0xC9B9BD866E2F2B18int);
    lemma_chain_upper(0x343CF5DB1D7175int, 3, 0xC9B9BD866E2EED57int, 366, 64, 0x9EF5326091A0B5CFint);
    lemma_chain_lower(0x343CF5DB1D7177int, 3, 0xC9B9BD866E2F2B18int, 366, 64, 0x9EF5326091A11721int);
    assert(0x9EF5326091A0B5CFint * 0x9EF5326091A0B5CFint <= 0xC5672A115505F6B0int * 0x8000000000000000int);
    assert(0xC5672A115506E866int * 0x8000000000000000int <= 0x9EF5326091A11721int * 0x9EF5326091A11721int);
    lemma_chain_upper(0x343CF5DB1D7175int, 4, 0x9EF5326091A0B5CFint, 796, 63, 0xC5672A115505F6B0int);
    lemma_chain_lower(0x343CF5DB1D7177int, 4, 0x9EF5326091A11721int, 796, 63, 0xC5672A115506E866int);
    assert(0xC5672A115505F6B0int * 0xC5672A115505F6B0int <= 0x9837F0518DB7498Aint * 0x10000000000000000int);
    assert(0x9837F0518DB8BE4Eint * 0x10000000000000000int <= 0xC5672A115506E866int * 0xC5672A115506E866int);
    lemma_chain_upper(0x343CF5DB1D7175int, 5, 0xC5672A115505F6B0int, 1655, 64, 0x9837F0518DB7498Aint);
    lemma_chain_lower(0x343CF5DB1D7177int, 5, 0xC5672A115506E866int, 1655, 64, 0x9837F0518DB8BE4Eint);
    assert(0x9837F0518DB7498Aint * 0x9837F0518DB7498Aint <= 0xB504F333F9DB1F91int * 0x8000000000000000int);
    assert(0xB504F333F9DE9627int * 0x8000000000000000int <= 0x9837F0518DB8BE4Eint * 0x9837F0518DB8BE4Eint);
    lemma_chain_upper(0x343CF5DB1D7175int, 6, 0x9837F0518DB7498Aint, 3374, 63, 0xB504F333F9DB1F91int);
    lemma_chain_lower(0x343CF5DB1D7177int, 6, 0x9837F0518DB8BE4Eint, 3374, 63, 0xB504F333F9DE9627int);
    assert(0xB504F333F9DB1F91int * 0xB504F333F9DB1F91int <= 0xFFFFFFFFFFF6C0C0int * 0x8000000000000000int);
    assert(0x10000000000008C63int * 0x8000000000000000int <= 0xB504F333F9DE9627int * 0xB504F333F9DE9627int);
    lemma_chain_upper(0x343CF5DB1D7175int, 7, 0xB504F333F9DB1F91int, 6811, 63, 0xFFFFFFFFFFF6C0C0int);
    lemma_chain_lower(0x343CF5DB1D7177int, 7, 0xB504F333F9DE9627int, 6811, 63, 0x10000000000008C63int);
    lemma_chains_round(0x3FEA_1E7A_ED8E_B8BBu64, 181, 8, 1, 0x343CF5DB1D7175int, 0x343CF5DB1D7177int, 0xFFFFFFFFFFF6C0C0int, 0x10000000000008C63int, 13685, 64);
}

/// Boundary 183 of schema 8, checked through its squaring chains.
proof fn rounded_8_183()
    ensures
        rounds_root(0x3FEA_42C9_8046_0AD8u64, 183, 8),
{
    lemma2_to64();
    lemma2_to64_rest();
    lemma_chain_start(0x348593008C15AFint);
    lemma_chain_start(0x348593008C15B1int);
    assert(0x348593008C15AFint * 0x348593008C15AFint <= 0xAC6896A4BE3FE811int * 0x100000000000int);
    assert(0xAC6896A4BE3FF531int * 0x100000000000int <= 0x348593008C15B1int * 0x348593008C15B1int);
    lemma_chain_upper(0x348593008C15AFint, 0, 0x348593008C15AFint, 0, 44, 0xAC6896A4BE3FE811int);
    lemma_chain_lower(0x348593008C15B1int, 0, 0x348593008C15B1int, 0, 44, 0xAC6896A4BE3FF531int);
    assert(0xAC6896A4BE3FE811int * 0xAC6896A4BE3FE811int <= 0xE8396A503C4BD976int * 0x8000000000000000int);
    assert(0xE8396A503C4BFCD0int * 0x8000000000000000int <= 0xAC6896A4BE3FF531int * 0xAC6896A4BE3FF531int);
    lemma_chain_upper(0x348593008C15AFint, 1, 0xAC6896A4BE3FE811int, 44, 63, 0xE8396A503C4BD976int);
    lemma_chain_lower(0x348593008C15B1int, 1, 0xAC6896A4BE3FF531int, 44, 63, 0xE8396A503C4BFCD0int);
    assert(0xE8396A503C4BD976int * 0xE8396A503C4BD976int <= 0xD2A81D91F12ADF02int * 0x10000000000000000int);
    assert(0xD2A81D91F12B1F24int * 0x10000000000000000int <= 0xE8396A503C4BFCD0int * 0xE8396A503C4BFCD0int);
    lemma_chain_upper(0x348593008C15AFint, 2, 0xE8396A503C4BD976int, 151, 64, 0xD2A81D91F12ADF02int);
    lemma_chain_lower(0x348593008C15B1int, 2, 0xE8396A503C4BFCD0int, 151, 64, 0xD2A81D91F12B1F24int);
    assert(0xD2A81D91F12ADF02int * 0xD2A81D91F12ADF02int <= 0xAD583EEA42A141FBint * 0x10000000000000000int);
    assert(0xAD583EEA42A1AB86int * 0x10000000000000000int <= 0xD2A81D91F12B1F24int * 0xD2A81D91F12B1F24int);
    lemma_chain_upper(0x348593008C15AFint, 3, 0xD2A81D91F12ADF02int, 366, 64, 0xAD583EEA42A141FBint);
    lemma_chain_lower(0x348593008C15B1int, 3, 0xD2A81D91F12B1F24int, 366, 64, 0xAD583EEA42A1AB86int);
    assert(0xAD583EEA42A141FBint * 0xAD583EEA42A141FBint <= 0xEAC0C6E7DD24215Eint * 0x8000000000000000int);
    assert(0xEAC0C6E7DD253F3Aint * 0x8000000000000000int <= 0xAD583EEA42A1AB86int * 0xAD583EEA42A1AB86int);
    lemma_chain_upper(0x348593008C15AFint, 4, 0xAD583EEA42A141FBint, 796, 63, 0xEAC0C6E7DD24215Eint);
    lemma_chain_lower(0x348593008C15B1int, 4, 0xAD583EEA42A1AB86int, 796, 63, 0xEAC0C6E7DD253F3Aint);
    assert(0xEAC0C6E7DD24215Eint * 0xEAC0C6E7DD24215Eint <= 0xD744FCCAD69D3F47int * 0x10000000000000000int);
    assert(0xD744FCCAD69F4B8Bint * 0x10000000000000000int <= 0xEAC0C6E7DD253F3Aint * 0xEAC0C6E7DD253F3Aint);
    lemma_chain_upper(0x348593008C15AFint, 5, 0xEAC0C6E7DD24215Eint, 1655, 64, 0xD744FCCAD69D3F47int);
    lemma_chain_lower(0x348593008C15B1int, 5, 0xEAC0C6E7DD253F3Aint, 1655, 64, 0xD744FCCAD69F4B8Bint);
    assert(0xD744FCCAD69D3F47int * 0xD744FCCAD69D3F47int <= 0xB504F333F9DE1B10int * 0x10000000000000000int);
    assert(0xB504F333F9E18CC4int * 0x10000000000000000int <= 0xD744FCCAD69F4B8Bint * 0xD744FCCAD69F4B8Bint);
    lemma_chain_upper(0x348593008C15AFint, 6, 0xD744FCCAD69D3F47int, 3374, 64, 0xB504F333F9DE1B10int);
    lemma_chain_lower(0x348593008C15B1int, 6, 0xD744FCCAD69F4B8Bint, 3374, 64, 0xB504F333F9E18CC4int);
    assert(0xB504F333F9DE1B10int * 0xB504F333F9DE1B10int <= 0xFFFFFFFFFFFF303Eint * 0x8000000000000000int);
    assert(0x1000000000008EE12int * 0x8000000000000000int <= 0xB504F333F9E18CC4int * 0xB504F333F9E18CC4int);
    lemma_chain_upper(0x348593008C15AFint, 7, 0xB504F333F9DE1B10int, 6812, 63, 0xFFFFFFFFFFFF303Eint);
    lemma_chain_lower(0x348593008C15B1int, 7, 0xB504F333F9E18CC4int, 6812, 63, 0x1000000000008EE12int);
    lemma_chains_round(0x3FEA_42C9_8046_0AD8u64, 183, 8, 1, 0x348593008C15AFint, 0x348593008C15B1int, 0xFFFFFFFFFFFF303Eint, 0x1000000000008EE12int, 13687, 64);
}

/// Boundary 185 of schema 8, checked through its squaring chains.
proof fn rounded_8_185()
    ensures
        rounds_root(0x3FEA_674A_8AF4_6052u64, 185, 8),
{
    lemma2_to64();
    lemma2_to64_rest();
    lemma_chain_start(0x34CE9515E8C0A3int);
    lemma_chain_start(0x34CE9515E8C0A5int);
    assert(0x34CE9515E8C0A3int * 0x34CE9515E8C0A3int <= 0xAE493452CA35B0EAint * 0x100000000000int);
    assert(0xAE493452CA35BE1Cint * 0x100000000000int <= 0x34CE9515E8C0A5int * 0x34CE9515E8C0A5int);
    lemma_chain_upper(0x34CE9515E8C0A3int, 0, 0x34CE9515E8C0A3int, 0, 44, 0xAE493452CA35B0EAint);
    lemma_chain_lower(0x34CE9515E8C0A5int, 0, 0x34CE9515E8C0A5int, 0, 44, 0xAE493452CA35BE1Cint);
    assert(0xAE493452CA35B0EAint * 0xAE493452CA35B0EAint <= 0xED4F301ED9941812int * 0x8000000000000000int);
    assert(0xED4F301ED9943C00int * 0x8000000000000000int <= 0xAE493452CA35BE1Cint * 0xAE493452CA35BE1Cint);
    lemma_chain_upper(0x34CE9515E8C0A3int, 1, 0xAE493452CA35B0EAint, 44, 63, 0xED4F301ED9941812int);
    lemma_chain_lower(0x34CE9515E8C0A5int, 1, 0xAE493452CA35BE1Cint, 44, 63, 0xED4F301ED9943C00int);
    assert(0xED4F301ED9941812int * 0xED4F301ED9941812int <= 0xDBFBB797DAF21348int * 0x10000000000000000int);
    assert(0xDBFBB797DAF255E4int * 0x10000000000000000int <= 0xED4F301ED9943C00int * 0xED4F301ED9943C00int);
    lemma_chain_upper(0x34CE9515E8C0A3int, 2, 0xED4F301ED9941812int, 151, 64, 0xDBFBB797DAF21348int);
    lemma_chain_lower(0x34CE9515E8C0A5int, 2, 0xED4F301ED9943C00int, 151, 64, 0xDBFBB797DAF255E4int);
    assert(0xDBFBB797DAF21348int * 0xDBFBB797DAF21348int <= 0xBD08A39F580BF8CAint * 0x10000000000000000int);
    assert(0xBD08A39F580C6B43int * 0x10000000000000000int <= 0xDBFBB797DAF255E4int * 0xDBFBB797DAF255E4int);
    lemma_chain_upper(0x34CE9515E8C0A3int, 3, 0xDBFBB797DAF21348int, 366, 64, 0xBD08A39F580BF8CAint);
    lemma_chain_lower(0x34CE9515E8C0A5int, 3, 0xDBFBB797DAF255E4int, 366, 64, 0xBD08A39F580C6B43int);
    assert(0xBD08A39F580BF8CAint * 0xBD08A39F580BF8CAint <= 0x8B95C1E3EA8B7B68int * 0x10000000000000000int);
    assert(0x8B95C1E3EA8C2475int * 0x10000000000000000int <= 0xBD08A39F580C6B43int * 0xBD08A39F580C6B43int);
    lemma_chain_upper(0x34CE9515E8C0A3int, 4, 0xBD08A39F580BF8CAint, 796, 64, 0x8B95C1E3EA8B7B68int);
    lemma_chain_lower(0x34CE9515E8C0A5int, 4, 0xBD08A39F580C6B43int, 796, 64, 0x8B95C1E3EA8C2475int);
    assert(0x8B95C1E3EA8B7B68int * 0x8B95C1E3EA8B7B68int <= 0x9837F0518DB7E1E2int * 0x8000000000000000int);
    assert(0x9837F0518DB95295int * 0x8000000000000000int <= 0x8B95C1E3EA8C2475int * 0x8B95C1E3EA8C2475int);
    lemma_chain_upper(0x34CE9515E8C0A3int, 5, 0x8B95C1E3EA8B7B68int, 1656, 63, 0x9837F0518DB7E1E2int);
    lemma_chain_lower(0x34CE9515E8C0A5int, 5, 0x8B95C1E3EA8C2475int, 1656, 63, 0x9837F0518DB95295int);
    assert(0x9837F0518DB7E1E2int * 0x9837F0518DB7E1E2int <= 0xB504F333F9DC89E7int * 0x8000000000000000int);
    assert(0xB504F333F9DFF6D1int * 0x8000000000000000int <= 0x9837F0518DB95295int * 0x9837F0518DB95295int);
    lemma_chain_upper(0x34CE9515E8C0A3int, 6, 0x9837F0518DB7E1E2int, 3375, 63, 0xB504F333F9DC89E7int);
    lemma_chain_lower(0x34CE9515E8C0A5int, 6, 0x9837F0518DB95295int, 3375, 63, 0xB504F333F9DFF6D1int);
    assert(0xB504F333F9DC89E7int * 0xB504F333F9DC89E7int <= 0xFFFFFFFFFFFAC197int * 0x8000000000000000int);
    assert(0x100000000000471DFint * 0x8000000000000000int <= 0xB504F333F9DFF6D1int * 0xB504F333F9DFF6D1int);
    lemma_chain_upper(0x34CE9515E8C0A3int, 7, 0xB504F333F9DC89E7int, 6813, 63, 0xFFFFFFFFFFFAC197int);
    lemma_chain_lower(0x34CE9515E8C0A5int, 7, 0xB504F333F9DFF6D1int, 6813, 63, 0x100000000000471DFint);
    lemma_chains_round(0x3FEA_674A_8AF4_6052u64, 185, 8, 1, 0x34CE9515E8C0A3int, 0x34CE9515E8C0A5int, 0xFFFFFFFFFFFAC197int, 0x100000000000471DFint, 13689, 64);
}

/// Boundary 187 of schema 8, checked through its squaring chains.
proof fn rounded_8_187()
    ensures
        rounds_root(0x3FEA_8BFE_53C1_2E59u64, 187, 8),
{
    lemma2_to64();
    lemma2_to64_rest();
    lemma_chain_start(0x3517FCA7825CB1int);
    lemma_chain_start(0x3517FCA7825CB3int);
    assert(0x3517FCA7825CB1int * 0x3517FCA7825CB1int <= 0xB02F0DCBB6E0433Bint * 0x100000000000int);
    assert(0xB02F0DCBB6E05080int * 0x100000000000int <= 0x3517FCA7825CB3int * 0x3517FCA7825CB3int);
    lemma_chain_upper(0x3517FCA7825CB1int, 0, 0x3517FCA7825CB1int, 0, 44, 0xB02F0DCBB6E0433Bint);
    lemma_chain_lower(0x3517FCA7825CB3int, 0, 0x3517FCA7825CB3int, 0, 44, 0xB02F0DCBB6E05080int);
    assert(0xB02F0DCBB6E0433Bint * 0xB02F0DCBB6E0433Bint <= 0xF281773C59FFAAF1int * 0x8000000000000000int);
    assert(0xF281773C59FFCF77int * 0x8000000000000000int <= 0xB02F0DCBB6E05080int * 0xB02F0DCBB6E05080int);
    lemma_chain_upper(0x3517FCA7825CB1int, 1, 0xB02F0DCBB6E0433Bint, 44, 63, 0xF281773C59FFAAF1int);
    lemma_chain_lower(0x3517FCA7825CB3int, 1, 0xB02F0DCBB6E05080int, 44, 63, 0xF281773C59FFCF77int);
    assert(0xF281773C59FFAAF1int * 0xF281773C59FFAAF1int <= 0xE5B906E77C833CC0int * 0x10000000000000000int);
    assert(0xE5B906E77C8381F2int * 0x10000000000000000int <= 0xF281773C59FFCF77int * 0xF281773C59FFCF77int);
    lemma_chain_upper(0x3517FCA7825CB1int, 2, 0xF281773C59FFAAF1int, 151, 64, 0xE5B906E77C833CC0int);
    lemma_chain_lower(0x3517FCA7825CB3int, 2, 0xF281773C59FFCF77int, 151, 64, 0xE5B906E77C8381F2int);
    assert(0xE5B906E77C833CC0int * 0xE5B906E77C833CC0int <= 0xCE248C151F846B86int * 0x10000000000000000int);
    assert(0xCE248C151F84E7B4int * 0x10000000000000000int <= 0xE5B906E77C8381F2int * 0xE5B906E77C8381F2int);
    lemma_chain_upper(0x3517FCA7825CB1int, 3, 0xE5B906E77C833CC0int, 366, 64, 0xCE248C151F846B86int);
    lemma_chain_lower(0x3517FCA7825CB3int, 3, 0xE5B906E77C8381F2int, 366, 64, 0xCE248C151F84E7B4int);
    assert(0xCE248C151F846B86int * 0xCE248C151F846B86int <= 0xA5FED6A9B1511681int * 0x10000000000000000int);
    assert(0xA5FED6A9B151DE7Eint * 0x10000000000000000int <= 0xCE248C151F84E7B4int * 0xCE248C151F84E7B4int);
    lemma_chain_upper(0x3517FCA7825CB1int, 4, 0xCE248C151F846B86int, 796, 64, 0xA5FED6A9B1511681int);
    lemma_chain_lower(0x3517FCA7825CB3int, 4, 0xCE248C151F84E7B4int, 796, 64, 0xA5FED6A9B151DE7Eint);
    assert(0xA5FED6A9B1511681int * 0xA5FED6A9B1511681int <= 0xD744FCCAD69D11B5int * 0x8000000000000000int);
    assert(0xD744FCCAD69F1868int * 0x8000000000000000int <= 0xA5FED6A9B151DE7Eint * 0xA5FED6A9B151DE7Eint);
    lemma_chain_upper(0x3517FCA7825CB1int, 5, 0xA5FED6A9B1511681int, 1656, 63, 0xD744FCCAD69D11B5int);
    lemma_chain_lower(0x3517FCA7825CB3int, 5, 0xA5FED6A9B151DE7Eint, 1656, 63, 0xD744FCCAD69F1868int);
    assert(0xD744FCCAD69D11B5int * 0xD744FCCAD69D11B5int <= 0xB504F333F9DDCE6Dint * 0x10000000000000000int);
    assert(0xB504F333F9E136C4int * 0x10000000000000000int <= 0xD744FCCAD69F1868int * 0xD744FCCAD69F1868int);
    lemma_chain_upper(0x3517FCA7825CB1int, 6, 0xD744FCCAD69D11B5int, 3375, 64, 0xB504F333F9DDCE6Dint);
    lemma_chain_lower(0x3517FCA7825CB3int, 6, 0xD744FCCAD69F1868int, 3375, 64, 0xB504F333F9E136C4int);
    assert(0xB504F333F9DDCE6Dint * 0xB504F333F9DDCE6Dint <= 0xFFFFFFFFFFFE577Bint * 0x8000000000000000int);
    assert(0x1000000000007FAD3int * 0x8000000000000000int <= 0xB504F333F9E136C4int * 0xB504F333F9E136C4int);
    lemma_chain_upper(0x3517FCA7825CB1int, 7, 0xB504F333F9DDCE6Dint, 6814, 63, 0xFFFFFFFFFFFE577Bint);
    lemma_chain_lower(0x3517FCA7825CB3int, 7, 0xB504F333F9E136C4int, 6814, 63, 0x1000000000007FAD3int);
    lemma_chains_round(0x3FEA_8BFE_53C1_2E59u64, 187, 8, 1, 0x3517FCA7825CB1int, 0x3517FCA7825CB3int, 0xFFFFFFFFFFFE577Bint, 0x1000000000007FAD3int, 13691, 64);
}

/// Boundary 189 of schema 8, checked through its squaring chains.
proof fn rounded_8_189()
    ensures
        rounds_root(0x3FEA_B0E5_2135_6EBAu64, 189, 8),
{
    lemma2_to64();
    lemma2_to64_rest();
    lemma_chain_start(0x3561CA426ADD73int);
    lemma_chain_start(0x3561CA426ADD75int);
    assert(0x3561CA426ADD73int * 0x3561CA426ADD73int <= 0xB21A31A66618F4FFint * 0x100000000000int);
    assert(0xB21A31A666190256int * 0x100000000000int <= 0x3561CA426ADD75int * 0x3561CA426ADD75int);
    lemma_chain_upper(0x3561CA426ADD73int, 0, 0x3561CA426ADD73int, 0, 44, 0xB21A31A66618F4FFint);
    lemma_chain_lower(0x3561CA426ADD75int, 0, 0x3561CA426ADD75int, 0, 44, 0xB21A31A666190256int);
    assert(0xB21A31A66618F4FFint * 0xB21A31A66618F4FFint <= 0xF7D0DF730AD12205int * 0x8000000000000000int);
    assert(0xF7D0DF730AD14724int * 0x8000000000000000int <= 0xB21A31A666190256int * 0xB21A31A666190256int);
    lemma_chain_upper(0x3561CA426ADD73int, 1, 0xB21A31A66618F4FFint, 44, 63, 0xF7D0DF730AD12205int);
    lemma_chain_lower(0x3561CA426ADD75int, 1, 0xB21A31A666190256int, 44, 63, 0xF7D0DF730AD14724int);
    assert(0xF7D0DF730AD12205int * 0xF7D0DF730AD12205int <= 0xEFE4B99BDCDAC408int * 0x10000000000000000int);
    assert(0xEFE4B99BDCDB0BE6int * 0x10000000000000000int <= 0xF7D0DF730AD14724int * 0xF7D0DF730AD14724int);
    lemma_chain_upper(0x3561CA426ADD73int, 2, 0xF7D0DF730AD12205int, 151, 64, 0xEFE4B99BDCDAC408int);
    lemma_chain_lower(0x3561CA426ADD75int, 2, 0xF7D0DF730AD14724int, 151, 64, 0xEFE4B99BDCDB0BE6int);
    assert(0xEFE4B99BDCDAC408int * 0xEFE4B99BDCDAC408int <= 0xE0CCDEEC2A9483CEint * 0x10000000000000000int);
    assert(0xE0CCDEEC2A950A7Eint * 0x10000000000000000int <= 0xEFE4B99BDCDB0BE6int * 0xEFE4B99BDCDB0BE6int);
    lemma_chain_upper(0x3561CA426ADD73int, 3, 0xEFE4B99BDCDAC408int, 366, 64, 0xE0CCDEEC2A9483CEint);
    lemma_chain_lower(0x3561CA426ADD75int, 3, 0xEFE4B99BDCDB0BE6int, 366, 64, 0xE0CCDEEC2A950A7Eint);
    assert(0xE0CCDEEC2A9483CEint * 0xE0CCDEEC2A9483CEint <= 0xC5672A1155063713int * 0x10000000000000000int);
    assert(0xC5672A115507239Eint * 0x10000000000000000int <= 0xE0CCDEEC2A950A7Eint * 0xE0CCDEEC2A950A7Eint);
    lemma_chain_upper(0x3561CA426ADD73int, 4, 0xE0CCDEEC2A9483CEint, 796, 64, 0xC5672A1155063713int);
    lemma_chain_lower(0x3561CA426ADD75int, 4, 0xE0CCDEEC2A950A7Eint, 796, 64, 0xC5672A115507239Eint);
    assert(0xC5672A1155063713int * 0xC5672A1155063713int <= 0x9837F0518DB7ACD7int * 0x10000000000000000int);
    assert(0x9837F0518DB919A2int * 0x10000000000000000int <= 0xC5672A115507239Eint * 0xC5672A115507239Eint);
    lemma_chain_upper(0x3561CA426ADD73int, 5, 0xC5672A1155063713int, 1656, 64, 0x9837F0518DB7ACD7int);
    lemma_chain_lower(0x3561CA426ADD75int, 5, 0xC5672A115507239Eint, 1656, 64, 0x9837F0518DB919A2int);
    assert(0x9837F0518DB7ACD7int * 0x9837F0518DB7ACD7int <= 0xB504F333F9DC0BBEint * 0x8000000000000000int);
    assert(0xB504F333F9DF6F5Eint * 0x8000000000000000int <= 0x9837F0518DB919A2int * 0x9837F0518DB919A2int);
    lemma_chain_upper(0x3561CA426ADD73int, 6, 0x9837F0518DB7ACD7int, 3376, 63, 0xB504F333F9DC0BBEint);
    lemma_chain_lower(0x3561CA426ADD75int, 6, 0x9837F0518DB919A2int, 3376, 63, 0xB504F333F9DF6F5Eint);
    assert(0xB504F333F9DC0BBEint * 0xB504F333F9DC0BBEint <= 0xFFFFFFFFFFF95CC1int * 0x8000000000000000int);
    assert(0x1000000000002F2C4int * 0x8000000000000000int <= 0xB504F333F9DF6F5Eint * 0xB504F333F9DF6F5Eint);
    lemma_chain_upper(0x3561CA426ADD73int, 7, 0xB504F333F9DC0BBEint, 6815, 63, 0xFFFFFFFFFFF95CC1int);
    lemma_chain_lower(0x3561CA426ADD75int, 7, 0xB504F333F9DF6F5Eint, 6815, 63, 0x1000000000002F2C4int);
    lemma_chains_round(0x3FEA_B0E5_2135_6EBAu64, 189, 8, 1, 0x3561CA426ADD73int, 0x3561CA426ADD75int, 0xFFFFFFFFFFF95CC1int, 0x1000000000002F2C4int, 13693, 64);
}

/// Boundary 191 of schema 8, checked through its squaring chains.
proof fn rounded_8_191()
    ensures
        rounds_root(0x3FEA_D5FF_3A3C_2774u64, 191, 8),
{
    lemma2_to64();
    lemma2_to64_rest();
    lemma_chain_start(0x35ABFE74784EE7int);
    lemma_chain_start(0x35ABFE74784EE9int);
    assert(0x35ABFE74784EE7int * 0x35ABFE74784EE7int <= 0xB40AAEA2654B8C87int * 0x100000000000int);
    assert(0xB40AAEA2654B99F1int * 0x100000000000int <= 0x35ABFE74784EE9int * 0x35ABFE74784EE9int);
    lemma_chain_upper(0x35ABFE74784EE7int, 0, 0x35ABFE74784EE7int, 0, 44, 0xB40AAEA2654B8C87int);
    lemma_chain_lower(0x35ABFE74784EE9int, 0, 0x35ABFE74784EE9int, 0, 44, 0xB40AAEA2654B99F1int);
    assert(0xB40AAEA2654B8C87int * 0xB40AAEA2654B8C87int <= 0xFD3E0C0CF486A078int * 0x8000000000000000int);
    assert(0xFD3E0C0CF486C634int * 0x8000000000000000int <= 0xB40AAEA2654B99F1int * 0xB40AAEA2654B99F1int);
    lemma_chain_upper(0x35ABFE74784EE7int, 1, 0xB40AAEA2654B8C87int, 44, 63, 0xFD3E0C0CF486A078int);
    lemma_chain_lower(0x35ABFE74784EE9int, 1, 0xB40AAEA2654B99F1int, 44, 63, 0xFD3E0C0CF486C634int);
    assert(0xFD3E0C0CF486A078int * 0xFD3E0C0CF486A078int <= 0xFA83B2DB7229C1F8int * 0x10000000000000000int);
    assert(0xFA83B2DB722A0C9Fint * 0x10000000000000000int <= 0xFD3E0C0CF486C634int * 0xFD3E0C0CF486C634int);
    lemma_chain_upper(0x35ABFE74784EE7int, 2, 0xFD3E0C0CF486A078int, 151, 64, 0xFA83B2DB7229C1F8int);
    lemma_chain_lower(0x35ABFE74784EE9int, 2, 0xFD3E0C0CF486C634int, 151, 64, 0xFA83B2DB722A0C9Fint);
    assert(0xFA83B2DB7229C1F8int * 0xFA83B2DB7229C1F8int <= 0xF5257D1524864C74int * 0x10000000000000000int);
    assert(0xF5257D152486DE8Eint * 0x10000000000000000int <= 0xFA83B2DB722A0C9Fint * 0xFA83B2DB722A0C9Fint);
    lemma_chain_upper(0x35ABFE74784EE7int, 3, 0xFA83B2DB7229C1F8int, 366, 64, 0xF5257D1524864C74int);
    lemma_chain_lower(0x35ABFE74784EE9int, 3, 0xFA83B2DB722A0C9Fint, 366, 64, 0xF5257D152486DE8Eint);
    assert(0xF5257D1524864C74int * 0xF5257D1524864C74int <= 0xEAC0C6E7DD234493int * 0x10000000000000000int);
    assert(0xEAC0C6E7DD245C62int * 0x10000000000000000int <= 0xF5257D152486DE8Eint * 0xF5257D152486DE8Eint);
    lemma_chain_upper(0x35ABFE74784EE7int, 4, 0xF5257D1524864C74int, 796, 64, 0xEAC0C6E7DD234493int);
    lemma_chain_lower(0x35ABFE74784EE9int, 4, 0xF5257D152486DE8Eint, 796, 64, 0xEAC0C6E7DD245C62int);
    assert(0xEAC0C6E7DD234493int * 0xEAC0C6E7DD234493int <= 0xD744FCCAD69BAA57int * 0x10000000000000000int);
    assert(0xD744FCCAD69DAB82int * 0x10000000000000000int <= 0xEAC0C6E7DD245C62int * 0xEAC0C6E7DD245C62int);
    lemma_chain_upper(0x35ABFE74784EE7int, 5, 0xEAC0C6E7DD234493int, 1656, 64, 0xD744FCCAD69BAA57int);
    lemma_chain_lower(0x35ABFE74784EE9int, 5, 0xEAC0C6E7DD245C62int, 1656, 64, 0xD744FCCAD69DAB82int);
    assert(0xD744FCCAD69BAA57int * 0xD744FCCAD69BAA57int <= 0xB504F333F9DB720Bint * 0x10000000000000000int);
    assert(0xB504F333F9DED115int * 0x10000000000000000int <= 0xD744FCCAD69DAB82int * 0xD744FCCAD69DAB82int);
    lemma_chain_upper(0x35ABFE74784EE7int, 6, 0xD744FCCAD69BAA57int, 3376, 64, 0xB504F333F9DB720Bint);
    lemma_chain_lower(0x35ABFE74784EE9int, 6, 0xD744FCCAD69DAB82int, 3376, 64, 0xB504F333F9DED115int);
    assert(0xB504F333F9DB720Bint * 0xB504F333F9DB720Bint <= 0xFFFFFFFFFFF7AA07int * 0x8000000000000000int);
    assert(0x10000000000013311int * 0x8000000000000000int <= 0xB504F333F9DED115int * 0xB504F333F9DED115int);
    lemma_chain_upper(0x35ABFE74784EE7int, 7, 0xB504F333F9DB720Bint, 6816, 63, 0xFFFFFFFFFFF7AA07int);
    lemma_chain_lower(0x35ABFE74784EE9int, 7, 0xB504F333F9DED115int, 6816, 63, 0x10000000000013311int);
    lemma_chains_round(0x3FEA_D5FF_3A3C_2774u64, 191, 8, 1, 0x35ABFE74784EE7int, 0x35ABFE74784EE9int, 0xFFFFFFFFFFF7AA07int, 0x10000000000013311int, 13695, 64);
}

/// Boundary 193 of schema 8, checked through its squaring chains.
proof fn rounded_8_193()
    ensures
        rounds_root(0x3FEA_FB4C_E622_F2FFu64, 193, 8),
{
    lemma2_to64();
    lemma2_to64_rest();
    lemma_chain_start(0x35F699CC45E5FDint);
    lemma_chain_start(0x35F699CC45E5FFint);
    assert(0x35F699CC45E5FDint * 0x35F699CC45E5FDint <= 0xB60093A85ED5F50Aint * 0x100000000000int);
    assert(0xB60093A85ED60287int * 0x100000000000int <= 0x35F699CC45E5FFint * 0x35F699CC45E5FFint);
    lemma_chain_upper(0x35F699CC45E5FDint, 0, 0x35F699CC45E5FDint, 0, 44, 0xB60093A85ED5F50Aint);
    lemma_chain_lower(0x35F699CC45E5FFint, 0, 0x35F699CC45E5FFint, 0, 44, 0xB60093A85ED60287int);
    assert(0xB60093A85ED5F50Aint * 0xB60093A85ED5F50Aint <= 0x8164D1F3BC030411int * 0x10000000000000000int);
    assert(0x8164D1F3BC03173Eint * 0x10000000000000000int <= 0xB60093A85ED60287int * 0xB60093A85ED60287int);
    lemma_chain_upper(0x35F699CC45E5FDint, 1, 0xB60093A85ED5F50Aint, 44, 64, 0x8164D1F3BC030411int);
    lemma_chain_lower(0x35F699CC45E5FFint, 1, 0xB60093A85ED60287int, 44, 64, 0x8164D1F3BC03173Eint);
    assert(0x8164D1F3BC030411int * 0x8164D1F3BC030411int <= 0x82CD8698AC2B9B00int * 0x8000000000000000int);
    assert(0x82CD8698AC2BC1C4int * 0x8000000000000000int <= 0x8164D1F3BC03173Eint * 0x8164D1F3BC03173Eint);
    lemma_chain_upper(0x35F699CC45E5FDint, 2, 0x8164D1F3BC030411int, 152, 63, 0x82CD8698AC2B9B00int);
    lemma_chain_lower(0x35F699CC45E5FFint, 2, 0x8164D1F3BC03173Eint, 152, 63, 0x82CD8698AC2BC1C4int);
    assert(0x82CD8698AC2B9B00int * 0x82CD8698AC2B9B00int <= 0x85AAC367CC486D1Aint * 0x8000000000000000int);
    assert(0x85AAC367CC48BC54int * 0x8000000000000000int <= 0x82CD8698AC2BC1C4int * 0x82CD8698AC2BC1C4int);
    lemma_chain_upper(0x35F699CC45E5FDint, 3, 0x82CD8698AC2B9B00int, 367, 63, 0x85AAC367CC486D1Aint);
    lemma_chain_lower(0x35F699CC45E5FFint, 3, 0x82CD8698AC2BC1C4int, 367, 63, 0x85AAC367CC48BC54int);
    assert(0x85AAC367CC486D1Aint * 0x85AAC367CC486D1Aint <= 0x8B95C1E3EA8BB9B5int * 0x8000000000000000int);
    assert(0x8B95C1E3EA8C5F2Cint * 0x8000000000000000int <= 0x85AAC367CC48BC54int * 0x85AAC367CC48BC54int);
    lemma_chain_upper(0x35F699CC45E5FDint, 4, 0x85AAC367CC486D1Aint, 797, 63, 0x8B95C1E3EA8BB9B5int);
    lemma_chain_lower(0x35F699CC45E5FFint, 4, 0x85AAC367CC48BC54int, 797, 63, 0x8B95C1E3EA8C5F2Cint);
    assert(0x8B95C1E3EA8BB9B5int * 0x8B95C1E3EA8BB9B5int <= 0x9837F0518DB869C3int * 0x8000000000000000int);
    assert(0x9837F0518DB9D2A4int * 0x8000000000000000int <= 0x8B95C1E3EA8C5F2Cint * 0x8B95C1E3EA8C5F2Cint);
    lemma_chain_upper(0x35F699CC45E5FDint, 5, 0x8B95C1E3EA8BB9B5int, 1657, 63, 0x9837F0518DB869C3int);
    lemma_chain_lower(0x35F699CC45E5FFint, 5, 0x8B95C1E3EA8C5F2Cint, 1657, 63, 0x9837F0518DB9D2A4int);
    assert(0x9837F0518DB869C3int * 0x9837F0518DB869C3int <= 0xB504F333F9DDCD14int * 0x8000000000000000int);
    assert(0xB504F333F9E12765int * 0x8000000000000000int <= 0x9837F0518DB9D2A4int * 0x9837F0518DB9D2A4int);
    lemma_chain_upper(0x35F699CC45E5FDint, 6, 0x9837F0518DB869C3int, 3377, 63, 0xB504F333F9DDCD14int);
    lemma_chain_lower(0x35F699CC45E5FFint, 6, 0x9837F0518DB9D2A4int, 3377, 63, 0xB504F333F9E12765int);
    assert(0xB504F333F9DDCD14int * 0xB504F333F9DDCD14int <= 0xFFFFFFFFFFFE53ABint * 0x8000000000000000int);
    assert(0x1000000000007CF5Aint * 0x8000000000000000int <= 0xB504F333F9E12765int * 0xB504F333F9E12765int);
    lemma_chain_upper(0x35F699CC45E5FDint, 7, 0xB504F333F9DDCD14int, 6817, 63, 0xFFFFFFFFFFFE53ABint);
    lemma_chain_lower(0x35F699CC45E5FFint, 7, 0xB504F333F9E12765int, 6817, 63, 0x1000000000007CF5Aint);
    lemma_chains_round(0x3FEA_FB4C_E622_F2FFu64, 193, 8, 1, 0x35F699CC45E5FDint, 0x35F699CC45E5FFint, 0xFFFFFFFFFFFE53ABint, 0x1000000000007CF5Aint, 13697, 64);
}

/// Boundary 195 of schema 8, checked through its squaring chains.
proof fn rounded_8_195()
    ensures
        rounds_root(0x3FEB_20CE_6C9A_8952u64, 195, 8),
{
    lemma2_to64();
    lemma2_to64_rest();
    lemma_chain_start(0x36419CD93512A3int);
    lemma_chain_start(0x36419CD93512A5int);
    assert(0x36419CD93512A3int * 0x36419CD93512A3int <= 0xB7FBEFCA8CA41349int * 0x100000000000int);
    assert(0xB7FBEFCA8CA420D8int * 0x100000000000int <= 0x36419CD93512A5int * 0x36419CD93512A5int);
    lemma_chain_upper(0x36419CD93512A3int, 0, 0x36419CD93512A3int, 0, 44, 0xB7FBEFCA8CA41349int);
    lemma_chain_lower(0x36419CD93512A5int, 0, 0x36419CD93512A5int, 0, 44, 0xB7FBEFCA8CA420D8int);
    assert(0xB7FBEFCA8CA41349int * 0xB7FBEFCA8CA41349int <= 0x843A28C3ACDE302Dint * 0x10000000000000000int);
    assert(0x843A28C3ACDE43A9int * 0x10000000000000000int <= 0xB7FBEFCA8CA420D8int * 0xB7FBEFCA8CA420D8int);
    lemma_chain_upper(0x36419CD93512A3int, 1, 0xB7FBEFCA8CA41349int, 44, 64, 0x843A28C3ACDE302Dint);
    lemma_chain_lower(0x36419CD93512A5int, 1, 0xB7FBEFCA8CA420D8int, 44, 64, 0x843A28C3ACDE43A9int);
    assert(0x843A28C3ACDE302Dint * 0x843A28C3ACDE302Dint <= 0x88980E8092DA63E5int * 0x8000000000000000int);
    assert(0x88980E8092DA8C26int * 0x8000000000000000int <= 0x843A28C3ACDE43A9int * 0x843A28C3ACDE43A9int);
    lemma_chain_upper(0x36419CD93512A3int, 2, 0x843A28C3ACDE302Dint, 152, 63, 0x88980E8092DA63E5int);
    lemma_chain_lower(0x36419CD93512A5int, 2, 0x843A28C3ACDE43A9int, 152, 63, 0x88980E8092DA8C26int);
    assert(0x88980E8092DA63E5int * 0x88980E8092DA63E5int <= 0x91C3D373AB117C3Bint * 0x8000000000000000int);
    assert(0x91C3D373AB11D223int * 0x8000000000000000int <= 0x88980E8092DA8C26int * 0x88980E8092DA8C26int);
    lemma_chain_upper(0x36419CD93512A3int, 3, 0x88980E8092DA63E5int, 367, 63, 0x91C3D373AB117C3Bint);
    lemma_chain_lower(0x36419CD93512A5int, 3, 0x88980E8092DA8C26int, 367, 63, 0x91C3D373AB11D223int);
    assert(0x91C3D373AB117C3Bint * 0x91C3D373AB117C3Bint <= 0xA5FED6A9B1509741int * 0x8000000000000000int);
    assert(0xA5FED6A9B1515AE8int * 0x8000000000000000int <= 0x91C3D373AB11D223int * 0x91C3D373AB11D223int);
    lemma_chain_upper(0x36419CD93512A3int, 4, 0x91C3D373AB117C3Bint, 797, 63, 0xA5FED6A9B1509741int);
    lemma_chain_lower(0x36419CD93512A5int, 4, 0x91C3D373AB11D223int, 797, 63, 0xA5FED6A9B1515AE8int);
    assert(0xA5FED6A9B1509741int * 0xA5FED6A9B1509741int <= 0xD744FCCAD69BC7A9int * 0x8000000000000000int);
    assert(0xD744FCCAD69DC31Eint * 0x8000000000000000int <= 0xA5FED6A9B1515AE8int * 0xA5FED6A9B1515AE8int);
    lemma_chain_upper(0x36419CD93512A3int, 5, 0xA5FED6A9B1509741int, 1657, 63, 0xD744FCCAD69BC7A9int);
    lemma_chain_lower(0x36419CD93512A5int, 5, 0xA5FED6A9B1515AE8int, 1657, 63, 0xD744FCCAD69DC31Eint);
    assert(0xD744FCCAD69BC7A9int * 0xD744FCCAD69BC7A9int <= 0xB504F333F9DBA35Bint * 0x10000000000000000int);
    assert(0xB504F333F9DEF8CAint * 0x10000000000000000int <= 0xD744FCCAD69DC31Eint * 0xD744FCCAD69DC31Eint);
    lemma_chain_upper(0x36419CD93512A3int, 6, 0xD744FCCAD69BC7A9int, 3377, 64, 0xB504F333F9DBA35Bint);
    lemma_chain_lower(0x36419CD93512A5int, 6, 0xD744FCCAD69DC31Eint, 3377, 64, 0xB504F333F9DEF8CAint);
    assert(0xB504F333F9DBA35Bint * 0xB504F333F9DBA35Bint <= 0xFFFFFFFFFFF83581int * 0x8000000000000000int);
    assert(0x1000000000001A360int * 0x8000000000000000int <= 0xB504F333F9DEF8CAint * 0xB504F333F9DEF8CAint);
    lemma_chain_upper(0x36419CD93512A3int, 7, 0xB504F333F9DBA35Bint, 6818, 63, 0xFFFFFFFFFFF83581int);
    lemma_chain_lower(0x36419CD93512A5int, 7, 0xB504F333F9DEF8CAint, 6818, 63, 0x1000000000001A360int);
    lemma_chains_round(0x3FEB_20CE_6C9A_8952u64, 195, 8, 1, 0x36419CD93512A3int, 0x36419CD93512A5int, 0xFFFFFFFFFFF83581int, 0x1000000000001A360int, 13699, 64);
}

/// Boundary 197 of schema 8, checked through its squaring chains.
proof fn rounded_8_197()
    ensures
        rounds_root(0x3FEB_4684_15B7_49B1u64, 197, 8),
{
    lemma2_to64();
    lemma2_to64_rest();
    lemma_chain_start(0x368D082B6E9361int);
    lemma_chain_start(0x368D082B6E9363int);
    assert(0x368D082B6E9361int * 0x368D082B6E9361int <= 0xB9FCD2452C0B98C7int * 0x100000000000int);
    assert(0xB9FCD2452C0BA669int * 0x100000000000int <= 0x368D082B6E9363int * 0x368D082B6E9363int);
    lemma_chain_upper(0x368D082B6E9361int, 0, 0x368D082B6E9361int, 0, 44, 0xB9FCD2452C0B98C7int);
    lemma_chain_lower(0x368D082B6E9363int, 0, 0x368D082B6E9363int, 0, 44, 0xB9FCD2452C0BA669int);
    assert(0xB9FCD2452C0B98C7int * 0xB9FCD2452C0B98C7int <= 0x871F61969E8D0899int * 0x10000000000000000int);
    assert(0x871F61969E8D1C67int * 0x10000000000000000int <= 0xB9FCD2452C0BA669int * 0xB9FCD2452C0BA669int);
    lemma_chain_upper(0x368D082B6E9361int, 1, 0xB9FCD2452C0B98C7int, 44, 64, 0x871F61969E8D0899int);
    lemma_chain_lower(0x368D082B6E9363int, 1, 0xB9FCD2452C0BA669int, 44, 64, 0x871F61969E8D1C67int);
    assert(0x871F61969E8D0899int * 0x871F61969E8D0899int <= 0x8EA4398B45CD43FEint * 0x8000000000000000int);
    assert(0x8EA4398B45CD6DCDint * 0x8000000000000000int <= 0x871F61969E8D1C67int * 0x871F61969E8D1C67int);
    lemma_chain_upper(0x368D082B6E9361int, 2, 0x871F61969E8D0899int, 152, 63, 0x8EA4398B45CD43FEint);
    lemma_chain_lower(0x368D082B6E9363int, 2, 0x871F61969E8D1C67int, 152, 63, 0x8EA4398B45CD6DCDint);
    assert(0x8EA4398B45CD43FEint * 0x8EA4398B45CD43FEint <= 0x9EF5326091A0EE8Fint * 0x8000000000000000int);
    assert(0x9EF5326091A14BBCint * 0x8000000000000000int <= 0x8EA4398B45CD6DCDint * 0x8EA4398B45CD6DCDint);
    lemma_chain_upper(0x368D082B6E9361int, 3, 0x8EA4398B45CD43FEint, 367, 63, 0x9EF5326091A0EE8Fint);
    lemma_chain_lower(0x368D082B6E9363int, 3, 0x8EA4398B45CD6DCDint, 367, 63, 0x9EF5326091A14BBCint);
    assert(0x9EF5326091A0EE8Fint * 0x9EF5326091A0EE8Fint <= 0xC5672A11550683A4int * 0x8000000000000000int);
    assert(0xC5672A1155076B0Fint * 0x8000000000000000int <= 0x9EF5326091A14BBCint * 0x9EF5326091A14BBCint);
    lemma_chain_upper(0x368D082B6E9361int, 4, 0x9EF5326091A0EE8Fint, 797, 63, 0xC5672A11550683A4int);
    lemma_chain_lower(0x368D082B6E9363int, 4, 0x9EF5326091A14BBCint, 797, 63, 0xC5672A1155076B0Fint);
    assert(0xC5672A11550683A4int * 0xC5672A11550683A4int <= 0x9837F0518DB822EBint * 0x10000000000000000int);
    assert(0x9837F0518DB987D0int * 0x10000000000000000int <= 0xC5672A1155076B0Fint * 0xC5672A1155076B0Fint);
    lemma_chain_upper(0x368D082B6E9361int, 5, 0xC5672A11550683A4int, 1657, 64, 0x9837F0518DB822EBint);
    lemma_chain_lower(0x368D082B6E9363int, 5, 0xC5672A1155076B0Fint, 1657, 64, 0x9837F0518DB987D0int);
    assert(0x9837F0518DB822EBint * 0x9837F0518DB822EBint <= 0xB504F333F9DD2495int * 0x8000000000000000int);
    assert(0xB504F333F9E0756Cint * 0x8000000000000000int <= 0x9837F0518DB987D0int * 0x9837F0518DB987D0int);
    lemma_chain_upper(0x368D082B6E9361int, 6, 0x9837F0518DB822EBint, 3378, 63, 0xB504F333F9DD2495int);
    lemma_chain_lower(0x368D082B6E9363int, 6, 0x9837F0518DB987D0int, 3378, 63, 0xB504F333F9E0756Cint);
    assert(0xB504F333F9DD2495int * 0xB504F333F9DD2495int <= 0xFFFFFFFFFFFC7717int * 0x8000000000000000int);
    assert(0x1000000000005D7F8int * 0x8000000000000000int <= 0xB504F333F9E0756Cint * 0xB504F333F9E0756Cint);
    lemma_chain_upper(0x368D082B6E9361int, 7, 0xB504F333F9DD2495int, 6819, 63, 0xFFFFFFFFFFFC7717int);
    lemma_chain_lower(0x368D082B6E9363int, 7, 0xB504F333F9E0756Cint, 6819, 63, 0x1000000000005D7F8int);
    lemma_chains_round(0x3FEB_4684_15B7_49B1u64, 197, 8, 1, 0x368D082B6E9361int, 0x368D082B6E9363int, 0xFFFFFFFFFFFC7717int, 0x1000000000005D7F8int, 13701, 64);
}

/// Boundary 199 of schema 8, checked through its squaring chains.
proof fn rounded_8_199()
    ensures
        rounds_root(0x3FEB_6C6E_29F1_C52Au64, 199, 8),
{
    lemma2_to64();
    lemma2_to64_rest();
    lemma_chain_start(0x36D8DC53E38A53int);
    lemma_chain_start(0x36D8DC53E38A55int);
    assert(0x36D8DC53E38A53int * 0x36D8DC53E38A53int <= 0xBC034A7EF2E9F033int * 0x100000000000int);
    assert(0xBC034A7EF2E9FDE8int * 0x100000000000int <= 0x36D8DC53E38A55int * 0x36D8DC53E38A55int);
    lemma_chain_upper(0x36D8DC53E38A53int, 0, 0x36D8DC53E38A53int, 0, 44, 0xBC034A7EF2E9F033int);
    lemma_chain_lower(0x36D8DC53E38A55int, 0, 0x36D8DC53E38A55int, 0, 44, 0xBC034A7EF2E9FDE8int);
    assert(0xBC034A7EF2E9F033int * 0xBC034A7EF2E9F033int <= 0x8A14D575496EEDAAint * 0x10000000000000000int);
    assert(0x8A14D575496F01CBint * 0x10000000000000000int <= 0xBC034A7EF2E9FDE8int * 0xBC034A7EF2E9FDE8int);
    lemma_chain_upper(0x36D8DC53E38A53int, 1, 0xBC034A7EF2E9F033int, 44, 64, 0x8A14D575496EEDAAint);
    lemma_chain_lower(0x36D8DC53E38A55int, 1, 0xBC034A7EF2E9FDE8int, 44, 64, 0x8A14D575496F01CBint);
    assert(0x8A14D575496EEDAAint * 0x8A14D575496EEDAAint <= 0x94F4EFA8FEF6E6FFint * 0x8000000000000000int);
    assert(0x94F4EFA8FEF7126Cint * 0x8000000000000000int <= 0x8A14D575496F01CBint * 0x8A14D575496F01CBint);
    lemma_chain_upper(0x36D8DC53E38A53int, 2, 0x8A14D575496EEDAAint, 152, 63, 0x94F4EFA8FEF6E6FFint);
    lemma_chain_lower(0x36D8DC53E38A55int, 2, 0x8A14D575496F01CBint, 152, 63, 0x94F4EFA8FEF7126Cint);
    assert(0x94F4EFA8FEF6E6FFint * 0x94F4EFA8FEF6E6FFint <= 0xAD583EEA42A0FAC0int * 0x8000000000000000int);
    assert(0xAD583EEA42A15FD1int * 0x8000000000000000int <= 0x94F4EFA8FEF7126Cint * 0x94F4EFA8FEF7126Cint);
    lemma_chain_upper(0x36D8DC53E38A53int, 3, 0x94F4EFA8FEF6E6FFint, 367, 63, 0xAD583EEA42A0FAC0int);
    lemma_chain_lower(0x36D8DC53E38A55int, 3, 0x94F4EFA8FEF7126Cint, 367, 63, 0xAD583EEA42A15FD1int);
    assert(0xAD583EEA42A0FAC0int * 0xAD583EEA42A0FAC0int <= 0xEAC0C6E7DD236070int * 0x8000000000000000int);
    assert(0xEAC0C6E7DD24722Cint * 0x8000000000000000int <= 0xAD583EEA42A15FD1int * 0xAD583EEA42A15FD1int);
    lemma_chain_upper(0x36D8DC53E38A53int, 4, 0xAD583EEA42A0FAC0int, 797, 63, 0xEAC0C6E7DD236070int);
    lemma_chain_lower(0x36D8DC53E38A55int, 4, 0xAD583EEA42A15FD1int, 797, 63, 0xEAC0C6E7DD24722Cint);
    assert(0xEAC0C6E7DD236070int * 0xEAC0C6E7DD236070int <= 0xD744FCCAD69BDD71int * 0x10000000000000000int);
    assert(0xD744FCCAD69DD378int * 0x10000000000000000int <= 0xEAC0C6E7DD24722Cint * 0xEAC0C6E7DD24722Cint);
    lemma_chain_upper(0x36D8DC53E38A53int, 5, 0xEAC0C6E7DD236070int, 1657, 64, 0xD744FCCAD69BDD71int);
    lemma_chain_lower(0x36D8DC53E38A55int, 5, 0xEAC0C6E7DD24722Cint, 1657, 64, 0xD744FCCAD69DD378int);
    assert(0xD744FCCAD69BDD71int * 0xD744FCCAD69BDD71int <= 0xB504F333F9DBC7FCint * 0x10000000000000000int);
    assert(0xB504F333F9DF144Aint * 0x10000000000000000int <= 0xD744FCCAD69DD378int * 0xD744FCCAD69DD378int);
    lemma_chain_upper(0x36D8DC53E38A53int, 6, 0xD744FCCAD69BDD71int, 3378, 64, 0xB504F333F9DBC7FCint);
    lemma_chain_lower(0x36D8DC53E38A55int, 6, 0xD744FCCAD69DD378int, 3378, 64, 0xB504F333F9DF144Aint);
    assert(0xB504F333F9DBC7FCint * 0xB504F333F9DBC7FCint <= 0xFFFFFFFFFFF89D1Bint * 0x8000000000000000int);
    assert(0x1000000000001F128int * 0x8000000000000000int <= 0xB504F333F9DF144Aint * 0xB504F333F9DF144Aint);
    lemma_chain_upper(0x36D8DC53E38A53int, 7, 0xB504F333F9DBC7FCint, 6820, 63, 0xFFFFFFFFFFF89D1Bint);
    lemma_chain_lower(0x36D8DC53E38A55int, 7, 0xB504F333F9DF144Aint, 6820, 63, 0x1000000000001F128int);
    lemma_chains_round(0x3FEB_6C6E_29F1_C52Au64, 199, 8, 1, 0x36D8DC53E38A53int, 0x36D8DC53E38A55int, 0xFFFFFFFFFFF89D1Bint, 0x1000000000001F128int, 13703, 64);
}

/// Boundary 201 of schema 8, checked through its squaring chains.
proof fn rounded_8_201()
    ensures
        rounds_root(0x3FEB_928C_F227_49E4u64, 201, 8),
{
    lemma2_to64();
    lemma2_to64_rest();
    lemma_chain_start(0x372519E44E93C7int);
    lemma_chain_start(0x372519E44E93C9int);
    assert(0x372519E44E93C7int * 0x372519E44E93C7int <= 0xBE0F6809860992E8int * 0x100000000000int);
    assert(0xBE0F68098609A0B0int * 0x100000000000int <= 0x372519E44E93C9int * 0x372519E44E93C9int);
    lemma_chain_upper(0x372519E44E93C7int, 0, 0x372519E44E93C7int, 0, 44, 0xBE0F6809860992E8int);
    lemma_chain_lower(0x372519E44E93C9int, 0, 0x372519E44E93C9int, 0, 44, 0xBE0F68098609A0B0int);
    assert(0xBE0F6809860992E8int * 0xBE0F6809860992E8int <= 0x8D1ADF5B7E5BA873int * 0x10000000000000000int);
    assert(0x8D1ADF5B7E5BBCE8int * 0x10000000000000000int <= 0xBE0F68098609A0B0int * 0xBE0F68098609A0B0int);
    lemma_chain_upper(0x372519E44E93C7int, 1, 0xBE0F6809860992E8int, 44, 64, 0x8D1ADF5B7E5BA873int);
    lemma_chain_lower(0x372519E44E93C9int, 1, 0xBE0F68098609A0B0int, 44, 64, 0x8D1ADF5B7E5BBCE8int);
    assert(0x8D1ADF5B7E5BA873int * 0x8D1ADF5B7E5BA873int <= 0x9B8D39B9D54E5208int * 0x8000000000000000int);
    assert(0x9B8D39B9D54E7F21int * 0x8000000000000000int <= 0x8D1ADF5B7E5BBCE8int * 0x8D1ADF5B7E5BBCE8int);
    lemma_chain_upper(0x372519E44E93C7int, 2, 0x8D1ADF5B7E5BA873int, 152, 63, 0x9B8D39B9D54E5208int);
    lemma_chain_lower(0x372519E44E93C9int, 2, 0x8D1ADF5B7E5BBCE8int, 152, 63, 0x9B8D39B9D54E7F21int);
    assert(0x9B8D39B9D54E5208int * 0x9B8D39B9D54E5208int <= 0xBD08A39F580C2EFEint * 0x8000000000000000int);
    assert(0xBD08A39F580C9C99int * 0x8000000000000000int <= 0x9B8D39B9D54E7F21int * 0x9B8D39B9D54E7F21int);
    lemma_chain_upper(0x372519E44E93C7int, 3, 0x9B8D39B9D54E5208int, 367, 63, 0xBD08A39F580C2EFEint);
    lemma_chain_lower(0x372519E44E93C9int, 3, 0x9B8D39B9D54E7F21int, 367, 63, 0xBD08A39F580C9C99int);
    assert(0xBD08A39F580C2EFEint * 0xBD08A39F580C2EFEint <= 0x8B95C1E3EA8BCB74int * 0x10000000000000000int);
    assert(0x8B95C1E3EA8C6D52int * 0x10000000000000000int <= 0xBD08A39F580C9C99int * 0xBD08A39F580C9C99int);
    lemma_chain_upper(0x372519E44E93C7int, 4, 0xBD08A39F580C2EFEint, 797, 64, 0x8B95C1E3EA8BCB74int);
    lemma_chain_lower(0x372519E44E93C9int, 4, 0xBD08A39F580C9C99int, 797, 64, 0x8B95C1E3EA8C6D52int);
    assert(0x8B95C1E3EA8BCB74int * 0x8B95C1E3EA8BCB74int <= 0x9837F0518DB89077int * 0x8000000000000000int);
    assert(0x9837F0518DB9F17Fint * 0x8000000000000000int <= 0x8B95C1E3EA8C6D52int * 0x8B95C1E3EA8C6D52int);
    lemma_chain_upper(0x372519E44E93C7int, 5, 0x8B95C1E3EA8BCB74int, 1658, 63, 0x9837F0518DB89077int);
    lemma_chain_lower(0x372519E44E93C9int, 5, 0x8B95C1E3EA8C6D52int, 1658, 63, 0x9837F0518DB9F17Fint);
    assert(0x9837F0518DB89077int * 0x9837F0518DB89077int <= 0xB504F333F9DE2921int * 0x8000000000000000int);
    assert(0xB504F333F9E170C8int * 0x8000000000000000int <= 0x9837F0518DB9F17Fint * 0x9837F0518DB9F17Fint);
    lemma_chain_upper(0x372519E44E93C7int, 6, 0x9837F0518DB89077int, 3379, 63, 0xB504F333F9DE2921int);
    lemma_chain_lower(0x372519E44E93C9int, 6, 0x9837F0518DB9F17Fint, 3379, 63, 0xB504F333F9E170C8int);
    assert(0xB504F333F9DE2921int * 0xB504F333F9DE2921int <= 0xFFFFFFFFFFFF5807int * 0x8000000000000000int);
    assert(0x10000000000089EEBint * 0x8000000000000000int <= 0xB504F333F9E170C8int * 0xB504F333F9E170C8int);
    lemma_chain_upper(0x372519E44E93C7int, 7, 0xB504F333F9DE2921int, 6821, 63, 0xFFFFFFFFFFFF5807int);
    lemma_chain_lower(0x372519E44E93C9int, 7, 0xB504F333F9E170C8int, 6821, 63, 0x10000000000089EEBint);
    lemma_chains_round(0x3FEB_928C_F227_49E4u64, 201, 8, 1, 0x372519E44E93C7int, 0x372519E44E93C9int, 0xFFFFFFFFFFFF5807int, 0x10000000000089EEBint, 13705, 64);
}

/// Boundary 203 of schema 8, checked through its squaring chains.
proof fn rounded_8_203()
    ensures
        rounds_root(0x3FEB_B8E0_B79A_6F1Fu64, 203, 8),
{
    lemma2_to64();
    lemma2_to64_rest();
    lemma_chain_start(0x3771C16F34DE3Dint);
    lemma_chain_start(0x3771C16F34DE3Fint);
    assert(0x3771C16F34DE3Dint * 0x3771C16F34DE3Dint <= 0xC0213AA1F0D086DEint * 0x100000000000int);
    assert(0xC0213AA1F0D094B9int * 0x100000000000int <= 0x3771C16F34DE3Fint * 0x3771C16F34DE3Fint);
    lemma_chain_upper(0x3771C16F34DE3Dint, 0, 0x3771C16F34DE3Dint, 0, 44, 0xC0213AA1F0D086DEint);
    lemma_chain_lower(0x3771C16F34DE3Fint, 0, 0x3771C16F34DE3Fint, 0, 44, 0xC0213AA1F0D094B9int);
    assert(0xC0213AA1F0D086DEint * 0xC0213AA1F0D086DEint <= 0x9031DC431466A7A0int * 0x10000000000000000int);
    assert(0x9031DC431466BC6Bint * 0x10000000000000000int <= 0xC0213AA1F0D094B9int * 0xC0213AA1F0D094B9int);
    lemma_chain_upper(0x3771C16F34DE3Dint, 1, 0xC0213AA1F0D086DEint, 44, 64, 0x9031DC431466A7A0int);
    lemma_chain_lower(0x3771C16F34DE3Fint, 1, 0xC0213AA1F0D094B9int, 44, 64, 0x9031DC431466BC6Bint);
    assert(0x9031DC431466A7A0int * 0x9031DC431466A7A0int <= 0xA27043030C495109int * 0x8000000000000000int);
    assert(0xA27043030C497FE1int * 0x8000000000000000int <= 0x9031DC431466BC6Bint * 0x9031DC431466BC6Bint);
    lemma_chain_upper(0x3771C16F34DE3Dint, 2, 0x9031DC431466A7A0int, 152, 63, 0xA27043030C495109int);
    lemma_chain_lower(0x3771C16F34DE3Fint, 2, 0x9031DC431466BC6Bint, 152, 63, 0xA27043030C497FE1int);
    assert(0xA27043030C495109int * 0xA27043030C495109int <= 0xCE248C151F84465Cint * 0x8000000000000000int);
    assert(0xCE248C151F84BD40int * 0x8000000000000000int <= 0xA27043030C497FE1int * 0xA27043030C497FE1int);
    lemma_chain_upper(0x3771C16F34DE3Dint, 3, 0xA27043030C495109int, 367, 63, 0xCE248C151F84465Cint);
    lemma_chain_lower(0x3771C16F34DE3Fint, 3, 0xA27043030C497FE1int, 367, 63, 0xCE248C151F84BD40int);
    assert(0xCE248C151F84465Cint * 0xCE248C151F84465Cint <= 0xA5FED6A9B150DAA7int * 0x10000000000000000int);
    assert(0xA5FED6A9B1519A1Fint * 0x10000000000000000int <= 0xCE248C151F84BD40int * 0xCE248C151F84BD40int);
    lemma_chain_upper(0x3771C16F34DE3Dint, 4, 0xCE248C151F84465Cint, 797, 64, 0xA5FED6A9B150DAA7int);
    lemma_chain_lower(0x3771C16F34DE3Fint, 4, 0xCE248C151F84BD40int, 797, 64, 0xA5FED6A9B1519A1Fint);
    assert(0xA5FED6A9B150DAA7int * 0xA5FED6A9B150DAA7int <= 0xD744FCCAD69C7678int * 0x8000000000000000int);
    assert(0xD744FCCAD69E6713int * 0x8000000000000000int <= 0xA5FED6A9B1519A1Fint * 0xA5FED6A9B1519A1Fint);
    lemma_chain_upper(0x3771C16F34DE3Dint, 5, 0xA5FED6A9B150DAA7int, 1658, 63, 0xD744FCCAD69C7678int);
    lemma_chain_lower(0x3771C16F34DE3Fint, 5, 0xA5FED6A9B1519A1Fint, 1658, 63, 0xD744FCCAD69E6713int);
    assert(0xD744FCCAD69C7678int * 0xD744FCCAD69C7678int <= 0xB504F333F9DCC958int * 0x10000000000000000int);
    assert(0xB504F333F9E00C87int * 0x10000000000000000int <= 0xD744FCCAD69E6713int * 0xD744FCCAD69E6713int);
    lemma_chain_upper(0x3771C16F34DE3Dint, 6, 0xD744FCCAD69C7678int, 3379, 64, 0xB504F333F9DCC958int);
    lemma_chain_lower(0x3771C16F34DE3Fint, 6, 0xD744FCCAD69E6713int, 3379, 64, 0xB504F333F9E00C87int);
    assert(0xB504F333F9DCC958int * 0xB504F333F9DCC958int <= 0xFFFFFFFFFFFB7507int * 0x8000000000000000int);
    assert(0x1000000000004AF48int * 0x8000000000000000int <= 0xB504F333F9E00C87int * 0xB504F333F9E00C87int);
    lemma_chain_upper(0x3771C16F34DE3Dint, 7, 0xB504F333F9DCC958int, 6822, 63, 0xFFFFFFFFFFFB7507int);
    lemma_chain_lower(0x3771C16F34DE3Fint, 7, 0xB504F333F9E00C87int, 6822, 63, 0x1000000000004AF48int);
    lemma_chains_round(0x3FEB_B8E0_B79A_6F1Fu64, 203, 8, 1, 0x3771C16F34DE3Dint, 0x3771C16F34DE3Fint, 0xFFFFFFFFFFFB7507int, 0x1000000000004AF48int, 13707, 64);
}

/// Boundary 205 of schema 8, checked through its squaring chains.
proof fn rounded_8_205()
    ensures
        rounds_root(0x3FEB_DF69_C3F3_A207u64, 205, 8),
{
    lemma2_to64();
    lemma2_to64_rest();
    lemma_chain_start(0x37BED387E7440Dint);
    lemma_chain_start(0x37BED387E7440Fint);
    assert(0x37BED387E7440Dint * 0x37BED387E7440Dint <= 0xC238D2311E3D5F94int * 0x100000000000int);
    assert(0xC238D2311E3D6D82int * 0x100000000000int <= 0x37BED387E7440Fint * 0x37BED387E7440Fint);
    lemma_chain_upper(0x37BED387E7440Dint, 0, 0x37BED387E7440Dint, 0, 44, 0xC238D2311E3D5F94int);
    lemma_chain_lower(0x37BED387E7440Fint, 0, 0x37BED387E7440Fint, 0, 44, 0xC238D2311E3D6D82int);
    assert(0xC238D2311E3D5F94int * 0xC238D2311E3D5F94int <= 0x935A2B2F13E6DEC0int * 0x10000000000000000int);
    assert(0x935A2B2F13E6F3E2int * 0x10000000000000000int <= 0xC238D2311E3D6D82int * 0xC238D2311E3D6D82int);
    lemma_chain_upper(0x37BED387E7440Dint, 1, 0xC238D2311E3D5F94int, 44, 64, 0x935A2B2F13E6DEC0int);
    lemma_chain_lower(0x37BED387E7440Fint, 1, 0xC238D2311E3D6D82int, 44, 64, 0x935A2B2F13E6F3E2int);
    assert(0x935A2B2F13E6DEC0int * 0x935A2B2F13E6DEC0int <= 0xA9A15AB4EA7BF6FAint * 0x8000000000000000int);
    assert(0xA9A15AB4EA7C27A1int * 0x8000000000000000int <= 0x935A2B2F13E6F3E2int * 0x935A2B2F13E6F3E2int);
    lemma_chain_upper(0x37BED387E7440Dint, 2, 0x935A2B2F13E6DEC0int, 152, 63, 0xA9A15AB4EA7BF6FAint);
    lemma_chain_lower(0x37BED387E7440Fint, 2, 0x935A2B2F13E6F3E2int, 152, 63, 0xA9A15AB4EA7C27A1int);
    assert(0xA9A15AB4EA7BF6FAint * 0xA9A15AB4EA7BF6FAint <= 0xE0CCDEEC2A94A179int * 0x8000000000000000int);
    assert(0xE0CCDEEC2A95226Cint * 0x8000000000000000int <= 0xA9A15AB4EA7C27A1int * 0xA9A15AB4EA7C27A1int);
    lemma_chain_upper(0x37BED387E7440Dint, 3, 0xA9A15AB4EA7BF6FAint, 367, 63, 0xE0CCDEEC2A94A179int);
    lemma_chain_lower(0x37BED387E7440Fint, 3, 0xA9A15AB4EA7C27A1int, 367, 63, 0xE0CCDEEC2A95226Cint);
    assert(0xE0CCDEEC2A94A179int * 0xE0CCDEEC2A94A179int <= 0xC5672A1155066B2Eint * 0x10000000000000000int);
    assert(0xC5672A1155074DA5int * 0x10000000000000000int <= 0xE0CCDEEC2A95226Cint * 0xE0CCDEEC2A95226Cint);
    lemma_chain_upper(0x37BED387E7440Dint, 4, 0xE0CCDEEC2A94A179int, 797, 64, 0xC5672A1155066B2Eint);
    lemma_chain_lower(0x37BED387E7440Fint, 4, 0xE0CCDEEC2A95226Cint, 797, 64, 0xC5672A1155074DA5int);
    assert(0xC5672A1155066B2Eint * 0xC5672A1155066B2Eint <= 0x9837F0518DB7FD32int * 0x10000000000000000int);
    assert(0x9837F0518DB95A73int * 0x10000000000000000int <= 0xC5672A1155074DA5int * 0xC5672A1155074DA5int);
    lemma_chain_upper(0x37BED387E7440Dint, 5, 0xC5672A1155066B2Eint, 1658, 64, 0x9837F0518DB7FD32int);
    lemma_chain_lower(0x37BED387E7440Fint, 5, 0xC5672A1155074DA5int, 1658, 64, 0x9837F0518DB95A73int);
    assert(0x9837F0518DB7FD32int * 0x9837F0518DB7FD32int <= 0xB504F333F9DCCADDint * 0x8000000000000000int);
    assert(0xB504F333F9E00987int * 0x8000000000000000int <= 0x9837F0518DB95A73int * 0x9837F0518DB95A73int);
    lemma_chain_upper(0x37BED387E7440Dint, 6, 0x9837F0518DB7FD32int, 3380, 63, 0xB504F333F9DCCADDint);
    lemma_chain_lower(0x37BED387E7440Fint, 6, 0x9837F0518DB95A73int, 3380, 63, 0xB504F333F9E00987int);
    assert(0xB504F333F9DCCADDint * 0xB504F333F9DCCADDint <= 0xFFFFFFFFFFFB7954int * 0x8000000000000000int);
    assert(0x1000000000004A6CCint * 0x8000000000000000int <= 0xB504F333F9E00987int * 0xB504F333F9E00987int);
    lemma_chain_upper(0x37BED387E7440Dint, 7, 0xB504F333F9DCCADDint, 6823, 63, 0xFFFFFFFFFFFB7954int);
    lemma_chain_lower(0x37BED387E7440Fint, 7, 0xB504F333F9E00987int, 6823, 63, 0x1000000000004A6CCint);
    lemma_chains_round(0x3FEB_DF69_C3F3_A207u64, 205, 8, 1, 0x37BED387E7440Dint, 0x37BED387E7440Fint, 0xFFFFFFFFFFFB7954int, 0x1000000000004A6CCint, 13709, 64);
}

/// Boundary 207 of schema 8, checked through its squaring chains.
proof fn rounded_8_207()
    ensures
        rounds_root(0x3FEC_0628_6141_B33Du64, 207, 8),
{
    lemma2_to64();
    lemma2_to64_rest();
    lemma_chain_start(0x380C50C2836679int);
    lemma_chain_start(0x380C50C283667Bint);
    assert(0x380C50C2836679int * 0x380C50C2836679int <= 0xC4563ECC5334C76Dint * 0x100000000000int);
    assert(0xC4563ECC5334D56Fint * 0x100000000000int <= 0x380C50C283667Bint * 0x380C50C283667Bint);
    lemma_chain_upper(0x380C50C2836679int, 0, 0x380C50C2836679int, 0, 44, 0xC4563ECC5334C76Dint);
    lemma_chain_lower(0x380C50C283667Bint, 0, 0x380C50C283667Bint, 0, 44, 0xC4563ECC5334D56Fint);
    assert(0xC4563ECC5334C76Dint * 0xC4563ECC5334C76Dint <= 0x96942D3720185438int * 0x10000000000000000int);
    assert(0x96942D37201869B3int * 0x10000000000000000int <= 0xC4563ECC5334D56Fint * 0xC4563ECC5334D56Fint);
    lemma_chain_upper(0x380C50C2836679int, 1, 0xC4563ECC5334C76Dint, 44, 64, 0x96942D3720185438int);
    lemma_chain_lower(0x380C50C283667Bint, 1, 0xC4563ECC5334D56Fint, 44, 64, 0x96942D37201869B3int);
    assert(0x96942D3720185438int * 0x96942D3720185438int <= 0xB123F581D2AC17F5int * 0x8000000000000000int);
    assert(0xB123F581D2AC4A7Eint * 0x8000000000000000int <= 0x96942D37201869B3int * 0x96942D37201869B3int);
    lemma_chain_upper(0x380C50C2836679int, 2, 0x96942D3720185438int, 152, 63, 0xB123F581D2AC17F5int);
    lemma_chain_lower(0x380C50C283667Bint, 2, 0x96942D37201869B3int, 152, 63, 0xB123F581D2AC4A7Eint);
    assert(0xB123F581D2AC17F5int * 0xB123F581D2AC17F5int <= 0xF5257D152486A686int * 0x8000000000000000int);
    assert(0xF5257D1524873264int * 0x8000000000000000int <= 0xB123F581D2AC4A7Eint * 0xB123F581D2AC4A7Eint);
    lemma_chain_upper(0x380C50C2836679int, 3, 0xB123F581D2AC17F5int, 367, 63, 0xF5257D152486A686int);
    lemma_chain_lower(0x380C50C283667Bint, 3, 0xB123F581D2AC4A7Eint, 367, 63, 0xF5257D1524873264int);
    assert(0xF5257D152486A686int * 0xF5257D152486A686int <= 0xEAC0C6E7DD23F114int * 0x10000000000000000int);
    assert(0xEAC0C6E7DD24FCF3int * 0x10000000000000000int <= 0xF5257D1524873264int * 0xF5257D1524873264int);
    lemma_chain_upper(0x380C50C2836679int, 4, 0xF5257D152486A686int, 797, 64, 0xEAC0C6E7DD23F114int);
    lemma_chain_lower(0x380C50C283667Bint, 4, 0xF5257D1524873264int, 797, 64, 0xEAC0C6E7DD24FCF3int);
    assert(0xEAC0C6E7DD23F114int * 0xEAC0C6E7DD23F114int <= 0xD744FCCAD69CE6B7int * 0x10000000000000000int);
    assert(0xD744FCCAD69ED1FDint * 0x10000000000000000int <= 0xEAC0C6E7DD24FCF3int * 0xEAC0C6E7DD24FCF3int);
    lemma_chain_upper(0x380C50C2836679int, 5, 0xEAC0C6E7DD23F114int, 1658, 64, 0xD744FCCAD69CE6B7int);
    lemma_chain_lower(0x380C50C283667Bint, 5, 0xEAC0C6E7DD24FCF3int, 1658, 64, 0xD744FCCAD69ED1FDint);
    assert(0xD744FCCAD69CE6B7int * 0xD744FCCAD69CE6B7int <= 0xB504F333F9DD861Fint * 0x10000000000000000int);
    assert(0xB504F333F9E0C056int * 0x10000000000000000int <= 0xD744FCCAD69ED1FDint * 0xD744FCCAD69ED1FDint);
    lemma_chain_upper(0x380C50C2836679int, 6, 0xD744FCCAD69CE6B7int, 3380, 64, 0xB504F333F9DD861Fint);
    lemma_chain_lower(0x380C50C283667Bint, 6, 0xD744FCCAD69ED1FDint, 3380, 64, 0xB504F333F9E0C056int);
    assert(0xB504F333F9DD861Fint * 0xB504F333F9DD861Fint <= 0xFFFFFFFFFFFD8AF9int * 0x8000000000000000int);
    assert(0x1000000000006ABDBint * 0x8000000000000000int <= 0xB504F333F9E0C056int * 0xB504F333F9E0C056int);
    lemma_chain_upper(0x380C50C2836679int, 7, 0xB504F333F9DD861Fint, 6824, 63, 0xFFFFFFFFFFFD8AF9int);
    lemma_chain_lower(0x380C50C283667Bint, 7, 0xB504F333F9E0C056int, 6824, 63, 0x1000000000006ABDBint);
    lemma_chains_round(0x3FEC_0628_6141_B33Du64, 207, 8, 1, 0x380C50C2836679int, 0x380C50C283667Bint, 0xFFFFFFFFFFFD8AF9int, 0x1000000000006ABDBint, 13711, 64);
}

/// Boundary 209 of schema 8, checked through its squaring chains.
proof fn rounded_8_209()
    ensures
        rounds_root(0x3FEC_2D1C_D9FA_652Cu64, 209, 8),
{
    lemma2_to64();
    lemma2_to64_rest();
    lemma_chain_start(0x385A39B3F4CA57int);
    lemma_chain_start(0x385A39B3F4CA59int);
    assert(0x385A39B3F4CA57int * 0x385A39B3F4CA57int <= 0xC67990B5AA245D79int * 0x100000000000int);
    assert(0xC67990B5AA246B8Eint * 0x100000000000int <= 0x385A39B3F4CA59int * 0x385A39B3F4CA59int);
    lemma_chain_upper(0x385A39B3F4CA57int, 0, 0x385A39B3F4CA57int, 0, 44, 0xC67990B5AA245D79int);
    lemma_chain_lower(0x385A39B3F4CA59int, 0, 0x385A39B3F4CA59int, 0, 44, 0xC67990B5AA246B8Eint);
    assert(0xC67990B5AA245D79int * 0xC67990B5AA245D79int <= 0x99E0459320B7F74Bint * 0x10000000000000000int);
    assert(0x99E0459320B80D20int * 0x10000000000000000int <= 0xC67990B5AA246B8Eint * 0xC67990B5AA246B8Eint);
    lemma_chain_upper(0x385A39B3F4CA57int, 1, 0xC67990B5AA245D79int, 44, 64, 0x99E0459320B7F74Bint);
    lemma_chain_lower(0x385A39B3F4CA59int, 1, 0xC67990B5AA246B8Eint, 44, 64, 0x99E0459320B80D20int);
    assert(0x99E0459320B7F74Bint * 0x99E0459320B7F74Bint <= 0xB8FBAF4762FB9775int * 0x8000000000000000int);
    assert(0xB8FBAF4762FBCBF2int * 0x8000000000000000int <= 0x99E0459320B80D20int * 0x99E0459320B80D20int);
    lemma_chain_upper(0x385A39B3F4CA57int, 2, 0x99E0459320B7F74Bint, 152, 63, 0xB8FBAF4762FB9775int);
    lemma_chain_lower(0x385A39B3F4CA59int, 2, 0x99E0459320B80D20int, 152, 63, 0xB8FBAF4762FBCBF2int);
    assert(0xB8FBAF4762FB9775int * 0xB8FBAF4762FB9775int <= 0x85AAC367CC487050int * 0x10000000000000000int);
    assert(0x85AAC367CC48BC2Aint * 0x10000000000000000int <= 0xB8FBAF4762FBCBF2int * 0xB8FBAF4762FBCBF2int);
    lemma_chain_upper(0x385A39B3F4CA57int, 3, 0xB8FBAF4762FB9775int, 367, 64, 0x85AAC367CC487050int);
    lemma_chain_lower(0x385A39B3F4CA59int, 3, 0xB8FBAF4762FBCBF2int, 367, 64, 0x85AAC367CC48BC2Aint);
    assert(0x85AAC367CC487050int * 0x85AAC367CC487050int <= 0x8B95C1E3EA8BC06Aint * 0x8000000000000000int);
    assert(0x8B95C1E3EA8C5ED4int * 0x8000000000000000int <= 0x85AAC367CC48BC2Aint * 0x85AAC367CC48BC2Aint);
    lemma_chain_upper(0x385A39B3F4CA57int, 4, 0x85AAC367CC487050int, 798, 63, 0x8B95C1E3EA8BC06Aint);
    lemma_chain_lower(0x385A39B3F4CA59int, 4, 0x85AAC367CC48BC2Aint, 798, 63, 0x8B95C1E3EA8C5ED4int);
    assert(0x8B95C1E3EA8BC06Aint * 0x8B95C1E3EA8BC06Aint <= 0x9837F0518DB87864int * 0x8000000000000000int);
    assert(0x9837F0518DB9D1E4int * 0x8000000000000000int <= 0x8B95C1E3EA8C5ED4int * 0x8B95C1E3EA8C5ED4int);
    lemma_chain_upper(0x385A39B3F4CA57int, 5, 0x8B95C1E3EA8BC06Aint, 1659, 63, 0x9837F0518DB87864int);
    lemma_chain_lower(0x385A39B3F4CA59int, 5, 0x8B95C1E3EA8C5ED4int, 1659, 63, 0x9837F0518DB9D1E4int);
    assert(0x9837F0518DB87864int * 0x9837F0518DB87864int <= 0xB504F333F9DDEFDFint * 0x8000000000000000int);
    assert(0xB504F333F9E1259Cint * 0x8000000000000000int <= 0x9837F0518DB9D1E4int * 0x9837F0518DB9D1E4int);
    lemma_chain_upper(0x385A39B3F4CA57int, 6, 0x9837F0518DB87864int, 3381, 63, 0xB504F333F9DDEFDFint);
    lemma_chain_lower(0x385A39B3F4CA59int, 6, 0x9837F0518DB9D1E4int, 3381, 63, 0xB504F333F9E1259Cint);
    assert(0xB504F333F9DDEFDFint * 0xB504F333F9DDEFDFint <= 0xFFFFFFFFFFFEB614int * 0x8000000000000000int);
    assert(0x1000000000007CA4Dint * 0x8000000000000000int <= 0xB504F333F9E1259Cint * 0xB504F333F9E1259Cint);
    lemma_chain_upper(0x385A39B3F4CA57int, 7, 0xB504F333F9DDEFDFint, 6825, 63, 0xFFFFFFFFFFFEB614int);
    lemma_chain_lower(0x385A39B3F4CA59int, 7, 0xB504F333F9E1259Cint, 6825, 63, 0x1000000000007CA4Dint);
    lemma_chains_round(0x3FEC_2D1C_D9FA_652Cu64, 209, 8, 1, 0x385A39B3F4CA57int, 0x385A39B3F4CA59int, 0xFFFFFFFFFFFEB614int, 0x1000000000007CA4Dint, 13713, 64);
}

/// Boundary 211 of schema 8, checked through its squaring chains.
proof fn rounded_8_211()
    ensures
        rounds_root(0x3FEC_5447_78FA_FB22u64, 211, 8),
{
    lemma2_to64();
    lemma2_to64_rest();
    lemma_chain_start(0x38A88EF1F5F643int);
    lemma_chain_start(0x38A88EF1F5F645int);
    assert(0x38A88EF1F5F643int * 0x38A88EF1F5F643int <= 0xC8A2D85C8FFE2163int * 0x100000000000int);
    assert(0xC8A2D85C8FFE2F8Cint * 0x100000000000int <= 0x38A88EF1F5F645int * 0x38A88EF1F5F645int);
    lemma_chain_upper(0x38A88EF1F5F643int, 0, 0x38A88EF1F5F643int, 0, 44, 0xC8A2D85C8FFE2163int);
    lemma_chain_lower(0x38A88EF1F5F645int, 0, 0x38A88EF1F5F645int, 0, 44, 0xC8A2D85C8FFE2F8Cint);
    assert(0xC8A2D85C8FFE2163int * 0xC8A2D85C8FFE2163int <= 0x9D3ED9A72CFFA642int * 0x10000000000000000int);
    assert(0x9D3ED9A72CFFBC73int * 0x10000000000000000int <= 0xC8A2D85C8FFE2F8Cint * 0xC8A2D85C8FFE2F8Cint);
    lemma_chain_upper(0x38A88EF1F5F643int, 1, 0xC8A2D85C8FFE2163int, 44, 64, 0x9D3ED9A72CFFA642int);
    lemma_chain_lower(0x38A88EF1F5F645int, 1, 0xC8A2D85C8FFE2F8Cint, 44, 64, 0x9D3ED9A72CFFBC73int);
    assert(0x9D3ED9A72CFFA642int * 0x9D3ED9A72CFFA642int <= 0xC12C4CCA66706A6Eint * 0x8000000000000000int);
    assert(0xC12C4CCA6670A0F3int * 0x8000000000000000int <= 0x9D3ED9A72CFFBC73int * 0x9D3ED9A72CFFBC73int);
    lemma_chain_upper(0x38A88EF1F5F643int, 2, 0x9D3ED9A72CFFA642int, 152, 63, 0xC12C4CCA66706A6Eint);
    lemma_chain_lower(0x38A88EF1F5F645int, 2, 0x9D3ED9A72CFFBC73int, 152, 63, 0xC12C4CCA6670A0F3int);
    assert(0xC12C4CCA66706A6Eint * 0xC12C4CCA66706A6Eint <= 0x91C3D373AB1183F8int * 0x10000000000000000int);
    assert(0x91C3D373AB11D63Eint * 0x10000000000000000int <= 0xC12C4CCA6670A0F3int * 0xC12C4CCA6670A0F3int);
    lemma_chain_upper(0x38A88EF1F5F643int, 3, 0xC12C4CCA66706A6Eint, 367, 64, 0x91C3D373AB1183F8int);
    lemma_chain_lower(0x38A88EF1F5F645int, 3, 0xC12C4CCA6670A0F3int, 367, 64, 0x91C3D373AB11D63Eint);
    assert(0x91C3D373AB1183F8int * 0x91C3D373AB1183F8int <= 0xA5FED6A9B150A8E0int * 0x8000000000000000int);
    assert(0xA5FED6A9B1516442int * 0x8000000000000000int <= 0x91C3D373AB11D63Eint * 0x91C3D373AB11D63Eint);
    lemma_chain_upper(0x38A88EF1F5F643int, 4, 0x91C3D373AB1183F8int, 798, 63, 0xA5FED6A9B150A8E0int);
    lemma_chain_lower(0x38A88EF1F5F645int, 4, 0x91C3D373AB11D63Eint, 798, 63, 0xA5FED6A9B1516442int);
    assert(0xA5FED6A9B150A8E0int * 0xA5FED6A9B150A8E0int <= 0xD744FCCAD69BF55Dint * 0x8000000000000000int);
    assert(0xD744FCCAD69DDB5Fint * 0x8000000000000000int <= 0xA5FED6A9B1516442int * 0xA5FED6A9B1516442int);
    lemma_chain_upper(0x38A88EF1F5F643int, 5, 0xA5FED6A9B150A8E0int, 1659, 63, 0xD744FCCAD69BF55Dint);
    lemma_chain_lower(0x38A88EF1F5F645int, 5, 0xA5FED6A9B1516442int, 1659, 63, 0xD744FCCAD69DDB5Fint);
    assert(0xD744FCCAD69BF55Dint * 0xD744FCCAD69BF55Dint <= 0xB504F333F9DBF037int * 0x10000000000000000int);
    assert(0xB504F333F9DF2194int * 0x10000000000000000int <= 0xD744FCCAD69DDB5Fint * 0xD744FCCAD69DDB5Fint);
    lemma_chain_upper(0x38A88EF1F5F643int, 6, 0xD744FCCAD69BF55Dint, 3381, 64, 0xB504F333F9DBF037int);
    lemma_chain_lower(0x38A88EF1F5F645int, 6, 0xD744FCCAD69DDB5Fint, 3381, 64, 0xB504F333F9DF2194int);
    assert(0xB504F333F9DBF037int * 0xB504F333F9DBF037int <= 0xFFFFFFFFFFF90EE5int * 0x8000000000000000int);
    assert(0x100000000000216BEint * 0x8000000000000000int <= 0xB504F333F9DF2194int * 0xB504F333F9DF2194int);
    lemma_chain_upper(0x38A88EF1F5F643int, 7, 0xB504F333F9DBF037int, 6826, 63, 0xFFFFFFFFFFF90EE5int);
    lemma_chain_lower(0x38A88EF1F5F645int, 7, 0xB504F333F9DF2194int, 6826, 63, 0x100000000000216BEint);
    lemma_chains_round(0x3FEC_5447_78FA_FB22u64, 211, 8, 1, 0x38A88EF1F5F643int, 0x38A88EF1F5F645int, 0xFFFFFFFFFFF90EE5int, 0x100000000000216BEint, 13715, 64);
}

/// Boundary 213 of schema 8, checked through its squaring chains.
proof fn rounded_8_213()
    ensures
        rounds_root(0x3FEC_7BA8_8988_C933u64, 213, 8),
{
    lemma2_to64();
    lemma2_to64_rest();
    lemma_chain_start(0x38F75113119265int);
    lemma_chain_start(0x38F75113119267int);
    assert(0x38F75113119265int * 0x38F75113119265int <= 0xCAD2265E42907393int * 0x100000000000int);
    assert(0xCAD2265E429081D0int * 0x100000000000int <= 0x38F75113119267int * 0x38F75113119267int);
    lemma_chain_upper(0x38F75113119265int, 0, 0x38F75113119265int, 0, 44, 0xCAD2265E42907393int);
    lemma_chain_lower(0x38F75113119267int, 0, 0x38F75113119267int, 0, 44, 0xCAD2265E429081D0int);
    assert(0xCAD2265E42907393int * 0xCAD2265E42907393int <= 0xA0B0510FB97149DAint * 0x10000000000000000int);
    assert(0xA0B0510FB9716069int * 0x10000000000000000int <= 0xCAD2265E429081D0int * 0xCAD2265E429081D0int);
    lemma_chain_upper(0x38F75113119265int, 1, 0xCAD2265E42907393int, 44, 64, 0xA0B0510FB97149DAint);
    lemma_chain_lower(0x38F75113119267int, 1, 0xCAD2265E429081D0int, 44, 64, 0xA0B0510FB9716069int);
    assert(0xA0B0510FB97149DAint * 0xA0B0510FB97149DAint <= 0xC9B9BD866E2F18CEint * 0x8000000000000000int);
    assert(0xC9B9BD866E2F5171int * 0x8000000000000000int <= 0xA0B0510FB9716069int * 0xA0B0510FB9716069int);
    lemma_chain_upper(0x38F75113119265int, 2, 0xA0B0510FB97149DAint, 152, 63, 0xC9B9BD866E2F18CEint);
    lemma_chain_lower(0x38F75113119267int, 2, 0xA0B0510FB9716069int, 152, 63, 0xC9B9BD866E2F5171int);
    assert(0xC9B9BD866E2F18CEint * 0xC9B9BD866E2F18CEint <= 0x9EF5326091A0FA4Fint * 0x10000000000000000int);
    assert(0x9EF5326091A15390int * 0x10000000000000000int <= 0xC9B9BD866E2F5171int * 0xC9B9BD866E2F5171int);
    lemma_chain_upper(0x38F75113119265int, 3, 0xC9B9BD866E2F18CEint, 367, 64, 0x9EF5326091A0FA4Fint);
    lemma_chain_lower(0x38F75113119267int, 3, 0xC9B9BD866E2F5171int, 367, 64, 0x9EF5326091A15390int);
    assert(0x9EF5326091A0FA4Fint * 0x9EF5326091A0FA4Fint <= 0xC5672A115506A0D3int * 0x8000000000000000int);
    assert(0xC5672A1155077E80int * 0x8000000000000000int <= 0x9EF5326091A15390int * 0x9EF5326091A15390int);
    lemma_chain_upper(0x38F75113119265int, 4, 0x9EF5326091A0FA4Fint, 798, 63, 0xC5672A115506A0D3int);
    lemma_chain_lower(0x38F75113119267int, 4, 0x9EF5326091A15390int, 798, 63, 0xC5672A1155077E80int);
    assert(0xC5672A115506A0D3int * 0xC5672A115506A0D3int <= 0x9837F0518DB84FEDint * 0x10000000000000000int);
    assert(0x9837F0518DB9A5CBint * 0x10000000000000000int <= 0xC5672A1155077E80int * 0xC5672A1155077E80int);
    lemma_chain_upper(0x38F75113119265int, 5, 0xC5672A115506A0D3int, 1659, 64, 0x9837F0518DB84FEDint);
    lemma_chain_lower(0x38F75113119267int, 5, 0xC5672A1155077E80int, 1659, 64, 0x9837F0518DB9A5CBint);
    assert(0x9837F0518DB84FEDint * 0x9837F0518DB84FEDint <= 0xB504F333F9DD8FA1int * 0x8000000000000000int);
    assert(0xB504F333F9E0BCBAint * 0x8000000000000000int <= 0x9837F0518DB9A5CBint * 0x9837F0518DB9A5CBint);
    lemma_chain_upper(0x38F75113119265int, 6, 0x9837F0518DB84FEDint, 3382, 63, 0xB504F333F9DD8FA1int);
    lemma_chain_lower(0x38F75113119267int, 6, 0x9837F0518DB9A5CBint, 3382, 63, 0xB504F333F9E0BCBAint);
    assert(0xB504F333F9DD8FA1int * 0xB504F333F9DD8FA1int <= 0xFFFFFFFFFFFDA5DDint * 0x8000000000000000int);
    assert(0x1000000000006A1A6int * 0x8000000000000000int <= 0xB504F333F9E0BCBAint * 0xB504F333F9E0BCBAint);
    lemma_chain_upper(0x38F75113119265int, 7, 0xB504F333F9DD8FA1int, 6827, 63, 0xFFFFFFFFFFFDA5DDint);
    lemma_chain_lower(0x38F75113119267int, 7, 0xB504F333F9E0BCBAint, 6827, 63, 0x1000000000006A1A6int);
    lemma_chains_round(0x3FEC_7BA8_8988_C933u64, 213, 8, 1, 0x38F75113119265int, 0x38F75113119267int, 0xFFFFFFFFFFFDA5DDint, 0x1000000000006A1A6int, 13717, 64);
}

/// Boundary 215 of schema 8, checked through its squaring chains.
proof fn rounded_8_215()
    ensures
        rounds_root(0x3FEC_A340_5751_C4DBu64, 215, 8),
{
    lemma2_to64();
    lemma2_to64_rest();
    lemma_chain_start(0x394680AEA389B5int);
    lemma_chain_start(0x394680AEA389B7int);
    assert(0x394680AEA389B5int * 0x394680AEA389B5int <= 0xCD078B86503DC957int * 0x100000000000int);
    assert(0xCD078B86503DD7A8int * 0x100000000000int <= 0x394680AEA389B7int * 0x394680AEA389B7int);
    lemma_chain_upper(0x394680AEA389B5int, 0, 0x394680AEA389B5int, 0, 44, 0xCD078B86503DC957int);
    lemma_chain_lower(0x394680AEA389B7int, 0, 0x394680AEA389B7int, 0, 44, 0xCD078B86503DD7A8int);
    assert(0xCD078B86503DC957int * 0xCD078B86503DC957int <= 0xA43515AE09E67972int * 0x10000000000000000int);
    assert(0xA43515AE09E69060int * 0x10000000000000000int <= 0xCD078B86503DD7A8int * 0xCD078B86503DD7A8int);
    lemma_chain_upper(0x394680AEA389B5int, 1, 0xCD078B86503DC957int, 44, 64, 0xA43515AE09E67972int);
    lemma_chain_lower(0x394680AEA389B7int, 1, 0xCD078B86503DD7A8int, 44, 64, 0xA43515AE09E69060int);
    assert(0xA43515AE09E67972int * 0xA43515AE09E67972int <= 0xD2A81D91F12AD1F4int * 0x8000000000000000int);
    assert(0xD2A81D91F12B0CC8int * 0x8000000000000000int <= 0xA43515AE09E69060int * 0xA43515AE09E69060int);
    lemma_chain_upper(0x394680AEA389B5int, 2, 0xA43515AE09E67972int, 152, 63, 0xD2A81D91F12AD1F4int);
    lemma_chain_lower(0x394680AEA389B7int, 2, 0xA43515AE09E69060int, 152, 63, 0xD2A81D91F12B0CC8int);
    assert(0xD2A81D91F12AD1F4int * 0xD2A81D91F12AD1F4int <= 0xAD583EEA42A12C7Fint * 0x10000000000000000int);
    assert(0xAD583EEA42A18D4Fint * 0x10000000000000000int <= 0xD2A81D91F12B0CC8int * 0xD2A81D91F12B0CC8int);
    lemma_chain_upper(0x394680AEA389B5int, 3, 0xD2A81D91F12AD1F4int, 367, 64, 0xAD583EEA42A12C7Fint);
    lemma_chain_lower(0x394680AEA389B7int, 3, 0xD2A81D91F12B0CC8int, 367, 64, 0xAD583EEA42A18D4Fint);
    assert(0xAD583EEA42A12C7Fint * 0xAD583EEA42A12C7Fint <= 0xEAC0C6E7DD23E72Dint * 0x8000000000000000int);
    assert(0xEAC0C6E7DD24ED64int * 0x8000000000000000int <= 0xAD583EEA42A18D4Fint * 0xAD583EEA42A18D4Fint);
    lemma_chain_upper(0x394680AEA389B5int, 4, 0xAD583EEA42A12C7Fint, 798, 63, 0xEAC0C6E7DD23E72Dint);
    lemma_chain_lower(0x394680AEA389B7int, 4, 0xAD583EEA42A18D4Fint, 798, 63, 0xEAC0C6E7DD24ED64int);
    assert(0xEAC0C6E7DD23E72Dint * 0xEAC0C6E7DD23E72Dint <= 0xD744FCCAD69CD48Eint * 0x10000000000000000int);
    assert(0xD744FCCAD69EB574int * 0x10000000000000000int <= 0xEAC0C6E7DD24ED64int * 0xEAC0C6E7DD24ED64int);
    lemma_chain_upper(0x394680AEA389B5int, 5, 0xEAC0C6E7DD23E72Dint, 1659, 64, 0xD744FCCAD69CD48Eint);
    lemma_chain_lower(0x394680AEA389B7int, 5, 0xEAC0C6E7DD24ED64int, 1659, 64, 0xD744FCCAD69EB574int);
    assert(0xD744FCCAD69CD48Eint * 0xD744FCCAD69CD48Eint <= 0xB504F333F9DD6794int * 0x10000000000000000int);
    assert(0xB504F333F9E09059int * 0x10000000000000000int <= 0xD744FCCAD69EB574int * 0xD744FCCAD69EB574int);
    lemma_chain_upper(0x394680AEA389B5int, 6, 0xD744FCCAD69CD48Eint, 3382, 64, 0xB504F333F9DD6794int);
    lemma_chain_lower(0x394680AEA389B7int, 6, 0xD744FCCAD69EB574int, 3382, 64, 0xB504F333F9E09059int);
    assert(0xB504F333F9DD6794int * 0xB504F333F9DD6794int <= 0xFFFFFFFFFFFD3495int * 0x8000000000000000int);
    assert(0x10000000000062420int * 0x8000000000000000int <= 0xB504F333F9E09059int * 0xB504F333F9E09059int);
    lemma_chain_upper(0x394680AEA389B5int, 7, 0xB504F333F9DD6794int, 6828, 63, 0xFFFFFFFFFFFD3495int);
    lemma_chain_lower(0x394680AEA389B7int, 7, 0xB504F333F9E09059int, 6828, 63, 0x10000000000062420int);
    lemma_chains_round(0x3FEC_A340_5751_C4DBu64, 215, 8, 1, 0x394680AEA389B5int, 0x394680AEA389B7int, 0xFFFFFFFFFFFD3495int, 0x10000000000062420int, 13719, 64);
}

/// Boundary 217 of schema 8, checked through its squaring chains.
proof fn rounded_8_217()
    ensures
        rounds_root(0x3FEC_CB0F_2E6D_1675u64, 217, 8),
{
    lemma2_to64();
    lemma2_to64_rest();
    lemma_chain_start(0x39961E5CDA2CE9int);
    lemma_chain_start(0x39961E5CDA2CEBint);
    assert(0x39961E5CDA2CE9int * 0x39961E5CDA2CE9int <= 0xCF4318CF19191332int * 0x100000000000int);
    assert(0xCF4318CF19192197int * 0x100000000000int <= 0x39961E5CDA2CEBint * 0x39961E5CDA2CEBint);
    lemma_chain_upper(0x39961E5CDA2CE9int, 0, 0x39961E5CDA2CE9int, 0, 44, 0xCF4318CF19191332int);
    lemma_chain_lower(0x39961E5CDA2CEBint, 0, 0x39961E5CDA2CEBint, 0, 44, 0xCF4318CF19192197int);
    assert(0xCF4318CF19191332int * 0xCF4318CF19191332int <= 0xA7CD93B4E9652C6Aint * 0x10000000000000000int);
    assert(0xA7CD93B4E96543B8int * 0x10000000000000000int <= 0xCF4318CF19192197int * 0xCF4318CF19192197int);
    lemma_chain_upper(0x39961E5CDA2CE9int, 1, 0xCF4318CF19191332int, 44, 64, 0xA7CD93B4E9652C6Aint);
    lemma_chain_lower(0x39961E5CDA2CEBint, 1, 0xCF4318CF19192197int, 44, 64, 0xA7CD93B4E96543B8int);
    assert(0xA7CD93B4E9652C6Aint * 0xA7CD93B4E9652C6Aint <= 0xDBFBB797DAF21FBEint * 0x8000000000000000int);
    assert(0xDBFBB797DAF25CD7int * 0x8000000000000000int <= 0xA7CD93B4E96543B8int * 0xA7CD93B4E96543B8int);
    lemma_chain_upper(0x39961E5CDA2CE9int, 2, 0xA7CD93B4E9652C6Aint, 152, 63, 0xDBFBB797DAF21FBEint);
    lemma_chain_lower(0x39961E5CDA2CEBint, 2, 0xA7CD93B4E96543B8int, 152, 63, 0xDBFBB797DAF25CD7int);
    assert(0xDBFBB797DAF21FBEint * 0xDBFBB797DAF21FBEint <= 0xBD08A39F580C0E34int * 0x10000000000000000int);
    assert(0xBD08A39F580C7734int * 0x10000000000000000int <= 0xDBFBB797DAF25CD7int * 0xDBFBB797DAF25CD7int);
    lemma_chain_upper(0x39961E5CDA2CE9int, 3, 0xDBFBB797DAF21FBEint, 367, 64, 0xBD08A39F580C0E34int);
    lemma_chain_lower(0x39961E5CDA2CEBint, 3, 0xDBFBB797DAF25CD7int, 367, 64, 0xBD08A39F580C7734int);
    assert(0xBD08A39F580C0E34int * 0xBD08A39F580C0E34int <= 0x8B95C1E3EA8B9B08int * 0x10000000000000000int);
    assert(0x8B95C1E3EA8C3618int * 0x10000000000000000int <= 0xBD08A39F580C7734int * 0xBD08A39F580C7734int);
    lemma_chain_upper(0x39961E5CDA2CE9int, 4, 0xBD08A39F580C0E34int, 798, 64, 0x8B95C1E3EA8B9B08int);
    lemma_chain_lower(0x39961E5CDA2CEBint, 4, 0xBD08A39F580C7734int, 798, 64, 0x8B95C1E3EA8C3618int);
    assert(0x8B95C1E3EA8B9B08int * 0x8B95C1E3EA8B9B08int <= 0x9837F0518DB826DBint * 0x8000000000000000int);
    assert(0x9837F0518DB9790Cint * 0x8000000000000000int <= 0x8B95C1E3EA8C3618int * 0x8B95C1E3EA8C3618int);
    lemma_chain_upper(0x39961E5CDA2CE9int, 5, 0x8B95C1E3EA8B9B08int, 1660, 63, 0x9837F0518DB826DBint);
    lemma_chain_lower(0x39961E5CDA2CEBint, 5, 0x8B95C1E3EA8C3618int, 1660, 63, 0x9837F0518DB9790Cint);
    assert(0x9837F0518DB826DBint * 0x9837F0518DB826DBint <= 0xB504F333F9DD2DF3int * 0x8000000000000000int);
    assert(0xB504F333F9E0524Eint * 0x8000000000000000int <= 0x9837F0518DB9790Cint * 0x9837F0518DB9790Cint);
    lemma_chain_upper(0x39961E5CDA2CE9int, 6, 0x9837F0518DB826DBint, 3383, 63, 0xB504F333F9DD2DF3int);
    lemma_chain_lower(0x39961E5CDA2CEBint, 6, 0x9837F0518DB9790Cint, 3383, 63, 0xB504F333F9E0524Eint);
    assert(0xB504F333F9DD2DF3int * 0xB504F333F9DD2DF3int <= 0xFFFFFFFFFFFC9195int * 0x8000000000000000int);
    assert(0x100000000000574A4int * 0x8000000000000000int <= 0xB504F333F9E0524Eint * 0xB504F333F9E0524Eint);
    lemma_chain_upper(0x39961E5CDA2CE9int, 7, 0xB504F333F9DD2DF3int, 6829, 63, 0xFFFFFFFFFFFC9195int);
    lemma_chain_lower(0x39961E5CDA2CEBint, 7, 0xB504F333F9E0524Eint, 6829, 63, 0x100000000000574A4int);
    lemma_chains_round(0x3FEC_CB0F_2E6D_1675u64, 217, 8, 1, 0x39961E5CDA2CE9int, 0x39961E5CDA2CEBint, 0xFFFFFFFFFFFC9195int, 0x100000000000574A4int, 13721, 64);
}

/// Boundary 219 of schema 8, checked through its squaring chains.
proof fn rounded_8_219()
    ensures
        rounds_root(0x3FEC_F315_5B5B_AB74u64, 219, 8),
{
    lemma2_to64();
    lemma2_to64_rest();
    lemma_chain_start(0x39E62AB6B756E7int);
    lemma_chain_start(0x39E62AB6B756E9int);
    assert(0x39E62AB6B756E7int * 0x39E62AB6B756E7int <= 0xD184DF625169996Dint * 0x100000000000int);
    assert(0xD184DF625169A7E6int * 0x100000000000int <= 0x39E62AB6B756E9int * 0x39E62AB6B756E9int);
    lemma_chain_upper(0x39E62AB6B756E7int, 0, 0x39E62AB6B756E7int, 0, 44, 0xD184DF625169996Dint);
    lemma_chain_lower(0x39E62AB6B756E9int, 0, 0x39E62AB6B756E9int, 0, 44, 0xD184DF625169A7E6int);
    assert(0xD184DF625169996Dint * 0xD184DF625169996Dint <= 0xAB7A39B5A93ED103int * 0x10000000000000000int);
    assert(0xAB7A39B5A93EE8B3int * 0x10000000000000000int <= 0xD184DF625169A7E6int * 0xD184DF625169A7E6int);
    lemma_chain_upper(0x39E62AB6B756E7int, 1, 0xD184DF625169996Dint, 44, 64, 0xAB7A39B5A93ED103int);
    lemma_chain_lower(0x39E62AB6B756E9int, 1, 0xD184DF625169A7E6int, 44, 64, 0xAB7A39B5A93EE8B3int);
    assert(0xAB7A39B5A93ED103int * 0xAB7A39B5A93ED103int <= 0xE5B906E77C8342C0int * 0x8000000000000000int);
    assert(0xE5B906E77C838237int * 0x8000000000000000int <= 0xAB7A39B5A93EE8B3int * 0xAB7A39B5A93EE8B3int);
    lemma_chain_upper(0x39E62AB6B756E7int, 2, 0xAB7A39B5A93ED103int, 152, 63, 0xE5B906E77C8342C0int);
    lemma_chain_lower(0x39E62AB6B756E9int, 2, 0xAB7A39B5A93EE8B3int, 152, 63, 0xE5B906E77C838237int);
    assert(0xE5B906E77C8342C0int * 0xE5B906E77C8342C0int <= 0xCE248C151F84764Bint * 0x10000000000000000int);
    assert(0xCE248C151F84E830int * 0x10000000000000000int <= 0xE5B906E77C838237int * 0xE5B906E77C838237int);
    lemma_chain_upper(0x39E62AB6B756E7int, 3, 0xE5B906E77C8342C0int, 367, 64, 0xCE248C151F84764Bint);
    lemma_chain_lower(0x39E62AB6B756E9int, 3, 0xE5B906E77C838237int, 367, 64, 0xCE248C151F84E830int);
    assert(0xCE248C151F84764Bint * 0xCE248C151F84764Bint <= 0xA5FED6A9B15127DAint * 0x10000000000000000int);
    assert(0xA5FED6A9B151DF46int * 0x10000000000000000int <= 0xCE248C151F84E830int * 0xCE248C151F84E830int);
    lemma_chain_upper(0x39E62AB6B756E7int, 4, 0xCE248C151F84764Bint, 798, 64, 0xA5FED6A9B15127DAint);
    lemma_chain_lower(0x39E62AB6B756E9int, 4, 0xCE248C151F84E830int, 798, 64, 0xA5FED6A9B151DF46int);
    assert(0xA5FED6A9B15127DAint * 0xA5FED6A9B15127DAint <= 0xD744FCCAD69D3EB3int * 0x8000000000000000int);
    assert(0xD744FCCAD69F1A6Fint * 0x8000000000000000int <= 0xA5FED6A9B151DF46int * 0xA5FED6A9B151DF46int);
    lemma_chain_upper(0x39E62AB6B756E7int, 5, 0xA5FED6A9B15127DAint, 1660, 63, 0xD744FCCAD69D3EB3int);
    lemma_chain_lower(0x39E62AB6B756E9int, 5, 0xA5FED6A9B151DF46int, 1660, 63, 0xD744FCCAD69F1A6Fint);
    assert(0xD744FCCAD69D3EB3int * 0xD744FCCAD69D3EB3int <= 0xB504F333F9DE1A17int * 0x10000000000000000int);
    assert(0xB504F333F9E13A2Dint * 0x10000000000000000int <= 0xD744FCCAD69F1A6Fint * 0xD744FCCAD69F1A6Fint);
    lemma_chain_upper(0x39E62AB6B756E7int, 6, 0xD744FCCAD69D3EB3int, 3383, 64, 0xB504F333F9DE1A17int);
    lemma_chain_lower(0x39E62AB6B756E9int, 6, 0xD744FCCAD69F1A6Fint, 3383, 64, 0xB504F333F9E13A2Dint);
    assert(0xB504F333F9DE1A17int * 0xB504F333F9DE1A17int <= 0xFFFFFFFFFFFF2D7Dint * 0x8000000000000000int);
    assert(0x10000000000080479int * 0x8000000000000000int <= 0xB504F333F9E13A2Dint * 0xB504F333F9E13A2Dint);
    lemma_chain_upper(0x39E62AB6B756E7int, 7, 0xB504F333F9DE1A17int, 6830, 63, 0xFFFFFFFFFFFF2D7Dint);
    lemma_chain_lower(0x39E62AB6B756E9int, 7, 0xB504F333F9E13A2Dint, 6830, 63, 0x10000000000080479int);
    lemma_chains_round(0x3FEC_F315_5B5B_AB74u64, 219, 8, 1, 0x39E62AB6B756E7int, 0x39E62AB6B756E9int, 0xFFFFFFFFFFFF2D7Dint, 0x10000000000080479int, 13723, 64);
}

/// Boundary 221 of schema 8, checked through its squaring chains.
proof fn rounded_8_221()
    ensures
        rounds_root(0x3FED_1B53_2B08_C968u64, 221, 8),
{
    lemma2_to64();
    lemma2_to64_rest();
    lemma_chain_start(0x3A36A6561192CFint);
    lemma_chain_start(0x3A36A6561192D1int);
    assert(0x3A36A6561192CFint * 0x3A36A6561192CFint <= 0xD3CCF099859AB759int * 0x100000000000int);
    assert(0xD3CCF099859AC5E6int * 0x100000000000int <= 0x3A36A6561192D1int * 0x3A36A6561192D1int);
    lemma_chain_upper(0x3A36A6561192CFint, 0, 0x3A36A6561192CFint, 0, 44, 0xD3CCF099859AB759int);
    lemma_chain_lower(0x3A36A6561192D1int, 0, 0x3A36A6561192D1int, 0, 44, 0xD3CCF099859AC5E6int);
    assert(0xD3CCF099859AB759int * 0xD3CCF099859AB759int <= 0xAF3B78AD690A2F64int * 0x10000000000000000int);
    assert(0xAF3B78AD690A4777int * 0x10000000000000000int <= 0xD3CCF099859AC5E6int * 0xD3CCF099859AC5E6int);
    lemma_chain_upper(0x3A36A6561192CFint, 1, 0xD3CCF099859AB759int, 44, 64, 0xAF3B78AD690A2F64int);
    lemma_chain_lower(0x3A36A6561192D1int, 1, 0xD3CCF099859AC5E6int, 44, 64, 0xAF3B78AD690A4777int);
    assert(0xAF3B78AD690A2F64int * 0xAF3B78AD690A2F64int <= 0xEFE4B99BDCDABEDBint * 0x8000000000000000int);
    assert(0xEFE4B99BDCDB00C4int * 0x8000000000000000int <= 0xAF3B78AD690A4777int * 0xAF3B78AD690A4777int);
    lemma_chain_upper(0x3A36A6561192CFint, 2, 0xAF3B78AD690A2F64int, 152, 63, 0xEFE4B99BDCDABEDBint);
    lemma_chain_lower(0x3A36A6561192D1int, 2, 0xAF3B78AD690A4777int, 152, 63, 0xEFE4B99BDCDB00C4int);
    assert(0xEFE4B99BDCDABEDBint * 0xEFE4B99BDCDABEDBint <= 0xE0CCDEEC2A947A1Bint * 0x10000000000000000int);
    assert(0xE0CCDEEC2A94F5A1int * 0x10000000000000000int <= 0xEFE4B99BDCDB00C4int * 0xEFE4B99BDCDB00C4int);
    lemma_chain_upper(0x3A36A6561192CFint, 3, 0xEFE4B99BDCDABEDBint, 367, 64, 0xE0CCDEEC2A947A1Bint);
    lemma_chain_lower(0x3A36A6561192D1int, 3, 0xEFE4B99BDCDB00C4int, 367, 64, 0xE0CCDEEC2A94F5A1int);
    assert(0xE0CCDEEC2A947A1Bint * 0xE0CCDEEC2A947A1Bint <= 0xC5672A115506260Aint * 0x10000000000000000int);
    assert(0xC5672A115506FEFAint * 0x10000000000000000int <= 0xE0CCDEEC2A94F5A1int * 0xE0CCDEEC2A94F5A1int);
    lemma_chain_upper(0x3A36A6561192CFint, 4, 0xE0CCDEEC2A947A1Bint, 798, 64, 0xC5672A115506260Aint);
    lemma_chain_lower(0x3A36A6561192D1int, 4, 0xE0CCDEEC2A94F5A1int, 798, 64, 0xC5672A115506FEFAint);
    assert(0xC5672A115506260Aint * 0xC5672A115506260Aint <= 0x9837F0518DB79291int * 0x10000000000000000int);
    assert(0x9837F0518DB8E120int * 0x10000000000000000int <= 0xC5672A115506FEFAint * 0xC5672A115506FEFAint);
    lemma_chain_upper(0x3A36A6561192CFint, 5, 0xC5672A115506260Aint, 1660, 64, 0x9837F0518DB79291int);
    lemma_chain_lower(0x3A36A6561192D1int, 5, 0xC5672A115506FEFAint, 1660, 64, 0x9837F0518DB8E120int);
    assert(0x9837F0518DB79291int * 0x9837F0518DB79291int <= 0xB504F333F9DBCD41int * 0x8000000000000000int);
    assert(0xB504F333F9DEE8F8int * 0x8000000000000000int <= 0x9837F0518DB8E120int * 0x9837F0518DB8E120int);
    lemma_chain_upper(0x3A36A6561192CFint, 6, 0x9837F0518DB79291int, 3384, 63, 0xB504F333F9DBCD41int);
    lemma_chain_lower(0x3A36A6561192D1int, 6, 0x9837F0518DB8E120int, 3384, 63, 0xB504F333F9DEE8F8int);
    assert(0xB504F333F9DBCD41int * 0xB504F333F9DBCD41int <= 0xFFFFFFFFFFF8AC03int * 0x8000000000000000int);
    assert(0x100000000000176A1int * 0x8000000000000000int <= 0xB504F333F9DEE8F8int * 0xB504F333F9DEE8F8int);
    lemma_chain_upper(0x3A36A6561192CFint, 7, 0xB504F333F9DBCD41int, 6831, 63, 0xFFFFFFFFFFF8AC03int);
    lemma_chain_lower(0x3A36A6561192D1int, 7, 0xB504F333F9DEE8F8int, 6831, 63, 0x100000000000176A1int);
    lemma_chains_round(0x3FED_1B53_2B08_C968u64, 221, 8, 1, 0x3A36A6561192CFint, 0x3A36A6561192D1int, 0xFFFFFFFFFFF8AC03int, 0x100000000000176A1int, 13725, 64);
}

/// Boundary 223 of schema 8, checked through its squaring chains.
proof fn rounded_8_223()
    ensures
        rounds_root(0x3FED_43C8_EACA_A1D6u64, 223, 8),
{
    lemma2_to64();
    lemma2_to64_rest();
    lemma_chain_start(0x3A8791D59543ABint);
    lemma_chain_start(0x3A8791D59543ADint);
    assert(0x3A8791D59543ABint * 0x3A8791D59543ABint <= 0xD61B5DFE9F9BC22Cint * 0x100000000000int);
    assert(0xD61B5DFE9F9BD0CDint * 0x100000000000int <= 0x3A8791D59543ADint * 0x3A8791D59543ADint);
    lemma_chain_upper(0x3A8791D59543ABint, 0, 0x3A8791D59543ABint, 0, 44, 0xD61B5DFE9F9BC22Cint);
    lemma_chain_lower(0x3A8791D59543ADint, 0, 0x3A8791D59543ADint, 0, 44, 0xD61B5DFE9F9BD0CDint);
    assert(0xD61B5DFE9F9BC22Cint * 0xD61B5DFE9F9BC22Cint <= 0xB311C412A91110B5int * 0x10000000000000000int);
    assert(0xB311C412A911292Dint * 0x10000000000000000int <= 0xD61B5DFE9F9BD0CDint * 0xD61B5DFE9F9BD0CDint);
    lemma_chain_upper(0x3A8791D59543ABint, 1, 0xD61B5DFE9F9BC22Cint, 44, 64, 0xB311C412A91110B5int);
    lemma_chain_lower(0x3A8791D59543ADint, 1, 0xD61B5DFE9F9BD0CDint, 44, 64, 0xB311C412A911292Dint);
    assert(0xB311C412A91110B5int * 0xB311C412A91110B5int <= 0xFA83B2DB7229CBC0int * 0x8000000000000000int);
    assert(0xFA83B2DB722A1035int * 0x8000000000000000int <= 0xB311C412A911292Dint * 0xB311C412A911292Dint);
    lemma_chain_upper(0x3A8791D59543ABint, 2, 0xB311C412A91110B5int, 152, 63, 0xFA83B2DB7229CBC0int);
    lemma_chain_lower(0x3A8791D59543ADint, 2, 0xB311C412A911292Dint, 152, 63, 0xFA83B2DB722A1035int);
    assert(0xFA83B2DB7229CBC0int * 0xFA83B2DB7229CBC0int <= 0xF5257D1524865F99int * 0x10000000000000000int);
    assert(0xF5257D152486E593int * 0x10000000000000000int <= 0xFA83B2DB722A1035int * 0xFA83B2DB722A1035int);
    lemma_chain_upper(0x3A8791D59543ABint, 3, 0xFA83B2DB7229CBC0int, 367, 64, 0xF5257D1524865F99int);
    lemma_chain_lower(0x3A8791D59543ADint, 3, 0xFA83B2DB722A1035int, 367, 64, 0xF5257D152486E593int);
    assert(0xF5257D1524865F99int * 0xF5257D1524865F99int <= 0xEAC0C6E7DD23693Dint * 0x10000000000000000int);
    assert(0xEAC0C6E7DD2469D4int * 0x10000000000000000int <= 0xF5257D152486E593int * 0xF5257D152486E593int);
    lemma_chain_upper(0x3A8791D59543ABint, 4, 0xF5257D1524865F99int, 798, 64, 0xEAC0C6E7DD23693Dint);
    lemma_chain_lower(0x3A8791D59543ADint, 4, 0xF5257D152486E593int, 798, 64, 0xEAC0C6E7DD2469D4int);
    assert(0xEAC0C6E7DD23693Dint * 0xEAC0C6E7DD23693Dint <= 0xD744FCCAD69BED95int * 0x10000000000000000int);
    assert(0xD744FCCAD69DC42Bint * 0x10000000000000000int <= 0xEAC0C6E7DD2469D4int * 0xEAC0C6E7DD2469D4int);
    lemma_chain_upper(0x3A8791D59543ABint, 5, 0xEAC0C6E7DD23693Dint, 1660, 64, 0xD744FCCAD69BED95int);
    lemma_chain_lower(0x3A8791D59543ADint, 5, 0xEAC0C6E7DD2469D4int, 1660, 64, 0xD744FCCAD69DC42Bint);
    assert(0xD744FCCAD69BED95int * 0xD744FCCAD69BED95int <= 0xB504F333F9DBE321int * 0x10000000000000000int);
    assert(0xB504F333F9DEFA8Eint * 0x10000000000000000int <= 0xD744FCCAD69DC42Bint * 0xD744FCCAD69DC42Bint);
    lemma_chain_upper(0x3A8791D59543ABint, 6, 0xD744FCCAD69BED95int, 3384, 64, 0xB504F333F9DBE321int);
    lemma_chain_lower(0x3A8791D59543ADint, 6, 0xD744FCCAD69DC42Bint, 3384, 64, 0xB504F333F9DEFA8Eint);
    assert(0xB504F333F9DBE321int * 0xB504F333F9DBE321int <= 0xFFFFFFFFFFF8E9E2int * 0x8000000000000000int);
    assert(0x1000000000001A85Eint * 0x8000000000000000int <= 0xB504F333F9DEFA8Eint * 0xB504F333F9DEFA8Eint);
    lemma_chain_upper(0x3A8791D59543ABint, 7, 0xB504F333F9DBE321int, 6832, 63, 0xFFFFFFFFFFF8E9E2int);
    lemma_chain_lower(0x3A8791D59543ADint, 7, 0xB504F333F9DEFA8Eint, 6832, 63, 0x1000000000001A85Eint);
    lemma_chains_round(0x3FED_43C8_EACA_A1D6u64, 223, 8, 1, 0x3A8791D59543ABint, 0x3A8791D59543ADint, 0xFFFFFFFFFFF8E9E2int, 0x1000000000001A85Eint, 13727, 64);
}

/// Boundary 225 of schema 8, checked through its squaring chains.
proof fn rounded_8_225()
    ensures
        rounds_root(0x3FED_6C76_E862_E6D3u64, 225, 8),
{
    lemma2_to64();
    lemma2_to64_rest();
    lemma_chain_start(0x3AD8EDD0C5CDA5int);
    lemma_chain_start(0x3AD8EDD0C5CDA7int);
    assert(0x3AD8EDD0C5CDA5int * 0x3AD8EDD0C5CDA5int <= 0xD870394C6DB324B4int * 0x100000000000int);
    assert(0xD870394C6DB33369int * 0x100000000000int <= 0x3AD8EDD0C5CDA7int * 0x3AD8EDD0C5CDA7int);
    lemma_chain_upper(0x3AD8EDD0C5CDA5int, 0, 0x3AD8EDD0C5CDA5int, 0, 44, 0xD870394C6DB324B4int);
    lemma_chain_lower(0x3AD8EDD0C5CDA7int, 0, 0x3AD8EDD0C5CDA7int, 0, 44, 0xD870394C6DB33369int);
    assert(0xD870394C6DB324B4int * 0xD870394C6DB324B4int <= 0xB6FD91E328D16A5Bint * 0x10000000000000000int);
    assert(0xB6FD91E328D18339int * 0x10000000000000000int <= 0xD870394C6DB33369int * 0xD870394C6DB33369int);
    lemma_chain_upper(0x3AD8EDD0C5CDA5int, 1, 0xD870394C6DB324B4int, 44, 64, 0xB6FD91E328D16A5Bint);
    lemma_chain_lower(0x3AD8EDD0C5CDA7int, 1, 0xD870394C6DB33369int, 44, 64, 0xB6FD91E328D18339int);
    assert(0xB6FD91E328D16A5Bint * 0xB6FD91E328D16A5Bint <= 0x82CD8698AC2B8EF5int * 0x10000000000000000int);
    assert(0x82CD8698AC2BB281int * 0x10000000000000000int <= 0xB6FD91E328D18339int * 0xB6FD91E328D18339int);
    lemma_chain_upper(0x3AD8EDD0C5CDA5int, 2, 0xB6FD91E328D16A5Bint, 152, 64, 0x82CD8698AC2B8EF5int);
    lemma_chain_lower(0x3AD8EDD0C5CDA7int, 2, 0xB6FD91E328D18339int, 152, 64, 0x82CD8698AC2BB281int);
    assert(0x82CD8698AC2B8EF5int * 0x82CD8698AC2B8EF5int <= 0x85AAC367CC48547Dint * 0x8000000000000000int);
    assert(0x85AAC367CC489D23int * 0x8000000000000000int <= 0x82CD8698AC2BB281int * 0x82CD8698AC2BB281int);
    lemma_chain_upper(0x3AD8EDD0C5CDA5int, 3, 0x82CD8698AC2B8EF5int, 368, 63, 0x85AAC367CC48547Dint);
    lemma_chain_lower(0x3AD8EDD0C5CDA7int, 3, 0x82CD8698AC2BB281int, 368, 63, 0x85AAC367CC489D23int);
    assert(0x85AAC367CC48547Dint * 0x85AAC367CC48547Dint <= 0x8B95C1E3EA8B864Dint * 0x8000000000000000int);
    assert(0x8B95C1E3EA8C1E07int * 0x8000000000000000int <= 0x85AAC367CC489D23int * 0x85AAC367CC489D23int);
    lemma_chain_upper(0x3AD8EDD0C5CDA5int, 4, 0x85AAC367CC48547Dint, 799, 63, 0x8B95C1E3EA8B864Dint);
    lemma_chain_lower(0x3AD8EDD0C5CDA7int, 4, 0x85AAC367CC489D23int, 799, 63, 0x8B95C1E3EA8C1E07int);
    assert(0x8B95C1E3EA8B864Dint * 0x8B95C1E3EA8B864Dint <= 0x9837F0518DB7F9A5int * 0x8000000000000000int);
    assert(0x9837F0518DB9448Fint * 0x8000000000000000int <= 0x8B95C1E3EA8C1E07int * 0x8B95C1E3EA8C1E07int);
    lemma_chain_upper(0x3AD8EDD0C5CDA5int, 5, 0x8B95C1E3EA8B864Dint, 1661, 63, 0x9837F0518DB7F9A5int);
    lemma_chain_lower(0x3AD8EDD0C5CDA7int, 5, 0x8B95C1E3EA8C1E07int, 1661, 63, 0x9837F0518DB9448Fint);
    assert(0x9837F0518DB7F9A5int * 0x9837F0518DB7F9A5int <= 0xB504F333F9DCC26Bint * 0x8000000000000000int);
    assert(0xB504F333F9DFD577int * 0x8000000000000000int <= 0x9837F0518DB9448Fint * 0x9837F0518DB9448Fint);
    lemma_chain_upper(0x3AD8EDD0C5CDA5int, 6, 0x9837F0518DB7F9A5int, 3385, 63, 0xB504F333F9DCC26Bint);
    lemma_chain_lower(0x3AD8EDD0C5CDA7int, 6, 0x9837F0518DB9448Fint, 3385, 63, 0xB504F333F9DFD577int);
    assert(0xB504F333F9DCC26Bint * 0xB504F333F9DCC26Bint <= 0xFFFFFFFFFFFB6170int * 0x8000000000000000int);
    assert(0x1000000000004138Aint * 0x8000000000000000int <= 0xB504F333F9DFD577int * 0xB504F333F9DFD577int);
    lemma_chain_upper(0x3AD8EDD0C5CDA5int, 7, 0xB504F333F9DCC26Bint, 6833, 63, 0xFFFFFFFFFFFB6170int);
    lemma_chain_lower(0x3AD8EDD0C5CDA7int, 7, 0xB504F333F9DFD577int, 6833, 63, 0x1000000000004138Aint);
    lemma_chains_round(0x3FED_6C76_E862_E6D3u64, 225, 8, 1, 0x3AD8EDD0C5CDA5int, 0x3AD8EDD0C5CDA7int, 0xFFFFFFFFFFFB6170int, 0x1000000000004138Aint, 13729, 64);
}

/// Boundary 227 of schema 8, checked through its squaring chains.
proof fn rounded_8_227()
    ensures
        rounds_root(0x3FED_955D_71FF_6075u64, 227, 8),
{
    lemma2_to64();
    lemma2_to64_rest();
    lemma_chain_start(0x3B2ABAE3FEC0E9int);
    lemma_chain_start(0x3B2ABAE3FEC0EBint);
    assert(0x3B2ABAE3FEC0E9int * 0x3B2ABAE3FEC0E9int <= 0xDACB946F2AC9BF09int * 0x100000000000int);
    assert(0xDACB946F2AC9CDD3int * 0x100000000000int <= 0x3B2ABAE3FEC0EBint * 0x3B2ABAE3FEC0EBint);
    lemma_chain_upper(0x3B2ABAE3FEC0E9int, 0, 0x3B2ABAE3FEC0E9int, 0, 44, 0xDACB946F2AC9BF09int);
    lemma_chain_lower(0x3B2ABAE3FEC0EBint, 0, 0x3B2ABAE3FEC0EBint, 0, 44, 0xDACB946F2AC9CDD3int);
    assert(0xDACB946F2AC9BF09int * 0xDACB946F2AC9BF09int <= 0xBAFF5AB2133E2F10int * 0x10000000000000000int);
    assert(0xBAFF5AB2133E4857int * 0x10000000000000000int <= 0xDACB946F2AC9CDD3int * 0xDACB946F2AC9CDD3int);
    lemma_chain_upper(0x3B2ABAE3FEC0E9int, 1, 0xDACB946F2AC9BF09int, 44, 64, 0xBAFF5AB2133E2F10int);
    lemma_chain_lower(0x3B2ABAE3FEC0EBint, 1, 0xDACB946F2AC9CDD3int, 44, 64, 0xBAFF5AB2133E4857int);
    assert(0xBAFF5AB2133E2F10int * 0xBAFF5AB2133E2F10int <= 0x88980E8092DA63ACint * 0x10000000000000000int);
    assert(0x88980E8092DA8899int * 0x10000000000000000int <= 0xBAFF5AB2133E4857int * 0xBAFF5AB2133E4857int);
    lemma_chain_upper(0x3B2ABAE3FEC0E9int, 2, 0xBAFF5AB2133E2F10int, 152, 64, 0x88980E8092DA63ACint);
    lemma_chain_lower(0x3B2ABAE3FEC0EBint, 2, 0xBAFF5AB2133E4857int, 152, 64, 0x88980E8092DA8899int);
    assert(0x88980E8092DA63ACint * 0x88980E8092DA63ACint <= 0x91C3D373AB117BC1int * 0x8000000000000000int);
    assert(0x91C3D373AB11CA8Fint * 0x8000000000000000int <= 0x88980E8092DA8899int * 0x88980E8092DA8899int);
    lemma_chain_upper(0x3B2ABAE3FEC0E9int, 3, 0x88980E8092DA63ACint, 368, 63, 0x91C3D373AB117BC1int);
    lemma_chain_lower(0x3B2ABAE3FEC0EBint, 3, 0x88980E8092DA8899int, 368, 63, 0x91C3D373AB11CA8Fint);
    assert(0x91C3D373AB117BC1int * 0x91C3D373AB117BC1int <= 0xA5FED6A9B150962Bint * 0x8000000000000000int);
    assert(0xA5FED6A9B15149A6int * 0x8000000000000000int <= 0x91C3D373AB11CA8Fint * 0x91C3D373AB11CA8Fint);
    lemma_chain_upper(0x3B2ABAE3FEC0E9int, 4, 0x91C3D373AB117BC1int, 799, 63, 0xA5FED6A9B150962Bint);
    lemma_chain_lower(0x3B2ABAE3FEC0EBint, 4, 0x91C3D373AB11CA8Fint, 799, 63, 0xA5FED6A9B15149A6int);
    assert(0xA5FED6A9B150962Bint * 0xA5FED6A9B150962Bint <= 0xD744FCCAD69BC4D8int * 0x8000000000000000int);
    assert(0xD744FCCAD69D965Bint * 0x8000000000000000int <= 0xA5FED6A9B15149A6int * 0xA5FED6A9B15149A6int);
    lemma_chain_upper(0x3B2ABAE3FEC0E9int, 5, 0xA5FED6A9B150962Bint, 1661, 63, 0xD744FCCAD69BC4D8int);
    lemma_chain_lower(0x3B2ABAE3FEC0EBint, 5, 0xA5FED6A9B15149A6int, 1661, 63, 0xD744FCCAD69D965Bint);
    assert(0xD744FCCAD69BC4D8int * 0xD744FCCAD69BC4D8int <= 0xB504F333F9DB9E9Eint * 0x10000000000000000int);
    assert(0xB504F333F9DEAD82int * 0x10000000000000000int <= 0xD744FCCAD69D965Bint * 0xD744FCCAD69D965Bint);
    lemma_chain_upper(0x3B2ABAE3FEC0E9int, 6, 0xD744FCCAD69BC4D8int, 3385, 64, 0xB504F333F9DB9E9Eint);
    lemma_chain_lower(0x3B2ABAE3FEC0EBint, 6, 0xD744FCCAD69D965Bint, 3385, 64, 0xB504F333F9DEAD82int);
    assert(0xB504F333F9DB9E9Eint * 0xB504F333F9DB9E9Eint <= 0xFFFFFFFFFFF8281Aint * 0x8000000000000000int);
    assert(0x1000000000000CE73int * 0x8000000000000000int <= 0xB504F333F9DEAD82int * 0xB504F333F9DEAD82int);
    lemma_chain_upper(0x3B2ABAE3FEC0E9int, 7, 0xB504F333F9DB9E9Eint, 6834, 63, 0xFFFFFFFFFFF8281Aint);
    lemma_chain_lower(0x3B2ABAE3FEC0EBint, 7, 0xB504F333F9DEAD82int, 6834, 63, 0x1000000000000CE73int);
    lemma_chains_round(0x3FED_955D_71FF_6075u64, 227, 8, 1, 0x3B2ABAE3FEC0E9int, 0x3B2ABAE3FEC0EBint, 0xFFFFFFFFFFF8281Aint, 0x1000000000000CE73int, 13731, 64);
}

/// Boundary 229 of schema 8, checked through its squaring chains.
proof fn rounded_8_229()
    ensures
        rounds_root(0x3FED_BE7C_D63A_8315u64, 229, 8),
{
    lemma2_to64();
    lemma2_to64_rest();
    lemma_chain_start(0x3B7CF9AC750629int);
    lemma_chain_start(0x3B7CF9AC75062Bint);
    assert(0x3B7CF9AC750629int * 0x3B7CF9AC750629int <= 0xDD2D818508324B13int * 0x100000000000int);
    assert(0xDD2D8185083259F1int * 0x100000000000int <= 0x3B7CF9AC75062Bint * 0x3B7CF9AC75062Bint);
    lemma_chain_upper(0x3B7CF9AC750629int, 0, 0x3B7CF9AC750629int, 0, 44, 0xDD2D818508324B13int);
    lemma_chain_lower(0x3B7CF9AC75062Bint, 0, 0x3B7CF9AC75062Bint, 0, 44, 0xDD2D8185083259F1int);
    assert(0xDD2D818508324B13int * 0xDD2D818508324B13int <= 0xBF1799B67A730EB2int * 0x10000000000000000int);
    assert(0xBF1799B67A732861int * 0x10000000000000000int <= 0xDD2D8185083259F1int * 0xDD2D8185083259F1int);
    lemma_chain_upper(0x3B7CF9AC750629int, 1, 0xDD2D818508324B13int, 44, 64, 0xBF1799B67A730EB2int);
    lemma_chain_lower(0x3B7CF9AC75062Bint, 1, 0xDD2D8185083259F1int, 44, 64, 0xBF1799B67A732861int);
    assert(0xBF1799B67A730EB2int * 0xBF1799B67A730EB2int <= 0x8EA4398B45CD510Bint * 0x10000000000000000int);
    assert(0x8EA4398B45CD7761int * 0x10000000000000000int <= 0xBF1799B67A732861int * 0xBF1799B67A732861int);
    lemma_chain_upper(0x3B7CF9AC750629int, 2, 0xBF1799B67A730EB2int, 152, 64, 0x8EA4398B45CD510Bint);
    lemma_chain_lower(0x3B7CF9AC75062Bint, 2, 0xBF1799B67A732861int, 152, 64, 0x8EA4398B45CD7761int);
    assert(0x8EA4398B45CD510Bint * 0x8EA4398B45CD510Bint <= 0x9EF5326091A10BA5int * 0x8000000000000000int);
    assert(0x9EF5326091A16115int * 0x8000000000000000int <= 0x8EA4398B45CD7761int * 0x8EA4398B45CD7761int);
    lemma_chain_upper(0x3B7CF9AC750629int, 3, 0x8EA4398B45CD510Bint, 368, 63, 0x9EF5326091A10BA5int);
    lemma_chain_lower(0x3B7CF9AC75062Bint, 3, 0x8EA4398B45CD7761int, 368, 63, 0x9EF5326091A16115int);
    assert(0x9EF5326091A10BA5int * 0x9EF5326091A10BA5int <= 0xC5672A115506CBE1int * 0x8000000000000000int);
    assert(0xC5672A115507A014int * 0x8000000000000000int <= 0x9EF5326091A16115int * 0x9EF5326091A16115int);
    lemma_chain_upper(0x3B7CF9AC750629int, 4, 0x9EF5326091A10BA5int, 799, 63, 0xC5672A115506CBE1int);
    lemma_chain_lower(0x3B7CF9AC75062Bint, 4, 0x9EF5326091A16115int, 799, 63, 0xC5672A115507A014int);
    assert(0xC5672A115506CBE1int * 0xC5672A115506CBE1int <= 0x9837F0518DB89253int * 0x10000000000000000int);
    assert(0x9837F0518DB9D994int * 0x10000000000000000int <= 0xC5672A115507A014int * 0xC5672A115507A014int);
    lemma_chain_upper(0x3B7CF9AC750629int, 5, 0xC5672A115506CBE1int, 1661, 64, 0x9837F0518DB89253int);
    lemma_chain_lower(0x3B7CF9AC75062Bint, 5, 0xC5672A115507A014int, 1661, 64, 0x9837F0518DB9D994int);
    assert(0x9837F0518DB89253int * 0x9837F0518DB89253int <= 0xB504F333F9DE2D8Dint * 0x8000000000000000int);
    assert(0xB504F333F9E137E5int * 0x8000000000000000int <= 0x9837F0518DB9D994int * 0x9837F0518DB9D994int);
    lemma_chain_upper(0x3B7CF9AC750629int, 6, 0x9837F0518DB89253int, 3386, 63, 0xB504F333F9DE2D8Dint);
    lemma_chain_lower(0x3B7CF9AC75062Bint, 6, 0x9837F0518DB9D994int, 3386, 63, 0xB504F333F9E137E5int);
    assert(0xB504F333F9DE2D8Dint * 0xB504F333F9DE2D8Dint <= 0xFFFFFFFFFFFF6489int * 0x8000000000000000int);
    assert(0x1000000000007FE05int * 0x8000000000000000int <= 0xB504F333F9E137E5int * 0xB504F333F9E137E5int);
    lemma_chain_upper(0x3B7CF9AC750629int, 7, 0xB504F333F9DE2D8Dint, 6835, 63, 0xFFFFFFFFFFFF6489int);
    lemma_chain_lower(0x3B7CF9AC75062Bint, 7, 0xB504F333F9E137E5int, 6835, 63, 0x1000000000007FE05int);
    lemma_chains_round(0x3FED_BE7C_D63A_8315u64, 229, 8, 1, 0x3B7CF9AC750629int, 0x3B7CF9AC75062Bint, 0xFFFFFFFFFFFF6489int, 0x1000000000007FE05int, 13733, 64);
}

/// Boundary 231 of schema 8, checked through its squaring chains.
proof fn rounded_8_231()
    ensures
        rounds_root(0x3FED_E7D5_641C_0658u64, 231, 8),
{
    lemma2_to64();
    lemma2_to64_rest();
    lemma_chain_start(0x3BCFAAC8380CAFint);
    lemma_chain_start(0x3BCFAAC8380CB1int);
    assert(0x3BCFAAC8380CAFint * 0x3BCFAAC8380CAFint <= 0xDF9612DEB8F04358int * 0x100000000000int);
    assert(0xDF9612DEB8F0524Bint * 0x100000000000int <= 0x3BCFAAC8380CB1int * 0x3BCFAAC8380CB1int);
    lemma_chain_upper(0x3BCFAAC8380CAFint, 0, 0x3BCFAAC8380CAFint, 0, 44, 0xDF9612DEB8F04358int);
    lemma_chain_lower(0x3BCFAAC8380CB1int, 0, 0x3BCFAAC8380CB1int, 0, 44, 0xDF9612DEB8F0524Bint);
    assert(0xDF9612DEB8F04358int * 0xDF9612DEB8F04358int <= 0xC346CCDA249762AAint * 0x10000000000000000int);
    assert(0xC346CCDA24977CC6int * 0x10000000000000000int <= 0xDF9612DEB8F0524Bint * 0xDF9612DEB8F0524Bint);
    lemma_chain_upper(0x3BCFAAC8380CAFint, 1, 0xDF9612DEB8F04358int, 44, 64, 0xC346CCDA249762AAint);
    lemma_chain_lower(0x3BCFAAC8380CB1int, 1, 0xDF9612DEB8F0524Bint, 44, 64, 0xC346CCDA24977CC6int);
    assert(0xC346CCDA249762AAint * 0xC346CCDA249762AAint <= 0x94F4EFA8FEF7074Dint * 0x10000000000000000int);
    assert(0x94F4EFA8FEF72F21int * 0x10000000000000000int <= 0xC346CCDA24977CC6int * 0xC346CCDA24977CC6int);
    lemma_chain_upper(0x3BCFAAC8380CAFint, 2, 0xC346CCDA249762AAint, 152, 64, 0x94F4EFA8FEF7074Dint);
    lemma_chain_lower(0x3BCFAAC8380CB1int, 2, 0xC346CCDA24977CC6int, 152, 64, 0x94F4EFA8FEF72F21int);
    assert(0x94F4EFA8FEF7074Dint * 0x94F4EFA8FEF7074Dint <= 0xAD583EEA42A145F0int * 0x8000000000000000int);
    assert(0xAD583EEA42A1A2A2int * 0x8000000000000000int <= 0x94F4EFA8FEF72F21int * 0x94F4EFA8FEF72F21int);
    lemma_chain_upper(0x3BCFAAC8380CAFint, 3, 0x94F4EFA8FEF7074Dint, 368, 63, 0xAD583EEA42A145F0int);
    lemma_chain_lower(0x3BCFAAC8380CB1int, 3, 0x94F4EFA8FEF72F21int, 368, 63, 0xAD583EEA42A1A2A2int);
    assert(0xAD583EEA42A145F0int * 0xAD583EEA42A145F0int <= 0xEAC0C6E7DD242C15int * 0x8000000000000000int);
    assert(0xEAC0C6E7DD252725int * 0x8000000000000000int <= 0xAD583EEA42A1A2A2int * 0xAD583EEA42A1A2A2int);
    lemma_chain_upper(0x3BCFAAC8380CAFint, 4, 0xAD583EEA42A145F0int, 799, 63, 0xEAC0C6E7DD242C15int);
    lemma_chain_lower(0x3BCFAAC8380CB1int, 4, 0xAD583EEA42A1A2A2int, 799, 63, 0xEAC0C6E7DD252725int);
    assert(0xEAC0C6E7DD242C15int * 0xEAC0C6E7DD242C15int <= 0xD744FCCAD69D52EEint * 0x10000000000000000int);
    assert(0xD744FCCAD69F1F60int * 0x10000000000000000int <= 0xEAC0C6E7DD252725int * 0xEAC0C6E7DD252725int);
    lemma_chain_upper(0x3BCFAAC8380CAFint, 5, 0xEAC0C6E7DD242C15int, 1661, 64, 0xD744FCCAD69D52EEint);
    lemma_chain_lower(0x3BCFAAC8380CB1int, 5, 0xEAC0C6E7DD252725int, 1661, 64, 0xD744FCCAD69F1F60int);
    assert(0xD744FCCAD69D52EEint * 0xD744FCCAD69D52EEint <= 0xB504F333F9DE3C1Dint * 0x10000000000000000int);
    assert(0xB504F333F9E1427Cint * 0x10000000000000000int <= 0xD744FCCAD69F1F60int * 0xD744FCCAD69F1F60int);
    lemma_chain_upper(0x3BCFAAC8380CAFint, 6, 0xD744FCCAD69D52EEint, 3386, 64, 0xB504F333F9DE3C1Dint);
    lemma_chain_lower(0x3BCFAAC8380CB1int, 6, 0xD744FCCAD69F1F60int, 3386, 64, 0xB504F333F9E1427Cint);
    assert(0xB504F333F9DE3C1Dint * 0xB504F333F9DE3C1Dint <= 0xFFFFFFFFFFFF8DB9int * 0x8000000000000000int);
    assert(0x10000000000081BF9int * 0x8000000000000000int <= 0xB504F333F9E1427Cint * 0xB504F333F9E1427Cint);
    lemma_chain_upper(0x3BCFAAC8380CAFint, 7, 0xB504F333F9DE3C1Dint, 6836, 63, 0xFFFFFFFFFFFF8DB9int);
    lemma_chain_lower(0x3BCFAAC8380CB1int, 7, 0xB504F333F9E1427Cint, 6836, 63, 0x10000000000081BF9int);
    lemma_chains_round(0x3FED_E7D5_641C_0658u64, 231, 8, 1, 0x3BCFAAC8380CAFint, 0x3BCFAAC8380CB1int, 0xFFFFFFFFFFFF8DB9int, 0x10000000000081BF9int, 13735, 64);
}

/// Boundary 233 of schema 8, checked through its squaring chains.
proof fn rounded_8_233()
    ensures
        rounds_root(0x3FEE_1167_6B19_7D17u64, 233, 8),
{
    lemma2_to64();
    lemma2_to64_rest();
    lemma_chain_start(0x3C22CED632FA2Dint);
    lemma_chain_start(0x3C22CED632FA2Fint);
    assert(0x3C22CED632FA2Dint * 0x3C22CED632FA2Dint <= 0xE2055AFFFE83CCFEint * 0x100000000000int);
    assert(0xE2055AFFFE83DC06int * 0x100000000000int <= 0x3C22CED632FA2Fint * 0x3C22CED632FA2Fint);
    lemma_chain_upper(0x3C22CED632FA2Dint, 0, 0x3C22CED632FA2Dint, 0, 44, 0xE2055AFFFE83CCFEint);
    lemma_chain_lower(0x3C22CED632FA2Fint, 0, 0x3C22CED632FA2Fint, 0, 44, 0xE2055AFFFE83DC06int);
    assert(0xE2055AFFFE83CCFEint * 0xE2055AFFFE83CCFEint <= 0xC78D74C8ABB9A609int * 0x10000000000000000int);
    assert(0xC78D74C8ABB9C092int * 0x10000000000000000int <= 0xE2055AFFFE83DC06int * 0xE2055AFFFE83DC06int);
    lemma_chain_upper(0x3C22CED632FA2Dint, 1, 0xE2055AFFFE83CCFEint, 44, 64, 0xC78D74C8ABB9A609int);
    lemma_chain_lower(0x3C22CED632FA2Fint, 1, 0xE2055AFFFE83DC06int, 44, 64, 0xC78D74C8ABB9C092int);
    assert(0xC78D74C8ABB9A609int * 0xC78D74C8ABB9A609int <= 0x9B8D39B9D54E4390int * 0x10000000000000000int);
    assert(0x9B8D39B9D54E6CEEint * 0x10000000000000000int <= 0xC78D74C8ABB9C092int * 0xC78D74C8ABB9C092int);
    lemma_chain_upper(0x3C22CED632FA2Dint, 2, 0xC78D74C8ABB9A609int, 152, 64, 0x9B8D39B9D54E4390int);
    lemma_chain_lower(0x3C22CED632FA2Fint, 2, 0xC78D74C8ABB9C092int, 152, 64, 0x9B8D39B9D54E6CEEint);
    assert(0x9B8D39B9D54E4390int * 0x9B8D39B9D54E4390int <= 0xBD08A39F580C0BD4int * 0x8000000000000000int);
    assert(0xBD08A39F580C705Eint * 0x8000000000000000int <= 0x9B8D39B9D54E6CEEint * 0x9B8D39B9D54E6CEEint);
    lemma_chain_upper(0x3C22CED632FA2Dint, 3, 0x9B8D39B9D54E4390int, 368, 63, 0xBD08A39F580C0BD4int);
    lemma_chain_lower(0x3C22CED632FA2Fint, 3, 0x9B8D39B9D54E6CEEint, 368, 63, 0xBD08A39F580C705Eint);
    assert(0xBD08A39F580C0BD4int * 0xBD08A39F580C0BD4int <= 0x8B95C1E3EA8B9786int * 0x10000000000000000int);
    assert(0x8B95C1E3EA8C2C00int * 0x10000000000000000int <= 0xBD08A39F580C705Eint * 0xBD08A39F580C705Eint);
    lemma_chain_upper(0x3C22CED632FA2Dint, 4, 0xBD08A39F580C0BD4int, 799, 64, 0x8B95C1E3EA8B9786int);
    lemma_chain_lower(0x3C22CED632FA2Fint, 4, 0xBD08A39F580C705Eint, 799, 64, 0x8B95C1E3EA8C2C00int);
    assert(0x8B95C1E3EA8B9786int * 0x8B95C1E3EA8B9786int <= 0x9837F0518DB81F35int * 0x8000000000000000int);
    assert(0x9837F0518DB96308int * 0x8000000000000000int <= 0x8B95C1E3EA8C2C00int * 0x8B95C1E3EA8C2C00int);
    lemma_chain_upper(0x3C22CED632FA2Dint, 5, 0x8B95C1E3EA8B9786int, 1662, 63, 0x9837F0518DB81F35int);
    lemma_chain_lower(0x3C22CED632FA2Fint, 5, 0x8B95C1E3EA8C2C00int, 1662, 63, 0x9837F0518DB96308int);
    assert(0x9837F0518DB81F35int * 0x9837F0518DB81F35int <= 0xB504F333F9DD1BC2int * 0x8000000000000000int);
    assert(0xB504F333F9E01DF1int * 0x8000000000000000int <= 0x9837F0518DB96308int * 0x9837F0518DB96308int);
    lemma_chain_upper(0x3C22CED632FA2Dint, 6, 0x9837F0518DB81F35int, 3387, 63, 0xB504F333F9DD1BC2int);
    lemma_chain_lower(0x3C22CED632FA2Fint, 6, 0x9837F0518DB96308int, 3387, 63, 0xB504F333F9E01DF1int);
    assert(0xB504F333F9DD1BC2int * 0xB504F333F9DD1BC2int <= 0xFFFFFFFFFFFC5E21int * 0x8000000000000000int);
    assert(0x1000000000004E089int * 0x8000000000000000int <= 0xB504F333F9E01DF1int * 0xB504F333F9E01DF1int);
    lemma_chain_upper(0x3C22CED632FA2Dint, 7, 0xB504F333F9DD1BC2int, 6837, 63, 0xFFFFFFFFFFFC5E21int);
    lemma_chain_lower(0x3C22CED632FA2Fint, 7, 0xB504F333F9E01DF1int, 6837, 63, 0x1000000000004E089int);
    lemma_chains_round(0x3FEE_1167_6B19_7D17u64, 233, 8, 1, 0x3C22CED632FA2Dint, 0x3C22CED632FA2Fint, 0xFFFFFFFFFFFC5E21int, 0x1000000000004E089int, 13737, 64);
}

/// Boundary 235 of schema 8, checked through its squaring chains.
proof fn rounded_8_235()
    ensures
        rounds_root(0x3FEE_3B33_3B16_EE12u64, 235, 8),
{
    lemma2_to64();
    lemma2_to64_rest();
    lemma_chain_start(0x3C7666762DDC23int);
    lemma_chain_start(0x3C7666762DDC25int);
    assert(0x3C7666762DDC23int * 0x3C7666762DDC23int <= 0xE47B6CA0373DA720int * 0x100000000000int);
    assert(0xE47B6CA0373DB63Dint * 0x100000000000int <= 0x3C7666762DDC25int * 0x3C7666762DDC25int);
    lemma_chain_upper(0x3C7666762DDC23int, 0, 0x3C7666762DDC23int, 0, 44, 0xE47B6CA0373DA720int);
    lemma_chain_lower(0x3C7666762DDC25int, 0, 0x3C7666762DDC25int, 0, 44, 0xE47B6CA0373DB63Dint);
    assert(0xE47B6CA0373DA720int * 0xE47B6CA0373DA720int <= 0xCBEC14FEF27279D1int * 0x10000000000000000int);
    assert(0xCBEC14FEF27294CAint * 0x10000000000000000int <= 0xE47B6CA0373DB63Dint * 0xE47B6CA0373DB63Dint);
    lemma_chain_upper(0x3C7666762DDC23int, 1, 0xE47B6CA0373DA720int, 44, 64, 0xCBEC14FEF27279D1int);
    lemma_chain_lower(0x3C7666762DDC25int, 1, 0xE47B6CA0373DB63Dint, 44, 64, 0xCBEC14FEF27294CAint);
    assert(0xCBEC14FEF27279D1int * 0xCBEC14FEF27279D1int <= 0xA27043030C49640Aint * 0x10000000000000000int);
    assert(0xA27043030C498F02int * 0x10000000000000000int <= 0xCBEC14FEF27294CAint * 0xCBEC14FEF27294CAint);
    lemma_chain_upper(0x3C7666762DDC23int, 2, 0xCBEC14FEF27279D1int, 152, 64, 0xA27043030C49640Aint);
    lemma_chain_lower(0x3C7666762DDC25int, 2, 0xCBEC14FEF27294CAint, 152, 64, 0xA27043030C498F02int);
    assert(0xA27043030C49640Aint * 0xA27043030C49640Aint <= 0xCE248C151F847698int * 0x8000000000000000int);
    assert(0xCE248C151F84E3A6int * 0x8000000000000000int <= 0xA27043030C498F02int * 0xA27043030C498F02int);
    lemma_chain_upper(0x3C7666762DDC23int, 3, 0xA27043030C49640Aint, 368, 63, 0xCE248C151F847698int);
    lemma_chain_lower(0x3C7666762DDC25int, 3, 0xA27043030C498F02int, 368, 63, 0xCE248C151F84E3A6int);
    assert(0xCE248C151F847698int * 0xCE248C151F847698int <= 0xA5FED6A9B1512856int * 0x10000000000000000int);
    assert(0xA5FED6A9B151D7F6int * 0x10000000000000000int <= 0xCE248C151F84E3A6int * 0xCE248C151F84E3A6int);
    lemma_chain_upper(0x3C7666762DDC23int, 4, 0xCE248C151F847698int, 799, 64, 0xA5FED6A9B1512856int);
    lemma_chain_lower(0x3C7666762DDC25int, 4, 0xCE248C151F84E3A6int, 799, 64, 0xA5FED6A9B151D7F6int);
    assert(0xA5FED6A9B1512856int * 0xA5FED6A9B1512856int <= 0xD744FCCAD69D3FF5int * 0x8000000000000000int);
    assert(0xD744FCCAD69F0778int * 0x8000000000000000int <= 0xA5FED6A9B151D7F6int * 0xA5FED6A9B151D7F6int);
    lemma_chain_upper(0x3C7666762DDC23int, 5, 0xA5FED6A9B1512856int, 1662, 63, 0xD744FCCAD69D3FF5int);
    lemma_chain_lower(0x3C7666762DDC25int, 5, 0xA5FED6A9B151D7F6int, 1662, 63, 0xD744FCCAD69F0778int);
    assert(0xD744FCCAD69D3FF5int * 0xD744FCCAD69D3FF5int <= 0xB504F333F9DE1C35int * 0x10000000000000000int);
    assert(0xB504F333F9E11A48int * 0x10000000000000000int <= 0xD744FCCAD69F0778int * 0xD744FCCAD69F0778int);
    lemma_chain_upper(0x3C7666762DDC23int, 6, 0xD744FCCAD69D3FF5int, 3387, 64, 0xB504F333F9DE1C35int);
    lemma_chain_lower(0x3C7666762DDC25int, 6, 0xD744FCCAD69F0778int, 3387, 64, 0xB504F333F9E11A48int);
    assert(0xB504F333F9DE1C35int * 0xB504F333F9DE1C35int <= 0xFFFFFFFFFFFF337Aint * 0x8000000000000000int);
    assert(0x1000000000007AA42int * 0x8000000000000000int <= 0xB504F333F9E11A48int * 0xB504F333F9E11A48int);
    lemma_chain_upper(0x3C7666762DDC23int, 7, 0xB504F333F9DE1C35int, 6838, 63, 0xFFFFFFFFFFFF337Aint);
    lemma_chain_lower(0x3C7666762DDC25int, 7, 0xB504F333F9E11A48int, 6838, 63, 0x1000000000007AA42int);
    lemma_chains_round(0x3FEE_3B33_3B16_EE12u64, 235, 8, 1, 0x3C7666762DDC23int, 0x3C7666762DDC25int, 0xFFFFFFFFFFFF337Aint, 0x1000000000007AA42int, 13739, 64);
}

/// Boundary 237 of schema 8, checked through its squaring chains.
proof fn rounded_8_237()
    ensures
        rounds_root(0x3FEE_6539_2467_6D76u64, 237, 8),
{
    lemma2_to64();
    lemma2_to64_rest();
    lemma_chain_start(0x3CCA7248CEDAEBint);
    lemma_chain_start(0x3CCA7248CEDAEDint);
    assert(0x3CCA7248CEDAEBint * 0x3CCA7248CEDAEBint <= 0xE6F85AAAEE1FC92Eint * 0x100000000000int);
    assert(0xE6F85AAAEE1FD860int * 0x100000000000int <= 0x3CCA7248CEDAEDint * 0x3CCA7248CEDAEDint);
    lemma_chain_upper(0x3CCA7248CEDAEBint, 0, 0x3CCA7248CEDAEBint, 0, 44, 0xE6F85AAAEE1FC92Eint);
    lemma_chain_lower(0x3CCA7248CEDAEDint, 0, 0x3CCA7248CEDAEDint, 0, 44, 0xE6F85AAAEE1FD860int);
    assert(0xE6F85AAAEE1FC92Eint * 0xE6F85AAAEE1FC92Eint <= 0xD06333DAEF2B1CA4int * 0x10000000000000000int);
    assert(0xD06333DAEF2B380Fint * 0x10000000000000000int <= 0xE6F85AAAEE1FD860int * 0xE6F85AAAEE1FD860int);
    lemma_chain_upper(0x3CCA7248CEDAEBint, 1, 0xE6F85AAAEE1FC92Eint, 44, 64, 0xD06333DAEF2B1CA4int);
    lemma_chain_lower(0x3CCA7248CEDAEDint, 1, 0xE6F85AAAEE1FD860int, 44, 64, 0xD06333DAEF2B380Fint);
    assert(0xD06333DAEF2B1CA4int * 0xD06333DAEF2B1CA4int <= 0xA9A15AB4EA7C006Bint * 0x10000000000000000int);
    assert(0xA9A15AB4EA7C2D0Dint * 0x10000000000000000int <= 0xD06333DAEF2B380Fint * 0xD06333DAEF2B380Fint);
    lemma_chain_upper(0x3CCA7248CEDAEBint, 2, 0xD06333DAEF2B1CA4int, 152, 64, 0xA9A15AB4EA7C006Bint);
    lemma_chain_lower(0x3CCA7248CEDAEDint, 2, 0xD06333DAEF2B380Fint, 152, 64, 0xA9A15AB4EA7C2D0Dint);
    assert(0xA9A15AB4EA7C006Bint * 0xA9A15AB4EA7C006Bint <= 0xE0CCDEEC2A94BA80int * 0x8000000000000000int);
    assert(0xE0CCDEEC2A9530CBint * 0x8000000000000000int <= 0xA9A15AB4EA7C2D0Dint * 0xA9A15AB4EA7C2D0Dint);
    lemma_chain_upper(0x3CCA7248CEDAEBint, 3, 0xA9A15AB4EA7C006Bint, 368, 63, 0xE0CCDEEC2A94BA80int);
    lemma_chain_lower(0x3CCA7248CEDAEDint, 3, 0xA9A15AB4EA7C2D0Dint, 368, 63, 0xE0CCDEEC2A9530CBint);
    assert(0xE0CCDEEC2A94BA80int * 0xE0CCDEEC2A94BA80int <= 0xC5672A1155069722int * 0x10000000000000000int);
    assert(0xC5672A11550766E2int * 0x10000000000000000int <= 0xE0CCDEEC2A9530CBint * 0xE0CCDEEC2A9530CBint);
    lemma_chain_upper(0x3CCA7248CEDAEBint, 4, 0xE0CCDEEC2A94BA80int, 799, 64, 0xC5672A1155069722int);
    lemma_chain_lower(0x3CCA7248CEDAEDint, 4, 0xE0CCDEEC2A9530CBint, 799, 64, 0xC5672A11550766E2int);
    assert(0xC5672A1155069722int * 0xC5672A1155069722int <= 0x9837F0518DB840FBint * 0x10000000000000000int);
    assert(0x9837F0518DB9815Fint * 0x10000000000000000int <= 0xC5672A11550766E2int * 0xC5672A11550766E2int);
    lemma_chain_upper(0x3CCA7248CEDAEBint, 5, 0xC5672A1155069722int, 1662, 64, 0x9837F0518DB840FBint);
    lemma_chain_lower(0x3CCA7248CEDAEDint, 5, 0xC5672A11550766E2int, 1662, 64, 0x9837F0518DB9815Fint);
    assert(0x9837F0518DB840FBint * 0x9837F0518DB840FBint <= 0xB504F333F9DD6C15int * 0x8000000000000000int);
    assert(0xB504F333F9E0661Aint * 0x8000000000000000int <= 0x9837F0518DB9815Fint * 0x9837F0518DB9815Fint);
    lemma_chain_upper(0x3CCA7248CEDAEBint, 6, 0x9837F0518DB840FBint, 3388, 63, 0xB504F333F9DD6C15int);
    lemma_chain_lower(0x3CCA7248CEDAEDint, 6, 0x9837F0518DB9815Fint, 3388, 63, 0xB504F333F9E0661Aint);
    assert(0xB504F333F9DD6C15int * 0xB504F333F9DD6C15int <= 0xFFFFFFFFFFFD4152int * 0x8000000000000000int);
    assert(0x1000000000005ACA2int * 0x8000000000000000int <= 0xB504F333F9E0661Aint * 0xB504F333F9E0661Aint);
    lemma_chain_upper(0x3CCA7248CEDAEBint, 7, 0xB504F333F9DD6C15int, 6839, 63, 0xFFFFFFFFFFFD4152int);
    lemma_chain_lower(0x3CCA7248CEDAEDint, 7, 0xB504F333F9E0661Aint, 6839, 63, 0x1000000000005ACA2int);
    lemma_chains_round(0x3FEE_6539_2467_6D76u64, 237, 8, 1, 0x3CCA7248CEDAEBint, 0x3CCA7248CEDAEDint, 0xFFFFFFFFFFFD4152int, 0x1000000000005ACA2int, 13741, 64);
}

/// Boundary 239 of schema 8, checked through its squaring chains.
proof fn rounded_8_239()
    ensures
        rounds_root(0x3FEE_8F79_77CD_B740u64, 239, 8),
{
    lemma2_to64();
    lemma2_to64_rest();
    lemma_chain_start(0x3D1EF2EF9B6E7Fint);
    lemma_chain_start(0x3D1EF2EF9B6E81int);
    assert(0x3D1EF2EF9B6E7Fint * 0x3D1EF2EF9B6E7Fint <= 0xE97C38406C4F88C5int * 0x100000000000int);
    assert(0xE97C38406C4F980Bint * 0x100000000000int <= 0x3D1EF2EF9B6E81int * 0x3D1EF2EF9B6E81int);
    lemma_chain_upper(0x3D1EF2EF9B6E7Fint, 0, 0x3D1EF2EF9B6E7Fint, 0, 44, 0xE97C38406C4F88C5int);
    lemma_chain_lower(0x3D1EF2EF9B6E81int, 0, 0x3D1EF2EF9B6E81int, 0, 44, 0xE97C38406C4F980Bint);
    assert(0xE97C38406C4F88C5int * 0xE97C38406C4F88C5int <= 0xD4F35AABCFEDF39Dint * 0x10000000000000000int);
    assert(0xD4F35AABCFEE0F78int * 0x10000000000000000int <= 0xE97C38406C4F980Bint * 0xE97C38406C4F980Bint);
    lemma_chain_upper(0x3D1EF2EF9B6E7Fint, 1, 0xE97C38406C4F88C5int, 44, 64, 0xD4F35AABCFEDF39Dint);
    lemma_chain_lower(0x3D1EF2EF9B6E81int, 1, 0xE97C38406C4F980Bint, 44, 64, 0xD4F35AABCFEE0F78int);
    assert(0xD4F35AABCFEDF39Dint * 0xD4F35AABCFEDF39Dint <= 0xB123F581D2AC1ABCint * 0x10000000000000000int);
    assert(0xB123F581D2AC4912int * 0x10000000000000000int <= 0xD4F35AABCFEE0F78int * 0xD4F35AABCFEE0F78int);
    lemma_chain_upper(0x3D1EF2EF9B6E7Fint, 2, 0xD4F35AABCFEDF39Dint, 152, 64, 0xB123F581D2AC1ABCint);
    lemma_chain_lower(0x3D1EF2EF9B6E81int, 2, 0xD4F35AABCFEE0F78int, 152, 64, 0xB123F581D2AC4912int);
    assert(0xB123F581D2AC1ABCint * 0xB123F581D2AC1ABCint <= 0xF5257D152486AE36int * 0x8000000000000000int);
    assert(0xF5257D1524872E75int * 0x8000000000000000int <= 0xB123F581D2AC4912int * 0xB123F581D2AC4912int);
    lemma_chain_upper(0x3D1EF2EF9B6E7Fint, 3, 0xB123F581D2AC1ABCint, 368, 63, 0xF5257D152486AE36int);
    lemma_chain_lower(0x3D1EF2EF9B6E81int, 3, 0xB123F581D2AC4912int, 368, 63, 0xF5257D1524872E75int);
    assert(0xF5257D152486AE36int * 0xF5257D152486AE36int <= 0xEAC0C6E7DD23FFCDint * 0x10000000000000000int);
    assert(0xEAC0C6E7DD24F56Aint * 0x10000000000000000int <= 0xF5257D1524872E75int * 0xF5257D1524872E75int);
    lemma_chain_upper(0x3D1EF2EF9B6E7Fint, 4, 0xF5257D152486AE36int, 799, 64, 0xEAC0C6E7DD23FFCDint);
    lemma_chain_lower(0x3D1EF2EF9B6E81int, 4, 0xF5257D1524872E75int, 799, 64, 0xEAC0C6E7DD24F56Aint);
    assert(0xEAC0C6E7DD23FFCDint * 0xEAC0C6E7DD23FFCDint <= 0xD744FCCAD69D01B7int * 0x10000000000000000int);
    assert(0xD744FCCAD69EC42Bint * 0x10000000000000000int <= 0xEAC0C6E7DD24F56Aint * 0xEAC0C6E7DD24F56Aint);
    lemma_chain_upper(0x3D1EF2EF9B6E7Fint, 5, 0xEAC0C6E7DD23FFCDint, 1662, 64, 0xD744FCCAD69D01B7int);
    lemma_chain_lower(0x3D1EF2EF9B6E81int, 5, 0xEAC0C6E7DD24F56Aint, 1662, 64, 0xD744FCCAD69EC42Bint);
    assert(0xD744FCCAD69D01B7int * 0xD744FCCAD69D01B7int <= 0xB504F333F9DDB387int * 0x10000000000000000int);
    assert(0xB504F333F9E0A918int * 0x10000000000000000int <= 0xD744FCCAD69EC42Bint * 0xD744FCCAD69EC42Bint);
    lemma_chain_upper(0x3D1EF2EF9B6E7Fint, 6, 0xD744FCCAD69D01B7int, 3388, 64, 0xB504F333F9DDB387int);
    lemma_chain_lower(0x3D1EF2EF9B6E81int, 6, 0xD744FCCAD69EC42Bint, 3388, 64, 0xB504F333F9E0A918int);
    assert(0xB504F333F9DDB387int * 0xB504F333F9DDB387int <= 0xFFFFFFFFFFFE0B66int * 0x8000000000000000int);
    assert(0x10000000000066A1Eint * 0x8000000000000000int <= 0xB504F333F9E0A918int * 0xB504F333F9E0A918int);
    lemma_chain_upper(0x3D1EF2EF9B6E7Fint, 7, 0xB504F333F9DDB387int, 6840, 63, 0xFFFFFFFFFFFE0B66int);
    lemma_chain_lower(0x3D1EF2EF9B6E81int, 7, 0xB504F333F9E0A918int, 6840, 63, 0x10000000000066A1Eint);
    lemma_chains_round(0x3FEE_8F79_77CD_B740u64, 239, 8, 1, 0x3D1EF2EF9B6E7Fint, 0x3D1EF2EF9B6E81int, 0xFFFFFFFFFFFE0B66int, 0x10000000000066A1Eint, 13743, 64);
}

/// Boundary 241 of schema 8, checked through its squaring chains.
proof fn rounded_8_241()
    ensures
        rounds_root(0x3FEE_B9F4_867C_CA6Eu64, 241, 8),
{
    lemma2_to64();
    lemma2_to64_rest();
    lemma_chain_start(0x3D73E90CF994DBint);
    lemma_chain_start(0x3D73E90CF994DDint);
    assert(0x3D73E90CF994DBint * 0x3D73E90CF994DBint <= 0xEC0718B64C1CB142int * 0x100000000000int);
    assert(0xEC0718B64C1CC09Eint * 0x100000000000int <= 0x3D73E90CF994DDint * 0x3D73E90CF994DDint);
    lemma_chain_upper(0x3D73E90CF994DBint, 0, 0x3D73E90CF994DBint, 0, 44, 0xEC0718B64C1CB142int);
    lemma_chain_lower(0x3D73E90CF994DDint, 0, 0x3D73E90CF994DDint, 0, 44, 0xEC0718B64C1CC09Eint);
    assert(0xEC0718B64C1CB142int * 0xEC0718B64C1CB142int <= 0xD99D15C278AFC07Aint * 0x10000000000000000int);
    assert(0xD99D15C278AFDCCBint * 0x10000000000000000int <= 0xEC0718B64C1CC09Eint * 0xEC0718B64C1CC09Eint);
    lemma_chain_upper(0x3D73E90CF994DBint, 1, 0xEC0718B64C1CB142int, 44, 64, 0xD99D15C278AFC07Aint);
    lemma_chain_lower(0x3D73E90CF994DDint, 1, 0xEC0718B64C1CC09Eint, 44, 64, 0xD99D15C278AFDCCBint);
    assert(0xD99D15C278AFC07Aint * 0xD99D15C278AFC07Aint <= 0xB8FBAF4762FB7769int * 0x10000000000000000int);
    assert(0xB8FBAF4762FBA78Cint * 0x10000000000000000int <= 0xD99D15C278AFDCCBint * 0xD99D15C278AFDCCBint);
    lemma_chain_upper(0x3D73E90CF994DBint, 2, 0xD99D15C278AFC07Aint, 152, 64, 0xB8FBAF4762FB7769int);
    lemma_chain_lower(0x3D73E90CF994DDint, 2, 0xD99D15C278AFDCCBint, 152, 64, 0xB8FBAF4762FBA78Cint);
    assert(0xB8FBAF4762FB7769int * 0xB8FBAF4762FB7769int <= 0x85AAC367CC4841FFint * 0x10000000000000000int);
    assert(0x85AAC367CC48878Fint * 0x10000000000000000int <= 0xB8FBAF4762FBA78Cint * 0xB8FBAF4762FBA78Cint);
    lemma_chain_upper(0x3D73E90CF994DBint, 3, 0xB8FBAF4762FB7769int, 368, 64, 0x85AAC367CC4841FFint);
    lemma_chain_lower(0x3D73E90CF994DDint, 3, 0xB8FBAF4762FBA78Cint, 368, 64, 0x85AAC367CC48878Fint);
    assert(0x85AAC367CC4841FFint * 0x85AAC367CC4841FFint <= 0x8B95C1E3EA8B5FAEint * 0x8000000000000000int);
    assert(0x8B95C1E3EA8BF0F6int * 0x8000000000000000int <= 0x85AAC367CC48878Fint * 0x85AAC367CC48878Fint);
    lemma_chain_upper(0x3D73E90CF994DBint, 4, 0x85AAC367CC4841FFint, 800, 63, 0x8B95C1E3EA8B5FAEint);
    lemma_chain_lower(0x3D73E90CF994DDint, 4, 0x85AAC367CC48878Fint, 800, 63, 0x8B95C1E3EA8BF0F6int);
    assert(0x8B95C1E3EA8B5FAEint * 0x8B95C1E3EA8B5FAEint <= 0x9837F0518DB7A569int * 0x8000000000000000int);
    assert(0x9837F0518DB8E244int * 0x8000000000000000int <= 0x8B95C1E3EA8BF0F6int * 0x8B95C1E3EA8BF0F6int);
    lemma_chain_upper(0x3D73E90CF994DBint, 5, 0x8B95C1E3EA8B5FAEint, 1663, 63, 0x9837F0518DB7A569int);
    lemma_chain_lower(0x3D73E90CF994DDint, 5, 0x8B95C1E3EA8BF0F6int, 1663, 63, 0x9837F0518DB8E244int);
    assert(0x9837F0518DB7A569int * 0x9837F0518DB7A569int <= 0xB504F333F9DBFA13int * 0x8000000000000000int);
    assert(0xB504F333F9DEEBAFint * 0x8000000000000000int <= 0x9837F0518DB8E244int * 0x9837F0518DB8E244int);
    lemma_chain_upper(0x3D73E90CF994DBint, 6, 0x9837F0518DB7A569int, 3389, 63, 0xB504F333F9DBFA13int);
    lemma_chain_lower(0x3D73E90CF994DDint, 6, 0x9837F0518DB8E244int, 3389, 63, 0xB504F333F9DEEBAFint);
    assert(0xB504F333F9DBFA13int * 0xB504F333F9DBFA13int <= 0xFFFFFFFFFFF92AC8int * 0x8000000000000000int);
    assert(0x10000000000017E4Fint * 0x8000000000000000int <= 0xB504F333F9DEEBAFint * 0xB504F333F9DEEBAFint);
    lemma_chain_upper(0x3D73E90CF994DBint, 7, 0xB504F333F9DBFA13int, 6841, 63, 0xFFFFFFFFFFF92AC8int);
    lemma_chain_lower(0x3D73E90CF994DDint, 7, 0xB504F333F9DEEBAFint, 6841, 63, 0x10000000000017E4Fint);
    lemma_chains_round(0x3FEE_B9F4_867C_CA6Eu64, 241, 8, 1, 0x3D73E90CF994DBint, 0x3D73E90CF994DDint, 0xFFFFFFFFFFF92AC8int, 0x10000000000017E4Fint, 13745, 64);
}

/// Boundary 243 of schema 8, checked through its squaring chains.
proof fn rounded_8_243()
    ensures
        rounds_root(0x3FEE_E4AA_A218_8510u64, 243, 8),
{
    lemma2_to64();
    lemma2_to64_rest();
    lemma_chain_start(0x3DC95544310A1Fint);
    lemma_chain_start(0x3DC95544310A21int);
    assert(0x3DC95544310A1Fint * 0x3DC95544310A1Fint <= 0xEE990F980DA2F658int * 0x100000000000int);
    assert(0xEE990F980DA305CAint * 0x100000000000int <= 0x3DC95544310A21int * 0x3DC95544310A21int);
    lemma_chain_upper(0x3DC95544310A1Fint, 0, 0x3DC95544310A1Fint, 0, 44, 0xEE990F980DA2F658int);
    lemma_chain_lower(0x3DC95544310A21int, 0, 0x3DC95544310A21int, 0, 44, 0xEE990F980DA305CAint);
    assert(0xEE990F980DA2F658int * 0xEE990F980DA2F658int <= 0xDE60F4825E0E7AC0int * 0x10000000000000000int);
    assert(0xDE60F4825E0E9789int * 0x10000000000000000int <= 0xEE990F980DA305CAint * 0xEE990F980DA305CAint);
    lemma_chain_upper(0x3DC95544310A1Fint, 1, 0xEE990F980DA2F658int, 44, 64, 0xDE60F4825E0E7AC0int);
    lemma_chain_lower(0x3DC95544310A21int, 1, 0xEE990F980DA305CAint, 44, 64, 0xDE60F4825E0E9789int);
    assert(0xDE60F4825E0E7AC0int * 0xDE60F4825E0E7AC0int <= 0xC12C4CCA66706D71int * 0x10000000000000000int);
    assert(0xC12C4CCA66709F72int * 0x10000000000000000int <= 0xDE60F4825E0E9789int * 0xDE60F4825E0E9789int);
    lemma_chain_upper(0x3DC95544310A1Fint, 2, 0xDE60F4825E0E7AC0int, 152, 64, 0xC12C4CCA66706D71int);
    lemma_chain_lower(0x3DC95544310A21int, 2, 0xDE60F4825E0E9789int, 152, 64, 0xC12C4CCA66709F72int);
    assert(0xC12C4CCA66706D71int * 0xC12C4CCA66706D71int <= 0x91C3D373AB118883int * 0x10000000000000000int);
    assert(0x91C3D373AB11D3F9int * 0x10000000000000000int <= 0xC12C4CCA66709F72int * 0xC12C4CCA66709F72int);
    lemma_chain_upper(0x3DC95544310A1Fint, 3, 0xC12C4CCA66706D71int, 368, 64, 0x91C3D373AB118883int);
    lemma_chain_lower(0x3DC95544310A21int, 3, 0xC12C4CCA66709F72int, 368, 64, 0x91C3D373AB11D3F9int);
    assert(0x91C3D373AB118883int * 0x91C3D373AB118883int <= 0xA5FED6A9B150B339int * 0x8000000000000000int);
    assert(0xA5FED6A9B1515F17int * 0x8000000000000000int <= 0x91C3D373AB11D3F9int * 0x91C3D373AB11D3F9int);
    lemma_chain_upper(0x3DC95544310A1Fint, 4, 0x91C3D373AB118883int, 800, 63, 0xA5FED6A9B150B339int);
    lemma_chain_lower(0x3DC95544310A21int, 4, 0x91C3D373AB11D3F9int, 800, 63, 0xA5FED6A9B1515F17int);
    assert(0xA5FED6A9B150B339int * 0xA5FED6A9B150B339int <= 0xD744FCCAD69C1034int * 0x8000000000000000int);
    assert(0xD744FCCAD69DCDF7int * 0x8000000000000000int <= 0xA5FED6A9B1515F17int * 0xA5FED6A9B1515F17int);
    lemma_chain_upper(0x3DC95544310A1Fint, 5, 0xA5FED6A9B150B339int, 1663, 63, 0xD744FCCAD69C1034int);
    lemma_chain_lower(0x3DC95544310A21int, 5, 0xA5FED6A9B1515F17int, 1663, 63, 0xD744FCCAD69DCDF7int);
    assert(0xD744FCCAD69C1034int * 0xD744FCCAD69C1034int <= 0xB504F333F9DC1D5Bint * 0x10000000000000000int);
    assert(0xB504F333F9DF0B08int * 0x10000000000000000int <= 0xD744FCCAD69DCDF7int * 0xD744FCCAD69DCDF7int);
    lemma_chain_upper(0x3DC95544310A1Fint, 6, 0xD744FCCAD69C1034int, 3389, 64, 0xB504F333F9DC1D5Bint);
    lemma_chain_lower(0x3DC95544310A21int, 6, 0xD744FCCAD69DCDF7int, 3389, 64, 0xB504F333F9DF0B08int);
    assert(0xB504F333F9DC1D5Bint * 0xB504F333F9DC1D5Bint <= 0xFFFFFFFFFFF98E92int * 0x8000000000000000int);
    assert(0x1000000000001D6F9int * 0x8000000000000000int <= 0xB504F333F9DF0B08int * 0xB504F333F9DF0B08int);
    lemma_chain_upper(0x3DC95544310A1Fint, 7, 0xB504F333F9DC1D5Bint, 6842, 63, 0xFFFFFFFFFFF98E92int);
    lemma_chain_lower(0x3DC95544310A21int, 7, 0xB504F333F9DF0B08int, 6842, 63, 0x1000000000001D6F9int);
    lemma_chains_round(0x3FEE_E4AA_A218_8510u64, 243, 8, 1, 0x3DC95544310A1Fint, 0x3DC95544310A21int, 0xFFFFFFFFFFF98E92int, 0x1000000000001D6F9int, 13747, 64);
}

/// Boundary 245 of schema 8, checked through its squaring chains.
proof fn rounded_8_245()
    ensures
        rounds_root(0x3FEF_0F9C_1CB6_412Au64, 245, 8),
{
    lemma2_to64();
    lemma2_to64_rest();
    lemma_chain_start(0x3E1F38396C8253int);
    lemma_chain_start(0x3E1F38396C8255int);
    assert(0x3E1F38396C8253int * 0x3E1F38396C8253int <= 0xF13230A7AD0941EAint * 0x100000000000int);
    assert(0xF13230A7AD095171int * 0x100000000000int <= 0x3E1F38396C8255int * 0x3E1F38396C8255int);
    lemma_chain_upper(0x3E1F38396C8253int, 0, 0x3E1F38396C8253int, 0, 44, 0xF13230A7AD0941EAint);
    lemma_chain_lower(0x3E1F38396C8255int, 0, 0x3E1F38396C8255int, 0, 44, 0xF13230A7AD095171int);
    assert(0xF13230A7AD0941EAint * 0xF13230A7AD0941EAint <= 0xE33F8972BE8A5470int * 0x10000000000000000int);
    assert(0xE33F8972BE8A71B1int * 0x10000000000000000int <= 0xF13230A7AD095171int * 0xF13230A7AD095171int);
    lemma_chain_upper(0x3E1F38396C8253int, 1, 0xF13230A7AD0941EAint, 44, 64, 0xE33F8972BE8A5470int);
    lemma_chain_lower(0x3E1F38396C8255int, 1, 0xF13230A7AD095171int, 44, 64, 0xE33F8972BE8A71B1int);
    assert(0xE33F8972BE8A5470int * 0xE33F8972BE8A5470int <= 0xC9B9BD866E2F1D33int * 0x10000000000000000int);
    assert(0xC9B9BD866E2F5122int * 0x10000000000000000int <= 0xE33F8972BE8A71B1int * 0xE33F8972BE8A71B1int);
    lemma_chain_upper(0x3E1F38396C8253int, 2, 0xE33F8972BE8A5470int, 152, 64, 0xC9B9BD866E2F1D33int);
    lemma_chain_lower(0x3E1F38396C8255int, 2, 0xE33F8972BE8A71B1int, 152, 64, 0xC9B9BD866E2F5122int);
    assert(0xC9B9BD866E2F1D33int * 0xC9B9BD866E2F1D33int <= 0x9EF5326091A1013Cint * 0x10000000000000000int);
    assert(0x9EF5326091A15314int * 0x10000000000000000int <= 0xC9B9BD866E2F5122int * 0xC9B9BD866E2F5122int);
    lemma_chain_upper(0x3E1F38396C8253int, 3, 0xC9B9BD866E2F1D33int, 368, 64, 0x9EF5326091A1013Cint);
    lemma_chain_lower(0x3E1F38396C8255int, 3, 0xC9B9BD866E2F5122int, 368, 64, 0x9EF5326091A15314int);
    assert(0x9EF5326091A1013Cint * 0x9EF5326091A1013Cint <= 0xC5672A115506B206int * 0x8000000000000000int);
    assert(0xC5672A1155077D4Cint * 0x8000000000000000int <= 0x9EF5326091A15314int * 0x9EF5326091A15314int);
    lemma_chain_upper(0x3E1F38396C8253int, 4, 0x9EF5326091A1013Cint, 800, 63, 0xC5672A115506B206int);
    lemma_chain_lower(0x3E1F38396C8255int, 4, 0x9EF5326091A15314int, 800, 63, 0xC5672A1155077D4Cint);
    assert(0xC5672A115506B206int * 0xC5672A115506B206int <= 0x9837F0518DB86A74int * 0x10000000000000000int);
    assert(0x9837F0518DB9A3F0int * 0x10000000000000000int <= 0xC5672A1155077D4Cint * 0xC5672A1155077D4Cint);
    lemma_chain_upper(0x3E1F38396C8253int, 5, 0xC5672A115506B206int, 1663, 64, 0x9837F0518DB86A74int);
    lemma_chain_lower(0x3E1F38396C8255int, 5, 0xC5672A1155077D4Cint, 1663, 64, 0x9837F0518DB9A3F0int);
    assert(0x9837F0518DB86A74int * 0x9837F0518DB86A74int <= 0xB504F333F9DDCEB9int * 0x8000000000000000int);
    assert(0xB504F333F9E0B851int * 0x8000000000000000int <= 0x9837F0518DB9A3F0int * 0x9837F0518DB9A3F0int);
    lemma_chain_upper(0x3E1F38396C8253int, 6, 0x9837F0518DB86A74int, 3390, 63, 0xB504F333F9DDCEB9int);
    lemma_chain_lower(0x3E1F38396C8255int, 6, 0x9837F0518DB9A3F0int, 3390, 63, 0xB504F333F9E0B851int);
    assert(0xB504F333F9DDCEB9int * 0xB504F333F9DDCEB9int <= 0xFFFFFFFFFFFE5852int * 0x8000000000000000int);
    assert(0x1000000000006952Cint * 0x8000000000000000int <= 0xB504F333F9E0B851int * 0xB504F333F9E0B851int);
    lemma_chain_upper(0x3E1F38396C8253int, 7, 0xB504F333F9DDCEB9int, 6843, 63, 0xFFFFFFFFFFFE5852int);
    lemma_chain_lower(0x3E1F38396C8255int, 7, 0xB504F333F9E0B851int, 6843, 63, 0x1000000000006952Cint);
    lemma_chains_round(0x3FEF_0F9C_1CB6_412Au64, 245, 8, 1, 0x3E1F38396C8253int, 0x3E1F38396C8255int, 0xFFFFFFFFFFFE5852int, 0x1000000000006952Cint, 13749, 64);
}

/// Boundary 247 of schema 8, checked through its squaring chains.
proof fn rounded_8_247()
    ensures
        rounds_root(0x3FEF_3AC9_48DD_7274u64, 247, 8),
{
    lemma2_to64();
    lemma2_to64_rest();
    lemma_chain_start(0x3E759291BAE4E7int);
    lemma_chain_start(0x3E759291BAE4E9int);
    assert(0x3E759291BAE4E7int * 0x3E759291BAE4E7int <= 0xF3D28FDE3A641418int * 0x100000000000int);
    assert(0xF3D28FDE3A6423B5int * 0x100000000000int <= 0x3E759291BAE4E9int * 0x3E759291BAE4E9int);
    lemma_chain_upper(0x3E759291BAE4E7int, 0, 0x3E759291BAE4E7int, 0, 44, 0xF3D28FDE3A641418int);
    lemma_chain_lower(0x3E759291BAE4E9int, 0, 0x3E759291BAE4E9int, 0, 44, 0xF3D28FDE3A6423B5int);
    assert(0xF3D28FDE3A641418int * 0xF3D28FDE3A641418int <= 0xE8396A503C4BD07Cint * 0x10000000000000000int);
    assert(0xE8396A503C4BEE39int * 0x10000000000000000int <= 0xF3D28FDE3A6423B5int * 0xF3D28FDE3A6423B5int);
    lemma_chain_upper(0x3E759291BAE4E7int, 1, 0xF3D28FDE3A641418int, 44, 64, 0xE8396A503C4BD07Cint);
    lemma_chain_lower(0x3E759291BAE4E9int, 1, 0xF3D28FDE3A6423B5int, 44, 64, 0xE8396A503C4BEE39int);
    assert(0xE8396A503C4BD07Cint * 0xE8396A503C4BD07Cint <= 0xD2A81D91F12ACEB9int * 0x10000000000000000int);
    assert(0xD2A81D91F12B04ACint * 0x10000000000000000int <= 0xE8396A503C4BEE39int * 0xE8396A503C4BEE39int);
    lemma_chain_upper(0x3E759291BAE4E7int, 2, 0xE8396A503C4BD07Cint, 152, 64, 0xD2A81D91F12ACEB9int);
    lemma_chain_lower(0x3E759291BAE4E9int, 2, 0xE8396A503C4BEE39int, 152, 64, 0xD2A81D91F12B04ACint);
    assert(0xD2A81D91F12ACEB9int * 0xD2A81D91F12ACEB9int <= 0xAD583EEA42A1272Eint * 0x10000000000000000int);
    assert(0xAD583EEA42A17FF7int * 0x10000000000000000int <= 0xD2A81D91F12B04ACint * 0xD2A81D91F12B04ACint);
    lemma_chain_upper(0x3E759291BAE4E7int, 3, 0xD2A81D91F12ACEB9int, 368, 64, 0xAD583EEA42A1272Eint);
    lemma_chain_lower(0x3E759291BAE4E9int, 3, 0xD2A81D91F12B04ACint, 368, 64, 0xAD583EEA42A17FF7int);
    assert(0xAD583EEA42A1272Eint * 0xAD583EEA42A1272Eint <= 0xEAC0C6E7DD23D8C7int * 0x8000000000000000int);
    assert(0xEAC0C6E7DD24C93Fint * 0x8000000000000000int <= 0xAD583EEA42A17FF7int * 0xAD583EEA42A17FF7int);
    lemma_chain_upper(0x3E759291BAE4E7int, 4, 0xAD583EEA42A1272Eint, 800, 63, 0xEAC0C6E7DD23D8C7int);
    lemma_chain_lower(0x3E759291BAE4E9int, 4, 0xAD583EEA42A17FF7int, 800, 63, 0xEAC0C6E7DD24C93Fint);
    assert(0xEAC0C6E7DD23D8C7int * 0xEAC0C6E7DD23D8C7int <= 0xD744FCCAD69CBA26int * 0x10000000000000000int);
    assert(0xD744FCCAD69E732Aint * 0x10000000000000000int <= 0xEAC0C6E7DD24C93Fint * 0xEAC0C6E7DD24C93Fint);
    lemma_chain_upper(0x3E759291BAE4E7int, 5, 0xEAC0C6E7DD23D8C7int, 1663, 64, 0xD744FCCAD69CBA26int);
    lemma_chain_lower(0x3E759291BAE4E9int, 5, 0xEAC0C6E7DD24C93Fint, 1663, 64, 0xD744FCCAD69E732Aint);
    assert(0xD744FCCAD69CBA26int * 0xD744FCCAD69CBA26int <= 0xB504F333F9DD3B2Bint * 0x10000000000000000int);
    assert(0xB504F333F9E020DDint * 0x10000000000000000int <= 0xD744FCCAD69E732Aint * 0xD744FCCAD69E732Aint);
    lemma_chain_upper(0x3E759291BAE4E7int, 6, 0xD744FCCAD69CBA26int, 3390, 64, 0xB504F333F9DD3B2Bint);
    lemma_chain_lower(0x3E759291BAE4E9int, 6, 0xD744FCCAD69E732Aint, 3390, 64, 0xB504F333F9E020DDint);
    assert(0xB504F333F9DD3B2Bint * 0xB504F333F9DD3B2Bint <= 0xFFFFFFFFFFFCB6F9int * 0x8000000000000000int);
    assert(0x1000000000004E8CDint * 0x8000000000000000int <= 0xB504F333F9E020DDint * 0xB504F333F9E020DDint);
    lemma_chain_upper(0x3E759291BAE4E7int, 7, 0xB504F333F9DD3B2Bint, 6844, 63, 0xFFFFFFFFFFFCB6F9int);
    lemma_chain_lower(0x3E759291BAE4E9int, 7, 0xB504F333F9E020DDint, 6844, 63, 0x1000000000004E8CDint);
    lemma_chains_round(0x3FEF_3AC9_48DD_7274u64, 247, 8, 1, 0x3E759291BAE4E7int, 0x3E759291BAE4E9int, 0xFFFFFFFFFFFCB6F9int, 0x1000000000004E8CDint, 13751, 64);
}

/// Boundary 249 of schema 8, checked through its squaring chains.
proof fn rounded_8_249()
    ensures
        rounds_root(0x3FEF_6632_7988_44F8u64, 249, 8),
{
    lemma2_to64();
    lemma2_to64_rest();
    lemma_chain_start(0x3ECC64F31089EFint);
    lemma_chain_start(0x3ECC64F31089F1int);
    assert(0x3ECC64F31089EFint * 0x3ECC64F31089EFint <= 0xF67A416C733F74D2int * 0x100000000000int);
    assert(0xF67A416C733F8484int * 0x100000000000int <= 0x3ECC64F31089F1int * 0x3ECC64F31089F1int);
    lemma_chain_upper(0x3ECC64F31089EFint, 0, 0x3ECC64F31089EFint, 0, 44, 0xF67A416C733F74D2int);
    lemma_chain_lower(0x3ECC64F31089F1int, 0, 0x3ECC64F31089F1int, 0, 44, 0xF67A416C733F8484int);
    assert(0xF67A416C733F74D2int * 0xF67A416C733F74D2int <= 0xED4F301ED9940D77int * 0x10000000000000000int);
    assert(0xED4F301ED9942BAFint * 0x10000000000000000int <= 0xF67A416C733F8484int * 0xF67A416C733F8484int);
    lemma_chain_upper(0x3ECC64F31089EFint, 1, 0xF67A416C733F74D2int, 44, 64, 0xED4F301ED9940D77int);
    lemma_chain_lower(0x3ECC64F31089F1int, 1, 0xF67A416C733F8484int, 44, 64, 0xED4F301ED9942BAFint);
    assert(0xED4F301ED9940D77int * 0xED4F301ED9940D77int <= 0xDBFBB797DAF1FF9Eint * 0x10000000000000000int);
    assert(0xDBFBB797DAF237A4int * 0x10000000000000000int <= 0xED4F301ED9942BAFint * 0xED4F301ED9942BAFint);
    lemma_chain_upper(0x3ECC64F31089EFint, 2, 0xED4F301ED9940D77int, 152, 64, 0xDBFBB797DAF1FF9Eint);
    lemma_chain_lower(0x3ECC64F31089F1int, 2, 0xED4F301ED9942BAFint, 152, 64, 0xDBFBB797DAF237A4int);
    assert(0xDBFBB797DAF1FF9Eint * 0xDBFBB797DAF1FF9Eint <= 0xBD08A39F580BD6FEint * 0x10000000000000000int);
    assert(0xBD08A39F580C3746int * 0x10000000000000000int <= 0xDBFBB797DAF237A4int * 0xDBFBB797DAF237A4int);
    lemma_chain_upper(0x3ECC64F31089EFint, 3, 0xDBFBB797DAF1FF9Eint, 368, 64, 0xBD08A39F580BD6FEint);
    lemma_chain_lower(0x3ECC64F31089F1int, 3, 0xDBFBB797DAF237A4int, 368, 64, 0xBD08A39F580C3746int);
    assert(0xBD08A39F580BD6FEint * 0xBD08A39F580BD6FEint <= 0x8B95C1E3EA8B497Fint * 0x10000000000000000int);
    assert(0x8B95C1E3EA8BD7AEint * 0x10000000000000000int <= 0xBD08A39F580C3746int * 0xBD08A39F580C3746int);
    lemma_chain_upper(0x3ECC64F31089EFint, 4, 0xBD08A39F580BD6FEint, 800, 64, 0x8B95C1E3EA8B497Fint);
    lemma_chain_lower(0x3ECC64F31089F1int, 4, 0xBD08A39F580C3746int, 800, 64, 0x8B95C1E3EA8BD7AEint);
    assert(0x8B95C1E3EA8B497Fint * 0x8B95C1E3EA8B497Fint <= 0x9837F0518DB77507int * 0x8000000000000000int);
    assert(0x9837F0518DB8AB21int * 0x8000000000000000int <= 0x8B95C1E3EA8BD7AEint * 0x8B95C1E3EA8BD7AEint);
    lemma_chain_upper(0x3ECC64F31089EFint, 5, 0x8B95C1E3EA8B497Fint, 1664, 63, 0x9837F0518DB77507int);
    lemma_chain_lower(0x3ECC64F31089F1int, 5, 0x8B95C1E3EA8BD7AEint, 1664, 63, 0x9837F0518DB8AB21int);
    assert(0x9837F0518DB77507int * 0x9837F0518DB77507int <= 0xB504F333F9DB8700int * 0x8000000000000000int);
    assert(0xB504F333F9DE688Bint * 0x8000000000000000int <= 0x9837F0518DB8AB21int * 0x9837F0518DB8AB21int);
    lemma_chain_upper(0x3ECC64F31089EFint, 6, 0x9837F0518DB77507int, 3391, 63, 0xB504F333F9DB8700int);
    lemma_chain_lower(0x3ECC64F31089F1int, 6, 0x9837F0518DB8AB21int, 3391, 63, 0xB504F333F9DE688Bint);
    assert(0xB504F333F9DB8700int * 0xB504F333F9DB8700int <= 0xFFFFFFFFFFF7E54Dint * 0x8000000000000000int);
    assert(0x10000000000000B63int * 0x8000000000000000int <= 0xB504F333F9DE688Bint * 0xB504F333F9DE688Bint);
    lemma_chain_upper(0x3ECC64F31089EFint, 7, 0xB504F333F9DB8700int, 6845, 63, 0xFFFFFFFFFFF7E54Dint);
    lemma_chain_lower(0x3ECC64F31089F1int, 7, 0xB504F333F9DE688Bint, 6845, 63, 0x10000000000000B63int);
    lemma_chains_round(0x3FEF_6632_7988_44F8u64, 249, 8, 1, 0x3ECC64F31089EFint, 0x3ECC64F31089F1int, 0xFFFFFFFFFFF7E54Dint, 0x10000000000000B63int, 13753, 64);
}

/// Boundary 251 of schema 8, checked through its squaring chains.
proof fn rounded_8_251()
    ensures
        rounds_root(0x3FEF_91D8_0224_3C89u64, 251, 8),
{
    lemma2_to64();
    lemma2_to64_rest();
    lemma_chain_start(0x3F23B004487911int);
    lemma_chain_start(0x3F23B004487913int);
    assert(0x3F23B004487911int * 0x3F23B004487911int <= 0xF92959BB5DD4B318int * 0x100000000000int);
    assert(0xF92959BB5DD4C2E0int * 0x100000000000int <= 0x3F23B004487913int * 0x3F23B004487913int);
    lemma_chain_upper(0x3F23B004487911int, 0, 0x3F23B004487911int, 0, 44, 0xF92959BB5DD4B318int);
    lemma_chain_lower(0x3F23B004487913int, 0, 0x3F23B004487913int, 0, 44, 0xF92959BB5DD4C2E0int);
    assert(0xF92959BB5DD4B318int * 0xF92959BB5DD4B318int <= 0xF281773C59FFA2E7int * 0x10000000000000000int);
    assert(0xF281773C59FFC19Eint * 0x10000000000000000int <= 0xF92959BB5DD4C2E0int * 0xF92959BB5DD4C2E0int);
    lemma_chain_upper(0x3F23B004487911int, 1, 0xF92959BB5DD4B318int, 44, 64, 0xF281773C59FFA2E7int);
    lemma_chain_lower(0x3F23B004487913int, 1, 0xF92959BB5DD4C2E0int, 44, 64, 0xF281773C59FFC19Eint);
    assert(0xF281773C59FFA2E7int * 0xF281773C59FFA2E7int <= 0xE5B906E77C832D85int * 0x10000000000000000int);
    assert(0xE5B906E77C8367B5int * 0x10000000000000000int <= 0xF281773C59FFC19Eint * 0xF281773C59FFC19Eint);
    lemma_chain_upper(0x3F23B004487911int, 2, 0xF281773C59FFA2E7int, 152, 64, 0xE5B906E77C832D85int);
    lemma_chain_lower(0x3F23B004487913int, 2, 0xF281773C59FFC19Eint, 152, 64, 0xE5B906E77C8367B5int);
    assert(0xE5B906E77C832D85int * 0xE5B906E77C832D85int <= 0xCE248C151F845030int * 0x10000000000000000int);
    assert(0xCE248C151F84B89Dint * 0x10000000000000000int <= 0xE5B906E77C8367B5int * 0xE5B906E77C8367B5int);
    lemma_chain_upper(0x3F23B004487911int, 3, 0xE5B906E77C832D85int, 368, 64, 0xCE248C151F845030int);
    lemma_chain_lower(0x3F23B004487913int, 3, 0xE5B906E77C8367B5int, 368, 64, 0xCE248C151F84B89Dint);
    assert(0xCE248C151F845030int * 0xCE248C151F845030int <= 0xA5FED6A9B150EA7Bint * 0x10000000000000000int);
    assert(0xA5FED6A9B15192A7int * 0x10000000000000000int <= 0xCE248C151F84B89Dint * 0xCE248C151F84B89Dint);
    lemma_chain_upper(0x3F23B004487911int, 4, 0xCE248C151F845030int, 800, 64, 0xA5FED6A9B150EA7Bint);
    lemma_chain_lower(0x3F23B004487913int, 4, 0xCE248C151F84B89Dint, 800, 64, 0xA5FED6A9B15192A7int);
    assert(0xA5FED6A9B150EA7Bint * 0xA5FED6A9B150EA7Bint <= 0xD744FCCAD69C9F86int * 0x8000000000000000int);
    assert(0xD744FCCAD69E53B4int * 0x8000000000000000int <= 0xA5FED6A9B15192A7int * 0xA5FED6A9B15192A7int);
    lemma_chain_upper(0x3F23B004487911int, 5, 0xA5FED6A9B150EA7Bint, 1664, 63, 0xD744FCCAD69C9F86int);
    lemma_chain_lower(0x3F23B004487913int, 5, 0xA5FED6A9B15192A7int, 1664, 63, 0xD744FCCAD69E53B4int);
    assert(0xD744FCCAD69C9F86int * 0xD744FCCAD69C9F86int <= 0xB504F333F9DD0E64int * 0x10000000000000000int);
    assert(0xB504F333F9DFEBF3int * 0x10000000000000000int <= 0xD744FCCAD69E53B4int * 0xD744FCCAD69E53B4int);
    lemma_chain_upper(0x3F23B004487911int, 6, 0xD744FCCAD69C9F86int, 3391, 64, 0xB504F333F9DD0E64int);
    lemma_chain_lower(0x3F23B004487913int, 6, 0xD744FCCAD69E53B4int, 3391, 64, 0xB504F333F9DFEBF3int);
    assert(0xB504F333F9DD0E64int * 0xB504F333F9DD0E64int <= 0xFFFFFFFFFFFC3853int * 0x8000000000000000int);
    assert(0x10000000000045323int * 0x8000000000000000int <= 0xB504F333F9DFEBF3int * 0xB504F333F9DFEBF3int);
    lemma_chain_upper(0x3F23B004487911int, 7, 0xB504F333F9DD0E64int, 6846, 63, 0xFFFFFFFFFFFC3853int);
    lemma_chain_lower(0x3F23B004487913int, 7, 0xB504F333F9DFEBF3int, 6846, 63, 0x10000000000045323int);
    lemma_chains_round(0x3FEF_91D8_0224_3C89u64, 251, 8, 1, 0x3F23B004487911int, 0x3F23B004487913int, 0xFFFFFFFFFFFC3853int, 0x10000000000045323int, 13755, 64);
}

/// Boundary 253 of schema 8, checked through its squaring chains.
proof fn rounded_8_253()
    ensures
        rounds_root(0x3FEF_BDBA_3692_D514u64, 253, 8),
{
    lemma2_to64();
    lemma2_to64_rest();
    lemma_chain_start(0x3F7B746D25AA27int);
    lemma_chain_start(0x3F7B746D25AA29int);
    assert(0x3F7B746D25AA27int * 0x3F7B746D25AA27int <= 0xFBDFED6CE5F095EDint * 0x100000000000int);
    assert(0xFBDFED6CE5F0A5CBint * 0x100000000000int <= 0x3F7B746D25AA29int * 0x3F7B746D25AA29int);
    lemma_chain_upper(0x3F7B746D25AA27int, 0, 0x3F7B746D25AA27int, 0, 44, 0xFBDFED6CE5F095EDint);
    lemma_chain_lower(0x3F7B746D25AA29int, 0, 0x3F7B746D25AA29int, 0, 44, 0xFBDFED6CE5F0A5CBint);
    assert(0xFBDFED6CE5F095EDint * 0xFBDFED6CE5F095EDint <= 0xF7D0DF730AD12F37int * 0x10000000000000000int);
    assert(0xF7D0DF730AD14E6Fint * 0x10000000000000000int <= 0xFBDFED6CE5F0A5CBint * 0xFBDFED6CE5F0A5CBint);
    lemma_chain_upper(0x3F7B746D25AA27int, 1, 0xFBDFED6CE5F095EDint, 44, 64, 0xF7D0DF730AD12F37int);
    lemma_chain_lower(0x3F7B746D25AA29int, 1, 0xFBDFED6CE5F0A5CBint, 44, 64, 0xF7D0DF730AD14E6Fint);
    assert(0xF7D0DF730AD12F37int * 0xF7D0DF730AD12F37int <= 0xEFE4B99BDCDADD95int * 0x10000000000000000int);
    assert(0xEFE4B99BDCDB1A05int * 0x10000000000000000int <= 0xF7D0DF730AD14E6Fint * 0xF7D0DF730AD14E6Fint);
    lemma_chain_upper(0x3F7B746D25AA27int, 2, 0xF7D0DF730AD12F37int, 152, 64, 0xEFE4B99BDCDADD95int);
    lemma_chain_lower(0x3F7B746D25AA29int, 2, 0xF7D0DF730AD14E6Fint, 152, 64, 0xEFE4B99BDCDB1A05int);
    assert(0xEFE4B99BDCDADD95int * 0xEFE4B99BDCDADD95int <= 0xE0CCDEEC2A94B3B1int * 0x10000000000000000int);
    assert(0xE0CCDEEC2A9524F5int * 0x10000000000000000int <= 0xEFE4B99BDCDB1A05int * 0xEFE4B99BDCDB1A05int);
    lemma_chain_upper(0x3F7B746D25AA27int, 3, 0xEFE4B99BDCDADD95int, 368, 64, 0xE0CCDEEC2A94B3B1int);
    lemma_chain_lower(0x3F7B746D25AA29int, 3, 0xEFE4B99BDCDB1A05int, 368, 64, 0xE0CCDEEC2A9524F5int);
    assert(0xE0CCDEEC2A94B3B1int * 0xE0CCDEEC2A94B3B1int <= 0xC5672A1155068B2Dint * 0x10000000000000000int);
    assert(0xC5672A1155075218int * 0x10000000000000000int <= 0xE0CCDEEC2A9524F5int * 0xE0CCDEEC2A9524F5int);
    lemma_chain_upper(0x3F7B746D25AA27int, 4, 0xE0CCDEEC2A94B3B1int, 800, 64, 0xC5672A1155068B2Dint);
    lemma_chain_lower(0x3F7B746D25AA29int, 4, 0xE0CCDEEC2A9524F5int, 800, 64, 0xC5672A1155075218int);
    assert(0xC5672A1155068B2Dint * 0xC5672A1155068B2Dint <= 0x9837F0518DB82E8Aint * 0x10000000000000000int);
    assert(0x9837F0518DB9614Fint * 0x10000000000000000int <= 0xC5672A1155075218int * 0xC5672A1155075218int);
    lemma_chain_upper(0x3F7B746D25AA27int, 5, 0xC5672A1155068B2Dint, 1664, 64, 0x9837F0518DB82E8Aint);
    lemma_chain_lower(0x3F7B746D25AA29int, 5, 0xC5672A1155075218int, 1664, 64, 0x9837F0518DB9614Fint);
    assert(0x9837F0518DB82E8Aint * 0x9837F0518DB82E8Aint <= 0xB504F333F9DD4039int * 0x8000000000000000int);
    assert(0xB504F333F9E019D8int * 0x8000000000000000int <= 0x9837F0518DB9614Fint * 0x9837F0518DB9614Fint);
    lemma_chain_upper(0x3F7B746D25AA27int, 6, 0x9837F0518DB82E8Aint, 3392, 63, 0xB504F333F9DD4039int);
    lemma_chain_lower(0x3F7B746D25AA29int, 6, 0x9837F0518DB9614Fint, 3392, 63, 0xB504F333F9E019D8int);
    assert(0xB504F333F9DD4039int * 0xB504F333F9DD4039int <= 0xFFFFFFFFFFFCC545int * 0x8000000000000000int);
    assert(0x1000000000004D4F2int * 0x8000000000000000int <= 0xB504F333F9E019D8int * 0xB504F333F9E019D8int);
    lemma_chain_upper(0x3F7B746D25AA27int, 7, 0xB504F333F9DD4039int, 6847, 63, 0xFFFFFFFFFFFCC545int);
    lemma_chain_lower(0x3F7B746D25AA29int, 7, 0xB504F333F9E019D8int, 6847, 63, 0x1000000000004D4F2int);
    lemma_chains_round(0x3FEF_BDBA_3692_D514u64, 253, 8, 1, 0x3F7B746D25AA27int, 0x3F7B746D25AA29int, 0xFFFFFFFFFFFCC545int, 0x1000000000004D4F2int, 13757, 64);
}

/// Boundary 255 of schema 8, checked through its squaring chains.
proof fn rounded_8_255()
    ensures
        rounds_root(0x3FEF_E9D9_6B2A_23D9u64, 255, 8),
{
    lemma2_to64();
    lemma2_to64_rest();
    lemma_chain_start(0x3FD3B2D65447B1int);
    lemma_chain_start(0x3FD3B2D65447B3int);
    assert(0x3FD3B2D65447B1int * 0x3FD3B2D65447B1int <= 0xFE9E115C7B8F7F08int * 0x100000000000int);
    assert(0xFE9E115C7B8F8EFCint * 0x100000000000int <= 0x3FD3B2D65447B3int * 0x3FD3B2D65447B3int);
    lemma_chain_upper(0x3FD3B2D65447B1int, 0, 0x3FD3B2D65447B1int, 0, 44, 0xFE9E115C7B8F7F08int);
    lemma_chain_lower(0x3FD3B2D65447B3int, 0, 0x3FD3B2D65447B3int, 0, 44, 0xFE9E115C7B8F8EFCint);
    assert(0xFE9E115C7B8F7F08int * 0xFE9E115C7B8F7F08int <= 0xFD3E0C0CF486AF07int * 0x10000000000000000int);
    assert(0xFD3E0C0CF486CEC2int * 0x10000000000000000int <= 0xFE9E115C7B8F8EFCint * 0xFE9E115C7B8F8EFCint);
    lemma_chain_upper(0x3FD3B2D65447B1int, 1, 0xFE9E115C7B8F7F08int, 44, 64, 0xFD3E0C0CF486AF07int);
    lemma_chain_lower(0x3FD3B2D65447B3int, 1, 0xFE9E115C7B8F8EFCint, 44, 64, 0xFD3E0C0CF486CEC2int);
    assert(0xFD3E0C0CF486AF07int * 0xFD3E0C0CF486AF07int <= 0xFA83B2DB7229DEC6int * 0x10000000000000000int);
    assert(0xFA83B2DB722A1D8Cint * 0x10000000000000000int <= 0xFD3E0C0CF486CEC2int * 0xFD3E0C0CF486CEC2int);
    lemma_chain_upper(0x3FD3B2D65447B1int, 2, 0xFD3E0C0CF486AF07int, 152, 64, 0xFA83B2DB7229DEC6int);
    lemma_chain_lower(0x3FD3B2D65447B3int, 2, 0xFD3E0C0CF486CEC2int, 152, 64, 0xFA83B2DB722A1D8Cint);
    assert(0xFA83B2DB7229DEC6int * 0xFA83B2DB7229DEC6int <= 0xF5257D15248684D4int * 0x10000000000000000int);
    assert(0xF5257D152486FFAEint * 0x10000000000000000int <= 0xFA83B2DB722A1D8Cint * 0xFA83B2DB722A1D8Cint);
    lemma_chain_upper(0x3FD3B2D65447B1int, 3, 0xFA83B2DB7229DEC6int, 368, 64, 0xF5257D15248684D4int);
    lemma_chain_lower(0x3FD3B2D65447B3int, 3, 0xFA83B2DB722A1D8Cint, 368, 64, 0xF5257D152486FFAEint);
    assert(0xF5257D15248684D4int * 0xF5257D15248684D4int <= 0xEAC0C6E7DD23B08Bint * 0x10000000000000000int);
    assert(0xEAC0C6E7DD249BD3int * 0x10000000000000000int <= 0xF5257D152486FFAEint * 0xF5257D152486FFAEint);
    lemma_chain_upper(0x3FD3B2D65447B1int, 4, 0xF5257D15248684D4int, 800, 64, 0xEAC0C6E7DD23B08Bint);
    lemma_chain_lower(0x3FD3B2D65447B3int, 4, 0xF5257D152486FFAEint, 800, 64, 0xEAC0C6E7DD249BD3int);
    assert(0xEAC0C6E7DD23B08Bint * 0xEAC0C6E7DD23B08Bint <= 0xD744FCCAD69C705Bint * 0x10000000000000000int);
    assert(0xD744FCCAD69E1FDCint * 0x10000000000000000int <= 0xEAC0C6E7DD249BD3int * 0xEAC0C6E7DD249BD3int);
    lemma_chain_upper(0x3FD3B2D65447B1int, 5, 0xEAC0C6E7DD23B08Bint, 1664, 64, 0xD744FCCAD69C705Bint);
    lemma_chain_lower(0x3FD3B2D65447B3int, 5, 0xEAC0C6E7DD249BD3int, 1664, 64, 0xD744FCCAD69E1FDCint);
    assert(0xD744FCCAD69C705Bint * 0xD744FCCAD69C705Bint <= 0xB504F333F9DCBF10int * 0x10000000000000000int);
    assert(0xB504F333F9DF94C3int * 0x10000000000000000int <= 0xD744FCCAD69E1FDCint * 0xD744FCCAD69E1FDCint);
    lemma_chain_upper(0x3FD3B2D65447B1int, 6, 0xD744FCCAD69C705Bint, 3392, 64, 0xB504F333F9DCBF10int);
    lemma_chain_lower(0x3FD3B2D65447B3int, 6, 0xD744FCCAD69E1FDCint, 3392, 64, 0xB504F333F9DF94C3int);
    assert(0xB504F333F9DCBF10int * 0xB504F333F9DCBF10int <= 0xFFFFFFFFFFFB57F3int * 0x8000000000000000int);
    assert(0x10000000000035C88int * 0x8000000000000000int <= 0xB504F333F9DF94C3int * 0xB504F333F9DF94C3int);
    lemma_chain_upper(0x3FD3B2D65447B1int, 7, 0xB504F333F9DCBF10int, 6848, 63, 0xFFFFFFFFFFFB57F3int);
    lemma_chain_lower(0x3FD3B2D65447B3int, 7, 0xB504F333F9DF94C3int, 6848, 63, 0x10000000000035C88int);
    lemma_chains_round(0x3FEF_E9D9_6B2A_23D9u64, 255, 8, 1, 0x3FD3B2D65447B1int, 0x3FD3B2D65447B3int, 0xFFFFFFFFFFFB57F3int, 0x10000000000035C88int, 13759, 64);
}

/// The boundaries of schema 8 at odd positions are the nearest doubles.
proof fn lemma_rounded_odd_8(k: int)
    requires
        0 <= k < 256,
        k % 2 == 1,
    ensures
        near_root(bounds_of(8)[k], k, 8),
        rounds_root(bounds_of(8)[k], k, 8),
{
    reveal(bounds_of);
    if k == 1 {
        rounded_8_1();
        lemma_close_to_root_widen(bounds_of(8)[k], k, 8, 1, 8);
    } else if k == 3 {
        rounded_8_3();
        lemma_close_to_root_widen(bounds_of(8)[k], k, 8, 1, 8);
    } else if k == 5 {
        rounded_8_5();
        lemma_close_to_root_widen(bounds_of(8)[k], k, 8, 1, 8);
    } else if k == 7 {
        rounded_8_7();
        lemma_close_to_root_widen(bounds_of(8)[k], k, 8, 1, 8);
    } else if k == 9 {
        rounded_8_9();
        lemma_close_to_root_widen(bounds_of(8)[k], k, 8, 1, 8);
    } else if k == 11 {
        rounded_8_11();
        lemma_close_to_root_widen(bounds_of(8)[k], k, 8, 1, 8);
    } else if k == 13 {
        rounded_8_13();
        lemma_close_to_root_widen(bounds_of(8)[k], k, 8, 1, 8);
    } else if k == 15 {
        rounded_8_15();
        lemma_close_to_root_widen(bounds_of(8)[k], k, 8, 1, 8);
    } else if k == 17 {
        rounded_8_17();
        lemma_close_to_root_widen(bounds_of(8)[k], k, 8, 1, 8);
    } else if k == 19 {
        rounded_8_19();
        lemma_close_to_root_widen(bounds_of(8)[k], k, 8, 1, 8);
    } else if k == 21 {
        rounded_8_21();
        lemma_close_to_root_widen(bounds_of(8)[k], k, 8, 1, 8);
    } else if k == 23 {
        rounded_8_23();
        lemma_close_to_root_widen(bounds_of(8)[k], k, 8, 1, 8);
    } else if k == 25 {
        rounded_8_25();
        lemma_close_to_root_widen(bounds_of(8)[k], k, 8, 1, 8);
    } else if k == 27 {
        rounded_8_27();
        lemma_close_to_root_widen(bounds_of(8)[k], k, 8, 1, 8);
    } else if k == 29 {
        rounded_8_29();
        lemma_close_to_root_widen(bounds_of(8)[k], k, 8, 1, 8);
    } else if k == 31 {
        rounded_8_31();
        lemma_close_to_root_widen(bounds_of(8)[k], k, 8, 1, 8);
    } else if k == 33 {
        rounded_8_33();
        lemma_close_to_root_widen(bounds_of(8)[k], k, 8, 1, 8);
    } else if k == 35 {
        rounded_8_35();
        lemma_close_to_root_widen(bounds_of(8)[k], k, 8, 1, 8);
    } else if k == 37 {
        rounded_8_37();
        lemma_close_to_root_widen(bounds_of(8)[k], k, 8, 1, 8);
    } else if k == 39 {
        rounded_8_39();
        lemma_close_to_root_widen(bounds_of(8)[k], k, 8, 1, 8);
    } else if k == 41 {
        rounded_8_41();
        lemma_close_to_root_widen(bounds_of(8)[k], k, 8, 1, 8);
    } else if k == 43 {
        rounded_8_43();
        lemma_close_to_root_widen(bounds_of(8)[k], k, 8, 1, 8);
    } else if k == 45 {
        rounded_8_45();
        lemma_close_to_root_widen(bounds_of(8)[k], k, 8, 1, 8);
    } else if k == 47 {
        rounded_8_47();
        lemma_close_to_root_widen(bounds_of(8)[k], k, 8, 1, 8);
    } else if k == 49 {
        rounded_8_49();
        lemma_close_to_root_widen(bounds_of(8)[k], k, 8, 1, 8);
    } else if k == 51 {
        rounded_8_51();
        lemma_close_to_root_widen(bounds_of(8)[k], k, 8, 1, 8);
    } else if k == 53 {
        rounded_8_53();
        lemma_close_to_root_widen(bounds_of(8)[k], k, 8, 1, 8);
    } else if k == 55 {
        rounded_8_55();
        lemma_close_to_root_widen(bounds_of(8)[k], k, 8, 1, 8);
    } else if k == 57 {
        rounded_8_57();
        lemma_close_to_root_widen(bounds_of(8)[k], k, 8, 1, 8);
    } else if k == 59 {
        rounded_8_59();
        lemma_close_to_root_widen(bounds_of(8)[k], k, 8, 1, 8);
    } else if k == 61 {
        rounded_8_61();
        lemma_close_to_root_widen(bounds_of(8)[k], k, 8, 1, 8);
    } else if k == 63 {
        rounded_8_63();
        lemma_close_to_root_widen(bounds_of(8)[k], k, 8, 1, 8);
    } else if k == 65 {
        rounded_8_65();
        lemma_close_to_root_widen(bounds_of(8)[k], k, 8, 1, 8);
    } else if k == 67 {
        rounded_8_67();
        lemma_close_to_root_widen(bounds_of(8)[k], k, 8, 1, 8);
    } else if k == 69 {
        rounded_8_69();
        lemma_close_to_root_widen(bounds_of(8)[k], k, 8, 1, 8);
    } else if k == 71 {
        rounded_8_71();
        lemma_close_to_root_widen(bounds_of(8)[k], k, 8, 1, 8);
    } else if k == 73 {
        rounded_8_73();
        lemma_close_to_root_widen(bounds_of(8)[k], k, 8, 1, 8);
    } else if k == 75 {
        rounded_8_75();
        lemma_close_to_root_widen(bounds_of(8)[k], k, 8, 1, 8);
    } else if k == 77 {
        rounded_8_77();
        lemma_close_to_root_widen(bounds_of(8)[k], k, 8, 1, 8);
    } else if k == 79 {
        rounded_8_79();
        lemma_close_to_root_widen(bounds_of(8)[k], k, 8, 1, 8);
    } else if k == 81 {
        rounded_8_81();
        lemma_close_to_root_widen(bounds_of(8)[k], k, 8, 1, 8);
    } else if k == 83 {
        rounded_8_83();
        lemma_close_to_root_widen(bounds_of(8)[k], k, 8, 1, 8);
    } else if k == 85 {
        rounded_8_85();
        lemma_close_to_root_widen(bounds_of(8)[k], k, 8, 1, 8);
    } else if k == 87 {
        rounded_8_87();
        lemma_close_to_root_widen(bounds_of(8)[k], k, 8, 1, 8);
    } else if k == 89 {
        rounded_8_89();
        lemma_close_to_root_widen(bounds_of(8)[k], k, 8, 1, 8);
    } else if k == 91 {
        rounded_8_91();
        lemma_close_to_root_widen(bounds_of(8)[k], k, 8, 1, 8);
    } else if k == 93 {
        rounded_8_93();
        lemma_close_to_root_widen(bounds_of(8)[k], k, 8, 1, 8);
    } else if k == 95 {
        rounded_8_95();
        lemma_close_to_root_widen(bounds_of(8)[k], k, 8, 1, 8);
    } else if k == 97 {
        rounded_8_97();
        lemma_close_to_root_widen(bounds_of(8)[k], k, 8, 1, 8);
    } else if k == 99 {
        rounded_8_99();
        lemma_close_to_root_widen(bounds_of(8)[k], k, 8, 1, 8);
    } else if k == 101 {
        rounded_8_101();
        lemma_close_to_root_widen(bounds_of(8)[k], k, 8, 1, 8);
    } else if k == 103 {
        rounded_8_103();
        lemma_close_to_root_widen(bounds_of(8)[k], k, 8, 1, 8);
    } else if k == 105 {
        rounded_8_105();
        lemma_close_to_root_widen(bounds_of(8)[k], k, 8, 1, 8);
    } else if k == 107 {
        rounded_8_107();
        lemma_close_to_root_widen(bounds_of(8)[k], k, 8, 1, 8);
    } else if k == 109 {
        rounded_8_109();
        lemma_close_to_root_widen(bounds_of(8)[k], k, 8, 1, 8);
    } else if k == 111 {
        rounded_8_111();
        lemma_close_to_root_widen(bounds_of(8)[k], k, 8, 1, 8);
    } else if k == 113 {
        rounded_8_113();
        lemma_close_to_root_widen(bounds_of(8)[k], k, 8, 1, 8);
    } else if k == 115 {
        rounded_8_115();
        lemma_close_to_root_widen(bounds_of(8)[k], k, 8, 1, 8);
    } else if k == 117 {
        rounded_8_117();
        lemma_close_to_root_widen(bounds_of(8)[k], k, 8, 1, 8);
    } else if k == 119 {
        rounded_8_119();
        lemma_close_to_root_widen(bounds_of(8)[k], k, 8, 1, 8);
    } else if k == 121 {
        rounded_8_121();
        lemma_close_to_root_widen(bounds_of(8)[k], k, 8, 1, 8);
    } else if k == 123 {
        rounded_8_123();
        lemma_close_to_root_widen(bounds_of(8)[k], k, 8, 1, 8);
    } else if k == 125 {
        rounded_8_125();
        lemma_close_to_root_widen(bounds_of(8)[k], k, 8, 1, 8);
    } else if k == 127 {
        rounded_8_127();
        lemma_close_to_root_widen(bounds_of(8)[k], k, 8, 1, 8);
    } else if k == 129 {
        rounded_8_129();
        lemma_close_to_root_widen(bounds_of(8)[k], k, 8, 1, 8);
    } else if k == 131 {
        rounded_8_131();
        lemma_close_to_root_widen(bounds_of(8)[k], k, 8, 1, 8);
    } else if k == 133 {
        rounded_8_133();
        lemma_close_to_root_widen(bounds_of(8)[k], k, 8, 1, 8);
    } else if k == 135 {
        rounded_8_135();
        lemma_close_to_root_widen(bounds_of(8)[k], k, 8, 1, 8);
    } else if k == 137 {
        rounded_8_137();
        lemma_close_to_root_widen(bounds_of(8)[k], k, 8, 1, 8);
    } else if k == 139 {
        rounded_8_139();
        lemma_close_to_root_widen(bounds_of(8)[k], k, 8, 1, 8);
    } else if k == 141 {
        rounded_8_141();
        lemma_close_to_root_widen(bounds_of(8)[k], k, 8, 1, 8);
    } else if k == 143 {
        rounded_8_143();
        lemma_close_to_root_widen(bounds_of(8)[k], k, 8, 1, 8);
    } else if k == 145 {
        rounded_8_145();
        lemma_close_to_root_widen(bounds_of(8)[k], k, 8, 1, 8);
    } else if k == 147 {
        rounded_8_147();
        lemma_close_to_root_widen(bounds_of(8)[k], k, 8, 1, 8);
    } else if k == 149 {
        rounded_8_149();
        lemma_close_to_root_widen(bounds_of(8)[k], k, 8, 1, 8);
    } else if k == 151 {
        rounded_8_151();
        lemma_close_to_root_widen(bounds_of(8)[k], k, 8, 1, 8);
    } else if k == 153 {
        rounded_8_153();
        lemma_close_to_root_widen(bounds_of(8)[k], k, 8, 1, 8);
    } else if k == 155 {
        rounded_8_155();
        lemma_close_to_root_widen(bounds_of(8)[k], k, 8, 1, 8);
    } else if k == 157 {
        rounded_8_157();
        lemma_close_to_root_widen(bounds_of(8)[k], k, 8, 1, 8);
    } else if k == 159 {
        rounded_8_159();
        lemma_close_to_root_widen(bounds_of(8)[k], k, 8, 1, 8);
    } else if k == 161 {
        rounded_8_161();
        lemma_close_to_root_widen(bounds_of(8)[k], k, 8, 1, 8);
    } else if k == 163 {
        rounded_8_163();
        lemma_close_to_root_widen(bounds_of(8)[k], k, 8, 1, 8);
    } else if k == 165 {
        rounded_8_165();
        lemma_close_to_root_widen(bounds_of(8)[k], k, 8, 1, 8);
    } else if k == 167 {
        rounded_8_167();
        lemma_close_to_root_widen(bounds_of(8)[k], k, 8, 1, 8);
    } else if k == 169 {
        rounded_8_169();
        lemma_close_to_root_widen(bounds_of(8)[k], k, 8, 1, 8);
    } else if k == 171 {
        rounded_8_171();
        lemma_close_to_root_widen(bounds_of(8)[k], k, 8, 1, 8);
    } else if k == 173 {
        rounded_8_173();
        lemma_close_to_root_widen(bounds_of(8)[k], k, 8, 1, 8);
    } else if k == 175 {
        rounded_8_175();
        lemma_close_to_root_widen(bounds_of(8)[k], k, 8, 1, 8);
    } else if k == 177 {
        rounded_8_177();
        lemma_close_to_root_widen(bounds_of(8)[k], k, 8, 1, 8);
    } else if k == 179 {
        rounded_8_179();
        lemma_close_to_root_widen(bounds_of(8)[k], k, 8, 1, 8);
    } else if k == 181 {
        rounded_8_181();
        lemma_close_to_root_widen(bounds_of(8)[k], k, 8, 1, 8);
    } else if k == 183 {
        rounded_8_183();
        lemma_close_to_root_widen(bounds_of(8)[k], k, 8, 1, 8);
    } else if k == 185 {
        rounded_8_185();
        lemma_close_to_root_widen(bounds_of(8)[k], k, 8, 1, 8);
    } else if k == 187 {
        rounded_8_187();
        lemma_close_to_root_widen(bounds_of(8)[k], k, 8, 1, 8);
    } else if k == 189 {
        rounded_8_189();
        lemma_close_to_root_widen(bounds_of(8)[k], k, 8, 1, 8);
    } else if k == 191 {
        rounded_8_191();
        lemma_close_to_root_widen(bounds_of(8)[k], k, 8, 1, 8);
    } else if k == 193 {
        rounded_8_193();
        lemma_close_to_root_widen(bounds_of(8)[k], k, 8, 1, 8);
    } else if k == 195 {
        rounded_8_195();
        lemma_close_to_root_widen(bounds_of(8)[k], k, 8, 1, 8);
    } else if k == 197 {
        rounded_8_197();
        lemma_close_to_root_widen(bounds_of(8)[k], k, 8, 1, 8);
    } else if k == 199 {
        rounded_8_199();
        lemma_close_to_root_widen(bounds_of(8)[k], k, 8, 1, 8);
    } else if k == 201 {
        rounded_8_201();
        lemma_close_to_root_widen(bounds_of(8)[k], k, 8, 1, 8);
    } else if k == 203 {
        rounded_8_203();
        lemma_close_to_root_widen(bounds_of(8)[k], k, 8, 1, 8);
    } else if k == 205 {
        rounded_8_205();
        lemma_close_to_root_widen(bounds_of(8)[k], k, 8, 1, 8);
    } else if k == 207 {
        rounded_8_207();
        lemma_close_to_root_widen(bounds_of(8)[k], k, 8, 1, 8);
    } else if k == 209 {
        rounded_8_209();
        lemma_close_to_root_widen(bounds_of(8)[k], k, 8, 1, 8);
    } else if k == 211 {
        rounded_8_211();
        lemma_close_to_root_widen(bounds_of(8)[k], k, 8, 1, 8);
    } else if k == 213 {
        rounded_8_213();
        lemma_close_to_root_widen(bounds_of(8)[k], k, 8, 1, 8);
    } else if k == 215 {
        rounded_8_215();
        lemma_close_to_root_widen(bounds_of(8)[k], k, 8, 1, 8);
    } else if k == 217 {
        rounded_8_217();
        lemma_close_to_root_widen(bounds_of(8)[k], k, 8, 1, 8);
    } else if k == 219 {
        rounded_8_219();
        lemma_close_to_root_widen(bounds_of(8)[k], k, 8, 1, 8);
    } else if k == 221 {
        rounded_8_221();
        lemma_close_to_root_widen(bounds_of(8)[k], k, 8, 1, 8);
    } else if k == 223 {
        rounded_8_223();
        lemma_close_to_root_widen(bounds_of(8)[k], k, 8, 1, 8);
    } else if k == 225 {
        rounded_8_225();
        lemma_close_to_root_widen(bounds_of(8)[k], k, 8, 1, 8);
    } else if k == 227 {
        rounded_8_227();
        lemma_close_to_root_widen(bounds_of(8)[k], k, 8, 1, 8);
    } else if k == 229 {
        rounded_8_229();
        lemma_close_to_root_widen(bounds_of(8)[k], k, 8, 1, 8);
    } else if k == 231 {
        rounded_8_231();
        lemma_close_to_root_widen(bounds_of(8)[k], k, 8, 1, 8);
    } else if k == 233 {
        rounded_8_233();
        lemma_close_to_root_widen(bounds_of(8)[k], k, 8, 1, 8);
    } else if k == 235 {
        rounded_8_235();
        lemma_close_to_root_widen(bounds_of(8)[k], k, 8, 1, 8);
    } else if k == 237 {
        rounded_8_237();
        lemma_close_to_root_widen(bounds_of(8)[k], k, 8, 1, 8);
    } else if k == 239 {
        rounded_8_239();
        lemma_close_to_root_widen(bounds_of(8)[k], k, 8, 1, 8);
    } else if k == 241 {
        rounded_8_241();
        lemma_close_to_root_widen(bounds_of(8)[k], k, 8, 1, 8);
    } else if k == 243 {
        rounded_8_243();
        lemma_close_to_root_widen(bounds_of(8)[k], k, 8, 1, 8);
    } else if k == 245 {
        rounded_8_245();
        lemma_close_to_root_widen(bounds_of(8)[k], k, 8, 1, 8);
    } else if k == 247 {
        rounded_8_247();
        lemma_close_to_root_widen(bounds_of(8)[k], k, 8, 1, 8);
    } else if k == 249 {
        rounded_8_249();
        lemma_close_to_root_widen(bounds_of(8)[k], k, 8, 1, 8);
    } else if k == 251 {
        rounded_8_251();
        lemma_close_to_root_widen(bounds_of(8)[k], k, 8, 1, 8);
    } else if k == 253 {
        rounded_8_253();
        lemma_close_to_root_widen(bounds_of(8)[k], k, 8, 1, 8);
    } else if k == 255 {
        rounded_8_255();
        lemma_close_to_root_widen(bounds_of(8)[k], k, 8, 1, 8);
    }
}

/// The boundary at an odd position `k` of a schema `1..=8` lies within four
/// units in the last place of `2^(k / 2^n - 1)`, and is the nearest double
/// for schemas 7 and 8.
proof fn lemma_rounded_odd(schema: int, k: int)
    requires
        1 <= schema <= 8,
        0 <= k < bounds_of(schema).len(),
        k % 2 == 1,
    ensures
        near_root(bounds_of(schema)[k], k, schema as nat),
        schema >= 7 ==> rounds_root(bounds_of(schema)[k], k, schema as nat),
{
    lemma2_to64();
    lemma_bounds_shape(schema);
    if schema == 1 {
        lemma_rounded_odd_1(k);
    } else if schema == 2 {
        lemma_rounded_odd_2(k);
    } else if schema == 3 {
        lemma_rounded_odd_3(k);
    } else if schema == 4 {
        lemma_rounded_odd_4(k);
    } else if schema == 5 {
        lemma_rounded_odd_5(k);
    } else if schema == 6 {
        lemma_rounded_odd_6(k);
    } else if schema == 7 {
        lemma_rounded_odd_7(k);
    } else {
        lemma_rounded_odd_8(k);
    }
}

/// Every boundary `i` of every schema `n` in `0..=8` lies within four units
/// in the last place of `2^(i / 2^n - 1)`; for schemas 7 and 8 every boundary
/// at an odd position is the double nearest to it.
pub proof fn lemma_bounds_rounded(schema: int)
    requires
        0 <= schema <= 8,
    ensures
        forall|i: int|
            0 <= i < bounds_of(schema).len() ==> #[trigger] near_root(
                bounds_of(schema)[i],
                i,
                schema as nat,
            ),
        schema >= 7 ==> forall|i: int|
            0 <= i < bounds_of(schema).len() && i % 2 == 1 ==> #[trigger] rounds_root(
                bounds_of(schema)[i],
                i,
                schema as nat,
            ),
    decreases schema,
{
    lemma2_to64();
    lemma_bounds_shape(schema);
    if schema == 0 {
        assert forall|i: int| 0 <= i < bounds_of(0).len() implies #[trigger] near_root(
            bounds_of(0)[i],
            i,
            0,
        ) by {
            rounded_0_0();
        }
    } else {
        lemma_bounds_rounded(schema - 1);
        lemma_bounds_shape(schema - 1);
        lemma_bounds_refine(schema - 1);
        let coarse = bounds_of(schema - 1);
        assert forall|k: int| 0 <= k < bounds_of(schema).len() implies #[trigger] near_root(
            bounds_of(schema)[k],
            k,
            schema as nat,
        ) by {
            if k % 2 == 0 {
                let j = k / 2;
                assert(near_root(coarse[j], j, (schema - 1) as nat));
                if j > 0 {
                    assert(coarse[0] < coarse[j]);
                }
                lemma_close_to_root_refine(coarse[j], j, (schema - 1) as nat, 8);
                assert(bounds_of(schema)[2 * j] == coarse[j]);
            } else {
                lemma_rounded_odd(schema, k);
            }
        }
        if schema >= 7 {
            assert forall|k: int| 0 <= k < bounds_of(schema).len() && k % 2 == 1 implies #[trigger] rounds_root(
                bounds_of(schema)[k],
                k,
                schema as nat,
            ) by {
                lemma_rounded_odd(schema, k);
            }
        }
    }
}

} // verus!
