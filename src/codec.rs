//! Integer codecs for SMU arguments: identity packers and the VID encoding.
use vstd::prelude::*;
use vstd::arithmetic::div_mod::{
    lemma_fundamental_div_mod, lemma_fundamental_div_mod_converse, lemma_mod_bound,
};

verus! {

/// Nearest integer to `n / d` (`d > 0`), halves rounded up.
pub open spec fn round_div(n: int, d: int) -> int {
    (2 * n + d) / (2 * d)
}

/// VID of a voltage: `round((1550 - mv) / 6.25)`, or 0 where that is not positive.
pub open spec fn vid_of_mv(mv: int) -> int {
    if mv >= 1550 {
        0
    } else {
        round_div(4 * (1550 - mv), 25)
    }
}

/// Voltage of a VID: `round(1550 - 6.25 * vid)`, or 0 where that is negative.
pub open spec fn mv_of_vid(vid: int) -> int {
    if 25 * vid > 6200 {
        0
    } else {
        round_div(6200 - 25 * vid, 4)
    }
}

/// Decodes an argument register value as an unsigned integer.
pub fn decode_u32(value: u32) -> (r: u32)
    ensures
        r == value,
{
    value
}

/// Packs an unsigned integer argument as it is.
pub fn pack_u32(value: u32) -> (r: u32)
    ensures
        r == value,
{
    value
}

/// Packs a signed 16-bit argument, sign-extended to 32 bits.
pub fn pack_s16(value: i16) -> (r: u32)
    ensures
        value >= 0 ==> r == value,
        value < 0 ==> r == 0x1_0000_0000 + value,
{
    if value >= 0 {
        value as u32
    } else {
        (0x1_0000_0000i64 + value as i64) as u32
    }
}

/// Converts millivolts to the SMU voltage ID: `round((1.55 - mv / 1000) / 0.00625)`,
/// saturating at 0 above 1550 mV.
pub fn mv_to_vid(mv: u32) -> (r: u32)
    ensures
        r == vid_of_mv(mv as int),
        r <= 248,
{
    if mv >= 1550 {
        0
    } else {
        let d: u32 = 1550 - mv;
        (8 * d + 25) / 50
    }
}

/// Converts an SMU voltage ID to millivolts: `round((1.55 - 0.00625 * vid) * 1000)`,
/// saturating at 0 for IDs above 248.
pub fn vid_to_mv(vid: u32) -> (r: u32)
    ensures
        r == mv_of_vid(vid as int),
        r <= 1550,
{
    if vid > 248 {
        0
    } else {
        (2 * (6200 - 25 * vid) + 4) / 8
    }
}

/// Every VID of the usable range `0..=88` survives the trip through millivolts.
pub proof fn lemma_vid_round_trip(vid: int)
    requires
        0 <= vid <= 88,
    ensures
        vid_of_mv(mv_of_vid(vid)) == vid,
{
    let q = vid / 4;
    let r = vid % 4;
    lemma_fundamental_div_mod(vid, 4);
    let n = 2 * (6200 - 25 * vid) + 4;
    if r == 0 {
        lemma_fundamental_div_mod_converse(n, 8, 1550 - 25 * q, 4);
        if q > 0 {
            lemma_fundamental_div_mod_converse(200 * q + 25, 50, 4 * q, 25);
        }
    } else if r == 1 {
        lemma_fundamental_div_mod_converse(n, 8, 1544 - 25 * q, 2);
        lemma_fundamental_div_mod_converse(8 * (25 * q + 6) + 25, 50, 4 * q + 1, 23);
    } else if r == 2 {
        lemma_fundamental_div_mod_converse(n, 8, 1538 - 25 * q, 0);
        lemma_fundamental_div_mod_converse(8 * (25 * q + 12) + 25, 50, 4 * q + 2, 21);
    } else {
        lemma_fundamental_div_mod_converse(n, 8, 1531 - 25 * q, 6);
        lemma_fundamental_div_mod_converse(8 * (25 * q + 19) + 25, 50, 4 * q + 3, 27);
    }
}

/// Residues of `1550 - mv` modulo 25 at which a voltage lies within 1 mV of
/// the 6.25 mV VID grid.
pub open spec fn near_vid_grid(mv: int) -> bool {
    let s = (1550 - mv) % 25;
    s == 0 || s == 1 || s == 5 || s == 6 || s == 7 || s == 11 || s == 12 || s == 13
        || s == 18 || s == 19 || s == 20 || s == 24
}

/// Between 1000 and 1550 mV, a voltage within 1 mV of the VID grid comes back
/// from the round trip through its VID within 1 mV.
pub proof fn lemma_mv_round_trip(mv: int)
    requires
        1000 <= mv <= 1550,
        near_vid_grid(mv),
    ensures
        -1 <= mv_of_vid(vid_of_mv(mv)) - mv <= 1,
{
    let d = 1550 - mv;
    lemma_fundamental_div_mod(d, 25);
    lemma_mod_bound(d, 25);
    let v = vid_of_mv(mv);
    if mv < 1550 {
        lemma_fundamental_div_mod(8 * d + 25, 50);
        lemma_mod_bound(8 * d + 25, 50);
    }
    assert(0 <= v <= 88);
    let n = 2 * (6200 - 25 * v) + 4;
    lemma_fundamental_div_mod(n, 8);
    lemma_mod_bound(n, 8);
}

} // verus!
