//! The shared single-token grammars: time group, validity period, wind,
//! wind variation, visibility, temperature pair, pressure, cloud layer,
//! runway visual range and weather phenomenon. Each grammar is written out
//! as a spec function over the token's characters, and each parser is
//! proved to return exactly what its grammar says. Unless a grammar is
//! anchored, trailing characters after the recognized prefix are ignored,
//! and a token is consumed on a prefix match alone.
use vstd::prelude::*;

use crate::text::{
    alpha, chars_has_prefix, chars_has_prefix_at, chars_string, digit, digit_val, has_prefix,
    is_alpha, is_digit, is_upper, subvec, to_chars, upper,
};
use crate::types::{
    oview, CloudAmount, CloudKind, Rvr, RvrV, Tendency, UtcTime, ValidityPeriod, VisUnit,
    Visibility, VisibilityV, Wind, WindUnit,
};

verus! {

/// `k` decimal digits stand at position `i`.
pub open spec fn digits_at(s: Seq<char>, i: int, k: int) -> bool {
    0 <= i && i + k <= s.len() && forall|t: int| i <= t < i + k ==> is_digit(#[trigger] s[t])
}

pub open spec fn val1(s: Seq<char>, i: int) -> nat {
    digit_val(s[i])
}

pub open spec fn val2(s: Seq<char>, i: int) -> nat {
    10 * digit_val(s[i]) + digit_val(s[i + 1])
}

pub open spec fn val3(s: Seq<char>, i: int) -> nat {
    100 * digit_val(s[i]) + 10 * digit_val(s[i + 1]) + digit_val(s[i + 2])
}

pub open spec fn val4(s: Seq<char>, i: int) -> nat {
    1000 * digit_val(s[i]) + 100 * digit_val(s[i + 1]) + 10 * digit_val(s[i + 2]) + digit_val(
        s[i + 3],
    )
}

fn digits_k_at(v: &Vec<char>, i: usize, k: usize) -> (b: bool)
    ensures
        b == digits_at(v@, i as int, k as int),
{
    let n = v.len();
    if i > n || n - i < k {
        return false;
    }
    let mut t: usize = 0;
    while t < k
        invariant
            n == v@.len(),
            i <= n,
            k <= n - i,
            t <= k,
            forall|u: int| i <= u < i + t ==> is_digit(#[trigger] v@[u]),
        decreases k - t,
    {
        if !digit(v[i + t]) {
            return false;
        }
        t = t + 1;
    }
    true
}

fn dval(v: &Vec<char>, i: usize) -> (r: u32)
    requires
        i < v@.len(),
        is_digit(v@[i as int]),
    ensures
        r == digit_val(v@[i as int]),
        r <= 9,
{
    v[i] as u32 - 48
}

fn val2_at(v: &Vec<char>, i: usize) -> (r: u16)
    requires
        digits_at(v@, i as int, 2),
    ensures
        r == val2(v@, i as int),
        r <= 99,
{
    proof {
        assert(v.len() == v@.len());
    }
    (10 * dval(v, i) + dval(v, i + 1)) as u16
}

fn val3_at(v: &Vec<char>, i: usize) -> (r: u16)
    requires
        digits_at(v@, i as int, 3),
    ensures
        r == val3(v@, i as int),
        r <= 999,
{
    proof {
        assert(v.len() == v@.len());
    }
    (100 * dval(v, i) + 10 * dval(v, i + 1) + dval(v, i + 2)) as u16
}

fn val4_at(v: &Vec<char>, i: usize) -> (r: u16)
    requires
        digits_at(v@, i as int, 4),
    ensures
        r == val4(v@, i as int),
        r <= 9999,
{
    proof {
        assert(v.len() == v@.len());
    }
    (1000 * dval(v, i) + 100 * dval(v, i + 1) + 10 * dval(v, i + 2) + dval(v, i + 3)) as u16
}

/// Grammar of a time group: six digits `ddhhmm`, an optional trailing `Z`
/// and anything after it ignored.
pub open spec fn time_group_s(s: Seq<char>) -> Option<UtcTime> {
    if digits_at(s, 0, 6) {
        Some(
            UtcTime {
                day: val2(s, 0) as u8,
                hour: val2(s, 2) as u8,
                minute: val2(s, 4) as u8,
            },
        )
    } else {
        None
    }
}

pub(crate) fn time_group_of(v: &Vec<char>) -> (r: Option<UtcTime>)
    ensures
        r == time_group_s(v@),
{
    if !digits_k_at(v, 0, 4) {
        return None;
    }
    if v.len() < 6 || !digits_k_at(v, 4, 2) {
        return None;
    }
    Some(UtcTime { day: val2_at(v, 0) as u8, hour: val2_at(v, 2) as u8, minute: val2_at(v, 4) as u8 })
}

/// The time group a token carries, if its prefix is one.
pub fn parse_time_group(input: &str) -> (r: Option<UtcTime>)
    ensures
        r == time_group_s(input@),
{
    let v = to_chars(input);
    time_group_of(&v)
}

/// Grammar of a validity period: `ddhh/ddhh`, minutes fixed at zero.
pub open spec fn validity_s(s: Seq<char>) -> Option<ValidityPeriod> {
    if digits_at(s, 0, 4) && 4 < s.len() && s[4] == '/' && digits_at(s, 5, 4) {
        Some(
            ValidityPeriod {
                from: UtcTime { day: val2(s, 0) as u8, hour: val2(s, 2) as u8, minute: 0 },
                to: UtcTime { day: val2(s, 5) as u8, hour: val2(s, 7) as u8, minute: 0 },
            },
        )
    } else {
        None
    }
}

pub(crate) fn validity_of(v: &Vec<char>) -> (r: Option<ValidityPeriod>)
    ensures
        r == validity_s(v@),
{
    if !digits_k_at(v, 0, 4) {
        return None;
    }
    if v.len() <= 4 || v[4] != '/' {
        return None;
    }
    if !digits_k_at(v, 5, 4) {
        return None;
    }
    Some(
        ValidityPeriod {
            from: UtcTime { day: val2_at(v, 0) as u8, hour: val2_at(v, 2) as u8, minute: 0 },
            to: UtcTime { day: val2_at(v, 5) as u8, hour: val2_at(v, 7) as u8, minute: 0 },
        },
    )
}

/// The validity period a token carries, if its prefix is one.
pub fn parse_validity(input: &str) -> (r: Option<ValidityPeriod>)
    ensures
        r == validity_s(input@),
{
    let v = to_chars(input);
    validity_of(&v)
}

/// Grammar of a wind group: `VRB` or a three-digit direction, a two- or
/// three-digit speed, an optional `G` plus a two- or three-digit gust,
/// and the unit `KT` or `MPS`. The grammar is unambiguous without
/// backtracking: neither `G` nor a unit letter is a digit, so a third
/// digit after a two-digit figure can only belong to that figure, and the
/// longer speed or gust is taken exactly when one stands there.
pub open spec fn wind_s(s: Seq<char>) -> Option<Wind> {
    if !(has_prefix(s, "VRB"@) || digits_at(s, 0, 3)) {
        None
    } else {
        let dir: Option<u16> = if has_prefix(s, "VRB"@) {
            None
        } else {
            Some(val3(s, 0) as u16)
        };
        if !digits_at(s, 3, 2) {
            None
        } else {
            let sp3 = digits_at(s, 3, 3);
            let speed: u16 = if sp3 {
                val3(s, 3) as u16
            } else {
                val2(s, 3) as u16
            };
            let i: int = if sp3 {
                6
            } else {
                5
            };
            let gusted = i < s.len() && s[i] == 'G' && digits_at(s, i + 1, 2);
            let g3 = gusted && digits_at(s, i + 1, 3);
            let gust: Option<u16> = if gusted {
                Some(
                    if g3 {
                        val3(s, i + 1) as u16
                    } else {
                        val2(s, i + 1) as u16
                    },
                )
            } else {
                None
            };
            let k: int = if gusted {
                if g3 {
                    i + 4
                } else {
                    i + 3
                }
            } else {
                i
            };
            if has_prefix(s.skip(k), "KT"@) {
                Some(
                    Wind {
                        direction_deg: dir,
                        variable: dir is None,
                        speed,
                        gust,
                        unit: WindUnit::Kt,
                    },
                )
            } else if has_prefix(s.skip(k), "MPS"@) {
                Some(
                    Wind {
                        direction_deg: dir,
                        variable: dir is None,
                        speed,
                        gust,
                        unit: WindUnit::Mps,
                    },
                )
            } else {
                None
            }
        }
    }
}

pub(crate) fn wind_of(v: &Vec<char>) -> (r: Option<Wind>)
    ensures
        r == wind_s(v@),
{
    let vrb = chars_has_prefix(v, "VRB");
    let dir: Option<u16> = if vrb {
        None
    } else if digits_k_at(v, 0, 3) {
        Some(val3_at(v, 0))
    } else {
        return None;
    };
    if !digits_k_at(v, 3, 2) {
        return None;
    }
    let sp3 = digits_k_at(v, 3, 3);
    let speed: u16 = if sp3 {
        val3_at(v, 3)
    } else {
        val2_at(v, 3)
    };
    let i: usize = if sp3 {
        6
    } else {
        5
    };
    let gusted = i < v.len() && v[i] == 'G' && digits_k_at(v, i + 1, 2);
    let g3 = gusted && digits_k_at(v, i + 1, 3);
    let gust: Option<u16> = if gusted {
        Some(
            if g3 {
                val3_at(v, i + 1)
            } else {
                val2_at(v, i + 1)
            },
        )
    } else {
        None
    };
    let k: usize = if gusted {
        if g3 {
            i + 4
        } else {
            i + 3
        }
    } else {
        i
    };
    let unit: WindUnit = if chars_has_prefix_at(v, k, "KT") {
        WindUnit::Kt
    } else if chars_has_prefix_at(v, k, "MPS") {
        WindUnit::Mps
    } else {
        return None;
    };
    Some(Wind { direction_deg: dir, variable: dir.is_none(), speed, gust, unit })
}

/// The wind group a token carries, if its prefix is one.
pub fn parse_wind(input: &str) -> (r: Option<Wind>)
    ensures
        r == wind_s(input@),
{
    let v = to_chars(input);
    wind_of(&v)
}

/// Grammar of a wind-direction variation: three digits, `V`, three digits.
pub open spec fn wind_variation_s(s: Seq<char>) -> Option<(u16, u16)> {
    if digits_at(s, 0, 3) && 3 < s.len() && s[3] == 'V' && digits_at(s, 4, 3) {
        Some((val3(s, 0) as u16, val3(s, 4) as u16))
    } else {
        None
    }
}

pub(crate) fn wind_variation_of(v: &Vec<char>) -> (r: Option<(u16, u16)>)
    ensures
        r == wind_variation_s(v@),
{
    if !digits_k_at(v, 0, 3) {
        return None;
    }
    if v.len() <= 3 || v[3] != 'V' {
        return None;
    }
    if !digits_k_at(v, 4, 3) {
        return None;
    }
    Some((val3_at(v, 0), val3_at(v, 4)))
}

/// The wind variation a token carries, if its prefix is one.
pub fn parse_wind_variation(input: &str) -> (r: Option<(u16, u16)>)
    ensures
        r == wind_variation_s(input@),
{
    let v = to_chars(input);
    wind_variation_of(&v)
}

/// Grammar of a visibility in meters: four digits; the `raw` field keeps
/// exactly those four digits.
pub open spec fn vis_m_s(s: Seq<char>) -> Option<VisibilityV> {
    if digits_at(s, 0, 4) {
        Some(VisibilityV { distance: val4(s, 0) as u32, unit: VisUnit::M, raw: s.take(4) })
    } else {
        None
    }
}

pub(crate) fn vis_m_of(v: &Vec<char>) -> (r: Option<Visibility>)
    ensures
        oview(r) == vis_m_s(v@),
{
    if !digits_k_at(v, 0, 4) {
        return None;
    }
    let raw = subvec(v, 0, 4);
    Some(Visibility { distance: val4_at(v, 0) as u32, unit: VisUnit::M, raw: chars_string(&raw) })
}

/// The meter visibility a token carries, if its prefix is one.
pub fn parse_visibility_meters(input: &str) -> (r: Option<Visibility>)
    ensures
        oview(r) == vis_m_s(input@),
{
    let v = to_chars(input);
    vis_m_of(&v)
}

/// Rounded value of the fraction `n/d` in whole miles; half rounds away
/// from zero, a zero denominator saturates.
pub open spec fn sm_frac_val(n: nat, d: nat) -> nat {
    if d == 0 {
        0xffff_ffff
    } else {
        (2 * n + d) / (2 * d)
    }
}

/// Grammar of a statute-mile visibility: one or two digits, an optional
/// `/` fraction part, then the literal `SM`; a fraction rounds to the
/// nearest whole mile. The `raw` field keeps the number and the `SM`.
pub open spec fn vis_sm_s(s: Seq<char>) -> Option<VisibilityV> {
    if !digits_at(s, 0, 1) {
        None
    } else {
        let k1: int = if digits_at(s, 0, 2) {
            2
        } else {
            1
        };
        let fraced = k1 < s.len() && s[k1] == '/' && digits_at(s, k1 + 1, 1);
        let end: int = if fraced {
            if digits_at(s, k1 + 1, 2) {
                k1 + 3
            } else {
                k1 + 2
            }
        } else {
            k1
        };
        if has_prefix(s.skip(end), "SM"@) {
            let num: nat = if k1 == 2 {
                val2(s, 0)
            } else {
                val1(s, 0)
            };
            let distance: nat = if fraced {
                let den: nat = if end == k1 + 3 {
                    val2(s, k1 + 1)
                } else {
                    val1(s, k1 + 1)
                };
                sm_frac_val(num, den)
            } else {
                num
            };
            Some(
                VisibilityV {
                    distance: distance as u32,
                    unit: VisUnit::Sm,
                    raw: s.take(end) + "SM"@,
                },
            )
        } else {
            None
        }
    }
}

pub(crate) fn vis_sm_of(v: &Vec<char>) -> (r: Option<Visibility>)
    ensures
        oview(r) == vis_sm_s(v@),
{
    if !digits_k_at(v, 0, 1) {
        return None;
    }
    let k1: usize = if digits_k_at(v, 0, 2) {
        2
    } else {
        1
    };
    let fraced = k1 < v.len() && v[k1] == '/' && digits_k_at(v, k1 + 1, 1);
    let end: usize = if fraced {
        if digits_k_at(v, k1 + 1, 2) {
            k1 + 3
        } else {
            k1 + 2
        }
    } else {
        k1
    };
    if !chars_has_prefix_at(v, end, "SM") {
        return None;
    }
    let num: u32 = if k1 == 2 {
        val2_at(v, 0) as u32
    } else {
        dval(v, 0)
    };
    let distance: u32 = if fraced {
        let den: u32 = if end == k1 + 3 {
            val2_at(v, k1 + 1) as u32
        } else {
            dval(v, k1 + 1)
        };
        if den == 0 {
            0xffff_ffff
        } else {
            (2 * num + den) / (2 * den)
        }
    } else {
        num
    };
    let mut raw = subvec(v, 0, end);
    let mut raw_s = chars_string(&raw);
    raw_s.append("SM");
    proof {
        assert(raw_s@ == v@.take(end as int) + "SM"@);
    }
    Some(Visibility { distance, unit: VisUnit::Sm, raw: raw_s })
}

/// The statute-mile visibility a token carries, if its prefix is one.
pub fn parse_visibility_sm(input: &str) -> (r: Option<Visibility>)
    ensures
        oview(r) == vis_sm_s(input@),
{
    let v = to_chars(input);
    vis_sm_of(&v)
}

/// Grammar of one signed temperature: an optional `M` for minus, then two
/// digits. Yields the value and the next position.
pub open spec fn signed_temp_s(s: Seq<char>, i: int) -> Option<(i16, int)> {
    let neg = i < s.len() && s[i] == 'M';
    let j: int = if neg {
        i + 1
    } else {
        i
    };
    if digits_at(s, j, 2) {
        if neg {
            Some(((-(val2(s, j) as int)) as i16, j + 2))
        } else {
            Some((val2(s, j) as i16, j + 2))
        }
    } else {
        None
    }
}

/// Grammar of a temperature/dewpoint pair: signed temperature, `/`, signed
/// temperature.
pub open spec fn temperature_pair_s(s: Seq<char>) -> Option<(i16, i16)> {
    match signed_temp_s(s, 0) {
        None => None,
        Some((t, i)) => {
            if i < s.len() && s[i] == '/' {
                match signed_temp_s(s, i + 1) {
                    None => None,
                    Some((d, _)) => Some((t, d)),
                }
            } else {
                None
            }
        },
    }
}

fn signed_temp_of(v: &Vec<char>, i: usize) -> (r: Option<(i16, usize)>)
    requires
        i <= v@.len(),
    ensures
        match r {
            Some((t, j)) => signed_temp_s(v@, i as int) == Some((t, j as int)) && j <= v@.len(),
            None => signed_temp_s(v@, i as int) is None,
        },
{
    let neg = i < v.len() && v[i] == 'M';
    let j: usize = if neg {
        i + 1
    } else {
        i
    };
    if !digits_k_at(v, j, 2) {
        return None;
    }
    let m = val2_at(v, j) as i16;
    if neg {
        Some((-m, j + 2))
    } else {
        Some((m, j + 2))
    }
}

pub(crate) fn temperature_pair_of(v: &Vec<char>) -> (r: Option<(i16, i16)>)
    ensures
        r == temperature_pair_s(v@),
{
    match signed_temp_of(v, 0) {
        None => None,
        Some((t, i)) => {
            if i < v.len() && v[i] == '/' {
                match signed_temp_of(v, i + 1) {
                    None => None,
                    Some((d, _)) => Some((t, d)),
                }
            } else {
                None
            }
        },
    }
}

/// The temperature/dewpoint pair a token carries, if its prefix is one.
pub fn parse_temperature_pair(input: &str) -> (r: Option<(i16, i16)>)
    ensures
        r == temperature_pair_s(input@),
{
    let v = to_chars(input);
    temperature_pair_of(&v)
}

/// Grammar of a QNH pressure group: `Q` then four digits, hectopascals.
pub open spec fn qnh_s(s: Seq<char>) -> Option<u16> {
    if 0 < s.len() && s[0] == 'Q' && digits_at(s, 1, 4) {
        Some(val4(s, 1) as u16)
    } else {
        None
    }
}

pub(crate) fn qnh_of(v: &Vec<char>) -> (r: Option<u16>)
    ensures
        r == qnh_s(v@),
{
    if v.len() == 0 || v[0] != 'Q' {
        return None;
    }
    if !digits_k_at(v, 1, 4) {
        return None;
    }
    Some(val4_at(v, 1))
}

/// The QNH value a token carries, if its prefix is one.
pub fn parse_pressure_qnh(input: &str) -> (r: Option<u16>)
    ensures
        r == qnh_s(input@),
{
    let v = to_chars(input);
    qnh_of(&v)
}

/// Grammar of an altimeter group: `A` then four digits, hundredths of
/// inches of mercury.
pub open spec fn altimeter_s(s: Seq<char>) -> Option<u16> {
    if 0 < s.len() && s[0] == 'A' && digits_at(s, 1, 4) {
        Some(val4(s, 1) as u16)
    } else {
        None
    }
}

pub(crate) fn altimeter_of(v: &Vec<char>) -> (r: Option<u16>)
    ensures
        r == altimeter_s(v@),
{
    if v.len() == 0 || v[0] != 'A' {
        return None;
    }
    if !digits_k_at(v, 1, 4) {
        return None;
    }
    Some(val4_at(v, 1))
}

/// The altimeter value a token carries, if its prefix is one.
pub fn parse_pressure_altimeter(input: &str) -> (r: Option<u16>)
    ensures
        r == altimeter_s(input@),
{
    let v = to_chars(input);
    altimeter_of(&v)
}

pub open spec fn cloud_amount_prefix(s: Seq<char>) -> Option<CloudAmount> {
    if has_prefix(s, "FEW"@) {
        Some(CloudAmount::Few)
    } else if has_prefix(s, "SCT"@) {
        Some(CloudAmount::Sct)
    } else if has_prefix(s, "BKN"@) {
        Some(CloudAmount::Bkn)
    } else if has_prefix(s, "OVC"@) {
        Some(CloudAmount::Ovc)
    } else if has_prefix(s, "NSC"@) {
        Some(CloudAmount::Nsc)
    } else if has_prefix(s, "SKC"@) {
        Some(CloudAmount::Skc)
    } else {
        None
    }
}

/// Grammar of a cloud layer: an amount code, an optional three-digit
/// height in hundreds of feet, an optional `CB` or `TCU` type.
pub open spec fn cloud_layer_s(s: Seq<char>) -> Option<(CloudAmount, Option<u32>, Option<
    CloudKind,
>)> {
    match cloud_amount_prefix(s) {
        None => None,
        Some(amount) => {
            let heighted = digits_at(s, 3, 3);
            let height: Option<u32> = if heighted {
                Some((val3(s, 3) * 100) as u32)
            } else {
                None
            };
            let i: int = if heighted {
                6
            } else {
                3
            };
            let kind: Option<CloudKind> = if i <= s.len() && has_prefix(s.skip(i), "CB"@) {
                Some(CloudKind::Cb)
            } else if i <= s.len() && has_prefix(s.skip(i), "TCU"@) {
                Some(CloudKind::Tcu)
            } else {
                None
            };
            Some((amount, height, kind))
        },
    }
}

pub(crate) fn cloud_layer_of(v: &Vec<char>) -> (r: Option<(CloudAmount, Option<u32>, Option<
    CloudKind,
>)>)
    ensures
        r == cloud_layer_s(v@),
{
    let amount: CloudAmount = if chars_has_prefix(v, "FEW") {
        CloudAmount::Few
    } else if chars_has_prefix(v, "SCT") {
        CloudAmount::Sct
    } else if chars_has_prefix(v, "BKN") {
        CloudAmount::Bkn
    } else if chars_has_prefix(v, "OVC") {
        CloudAmount::Ovc
    } else if chars_has_prefix(v, "NSC") {
        CloudAmount::Nsc
    } else if chars_has_prefix(v, "SKC") {
        CloudAmount::Skc
    } else {
        return None;
    };
    let heighted = digits_k_at(v, 3, 3);
    let height: Option<u32> = if heighted {
        Some(val3_at(v, 3) as u32 * 100)
    } else {
        None
    };
    let i: usize = if heighted {
        6
    } else {
        3
    };
    let kind: Option<CloudKind> = if i <= v.len() && chars_has_prefix_at(v, i, "CB") {
        Some(CloudKind::Cb)
    } else if i <= v.len() && chars_has_prefix_at(v, i, "TCU") {
        Some(CloudKind::Tcu)
    } else {
        None
    };
    Some((amount, height, kind))
}

/// The cloud layer a token carries, if its prefix is one.
pub fn parse_cloud_layer(input: &str) -> (r: Option<(CloudAmount, Option<u32>, Option<CloudKind>)>)
    ensures
        r == cloud_layer_s(input@),
{
    let v = to_chars(input);
    cloud_layer_of(&v)
}

/// Grammar of a runway visual range group, anchored at both ends:
/// `R`, two digits with an optional `L`/`C`/`R`, `/`, a four-digit base,
/// an optional `V` plus four-digit varying bound, an optional tendency
/// letter `U`/`D`/`N`.
pub open spec fn rvr_s(s: Seq<char>) -> Option<RvrV> {
    if !(0 < s.len() && s[0] == 'R' && digits_at(s, 1, 2)) {
        None
    } else {
        let rwy_end: int = if 3 < s.len() && (s[3] == 'L' || s[3] == 'C' || s[3] == 'R') {
            4
        } else {
            3
        };
        if !(rwy_end < s.len() && s[rwy_end] == '/' && digits_at(s, rwy_end + 1, 4)) {
            None
        } else {
            let vis = val4(s, rwy_end + 1) as u16;
            let j: int = rwy_end + 5;
            let varied = j < s.len() && s[j] == 'V' && digits_at(s, j + 1, 4);
            let vary: Option<u16> = if varied {
                Some(val4(s, j + 1) as u16)
            } else {
                None
            };
            let k: int = if varied {
                j + 5
            } else {
                j
            };
            let tendency: Tendency = if k < s.len() && s[k] == 'U' {
                Tendency::Up
            } else if k < s.len() && s[k] == 'D' {
                Tendency::Down
            } else if k < s.len() && s[k] == 'N' {
                Tendency::NoChange
            } else {
                Tendency::Unknown
            };
            let end: int = if k < s.len() && (s[k] == 'U' || s[k] == 'D' || s[k] == 'N') {
                k + 1
            } else {
                k
            };
            if end == s.len() {
                Some(
                    RvrV {
                        runway: s.subrange(1, rwy_end),
                        vis_m: vis,
                        vis_vary_m: vary,
                        tendency,
                    },
                )
            } else {
                None
            }
        }
    }
}

pub(crate) fn rvr_of(v: &Vec<char>) -> (r: Option<Rvr>)
    ensures
        oview(r) == rvr_s(v@),
{
    if v.len() == 0 || v[0] != 'R' {
        return None;
    }
    if !digits_k_at(v, 1, 2) {
        return None;
    }
    let rwy_end: usize = if 3 < v.len() && (v[3] == 'L' || v[3] == 'C' || v[3] == 'R') {
        4
    } else {
        3
    };
    if rwy_end >= v.len() || v[rwy_end] != '/' {
        return None;
    }
    if !digits_k_at(v, rwy_end + 1, 4) {
        return None;
    }
    let vis = val4_at(v, rwy_end + 1);
    let j: usize = rwy_end + 5;
    let varied = j < v.len() && v[j] == 'V' && digits_k_at(v, j + 1, 4);
    let vary: Option<u16> = if varied {
        Some(val4_at(v, j + 1))
    } else {
        None
    };
    let k: usize = if varied {
        j + 5
    } else {
        j
    };
    let tendency: Tendency = if k < v.len() && v[k] == 'U' {
        Tendency::Up
    } else if k < v.len() && v[k] == 'D' {
        Tendency::Down
    } else if k < v.len() && v[k] == 'N' {
        Tendency::NoChange
    } else {
        Tendency::Unknown
    };
    let end: usize = if k < v.len() && (v[k] == 'U' || v[k] == 'D' || v[k] == 'N') {
        k + 1
    } else {
        k
    };
    if end != v.len() {
        return None;
    }
    let rwy = subvec(v, 1, rwy_end);
    Some(Rvr { runway: chars_string(&rwy), vis_m: vis, vis_vary_m: vary, tendency })
}

pub open spec fn all_upper(s: Seq<char>, i: int, j: int) -> bool {
    forall|t: int| i <= t < j ==> is_upper(#[trigger] s[t])
}

fn all_upper_in(v: &Vec<char>, i: usize, j: usize) -> (b: bool)
    requires
        i <= j <= v@.len(),
    ensures
        b == all_upper(v@, i as int, j as int),
{
    let mut t: usize = i;
    while t < j
        invariant
            i <= t <= j <= v@.len(),
            forall|u: int| i <= u < t ==> is_upper(#[trigger] v@[u]),
        decreases j - t,
    {
        if !upper(v[t]) {
            return false;
        }
        t = t + 1;
    }
    true
}

/// Grammar of a weather phenomenon token, anchored at both ends: an
/// optional `+`, `-` or `VC` prefix, then two to six uppercase letters.
pub open spec fn is_weather_token(s: Seq<char>) -> bool {
    (2 <= s.len() && s.len() <= 6 && all_upper(s, 0, s.len() as int)) || (s.len() >= 3 && (s[0]
        == '+' || s[0] == '-') && s.len() <= 7 && all_upper(s, 1, s.len() as int)) || (has_prefix(
        s,
        "VC"@,
    ) && 4 <= s.len() && s.len() <= 8 && all_upper(s, 2, s.len() as int))
}

pub(crate) fn weather_token_of(v: &Vec<char>) -> (b: bool)
    ensures
        b == is_weather_token(v@),
{
    let n = v.len();
    if 2 <= n && n <= 6 && all_upper_in(v, 0, n) {
        return true;
    }
    if n >= 3 && n <= 7 && (v[0] == '+' || v[0] == '-') && all_upper_in(v, 1, n) {
        return true;
    }
    if 4 <= n && n <= 8 && chars_has_prefix(v, "VC") && all_upper_in(v, 2, n) {
        return true;
    }
    false
}

/// A station identifier: exactly four ASCII letters.
pub open spec fn is_station_token(s: Seq<char>) -> bool {
    s.len() == 4 && forall|t: int| 0 <= t < 4 ==> is_alpha(#[trigger] s[t])
}

pub(crate) fn station_token_of(v: &Vec<char>) -> (b: bool)
    ensures
        b == is_station_token(v@),
{
    v.len() == 4 && alpha(v[0]) && alpha(v[1]) && alpha(v[2]) && alpha(v[3])
}

} // verus!
