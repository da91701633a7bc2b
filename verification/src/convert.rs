//! Unit canonicalization and the fixed English phrases derived from
//! normalized values: wind speeds to knots, visibility to meters, pressure
//! between hectopascals and hundredths of inches of mercury. All pressure
//! arithmetic is exact integer arithmetic over tenths and hundredths.
use vstd::prelude::*;

use crate::text::{dec_str, dec_u32, join_sep, join_strings, ssview};
use crate::types::{
    cloud_amount_str, sview, CloudLayer, CloudLayerV, Visibility, VisibilityV, VisUnit, Wind,
    WindNormalized, WindUnit,
};

verus! {

/// Meters-per-second speed in knots: `v * 1.94384` rounded to the nearest
/// integer (half away from zero), saturating at the type bound.
pub open spec fn mps_to_kt(v: nat) -> nat {
    if (v * 194384 + 50000) / 100000 > 65535 {
        65535
    } else {
        (v * 194384 + 50000) / 100000
    }
}

/// Statute miles in meters: `d * 1609.34` rounded to the nearest integer
/// (half away from zero), saturating at the type bound.
pub open spec fn sm_to_m(d: nat) -> nat {
    if (d * 160934 + 50) / 100 > 0xffff_ffff {
        0xffff_ffff
    } else {
        (d * 160934 + 50) / 100
    }
}

/// The normalized wind: direction and variability unchanged, speeds
/// converted to knots when the unit is meters per second.
pub open spec fn normalize_wind_s(w: Wind) -> WindNormalized {
    WindNormalized {
        direction_deg: w.direction_deg,
        variable: w.variable,
        speed_kt: if w.unit == WindUnit::Mps {
            mps_to_kt(w.speed as nat) as u16
        } else {
            w.speed
        },
        gust_kt: match w.gust {
            Some(g) => Some(
                if w.unit == WindUnit::Mps {
                    mps_to_kt(g as nat) as u16
                } else {
                    g
                },
            ),
            None => None,
        },
    }
}

fn kt_of_mps(v: u16) -> (r: u16)
    ensures
        r == mps_to_kt(v as nat),
{
    let x = (v as u64 * 194384 + 50000) / 100000;
    if x > 65535 {
        65535
    } else {
        x as u16
    }
}

/// Canonicalize a wind group to knots.
pub fn normalize_wind(wind: &Wind) -> (r: WindNormalized)
    ensures
        r == normalize_wind_s(*wind),
{
    let speed_kt = match wind.unit {
        WindUnit::Mps => kt_of_mps(wind.speed),
        WindUnit::Kt => wind.speed,
    };
    let gust_kt = match wind.gust {
        Some(g) => Some(
            match wind.unit {
                WindUnit::Mps => kt_of_mps(g),
                WindUnit::Kt => g,
            },
        ),
        None => None,
    };
    WindNormalized {
        direction_deg: wind.direction_deg,
        variable: wind.variable,
        speed_kt,
        gust_kt,
    }
}

/// The visibility in meters: a meter distance of 9999 or more collapses
/// to the 10000 sentinel, statute miles convert by `* 1609.34` rounded.
pub open spec fn vis_to_m_s(v: VisibilityV) -> Option<u32> {
    match v.unit {
        VisUnit::M => if v.distance >= 9999 {
            Some(10000)
        } else {
            Some(v.distance)
        },
        VisUnit::Sm => Some(sm_to_m(v.distance as nat) as u32),
    }
}

/// Canonicalize a visibility to meters.
pub fn visibility_to_meters(visibility: &Visibility) -> (r: Option<u32>)
    ensures
        r == vis_to_m_s(visibility@),
{
    match visibility.unit {
        VisUnit::M => {
            if visibility.distance >= 9999 {
                Some(10000)
            } else {
                Some(visibility.distance)
            }
        },
        VisUnit::Sm => {
            let x = (visibility.distance as u64 * 160934 + 50) / 100;
            if x > 0xffff_ffff {
                Some(0xffff_ffff)
            } else {
                Some(x as u32)
            }
        },
    }
}

/// An altimeter value (hundredths of inches of mercury) in tenths of
/// hectopascals: `inhg * 33.8638866667` rounded to one decimal place.
pub open spec fn inhg_centi_to_hpa_tenths(c: nat) -> nat {
    (c * 338638866667 * 2 + 100000000000) / 200000000000
}

/// Convert an altimeter reading to tenths of hectopascals.
pub fn altimeter_to_hpa_tenths(value: u16) -> (r: u32)
    ensures
        r == inhg_centi_to_hpa_tenths(value as nat),
{
    let x = (value as u64 * 338638866667 * 2 + 100000000000) / 200000000000;
    x as u32
}

/// The wind phrase: direction (or `VRB`), speed in knots, optional gust.
pub open spec fn describe_wind_s(w: WindNormalized) -> Seq<char> {
    let head: Seq<char> = match w.direction_deg {
        Some(d) => dec_str(d as nat) + "° "@,
        None => "VRB "@,
    };
    let core = head + dec_str(w.speed_kt as nat) + "kt"@;
    match w.gust_kt {
        Some(g) => core + " gust "@ + dec_str(g as nat) + "kt"@,
        None => core,
    }
}

/// Render the wind phrase.
pub fn describe_wind(wind: &WindNormalized) -> (r: String)
    ensures
        r@ == describe_wind_s(*wind),
{
    let mut s: String = match wind.direction_deg {
        Some(d) => {
            let mut x = dec_u32(d as u32);
            x.append("° ");
            x
        },
        None => String::from_str("VRB "),
    };
    let sp = dec_u32(wind.speed_kt as u32);
    s.append(sp.as_str());
    s.append("kt");
    match wind.gust_kt {
        Some(g) => {
            s.append(" gust ");
            let gs = dec_u32(g as u32);
            s.append(gs.as_str());
            s.append("kt");
            proof {
                assert(s@ =~= describe_wind_s(*wind));
            }
            s
        },
        None => {
            proof {
                assert(s@ =~= describe_wind_s(*wind));
            }
            s
        },
    }
}

/// The visibility phrase: `10km or more` at the sentinel and above, else
/// the meter figure.
pub open spec fn describe_visibility_s(d: u32) -> Seq<char> {
    if d >= 10000 {
        "10km or more"@
    } else {
        dec_str(d as nat) + "m"@
    }
}

/// Render the visibility phrase.
pub fn describe_visibility_meters(distance_m: u32) -> (r: String)
    ensures
        r@ == describe_visibility_s(distance_m),
{
    if distance_m >= 10000 {
        String::from_str("10km or more")
    } else {
        let mut s = dec_u32(distance_m);
        s.append("m");
        s
    }
}

/// The phrase of one cloud layer: the amount code, with the height in feet
/// when present.
pub open spec fn describe_cloud_s(l: CloudLayerV) -> Seq<char> {
    match l.height_ft {
        Some(h) => cloud_amount_str(l.amount) + " "@ + dec_str(h as nat) + "ft"@,
        None => cloud_amount_str(l.amount),
    }
}

/// The layer phrases, in order.
pub open spec fn cloud_phrases(cs: Seq<CloudLayerV>) -> Seq<Seq<char>> {
    cs.map_values(|l: CloudLayerV| describe_cloud_s(l))
}

/// The clouds phrase: `No significant cloud` for an empty list, else the
/// layer phrases joined with commas.
pub open spec fn describe_clouds_s(cs: Seq<CloudLayerV>) -> Seq<char> {
    if cs.len() == 0 {
        "No significant cloud"@
    } else {
        join_sep(cloud_phrases(cs), ", "@)
    }
}

fn describe_one_cloud(layer: &CloudLayer) -> (r: String)
    ensures
        r@ == describe_cloud_s(layer@),
{
    match layer.height_ft {
        Some(h) => {
            let mut s = String::from_str(layer.amount.as_str());
            s.append(" ");
            let hs = dec_u32(h as u32);
            s.append(hs.as_str());
            s.append("ft");
            proof {
                assert(s@ =~= describe_cloud_s(layer@));
            }
            s
        },
        None => String::from_str(layer.amount.as_str()),
    }
}

/// Render the clouds phrase.
#[verifier::loop_isolation(false)]
pub fn describe_clouds(clouds: &Vec<CloudLayer>) -> (r: String)
    ensures
        r@ == describe_clouds_s(sview(clouds@)),
{
    if clouds.len() == 0 {
        return String::from_str("No significant cloud");
    }
    let mut parts: Vec<String> = Vec::new();
    let mut i: usize = 0;
    while i < clouds.len()
        invariant
            i <= clouds@.len(),
            parts@.len() == i,
            forall|k: int| 0 <= k < i ==> #[trigger] parts@[k]@ == describe_cloud_s(clouds@[k]@),
        decreases clouds@.len() - i,
    {
        parts.push(describe_one_cloud(&clouds[i]));
        i = i + 1;
    }
    proof {
        assert forall|k: int| 0 <= k < clouds@.len() implies sview(clouds@)[k] == clouds@[k]@
            && ssview(parts@)[k] == parts@[k]@ by {}
        assert(ssview(parts@) =~= cloud_phrases(sview(clouds@)));
    }
    join_strings(&parts, ", ")
}

} // verus!
