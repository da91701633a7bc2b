//! The METAR/SPECI pipeline: header scan, body scan over whitespace
//! tokens in fixed grammar priority order, unit canonicalization,
//! localized rendering and the response envelope. The body scan is
//! specified as a fold of a step function over the token list, and the
//! parser is proved to compute exactly that fold.
use vstd::prelude::*;

use crate::convert::{
    describe_clouds, describe_clouds_s, describe_visibility_meters, describe_visibility_s,
    describe_wind, describe_wind_s, inhg_centi_to_hpa_tenths, normalize_wind, normalize_wind_s,
    vis_to_m_s, visibility_to_meters, altimeter_to_hpa_tenths,
};
use crate::issues::{
    finalize_issues, issue, issue_from_legacy, issue_from_legacy_s, legacy_of, sort_issues_s,
};
use crate::parse::{
    altimeter_of, altimeter_s, cloud_layer_of, cloud_layer_s, is_station_token, is_weather_token,
    qnh_of, qnh_s, rvr_of, rvr_s, station_token_of, temperature_pair_of, temperature_pair_s,
    time_group_of, time_group_s, vis_m_of, vis_m_s, vis_sm_of, vis_sm_s, weather_token_of,
    wind_of, wind_s, wind_variation_of, wind_variation_s,
};
use crate::text::{
    chars_eq_lit, chars_string, dec_i32, dec_int, dec_pad2, dec_pad2_u8, dec_str, dec_tenths,
    dec_tenths_u32, dec_u32, join_sep, join_strings, ssview, to_chars, tokenize, tokenize_chars,
    trim_chars, trim_s, truncate_s, truncate_text, vsview,
};
use crate::types::{
    clone_clouds, clone_opt_string, clone_rvrs, clone_strings, metar_trend_str, oview, sview,
    CloudLayer, CloudLayerV, DecodeResponse, DecodeResponseV, DetailLevel, Issue, IssueCode,
    IssueV, MessageType, MetarNormalized, MetarNormalizedV, MetarParsed, MetarParsedV, MetarTrend,
    NormalizedMessage, NormalizedMessageV, ParsedMessage, ParsedMessageV, Pressure, PressureUnit,
    Rvr, RvrV, TemperaturePair, UtcTime, VisUnit, Visibility, VisibilityV, WindVariation,
};

verus! {

/// The state the body scan folds over: the record built so far, the
/// legacy warning messages in emission order, and whether the scan has
/// entered remark mode.
#[verifier::ext_equal]
pub struct MetarScanV {
    pub p: MetarParsedV,
    pub warns: Seq<Seq<char>>,
    pub in_rmk: bool,
}

pub open spec fn mstate(p: MetarParsedV, warns: Seq<Seq<char>>, in_rmk: bool) -> MetarScanV {
    MetarScanV { p, warns, in_rmk }
}

/// The empty record the scan starts from, after the header.
pub open spec fn metar_empty_v(station: Option<Seq<char>>, time: Option<UtcTime>) -> MetarParsedV {
    MetarParsedV {
        station,
        issue_time: time,
        wind: None,
        wind_variation: None,
        rvr: Seq::empty(),
        pressure_qnh: None,
        altimeter: None,
        visibility: None,
        weather: Seq::empty(),
        clouds: Seq::empty(),
        temperature: None,
        pressure: None,
        rmk_raw: None,
        rmk_tokens: Seq::empty(),
        trend: None,
        raw_tokens: Seq::empty(),
    }
}

/// The optional header: a `METAR`/`SPECI` literal, a station, a time
/// group, each consumed in order and each stopping the header scan on its
/// first non-match. Yields the station, the time, and the index of the
/// first body token.
pub open spec fn metar_header_s(toks: Seq<Seq<char>>) -> (Option<Seq<char>>, Option<UtcTime>, int) {
    let i0: int = if toks.len() > 0 && (toks[0] == "METAR"@ || toks[0] == "SPECI"@) {
        1
    } else {
        0
    };
    let station: Option<Seq<char>> = if i0 < toks.len() && is_station_token(toks[i0]) {
        Some(toks[i0])
    } else {
        None
    };
    let i1: int = if station is Some {
        i0 + 1
    } else {
        i0
    };
    let time: Option<UtcTime> = if i1 < toks.len() && time_group_s(toks[i1]) is Some {
        time_group_s(toks[i1])
    } else {
        None
    };
    let i2: int = if time is Some {
        i1 + 1
    } else {
        i1
    };
    (station, time, i2)
}

/// One step of the body scan: the first grammar in the priority order
/// that matches the token consumes it; in remark mode every token is
/// appended verbatim; an unmatched token is recorded with a warning; the
/// `=` terminator is dropped silently.
pub open spec fn metar_step(st: MetarScanV, t: Seq<char>) -> MetarScanV {
    if st.in_rmk {
        let old_raw: Seq<char> = match st.p.rmk_raw {
            Some(x) => x,
            None => Seq::empty(),
        };
        let new_raw: Seq<char> = if st.p.rmk_tokens.len() == 0 {
            t
        } else {
            old_raw + " "@ + t
        };
        MetarScanV {
            p: MetarParsedV {
                rmk_raw: Some(new_raw),
                rmk_tokens: st.p.rmk_tokens.push(t),
                ..st.p
            },
            ..st
        }
    } else if t == "CAVOK"@ {
        MetarScanV {
            p: MetarParsedV {
                visibility: Some(VisibilityV { distance: 10000, unit: VisUnit::M, raw: t }),
                ..st.p
            },
            ..st
        }
    } else if wind_s(t) is Some {
        MetarScanV { p: MetarParsedV { wind: wind_s(t), ..st.p }, ..st }
    } else if wind_variation_s(t) is Some {
        match wind_variation_s(t) {
            Some((a, b)) => MetarScanV {
                p: MetarParsedV {
                    wind_variation: Some(WindVariation { from_deg: a, to_deg: b }),
                    ..st.p
                },
                ..st
            },
            None => st,
        }
    } else if rvr_s(t) is Some {
        match rvr_s(t) {
            Some(r) => MetarScanV { p: MetarParsedV { rvr: st.p.rvr.push(r), ..st.p }, ..st },
            None => st,
        }
    } else if vis_m_s(t) is Some {
        MetarScanV { p: MetarParsedV { visibility: vis_m_s(t), ..st.p }, ..st }
    } else if vis_sm_s(t) is Some {
        MetarScanV { p: MetarParsedV { visibility: vis_sm_s(t), ..st.p }, ..st }
    } else if cloud_layer_s(t) is Some {
        match cloud_layer_s(t) {
            Some((amount, height, kind)) => MetarScanV {
                p: MetarParsedV {
                    clouds: st.p.clouds.push(
                        CloudLayerV { amount, height_ft: height, cloud_type: kind, raw: t },
                    ),
                    ..st.p
                },
                ..st
            },
            None => st,
        }
    } else if temperature_pair_s(t) is Some {
        match temperature_pair_s(t) {
            Some((a, b)) => MetarScanV {
                p: MetarParsedV {
                    temperature: Some(TemperaturePair { temperature_c: a, dewpoint_c: b }),
                    ..st.p
                },
                ..st
            },
            None => st,
        }
    } else if qnh_s(t) is Some {
        match qnh_s(t) {
            Some(v) => {
                let pr = Pressure { value: v, unit: PressureUnit::Hpa };
                MetarScanV {
                    p: MetarParsedV { pressure_qnh: Some(pr), pressure: Some(pr), ..st.p },
                    ..st
                }
            },
            None => st,
        }
    } else if altimeter_s(t) is Some {
        match altimeter_s(t) {
            Some(v) => {
                let pr = Pressure { value: v, unit: PressureUnit::InHgCenti };
                MetarScanV {
                    p: MetarParsedV {
                        altimeter: Some(pr),
                        pressure: if st.p.pressure is Some {
                            st.p.pressure
                        } else {
                            Some(pr)
                        },
                        ..st.p
                    },
                    ..st
                }
            },
            None => st,
        }
    } else if t == "NOSIG"@ {
        MetarScanV { p: MetarParsedV { trend: Some(MetarTrend::Nosig), ..st.p }, ..st }
    } else if t == "BECMG"@ {
        MetarScanV { p: MetarParsedV { trend: Some(MetarTrend::Becmg), ..st.p }, ..st }
    } else if t == "TEMPO"@ {
        MetarScanV { p: MetarParsedV { trend: Some(MetarTrend::Tempo), ..st.p }, ..st }
    } else if t == "RMK"@ {
        MetarScanV {
            p: MetarParsedV { rmk_raw: Some(Seq::empty()), ..st.p },
            in_rmk: true,
            ..st
        }
    } else if is_weather_token(t) {
        MetarScanV { p: MetarParsedV { weather: st.p.weather.push(t), ..st.p }, ..st }
    } else if t == "="@ {
        st
    } else {
        MetarScanV {
            p: MetarParsedV { raw_tokens: st.p.raw_tokens.push(t), ..st.p },
            warns: st.warns.push("Unrecognized token: "@ + t),
            ..st
        }
    }
}

/// The fold of the step function over the remaining tokens.
pub open spec fn metar_scan(st: MetarScanV, toks: Seq<Seq<char>>) -> MetarScanV
    decreases toks.len(),
{
    if toks.len() == 0 {
        st
    } else {
        metar_scan(metar_step(st, toks[0]), toks.skip(1))
    }
}

/// What parsing a raw METAR yields: the header fields, then the body fold
/// over the remaining whitespace tokens.
pub open spec fn parse_metar_s(raw: Seq<char>) -> MetarScanV {
    let toks = tokenize(raw);
    let h = metar_header_s(toks);
    metar_scan(
        MetarScanV { p: metar_empty_v(h.0, h.1), warns: Seq::empty(), in_rmk: false },
        toks.skip(h.2),
    )
}

/// Parse a raw METAR/SPECI into the structured record plus the legacy
/// warning messages, exactly as the scan fold specifies. Never fails: in
/// the worst case every token lands in `raw_tokens` with a warning.
#[verifier::loop_isolation(false)]
#[verifier::rlimit(100)]
pub fn parse_metar(raw: &str) -> (r: (MetarParsed, Vec<String>))
    ensures
        r.0@ == parse_metar_s(raw@).p,
        ssview(r.1@) == parse_metar_s(raw@).warns,
{
    let rv = to_chars(raw);
    let toks = tokenize_chars(&rv);
    let ghost tv = vsview(toks@);
    let n = toks.len();
    let mut idx: usize = 0;
    proof {
        if n > 0 {
            assert(tv[0] == toks@[0]@);
        }
    }
    if n > 0 && (chars_eq_lit(&toks[0], "METAR") || chars_eq_lit(&toks[0], "SPECI")) {
        idx = 1;
    }
    let mut station: Option<String> = None;
    if idx < n {
        proof {
            assert(tv[idx as int] == toks@[idx as int]@);
        }
        if station_token_of(&toks[idx]) {
            station = Some(chars_string(&toks[idx]));
            idx = idx + 1;
        }
    }
    let mut issue_time: Option<UtcTime> = None;
    if idx < n {
        proof {
            assert(tv[idx as int] == toks@[idx as int]@);
        }
        match time_group_of(&toks[idx]) {
            Some(t) => {
                issue_time = Some(t);
                idx = idx + 1;
            },
            None => {},
        }
    }
    let ghost h = metar_header_s(tv);
    proof {
        assert(oview(station) == h.0);
        assert(issue_time == h.1);
        assert(idx as int == h.2);
    }
    let mut parsed = MetarParsed {
        station,
        issue_time,
        wind: None,
        wind_variation: None,
        rvr: Vec::new(),
        pressure_qnh: None,
        altimeter: None,
        visibility: None,
        weather: Vec::new(),
        clouds: Vec::new(),
        temperature: None,
        pressure: None,
        rmk_raw: None,
        rmk_tokens: Vec::new(),
        trend: None,
        raw_tokens: Vec::new(),
    };
    let mut warnings: Vec<String> = Vec::new();
    let mut in_rmk: bool = false;
    let mut rmk_acc: String = String::new();
    proof {
        assert(parsed@ =~~= metar_empty_v(h.0, h.1));
        assert(ssview(warnings@) =~= Seq::<Seq<char>>::empty());
        assert(mstate(parsed@, ssview(warnings@), in_rmk) =~~= MetarScanV {
            p: metar_empty_v(h.0, h.1),
            warns: Seq::empty(),
            in_rmk: false,
        });
    }
    while idx < n
        invariant
            idx <= n,
            metar_scan(mstate(parsed@, ssview(warnings@), in_rmk), tv.skip(idx as int))
                == parse_metar_s(raw@),
            in_rmk ==> parsed@.rmk_raw == Some(rmk_acc@),
        decreases n - idx,
    {
        let ghost pre = mstate(parsed@, ssview(warnings@), in_rmk);
        let tok = &toks[idx];
        let ghost t = tv[idx as int];
        proof {
            assert(t == toks@[idx as int]@);
        }
        if in_rmk {
            let ghost rt0 = parsed.rmk_tokens@;
            if parsed.rmk_tokens.len() == 0 {
                rmk_acc = chars_string(tok);
            } else {
                rmk_acc.append(" ");
                let ts2 = chars_string(tok);
                rmk_acc.append(ts2.as_str());
            }
            parsed.rmk_raw = Some(rmk_acc.clone());
            parsed.rmk_tokens.push(chars_string(tok));
            proof {
                assert(ssview(parsed.rmk_tokens@) =~= ssview(rt0).push(t));
            }
        } else if chars_eq_lit(tok, "CAVOK") {
            parsed.visibility = Some(
                Visibility { distance: 10000, unit: VisUnit::M, raw: chars_string(tok) },
            );
        } else if let Some(w) = wind_of(tok) {
            parsed.wind = Some(w);
        } else if let Some((a, b)) = wind_variation_of(tok) {
            parsed.wind_variation = Some(WindVariation { from_deg: a, to_deg: b });
        } else if let Some(r) = rvr_of(tok) {
            let ghost r0 = parsed.rvr@;
            let ghost r_v = r@;
            parsed.rvr.push(r);
            proof {
                assert(sview(parsed.rvr@) =~= sview(r0).push(r_v));
            }
        } else if let Some(vis) = vis_m_of(tok) {
            parsed.visibility = Some(vis);
        } else if let Some(vis) = vis_sm_of(tok) {
            parsed.visibility = Some(vis);
        } else if let Some((amount, height, kind)) = cloud_layer_of(tok) {
            let ghost c0 = parsed.clouds@;
            let layer = CloudLayer {
                amount,
                height_ft: height,
                cloud_type: kind,
                raw: chars_string(tok),
            };
            let ghost l_v = layer@;
            parsed.clouds.push(layer);
            proof {
                assert(sview(parsed.clouds@) =~= sview(c0).push(l_v));
            }
        } else if let Some((a, b)) = temperature_pair_of(tok) {
            parsed.temperature = Some(TemperaturePair { temperature_c: a, dewpoint_c: b });
        } else if let Some(v) = qnh_of(tok) {
            let pr = Pressure { value: v, unit: PressureUnit::Hpa };
            parsed.pressure_qnh = Some(pr);
            parsed.pressure = Some(pr);
        } else if let Some(v) = altimeter_of(tok) {
            let pr = Pressure { value: v, unit: PressureUnit::InHgCenti };
            parsed.altimeter = Some(pr);
            if parsed.pressure.is_none() {
                parsed.pressure = Some(pr);
            }
        } else if chars_eq_lit(tok, "NOSIG") {
            parsed.trend = Some(MetarTrend::Nosig);
        } else if chars_eq_lit(tok, "BECMG") {
            parsed.trend = Some(MetarTrend::Becmg);
        } else if chars_eq_lit(tok, "TEMPO") {
            parsed.trend = Some(MetarTrend::Tempo);
        } else if chars_eq_lit(tok, "RMK") {
            in_rmk = true;
            rmk_acc = String::new();
            parsed.rmk_raw = Some(String::new());
        } else if weather_token_of(tok) {
            let ghost w0 = parsed.weather@;
            let ts = chars_string(tok);
            parsed.weather.push(ts);
            proof {
                assert(ssview(parsed.weather@) =~= ssview(w0).push(t));
            }
        } else if chars_eq_lit(tok, "=") {
        } else {
            let ghost rt0 = parsed.raw_tokens@;
            let ghost wn0 = warnings@;
            parsed.raw_tokens.push(chars_string(tok));
            let mut msg = String::from_str("Unrecognized token: ");
            let ts = chars_string(tok);
            msg.append(ts.as_str());
            let ghost m_v = msg@;
            warnings.push(msg);
            proof {
                assert(ssview(parsed.raw_tokens@) =~= ssview(rt0).push(t));
                assert(ssview(warnings@) =~= ssview(wn0).push(m_v));
            }
        }
        proof {
            let post = mstate(parsed@, ssview(warnings@), in_rmk);
            assert(post =~~= metar_step(pre, t));
            assert(tv.skip(idx as int)[0] == t);
            assert(tv.skip(idx as int).skip(1) =~= tv.skip(idx as int + 1));
            assert(metar_scan(pre, tv.skip(idx as int)) == metar_scan(
                metar_step(pre, t),
                tv.skip(idx as int + 1),
            ));
        }
        idx = idx + 1;
    }
    proof {
        assert(tv.skip(n as int) =~= Seq::<Seq<char>>::empty());
    }
    (parsed, warnings)
}

/// The canonicalized record: QNH kept in whole and tenth hectopascals,
/// the altimeter in hundredths of inches of mercury, wind in knots,
/// visibility in meters; the QNH stays the authoritative pressure.
pub open spec fn normalize_metar_s(p: MetarParsedV) -> MetarNormalizedV {
    let hpa_int: Option<u16> = match p.pressure_qnh {
        Some(pr) => if pr.unit == PressureUnit::Hpa {
            Some(pr.value)
        } else {
            None
        },
        None => None,
    };
    let inhg: Option<u16> = match p.altimeter {
        Some(pr) => if pr.unit == PressureUnit::InHgCenti {
            Some(pr.value)
        } else {
            None
        },
        None => None,
    };
    let hpa_tenths: Option<u32> = match hpa_int {
        Some(v) => Some((v * 10) as u32),
        None => match inhg {
            Some(c) => Some(inhg_centi_to_hpa_tenths(c as nat) as u32),
            None => None,
        },
    };
    MetarNormalizedV {
        station: p.station,
        issue_time: p.issue_time,
        wind: match p.wind {
            Some(w) => Some(normalize_wind_s(w)),
            None => None,
        },
        wind_variation: p.wind_variation,
        rvr: p.rvr,
        visibility_m: match p.visibility {
            Some(v) => vis_to_m_s(v),
            None => None,
        },
        weather: p.weather,
        clouds: p.clouds,
        temperature: p.temperature,
        pressure_hpa_tenths: hpa_tenths,
        pressure_inhg_centi: inhg,
        pressure_hpa_int: hpa_int,
        rmk_raw: p.rmk_raw,
        rmk_tokens: p.rmk_tokens,
        trend: p.trend,
    }
}

/// Canonicalize a parsed METAR; a pure mapping, never re-parsed from raw.
pub fn normalize_metar(parsed: &MetarParsed) -> (r: MetarNormalized)
    ensures
        r@ == normalize_metar_s(parsed@),
{
    let hpa_int: Option<u16> = match &parsed.pressure_qnh {
        Some(pr) => match pr.unit {
            PressureUnit::Hpa => Some(pr.value),
            PressureUnit::InHgCenti => None,
        },
        None => None,
    };
    let inhg: Option<u16> = match &parsed.altimeter {
        Some(pr) => match pr.unit {
            PressureUnit::InHgCenti => Some(pr.value),
            PressureUnit::Hpa => None,
        },
        None => None,
    };
    let hpa_tenths: Option<u32> = match hpa_int {
        Some(v) => Some(v as u32 * 10),
        None => match inhg {
            Some(c) => Some(altimeter_to_hpa_tenths(c)),
            None => None,
        },
    };
    let r = MetarNormalized {
        station: clone_opt_string(&parsed.station),
        issue_time: parsed.issue_time,
        wind: match &parsed.wind {
            Some(w) => Some(normalize_wind(w)),
            None => None,
        },
        wind_variation: parsed.wind_variation,
        rvr: clone_rvrs(&parsed.rvr),
        visibility_m: match &parsed.visibility {
            Some(v) => visibility_to_meters(v),
            None => None,
        },
        weather: clone_strings(&parsed.weather),
        clouds: clone_clouds(&parsed.clouds),
        temperature: parsed.temperature,
        pressure_hpa_tenths: hpa_tenths,
        pressure_inhg_centi: inhg,
        pressure_hpa_int: hpa_int,
        rmk_raw: clone_opt_string(&parsed.rmk_raw),
        rmk_tokens: clone_strings(&parsed.rmk_tokens),
        trend: parsed.trend,
    };
    proof {
        assert(r@ =~~= normalize_metar_s(parsed@));
    }
    r
}

/// The issue-time phrase.
pub open spec fn time_phrase(t: UtcTime) -> Seq<char> {
    "发布于 "@ + dec_pad2(t.day as nat) + " 日 "@ + dec_pad2(t.hour as nat) + ":"@ + dec_pad2(
        t.minute as nat,
    ) + "Z"@
}

pub(crate) fn time_phrase_exec(t: &UtcTime) -> (r: String)
    ensures
        r@ == time_phrase(*t),
{
    let mut s = String::from_str("发布于 ");
    let d = dec_pad2_u8(t.day);
    s.append(d.as_str());
    s.append(" 日 ");
    let h = dec_pad2_u8(t.hour);
    s.append(h.as_str());
    s.append(":");
    let m = dec_pad2_u8(t.minute);
    s.append(m.as_str());
    s.append("Z");
    proof {
        assert(s@ =~= time_phrase(*t));
    }
    s
}

/// The phrase of one runway visual range record.
pub open spec fn rvr_phrase(r: RvrV) -> Seq<char> {
    let base: Seq<char> = match r.vis_vary_m {
        Some(v) => dec_str(r.vis_m as nat) + "-"@ + dec_str(v as nat) + "m"@,
        None => dec_str(r.vis_m as nat) + "m"@,
    };
    let head = "跑道 "@ + r.runway + " RVR 约 "@ + base;
    match r.tendency {
        crate::types::Tendency::Up => head + "（趋势上升）"@,
        crate::types::Tendency::Down => head + "（趋势下降）"@,
        crate::types::Tendency::NoChange => head + "（趋势不变）"@,
        crate::types::Tendency::Unknown => head,
    }
}

pub open spec fn rvr_phrases(rs: Seq<RvrV>) -> Seq<Seq<char>> {
    rs.map_values(|r: RvrV| rvr_phrase(r))
}

fn rvr_phrase_exec(r: &Rvr) -> (s: String)
    ensures
        s@ == rvr_phrase(r@),
{
    let mut s = String::from_str("跑道 ");
    s.append(r.runway.as_str());
    s.append(" RVR 约 ");
    let b = dec_u32(r.vis_m as u32);
    s.append(b.as_str());
    match r.vis_vary_m {
        Some(v) => {
            s.append("-");
            let vs = dec_u32(v as u32);
            s.append(vs.as_str());
            s.append("m");
        },
        None => {
            s.append("m");
        },
    }
    match r.tendency {
        crate::types::Tendency::Up => s.append("（趋势上升）"),
        crate::types::Tendency::Down => s.append("（趋势下降）"),
        crate::types::Tendency::NoChange => s.append("（趋势不变）"),
        crate::types::Tendency::Unknown => {},
    }
    proof {
        assert(s@ =~= rvr_phrase(r@));
    }
    s
}

#[verifier::loop_isolation(false)]
fn rvr_phrases_exec(rs: &Vec<Rvr>) -> (out: Vec<String>)
    ensures
        ssview(out@) == rvr_phrases(sview(rs@)),
{
    let mut out: Vec<String> = Vec::new();
    let mut i: usize = 0;
    while i < rs.len()
        invariant
            i <= rs@.len(),
            out@.len() == i,
            forall|k: int| 0 <= k < i ==> #[trigger] out@[k]@ == rvr_phrase(rs@[k]@),
        decreases rs@.len() - i,
    {
        out.push(rvr_phrase_exec(&rs[i]));
        i = i + 1;
    }
    proof {
        assert forall|k: int| 0 <= k < rs@.len() implies sview(rs@)[k] == rs@[k]@ && ssview(
            out@,
        )[k] == out@[k]@ by {}
        assert(ssview(out@) =~= rvr_phrases(sview(rs@)));
    }
    out
}

/// The pressure phrase: QNH when present, else the altimeter-derived
/// value, with the altimeter equivalent in parentheses when both exist.
pub open spec fn pressure_phrase(n: MetarNormalizedV, h: u32) -> Seq<char> {
    let head: Seq<char> = if n.pressure_hpa_int is Some {
        "气压（QNH）≈ "@ + dec_tenths(h as nat) + " hPa"@
    } else {
        "气压（Altimeter）≈ "@ + dec_tenths(h as nat) + " hPa"@
    };
    match n.pressure_inhg_centi {
        Some(c) => if n.pressure_hpa_int is Some {
            head + "（Altimeter ≈ "@ + dec_tenths(inhg_centi_to_hpa_tenths(c as nat)) + " hPa）"@
        } else {
            head
        },
        None => head,
    }
}

/// The parts of the rendered paragraph, in the fixed emission order,
/// built stage by stage: station, time, wind, wind variation, visibility,
/// runway visual ranges, weather, clouds, temperature, pressure, remarks.
pub open spec fn mp1(n: MetarNormalizedV) -> Seq<Seq<char>> {
    match n.station {
        Some(s) => Seq::empty().push("台站 "@ + s),
        None => Seq::empty(),
    }
}

pub open spec fn mp2(n: MetarNormalizedV) -> Seq<Seq<char>> {
    match n.issue_time {
        Some(t) => mp1(n).push(time_phrase(t)),
        None => mp1(n),
    }
}

pub open spec fn mp3(n: MetarNormalizedV) -> Seq<Seq<char>> {
    match n.wind {
        Some(w) => mp2(n).push("风 "@ + describe_wind_s(w)),
        None => mp2(n),
    }
}

pub open spec fn mp4(n: MetarNormalizedV) -> Seq<Seq<char>> {
    match n.wind_variation {
        Some(v) => mp3(n).push(
            "风向在 "@ + dec_str(v.from_deg as nat) + "°-"@ + dec_str(v.to_deg as nat)
                + "° 间波动"@,
        ),
        None => mp3(n),
    }
}

pub open spec fn mp5(n: MetarNormalizedV) -> Seq<Seq<char>> {
    match n.visibility_m {
        Some(d) => mp4(n).push("能见度 "@ + describe_visibility_s(d)),
        None => mp4(n),
    }
}

pub open spec fn mp6(n: MetarNormalizedV) -> Seq<Seq<char>> {
    if n.rvr.len() > 0 {
        mp5(n).push(join_sep(rvr_phrases(n.rvr), "；"@))
    } else {
        mp5(n)
    }
}

pub open spec fn mp7(n: MetarNormalizedV) -> Seq<Seq<char>> {
    if n.weather.len() > 0 {
        mp6(n).push("天气 "@ + join_sep(n.weather, " "@))
    } else {
        mp6(n)
    }
}

pub open spec fn mp8(n: MetarNormalizedV) -> Seq<Seq<char>> {
    if n.clouds.len() > 0 {
        mp7(n).push("云 "@ + describe_clouds_s(n.clouds))
    } else {
        mp7(n)
    }
}

pub open spec fn mp9(n: MetarNormalizedV) -> Seq<Seq<char>> {
    match n.temperature {
        Some(t) => mp8(n).push(
            "气温 "@ + dec_int(t.temperature_c as int) + "°C 露点 "@ + dec_int(
                t.dewpoint_c as int,
            ) + "°C"@,
        ),
        None => mp8(n),
    }
}

pub open spec fn mp10(n: MetarNormalizedV) -> Seq<Seq<char>> {
    match n.pressure_hpa_tenths {
        Some(h) => mp9(n).push(pressure_phrase(n, h)),
        None => mp9(n),
    }
}

pub open spec fn metar_parts(n: MetarNormalizedV, detail: DetailLevel) -> Seq<Seq<char>> {
    if detail != DetailLevel::Brief {
        match n.rmk_raw {
            Some(r) => mp10(n).push("备注（RMK）："@ + truncate_s(r, 120)),
            None => mp10(n),
        }
    } else {
        mp10(n)
    }
}

/// The rendered paragraph: the unsupported-locale placeholder for any
/// locale but `zh-CN`; else the parts joined with commas, with the trend
/// keyword appended outside brief detail.
pub open spec fn translate_metar_s(n: MetarNormalizedV, detail: DetailLevel, lang: Seq<char>)
    -> Seq<char> {
    if lang != "zh-CN"@ {
        "Translation only supports zh-CN for now."@
    } else {
        let text = join_sep(metar_parts(n, detail), "，"@);
        if detail != DetailLevel::Brief {
            match n.trend {
                Some(t) => text + "。趋势："@ + metar_trend_str(t),
                None => text,
            }
        } else {
            text
        }
    }
}

/// The first half of the rendered parts: station, time, wind, wind
/// variation, visibility.
#[verifier::rlimit(60)]
fn metar_parts_front(normalized: &MetarNormalized) -> (parts: Vec<String>)
    ensures
        ssview(parts@) == mp5(normalized@),
{
    let ghost n = normalized@;
    let mut parts: Vec<String> = Vec::new();
    match &normalized.station {
        Some(st) => {
            let mut s = String::from_str("台站 ");
            s.append(st.as_str());
            parts.push(s);
        },
        None => {},
    }
    proof {
        assert(ssview(parts@) =~= mp1(n));
    }
    match &normalized.issue_time {
        Some(t) => {
            parts.push(time_phrase_exec(t));
        },
        None => {},
    }
    proof {
        assert(ssview(parts@) =~= mp2(n));
    }
    match &normalized.wind {
        Some(w) => {
            let mut s = String::from_str("风 ");
            let d = describe_wind(w);
            s.append(d.as_str());
            parts.push(s);
        },
        None => {},
    }
    proof {
        assert(ssview(parts@) =~= mp3(n));
    }
    match &normalized.wind_variation {
        Some(v) => {
            let mut s = String::from_str("风向在 ");
            let a = dec_u32(v.from_deg as u32);
            s.append(a.as_str());
            s.append("°-");
            let b = dec_u32(v.to_deg as u32);
            s.append(b.as_str());
            s.append("° 间波动");
            parts.push(s);
        },
        None => {},
    }
    proof {
        assert(ssview(parts@) =~= mp4(n));
    }
    match normalized.visibility_m {
        Some(d) => {
            let mut s = String::from_str("能见度 ");
            let dv = describe_visibility_meters(d);
            s.append(dv.as_str());
            parts.push(s);
        },
        None => {},
    }
    proof {
        assert(ssview(parts@) =~= mp5(n));
    }
    parts
}

/// The second half of the rendered parts: runway visual ranges, weather,
/// clouds, temperature, pressure and, outside brief detail, remarks.
#[verifier::rlimit(60)]
fn metar_parts_exec(normalized: &MetarNormalized, detail: DetailLevel) -> (parts: Vec<String>)
    ensures
        ssview(parts@) == metar_parts(normalized@, detail),
{
    let ghost n = normalized@;
    let mut parts = metar_parts_front(normalized);
    if normalized.rvr.len() > 0 {
        let phrases = rvr_phrases_exec(&normalized.rvr);
        parts.push(join_strings(&phrases, "；"));
    }
    proof {
        assert(ssview(parts@) =~= mp6(n));
    }
    if normalized.weather.len() > 0 {
        let mut s = String::from_str("天气 ");
        let w = join_strings(&normalized.weather, " ");
        s.append(w.as_str());
        parts.push(s);
    }
    proof {
        assert(ssview(parts@) =~= mp7(n));
    }
    if normalized.clouds.len() > 0 {
        let mut s = String::from_str("云 ");
        let c = describe_clouds(&normalized.clouds);
        s.append(c.as_str());
        parts.push(s);
    }
    proof {
        assert(ssview(parts@) =~= mp8(n));
    }
    match &normalized.temperature {
        Some(t) => {
            let mut s = String::from_str("气温 ");
            let a = dec_i32(t.temperature_c as i32);
            s.append(a.as_str());
            s.append("°C 露点 ");
            let b = dec_i32(t.dewpoint_c as i32);
            s.append(b.as_str());
            s.append("°C");
            parts.push(s);
        },
        None => {},
    }
    proof {
        assert(ssview(parts@) =~= mp9(n));
    }
    match normalized.pressure_hpa_tenths {
        Some(h) => {
            let mut s = if normalized.pressure_hpa_int.is_some() {
                String::from_str("气压（QNH）≈ ")
            } else {
                String::from_str("气压（Altimeter）≈ ")
            };
            let hv = dec_tenths_u32(h);
            s.append(hv.as_str());
            s.append(" hPa");
            match normalized.pressure_inhg_centi {
                Some(c) => {
                    if normalized.pressure_hpa_int.is_some() {
                        s.append("（Altimeter ≈ ");
                        let alt = dec_tenths_u32(altimeter_to_hpa_tenths(c));
                        s.append(alt.as_str());
                        s.append(" hPa）");
                    }
                },
                None => {},
            }
            proof {
                assert(s@ =~= pressure_phrase(n, h));
            }
            parts.push(s);
        },
        None => {},
    }
    proof {
        assert(ssview(parts@) =~= mp10(n));
    }
    if !matches!(detail, DetailLevel::Brief) {
        match &normalized.rmk_raw {
            Some(raw) => {
                let mut s = String::from_str("备注（RMK）：");
                let tr = truncate_text(raw.as_str(), 120);
                s.append(tr.as_str());
                parts.push(s);
            },
            None => {},
        }
    }
    proof {
        assert(ssview(parts@) =~= metar_parts(n, detail));
    }
    parts
}

/// Render a normalized METAR in the requested locale and detail level.
pub fn translate_metar(normalized: &MetarNormalized, detail: DetailLevel, lang: &str) -> (r:
    String)
    ensures
        r@ == translate_metar_s(normalized@, detail, lang@),
{
    let lv = to_chars(lang);
    if !chars_eq_lit(&lv, "zh-CN") {
        return String::from_str("Translation only supports zh-CN for now.");
    }
    let ghost n = normalized@;
    let parts = metar_parts_exec(normalized, detail);
    let mut text = join_strings(&parts, "，");
    if !matches!(detail, DetailLevel::Brief) {
        match normalized.trend {
            Some(t) => {
                text.append("。趋势：");
                text.append(t.as_str());
            },
            None => {},
        }
    }
    proof {
        assert(text@ =~= translate_metar_s(n, detail, lang@));
    }
    text
}

/// The warning issues lifted from the legacy scan messages, in order.
pub open spec fn legacy_issues(ms: Seq<Seq<char>>) -> Seq<IssueV> {
    ms.map_values(|m: Seq<char>| issue_from_legacy_s(m))
}

#[verifier::loop_isolation(false)]
pub(crate) fn issues_from_legacy_vec(msgs: &Vec<String>) -> (out: Vec<Issue>)
    ensures
        sview(out@) == legacy_issues(ssview(msgs@)),
{
    let mut out: Vec<Issue> = Vec::new();
    let mut i: usize = 0;
    while i < msgs.len()
        invariant
            i <= msgs@.len(),
            out@.len() == i,
            forall|k: int| 0 <= k < i ==> #[trigger] out@[k]@ == issue_from_legacy_s(msgs@[k]@),
        decreases msgs@.len() - i,
    {
        out.push(issue_from_legacy(msgs[i].as_str()));
        i = i + 1;
    }
    proof {
        assert forall|k: int| 0 <= k < msgs@.len() implies ssview(msgs@)[k] == msgs@[k]@
            && sview(out@)[k] == out@[k]@ by {}
        assert(sview(out@) =~= legacy_issues(ssview(msgs@)));
    }
    out
}

/// The warning emitted when both pressure groups are present.
pub open spec fn pressure_conflict_issue() -> IssueV {
    IssueV {
        code: IssueCode::PressureConflict,
        message: "Both QNH and altimeter present; using QNH as primary pressure."@,
        token: None,
        span: None,
    }
}

/// The pre-sort warning list of a METAR decode: the scan warnings as
/// issues, plus one pressure-conflict warning when both a QNH and an
/// altimeter group were parsed.
pub open spec fn metar_warnings_s(raw: Seq<char>) -> Seq<IssueV> {
    let sc = parse_metar_s(raw);
    let w0 = legacy_issues(sc.warns);
    if sc.p.pressure_qnh is Some && sc.p.altimeter is Some {
        w0.push(pressure_conflict_issue())
    } else {
        w0
    }
}

/// The full METAR response: parsed record, normalized record, rendered
/// explanation, deterministically sorted warnings and their legacy
/// mirrors. The type fields all read `metar`; the orchestrator overwrites
/// them with its own authoritative values.
pub open spec fn decode_metar_s(raw: Seq<char>, detail: DetailLevel, lang: Seq<char>)
    -> DecodeResponseV {
    let sc = parse_metar_s(raw);
    let normalized = normalize_metar_s(sc.p);
    let warnings = sort_issues_s(metar_warnings_s(raw));
    DecodeResponseV {
        schema_version: "1.0"@,
        message_type: MessageType::Metar,
        requested_type: MessageType::Metar,
        detected_type: MessageType::Metar,
        final_type: MessageType::Metar,
        raw: trim_s(raw),
        parsed: Some(ParsedMessageV::Metar(sc.p)),
        normalized: Some(NormalizedMessageV::Metar(normalized)),
        explain: Some(translate_metar_s(normalized, detail, lang)),
        warnings,
        errors: Seq::empty(),
        warnings_legacy: legacy_of(warnings),
        errors_legacy: None,
    }
}

/// Decode a raw METAR/SPECI end to end. Never fails for any input.
#[verifier::rlimit(60)]
pub fn decode_metar(raw: &str, detail: DetailLevel, lang: &str) -> (r: DecodeResponse)
    ensures
        r@ == decode_metar_s(raw@, detail, lang@),
{
    let (parsed, warn_msgs) = parse_metar(raw);
    let normalized = normalize_metar(&parsed);
    let explain = translate_metar(&normalized, detail, lang);
    let mut warnings = issues_from_legacy_vec(&warn_msgs);
    if parsed.pressure_qnh.is_some() && parsed.altimeter.is_some() {
        let ghost w0 = warnings@;
        let x = issue(
            IssueCode::PressureConflict,
            "Both QNH and altimeter present; using QNH as primary pressure.",
            None,
        );
        let ghost x_v = x@;
        warnings.push(x);
        proof {
            assert(sview(warnings@) =~= sview(w0).push(x_v));
            assert(x_v =~~= pressure_conflict_issue());
            assert(sview(warnings@) == metar_warnings_s(raw@));
        }
    }
    proof {
        assert(sview(warnings@) == metar_warnings_s(raw@));
    }
    let mut errors: Vec<Issue> = Vec::new();
    let legacy = finalize_issues(&mut warnings, &mut errors);
    let rv = to_chars(raw);
    let trimmed = trim_chars(&rv);
    let r = DecodeResponse {
        schema_version: String::from_str("1.0"),
        message_type: MessageType::Metar,
        requested_type: MessageType::Metar,
        detected_type: MessageType::Metar,
        final_type: MessageType::Metar,
        raw: chars_string(&trimmed),
        parsed: Some(ParsedMessage::Metar(parsed)),
        normalized: Some(NormalizedMessage::Metar(normalized)),
        explain: Some(explain),
        warnings,
        errors,
        warnings_legacy: legacy.0,
        errors_legacy: legacy.1,
    };
    proof {
        assert(sview(Seq::<Issue>::empty()) =~= Seq::<IssueV>::empty());
        assert(sort_issues_s(Seq::<IssueV>::empty()) == Seq::<IssueV>::empty());
        assert(r@ =~~= decode_metar_s(raw@, detail, lang@));
    }
    r
}

/// The unrecognized-token message of one token.
pub open spec fn unknown_msg_of(t: Seq<char>) -> Seq<char> {
    "Unrecognized token: "@ + t
}

/// The unrecognized-token message of each token, in order.
pub open spec fn unknown_msgs(ts: Seq<Seq<char>>) -> Seq<Seq<char>> {
    ts.map_values(|t: Seq<char>| unknown_msg_of(t))
}

proof fn lemma_metar_scan_conservation(st: MetarScanV, toks: Seq<Seq<char>>)
    requires
        st.warns == unknown_msgs(st.p.raw_tokens),
    ensures
        metar_scan(st, toks).warns == unknown_msgs(metar_scan(st, toks).p.raw_tokens),
        forall|k: int|
            0 <= k < metar_scan(st, toks).p.raw_tokens.len() ==> st.p.raw_tokens.contains(
                #[trigger] metar_scan(st, toks).p.raw_tokens[k],
            ) || toks.contains(metar_scan(st, toks).p.raw_tokens[k]),
    decreases toks.len(),
{
    if toks.len() > 0 {
        let t = toks[0];
        let st2 = metar_step(st, t);
        assert(st2.p.raw_tokens == st.p.raw_tokens || st2.p.raw_tokens == st.p.raw_tokens.push(
            t,
        ));
        if st2.p.raw_tokens == st.p.raw_tokens.push(t) {
            assert(unknown_msgs(st.p.raw_tokens.push(t)) =~= unknown_msgs(st.p.raw_tokens).push(
                "Unrecognized token: "@ + t,
            ));
        }
        lemma_metar_scan_conservation(st2, toks.skip(1));
        let fin = metar_scan(st, toks);
        assert(fin == metar_scan(st2, toks.skip(1)));
        assert forall|k: int|
            0 <= k < fin.p.raw_tokens.len() implies st.p.raw_tokens.contains(
            #[trigger] fin.p.raw_tokens[k],
        ) || toks.contains(fin.p.raw_tokens[k]) by {
            let x = fin.p.raw_tokens[k];
            if st2.p.raw_tokens.contains(x) {
                if st2.p.raw_tokens == st.p.raw_tokens.push(t) {
                    let j = choose|j: int|
                        0 <= j < st2.p.raw_tokens.len() && st2.p.raw_tokens[j] == x;
                    if j < st.p.raw_tokens.len() {
                        assert(st.p.raw_tokens.contains(x));
                    } else {
                        assert(x == t);
                        assert(toks[0] == x);
                        assert(toks.contains(x));
                    }
                }
            } else {
                assert(toks.skip(1).contains(x));
                let j = choose|j: int| 0 <= j < toks.skip(1).len() && toks.skip(1)[j] == x;
                assert(toks[j + 1] == x);
                assert(toks.contains(x));
            }
        }
    }
}

/// Token conservation: the warnings of a METAR parse are exactly the
/// unrecognized-token messages of its `raw_tokens`, in order — one
/// warning per leftover token, none for consumed tokens or the dropped
/// `=` — and every entry of `raw_tokens` is a whitespace token of the
/// input.
pub proof fn lemma_metar_token_conservation(raw: Seq<char>)
    ensures
        parse_metar_s(raw).warns == unknown_msgs(parse_metar_s(raw).p.raw_tokens),
        forall|k: int|
            0 <= k < parse_metar_s(raw).p.raw_tokens.len() ==> tokenize(raw).contains(
                #[trigger] parse_metar_s(raw).p.raw_tokens[k],
            ),
{
    let toks = tokenize(raw);
    let h = metar_header_s(toks);
    let st0 = MetarScanV {
        p: metar_empty_v(h.0, h.1),
        warns: Seq::empty(),
        in_rmk: false,
    };
    assert(unknown_msgs(st0.p.raw_tokens) =~= Seq::<Seq<char>>::empty());
    lemma_metar_scan_conservation(st0, toks.skip(h.2));
    assert forall|k: int|
        0 <= k < parse_metar_s(raw).p.raw_tokens.len() implies tokenize(raw).contains(
        #[trigger] parse_metar_s(raw).p.raw_tokens[k],
    ) by {
        let x = parse_metar_s(raw).p.raw_tokens[k];
        assert(toks.skip(h.2).contains(x));
        let j = choose|j: int| 0 <= j < toks.skip(h.2).len() && toks.skip(h.2)[j] == x;
        assert(toks[j + h.2] == x);
        assert(toks.contains(x));
    }
}

proof fn lemma_metar_scan_qnh_unit(st: MetarScanV, toks: Seq<Seq<char>>)
    requires
        st.p.pressure_qnh is Some ==> st.p.pressure_qnh == Some(
            Pressure { value: st.p.pressure_qnh->0.value, unit: PressureUnit::Hpa },
        ),
    ensures
        metar_scan(st, toks).p.pressure_qnh is Some ==> metar_scan(st, toks).p.pressure_qnh
            == Some(
            Pressure {
                value: metar_scan(st, toks).p.pressure_qnh->0.value,
                unit: PressureUnit::Hpa,
            },
        ),
    decreases toks.len(),
{
    if toks.len() > 0 {
        lemma_metar_scan_qnh_unit(metar_step(st, toks[0]), toks.skip(1));
    }
}

proof fn lemma_legacy_issues_code(ms: Seq<Seq<char>>, c: IssueCode)
    requires
        c != IssueCode::UnknownToken,
        c != IssueCode::Warning,
    ensures
        crate::issues::count_code(legacy_issues(ms), c) == 0,
    decreases ms.len(),
{
    if ms.len() == 0 {
        assert(legacy_issues(ms) =~= Seq::<IssueV>::empty());
    } else {
        lemma_legacy_issues_code(ms.skip(1), c);
        assert(legacy_issues(ms).skip(1) =~= legacy_issues(ms.skip(1)));
        assert(legacy_issues(ms)[0] == issue_from_legacy_s(ms[0]));
    }
}

/// No warning of a METAR decode carries a code outside unknown-token,
/// plain warning and pressure-conflict.
pub proof fn lemma_no_code_in_metar_warnings(raw: Seq<char>, c: IssueCode)
    requires
        c != IssueCode::UnknownToken,
        c != IssueCode::Warning,
        c != IssueCode::PressureConflict,
    ensures
        crate::issues::count_code(sort_issues_s(metar_warnings_s(raw)), c) == 0,
{
    let sc = parse_metar_s(raw);
    lemma_legacy_issues_code(sc.warns, c);
    if sc.p.pressure_qnh is Some && sc.p.altimeter is Some {
        crate::issues::lemma_count_code_push(legacy_issues(sc.warns), pressure_conflict_issue(), c);
    }
    crate::issues::lemma_count_code_sorted(metar_warnings_s(raw), c);
}

/// Pressure conflict: a METAR carrying both a `Qxxxx` and an `Axxxx`
/// group decodes with exactly one pressure-conflict warning, and the QNH
/// value stays the authoritative pressure: `pressure_hpa_int` holds it
/// and `pressure_hpa_tenths` is exactly ten times it.
pub proof fn lemma_metar_pressure_conflict(raw: Seq<char>, detail: DetailLevel, lang: Seq<char>)
    requires
        parse_metar_s(raw).p.pressure_qnh is Some,
        parse_metar_s(raw).p.altimeter is Some,
    ensures
        crate::issues::count_code(
            decode_metar_s(raw, detail, lang).warnings,
            IssueCode::PressureConflict,
        ) == 1,
        normalize_metar_s(parse_metar_s(raw).p).pressure_hpa_int == Some(
            parse_metar_s(raw).p.pressure_qnh->0.value,
        ),
        normalize_metar_s(parse_metar_s(raw).p).pressure_hpa_tenths == Some(
            (parse_metar_s(raw).p.pressure_qnh->0.value * 10) as u32,
        ),
{
    let toks = tokenize(raw);
    let h = metar_header_s(toks);
    let st0 = MetarScanV {
        p: metar_empty_v(h.0, h.1),
        warns: Seq::empty(),
        in_rmk: false,
    };
    lemma_metar_scan_qnh_unit(st0, toks.skip(h.2));
    let sc = parse_metar_s(raw);
    lemma_legacy_issues_code(sc.warns, IssueCode::PressureConflict);
    let w0 = legacy_issues(sc.warns);
    crate::issues::lemma_count_code_push(w0, pressure_conflict_issue(), IssueCode::PressureConflict);
    crate::issues::lemma_count_code_sorted(metar_warnings_s(raw), IssueCode::PressureConflict);
}

} // verus!
