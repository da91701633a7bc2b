//! The TAF pipeline: header scan, a body scan that maintains a current
//! BECMG/TEMPO trend cursor (absent means the base forecast), unit
//! canonicalization, localized rendering and the response envelope. The
//! body scan is specified as a fold of a step function over the token
//! list, with a one-token lookahead for a trend's validity period encoded
//! as an `expect_period` flag.
use vstd::prelude::*;

use crate::convert::{
    describe_clouds, describe_clouds_s, describe_visibility_meters, describe_visibility_s,
    describe_wind, describe_wind_s, normalize_wind, normalize_wind_s, vis_to_m_s,
    visibility_to_meters,
};
use crate::issues::{finalize_issues, legacy_of, sort_issues_s};
use crate::metar::{issues_from_legacy_vec, legacy_issues, time_phrase, time_phrase_exec};
use crate::parse::{
    cloud_layer_of, cloud_layer_s, is_station_token, is_weather_token, station_token_of,
    time_group_of, time_group_s, validity_of, validity_s, vis_m_of, vis_m_s, weather_token_of,
    wind_of, wind_s,
};
use crate::text::{
    chars_eq_lit, chars_has_prefix, chars_string, dec_pad2, dec_pad2_u8, has_prefix, join_sep,
    join_strings, ssview, to_chars, tokenize, tokenize_chars, trim_chars, trim_s, vsview,
};
use crate::types::{
    clone_clouds, clone_opt_string, clone_strings, oview, sview, trend_kind_str, CloudLayer,
    CloudLayerV, DecodeResponse, DecodeResponseV, DetailLevel, Issue, MessageType,
    NormalizedMessage, NormalizedMessageV, ParsedMessage, ParsedMessageV, TafNormalized,
    TafNormalizedV, TafParsed, TafParsedV, TafTrend, TafTrendNormalized, TafTrendNormalizedV,
    TafTrendV, TrendKind, UtcTime, ValidityPeriod, VisUnit, Visibility, VisibilityV,
};

verus! {

/// The state the body scan folds over: the base record, the open trend
/// cursor, whether the next token may be the open trend's validity
/// period, and the warning messages in emission order.
#[verifier::ext_equal]
pub struct TafScanV {
    pub p: TafParsedV,
    pub cur: Option<TafTrendV>,
    pub expect_period: bool,
    pub warns: Seq<Seq<char>>,
}

pub open spec fn tstate(
    p: TafParsedV,
    cur: Option<TafTrendV>,
    expect_period: bool,
    warns: Seq<Seq<char>>,
) -> TafScanV {
    TafScanV { p, cur, expect_period, warns }
}

/// The empty base record the scan starts from, after the header.
pub open spec fn taf_empty_v(
    station: Option<Seq<char>>,
    time: Option<UtcTime>,
    validity: Option<ValidityPeriod>,
) -> TafParsedV {
    TafParsedV {
        station,
        issue_time: time,
        validity,
        wind: None,
        visibility: None,
        weather: Seq::empty(),
        clouds: Seq::empty(),
        temperatures: Seq::empty(),
        trends: Seq::empty(),
        raw_tokens: Seq::empty(),
    }
}

/// A fresh trend record of the given kind.
pub open spec fn trend_empty_v(kind: TrendKind) -> TafTrendV {
    TafTrendV {
        kind,
        period: None,
        wind: None,
        visibility: None,
        weather: Seq::empty(),
        clouds: Seq::empty(),
        raw_tokens: Seq::empty(),
    }
}

/// The optional header: a `TAF` literal, an `AMD`/`COR`/`RTD` amendment
/// flag only right after it, a station, an issue time, a validity period
/// — strict order, each stopping the header scan on its first non-match.
pub open spec fn taf_header_s(toks: Seq<Seq<char>>) -> (
    Option<Seq<char>>,
    Option<UtcTime>,
    Option<ValidityPeriod>,
    int,
) {
    let i0: int = if toks.len() > 0 && toks[0] == "TAF"@ {
        1
    } else {
        0
    };
    let i0b: int = if i0 == 1 && 1 < toks.len() && (toks[1] == "AMD"@ || toks[1] == "COR"@
        || toks[1] == "RTD"@) {
        2
    } else {
        i0
    };
    let station: Option<Seq<char>> = if i0b < toks.len() && is_station_token(toks[i0b]) {
        Some(toks[i0b])
    } else {
        None
    };
    let i1: int = if station is Some {
        i0b + 1
    } else {
        i0b
    };
    let time: Option<UtcTime> = if i1 < toks.len() && time_group_s(toks[i1]) is Some {
        time_group_s(toks[i1])
    } else {
        None
    };
    let i2: int = if time is Some {
        i1 + 1
    } else {
        i1
    };
    let validity: Option<ValidityPeriod> = if i2 < toks.len() && validity_s(toks[i2]) is Some {
        validity_s(toks[i2])
    } else {
        None
    };
    let i3: int = if validity is Some {
        i2 + 1
    } else {
        i2
    };
    (station, time, validity, i3)
}

/// Flush the open trend, if any, into the trend list.
pub open spec fn taf_flush(st: TafScanV) -> TafScanV {
    match st.cur {
        Some(tr) => TafScanV {
            p: TafParsedV { trends: st.p.trends.push(tr), ..st.p },
            cur: None,
            ..st
        },
        None => st,
    }
}

pub open spec fn taf_set_wind(st: TafScanV, w: crate::types::Wind) -> TafScanV {
    match st.cur {
        Some(tr) => TafScanV { cur: Some(TafTrendV { wind: Some(w), ..tr }), ..st },
        None => TafScanV { p: TafParsedV { wind: Some(w), ..st.p }, ..st },
    }
}

pub open spec fn taf_set_vis(st: TafScanV, v: VisibilityV) -> TafScanV {
    match st.cur {
        Some(tr) => TafScanV { cur: Some(TafTrendV { visibility: Some(v), ..tr }), ..st },
        None => TafScanV { p: TafParsedV { visibility: Some(v), ..st.p }, ..st },
    }
}

pub open spec fn taf_push_cloud(st: TafScanV, l: CloudLayerV) -> TafScanV {
    match st.cur {
        Some(tr) => TafScanV { cur: Some(TafTrendV { clouds: tr.clouds.push(l), ..tr }), ..st },
        None => TafScanV { p: TafParsedV { clouds: st.p.clouds.push(l), ..st.p }, ..st },
    }
}

pub open spec fn taf_push_weather(st: TafScanV, t: Seq<char>) -> TafScanV {
    match st.cur {
        Some(tr) => TafScanV { cur: Some(TafTrendV { weather: tr.weather.push(t), ..tr }), ..st },
        None => TafScanV { p: TafParsedV { weather: st.p.weather.push(t), ..st.p }, ..st },
    }
}

pub open spec fn taf_push_raw(st: TafScanV, t: Seq<char>) -> TafScanV {
    let with_raw: TafScanV = match st.cur {
        Some(tr) => TafScanV {
            cur: Some(TafTrendV { raw_tokens: tr.raw_tokens.push(t), ..tr }),
            ..st
        },
        None => TafScanV { p: TafParsedV { raw_tokens: st.p.raw_tokens.push(t), ..st.p }, ..st },
    };
    TafScanV { warns: st.warns.push("Unrecognized token: "@ + t), ..with_raw }
}

/// One step of the body scan. A validity period right after a trend
/// keyword becomes that trend's period; a trend keyword flushes the open
/// trend and opens a new one; every other grammar applies to whichever
/// scope is open, in the fixed priority order; temperature-extreme `TX`/
/// `TN` tokens always go to the base record; an unmatched token lands in
/// the open scope's leftovers with a warning; `=` is dropped.
pub open spec fn taf_step(st: TafScanV, t: Seq<char>) -> TafScanV {
    if st.expect_period && validity_s(t) is Some && st.cur is Some {
        match (st.cur, validity_s(t)) {
            (Some(tr), Some(p)) => TafScanV {
                cur: Some(TafTrendV { period: Some(p), ..tr }),
                expect_period: false,
                ..st
            },
            _ => st,
        }
    } else {
        let st0 = TafScanV { expect_period: false, ..st };
        if t == "BECMG"@ || t == "TEMPO"@ {
            let kind: TrendKind = if t == "BECMG"@ {
                TrendKind::Becmg
            } else {
                TrendKind::Tempo
            };
            let flushed = taf_flush(st0);
            TafScanV { cur: Some(trend_empty_v(kind)), expect_period: true, ..flushed }
        } else if t == "CAVOK"@ {
            taf_set_vis(st0, VisibilityV { distance: 10000, unit: VisUnit::M, raw: t })
        } else if wind_s(t) is Some {
            match wind_s(t) {
                Some(w) => taf_set_wind(st0, w),
                None => st0,
            }
        } else if vis_m_s(t) is Some {
            match vis_m_s(t) {
                Some(v) => taf_set_vis(st0, v),
                None => st0,
            }
        } else if cloud_layer_s(t) is Some {
            match cloud_layer_s(t) {
                Some((amount, height, kind)) => taf_push_cloud(
                    st0,
                    CloudLayerV { amount, height_ft: height, cloud_type: kind, raw: t },
                ),
                None => st0,
            }
        } else if has_prefix(t, "TX"@) || has_prefix(t, "TN"@) {
            TafScanV { p: TafParsedV { temperatures: st0.p.temperatures.push(t), ..st0.p }, ..st0 }
        } else if is_weather_token(t) {
            taf_push_weather(st0, t)
        } else if t == "="@ {
            st0
        } else {
            taf_push_raw(st0, t)
        }
    }
}

/// The fold of the step function over the remaining tokens.
pub open spec fn taf_scan(st: TafScanV, toks: Seq<Seq<char>>) -> TafScanV
    decreases toks.len(),
{
    if toks.len() == 0 {
        st
    } else {
        taf_scan(taf_step(st, toks[0]), toks.skip(1))
    }
}

/// What parsing a raw TAF yields: the header fields, the body fold over
/// the remaining tokens, and a final flush of any open trend.
pub open spec fn parse_taf_s(raw: Seq<char>) -> TafScanV {
    let toks = tokenize(raw);
    let h = taf_header_s(toks);
    taf_flush(
        taf_scan(
            TafScanV {
                p: taf_empty_v(h.0, h.1, h.2),
                cur: None,
                expect_period: false,
                warns: Seq::empty(),
            },
            toks.skip(h.3),
        ),
    )
}

/// Apply one body token to the scan state, exactly as `taf_step` says.
#[verifier::rlimit(100)]
fn taf_step_exec(
    parsed: &mut TafParsed,
    cur_trend: &mut TafTrend,
    in_trend: &mut bool,
    expect_period: &mut bool,
    warnings: &mut Vec<String>,
    tok: &Vec<char>,
)
    ensures
        tstate(
            final(parsed)@,
            if *final(in_trend) {
                Some(final(cur_trend)@)
            } else {
                None
            },
            *final(expect_period),
            ssview(final(warnings)@),
        ) == taf_step(
            tstate(
                old(parsed)@,
                if *old(in_trend) {
                    Some(old(cur_trend)@)
                } else {
                    None
                },
                *old(expect_period),
                ssview(old(warnings)@),
            ),
            tok@,
        ),
{
    let ghost pre = tstate(
        old(parsed)@,
        if *old(in_trend) {
            Some(old(cur_trend)@)
        } else {
            None
        },
        *old(expect_period),
        ssview(old(warnings)@),
    );
    let ghost t = tok@;
        let mut handled = false;
        if *expect_period && *in_trend {
            match validity_of(tok) {
                Some(p) => {
                    cur_trend.period = Some(p);
                    *expect_period = false;
                    handled = true;
                },
                None => {},
            }
        }
        if !handled {
            *expect_period = false;
            let becmg = chars_eq_lit(tok, "BECMG");
            let tempo = chars_eq_lit(tok, "TEMPO");
            if becmg || tempo {
                if *in_trend {
                    let ghost tr0 = parsed.trends@;
                    let flushed = crate::types::clone_taf_trend(cur_trend);
                    let ghost c_v = flushed@;
                    parsed.trends.push(flushed);
                    proof {
                        assert(sview(parsed.trends@) =~= sview(tr0).push(c_v));
                    }
                }
                *cur_trend = TafTrend {
                    kind: if becmg {
                        TrendKind::Becmg
                    } else {
                        TrendKind::Tempo
                    },
                    period: None,
                    wind: None,
                    visibility: None,
                    weather: Vec::new(),
                    clouds: Vec::new(),
                    raw_tokens: Vec::new(),
                };
                *in_trend = true;
                *expect_period = true;
            } else if chars_eq_lit(tok, "CAVOK") {
                let vis = Visibility { distance: 10000, unit: VisUnit::M, raw: chars_string(tok) };
                if *in_trend {
                    cur_trend.visibility = Some(vis);
                } else {
                    parsed.visibility = Some(vis);
                }
            } else if let Some(w) = wind_of(tok) {
                if *in_trend {
                    cur_trend.wind = Some(w);
                } else {
                    parsed.wind = Some(w);
                }
            } else if let Some(vis) = vis_m_of(tok) {
                if *in_trend {
                    cur_trend.visibility = Some(vis);
                } else {
                    parsed.visibility = Some(vis);
                }
            } else if let Some((amount, height, kind)) = cloud_layer_of(tok) {
                let layer = CloudLayer {
                    amount,
                    height_ft: height,
                    cloud_type: kind,
                    raw: chars_string(tok),
                };
                let ghost l_v = layer@;
                if *in_trend {
                    let ghost c0 = cur_trend.clouds@;
                    cur_trend.clouds.push(layer);
                    proof {
                        assert(sview(cur_trend.clouds@) =~= sview(c0).push(l_v));
                    }
                } else {
                    let ghost c0 = parsed.clouds@;
                    parsed.clouds.push(layer);
                    proof {
                        assert(sview(parsed.clouds@) =~= sview(c0).push(l_v));
                    }
                }
            } else if chars_has_prefix(tok, "TX") || chars_has_prefix(tok, "TN") {
                let ghost t0 = parsed.temperatures@;
                parsed.temperatures.push(chars_string(tok));
                proof {
                    assert(ssview(parsed.temperatures@) =~= ssview(t0).push(t));
                }
            } else if weather_token_of(tok) {
                let ts = chars_string(tok);
                if *in_trend {
                    let ghost w0 = cur_trend.weather@;
                    cur_trend.weather.push(ts);
                    proof {
                        assert(ssview(cur_trend.weather@) =~= ssview(w0).push(t));
                    }
                } else {
                    let ghost w0 = parsed.weather@;
                    parsed.weather.push(ts);
                    proof {
                        assert(ssview(parsed.weather@) =~= ssview(w0).push(t));
                    }
                }
            } else if chars_eq_lit(tok, "=") {
            } else {
                let ts = chars_string(tok);
                if *in_trend {
                    let ghost r0 = cur_trend.raw_tokens@;
                    cur_trend.raw_tokens.push(ts);
                    proof {
                        assert(ssview(cur_trend.raw_tokens@) =~= ssview(r0).push(t));
                    }
                } else {
                    let ghost r0 = parsed.raw_tokens@;
                    parsed.raw_tokens.push(ts);
                    proof {
                        assert(ssview(parsed.raw_tokens@) =~= ssview(r0).push(t));
                    }
                }
                let ghost wn0 = warnings@;
                let mut msg = String::from_str("Unrecognized token: ");
                let ts2 = chars_string(tok);
                msg.append(ts2.as_str());
                let ghost m_v = msg@;
                warnings.push(msg);
                proof {
                    assert(ssview(warnings@) =~= ssview(wn0).push(m_v));
                }
            }
        }
    proof {
        let post = tstate(
            final(parsed)@,
            if *final(in_trend) {
                Some(final(cur_trend)@)
            } else {
                None
            },
            *final(expect_period),
            ssview(final(warnings)@),
        );
        assert(post =~~= taf_step(pre, t));
    }
}

/// Consume the optional TAF header from the token list, yielding the
/// station, issue time, validity and the index of the first body token.
#[verifier::rlimit(60)]
fn taf_header_exec(toks: &Vec<Vec<char>>) -> (r: (
    Option<String>,
    Option<UtcTime>,
    Option<ValidityPeriod>,
    usize,
))
    ensures
        oview(r.0) == taf_header_s(vsview(toks@)).0,
        r.1 == taf_header_s(vsview(toks@)).1,
        r.2 == taf_header_s(vsview(toks@)).2,
        r.3 as int == taf_header_s(vsview(toks@)).3,
        r.3 <= toks@.len(),
{
    let ghost tv = vsview(toks@);
    let n = toks.len();
    let mut idx: usize = 0;
    proof {
        if n > 0 {
            assert(tv[0] == toks@[0]@);
        }
        if n > 1 {
            assert(tv[1] == toks@[1]@);
        }
    }
    if n > 0 && chars_eq_lit(&toks[0], "TAF") {
        idx = 1;
        if n > 1 && (chars_eq_lit(&toks[1], "AMD") || chars_eq_lit(&toks[1], "COR")
            || chars_eq_lit(&toks[1], "RTD")) {
            idx = 2;
        }
    }
    let mut station: Option<String> = None;
    if idx < n {
        proof {
            assert(tv[idx as int] == toks@[idx as int]@);
        }
        if station_token_of(&toks[idx]) {
            station = Some(chars_string(&toks[idx]));
            idx = idx + 1;
        }
    }
    let mut issue_time: Option<UtcTime> = None;
    if idx < n {
        proof {
            assert(tv[idx as int] == toks@[idx as int]@);
        }
        match time_group_of(&toks[idx]) {
            Some(t) => {
                issue_time = Some(t);
                idx = idx + 1;
            },
            None => {},
        }
    }
    let mut validity: Option<ValidityPeriod> = None;
    if idx < n {
        proof {
            assert(tv[idx as int] == toks@[idx as int]@);
        }
        match validity_of(&toks[idx]) {
            Some(p) => {
                validity = Some(p);
                idx = idx + 1;
            },
            None => {},
        }
    }
    (station, issue_time, validity, idx)
}

/// Parse a raw TAF into the structured record plus the legacy warning
/// messages, exactly as the scan fold specifies. Never fails.
#[verifier::loop_isolation(false)]
#[verifier::rlimit(100)]
pub fn parse_taf(raw: &str) -> (r: (TafParsed, Vec<String>))
    ensures
        r.0@ == parse_taf_s(raw@).p,
        ssview(r.1@) == parse_taf_s(raw@).warns,
{
    let rv = to_chars(raw);
    let toks = tokenize_chars(&rv);
    let ghost tv = vsview(toks@);
    let n = toks.len();
    let (station, issue_time, validity, mut idx) = taf_header_exec(&toks);
    let ghost h = taf_header_s(tv);
    let mut parsed = TafParsed {
        station,
        issue_time,
        validity,
        wind: None,
        visibility: None,
        weather: Vec::new(),
        clouds: Vec::new(),
        temperatures: Vec::new(),
        trends: Vec::new(),
        raw_tokens: Vec::new(),
    };
    let mut warnings: Vec<String> = Vec::new();
    let mut in_trend: bool = false;
    let mut expect_period: bool = false;
    let mut cur_trend = TafTrend {
        kind: TrendKind::Becmg,
        period: None,
        wind: None,
        visibility: None,
        weather: Vec::new(),
        clouds: Vec::new(),
        raw_tokens: Vec::new(),
    };
    proof {
        assert(parsed@ =~~= taf_empty_v(h.0, h.1, h.2));
        assert(ssview(warnings@) =~= Seq::<Seq<char>>::empty());
        assert(tstate(parsed@, None, false, ssview(warnings@)) =~~= TafScanV {
            p: taf_empty_v(h.0, h.1, h.2),
            cur: None,
            expect_period: false,
            warns: Seq::empty(),
        });
    }
    while idx < n
        invariant
            idx <= n,
            taf_scan(
                tstate(
                    parsed@,
                    if in_trend {
                        Some(cur_trend@)
                    } else {
                        None
                    },
                    expect_period,
                    ssview(warnings@),
                ),
                tv.skip(idx as int),
            ) == taf_scan(
                TafScanV {
                    p: taf_empty_v(h.0, h.1, h.2),
                    cur: None,
                    expect_period: false,
                    warns: Seq::empty(),
                },
                tv.skip(h.3),
            ),
            expect_period ==> in_trend,
        decreases n - idx,
    {
        let ghost pre = tstate(
            parsed@,
            if in_trend {
                Some(cur_trend@)
            } else {
                None
            },
            expect_period,
            ssview(warnings@),
        );
        let tok = &toks[idx];
        let ghost t = tv[idx as int];
        proof {
            assert(t == toks@[idx as int]@);
        }
        taf_step_exec(
            &mut parsed,
            &mut cur_trend,
            &mut in_trend,
            &mut expect_period,
            &mut warnings,
            tok,
        );
        proof {
            let post = tstate(
                parsed@,
                if in_trend {
                    Some(cur_trend@)
                } else {
                    None
                },
                expect_period,
                ssview(warnings@),
            );
            assert(post =~~= taf_step(pre, t));
            assert(tv.skip(idx as int)[0] == t);
            assert(tv.skip(idx as int).skip(1) =~= tv.skip(idx as int + 1));
            assert(taf_scan(pre, tv.skip(idx as int)) == taf_scan(
                taf_step(pre, t),
                tv.skip(idx as int + 1),
            ));
        }
        idx = idx + 1;
    }
    if in_trend {
        let ghost tr0 = parsed.trends@;
        let ghost c_v = cur_trend@;
        parsed.trends.push(cur_trend);
        proof {
            assert(sview(parsed.trends@) =~= sview(tr0).push(c_v));
        }
    }
    proof {
        assert(tv.skip(n as int) =~= Seq::<Seq<char>>::empty());
        assert(parsed@ =~~= parse_taf_s(raw@).p);
    }
    (parsed, warnings)
}

/// The canonicalized form of one trend sub-record.
pub open spec fn normalize_trend_s(t: TafTrendV) -> TafTrendNormalizedV {
    TafTrendNormalizedV {
        kind: t.kind,
        period: t.period,
        wind: match t.wind {
            Some(w) => Some(normalize_wind_s(w)),
            None => None,
        },
        visibility_m: match t.visibility {
            Some(v) => vis_to_m_s(v),
            None => None,
        },
        weather: t.weather,
        clouds: t.clouds,
    }
}

pub open spec fn normalized_trends(ts: Seq<TafTrendV>) -> Seq<TafTrendNormalizedV> {
    ts.map_values(|t: TafTrendV| normalize_trend_s(t))
}

/// The canonicalized record: wind in knots, visibility in meters, each
/// trend canonicalized the same way.
pub open spec fn normalize_taf_s(p: TafParsedV) -> TafNormalizedV {
    TafNormalizedV {
        station: p.station,
        issue_time: p.issue_time,
        validity: p.validity,
        wind: match p.wind {
            Some(w) => Some(normalize_wind_s(w)),
            None => None,
        },
        visibility_m: match p.visibility {
            Some(v) => vis_to_m_s(v),
            None => None,
        },
        weather: p.weather,
        clouds: p.clouds,
        temperatures: p.temperatures,
        trends: normalized_trends(p.trends),
    }
}

fn normalize_one_trend(t: &TafTrend) -> (r: TafTrendNormalized)
    ensures
        r@ == normalize_trend_s(t@),
{
    let r = TafTrendNormalized {
        kind: t.kind,
        period: t.period,
        wind: match &t.wind {
            Some(w) => Some(normalize_wind(w)),
            None => None,
        },
        visibility_m: match &t.visibility {
            Some(v) => visibility_to_meters(v),
            None => None,
        },
        weather: clone_strings(&t.weather),
        clouds: clone_clouds(&t.clouds),
    };
    proof {
        assert(r@ =~~= normalize_trend_s(t@));
    }
    r
}

#[verifier::loop_isolation(false)]
fn normalize_trends_exec(ts: &Vec<TafTrend>) -> (out: Vec<TafTrendNormalized>)
    ensures
        sview(out@) == normalized_trends(sview(ts@)),
{
    let mut out: Vec<TafTrendNormalized> = Vec::new();
    let mut i: usize = 0;
    while i < ts.len()
        invariant
            i <= ts@.len(),
            out@.len() == i,
            forall|k: int| 0 <= k < i ==> #[trigger] out@[k]@ == normalize_trend_s(ts@[k]@),
        decreases ts@.len() - i,
    {
        out.push(normalize_one_trend(&ts[i]));
        i = i + 1;
    }
    proof {
        assert forall|k: int| 0 <= k < ts@.len() implies sview(ts@)[k] == ts@[k]@ && sview(
            out@,
        )[k] == out@[k]@ by {}
        assert(sview(out@) =~= normalized_trends(sview(ts@)));
    }
    out
}

/// Canonicalize a parsed TAF; a pure mapping, never re-parsed from raw.
pub fn normalize_taf(parsed: &TafParsed) -> (r: TafNormalized)
    ensures
        r@ == normalize_taf_s(parsed@),
{
    let r = TafNormalized {
        station: clone_opt_string(&parsed.station),
        issue_time: parsed.issue_time,
        validity: parsed.validity,
        wind: match &parsed.wind {
            Some(w) => Some(normalize_wind(w)),
            None => None,
        },
        visibility_m: match &parsed.visibility {
            Some(v) => visibility_to_meters(v),
            None => None,
        },
        weather: clone_strings(&parsed.weather),
        clouds: clone_clouds(&parsed.clouds),
        temperatures: clone_strings(&parsed.temperatures),
        trends: normalize_trends_exec(&parsed.trends),
    };
    proof {
        assert(r@ =~~= normalize_taf_s(parsed@));
    }
    r
}

/// The validity phrase of the base forecast.
pub open spec fn validity_phrase(v: ValidityPeriod) -> Seq<char> {
    "有效期 "@ + dec_pad2(v.from.day as nat) + " 日 "@ + dec_pad2(v.from.hour as nat) + "Z - "@
        + dec_pad2(v.to.day as nat) + " 日 "@ + dec_pad2(v.to.hour as nat) + "Z"@
}

fn validity_phrase_exec(v: &ValidityPeriod) -> (s: String)
    ensures
        s@ == validity_phrase(*v),
{
    let mut s = String::from_str("有效期 ");
    let a = dec_pad2_u8(v.from.day);
    s.append(a.as_str());
    s.append(" 日 ");
    let b = dec_pad2_u8(v.from.hour);
    s.append(b.as_str());
    s.append("Z - ");
    let c = dec_pad2_u8(v.to.day);
    s.append(c.as_str());
    s.append(" 日 ");
    let d = dec_pad2_u8(v.to.hour);
    s.append(d.as_str());
    s.append("Z");
    proof {
        assert(s@ =~= validity_phrase(*v));
    }
    s
}

/// The compact period phrase of a trend line.
pub open spec fn period_phrase(v: ValidityPeriod) -> Seq<char> {
    dec_pad2(v.from.day as nat) + "日"@ + dec_pad2(v.from.hour as nat) + "Z-"@ + dec_pad2(
        v.to.day as nat,
    ) + "日"@ + dec_pad2(v.to.hour as nat) + "Z"@
}

fn period_phrase_exec(v: &ValidityPeriod) -> (s: String)
    ensures
        s@ == period_phrase(*v),
{
    let mut s = dec_pad2_u8(v.from.day);
    s.append("日");
    let b = dec_pad2_u8(v.from.hour);
    s.append(b.as_str());
    s.append("Z-");
    let c = dec_pad2_u8(v.to.day);
    s.append(c.as_str());
    s.append("日");
    let d = dec_pad2_u8(v.to.hour);
    s.append(d.as_str());
    s.append("Z");
    proof {
        assert(s@ =~= period_phrase(*v));
    }
    s
}

/// The parts of one trend line: keyword, period, wind, visibility,
/// weather, clouds.
pub open spec fn tl1(t: TafTrendNormalizedV) -> Seq<Seq<char>> {
    Seq::empty().push(trend_kind_str(t.kind))
}

pub open spec fn tl2(t: TafTrendNormalizedV) -> Seq<Seq<char>> {
    match t.period {
        Some(p) => tl1(t).push(period_phrase(p)),
        None => tl1(t),
    }
}

pub open spec fn tl3(t: TafTrendNormalizedV) -> Seq<Seq<char>> {
    match t.wind {
        Some(w) => tl2(t).push("风 "@ + describe_wind_s(w)),
        None => tl2(t),
    }
}

pub open spec fn tl4(t: TafTrendNormalizedV) -> Seq<Seq<char>> {
    match t.visibility_m {
        Some(d) => tl3(t).push("能见度 "@ + describe_visibility_s(d)),
        None => tl3(t),
    }
}

pub open spec fn tl5(t: TafTrendNormalizedV) -> Seq<Seq<char>> {
    if t.weather.len() > 0 {
        tl4(t).push("天气 "@ + join_sep(t.weather, " "@))
    } else {
        tl4(t)
    }
}

pub open spec fn tl6(t: TafTrendNormalizedV) -> Seq<Seq<char>> {
    if t.clouds.len() > 0 {
        tl5(t).push("云 "@ + describe_clouds_s(t.clouds))
    } else {
        tl5(t)
    }
}

/// One trend line: its parts joined with commas.
pub open spec fn trend_line(t: TafTrendNormalizedV) -> Seq<char> {
    join_sep(tl6(t), "，"@)
}

pub open spec fn trend_lines(ts: Seq<TafTrendNormalizedV>) -> Seq<Seq<char>> {
    ts.map_values(|t: TafTrendNormalizedV| trend_line(t))
}

#[verifier::rlimit(60)]
fn trend_line_exec(t: &TafTrendNormalized) -> (r: String)
    ensures
        r@ == trend_line(t@),
{
    let ghost n = t@;
    let mut parts: Vec<String> = Vec::new();
    parts.push(String::from_str(t.kind.as_str()));
    proof {
        assert(ssview(parts@) =~= tl1(n));
    }
    match &t.period {
        Some(p) => {
            parts.push(period_phrase_exec(p));
        },
        None => {},
    }
    proof {
        assert(ssview(parts@) =~= tl2(n));
    }
    match &t.wind {
        Some(w) => {
            let mut s = String::from_str("风 ");
            let d = describe_wind(w);
            s.append(d.as_str());
            parts.push(s);
        },
        None => {},
    }
    proof {
        assert(ssview(parts@) =~= tl3(n));
    }
    match t.visibility_m {
        Some(d) => {
            let mut s = String::from_str("能见度 ");
            let dv = describe_visibility_meters(d);
            s.append(dv.as_str());
            parts.push(s);
        },
        None => {},
    }
    proof {
        assert(ssview(parts@) =~= tl4(n));
    }
    if t.weather.len() > 0 {
        let mut s = String::from_str("天气 ");
        let w = join_strings(&t.weather, " ");
        s.append(w.as_str());
        parts.push(s);
    }
    proof {
        assert(ssview(parts@) =~= tl5(n));
    }
    if t.clouds.len() > 0 {
        let mut s = String::from_str("云 ");
        let c = describe_clouds(&t.clouds);
        s.append(c.as_str());
        parts.push(s);
    }
    proof {
        assert(ssview(parts@) =~= tl6(n));
    }
    join_strings(&parts, "，")
}

#[verifier::loop_isolation(false)]
fn trend_lines_exec(ts: &Vec<TafTrendNormalized>) -> (out: Vec<String>)
    ensures
        ssview(out@) == trend_lines(sview(ts@)),
{
    let mut out: Vec<String> = Vec::new();
    let mut i: usize = 0;
    while i < ts.len()
        invariant
            i <= ts@.len(),
            out@.len() == i,
            forall|k: int| 0 <= k < i ==> #[trigger] out@[k]@ == trend_line(ts@[k]@),
        decreases ts@.len() - i,
    {
        out.push(trend_line_exec(&ts[i]));
        i = i + 1;
    }
    proof {
        assert forall|k: int| 0 <= k < ts@.len() implies sview(ts@)[k] == ts@[k]@ && ssview(
            out@,
        )[k] == out@[k]@ by {}
        assert(ssview(out@) =~= trend_lines(sview(ts@)));
    }
    out
}

/// The parts of the base paragraph: station, time, validity, wind,
/// visibility, weather, clouds.
pub open spec fn bp1(n: TafNormalizedV) -> Seq<Seq<char>> {
    match n.station {
        Some(s) => Seq::empty().push("台站 "@ + s),
        None => Seq::empty(),
    }
}

pub open spec fn bp2(n: TafNormalizedV) -> Seq<Seq<char>> {
    match n.issue_time {
        Some(t) => bp1(n).push(time_phrase(t)),
        None => bp1(n),
    }
}

pub open spec fn bp3(n: TafNormalizedV) -> Seq<Seq<char>> {
    match n.validity {
        Some(v) => bp2(n).push(validity_phrase(v)),
        None => bp2(n),
    }
}

pub open spec fn bp4(n: TafNormalizedV) -> Seq<Seq<char>> {
    match n.wind {
        Some(w) => bp3(n).push("风 "@ + describe_wind_s(w)),
        None => bp3(n),
    }
}

pub open spec fn bp5(n: TafNormalizedV) -> Seq<Seq<char>> {
    match n.visibility_m {
        Some(d) => bp4(n).push("能见度 "@ + describe_visibility_s(d)),
        None => bp4(n),
    }
}

pub open spec fn bp6(n: TafNormalizedV) -> Seq<Seq<char>> {
    if n.weather.len() > 0 {
        bp5(n).push("天气 "@ + join_sep(n.weather, " "@))
    } else {
        bp5(n)
    }
}

pub open spec fn taf_parts(n: TafNormalizedV) -> Seq<Seq<char>> {
    if n.clouds.len() > 0 {
        bp6(n).push("云 "@ + describe_clouds_s(n.clouds))
    } else {
        bp6(n)
    }
}

/// The rendered paragraph: the unsupported-locale placeholder for any
/// locale but `zh-CN`; else the base parts joined with commas, the trend
/// narrative outside brief detail, and the temperature-extreme groups in
/// full detail.
pub open spec fn translate_taf_s(n: TafNormalizedV, detail: DetailLevel, lang: Seq<char>)
    -> Seq<char> {
    if lang != "zh-CN"@ {
        "Translation only supports zh-CN for now."@
    } else {
        let text = join_sep(taf_parts(n), "，"@);
        let text2: Seq<char> = if detail != DetailLevel::Brief && n.trends.len() > 0 {
            text + "。变化："@ + join_sep(trend_lines(n.trends), "；"@)
        } else {
            text
        };
        if detail == DetailLevel::Full && n.temperatures.len() > 0 {
            text2 + "。温度组："@ + join_sep(n.temperatures, " "@)
        } else {
            text2
        }
    }
}

/// Render a normalized TAF in the requested locale and detail level.
#[verifier::rlimit(60)]
pub fn translate_taf(normalized: &TafNormalized, detail: DetailLevel, lang: &str) -> (r: String)
    ensures
        r@ == translate_taf_s(normalized@, detail, lang@),
{
    let lv = to_chars(lang);
    if !chars_eq_lit(&lv, "zh-CN") {
        return String::from_str("Translation only supports zh-CN for now.");
    }
    let ghost n = normalized@;
    let mut parts: Vec<String> = Vec::new();
    match &normalized.station {
        Some(st) => {
            let mut s = String::from_str("台站 ");
            s.append(st.as_str());
            parts.push(s);
        },
        None => {},
    }
    proof {
        assert(ssview(parts@) =~= bp1(n));
    }
    match &normalized.issue_time {
        Some(t) => {
            parts.push(time_phrase_exec(t));
        },
        None => {},
    }
    proof {
        assert(ssview(parts@) =~= bp2(n));
    }
    match &normalized.validity {
        Some(v) => {
            parts.push(validity_phrase_exec(v));
        },
        None => {},
    }
    proof {
        assert(ssview(parts@) =~= bp3(n));
    }
    match &normalized.wind {
        Some(w) => {
            let mut s = String::from_str("风 ");
            let d = describe_wind(w);
            s.append(d.as_str());
            parts.push(s);
        },
        None => {},
    }
    proof {
        assert(ssview(parts@) =~= bp4(n));
    }
    match normalized.visibility_m {
        Some(d) => {
            let mut s = String::from_str("能见度 ");
            let dv = describe_visibility_meters(d);
            s.append(dv.as_str());
            parts.push(s);
        },
        None => {},
    }
    proof {
        assert(ssview(parts@) =~= bp5(n));
    }
    if normalized.weather.len() > 0 {
        let mut s = String::from_str("天气 ");
        let w = join_strings(&normalized.weather, " ");
        s.append(w.as_str());
        parts.push(s);
    }
    proof {
        assert(ssview(parts@) =~= bp6(n));
    }
    if normalized.clouds.len() > 0 {
        let mut s = String::from_str("云 ");
        let c = describe_clouds(&normalized.clouds);
        s.append(c.as_str());
        parts.push(s);
    }
    proof {
        assert(ssview(parts@) =~= taf_parts(n));
    }
    let mut text = join_strings(&parts, "，");
    if !matches!(detail, DetailLevel::Brief) && normalized.trends.len() > 0 {
        text.append("。变化：");
        let lines = trend_lines_exec(&normalized.trends);
        let joined = join_strings(&lines, "；");
        text.append(joined.as_str());
    }
    if matches!(detail, DetailLevel::Full) && normalized.temperatures.len() > 0 {
        text.append("。温度组：");
        let joined = join_strings(&normalized.temperatures, " ");
        text.append(joined.as_str());
    }
    proof {
        assert(text@ =~= translate_taf_s(n, detail, lang@));
    }
    text
}

/// The full TAF response: parsed record, normalized record, rendered
/// explanation, deterministically sorted warnings and their legacy
/// mirrors. The type fields all read `taf`; the orchestrator overwrites
/// them with its own authoritative values.
pub open spec fn decode_taf_s(raw: Seq<char>, detail: DetailLevel, lang: Seq<char>)
    -> DecodeResponseV {
    let sc = parse_taf_s(raw);
    let normalized = normalize_taf_s(sc.p);
    let warnings = sort_issues_s(legacy_issues(sc.warns));
    DecodeResponseV {
        schema_version: "1.0"@,
        message_type: MessageType::Taf,
        requested_type: MessageType::Taf,
        detected_type: MessageType::Taf,
        final_type: MessageType::Taf,
        raw: trim_s(raw),
        parsed: Some(ParsedMessageV::Taf(sc.p)),
        normalized: Some(NormalizedMessageV::Taf(normalized)),
        explain: Some(translate_taf_s(normalized, detail, lang)),
        warnings,
        errors: Seq::empty(),
        warnings_legacy: legacy_of(warnings),
        errors_legacy: None,
    }
}

/// Decode a raw TAF end to end. Never fails for any input.
#[verifier::rlimit(60)]
pub fn decode_taf(raw: &str, detail: DetailLevel, lang: &str) -> (r: DecodeResponse)
    ensures
        r@ == decode_taf_s(raw@, detail, lang@),
{
    let (parsed, warn_msgs) = parse_taf(raw);
    let normalized = normalize_taf(&parsed);
    let explain = translate_taf(&normalized, detail, lang);
    let mut warnings = issues_from_legacy_vec(&warn_msgs);
    let mut errors: Vec<Issue> = Vec::new();
    let legacy = finalize_issues(&mut warnings, &mut errors);
    let rv = to_chars(raw);
    let trimmed = trim_chars(&rv);
    let r = DecodeResponse {
        schema_version: String::from_str("1.0"),
        message_type: MessageType::Taf,
        requested_type: MessageType::Taf,
        detected_type: MessageType::Taf,
        final_type: MessageType::Taf,
        raw: chars_string(&trimmed),
        parsed: Some(ParsedMessage::Taf(parsed)),
        normalized: Some(NormalizedMessage::Taf(normalized)),
        explain: Some(explain),
        warnings,
        errors,
        warnings_legacy: legacy.0,
        errors_legacy: legacy.1,
    };
    proof {
        assert(sview(Seq::<Issue>::empty()) =~= Seq::<crate::types::IssueV>::empty());
        assert(sort_issues_s(Seq::<crate::types::IssueV>::empty())
            == Seq::<crate::types::IssueV>::empty());
        assert(r@ =~~= decode_taf_s(raw@, detail, lang@));
    }
    r
}

/// The leftover tokens of the trend list, in textual order.
pub open spec fn trends_raws(ts: Seq<TafTrendV>) -> Seq<Seq<char>>
    decreases ts.len(),
{
    if ts.len() == 0 {
        Seq::empty()
    } else {
        trends_raws(ts.drop_last()) + ts.last().raw_tokens
    }
}

proof fn lemma_trends_raws_push(ts: Seq<TafTrendV>, tr: TafTrendV)
    ensures
        trends_raws(ts.push(tr)) == trends_raws(ts) + tr.raw_tokens,
{
    assert(ts.push(tr).drop_last() =~= ts);
    assert(ts.push(tr).last() == tr);
}

/// Every leftover token of the scan state, in textual order: the base
/// record's, then each flushed trend's, then the open trend's.
pub open spec fn all_raws(st: TafScanV) -> Seq<Seq<char>> {
    st.p.raw_tokens + trends_raws(st.p.trends) + (match st.cur {
        Some(tr) => tr.raw_tokens,
        None => Seq::<Seq<char>>::empty(),
    })
}

proof fn lemma_taf_step_conservation(st: TafScanV, t: Seq<char>)
    requires
        st.cur is None ==> st.p.trends == Seq::<TafTrendV>::empty(),
    ensures
        taf_step(st, t).cur is None ==> taf_step(st, t).p.trends == Seq::<TafTrendV>::empty(),
        (all_raws(taf_step(st, t)) == all_raws(st) && taf_step(st, t).warns == st.warns) || (
        all_raws(taf_step(st, t)) == all_raws(st).push(t) && taf_step(st, t).warns == st.warns.push(
            crate::metar::unknown_msg_of(t),
        )),
{
    let st2 = taf_step(st, t);
    if st.expect_period && validity_s(t) is Some && st.cur is Some {
        assert(all_raws(st2) =~= all_raws(st));
    } else {
        let st0 = TafScanV { expect_period: false, ..st };
        assert(all_raws(st0) == all_raws(st));
        if t == "BECMG"@ || t == "TEMPO"@ {
            let flushed = taf_flush(st0);
            match st0.cur {
                Some(tr) => {
                    lemma_trends_raws_push(st0.p.trends, tr);
                    assert(all_raws(st2) =~= all_raws(st0));
                },
                None => {
                    assert(trends_raws(st0.p.trends) =~= Seq::<Seq<char>>::empty());
                    assert(all_raws(st2) =~= all_raws(st0));
                },
            }
        } else if t == "CAVOK"@ || wind_s(t) is Some || vis_m_s(t) is Some || cloud_layer_s(
            t,
        ) is Some || has_prefix(t, "TX"@) || has_prefix(t, "TN"@) || is_weather_token(t) || t
            == "="@ {
            assert(all_raws(st2) =~= all_raws(st0));
        } else {
            match st0.cur {
                Some(tr) => {
                    assert(all_raws(st2) =~= all_raws(st0).push(t));
                },
                None => {
                    assert(trends_raws(st0.p.trends) =~= Seq::<Seq<char>>::empty());
                    assert(all_raws(st2) =~= all_raws(st0).push(t));
                },
            }
        }
    }
}

proof fn lemma_taf_scan_conservation(st: TafScanV, toks: Seq<Seq<char>>)
    requires
        st.warns == crate::metar::unknown_msgs(all_raws(st)),
        st.cur is None ==> st.p.trends == Seq::<TafTrendV>::empty(),
    ensures
        taf_scan(st, toks).warns == crate::metar::unknown_msgs(all_raws(taf_scan(st, toks))),
        taf_scan(st, toks).cur is None ==> taf_scan(st, toks).p.trends == Seq::<
            TafTrendV,
        >::empty(),
        forall|k: int|
            0 <= k < all_raws(taf_scan(st, toks)).len() ==> all_raws(st).contains(
                #[trigger] all_raws(taf_scan(st, toks))[k],
            ) || toks.contains(all_raws(taf_scan(st, toks))[k]),
    decreases toks.len(),
{
    if toks.len() > 0 {
        let t = toks[0];
        let st2 = taf_step(st, t);
        lemma_taf_step_conservation(st, t);
        if all_raws(st2) == all_raws(st).push(t) {
            assert(crate::metar::unknown_msgs(all_raws(st).push(t)) =~= crate::metar::unknown_msgs(
                all_raws(st),
            ).push(crate::metar::unknown_msg_of(t)));
        }
        lemma_taf_scan_conservation(st2, toks.skip(1));
        let fin = taf_scan(st, toks);
        assert(fin == taf_scan(st2, toks.skip(1)));
        assert forall|k: int|
            0 <= k < all_raws(fin).len() implies all_raws(st).contains(
            #[trigger] all_raws(fin)[k],
        ) || toks.contains(all_raws(fin)[k]) by {
            let x = all_raws(fin)[k];
            if all_raws(st2).contains(x) {
                if all_raws(st2) == all_raws(st).push(t) {
                    let j = choose|j: int|
                        0 <= j < all_raws(st2).len() && all_raws(st2)[j] == x;
                    if j < all_raws(st).len() {
                        assert(all_raws(st).contains(x));
                    } else {
                        assert(x == t);
                        assert(toks[0] == x);
                        assert(toks.contains(x));
                    }
                }
            } else {
                assert(toks.skip(1).contains(x));
                let j = choose|j: int| 0 <= j < toks.skip(1).len() && toks.skip(1)[j] == x;
                assert(toks[j + 1] == x);
                assert(toks.contains(x));
            }
        }
    }
}

/// Token conservation for a TAF parse: the warnings are exactly the
/// unrecognized-token messages of the leftover tokens — the base record's
/// `raw_tokens` followed by each trend's, in textual order, one warning
/// per leftover token and none for consumed tokens or the dropped `=` —
/// and every leftover token is a whitespace token of the input.
pub proof fn lemma_taf_token_conservation(raw: Seq<char>)
    ensures
        parse_taf_s(raw).warns == crate::metar::unknown_msgs(
            parse_taf_s(raw).p.raw_tokens + trends_raws(parse_taf_s(raw).p.trends),
        ),
        forall|k: int|
            0 <= k < (parse_taf_s(raw).p.raw_tokens + trends_raws(
                parse_taf_s(raw).p.trends,
            )).len() ==> tokenize(raw).contains(
                #[trigger] (parse_taf_s(raw).p.raw_tokens + trends_raws(
                    parse_taf_s(raw).p.trends,
                ))[k],
            ),
{
    let toks = tokenize(raw);
    let h = taf_header_s(toks);
    let st0 = TafScanV {
        p: taf_empty_v(h.0, h.1, h.2),
        cur: None,
        expect_period: false,
        warns: Seq::empty(),
    };
    assert(all_raws(st0) =~= Seq::<Seq<char>>::empty());
    assert(crate::metar::unknown_msgs(all_raws(st0)) =~= Seq::<Seq<char>>::empty());
    lemma_taf_scan_conservation(st0, toks.skip(h.3));
    let sc = taf_scan(st0, toks.skip(h.3));
    let fin = taf_flush(sc);
    match sc.cur {
        Some(tr) => {
            lemma_trends_raws_push(sc.p.trends, tr);
            assert(fin.p.raw_tokens + trends_raws(fin.p.trends) =~= all_raws(sc));
        },
        None => {
            assert(fin.p.raw_tokens + trends_raws(fin.p.trends) =~= all_raws(sc));
        },
    }
    assert forall|k: int|
        0 <= k < (fin.p.raw_tokens + trends_raws(fin.p.trends)).len() implies tokenize(
        raw,
    ).contains(#[trigger] (fin.p.raw_tokens + trends_raws(fin.p.trends))[k]) by {
        let x = (fin.p.raw_tokens + trends_raws(fin.p.trends))[k];
        assert(all_raws(sc).contains(x));
        assert(toks.skip(h.3).contains(x));
        let j = choose|j: int| 0 <= j < toks.skip(h.3).len() && toks.skip(h.3)[j] == x;
        assert(toks[j + h.3] == x);
        assert(toks.contains(x));
    }
}

} // verus!
