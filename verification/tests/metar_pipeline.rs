use aviation_wx::{
    decode_message, decode_metar, normalize_metar, parse_metar, translate_metar, DecodeOptions,
    DetailLevel, IssueCode, MessageType, Tendency, WindUnit,
};

fn approx_eq(left: f32, right: f32, eps: f32) -> bool {
    (left - right).abs() <= eps
}

#[test]
fn altimeter_conversion() {
    let raw = "METAR KSFO 011156Z 28012KT 10SM FEW015 BKN030 12/08 A2992";
    let (parsed, _) = parse_metar(raw);
    let normalized = normalize_metar(&parsed);
    let inhg = normalized.pressure_inhg_centi.expect("pressure_inhg_centi") as f32 / 100.0;
    let hpa = normalized.pressure_hpa_tenths.expect("pressure_hpa_tenths") as f32 / 10.0;
    assert!(approx_eq(inhg, 29.92, 0.01));
    assert!(approx_eq(hpa, 1013.2, 0.1));
}

#[test]
fn rvr_parsing_single() {
    let raw = "METAR RJTT 011200Z 04005KT 1200 R34L/0600U OVC005 12/11 Q1006";
    let (parsed, _) = parse_metar(raw);
    assert_eq!(parsed.rvr.len(), 1);
    let rvr = &parsed.rvr[0];
    assert_eq!(rvr.runway, "34L");
    assert_eq!(rvr.vis_m, 600);
    assert_eq!(rvr.vis_vary_m, None);
    assert_eq!(rvr.tendency, Tendency::Up);
}

#[test]
fn rvr_parsing_vary() {
    let raw = "METAR ZSPD 011200Z 02006MPS 2000 R16/0800V1200D OVC008 03/M01 Q1012";
    let (parsed, _) = parse_metar(raw);
    assert_eq!(parsed.rvr.len(), 1);
    let rvr = &parsed.rvr[0];
    assert_eq!(rvr.runway, "16");
    assert_eq!(rvr.vis_m, 800);
    assert_eq!(rvr.vis_vary_m, Some(1200));
    assert_eq!(rvr.tendency, Tendency::Down);
}

#[test]
fn mps_wind_converts_to_knots() {
    let raw = "METAR ZSPD 011200Z 02010MPS CAVOK 15/10 Q1017";
    let (parsed, _) = parse_metar(raw);
    let wind = parsed.wind.expect("wind");
    assert_eq!(wind.speed, 10);
    assert_eq!(wind.unit, WindUnit::Mps);
    let normalized = normalize_metar(&parsed);
    assert_eq!(normalized.wind.expect("wind").speed_kt, 19);
}

#[test]
fn pressure_conflict_emits_one_warning() {
    let raw = "METAR KSFO 011156Z 28012KT 10SM 12/08 Q1013 A2992";
    let response = decode_metar(raw, DetailLevel::Normal, "zh-CN");
    let conflicts: Vec<_> = response
        .warnings
        .iter()
        .filter(|w| w.code == IssueCode::PressureConflict)
        .collect();
    assert_eq!(conflicts.len(), 1);
    let (parsed, _) = parse_metar(raw);
    let normalized = normalize_metar(&parsed);
    assert_eq!(normalized.pressure_hpa_int, Some(1013));
    assert_eq!(normalized.pressure_hpa_tenths, Some(10130));
    assert_eq!(normalized.pressure_inhg_centi, Some(2992));
}

#[test]
fn unknown_token_lands_in_raw_tokens_with_warning() {
    let raw = "METAR RJTT 011200Z VRB03KT ????!";
    let (parsed, warnings) = parse_metar(raw);
    assert_eq!(parsed.raw_tokens, vec!["????!".to_string()]);
    assert_eq!(warnings, vec!["Unrecognized token: ????!".to_string()]);
}

#[test]
fn terminator_is_dropped_silently() {
    let raw = "METAR RJTT 011200Z VRB03KT CAVOK 15/10 Q1017 =";
    let (parsed, warnings) = parse_metar(raw);
    assert!(parsed.raw_tokens.is_empty());
    assert!(warnings.is_empty());
}

#[test]
fn remark_mode_collects_everything_verbatim() {
    let raw = "METAR RJTT 011200Z VRB03KT RMK AO2 SLP134 T01390089";
    let (parsed, warnings) = parse_metar(raw);
    assert_eq!(parsed.rmk_raw.as_deref(), Some("AO2 SLP134 T01390089"));
    assert_eq!(
        parsed.rmk_tokens,
        vec![
            "AO2".to_string(),
            "SLP134".to_string(),
            "T01390089".to_string()
        ]
    );
    assert!(warnings.is_empty());
}

#[test]
fn metar_explain_exact_text() {
    let raw = "METAR RJTT 011200Z VRB03KT CAVOK 15/10 Q1017";
    let (parsed, _) = parse_metar(raw);
    let normalized = normalize_metar(&parsed);
    let explain = translate_metar(&normalized, DetailLevel::Normal, "zh-CN");
    assert_eq!(
        explain,
        "台站 RJTT，发布于 01 日 12:00Z，风 VRB 3kt，能见度 10km or more，气温 15°C 露点 10°C，气压（QNH）≈ 1017.0 hPa"
    );
}

#[test]
fn unsupported_locale_yields_placeholder() {
    let raw = "METAR RJTT 011200Z VRB03KT CAVOK 15/10 Q1017";
    let (parsed, _) = parse_metar(raw);
    let normalized = normalize_metar(&parsed);
    let explain = translate_metar(&normalized, DetailLevel::Normal, "en");
    assert_eq!(explain, "Translation only supports zh-CN for now.");
}

#[test]
fn requested_metar_on_taf_text_reconciles() {
    let options = DecodeOptions {
        type_hint: MessageType::Metar,
        lang: "zh-CN".to_string(),
        detail: DetailLevel::Normal,
        output_json: true,
        output_explain: true,
    };
    let raw = "TAF ZBAA 011130Z 0112/0218 06005MPS 9999 FEW020";
    let response = decode_message(raw, &options);
    assert_eq!(response.requested_type, MessageType::Metar);
    assert_eq!(response.detected_type, MessageType::Taf);
    assert_eq!(response.final_type, MessageType::Metar);
    assert_eq!(response.message_type, MessageType::Metar);
    let mismatches: Vec<_> = response
        .warnings
        .iter()
        .filter(|w| w.code == IssueCode::TypeMismatch)
        .collect();
    assert_eq!(mismatches.len(), 1);
    assert_eq!(
        mismatches[0].message,
        "Requested type metar but detected taf. Parsed using requested type."
    );
}

#[test]
fn output_gating_nulls_sections() {
    let options = DecodeOptions {
        type_hint: MessageType::Unknown,
        lang: "zh-CN".to_string(),
        detail: DetailLevel::Normal,
        output_json: false,
        output_explain: false,
    };
    let response = decode_message("METAR RJTT 011200Z VRB03KT CAVOK 15/10 Q1017", &options);
    assert!(response.parsed.is_none());
    assert!(response.normalized.is_none());
    assert!(response.explain.is_none());
    assert_eq!(response.final_type, MessageType::Metar);
}

#[test]
fn warnings_sorted_deterministically() {
    let raw = "METAR RJTT 011200Z zz!! aa!!";
    let response = decode_metar(raw, DetailLevel::Normal, "zh-CN");
    assert_eq!(response.warnings.len(), 2);
    assert_eq!(response.warnings[0].token.as_deref(), Some("aa!!"));
    assert_eq!(response.warnings[1].token.as_deref(), Some("zz!!"));
    assert_eq!(
        response.warnings_legacy,
        Some(vec![
            "Unrecognized token: aa!!".to_string(),
            "Unrecognized token: zz!!".to_string()
        ])
    );
}

#[test]
fn statute_miles_convert_to_meters() {
    let raw = "METAR KSFO 011156Z 28012KT 10SM 12/08 A2992";
    let (parsed, _) = parse_metar(raw);
    let normalized = normalize_metar(&parsed);
    assert_eq!(normalized.visibility_m, Some(16093));
}

#[test]
fn negative_temperatures_render_with_sign() {
    let raw = "METAR ZSPD 011200Z 02006MPS 2000 M03/M07 Q1012";
    let (parsed, _) = parse_metar(raw);
    let pair = parsed.temperature.expect("temperature");
    assert_eq!(pair.temperature_c, -3);
    assert_eq!(pair.dewpoint_c, -7);
    let normalized = normalize_metar(&parsed);
    let explain = translate_metar(&normalized, DetailLevel::Normal, "zh-CN");
    assert!(explain.contains("气温 -3°C 露点 -7°C"));
}

#[test]
fn brief_detail_omits_remarks_and_trend() {
    let raw = "METAR RJTT 011200Z VRB03KT NOSIG RMK AO2";
    let (parsed, _) = parse_metar(raw);
    let normalized = normalize_metar(&parsed);
    let brief = translate_metar(&normalized, DetailLevel::Brief, "zh-CN");
    let normal = translate_metar(&normalized, DetailLevel::Normal, "zh-CN");
    assert!(!brief.contains("备注（RMK）"));
    assert!(!brief.contains("。趋势："));
    assert!(normal.contains("备注（RMK）：AO2"));
    assert!(normal.contains("。趋势：NOSIG"));
}

#[test]
fn three_digit_wind_consumed_by_scan() {
    let raw = "METAR KSFO 011156Z 250100G120KT 10SM A2992";
    let (parsed, warnings) = parse_metar(raw);
    let wind = parsed.wind.expect("wind");
    assert_eq!(wind.direction_deg, Some(250));
    assert_eq!(wind.speed, 100);
    assert_eq!(wind.gust, Some(120));
    assert!(parsed.raw_tokens.is_empty());
    assert!(warnings.is_empty());
}
