use aviation_wx::{
    decode_message, parse_notam, parse_taf, translate_notam, normalize_notam, normalize_taf,
    translate_taf, DecodeOptions, DetailLevel, IssueCode, MessageType, TrendKind,
};

fn options() -> DecodeOptions {
    DecodeOptions {
        type_hint: MessageType::Unknown,
        lang: "zh-CN".to_string(),
        detail: DetailLevel::Normal,
        output_json: true,
        output_explain: true,
    }
}

#[test]
fn notam_tag_extraction_exact() {
    let raw = "A1234/24 NOTAMN Q)ZSHA/QMRLC/IV/NBO/A/000/999/3112N12130E005 A)ZSPD B)2402010000 C)2402012359 E)RWY 17L/35R CLSD";
    let (parsed, warnings) = parse_notam(raw);
    assert_eq!(
        parsed.q_line.as_deref(),
        Some("ZSHA/QMRLC/IV/NBO/A/000/999/3112N12130E005")
    );
    assert_eq!(parsed.a.as_deref(), Some("ZSPD"));
    assert_eq!(parsed.b.as_deref(), Some("2402010000"));
    assert_eq!(parsed.c.as_deref(), Some("2402012359"));
    assert_eq!(parsed.e.as_deref(), Some("RWY 17L/35R CLSD"));
    assert_eq!(parsed.d, None);
    assert_eq!(parsed.f, None);
    assert_eq!(parsed.g, None);
    assert!(warnings.is_empty());
}

#[test]
fn adjacent_empty_notam_tags_yield_none() {
    let raw = "Q)A)B)2402010000 C) E)RWY CLSD";
    let (parsed, _) = parse_notam(raw);
    assert_eq!(parsed.q_line, None);
    assert_eq!(parsed.a, None);
    assert_eq!(parsed.b.as_deref(), Some("2402010000"));
    assert_eq!(parsed.c, None);
    assert_eq!(parsed.e.as_deref(), Some("RWY CLSD"));
}

#[test]
fn notam_without_tags_warns_and_keeps_lines() {
    let raw = "SOME NOTAM TEXT\nWITH TWO LINES";
    let (parsed, warnings) = parse_notam(raw);
    assert_eq!(parsed.q_line, None);
    assert_eq!(parsed.e, None);
    assert_eq!(
        parsed.raw_lines,
        vec!["SOME NOTAM TEXT".to_string(), "WITH TWO LINES".to_string()]
    );
    assert_eq!(
        warnings,
        vec!["No NOTAM tags found; parsed as raw lines.".to_string()]
    );
    let response = decode_message(raw, &options());
    assert_eq!(response.detected_type, MessageType::Notam);
    assert_eq!(response.warnings.len(), 1);
    assert_eq!(response.warnings[0].code, IssueCode::Warning);
}

#[test]
fn notam_full_detail_shows_structural_fields() {
    let raw = "NOTAM Q)ZSHA/QMRLC A)ZSPD B)2402010000 C)2402012359 E)RWY CLSD";
    let (parsed, _) = parse_notam(raw);
    let normalized = normalize_notam(&parsed);
    let normal = translate_notam(&normalized, DetailLevel::Normal, "zh-CN");
    let full = translate_notam(&normalized, DetailLevel::Full, "zh-CN");
    assert_eq!(normal, "地点 ZSPD，生效 2402010000，终止 2402012359，内容 RWY CLSD");
    assert_eq!(
        full,
        "地点 ZSPD，生效 2402010000，终止 2402012359，内容 RWY CLSD，Q 行 ZSHA/QMRLC"
    );
}

#[test]
fn notam_no_fields_placeholder() {
    let (parsed, _) = parse_notam("NOTAM D) F) G)");
    let normalized = normalize_notam(&parsed);
    let text = translate_notam(&normalized, DetailLevel::Full, "zh-CN");
    assert_eq!(text, "未提取到常见 NOTAM 字段。");
}

#[test]
fn taf_header_and_base_fields() {
    let raw = "TAF AMD ZBAA 011130Z 0112/0218 06005MPS 9999 FEW020 TX25/0206Z TN12/0121Z";
    let (parsed, warnings) = parse_taf(raw);
    assert_eq!(parsed.station.as_deref(), Some("ZBAA"));
    let time = parsed.issue_time.expect("issue time");
    assert_eq!((time.day, time.hour, time.minute), (1, 11, 30));
    let validity = parsed.validity.expect("validity");
    assert_eq!((validity.from.day, validity.from.hour), (1, 12));
    assert_eq!((validity.to.day, validity.to.hour), (2, 18));
    assert_eq!(parsed.wind.expect("wind").speed, 5);
    assert_eq!(parsed.visibility.expect("visibility").distance, 9999);
    assert_eq!(
        parsed.temperatures,
        vec!["TX25/0206Z".to_string(), "TN12/0121Z".to_string()]
    );
    assert!(warnings.is_empty());
}

#[test]
fn taf_trends_scoped_and_ordered() {
    let raw = "TAF ZBAA 011130Z 0112/0218 06005MPS 9999 BECMG 0118/0120 4000 -RA TEMPO 0200/0206 SCT030";
    let (parsed, _) = parse_taf(raw);
    assert_eq!(parsed.trends.len(), 2);
    let first = &parsed.trends[0];
    assert_eq!(first.kind, TrendKind::Becmg);
    let period = first.period.expect("period");
    assert_eq!((period.from.day, period.from.hour), (1, 18));
    assert_eq!(first.visibility.as_ref().expect("vis").distance, 4000);
    assert_eq!(first.weather, vec!["-RA".to_string()]);
    let second = &parsed.trends[1];
    assert_eq!(second.kind, TrendKind::Tempo);
    assert_eq!(second.clouds.len(), 1);
    assert_eq!(parsed.visibility.expect("base vis").distance, 9999);
}

#[test]
fn taf_trend_with_empty_body_still_emitted() {
    let raw = "TAF ZBAA 011130Z 0112/0218 06005MPS BECMG";
    let (parsed, _) = parse_taf(raw);
    assert_eq!(parsed.trends.len(), 1);
    assert_eq!(parsed.trends[0].kind, TrendKind::Becmg);
    assert!(parsed.trends[0].period.is_none());
}

#[test]
fn taf_explain_detail_gating() {
    let raw = "TAF ZBAA 011130Z 0112/0218 06005MPS 9999 TX25/0206Z BECMG 0118/0120 4000";
    let (parsed, _) = parse_taf(raw);
    let normalized = normalize_taf(&parsed);
    let brief = translate_taf(&normalized, DetailLevel::Brief, "zh-CN");
    let normal = translate_taf(&normalized, DetailLevel::Normal, "zh-CN");
    let full = translate_taf(&normalized, DetailLevel::Full, "zh-CN");
    assert!(!brief.contains("。变化："));
    assert!(normal.contains("。变化：BECMG，01日18Z-01日20Z，能见度 4000m"));
    assert!(!normal.contains("。温度组："));
    assert!(full.contains("。温度组：TX25/0206Z"));
}

#[test]
fn taf_unknown_tokens_conserved_per_scope() {
    let raw = "TAF ZBAA 011130Z 0112/0218 junk!! BECMG 0118/0120 more!!";
    let (parsed, warnings) = parse_taf(raw);
    assert_eq!(parsed.raw_tokens, vec!["junk!!".to_string()]);
    assert_eq!(parsed.trends.len(), 1);
    assert_eq!(parsed.trends[0].raw_tokens, vec!["more!!".to_string()]);
    assert_eq!(
        warnings,
        vec![
            "Unrecognized token: junk!!".to_string(),
            "Unrecognized token: more!!".to_string()
        ]
    );
}
