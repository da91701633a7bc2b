use aviation_wx::{
    decode_notam, decode_taf, describe_clouds, describe_visibility_meters, describe_wind,
    finalize_issues, issue, issue_from_legacy, normalize_wind, sort_issues, CloudAmount,
    CloudLayer, DetailLevel, IssueCode, MessageType, Wind, WindNormalized, WindUnit,
};

#[test]
fn issue_from_legacy_recognizes_token_prefix() {
    let tokenized = issue_from_legacy("Unrecognized token: XYZ");
    assert_eq!(tokenized.code, IssueCode::UnknownToken);
    assert_eq!(tokenized.message, "Unrecognized token: XYZ");
    assert_eq!(tokenized.token.as_deref(), Some("XYZ"));
    assert_eq!(tokenized.span, None);

    let plain = issue_from_legacy("No NOTAM tags found; parsed as raw lines.");
    assert_eq!(plain.code, IssueCode::Warning);
    assert_eq!(plain.token, None);
}

#[test]
fn sort_orders_by_code_then_token_then_message() {
    let mut issues = vec![
        issue(IssueCode::Warning, "b", None),
        issue(IssueCode::UnknownToken, "x", Some("t2".to_string())),
        issue(IssueCode::UnknownToken, "x", Some("t1".to_string())),
        issue(IssueCode::PressureConflict, "a", None),
        issue(IssueCode::Warning, "a", None),
    ];
    sort_issues(&mut issues);
    assert_eq!(issues[0].code, IssueCode::PressureConflict);
    assert_eq!(issues[1].token.as_deref(), Some("t1"));
    assert_eq!(issues[2].token.as_deref(), Some("t2"));
    assert_eq!(issues[3].message, "a");
    assert_eq!(issues[4].message, "b");
}

#[test]
fn finalize_produces_legacy_mirrors() {
    let mut warnings = vec![issue(IssueCode::Warning, "w2", None), issue(IssueCode::Warning, "w1", None)];
    let mut errors = Vec::new();
    let (warnings_legacy, errors_legacy) = finalize_issues(&mut warnings, &mut errors);
    assert_eq!(
        warnings_legacy,
        Some(vec!["w1".to_string(), "w2".to_string()])
    );
    assert_eq!(errors_legacy, None);
}

#[test]
fn describe_wind_phrases() {
    let with_dir = WindNormalized {
        direction_deg: Some(240),
        variable: false,
        speed_kt: 10,
        gust_kt: Some(20),
    };
    assert_eq!(describe_wind(&with_dir), "240° 10kt gust 20kt");
    let variable = WindNormalized {
        direction_deg: None,
        variable: true,
        speed_kt: 3,
        gust_kt: None,
    };
    assert_eq!(describe_wind(&variable), "VRB 3kt");
}

#[test]
fn describe_visibility_phrases() {
    assert_eq!(describe_visibility_meters(10000), "10km or more");
    assert_eq!(describe_visibility_meters(4000), "4000m");
}

#[test]
fn describe_clouds_phrases() {
    assert_eq!(describe_clouds(&Vec::new()), "No significant cloud");
    let layers = vec![
        CloudLayer {
            amount: CloudAmount::Few,
            height_ft: Some(2000),
            cloud_type: None,
            raw: "FEW020".to_string(),
        },
        CloudLayer {
            amount: CloudAmount::Nsc,
            height_ft: None,
            cloud_type: None,
            raw: "NSC".to_string(),
        },
    ];
    assert_eq!(describe_clouds(&layers), "FEW 2000ft, NSC");
}

#[test]
fn normalize_wind_rounds_half_up() {
    let wind = Wind {
        direction_deg: Some(100),
        variable: false,
        speed: 7,
        gust: Some(13),
        unit: WindUnit::Mps,
    };
    let normalized = normalize_wind(&wind);
    assert_eq!(normalized.speed_kt, 14);
    assert_eq!(normalized.gust_kt, Some(25));
    let kt = Wind { unit: WindUnit::Kt, ..wind };
    assert_eq!(normalize_wind(&kt).speed_kt, 7);
}

#[test]
fn decode_taf_envelope_fields() {
    let response = decode_taf(
        "TAF ZBAA 011130Z 0112/0218 06005MPS 9999",
        DetailLevel::Normal,
        "zh-CN",
    );
    assert_eq!(response.schema_version, "1.0");
    assert_eq!(response.final_type, MessageType::Taf);
    assert!(response.parsed.is_some());
    assert!(response.normalized.is_some());
    assert!(response.explain.is_some());
    assert!(response.errors.is_empty());
}

#[test]
fn decode_notam_envelope_fields() {
    let response = decode_notam(
        "A1234/24 NOTAMN Q)ZSHA A)ZSPD E)RWY CLSD",
        DetailLevel::Normal,
        "zh-CN",
    );
    assert_eq!(response.schema_version, "1.0");
    assert_eq!(response.final_type, MessageType::Notam);
    assert!(response.parsed.is_some());
    assert!(response.errors.is_empty());
}
