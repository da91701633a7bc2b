use aviation_wx::{
    detect_message_type, parse_cloud_layer, parse_pressure_altimeter, parse_pressure_qnh,
    parse_temperature_pair, parse_time_group, parse_validity, parse_visibility_meters,
    parse_visibility_sm, parse_wind, parse_wind_variation, CloudAmount, CloudKind, MessageType,
    VisUnit, WindUnit,
};

#[test]
fn time_group_parses_prefix() {
    let t = parse_time_group("011200Z").expect("time");
    assert_eq!((t.day, t.hour, t.minute), (1, 12, 0));
    assert!(parse_time_group("0112").is_none());
    let t2 = parse_time_group("251456trailing").expect("prefix time");
    assert_eq!((t2.day, t2.hour, t2.minute), (25, 14, 56));
}

#[test]
fn validity_parses_pairs() {
    let v = parse_validity("0112/0218").expect("validity");
    assert_eq!((v.from.day, v.from.hour, v.from.minute), (1, 12, 0));
    assert_eq!((v.to.day, v.to.hour, v.to.minute), (2, 18, 0));
    assert!(parse_validity("0112-0218").is_none());
}

#[test]
fn wind_variants() {
    let w = parse_wind("24010KT").expect("wind");
    assert_eq!(w.direction_deg, Some(240));
    assert!(!w.variable);
    assert_eq!(w.speed, 10);
    assert_eq!(w.gust, None);
    assert_eq!(w.unit, WindUnit::Kt);

    let v = parse_wind("VRB03G15MPS").expect("vrb wind");
    assert_eq!(v.direction_deg, None);
    assert!(v.variable);
    assert_eq!(v.speed, 3);
    assert_eq!(v.gust, Some(15));
    assert_eq!(v.unit, WindUnit::Mps);

    assert!(parse_wind("24010").is_none());
    assert!(parse_wind("2401KT").is_none());
}

#[test]
fn wind_three_digit_speed_and_gust() {
    let w = parse_wind("250100KT").expect("storm wind");
    assert_eq!(w.direction_deg, Some(250));
    assert_eq!(w.speed, 100);
    assert_eq!(w.gust, None);
    assert_eq!(w.unit, WindUnit::Kt);

    let g = parse_wind("250100G120KT").expect("gusting storm wind");
    assert_eq!(g.speed, 100);
    assert_eq!(g.gust, Some(120));

    let v = parse_wind("VRB100MPS").expect("variable storm wind");
    assert_eq!(v.direction_deg, None);
    assert_eq!(v.speed, 100);

    let mixed = parse_wind("25010G115KT").expect("two-digit speed, three-digit gust");
    assert_eq!(mixed.speed, 10);
    assert_eq!(mixed.gust, Some(115));

    assert!(parse_wind("2501000KT").is_none());
    assert!(parse_wind("250100G1200KT").is_none());
}

#[test]
fn wind_variation_parses() {
    assert_eq!(parse_wind_variation("180V240"), Some((180, 240)));
    assert!(parse_wind_variation("180240").is_none());
}

#[test]
fn visibility_meters_takes_four_digits() {
    let v = parse_visibility_meters("9999").expect("vis");
    assert_eq!(v.distance, 9999);
    assert_eq!(v.unit, VisUnit::M);
    assert_eq!(v.raw, "9999");
    assert!(parse_visibility_meters("999").is_none());
}

#[test]
fn visibility_statute_miles_and_fractions() {
    let v = parse_visibility_sm("10SM").expect("vis");
    assert_eq!(v.distance, 10);
    assert_eq!(v.unit, VisUnit::Sm);
    assert_eq!(v.raw, "10SM");

    let half = parse_visibility_sm("1/2SM").expect("fraction");
    assert_eq!(half.distance, 1);
    assert_eq!(half.raw, "1/2SM");

    let third = parse_visibility_sm("1/4SM").expect("fraction");
    assert_eq!(third.distance, 0);

    assert!(parse_visibility_sm("SM").is_none());
}

#[test]
fn temperature_pair_with_minus() {
    assert_eq!(parse_temperature_pair("15/10"), Some((15, 10)));
    assert_eq!(parse_temperature_pair("M03/M07"), Some((-3, -7)));
    assert!(parse_temperature_pair("15-10").is_none());
}

#[test]
fn pressure_groups() {
    assert_eq!(parse_pressure_qnh("Q1013"), Some(1013));
    assert!(parse_pressure_qnh("A1013").is_none());
    assert_eq!(parse_pressure_altimeter("A2992"), Some(2992));
    assert!(parse_pressure_altimeter("Q2992").is_none());
}

#[test]
fn cloud_layers() {
    let (amount, height, kind) = parse_cloud_layer("BKN030").expect("layer");
    assert_eq!(amount, CloudAmount::Bkn);
    assert_eq!(height, Some(3000));
    assert_eq!(kind, None);

    let (amount2, height2, kind2) = parse_cloud_layer("FEW020CB").expect("layer");
    assert_eq!(amount2, CloudAmount::Few);
    assert_eq!(height2, Some(2000));
    assert_eq!(kind2, Some(CloudKind::Cb));

    let (amount3, height3, _) = parse_cloud_layer("NSC").expect("layer");
    assert_eq!(amount3, CloudAmount::Nsc);
    assert_eq!(height3, None);

    let (_, tall, _) = parse_cloud_layer("FEW700").expect("tall layer");
    assert_eq!(tall, Some(70000));

    assert!(parse_cloud_layer("XYZ030").is_none());
}

#[test]
fn detection_priority_order() {
    assert_eq!(detect_message_type("taf ZBAA 011130Z"), MessageType::Taf);
    assert_eq!(detect_message_type("METAR RJTT 011200Z"), MessageType::Metar);
    assert_eq!(detect_message_type("SPECI RJTT 011200Z"), MessageType::Metar);
    assert_eq!(
        detect_message_type("some text with notam inside"),
        MessageType::Notam
    );
    assert_eq!(detect_message_type("text Q) somewhere"), MessageType::Notam);
    assert_eq!(detect_message_type("ZGGG 011200Z 24010KT"), MessageType::Metar);
    assert_eq!(detect_message_type("hello world"), MessageType::Unknown);
    assert_eq!(detect_message_type(""), MessageType::Unknown);
    assert_eq!(detect_message_type("TAF"), MessageType::Unknown);
}
