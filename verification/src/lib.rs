//! Decoder for raw aviation text messages: METAR/SPECI surface reports,
//! TAF forecasts and NOTAM notices. The pipeline detects the message kind,
//! tokenizes, parses, canonicalizes units and renders a localized
//! explanation, and is verified end to end: every public function carries a
//! contract that pins its result down to an exact specification-level value.
mod convert;
mod decode;
mod detect;
mod issues;
mod metar;
mod notam;
mod parse;
mod taf;
mod text;
mod types;

pub use convert::{
    altimeter_to_hpa_tenths, describe_clouds, describe_visibility_meters, describe_wind,
    normalize_wind, visibility_to_meters,
};
pub use decode::decode_message;
pub use detect::detect_message_type;
pub use issues::{finalize_issues, issue, issue_from_legacy, sort_issues};
pub use metar::{decode_metar, normalize_metar, parse_metar, translate_metar};
pub use notam::{decode_notam, normalize_notam, parse_notam, translate_notam};
pub use parse::{
    parse_cloud_layer, parse_pressure_altimeter, parse_pressure_qnh, parse_temperature_pair,
    parse_time_group, parse_validity, parse_visibility_meters, parse_visibility_sm, parse_wind,
    parse_wind_variation,
};
pub use taf::{decode_taf, normalize_taf, parse_taf, translate_taf};
pub use types::{
    CloudAmount, CloudKind, CloudLayer, DecodeOptions, DecodeResponse, DetailLevel, Issue,
    IssueCode, IssueSpan, MessageType, MetarNormalized, MetarParsed, MetarTrend,
    NormalizedMessage, NotamNormalized, NotamParsed, ParsedMessage, Pressure, PressureUnit, Rvr,
    TafNormalized, TafParsed, TafTrend, TafTrendNormalized, TemperaturePair, Tendency, TrendKind,
    UtcTime, ValidityPeriod, VisUnit, Visibility, Wind, WindNormalized, WindUnit, WindVariation,
};
