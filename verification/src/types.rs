//! The data model: message kinds, parsed and normalized records, issues and
//! the response envelope, together with the specification-level view of each
//! type that holds text.
use vstd::prelude::*;

use crate::text::ssview;

verus! {

/// Spec view of an optional value whose type has a view of its own.
pub open spec fn oview<T: View>(o: Option<T>) -> Option<T::V> {
    match o {
        Some(x) => Some(x.view()),
        None => None,
    }
}

/// Spec view of a sequence of values that each have a view of their own.
pub open spec fn sview<T: View>(s: Seq<T>) -> Seq<T::V> {
    s.map_values(|x: T| x.view())
}

#[derive(Clone, Copy, Debug, PartialEq, Eq, Structural)]
pub enum MessageType {
    Taf,
    Metar,
    Notam,
    Unknown,
}

pub open spec fn mt_str(t: MessageType) -> Seq<char> {
    match t {
        MessageType::Taf => "taf"@,
        MessageType::Metar => "metar"@,
        MessageType::Notam => "notam"@,
        MessageType::Unknown => "unknown"@,
    }
}

impl MessageType {
    /// The lowercase wire name of the message type.
    pub fn as_str(&self) -> (r: &'static str)
        ensures
            r@ == mt_str(*self),
    {
        match self {
            MessageType::Taf => "taf",
            MessageType::Metar => "metar",
            MessageType::Notam => "notam",
            MessageType::Unknown => "unknown",
        }
    }
}

#[derive(Clone, Copy, Debug, PartialEq, Eq, Structural)]
pub enum DetailLevel {
    Brief,
    Normal,
    Full,
}

impl Default for DetailLevel {
    /// The default detail level is `Normal`.
    fn default() -> (r: Self)
        ensures
            r == DetailLevel::Normal,
    {
        DetailLevel::Normal
    }
}

#[derive(Clone, Copy, Debug, PartialEq, Eq, Structural)]
pub enum WindUnit {
    Kt,
    Mps,
}

pub open spec fn wind_unit_str(u: WindUnit) -> Seq<char> {
    match u {
        WindUnit::Kt => "KT"@,
        WindUnit::Mps => "MPS"@,
    }
}

impl WindUnit {
    pub fn as_str(&self) -> (r: &'static str)
        ensures
            r@ == wind_unit_str(*self),
    {
        match self {
            WindUnit::Kt => "KT",
            WindUnit::Mps => "MPS",
        }
    }
}

#[derive(Clone, Copy, Debug, PartialEq, Eq, Structural)]
pub enum VisUnit {
    M,
    Sm,
}

pub open spec fn vis_unit_str(u: VisUnit) -> Seq<char> {
    match u {
        VisUnit::M => "M"@,
        VisUnit::Sm => "SM"@,
    }
}

impl VisUnit {
    pub fn as_str(&self) -> (r: &'static str)
        ensures
            r@ == vis_unit_str(*self),
    {
        match self {
            VisUnit::M => "M",
            VisUnit::Sm => "SM",
        }
    }
}

#[derive(Clone, Copy, Debug, PartialEq, Eq, Structural)]
pub enum PressureUnit {
    /// QNH, whole hectopascals.
    Hpa,
    /// Altimeter setting, hundredths of inches of mercury.
    InHgCenti,
}

pub open spec fn pressure_unit_str(u: PressureUnit) -> Seq<char> {
    match u {
        PressureUnit::Hpa => "hPa"@,
        PressureUnit::InHgCenti => "inHg*100"@,
    }
}

impl PressureUnit {
    pub fn as_str(&self) -> (r: &'static str)
        ensures
            r@ == pressure_unit_str(*self),
    {
        match self {
            PressureUnit::Hpa => "hPa",
            PressureUnit::InHgCenti => "inHg*100",
        }
    }
}

#[derive(Clone, Copy, Debug, PartialEq, Eq, Structural)]
pub enum CloudAmount {
    Few,
    Sct,
    Bkn,
    Ovc,
    Nsc,
    Skc,
}

pub open spec fn cloud_amount_str(a: CloudAmount) -> Seq<char> {
    match a {
        CloudAmount::Few => "FEW"@,
        CloudAmount::Sct => "SCT"@,
        CloudAmount::Bkn => "BKN"@,
        CloudAmount::Ovc => "OVC"@,
        CloudAmount::Nsc => "NSC"@,
        CloudAmount::Skc => "SKC"@,
    }
}

impl CloudAmount {
    pub fn as_str(&self) -> (r: &'static str)
        ensures
            r@ == cloud_amount_str(*self),
    {
        match self {
            CloudAmount::Few => "FEW",
            CloudAmount::Sct => "SCT",
            CloudAmount::Bkn => "BKN",
            CloudAmount::Ovc => "OVC",
            CloudAmount::Nsc => "NSC",
            CloudAmount::Skc => "SKC",
        }
    }
}

#[derive(Clone, Copy, Debug, PartialEq, Eq, Structural)]
pub enum CloudKind {
    Cb,
    Tcu,
}

pub open spec fn cloud_kind_str(k: CloudKind) -> Seq<char> {
    match k {
        CloudKind::Cb => "CB"@,
        CloudKind::Tcu => "TCU"@,
    }
}

impl CloudKind {
    pub fn as_str(&self) -> (r: &'static str)
        ensures
            r@ == cloud_kind_str(*self),
    {
        match self {
            CloudKind::Cb => "CB",
            CloudKind::Tcu => "TCU",
        }
    }
}

#[derive(Clone, Copy, Debug, PartialEq, Eq, Structural)]
pub enum Tendency {
    Up,
    Down,
    NoChange,
    Unknown,
}

pub open spec fn tendency_str(t: Tendency) -> Seq<char> {
    match t {
        Tendency::Up => "up"@,
        Tendency::Down => "down"@,
        Tendency::NoChange => "no_change"@,
        Tendency::Unknown => "unknown"@,
    }
}

impl Tendency {
    pub fn as_str(&self) -> (r: &'static str)
        ensures
            r@ == tendency_str(*self),
    {
        match self {
            Tendency::Up => "up",
            Tendency::Down => "down",
            Tendency::NoChange => "no_change",
            Tendency::Unknown => "unknown",
        }
    }
}

/// Trend keyword of a TAF sub-forecast.
#[derive(Clone, Copy, Debug, PartialEq, Eq, Structural)]
pub enum TrendKind {
    Becmg,
    Tempo,
}

pub open spec fn trend_kind_str(k: TrendKind) -> Seq<char> {
    match k {
        TrendKind::Becmg => "BECMG"@,
        TrendKind::Tempo => "TEMPO"@,
    }
}

impl TrendKind {
    pub fn as_str(&self) -> (r: &'static str)
        ensures
            r@ == trend_kind_str(*self),
    {
        match self {
            TrendKind::Becmg => "BECMG",
            TrendKind::Tempo => "TEMPO",
        }
    }
}

/// Trend literal of a METAR body.
#[derive(Clone, Copy, Debug, PartialEq, Eq, Structural)]
pub enum MetarTrend {
    Nosig,
    Becmg,
    Tempo,
}

pub open spec fn metar_trend_str(k: MetarTrend) -> Seq<char> {
    match k {
        MetarTrend::Nosig => "NOSIG"@,
        MetarTrend::Becmg => "BECMG"@,
        MetarTrend::Tempo => "TEMPO"@,
    }
}

impl MetarTrend {
    pub fn as_str(&self) -> (r: &'static str)
        ensures
            r@ == metar_trend_str(*self),
    {
        match self {
            MetarTrend::Nosig => "NOSIG",
            MetarTrend::Becmg => "BECMG",
            MetarTrend::Tempo => "TEMPO",
        }
    }
}

/// The fixed issue-code vocabulary. The variants are listed in the
/// lexicographic order of their wire names, which `code_rank` exposes.
#[derive(Clone, Copy, Debug, PartialEq, Eq, Structural)]
pub enum IssueCode {
    PressureConflict,
    TypeMismatch,
    TypeUnknown,
    UnknownToken,
    Warning,
}

pub open spec fn issue_code_str(c: IssueCode) -> Seq<char> {
    match c {
        IssueCode::PressureConflict => "pressure_conflict"@,
        IssueCode::TypeMismatch => "type_mismatch"@,
        IssueCode::TypeUnknown => "type_unknown"@,
        IssueCode::UnknownToken => "unknown_token"@,
        IssueCode::Warning => "warning"@,
    }
}

/// Rank of an issue code in the lexicographic order of the wire names.
pub open spec fn spec_code_rank(c: IssueCode) -> u8 {
    match c {
        IssueCode::PressureConflict => 0,
        IssueCode::TypeMismatch => 1,
        IssueCode::TypeUnknown => 2,
        IssueCode::UnknownToken => 3,
        IssueCode::Warning => 4,
    }
}

impl IssueCode {
    pub fn as_str(&self) -> (r: &'static str)
        ensures
            r@ == issue_code_str(*self),
    {
        match self {
            IssueCode::PressureConflict => "pressure_conflict",
            IssueCode::TypeMismatch => "type_mismatch",
            IssueCode::TypeUnknown => "type_unknown",
            IssueCode::UnknownToken => "unknown_token",
            IssueCode::Warning => "warning",
        }
    }

    pub fn rank(&self) -> (r: u8)
        ensures
            r == spec_code_rank(*self),
    {
        match self {
            IssueCode::PressureConflict => 0,
            IssueCode::TypeMismatch => 1,
            IssueCode::TypeUnknown => 2,
            IssueCode::UnknownToken => 3,
            IssueCode::Warning => 4,
        }
    }
}

#[derive(Clone, Copy, Debug, PartialEq, Eq, Structural)]
pub struct UtcTime {
    pub day: u8,
    pub hour: u8,
    pub minute: u8,
}

#[derive(Clone, Copy, Debug, PartialEq, Eq, Structural)]
pub struct ValidityPeriod {
    pub from: UtcTime,
    pub to: UtcTime,
}

#[derive(Clone, Copy, Debug, PartialEq, Eq)]
pub struct Wind {
    pub direction_deg: Option<u16>,
    pub variable: bool,
    pub speed: u16,
    pub gust: Option<u16>,
    pub unit: WindUnit,
}

#[derive(Clone, Copy, Debug, PartialEq, Eq, Structural)]
pub struct WindVariation {
    pub from_deg: u16,
    pub to_deg: u16,
}

#[derive(Clone, Copy, Debug, PartialEq, Eq, Structural)]
pub struct TemperaturePair {
    pub temperature_c: i16,
    pub dewpoint_c: i16,
}

#[derive(Clone, Copy, Debug, PartialEq, Eq, Structural)]
pub struct Pressure {
    pub value: u16,
    pub unit: PressureUnit,
}

#[derive(Clone, Copy, Debug, PartialEq, Eq, Structural)]
pub struct IssueSpan {
    pub start: usize,
    pub end: usize,
}

#[derive(Clone, Copy, Debug, PartialEq, Eq)]
pub struct WindNormalized {
    pub direction_deg: Option<u16>,
    pub variable: bool,
    pub speed_kt: u16,
    pub gust_kt: Option<u16>,
}

#[derive(Clone, Debug, PartialEq, Eq)]
pub struct Visibility {
    pub distance: u32,
    pub unit: VisUnit,
    pub raw: String,
}

#[verifier::ext_equal]
pub struct VisibilityV {
    pub distance: u32,
    pub unit: VisUnit,
    pub raw: Seq<char>,
}

impl View for Visibility {
    type V = VisibilityV;

    open spec fn view(&self) -> VisibilityV {
        VisibilityV { distance: self.distance, unit: self.unit, raw: self.raw@ }
    }
}

#[derive(Clone, Debug, PartialEq, Eq)]
pub struct CloudLayer {
    pub amount: CloudAmount,
    pub height_ft: Option<u32>,
    pub cloud_type: Option<CloudKind>,
    pub raw: String,
}

#[verifier::ext_equal]
pub struct CloudLayerV {
    pub amount: CloudAmount,
    pub height_ft: Option<u32>,
    pub cloud_type: Option<CloudKind>,
    pub raw: Seq<char>,
}

impl View for CloudLayer {
    type V = CloudLayerV;

    open spec fn view(&self) -> CloudLayerV {
        CloudLayerV {
            amount: self.amount,
            height_ft: self.height_ft,
            cloud_type: self.cloud_type,
            raw: self.raw@,
        }
    }
}

#[derive(Clone, Debug, PartialEq, Eq)]
pub struct Rvr {
    pub runway: String,
    pub vis_m: u16,
    pub vis_vary_m: Option<u16>,
    pub tendency: Tendency,
}

#[verifier::ext_equal]
pub struct RvrV {
    pub runway: Seq<char>,
    pub vis_m: u16,
    pub vis_vary_m: Option<u16>,
    pub tendency: Tendency,
}

impl View for Rvr {
    type V = RvrV;

    open spec fn view(&self) -> RvrV {
        RvrV {
            runway: self.runway@,
            vis_m: self.vis_m,
            vis_vary_m: self.vis_vary_m,
            tendency: self.tendency,
        }
    }
}

#[derive(Clone, Debug, PartialEq, Eq)]
pub struct Issue {
    pub code: IssueCode,
    pub message: String,
    pub token: Option<String>,
    pub span: Option<IssueSpan>,
}

#[verifier::ext_equal]
pub struct IssueV {
    pub code: IssueCode,
    pub message: Seq<char>,
    pub token: Option<Seq<char>>,
    pub span: Option<IssueSpan>,
}

impl View for Issue {
    type V = IssueV;

    open spec fn view(&self) -> IssueV {
        IssueV {
            code: self.code,
            message: self.message@,
            token: oview(self.token),
            span: self.span,
        }
    }
}

#[derive(Clone, Debug, PartialEq, Eq)]
pub struct TafTrend {
    pub kind: TrendKind,
    pub period: Option<ValidityPeriod>,
    pub wind: Option<Wind>,
    pub visibility: Option<Visibility>,
    pub weather: Vec<String>,
    pub clouds: Vec<CloudLayer>,
    pub raw_tokens: Vec<String>,
}

#[verifier::ext_equal]
pub struct TafTrendV {
    pub kind: TrendKind,
    pub period: Option<ValidityPeriod>,
    pub wind: Option<Wind>,
    pub visibility: Option<VisibilityV>,
    pub weather: Seq<Seq<char>>,
    pub clouds: Seq<CloudLayerV>,
    pub raw_tokens: Seq<Seq<char>>,
}

impl View for TafTrend {
    type V = TafTrendV;

    open spec fn view(&self) -> TafTrendV {
        TafTrendV {
            kind: self.kind,
            period: self.period,
            wind: self.wind,
            visibility: oview(self.visibility),
            weather: sview(self.weather@),
            clouds: sview(self.clouds@),
            raw_tokens: sview(self.raw_tokens@),
        }
    }
}

#[derive(Clone, Debug, PartialEq, Eq)]
pub struct TafParsed {
    pub station: Option<String>,
    pub issue_time: Option<UtcTime>,
    pub validity: Option<ValidityPeriod>,
    pub wind: Option<Wind>,
    pub visibility: Option<Visibility>,
    pub weather: Vec<String>,
    pub clouds: Vec<CloudLayer>,
    pub temperatures: Vec<String>,
    pub trends: Vec<TafTrend>,
    pub raw_tokens: Vec<String>,
}

#[verifier::ext_equal]
pub struct TafParsedV {
    pub station: Option<Seq<char>>,
    pub issue_time: Option<UtcTime>,
    pub validity: Option<ValidityPeriod>,
    pub wind: Option<Wind>,
    pub visibility: Option<VisibilityV>,
    pub weather: Seq<Seq<char>>,
    pub clouds: Seq<CloudLayerV>,
    pub temperatures: Seq<Seq<char>>,
    pub trends: Seq<TafTrendV>,
    pub raw_tokens: Seq<Seq<char>>,
}

impl View for TafParsed {
    type V = TafParsedV;

    open spec fn view(&self) -> TafParsedV {
        TafParsedV {
            station: oview(self.station),
            issue_time: self.issue_time,
            validity: self.validity,
            wind: self.wind,
            visibility: oview(self.visibility),
            weather: sview(self.weather@),
            clouds: sview(self.clouds@),
            temperatures: sview(self.temperatures@),
            trends: sview(self.trends@),
            raw_tokens: sview(self.raw_tokens@),
        }
    }
}

#[derive(Clone, Debug, PartialEq, Eq)]
pub struct MetarParsed {
    pub station: Option<String>,
    pub issue_time: Option<UtcTime>,
    pub wind: Option<Wind>,
    pub wind_variation: Option<WindVariation>,
    pub rvr: Vec<Rvr>,
    pub pressure_qnh: Option<Pressure>,
    pub altimeter: Option<Pressure>,
    pub visibility: Option<Visibility>,
    pub weather: Vec<String>,
    pub clouds: Vec<CloudLayer>,
    pub temperature: Option<TemperaturePair>,
    pub pressure: Option<Pressure>,
    pub rmk_raw: Option<String>,
    pub rmk_tokens: Vec<String>,
    pub trend: Option<MetarTrend>,
    pub raw_tokens: Vec<String>,
}

#[verifier::ext_equal]
pub struct MetarParsedV {
    pub station: Option<Seq<char>>,
    pub issue_time: Option<UtcTime>,
    pub wind: Option<Wind>,
    pub wind_variation: Option<WindVariation>,
    pub rvr: Seq<RvrV>,
    pub pressure_qnh: Option<Pressure>,
    pub altimeter: Option<Pressure>,
    pub visibility: Option<VisibilityV>,
    pub weather: Seq<Seq<char>>,
    pub clouds: Seq<CloudLayerV>,
    pub temperature: Option<TemperaturePair>,
    pub pressure: Option<Pressure>,
    pub rmk_raw: Option<Seq<char>>,
    pub rmk_tokens: Seq<Seq<char>>,
    pub trend: Option<MetarTrend>,
    pub raw_tokens: Seq<Seq<char>>,
}

impl View for MetarParsed {
    type V = MetarParsedV;

    open spec fn view(&self) -> MetarParsedV {
        MetarParsedV {
            station: oview(self.station),
            issue_time: self.issue_time,
            wind: self.wind,
            wind_variation: self.wind_variation,
            rvr: sview(self.rvr@),
            pressure_qnh: self.pressure_qnh,
            altimeter: self.altimeter,
            visibility: oview(self.visibility),
            weather: sview(self.weather@),
            clouds: sview(self.clouds@),
            temperature: self.temperature,
            pressure: self.pressure,
            rmk_raw: oview(self.rmk_raw),
            rmk_tokens: sview(self.rmk_tokens@),
            trend: self.trend,
            raw_tokens: sview(self.raw_tokens@),
        }
    }
}

#[derive(Clone, Debug, PartialEq, Eq)]
pub struct NotamParsed {
    pub q_line: Option<String>,
    pub a: Option<String>,
    pub b: Option<String>,
    pub c: Option<String>,
    pub d: Option<String>,
    pub e: Option<String>,
    pub f: Option<String>,
    pub g: Option<String>,
    pub raw_lines: Vec<String>,
}

#[verifier::ext_equal]
pub struct NotamParsedV {
    pub q_line: Option<Seq<char>>,
    pub a: Option<Seq<char>>,
    pub b: Option<Seq<char>>,
    pub c: Option<Seq<char>>,
    pub d: Option<Seq<char>>,
    pub e: Option<Seq<char>>,
    pub f: Option<Seq<char>>,
    pub g: Option<Seq<char>>,
    pub raw_lines: Seq<Seq<char>>,
}

impl View for NotamParsed {
    type V = NotamParsedV;

    open spec fn view(&self) -> NotamParsedV {
        NotamParsedV {
            q_line: oview(self.q_line),
            a: oview(self.a),
            b: oview(self.b),
            c: oview(self.c),
            d: oview(self.d),
            e: oview(self.e),
            f: oview(self.f),
            g: oview(self.g),
            raw_lines: sview(self.raw_lines@),
        }
    }
}

#[derive(Clone, Debug, PartialEq, Eq)]
pub enum ParsedMessage {
    Taf(TafParsed),
    Metar(MetarParsed),
    Notam(NotamParsed),
}

#[verifier::ext_equal]
pub enum ParsedMessageV {
    Taf(TafParsedV),
    Metar(MetarParsedV),
    Notam(NotamParsedV),
}

impl View for ParsedMessage {
    type V = ParsedMessageV;

    open spec fn view(&self) -> ParsedMessageV {
        match self {
            ParsedMessage::Taf(p) => ParsedMessageV::Taf(p.view()),
            ParsedMessage::Metar(p) => ParsedMessageV::Metar(p.view()),
            ParsedMessage::Notam(p) => ParsedMessageV::Notam(p.view()),
        }
    }
}

#[derive(Clone, Debug, PartialEq, Eq)]
pub struct TafTrendNormalized {
    pub kind: TrendKind,
    pub period: Option<ValidityPeriod>,
    pub wind: Option<WindNormalized>,
    pub visibility_m: Option<u32>,
    pub weather: Vec<String>,
    pub clouds: Vec<CloudLayer>,
}

#[verifier::ext_equal]
pub struct TafTrendNormalizedV {
    pub kind: TrendKind,
    pub period: Option<ValidityPeriod>,
    pub wind: Option<WindNormalized>,
    pub visibility_m: Option<u32>,
    pub weather: Seq<Seq<char>>,
    pub clouds: Seq<CloudLayerV>,
}

impl View for TafTrendNormalized {
    type V = TafTrendNormalizedV;

    open spec fn view(&self) -> TafTrendNormalizedV {
        TafTrendNormalizedV {
            kind: self.kind,
            period: self.period,
            wind: self.wind,
            visibility_m: self.visibility_m,
            weather: sview(self.weather@),
            clouds: sview(self.clouds@),
        }
    }
}

#[derive(Clone, Debug, PartialEq, Eq)]
pub struct TafNormalized {
    pub station: Option<String>,
    pub issue_time: Option<UtcTime>,
    pub validity: Option<ValidityPeriod>,
    pub wind: Option<WindNormalized>,
    pub visibility_m: Option<u32>,
    pub weather: Vec<String>,
    pub clouds: Vec<CloudLayer>,
    pub temperatures: Vec<String>,
    pub trends: Vec<TafTrendNormalized>,
}

#[verifier::ext_equal]
pub struct TafNormalizedV {
    pub station: Option<Seq<char>>,
    pub issue_time: Option<UtcTime>,
    pub validity: Option<ValidityPeriod>,
    pub wind: Option<WindNormalized>,
    pub visibility_m: Option<u32>,
    pub weather: Seq<Seq<char>>,
    pub clouds: Seq<CloudLayerV>,
    pub temperatures: Seq<Seq<char>>,
    pub trends: Seq<TafTrendNormalizedV>,
}

impl View for TafNormalized {
    type V = TafNormalizedV;

    open spec fn view(&self) -> TafNormalizedV {
        TafNormalizedV {
            station: oview(self.station),
            issue_time: self.issue_time,
            validity: self.validity,
            wind: self.wind,
            visibility_m: self.visibility_m,
            weather: sview(self.weather@),
            clouds: sview(self.clouds@),
            temperatures: sview(self.temperatures@),
            trends: sview(self.trends@),
        }
    }
}

/// Canonicalized METAR record. Pressures are kept as exact integers:
/// `pressure_hpa_tenths` holds tenths of hectopascals and
/// `pressure_inhg_centi` hundredths of inches of mercury, so the record
/// stays free of floating point while losing nothing the renderer needs.
#[derive(Clone, Debug, PartialEq, Eq)]
pub struct MetarNormalized {
    pub station: Option<String>,
    pub issue_time: Option<UtcTime>,
    pub wind: Option<WindNormalized>,
    pub wind_variation: Option<WindVariation>,
    pub rvr: Vec<Rvr>,
    pub visibility_m: Option<u32>,
    pub weather: Vec<String>,
    pub clouds: Vec<CloudLayer>,
    pub temperature: Option<TemperaturePair>,
    pub pressure_hpa_tenths: Option<u32>,
    pub pressure_inhg_centi: Option<u16>,
    pub pressure_hpa_int: Option<u16>,
    pub rmk_raw: Option<String>,
    pub rmk_tokens: Vec<String>,
    pub trend: Option<MetarTrend>,
}

#[verifier::ext_equal]
pub struct MetarNormalizedV {
    pub station: Option<Seq<char>>,
    pub issue_time: Option<UtcTime>,
    pub wind: Option<WindNormalized>,
    pub wind_variation: Option<WindVariation>,
    pub rvr: Seq<RvrV>,
    pub visibility_m: Option<u32>,
    pub weather: Seq<Seq<char>>,
    pub clouds: Seq<CloudLayerV>,
    pub temperature: Option<TemperaturePair>,
    pub pressure_hpa_tenths: Option<u32>,
    pub pressure_inhg_centi: Option<u16>,
    pub pressure_hpa_int: Option<u16>,
    pub rmk_raw: Option<Seq<char>>,
    pub rmk_tokens: Seq<Seq<char>>,
    pub trend: Option<MetarTrend>,
}

impl View for MetarNormalized {
    type V = MetarNormalizedV;

    open spec fn view(&self) -> MetarNormalizedV {
        MetarNormalizedV {
            station: oview(self.station),
            issue_time: self.issue_time,
            wind: self.wind,
            wind_variation: self.wind_variation,
            rvr: sview(self.rvr@),
            visibility_m: self.visibility_m,
            weather: sview(self.weather@),
            clouds: sview(self.clouds@),
            temperature: self.temperature,
            pressure_hpa_tenths: self.pressure_hpa_tenths,
            pressure_inhg_centi: self.pressure_inhg_centi,
            pressure_hpa_int: self.pressure_hpa_int,
            rmk_raw: oview(self.rmk_raw),
            rmk_tokens: sview(self.rmk_tokens@),
            trend: self.trend,
        }
    }
}

#[derive(Clone, Debug, PartialEq, Eq)]
pub struct NotamNormalized {
    pub q_line: Option<String>,
    pub a: Option<String>,
    pub b: Option<String>,
    pub c: Option<String>,
    pub d: Option<String>,
    pub e: Option<String>,
    pub f: Option<String>,
    pub g: Option<String>,
}

#[verifier::ext_equal]
pub struct NotamNormalizedV {
    pub q_line: Option<Seq<char>>,
    pub a: Option<Seq<char>>,
    pub b: Option<Seq<char>>,
    pub c: Option<Seq<char>>,
    pub d: Option<Seq<char>>,
    pub e: Option<Seq<char>>,
    pub f: Option<Seq<char>>,
    pub g: Option<Seq<char>>,
}

impl View for NotamNormalized {
    type V = NotamNormalizedV;

    open spec fn view(&self) -> NotamNormalizedV {
        NotamNormalizedV {
            q_line: oview(self.q_line),
            a: oview(self.a),
            b: oview(self.b),
            c: oview(self.c),
            d: oview(self.d),
            e: oview(self.e),
            f: oview(self.f),
            g: oview(self.g),
        }
    }
}

#[derive(Clone, Debug, PartialEq, Eq)]
pub enum NormalizedMessage {
    Taf(TafNormalized),
    Metar(MetarNormalized),
    Notam(NotamNormalized),
}

#[verifier::ext_equal]
pub enum NormalizedMessageV {
    Taf(TafNormalizedV),
    Metar(MetarNormalizedV),
    Notam(NotamNormalizedV),
}

impl View for NormalizedMessage {
    type V = NormalizedMessageV;

    open spec fn view(&self) -> NormalizedMessageV {
        match self {
            NormalizedMessage::Taf(n) => NormalizedMessageV::Taf(n.view()),
            NormalizedMessage::Metar(n) => NormalizedMessageV::Metar(n.view()),
            NormalizedMessage::Notam(n) => NormalizedMessageV::Notam(n.view()),
        }
    }
}

#[derive(Clone, Debug, PartialEq, Eq)]
pub struct DecodeResponse {
    pub schema_version: String,
    pub message_type: MessageType,
    pub requested_type: MessageType,
    pub detected_type: MessageType,
    pub final_type: MessageType,
    pub raw: String,
    pub parsed: Option<ParsedMessage>,
    pub normalized: Option<NormalizedMessage>,
    pub explain: Option<String>,
    pub warnings: Vec<Issue>,
    pub errors: Vec<Issue>,
    pub warnings_legacy: Option<Vec<String>>,
    pub errors_legacy: Option<Vec<String>>,
}

#[verifier::ext_equal]
pub struct DecodeResponseV {
    pub schema_version: Seq<char>,
    pub message_type: MessageType,
    pub requested_type: MessageType,
    pub detected_type: MessageType,
    pub final_type: MessageType,
    pub raw: Seq<char>,
    pub parsed: Option<ParsedMessageV>,
    pub normalized: Option<NormalizedMessageV>,
    pub explain: Option<Seq<char>>,
    pub warnings: Seq<IssueV>,
    pub errors: Seq<IssueV>,
    pub warnings_legacy: Option<Seq<Seq<char>>>,
    pub errors_legacy: Option<Seq<Seq<char>>>,
}

pub open spec fn legacy_view(o: Option<Vec<String>>) -> Option<Seq<Seq<char>>> {
    match o {
        Some(v) => Some(sview(v@)),
        None => None,
    }
}

impl View for DecodeResponse {
    type V = DecodeResponseV;

    open spec fn view(&self) -> DecodeResponseV {
        DecodeResponseV {
            schema_version: self.schema_version@,
            message_type: self.message_type,
            requested_type: self.requested_type,
            detected_type: self.detected_type,
            final_type: self.final_type,
            raw: self.raw@,
            parsed: oview(self.parsed),
            normalized: oview(self.normalized),
            explain: oview(self.explain),
            warnings: sview(self.warnings@),
            errors: sview(self.errors@),
            warnings_legacy: legacy_view(self.warnings_legacy),
            errors_legacy: legacy_view(self.errors_legacy),
        }
    }
}

/// Options of one decode call.
#[derive(Clone, Debug, PartialEq, Eq)]
pub struct DecodeOptions {
    pub type_hint: MessageType,
    pub lang: String,
    pub detail: DetailLevel,
    pub output_json: bool,
    pub output_explain: bool,
}

#[verifier::ext_equal]
pub struct DecodeOptionsV {
    pub type_hint: MessageType,
    pub lang: Seq<char>,
    pub detail: DetailLevel,
    pub output_json: bool,
    pub output_explain: bool,
}

impl View for DecodeOptions {
    type V = DecodeOptionsV;

    open spec fn view(&self) -> DecodeOptionsV {
        DecodeOptionsV {
            type_hint: self.type_hint,
            lang: self.lang@,
            detail: self.detail,
            output_json: self.output_json,
            output_explain: self.output_explain,
        }
    }
}

impl Default for DecodeOptions {
    /// Auto-detected type, the fully supported locale, normal detail, both
    /// output sections enabled.
    fn default() -> (r: Self)
        ensures
            r@ == (DecodeOptionsV {
                type_hint: MessageType::Unknown,
                lang: "zh-CN"@,
                detail: DetailLevel::Normal,
                output_json: true,
                output_explain: true,
            }),
    {
        DecodeOptions {
            type_hint: MessageType::Unknown,
            lang: String::from_str("zh-CN"),
            detail: DetailLevel::Normal,
            output_json: true,
            output_explain: true,
        }
    }
}

/// A copy of an optional string with the same characters.
pub fn clone_opt_string(o: &Option<String>) -> (r: Option<String>)
    ensures
        oview(r) == oview(*o),
{
    match o {
        Some(s) => Some(s.clone()),
        None => None,
    }
}

/// A copy of a string list with the same contents.
pub fn clone_strings(v: &Vec<String>) -> (r: Vec<String>)
    ensures
        ssview(r@) == ssview(v@),
{
    let mut out: Vec<String> = Vec::new();
    let mut i: usize = 0;
    while i < v.len()
        invariant
            i <= v@.len(),
            out@.len() == i,
            forall|k: int| 0 <= k < i ==> #[trigger] out@[k]@ == v@[k]@,
        decreases v@.len() - i,
    {
        out.push(v[i].clone());
        i = i + 1;
    }
    proof {
        assert(ssview(out@) =~= ssview(v@));
    }
    out
}

/// A copy of a visibility record with the same contents.
pub fn clone_visibility(v: &Visibility) -> (r: Visibility)
    ensures
        r@ == v@,
{
    Visibility { distance: v.distance, unit: v.unit, raw: v.raw.clone() }
}

/// A copy of a cloud layer with the same contents.
pub fn clone_cloud(l: &CloudLayer) -> (r: CloudLayer)
    ensures
        r@ == l@,
{
    CloudLayer {
        amount: l.amount,
        height_ft: l.height_ft,
        cloud_type: l.cloud_type,
        raw: l.raw.clone(),
    }
}

/// A copy of a cloud-layer list with the same contents.
pub fn clone_clouds(v: &Vec<CloudLayer>) -> (r: Vec<CloudLayer>)
    ensures
        sview(r@) == sview(v@),
{
    let mut out: Vec<CloudLayer> = Vec::new();
    let mut i: usize = 0;
    while i < v.len()
        invariant
            i <= v@.len(),
            out@.len() == i,
            forall|k: int| 0 <= k < i ==> #[trigger] out@[k]@ == v@[k]@,
        decreases v@.len() - i,
    {
        out.push(clone_cloud(&v[i]));
        i = i + 1;
    }
    proof {
        assert(sview(out@) =~= sview(v@));
    }
    out
}

/// A copy of a TAF trend record with the same contents.
pub fn clone_taf_trend(t: &TafTrend) -> (r: TafTrend)
    ensures
        r@ == t@,
{
    let r = TafTrend {
        kind: t.kind,
        period: t.period,
        wind: t.wind,
        visibility: match &t.visibility {
            Some(v) => Some(clone_visibility(v)),
            None => None,
        },
        weather: clone_strings(&t.weather),
        clouds: clone_clouds(&t.clouds),
        raw_tokens: clone_strings(&t.raw_tokens),
    };
    proof {
        assert(r@ =~~= t@);
    }
    r
}

/// A copy of a runway-visual-range list with the same contents.
pub fn clone_rvrs(v: &Vec<Rvr>) -> (r: Vec<Rvr>)
    ensures
        sview(r@) == sview(v@),
{
    let mut out: Vec<Rvr> = Vec::new();
    let mut i: usize = 0;
    while i < v.len()
        invariant
            i <= v@.len(),
            out@.len() == i,
            forall|k: int| 0 <= k < i ==> #[trigger] out@[k]@ == v@[k]@,
        decreases v@.len() - i,
    {
        let x = &v[i];
        out.push(
            Rvr {
                runway: x.runway.clone(),
                vis_m: x.vis_m,
                vis_vary_m: x.vis_vary_m,
                tendency: x.tendency,
            },
        );
        i = i + 1;
    }
    proof {
        assert(sview(out@) =~= sview(v@));
    }
    out
}

} // verus!
