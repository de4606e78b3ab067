//! The token model: what a report can say, as typed values. Every physical
//! quantity carries its unit beside its value.

use crate::lexical::Span;
use vstd::prelude::*;

verus! {

/// A non-negative amount as it was written: a whole number, a whole number
/// plus a fraction, or a whole number with decimal places.
#[derive(Clone, Copy, Debug, PartialEq, Eq, Structural)]
pub enum Amount {
    /// `whole`.
    Whole(u64),
    /// `whole + numerator / denominator`.
    Mixed { whole: u64, numerator: u64, denominator: u64 },
    /// `whole + fraction / 10^places`.
    Decimal { whole: u64, fraction: u64, places: usize },
}

/// The unit of an angle.
#[derive(Clone, Copy, Debug, PartialEq, Eq, Structural)]
pub enum AngleUnit {
    Degree,
}

/// The unit of a length.
#[derive(Clone, Copy, Debug, PartialEq, Eq, Structural)]
pub enum LengthUnit {
    Meter,
    Kilometer,
    StatuteMile,
    Foot,
    Millimeter,
    Decimeter,
}

/// The unit of a velocity.
#[derive(Clone, Copy, Debug, PartialEq, Eq, Structural)]
pub enum VelocityUnit {
    MeterPerSecond,
    Knot,
    KilometerPerHour,
}

/// The unit of a pressure.
#[derive(Clone, Copy, Debug, PartialEq, Eq, Structural)]
pub enum PressureUnit {
    Hectopascal,
    /// A hundredth of an inch of mercury, the step in which an altimeter
    /// setting is sent: 2992 of them are 29.92 inHg.
    HundredthInchOfMercury,
}

/// The unit of a temperature.
#[derive(Clone, Copy, Debug, PartialEq, Eq, Structural)]
pub enum TemperatureUnit {
    DegreeCelsius,
}

/// An angle: a whole number of its unit.
#[derive(Clone, Copy, Debug, PartialEq, Eq, Structural)]
pub struct Angle {
    pub value: u64,
    pub unit: AngleUnit,
}

/// A length: an amount of its unit.
#[derive(Clone, Copy, Debug, PartialEq, Eq, Structural)]
pub struct Length {
    pub value: Amount,
    pub unit: LengthUnit,
}

/// A velocity: an amount of its unit.
#[derive(Clone, Copy, Debug, PartialEq, Eq, Structural)]
pub struct Velocity {
    pub value: Amount,
    pub unit: VelocityUnit,
}

/// A pressure: an amount of its unit.
#[derive(Clone, Copy, Debug, PartialEq, Eq, Structural)]
pub struct Pressure {
    pub value: Amount,
    pub unit: PressureUnit,
}

/// A temperature: a whole number of its unit, below zero or not.
#[derive(Clone, Copy, Debug, PartialEq, Eq, Structural)]
pub struct Temperature {
    pub value: i64,
    pub unit: TemperatureUnit,
}

/// A time of day in UTC, as it was written.
#[derive(Clone, Copy, Debug, PartialEq, Eq, Structural)]
pub struct ZuluTime {
    pub hour: u8,
    pub minute: u8,
}

/// A day of the month and a time of day, and whether `Z` closed them.
#[derive(Clone, Copy, Debug, PartialEq, Eq, Structural)]
pub struct ZuluDateTime {
    pub day_of_month: u8,
    pub time: ZuluTime,
    pub is_zulu: bool,
}

/// From one time of day to another.
#[derive(Clone, Copy, Debug, PartialEq, Eq, Structural)]
pub struct ZuluTimeRange {
    pub begin: ZuluTime,
    pub end: ZuluTime,
}

/// A mark on the observation as a whole.
#[derive(Clone, Copy, Debug, PartialEq, Eq, Structural)]
pub enum ObservationFlag {
    Auto,
    Nil,
    Cor,
    Cca,
    Ccb,
    Ccc,
    Rtd,
}

/// The set of observation flags that a report carries: one mark per flag.
#[derive(Clone, Copy, Debug, PartialEq, Eq, Structural)]
pub struct ObservationFlags {
    pub auto: bool,
    pub nil: bool,
    pub cor: bool,
    pub cca: bool,
    pub ccb: bool,
    pub ccc: bool,
    pub rtd: bool,
}

/// The wind: direction, none where it varies; speed; peak gust; and the
/// directions between which it varies.
#[derive(Clone, Copy, Debug, PartialEq, Eq)]
pub struct Wind {
    pub direction: Option<Angle>,
    pub speed: Option<Velocity>,
    pub peak_gust: Option<Velocity>,
    pub variance: Option<(Angle, Angle)>,
}

/// A distance beyond what can be measured.
#[derive(Clone, Copy, Debug, PartialEq, Eq, Structural)]
pub enum OutOfRange {
    Below,
    Above,
}

/// A distance, and whether the true value lies below or above it.
#[derive(Clone, Copy, Debug, PartialEq, Eq, Structural)]
pub struct RawVisibility {
    pub distance: Length,
    pub out_of_range: Option<OutOfRange>,
}

/// One of the eight compass points.
#[derive(Clone, Copy, Debug, PartialEq, Eq, Structural)]
pub enum CompassDirection {
    North,
    NorthEast,
    East,
    SouthEast,
    South,
    SouthWest,
    West,
    NorthWest,
}

/// The visibility towards a compass point.
#[derive(Clone, Copy, Debug, PartialEq, Eq, Structural)]
pub struct DirectionalVisibility {
    pub direction: CompassDirection,
    pub distance: RawVisibility,
}

/// Prevailing visibility, and the least and the greatest visibility by
/// direction.
#[derive(Clone, Copy, Debug, PartialEq, Eq, Structural)]
pub struct Visibility {
    pub prevailing: Option<RawVisibility>,
    pub minimum_directional: Option<DirectionalVisibility>,
    pub maximum_directional: Option<DirectionalVisibility>,
}

/// A runway visibility: one distance, or two between which it varies.
#[derive(Clone, Copy, Debug, PartialEq, Eq, Structural)]
pub enum VisibilityType {
    Fixed(RawVisibility),
    Varying { lower: RawVisibility, upper: RawVisibility },
}

/// How a runway visibility is changing.
#[derive(Clone, Copy, Debug, PartialEq, Eq, Structural)]
pub enum VisibilityTrend {
    Down,
    NoChange,
    Up,
}

/// The visibility along a runway.
#[derive(Clone, Copy, Debug, PartialEq, Eq, Structural)]
pub struct RunwayVisibility {
    /// Where the runway designator stands in the input.
    pub designator: Span,
    pub visibility: VisibilityType,
    pub trend: Option<VisibilityTrend>,
}

/// The state of a runway.
#[derive(Clone, Copy, Debug, PartialEq, Eq, Structural)]
pub enum RunwayReportInfo {
    Cleared { friction: Option<u64> },
}

/// The state of a runway, by its designator.
#[derive(Clone, Copy, Debug, PartialEq, Eq, Structural)]
pub struct RunwayReport {
    /// Where the runway designator stands in the input.
    pub designator: Span,
    pub report_info: RunwayReportInfo,
}

/// The intensity of a weather phenomenon.
#[derive(Clone, Copy, Debug, PartialEq, Eq, Structural)]
pub enum Intensity {
    Light,
    Moderate,
    Heavy,
}

/// What qualifies a weather phenomenon.
#[derive(Clone, Copy, Debug, PartialEq, Eq, Structural)]
pub enum Descriptor {
    Shallow,
    Partial,
    Patches,
    LowDrifting,
    Blowing,
    Showers,
    Thunderstorm,
    Freezing,
}

/// A kind of precipitation.
#[derive(Clone, Copy, Debug, PartialEq, Eq, Structural)]
pub enum Precipitation {
    Rain,
    Drizzle,
    Snow,
    SnowGrains,
    IceCrystals,
    IcePellets,
    Hail,
    SmallHail,
    Unknown,
}

/// What obscures the view.
#[derive(Clone, Copy, Debug, PartialEq, Eq, Structural)]
pub enum Obscuration {
    Fog,
    Mist,
    Haze,
    VolcanicAsh,
    Dust,
    Smoke,
    Sand,
    Spray,
}

/// Another weather phenomenon.
#[derive(Clone, Copy, Debug, PartialEq, Eq, Structural)]
pub enum Other {
    Squall,
    DustWhirls,
    Duststorm,
    Sandstorm,
    FunnelCloud,
}

/// What a weather group reports: kinds of precipitation, one obscuration, or
/// one other phenomenon.
#[derive(Clone, Debug, PartialEq, Eq)]
pub enum Condition {
    Precipitation(Vec<Precipitation>),
    Obscuration(Obscuration),
    Other(Other),
}

/// A `Condition` in contracts.
pub enum ConditionModel {
    Precipitation(Seq<Precipitation>),
    Obscuration(Obscuration),
    Other(Other),
}

impl View for Condition {
    type V = ConditionModel;

    open spec fn view(&self) -> ConditionModel {
        match *self {
            Condition::Precipitation(l) => ConditionModel::Precipitation(l@),
            Condition::Obscuration(o) => ConditionModel::Obscuration(o),
            Condition::Other(o) => ConditionModel::Other(o),
        }
    }
}

/// A weather group.
#[derive(Clone, Debug, PartialEq, Eq)]
pub struct Weather {
    pub intensity: Intensity,
    pub vicinity: bool,
    pub descriptor: Option<Descriptor>,
    pub condition: Option<Condition>,
}

/// A `Weather` in contracts.
pub struct WeatherModel {
    pub intensity: Intensity,
    pub vicinity: bool,
    pub descriptor: Option<Descriptor>,
    pub condition: Option<ConditionModel>,
}

impl View for Weather {
    type V = WeatherModel;

    open spec fn view(&self) -> WeatherModel {
        WeatherModel {
            intensity: self.intensity,
            vicinity: self.vicinity,
            descriptor: self.descriptor,
            condition: match self.condition {
                Some(c) => Some(c@),
                None => None,
            },
        }
    }
}

/// The models of a sequence of weather groups, in the same order.
pub open spec fn weather_models(v: Seq<Weather>) -> Seq<WeatherModel> {
    Seq::new(v.len(), |i: int| v[i]@)
}

/// How much of the sky a cloud layer covers.
#[derive(Clone, Copy, Debug, PartialEq, Eq, Structural)]
pub enum CloudCoverage {
    SkyClear,
    Clear,
    NoCloudDetected,
    NoSignificantCloud,
    Few,
    Scattered,
    Broken,
    Overcast,
    VerticalVisibility,
}

/// The type of a cloud.
#[derive(Clone, Copy, Debug, PartialEq, Eq, Structural)]
pub enum CloudType {
    Cumulonimbus,
    ToweringCumulus,
    Cumulus,
    Cirrus,
    Altocumulus,
    Stratus,
}

/// A cloud layer.
#[derive(Clone, Copy, Debug, PartialEq, Eq, Structural)]
pub struct CloudCover {
    pub coverage: CloudCoverage,
    pub base: Option<Length>,
    pub cloud_type: Option<CloudType>,
}

/// Air temperature and dew point.
#[derive(Clone, Copy, Debug, PartialEq, Eq, Structural)]
pub struct Temperatures {
    pub air: Temperature,
    pub dewpoint: Option<Temperature>,
}

/// Rainfall of late and before.
#[derive(Clone, Copy, Debug, PartialEq, Eq, Structural)]
pub struct AccumulatedRainfall {
    pub recent: Length,
    pub past: Length,
}

/// A military colour state.
#[derive(Clone, Copy, Debug, PartialEq, Eq, Structural)]
pub enum ColorState {
    BluePlus,
    Blue,
    White,
    Green,
    Yellow1,
    Yellow2,
    Yellow,
    Amber,
    Red,
}

/// The colour state of an airfield, and the next one where it is given.
#[derive(Clone, Copy, Debug, PartialEq, Eq, Structural)]
pub struct Color {
    pub is_black: bool,
    pub current_color: ColorState,
    pub next_color: Option<ColorState>,
}

/// The state of the sea, by its code figure from 0 to 9.
#[derive(Clone, Copy, Debug, PartialEq, Eq, Structural)]
pub enum WaterSurfaceState {
    Glassy,
    Rippled,
    Smooth,
    Slight,
    Moderate,
    Rough,
    VeryRough,
    High,
    VeryHigh,
    Phenomenal,
}

/// The state of the water at a station by the sea.
#[derive(Clone, Copy, Debug, PartialEq, Eq, Structural)]
pub struct WaterConditions {
    pub temperature: Option<Temperature>,
    pub surface_state: Option<WaterSurfaceState>,
    pub significant_wave_height: Option<Length>,
}

/// How a trend relates to its time.
#[derive(Clone, Copy, Debug, PartialEq, Eq, Structural)]
pub enum TrendTimeType {
    At,
    From,
    Until,
}

/// The time of a trend.
#[derive(Clone, Copy, Debug, PartialEq, Eq, Structural)]
pub struct TrendTime {
    pub time_type: TrendTimeType,
    pub time: ZuluTime,
}

/// What a trend forecasts.
#[derive(Clone, Debug, PartialEq, Eq)]
pub struct TrendReport {
    pub time: Option<TrendTime>,
    pub wind: Option<Wind>,
    pub visibility: Option<Visibility>,
    pub weather: Vec<Weather>,
    pub cloud_cover: Vec<CloudCover>,
    pub color_state: Option<ColorState>,
}

/// A `TrendReport` in contracts.
pub struct TrendReportModel {
    pub time: Option<TrendTime>,
    pub wind: Option<Wind>,
    pub visibility: Option<Visibility>,
    pub weather: Seq<WeatherModel>,
    pub cloud_cover: Seq<CloudCover>,
    pub color_state: Option<ColorState>,
}

impl View for TrendReport {
    type V = TrendReportModel;

    open spec fn view(&self) -> TrendReportModel {
        TrendReportModel {
            time: self.time,
            wind: self.wind,
            visibility: self.visibility,
            weather: weather_models(self.weather@),
            cloud_cover: self.cloud_cover@,
            color_state: self.color_state,
        }
    }
}

/// A trend: the forecast appended to an observation.
#[derive(Clone, Debug, PartialEq, Eq)]
pub enum Trend {
    NoSignificantChange,
    Becoming(TrendReport),
    Temporarily(TrendReport),
}

/// A `Trend` in contracts.
pub enum TrendModel {
    NoSignificantChange,
    Becoming(TrendReportModel),
    Temporarily(TrendReportModel),
}

impl View for Trend {
    type V = TrendModel;

    open spec fn view(&self) -> TrendModel {
        match *self {
            Trend::NoSignificantChange => TrendModel::NoSignificantChange,
            Trend::Becoming(r) => TrendModel::Becoming(r@),
            Trend::Temporarily(r) => TrendModel::Temporarily(r@),
        }
    }
}

/// The models of a sequence of trends, in the same order.
pub open spec fn trend_models(v: Seq<Trend>) -> Seq<TrendModel> {
    Seq::new(v.len(), |i: int| v[i]@)
}

/// A parsed METAR or SPECI report.
#[derive(Clone, Debug, PartialEq, Eq)]
pub struct MetarReport {
    /// Where the four bytes of the station identifier stand in the input.
    pub identifier: Span,
    pub observation_time: Option<ZuluDateTime>,
    pub observation_validity_range: Option<ZuluTimeRange>,
    pub observation_flags: ObservationFlags,
    pub wind: Option<Wind>,
    pub visibility: Option<Visibility>,
    pub runway_visibilities: Vec<RunwayVisibility>,
    pub runway_reports: Vec<RunwayReport>,
    pub weather: Vec<Weather>,
    pub recent_weather: Vec<Weather>,
    pub cloud_cover: Vec<CloudCover>,
    pub cavok: bool,
    pub temperatures: Option<Temperatures>,
    pub pressure: Option<Pressure>,
    pub accumulated_rainfall: Option<AccumulatedRainfall>,
    pub color: Option<Color>,
    pub water_conditions: Option<WaterConditions>,
    pub trends: Vec<Trend>,
    /// Where the remark stands in the input, its opening keyword included.
    pub remark: Option<Span>,
    pub maintenance_needed: bool,
}

/// A `MetarReport` in contracts.
pub struct MetarReportModel {
    pub identifier: Span,
    pub observation_time: Option<ZuluDateTime>,
    pub observation_validity_range: Option<ZuluTimeRange>,
    pub observation_flags: ObservationFlags,
    pub wind: Option<Wind>,
    pub visibility: Option<Visibility>,
    pub runway_visibilities: Seq<RunwayVisibility>,
    pub runway_reports: Seq<RunwayReport>,
    pub weather: Seq<WeatherModel>,
    pub recent_weather: Seq<WeatherModel>,
    pub cloud_cover: Seq<CloudCover>,
    pub cavok: bool,
    pub temperatures: Option<Temperatures>,
    pub pressure: Option<Pressure>,
    pub accumulated_rainfall: Option<AccumulatedRainfall>,
    pub color: Option<Color>,
    pub water_conditions: Option<WaterConditions>,
    pub trends: Seq<TrendModel>,
    pub remark: Option<Span>,
    pub maintenance_needed: bool,
}

impl View for MetarReport {
    type V = MetarReportModel;

    open spec fn view(&self) -> MetarReportModel {
        MetarReportModel {
            identifier: self.identifier,
            observation_time: self.observation_time,
            observation_validity_range: self.observation_validity_range,
            observation_flags: self.observation_flags,
            wind: self.wind,
            visibility: self.visibility,
            runway_visibilities: self.runway_visibilities@,
            runway_reports: self.runway_reports@,
            weather: weather_models(self.weather@),
            recent_weather: weather_models(self.recent_weather@),
            cloud_cover: self.cloud_cover@,
            cavok: self.cavok,
            temperatures: self.temperatures,
            pressure: self.pressure,
            accumulated_rainfall: self.accumulated_rainfall,
            color: self.color,
            water_conditions: self.water_conditions,
            trends: trend_models(self.trends@),
            remark: self.remark,
            maintenance_needed: self.maintenance_needed,
        }
    }
}

} // verus!
