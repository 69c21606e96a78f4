//! The canonical forecast data model: location, current conditions, and the
//! per-day / per-hour forecast entries.
//!
//! The provider reports its numeric metrics (temperatures, wind speed, UV
//! index, rain chance) as floating-point numbers, but the report only ever
//! displays them.  The model therefore carries each metric as its display
//! text, which is everything the renderer reads of it; whatever fetches the
//! data formats the numbers once on the way in.

use vstd::prelude::*;

verus! {

/// Where the forecast applies, as the provider names it.
pub struct Location {
    pub name: String,
    pub region: String,
    pub country: String,
    /// Local time at the location, `YYYY-MM-DD HH:MM`.
    pub localtime: String,
}

/// A weather condition described in words ("Partly cloudy").
pub struct ConditionText {
    pub text: String,
}

/// The conditions right now.
pub struct CurrentConditions {
    pub last_updated_epoch: i32,
    /// Local time of the last provider update, `YYYY-MM-DD HH:MM`.
    pub last_updated: String,
    pub temp_c: String,
    pub condition: ConditionText,
    pub wind_kph: String,
    pub feelslike_c: String,
    pub uv: String,
}

/// The summary for one whole day.
pub struct DayConditions {
    pub maxtemp_c: String,
    pub mintemp_c: String,
    pub condition: ConditionText,
    pub maxwind_kph: String,
    pub daily_chance_of_rain: String,
    pub uv: String,
}

/// The conditions forecast for one hour of a day.
pub struct HourConditions {
    pub time_epoch: i32,
    pub temp_c: String,
    pub condition: ConditionText,
    pub wind_kph: String,
    pub chance_of_rain: String,
    pub feelslike_c: String,
    pub uv: String,
}

/// One forecast day: its date label, its day summary, and one entry per
/// hour of the day, indexed by hour `0..24`.
pub struct ForecastDay {
    pub date: String,
    pub date_epoch: i32,
    pub day: DayConditions,
    pub hour: Vec<HourConditions>,
}

/// The ordered days of the forecast; index 0 is today.
pub struct Forecast {
    pub forecastday: Vec<ForecastDay>,
}

/// One provider response: where, what it is like now, and what is coming.
pub struct Response {
    pub location: Location,
    pub current: CurrentConditions,
    pub forecast: Forecast,
}

impl Response {
    /// The structural invariant the provider promises: at least one forecast
    /// day (today), and exactly one entry per hour of each day.
    pub open spec fn wf(&self) -> bool {
        &&& self.forecast.forecastday.len() > 0
        &&& forall|i: int|
            0 <= i < self.forecast.forecastday.len()
                ==> #[trigger] self.forecast.forecastday[i].hour.len() == 24
    }
}

/// The condition attributes shared by the current conditions and by each
/// hourly entry, so that one renderer serves both.
pub trait CommonConditionsAttributes {
    spec fn spec_feelslike_c(&self) -> Seq<char>;

    spec fn spec_condition_text(&self) -> Seq<char>;

    spec fn spec_temp_c(&self) -> Seq<char>;

    spec fn spec_uv(&self) -> Seq<char>;

    spec fn spec_wind_kph(&self) -> Seq<char>;

    fn feelslike_c(&self) -> (r: &String)
        ensures
            r@ == self.spec_feelslike_c(),
    ;

    fn condition(&self) -> (r: &ConditionText)
        ensures
            r.text@ == self.spec_condition_text(),
    ;

    fn temp_c(&self) -> (r: &String)
        ensures
            r@ == self.spec_temp_c(),
    ;

    fn uv(&self) -> (r: &String)
        ensures
            r@ == self.spec_uv(),
    ;

    fn wind_kph(&self) -> (r: &String)
        ensures
            r@ == self.spec_wind_kph(),
    ;
}

impl CommonConditionsAttributes for CurrentConditions {
    open spec fn spec_feelslike_c(&self) -> Seq<char> {
        self.feelslike_c@
    }

    open spec fn spec_condition_text(&self) -> Seq<char> {
        self.condition.text@
    }

    open spec fn spec_temp_c(&self) -> Seq<char> {
        self.temp_c@
    }

    open spec fn spec_uv(&self) -> Seq<char> {
        self.uv@
    }

    open spec fn spec_wind_kph(&self) -> Seq<char> {
        self.wind_kph@
    }

    fn feelslike_c(&self) -> (r: &String) {
        &self.feelslike_c
    }

    fn condition(&self) -> (r: &ConditionText) {
        &self.condition
    }

    fn temp_c(&self) -> (r: &String) {
        &self.temp_c
    }

    fn uv(&self) -> (r: &String) {
        &self.uv
    }

    fn wind_kph(&self) -> (r: &String) {
        &self.wind_kph
    }
}

impl CommonConditionsAttributes for HourConditions {
    open spec fn spec_feelslike_c(&self) -> Seq<char> {
        self.feelslike_c@
    }

    open spec fn spec_condition_text(&self) -> Seq<char> {
        self.condition.text@
    }

    open spec fn spec_temp_c(&self) -> Seq<char> {
        self.temp_c@
    }

    open spec fn spec_uv(&self) -> Seq<char> {
        self.uv@
    }

    open spec fn spec_wind_kph(&self) -> Seq<char> {
        self.wind_kph@
    }

    fn feelslike_c(&self) -> (r: &String) {
        &self.feelslike_c
    }

    fn condition(&self) -> (r: &ConditionText) {
        &self.condition
    }

    fn temp_c(&self) -> (r: &String) {
        &self.temp_c
    }

    fn uv(&self) -> (r: &String) {
        &self.uv
    }

    fn wind_kph(&self) -> (r: &String) {
        &self.wind_kph
    }
}

} // verus!
