use vstd::prelude::*;

use crate::decimal::{decimal_text_spec, round_dp_spec, DecimalValue, MAX_SCALE};
use crate::error::{FormatProblem, WeatherError};
use crate::models::{Main, OpenWeatherData};
use crate::temperature::{unit_symbol, unit_symbol_spec, value_in, TempUnit, Temperature, READING_LIMIT};
use crate::text::{capitalize, capitalized, push_str, text_eq};

verus! {

/// The application name a notification is sent under.
pub const APP_NAME: &'static str = "mausam";

/// What a notification shows.
pub struct NotifyView {
    pub summary: Seq<char>,
    pub body: Seq<char>,
    pub icon: Seq<char>,
    pub timeout: Option<u32>,
}

/// A complete notification: summary, body and icon are always present and non-empty.
#[derive(Debug, Clone)]
pub struct NotifyData {
    summary: String,
    body: String,
    icon: String,
    timeout: Option<u32>,
}

impl View for NotifyData {
    type V = NotifyView;

    closed spec fn view(&self) -> NotifyView {
        NotifyView {
            summary: self.summary@,
            body: self.body@,
            icon: self.icon@,
            timeout: self.timeout,
        }
    }
}

impl NotifyData {
    /// Builds a notification; `None` unless summary, body and icon are all non-empty.
    pub fn new(summary: &str, body: &str, icon: &str) -> (r: Option<Self>)
        ensures
            r is Some <==> summary@.len() > 0 && body@.len() > 0 && icon@.len() > 0,
            r is Some ==> r->Some_0@ == (NotifyView {
                summary: summary@,
                body: body@,
                icon: icon@,
                timeout: None,
            }),
    {
        if summary.unicode_len() == 0 || body.unicode_len() == 0 || icon.unicode_len() == 0 {
            return None;
        }
        let r = NotifyData {
            summary: String::from_str(summary),
            body: String::from_str(body),
            icon: String::from_str(icon),
            timeout: None,
        };
        Some(r)
    }

    /// The same notification, shown for `t` milliseconds.
    pub fn with_timeout(self, t: u32) -> (r: Self)
        ensures
            r@ == (NotifyView { timeout: Some(t), ..self@ }),
    {
        NotifyData { timeout: Some(t), ..self }
    }

    pub fn summary(&self) -> (r: &str)
        ensures
            r@ == self@.summary,
    {
        self.summary.as_str()
    }

    pub fn body(&self) -> (r: &str)
        ensures
            r@ == self@.body,
    {
        self.body.as_str()
    }

    pub fn icon(&self) -> (r: &str)
        ensures
            r@ == self@.icon,
    {
        self.icon.as_str()
    }

    pub fn timeout(&self) -> (r: Option<u32>)
        ensures
            r == self@.timeout,
    {
        self.timeout
    }
}

/// The icon shown for a condition keyword; an unknown keyword gets a generic icon.
pub open spec fn icon_spec(keyword: Seq<char>) -> Seq<char> {
    if keyword == "Clear"@ {
        "weather-clear"@
    } else if keyword == "Clouds"@ {
        "weather-few-clouds"@
    } else if keyword == "Rain"@ || keyword == "Drizzle"@ {
        "weather-showers"@
    } else if keyword == "Thunderstorm"@ {
        "weather-storm"@
    } else if keyword == "Snow"@ {
        "weather-snow"@
    } else if keyword == "Mist"@ || keyword == "Fog"@ || keyword == "Haze"@ {
        "weather-fog"@
    } else {
        "dialog-information"@
    }
}

pub fn icon_for(keyword: &str) -> (r: &'static str)
    ensures
        r@ == icon_spec(keyword@),
{
    if text_eq(keyword, "Clear") {
        "weather-clear"
    } else if text_eq(keyword, "Clouds") {
        "weather-few-clouds"
    } else if text_eq(keyword, "Rain") || text_eq(keyword, "Drizzle") {
        "weather-showers"
    } else if text_eq(keyword, "Thunderstorm") {
        "weather-storm"
    } else if text_eq(keyword, "Snow") {
        "weather-snow"
    } else if text_eq(keyword, "Mist") || text_eq(keyword, "Fog") || text_eq(keyword, "Haze") {
        "weather-fog"
    } else {
        "dialog-information"
    }
}

/// `{place} {temp}{symbol}`
pub open spec fn summary_spec(place: Seq<char>, temp: DecimalValue, unit: TempUnit) -> Seq<char> {
    place + " "@ + decimal_text_spec(temp.mantissa as int, temp.scale as nat) + unit_symbol_spec(unit)
}

/// `{Description}... {min}{symbol} / {max}{symbol}`
pub open spec fn body_spec(description: Seq<char>, min: i64, max: i64, unit: TempUnit) -> Seq<char> {
    capitalized(description) + "... "@ + decimal_text_spec(min as int, 0) + unit_symbol_spec(unit)
        + " / "@ + decimal_text_spec(max as int, 0) + unit_symbol_spec(unit)
}

/// Composes the notification for `place` from the first listed condition and the
/// displayed temperature, minimum and maximum.
pub fn compose(
    place: &str,
    snapshot: &OpenWeatherData,
    temp: DecimalValue,
    min: i64,
    max: i64,
    unit: TempUnit,
) -> (r: NotifyData)
    requires
        snapshot.has_conditions(),
        temp.scale <= MAX_SCALE,
        temp.mantissa > i128::MIN,
    ensures
        ({
            let first = snapshot.weather->Some_0@[0];
            r@ == NotifyView {
                summary: summary_spec(place@, temp, unit),
                body: body_spec(first.description@, min, max, unit),
                icon: icon_spec(first.main@),
                timeout: None,
            }
        }),
{
    let list = match &snapshot.weather {
        Some(list) => list,
        None => {
            return NotifyData {
                summary: String::new(),
                body: String::new(),
                icon: String::new(),
                timeout: None,
            };
        },
    };
    let first = &list[0];
    let symbol = unit_symbol(unit);

    let mut summary = String::from_str(place);
    push_str(&mut summary, " ");
    let temp_text = temp.to_text();
    push_str(&mut summary, temp_text.as_str());
    push_str(&mut summary, symbol);

    let mut body = capitalize(first.description.as_str());
    push_str(&mut body, "... ");
    let min_text = DecimalValue { mantissa: min as i128, scale: 0 }.to_text();
    push_str(&mut body, min_text.as_str());
    push_str(&mut body, symbol);
    push_str(&mut body, " / ");
    let max_text = DecimalValue { mantissa: max as i128, scale: 0 }.to_text();
    push_str(&mut body, max_text.as_str());
    push_str(&mut body, symbol);

    let icon = String::from_str(icon_for(first.main.as_str()));
    NotifyData { summary, body, icon, timeout: None }
}

/// A provider temperature: thousandths of a Kelvin.
pub open spec fn kelvin(v: i64) -> Temperature {
    Temperature { value: v, unit: TempUnit::Kelvin }
}

/// The metrics are readings (within `READING_LIMIT` in magnitude).
pub open spec fn readings_in_range(main: Main) -> bool {
    &&& kelvin(main.temp).is_reading()
    &&& kelvin(main.temp_min).is_reading()
    &&& kelvin(main.temp_max).is_reading()
}

/// The displayed temperature: the current one in `unit`, rounded to `dp` places
/// with ties to even.
pub open spec fn shown_temp(main: Main, unit: TempUnit, dp: u32) -> DecimalValue {
    let (m, s) = round_dp_spec(value_in(kelvin(main.temp), unit), 3, dp as nat);
    DecimalValue { mantissa: m as i128, scale: s as u32 }
}

/// The displayed minimum: whole degrees in `unit`, rounded down.
pub open spec fn shown_min(main: Main, unit: TempUnit) -> i64 {
    (value_in(kelvin(main.temp_min), unit) / 1000) as i64
}

/// The displayed maximum: whole degrees in `unit`, rounded up.
pub open spec fn shown_max(main: Main, unit: TempUnit) -> i64 {
    (-((-value_in(kelvin(main.temp_max), unit)) / 1000)) as i64
}

/// The displayed temperature, minimum and maximum of a report, in `unit`.
/// A metric outside the range of readings is a numeric failure.
pub fn display_temperatures(main: &Main, unit: TempUnit, dp: u32) -> (r: Result<
    (DecimalValue, i64, i64),
    WeatherError,
>)
    ensures
        r is Ok <==> readings_in_range(*main),
        r is Err ==> r->Err_0 == WeatherError::Numeric,
        r is Ok ==> ({
            let (t, lo, hi) = r->Ok_0;
            &&& t == shown_temp(*main, unit, dp)
            &&& lo == shown_min(*main, unit)
            &&& hi == shown_max(*main, unit)
            &&& t.scale <= 3
            &&& t.mantissa > i128::MIN
        }),
{
    let limit = READING_LIMIT;
    if main.temp < -limit || main.temp > limit || main.temp_min < -limit || main.temp_min > limit
        || main.temp_max < -limit || main.temp_max > limit {
        return Err(WeatherError::Numeric);
    }
    let temp = Temperature::new(main.temp, TempUnit::Kelvin).convert(unit);
    let low = Temperature::new(main.temp_min, TempUnit::Kelvin).convert(unit);
    let high = Temperature::new(main.temp_max, TempUnit::Kelvin).convert(unit);
    let t = temp.rounded(dp);
    proof {
        if dp < 3 {
            crate::decimal::lemma_pow10_mono(0, (3 - dp) as nat);
            crate::decimal::lemma_half_even_bound(temp.value as int, crate::decimal::pow10((3 - dp) as nat));
        }
    }
    Ok((t, low.floor_degrees(), high.ceil_degrees()))
}

/// What the notification for `place` shows: the summary with the displayed
/// temperature, the first condition's description with the displayed range, and
/// the icon of that condition.
pub open spec fn notice_spec(place: Seq<char>, snapshot: OpenWeatherData, unit: TempUnit, dp: u32) -> NotifyView {
    let first = snapshot.weather->Some_0@[0];
    NotifyView {
        summary: summary_spec(place, shown_temp(snapshot.main, unit, dp), unit),
        body: body_spec(
            first.description@,
            shown_min(snapshot.main, unit),
            shown_max(snapshot.main, unit),
            unit,
        ),
        icon: icon_spec(first.main@),
        timeout: None,
    }
}

/// The notification for `place` from a report, temperatures shown in `unit` with
/// `dp` places. A report without conditions is a data-format failure, a metric
/// outside the range of readings a numeric one.
pub fn notification_for(place: &str, snapshot: &OpenWeatherData, unit: TempUnit, dp: u32) -> (r:
    Result<NotifyData, WeatherError>)
    ensures
        r is Ok <==> snapshot.has_conditions() && readings_in_range(snapshot.main),
        !snapshot.has_conditions() ==> (match r {
            Err(WeatherError::DataFormat { problem, excerpt }) => problem
                == FormatProblem::NoConditions,
            _ => false,
        }),
        snapshot.has_conditions() && !readings_in_range(snapshot.main) ==> r == Err::<
            NotifyData,
            WeatherError,
        >(WeatherError::Numeric),
        r is Ok ==> r->Ok_0@ == notice_spec(place@, *snapshot, unit, dp),
{
    let listed = match &snapshot.weather {
        Some(list) => list.len() > 0,
        None => false,
    };
    if !listed {
        return Err(
            WeatherError::DataFormat { problem: FormatProblem::NoConditions, excerpt: String::new() },
        );
    }
    match display_temperatures(&snapshot.main, unit, dp) {
        Err(e) => Err(e),
        Ok((t, lo, hi)) => Ok(compose(place, snapshot, t, lo, hi, unit)),
    }
}

} // verus!
