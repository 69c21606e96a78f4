//! Rendering a fetched forecast into ordered lines of report text: location
//! header, current conditions, today's summary, the coming hours, the coming
//! days, and the footer, with a divider between the major sections.
//!
//! Everything here is a pure function from the response and the two horizons
//! to text; printing the lines is left to the caller.

use vstd::prelude::*;
use vstd::string::StringExecFns;
use crate::models::{
    CommonConditionsAttributes, CurrentConditions, DayConditions, ForecastDay, Location, Response,
};
use crate::numfmt::{dec_digits, int_digits, u32_to_string, i32_to_string};
use crate::timeparse::{coming_hours_spec, get_coming_hours, hour_of, parses_local};

verus! {

/// Why rendering can fail; every case is a defect in the upstream data and
/// aborts the run rather than producing a truncated report.
#[derive(Clone, Copy, Debug, PartialEq, Eq, Structural)]
pub enum RenderError {
    /// The response carries no forecast days at all, not even today.
    NoForecastDays,
    /// Some forecast day does not have exactly one entry per hour of day.
    MalformedHourTable,
    /// The current local timestamp is not `YYYY-MM-DD HH:MM`.
    UnparseableTimestamp,
}

/// The location header: name, region and country, with the local time.
pub open spec fn location_line(loc: Location) -> Seq<char> {
    loc.name@ + ", "@ + loc.region@ + ", "@ + loc.country@ + " ("@ + loc.localtime@ + ")"@
}

/// The location block: the header line followed by a blank line.
pub open spec fn location_block(loc: Location) -> Seq<Seq<char>> {
    seq![location_line(loc), Seq::<char>::empty()]
}

/// The feels-like line of a conditions block.
pub open spec fn conditions_line1(feelslike: Seq<char>, condition: Seq<char>) -> Seq<char> {
    "Feels like "@ + feelslike + "󰔄 ("@ + condition + ")"@
}

/// The measured-metrics line of a conditions block.
pub open spec fn conditions_line2(temp: Seq<char>, uv: Seq<char>, wind: Seq<char>) -> Seq<char> {
    "Actual temperature: "@ + temp + "󰔄 | UV: "@ + uv + " | Wind speed: "@ + wind + " km/h"@
}

/// The two lines rendered for any bundle of condition attributes, current or
/// hourly alike.
pub open spec fn conditions_block<T: CommonConditionsAttributes>(c: T) -> Seq<Seq<char>> {
    seq![
        conditions_line1(c.spec_feelslike_c(), c.spec_condition_text()),
        conditions_line2(c.spec_temp_c(), c.spec_uv(), c.spec_wind_kph()),
    ]
}

/// Renders one bundle of condition attributes.
pub fn print_conditions<T: CommonConditionsAttributes>(conditions: &T) -> (r: Vec<String>)
    ensures
        r.deep_view() == conditions_block(*conditions),
{
    let mut line1 = String::from_str("Feels like ");
    line1.append(conditions.feelslike_c().as_str());
    line1.append("󰔄 (");
    line1.append(conditions.condition().text.as_str());
    line1.append(")");
    let mut line2 = String::from_str("Actual temperature: ");
    line2.append(conditions.temp_c().as_str());
    line2.append("󰔄 | UV: ");
    line2.append(conditions.uv().as_str());
    line2.append(" | Wind speed: ");
    line2.append(conditions.wind_kph().as_str());
    line2.append(" km/h");
    let mut r: Vec<String> = Vec::new();
    r.push(line1);
    r.push(line2);
    proof {
        assert(r.deep_view() =~= conditions_block(*conditions));
    }
    r
}

/// Renders the location header block.
pub fn print_location(response: &Response) -> (r: Vec<String>)
    ensures
        r.deep_view() == location_block(response.location),
{
    let mut line = String::new();
    line.append(response.location.name.as_str());
    line.append(", ");
    line.append(response.location.region.as_str());
    line.append(", ");
    line.append(response.location.country.as_str());
    line.append(" (");
    line.append(response.location.localtime.as_str());
    line.append(")");
    proof {
        assert(line@ =~= location_line(response.location));
    }
    let mut r: Vec<String> = Vec::new();
    r.push(line);
    r.push(String::new());
    proof {
        assert(r.deep_view() =~= location_block(response.location));
    }
    r
}

/// Today's summary line: the day-zero extremes.
pub open spec fn today_line(day: DayConditions) -> Seq<char> {
    "Min/max temperature: "@ + day.mintemp_c@ + "/"@ + day.maxtemp_c@ + "󰔄 | Max wind speed: "@
        + day.maxwind_kph@ + " km/h"@
}

/// Renders today's summary from the first forecast day.
pub fn print_today(response: &Response) -> (r: Vec<String>)
    requires
        response.forecast.forecastday@.len() > 0,
    ensures
        r.deep_view() == seq![today_line(response.forecast.forecastday@[0].day)],
{
    let day = &response.forecast.forecastday[0].day;
    let mut line = String::from_str("Min/max temperature: ");
    line.append(day.mintemp_c.as_str());
    line.append("/");
    line.append(day.maxtemp_c.as_str());
    line.append("󰔄 | Max wind speed: ");
    line.append(day.maxwind_kph.as_str());
    line.append(" km/h");
    let mut r: Vec<String> = Vec::new();
    r.push(line);
    proof {
        assert(r.deep_view() =~= seq![today_line(response.forecast.forecastday@[0].day)]);
    }
    r
}

/// The footer line: when the provider last updated the data.
pub open spec fn footer_line(current: CurrentConditions) -> Seq<char> {
    "Last updated: "@ + current.last_updated@ + " (local time)"@
}

/// Renders the footer.
pub fn print_footer(response: &Response) -> (r: Vec<String>)
    ensures
        r.deep_view() == seq![footer_line(response.current)],
{
    let mut line = String::from_str("Last updated: ");
    line.append(response.current.last_updated.as_str());
    line.append(" (local time)");
    let mut r: Vec<String> = Vec::new();
    r.push(line);
    proof {
        assert(r.deep_view() =~= seq![footer_line(response.current)]);
    }
    r
}

/// The divider between major report sections.
pub open spec fn divider_line() -> Seq<char> {
    "-----------------------------------------------------------"@
}

/// Law: the divider is exactly 59 separator characters.
pub proof fn lemma_divider_shape()
    ensures
        divider_line().len() == 59,
        forall|i: int| 0 <= i < 59 ==> divider_line()[i] == '-',
{
    reveal_strlit("-----------------------------------------------------------");
}

/// Renders the divider.
pub fn print_divider() -> (r: Vec<String>)
    ensures
        r.deep_view() == seq![divider_line()],
{
    let mut r: Vec<String> = Vec::new();
    r.push(String::from_str("-----------------------------------------------------------"));
    proof {
        assert(r.deep_view() =~= seq![divider_line()]);
    }
    r
}

/// The coming-hours header; "hour" is singular exactly when one hour is
/// shown.
pub open spec fn coming_hours_header(n_hours: int) -> Seq<char> {
    "Coming "@ + int_digits(n_hours) + " hour"@ + (if n_hours == 1 {
        ""@
    } else {
        "s"@
    }) + ":"@
}

/// The label line above one rendered hour.
pub open spec fn hour_label(h: int) -> Seq<char> {
    dec_digits(h as nat) + ":00:"@
}

/// The three lines rendered for one coming hour: its label and its
/// conditions.
pub open spec fn hour_entry(day: ForecastDay, h: int) -> Seq<Seq<char>> {
    seq![hour_label(h)] + conditions_block(day.hour@[h])
}

/// The entries for a window of hour-of-day indices, in window order.
pub open spec fn hours_entries(day: ForecastDay, hours: Seq<int>) -> Seq<Seq<char>>
    decreases hours.len(),
{
    if hours.len() == 0 {
        Seq::<Seq<char>>::empty()
    } else {
        hours_entries(day, hours.drop_last()) + hour_entry(day, hours.last())
    }
}

/// The whole coming-hours section: header, blank line, then one entry per
/// hour of the window.
pub open spec fn coming_hours_block(day: ForecastDay, current_hour: int, n_hours: int) -> Seq<
    Seq<char>,
> {
    seq![coming_hours_header(n_hours), Seq::<char>::empty()] + hours_entries(
        day,
        coming_hours_spec(current_hour, n_hours),
    )
}

/// Law: at a current hour of 22 with a two-hour window, the hourly section
/// is the header and blank line followed by the entry for hour 23 and then
/// the entry for hour 0 — the window wraps into the same day's hour table,
/// never into the next day's.
pub proof fn lemma_hourly_wrap_at_22(day: ForecastDay)
    ensures
        coming_hours_block(day, 22, 2) =~= seq![coming_hours_header(2), Seq::<char>::empty()]
            + hour_entry(day, 23) + hour_entry(day, 0),
{
    let hs = coming_hours_spec(22, 2);
    assert(hs.len() == 2);
    assert(hs[0] == 23);
    assert(hs[1] == 0);
    assert(hs.drop_last() =~= seq![23int]);
    assert(seq![23int].drop_last() =~= Seq::<int>::empty());
    assert(hours_entries(day, Seq::<int>::empty()) == Seq::<Seq<char>>::empty());
    assert(hours_entries(day, seq![23int]) =~= hour_entry(day, 23));
    assert(hours_entries(day, hs) =~= hour_entry(day, 23) + hour_entry(day, 0));
}

/// Renders the coming-hours section from today's hour table and the current
/// local timestamp; fails exactly when that timestamp does not parse.
pub fn print_coming_hours(response: &Response, n_hours: i32) -> (r: Result<
    Vec<String>,
    RenderError,
>)
    requires
        response.forecast.forecastday@.len() > 0,
        response.forecast.forecastday@[0].hour@.len() == 24,
    ensures
        r is Ok <==> parses_local(response.current.last_updated@),
        r matches Ok(lines) ==> lines.deep_view() == coming_hours_block(
            response.forecast.forecastday@[0],
            hour_of(response.current.last_updated@),
            n_hours as int,
        ),
        r is Err ==> r == Err::<Vec<String>, RenderError>(RenderError::UnparseableTimestamp),
{
    let hours = match get_coming_hours(response.current.last_updated.as_str(), n_hours) {
        Some(v) => v,
        None => {
            return Err(RenderError::UnparseableTimestamp);
        },
    };
    let mut header = String::from_str("Coming ");
    header.append(i32_to_string(n_hours).as_str());
    header.append(" hour");
    header.append(
        if n_hours == 1 {
            ""
        } else {
            "s"
        },
    );
    header.append(":");
    let day = &response.forecast.forecastday[0];
    let ghost ch: int = hour_of(response.current.last_updated@);
    let ghost hseq: Seq<int> = coming_hours_spec(ch, n_hours as int);
    let ghost head: Seq<Seq<char>> = seq![
        coming_hours_header(n_hours as int),
        Seq::<char>::empty(),
    ];
    let mut lines: Vec<String> = Vec::new();
    lines.push(header);
    lines.push(String::new());
    proof {
        assert(hours@.map_values(|h: usize| h as int) == hseq);
        assert(lines.deep_view() =~= head + hours_entries(*day, hseq.take(0)));
    }
    let n = hours.len();
    for k in 0..n
        invariant
            n == hours@.len(),
            hours@.map_values(|h: usize| h as int) == hseq,
            forall|i: int| 0 <= i < hours@.len() ==> hours@[i] < 24,
            *day == response.forecast.forecastday@[0],
            day.hour@.len() == 24,
            head == seq![coming_hours_header(n_hours as int), Seq::<char>::empty()],
            lines.deep_view() == head + hours_entries(*day, hseq.take(k as int)),
    {
        proof {
            assert(hseq[k as int] == hours@[k as int] as int);
        }
        let h = hours[k];
        let mut label = u32_to_string(h as u32);
        label.append(":00:");
        let ghost prev = lines.deep_view();
        let ghost lbl = label@;
        lines.push(label);
        let mut cond = print_conditions(&day.hour[h]);
        let ghost cb = cond.deep_view();
        lines.append(&mut cond);
        proof {
            assert(cb == conditions_block(day.hour@[h as int]));
            assert(lines.deep_view() =~~= prev + seq![lbl] + cb);
            assert(hseq.take(k + 1).drop_last() =~= hseq.take(k as int));
            assert(hseq.take(k + 1).last() == hseq[k as int]);
            assert(hours_entries(*day, hseq.take(k + 1)) == hours_entries(*day, hseq.take(k as int))
                + hour_entry(*day, hseq[k as int]));
            assert(lbl =~= hour_label(hseq[k as int]));
            assert(hour_entry(*day, hseq[k as int]) =~~= seq![lbl] + cb);
            assert(lines.deep_view() =~~= head + hours_entries(*day, hseq.take(k + 1)));
        }
    }
    proof {
        assert(hseq.take(n as int) =~= hseq);
    }
    Ok(lines)
}

/// The coming-days header; "day" is singular exactly when one day is asked
/// for.
pub open spec fn coming_days_header(n_days: int) -> Seq<char> {
    "Coming "@ + int_digits(n_days) + " day"@ + (if n_days == 1 {
        ""@
    } else {
        "s"@
    }) + ":"@
}

/// The detail line of one coming day.
pub open spec fn day_line(day: ForecastDay) -> Seq<char> {
    "Min/max temperature: "@ + day.day.mintemp_c@ + "/"@ + day.day.maxtemp_c@ + "󰔄  ("@
        + day.day.condition.text@ + ")| Max wind speed: "@ + day.day.maxwind_kph@
        + " km/h | Chance of rain: "@ + day.day.daily_chance_of_rain@ + "% | UV index: "@
        + day.day.uv@
}

/// The two lines rendered for one coming day: its date label and its detail
/// line.
pub open spec fn day_entry(day: ForecastDay) -> Seq<Seq<char>> {
    seq![day.date@ + ":"@, day_line(day)]
}

/// How many coming days are rendered: the asked-for horizon (never below
/// zero), clamped to the days available after today.
pub open spec fn selected_day_count(n_days: int, total: int) -> int {
    let want = if n_days < 0 {
        0
    } else {
        n_days
    };
    if want <= total - 1 {
        want
    } else {
        total - 1
    }
}

/// The entries for the first `count` days after today, in forecast order:
/// the entry for day index `i` stands at position `i - 1`.
pub open spec fn days_entries(days: Seq<ForecastDay>, count: int) -> Seq<Seq<char>>
    decreases count,
{
    if count <= 0 {
        Seq::<Seq<char>>::empty()
    } else {
        days_entries(days, count - 1) + day_entry(days[count])
    }
}

/// The whole coming-days section: header, blank line, then one entry per
/// selected day, today excluded.
pub open spec fn coming_days_block(resp: Response, n_days: int) -> Seq<Seq<char>> {
    seq![coming_days_header(n_days), Seq::<char>::empty()] + days_entries(
        resp.forecast.forecastday@,
        selected_day_count(n_days, resp.forecast.forecastday@.len() as int),
    )
}

/// Renders the coming-days section, skipping today and truncating silently
/// to the days the forecast actually has.
pub fn print_coming_days(response: &Response, n_days: i32) -> (r: Vec<String>)
    requires
        response.forecast.forecastday@.len() > 0,
    ensures
        r.deep_view() == coming_days_block(*response, n_days as int),
{
    let mut header = String::from_str("Coming ");
    header.append(i32_to_string(n_days).as_str());
    header.append(" day");
    header.append(
        if n_days == 1 {
            ""
        } else {
            "s"
        },
    );
    header.append(":");
    let ghost head: Seq<Seq<char>> = seq![
        coming_days_header(n_days as int),
        Seq::<char>::empty(),
    ];
    let mut lines: Vec<String> = Vec::new();
    lines.push(header);
    lines.push(String::new());
    let total = response.forecast.forecastday.len();
    let want: usize = if n_days <= 0 {
        0
    } else {
        n_days as usize
    };
    let count: usize = if want <= total - 1 {
        want
    } else {
        total - 1
    };
    proof {
        assert(count as int == selected_day_count(n_days as int, total as int));
        assert(lines.deep_view() =~= head + days_entries(response.forecast.forecastday@, 0));
    }
    for k in 0..count
        invariant
            total == response.forecast.forecastday@.len(),
            count < total,
            head == seq![coming_days_header(n_days as int), Seq::<char>::empty()],
            lines.deep_view() == head + days_entries(response.forecast.forecastday@, k as int),
    {
        let day = &response.forecast.forecastday[k + 1];
        let mut date_line = String::new();
        date_line.append(day.date.as_str());
        date_line.append(":");
        let mut detail = String::from_str("Min/max temperature: ");
        detail.append(day.day.mintemp_c.as_str());
        detail.append("/");
        detail.append(day.day.maxtemp_c.as_str());
        detail.append("󰔄  (");
        detail.append(day.day.condition.text.as_str());
        detail.append(")| Max wind speed: ");
        detail.append(day.day.maxwind_kph.as_str());
        detail.append(" km/h | Chance of rain: ");
        detail.append(day.day.daily_chance_of_rain.as_str());
        detail.append("% | UV index: ");
        detail.append(day.day.uv.as_str());
        let ghost prev = lines.deep_view();
        let ghost dl = date_line@;
        let ghost dt = detail@;
        lines.push(date_line);
        lines.push(detail);
        proof {
            let ghost days = response.forecast.forecastday@;
            assert(lines.deep_view() =~~= prev + seq![dl, dt]);
            assert(days_entries(days, k + 1) == days_entries(days, k as int) + day_entry(
                days[k + 1],
            ));
            assert(day_entry(days[k + 1]) =~~= seq![dl, dt]);
            assert(lines.deep_view() =~~= head + days_entries(
                response.forecast.forecastday@,
                k + 1,
            ));
        }
    }
    lines
}

/// The whole report, in block order: location header, current conditions,
/// today's summary, divider, coming hours, divider, coming days, divider,
/// footer.
pub open spec fn report_blocks(resp: Response, n_days: int, n_hours: int) -> Seq<Seq<char>> {
    location_block(resp.location) + conditions_block(resp.current) + seq![today_line(
        resp.forecast.forecastday@[0].day,
    )] + seq![divider_line()] + coming_hours_block(
        resp.forecast.forecastday@[0],
        hour_of(resp.current.last_updated@),
        n_hours,
    ) + seq![divider_line()] + coming_days_block(resp, n_days) + seq![divider_line()] + seq![
        footer_line(resp.current),
    ]
}

/// Renders the whole report.  A structurally incomplete response — no
/// forecast days, or an hour table without exactly one entry per hour — is
/// a fatal defect in the upstream data, never a truncated report.
pub fn print_weather(response: &Response, n_days: i32, n_hours: i32) -> (r: Result<
    Vec<String>,
    RenderError,
>)
    ensures
        response.forecast.forecastday@.len() == 0 ==> r == Err::<Vec<String>, RenderError>(
            RenderError::NoForecastDays,
        ),
        response.forecast.forecastday@.len() > 0 && !response.wf() ==> r == Err::<
            Vec<String>,
            RenderError,
        >(RenderError::MalformedHourTable),
        response.wf() ==> (r is Ok <==> parses_local(response.current.last_updated@)),
        response.wf() ==> (r matches Ok(lines) ==> lines.deep_view() == report_blocks(
            *response,
            n_days as int,
            n_hours as int,
        )),
        response.wf() && r is Err ==> r == Err::<Vec<String>, RenderError>(
            RenderError::UnparseableTimestamp,
        ),
{
    let total = response.forecast.forecastday.len();
    if total == 0 {
        return Err(RenderError::NoForecastDays);
    }
    let mut i: usize = 0;
    while i < total
        invariant
            total == response.forecast.forecastday@.len(),
            i <= total,
            forall|j: int|
                0 <= j < i ==> #[trigger] response.forecast.forecastday@[j].hour@.len() == 24,
        decreases total - i,
    {
        if response.forecast.forecastday[i].hour.len() != 24 {
            return Err(RenderError::MalformedHourTable);
        }
        i += 1;
    }
    let mut lines = print_location(response);
    let mut current = print_conditions(&response.current);
    lines.append(&mut current);
    let mut today = print_today(response);
    lines.append(&mut today);
    let mut div1 = print_divider();
    lines.append(&mut div1);
    let mut hours_section = match print_coming_hours(response, n_hours) {
        Ok(v) => v,
        Err(e) => {
            return Err(e);
        },
    };
    lines.append(&mut hours_section);
    let mut div2 = print_divider();
    lines.append(&mut div2);
    let mut days_section = print_coming_days(response, n_days);
    lines.append(&mut days_section);
    let mut div3 = print_divider();
    lines.append(&mut div3);
    let mut footer = print_footer(response);
    lines.append(&mut footer);
    proof {
        assert(lines.deep_view() =~= report_blocks(*response, n_days as int, n_hours as int));
    }
    Ok(lines)
}

} // verus!
