use vstd::prelude::*;
use crate::forecast::{Date, DailyEntry, Forecast, daily_entries, field_value, lookup, value_or_zero};
use crate::text::{int_text, push_int_text};

verus! {

/// Space added below the lowest and above the highest value of a chart's
/// vertical axis, in hundredths of a unit (five units).
pub const AXIS_MARGIN: i64 = 500;

/// Distance between two labelled ticks of the vertical axis, in whole units.
pub const TICK_STEP: i64 = 5;

/// The daily field that the chart shows: the day's highest temperature.
pub open spec fn daily_max_field() -> Seq<char> {
    seq!['t', 'e', 'm', 'p', 'e', 'r', 'a', 't', 'u', 'r', 'e', '_', '2', 'm', '_', 'm', 'a', 'x']
}

/// The series of `field` over a forecast: one point per daily entry, in the
/// entries' order, each the entry's date and its value of `field` (zero where
/// the entry has none, so that dates and points stay one to one).
pub open spec fn series_of(f: &Forecast, field: Seq<char>) -> Seq<(Date, i32)> {
    Seq::new(
        daily_entries(f).len(),
        |i: int| (daily_entries(f)[i].date, value_or_zero(daily_entries(f)[i].values@, field)),
    )
}

/// Extracts the series of `field` from a forecast.
///
/// A day without `field`, or whose value of it is not a number, gives `0`
/// rather than being skipped: the series has one point per daily entry.
pub fn extract(forecast: &Forecast, field: &str) -> (r: Vec<(Date, i32)>)
    ensures
        r@ == series_of(forecast, field@),
{
    let mut out: Vec<(Date, i32)> = Vec::new();
    match &forecast.daily {
        None => {
            assert(out@ =~= series_of(forecast, field@));
        },
        Some(daily) => {
            let mut i: usize = 0;
            while i < daily.len()
                invariant
                    i <= daily@.len(),
                    daily_entries(forecast) == daily@,
                    out@ =~= series_of(forecast, field@).subrange(0, i as int),
                decreases daily@.len() - i,
            {
                let entry: &DailyEntry = &daily[i];
                let v = match lookup(&entry.values, field) {
                    Some(v) => v,
                    None => 0,
                };
                out.push((entry.date, v));
                i = i + 1;
            }
            assert(out@ =~= series_of(forecast, field@));
        },
    }
    out
}

/// Extracts the series of daily highest temperatures from a forecast.
pub fn extract_temperature_data(forecast: &Forecast) -> (r: Vec<(Date, i32)>)
    ensures
        r@ == series_of(forecast, daily_max_field()),
{
    proof {
        reveal_strlit("temperature_2m_max");
    }
    let r = extract(forecast, "temperature_2m_max");
    assert("temperature_2m_max"@ =~= daily_max_field());
    r
}

/// The lowest value of a non-empty series.
pub open spec fn min_value(s: Seq<(Date, i32)>) -> int
    decreases s.len(),
{
    if s.len() <= 1 {
        s[0].1 as int
    } else if s.last().1 < min_value(s.drop_last()) {
        s.last().1 as int
    } else {
        min_value(s.drop_last())
    }
}

/// The highest value of a non-empty series.
pub open spec fn max_value(s: Seq<(Date, i32)>) -> int
    decreases s.len(),
{
    if s.len() <= 1 {
        s[0].1 as int
    } else if s.last().1 > max_value(s.drop_last()) {
        s.last().1 as int
    } else {
        max_value(s.drop_last())
    }
}

/// Every value of a non-empty series lies between its lowest and highest
/// value, and each of those two is the value of some point.
pub proof fn lemma_value_bounds(s: Seq<(Date, i32)>)
    requires
        s.len() > 0,
    ensures
        forall|i: int| 0 <= i < s.len() ==> min_value(s) <= #[trigger] s[i].1 <= max_value(s),
        exists|i: int| 0 <= i < s.len() && s[i].1 == min_value(s),
        exists|i: int| 0 <= i < s.len() && s[i].1 == max_value(s),
    decreases s.len(),
{
    if s.len() > 1 {
        let p = s.drop_last();
        lemma_value_bounds(p);
        assert forall|i: int| 0 <= i < s.len() implies min_value(s) <= #[trigger] s[i].1 <= max_value(s) by {
            if i < s.len() - 1 {
                assert(s[i] == p[i]);
            }
        }
        if s.last().1 >= min_value(p) {
            let k = choose|k: int| 0 <= k < p.len() && p[k].1 == min_value(p);
            assert(s[k] == p[k]);
        } else {
            assert(s[s.len() - 1].1 == min_value(s));
        }
        if s.last().1 <= max_value(p) {
            let k = choose|k: int| 0 <= k < p.len() && p[k].1 == max_value(p);
            assert(s[k] == p[k]);
        } else {
            assert(s[s.len() - 1].1 == max_value(s));
        }
    } else {
        assert(s[0].1 == min_value(s));
    }
}

/// The lowest and highest value of a non-empty series.
pub fn value_bounds(series: &Vec<(Date, i32)>) -> (r: (i32, i32))
    requires
        series@.len() > 0,
    ensures
        r.0 == min_value(series@),
        r.1 == max_value(series@),
{
    let mut lo: i32 = series[0].1;
    let mut hi: i32 = series[0].1;
    let mut i: usize = 1;
    assert(series@.subrange(0, 1).drop_last().len() == 0);
    while i < series.len()
        invariant
            1 <= i <= series@.len(),
            lo == min_value(series@.subrange(0, i as int)),
            hi == max_value(series@.subrange(0, i as int)),
        decreases series@.len() - i,
    {
        let v = series[i].1;
        assert(series@.subrange(0, i + 1).drop_last() =~= series@.subrange(0, i as int));
        if v < lo {
            lo = v;
        }
        if v > hi {
            hi = v;
        }
        i = i + 1;
    }
    assert(series@.subrange(0, series@.len() as int) =~= series@);
    (lo, hi)
}

/// The padded bounds of the vertical axis for a non-empty series: its lowest
/// value less the margin and its highest value plus the margin.
///
/// An empty series has no bounds: a caller shows no chart for it.
pub fn axis_range(series: &Vec<(Date, i32)>) -> (r: (i64, i64))
    requires
        series@.len() > 0,
    ensures
        r.0 == min_value(series@) - AXIS_MARGIN,
        r.1 == max_value(series@) + AXIS_MARGIN,
{
    let (lo, hi) = value_bounds(series);
    (lo as i64 - AXIS_MARGIN, hi as i64 + AXIS_MARGIN)
}

/// Every value of a non-empty series lies between its lowest and highest
/// value, so between the padded bounds with the margin to spare on each side,
/// and the padded lower bound lies strictly below the padded upper one.
pub proof fn lemma_axis_range_encloses(series: Seq<(Date, i32)>)
    requires
        series.len() > 0,
    ensures
        forall|i: int| 0 <= i < series.len() ==> min_value(series) <= #[trigger] series[i].1 <= max_value(series),
        min_value(series) - AXIS_MARGIN < max_value(series) + AXIS_MARGIN,
{
    lemma_value_bounds(series);
}

/// A series has one point per daily entry, in the entries' order: a day that
/// lacks the field keeps its place, with the value zero.
pub proof fn lemma_series_keeps_every_day(f: &Forecast, field: Seq<char>)
    ensures
        series_of(f, field).len() == daily_entries(f).len(),
        forall|i: int|
            0 <= i < daily_entries(f).len() ==> (#[trigger] series_of(f, field)[i]).0 == daily_entries(f)[i].date,
        forall|i: int|
            0 <= i < daily_entries(f).len() && field_value(daily_entries(f)[i].values@, field) is None
                ==> (#[trigger] series_of(f, field)[i]).1 == 0,
{
}

/// Extraction depends on the forecast and the field alone: two extractions of
/// the same field from the same forecast give the same series.
pub proof fn lemma_extract_repeatable(
    f: &Forecast,
    field: Seq<char>,
    first: Seq<(Date, i32)>,
    second: Seq<(Date, i32)>,
)
    requires
        first == series_of(f, field),
        second == series_of(f, field),
    ensures
        first == second,
{
}

/// A fixed-point value (hundredths) truncated towards zero to whole units.
pub open spec fn whole_units(x: int) -> int {
    if x >= 0 {
        x / 100
    } else {
        -((-x) / 100)
    }
}

fn truncate_to_units(x: i64) -> (r: i64)
    ensures
        r == whole_units(x as int),
{
    if x >= 0 {
        x / 100
    } else {
        let magnitude: u64 = ((-(x + 1)) as u64) + 1;
        -((magnitude / 100) as i64)
    }
}

/// The tick values of the vertical axis between the padded bounds `lo` and
/// `hi`: from `lo` truncated to whole units, every `TICK_STEP` units, up to
/// `hi` truncated to whole units.
pub fn tick_values(lo: i64, hi: i64) -> (r: Vec<i64>)
    ensures
        forall|i: int| 0 <= i < r@.len() ==> #[trigger] r@[i] == whole_units(lo as int) + TICK_STEP * i,
        forall|i: int| 0 <= i < r@.len() ==> #[trigger] r@[i] <= whole_units(hi as int),
        whole_units(lo as int) + TICK_STEP * r@.len() > whole_units(hi as int),
{
    let start = truncate_to_units(lo);
    let end = truncate_to_units(hi);
    let mut out: Vec<i64> = Vec::new();
    let mut v: i64 = start;
    while v <= end
        invariant
            v == start + TICK_STEP * out@.len(),
            start == whole_units(lo as int),
            end == whole_units(hi as int),
            -100000000000000000 <= start <= 100000000000000000,
            -100000000000000000 <= end <= 100000000000000000,
            out@.len() > 0 ==> v <= end + TICK_STEP,
            forall|i: int| 0 <= i < out@.len() ==> #[trigger] out@[i] == start + TICK_STEP * i,
            forall|i: int| 0 <= i < out@.len() ==> #[trigger] out@[i] <= end,
        decreases end + TICK_STEP - v,
    {
        out.push(v);
        v = v + TICK_STEP;
    }
    out
}

/// The label of a tick: its value followed by the unit.
pub open spec fn tick_label(v: int, unit: Seq<char>) -> Seq<char> {
    int_text(v) + unit
}

/// Labels each tick value with its decimal text followed by `unit`.
pub fn tick_labels(ticks: &Vec<i64>, unit: &str) -> (r: Vec<String>)
    ensures
        r@.len() == ticks@.len(),
        forall|i: int| 0 <= i < r@.len() ==> (#[trigger] r@[i])@ == tick_label(ticks@[i] as int, unit@),
{
    let mut out: Vec<String> = Vec::new();
    let mut i: usize = 0;
    while i < ticks.len()
        invariant
            i <= ticks@.len(),
            out@.len() == i,
            forall|j: int| 0 <= j < i ==> (#[trigger] out@[j])@ == tick_label(ticks@[j] as int, unit@),
        decreases ticks@.len() - i,
    {
        let mut s = String::new();
        push_int_text(&mut s, ticks[i]);
        s.append(unit);
        out.push(s);
        i = i + 1;
    }
    out
}

/// Labels each point of a series with its date, `MM/DD`.
pub fn date_labels(series: &Vec<(Date, i32)>) -> (r: Vec<String>)
    requires
        forall|i: int| 0 <= i < series@.len() ==> (#[trigger] series@[i]).0.wf(),
    ensures
        r@.len() == series@.len(),
        forall|i: int| 0 <= i < r@.len() ==> (#[trigger] r@[i])@ == series@[i].0.label_spec(),
{
    let mut out: Vec<String> = Vec::new();
    let mut i: usize = 0;
    while i < series.len()
        invariant
            i <= series@.len(),
            out@.len() == i,
            forall|j: int| 0 <= j < series@.len() ==> (#[trigger] series@[j]).0.wf(),
            forall|j: int| 0 <= j < i ==> (#[trigger] out@[j])@ == series@[j].0.label_spec(),
        decreases series@.len() - i,
    {
        out.push(series[i].0.month_day_label());
        i = i + 1;
    }
    out
}

/// The points of a chart: each value of the series at its position.
pub fn chart_points(series: &Vec<(Date, i32)>) -> (r: Vec<(usize, i32)>)
    ensures
        r@.len() == series@.len(),
        forall|i: int| 0 <= i < r@.len() ==> #[trigger] r@[i] == (i as usize, series@[i].1),
{
    let mut out: Vec<(usize, i32)> = Vec::new();
    let mut i: usize = 0;
    while i < series.len()
        invariant
            i <= series@.len(),
            out@.len() == i,
            forall|j: int| 0 <= j < i ==> #[trigger] out@[j] == (j as usize, series@[j].1),
        decreases series@.len() - i,
    {
        out.push((i, series[i].1));
        i = i + 1;
    }
    out
}

} // verus!
