use vstd::prelude::*;
use crate::forecast::{Date, Forecast, daily_entries};
use crate::series::{
    AXIS_MARGIN, TICK_STEP, axis_range, chart_points, daily_max_field, date_labels,
    extract_temperature_data, max_value, min_value, series_of, tick_label, tick_labels,
    tick_values, whole_units,
};

verus! {

/// The unit written after each label of the vertical axis.
pub open spec fn temperature_unit() -> Seq<char> {
    seq!['\u{b0}', 'F']
}

/// Everything a frame needs to draw the forecast chart.
///
/// Values are in hundredths of a unit, as in the series they come from.
pub struct ChartModel {
    /// Each point's position on the horizontal axis and its value.
    pub points: Vec<(usize, i32)>,
    /// The `MM/DD` label of each point.
    pub x_labels: Vec<String>,
    /// The upper bound of the horizontal axis (its lower bound is zero).
    pub x_max: usize,
    /// The padded lower bound of the vertical axis.
    pub y_min: i64,
    /// The padded upper bound of the vertical axis.
    pub y_max: i64,
    /// The labels of the vertical axis, lowest first.
    pub y_labels: Vec<String>,
}

/// What a frame shows.
pub enum ViewMode {
    /// No daily values to chart: a placeholder is shown.
    NoData,
    /// A chart of the daily values.
    Chart(ChartModel),
}

impl ChartModel {
    /// This chart draws `series`: one point and one date label per entry, the
    /// padded bounds of its values, and a tick label every `TICK_STEP` units
    /// from the lower bound up to the upper one.
    pub open spec fn shows(&self, series: Seq<(Date, i32)>) -> bool {
        let lo = whole_units(self.y_min as int);
        let hi = whole_units(self.y_max as int);
        &&& series.len() > 0
        &&& self.points@.len() == series.len()
        &&& forall|i: int| 0 <= i < series.len() ==> #[trigger] self.points@[i] == (i as usize, series[i].1)
        &&& self.x_labels@.len() == series.len()
        &&& forall|i: int| 0 <= i < series.len() ==> (#[trigger] self.x_labels@[i])@ == series[i].0.label_spec()
        &&& self.x_max == series.len()
        &&& self.y_min == min_value(series) - AXIS_MARGIN
        &&& self.y_max == max_value(series) + AXIS_MARGIN
        &&& forall|i: int|
            0 <= i < self.y_labels@.len() ==> (#[trigger] self.y_labels@[i])@ == tick_label(lo + TICK_STEP * i, temperature_unit())
                && lo + TICK_STEP * i <= hi
        &&& lo + TICK_STEP * self.y_labels@.len() > hi
    }
}

/// Builds what a frame shows for a forecast: a chart of the daily highest
/// temperatures, or the placeholder when there is none to chart.
pub fn plan_view(forecast: &Forecast) -> (r: ViewMode)
    requires
        forecast.wf(),
    ensures
        r is NoData <==> series_of(forecast, daily_max_field()).len() == 0,
        r matches ViewMode::Chart(c) ==> c.shows(series_of(forecast, daily_max_field())),
{
    let series = extract_temperature_data(forecast);
    if series.len() == 0 {
        return ViewMode::NoData;
    }
    assert forall|i: int| 0 <= i < series@.len() implies (#[trigger] series@[i]).0.wf() by {
        assert(series@[i].0 == daily_entries(forecast)[i].date);
    }
    let points = chart_points(&series);
    let x_labels = date_labels(&series);
    let (y_min, y_max) = axis_range(&series);
    let ticks = tick_values(y_min, y_max);
    proof {
        reveal_strlit("\u{b0}F");
    }
    let y_labels = tick_labels(&ticks, "\u{b0}F");
    assert("\u{b0}F"@ =~= temperature_unit());
    ViewMode::Chart(ChartModel { points, x_labels, x_max: series.len(), y_min, y_max, y_labels })
}

/// A forecast without daily entries, and in particular one whose daily
/// section is missing, gives an empty series.
pub proof fn lemma_no_daily_entries_empty_series(f: &Forecast, field: Seq<char>)
    requires
        daily_entries(f).len() == 0,
    ensures
        series_of(f, field) == Seq::<(Date, i32)>::empty(),
{
    assert(series_of(f, field) =~= Seq::<(Date, i32)>::empty());
}

} // verus!
