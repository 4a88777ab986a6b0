use vstd::prelude::*;
use crate::text::{two_digit_text, push_two_digits};

verus! {

/// A calendar date held as year, month and day.
#[derive(Clone, Copy, Debug, PartialEq, Eq, Structural)]
pub struct Date {
    pub year: i32,
    pub month: u8,
    pub day: u8,
}

impl Date {
    pub open spec fn wf(&self) -> bool {
        1 <= self.month <= 12 && 1 <= self.day <= 31
    }

    /// The date `year-month-day`, or `None` when the month or day is out of range.
    pub fn new(year: i32, month: u8, day: u8) -> (r: Option<Date>)
        ensures
            r is Some <==> (1 <= month <= 12 && 1 <= day <= 31),
            r matches Some(d) ==> d.wf() && d.year == year && d.month == month && d.day == day,
    {
        if 1 <= month && month <= 12 && 1 <= day && day <= 31 {
            Some(Date { year, month, day })
        } else {
            None
        }
    }

    /// The label `MM/DD` of a date.
    pub open spec fn label_spec(&self) -> Seq<char> {
        two_digit_text(self.month as int) + seq!['/'] + two_digit_text(self.day as int)
    }

    /// Formats the date as zero-padded month and day: `MM/DD`.
    pub fn month_day_label(&self) -> (r: String)
        requires
            self.wf(),
        ensures
            r@ == self.label_spec(),
    {
        let mut out = String::new();
        push_two_digits(&mut out, self.month as u64);
        proof {
            reveal_strlit("/");
        }
        out.append("/");
        push_two_digits(&mut out, self.day as u64);
        out
    }
}

/// One measured value of a daily entry.
///
/// Values are fixed-point numbers in hundredths of their unit (`82.76` is held
/// as `8276`). `value` is `None` where the service sent something that is not
/// a number.
pub struct Measurement {
    pub unit: Option<String>,
    pub value: Option<i32>,
}

/// One calendar day of a forecast: its date and its field-name to value mapping.
pub struct DailyEntry {
    pub date: Date,
    pub values: Vec<(String, Measurement)>,
}

/// A fetched forecast: the ordered daily entries, if the service sent any.
pub struct Forecast {
    pub daily: Option<Vec<DailyEntry>>,
}

/// The value recorded under `field` among `values`: the first entry with that
/// name, or `None` where there is none or its value is not a number.
pub open spec fn field_value(values: Seq<(String, Measurement)>, field: Seq<char>) -> Option<i32>
    decreases values.len(),
{
    if values.len() == 0 {
        None
    } else if values[0].0@ == field {
        values[0].1.value
    } else {
        field_value(values.drop_first(), field)
    }
}

/// The number plotted for a day: its value of `field`, or zero where it has none.
pub open spec fn value_or_zero(values: Seq<(String, Measurement)>, field: Seq<char>) -> i32 {
    match field_value(values, field) {
        Some(v) => v,
        None => 0,
    }
}

/// The daily entries of a forecast as a sequence (empty when it has none).
pub open spec fn daily_entries(f: &Forecast) -> Seq<DailyEntry> {
    match &f.daily {
        Some(d) => d@,
        None => Seq::empty(),
    }
}

impl Forecast {
    /// Every daily entry has a valid date.
    pub open spec fn wf(&self) -> bool {
        forall|i: int| 0 <= i < daily_entries(self).len() ==> #[trigger] daily_entries(self)[i].date.wf()
    }
}

/// Looks up `field` among a day's values.
pub fn lookup(values: &Vec<(String, Measurement)>, field: &str) -> (r: Option<i32>)
    ensures
        r == field_value(values@, field@),
{
    let name = String::from_str(field);
    let mut i: usize = 0;
    assert(values@.subrange(0, values@.len() as int) =~= values@);
    while i < values.len()
        invariant
            0 <= i <= values@.len(),
            name@ == field@,
            field_value(values@, field@) == field_value(values@.subrange(i as int, values@.len() as int), field@),
        decreases values@.len() - i,
    {
        assert(values@.subrange(i as int, values@.len() as int).drop_first()
            =~= values@.subrange(i + 1, values@.len() as int));
        if values[i].0 == name {
            return values[i].1.value;
        }
        i = i + 1;
    }
    None
}

} // verus!
