//! The day divider of the timeline: the day it stands for, and which date
//! format it shows.

use vstd::prelude::*;

verus! {

/// The date and time that a divider stands for: the instant, in
/// microseconds since the Unix epoch, and its day in the local calendar.
/// Two dates are the same when all of these are.
#[derive(Debug, Clone, Copy, PartialEq, Eq, Structural)]
pub struct DividerDate {
    pub instant: i64,
    pub year: i32,
    pub month: u8,
    pub day: u8,
}

/// A day divider in the timeline.
pub struct TimelineDayDivider {
    date: Option<DividerDate>,
}

impl View for TimelineDayDivider {
    type V = Option<DividerDate>;

    closed spec fn view(&self) -> Option<DividerDate> {
        self.date
    }
}

/// The message id of the date format of a divider dated in `date_year`, in
/// `current_year`: without the year for a date of this year, with it
/// otherwise.
pub open spec fn spec_date_format(date_year: i32, current_year: i32) -> Seq<char> {
    if date_year == current_year {
        "%A, %B %e"@
    } else {
        "%A, %B %e, %Y"@
    }
}

impl TimelineDayDivider {
    /// A divider for the given day.
    pub fn new(date: DividerDate) -> (divider: Self)
        ensures
            divider@ == Some(date),
    {
        TimelineDayDivider { date: Some(date) }
    }

    /// The day of the divider.
    pub fn date(&self) -> (date: Option<DividerDate>)
        ensures
            date == self@,
    {
        self.date
    }

    /// Set the day of the divider. Returns whether it changed, that is
    /// whether the date and the formatted date are to be notified.
    pub fn set_date(&mut self, date: Option<DividerDate>) -> (changed: bool)
        ensures
            changed == (date != old(self)@),
            final(self)@ == date,
    {
        if self.date == date {
            return false;
        }
        self.date = date;
        true
    }

    /// The message id of the format in which the date of the divider is
    /// shown in `current_year`; a divider without a date shows the empty
    /// string.
    pub fn formatted_date_msgid(&self, current_year: i32) -> (msgid: Option<&'static str>)
        ensures
            match self@ {
                Some(d) => msgid matches Some(m) && m@ == spec_date_format(d.year, current_year),
                None => msgid is None,
            },
    {
        match self.date {
            Some(d) => if d.year == current_year {
                Some("%A, %B %e")
            } else {
                Some("%A, %B %e, %Y")
            },
            None => None,
        }
    }
}

} // verus!
