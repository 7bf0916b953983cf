//! Calendar time as the time-of-day automation reads it.
use vstd::prelude::*;
use crate::text::{decimal, push_decimal, string_from_chars};

verus! {

/// A local date and time.
#[derive(Clone, Copy, Debug, PartialEq, Eq, Structural)]
pub struct TimeInfo {
    pub hour: u8,
    pub minute: u8,
    pub second: u8,
    /// 0 = Monday .. 6 = Sunday.
    pub weekday: u8,
    pub day: u8,
    pub month: u8,
    pub year: u16,
}

pub open spec fn weekday_name_spec(w: u8) -> &'static str {
    if w == 0 {
        "Monday"
    } else if w == 1 {
        "Tuesday"
    } else if w == 2 {
        "Wednesday"
    } else if w == 3 {
        "Thursday"
    } else if w == 4 {
        "Friday"
    } else if w == 5 {
        "Saturday"
    } else if w == 6 {
        "Sunday"
    } else {
        "Unknown"
    }
}

/// `YYYY-MM-DD HH:MM:SS`.
pub open spec fn format_spec(t: TimeInfo) -> Seq<char> {
    decimal(t.year as nat, 4) + seq!['-'] + decimal(t.month as nat, 2) + seq!['-'] + decimal(t.day as nat, 2) + seq![' ']
        + decimal(t.hour as nat, 2) + seq![':'] + decimal(t.minute as nat, 2) + seq![':'] + decimal(t.second as nat, 2)
}

impl TimeInfo {
    /// Builds a time from its weekday-from-Sunday form (0 = Sunday), as the C
    /// library's broken-down time gives it: fields are taken as they are,
    /// the weekday is renumbered from Monday, the month from 1, the year from 0.
    pub fn from_parts(
        hour: u8,
        minute: u8,
        second: u8,
        weekday_from_sunday: u8,
        day: u8,
        month_from_zero: u8,
        years_since_1900: u16,
    ) -> (t: TimeInfo)
        requires
            weekday_from_sunday <= 6,
            month_from_zero <= 11,
            years_since_1900 <= 0xffff - 1900,
        ensures
            t.hour == hour && t.minute == minute && t.second == second && t.day == day,
            t.weekday == if weekday_from_sunday == 0 { 6 } else { weekday_from_sunday - 1 },
            t.month == month_from_zero + 1,
            t.year == years_since_1900 + 1900,
    {
        TimeInfo {
            hour,
            minute,
            second,
            weekday: if weekday_from_sunday == 0 { 6 } else { weekday_from_sunday - 1 },
            day,
            month: month_from_zero + 1,
            year: years_since_1900 + 1900,
        }
    }

    /// `YYYY-MM-DD HH:MM:SS`.
    pub fn format(&self) -> (s: String)
        ensures
            s@ == format_spec(*self),
    {
        let mut out: Vec<char> = Vec::new();
        push_decimal(&mut out, self.year as u32, 4);
        out.push('-');
        push_decimal(&mut out, self.month as u32, 2);
        out.push('-');
        push_decimal(&mut out, self.day as u32, 2);
        out.push(' ');
        push_decimal(&mut out, self.hour as u32, 2);
        out.push(':');
        push_decimal(&mut out, self.minute as u32, 2);
        out.push(':');
        push_decimal(&mut out, self.second as u32, 2);
        assert(out@ =~= format_spec(*self));
        string_from_chars(&out)
    }

    pub fn weekday_name(&self) -> (name: &'static str)
        ensures
            name == weekday_name_spec(self.weekday),
    {
        match self.weekday {
            0 => "Monday",
            1 => "Tuesday",
            2 => "Wednesday",
            3 => "Thursday",
            4 => "Friday",
            5 => "Saturday",
            6 => "Sunday",
            _ => "Unknown",
        }
    }
}

} // verus!
