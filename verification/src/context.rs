//! Key-value context blocks handed to the prompt layer: a block type
//! and an association list of text entries, where a later entry with
//! the same key shadows an earlier one.

use vstd::prelude::*;
use crate::strings::str_eq;

verus! {

/// The value of the latest entry with the given key.
pub open spec fn spec_latest(data: Seq<(String, String)>, key: Seq<char>) -> Option<Seq<char>>
    decreases data.len(),
{
    if data.len() == 0 {
        None
    } else if data.last().0@ == key {
        Some(data.last().1@)
    } else {
        spec_latest(data.drop_last(), key)
    }
}

/// One block of contextual data for prompt building.
#[derive(Clone, Debug, PartialEq)]
pub struct ContextData {
    /// What kind of context the block carries, e.g. `temporal`.
    pub context_type: String,
    /// The entries, later ones shadowing earlier ones of the same key.
    pub data: Vec<(String, String)>,
}

impl ContextData {
    /// An empty block of the given kind.
    pub fn new(context_type: &str) -> (r: ContextData)
        ensures
            r.context_type@ == context_type@,
            r.data@ =~= Seq::<(String, String)>::empty(),
    {
        ContextData { context_type: String::from_str(context_type), data: Vec::new() }
    }

    /// The block with one more entry, which shadows earlier entries of
    /// the same key.
    pub fn with(self, key: &str, value: String) -> (r: ContextData)
        ensures
            r.context_type == self.context_type,
            r.data@.len() == self.data@.len() + 1,
            r.data@.take(self.data@.len() as int) == self.data@,
            r.data@.last().0@ == key@,
            r.data@.last().1 == value,
            spec_latest(r.data@, key@) == Some(value@),
    {
        let mut data = self.data;
        let entry = (String::from_str(key), value);
        proof {
            assert(entry.0@ == key@);
        }
        data.push(entry);
        proof {
            assert(data@.last() == entry);
        }
        ContextData { context_type: self.context_type, data }
    }

    /// The value stored under the key, if any: the latest entry wins.
    pub fn get(&self, key: &str) -> (r: Option<&String>)
        ensures
            match r {
                Some(v) => spec_latest(self.data@, key@) == Some(v@),
                None => spec_latest(self.data@, key@) is None,
            },
    {
        let mut i = self.data.len();
        proof {
            assert(self.data@.take(i as int) =~= self.data@);
        }
        while i > 0
            invariant
                i <= self.data@.len(),
                spec_latest(self.data@, key@) == spec_latest(self.data@.take(i as int), key@),
            decreases i,
        {
            i = i - 1;
            proof {
                assert(self.data@.take(i + 1).last() == self.data@[i as int]);
                assert(self.data@.take(i + 1).drop_last() =~= self.data@.take(i as int));
            }
            if str_eq(self.data[i].0.as_str(), key) {
                return Some(&self.data[i].1);
            }
        }
        proof {
            assert(self.data@.take(0) =~= Seq::<(String, String)>::empty());
        }
        None
    }
}

/// The time-of-day bucket of an hour.
pub open spec fn spec_time_period(h: int) -> Seq<char> {
    if 5 <= h <= 11 {
        "morning"@
    } else if 12 <= h <= 17 {
        "afternoon"@
    } else if 18 <= h <= 22 {
        "evening"@
    } else {
        "night"@
    }
}

/// The season of a month.
pub open spec fn spec_season(m: int) -> Seq<char> {
    if 3 <= m <= 5 {
        "spring"@
    } else if 6 <= m <= 8 {
        "summer"@
    } else if 9 <= m <= 11 {
        "autumn"@
    } else {
        "winter"@
    }
}

/// The short weekday name, 0 = Sunday through 6 = Saturday.
pub open spec fn spec_weekday_name(w: int) -> Seq<char> {
    if w == 0 {
        "Sun"@
    } else if w == 1 {
        "Mon"@
    } else if w == 2 {
        "Tue"@
    } else if w == 3 {
        "Wed"@
    } else if w == 4 {
        "Thu"@
    } else if w == 5 {
        "Fri"@
    } else {
        "Sat"@
    }
}

/// Does the text name the calendar date of day number `z`?
pub open spec fn spec_names_day(txt: Seq<char>, z: int) -> bool {
    exists|y: int, m: int, d: int|
        {
            &&& crate::time::valid_civil_date(y, m, d)
            &&& crate::time::spec_day_number(y, m, d) == z
            &&& txt == #[trigger] crate::time::spec_date_text(y, m, d)
        }
}

/// Is the weekday of day number `z` a working day?
pub open spec fn spec_is_working_day(z: int) -> bool {
    1 <= crate::time::spec_weekday_of_day(z) <= 5
}

/// Business days in the day-number range `(a, b]`.
pub open spec fn spec_business_days_between(a: int, b: int) -> int
    decreases b - a,
    when a <= b
{
    if a >= b {
        0
    } else {
        spec_business_days_between(a, b - 1) + if spec_is_working_day(b) {
            1int
        } else {
            0
        }
    }
}

/// Day `z2` is the `n`-th business day after `z`: the range `(z, z2]`
/// holds exactly `n` business days and, for a positive `n`, ends on
/// one.
pub open spec fn spec_nth_business_day(z: int, z2: int, n: int) -> bool {
    &&& z <= z2
    &&& spec_business_days_between(z, z2) == n
    &&& n > 0 ==> spec_is_working_day(z2)
}

/// The text names the `n`-th business day after the context's own
/// date.
pub open spec fn spec_names_business_day_ahead(ctx: TemporalContext, n: int, txt: Seq<char>) -> bool {
    exists|z2: int|
        spec_nth_business_day(
            crate::time::spec_day_number(ctx.year as int, ctx.month as int, ctx.day as int),
            z2,
            n,
        ) && #[trigger] spec_names_day(txt, z2)
}

/// Calendar context of the current instant, as plain values: the civil
/// fields, the weekday, and the derived buckets and formatted texts
/// the prompt layer reads.
#[derive(Clone, Debug, PartialEq)]
pub struct TemporalContext {
    pub year: u32,
    pub month: u32,
    pub day: u32,
    /// 0 = Sunday through 6 = Saturday.
    pub weekday: u32,
    pub is_business_day: bool,
    /// `morning`, `afternoon`, `evening` or `night`.
    pub time_of_day: String,
    pub hour: u32,
    /// `YYYY-MM-DD`.
    pub formatted_date: String,
    /// `HH:MM:SS`.
    pub formatted_time: String,
    /// `spring`, `summer`, `autumn` or `winter`.
    pub season: String,
}

impl TemporalContext {
    /// Is the weekday a working day (Monday through Friday)?
    pub fn is_business_day(weekday: u32) -> (r: bool)
        ensures
            r == (1 <= weekday <= 5),
    {
        1 <= weekday && weekday <= 5
    }

    /// The time-of-day bucket, executable.
    pub fn get_time_period(hour: u32) -> (r: &'static str)
        ensures
            r@ == spec_time_period(hour as int),
    {
        if 5 <= hour && hour <= 11 {
            "morning"
        } else if 12 <= hour && hour <= 17 {
            "afternoon"
        } else if 18 <= hour && hour <= 22 {
            "evening"
        } else {
            "night"
        }
    }

    /// The season, executable.
    pub fn get_season(month: u32) -> (r: &'static str)
        ensures
            r@ == spec_season(month as int),
    {
        if 3 <= month && month <= 5 {
            "spring"
        } else if 6 <= month && month <= 8 {
            "summer"
        } else if 9 <= month && month <= 11 {
            "autumn"
        } else {
            "winter"
        }
    }

    /// Build the context from civil fields; a year outside the
    /// engine's timeline is clamped onto it.
    pub fn from_fields(year: u32, month: u32, day: u32, hour: u32, minute: u32, second: u32) -> (r:
        TemporalContext)
        requires
            1 <= month <= 12,
            1 <= day <= 31,
            hour < 24,
            minute < 60,
            second < 60,
        ensures
            1 <= r.year <= 9999,
            r.month == month,
            r.day == day,
            r.hour == hour,
            r.weekday < 7,
            r.is_business_day == (1 <= r.weekday <= 5),
            r.time_of_day@ == spec_time_period(hour as int),
            r.season@ == spec_season(month as int),
            r.formatted_date@ == crate::time::spec_four_digit_text(r.year as int) + seq!['-']
                + crate::time::spec_two_digit_text(month as int) + seq!['-']
                + crate::time::spec_two_digit_text(day as int),
            r.formatted_time@ == crate::time::spec_two_digit_text(hour as int) + seq![':']
                + crate::time::spec_two_digit_text(minute as int) + seq![':']
                + crate::time::spec_two_digit_text(second as int),
    {
        let year: u32 = if year < 1 {
            1
        } else if year > 9999 {
            9999
        } else {
            year
        };
        let instant = crate::time::Instant {
            days: crate::time::day_number(year, month, day),
            minute: hour * 60 + minute,
        };
        let weekday = instant.weekday();
        let mut formatted_date = crate::time::four_digit_text(year);
        crate::strings::push_char(&mut formatted_date, '-');
        formatted_date.append(crate::time::two_digit_text(month).as_str());
        crate::strings::push_char(&mut formatted_date, '-');
        formatted_date.append(crate::time::two_digit_text(day).as_str());
        let mut formatted_time = crate::time::two_digit_text(hour);
        crate::strings::push_char(&mut formatted_time, ':');
        formatted_time.append(crate::time::two_digit_text(minute).as_str());
        crate::strings::push_char(&mut formatted_time, ':');
        formatted_time.append(crate::time::two_digit_text(second).as_str());
        proof {
            assert(formatted_date@ =~= crate::time::spec_four_digit_text(year as int) + seq!['-']
                + crate::time::spec_two_digit_text(month as int) + seq!['-']
                + crate::time::spec_two_digit_text(day as int));
            assert(formatted_time@ =~= crate::time::spec_two_digit_text(hour as int) + seq![':']
                + crate::time::spec_two_digit_text(minute as int) + seq![':']
                + crate::time::spec_two_digit_text(second as int));
        }
        TemporalContext {
            year,
            month,
            day,
            weekday,
            is_business_day: TemporalContext::is_business_day(weekday),
            time_of_day: String::from_str(TemporalContext::get_time_period(hour)),
            hour,
            formatted_date,
            formatted_time,
            season: String::from_str(TemporalContext::get_season(month)),
        }
    }

    /// The context of the current local instant.
    pub fn new() -> (r: TemporalContext)
        ensures
            r.weekday < 7,
            r.is_business_day == (1 <= r.weekday <= 5),
            r.hour < 24,
            r.formatted_date@.len() == 10,
            r.formatted_time@.len() == 8,
    {
        let (y, m, d, h, mi, s) = crate::scheduler::local_now_fields();
        let y: u32 = if y < 1 {
            1
        } else if y > 9999 {
            9999
        } else {
            y as u32
        };
        TemporalContext::from_fields(y, m, d, h, mi, s)
    }

    /// The calendar date `days_offset` days from the context's own
    /// date, as `YYYY-MM-DD`; `None` when the context's fields do not
    /// form a calendar date or the target leaves the engine's timeline.
    pub fn calculate_relative_date(&self, days_offset: i64) -> (r: Option<String>)
        ensures
            r matches Some(s) ==> crate::time::valid_civil_date(
                self.year as int,
                self.month as int,
                self.day as int,
            ) && spec_names_day(
                s@,
                crate::time::spec_day_number(self.year as int, self.month as int, self.day as int)
                    + days_offset,
            ),
    {
        let z = match self.own_day_number() {
            Some(z) => z,
            None => {
                return None;
            },
        };
        if days_offset > 4000000 || days_offset < -4000000 {
            return None;
        }
        let target = z + days_offset;
        match crate::time::civil_from_day_number(target) {
            Some((y, m, d)) => {
                let s = crate::time::date_text(y, m, d);
                proof {
                    assert(crate::time::valid_civil_date(y as int, m as int, d as int)
                        && crate::time::spec_day_number(y as int, m as int, d as int)
                        == target as int && s@ == crate::time::spec_date_text(
                        y as int,
                        m as int,
                        d as int,
                    ));
                }
                Some(s)
            },
            None => None,
        }
    }

    /// The date of the `days`-th business day after the context's own
    /// date, as `YYYY-MM-DD`; zero days names the date itself.
    pub fn calculate_business_days_ahead(&self, days: u32) -> (r: Option<String>)
        ensures
            r is Some ==> crate::time::valid_civil_date(
                self.year as int,
                self.month as int,
                self.day as int,
            ),
            r matches Some(s) ==> spec_names_business_day_ahead(*self, days as int, s@),
    {
        let z = match self.own_day_number() {
            Some(z) => z,
            None => {
                return None;
            },
        };
        if days == 0 {
            let s = crate::time::date_text(self.year, self.month, self.day);
            proof {
                assert(spec_business_days_between(z as int, z as int) == 0);
                assert(spec_nth_business_day(z as int, z as int, 0) && spec_names_day(
                    s@,
                    z as int,
                ));
                assert(spec_names_business_day_ahead(*self, days as int, s@));
            }
            return Some(s);
        }
        if days > 1000000 {
            return None;
        }
        match Self::walk_business_days(z, days) {
            Some(target) => match crate::time::civil_from_day_number(target) {
                Some((y, m, d)) => {
                    let s = crate::time::date_text(y, m, d);
                    proof {
                        assert(spec_names_day(s@, target as int));
                        assert(spec_names_business_day_ahead(*self, days as int, s@));
                    }
                    Some(s)
                },
                None => None,
            },
            None => None,
        }
    }

    /// Walk forward from `z` until the `days`-th business day.
    fn walk_business_days(z: i64, days: u32) -> (r: Option<i64>)
        requires
            crate::time::day_in_range(z as int),
            0 < days <= 1000000,
        ensures
            r matches Some(z2) ==> spec_nth_business_day(z as int, z2 as int, days as int),
    {
        let cap: u32 = 2 * days + 14;
        let mut cur: i64 = z;
        let mut count: u32 = 0;
        let mut steps: u32 = 0;
        while count < days
            invariant
                z <= cur,
                cur == z + steps,
                steps <= cap,
                count <= days,
                0 < days <= 1000000,
                cap == 2 * days + 14,
                cur <= 2933001,
                crate::time::day_in_range(z as int),
                count as int == spec_business_days_between(z as int, cur as int),
            decreases cap - steps,
        {
            if steps >= cap || cur >= 2933000 {
                return None;
            }
            cur = cur + 1;
            steps = steps + 1;
            let wd = crate::time::weekday_of_day(cur);
            proof {
                assert(spec_business_days_between(z as int, cur as int)
                    == spec_business_days_between(z as int, cur - 1) + if spec_is_working_day(
                    cur as int,
                ) {
                    1int
                } else {
                    0
                });
            }
            if 1 <= wd && wd <= 5 {
                count = count + 1;
                if count == days {
                    return Some(cur);
                }
            }
        }
        None
    }

    /// The context's own date as a day number, when its fields form a
    /// calendar date.
    fn own_day_number(&self) -> (r: Option<i64>)
        ensures
            r matches Some(z) ==> crate::time::valid_civil_date(
                self.year as int,
                self.month as int,
                self.day as int,
            ) && z == crate::time::spec_day_number(
                self.year as int,
                self.month as int,
                self.day as int,
            ) && crate::time::day_in_range(z as int),
    {
        if !(1 <= self.year && self.year <= 9999 && 1 <= self.month && self.month <= 12 && 1
            <= self.day) {
            return None;
        }
        if self.day > crate::time::days_in_month(self.year, self.month) {
            return None;
        }
        Some(crate::time::day_number(self.year, self.month, self.day))
    }

    /// The weekday's short name.
    pub fn weekday_name(&self) -> (r: &'static str)
        ensures
            r@ == spec_weekday_name(self.weekday as int),
    {
        match self.weekday {
            0 => "Sun",
            1 => "Mon",
            2 => "Tue",
            3 => "Wed",
            4 => "Thu",
            5 => "Fri",
            _ => "Sat",
        }
    }

    /// The context as a key-value block for the prompt layer.
    pub fn to_context_data(&self) -> (r: ContextData)
        ensures
            r.context_type@ == "temporal"@,
            spec_latest(r.data@, "current_datetime"@) is Some,
            spec_latest(r.data@, "weekday"@) == Some(spec_weekday_name(self.weekday as int)),
            spec_latest(r.data@, "is_business_day"@) == Some(
                if self.is_business_day {
                    "true"@
                } else {
                    "false"@
                },
            ),
            spec_latest(r.data@, "time_of_day"@) == Some(self.time_of_day@),
            spec_latest(r.data@, "formatted_date"@) == Some(self.formatted_date@),
            spec_latest(r.data@, "formatted_time"@) == Some(self.formatted_time@),
            spec_latest(r.data@, "season"@) == Some(self.season@),
    {
        proof {
            reveal_with_fuel(spec_latest, 9);
            reveal_strlit("current_datetime");
            reveal_strlit("weekday");
            reveal_strlit("is_business_day");
            reveal_strlit("time_of_day");
            reveal_strlit("formatted_date");
            reveal_strlit("formatted_time");
            reveal_strlit("season");
            assert("current_datetime"@.len() == 16);
            assert("weekday"@.len() == 7);
            assert("is_business_day"@.len() == 15);
            assert("time_of_day"@.len() == 11);
            assert("formatted_date"@.len() == 14);
            assert("formatted_time"@.len() == 14);
            assert("season"@.len() == 6);
            assert("formatted_date"@[10] != "formatted_time"@[10]);
        }
        let mut datetime = self.formatted_date.clone();
        crate::strings::push_char(&mut datetime, ' ');
        datetime.append(self.formatted_time.as_str());
        let business: &'static str = if self.is_business_day {
            "true"
        } else {
            "false"
        };
        let out = ContextData::new("temporal").with("current_datetime", datetime).with(
            "weekday",
            String::from_str(self.weekday_name()),
        ).with("is_business_day", String::from_str(business)).with(
            "time_of_day",
            self.time_of_day.clone(),
        ).with("formatted_date", self.formatted_date.clone()).with(
            "formatted_time",
            self.formatted_time.clone(),
        ).with("season", self.season.clone());
        out
    }
}

} // verus!
