//! Civil wall-clock time at minute resolution.
//!
//! The notification engine reasons about instants on a single wall-clock
//! timeline: a civil day number (days since 1970-01-01) paired with a
//! minute within that day.  Stored timestamps are parsed from their
//! RFC 3339 text here; a zone offset in the text is accepted
//! syntactically and the civil fields are used as the engine's
//! wall-clock timeline, which is the convention of the task snapshot
//! provider.

use vstd::prelude::*;

verus! {

/// An instant on the engine's wall-clock timeline, at minute
/// resolution: a civil day number (days since 1970-01-01, negative
/// before it) and a minute within that day.
#[derive(Clone, Copy, Debug, PartialEq, Eq, Structural)]
pub struct Instant {
    pub days: i64,
    pub minute: u32,
}

/// Day numbers reachable from civil years 1 through 9999.
pub open spec fn day_in_range(days: int) -> bool {
    -719469 <= days <= 2933000
}

/// Is `c` a decimal digit?
pub open spec fn spec_is_digit(c: char) -> bool {
    48 <= c as int <= 57
}

/// Numeric value of a decimal digit.
pub open spec fn spec_digit_val(c: char) -> int {
    c as int - 48
}

/// Is `y` a leap year of the Gregorian calendar?
pub open spec fn spec_is_leap_year(y: int) -> bool {
    (y % 4 == 0 && y % 100 != 0) || y % 400 == 0
}

/// Number of days of month `m` of year `y`.
pub open spec fn spec_days_in_month(y: int, m: int) -> int {
    if m == 2 {
        if spec_is_leap_year(y) {
            29
        } else {
            28
        }
    } else if m == 4 || m == 6 || m == 9 || m == 11 {
        30
    } else {
        31
    }
}

/// A calendar date the engine accepts: years 1 through 9999, with the
/// month and the day within their Gregorian ranges.
pub open spec fn valid_civil_date(y: int, m: int, d: int) -> bool {
    &&& 1 <= y <= 9999
    &&& 1 <= m <= 12
    &&& 1 <= d <= spec_days_in_month(y, m)
}

/// A wall-clock time of day.
pub open spec fn valid_hm(h: int, mi: int) -> bool {
    0 <= h < 24 && 0 <= mi < 60
}

/// Civil day number of the date `y-m-d`: days since 1970-01-01.
pub open spec fn spec_day_number(y: int, m: int, d: int) -> int {
    let yy = if m <= 2 {
        y - 1
    } else {
        y
    };
    let era = yy / 400;
    let yoe = yy - era * 400;
    let mp = if m > 2 {
        m - 3
    } else {
        m + 9
    };
    let doy = (153 * mp + 2) / 5 + d - 1;
    let doe = yoe * 365 + yoe / 4 - yoe / 100 + doy;
    era * 146097 + doe - 719468
}

/// Civil day number as executable code, for dates the engine accepts.
pub fn day_number(y: u32, m: u32, d: u32) -> (r: i64)
    requires
        1 <= y <= 9999,
        1 <= m <= 12,
        1 <= d <= 31,
    ensures
        r == spec_day_number(y as int, m as int, d as int),
        day_in_range(r as int),
{
    let yy: u64 = if m <= 2 {
        (y - 1) as u64
    } else {
        y as u64
    };
    let era: u64 = yy / 400;
    proof {
        vstd::arithmetic::div_mod::lemma_fundamental_div_mod(yy as int, 400);
    }
    let yoe: u64 = yy - era * 400;
    assert(yoe < 400);
    let mp: u64 = if m > 2 {
        (m - 3) as u64
    } else {
        (m + 9) as u64
    };
    let doy: u64 = (153 * mp + 2) / 5 + (d - 1) as u64;
    let doe: u64 = yoe * 365 + yoe / 4 - yoe / 100 + doy;
    assert(yoe / 100 <= yoe * 365 + yoe / 4);
    (era * 146097 + doe) as i64 - 719468
}

/// Weekday of a civil day number, 0 = Sunday through 6 = Saturday;
/// day zero, 1970-01-01, was a Thursday.
pub open spec fn spec_weekday_of_day(days: int) -> int {
    (days + 4) % 7
}

/// Weekday of a civil day number, executable.
pub fn weekday_of_day(days: i64) -> (r: u32)
    requires
        day_in_range(days as int),
    ensures
        r == spec_weekday_of_day(days as int),
        r < 7,
{
    let shifted: i64 = days + 719469 + 2;
    let r = (shifted % 7) as u32;
    proof {
        vstd::arithmetic::div_mod::lemma_mod_multiples_vanish(102781, days + 4, 7);
        assert(7 * 102781 + (days + 4) == shifted as int);
    }
    r
}

impl Instant {
    /// The instant is within the engine's timeline and its minute is
    /// within its day.
    pub open spec fn wf(self) -> bool {
        day_in_range(self.days as int) && self.minute < 1440
    }

    /// The instant as a single count of minutes on the timeline.
    pub open spec fn spec_total_minutes(self) -> int {
        self.days * 1440 + self.minute
    }

    /// Weekday of the instant's day, 0 = Sunday through 6 = Saturday.
    pub open spec fn spec_weekday(self) -> int {
        spec_weekday_of_day(self.days as int)
    }

    /// Minute within the instant's day.
    pub open spec fn spec_minute_of_day(self) -> int {
        self.minute as int
    }

    /// Build an instant from civil calendar fields; `None` when the
    /// fields do not name a calendar date or a wall-clock time.
    pub fn from_civil(y: u32, m: u32, d: u32, h: u32, mi: u32) -> (r: Option<Instant>)
        ensures
            r is Some <==> valid_civil_date(y as int, m as int, d as int) && valid_hm(
                h as int,
                mi as int,
            ),
            r matches Some(i) ==> i.wf() && i.days == spec_day_number(y as int, m as int, d as int)
                && i.minute == h * 60 + mi,
    {
        if !(1 <= y && y <= 9999 && 1 <= m && m <= 12 && 1 <= d) {
            return None;
        }
        if !(h < 24 && mi < 60) {
            return None;
        }
        if d > days_in_month(y, m) {
            return None;
        }
        Some(Instant { days: day_number(y, m, d), minute: h * 60 + mi })
    }

    /// The count of minutes, executable.
    pub fn total_minutes(&self) -> (r: i64)
        requires
            self.wf(),
        ensures
            r == self.spec_total_minutes(),
    {
        self.days * 1440 + self.minute as i64
    }

    /// Weekday, executable: 0 = Sunday through 6 = Saturday.
    pub fn weekday(&self) -> (r: u32)
        requires
            self.wf(),
        ensures
            r == self.spec_weekday(),
            r < 7,
    {
        weekday_of_day(self.days)
    }
}

/// Civil calendar fields of a day number: the inverse of
/// `day_number`, computed by the usual era arithmetic and then checked
/// against `day_number` itself, so an accepted answer is exact by
/// construction.
pub fn civil_from_day_number(z: i64) -> (r: Option<(u32, u32, u32)>)
    ensures
        r matches Some(c) ==> valid_civil_date(c.0 as int, c.1 as int, c.2 as int)
            && spec_day_number(c.0 as int, c.1 as int, c.2 as int) == z,
{
    if !(-719469 <= z && z <= 2933000) {
        return None;
    }
    let zz: i128 = z as i128 + 719468;
    let era: i128 = if zz >= 0 {
        zz / 146097
    } else {
        (zz - 146096) / 146097
    };
    let doe: i128 = zz - era * 146097;
    if !(0 <= doe && doe <= 146096) {
        return None;
    }
    let yoe: i128 = (doe - doe / 1460 + doe / 36524 - doe / 146096) / 365;
    if !(0 <= yoe && yoe <= 399) {
        return None;
    }
    let y0: i128 = yoe + era * 400;
    let doy: i128 = doe - (365 * yoe + yoe / 4 - yoe / 100);
    if !(0 <= doy && doy <= 365) {
        return None;
    }
    let mp: i128 = (5 * doy + 2) / 153;
    if !(0 <= mp && mp <= 11) {
        return None;
    }
    let d: i128 = doy - (153 * mp + 2) / 5 + 1;
    let m: i128 = if mp < 10 {
        mp + 3
    } else {
        mp - 9
    };
    let y: i128 = if m <= 2 {
        y0 + 1
    } else {
        y0
    };
    if !(1 <= y && y <= 9999 && 1 <= m && m <= 12 && 1 <= d && d <= 31) {
        return None;
    }
    let (yy, mm, dd) = (y as u32, m as u32, d as u32);
    if dd > days_in_month(yy, mm) {
        return None;
    }
    if day_number(yy, mm, dd) == z {
        Some((yy, mm, dd))
    } else {
        None
    }
}

/// Is `c` a decimal digit, executable.
pub fn is_digit(c: char) -> (r: bool)
    ensures
        r == spec_is_digit(c),
{
    let v = c as u32;
    48 <= v && v <= 57
}

/// Numeric value of a decimal digit, executable.
pub fn digit_val(c: char) -> (r: u32)
    requires
        spec_is_digit(c),
    ensures
        r == spec_digit_val(c),
        r <= 9,
{
    (c as u32) - 48
}

/// Value of the two decimal digits `a` then `b`.
pub open spec fn spec_two_digits(a: char, b: char) -> int {
    spec_digit_val(a) * 10 + spec_digit_val(b)
}

/// A wall-clock time of day in `H:MM` or `HH:MM` form (one or two
/// digits on each side of the colon), with the hour below 24 and the
/// minute below 60.
pub open spec fn spec_parse_time_of_day(s: Seq<char>) -> Option<(u32, u32)> {
    if s.len() >= 2 && s[1] == ':' {
        if s.len() == 3 && spec_is_digit(s[0]) && spec_is_digit(s[2]) {
            spec_checked_hm(spec_digit_val(s[0]), spec_digit_val(s[2]))
        } else if s.len() == 4 && spec_is_digit(s[0]) && spec_is_digit(s[2]) && spec_is_digit(
            s[3],
        ) {
            spec_checked_hm(spec_digit_val(s[0]), spec_two_digits(s[2], s[3]))
        } else {
            None
        }
    } else if s.len() >= 3 && s[2] == ':' {
        if s.len() == 4 && spec_is_digit(s[0]) && spec_is_digit(s[1]) && spec_is_digit(s[3]) {
            spec_checked_hm(spec_two_digits(s[0], s[1]), spec_digit_val(s[3]))
        } else if s.len() == 5 && spec_is_digit(s[0]) && spec_is_digit(s[1]) && spec_is_digit(
            s[3],
        ) && spec_is_digit(s[4]) {
            spec_checked_hm(spec_two_digits(s[0], s[1]), spec_two_digits(s[3], s[4]))
        } else {
            None
        }
    } else {
        None
    }
}

/// Accept an hour/minute pair only within the wall clock's ranges.
pub open spec fn spec_checked_hm(h: int, mi: int) -> Option<(u32, u32)> {
    if valid_hm(h, mi) {
        Some((h as u32, mi as u32))
    } else {
        None
    }
}

/// Parse a `timeOfDay` field, executable.
pub fn parse_time_of_day(s: &str) -> (r: Option<(u32, u32)>)
    ensures
        r == spec_parse_time_of_day(s@),
        r matches Some(p) ==> valid_hm(p.0 as int, p.1 as int),
{
    let n = s.unicode_len();
    if n < 3 || n > 5 {
        return None;
    }
    let c1 = s.get_char(1);
    if c1 == ':' {
        let c0 = s.get_char(0);
        let c2 = s.get_char(2);
        if !(is_digit(c0) && is_digit(c2)) {
            return None;
        }
        let h = digit_val(c0);
        if n == 3 {
            checked_hm(h, digit_val(c2))
        } else if n == 4 {
            let c3 = s.get_char(3);
            if !is_digit(c3) {
                return None;
            }
            checked_hm(h, digit_val(c2) * 10 + digit_val(c3))
        } else {
            None
        }
    } else if s.get_char(2) == ':' && n >= 4 {
        let c0 = s.get_char(0);
        let c1 = s.get_char(1);
        let c3 = s.get_char(3);
        if !(is_digit(c0) && is_digit(c1) && is_digit(c3)) {
            return None;
        }
        let h = digit_val(c0) * 10 + digit_val(c1);
        if n == 4 {
            checked_hm(h, digit_val(c3))
        } else {
            let c4 = s.get_char(4);
            if !is_digit(c4) {
                return None;
            }
            checked_hm(h, digit_val(c3) * 10 + digit_val(c4))
        }
    } else {
        None
    }
}

/// Range-check an hour/minute pair, executable.
fn checked_hm(h: u32, mi: u32) -> (r: Option<(u32, u32)>)
    requires
        h <= 99,
        mi <= 99,
    ensures
        r == spec_checked_hm(h as int, mi as int),
{
    if h < 24 && mi < 60 {
        Some((h, mi))
    } else {
        None
    }
}

/// Zone-offset suffix of a timestamp: `Z` (either case) or a signed
/// `HH:MM` offset.
pub open spec fn spec_offset_ok(t: Seq<char>) -> bool {
    ||| (t.len() == 1 && (t[0] == 'Z' || t[0] == 'z'))
    ||| (t.len() == 6 && (t[0] == '+' || t[0] == '-') && spec_is_digit(t[1]) && spec_is_digit(t[2])
        && t[3] == ':' && spec_is_digit(t[4]) && spec_is_digit(t[5]))
}

/// After the fractional second's first digit: further digits, then the
/// end of the text or a zone offset.
pub open spec fn spec_frac_tail_ok(t: Seq<char>) -> bool
    decreases t.len(),
{
    if t.len() > 0 && spec_is_digit(t[0]) {
        spec_frac_tail_ok(t.skip(1))
    } else {
        t.len() == 0 || spec_offset_ok(t)
    }
}

/// After the seconds: the end of the text, a fractional second, or a
/// zone offset.
pub open spec fn spec_after_seconds_ok(t: Seq<char>) -> bool {
    if t.len() == 0 {
        true
    } else if t[0] == '.' {
        t.len() >= 2 && spec_is_digit(t[1]) && spec_frac_tail_ok(t.skip(2))
    } else {
        spec_offset_ok(t)
    }
}

/// After the minute: the end of the text, a seconds field (value at
/// most 60, to admit a leap second) with its own tail, or a zone
/// offset.
pub open spec fn spec_ts_tail_ok(t: Seq<char>) -> bool {
    if t.len() == 0 {
        true
    } else if t[0] == ':' {
        &&& t.len() >= 3
        &&& spec_is_digit(t[1])
        &&& spec_is_digit(t[2])
        &&& spec_two_digits(t[1], t[2]) <= 60
        &&& spec_after_seconds_ok(t.skip(3))
    } else {
        spec_offset_ok(t)
    }
}

/// An RFC 3339-style timestamp: `YYYY-MM-DD` then `T` (either case, or
/// a space) then `HH:MM`, optionally seconds and a fraction, optionally
/// a zone offset.  The civil fields name the instant on the engine's
/// wall-clock timeline; seconds, fraction and offset are validated and
/// dropped.
pub open spec fn spec_parse_timestamp(s: Seq<char>) -> Option<Instant> {
    if s.len() >= 16 && spec_is_digit(s[0]) && spec_is_digit(s[1]) && spec_is_digit(s[2])
        && spec_is_digit(s[3]) && s[4] == '-' && spec_is_digit(s[5]) && spec_is_digit(s[6]) && s[7]
        == '-' && spec_is_digit(s[8]) && spec_is_digit(s[9]) && (s[10] == 'T' || s[10] == 't'
        || s[10] == ' ') && spec_is_digit(s[11]) && spec_is_digit(s[12]) && s[13] == ':'
        && spec_is_digit(s[14]) && spec_is_digit(s[15]) && spec_ts_tail_ok(s.skip(16)) {
        let y = spec_digit_val(s[0]) * 1000 + spec_digit_val(s[1]) * 100 + spec_digit_val(s[2])
            * 10 + spec_digit_val(s[3]);
        let m = spec_two_digits(s[5], s[6]);
        let d = spec_two_digits(s[8], s[9]);
        let h = spec_two_digits(s[11], s[12]);
        let mi = spec_two_digits(s[14], s[15]);
        if valid_civil_date(y, m, d) && valid_hm(h, mi) {
            Some(Instant { days: spec_day_number(y, m, d) as i64, minute: (h * 60 + mi) as u32 })
        } else {
            None
        }
    } else {
        None
    }
}

/// Parse a stored timestamp, executable.
pub fn parse_timestamp(s: &str) -> (r: Option<Instant>)
    ensures
        r == spec_parse_timestamp(s@),
        r matches Some(i) ==> i.wf(),
{
    let n = s.unicode_len();
    if n < 16 {
        return None;
    }
    let c0 = s.get_char(0);
    let c1 = s.get_char(1);
    let c2 = s.get_char(2);
    let c3 = s.get_char(3);
    let c5 = s.get_char(5);
    let c6 = s.get_char(6);
    let c8 = s.get_char(8);
    let c9 = s.get_char(9);
    let c10 = s.get_char(10);
    let c11 = s.get_char(11);
    let c12 = s.get_char(12);
    let c14 = s.get_char(14);
    let c15 = s.get_char(15);
    if !(is_digit(c0) && is_digit(c1) && is_digit(c2) && is_digit(c3) && s.get_char(4) == '-'
        && is_digit(c5) && is_digit(c6) && s.get_char(7) == '-' && is_digit(c8) && is_digit(c9) && (
    c10 == 'T' || c10 == 't' || c10 == ' ') && is_digit(c11) && is_digit(c12) && s.get_char(13)
        == ':' && is_digit(c14) && is_digit(c15)) {
        return None;
    }
    if !ts_tail_ok(s, 16) {
        return None;
    }
    let y = digit_val(c0) * 1000 + digit_val(c1) * 100 + digit_val(c2) * 10 + digit_val(c3);
    let m = digit_val(c5) * 10 + digit_val(c6);
    let d = digit_val(c8) * 10 + digit_val(c9);
    let h = digit_val(c11) * 10 + digit_val(c12);
    let mi = digit_val(c14) * 10 + digit_val(c15);
    Instant::from_civil(y, m, d, h, mi)
}

/// Zone-offset check from position `p`, executable.
fn offset_ok(s: &str, p: usize) -> (r: bool)
    requires
        p <= s@.len(),
        s@.len() <= usize::MAX,
    ensures
        r == spec_offset_ok(s@.skip(p as int)),
{
    let n = s.unicode_len();
    if n - p == 1 {
        let c = s.get_char(p);
        c == 'Z' || c == 'z'
    } else if n - p == 6 {
        let c = s.get_char(p);
        (c == '+' || c == '-') && is_digit(s.get_char(p + 1)) && is_digit(s.get_char(p + 2))
            && s.get_char(p + 3) == ':' && is_digit(s.get_char(p + 4)) && is_digit(
            s.get_char(p + 5),
        )
    } else {
        false
    }
}

/// Timestamp tail check from position `p`, executable.
fn ts_tail_ok(s: &str, p: usize) -> (r: bool)
    requires
        p <= s@.len(),
        s@.len() <= usize::MAX,
    ensures
        r == spec_ts_tail_ok(s@.skip(p as int)),
{
    let n = s.unicode_len();
    if n == p {
        return true;
    }
    let c = s.get_char(p);
    if c != ':' {
        return offset_ok(s, p);
    }
    if n - p < 3 {
        return false;
    }
    let d1 = s.get_char(p + 1);
    let d2 = s.get_char(p + 2);
    if !(is_digit(d1) && is_digit(d2)) {
        return false;
    }
    if digit_val(d1) * 10 + digit_val(d2) > 60 {
        return false;
    }
    let r = after_seconds_ok(s, p + 3);
    proof {
        assert(s@.skip(p as int).skip(3) =~= s@.skip(p + 3));
    }
    r
}

/// Check from position `p` what may follow the seconds, executable.
fn after_seconds_ok(s: &str, p: usize) -> (r: bool)
    requires
        p <= s@.len(),
        s@.len() <= usize::MAX,
    ensures
        r == spec_after_seconds_ok(s@.skip(p as int)),
{
    let n = s.unicode_len();
    if n == p {
        return true;
    }
    let c = s.get_char(p);
    if c != '.' {
        return offset_ok(s, p);
    }
    if n - p < 2 || !is_digit(s.get_char(p + 1)) {
        return false;
    }
    let mut q = p + 2;
    proof {
        assert(s@.skip(p as int).skip(2) =~= s@.skip(p + 2));
    }
    while q < n && is_digit(s.get_char(q))
        invariant
            p + 2 <= q <= n,
            n == s@.len() <= usize::MAX,
            spec_frac_tail_ok(s@.skip(q as int)) == spec_frac_tail_ok(s@.skip(p + 2)),
        decreases n - q,
    {
        proof {
            assert(s@.skip(q as int).skip(1) =~= s@.skip(q + 1));
        }
        q = q + 1;
    }
    if q == n {
        true
    } else {
        offset_ok(s, q)
    }
}

/// The decimal digit character of `d`.
pub open spec fn spec_digit_char(d: int) -> char {
    if d == 0 {
        '0'
    } else if d == 1 {
        '1'
    } else if d == 2 {
        '2'
    } else if d == 3 {
        '3'
    } else if d == 4 {
        '4'
    } else if d == 5 {
        '5'
    } else if d == 6 {
        '6'
    } else if d == 7 {
        '7'
    } else if d == 8 {
        '8'
    } else {
        '9'
    }
}

/// Decimal digit character, executable.
pub fn digit_char(d: u32) -> (r: char)
    requires
        d <= 9,
    ensures
        r == spec_digit_char(d as int),
{
    match d {
        0 => '0',
        1 => '1',
        2 => '2',
        3 => '3',
        4 => '4',
        5 => '5',
        6 => '6',
        7 => '7',
        8 => '8',
        _ => '9',
    }
}

/// Two-digit zero-padded decimal text.
pub open spec fn spec_two_digit_text(n: int) -> Seq<char> {
    seq![spec_digit_char(n / 10 % 10), spec_digit_char(n % 10)]
}

/// Four-digit zero-padded decimal text.
pub open spec fn spec_four_digit_text(n: int) -> Seq<char> {
    seq![
        spec_digit_char(n / 1000 % 10),
        spec_digit_char(n / 100 % 10),
        spec_digit_char(n / 10 % 10),
        spec_digit_char(n % 10),
    ]
}

/// Two-digit zero-padded text, executable.
pub fn two_digit_text(n: u32) -> (r: String)
    requires
        n <= 99,
    ensures
        r@ == spec_two_digit_text(n as int),
{
    let mut out = String::new();
    crate::strings::push_char(&mut out, digit_char(n / 10));
    crate::strings::push_char(&mut out, digit_char(n % 10));
    proof {
        assert(out@ =~= spec_two_digit_text(n as int));
    }
    out
}

/// Four-digit zero-padded text, executable.
pub fn four_digit_text(n: u32) -> (r: String)
    requires
        n <= 9999,
    ensures
        r@ == spec_four_digit_text(n as int),
{
    let mut out = String::new();
    crate::strings::push_char(&mut out, digit_char(n / 1000));
    crate::strings::push_char(&mut out, digit_char(n / 100 % 10));
    crate::strings::push_char(&mut out, digit_char(n / 10 % 10));
    crate::strings::push_char(&mut out, digit_char(n % 10));
    proof {
        assert(out@ =~= spec_four_digit_text(n as int));
    }
    out
}

/// The `YYYY-MM-DD` text of a calendar date.
#[verifier::opaque]
pub open spec fn spec_date_text(y: int, m: int, d: int) -> Seq<char> {
    spec_four_digit_text(y) + seq!['-'] + spec_two_digit_text(m) + seq!['-'] + spec_two_digit_text(
        d,
    )
}

/// Render a calendar date as `YYYY-MM-DD`, executable.
pub fn date_text(y: u32, m: u32, d: u32) -> (r: String)
    requires
        y <= 9999,
        m <= 99,
        d <= 99,
    ensures
        r@ == spec_date_text(y as int, m as int, d as int),
{
    let mut out = four_digit_text(y);
    crate::strings::push_char(&mut out, '-');
    out.append(two_digit_text(m).as_str());
    crate::strings::push_char(&mut out, '-');
    out.append(two_digit_text(d).as_str());
    proof {
        reveal(spec_date_text);
        assert(out@ =~= spec_date_text(y as int, m as int, d as int));
    }
    out
}

/// Days of month `m` of year `y`, executable.
pub fn days_in_month(y: u32, m: u32) -> (r: u32)
    requires
        1 <= m <= 12,
    ensures
        r == spec_days_in_month(y as int, m as int),
{
    if m == 2 {
        if (y % 4 == 0 && y % 100 != 0) || y % 400 == 0 {
            29
        } else {
            28
        }
    } else if m == 4 || m == 6 || m == 9 || m == 11 {
        30
    } else {
        31
    }
}

} // verus!
