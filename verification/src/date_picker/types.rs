//! Calendar value types: weekdays, dates, months and date selections, with
//! the Gregorian rules that the pickers rely on.
use vstd::prelude::*;

use crate::text::{fmt_int, push_char, push_int, push_str};

verus! {

// ---------------------------------------------------------------------------
// Weekday
// ---------------------------------------------------------------------------

/// Day of the week.
#[derive(Debug, Clone, Copy, PartialEq, Eq, Structural, Hash)]
pub enum Weekday {
    Sun,
    Mon,
    Tue,
    Wed,
    Thu,
    Fri,
    Sat,
}

/// Position of a weekday in a Sunday-first week.
pub open spec fn weekday_pos(w: Weekday) -> int {
    match w {
        Weekday::Sun => 0,
        Weekday::Mon => 1,
        Weekday::Tue => 2,
        Weekday::Wed => 3,
        Weekday::Thu => 4,
        Weekday::Fri => 5,
        Weekday::Sat => 6,
    }
}

/// The weekday at a position of a Sunday-first week; positions outside
/// `0..=5` give Saturday.
pub open spec fn weekday_at(i: int) -> Weekday {
    if i == 0 {
        Weekday::Sun
    } else if i == 1 {
        Weekday::Mon
    } else if i == 2 {
        Weekday::Tue
    } else if i == 3 {
        Weekday::Wed
    } else if i == 4 {
        Weekday::Thu
    } else if i == 5 {
        Weekday::Fri
    } else {
        Weekday::Sat
    }
}

/// One-letter label of a weekday.
pub open spec fn weekday_short_spec(w: Weekday) -> Seq<char> {
    match w {
        Weekday::Sun => "S"@,
        Weekday::Mon => "M"@,
        Weekday::Tue => "T"@,
        Weekday::Wed => "W"@,
        Weekday::Thu => "T"@,
        Weekday::Fri => "F"@,
        Weekday::Sat => "S"@,
    }
}

/// Full English name of a weekday.
pub open spec fn weekday_full_spec(w: Weekday) -> Seq<char> {
    match w {
        Weekday::Sun => "Sunday"@,
        Weekday::Mon => "Monday"@,
        Weekday::Tue => "Tuesday"@,
        Weekday::Wed => "Wednesday"@,
        Weekday::Thu => "Thursday"@,
        Weekday::Fri => "Friday"@,
        Weekday::Sat => "Saturday"@,
    }
}

/// The weekday at a position `0..7` of a Sunday-first week.
pub fn weekday_from_index(i: u32) -> (w: Weekday)
    ensures
        w == weekday_at(i as int),
{
    if i == 0 {
        Weekday::Sun
    } else if i == 1 {
        Weekday::Mon
    } else if i == 2 {
        Weekday::Tue
    } else if i == 3 {
        Weekday::Wed
    } else if i == 4 {
        Weekday::Thu
    } else if i == 5 {
        Weekday::Fri
    } else {
        Weekday::Sat
    }
}

impl Weekday {
    /// The seven weekdays in order, starting at `first`.
    pub fn all_starting_from(first: Weekday) -> (ordered: [Weekday; 7])
        ensures
            forall|i: int|
                0 <= i < 7 ==> #[trigger] ordered@[i] == weekday_at(
                    (weekday_pos(first) + i) % 7,
                ),
    {
        let s = weekday_index(first) as u32;
        [
            weekday_from_index(s % 7),
            weekday_from_index((s + 1) % 7),
            weekday_from_index((s + 2) % 7),
            weekday_from_index((s + 3) % 7),
            weekday_from_index((s + 4) % 7),
            weekday_from_index((s + 5) % 7),
            weekday_from_index((s + 6) % 7),
        ]
    }

    /// One-letter label ("S", "M", "T", ...).
    pub fn short_name(self) -> (name: &'static str)
        ensures
            name@ == weekday_short_spec(self),
    {
        match self {
            Weekday::Sun => "S",
            Weekday::Mon => "M",
            Weekday::Tue => "T",
            Weekday::Wed => "W",
            Weekday::Thu => "T",
            Weekday::Fri => "F",
            Weekday::Sat => "S",
        }
    }

    /// Full English name ("Sunday", ...).
    pub fn full_name(self) -> (name: &'static str)
        ensures
            name@ == weekday_full_spec(self),
    {
        match self {
            Weekday::Sun => "Sunday",
            Weekday::Mon => "Monday",
            Weekday::Tue => "Tuesday",
            Weekday::Wed => "Wednesday",
            Weekday::Thu => "Thursday",
            Weekday::Fri => "Friday",
            Weekday::Sat => "Saturday",
        }
    }
}

/// Index of a weekday in a Sunday-first week (`0..=6`).
pub fn weekday_index(w: Weekday) -> (i: i32)
    ensures
        i as int == weekday_pos(w),
        0 <= i < 7,
{
    match w {
        Weekday::Sun => 0,
        Weekday::Mon => 1,
        Weekday::Tue => 2,
        Weekday::Wed => 3,
        Weekday::Thu => 4,
        Weekday::Fri => 5,
        Weekday::Sat => 6,
    }
}

// ---------------------------------------------------------------------------
// Gregorian rules
// ---------------------------------------------------------------------------

/// Gregorian leap year rule.
pub open spec fn leap_spec(year: int) -> bool {
    (year % 4 == 0 && year % 100 != 0) || year % 400 == 0
}

/// Number of days in a month; months outside `1..=12` count 30 days.
pub open spec fn days_in_month_spec(year: int, month: int) -> int {
    if month == 1 || month == 3 || month == 5 || month == 7 || month == 8 || month == 10 || month
        == 12 {
        31
    } else if month == 4 || month == 6 || month == 9 || month == 11 {
        30
    } else if month == 2 {
        if leap_spec(year) {
            29
        } else {
            28
        }
    } else {
        30
    }
}

/// English month name; anything outside `1..=12` is "Unknown".
pub open spec fn month_name_spec(month: int) -> Seq<char> {
    if month == 1 {
        "January"@
    } else if month == 2 {
        "February"@
    } else if month == 3 {
        "March"@
    } else if month == 4 {
        "April"@
    } else if month == 5 {
        "May"@
    } else if month == 6 {
        "June"@
    } else if month == 7 {
        "July"@
    } else if month == 8 {
        "August"@
    } else if month == 9 {
        "September"@
    } else if month == 10 {
        "October"@
    } else if month == 11 {
        "November"@
    } else if month == 12 {
        "December"@
    } else {
        "Unknown"@
    }
}

/// Three-letter month abbreviation; anything outside `1..=12` is "???".
pub open spec fn month_short_name_spec(month: int) -> Seq<char> {
    if month == 1 {
        "Jan"@
    } else if month == 2 {
        "Feb"@
    } else if month == 3 {
        "Mar"@
    } else if month == 4 {
        "Apr"@
    } else if month == 5 {
        "May"@
    } else if month == 6 {
        "Jun"@
    } else if month == 7 {
        "Jul"@
    } else if month == 8 {
        "Aug"@
    } else if month == 9 {
        "Sep"@
    } else if month == 10 {
        "Oct"@
    } else if month == 11 {
        "Nov"@
    } else if month == 12 {
        "Dec"@
    } else {
        "???"@
    }
}

/// Whether `year` is a Gregorian leap year.
pub fn is_leap_year(year: i32) -> (leap: bool)
    ensures
        leap == leap_spec(year as int),
{
    (year % 4 == 0 && year % 100 != 0) || (year % 400 == 0)
}

/// Number of days in `month` of `year` (30 for a month outside `1..=12`).
pub fn days_in_month(year: i32, month: u8) -> (days: u32)
    ensures
        days as int == days_in_month_spec(year as int, month as int),
        28 <= days <= 31,
{
    match month {
        1 | 3 | 5 | 7 | 8 | 10 | 12 => 31,
        4 | 6 | 9 | 11 => 30,
        2 => {
            if is_leap_year(year) {
                29
            } else {
                28
            }
        },
        _ => 30,
    }
}

/// English name of a month ("Unknown" outside `1..=12`).
pub fn month_name(month: u8) -> (name: &'static str)
    ensures
        name@ == month_name_spec(month as int),
{
    match month {
        1 => "January",
        2 => "February",
        3 => "March",
        4 => "April",
        5 => "May",
        6 => "June",
        7 => "July",
        8 => "August",
        9 => "September",
        10 => "October",
        11 => "November",
        12 => "December",
        _ => "Unknown",
    }
}

/// Three-letter abbreviation of a month ("???" outside `1..=12`).
pub fn month_short_name(month: u8) -> (name: &'static str)
    ensures
        name@ == month_short_name_spec(month as int),
{
    match month {
        1 => "Jan",
        2 => "Feb",
        3 => "Mar",
        4 => "Apr",
        5 => "May",
        6 => "Jun",
        7 => "Jul",
        8 => "Aug",
        9 => "Sep",
        10 => "Oct",
        11 => "Nov",
        12 => "Dec",
        _ => "???",
    }
}

// ---------------------------------------------------------------------------
// Sakamoto's weekday formula
// ---------------------------------------------------------------------------

/// Integer division rounding toward zero, as Rust's `/` on signed integers.
pub open spec fn tdiv(a: int, b: int) -> int {
    if a >= 0 {
        a / b
    } else {
        -((-a) / b)
    }
}

/// Remainder of `tdiv`, as Rust's `%` on signed integers.
pub open spec fn trem(a: int, b: int) -> int {
    a - b * tdiv(a, b)
}

/// Sakamoto's month offsets.
pub open spec fn sakamoto_offset(month: int) -> int {
    if month == 1 {
        0
    } else if month == 2 {
        3
    } else if month == 3 {
        2
    } else if month == 4 {
        5
    } else if month == 5 {
        0
    } else if month == 6 {
        3
    } else if month == 7 {
        5
    } else if month == 8 {
        1
    } else if month == 9 {
        4
    } else if month == 10 {
        6
    } else if month == 11 {
        2
    } else {
        4
    }
}

/// The year Sakamoto's formula counts from: January and February belong
/// to the previous year.
pub open spec fn sakamoto_year(year: int, month: int) -> int {
    if month < 3 {
        year - 1
    } else {
        year
    }
}

/// The running sums of Sakamoto's formula, in evaluation order.
pub open spec fn sakamoto_partials(year: int, month: int, day: int) -> Seq<int> {
    let y = sakamoto_year(year, month);
    let s1 = y + tdiv(y, 4);
    let s2 = s1 - tdiv(y, 100);
    let s3 = s2 + tdiv(y, 400);
    let s4 = s3 + sakamoto_offset(month);
    let s5 = s4 + day;
    seq![y, s1, s2, s3, s4, s5]
}

/// Whether every intermediate value of Sakamoto's formula fits in `i32`.
pub open spec fn sakamoto_fits(year: int, month: int, day: int) -> bool {
    forall|i: int|
        0 <= i < 6 ==> i32::MIN <= #[trigger] sakamoto_partials(year, month, day)[i]
            <= i32::MAX
}

/// Sakamoto's number for a date, computed with Rust's truncating `/` and `%`.
pub open spec fn sakamoto_number(year: int, month: int, day: int) -> int {
    trem(sakamoto_partials(year, month, day)[5], 7)
}

/// The weekday that Sakamoto's number names; a negative number (which
/// arises for years before 1) gives Saturday.
pub open spec fn weekday_of(d: Date) -> Weekday {
    weekday_at(sakamoto_number(d.year as int, d.month as int, d.day as int))
}

fn sakamoto_table(month: i32) -> (t: i32)
    requires
        1 <= month <= 12,
    ensures
        t as int == sakamoto_offset(month as int),
        0 <= t <= 6,
{
    match month {
        1 => 0,
        2 => 3,
        3 => 2,
        4 => 5,
        5 => 0,
        6 => 3,
        7 => 5,
        8 => 1,
        9 => 4,
        10 => 6,
        11 => 2,
        _ => 4,
    }
}

/// The weekday of a date by Sakamoto's formula.
pub fn weekday_for_date(date: Date) -> (w: Weekday)
    requires
        1 <= date.month <= 12,
        sakamoto_fits(date.year as int, date.month as int, date.day as int),
    ensures
        w == weekday_of(date),
{
    let ghost p = sakamoto_partials(date.year as int, date.month as int, date.day as int);
    proof {
        assert(i32::MIN <= p[0] <= i32::MAX);
        assert(i32::MIN <= p[1] <= i32::MAX);
        assert(i32::MIN <= p[2] <= i32::MAX);
        assert(i32::MIN <= p[3] <= i32::MAX);
        assert(i32::MIN <= p[4] <= i32::MAX);
        assert(i32::MIN <= p[5] <= i32::MAX);
    }
    let mut y = date.year;
    let m = date.month as i32;
    let d = date.day as i32;
    if m < 3 {
        y -= 1;
    }
    let w = (y + y / 4 - y / 100 + y / 400 + sakamoto_table(m) + d) % 7;
    match w {
        0 => Weekday::Sun,
        1 => Weekday::Mon,
        2 => Weekday::Tue,
        3 => Weekday::Wed,
        4 => Weekday::Thu,
        5 => Weekday::Fri,
        _ => Weekday::Sat,
    }
}

/// Within a month of a year from 1 on, the day seven days later falls on
/// the same weekday, and the next day on the following weekday.
pub proof fn lemma_weekday_steps(year: int, month: int, day: int)
    requires
        year >= 1,
        1 <= month <= 12,
        day >= 0,
    ensures
        sakamoto_number(year, month, day) == (sakamoto_partials(year, month, 0)[5] + day) % 7,
        0 <= sakamoto_number(year, month, day) < 7,
{
    let y = sakamoto_year(year, month);
    assert(y >= 0);
    let s = sakamoto_partials(year, month, day)[5];
    assert(s >= 0);
}

/// For years from 1 on, a year is a leap year exactly when the quarters,
/// centuries and quadricentennials counted up to it grow by one, one and
/// one from the year before in the way that adds a day.
proof fn lemma_leap_counts(y: int)
    requires
        y >= 1,
    ensures
        (y + y / 4 - y / 100 + y / 400) - ((y - 1) + (y - 1) / 4 - (y - 1) / 100 + (y - 1) / 400)
            == if leap_spec(y) {
            2int
        } else {
            1int
        },
{
    assert(y / 4 - (y - 1) / 4 == if y % 4 == 0 { 1int } else { 0int });
    assert(y / 100 - (y - 1) / 100 == if y % 100 == 0 { 1int } else { 0int });
    assert(y / 400 - (y - 1) / 400 == if y % 400 == 0 { 1int } else { 0int });
    if y % 100 == 0 {
        assert(y % 4 == 0);
    }
    if y % 400 == 0 {
        assert(y % 100 == 0);
    }
}

/// The part of Sakamoto's sum that comes from the year.
spec fn year_part(year: int, month: int) -> int {
    let y = sakamoto_year(year, month);
    y + y / 4 - y / 100 + y / 400
}

proof fn lemma_number_of(year: int, month: int, day: int)
    requires
        year >= 1,
        1 <= month <= 12,
        day >= 0,
    ensures
        sakamoto_number(year, month, day) == (year_part(year, month) + sakamoto_offset(month)
            + day) % 7,
        weekday_pos(weekday_at(sakamoto_number(year, month, day))) == sakamoto_number(
            year,
            month,
            day,
        ),
{
    lemma_weekday_steps(year, month, day);
    lemma_weekday_steps(year, month, 0);
    let y = sakamoto_year(year, month);
    assert(y >= 0);
}

proof fn lemma_mod7_shift(a: int, delta: int, k: int)
    requires
        (delta - k) % 7 == 0,
    ensures
        (a + delta) % 7 == ((a % 7) + k) % 7,
{
    let q = (delta - k) / 7;
    vstd::arithmetic::div_mod::lemma_fundamental_div_mod(delta - k, 7);
    assert(delta == 7 * q + k);
    vstd::arithmetic::div_mod::lemma_mod_multiples_vanish(q, k, 7);
    vstd::arithmetic::div_mod::lemma_add_mod_noop(a, delta, 7);
    vstd::arithmetic::div_mod::lemma_add_mod_noop_right(a % 7, k, 7);
    vstd::arithmetic::div_mod::lemma_add_mod_noop(a % 7, k, 7);
    vstd::arithmetic::div_mod::lemma_mod_twice(a, 7);
}

/// The weekday moves on with the days: the next day of a month falls on
/// the next weekday, and the first of the next month falls as many
/// weekdays later as the month has days (so a 31-day month moves it by
/// three, February by none or one). Together with 1 January 2024 being a
/// Monday, this fixes the weekday of every date from year 1 on.
pub proof fn lemma_weekday_follows_days(year: i32, month: u8, day: u8)
    requires
        year >= 1,
        year < i32::MAX,
        1 <= month <= 12,
        1 <= day < 255,
    ensures
        weekday_of(Date { year: 2024, month: 1, day: 1 }) == Weekday::Mon,
        weekday_pos(weekday_of(Date { year, month, day: (day + 1) as u8 })) == (weekday_pos(
            weekday_of(Date { year, month, day }),
        ) + 1) % 7,
        month < 12 ==> weekday_pos(weekday_of(Date { year, month: (month + 1) as u8, day: 1 }))
            == (weekday_pos(weekday_of(Date { year, month, day: 1 })) + days_in_month_spec(
            year as int,
            month as int,
        )) % 7,
        month == 12 ==> weekday_pos(weekday_of(Date { year: (year + 1) as i32, month: 1, day: 1 }))
            == (weekday_pos(weekday_of(Date { year, month: 12, day: 1 })) + 31) % 7,
{
    let y = year as int;
    let m = month as int;
    let d = day as int;
    lemma_number_of(2024, 1, 1);
    assert(year_part(2024, 1) == 2023 + 505 - 20 + 5);
    // next day
    lemma_number_of(y, m, d);
    lemma_number_of(y, m, d + 1);
    lemma_mod7_shift(year_part(y, m) + sakamoto_offset(m) + d, 1, 1);
    // next month
    lemma_number_of(y, m, 1);
    let a = year_part(y, m) + sakamoto_offset(m) + 1;
    if m < 12 {
        lemma_number_of(y, m + 1, 1);
        let b = year_part(y, m + 1) + sakamoto_offset(m + 1) + 1;
        if m == 2 {
            lemma_leap_counts(y);
            assert(year_part(y, 3) - year_part(y, 2) == if leap_spec(y) { 2int } else { 1int });
        } else {
            assert(year_part(y, m + 1) == year_part(y, m));
        }
        lemma_mod7_shift(a, b - a, days_in_month_spec(y, m));
    } else {
        lemma_number_of(y + 1, 1, 1);
        assert(year_part(y + 1, 1) == year_part(y, 12));
        let b = year_part(y + 1, 1) + sakamoto_offset(1) + 1;
        lemma_mod7_shift(a, b - a, 31);
    }
}

// ---------------------------------------------------------------------------
// Date
// ---------------------------------------------------------------------------

/// A calendar date.
#[derive(Debug, Clone, Copy, PartialEq, Eq, Structural, PartialOrd, Ord, Hash)]
pub struct Date {
    pub year: i32,
    pub month: u8,
    pub day: u8,
}

/// Lexicographic order on (year, month, day): what the derived ordering of
/// `Date` compares.
pub open spec fn date_lt(a: Date, b: Date) -> bool {
    a.year < b.year || (a.year == b.year && (a.month < b.month || (a.month == b.month && a.day
        < b.day)))
}

/// Non-strict form of `date_lt`.
pub open spec fn date_le(a: Date, b: Date) -> bool {
    date_lt(a, b) || a == b
}

/// Whether `a` comes strictly before `b`.
pub fn date_before(a: Date, b: Date) -> (r: bool)
    ensures
        r == date_lt(a, b),
{
    a.year < b.year || (a.year == b.year && (a.month < b.month || (a.month == b.month && a.day
        < b.day)))
}

/// A date is valid when its month is `1..=12` and its day lies within that month.
pub open spec fn date_valid(d: Date) -> bool {
    1 <= d.month <= 12 && 1 <= d.day && d.day <= days_in_month_spec(d.year as int, d.month as int)
}

/// `YYYY-MM-DD` as `{:04}-{:02}-{:02}` renders it.
pub open spec fn date_text(d: Date) -> Seq<char> {
    fmt_int(d.year as int, 4) + seq!['-'] + fmt_int(d.month as int, 2) + seq!['-'] + fmt_int(
        d.day as int,
        2,
    )
}

impl Date {
    pub fn new(year: i32, month: u8, day: u8) -> (d: Self)
        ensures
            d.year == year,
            d.month == month,
            d.day == day,
    {
        Self { year, month, day }
    }

    /// Whether the month is `1..=12` and the day lies within it.
    pub fn is_valid(self) -> (r: bool)
        ensures
            r == date_valid(self),
    {
        if !(1 <= self.month && self.month <= 12) {
            return false;
        }
        let dim = days_in_month(self.year, self.month);
        self.day >= 1 && (self.day as u32) <= dim
    }

    /// The date the library treats as today: 2025-01-01.
    pub fn today() -> (d: Self)
        ensures
            d == (Date { year: 2025, month: 1, day: 1 }),
    {
        Self::new(2025, 1, 1)
    }

    /// `YYYY-MM-DD`, zero padded.
    pub fn to_string(&self) -> (s: String)
        ensures
            s@ == date_text(*self),
    {
        let mut s = String::new();
        push_int(&mut s, self.year, 4);
        push_char(&mut s, '-');
        push_int(&mut s, self.month as i32, 2);
        push_char(&mut s, '-');
        push_int(&mut s, self.day as i32, 2);
        proof {
            assert(s@ =~= date_text(*self));
        }
        s
    }
}

// ---------------------------------------------------------------------------
// Month
// ---------------------------------------------------------------------------

/// A month of a specific year.
#[derive(Debug, Clone, Copy, PartialEq, Eq, Structural, PartialOrd, Ord, Hash)]
pub struct Month {
    pub year: i32,
    pub month: u8,
}

/// Lexicographic order on (year, month).
pub open spec fn month_lt(a: Month, b: Month) -> bool {
    a.year < b.year || (a.year == b.year && a.month < b.month)
}

/// Non-strict form of `month_lt`.
pub open spec fn month_le(a: Month, b: Month) -> bool {
    month_lt(a, b) || a == b
}

/// Whether `a` comes strictly before `b`.
pub fn month_before(a: Month, b: Month) -> (r: bool)
    ensures
        r == month_lt(a, b),
{
    a.year < b.year || (a.year == b.year && a.month < b.month)
}

/// Months counted from year 0, month 1: the index that `add_months` moves.
pub open spec fn month_ordinal(m: Month) -> int {
    m.year * 12 + (m.month - 1)
}

/// Whether `add_months(delta)` stays within `i32`.
pub open spec fn add_months_fits(m: Month, delta: int) -> bool {
    let total = m.month + delta;
    &&& i32::MIN <= total <= i32::MAX
    &&& i32::MIN <= total - 1
    &&& i32::MIN <= m.year + (total - 1) / 12 <= i32::MAX
}

/// The month `delta` months after `m`; the month number is first read as
/// an offset, so an out-of-range month still lands in `1..=12`.
pub open spec fn add_months_spec(m: Month, delta: int) -> Month {
    let t = m.month + delta - 1;
    Month { year: (m.year + t / 12) as i32, month: (t % 12 + 1) as u8 }
}

/// Month display text: "<name> <year>".
pub open spec fn month_text(m: Month) -> Seq<char> {
    month_name_spec(m.month as int) + seq![' '] + fmt_int(m.year as int, 0)
}

impl Month {
    pub fn new(year: i32, month: u8) -> (m: Self)
        ensures
            m.year == year,
            m.month == month,
    {
        Self { year, month }
    }

    /// The month the library treats as current: January 2025.
    pub fn current() -> (m: Self)
        ensures
            m == (Month { year: 2025, month: 1 }),
    {
        Self::new(2025, 1)
    }

    /// The month `delta` months later (earlier when negative).
    pub fn add_months(self, delta: i32) -> (r: Self)
        requires
            add_months_fits(self, delta as int),
        ensures
            r == add_months_spec(self, delta as int),
            1 <= r.month <= 12,
    {
        let mut year = self.year;
        let mut month = self.month as i32;
        month += delta;
        let t = month - 1;
        let mut q = t / 12;
        let mut rm = t % 12;
        if rm < 0 {
            q = q - 1;
            rm = rm + 12;
        }
        proof {
            assert(q as int == (t as int) / 12 && rm as int == (t as int) % 12);
        }
        year += q;
        month = rm + 1;
        Self::new(year, month as u8)
    }

    /// Day 1 of the month.
    pub fn first_day(self) -> (d: Date)
        ensures
            d == (Date { year: self.year, month: self.month, day: 1 }),
    {
        Date::new(self.year, self.month, 1)
    }

    /// The last day of the month.
    pub fn last_day(self) -> (d: Date)
        ensures
            d == (Date {
                year: self.year,
                month: self.month,
                day: days_in_month_spec(self.year as int, self.month as int) as u8,
            }),
    {
        let days = days_in_month(self.year, self.month);
        Date::new(self.year, self.month, days as u8)
    }

    /// "<month name> <year>", e.g. "March 2024".
    pub fn display_name(self) -> (s: String)
        ensures
            s@ == month_text(self),
    {
        let mut s = String::new();
        push_str(&mut s, month_name(self.month));
        push_char(&mut s, ' ');
        push_int(&mut s, self.year, 0);
        proof {
            assert(s@ =~= month_text(self));
        }
        s
    }

    /// The same text as `display_name`.
    pub fn to_string(&self) -> (s: String)
        ensures
            s@ == month_text(*self),
    {
        self.display_name()
    }
}

/// Moving by `a` months and then by `b` months is moving by `a + b`
/// months, and the month ordinal moves by exactly the months added.
pub proof fn lemma_add_months_compose(m: Month, a: int, b: int)
    requires
        1 <= m.month <= 12,
        add_months_fits(m, a),
        add_months_fits(add_months_spec(m, a), b),
        add_months_fits(m, a + b),
    ensures
        add_months_spec(add_months_spec(m, a), b) == add_months_spec(m, a + b),
        month_ordinal(add_months_spec(m, a)) == month_ordinal(m) + a,
{
    let t = m.month + a - 1;
    let m1 = add_months_spec(m, a);
    assert(month_ordinal(m1) == m.year * 12 + t);
    let t2 = m1.month + b - 1;
    assert(t2 == t % 12 + b);
    let t3 = m.month + (a + b) - 1;
    assert(m1.year * 12 + t2 == m.year * 12 + t3);
}

/// Adding zero months leaves a valid month unchanged.
pub proof fn lemma_add_zero_months(m: Month)
    requires
        1 <= m.month <= 12,
    ensures
        add_months_spec(m, 0) == m,
{
}

/// For months numbered 1 to 12, the order of months is the order of their
/// ordinals, and equal ordinals mean equal months.
pub proof fn lemma_month_order_by_ordinal(x: Month, y: Month)
    requires
        1 <= x.month <= 12,
        1 <= y.month <= 12,
    ensures
        month_le(x, y) <==> month_ordinal(x) <= month_ordinal(y),
        month_ordinal(x) == month_ordinal(y) ==> x == y,
{
}

/// Moving by months composes (`a` months then `b` is `a + b`), is undone
/// by moving back (`a` then `-a`), does nothing for zero months, and keeps
/// order (moving by fewer months gives an earlier or equal month).
pub proof fn lemma_add_months_laws(m: Month, a: int, b: int)
    requires
        1 <= m.month <= 12,
        add_months_fits(m, a),
        add_months_fits(m, b),
        add_months_fits(m, a + b),
        add_months_fits(add_months_spec(m, a), b),
        add_months_fits(add_months_spec(m, a), -a),
    ensures
        add_months_spec(add_months_spec(m, a), b) == add_months_spec(m, a + b),
        add_months_spec(add_months_spec(m, a), -a) == m,
        add_months_spec(m, 0) == m,
        a <= b ==> month_le(add_months_spec(m, a), add_months_spec(m, b)),
{
    lemma_add_months_compose(m, a, b);
    lemma_add_months_compose(m, a, -a);
    lemma_add_zero_months(m);
    lemma_add_months_compose(m, b, 0);
    lemma_month_order_by_ordinal(add_months_spec(m, a), add_months_spec(m, b));
}

// ---------------------------------------------------------------------------
// DateSelection
// ---------------------------------------------------------------------------

/// A selection: one date, or a range whose end may still be open.
#[derive(Debug, Clone, Copy, PartialEq, Eq, Structural)]
pub enum DateSelection {
    Single(Date),
    Range { start: Date, end: Option<Date> },
}

/// Whether a selection covers a date: the date itself, or every date from
/// start to end inclusive (only the start while the end is open).
pub open spec fn selection_contains(s: DateSelection, date: Date) -> bool {
    match s {
        DateSelection::Single(d) => d == date,
        DateSelection::Range { start, end } => match end {
            Some(e) => date_le(start, date) && date_le(date, e),
            None => date == start,
        },
    }
}

impl DateSelection {
    /// Whether the selection covers `date`.
    pub fn contains(&self, date: Date) -> (r: bool)
        ensures
            r == selection_contains(*self, date),
    {
        match self {
            DateSelection::Single(d) => *d == date,
            DateSelection::Range { start, end } => {
                if let Some(end) = end {
                    !date_before(date, *start) && !date_before(*end, date)
                } else {
                    date == *start
                }
            },
        }
    }

    /// Whether `date` is where the selection starts.
    pub fn is_start(&self, date: Date) -> (r: bool)
        ensures
            r == match *self {
                DateSelection::Single(d) => d == date,
                DateSelection::Range { start, .. } => start == date,
            },
    {
        match self {
            DateSelection::Single(d) => *d == date,
            DateSelection::Range { start, .. } => *start == date,
        }
    }

    /// Whether `date` is where the selection ends (never, while open).
    pub fn is_end(&self, date: Date) -> (r: bool)
        ensures
            r == match *self {
                DateSelection::Single(d) => d == date,
                DateSelection::Range { end, .. } => end == Some(date),
            },
    {
        match self {
            DateSelection::Single(d) => *d == date,
            DateSelection::Range { end: Some(end), .. } => *end == date,
            DateSelection::Range { end: None, .. } => false,
        }
    }

    /// Whether `date` lies strictly between the ends of a closed range.
    pub fn is_in_range(&self, date: Date) -> (r: bool)
        ensures
            r == match *self {
                DateSelection::Range { start, end: Some(e) } => date_lt(start, date) && date_lt(
                    date,
                    e,
                ),
                _ => false,
            },
    {
        match self {
            DateSelection::Single(_) => false,
            DateSelection::Range { start, end: Some(end) } => {
                date_before(*start, date) && date_before(date, *end)
            },
            DateSelection::Range { .. } => false,
        }
    }
}

} // verus!
