//! A combined date and time picker dialog: its state, its responses to
//! presses, and the texts it shows.
use vstd::prelude::*;
use vstd::string::*;

use crate::date_picker::constraints::weekday_defined;
use crate::date_picker::types::{
    date_before, date_lt, date_text, date_valid, days_in_month, days_in_month_spec,
    weekday_for_date, weekday_index, weekday_of, weekday_pos,
};
use crate::text::{fmt_int, push_char, push_int, push_str};

pub use crate::date_picker::types::{Date, Weekday};

verus! {

/// 24-hour or 12-hour clock.
#[derive(Debug, Clone, Copy, PartialEq, Eq, Structural)]
pub enum TimeFormat {
    H24,
    H12,
}

/// Whether the dialog shows the day grid or the year grid.
#[derive(Debug, Clone, Copy, PartialEq, Eq, Structural)]
pub enum CalendarSelector {
    Day,
    Year,
}

/// The state of a date and time picker.
#[derive(Debug, Clone, PartialEq, Eq)]
pub struct MaterialDateTimePicker {
    pub open: bool,
    pub title: String,
    pub selected_date: Option<Date>,
    pub hour: u8,
    pub minute: u8,
    pub time_format: TimeFormat,
    pub display_year: i32,
    pub display_month: u8,
    pub first_day_of_week: Weekday,
    pub selector: CalendarSelector,
    pub year_start: i32,
    pub year_end: i32,
    pub dismiss_on_scrim_click: bool,
    pub dismiss_on_escape: bool,
    pub min_date: Option<Date>,
    pub max_date: Option<Date>,
}

/// English month name, empty outside `1..=12`.
pub open spec fn dt_month_name(month: int) -> Seq<char> {
    if month == 1 {
        "January"@
    } else if month == 2 {
        "February"@
    } else if month == 3 {
        "March"@
    } else if month == 4 {
        "April"@
    } else if month == 5 {
        "May"@
    } else if month == 6 {
        "June"@
    } else if month == 7 {
        "July"@
    } else if month == 8 {
        "August"@
    } else if month == 9 {
        "September"@
    } else if month == 10 {
        "October"@
    } else if month == 11 {
        "November"@
    } else if month == 12 {
        "December"@
    } else {
        ""@
    }
}

fn month_label(month: u8) -> (name: &'static str)
    ensures
        name@ == dt_month_name(month as int),
{
    match month {
        1 => "January",
        2 => "February",
        3 => "March",
        4 => "April",
        5 => "May",
        6 => "June",
        7 => "July",
        8 => "August",
        9 => "September",
        10 => "October",
        11 => "November",
        12 => "December",
        _ => "",
    }
}

/// The (year, month) `delta` months after `year`/`month`.
pub open spec fn shift_month_spec(year: int, month: int, delta: int) -> (int, int) {
    let m = month - 1 + delta;
    (year + m / 12, m % 12 + 1)
}

/// Whether moving `delta` months stays within `i32`.
pub open spec fn shift_month_fits(year: int, month: int, delta: int) -> bool {
    let m = month - 1 + delta;
    i32::MIN <= m <= i32::MAX && i32::MIN <= year + m / 12 <= i32::MAX
}

fn shift_month(year: i32, month: u8, delta: i32) -> (r: (i32, u8))
    requires
        shift_month_fits(year as int, month as int, delta as int),
    ensures
        (r.0 as int, r.1 as int) == shift_month_spec(year as int, month as int, delta as int),
        1 <= r.1 <= 12,
{
    let m = month as i32 - 1 + delta;
    let mut q = m / 12;
    let mut rm = m % 12;
    if rm < 0 {
        q = q - 1;
        rm = rm + 12;
    }
    proof {
        assert(q as int == (m as int) / 12 && rm as int == (m as int) % 12);
    }
    (year + q, (rm + 1) as u8)
}

/// Whether a date lies within optional inclusive bounds.
pub open spec fn dt_within(min: Option<Date>, max: Option<Date>, d: Date) -> bool {
    (match min {
        Some(lo) => !date_lt(d, lo),
        None => true,
    }) && (match max {
        Some(hi) => !date_lt(hi, d),
        None => true,
    })
}

/// The day a cell of the grid shows, counting from the first weekday.
pub open spec fn dt_cell_day(year: i32, month: u8, first: Weekday, index: int) -> int {
    let offset = (weekday_pos(weekday_of(Date { year, month, day: 1 })) - weekday_pos(first))
        % 7;
    index - offset + 1
}

/// The hour as the clock shows it: 12 for midnight and noon-on in 12-hour
/// form.
pub open spec fn display_hour(hour: int, fmt: TimeFormat) -> int {
    match fmt {
        TimeFormat::H24 => hour,
        TimeFormat::H12 => if hour == 0 {
            12
        } else if hour > 12 {
            hour - 12
        } else {
            hour
        },
    }
}

/// A 12-hour clock shows every hour of the day as 1 to 12, agreeing with
/// the hour modulo 12, so that with AM before noon and PM from noon on the
/// shown hour gives the hour back; a 24-hour clock shows the hour itself.
pub proof fn lemma_display_hour_is_clock_hour(hour: int)
    requires
        0 <= hour < 24,
    ensures
        1 <= display_hour(hour, TimeFormat::H12) <= 12,
        display_hour(hour, TimeFormat::H12) % 12 == hour % 12,
        display_hour(hour, TimeFormat::H12) % 12 + (if hour >= 12 {
            12int
        } else {
            0int
        }) == hour,
        display_hour(hour, TimeFormat::H24) == hour,
{
}

/// The summary line: date (or "No date"), bullet, time and AM/PM suffix.
pub open spec fn summary_spec(p: MaterialDateTimePicker) -> Seq<char> {
    let date_part = match p.selected_date {
        Some(d) => date_text(d),
        None => "No date"@,
    };
    let suffix = match p.time_format {
        TimeFormat::H24 => ""@,
        TimeFormat::H12 => if p.hour < 12 {
            " AM"@
        } else {
            " PM"@
        },
    };
    date_part + "  \u{2022}  "@ + fmt_int(display_hour(p.hour as int, p.time_format), 2) + seq![
        ':',
    ] + fmt_int(p.minute as int, 2) + suffix
}

/// The ranges the picker's fields must stay within.
pub open spec fn dt_wf(p: MaterialDateTimePicker) -> bool {
    p.year_start <= p.year_end && p.hour < 24 && p.minute < 60
}

impl MaterialDateTimePicker {
    /// The picker's own invariant: the year range is ordered and the time
    /// is a time of day.
    pub open spec fn wf(&self) -> bool {
        dt_wf(*self)
    }

    /// Whether the day grid is shown.
    pub fn day_grid_visible(&self) -> (r: bool)
        ensures
            r == (self.open && self.selector == CalendarSelector::Day),
    {
        self.open && self.selector == CalendarSelector::Day
    }

    /// Whether the year grid is shown.
    pub fn year_grid_visible(&self) -> (r: bool)
        ensures
            r == (self.open && self.selector == CalendarSelector::Year),
    {
        self.open && self.selector == CalendarSelector::Year
    }

    /// The selectable years (inclusive).
    pub fn year_bounds(&self) -> (r: (i32, i32))
        ensures
            r == (self.year_start, self.year_end),
    {
        (self.year_start, self.year_end)
    }

    /// Escape pressed: closes the picker `entity` when it is open and
    /// dismissable; returns the cancellation to report where it closed.
    pub fn press_escape(&mut self, entity: u64) -> (cancelled: Option<DateTimePickerCancelEvent>)
        ensures
            cancelled == (if old(self).open && old(self).dismiss_on_escape {
                Some(DateTimePickerCancelEvent { entity: entity })
            } else {
                None
            }),
            *final(self) == (MaterialDateTimePicker {
                open: old(self).open && cancelled is None,
                ..*old(self)
            }),
    {
        if self.open && self.dismiss_on_escape {
            self.open = false;
            Some(DateTimePickerCancelEvent { entity })
        } else {
            None
        }
    }

    /// Outside of the dialog of the picker `entity` pressed: closes it when
    /// it is open and dismissable; returns the cancellation to report where
    /// it closed.
    pub fn press_scrim(&mut self, entity: u64) -> (cancelled: Option<DateTimePickerCancelEvent>)
        ensures
            cancelled == (if old(self).open && old(self).dismiss_on_scrim_click {
                Some(DateTimePickerCancelEvent { entity: entity })
            } else {
                None
            }),
            *final(self) == (MaterialDateTimePicker {
                open: old(self).open && cancelled is None,
                ..*old(self)
            }),
    {
        if self.open && self.dismiss_on_scrim_click {
            self.open = false;
            Some(DateTimePickerCancelEvent { entity })
        } else {
            None
        }
    }

    /// A month arrow pressed: pages the day grid by `delta` months.
    pub fn navigate_months(&mut self, delta: i32)
        requires
            shift_month_fits(old(self).display_year as int, old(self).display_month as int, delta as int),
        ensures
            old(self).open && old(self).selector == CalendarSelector::Day ==> {
                let (y, m) = shift_month_spec(
                    old(self).display_year as int,
                    old(self).display_month as int,
                    delta as int,
                );
                *final(self) == (MaterialDateTimePicker {
                    display_year: y as i32,
                    display_month: m as u8,
                    ..*old(self)
                })
            },
            !(old(self).open && old(self).selector == CalendarSelector::Day) ==> *final(self) == *old(self),
    {
        if !self.open {
            return;
        }
        if self.selector != CalendarSelector::Day {
            return;
        }
        let (y, m) = shift_month(self.display_year, self.display_month, delta);
        self.display_year = y;
        self.display_month = m;
    }

    /// The month/year header pressed: switches between day and year grids.
    pub fn toggle_selector(&mut self)
        ensures
            *final(self) == (MaterialDateTimePicker {
                selector: if old(self).open {
                    match old(self).selector {
                        CalendarSelector::Day => CalendarSelector::Year,
                        CalendarSelector::Year => CalendarSelector::Day,
                    }
                } else {
                    old(self).selector
                },
                ..*old(self)
            }),
    {
        if !self.open {
            return;
        }
        self.selector = match self.selector {
            CalendarSelector::Day => CalendarSelector::Year,
            CalendarSelector::Year => CalendarSelector::Day,
        };
    }

    /// A year pressed: shows it (clamped to the year range) and returns to
    /// the day grid.
    pub fn select_year(&mut self, year: i32)
        requires
            old(self).wf(),
        ensures
            old(self).open && old(self).selector == CalendarSelector::Year ==> *final(self) == (
            MaterialDateTimePicker {
                display_year: if year < old(self).year_start {
                    old(self).year_start
                } else if year > old(self).year_end {
                    old(self).year_end
                } else {
                    year
                },
                selector: CalendarSelector::Day,
                ..*old(self)
            }),
            !(old(self).open && old(self).selector == CalendarSelector::Year) ==> *final(self) == *old(self),
            final(self).wf(),
    {
        if !self.open {
            return;
        }
        if self.selector != CalendarSelector::Year {
            return;
        }
        let y = if year < self.year_start {
            self.year_start
        } else if year > self.year_end {
            self.year_end
        } else {
            year
        };
        self.display_year = y;
        self.selector = CalendarSelector::Day;
    }

    /// The day a grid cell shows, if it is within the displayed month.
    pub fn cell_date(&self, index: u8) -> (d: Option<Date>)
        requires
            weekday_defined(Date { year: self.display_year, month: self.display_month, day: 1 }),
        ensures
            ({
                let n = dt_cell_day(self.display_year, self.display_month, self.first_day_of_week, index as int);
                d == if 1 <= n <= days_in_month_spec(self.display_year as int, self.display_month as int) {
                    Some(Date { year: self.display_year, month: self.display_month, day: n as u8 })
                } else {
                    None
                }
            }),
    {
        let first = Date::new(self.display_year, self.display_month, 1);
        let first_wd = weekday_for_date(first);
        let diff = weekday_index(first_wd) - weekday_index(self.first_day_of_week);
        let offset = if diff < 0 { diff + 7 } else { diff };
        let day_number = index as i32 - offset + 1;
        let dim = days_in_month(self.display_year, self.display_month) as i32;
        if !(1 <= day_number && day_number <= dim) {
            return None;
        }
        Some(Date::new(self.display_year, self.display_month, day_number as u8))
    }

    /// A day cell pressed: selects the cell's date when it is in the month
    /// and within the optional bounds.
    pub fn select_day(&mut self, index: u8)
        requires
            weekday_defined(Date { year: old(self).display_year, month: old(self).display_month, day: 1 }),
        ensures
            ({
                let n = dt_cell_day(old(self).display_year, old(self).display_month, old(self).first_day_of_week, index as int);
                let d = Date { year: old(self).display_year, month: old(self).display_month, day: n as u8 };
                if old(self).open && old(self).selector == CalendarSelector::Day && 1 <= n
                    <= days_in_month_spec(old(self).display_year as int, old(self).display_month as int)
                    && date_valid(d) && dt_within(old(self).min_date, old(self).max_date, d) {
                    *final(self) == (MaterialDateTimePicker { selected_date: Some(d), ..*old(self) })
                } else {
                    *final(self) == *old(self)
                }
            }),
    {
        if !self.open {
            return;
        }
        if self.selector != CalendarSelector::Day {
            return;
        }
        let selected = match self.cell_date(index) {
            Some(d) => d,
            None => return,
        };
        if !selected.is_valid() {
            return;
        }
        if let Some(min) = self.min_date {
            if date_before(selected, min) {
                return;
            }
        }
        if let Some(max) = self.max_date {
            if date_before(max, selected) {
                return;
            }
        }
        self.selected_date = Some(selected);
    }

    /// An hour (`is_hour`) or minute arrow pressed: moves the field by
    /// `delta`, wrapping around the day or hour.
    pub fn adjust_time(&mut self, is_hour: bool, delta: i32)
        requires
            is_hour ==> old(self).hour + delta <= i32::MAX,
            !is_hour ==> old(self).minute + delta <= i32::MAX,
        ensures
            old(self).open && is_hour ==> *final(self) == (MaterialDateTimePicker {
                hour: ((old(self).hour + delta) % 24) as u8,
                ..*old(self)
            }),
            old(self).open && !is_hour ==> *final(self) == (MaterialDateTimePicker {
                minute: ((old(self).minute + delta) % 60) as u8,
                ..*old(self)
            }),
            !old(self).open ==> *final(self) == *old(self),
            old(self).wf() ==> final(self).wf(),
    {
        if !self.open {
            return;
        }
        if is_hour {
            let v = self.hour as i32 + delta;
            let mut r = v % 24;
            if r < 0 {
                r = r + 24;
            }
            proof {
                assert(r as int == (v as int) % 24);
            }
            self.hour = r as u8;
        } else {
            let v = self.minute as i32 + delta;
            let mut r = v % 60;
            if r < 0 {
                r = r + 60;
            }
            proof {
                assert(r as int == (v as int) % 60);
            }
            self.minute = r as u8;
        }
    }

    /// OK (`is_ok`) or Cancel of the picker `entity` pressed. Cancel
    /// closes an open picker; OK closes it and submits the date and time
    /// only when a date is chosen.
    pub fn press_action(&mut self, entity: u64, is_ok: bool) -> (outcome: DateTimePickerOutcome)
        ensures
            !old(self).open ==> outcome == DateTimePickerOutcome::Ignored && *final(self)
                == *old(self),
            old(self).open && !is_ok ==> outcome == DateTimePickerOutcome::Cancelled(
                DateTimePickerCancelEvent { entity: entity },
            ) && *final(self) == (MaterialDateTimePicker { open: false, ..*old(self) }),
            old(self).open && is_ok ==> match old(self).selected_date {
                Some(d) => outcome == DateTimePickerOutcome::Submitted(
                    DateTimePickerSubmitEvent {
                        entity: entity,
                        date: d,
                        hour: old(self).hour,
                        minute: old(self).minute,
                    },
                ) && *final(self) == (MaterialDateTimePicker { open: false, ..*old(self) }),
                None => outcome == DateTimePickerOutcome::Ignored && *final(self) == *old(self),
            },
    {
        if !self.open {
            return DateTimePickerOutcome::Ignored;
        }
        if !is_ok {
            self.open = false;
            return DateTimePickerOutcome::Cancelled(DateTimePickerCancelEvent { entity });
        }
        match self.selected_date {
            Some(date) => {
                self.open = false;
                DateTimePickerOutcome::Submitted(
                    DateTimePickerSubmitEvent { entity, date, hour: self.hour, minute: self.minute },
                )
            },
            None => DateTimePickerOutcome::Ignored,
        }
    }

    /// The month header: the year alone in the year grid, otherwise
    /// "<month> <year>".
    pub fn month_label_text(&self) -> (s: String)
        ensures
            s@ == if self.selector == CalendarSelector::Year {
                fmt_int(self.display_year as int, 0)
            } else {
                dt_month_name(self.display_month as int) + seq![' '] + fmt_int(self.display_year as int, 0)
            },
    {
        let mut s = String::new();
        if self.selector == CalendarSelector::Year {
            push_int(&mut s, self.display_year, 0);
        } else {
            push_str(&mut s, month_label(self.display_month));
            push_char(&mut s, ' ');
            push_int(&mut s, self.display_year, 0);
        }
        proof {
            assert(s@ =~= if self.selector == CalendarSelector::Year {
                fmt_int(self.display_year as int, 0)
            } else {
                dt_month_name(self.display_month as int) + seq![' '] + fmt_int(self.display_year as int, 0)
            });
        }
        s
    }

    /// The summary line, e.g. "2025-03-14  •  09:05 AM".
    pub fn summary_text(&self) -> (s: String)
        ensures
            s@ == summary_spec(*self),
    {
        let mut s = String::new();
        match self.selected_date {
            Some(d) => {
                let t = d.to_string();
                push_str(&mut s, t.as_str());
                assert(s@ =~= date_text(d));
            },
            None => {
                push_str(&mut s, "No date");
                assert(s@ =~= "No date"@);
            },
        }
        let ghost date_part = s@;
        push_str(&mut s, "  \u{2022}  ");
        let h: i32 = match self.time_format {
            TimeFormat::H24 => self.hour as i32,
            TimeFormat::H12 => {
                let h = self.hour as i32;
                if h == 0 {
                    12
                } else if h > 12 {
                    h - 12
                } else {
                    h
                }
            },
        };
        assert(h as int == display_hour(self.hour as int, self.time_format));
        push_int(&mut s, h, 2);
        push_char(&mut s, ':');
        push_int(&mut s, self.minute as i32, 2);
        let ghost before_suffix = s@;
        assert(before_suffix =~= date_part + "  \u{2022}  "@ + fmt_int(display_hour(self.hour as int, self.time_format), 2) + seq![':'] + fmt_int(self.minute as int, 2));
        match self.time_format {
            TimeFormat::H24 => {
                proof {
                    reveal_strlit("");
                    assert(s@ =~= before_suffix + ""@);
                }
            },
            TimeFormat::H12 => {
                if self.hour < 12 {
                    push_str(&mut s, " AM");
                } else {
                    push_str(&mut s, " PM");
                }
            },
        }
        proof {
            assert(s@ =~= summary_spec(*self));
        }
        s
    }

    /// The hour field text: the displayed hour, kept within `0..=23`, two digits.
    pub fn hour_text(&self) -> (s: String)
        ensures
            s@ == fmt_int(
                {
                    let h = display_hour(self.hour as int, self.time_format);
                    if h < 0 {
                        0
                    } else if h > 23 {
                        23
                    } else {
                        h
                    }
                },
                2,
            ),
    {
        let h: i32 = match self.time_format {
            TimeFormat::H24 => self.hour as i32,
            TimeFormat::H12 => {
                let h = self.hour as i32;
                if h == 0 {
                    12
                } else if h > 12 {
                    h - 12
                } else {
                    h
                }
            },
        };
        let c: i32 = if h < 0 {
            0
        } else if h > 23 {
            23
        } else {
            h
        };
        crate::text::int_to_string(c, 2)
    }

    /// The minute field text, two digits.
    pub fn minute_text(&self) -> (s: String)
        ensures
            s@ == fmt_int(self.minute as int, 2),
    {
        crate::text::int_to_string(self.minute as i32, 2)
    }

    /// Whether a year cell shows the selected date's year.
    pub fn is_year_selected(&self, year: i32) -> (r: bool)
        ensures
            r == match self.selected_date {
                Some(d) => d.year == year,
                None => false,
            },
    {
        match self.selected_date {
            Some(d) => d.year == year,
            None => false,
        }
    }

    /// Whether a day cell shows the selected date.
    pub fn is_cell_selected(&self, index: u8) -> (r: bool)
        requires
            weekday_defined(Date { year: self.display_year, month: self.display_month, day: 1 }),
        ensures
            r == ({
                let n = dt_cell_day(self.display_year, self.display_month, self.first_day_of_week, index as int);
                1 <= n <= days_in_month_spec(self.display_year as int, self.display_month as int)
                    && self.selected_date == Some(Date { year: self.display_year, month: self.display_month, day: n as u8 })
            }),
    {
        match self.cell_date(index) {
            Some(d) => self.selected_date == Some(d),
            None => false,
        }
    }
}

impl Default for MaterialDateTimePicker {
    /// Closed, titled "Select date & time", no date, 00:00 on a 24-hour
    /// clock, showing January 2025, years 1970 to 2070.
    fn default() -> (p: Self)
        ensures
            !p.open,
            p.title@ == "Select date & time"@,
            p.selected_date is None,
            p.hour == 0 && p.minute == 0,
            p.time_format == TimeFormat::H24,
            p.display_year == 2025 && p.display_month == 1,
            p.first_day_of_week == Weekday::Sun,
            p.selector == CalendarSelector::Day,
            p.year_start == 1970 && p.year_end == 2070,
            p.dismiss_on_scrim_click && p.dismiss_on_escape,
            p.min_date is None && p.max_date is None,
            p.wf(),
    {
        Self {
            open: false,
            title: String::from_str("Select date & time"),
            selected_date: None,
            hour: 0,
            minute: 0,
            time_format: TimeFormat::H24,
            display_year: 2025,
            display_month: 1,
            first_day_of_week: Weekday::Sun,
            selector: CalendarSelector::Day,
            year_start: 1970,
            year_end: 2070,
            dismiss_on_scrim_click: true,
            dismiss_on_escape: true,
            min_date: None,
            max_date: None,
        }
    }
}

/// Builds a `MaterialDateTimePicker`.
#[derive(Debug, Clone)]
pub struct DateTimePickerBuilder {
    picker: MaterialDateTimePicker,
}

impl DateTimePickerBuilder {
    /// The picker the builder currently holds.
    pub closed spec fn spec_picker(&self) -> MaterialDateTimePicker {
        self.picker
    }

    pub fn new() -> (b: Self)
        ensures
            !b.spec_picker().open,
            b.spec_picker().selected_date is None,
            b.spec_picker().year_start == 1970 && b.spec_picker().year_end == 2070,
            b.spec_picker().wf(),
    {
        Self { picker: MaterialDateTimePicker::default() }
    }

    pub fn title(self, title: &str) -> (b: Self)
        ensures
            b.spec_picker().title@ == title@,
            b.spec_picker() == (MaterialDateTimePicker { title: b.spec_picker().title, ..self.spec_picker() }),
    {
        let mut this = self;
        this.picker.title = String::from_str(title);
        this
    }

    pub fn open(self) -> (b: Self)
        ensures
            b.spec_picker() == (MaterialDateTimePicker { open: true, ..self.spec_picker() }),
    {
        let mut this = self;
        this.picker.open = true;
        this
    }

    /// Selects `date` and shows its month, if it is a valid date.
    pub fn date(self, date: Date) -> (b: Self)
        ensures
            date_valid(date) ==> b.spec_picker() == (MaterialDateTimePicker {
                selected_date: Some(date),
                display_year: date.year,
                display_month: date.month,
                ..self.spec_picker()
            }),
            !date_valid(date) ==> b.spec_picker() == self.spec_picker(),
    {
        let mut this = self;
        if date.is_valid() {
            this.picker.selected_date = Some(date);
            this.picker.display_year = date.year;
            this.picker.display_month = date.month;
        }
        this
    }

    /// Sets the time, reduced to a time of day.
    pub fn time(self, hour: u8, minute: u8) -> (b: Self)
        ensures
            b.spec_picker() == (MaterialDateTimePicker {
                hour: hour % 24,
                minute: minute % 60,
                ..self.spec_picker()
            }),
    {
        let mut this = self;
        this.picker.hour = hour % 24;
        this.picker.minute = minute % 60;
        this
    }

    pub fn time_format(self, fmt: TimeFormat) -> (b: Self)
        ensures
            b.spec_picker() == (MaterialDateTimePicker { time_format: fmt, ..self.spec_picker() }),
    {
        let mut this = self;
        this.picker.time_format = fmt;
        this
    }

    pub fn first_day_of_week(self, first: Weekday) -> (b: Self)
        ensures
            b.spec_picker() == (MaterialDateTimePicker { first_day_of_week: first, ..self.spec_picker() }),
    {
        let mut this = self;
        this.picker.first_day_of_week = first;
        this
    }

    pub fn dismiss_on_scrim_click(self, enabled: bool) -> (b: Self)
        ensures
            b.spec_picker() == (MaterialDateTimePicker { dismiss_on_scrim_click: enabled, ..self.spec_picker() }),
    {
        let mut this = self;
        this.picker.dismiss_on_scrim_click = enabled;
        this
    }

    pub fn dismiss_on_escape(self, enabled: bool) -> (b: Self)
        ensures
            b.spec_picker() == (MaterialDateTimePicker { dismiss_on_escape: enabled, ..self.spec_picker() }),
    {
        let mut this = self;
        this.picker.dismiss_on_escape = enabled;
        this
    }

    pub fn min_date(self, date: Date) -> (b: Self)
        ensures
            b.spec_picker() == (MaterialDateTimePicker { min_date: Some(date), ..self.spec_picker() }),
    {
        let mut this = self;
        this.picker.min_date = Some(date);
        this
    }

    pub fn max_date(self, date: Date) -> (b: Self)
        ensures
            b.spec_picker() == (MaterialDateTimePicker { max_date: Some(date), ..self.spec_picker() }),
    {
        let mut this = self;
        this.picker.max_date = Some(date);
        this
    }

    /// Sets the year range, in either order.
    pub fn year_range(self, start_year: i32, end_year: i32) -> (b: Self)
        ensures
            b.spec_picker() == (MaterialDateTimePicker {
                year_start: if start_year <= end_year { start_year } else { end_year },
                year_end: if start_year <= end_year { end_year } else { start_year },
                ..self.spec_picker()
            }),
    {
        let mut this = self;
        if start_year <= end_year {
            this.picker.year_start = start_year;
            this.picker.year_end = end_year;
        } else {
            this.picker.year_start = end_year;
            this.picker.year_end = start_year;
        }
        this
    }

    /// Settles the year range before the picker is shown: the years of the
    /// min and max dates when both are set, otherwise fifty years either
    /// side of the displayed year.
    pub fn finalize_year_range(self) -> (b: Self)
        requires
            !(self.spec_picker().min_date is Some && self.spec_picker().max_date is Some) ==> i32::MIN
                + 50 <= self.spec_picker().display_year <= i32::MAX - 50,
        ensures
            b.spec_picker() == (MaterialDateTimePicker {
                year_start: match (self.spec_picker().min_date, self.spec_picker().max_date) {
                    (Some(lo), Some(hi)) => if lo.year <= hi.year { lo.year } else { hi.year },
                    _ => (self.spec_picker().display_year - 50) as i32,
                },
                year_end: match (self.spec_picker().min_date, self.spec_picker().max_date) {
                    (Some(lo), Some(hi)) => if lo.year <= hi.year { hi.year } else { lo.year },
                    _ => (self.spec_picker().display_year + 50) as i32,
                },
                ..self.spec_picker()
            }),
    {
        let mut this = self;
        if let (Some(min), Some(max)) = (this.picker.min_date, this.picker.max_date) {
            if min.year <= max.year {
                this.picker.year_start = min.year;
                this.picker.year_end = max.year;
            } else {
                this.picker.year_start = max.year;
                this.picker.year_end = min.year;
            }
            return this;
        }
        let center = this.picker.display_year;
        this.picker.year_start = center - 50;
        this.picker.year_end = center + 50;
        this
    }

    /// The picker the builder holds.
    pub fn build(self) -> (p: MaterialDateTimePicker)
        ensures
            p == self.spec_picker(),
    {
        self.picker
    }
}

impl Default for DateTimePickerBuilder {
    fn default() -> (b: Self)
        ensures
            !b.spec_picker().open,
            b.spec_picker().wf(),
    {
        Self::new()
    }
}

/// Moving a time field by `delta` and then by `-delta` gives back the
/// value it had, for the hour (modulus 24) as for the minute (modulus 60).
pub proof fn lemma_adjust_then_back(value: int, delta: int, modulus: int)
    requires
        0 < modulus,
        0 <= value < modulus,
    ensures
        ((value + delta) % modulus + -delta) % modulus == value,
{
    vstd::arithmetic::div_mod::lemma_add_mod_noop(value + delta, -delta, modulus);
    vstd::arithmetic::div_mod::lemma_add_mod_noop_right((value + delta) % modulus, -delta, modulus);
    vstd::arithmetic::div_mod::lemma_mod_twice(value + delta, modulus);
    vstd::arithmetic::div_mod::lemma_small_mod(value as nat, modulus as nat);
}

/// Reported when a picker closes with a date and time.
#[derive(Debug, Clone, Copy, PartialEq, Eq, Structural)]
pub struct DateTimePickerSubmitEvent {
    /// The entity id of the picker.
    pub entity: u64,
    pub date: Date,
    pub hour: u8,
    pub minute: u8,
}

/// Reported when a picker closes without a date and time.
#[derive(Debug, Clone, Copy, PartialEq, Eq, Structural)]
pub struct DateTimePickerCancelEvent {
    /// The entity id of the picker.
    pub entity: u64,
}

/// What an OK or Cancel press produced.
#[derive(Debug, Clone, Copy, PartialEq, Eq, Structural)]
pub enum DateTimePickerOutcome {
    /// Nothing happened.
    Ignored,
    /// The picker closed with a date and time.
    Submitted(DateTimePickerSubmitEvent),
    /// The picker closed without one.
    Cancelled(DateTimePickerCancelEvent),
}

} // verus!
