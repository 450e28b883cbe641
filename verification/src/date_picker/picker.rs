//! The date picker's state and its responses to user actions: month
//! navigation, year and day selection, typed dates, confirm and dismiss,
//! and the calendar grid it shows.
use vstd::prelude::*;
use vstd::string::*;

use crate::locale::{
    date_input_pattern_for_locale, hint_spec, parse_complete_spec, pattern_for_locale_spec,
    DateFieldOrder, DateInputPattern,
};
use crate::text::{
    all_digits, byte_len, digits_of, fmt_int, is_digit, lemma_digits_len, lemma_digits_of_read_back,
    lemma_pad_zeros, lemma_parse_fmt_neg, lemma_parse_fmt_nonneg, lemma_split_three, pad_zeros,
    push_char, push_int, push_str,
};

use super::constraints::{
    lemma_rule_admits, weekday_defined, CalendarConstraints, DateRule, DateValidator,
};
use super::range_selector::{
    range_kept, single_kept, DateSelector, RangeDateSelector, SingleDateSelector,
};
use super::types::{
    add_months_fits, add_months_spec, date_before, date_le, date_lt, date_text, date_valid,
    days_in_month, days_in_month_spec, month_before, month_le, month_lt, month_text,
    weekday_for_date, weekday_index, weekday_of, weekday_pos, Date, DateSelection, Month,
    Weekday,
};

verus! {

/// Whether one date or a range is picked.
#[derive(Debug, Clone, Copy, PartialEq, Eq, Structural)]
pub enum DatePickerMode {
    Single,
    Range,
}

/// Whether dates are picked on a calendar or typed.
#[derive(Debug, Clone, Copy, PartialEq, Eq, Structural)]
pub enum DateInputMode {
    Calendar,
    Text,
}

/// The selector a picker holds: one for each mode.
#[derive(Debug, Clone, Copy, PartialEq, Eq, Structural)]
pub enum PickerSelector {
    Single(SingleDateSelector),
    Range(RangeDateSelector),
}

impl DateSelector for PickerSelector {
    open spec fn current(&self) -> Option<DateSelection> {
        match self {
            PickerSelector::Single(s) => s.current(),
            PickerSelector::Range(r) => r.current(),
        }
    }

    fn selection(&self) -> (r: Option<DateSelection>) {
        match self {
            PickerSelector::Single(s) => s.selection(),
            PickerSelector::Range(r) => r.selection(),
        }
    }

    fn set_selection(&mut self, selection: DateSelection)
        ensures
            final(self).current() == stored_selection(*old(self), selection),
            (*final(self) is Single) <==> (*old(self) is Single),
    {
        match self {
            PickerSelector::Single(s) => s.set_selection(selection),
            PickerSelector::Range(r) => r.set_selection(selection),
        }
    }

    fn clear(&mut self)
        ensures
            (*final(self) is Single) <==> (*old(self) is Single),
    {
        match self {
            PickerSelector::Single(s) => s.clear(),
            PickerSelector::Range(r) => r.clear(),
        }
    }
}

/// What a selector reports after being given `selection`: a single
/// selector keeps one date, a range selector the start and end.
pub open spec fn stored_selection(s: PickerSelector, selection: DateSelection) -> Option<
    DateSelection,
> {
    match s {
        PickerSelector::Single(_) => Some(DateSelection::Single(single_kept(selection))),
        PickerSelector::Range(_) => Some(
            DateSelection::Range { start: range_kept(selection).0->0, end: range_kept(selection).1 },
        ),
    }
}

/// Whether a closed range runs forward (start not after end).
pub open spec fn range_ordered(s: Option<DateSelection>) -> bool {
    match s {
        Some(DateSelection::Range { start, end: Some(e) }) => date_le(start, e),
        _ => true,
    }
}

/// Whether a selection can be submitted: a date, or a range with an end.
pub open spec fn selection_complete(s: DateSelection) -> bool {
    match s {
        DateSelection::Single(_) => true,
        DateSelection::Range { end, .. } => end is Some,
    }
}

/// The state of a Material date picker.
#[derive(Debug)]
pub struct MaterialDatePicker<R> {
    /// Whether the picker is open.
    pub open: bool,
    /// Title text.
    pub title: String,
    /// Single date or range.
    pub mode: DatePickerMode,
    /// Calendar or typed input.
    pub input_mode: DateInputMode,
    /// Holds the current selection.
    pub selector: PickerSelector,
    /// Selectable months and dates.
    pub constraints: CalendarConstraints<R>,
    /// The month the calendar shows.
    pub display_month: Month,
    /// Whether the year grid is shown instead of the calendar.
    pub showing_years: bool,
    /// First column of the calendar.
    pub first_day_of_week: Weekday,
    /// Whether a press outside the dialog dismisses it.
    pub dismiss_on_scrim_click: bool,
    /// Whether Escape dismisses it.
    pub dismiss_on_escape: bool,
}

/// Reported when a picker closes with a selection.
#[derive(Debug, Clone, Copy, PartialEq, Eq, Structural)]
pub struct DatePickerSubmitEvent {
    /// The entity id of the picker.
    pub entity: u64,
    pub selection: DateSelection,
}

/// Reported when a picker closes without a selection.
#[derive(Debug, Clone, Copy, PartialEq, Eq, Structural)]
pub struct DatePickerCancelEvent {
    /// The entity id of the picker.
    pub entity: u64,
}

/// What a confirm or cancel action produced.
#[derive(Debug, Clone, Copy, PartialEq, Eq, Structural)]
pub enum PickerOutcome {
    /// Nothing happened.
    Ignored,
    /// The picker closed with a selection.
    Submitted(DatePickerSubmitEvent),
    /// The picker closed without a selection.
    Cancelled(DatePickerCancelEvent),
}

/// What happens to a text field's error state.
#[derive(Debug, Clone, Copy, PartialEq, Eq)]
pub enum FieldError {
    /// Left as it was.
    Keep,
    /// Error flag and text cleared.
    Clear,
    /// Error flag set, with this text.
    Show(&'static str),
}

/// How a date cell is drawn.
#[derive(Debug, Clone, Copy, PartialEq, Eq, Structural)]
pub enum DayCellStyle {
    /// Not selectable.
    Disabled,
    /// The picked date, or an end of the picked range.
    Selected,
    /// Strictly inside the picked range.
    InRange,
    /// Today's date.
    Today,
    /// Any other selectable date.
    Normal,
}

/// The text a picker shows for its selection.
pub open spec fn selection_label_spec(s: Option<DateSelection>) -> Seq<char> {
    match s {
        Some(DateSelection::Single(d)) => date_text(d),
        Some(DateSelection::Range { start, end: Some(e) }) => date_text(start) + " - "@ + date_text(
            e,
        ),
        Some(DateSelection::Range { start, end: None }) => date_text(start) + " - ..."@,
        None => "Select date"@,
    }
}

/// A date typed in a pattern, e.g. "03/14/2024".
pub open spec fn pattern_text(date: Date, p: DateInputPattern) -> Seq<char> {
    let s = seq![p.separator];
    match p.order {
        DateFieldOrder::Mdy => fmt_int(date.month as int, 2) + s + fmt_int(date.day as int, 2) + s
            + fmt_int(date.year as int, 4),
        DateFieldOrder::Dmy => fmt_int(date.day as int, 2) + s + fmt_int(date.month as int, 2) + s
            + fmt_int(date.year as int, 4),
        DateFieldOrder::Ymd => fmt_int(date.year as int, 4) + s + fmt_int(date.month as int, 2) + s
            + fmt_int(date.day as int, 2),
    }
}

/// A field of a typed date: digits, possibly after a minus sign.
spec fn field_chars_ok(t: Seq<char>, sep: char) -> bool {
    forall|i: int|
        0 <= i < t.len() ==> (#[trigger] is_digit(t[i]) || (t[i] == '-' && sep != '-')) && t[i]
            != sep && (t[i] as u32) < 128
}

proof fn lemma_field_nonneg(n: int, width: int, sep: char)
    requires
        0 <= n < 10000,
        n < 100 || width == 4,
        width == 2 || width == 4,
        !is_digit(sep),
    ensures
        fmt_int(n, width).len() == width,
        field_chars_ok(fmt_int(n, width), sep),
{
    lemma_digits_len(n as nat);
    lemma_digits_of_read_back(n as nat);
    lemma_pad_zeros(digits_of(n as nat), width);
    let t = fmt_int(n, width);
    assert forall|i: int| 0 <= i < t.len() implies (#[trigger] is_digit(t[i]) || (t[i] == '-'
        && sep != '-')) && t[i] != sep && (t[i] as u32) < 128 by {
        assert(is_digit(t[i]));
    }
}

proof fn lemma_field_neg(n: int, sep: char)
    requires
        -999 <= n < 0,
        sep != '-',
        !is_digit(sep),
    ensures
        fmt_int(n, 4).len() == 4,
        field_chars_ok(fmt_int(n, 4), sep),
{
    lemma_digits_len((-n) as nat);
    lemma_digits_of_read_back((-n) as nat);
    let d = digits_of((-n) as nat);
    lemma_pad_zeros(d, 3);
    let t = fmt_int(n, 4);
    let body = pad_zeros(d, 3);
    assert(t == seq!['-'] + body);
    assert forall|i: int| 0 <= i < t.len() implies (#[trigger] is_digit(t[i]) || (t[i] == '-'
        && sep != '-')) && t[i] != sep && (t[i] as u32) < 128 by {
        if i > 0 {
            assert(t[i] == body[i - 1]);
            assert(is_digit(body[i - 1]));
        }
    }
}

/// A valid date written in a pattern and read back in that pattern is
/// the same date, where its year has at most four digits (at most three
/// after a minus sign, and then the separator is not a minus sign) and
/// the separator is an ASCII character other than a digit.
pub proof fn lemma_format_then_parse(date: Date, p: DateInputPattern)
    requires
        date_valid(date),
        -999 <= date.year <= 9999,
        date.year < 0 ==> p.separator != '-',
        (p.separator as u32) < 128,
        !is_digit(p.separator),
    ensures
        parse_date_spec(p, byte_len(pattern_text(date, p)) as int, pattern_text(date, p)) == Some(
            date,
        ),
{
    let sep = p.separator;
    let m = fmt_int(date.month as int, 2);
    let d = fmt_int(date.day as int, 2);
    let y = fmt_int(date.year as int, 4);
    lemma_field_nonneg(date.month as int, 2, sep);
    lemma_field_nonneg(date.day as int, 2, sep);
    if date.year >= 0 {
        lemma_field_nonneg(date.year as int, 4, sep);
        lemma_parse_fmt_nonneg(date.year as int, 4, i32::MIN as int, i32::MAX as int);
    } else {
        lemma_field_neg(date.year as int, sep);
        lemma_parse_fmt_neg(date.year as int, 4, i32::MIN as int, i32::MAX as int);
    }
    lemma_parse_fmt_nonneg(date.month as int, 2, 0, 255);
    lemma_parse_fmt_nonneg(date.day as int, 2, 0, 255);
    let s = seq![sep];
    let (a, b, c) = match p.order {
        DateFieldOrder::Mdy => (m, d, y),
        DateFieldOrder::Dmy => (d, m, y),
        DateFieldOrder::Ymd => (y, m, d),
    };
    let t = pattern_text(date, p);
    assert(t == a + s + b + s + c);
    assert(forall|i: int| 0 <= i < a.len() ==> a[i] != sep) by {
        assert forall|i: int| 0 <= i < a.len() implies a[i] != sep by {
            assert(field_chars_ok(a, sep));
            assert(is_digit(a[i]) || a[i] == '-');
        }
    }
    assert(forall|i: int| 0 <= i < b.len() ==> b[i] != sep) by {
        assert forall|i: int| 0 <= i < b.len() implies b[i] != sep by {
            assert(field_chars_ok(b, sep));
            assert(is_digit(b[i]) || b[i] == '-');
        }
    }
    assert(forall|i: int| 0 <= i < c.len() ==> c[i] != sep) by {
        assert forall|i: int| 0 <= i < c.len() implies c[i] != sep by {
            assert(field_chars_ok(c, sep));
            assert(is_digit(c[i]) || c[i] == '-');
        }
    }
    lemma_split_three(a, b, c, sep);
    assert(t.len() == 10);
    assert(vstd::utf8::is_ascii_chars(t)) by {
        assert forall|i: int| 0 <= i < t.len() implies '\0' <= #[trigger] t[i] <= '\u{7f}' by {
            if i < a.len() {
                assert(t[i] == a[i]);
                assert(field_chars_ok(a, sep));
                assert(is_digit(a[i]) || a[i] == '-');
            } else if i == a.len() {
                assert(t[i] == sep);
            } else if i < a.len() + 1 + b.len() {
                assert(t[i] == b[i - a.len() - 1]);
                assert(field_chars_ok(b, sep));
                assert(is_digit(b[i - a.len() - 1]) || b[i - a.len() - 1] == '-');
            } else if i == a.len() + 1 + b.len() {
                assert(t[i] == sep);
            } else {
                assert(t[i] == c[i - a.len() - 2 - b.len()]);
                assert(field_chars_ok(c, sep));
                assert(is_digit(c[i - a.len() - 2 - b.len()]) || c[i - a.len() - 2 - b.len()] == '-');
            }
        }
    }
    vstd::utf8::is_ascii_chars_encode_utf8(t);
    assert(byte_len(t) == 10);
}

/// The valid date a complete typed text names.
pub open spec fn parse_date_spec(p: DateInputPattern, byte_len: int, input: Seq<char>) -> Option<
    Date,
> {
    if input.len() == 0 || byte_len != 10 {
        None
    } else {
        match parse_complete_spec(p, byte_len, input) {
            Some((y, m, d)) => {
                let date = Date { year: y, month: m, day: d };
                if date_valid(date) {
                    Some(date)
                } else {
                    None
                }
            },
            None => None,
        }
    }
}

/// The valid date named by complete typed text, if any.
pub fn try_parse_complete_date(input: &str, pattern: DateInputPattern) -> (r: Option<Date>)
    ensures
        r == parse_date_spec(pattern, input.len() as int, input@),
{
    if input.is_empty() {
        return None;
    }
    if input.len() != pattern.formatted_len() {
        return None;
    }
    let (year, month, day) = match pattern.try_parse_complete(input) {
        Some(t) => t,
        None => return None,
    };
    let date = Date::new(year, month, day);
    if date.is_valid() {
        Some(date)
    } else {
        None
    }
}

/// A date written in a pattern.
pub fn format_date_for_pattern(date: Date, pattern: DateInputPattern) -> (s: String)
    ensures
        s@ == pattern_text(date, pattern),
{
    let sep = pattern.separator;
    let mut s = String::new();
    match pattern.order {
        DateFieldOrder::Mdy => {
            push_int(&mut s, date.month as i32, 2);
            push_char(&mut s, sep);
            push_int(&mut s, date.day as i32, 2);
            push_char(&mut s, sep);
            push_int(&mut s, date.year, 4);
        },
        DateFieldOrder::Dmy => {
            push_int(&mut s, date.day as i32, 2);
            push_char(&mut s, sep);
            push_int(&mut s, date.month as i32, 2);
            push_char(&mut s, sep);
            push_int(&mut s, date.year, 4);
        },
        DateFieldOrder::Ymd => {
            push_int(&mut s, date.year, 4);
            push_char(&mut s, sep);
            push_int(&mut s, date.month as i32, 2);
            push_char(&mut s, sep);
            push_int(&mut s, date.day as i32, 2);
        },
    }
    proof {
        assert(s@ =~= pattern_text(date, pattern));
    }
    s
}

/// The pattern for a picker: its own locale override if it has one,
/// otherwise the global locale.
pub fn resolve_date_input_pattern(override_tag: Option<&str>, locale_tag: &str) -> (p:
    DateInputPattern)
    ensures
        p == match override_tag {
            Some(t) => pattern_for_locale_spec(t@),
            None => pattern_for_locale_spec(locale_tag@),
        },
{
    match override_tag {
        Some(t) => date_input_pattern_for_locale(t),
        None => date_input_pattern_for_locale(locale_tag),
    }
}

/// The calendar column of day 1: how many cells precede it.
pub open spec fn grid_offset(month: Month, first: Weekday) -> int {
    (weekday_pos(weekday_of(Date { year: month.year, month: month.month, day: 1 })) - weekday_pos(
        first,
    ) + 7) % 7
}

/// The day number in cell `i` of the six-week grid, if the cell holds one.
pub open spec fn grid_cell(month: Month, first: Weekday, i: int) -> Option<u8> {
    let day_offset = i - grid_offset(month, first);
    if 0 <= day_offset < days_in_month_spec(month.year as int, month.month as int) {
        Some((day_offset + 1) as u8)
    } else {
        None
    }
}

/// Number of cells before day 1 in a calendar starting on `first`.
pub fn calendar_offset(month: Month, first: Weekday) -> (offset: i32)
    requires
        weekday_defined(Date { year: month.year, month: month.month, day: 1 }),
    ensures
        offset as int == grid_offset(month, first),
        0 <= offset < 7,
{
    let first_day = month.first_day();
    let first_weekday = weekday_for_date(first_day);
    let first_weekday_index = weekday_index(first_weekday);
    let first_day_of_week_index = weekday_index(first);
    (first_weekday_index - first_day_of_week_index + 7) % 7
}

/// The six-week grid of a month: 42 cells, each empty or holding a day.
/// Day `d` sits in cell `offset + d - 1`, so every day of the month
/// appears exactly once and in order.
pub fn calendar_days(month: Month, first: Weekday) -> (cells: Vec<Option<u8>>)
    requires
        weekday_defined(Date { year: month.year, month: month.month, day: 1 }),
    ensures
        cells@.len() == 42,
        forall|i: int| 0 <= i < 42 ==> #[trigger] cells@[i] == grid_cell(month, first, i),
        grid_offset(month, first) + days_in_month_spec(month.year as int, month.month as int)
            <= 42,
{
    let offset = calendar_offset(month, first);
    let dim = days_in_month(month.year, month.month) as i32;
    let mut cells: Vec<Option<u8>> = Vec::new();
    let mut cell_idx: i32 = 0;
    while cell_idx < 42
        invariant
            0 <= cell_idx <= 42,
            offset as int == grid_offset(month, first),
            0 <= offset < 7,
            dim as int == days_in_month_spec(month.year as int, month.month as int),
            28 <= dim <= 31,
            cells@.len() == cell_idx,
            forall|i: int| 0 <= i < cell_idx ==> #[trigger] cells@[i] == grid_cell(month, first, i),
        decreases 42 - cell_idx,
    {
        let day_offset = cell_idx - offset;
        if day_offset >= 0 && day_offset < dim {
            cells.push(Some((day_offset + 1) as u8));
        } else {
            cells.push(None);
        }
        cell_idx = cell_idx + 1;
    }
    cells
}

/// Day `d` of the month is in cell `offset + d - 1` of the grid.
pub proof fn lemma_calendar_places_day(month: Month, first: Weekday, d: int)
    requires
        1 <= d <= days_in_month_spec(month.year as int, month.month as int),
        0 <= grid_offset(month, first) < 7,
    ensures
        grid_cell(month, first, grid_offset(month, first) + d - 1) == Some(d as u8),
        0 <= grid_offset(month, first) + d - 1 < 42,
{
}

/// The years the year grid lists: `start..=end`.
pub fn year_range(start: i32, end: i32) -> (years: Vec<i32>)
    ensures
        years@.len() == if start <= end { end - start + 1 } else { 0 },
        forall|i: int| 0 <= i < years@.len() ==> #[trigger] years@[i] == start + i,
{
    let mut years: Vec<i32> = Vec::new();
    if start > end {
        return years;
    }
    let mut y: i64 = start as i64;
    while y <= end as i64
        invariant
            start <= end,
            start as i64 <= y <= end as i64 + 1,
            years@.len() == y - start,
            forall|i: int| 0 <= i < years@.len() ==> #[trigger] years@[i] == start + i,
        decreases end as i64 + 1 - y,
    {
        years.push(y as i32);
        y = y + 1;
    }
    years
}

/// Localization of a picker: an optional translation key for the title.
#[derive(Debug, Clone, PartialEq, Eq, Default)]
pub struct DatePickerLocalization {
    pub title_key: Option<String>,
}

impl DatePickerLocalization {
    pub fn title_key(self, key: &str) -> (l: Self)
        ensures
            l.title_key matches Some(k) && k@ == key@,
    {
        let mut this = self;
        this.title_key = Some(String::from_str(key));
        this
    }
}

/// Whether a picker's month may be shown: within the constraints' months.
pub open spec fn month_in_bounds<R>(c: &CalendarConstraints<R>, m: Month) -> bool {
    month_le(c.start, m) && month_le(m, c.end)
}

/// The month a picker shows after navigating by `delta`: moved, then
/// pulled up to the first month and down to the last.
pub open spec fn navigated_month<R>(c: &CalendarConstraints<R>, m: Month, delta: int) -> Month {
    let moved = add_months_spec(m, delta);
    let raised = if month_lt(moved, c.start) {
        c.start
    } else {
        moved
    };
    if month_lt(c.end, raised) {
        c.end
    } else {
        raised
    }
}

/// The selection a calendar press on `date` makes in range mode: a press
/// completes an open range (swapping ends if it lies before the start);
/// otherwise it starts a new range.
pub open spec fn range_press(current: Option<DateSelection>, date: Date) -> DateSelection {
    match current {
        Some(DateSelection::Range { start, end: None }) => if date_lt(date, start) {
            DateSelection::Range { start: date, end: Some(start) }
        } else {
            DateSelection::Range { start, end: Some(date) }
        },
        _ => DateSelection::Range { start: date, end: None },
    }
}

impl<R: DateValidator> MaterialDatePicker<R> {
    /// The current selection.
    pub fn selection(&self) -> (r: Option<DateSelection>)
        ensures
            r == self.selector.current(),
    {
        self.selector.selection()
    }

    /// Escape pressed: closes the picker `entity` when it is open and
    /// dismissable; returns the cancellation to report where it closed.
    pub fn press_escape(&mut self, entity: u64) -> (cancelled: Option<DatePickerCancelEvent>)
        ensures
            *final(self) == (MaterialDatePicker { open: final(self).open, ..*old(self) }),
            cancelled == (if old(self).open && old(self).dismiss_on_escape {
                Some(DatePickerCancelEvent { entity: entity })
            } else {
                None
            }),
            final(self).open == (old(self).open && cancelled is None),
            final(self).selector == old(self).selector,
            final(self).display_month == old(self).display_month,
    {
        if self.open && self.dismiss_on_escape {
            self.open = false;
            Some(DatePickerCancelEvent { entity })
        } else {
            None
        }
    }

    /// The area outside the dialog of the picker `entity` pressed: closes
    /// it when it is open and dismissable; returns the cancellation to
    /// report where it closed.
    pub fn press_scrim(&mut self, entity: u64) -> (cancelled: Option<DatePickerCancelEvent>)
        ensures
            *final(self) == (MaterialDatePicker { open: final(self).open, ..*old(self) }),
            cancelled == (if old(self).open && old(self).dismiss_on_scrim_click {
                Some(DatePickerCancelEvent { entity: entity })
            } else {
                None
            }),
            final(self).open == (old(self).open && cancelled is None),
            final(self).selector == old(self).selector,
            final(self).display_month == old(self).display_month,
    {
        if self.open && self.dismiss_on_scrim_click {
            self.open = false;
            Some(DatePickerCancelEvent { entity })
        } else {
            None
        }
    }

    /// Confirm or cancel of the picker `entity` pressed. Cancel closes an
    /// open picker; confirm closes it and submits the selection only when
    /// there is a complete one.
    pub fn press_action(&mut self, entity: u64, is_confirm: bool) -> (outcome: PickerOutcome)
        ensures
            *final(self) == (MaterialDatePicker { open: final(self).open, ..*old(self) }),
            !old(self).open ==> outcome == PickerOutcome::Ignored,
            old(self).open && !is_confirm ==> outcome == PickerOutcome::Cancelled(
                DatePickerCancelEvent { entity: entity },
            ),
            old(self).open && is_confirm ==> outcome == match old(self).selector.current() {
                Some(s) => if selection_complete(s) {
                    PickerOutcome::Submitted(DatePickerSubmitEvent { entity: entity, selection: s })
                } else {
                    PickerOutcome::Ignored
                },
                None => PickerOutcome::Ignored,
            },
            final(self).open == (old(self).open && outcome == PickerOutcome::Ignored),
            final(self).selector == old(self).selector,
    {
        if !self.open {
            return PickerOutcome::Ignored;
        }
        if is_confirm {
            if let Some(selection) = self.selector.selection() {
                let is_complete = match &selection {
                    DateSelection::Single(_) => true,
                    DateSelection::Range { end, .. } => end.is_some(),
                };
                if !is_complete {
                    return PickerOutcome::Ignored;
                }
                self.open = false;
                PickerOutcome::Submitted(DatePickerSubmitEvent { entity, selection })
            } else {
                PickerOutcome::Ignored
            }
        } else {
            self.open = false;
            PickerOutcome::Cancelled(DatePickerCancelEvent { entity })
        }
    }

    /// The calendar/text toggle pressed: switches input mode of an open
    /// picker; leaving the calendar hides the year grid.
    pub fn toggle_input_mode(&mut self)
        ensures
            *final(self) == (MaterialDatePicker { input_mode: final(self).input_mode, showing_years: final(self).showing_years, ..*old(self) }),
            final(self).input_mode == if old(self).open {
                match old(self).input_mode {
                    DateInputMode::Calendar => DateInputMode::Text,
                    DateInputMode::Text => DateInputMode::Calendar,
                }
            } else {
                old(self).input_mode
            },
            final(self).showing_years == (old(self).showing_years && !(old(self).open
                && old(self).input_mode == DateInputMode::Calendar)),
            final(self).open == old(self).open,
            final(self).selector == old(self).selector,
            final(self).display_month == old(self).display_month,
    {
        if !self.open {
            return;
        }
        self.input_mode = match self.input_mode {
            DateInputMode::Calendar => DateInputMode::Text,
            DateInputMode::Text => DateInputMode::Calendar,
        };
        if self.input_mode != DateInputMode::Calendar {
            self.showing_years = false;
        }
    }

    /// A month arrow pressed: in an open calendar without the year grid,
    /// moves the shown month by `delta` and keeps it within the
    /// constraints' months.
    pub fn navigate_months(&mut self, delta: i32)
        requires
            add_months_fits(old(self).display_month, delta as int),
        ensures
            *final(self) == (MaterialDatePicker { display_month: final(self).display_month, ..*old(self) }),
            final(self).display_month == if old(self).open && old(self).input_mode
                == DateInputMode::Calendar && !old(self).showing_years {
                navigated_month(&old(self).constraints, old(self).display_month, delta as int)
            } else {
                old(self).display_month
            },
            final(self).open == old(self).open,
            final(self).selector == old(self).selector,
            final(self).showing_years == old(self).showing_years,
            final(self).input_mode == old(self).input_mode,
    {
        if self.open && self.input_mode == DateInputMode::Calendar && !self.showing_years {
            self.display_month = self.display_month.add_months(delta);
            if month_before(self.display_month, self.constraints.start) {
                self.display_month = self.constraints.start;
            }
            if month_before(self.constraints.end, self.display_month) {
                self.display_month = self.constraints.end;
            }
        }
    }

    /// The month/year header pressed: shows or hides the year grid of an
    /// open calendar.
    pub fn toggle_year_selector(&mut self)
        ensures
            *final(self) == (MaterialDatePicker { showing_years: final(self).showing_years, ..*old(self) }),
            final(self).showing_years == if old(self).open && old(self).input_mode
                == DateInputMode::Calendar {
                !old(self).showing_years
            } else {
                old(self).showing_years
            },
            final(self).open == old(self).open,
            final(self).selector == old(self).selector,
            final(self).display_month == old(self).display_month,
            final(self).input_mode == old(self).input_mode,
    {
        if self.open && self.input_mode == DateInputMode::Calendar {
            self.showing_years = !self.showing_years;
        }
    }

    /// A year pressed in the year grid: shows that year (same month) and
    /// returns to the calendar.
    pub fn select_year(&mut self, year: i32)
        ensures
            *final(self) == (MaterialDatePicker { display_month: final(self).display_month, showing_years: final(self).showing_years, ..*old(self) }),
            old(self).open && old(self).showing_years ==> final(self).display_month == (Month {
                year,
                month: old(self).display_month.month,
            }) && !final(self).showing_years,
            !(old(self).open && old(self).showing_years) ==> final(self).display_month == old(self).display_month && final(self).showing_years == old(self).showing_years,
            final(self).open == old(self).open,
            final(self).selector == old(self).selector,
            final(self).input_mode == old(self).input_mode,
    {
        if self.open && self.showing_years {
            self.display_month = Month::new(year, self.display_month.month);
            self.showing_years = false;
        }
    }

    /// A day pressed in the calendar. Dates the rule rejects are ignored;
    /// in single mode the date becomes the selection; in range mode see
    /// `range_press`.
    pub fn select_day(&mut self, date: Date)
        requires
            old(self).constraints.validator.admits(date),
        ensures
            *final(self) == (MaterialDatePicker { selector: final(self).selector, ..*old(self) }),
            ({
                let applies = old(self).open && !old(self).showing_years && old(self).input_mode
                    == DateInputMode::Calendar && old(self).constraints.validator.accepts(date);
                if applies {
                    final(self).selector.current() == stored_selection(
                        old(self).selector,
                        match old(self).mode {
                            DatePickerMode::Single => DateSelection::Single(date),
                            DatePickerMode::Range => range_press(
                                old(self).selector.current(),
                                date,
                            ),
                        },
                    )
                } else {
                    final(self).selector == old(self).selector
                }
            }),
            final(self).open == old(self).open,
            final(self).display_month == old(self).display_month,
            final(self).mode == old(self).mode,
            final(self).constraints == old(self).constraints,
            final(self).selector is Single <==> old(self).selector is Single,
    {
        if !(self.open && !self.showing_years && self.input_mode == DateInputMode::Calendar) {
            return;
        }
        if !self.constraints.validator.is_valid(date) {
            return;
        }
        let current = self.selector.selection();
        match self.mode {
            DatePickerMode::Single => {
                self.selector.set_selection(DateSelection::Single(date));
            },
            DatePickerMode::Range => {
                match current {
                    Some(DateSelection::Range { start, end: None }) => {
                        if !date_before(date, start) {
                            self.selector.set_selection(
                                DateSelection::Range { start, end: Some(date) },
                            );
                        } else {
                            self.selector.set_selection(
                                DateSelection::Range { start: date, end: Some(start) },
                            );
                        }
                    },
                    _ => {
                        self.selector.set_selection(DateSelection::Range { start: date, end: None });
                    },
                }
            },
        }
    }

    /// The typed date of a single-date picker changed. Incomplete or
    /// unparsable text clears the selection; a date the rule rejects sets
    /// an error and clears it; a valid one becomes the selection and the
    /// calendar moves to its month.
    pub fn apply_single_text(&mut self, value: &str, pattern: DateInputPattern) -> (err:
        FieldError)
        requires
            match parse_date_spec(pattern, value.len() as int, value@) {
                Some(d) => old(self).constraints.validator.admits(d),
                None => true,
            },
        ensures
            *final(self) == (MaterialDatePicker { selector: final(self).selector, display_month: final(self).display_month, showing_years: final(self).showing_years, ..*old(self) }),
            ({
                let parsed = parse_date_spec(pattern, value.len() as int, value@);
                if !(old(self).open && old(self).input_mode == DateInputMode::Text && old(self).mode == DatePickerMode::Single) {
                    err == FieldError::Keep && final(self).selector == old(self).selector
                        && final(self).display_month == old(self).display_month
                } else if value@.len() == 0 || value.len() < 10 || parsed is None {
                    err == FieldError::Keep && final(self).selector.current() is None
                        && final(self).display_month == old(self).display_month
                } else if !old(self).constraints.validator.accepts(parsed->0) {
                    err == FieldError::Show("Date is outside allowed range")
                        && final(self).selector.current() is None && final(self).display_month
                        == old(self).display_month
                } else {
                    let d = parsed->0;
                    &&& err == FieldError::Clear
                    &&& final(self).selector.current() == stored_selection(
                        old(self).selector,
                        DateSelection::Single(d),
                    )
                    &&& final(self).display_month == (Month { year: d.year, month: d.month })
                    &&& !final(self).showing_years
                }
            }),
            final(self).open == old(self).open,
            final(self).mode == old(self).mode,
            final(self).constraints == old(self).constraints,
            final(self).selector is Single <==> old(self).selector is Single,
    {
        if !self.open || self.input_mode != DateInputMode::Text {
            return FieldError::Keep;
        }
        match self.mode {
            DatePickerMode::Single => {},
            DatePickerMode::Range => {
                return FieldError::Keep;
            },
        }
        if value.is_empty() || value.len() < pattern.formatted_len() {
            self.selector.clear();
            return FieldError::Keep;
        }
        let date = match try_parse_complete_date(value, pattern) {
            Some(d) => d,
            None => {
                self.selector.clear();
                return FieldError::Keep;
            },
        };
        if !self.constraints.validator.is_valid(date) {
            self.selector.clear();
            return FieldError::Show("Date is outside allowed range");
        }
        let selection = DateSelection::Single(date);
        self.selector.set_selection(selection);
        self.display_month = Month::new(date.year, date.month);
        self.showing_years = false;
        FieldError::Clear
    }

    /// The typed start or end of a range picker changed. Returns what
    /// happens to the start and end fields' errors. While either is
    /// incomplete the selection is cleared (and an incomplete field's
    /// error too); unparsable text clears it; a date the rule rejects, or
    /// an end before the start, marks both fields; otherwise the range
    /// becomes the selection and the calendar moves to its start month.
    pub fn apply_range_text(
        &mut self,
        start_value: &str,
        end_value: &str,
        pattern: DateInputPattern,
    ) -> (errs: (FieldError, FieldError))
        requires
            match parse_date_spec(pattern, start_value.len() as int, start_value@) {
                Some(d) => old(self).constraints.validator.admits(d),
                None => true,
            },
            match parse_date_spec(pattern, end_value.len() as int, end_value@) {
                Some(d) => old(self).constraints.validator.admits(d),
                None => true,
            },
        ensures
            *final(self) == (MaterialDatePicker { selector: final(self).selector, display_month: final(self).display_month, showing_years: final(self).showing_years, ..*old(self) }),
            ({
                let ps = parse_date_spec(pattern, start_value.len() as int, start_value@);
                let pe = parse_date_spec(pattern, end_value.len() as int, end_value@);
                let start_complete = start_value.len() >= 10;
                let end_complete = end_value.len() >= 10;
                let v = old(self).constraints.validator;
                if !(old(self).open && old(self).input_mode == DateInputMode::Text && old(self).mode == DatePickerMode::Range) {
                    errs == (FieldError::Keep, FieldError::Keep) && final(self).selector == old(self).selector && final(self).display_month == old(self).display_month
                } else if !(start_complete && end_complete) {
                    &&& errs.0 == if start_complete {
                        FieldError::Keep
                    } else {
                        FieldError::Clear
                    }
                    &&& errs.1 == if end_complete {
                        FieldError::Keep
                    } else {
                        FieldError::Clear
                    }
                    &&& final(self).selector.current() is None
                    &&& final(self).display_month == old(self).display_month
                } else if ps is None || pe is None {
                    errs == (FieldError::Keep, FieldError::Keep) && final(self).selector.current() is None && final(self).display_month == old(self).display_month
                } else if !v.accepts(ps->0) || !v.accepts(pe->0) {
                    errs == (
                        FieldError::Show("Date is outside allowed range"),
                        FieldError::Show("Date is outside allowed range"),
                    ) && final(self).selector.current() is None && final(self).display_month
                        == old(self).display_month
                } else if date_lt(pe->0, ps->0) {
                    errs == (FieldError::Show("Invalid range"), FieldError::Show(" ")) && final(self).selector.current() is None && final(self).display_month == old(self).display_month
                } else {
                    &&& errs == (FieldError::Clear, FieldError::Clear)
                    &&& final(self).selector.current() == stored_selection(
                        old(self).selector,
                        DateSelection::Range { start: ps->0, end: Some(pe->0) },
                    )
                    &&& final(self).display_month == (Month {
                        year: ps->0.year,
                        month: ps->0.month,
                    })
                    &&& !final(self).showing_years
                }
            }),
            final(self).open == old(self).open,
            final(self).mode == old(self).mode,
            final(self).constraints == old(self).constraints,
            final(self).selector is Single <==> old(self).selector is Single,
    {
        if !self.open || self.input_mode != DateInputMode::Text {
            return (FieldError::Keep, FieldError::Keep);
        }
        match self.mode {
            DatePickerMode::Range => {},
            DatePickerMode::Single => {
                return (FieldError::Keep, FieldError::Keep);
            },
        }
        let start_complete = start_value.len() >= pattern.formatted_len();
        let end_complete = end_value.len() >= pattern.formatted_len();
        let start_err = if start_value.is_empty() || !start_complete {
            FieldError::Clear
        } else {
            FieldError::Keep
        };
        let end_err = if end_value.is_empty() || !end_complete {
            FieldError::Clear
        } else {
            FieldError::Keep
        };
        if !(start_complete && end_complete) {
            self.selector.clear();
            return (start_err, end_err);
        }
        let start_date = try_parse_complete_date(start_value, pattern);
        let end_date = try_parse_complete_date(end_value, pattern);
        let (start_date, end_date) = match (start_date, end_date) {
            (Some(s), Some(e)) => (s, e),
            _ => {
                self.selector.clear();
                return (start_err, end_err);
            },
        };
        if !self.constraints.validator.is_valid(start_date) || !self.constraints.validator.is_valid(
            end_date,
        ) {
            self.selector.clear();
            return (
                FieldError::Show("Date is outside allowed range"),
                FieldError::Show("Date is outside allowed range"),
            );
        }
        if date_before(end_date, start_date) {
            self.selector.clear();
            return (FieldError::Show("Invalid range"), FieldError::Show(" "));
        }
        self.selector.set_selection(DateSelection::Range { start: start_date, end: Some(end_date) });
        self.display_month = Month::new(start_date.year, start_date.month);
        self.showing_years = false;
        (FieldError::Clear, FieldError::Clear)
    }

    /// Whether the calendar view is shown.
    pub fn calendar_view_visible(&self) -> (r: bool)
        ensures
            r == (self.input_mode == DateInputMode::Calendar && !self.showing_years),
    {
        self.input_mode == DateInputMode::Calendar && !self.showing_years
    }

    /// Whether the year grid is shown.
    pub fn year_view_visible(&self) -> (r: bool)
        ensures
            r == self.showing_years,
    {
        self.showing_years
    }

    /// Whether the typed-input view is shown.
    pub fn text_view_visible(&self) -> (r: bool)
        ensures
            r == (self.input_mode == DateInputMode::Text),
    {
        self.input_mode == DateInputMode::Text
    }

    /// The header text for the selection: "YYYY-MM-DD", "start - end",
    /// "start - ..." or "Select date".
    pub fn selection_label(&self) -> (s: String)
        ensures
            s@ == selection_label_spec(self.selector.current()),
    {
        let selection = self.selector.selection();
        let mut s = String::new();
        match selection {
            Some(DateSelection::Single(date)) => {
                let t = date.to_string();
                push_str(&mut s, t.as_str());
            },
            Some(DateSelection::Range { start, end: Some(end) }) => {
                let a = start.to_string();
                let b = end.to_string();
                push_str(&mut s, a.as_str());
                push_str(&mut s, " - ");
                push_str(&mut s, b.as_str());
            },
            Some(DateSelection::Range { start, end: None }) => {
                let a = start.to_string();
                push_str(&mut s, a.as_str());
                push_str(&mut s, " - ...");
            },
            None => {
                push_str(&mut s, "Select date");
            },
        }
        proof {
            assert(s@ =~= selection_label_spec(self.selector.current()));
        }
        s
    }

    /// How the cell for `date` is drawn: rejected dates disabled, then
    /// selected ends, then dates inside the range, then today.
    pub fn day_cell_style(&self, date: Date, today: Date) -> (style: DayCellStyle)
        requires
            self.constraints.validator.admits(date),
        ensures
            style == if !self.constraints.validator.accepts(date) {
                DayCellStyle::Disabled
            } else if match self.selector.current() {
                Some(DateSelection::Single(s)) => date == s,
                Some(DateSelection::Range { start, end }) => date == start || end == Some(date),
                None => false,
            } {
                DayCellStyle::Selected
            } else if match self.selector.current() {
                Some(DateSelection::Range { start, end: Some(e) }) => date_lt(start, date)
                    && date_lt(date, e),
                _ => false,
            } {
                DayCellStyle::InRange
            } else if date == today {
                DayCellStyle::Today
            } else {
                DayCellStyle::Normal
            },
    {
        let is_valid = self.constraints.validator.is_valid(date);
        if !is_valid {
            return DayCellStyle::Disabled;
        }
        let selection = self.selector.selection();
        let is_selected = match selection {
            Some(DateSelection::Single(selected)) => date == selected,
            Some(DateSelection::Range { start, end }) => date == start || end == Some(date),
            None => false,
        };
        if is_selected {
            return DayCellStyle::Selected;
        }
        let in_range = match selection {
            Some(DateSelection::Range { start, end: Some(end) }) => date_before(start, date)
                && date_before(date, end),
            _ => false,
        };
        if in_range {
            DayCellStyle::InRange
        } else if date == today {
            DayCellStyle::Today
        } else {
            DayCellStyle::Normal
        }
    }
}

/// A calendar press keeps closed ranges running forward: if the range held
/// by a range selector runs forward before the press, it does after.
pub proof fn lemma_range_press_ordered(current: Option<DateSelection>, date: Date)
    ensures
        range_ordered(Some(range_press(current, date))),
{
}

/// Two calendar presses in range mode make a closed range from the
/// earlier pressed date to the later, whichever order they come in: the
/// first press (with no open range held) opens a range at its date, and
/// the second closes it, covering both dates. `after_first` is the
/// selector as the first press leaves it.
pub proof fn lemma_two_presses_close_range(
    sel: PickerSelector,
    after_first: PickerSelector,
    a: Date,
    b: Date,
)
    requires
        sel is Range,
        after_first is Range,
        !(sel.current() matches Some(DateSelection::Range { end: None, .. })),
        after_first.current() == stored_selection(sel, range_press(sel.current(), a)),
    ensures
        after_first.current() == Some(DateSelection::Range { start: a, end: None }),
        ({
            let (lo, hi) = if date_le(a, b) {
                (a, b)
            } else {
                (b, a)
            };
            stored_selection(after_first, range_press(after_first.current(), b)) == Some(
                DateSelection::Range { start: lo, end: Some(hi) },
            )
        }),
        match stored_selection(after_first, range_press(after_first.current(), b)) {
            Some(DateSelection::Range { start, end: Some(end) }) => date_le(start, a) && date_le(
                a,
                end,
            ) && date_le(start, b) && date_le(b, end),
            _ => false,
        },
{
}

/// Navigation never leaves the constraints' months, provided the first
/// selectable month is not after the last.
pub proof fn lemma_navigation_in_bounds<R>(c: &CalendarConstraints<R>, m: Month, delta: int)
    requires
        month_le(c.start, c.end),
    ensures
        month_in_bounds(c, navigated_month(c, m, delta)),
{
}

/// The text field contents for a selection in a pattern: the single date,
/// and the range start and end (empty where absent).
pub open spec fn field_values_spec(s: Option<DateSelection>, p: DateInputPattern) -> (
    Seq<char>,
    Seq<char>,
    Seq<char>,
) {
    (
        match s {
            Some(DateSelection::Single(d)) => pattern_text(d, p),
            _ => Seq::empty(),
        },
        match s {
            Some(DateSelection::Range { start, .. }) => pattern_text(start, p),
            _ => Seq::empty(),
        },
        match s {
            Some(DateSelection::Range { end: Some(e), .. }) => pattern_text(e, p),
            _ => Seq::empty(),
        },
    )
}

/// The single, range-start and range-end field texts for a selection.
pub fn text_field_values(selection: Option<DateSelection>, pattern: DateInputPattern) -> (r: (
    String,
    String,
    String,
))
    ensures
        (r.0@, r.1@, r.2@) == field_values_spec(selection, pattern),
{
    let single = match selection {
        Some(DateSelection::Single(date)) => format_date_for_pattern(date, pattern),
        _ => String::new(),
    };
    let (a, b) = match selection {
        Some(DateSelection::Range { start, end }) => (
            format_date_for_pattern(start, pattern),
            match end {
                Some(e) => format_date_for_pattern(e, pattern),
                None => String::new(),
            },
        ),
        _ => (String::new(), String::new()),
    };
    (single, a, b)
}

/// Helper text under the single-date field: "Enter date in <hint> format".
pub fn single_supporting_text(pattern: DateInputPattern) -> (s: String)
    ensures
        s@ == "Enter date in "@ + hint_spec(pattern) + " format"@,
{
    let hint = pattern.hint();
    let mut s = String::new();
    push_str(&mut s, "Enter date in ");
    push_str(&mut s, hint.as_str());
    push_str(&mut s, " format");
    proof {
        assert(s@ =~= "Enter date in "@ + hint_spec(pattern) + " format"@);
    }
    s
}

// ---------------------------------------------------------------------------
// Builder
// ---------------------------------------------------------------------------

/// Builds a `MaterialDatePicker`.
#[derive(Debug)]
pub struct DatePickerBuilder<R> {
    title: String,
    localization: DatePickerLocalization,
    mode: DatePickerMode,
    input_mode: DateInputMode,
    initial_selection: Option<DateSelection>,
    constraints: CalendarConstraints<R>,
    first_day_of_week: Weekday,
    dismiss_on_scrim_click: bool,
    dismiss_on_escape: bool,
    locale_override: Option<String>,
}

/// What a builder holds, as plain values.
pub struct BuilderView<R> {
    pub title: Seq<char>,
    pub title_key: Option<Seq<char>>,
    pub mode: DatePickerMode,
    pub input_mode: DateInputMode,
    pub initial_selection: Option<DateSelection>,
    pub constraints: CalendarConstraints<R>,
    pub first_day_of_week: Weekday,
    pub dismiss_on_scrim_click: bool,
    pub dismiss_on_escape: bool,
    pub locale_override: Option<Seq<char>>,
}

impl<R> View for DatePickerBuilder<R> {
    type V = BuilderView<R>;

    closed spec fn view(&self) -> BuilderView<R> {
        BuilderView {
            title: self.title@,
            title_key: match self.localization.title_key {
                Some(k) => Some(k@),
                None => None,
            },
            mode: self.mode,
            input_mode: self.input_mode,
            initial_selection: self.initial_selection,
            constraints: self.constraints,
            first_day_of_week: self.first_day_of_week,
            dismiss_on_scrim_click: self.dismiss_on_scrim_click,
            dismiss_on_escape: self.dismiss_on_escape,
            locale_override: match self.locale_override {
                Some(t) => Some(t@),
                None => None,
            },
        }
    }
}

/// The month a picker opens on: that of the initial selection (its start
/// for a range), or the constraints' opening month.
pub open spec fn opening_month<R>(v: BuilderView<R>) -> Month {
    match v.initial_selection {
        Some(DateSelection::Single(d)) => Month { year: d.year, month: d.month },
        Some(DateSelection::Range { start, .. }) => Month { year: start.year, month: start.month },
        None => v.constraints.opening,
    }
}

impl DatePickerBuilder<DateRule> {
    /// Title "Select date", single mode, calendar input, no selection,
    /// default constraints, weeks starting on Sunday, dismissable both ways.
    pub fn new() -> (b: Self)
        ensures
            b@.title == "Select date"@,
            b@.title_key is None,
            b@.mode == DatePickerMode::Single,
            b@.input_mode == DateInputMode::Calendar,
            b@.initial_selection is None,
            b@.constraints.start == (Month { year: 1975, month: 1 }),
            b@.constraints.end == (Month { year: 2075, month: 1 }),
            b@.constraints.opening == (Month { year: 2025, month: 1 }),
            b@.constraints.validator matches DateRule::AllDates(_),
            b@.first_day_of_week == Weekday::Sun,
            b@.dismiss_on_scrim_click,
            b@.dismiss_on_escape,
            b@.locale_override is None,
    {
        Self {
            title: String::from_str("Select date"),
            localization: DatePickerLocalization { title_key: None },
            mode: DatePickerMode::Single,
            input_mode: DateInputMode::Calendar,
            initial_selection: None,
            constraints: CalendarConstraints::new(),
            first_day_of_week: Weekday::Sun,
            dismiss_on_scrim_click: true,
            dismiss_on_escape: true,
            locale_override: None,
        }
    }
}

impl<R: DateValidator> DatePickerBuilder<R> {

    pub fn title(self, title: &str) -> (b: Self)
        ensures
            b@ == (BuilderView { title: title@, ..self@ }),
    {
        let mut this = self;
        this.title = String::from_str(title);
        this
    }

    /// Takes the title from a translation key; the literal title is cleared.
    pub fn title_key(self, key: &str) -> (b: Self)
        ensures
            b@ == (BuilderView { title: Seq::empty(), title_key: Some(key@), ..self@ }),
    {
        let mut this = self;
        this.title = String::new();
        this.localization = DatePickerLocalization { title_key: Some(String::from_str(key)) };
        this
    }

    pub fn mode(self, mode: DatePickerMode) -> (b: Self)
        ensures
            b@ == (BuilderView { mode, ..self@ }),
    {
        let mut this = self;
        this.mode = mode;
        this
    }

    pub fn input_mode(self, mode: DateInputMode) -> (b: Self)
        ensures
            b@ == (BuilderView { input_mode: mode, ..self@ }),
    {
        let mut this = self;
        this.input_mode = mode;
        this
    }

    pub fn initial_selection(self, selection: DateSelection) -> (b: Self)
        ensures
            b@ == (BuilderView { initial_selection: Some(selection), ..self@ }),
    {
        let mut this = self;
        this.initial_selection = Some(selection);
        this
    }

    /// Single mode with `date` selected.
    pub fn single_date(self, date: Date) -> (b: Self)
        ensures
            b@ == (BuilderView {
                mode: DatePickerMode::Single,
                initial_selection: Some(DateSelection::Single(date)),
                ..self@
            }),
    {
        let mut this = self;
        this.mode = DatePickerMode::Single;
        this.initial_selection = Some(DateSelection::Single(date));
        this
    }

    /// Range mode with the given range selected.
    pub fn date_range(self, start: Date, end: Option<Date>) -> (b: Self)
        ensures
            b@ == (BuilderView {
                mode: DatePickerMode::Range,
                initial_selection: Some(DateSelection::Range { start, end }),
                ..self@
            }),
    {
        let mut this = self;
        this.mode = DatePickerMode::Range;
        this.initial_selection = Some(DateSelection::Range { start, end });
        this
    }

    /// Replaces the constraints, with their validator; the rest is kept.
    pub fn constraints<W: DateValidator>(self, constraints: CalendarConstraints<W>) -> (b:
        DatePickerBuilder<W>)
        ensures
            b@ == (BuilderView {
                title: self@.title,
                title_key: self@.title_key,
                mode: self@.mode,
                input_mode: self@.input_mode,
                initial_selection: self@.initial_selection,
                constraints: constraints,
                first_day_of_week: self@.first_day_of_week,
                dismiss_on_scrim_click: self@.dismiss_on_scrim_click,
                dismiss_on_escape: self@.dismiss_on_escape,
                locale_override: self@.locale_override,
            }),
    {
        DatePickerBuilder {
            title: self.title,
            localization: self.localization,
            mode: self.mode,
            input_mode: self.input_mode,
            initial_selection: self.initial_selection,
            constraints: constraints,
            first_day_of_week: self.first_day_of_week,
            dismiss_on_scrim_click: self.dismiss_on_scrim_click,
            dismiss_on_escape: self.dismiss_on_escape,
            locale_override: self.locale_override,
        }
    }

    pub fn first_day_of_week(self, day: Weekday) -> (b: Self)
        ensures
            b@ == (BuilderView { first_day_of_week: day, ..self@ }),
    {
        let mut this = self;
        this.first_day_of_week = day;
        this
    }

    pub fn dismiss_on_scrim_click(self, enabled: bool) -> (b: Self)
        ensures
            b@ == (BuilderView { dismiss_on_scrim_click: enabled, ..self@ }),
    {
        let mut this = self;
        this.dismiss_on_scrim_click = enabled;
        this
    }

    pub fn dismiss_on_escape(self, enabled: bool) -> (b: Self)
        ensures
            b@ == (BuilderView { dismiss_on_escape: enabled, ..self@ }),
    {
        let mut this = self;
        this.dismiss_on_escape = enabled;
        this
    }

    /// A locale for this picker only.
    pub fn locale(self, tag: &str) -> (b: Self)
        ensures
            b@ == (BuilderView { locale_override: Some(tag@), ..self@ }),
    {
        let mut this = self;
        this.locale_override = Some(String::from_str(tag));
        this
    }

    /// The title translation key, if any.
    pub fn localization(&self) -> (l: &DatePickerLocalization)
        ensures
            match l.title_key {
                Some(k) => self@.title_key == Some(k@),
                None => self@.title_key is None,
            },
    {
        &self.localization
    }

    /// The locale override, if any.
    pub fn locale_override(&self) -> (t: &Option<String>)
        ensures
            match t {
                Some(s) => self@.locale_override == Some(s@),
                None => self@.locale_override is None,
            },
    {
        &self.locale_override
    }

    /// The picker, closed: its selector matches the mode (a single-mode
    /// picker keeps only a single initial date), and it shows the month of
    /// the initial selection or else the opening month.
    pub fn build_picker(self) -> (p: MaterialDatePicker<R>)
        ensures
            !p.open,
            p.title@ == self@.title,
            p.mode == self@.mode,
            p.input_mode == self@.input_mode,
            p.constraints == self@.constraints,
            p.first_day_of_week == self@.first_day_of_week,
            p.dismiss_on_scrim_click == self@.dismiss_on_scrim_click,
            p.dismiss_on_escape == self@.dismiss_on_escape,
            !p.showing_years,
            p.display_month == opening_month(self@),
            (p.selector is Single) == (self@.mode == DatePickerMode::Single),
            p.selector.current() == match self@.mode {
                DatePickerMode::Single => match self@.initial_selection {
                    Some(DateSelection::Single(d)) => Some(DateSelection::Single(d)),
                    _ => None,
                },
                DatePickerMode::Range => match self@.initial_selection {
                    Some(s) => Some(
                        DateSelection::Range { start: range_kept(s).0->0, end: range_kept(s).1 },
                    ),
                    None => None,
                },
            },
    {
        let ghost v = self@;
        let selector = match self.mode {
            DatePickerMode::Single => {
                let mut sel = SingleDateSelector::new();
                if let Some(DateSelection::Single(date)) = self.initial_selection {
                    sel.set_selection(DateSelection::Single(date));
                }
                PickerSelector::Single(sel)
            },
            DatePickerMode::Range => {
                let mut sel = RangeDateSelector::new();
                if let Some(selection) = self.initial_selection {
                    sel.set_selection(selection);
                }
                PickerSelector::Range(sel)
            },
        };
        let display_month = match self.initial_selection {
            Some(DateSelection::Single(date)) => Month::new(date.year, date.month),
            Some(DateSelection::Range { start, .. }) => Month::new(start.year, start.month),
            None => self.constraints.opening,
        };
        MaterialDatePicker {
            open: false,
            title: self.title,
            mode: self.mode,
            input_mode: self.input_mode,
            selector,
            constraints: self.constraints,
            display_month,
            showing_years: false,
            first_day_of_week: self.first_day_of_week,
            dismiss_on_scrim_click: self.dismiss_on_scrim_click,
            dismiss_on_escape: self.dismiss_on_escape,
        }
    }
}

impl Default for DatePickerBuilder<DateRule> {
    fn default() -> (b: Self)
        ensures
            b@.title == "Select date"@,
            b@.mode == DatePickerMode::Single,
            b@.initial_selection is None,
    {
        Self::new()
    }
}

/// Whether a bound component must refresh its translated text: it has
/// never been resolved, or the translations or the language changed since.
pub fn needs_localization_update(
    last: Option<(u64, &str)>,
    revision: u64,
    language: &str,
) -> (r: bool)
    ensures
        r == match last {
            Some((rev, lang)) => rev != revision || lang@ != language@,
            None => true,
        },
{
    match last {
        Some((rev, lang)) => rev != revision || !crate::text::str_equal(lang, language),
        None => true,
    }
}

} // verus!
