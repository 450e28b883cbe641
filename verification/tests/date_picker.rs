use material_ui::date_picker::constraints::{
    AllDatesValidator, AllowListValidator, BlockListValidator, BoundsValidator, CalendarConstraints,
    CompositeValidator, DateRule, DateValidator, NoWeekendsValidator,
};
use material_ui::date_picker::picker::{
    calendar_days, calendar_offset, format_date_for_pattern, try_parse_complete_date, year_range,
    DateInputMode, DatePickerBuilder, DatePickerCancelEvent, DatePickerMode, DatePickerSubmitEvent,
    FieldError, PickerOutcome,
};
use material_ui::date_picker::range_selector::{DateSelector, RangeDateSelector, SingleDateSelector};
use material_ui::date_picker::types::{
    days_in_month, is_leap_year, month_name, month_short_name, weekday_for_date, Date,
    DateSelection, Month, Weekday,
};
use material_ui::locale::{DateFieldOrder, DateInputPattern};

#[test]
fn leap_years_and_month_lengths() {
    assert!(is_leap_year(2024));
    assert!(!is_leap_year(2023));
    assert!(!is_leap_year(1900));
    assert!(is_leap_year(2000));
    assert_eq!(days_in_month(2024, 2), 29);
    assert_eq!(days_in_month(2023, 2), 28);
    assert_eq!(days_in_month(2023, 4), 30);
    assert_eq!(days_in_month(2023, 12), 31);
    assert_eq!(month_name(3), "March");
    assert_eq!(month_short_name(12), "Dec");
}

#[test]
fn weekdays_of_known_dates() {
    assert_eq!(weekday_for_date(Date::new(2024, 1, 1)), Weekday::Mon);
    assert_eq!(weekday_for_date(Date::new(2000, 2, 29)), Weekday::Tue);
    assert_eq!(weekday_for_date(Date::new(2025, 1, 1)), Weekday::Wed);
}

#[test]
fn date_text_and_validity() {
    let d = Date::new(2024, 3, 5);
    assert_eq!(d.to_string(), "2024-03-05");
    assert!(d.is_valid());
    assert!(!Date::new(2023, 2, 29).is_valid());
    assert!(!Date::new(2023, 13, 1).is_valid());
    assert_eq!(Date::today(), Date::new(2025, 1, 1));
}

#[test]
fn months_add_and_display() {
    let m = Month::new(2024, 11);
    assert_eq!(m.add_months(3), Month::new(2025, 2));
    assert_eq!(m.add_months(-11), Month::new(2023, 12));
    assert_eq!(m.add_months(0), m);
    assert_eq!(m.first_day(), Date::new(2024, 11, 1));
    assert_eq!(m.last_day(), Date::new(2024, 11, 30));
    assert_eq!(m.display_name(), "November 2024");
    assert_eq!(Month::current(), Month::new(2025, 1));
}

#[test]
fn selection_membership() {
    let range = DateSelection::Range { start: Date::new(2024, 1, 10), end: Some(Date::new(2024, 1, 20)) };
    assert!(range.contains(Date::new(2024, 1, 15)));
    assert!(range.is_start(Date::new(2024, 1, 10)));
    assert!(range.is_end(Date::new(2024, 1, 20)));
    assert!(range.is_in_range(Date::new(2024, 1, 11)));
    assert!(!range.is_in_range(Date::new(2024, 1, 10)));
    assert!(!range.contains(Date::new(2024, 1, 21)));
}

#[test]
fn validators() {
    let sat = Date::new(2024, 1, 6);
    let mon = Date::new(2024, 1, 8);
    assert!(AllDatesValidator.is_valid(sat));
    assert!(!NoWeekendsValidator.is_valid(sat));
    assert!(NoWeekendsValidator.is_valid(mon));
    let allow = AllowListValidator::new(vec![mon]);
    assert!(allow.is_valid(mon));
    assert!(!allow.is_valid(sat));
    let block = BlockListValidator::new(vec![mon]);
    assert!(!block.is_valid(mon));
    let bounds = BoundsValidator::new(Some(Date::new(2024, 1, 7)), None);
    assert!(bounds.is_valid(mon));
    assert!(!bounds.is_valid(sat));
    let composite = CompositeValidator::new()
        .add(DateRule::NoWeekends(NoWeekendsValidator))
        .add(DateRule::Bounds(BoundsValidator::new(None, Some(Date::new(2024, 1, 31)))));
    assert!(composite.is_valid(mon));
    assert!(!composite.is_valid(sat));
    assert!(!composite.is_valid(Date::new(2024, 2, 1)));
}

#[test]
fn constraint_months() {
    let c = CalendarConstraints::new();
    assert!(c.is_month_enabled(Month::new(2000, 6)));
    assert!(!c.is_month_enabled(Month::new(1974, 12)));
    let narrow = CalendarConstraints::new().with_bounds(Month::new(2024, 1), Month::new(2024, 3));
    assert!(narrow.is_month_enabled(Month::new(2024, 3)));
    assert!(!narrow.is_month_enabled(Month::new(2024, 4)));
}

#[test]
fn selectors_read_back() {
    let mut s = SingleDateSelector::new();
    assert_eq!(s.selection(), None);
    s.set_selection(DateSelection::Range { start: Date::new(2024, 5, 1), end: None });
    assert_eq!(s.selection(), Some(DateSelection::Single(Date::new(2024, 5, 1))));
    let mut r = RangeDateSelector::new();
    r.set_selection(DateSelection::Single(Date::new(2024, 5, 1)));
    assert_eq!(r.start(), Some(Date::new(2024, 5, 1)));
    assert!(!r.is_complete());
    let full = RangeDateSelector::with_range(Date::new(2024, 5, 1), Some(Date::new(2024, 5, 3)));
    assert!(full.is_complete());
    assert_eq!(full.end(), Some(Date::new(2024, 5, 3)));
    r.clear();
    assert_eq!(r.selection(), None);
}

#[test]
fn pattern_round_trip() {
    let p = DateInputPattern::new(DateFieldOrder::Mdy, '/');
    let d = Date::new(2024, 3, 14);
    let text = format_date_for_pattern(d, p);
    assert_eq!(text, "03/14/2024");
    assert_eq!(try_parse_complete_date(&text, p), Some(d));
    let ymd = DateInputPattern::new(DateFieldOrder::Ymd, '-');
    assert_eq!(format_date_for_pattern(d, ymd), "2024-03-14");
    assert_eq!(try_parse_complete_date("2024-03-14", ymd), Some(d));
    assert_eq!(try_parse_complete_date("2023-02-29", ymd), None);
    assert_eq!(try_parse_complete_date("2024-03-1", ymd), None);
    let dmy = DateInputPattern::new(DateFieldOrder::Dmy, '.');
    assert_eq!(format_date_for_pattern(Date::new(999, 1, 2), dmy), "02.01.0999");
    assert_eq!(try_parse_complete_date("02.01.0999", dmy), Some(Date::new(999, 1, 2)));
}

#[test]
fn calendar_grid() {
    let m = Month::new(2024, 2);
    assert_eq!(calendar_offset(m, Weekday::Sun), 4);
    assert_eq!(calendar_offset(m, Weekday::Mon), 3);
    let cells = calendar_days(m, Weekday::Sun);
    assert_eq!(cells.len(), 42);
    assert_eq!(cells[3], None);
    assert_eq!(cells[4], Some(1));
    assert_eq!(cells[4 + 28], Some(29));
    assert_eq!(cells[4 + 29], None);
    assert_eq!(year_range(2020, 2023), vec![2020, 2021, 2022, 2023]);
    assert!(year_range(5, 4).is_empty());
}

#[test]
fn picker_day_selection_and_submit() {
    let mut picker = DatePickerBuilder::new().mode(DatePickerMode::Single).build_picker();
    picker.open = true;
    picker.select_day(Date::new(2025, 1, 15));
    assert_eq!(picker.selection(), Some(DateSelection::Single(Date::new(2025, 1, 15))));
    assert_eq!(picker.selection_label(), "2025-01-15");
    let outcome = picker.press_action(9, true);
    assert_eq!(
        outcome,
        PickerOutcome::Submitted(DatePickerSubmitEvent {
            entity: 9,
            selection: DateSelection::Single(Date::new(2025, 1, 15))
        })
    );
    assert!(!picker.open);
    assert_eq!(picker.press_action(9, true), PickerOutcome::Ignored);
    picker.open = true;
    assert_eq!(picker.press_action(9, false), PickerOutcome::Cancelled(DatePickerCancelEvent { entity: 9 }));
    assert!(!picker.open);
}

#[test]
fn picker_range_selection_orders_ends() {
    let mut picker = DatePickerBuilder::new().mode(DatePickerMode::Range).build_picker();
    picker.open = true;
    picker.select_day(Date::new(2025, 1, 20));
    picker.select_day(Date::new(2025, 1, 10));
    match picker.selection() {
        Some(DateSelection::Range { start, end }) => {
            assert!(start <= end.unwrap_or(start));
        }
        other => panic!("unexpected selection {:?}", other),
    }
}

#[test]
fn picker_escape_and_navigation() {
    let mut picker = DatePickerBuilder::new().build_picker();
    picker.open = true;
    assert_eq!(picker.press_escape(4), Some(DatePickerCancelEvent { entity: 4 }));
    assert!(!picker.open);
    let before = picker.display_month;
    picker.navigate_months(1);
    assert!(picker.display_month == before.add_months(1) || picker.display_month == before);
    let mut stay = DatePickerBuilder::new().dismiss_on_escape(false).build_picker();
    stay.open = true;
    assert_eq!(stay.press_escape(4), None);
    assert!(stay.open);
    assert_eq!(stay.press_scrim(4), Some(DatePickerCancelEvent { entity: 4 }));
    assert!(!stay.open);
}

#[test]
fn picker_text_entry() {
    let p = DateInputPattern::new(DateFieldOrder::Ymd, '-');
    let mut picker = DatePickerBuilder::new().input_mode(DateInputMode::Text).build_picker();
    picker.open = true;
    assert_eq!(picker.apply_single_text("2024-02-30", p), FieldError::Keep);
    assert_eq!(picker.selection(), None);
    assert_eq!(picker.apply_single_text("2024-02-29", p), FieldError::Clear);
    assert_eq!(picker.selection(), Some(DateSelection::Single(Date::new(2024, 2, 29))));
    assert_eq!(picker.display_month, Month::new(2024, 2));
}

#[test]
fn picker_range_text_errors() {
    let p = DateInputPattern::new(DateFieldOrder::Ymd, '-');
    let mut picker = DatePickerBuilder::new()
        .mode(DatePickerMode::Range)
        .input_mode(DateInputMode::Text)
        .build_picker();
    picker.open = true;
    let errs = picker.apply_range_text("2024-03-10", "2024-03-01", p);
    assert_eq!(errs, (FieldError::Show("Invalid range"), FieldError::Show(" ")));
    let ok = picker.apply_range_text("2024-03-01", "2024-03-10", p);
    assert_eq!(ok, (FieldError::Clear, FieldError::Clear));
}

/// A validator of the user's own: only the first half of each month.
struct FirstHalfOnly;

impl DateValidator for FirstHalfOnly {
    fn admits(&self, _date: Date) -> bool {
        true
    }

    fn accepts(&self, date: Date) -> bool {
        date.day <= 15
    }

    fn is_valid(&self, date: Date) -> bool {
        date.day <= 15
    }
}

#[test]
fn picker_with_a_custom_validator() {
    let constraints = CalendarConstraints::new()
        .with_bounds(Month::new(2025, 1), Month::new(2025, 12))
        .with_validator(FirstHalfOnly);
    assert_eq!(constraints.start, Month::new(2025, 1));
    let mut picker = DatePickerBuilder::new()
        .mode(DatePickerMode::Single)
        .constraints(constraints)
        .build_picker();
    picker.open = true;
    picker.select_day(Date::new(2025, 1, 20));
    assert_eq!(picker.selection(), None);
    picker.select_day(Date::new(2025, 1, 10));
    assert_eq!(picker.selection(), Some(DateSelection::Single(Date::new(2025, 1, 10))));
    assert!(picker.constraints.validator.is_valid(Date::new(2025, 3, 1)));
}

#[test]
fn min_max_dates_bound_months_and_days() {
    let c = CalendarConstraints::new()
        .with_min_max_dates(Some(Date::new(2024, 3, 10)), Some(Date::new(2024, 5, 20)));
    assert_eq!(c.start, Month::new(2024, 3));
    assert_eq!(c.end, Month::new(2024, 5));
    assert!(!c.validator.is_valid(Date::new(2024, 3, 9)));
    assert!(c.validator.is_valid(Date::new(2024, 5, 20)));
    assert!(!c.validator.is_valid(Date::new(2024, 5, 21)));
}

#[test]
fn empty_composite_accepts_every_date() {
    assert!(CompositeValidator::<DateRule>::new().is_valid(Date::new(2024, 1, 6)));
}

#[test]
fn composite_of_custom_validators() {
    let both = CompositeValidator::new().add(FirstHalfOnly).add(FirstHalfOnly);
    assert!(both.is_valid(Date::new(2024, 1, 3)));
    assert!(!both.is_valid(Date::new(2024, 1, 16)));
}
