use material_ui::datetime_picker::{
    CalendarSelector, Date, DateTimePickerBuilder, DateTimePickerCancelEvent, DateTimePickerOutcome,
    DateTimePickerSubmitEvent, TimeFormat, Weekday,
};

fn open_picker() -> material_ui::datetime_picker::MaterialDateTimePicker {
    DateTimePickerBuilder::new()
        .open()
        .date(Date::new(2024, 3, 15))
        .time(13, 5)
        .first_day_of_week(Weekday::Sun)
        .build()
}

#[test]
fn summary_and_time_texts() {
    let mut p = open_picker();
    assert_eq!(p.summary_text(), "2024-03-15  \u{2022}  13:05");
    p.time_format = TimeFormat::H12;
    assert_eq!(p.summary_text(), "2024-03-15  \u{2022}  01:05 PM");
    assert_eq!(p.hour_text(), "01");
    assert_eq!(p.minute_text(), "05");
    p.hour = 0;
    assert_eq!(p.hour_text(), "12");
}

#[test]
fn time_adjustment_wraps() {
    let mut p = open_picker();
    p.adjust_time(true, 12);
    assert_eq!(p.hour, 1);
    p.adjust_time(false, -6);
    assert_eq!(p.minute, 59);
    p.adjust_time(true, -2);
    assert_eq!(p.hour, 23);
}

#[test]
fn month_navigation_and_label() {
    let mut p = open_picker();
    assert_eq!(p.month_label_text(), "March 2024");
    p.navigate_months(-3);
    assert_eq!((p.display_year, p.display_month), (2023, 12));
    p.navigate_months(13);
    assert_eq!((p.display_year, p.display_month), (2025, 1));
    p.toggle_selector();
    assert_eq!(p.selector, CalendarSelector::Year);
    assert!(p.year_grid_visible());
    assert_eq!(p.month_label_text(), "2025");
}

#[test]
fn year_selection_is_clamped() {
    let mut p = DateTimePickerBuilder::new().open().year_range(2000, 2010).build();
    p.toggle_selector();
    p.select_year(1990);
    assert_eq!(p.display_year, 2000);
    assert!(p.is_year_selected(2000) || p.selected_date.is_none());
}

#[test]
fn day_cells_and_submission() {
    let mut p = open_picker();
    // March 2024 starts on a Friday: with Sunday first, cell 5 is the 1st.
    assert_eq!(p.cell_date(5), Some(Date::new(2024, 3, 1)));
    assert_eq!(p.cell_date(4), None);
    p.select_day(6);
    assert_eq!(p.selected_date, Some(Date::new(2024, 3, 2)));
    assert!(p.is_cell_selected(6));
    assert_eq!(
        p.press_action(2, true),
        DateTimePickerOutcome::Submitted(DateTimePickerSubmitEvent {
            entity: 2,
            date: Date::new(2024, 3, 2),
            hour: 13,
            minute: 5
        })
    );
    assert!(!p.open);
}

#[test]
fn bounded_days_are_refused() {
    let mut p = DateTimePickerBuilder::new()
        .open()
        .date(Date::new(2024, 3, 15))
        .min_date(Date::new(2024, 3, 10))
        .build();
    p.select_day(6);
    assert_eq!(p.selected_date, Some(Date::new(2024, 3, 15)));
}

#[test]
fn dismissal() {
    let mut p = open_picker();
    assert_eq!(p.press_scrim(5), Some(DateTimePickerCancelEvent { entity: 5 }));
    assert!(!p.open);
    let mut q = DateTimePickerBuilder::new().open().dismiss_on_escape(false).build();
    assert_eq!(q.press_escape(5), None);
    assert!(q.open);
    assert_eq!(q.press_action(5, true), DateTimePickerOutcome::Ignored);
    assert!(q.open);
    assert_eq!(q.press_action(5, false), DateTimePickerOutcome::Cancelled(DateTimePickerCancelEvent { entity: 5 }));
    assert!(!q.open);
    assert_eq!(q.press_action(5, false), DateTimePickerOutcome::Ignored);
}

#[test]
fn year_range_from_bounds() {
    let p = DateTimePickerBuilder::new()
        .min_date(Date::new(2030, 1, 1))
        .max_date(Date::new(2020, 1, 1))
        .finalize_year_range()
        .build();
    assert_eq!(p.year_bounds(), (2020, 2030));
    let q = DateTimePickerBuilder::new().date(Date::new(2024, 1, 1)).finalize_year_range().build();
    assert_eq!(q.year_bounds(), (1974, 2074));
}

#[test]
fn time_adjustment_is_undone_by_the_opposite_step() {
    let mut p = open_picker();
    p.adjust_time(true, 30);
    assert_eq!(p.hour, 19);
    p.adjust_time(true, -30);
    assert_eq!(p.hour, 13);
    p.adjust_time(false, -125);
    assert_eq!(p.minute, 0);
    p.adjust_time(false, 125);
    assert_eq!(p.minute, 5);
}
