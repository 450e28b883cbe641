//! Date picker: calendar types, selection, constraints and the picker's
//! state transitions.
use vstd::prelude::*;

pub mod constraints;
pub mod picker;
pub mod range_selector;
pub mod types;

pub use constraints::{
    all_rules, rule_holds, weekday_defined, within_bounds, AllDatesValidator,
    AllowListValidator, BlockListValidator, BoundsValidator, CalendarConstraints,
    CompositeValidator, DateRule, DateValidator, NoWeekendsValidator,
};
pub use picker::{
    calendar_days, calendar_offset, format_date_for_pattern, needs_localization_update,
    resolve_date_input_pattern, single_supporting_text, text_field_values,
    try_parse_complete_date, year_range, DateInputMode, DatePickerBuilder,
    DatePickerCancelEvent, DatePickerLocalization, DatePickerMode, DatePickerSubmitEvent,
    DayCellStyle, FieldError, MaterialDatePicker,
    PickerOutcome, PickerSelector,
};
pub use range_selector::{
    range_kept, single_kept, DateSelector, RangeDateSelector, SingleDateSelector,
};
pub use types::{
    add_months_fits, add_months_spec, date_before, date_le, date_lt, date_text, date_valid,
    days_in_month, days_in_month_spec, is_leap_year, leap_spec, month_before, month_le, month_lt,
    month_name, month_name_spec, month_ordinal, month_short_name, month_short_name_spec,
    month_text, selection_contains, weekday_at, weekday_for_date, weekday_from_index,
    weekday_index, weekday_of, weekday_pos, Date, DateSelection, Month, Weekday,
};

verus! {

} // verus!
