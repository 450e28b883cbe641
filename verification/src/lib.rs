use vstd::prelude::*;

pub mod app_bar;
pub mod badge;
pub mod button;
pub mod button_group;
pub mod card;
pub mod checkbox;
pub mod chip;
pub mod color;
pub mod date_picker;
pub mod datetime_picker;
pub mod dialog;
pub mod fab;
pub mod hierarchy;
pub mod i18n;
pub mod icon_button;
pub mod icons;
pub mod list;
pub mod loading_indicator;
pub mod locale;
pub mod menu;
pub mod progress;
pub mod radio;
pub mod style;
pub mod telemetry;
pub mod text;
pub mod translations_file;

verus! {

} // verus!
