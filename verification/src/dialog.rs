//! Dialogs: basic and full-screen dialogs over a scrim.
use vstd::prelude::*;

use crate::style::{ColorRole, Elevation, Length, Paint};

verus! {

/// Kind of dialog.
#[derive(Debug, Clone, Copy, PartialEq, Eq, Structural)]
pub enum DialogType {
    Basic,
    FullScreen,
}

impl Default for DialogType {
    fn default() -> (t: Self)
        ensures
            t == DialogType::Basic,
    {
        DialogType::Basic
    }
}

/// A dialog.
#[derive(Debug, Clone)]
pub struct MaterialDialog {
    pub dialog_type: DialogType,
    pub open: bool,
    pub title: Option<String>,
    pub icon: Option<String>,
    /// Whether a click on the scrim closes the dialog.
    pub dismiss_on_scrim_click: bool,
    /// Whether the escape key closes the dialog.
    pub dismiss_on_escape: bool,
    /// Whether the scrim blocks input to what lies under it.
    pub modal: bool,
}

/// Least width of a basic dialog, in pixels.
pub const DIALOG_MIN_WIDTH: u32 = 280;
/// Greatest width of a basic dialog, in pixels.
pub const DIALOG_MAX_WIDTH: u32 = 560;
/// Opacity of the scrim, in percent.
pub const SCRIM_PERCENT: u8 = 32;

/// A fresh dialog: basic, closed, without title or icon, dismissible and
/// modal.
pub open spec fn fresh_dialog(d: MaterialDialog) -> bool {
    &&& d.dialog_type == DialogType::Basic
    &&& !d.open
    &&& d.title is None
    &&& d.icon is None
    &&& d.dismiss_on_scrim_click
    &&& d.dismiss_on_escape
    &&& d.modal
}

impl MaterialDialog {
    pub fn new() -> (d: Self)
        ensures
            fresh_dialog(d),
    {
        Self {
            dialog_type: DialogType::Basic,
            open: false,
            title: None,
            icon: None,
            dismiss_on_scrim_click: true,
            dismiss_on_escape: true,
            modal: true,
        }
    }

    pub fn with_type(self, dialog_type: DialogType) -> (d: Self)
        ensures
            d == (MaterialDialog { dialog_type: dialog_type, ..self }),
    {
        let mut this = self;
        this.dialog_type = dialog_type;
        this
    }

    pub fn title(self, title: &str) -> (d: Self)
        ensures
            d.title is Some && d.title->0@ == title@,
            d == (MaterialDialog { title: d.title, ..self }),
    {
        let mut this = self;
        this.title = Some(String::from_str(title));
        this
    }

    pub fn icon(self, icon: &str) -> (d: Self)
        ensures
            d.icon is Some && d.icon->0@ == icon@,
            d == (MaterialDialog { icon: d.icon, ..self }),
    {
        let mut this = self;
        this.icon = Some(String::from_str(icon));
        this
    }

    pub fn open(self, open: bool) -> (d: Self)
        ensures
            d == (MaterialDialog { open: open, ..self }),
    {
        let mut this = self;
        this.open = open;
        this
    }

    pub fn no_scrim_dismiss(self) -> (d: Self)
        ensures
            d == (MaterialDialog { dismiss_on_scrim_click: false, ..self }),
    {
        let mut this = self;
        this.dismiss_on_scrim_click = false;
        this
    }

    pub fn no_escape_dismiss(self) -> (d: Self)
        ensures
            d == (MaterialDialog { dismiss_on_escape: false, ..self }),
    {
        let mut this = self;
        this.dismiss_on_escape = false;
        this
    }

    pub fn modal(self, modal: bool) -> (d: Self)
        ensures
            d == (MaterialDialog { modal: modal, ..self }),
    {
        let mut this = self;
        this.modal = modal;
        this
    }

    pub fn surface_color(&self) -> (p: Paint)
        ensures
            p == Paint::Solid(ColorRole::SurfaceContainerHigh),
    {
        Paint::Solid(ColorRole::SurfaceContainerHigh)
    }

    pub fn scrim_color(&self) -> (p: Paint)
        ensures
            p == Paint::Faded(ColorRole::Scrim, SCRIM_PERCENT),
    {
        Paint::Faded(ColorRole::Scrim, SCRIM_PERCENT)
    }

    pub fn title_color(&self) -> (p: Paint)
        ensures
            p == Paint::Solid(ColorRole::OnSurface),
    {
        Paint::Solid(ColorRole::OnSurface)
    }

    pub fn content_color(&self) -> (p: Paint)
        ensures
            p == Paint::Solid(ColorRole::OnSurfaceVariant),
    {
        Paint::Solid(ColorRole::OnSurfaceVariant)
    }

    pub fn icon_color(&self) -> (p: Paint)
        ensures
            p == Paint::Solid(ColorRole::Secondary),
    {
        Paint::Solid(ColorRole::Secondary)
    }

    pub fn elevation(&self) -> (e: Elevation)
        ensures
            e == Elevation::Level3,
    {
        Elevation::Level3
    }

    /// Whether the dialog is laid out (it is hidden while closed).
    pub fn displayed(&self) -> (r: bool)
        ensures
            r == self.open,
    {
        self.open
    }

    /// The shadow: the dialog's elevation while open, none while closed.
    pub fn shadow(&self) -> (e: Option<Elevation>)
        ensures
            e == (if self.open {
                Some(Elevation::Level3)
            } else {
                None
            }),
    {
        if self.open {
            Some(self.elevation())
        } else {
            None
        }
    }

    /// Whether the dialog's scrim is shown: exactly while it is open.
    pub fn scrim_displayed(&self) -> (r: bool)
        ensures
            r == self.open,
    {
        self.open
    }

    /// Whether the dialog's scrim blocks input below it: only for a modal
    /// dialog.
    pub fn scrim_blocks_input(&self) -> (r: bool)
        ensures
            r == self.modal,
    {
        self.modal
    }
}

impl Default for MaterialDialog {
    fn default() -> (d: Self)
        ensures
            fresh_dialog(d),
    {
        Self::new()
    }
}

/// What a dialog shows as its headline.
#[derive(Debug, Clone)]
pub enum DialogHeadline {
    /// A fixed text.
    Text(String),
    /// Text looked up under a translation key.
    Localized(String),
}

/// A dialog with how its surface is laid out.
#[derive(Debug, Clone)]
pub struct DialogParts {
    pub dialog: MaterialDialog,
    pub background: Paint,
    pub width: Length,
    pub height: Length,
    /// Least width; `None` where there is no limit.
    pub min_width: Option<u32>,
    /// Greatest width; `None` where there is no limit.
    pub max_width: Option<u32>,
    /// Square corners (full screen), or the extra-large corner radius.
    pub square_corners: bool,
    /// Whether the surface is laid out when built (it appears once open).
    pub displayed: bool,
}

/// The scrim behind a dialog.
#[derive(Debug, Clone, Copy, PartialEq, Eq, Structural)]
pub struct ScrimParts {
    pub color: Paint,
    /// Whether pointer input below the scrim is blocked.
    pub blocks_input: bool,
    /// Whether the scrim is laid out when built.
    pub displayed: bool,
}

/// A scrim that covers the screen and blocks input.
pub fn create_dialog_scrim() -> (s: ScrimParts)
    ensures
        s == (ScrimParts {
            color: Paint::Faded(ColorRole::Scrim, SCRIM_PERCENT),
            blocks_input: true,
            displayed: true,
        }),
{
    ScrimParts { color: Paint::Faded(ColorRole::Scrim, SCRIM_PERCENT), blocks_input: true, displayed: true }
}

/// The scrim of one dialog: hidden until the dialog opens, and blocking
/// input only where the dialog is modal.
pub fn create_dialog_scrim_for(modal: bool) -> (s: ScrimParts)
    ensures
        s == (ScrimParts {
            color: Paint::Faded(ColorRole::Scrim, SCRIM_PERCENT),
            blocks_input: modal,
            displayed: false,
        }),
{
    ScrimParts { color: Paint::Faded(ColorRole::Scrim, SCRIM_PERCENT), blocks_input: modal, displayed: false }
}

/// Builds a dialog.
pub struct DialogBuilder {
    pub dialog: MaterialDialog,
    /// Translation key of the title, where the title is localized.
    pub title_key: Option<String>,
}

impl DialogBuilder {
    pub fn new() -> (b: Self)
        ensures
            fresh_dialog(b.dialog),
            b.title_key is None,
    {
        Self { dialog: MaterialDialog::new(), title_key: None }
    }

    pub fn dialog_type(self, dialog_type: DialogType) -> (b: Self)
        ensures
            b.dialog == (MaterialDialog { dialog_type: dialog_type, ..self.dialog }),
            b.title_key == self.title_key,
    {
        let mut this = self;
        this.dialog.dialog_type = dialog_type;
        this
    }

    pub fn full_screen(self) -> (b: Self)
        ensures
            b.dialog == (MaterialDialog { dialog_type: DialogType::FullScreen, ..self.dialog }),
            b.title_key == self.title_key,
    {
        self.dialog_type(DialogType::FullScreen)
    }

    pub fn title(self, title: &str) -> (b: Self)
        ensures
            b.dialog.title is Some && b.dialog.title->0@ == title@,
            b.dialog == (MaterialDialog { title: b.dialog.title, ..self.dialog }),
            b.title_key == self.title_key,
    {
        let mut this = self;
        this.dialog.title = Some(String::from_str(title));
        this
    }

    /// A localized title: the text is looked up under `key`.
    pub fn title_key(self, key: &str) -> (b: Self)
        ensures
            b.dialog.title is Some && b.dialog.title->0@ == Seq::<char>::empty(),
            b.dialog == (MaterialDialog { title: b.dialog.title, ..self.dialog }),
            b.title_key is Some && b.title_key->0@ == key@,
    {
        let mut this = self;
        this.dialog.title = Some(String::new());
        this.title_key = Some(String::from_str(key));
        this
    }

    pub fn icon(self, icon: &str) -> (b: Self)
        ensures
            b.dialog.icon is Some && b.dialog.icon->0@ == icon@,
            b.dialog == (MaterialDialog { icon: b.dialog.icon, ..self.dialog }),
            b.title_key == self.title_key,
    {
        let mut this = self;
        this.dialog.icon = Some(String::from_str(icon));
        this
    }

    pub fn open(self) -> (b: Self)
        ensures
            b.dialog == (MaterialDialog { open: true, ..self.dialog }),
            b.title_key == self.title_key,
    {
        let mut this = self;
        this.dialog.open = true;
        this
    }

    pub fn no_scrim_dismiss(self) -> (b: Self)
        ensures
            b.dialog == (MaterialDialog { dismiss_on_scrim_click: false, ..self.dialog }),
            b.title_key == self.title_key,
    {
        let mut this = self;
        this.dialog.dismiss_on_scrim_click = false;
        this
    }

    pub fn no_escape_dismiss(self) -> (b: Self)
        ensures
            b.dialog == (MaterialDialog { dismiss_on_escape: false, ..self.dialog }),
            b.title_key == self.title_key,
    {
        let mut this = self;
        this.dialog.dismiss_on_escape = false;
        this
    }

    pub fn modal(self, modal: bool) -> (b: Self)
        ensures
            b.dialog == (MaterialDialog { modal: modal, ..self.dialog }),
            b.title_key == self.title_key,
    {
        let mut this = self;
        this.dialog.modal = modal;
        this
    }

    /// The headline the dialog shows: none without a title; the
    /// translation key where one was given; else the title.
    pub fn headline(&self) -> (h: Option<DialogHeadline>)
        ensures
            match h {
                None => self.dialog.title is None,
                Some(DialogHeadline::Localized(k)) => self.dialog.title is Some
                    && self.title_key is Some && k@ == self.title_key->0@,
                Some(DialogHeadline::Text(t)) => self.dialog.title is Some && self.title_key is None
                    && t@ == self.dialog.title->0@,
            },
    {
        match &self.dialog.title {
            None => None,
            Some(title) => match &self.title_key {
                Some(key) => Some(DialogHeadline::Localized(key.clone())),
                None => Some(DialogHeadline::Text(title.clone())),
            },
        }
    }

    /// The dialog with its surface layout: a full-screen dialog fills its
    /// parent with square corners; a basic one sizes to its content within
    /// the width limits. The surface starts hidden.
    pub fn build(self) -> (p: DialogParts)
        ensures
            p.dialog == self.dialog,
            p.background == Paint::Solid(ColorRole::SurfaceContainerHigh),
            !p.displayed,
            self.dialog.dialog_type == DialogType::FullScreen ==> p.width == Length::Percent(100)
                && p.height == Length::Percent(100) && p.min_width is None && p.max_width is None
                && p.square_corners,
            self.dialog.dialog_type == DialogType::Basic ==> p.width == Length::Auto && p.height
                == Length::Auto && p.min_width == Some(DIALOG_MIN_WIDTH) && p.max_width == Some(
                DIALOG_MAX_WIDTH,
            ) && !p.square_corners,
    {
        let background = self.dialog.surface_color();
        match self.dialog.dialog_type {
            DialogType::FullScreen => DialogParts {
                dialog: self.dialog,
                background,
                width: Length::Percent(100),
                height: Length::Percent(100),
                min_width: None,
                max_width: None,
                square_corners: true,
                displayed: false,
            },
            DialogType::Basic => DialogParts {
                dialog: self.dialog,
                background,
                width: Length::Auto,
                height: Length::Auto,
                min_width: Some(DIALOG_MIN_WIDTH),
                max_width: Some(DIALOG_MAX_WIDTH),
                square_corners: false,
                displayed: false,
            },
        }
    }
}

impl Default for DialogBuilder {
    fn default() -> (b: Self)
        ensures
            fresh_dialog(b.dialog),
            b.title_key is None,
    {
        Self::new()
    }
}

} // verus!
