//! Floating action buttons.
use vstd::prelude::*;

use crate::style::{
    state_layer_percent, state_layer_percent_spec, ColorRole, CornerToken, Elevation, Interaction,
    Length, Paint,
};

verus! {

/// Size of a floating action button.
#[derive(Debug, Clone, Copy, PartialEq, Eq, Structural)]
pub enum FabSize {
    Small,
    Regular,
    Large,
}

impl Default for FabSize {
    fn default() -> (s: Self)
        ensures
            s == FabSize::Regular,
    {
        FabSize::Regular
    }
}

/// Side of a button of the size, in pixels.
pub open spec fn fab_side(s: FabSize) -> u32 {
    match s {
        FabSize::Small => 40,
        FabSize::Regular => 56,
        FabSize::Large => 96,
    }
}

impl FabSize {
    /// Side in pixels.
    pub fn size(&self) -> (px: u32)
        ensures
            px == fab_side(*self),
    {
        match self {
            FabSize::Small => 40,
            FabSize::Regular => 56,
            FabSize::Large => 96,
        }
    }

    /// Icon size in pixels.
    pub fn icon_size(&self) -> (px: u32)
        ensures
            px == (match *self {
                FabSize::Large => 36u32,
                _ => 24u32,
            }),
    {
        match self {
            FabSize::Small => 24,
            FabSize::Regular => 24,
            FabSize::Large => 36,
        }
    }

    /// Corner radius step.
    pub fn corner_radius(&self) -> (c: CornerToken)
        ensures
            c == (match *self {
                FabSize::Small => CornerToken::Medium,
                FabSize::Regular => CornerToken::Large,
                FabSize::Large => CornerToken::ExtraLarge,
            }),
    {
        match self {
            FabSize::Small => CornerToken::Medium,
            FabSize::Regular => CornerToken::Large,
            FabSize::Large => CornerToken::ExtraLarge,
        }
    }
}

/// Color scheme of a floating action button.
#[derive(Debug, Clone, Copy, PartialEq, Eq, Structural)]
pub enum FabColor {
    Primary,
    Surface,
    Secondary,
    Tertiary,
}

impl Default for FabColor {
    fn default() -> (c: Self)
        ensures
            c == FabColor::Primary,
    {
        FabColor::Primary
    }
}

/// A floating action button.
#[derive(Debug, Clone)]
pub struct MaterialFab {
    pub size: FabSize,
    pub color: FabColor,
    /// Whether it sits lower than usual.
    pub lowered: bool,
    pub icon: String,
    /// The label of an extended button.
    pub label: Option<String>,
    pub pressed: bool,
    pub hovered: bool,
}

/// A fresh regular primary button with the given icon.
pub open spec fn fresh_fab(icon: Seq<char>, f: MaterialFab) -> bool {
    &&& f.icon@ == icon
    &&& f.size == FabSize::Regular
    &&& f.color == FabColor::Primary
    &&& !f.lowered
    &&& f.label is None
    &&& !f.pressed
    &&& !f.hovered
}

/// The container role of a color scheme.
pub open spec fn fab_container(c: FabColor) -> ColorRole {
    match c {
        FabColor::Primary => ColorRole::PrimaryContainer,
        FabColor::Surface => ColorRole::SurfaceContainerHigh,
        FabColor::Secondary => ColorRole::SecondaryContainer,
        FabColor::Tertiary => ColorRole::TertiaryContainer,
    }
}

/// The content role of a color scheme.
pub open spec fn fab_content(c: FabColor) -> ColorRole {
    match c {
        FabColor::Primary => ColorRole::OnPrimaryContainer,
        FabColor::Surface => ColorRole::Primary,
        FabColor::Secondary => ColorRole::OnSecondaryContainer,
        FabColor::Tertiary => ColorRole::OnTertiaryContainer,
    }
}

/// The container paint of a button.
pub open spec fn fab_background(f: MaterialFab) -> Paint {
    let p = state_layer_percent_spec(false, f.pressed, f.hovered);
    if p > 0 {
        Paint::Layered(fab_container(f.color), fab_content(f.color), p)
    } else {
        Paint::Solid(fab_container(f.color))
    }
}

/// The elevation of a button: a hovered button rises one level; a
/// lowered button sits two levels lower.
pub open spec fn fab_elevation(f: MaterialFab) -> Elevation {
    if f.lowered {
        if !f.pressed && f.hovered {
            Elevation::Level2
        } else {
            Elevation::Level1
        }
    } else if !f.pressed && f.hovered {
        Elevation::Level4
    } else {
        Elevation::Level3
    }
}

/// The button after the pointer does `interaction` on it.
pub open spec fn fab_after(f: MaterialFab, interaction: Interaction) -> MaterialFab {
    match interaction {
        Interaction::Pressed => MaterialFab { pressed: true, hovered: false, ..f },
        Interaction::Hovered => MaterialFab { pressed: false, hovered: true, ..f },
        Interaction::Idle => MaterialFab { pressed: false, hovered: false, ..f },
    }
}

impl MaterialFab {
    pub fn new(icon: &str) -> (f: Self)
        ensures
            fresh_fab(icon@, f),
    {
        Self {
            size: FabSize::Regular,
            color: FabColor::Primary,
            lowered: false,
            icon: String::from_str(icon),
            label: None,
            pressed: false,
            hovered: false,
        }
    }

    pub fn with_size(self, size: FabSize) -> (f: Self)
        ensures
            f == (MaterialFab { size: size, ..self }),
    {
        let mut this = self;
        this.size = size;
        this
    }

    pub fn with_color(self, color: FabColor) -> (f: Self)
        ensures
            f == (MaterialFab { color: color, ..self }),
    {
        let mut this = self;
        this.color = color;
        this
    }

    pub fn lowered(self) -> (f: Self)
        ensures
            f == (MaterialFab { lowered: true, ..self }),
    {
        let mut this = self;
        this.lowered = true;
        this
    }

    /// Makes it an extended button with a label.
    pub fn extended(self, label: &str) -> (f: Self)
        ensures
            f.label is Some && f.label->0@ == label@,
            f == (MaterialFab { label: f.label, ..self }),
    {
        let mut this = self;
        this.label = Some(String::from_str(label));
        this
    }

    /// The container paint, with the content color as state layer.
    pub fn background_color(&self) -> (p: Paint)
        ensures
            p == fab_background(*self),
    {
        let base = match self.color {
            FabColor::Primary => ColorRole::PrimaryContainer,
            FabColor::Surface => ColorRole::SurfaceContainerHigh,
            FabColor::Secondary => ColorRole::SecondaryContainer,
            FabColor::Tertiary => ColorRole::TertiaryContainer,
        };
        let p = state_layer_percent(false, self.pressed, self.hovered);
        if p > 0 {
            Paint::Layered(base, self.content_role(), p)
        } else {
            Paint::Solid(base)
        }
    }

    fn content_role(&self) -> (r: ColorRole)
        ensures
            r == fab_content(self.color),
    {
        match self.color {
            FabColor::Primary => ColorRole::OnPrimaryContainer,
            FabColor::Surface => ColorRole::Primary,
            FabColor::Secondary => ColorRole::OnSecondaryContainer,
            FabColor::Tertiary => ColorRole::OnTertiaryContainer,
        }
    }

    /// The icon and label paint.
    pub fn content_color(&self) -> (p: Paint)
        ensures
            p == Paint::Solid(fab_content(self.color)),
    {
        Paint::Solid(self.content_role())
    }

    pub fn elevation(&self) -> (e: Elevation)
        ensures
            e == fab_elevation(*self),
    {
        if self.lowered {
            if self.pressed {
                Elevation::Level1
            } else if self.hovered {
                Elevation::Level2
            } else {
                Elevation::Level1
            }
        } else if self.pressed {
            Elevation::Level3
        } else if self.hovered {
            Elevation::Level4
        } else {
            Elevation::Level3
        }
    }

    /// Whether the button carries a label.
    pub fn is_extended(&self) -> (r: bool)
        ensures
            r == self.label is Some,
    {
        self.label.is_some()
    }

    /// Applies what the pointer did to the component `entity`; where it
    /// was a click, returns the event to report.
    pub fn apply_interaction(&mut self, entity: u64, interaction: Interaction) -> (click: Option<
        FabClickEvent,
    >)
        ensures
            *final(self) == fab_after(*old(self), interaction),
            click == (if interaction == Interaction::Pressed {
                Some(FabClickEvent { entity: entity })
            } else {
                None
            }),
    {
        match interaction {
            Interaction::Pressed => {
                self.pressed = true;
                self.hovered = false;
                Some(FabClickEvent { entity })
            },
            Interaction::Hovered => {
                self.pressed = false;
                self.hovered = true;
                None
            },
            Interaction::Idle => {
                self.pressed = false;
                self.hovered = false;
                None
            },
        }
    }
}

/// Least width of an extended button, in pixels.
pub const EXTENDED_FAB_MIN_WIDTH: u32 = 80;

/// A button with how its container is laid out.
#[derive(Debug, Clone)]
pub struct FabParts {
    pub fab: MaterialFab,
    pub background: Paint,
    pub width: Length,
    pub height: Length,
    /// Least width; `None` where there is no limit.
    pub min_width: Option<u32>,
    /// Whether the content is padded (extended buttons) or centered in a
    /// square.
    pub padded: bool,
    pub corner: CornerToken,
    pub shadow: Elevation,
}

/// Builds a floating action button.
pub struct FabBuilder {
    pub fab: MaterialFab,
}

impl FabBuilder {
    pub fn new(icon: &str) -> (b: Self)
        ensures
            fresh_fab(icon@, b.fab),
    {
        Self { fab: MaterialFab::new(icon) }
    }

    pub fn size(self, size: FabSize) -> (b: Self)
        ensures
            b.fab == (MaterialFab { size: size, ..self.fab }),
    {
        Self { fab: self.fab.with_size(size) }
    }

    pub fn small(self) -> (b: Self)
        ensures
            b.fab == (MaterialFab { size: FabSize::Small, ..self.fab }),
    {
        self.size(FabSize::Small)
    }

    pub fn large(self) -> (b: Self)
        ensures
            b.fab == (MaterialFab { size: FabSize::Large, ..self.fab }),
    {
        self.size(FabSize::Large)
    }

    pub fn color(self, color: FabColor) -> (b: Self)
        ensures
            b.fab == (MaterialFab { color: color, ..self.fab }),
    {
        Self { fab: self.fab.with_color(color) }
    }

    pub fn surface(self) -> (b: Self)
        ensures
            b.fab == (MaterialFab { color: FabColor::Surface, ..self.fab }),
    {
        self.color(FabColor::Surface)
    }

    pub fn secondary(self) -> (b: Self)
        ensures
            b.fab == (MaterialFab { color: FabColor::Secondary, ..self.fab }),
    {
        self.color(FabColor::Secondary)
    }

    pub fn tertiary(self) -> (b: Self)
        ensures
            b.fab == (MaterialFab { color: FabColor::Tertiary, ..self.fab }),
    {
        self.color(FabColor::Tertiary)
    }

    pub fn lowered(self) -> (b: Self)
        ensures
            b.fab == (MaterialFab { lowered: true, ..self.fab }),
    {
        Self { fab: self.fab.lowered() }
    }

    pub fn extended(self, label: &str) -> (b: Self)
        ensures
            b.fab.label is Some && b.fab.label->0@ == label@,
            b.fab == (MaterialFab { label: b.fab.label, ..self.fab }),
    {
        Self { fab: self.fab.extended(label) }
    }

    /// The button with its container layout: an extended button grows
    /// with its label from a least width; others are square.
    pub fn build(self) -> (p: FabParts)
        ensures
            p.fab == self.fab,
            p.background == fab_background(self.fab),
            p.height == Length::Px(fab_side(self.fab.size)),
            p.width == (if self.fab.label is Some {
                Length::Auto
            } else {
                Length::Px(fab_side(self.fab.size))
            }),
            p.min_width == (if self.fab.label is Some {
                Some(EXTENDED_FAB_MIN_WIDTH)
            } else {
                None
            }),
            p.padded == self.fab.label is Some,
            p.corner == (match self.fab.size {
                FabSize::Small => CornerToken::Medium,
                FabSize::Regular => CornerToken::Large,
                FabSize::Large => CornerToken::ExtraLarge,
            }),
            p.shadow == fab_elevation(self.fab),
    {
        let background = self.fab.background_color();
        let side = self.fab.size.size();
        let corner = self.fab.size.corner_radius();
        let extended = self.fab.is_extended();
        let shadow = self.fab.elevation();
        FabParts {
            fab: self.fab,
            background,
            width: if extended {
                Length::Auto
            } else {
                Length::Px(side)
            },
            height: Length::Px(side),
            min_width: if extended {
                Some(EXTENDED_FAB_MIN_WIDTH)
            } else {
                None
            },
            padded: extended,
            corner,
            shadow,
        }
    }
}

/// Reported when a floating action button is pressed.
#[derive(Debug, Clone, Copy, PartialEq, Eq, Structural)]
pub struct FabClickEvent {
    /// The entity id of the component.
    pub entity: u64,
}

} // verus!
