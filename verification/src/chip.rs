//! Chips: compact elements for actions (assist), filters, entered
//! values (input) and suggestions.
use vstd::prelude::*;

use crate::style::{
    state_layer_percent, state_layer_percent_spec, ColorRole, Elevation, Interaction, Paint,
    DISABLED_CONTAINER_PERCENT, DISABLED_CONTENT_PERCENT,
};

verus! {

/// Kind of chip.
#[derive(Debug, Clone, Copy, PartialEq, Eq, Structural)]
pub enum ChipVariant {
    Assist,
    /// Toggles its selection when clicked.
    Filter,
    /// An entered value; can be deleted.
    Input,
    Suggestion,
}

impl Default for ChipVariant {
    fn default() -> (v: Self)
        ensures
            v == ChipVariant::Assist,
    {
        ChipVariant::Assist
    }
}

/// Whether a chip is flat or raised.
#[derive(Debug, Clone, Copy, PartialEq, Eq, Structural)]
pub enum ChipElevation {
    Flat,
    Elevated,
}

impl Default for ChipElevation {
    fn default() -> (e: Self)
        ensures
            e == ChipElevation::Flat,
    {
        ChipElevation::Flat
    }
}

impl ChipElevation {
    /// The elevation level: none for a flat chip, the first for a raised one.
    pub fn to_elevation(&self) -> (e: Elevation)
        ensures
            e == (match *self {
                ChipElevation::Flat => Elevation::Level0,
                ChipElevation::Elevated => Elevation::Level1,
            }),
    {
        match self {
            ChipElevation::Flat => Elevation::Level0,
            ChipElevation::Elevated => Elevation::Level1,
        }
    }
}

/// A chip.
#[derive(Debug, Clone)]
pub struct MaterialChip {
    pub variant: ChipVariant,
    pub label: String,
    /// Value reported with clicks.
    pub value: Option<String>,
    pub selected: bool,
    pub disabled: bool,
    /// Whether the chip shows a delete button.
    pub deletable: bool,
    pub has_leading_icon: bool,
    pub elevation: ChipElevation,
    pub pressed: bool,
    pub hovered: bool,
}

/// Height of a chip, in pixels.
pub const CHIP_HEIGHT: u32 = 32;
/// Horizontal padding of a chip without an icon on that side, in pixels.
pub const CHIP_PADDING_HORIZONTAL: u32 = 16;
/// Size of a chip's icons, in pixels.
pub const CHIP_ICON_SIZE: u32 = 18;
/// Horizontal padding on a side with an icon, in pixels.
pub const CHIP_PADDING_WITH_ICON: u32 = 8;

/// A fresh assist chip with the given label.
pub open spec fn fresh_chip(label: Seq<char>, c: MaterialChip) -> bool {
    &&& c.label@ == label
    &&& c.variant == ChipVariant::Assist
    &&& c.value is None
    &&& !c.selected
    &&& !c.disabled
    &&& !c.deletable
    &&& !c.has_leading_icon
    &&& c.elevation == ChipElevation::Flat
    &&& !c.pressed
    &&& !c.hovered
}

/// Whether the chip is a selected filter chip.
pub open spec fn selected_filter(c: MaterialChip) -> bool {
    c.variant == ChipVariant::Filter && c.selected
}

/// The role of the chip's state layer.
pub open spec fn chip_state_role(c: MaterialChip) -> ColorRole {
    if selected_filter(c) {
        ColorRole::OnSecondaryContainer
    } else {
        ColorRole::OnSurfaceVariant
    }
}

/// The container paint of a chip.
pub open spec fn chip_background(c: MaterialChip) -> Paint {
    let p = state_layer_percent_spec(c.disabled, c.pressed, c.hovered);
    let base: Option<ColorRole> = if selected_filter(c) {
        Some(ColorRole::SecondaryContainer)
    } else if c.elevation == ChipElevation::Elevated {
        Some(ColorRole::SurfaceContainerLow)
    } else {
        None
    };
    if c.disabled {
        Paint::Faded(ColorRole::OnSurface, DISABLED_CONTAINER_PERCENT)
    } else if p > 0 {
        match base {
            Some(b) => Paint::Layered(b, chip_state_role(c), p),
            None => Paint::Faded(chip_state_role(c), p),
        }
    } else {
        match base {
            Some(b) => Paint::Solid(b),
            None => Paint::Transparent,
        }
    }
}

/// The outline paint of a chip: none for selected filter chips and raised
/// chips.
pub open spec fn chip_outline(c: MaterialChip) -> Paint {
    if c.disabled {
        Paint::Faded(ColorRole::OnSurface, DISABLED_CONTAINER_PERCENT)
    } else if selected_filter(c) || c.elevation == ChipElevation::Elevated {
        Paint::Transparent
    } else {
        Paint::Solid(ColorRole::Outline)
    }
}

/// The chip after the pointer does `interaction` on it: a press toggles a
/// filter chip's selection.
pub open spec fn chip_after(c: MaterialChip, interaction: Interaction) -> MaterialChip {
    if c.disabled {
        c
    } else {
        match interaction {
            Interaction::Pressed => MaterialChip {
                pressed: true,
                hovered: false,
                selected: if c.variant == ChipVariant::Filter {
                    !c.selected
                } else {
                    c.selected
                },
                ..c
            },
            Interaction::Hovered => MaterialChip { pressed: false, hovered: true, ..c },
            Interaction::Idle => MaterialChip { pressed: false, hovered: false, ..c },
        }
    }
}

impl MaterialChip {
    pub fn new(label: &str) -> (c: Self)
        ensures
            fresh_chip(label@, c),
    {
        Self {
            variant: ChipVariant::Assist,
            label: String::from_str(label),
            value: None,
            selected: false,
            disabled: false,
            deletable: false,
            has_leading_icon: false,
            elevation: ChipElevation::Flat,
            pressed: false,
            hovered: false,
        }
    }

    pub fn with_variant(self, variant: ChipVariant) -> (c: Self)
        ensures
            c == (MaterialChip { variant: variant, ..self }),
    {
        let mut this = self;
        this.variant = variant;
        this
    }

    pub fn assist(label: &str) -> (c: Self)
        ensures
            fresh_chip(label@, c),
    {
        Self::new(label).with_variant(ChipVariant::Assist)
    }

    pub fn filter(label: &str) -> (c: Self)
        ensures
            fresh_chip(label@, MaterialChip { variant: ChipVariant::Assist, ..c }),
            c.variant == ChipVariant::Filter,
    {
        Self::new(label).with_variant(ChipVariant::Filter)
    }

    /// An input chip, deletable.
    pub fn input(label: &str) -> (c: Self)
        ensures
            fresh_chip(label@, MaterialChip { variant: ChipVariant::Assist, deletable: false, ..c }),
            c.variant == ChipVariant::Input,
            c.deletable,
    {
        Self::new(label).with_variant(ChipVariant::Input).with_deletable(true)
    }

    pub fn suggestion(label: &str) -> (c: Self)
        ensures
            fresh_chip(label@, MaterialChip { variant: ChipVariant::Assist, ..c }),
            c.variant == ChipVariant::Suggestion,
    {
        Self::new(label).with_variant(ChipVariant::Suggestion)
    }

    pub fn with_value(self, value: &str) -> (c: Self)
        ensures
            c.value is Some && c.value->0@ == value@,
            c == (MaterialChip { value: c.value, ..self }),
    {
        let mut this = self;
        this.value = Some(String::from_str(value));
        this
    }

    pub fn with_selected(self, selected: bool) -> (c: Self)
        ensures
            c == (MaterialChip { selected: selected, ..self }),
    {
        let mut this = self;
        this.selected = selected;
        this
    }

    pub fn with_disabled(self, disabled: bool) -> (c: Self)
        ensures
            c == (MaterialChip { disabled: disabled, ..self }),
    {
        let mut this = self;
        this.disabled = disabled;
        this
    }

    pub fn with_deletable(self, deletable: bool) -> (c: Self)
        ensures
            c == (MaterialChip { deletable: deletable, ..self }),
    {
        let mut this = self;
        this.deletable = deletable;
        this
    }

    pub fn elevated(self) -> (c: Self)
        ensures
            c == (MaterialChip { elevation: ChipElevation::Elevated, ..self }),
    {
        let mut this = self;
        this.elevation = ChipElevation::Elevated;
        this
    }

    pub fn with_leading_icon(self) -> (c: Self)
        ensures
            c == (MaterialChip { has_leading_icon: true, ..self }),
    {
        let mut this = self;
        this.has_leading_icon = true;
        this
    }

    /// The container paint.
    pub fn background_color(&self) -> (p: Paint)
        ensures
            p == chip_background(*self),
    {
        if self.disabled {
            return Paint::Faded(ColorRole::OnSurface, DISABLED_CONTAINER_PERCENT);
        }
        let filter_on = match self.variant {
            ChipVariant::Filter => self.selected,
            _ => false,
        };
        let base: Option<ColorRole> = if filter_on {
            Some(ColorRole::SecondaryContainer)
        } else {
            match self.elevation {
                ChipElevation::Elevated => Some(ColorRole::SurfaceContainerLow),
                ChipElevation::Flat => None,
            }
        };
        let p = self.state_layer_opacity();
        let state = self.state_layer_role();
        if p > 0 {
            match base {
                Some(b) => Paint::Layered(b, state, p),
                None => Paint::Faded(state, p),
            }
        } else {
            match base {
                Some(b) => Paint::Solid(b),
                None => Paint::Transparent,
            }
        }
    }

    /// The outline paint.
    pub fn outline_color(&self) -> (p: Paint)
        ensures
            p == chip_outline(*self),
    {
        if self.disabled {
            return Paint::Faded(ColorRole::OnSurface, DISABLED_CONTAINER_PERCENT);
        }
        let filter_on = match self.variant {
            ChipVariant::Filter => self.selected,
            _ => false,
        };
        if filter_on {
            return Paint::Transparent;
        }
        match self.elevation {
            ChipElevation::Elevated => Paint::Transparent,
            ChipElevation::Flat => Paint::Solid(ColorRole::Outline),
        }
    }

    /// The label paint.
    pub fn label_color(&self) -> (p: Paint)
        ensures
            p == (if self.disabled {
                Paint::Faded(ColorRole::OnSurface, DISABLED_CONTENT_PERCENT)
            } else if selected_filter(*self) {
                Paint::Solid(ColorRole::OnSecondaryContainer)
            } else {
                Paint::Solid(ColorRole::OnSurfaceVariant)
            }),
    {
        if self.disabled {
            return Paint::Faded(ColorRole::OnSurface, DISABLED_CONTENT_PERCENT);
        }
        match self.variant {
            ChipVariant::Filter => if self.selected {
                Paint::Solid(ColorRole::OnSecondaryContainer)
            } else {
                Paint::Solid(ColorRole::OnSurfaceVariant)
            },
            _ => Paint::Solid(ColorRole::OnSurfaceVariant),
        }
    }

    /// The icon paint.
    pub fn icon_color(&self) -> (p: Paint)
        ensures
            p == (if self.disabled {
                Paint::Faded(ColorRole::OnSurface, DISABLED_CONTENT_PERCENT)
            } else if selected_filter(*self) {
                Paint::Solid(ColorRole::OnSecondaryContainer)
            } else {
                Paint::Solid(ColorRole::Primary)
            }),
    {
        if self.disabled {
            return Paint::Faded(ColorRole::OnSurface, DISABLED_CONTENT_PERCENT);
        }
        match self.variant {
            ChipVariant::Filter => if self.selected {
                Paint::Solid(ColorRole::OnSecondaryContainer)
            } else {
                Paint::Solid(ColorRole::Primary)
            },
            _ => Paint::Solid(ColorRole::Primary),
        }
    }

    /// The state layer paint (its color at full opacity).
    pub fn state_layer_color(&self) -> (p: Paint)
        ensures
            p == Paint::Solid(chip_state_role(*self)),
    {
        Paint::Solid(self.state_layer_role())
    }

    fn state_layer_role(&self) -> (r: ColorRole)
        ensures
            r == chip_state_role(*self),
    {
        match self.variant {
            ChipVariant::Filter => if self.selected {
                ColorRole::OnSecondaryContainer
            } else {
                ColorRole::OnSurfaceVariant
            },
            _ => ColorRole::OnSurfaceVariant,
        }
    }

    fn state_layer_opacity(&self) -> (p: u8)
        ensures
            p == state_layer_percent_spec(self.disabled, self.pressed, self.hovered),
    {
        state_layer_percent(self.disabled, self.pressed, self.hovered)
    }

    /// Applies what the pointer did to the chip `entity`; where it was a
    /// press, returns the click to report, with the chip's value.
    pub fn apply_interaction(&mut self, entity: u64, interaction: Interaction) -> (click: Option<
        ChipClickEvent,
    >)
        ensures
            *final(self) == chip_after(*old(self), interaction),
            match click {
                Some(e) => !old(self).disabled && interaction == Interaction::Pressed && e.entity
                    == entity && e.value == old(self).value,
                None => old(self).disabled || interaction != Interaction::Pressed,
            },
    {
        if self.disabled {
            return None;
        }
        match interaction {
            Interaction::Pressed => {
                self.pressed = true;
                self.hovered = false;
                if let ChipVariant::Filter = self.variant {
                    self.selected = !self.selected;
                }
                Some(ChipClickEvent { entity, value: self.value.clone() })
            },
            Interaction::Hovered => {
                self.pressed = false;
                self.hovered = true;
                None
            },
            Interaction::Idle => {
                self.pressed = false;
                self.hovered = false;
                None
            },
        }
    }
}

impl Default for MaterialChip {
    fn default() -> (c: Self)
        ensures
            fresh_chip(Seq::empty(), c),
    {
        let c = Self::new("");
        proof {
            reveal_strlit("");
            assert(""@ =~= Seq::<char>::empty());
        }
        c
    }
}

/// Pressing an enabled filter chip twice gives back its selection; other
/// chips keep their selection when pressed.
pub proof fn lemma_filter_press_toggles(c: MaterialChip)
    requires
        !c.disabled,
    ensures
        c.variant == ChipVariant::Filter ==> chip_after(c, Interaction::Pressed).selected
            != c.selected && chip_after(chip_after(c, Interaction::Pressed), Interaction::Pressed).selected
            == c.selected,
        c.variant != ChipVariant::Filter ==> chip_after(c, Interaction::Pressed).selected
            == c.selected,
{
}

/// What a chip shows inside: a leading glyph, the label and a delete
/// button.
#[derive(Debug, Clone)]
pub struct ChipContent {
    /// The leading glyph: a check mark on a selected filter chip, else the
    /// chip's icon (a star where none was named), else nothing.
    pub leading: Option<String>,
    pub label: String,
    /// Whether a delete button (a cross) follows the label.
    pub delete_button: bool,
}

/// A chip with how its container is drawn.
#[derive(Debug, Clone)]
pub struct ChipParts {
    pub chip: MaterialChip,
    pub background: Paint,
    pub outline: Paint,
    /// Border width in pixels: 1 where an outline is drawn, else 0.
    pub border_width: u32,
    pub padding_left: u32,
    pub padding_right: u32,
    pub elevation: Elevation,
}

/// Builds a chip.
pub struct ChipBuilder {
    pub chip: MaterialChip,
    pub leading_icon: Option<String>,
}

/// A chip builder as plain values.
pub struct ChipBuilderView {
    pub chip: MaterialChip,
    pub leading_icon: Option<Seq<char>>,
}

impl View for ChipBuilder {
    type V = ChipBuilderView;

    closed spec fn view(&self) -> ChipBuilderView {
        ChipBuilderView {
            chip: self.chip,
            leading_icon: match self.leading_icon {
                Some(s) => Some(s@),
                None => None,
            },
        }
    }
}

/// The leading glyph a chip shows.
pub open spec fn leading_glyph(b: ChipBuilderView) -> Option<Seq<char>> {
    if selected_filter(b.chip) {
        Some(seq!['\u{2713}'])
    } else if b.chip.has_leading_icon {
        match b.leading_icon {
            Some(i) => Some(i),
            None => Some(seq!['\u{2605}']),
        }
    } else {
        None
    }
}

impl ChipBuilder {
    pub fn new(label: &str) -> (b: Self)
        ensures
            fresh_chip(label@, b@.chip),
            b@.leading_icon is None,
    {
        Self { chip: MaterialChip::new(label), leading_icon: None }
    }

    pub fn variant(self, variant: ChipVariant) -> (b: Self)
        ensures
            b@.chip == (MaterialChip { variant: variant, ..self@.chip }),
            b@.leading_icon == self@.leading_icon,
    {
        let mut this = self;
        this.chip.variant = variant;
        this
    }

    pub fn assist(label: &str) -> (b: Self)
        ensures
            fresh_chip(label@, b@.chip),
            b@.leading_icon is None,
    {
        Self::new(label).variant(ChipVariant::Assist)
    }

    pub fn filter(label: &str) -> (b: Self)
        ensures
            fresh_chip(label@, MaterialChip { variant: ChipVariant::Assist, ..b@.chip }),
            b@.chip.variant == ChipVariant::Filter,
            b@.leading_icon is None,
    {
        Self::new(label).variant(ChipVariant::Filter)
    }

    pub fn input(label: &str) -> (b: Self)
        ensures
            fresh_chip(
                label@,
                MaterialChip { variant: ChipVariant::Assist, deletable: false, ..b@.chip },
            ),
            b@.chip.variant == ChipVariant::Input,
            b@.chip.deletable,
            b@.leading_icon is None,
    {
        Self::new(label).variant(ChipVariant::Input).deletable(true)
    }

    pub fn suggestion(label: &str) -> (b: Self)
        ensures
            fresh_chip(label@, MaterialChip { variant: ChipVariant::Assist, ..b@.chip }),
            b@.chip.variant == ChipVariant::Suggestion,
            b@.leading_icon is None,
    {
        Self::new(label).variant(ChipVariant::Suggestion)
    }

    pub fn value(self, value: &str) -> (b: Self)
        ensures
            b@.chip.value is Some && b@.chip.value->0@ == value@,
            b@.chip == (MaterialChip { value: b@.chip.value, ..self@.chip }),
            b@.leading_icon == self@.leading_icon,
    {
        let mut this = self;
        this.chip.value = Some(String::from_str(value));
        this
    }

    pub fn selected(self, selected: bool) -> (b: Self)
        ensures
            b@.chip == (MaterialChip { selected: selected, ..self@.chip }),
            b@.leading_icon == self@.leading_icon,
    {
        let mut this = self;
        this.chip.selected = selected;
        this
    }

    pub fn disabled(self, disabled: bool) -> (b: Self)
        ensures
            b@.chip == (MaterialChip { disabled: disabled, ..self@.chip }),
            b@.leading_icon == self@.leading_icon,
    {
        let mut this = self;
        this.chip.disabled = disabled;
        this
    }

    pub fn deletable(self, deletable: bool) -> (b: Self)
        ensures
            b@.chip == (MaterialChip { deletable: deletable, ..self@.chip }),
            b@.leading_icon == self@.leading_icon,
    {
        let mut this = self;
        this.chip.deletable = deletable;
        this
    }

    pub fn elevated(self) -> (b: Self)
        ensures
            b@.chip == (MaterialChip { elevation: ChipElevation::Elevated, ..self@.chip }),
            b@.leading_icon == self@.leading_icon,
    {
        let mut this = self;
        this.chip.elevation = ChipElevation::Elevated;
        this
    }

    pub fn leading_icon(self, icon: &str) -> (b: Self)
        ensures
            b@.chip == (MaterialChip { has_leading_icon: true, ..self@.chip }),
            b@.leading_icon == Some(icon@),
    {
        let mut this = self;
        this.leading_icon = Some(String::from_str(icon));
        this.chip.has_leading_icon = true;
        this
    }

    /// What the chip shows inside.
    pub fn content(&self) -> (c: ChipContent)
        ensures
            c.label@ == self@.chip.label@,
            c.delete_button == self@.chip.deletable,
            match c.leading {
                Some(t) => leading_glyph(self@) == Some(t@),
                None => leading_glyph(self@) is None,
            },
    {
        let filter_on = match self.chip.variant {
            ChipVariant::Filter => self.chip.selected,
            _ => false,
        };
        let leading = if filter_on {
            let mut s = String::new();
            crate::text::push_char(&mut s, '\u{2713}');
            proof {
                assert(s@ =~= seq!['\u{2713}']);
            }
            Some(s)
        } else if self.chip.has_leading_icon {
            match &self.leading_icon {
                Some(i) => Some(i.clone()),
                None => {
                    let mut s = String::new();
                    crate::text::push_char(&mut s, '\u{2605}');
                    proof {
                        assert(s@ =~= seq!['\u{2605}']);
                    }
                    Some(s)
                },
            }
        } else {
            None
        };
        ChipContent { leading, label: self.chip.label.clone(), delete_button: self.chip.deletable }
    }

    /// The chip with its container paint, border, padding and shadow: the
    /// side with an icon gets the narrow padding.
    pub fn build(self) -> (p: ChipParts)
        ensures
            p.chip == self@.chip,
            p.background == chip_background(self@.chip),
            p.outline == chip_outline(self@.chip),
            p.border_width == (if chip_outline(self@.chip) != Paint::Transparent { 1u32 } else { 0 }),
            p.padding_left == (if self@.chip.has_leading_icon {
                CHIP_PADDING_WITH_ICON
            } else {
                CHIP_PADDING_HORIZONTAL
            }),
            p.padding_right == (if self@.chip.deletable {
                CHIP_PADDING_WITH_ICON
            } else {
                CHIP_PADDING_HORIZONTAL
            }),
            p.elevation == (match self@.chip.elevation {
                ChipElevation::Flat => Elevation::Level0,
                ChipElevation::Elevated => Elevation::Level1,
            }),
    {
        let background = self.chip.background_color();
        let outline = self.chip.outline_color();
        let border_width: u32 = match outline {
            Paint::Transparent => 0,
            _ => 1,
        };
        let padding_left = if self.chip.has_leading_icon {
            CHIP_PADDING_WITH_ICON
        } else {
            CHIP_PADDING_HORIZONTAL
        };
        let padding_right = if self.chip.deletable {
            CHIP_PADDING_WITH_ICON
        } else {
            CHIP_PADDING_HORIZONTAL
        };
        let elevation = self.chip.elevation.to_elevation();
        ChipParts {
            chip: self.chip,
            background,
            outline,
            border_width,
            padding_left,
            padding_right,
            elevation,
        }
    }
}

/// Reported when a chip is pressed.
#[derive(Debug, Clone)]
pub struct ChipClickEvent {
    /// The entity id of the chip.
    pub entity: u64,
    /// The chip's value, where it has one.
    pub value: Option<String>,
}

/// Reported when a chip's delete button is pressed.
#[derive(Debug, Clone)]
pub struct ChipDeleteEvent {
    /// The entity id of the chip.
    pub entity: u64,
    /// The chip's value; left for the handler to look up.
    pub value: Option<String>,
}

/// What a press on the delete button of the chip `chip_entity` reports:
/// a delete event for the chip, on a press only.
pub fn delete_button_event(chip_entity: u64, interaction: Interaction) -> (event: Option<
    ChipDeleteEvent,
>)
    ensures
        match event {
            Some(e) => interaction == Interaction::Pressed && e.entity == chip_entity && e.value
                is None,
            None => interaction != Interaction::Pressed,
        },
{
    match interaction {
        Interaction::Pressed => Some(ChipDeleteEvent { entity: chip_entity, value: None }),
        _ => None,
    }
}

} // verus!
