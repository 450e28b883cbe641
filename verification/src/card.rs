//! Cards: containers for content about one subject.
use vstd::prelude::*;

use crate::style::{ColorRole, Elevation, Interaction, Length, Paint, HOVER_STATE_LAYER_PERCENT, PRESSED_STATE_LAYER_PERCENT};

verus! {

/// Kind of card.
#[derive(Debug, Clone, Copy, PartialEq, Eq, Structural)]
pub enum CardVariant {
    Elevated,
    Filled,
    Outlined,
}

impl Default for CardVariant {
    fn default() -> (v: Self)
        ensures
            v == CardVariant::Elevated,
    {
        CardVariant::Elevated
    }
}

/// A card.
#[derive(Debug, Clone, Copy, PartialEq, Eq, Structural)]
pub struct MaterialCard {
    pub variant: CardVariant,
    /// Whether the card reacts to the pointer.
    pub clickable: bool,
    pub draggable: bool,
    pub pressed: bool,
    pub hovered: bool,
}

/// A fresh elevated card that does not react to the pointer.
pub open spec fn fresh_card() -> MaterialCard {
    MaterialCard {
        variant: CardVariant::Elevated,
        clickable: false,
        draggable: false,
        pressed: false,
        hovered: false,
    }
}

/// The container role of a card variant.
pub open spec fn card_base(v: CardVariant) -> ColorRole {
    match v {
        CardVariant::Elevated => ColorRole::SurfaceContainerLow,
        CardVariant::Filled => ColorRole::SurfaceContainerHighest,
        CardVariant::Outlined => ColorRole::Surface,
    }
}

/// The state layer opacity of a card, in percent: only clickable cards
/// have one.
pub open spec fn card_state_percent(c: MaterialCard) -> u8 {
    if !c.clickable {
        0
    } else if c.pressed {
        PRESSED_STATE_LAYER_PERCENT
    } else if c.hovered {
        HOVER_STATE_LAYER_PERCENT
    } else {
        0
    }
}

/// The card after the pointer does `interaction` on it (only clickable
/// cards react).
pub open spec fn card_after(c: MaterialCard, interaction: Interaction) -> MaterialCard {
    if !c.clickable {
        c
    } else {
        match interaction {
            Interaction::Pressed => MaterialCard { pressed: true, hovered: false, ..c },
            Interaction::Hovered => MaterialCard { pressed: false, hovered: true, ..c },
            Interaction::Idle => MaterialCard { pressed: false, hovered: false, ..c },
        }
    }
}

/// The elevation of a card: an elevated card rises when the pointer is on
/// it; the others only where clickable.
pub open spec fn card_elevation(c: MaterialCard) -> Elevation {
    match c.variant {
        CardVariant::Elevated => if c.pressed || c.hovered {
            Elevation::Level2
        } else {
            Elevation::Level1
        },
        _ => if c.clickable && (c.pressed || c.hovered) {
            Elevation::Level1
        } else {
            Elevation::Level0
        },
    }
}

impl MaterialCard {
    pub fn new() -> (c: Self)
        ensures
            c == fresh_card(),
    {
        Self {
            variant: CardVariant::Elevated,
            clickable: false,
            draggable: false,
            pressed: false,
            hovered: false,
        }
    }

    pub fn with_variant(self, variant: CardVariant) -> (c: Self)
        ensures
            c == (MaterialCard { variant: variant, ..self }),
    {
        let mut this = self;
        this.variant = variant;
        this
    }

    pub fn clickable(self) -> (c: Self)
        ensures
            c == (MaterialCard { clickable: true, ..self }),
    {
        let mut this = self;
        this.clickable = true;
        this
    }

    pub fn draggable(self) -> (c: Self)
        ensures
            c == (MaterialCard { draggable: true, ..self }),
    {
        let mut this = self;
        this.draggable = true;
        this
    }

    /// The container paint, with the on-surface state layer over it.
    pub fn background_color(&self) -> (p: Paint)
        ensures
            p == (if card_state_percent(*self) > 0 {
                Paint::Layered(card_base(self.variant), ColorRole::OnSurface, card_state_percent(*self))
            } else {
                Paint::Solid(card_base(self.variant))
            }),
    {
        let base = match self.variant {
            CardVariant::Elevated => ColorRole::SurfaceContainerLow,
            CardVariant::Filled => ColorRole::SurfaceContainerHighest,
            CardVariant::Outlined => ColorRole::Surface,
        };
        let p = self.state_layer_opacity();
        if p > 0 {
            Paint::Layered(base, ColorRole::OnSurface, p)
        } else {
            Paint::Solid(base)
        }
    }

    /// Only outlined cards have a visible border.
    pub fn border_color(&self) -> (p: Paint)
        ensures
            p == (if self.variant == CardVariant::Outlined {
                Paint::Solid(ColorRole::OutlineVariant)
            } else {
                Paint::Transparent
            }),
    {
        match self.variant {
            CardVariant::Outlined => Paint::Solid(ColorRole::OutlineVariant),
            _ => Paint::Transparent,
        }
    }

    pub fn elevation(&self) -> (e: Elevation)
        ensures
            e == card_elevation(*self),
    {
        match self.variant {
            CardVariant::Elevated => {
                if self.pressed || self.hovered {
                    Elevation::Level2
                } else {
                    Elevation::Level1
                }
            },
            _ => {
                if self.clickable && (self.pressed || self.hovered) {
                    Elevation::Level1
                } else {
                    Elevation::Level0
                }
            },
        }
    }

    /// The state layer opacity, in percent.
    pub fn state_layer_opacity(&self) -> (p: u8)
        ensures
            p == card_state_percent(*self),
    {
        if !self.clickable {
            return 0;
        }
        if self.pressed {
            PRESSED_STATE_LAYER_PERCENT
        } else if self.hovered {
            HOVER_STATE_LAYER_PERCENT
        } else {
            0
        }
    }

    /// Applies what the pointer did to the component `entity`; where it
    /// was a click, returns the event to report.
    pub fn apply_interaction(&mut self, entity: u64, interaction: Interaction) -> (click: Option<
        CardClickEvent,
    >)
        ensures
            *final(self) == card_after(*old(self), interaction),
            click == (if old(self).clickable && interaction == Interaction::Pressed {
                Some(CardClickEvent { entity: entity })
            } else {
                None
            }),
    {
        if !self.clickable {
            return None;
        }
        match interaction {
            Interaction::Pressed => {
                self.pressed = true;
                self.hovered = false;
                Some(CardClickEvent { entity })
            },
            Interaction::Hovered => {
                self.pressed = false;
                self.hovered = true;
                None
            },
            Interaction::Idle => {
                self.pressed = false;
                self.hovered = false;
                None
            },
        }
    }
}

impl Default for MaterialCard {
    fn default() -> (c: Self)
        ensures
            c == fresh_card(),
    {
        Self::new()
    }
}

/// A card with how its container is drawn.
#[derive(Debug, Clone, Copy, PartialEq, Eq, Structural)]
pub struct CardParts {
    pub card: MaterialCard,
    pub background: Paint,
    pub border: Paint,
    /// Border width in pixels: 1 for outlined cards, else 0.
    pub border_width: u32,
    pub width: Option<Length>,
    pub height: Option<Length>,
    /// Inner padding in pixels; `None` for the standard large spacing.
    pub padding: Option<u32>,
    /// The shadow, where one is drawn.
    pub shadow: Option<Elevation>,
}

/// Builds a card.
#[derive(Debug, Clone, Copy, PartialEq, Eq, Structural)]
pub struct CardBuilder {
    pub card: MaterialCard,
    pub width: Option<Length>,
    pub height: Option<Length>,
    /// Inner padding in pixels; `None` for the standard large spacing.
    pub padding: Option<u32>,
}

impl CardBuilder {
    pub fn new() -> (b: Self)
        ensures
            b == (CardBuilder { card: fresh_card(), width: None, height: None, padding: None }),
    {
        Self { card: MaterialCard::new(), width: None, height: None, padding: None }
    }

    pub fn variant(self, variant: CardVariant) -> (b: Self)
        ensures
            b == (CardBuilder { card: MaterialCard { variant: variant, ..self.card }, ..self }),
    {
        let mut this = self;
        this.card.variant = variant;
        this
    }

    pub fn elevated(self) -> (b: Self)
        ensures
            b == (CardBuilder { card: MaterialCard { variant: CardVariant::Elevated, ..self.card }, ..self }),
    {
        self.variant(CardVariant::Elevated)
    }

    pub fn filled(self) -> (b: Self)
        ensures
            b == (CardBuilder { card: MaterialCard { variant: CardVariant::Filled, ..self.card }, ..self }),
    {
        self.variant(CardVariant::Filled)
    }

    pub fn outlined(self) -> (b: Self)
        ensures
            b == (CardBuilder { card: MaterialCard { variant: CardVariant::Outlined, ..self.card }, ..self }),
    {
        self.variant(CardVariant::Outlined)
    }

    pub fn clickable(self) -> (b: Self)
        ensures
            b == (CardBuilder { card: MaterialCard { clickable: true, ..self.card }, ..self }),
    {
        let mut this = self;
        this.card.clickable = true;
        this
    }

    pub fn draggable(self) -> (b: Self)
        ensures
            b == (CardBuilder { card: MaterialCard { draggable: true, ..self.card }, ..self }),
    {
        let mut this = self;
        this.card.draggable = true;
        this
    }

    pub fn width(self, width: Length) -> (b: Self)
        ensures
            b == (CardBuilder { width: Some(width), ..self }),
    {
        let mut this = self;
        this.width = Some(width);
        this
    }

    pub fn height(self, height: Length) -> (b: Self)
        ensures
            b == (CardBuilder { height: Some(height), ..self }),
    {
        let mut this = self;
        this.height = Some(height);
        this
    }

    pub fn padding(self, padding: u32) -> (b: Self)
        ensures
            b == (CardBuilder { padding: Some(padding), ..self }),
    {
        let mut this = self;
        this.padding = Some(padding);
        this
    }

    /// The card with its paints, size, padding and shadow.
    pub fn build(self) -> (p: CardParts)
        ensures
            p.shadow == Some(card_elevation(self.card)),
            p.card == self.card,
            p.border_width == (if self.card.variant == CardVariant::Outlined { 1u32 } else { 0 }),
            p.width == self.width,
            p.height == self.height,
            p.padding == self.padding,
            p.background == (if card_state_percent(self.card) > 0 {
                Paint::Layered(card_base(self.card.variant), ColorRole::OnSurface, card_state_percent(self.card))
            } else {
                Paint::Solid(card_base(self.card.variant))
            }),
            p.border == (if self.card.variant == CardVariant::Outlined {
                Paint::Solid(ColorRole::OutlineVariant)
            } else {
                Paint::Transparent
            }),
    {
        let mut p = self.build_without_shadow();
        p.shadow = Some(self.card.elevation());
        p
    }

    /// As `build`, without a shadow.
    pub fn build_without_shadow(self) -> (p: CardParts)
        ensures
            p.shadow is None,
            p.card == self.card,
            p.border_width == (if self.card.variant == CardVariant::Outlined { 1u32 } else { 0 }),
            p.width == self.width,
            p.height == self.height,
            p.padding == self.padding,
            p.background == (if card_state_percent(self.card) > 0 {
                Paint::Layered(card_base(self.card.variant), ColorRole::OnSurface, card_state_percent(self.card))
            } else {
                Paint::Solid(card_base(self.card.variant))
            }),
            p.border == (if self.card.variant == CardVariant::Outlined {
                Paint::Solid(ColorRole::OutlineVariant)
            } else {
                Paint::Transparent
            }),
    {
        let border_width: u32 = match self.card.variant {
            CardVariant::Outlined => 1,
            _ => 0,
        };
        CardParts {
            card: self.card,
            background: self.card.background_color(),
            border: self.card.border_color(),
            border_width,
            width: self.width,
            height: self.height,
            padding: self.padding,
            shadow: None,
        }
    }
}

impl Default for CardBuilder {
    fn default() -> (b: Self)
        ensures
            b == (CardBuilder { card: fresh_card(), width: None, height: None, padding: None }),
    {
        Self::new()
    }
}

/// Reported when a clickable card is pressed.
#[derive(Debug, Clone, Copy, PartialEq, Eq, Structural)]
pub struct CardClickEvent {
    /// The entity id of the component.
    pub entity: u64,
}

} // verus!
