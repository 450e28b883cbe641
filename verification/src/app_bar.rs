//! Top and bottom app bars.
use vstd::prelude::*;

use crate::hierarchy::{first_marked_from, nearest_marked_ancestor};
use crate::style::{ColorRole, Interaction, Paint};

verus! {

/// Kind of top app bar.
#[derive(Debug, Clone, Copy, PartialEq, Eq, Structural)]
pub enum TopAppBarVariant {
    Small,
    CenterAligned,
    Medium,
    Large,
}

impl Default for TopAppBarVariant {
    fn default() -> (v: Self)
        ensures
            v == TopAppBarVariant::Small,
    {
        TopAppBarVariant::Small
    }
}

/// How a top app bar reacts to scrolling.
#[derive(Debug, Clone, Copy, PartialEq, Eq, Structural)]
pub enum TopAppBarScrollBehavior {
    Fixed,
    Scroll,
    EnterExit,
    Collapse,
}

impl Default for TopAppBarScrollBehavior {
    fn default() -> (b: Self)
        ensures
            b == TopAppBarScrollBehavior::Fixed,
    {
        TopAppBarScrollBehavior::Fixed
    }
}

/// Arrangement of a bottom app bar.
#[derive(Debug, Clone, Copy, PartialEq, Eq, Structural)]
pub enum BottomAppBarLayout {
    Standard,
    WithFab,
}

impl Default for BottomAppBarLayout {
    fn default() -> (l: Self)
        ensures
            l == BottomAppBarLayout::Standard,
    {
        BottomAppBarLayout::Standard
    }
}

/// An action button of an app bar.
#[derive(Debug, Clone)]
pub struct AppBarAction {
    pub icon: String,
    /// Identifier reported when the action is pressed.
    pub id: String,
    pub disabled: bool,
}

impl AppBarAction {
    pub fn new(icon: &str, id: &str) -> (a: Self)
        ensures
            a.icon@ == icon@,
            a.id@ == id@,
            !a.disabled,
    {
        Self { icon: String::from_str(icon), id: String::from_str(id), disabled: false }
    }

    pub fn disabled(self, disabled: bool) -> (a: Self)
        ensures
            a == (AppBarAction { disabled: disabled, ..self }),
    {
        let mut this = self;
        this.disabled = disabled;
        this
    }
}

/// Height of a small or center-aligned top app bar, in pixels.
pub const TOP_APP_BAR_HEIGHT_SMALL: u32 = 64;
/// Expanded height of a medium top app bar, in pixels.
pub const TOP_APP_BAR_HEIGHT_MEDIUM: u32 = 112;
/// Expanded height of a large top app bar, in pixels.
pub const TOP_APP_BAR_HEIGHT_LARGE: u32 = 152;
/// Height of a bottom app bar, in pixels.
pub const BOTTOM_APP_BAR_HEIGHT: u32 = 80;
/// Scroll distance, in pixels, over which a medium or large bar collapses.
pub const COLLAPSE_DISTANCE: u32 = 100;

/// A top app bar.
#[derive(Debug, Clone)]
pub struct TopAppBar {
    pub variant: TopAppBarVariant,
    pub title: String,
    /// Icon of the navigation button, if there is one.
    pub navigation_icon: Option<String>,
    pub actions: Vec<AppBarAction>,
    pub scroll_behavior: TopAppBarScrollBehavior,
    /// How far the content under the bar is scrolled, in pixels.
    pub scroll_offset: i32,
    pub elevated: bool,
}

/// A fresh small top app bar with the given title.
pub open spec fn fresh_top_bar(title: Seq<char>, b: TopAppBar) -> bool {
    &&& b.title@ == title
    &&& b.variant == TopAppBarVariant::Small
    &&& b.navigation_icon is None
    &&& b.actions@.len() == 0
    &&& b.scroll_behavior == TopAppBarScrollBehavior::Fixed
    &&& b.scroll_offset == 0
    &&& !b.elevated
}

/// How far a bar is collapsed, in percent: the scroll offset clamped to
/// the collapse distance.
pub open spec fn collapse_percent(offset: i32) -> int {
    if offset <= 0 {
        0
    } else if offset >= 100 {
        100
    } else {
        offset as int
    }
}

/// Height of a bar, in hundredths of a pixel: medium and large bars shrink
/// from their height towards the small height in proportion to how far
/// they are collapsed. For a whole-pixel scroll offset this is exact.
pub open spec fn top_bar_height(variant: TopAppBarVariant, offset: i32) -> int {
    let c = collapse_percent(offset);
    match variant {
        TopAppBarVariant::Medium => TOP_APP_BAR_HEIGHT_MEDIUM * 100 - c * (TOP_APP_BAR_HEIGHT_MEDIUM
            - TOP_APP_BAR_HEIGHT_SMALL),
        TopAppBarVariant::Large => TOP_APP_BAR_HEIGHT_LARGE * 100 - c * (TOP_APP_BAR_HEIGHT_LARGE
            - TOP_APP_BAR_HEIGHT_SMALL),
        _ => TOP_APP_BAR_HEIGHT_SMALL * 100,
    }
}

/// Where a top app bar shows its title.
#[derive(Debug, Clone, Copy, PartialEq, Eq, Structural)]
pub enum TitlePlacement {
    /// After the navigation button (small bars).
    Leading,
    /// In the middle (center-aligned bars).
    Centered,
    /// Not in the bar row (medium and large bars).
    Hidden,
}

impl TopAppBar {
    pub fn new(title: &str) -> (b: Self)
        ensures
            fresh_top_bar(title@, b),
    {
        Self {
            variant: TopAppBarVariant::Small,
            title: String::from_str(title),
            navigation_icon: None,
            actions: Vec::new(),
            scroll_behavior: TopAppBarScrollBehavior::Fixed,
            scroll_offset: 0,
            elevated: false,
        }
    }

    pub fn with_variant(self, variant: TopAppBarVariant) -> (b: Self)
        ensures
            b == (TopAppBar { variant: variant, ..self }),
    {
        let mut this = self;
        this.variant = variant;
        this
    }

    pub fn with_navigation(self, icon: &str) -> (b: Self)
        ensures
            b.navigation_icon is Some && b.navigation_icon->0@ == icon@,
            b == (TopAppBar { navigation_icon: b.navigation_icon, ..self }),
    {
        let mut this = self;
        this.navigation_icon = Some(String::from_str(icon));
        this
    }

    /// A navigation button with the back arrow.
    pub fn with_back_button(self) -> (b: Self)
        ensures
            b.navigation_icon is Some && b.navigation_icon->0@ == "arrow_back"@,
            b == (TopAppBar { navigation_icon: b.navigation_icon, ..self }),
    {
        self.with_navigation("arrow_back")
    }

    /// A navigation button with the menu icon.
    pub fn with_menu_button(self) -> (b: Self)
        ensures
            b.navigation_icon is Some && b.navigation_icon->0@ == "menu"@,
            b == (TopAppBar { navigation_icon: b.navigation_icon, ..self }),
    {
        self.with_navigation("menu")
    }

    /// Appends an action.
    pub fn add_action(self, action: AppBarAction) -> (b: Self)
        ensures
            b.actions@ == self.actions@.push(action),
            b == (TopAppBar { actions: b.actions, ..self }),
    {
        let mut this = self;
        this.actions.push(action);
        this
    }

    pub fn with_scroll_behavior(self, behavior: TopAppBarScrollBehavior) -> (b: Self)
        ensures
            b == (TopAppBar { scroll_behavior: behavior, ..self }),
    {
        let mut this = self;
        this.scroll_behavior = behavior;
        this
    }

    pub fn elevated(self) -> (b: Self)
        ensures
            b == (TopAppBar { elevated: true, ..self }),
    {
        let mut this = self;
        this.elevated = true;
        this
    }

    /// Current height, in hundredths of a pixel.
    pub fn height(&self) -> (h: u32)
        ensures
            h == top_bar_height(self.variant, self.scroll_offset),
    {
        let c: u32 = if self.scroll_offset <= 0 {
            0
        } else if self.scroll_offset >= 100 {
            100
        } else {
            self.scroll_offset as u32
        };
        match self.variant {
            TopAppBarVariant::Medium => TOP_APP_BAR_HEIGHT_MEDIUM * 100 - c * (
            TOP_APP_BAR_HEIGHT_MEDIUM - TOP_APP_BAR_HEIGHT_SMALL),
            TopAppBarVariant::Large => TOP_APP_BAR_HEIGHT_LARGE * 100 - c * (
            TOP_APP_BAR_HEIGHT_LARGE - TOP_APP_BAR_HEIGHT_SMALL),
            _ => TOP_APP_BAR_HEIGHT_SMALL * 100,
        }
    }

    /// Surface, or the surface container when elevated.
    pub fn background_color(&self) -> (p: Paint)
        ensures
            p == (if self.elevated {
                Paint::Solid(ColorRole::SurfaceContainer)
            } else {
                Paint::Solid(ColorRole::Surface)
            }),
    {
        if self.elevated {
            Paint::Solid(ColorRole::SurfaceContainer)
        } else {
            Paint::Solid(ColorRole::Surface)
        }
    }

    pub fn title_color(&self) -> (p: Paint)
        ensures
            p == Paint::Solid(ColorRole::OnSurface),
    {
        Paint::Solid(ColorRole::OnSurface)
    }

    /// Where the bar row shows the title.
    pub fn title_placement(&self) -> (t: TitlePlacement)
        ensures
            t == (match self.variant {
                TopAppBarVariant::Small => TitlePlacement::Leading,
                TopAppBarVariant::CenterAligned => TitlePlacement::Centered,
                _ => TitlePlacement::Hidden,
            }),
    {
        match self.variant {
            TopAppBarVariant::Small => TitlePlacement::Leading,
            TopAppBarVariant::CenterAligned => TitlePlacement::Centered,
            _ => TitlePlacement::Hidden,
        }
    }
}

impl Default for TopAppBar {
    fn default() -> (b: Self)
        ensures
            fresh_top_bar(Seq::empty(), b),
    {
        let b = Self::new("");
        proof {
            reveal_strlit("");
            assert(""@ =~= Seq::<char>::empty());
        }
        b
    }
}

/// A collapsing bar never gets taller than expanded nor shorter than a
/// small bar, and it shrinks as the content scrolls further (heights in
/// hundredths of a pixel).
pub proof fn lemma_collapse_bounds(variant: TopAppBarVariant, a: i32, b: i32)
    requires
        a <= b,
    ensures
        TOP_APP_BAR_HEIGHT_SMALL * 100 <= top_bar_height(variant, b) <= top_bar_height(variant, a),
        top_bar_height(variant, a) <= TOP_APP_BAR_HEIGHT_LARGE * 100,
        a <= 0 ==> top_bar_height(variant, a) == (match variant {
            TopAppBarVariant::Medium => TOP_APP_BAR_HEIGHT_MEDIUM * 100,
            TopAppBarVariant::Large => TOP_APP_BAR_HEIGHT_LARGE * 100,
            _ => TOP_APP_BAR_HEIGHT_SMALL * 100,
        }),
        b >= 100 ==> top_bar_height(variant, b) == TOP_APP_BAR_HEIGHT_SMALL * 100,
{
}

/// A bottom app bar.
#[derive(Debug, Clone)]
pub struct BottomAppBar {
    pub layout: BottomAppBarLayout,
    /// Action buttons.
    pub actions: Vec<AppBarAction>,
    /// Whether a floating action button is shown.
    pub has_fab: bool,
    /// The floating action button's icon.
    pub fab_icon: Option<String>,
    pub elevated: bool,
}

/// A fresh bottom bar: no actions, no floating action button.
pub open spec fn fresh_bottom_bar(b: BottomAppBar) -> bool {
    &&& b.layout == BottomAppBarLayout::Standard
    &&& b.actions@.len() == 0
    &&& !b.has_fab
    &&& b.fab_icon is None
    &&& !b.elevated
}

impl BottomAppBar {
    pub fn new() -> (b: Self)
        ensures
            fresh_bottom_bar(b),
    {
        Self {
            layout: BottomAppBarLayout::Standard,
            actions: Vec::new(),
            has_fab: false,
            fab_icon: None,
            elevated: false,
        }
    }

    pub fn add_action(self, action: AppBarAction) -> (b: Self)
        ensures
            b.actions@ == self.actions@.push(action),
            b == (BottomAppBar { actions: b.actions, ..self }),
    {
        let mut this = self;
        this.actions.push(action);
        this
    }

    /// Adds a floating action button with the given icon.
    pub fn with_fab(self, icon: &str) -> (b: Self)
        ensures
            b.has_fab,
            b.fab_icon is Some && b.fab_icon->0@ == icon@,
            b.layout == BottomAppBarLayout::WithFab,
            b == (BottomAppBar { has_fab: true, fab_icon: b.fab_icon, layout: BottomAppBarLayout::WithFab, ..self }),
    {
        let mut this = self;
        this.has_fab = true;
        this.fab_icon = Some(String::from_str(icon));
        this.layout = BottomAppBarLayout::WithFab;
        this
    }

    pub fn elevated(self) -> (b: Self)
        ensures
            b == (BottomAppBar { elevated: true, ..self }),
    {
        let mut this = self;
        this.elevated = true;
        this
    }

    /// The low surface container, or the surface container when elevated.
    pub fn background_color(&self) -> (p: Paint)
        ensures
            p == (if self.elevated {
                Paint::Solid(ColorRole::SurfaceContainer)
            } else {
                Paint::Solid(ColorRole::SurfaceContainerLow)
            }),
    {
        if self.elevated {
            Paint::Solid(ColorRole::SurfaceContainer)
        } else {
            Paint::Solid(ColorRole::SurfaceContainerLow)
        }
    }
}

impl Default for BottomAppBar {
    fn default() -> (b: Self)
        ensures
            fresh_bottom_bar(b),
    {
        Self::new()
    }
}

/// The background of an app bar's navigation or action button: the
/// highest surface container while hovered or pressed.
pub fn app_bar_button_background(interaction: Interaction) -> (p: Paint)
    ensures
        p == (if interaction == Interaction::Idle {
            Paint::Transparent
        } else {
            Paint::Solid(ColorRole::SurfaceContainerHighest)
        }),
{
    match interaction {
        Interaction::Idle => Paint::Transparent,
        _ => Paint::Solid(ColorRole::SurfaceContainerHighest),
    }
}

/// Reported when the navigation button of an app bar is pressed.
#[derive(Debug, Clone, Copy, PartialEq, Eq, Structural)]
pub struct AppBarNavigationEvent {
    /// The entity id of the app bar.
    pub app_bar: u64,
}

/// Reported when an action button of an app bar is pressed.
#[derive(Debug, Clone)]
pub struct AppBarActionEvent {
    /// The entity id of the app bar.
    pub app_bar: u64,
    /// The action's identifier.
    pub action: String,
}

/// What the pointer doing `interaction` on a navigation button reports:
/// on a press, the navigation of the app bar the button belongs to, where
/// it belongs to one. `chain` lists the button and then its ancestors,
/// nearest first, each with whether it is a top app bar.
pub fn navigation_event(interaction: Interaction, chain: &Vec<(u64, bool)>) -> (e: Option<
    AppBarNavigationEvent,
>)
    ensures
        e == (if interaction == Interaction::Pressed {
            match first_marked_from(chain@, 0) {
                Some(b) => Some(AppBarNavigationEvent { app_bar: b }),
                None => None,
            }
        } else {
            None
        }),
{
    if interaction != Interaction::Pressed {
        return None;
    }
    match nearest_marked_ancestor(chain) {
        Some(b) => Some(AppBarNavigationEvent { app_bar: b }),
        None => None,
    }
}

/// What the pointer doing `interaction` on the action button `action_id`
/// reports: on a press, the action on the app bar the button belongs to,
/// where it belongs to one. `chain` lists the button and then its
/// ancestors, nearest first, each with whether it is a top app bar.
pub fn action_event(interaction: Interaction, action_id: &str, chain: &Vec<(u64, bool)>) -> (e:
    Option<AppBarActionEvent>)
    ensures
        match e {
            Some(ev) => interaction == Interaction::Pressed && first_marked_from(chain@, 0)
                == Some(ev.app_bar) && ev.action@ == action_id@,
            None => interaction != Interaction::Pressed || first_marked_from(chain@, 0) is None,
        },
{
    if interaction != Interaction::Pressed {
        return None;
    }
    match nearest_marked_ancestor(chain) {
        Some(b) => Some(AppBarActionEvent { app_bar: b, action: String::from_str(action_id) }),
        None => None,
    }
}

/// A top app bar with how its row is drawn.
#[derive(Debug, Clone)]
pub struct TopAppBarParts {
    pub app_bar: TopAppBar,
    /// Height in hundredths of a pixel.
    pub height: u32,
    pub background: Paint,
}

/// Builds a top app bar.
pub struct TopAppBarBuilder {
    pub app_bar: TopAppBar,
}

impl TopAppBarBuilder {
    pub fn new(title: &str) -> (b: Self)
        ensures
            fresh_top_bar(title@, b.app_bar),
    {
        Self { app_bar: TopAppBar::new(title) }
    }

    pub fn small(self) -> (b: Self)
        ensures
            b.app_bar == (TopAppBar { variant: TopAppBarVariant::Small, ..self.app_bar }),
    {
        Self { app_bar: self.app_bar.with_variant(TopAppBarVariant::Small) }
    }

    pub fn center_aligned(self) -> (b: Self)
        ensures
            b.app_bar == (TopAppBar { variant: TopAppBarVariant::CenterAligned, ..self.app_bar }),
    {
        Self { app_bar: self.app_bar.with_variant(TopAppBarVariant::CenterAligned) }
    }

    pub fn medium(self) -> (b: Self)
        ensures
            b.app_bar == (TopAppBar { variant: TopAppBarVariant::Medium, ..self.app_bar }),
    {
        Self { app_bar: self.app_bar.with_variant(TopAppBarVariant::Medium) }
    }

    pub fn large(self) -> (b: Self)
        ensures
            b.app_bar == (TopAppBar { variant: TopAppBarVariant::Large, ..self.app_bar }),
    {
        Self { app_bar: self.app_bar.with_variant(TopAppBarVariant::Large) }
    }

    /// A navigation button showing a left arrow.
    pub fn with_back(self) -> (b: Self)
        ensures
            b.app_bar.navigation_icon is Some && b.app_bar.navigation_icon->0@ == "\u{2190}"@,
            b.app_bar == (TopAppBar { navigation_icon: b.app_bar.navigation_icon, ..self.app_bar }),
    {
        Self { app_bar: self.app_bar.with_navigation("\u{2190}") }
    }

    /// A navigation button showing the menu glyph.
    pub fn with_menu(self) -> (b: Self)
        ensures
            b.app_bar.navigation_icon is Some && b.app_bar.navigation_icon->0@ == "\u{2630}"@,
            b.app_bar == (TopAppBar { navigation_icon: b.app_bar.navigation_icon, ..self.app_bar }),
    {
        Self { app_bar: self.app_bar.with_navigation("\u{2630}") }
    }

    pub fn with_navigation(self, icon: &str) -> (b: Self)
        ensures
            b.app_bar.navigation_icon is Some && b.app_bar.navigation_icon->0@ == icon@,
            b.app_bar == (TopAppBar { navigation_icon: b.app_bar.navigation_icon, ..self.app_bar }),
    {
        Self { app_bar: self.app_bar.with_navigation(icon) }
    }

    /// Appends an enabled action.
    pub fn add_action(self, icon: &str, id: &str) -> (b: Self)
        ensures
            b.app_bar.actions@.len() == self.app_bar.actions@.len() + 1,
            b.app_bar.actions@.drop_last() == self.app_bar.actions@,
            b.app_bar.actions@.last().icon@ == icon@,
            b.app_bar.actions@.last().id@ == id@,
            !b.app_bar.actions@.last().disabled,
            b.app_bar == (TopAppBar { actions: b.app_bar.actions, ..self.app_bar }),
    {
        Self { app_bar: self.app_bar.add_action(AppBarAction::new(icon, id)) }
    }

    pub fn elevated(self) -> (b: Self)
        ensures
            b.app_bar == (TopAppBar { elevated: true, ..self.app_bar }),
    {
        Self { app_bar: self.app_bar.elevated() }
    }

    /// The bar with its height and background.
    pub fn build(self) -> (p: TopAppBarParts)
        ensures
            p.app_bar == self.app_bar,
            p.height == top_bar_height(self.app_bar.variant, self.app_bar.scroll_offset),
            p.background == (if self.app_bar.elevated {
                Paint::Solid(ColorRole::SurfaceContainer)
            } else {
                Paint::Solid(ColorRole::Surface)
            }),
    {
        let height = self.app_bar.height();
        let background = self.app_bar.background_color();
        TopAppBarParts { app_bar: self.app_bar, height, background }
    }
}

/// A bottom app bar with how it is drawn.
#[derive(Debug, Clone)]
pub struct BottomAppBarParts {
    pub app_bar: BottomAppBar,
    /// Height in pixels.
    pub height: u32,
    pub background: Paint,
}

/// Builds a bottom app bar.
pub struct BottomAppBarBuilder {
    pub app_bar: BottomAppBar,
}

impl BottomAppBarBuilder {
    pub fn new() -> (b: Self)
        ensures
            fresh_bottom_bar(b.app_bar),
    {
        Self { app_bar: BottomAppBar::new() }
    }

    /// Appends an enabled action.
    pub fn add_action(self, icon: &str, id: &str) -> (b: Self)
        ensures
            b.app_bar.actions@.len() == self.app_bar.actions@.len() + 1,
            b.app_bar.actions@.drop_last() == self.app_bar.actions@,
            b.app_bar.actions@.last().icon@ == icon@,
            b.app_bar.actions@.last().id@ == id@,
            !b.app_bar.actions@.last().disabled,
            b.app_bar == (BottomAppBar { actions: b.app_bar.actions, ..self.app_bar }),
    {
        Self { app_bar: self.app_bar.add_action(AppBarAction::new(icon, id)) }
    }

    /// Adds a floating action button; the layout is left as it is.
    pub fn with_fab(self, icon: &str) -> (b: Self)
        ensures
            b.app_bar.has_fab,
            b.app_bar.fab_icon is Some && b.app_bar.fab_icon->0@ == icon@,
            b.app_bar == (BottomAppBar { has_fab: true, fab_icon: b.app_bar.fab_icon, ..self.app_bar }),
    {
        let mut this = self;
        this.app_bar.has_fab = true;
        this.app_bar.fab_icon = Some(String::from_str(icon));
        this
    }

    pub fn elevated(self) -> (b: Self)
        ensures
            b.app_bar == (BottomAppBar { elevated: true, ..self.app_bar }),
    {
        Self { app_bar: self.app_bar.elevated() }
    }

    /// The bar with its height and background.
    pub fn build(self) -> (p: BottomAppBarParts)
        ensures
            p.app_bar == self.app_bar,
            p.height == BOTTOM_APP_BAR_HEIGHT,
            p.background == (if self.app_bar.elevated {
                Paint::Solid(ColorRole::SurfaceContainer)
            } else {
                Paint::Solid(ColorRole::SurfaceContainerLow)
            }),
    {
        let background = self.app_bar.background_color();
        BottomAppBarParts { app_bar: self.app_bar, height: BOTTOM_APP_BAR_HEIGHT, background }
    }
}

impl Default for BottomAppBarBuilder {
    fn default() -> (b: Self)
        ensures
            fresh_bottom_bar(b.app_bar),
    {
        Self::new()
    }
}

} // verus!
