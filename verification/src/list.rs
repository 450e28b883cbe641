//! Lists: vertical runs of items with optional single or multiple
//! selection.
use vstd::prelude::*;

use crate::style::{
    divider, state_layer_percent, state_layer_percent_spec, ColorRole, DividerMargin, DividerParts,
    Interaction, Length, Paint, DISABLED_CONTENT_PERCENT,
};

verus! {

/// What clicking an item does to the selection of its list.
#[derive(Debug, Clone, Copy, PartialEq, Eq, Structural)]
pub enum ListSelectionMode {
    /// Clicks leave the selection as it is.
    NoSelection,
    /// The clicked item becomes the only selected one.
    Single,
    /// The clicked item flips its selection.
    Multi,
}

impl Default for ListSelectionMode {
    fn default() -> (m: Self)
        ensures
            m == ListSelectionMode::NoSelection,
    {
        ListSelectionMode::NoSelection
    }
}

/// Number of text lines of an item.
#[derive(Debug, Clone, Copy, PartialEq, Eq, Structural)]
pub enum ListItemVariant {
    OneLine,
    TwoLine,
    ThreeLine,
}

impl Default for ListItemVariant {
    fn default() -> (v: Self)
        ensures
            v == ListItemVariant::OneLine,
    {
        ListItemVariant::OneLine
    }
}

/// Height of an item, in pixels.
pub open spec fn variant_height(v: ListItemVariant) -> u32 {
    match v {
        ListItemVariant::OneLine => 56,
        ListItemVariant::TwoLine => 72,
        ListItemVariant::ThreeLine => 88,
    }
}

impl ListItemVariant {
    /// Height of an item of this variant, in pixels.
    pub fn height(&self) -> (h: u32)
        ensures
            h == variant_height(*self),
    {
        match self {
            ListItemVariant::OneLine => 56,
            ListItemVariant::TwoLine => 72,
            ListItemVariant::ThreeLine => 88,
        }
    }
}

/// A list.
#[derive(Debug, Clone, Copy, PartialEq, Eq, Structural)]
pub struct MaterialList {
    pub selection_mode: ListSelectionMode,
}

impl MaterialList {
    pub fn new() -> (l: Self)
        ensures
            l.selection_mode == ListSelectionMode::NoSelection,
    {
        Self { selection_mode: ListSelectionMode::NoSelection }
    }

    pub fn with_selection_mode(self, mode: ListSelectionMode) -> (l: Self)
        ensures
            l.selection_mode == mode,
    {
        Self { selection_mode: mode }
    }

    /// Updates the selection of the list's items after `items[clicked]`
    /// was clicked.
    pub fn apply_click(&self, items: &mut Vec<MaterialListItem>, clicked: usize)
        ensures
            final(items)@ == selection_after_click(self.selection_mode, old(items)@, clicked as int),
    {
        let ghost start = items@;
        match self.selection_mode {
            ListSelectionMode::NoSelection => {},
            ListSelectionMode::Multi => {
                if clicked < items.len() {
                    let flipped = !items[clicked].selected;
                    items[clicked].selected = flipped;
                }
            },
            ListSelectionMode::Single => {
                let mut i: usize = 0;
                while i < items.len()
                    invariant
                        items@.len() == start.len(),
                        i <= items@.len(),
                        forall|t: int|
                            0 <= t < i ==> #[trigger] items@[t] == (MaterialListItem {
                                selected: t == clicked,
                                ..start[t]
                            }),
                        forall|t: int| i <= t < items@.len() ==> #[trigger] items@[t] == start[t],
                    decreases items.len() - i,
                {
                    items[i].selected = i == clicked;
                    i = i + 1;
                }
            },
        }
        proof {
            assert(items@ =~= selection_after_click(self.selection_mode, start, clicked as int));
        }
    }
}

impl Default for MaterialList {
    fn default() -> (l: Self)
        ensures
            l.selection_mode == ListSelectionMode::NoSelection,
    {
        Self::new()
    }
}

/// A list item.
#[derive(Debug, Clone)]
pub struct MaterialListItem {
    pub variant: ListItemVariant,
    pub disabled: bool,
    pub selected: bool,
    /// Primary text.
    pub headline: String,
    /// Secondary text.
    pub supporting_text: Option<String>,
    pub trailing_text: Option<String>,
    pub leading_icon: Option<String>,
    pub trailing_icon: Option<String>,
    pub leading_avatar: Option<String>,
    pub leading_video: Option<String>,
    pub pressed: bool,
    pub hovered: bool,
}

/// The items of a list after `items[clicked]` was clicked (a click on no
/// item of the list flips nothing, and in a single-selection list leaves
/// nothing selected).
pub open spec fn selection_after_click(
    mode: ListSelectionMode,
    items: Seq<MaterialListItem>,
    clicked: int,
) -> Seq<MaterialListItem> {
    match mode {
        ListSelectionMode::NoSelection => items,
        ListSelectionMode::Multi => if 0 <= clicked < items.len() {
            items.update(
                clicked,
                MaterialListItem { selected: !items[clicked].selected, ..items[clicked] },
            )
        } else {
            items
        },
        ListSelectionMode::Single => Seq::new(
            items.len(),
            |i: int| MaterialListItem { selected: i == clicked, ..items[i] },
        ),
    }
}

/// A fresh one-line item with the given headline.
pub open spec fn fresh_item(headline: Seq<char>, it: MaterialListItem) -> bool {
    &&& it.headline@ == headline
    &&& it.variant == ListItemVariant::OneLine
    &&& !it.disabled
    &&& !it.selected
    &&& it.supporting_text is None
    &&& it.trailing_text is None
    &&& it.leading_icon is None
    &&& it.trailing_icon is None
    &&& it.leading_avatar is None
    &&& it.leading_video is None
    &&& !it.pressed
    &&& !it.hovered
}

/// The container paint of an item: the selected container (if selected)
/// with the on-surface state layer over it.
pub open spec fn item_background(it: MaterialListItem) -> Paint {
    let p = state_layer_percent_spec(it.disabled, it.pressed, it.hovered);
    if p > 0 {
        if it.selected {
            Paint::Layered(ColorRole::SecondaryContainer, ColorRole::OnSurface, p)
        } else {
            Paint::Faded(ColorRole::OnSurface, p)
        }
    } else if it.selected {
        Paint::Solid(ColorRole::SecondaryContainer)
    } else {
        Paint::Transparent
    }
}

/// Paint of text in a disabled item.
pub open spec fn disabled_text() -> Paint {
    Paint::Faded(ColorRole::OnSurface, DISABLED_CONTENT_PERCENT)
}

/// The item after the pointer does `interaction` on it.
pub open spec fn item_after(it: MaterialListItem, interaction: Interaction) -> MaterialListItem {
    if it.disabled {
        it
    } else {
        match interaction {
            Interaction::Pressed => MaterialListItem { pressed: true, hovered: false, ..it },
            Interaction::Hovered => MaterialListItem { pressed: false, hovered: true, ..it },
            Interaction::Idle => MaterialListItem { pressed: false, hovered: false, ..it },
        }
    }
}

impl MaterialListItem {
    pub fn new(headline: &str) -> (it: Self)
        ensures
            fresh_item(headline@, it),
    {
        Self {
            variant: ListItemVariant::OneLine,
            disabled: false,
            selected: false,
            headline: String::from_str(headline),
            supporting_text: None,
            trailing_text: None,
            leading_icon: None,
            trailing_icon: None,
            leading_avatar: None,
            leading_video: None,
            pressed: false,
            hovered: false,
        }
    }

    pub fn with_variant(self, variant: ListItemVariant) -> (it: Self)
        ensures
            it == (MaterialListItem { variant: variant, ..self }),
    {
        let mut this = self;
        this.variant = variant;
        this
    }

    pub fn supporting_text(self, text: &str) -> (it: Self)
        ensures
            it.supporting_text is Some && it.supporting_text->0@ == text@,
            it == (MaterialListItem { supporting_text: it.supporting_text, ..self }),
    {
        let mut this = self;
        this.supporting_text = Some(String::from_str(text));
        this
    }

    pub fn trailing_text(self, text: &str) -> (it: Self)
        ensures
            it.trailing_text is Some && it.trailing_text->0@ == text@,
            it == (MaterialListItem { trailing_text: it.trailing_text, ..self }),
    {
        let mut this = self;
        this.trailing_text = Some(String::from_str(text));
        this
    }

    pub fn leading_icon(self, icon: &str) -> (it: Self)
        ensures
            it.leading_icon is Some && it.leading_icon->0@ == icon@,
            it == (MaterialListItem { leading_icon: it.leading_icon, ..self }),
    {
        let mut this = self;
        this.leading_icon = Some(String::from_str(icon));
        this
    }

    pub fn trailing_icon(self, icon: &str) -> (it: Self)
        ensures
            it.trailing_icon is Some && it.trailing_icon->0@ == icon@,
            it == (MaterialListItem { trailing_icon: it.trailing_icon, ..self }),
    {
        let mut this = self;
        this.trailing_icon = Some(String::from_str(icon));
        this
    }

    pub fn leading_avatar(self, url: &str) -> (it: Self)
        ensures
            it.leading_avatar is Some && it.leading_avatar->0@ == url@,
            it == (MaterialListItem { leading_avatar: it.leading_avatar, ..self }),
    {
        let mut this = self;
        this.leading_avatar = Some(String::from_str(url));
        this
    }

    pub fn disabled(self, disabled: bool) -> (it: Self)
        ensures
            it == (MaterialListItem { disabled: disabled, ..self }),
    {
        let mut this = self;
        this.disabled = disabled;
        this
    }

    pub fn selected(self, selected: bool) -> (it: Self)
        ensures
            it == (MaterialListItem { selected: selected, ..self }),
    {
        let mut this = self;
        this.selected = selected;
        this
    }

    /// The container paint, with the state layer applied.
    pub fn background_color(&self) -> (p: Paint)
        ensures
            p == item_background(*self),
    {
        let op = self.state_layer_opacity();
        if op > 0 {
            if self.selected {
                Paint::Layered(ColorRole::SecondaryContainer, ColorRole::OnSurface, op)
            } else {
                Paint::Faded(ColorRole::OnSurface, op)
            }
        } else if self.selected {
            Paint::Solid(ColorRole::SecondaryContainer)
        } else {
            Paint::Transparent
        }
    }

    pub fn headline_color(&self) -> (p: Paint)
        ensures
            p == (if self.disabled {
                disabled_text()
            } else {
                Paint::Solid(ColorRole::OnSurface)
            }),
    {
        if self.disabled {
            Paint::Faded(ColorRole::OnSurface, DISABLED_CONTENT_PERCENT)
        } else {
            Paint::Solid(ColorRole::OnSurface)
        }
    }

    pub fn supporting_text_color(&self) -> (p: Paint)
        ensures
            p == (if self.disabled {
                disabled_text()
            } else {
                Paint::Solid(ColorRole::OnSurfaceVariant)
            }),
    {
        if self.disabled {
            Paint::Faded(ColorRole::OnSurface, DISABLED_CONTENT_PERCENT)
        } else {
            Paint::Solid(ColorRole::OnSurfaceVariant)
        }
    }

    pub fn icon_color(&self) -> (p: Paint)
        ensures
            p == (if self.disabled {
                disabled_text()
            } else {
                Paint::Solid(ColorRole::OnSurfaceVariant)
            }),
    {
        if self.disabled {
            Paint::Faded(ColorRole::OnSurface, DISABLED_CONTENT_PERCENT)
        } else {
            Paint::Solid(ColorRole::OnSurfaceVariant)
        }
    }

    /// The state layer opacity, in percent.
    pub fn state_layer_opacity(&self) -> (p: u8)
        ensures
            p == state_layer_percent_spec(self.disabled, self.pressed, self.hovered),
    {
        state_layer_percent(self.disabled, self.pressed, self.hovered)
    }

    /// Applies what the pointer did to the component `entity`; where it
    /// was a click, returns the event to report.
    pub fn apply_interaction(&mut self, entity: u64, interaction: Interaction) -> (click: Option<
        ListItemClickEvent,
    >)
        ensures
            *final(self) == item_after(*old(self), interaction),
            click == (if !old(self).disabled && interaction == Interaction::Pressed {
                Some(ListItemClickEvent { entity: entity })
            } else {
                None
            }),
    {
        if self.disabled {
            return None;
        }
        match interaction {
            Interaction::Pressed => {
                self.pressed = true;
                self.hovered = false;
                Some(ListItemClickEvent { entity })
            },
            Interaction::Hovered => {
                self.pressed = false;
                self.hovered = true;
                None
            },
            Interaction::Idle => {
                self.pressed = false;
                self.hovered = false;
                None
            },
        }
    }
}

/// In a single-selection list, a click leaves exactly the clicked item
/// selected; in a multi-selection list it flips the clicked item only.
pub proof fn lemma_click_selection(
    mode: ListSelectionMode,
    items: Seq<MaterialListItem>,
    clicked: int,
)
    requires
        0 <= clicked < items.len(),
    ensures
        ({
            let after = selection_after_click(mode, items, clicked);
            &&& after.len() == items.len()
            &&& mode == ListSelectionMode::Single ==> forall|i: int|
                0 <= i < items.len() ==> (#[trigger] after[i].selected <==> i == clicked)
            &&& mode == ListSelectionMode::Multi ==> after[clicked].selected
                != items[clicked].selected && forall|i: int|
                0 <= i < items.len() && i != clicked ==> #[trigger] after[i] == items[i]
            &&& mode == ListSelectionMode::NoSelection ==> after == items
        }),
{
}

/// The scroll settings of a scrollable list.
#[derive(Debug, Clone, Copy, PartialEq, Eq, Structural)]
pub struct ScrollableListParts {
    pub list: MaterialList,
    /// Height limit in pixels; `None` grows with the content.
    pub max_height: Option<u128>,
    pub show_scrollbar: bool,
}

/// Builds a list.
pub struct ListBuilder {
    max_height: Option<u128>,
    show_scrollbar: bool,
    selection_mode: ListSelectionMode,
}

/// A list builder as plain values.
pub struct ListBuilderView {
    pub max_height: Option<u128>,
    pub show_scrollbar: bool,
    pub selection_mode: ListSelectionMode,
}

impl View for ListBuilder {
    type V = ListBuilderView;

    closed spec fn view(&self) -> ListBuilderView {
        ListBuilderView {
            max_height: self.max_height,
            show_scrollbar: self.show_scrollbar,
            selection_mode: self.selection_mode,
        }
    }
}

impl ListBuilder {
    pub fn new() -> (b: Self)
        ensures
            b@.max_height is None,
            b@.show_scrollbar,
            b@.selection_mode == ListSelectionMode::NoSelection,
    {
        Self { max_height: None, show_scrollbar: true, selection_mode: ListSelectionMode::NoSelection }
    }

    pub fn selection_mode(self, mode: ListSelectionMode) -> (b: Self)
        ensures
            b@.max_height == self@.max_height,
            b@.show_scrollbar == self@.show_scrollbar,
            b@.selection_mode == mode,
    {
        let mut this = self;
        this.selection_mode = mode;
        this
    }

    /// Limits the height (the list then scrolls).
    pub fn max_height(self, height: u128) -> (b: Self)
        ensures
            b@.max_height == Some(height),
            b@.show_scrollbar == self@.show_scrollbar,
            b@.selection_mode == self@.selection_mode,
    {
        let mut this = self;
        this.max_height = Some(height);
        this
    }

    /// Limits the height to `count` one-line items.
    pub fn max_visible_items(self, count: usize) -> (b: Self)
        ensures
            b@.max_height == Some((count * 56) as u128),
            b@.show_scrollbar == self@.show_scrollbar,
            b@.selection_mode == self@.selection_mode,
    {
        self.max_visible_items_variant(count, ListItemVariant::OneLine)
    }

    /// Limits the height to `count` items of a variant.
    pub fn max_visible_items_variant(self, count: usize, variant: ListItemVariant) -> (b: Self)
        ensures
            b@.max_height == Some((count * variant_height(variant)) as u128),
            b@.show_scrollbar == self@.show_scrollbar,
            b@.selection_mode == self@.selection_mode,
    {
        let mut this = self;
        let h = variant.height();
        proof {
            assert(count * h <= 0xffff_ffff_ffff_ffffu128 * 88) by (nonlinear_arith)
                requires
                    count <= 0xffff_ffff_ffff_ffffu128,
                    h <= 88,
            ;
        }
        this.max_height = Some((count as u128) * (h as u128));
        this
    }

    pub fn hide_scrollbar(self) -> (b: Self)
        ensures
            b@.max_height == self@.max_height,
            !b@.show_scrollbar,
            b@.selection_mode == self@.selection_mode,
    {
        let mut this = self;
        this.show_scrollbar = false;
        this
    }

    /// The list.
    pub fn build(self) -> (l: MaterialList)
        ensures
            l.selection_mode == self@.selection_mode,
    {
        MaterialList::new().with_selection_mode(self.selection_mode)
    }

    /// The list with its scroll settings.
    pub fn build_scrollable(self) -> (p: ScrollableListParts)
        ensures
            p.list.selection_mode == self@.selection_mode,
            p.max_height == self@.max_height,
            p.show_scrollbar == self@.show_scrollbar,
    {
        ScrollableListParts {
            list: MaterialList::new().with_selection_mode(self.selection_mode),
            max_height: self.max_height,
            show_scrollbar: self.show_scrollbar,
        }
    }
}

impl Default for ListBuilder {
    fn default() -> (b: Self)
        ensures
            b@.max_height is None,
            b@.show_scrollbar,
            b@.selection_mode == ListSelectionMode::NoSelection,
    {
        Self::new()
    }
}

/// An item with how it is drawn.
#[derive(Debug, Clone)]
pub struct ListItemParts {
    pub item: MaterialListItem,
    pub background: Paint,
    /// Height in pixels.
    pub height: u32,
}

/// Builds a list item.
pub struct ListItemBuilder {
    item: MaterialListItem,
}

impl View for ListItemBuilder {
    type V = MaterialListItem;

    closed spec fn view(&self) -> MaterialListItem {
        self.item
    }
}

impl ListItemBuilder {
    pub fn new(headline: &str) -> (b: Self)
        ensures
            fresh_item(headline@, b@),
    {
        Self { item: MaterialListItem::new(headline) }
    }

    pub fn variant(self, variant: ListItemVariant) -> (b: Self)
        ensures
            b@ == (MaterialListItem { variant: variant, ..self@ }),
    {
        Self { item: self.item.with_variant(variant) }
    }

    pub fn one_line(self) -> (b: Self)
        ensures
            b@ == (MaterialListItem { variant: ListItemVariant::OneLine, ..self@ }),
    {
        self.variant(ListItemVariant::OneLine)
    }

    pub fn two_line(self) -> (b: Self)
        ensures
            b@ == (MaterialListItem { variant: ListItemVariant::TwoLine, ..self@ }),
    {
        self.variant(ListItemVariant::TwoLine)
    }

    pub fn three_line(self) -> (b: Self)
        ensures
            b@ == (MaterialListItem { variant: ListItemVariant::ThreeLine, ..self@ }),
    {
        self.variant(ListItemVariant::ThreeLine)
    }

    pub fn supporting_text(self, text: &str) -> (b: Self)
        ensures
            b@.supporting_text is Some && b@.supporting_text->0@ == text@,
            b@ == (MaterialListItem { supporting_text: b@.supporting_text, ..self@ }),
    {
        Self { item: self.item.supporting_text(text) }
    }

    pub fn trailing_text(self, text: &str) -> (b: Self)
        ensures
            b@.trailing_text is Some && b@.trailing_text->0@ == text@,
            b@ == (MaterialListItem { trailing_text: b@.trailing_text, ..self@ }),
    {
        Self { item: self.item.trailing_text(text) }
    }

    pub fn leading_icon(self, icon: &str) -> (b: Self)
        ensures
            b@.leading_icon is Some && b@.leading_icon->0@ == icon@,
            b@ == (MaterialListItem { leading_icon: b@.leading_icon, ..self@ }),
    {
        Self { item: self.item.leading_icon(icon) }
    }

    pub fn trailing_icon(self, icon: &str) -> (b: Self)
        ensures
            b@.trailing_icon is Some && b@.trailing_icon->0@ == icon@,
            b@ == (MaterialListItem { trailing_icon: b@.trailing_icon, ..self@ }),
    {
        Self { item: self.item.trailing_icon(icon) }
    }

    pub fn leading_avatar(self, url: &str) -> (b: Self)
        ensures
            b@.leading_avatar is Some && b@.leading_avatar->0@ == url@,
            b@ == (MaterialListItem { leading_avatar: b@.leading_avatar, ..self@ }),
    {
        Self { item: self.item.leading_avatar(url) }
    }

    pub fn disabled(self, disabled: bool) -> (b: Self)
        ensures
            b@ == (MaterialListItem { disabled: disabled, ..self@ }),
    {
        Self { item: self.item.disabled(disabled) }
    }

    pub fn selected(self, selected: bool) -> (b: Self)
        ensures
            b@ == (MaterialListItem { selected: selected, ..self@ }),
    {
        Self { item: self.item.selected(selected) }
    }

    /// The item with its container paint and height.
    pub fn build(self) -> (p: ListItemParts)
        ensures
            p.item == self@,
            p.background == item_background(self@),
            p.height == variant_height(self@.variant),
    {
        let background = self.item.background_color();
        let height = self.item.variant.height();
        ListItemParts { item: self.item, background, height }
    }
}

/// Reported when a list item is pressed.
#[derive(Debug, Clone, Copy, PartialEq, Eq, Structural)]
pub struct ListItemClickEvent {
    /// The entity id of the component.
    pub entity: u64,
}

/// A divider between list items; an inset one starts past the items'
/// leading elements.
pub fn create_list_divider(inset: bool) -> (d: DividerParts)
    ensures
        d == divider(
            if inset {
                DividerMargin::PastLeadingElement
            } else {
                DividerMargin::Flush
            },
        ),
{
    DividerParts {
        width: Length::Percent(100),
        height_px: 1,
        color: Paint::Solid(ColorRole::OutlineVariant),
        margin: if inset {
            DividerMargin::PastLeadingElement
        } else {
            DividerMargin::Flush
        },
    }
}

} // verus!
