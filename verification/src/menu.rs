//! Menus: temporary surfaces listing choices, and the stable test ids of
//! their items.
use vstd::prelude::*;

use crate::style::{
    divider, ColorRole, CornerToken, DividerMargin, DividerParts, Elevation, Interaction, Length,
    Paint, DISABLED_CONTENT_PERCENT,
};
use crate::text::{
    chars_equal, chars_of, digits_of, push_char, push_digits, push_str, string_from_chars,
    trim_end_char, trim_end_char_seq,
};

verus! {

/// Corner of the anchor a menu opens from.
#[derive(Debug, Clone, Copy, PartialEq, Eq, Structural)]
pub enum MenuAnchor {
    TopLeft,
    TopRight,
    BottomLeft,
    BottomRight,
}

impl Default for MenuAnchor {
    fn default() -> (a: Self)
        ensures
            a == MenuAnchor::BottomLeft,
    {
        MenuAnchor::BottomLeft
    }
}

/// A menu.
#[derive(Debug, Clone, Copy, PartialEq, Eq, Structural)]
pub struct MaterialMenu {
    pub open: bool,
    pub anchor: MenuAnchor,
    /// Whether a click outside the menu closes it.
    pub close_on_click_outside: bool,
}

/// A fresh closed menu.
pub open spec fn fresh_menu() -> MaterialMenu {
    MaterialMenu { open: false, anchor: MenuAnchor::BottomLeft, close_on_click_outside: true }
}

impl MaterialMenu {
    pub fn new() -> (m: Self)
        ensures
            m == fresh_menu(),
    {
        Self { open: false, anchor: MenuAnchor::BottomLeft, close_on_click_outside: true }
    }

    pub fn anchor(self, anchor: MenuAnchor) -> (m: Self)
        ensures
            m == (MaterialMenu { anchor: anchor, ..self }),
    {
        let mut this = self;
        this.anchor = anchor;
        this
    }

    pub fn open(self) -> (m: Self)
        ensures
            m == (MaterialMenu { open: true, ..self }),
    {
        let mut this = self;
        this.open = true;
        this
    }

    pub fn no_close_on_outside(self) -> (m: Self)
        ensures
            m == (MaterialMenu { close_on_click_outside: false, ..self }),
    {
        let mut this = self;
        this.close_on_click_outside = false;
        this
    }

    pub fn surface_color(&self) -> (p: Paint)
        ensures
            p == Paint::Solid(ColorRole::SurfaceContainer),
    {
        Paint::Solid(ColorRole::SurfaceContainer)
    }

    pub fn elevation(&self) -> (e: Elevation)
        ensures
            e == Elevation::Level2,
    {
        Elevation::Level2
    }

    /// Whether the menu is laid out: exactly while open.
    pub fn displayed(&self) -> (r: bool)
        ensures
            r == self.open,
    {
        self.open
    }

    /// The shadow: the menu's elevation while open, none while closed.
    pub fn shadow(&self) -> (e: Option<Elevation>)
        ensures
            e == (if self.open {
                Some(Elevation::Level2)
            } else {
                None
            }),
    {
        if self.open {
            Some(self.elevation())
        } else {
            None
        }
    }
}

impl Default for MaterialMenu {
    fn default() -> (m: Self)
        ensures
            m == fresh_menu(),
    {
        Self::new()
    }
}

/// Least width of a menu, in pixels.
pub const MENU_MIN_WIDTH: u32 = 112;
/// Greatest width of a menu, in pixels.
pub const MENU_MAX_WIDTH: u32 = 280;
/// Height of a menu item, in pixels.
pub const MENU_ITEM_HEIGHT: u32 = 48;

/// An item of a menu.
#[derive(Debug, Clone)]
pub struct MaterialMenuItem {
    pub label: String,
    pub leading_icon: Option<String>,
    pub trailing_icon: Option<String>,
    /// A keyboard shortcut shown at the end.
    pub trailing_text: Option<String>,
    /// Whether the item opens a submenu instead of being chosen.
    pub has_submenu: bool,
    pub disabled: bool,
    pub selected: bool,
    pub pressed: bool,
    pub hovered: bool,
}

/// A fresh item with the given label.
pub open spec fn fresh_menu_item(label: Seq<char>, it: MaterialMenuItem) -> bool {
    &&& it.label@ == label
    &&& it.leading_icon is None
    &&& it.trailing_icon is None
    &&& it.trailing_text is None
    &&& !it.has_submenu
    &&& !it.disabled
    &&& !it.selected
    &&& !it.pressed
    &&& !it.hovered
}

/// The item after the pointer does `interaction` on it.
pub open spec fn menu_item_after(it: MaterialMenuItem, interaction: Interaction) -> MaterialMenuItem {
    if it.disabled {
        it
    } else {
        match interaction {
            Interaction::Pressed => MaterialMenuItem { pressed: true, hovered: false, ..it },
            Interaction::Hovered => MaterialMenuItem { pressed: false, hovered: true, ..it },
            Interaction::Idle => MaterialMenuItem { pressed: false, hovered: false, ..it },
        }
    }
}

impl MaterialMenuItem {
    pub fn new(label: &str) -> (it: Self)
        ensures
            fresh_menu_item(label@, it),
    {
        Self {
            label: String::from_str(label),
            leading_icon: None,
            trailing_icon: None,
            trailing_text: None,
            has_submenu: false,
            disabled: false,
            selected: false,
            pressed: false,
            hovered: false,
        }
    }

    pub fn leading_icon(self, icon: &str) -> (it: Self)
        ensures
            it.leading_icon is Some && it.leading_icon->0@ == icon@,
            it == (MaterialMenuItem { leading_icon: it.leading_icon, ..self }),
    {
        let mut this = self;
        this.leading_icon = Some(String::from_str(icon));
        this
    }

    pub fn trailing_icon(self, icon: &str) -> (it: Self)
        ensures
            it.trailing_icon is Some && it.trailing_icon->0@ == icon@,
            it == (MaterialMenuItem { trailing_icon: it.trailing_icon, ..self }),
    {
        let mut this = self;
        this.trailing_icon = Some(String::from_str(icon));
        this
    }

    pub fn shortcut(self, text: &str) -> (it: Self)
        ensures
            it.trailing_text is Some && it.trailing_text->0@ == text@,
            it == (MaterialMenuItem { trailing_text: it.trailing_text, ..self }),
    {
        let mut this = self;
        this.trailing_text = Some(String::from_str(text));
        this
    }

    /// Makes the item open a submenu; it shows a chevron at the end.
    pub fn submenu(self) -> (it: Self)
        ensures
            it.has_submenu,
            it.trailing_icon is Some && it.trailing_icon->0@ == "chevron_right"@,
            it == (MaterialMenuItem { has_submenu: true, trailing_icon: it.trailing_icon, ..self }),
    {
        let mut this = self;
        this.has_submenu = true;
        this.trailing_icon = Some(String::from_str("chevron_right"));
        this
    }

    pub fn disabled(self, disabled: bool) -> (it: Self)
        ensures
            it == (MaterialMenuItem { disabled: disabled, ..self }),
    {
        let mut this = self;
        this.disabled = disabled;
        this
    }

    pub fn selected(self, selected: bool) -> (it: Self)
        ensures
            it == (MaterialMenuItem { selected: selected, ..self }),
    {
        let mut this = self;
        this.selected = selected;
        this
    }

    pub fn text_color(&self) -> (p: Paint)
        ensures
            p == (if self.disabled {
                Paint::Faded(ColorRole::OnSurface, DISABLED_CONTENT_PERCENT)
            } else {
                Paint::Solid(ColorRole::OnSurface)
            }),
    {
        if self.disabled {
            Paint::Faded(ColorRole::OnSurface, DISABLED_CONTENT_PERCENT)
        } else {
            Paint::Solid(ColorRole::OnSurface)
        }
    }

    pub fn icon_color(&self) -> (p: Paint)
        ensures
            p == (if self.disabled {
                Paint::Faded(ColorRole::OnSurface, DISABLED_CONTENT_PERCENT)
            } else {
                Paint::Solid(ColorRole::OnSurfaceVariant)
            }),
    {
        if self.disabled {
            Paint::Faded(ColorRole::OnSurface, DISABLED_CONTENT_PERCENT)
        } else {
            Paint::Solid(ColorRole::OnSurfaceVariant)
        }
    }

    pub fn background_color(&self) -> (p: Paint)
        ensures
            p == (if self.selected {
                Paint::Solid(ColorRole::SecondaryContainer)
            } else {
                Paint::Transparent
            }),
    {
        if self.selected {
            Paint::Solid(ColorRole::SecondaryContainer)
        } else {
            Paint::Transparent
        }
    }

    /// Applies what the pointer did to the item `item_entity`, whose parent
    /// is the menu `menu_entity` where the parent is a menu; where the
    /// item was chosen (a press on an item without a submenu, in a menu),
    /// returns the selection to report.
    pub fn apply_interaction(
        &mut self,
        item_entity: u64,
        menu_entity: Option<u64>,
        interaction: Interaction,
    ) -> (chosen: Option<MenuItemSelectEvent>)
        ensures
            *final(self) == menu_item_after(*old(self), interaction),
            chosen == (if !old(self).disabled && interaction == Interaction::Pressed
                && !old(self).has_submenu && menu_entity is Some {
                Some(MenuItemSelectEvent { menu_entity: menu_entity->0, item_entity: item_entity })
            } else {
                None
            }),
    {
        if self.disabled {
            return None;
        }
        match interaction {
            Interaction::Pressed => {
                self.pressed = true;
                self.hovered = false;
                if self.has_submenu {
                    return None;
                }
                match menu_entity {
                    Some(menu) => Some(MenuItemSelectEvent { menu_entity: menu, item_entity }),
                    None => None,
                }
            },
            Interaction::Hovered => {
                self.pressed = false;
                self.hovered = true;
                None
            },
            Interaction::Idle => {
                self.pressed = false;
                self.hovered = false;
                None
            },
        }
    }
}

/// A menu with how its surface is laid out.
#[derive(Debug, Clone, Copy, PartialEq, Eq, Structural)]
pub struct MenuParts {
    pub menu: MaterialMenu,
    pub background: Paint,
    pub min_width: u32,
    pub max_width: u32,
    pub corner: CornerToken,
    /// Whether the surface is laid out when built (it appears once open).
    pub displayed: bool,
}

/// Builds a menu.
pub struct MenuBuilder {
    pub menu: MaterialMenu,
}

impl MenuBuilder {
    pub fn new() -> (b: Self)
        ensures
            b.menu == fresh_menu(),
    {
        Self { menu: MaterialMenu::new() }
    }

    pub fn anchor(self, anchor: MenuAnchor) -> (b: Self)
        ensures
            b.menu == (MaterialMenu { anchor: anchor, ..self.menu }),
    {
        Self { menu: self.menu.anchor(anchor) }
    }

    pub fn open(self) -> (b: Self)
        ensures
            b.menu == (MaterialMenu { open: true, ..self.menu }),
    {
        Self { menu: self.menu.open() }
    }

    pub fn no_close_on_outside(self) -> (b: Self)
        ensures
            b.menu == (MaterialMenu { close_on_click_outside: false, ..self.menu }),
    {
        Self { menu: self.menu.no_close_on_outside() }
    }

    /// The menu with its surface: hidden until opened, between the width
    /// limits, with extra-small corners.
    pub fn build(self) -> (p: MenuParts)
        ensures
            p == (MenuParts {
                menu: self.menu,
                background: Paint::Solid(ColorRole::SurfaceContainer),
                min_width: MENU_MIN_WIDTH,
                max_width: MENU_MAX_WIDTH,
                corner: CornerToken::ExtraSmall,
                displayed: false,
            }),
    {
        MenuParts {
            menu: self.menu,
            background: self.menu.surface_color(),
            min_width: MENU_MIN_WIDTH,
            max_width: MENU_MAX_WIDTH,
            corner: CornerToken::ExtraSmall,
            displayed: false,
        }
    }
}

impl Default for MenuBuilder {
    fn default() -> (b: Self)
        ensures
            b.menu == fresh_menu(),
    {
        Self::new()
    }
}

/// A menu item with how it is drawn.
#[derive(Debug, Clone)]
pub struct MenuItemParts {
    pub item: MaterialMenuItem,
    pub background: Paint,
    pub width: Length,
    /// Height in pixels.
    pub height: u32,
}

/// Builds a menu item.
pub struct MenuItemBuilder {
    pub item: MaterialMenuItem,
}

impl MenuItemBuilder {
    pub fn new(label: &str) -> (b: Self)
        ensures
            fresh_menu_item(label@, b.item),
    {
        Self { item: MaterialMenuItem::new(label) }
    }

    pub fn leading_icon(self, icon: &str) -> (b: Self)
        ensures
            b.item.leading_icon is Some && b.item.leading_icon->0@ == icon@,
            b.item == (MaterialMenuItem { leading_icon: b.item.leading_icon, ..self.item }),
    {
        Self { item: self.item.leading_icon(icon) }
    }

    pub fn trailing_icon(self, icon: &str) -> (b: Self)
        ensures
            b.item.trailing_icon is Some && b.item.trailing_icon->0@ == icon@,
            b.item == (MaterialMenuItem { trailing_icon: b.item.trailing_icon, ..self.item }),
    {
        Self { item: self.item.trailing_icon(icon) }
    }

    pub fn shortcut(self, text: &str) -> (b: Self)
        ensures
            b.item.trailing_text is Some && b.item.trailing_text->0@ == text@,
            b.item == (MaterialMenuItem { trailing_text: b.item.trailing_text, ..self.item }),
    {
        Self { item: self.item.shortcut(text) }
    }

    pub fn submenu(self) -> (b: Self)
        ensures
            b.item.has_submenu,
            b.item.trailing_icon is Some && b.item.trailing_icon->0@ == "chevron_right"@,
            b.item == (MaterialMenuItem { has_submenu: true, trailing_icon: b.item.trailing_icon, ..self.item }),
    {
        Self { item: self.item.submenu() }
    }

    pub fn disabled(self, disabled: bool) -> (b: Self)
        ensures
            b.item == (MaterialMenuItem { disabled: disabled, ..self.item }),
    {
        Self { item: self.item.disabled(disabled) }
    }

    pub fn selected(self, selected: bool) -> (b: Self)
        ensures
            b.item == (MaterialMenuItem { selected: selected, ..self.item }),
    {
        Self { item: self.item.selected(selected) }
    }

    /// The item with its background, full width and fixed height.
    pub fn build(self) -> (p: MenuItemParts)
        ensures
            p.item == self.item,
            p.background == (if self.item.selected {
                Paint::Solid(ColorRole::SecondaryContainer)
            } else {
                Paint::Transparent
            }),
            p.width == Length::Percent(100),
            p.height == MENU_ITEM_HEIGHT,
    {
        let background = self.item.background_color();
        MenuItemParts { item: self.item, background, width: Length::Percent(100), height: MENU_ITEM_HEIGHT }
    }
}

// ---------------------------------------------------------------------------
// Test ids of menu items
// ---------------------------------------------------------------------------

/// `char::to_ascii_lowercase`.
pub open spec fn ascii_lower(c: char) -> char {
    if 'A' <= c && c <= 'Z' {
        ((c as u32) + 32) as char
    } else {
        c
    }
}

/// `char::is_ascii_alphanumeric`.
pub open spec fn ascii_alnum(c: char) -> bool {
    ('0' <= c && c <= '9') || ('a' <= c && c <= 'z') || ('A' <= c && c <= 'Z')
}

/// `char::is_ascii_whitespace`: space, tab, line feed, form feed and
/// carriage return.
pub open spec fn ascii_space(c: char) -> bool {
    c == ' ' || c == '\t' || c == '\n' || c == '\u{c}' || c == '\r'
}

/// A label turned into id characters, before trailing underscores are
/// dropped: letters lowercased, ASCII letters and digits kept, each run of
/// spaces and hyphens (after the first id character or underscore) turned
/// into one underscore, everything else dropped.
pub open spec fn slug_raw(s: Seq<char>) -> Seq<char>
    decreases s.len(),
{
    if s.len() == 0 {
        Seq::empty()
    } else {
        let out = slug_raw(s.drop_last());
        let c = ascii_lower(s.last());
        if ascii_alnum(c) {
            out.push(c)
        } else if ascii_space(c) || c == '-' {
            if out.len() > 0 && out.last() == '_' {
                out
            } else {
                out.push('_')
            }
        } else {
            out
        }
    }
}

/// The id component of a label: `slug_raw` without trailing underscores,
/// or `"item"` where nothing is left.
pub open spec fn slug(s: Seq<char>) -> Seq<char> {
    let t = trim_end_char_seq(slug_raw(s), '_');
    if t.len() == 0 {
        seq!['i', 't', 'e', 'm']
    } else {
        t
    }
}

fn ascii_lower_char(c: char) -> (r: char)
    ensures
        r == ascii_lower(c),
{
    if 'A' <= c && c <= 'Z' {
        let u: u32 = c as u32;
        let b: u8 = (u + 32) as u8;
        b as char
    } else {
        c
    }
}

/// The id component of a label.
fn sanitize_test_id_component(raw: &str) -> (r: Vec<char>)
    ensures
        r@ == slug(raw@),
{
    let chars = chars_of(raw);
    let mut out: Vec<char> = Vec::new();
    let mut i: usize = 0;
    while i < chars.len()
        invariant
            i <= chars@.len(),
            chars@ == raw@,
            out@ == slug_raw(chars@.subrange(0, i as int)),
        decreases chars.len() - i,
    {
        proof {
            assert(chars@.subrange(0, i + 1).drop_last() =~= chars@.subrange(0, i as int));
        }
        let c = ascii_lower_char(chars[i]);
        let alnum = ('0' <= c && c <= '9') || ('a' <= c && c <= 'z') || ('A' <= c && c <= 'Z');
        if alnum {
            out.push(c);
        } else if c == ' ' || c == '\t' || c == '\n' || c == '\u{c}' || c == '\r' || c == '-' {
            let ends_with_underscore = out.len() > 0 && out[out.len() - 1] == '_';
            if !ends_with_underscore {
                out.push('_');
            }
        }
        i = i + 1;
    }
    proof {
        assert(chars@.subrange(0, chars@.len() as int) =~= chars@);
    }
    let trimmed = trim_end_char(&out, '_');
    if trimmed.len() == 0 {
        let mut item: Vec<char> = Vec::new();
        item.push('i');
        item.push('t');
        item.push('e');
        item.push('m');
        proof {
            assert(item@ =~= seq!['i', 't', 'e', 'm']);
        }
        item
    } else {
        trimmed
    }
}

/// How often `s` occurs in `xs`.
pub open spec fn occurrences(xs: Seq<Seq<char>>, s: Seq<char>) -> nat
    decreases xs.len(),
{
    if xs.len() == 0 {
        0
    } else {
        occurrences(xs.drop_last(), s) + if xs.last() == s {
            1nat
        } else {
            0nat
        }
    }
}

/// The unique id component of the `i`-th item: its slug the first time
/// the slug occurs, and the slug, `'_'` and the occurrence number after.
pub open spec fn unique_component(slugs: Seq<Seq<char>>, i: int) -> Seq<char> {
    let k = occurrences(slugs.subrange(0, i + 1), slugs[i]);
    if k == 1 {
        slugs[i]
    } else {
        slugs[i] + seq!['_'] + digits_of(k)
    }
}

/// The test id of the `i`-th item of a menu whose id is `base`.
pub open spec fn item_test_id(base: Seq<char>, labels: Seq<Seq<char>>, i: int) -> Seq<char> {
    base + seq!['/', 'i', 't', 'e', 'm', '/'] + unique_component(labels.map_values(|l: Seq<char>| slug(l)), i)
}

/// The test ids of a menu's items, in order: `base/item/<slug>`, with a
/// running number appended to slugs seen before.
pub fn menu_item_test_ids(base: &str, labels: &Vec<String>) -> (ids: Vec<String>)
    requires
        labels@.len() <= u32::MAX,
    ensures
        ids@.len() == labels@.len(),
        forall|i: int|
            0 <= i < labels@.len() ==> #[trigger] ids@[i]@ == item_test_id(
                base@,
                labels@.map_values(|l: String| l@),
                i,
            ),
{
    let ghost lv = labels@.map_values(|l: String| l@);
    let ghost sv = lv.map_values(|l: Seq<char>| slug(l));
    let mut slugs: Vec<Vec<char>> = Vec::new();
    let mut i: usize = 0;
    while i < labels.len()
        invariant
            i <= labels@.len(),
            slugs@.len() == i,
            lv == labels@.map_values(|l: String| l@),
            sv == lv.map_values(|l: Seq<char>| slug(l)),
            forall|j: int| 0 <= j < i ==> #[trigger] slugs@[j]@ == sv[j],
        decreases labels.len() - i,
    {
        let s = sanitize_test_id_component(labels[i].as_str());
        slugs.push(s);
        i = i + 1;
    }
    let mut ids: Vec<String> = Vec::new();
    let mut k: usize = 0;
    while k < slugs.len()
        invariant
            k <= slugs@.len(),
            slugs@.len() == labels@.len(),
            labels@.len() <= u32::MAX,
            ids@.len() == k,
            sv.len() == slugs@.len(),
            lv == labels@.map_values(|l: String| l@),
            sv == lv.map_values(|l: Seq<char>| slug(l)),
            forall|j: int| 0 <= j < slugs@.len() ==> #[trigger] slugs@[j]@ == sv[j],
            forall|j: int| 0 <= j < k ==> #[trigger] ids@[j]@ == item_test_id(base@, lv, j),
        decreases slugs.len() - k,
    {
        let ghost prefix = sv.subrange(0, k + 1);
        let mut count: u32 = 0;
        let mut j: usize = 0;
        while j <= k
            invariant
                j <= k + 1,
                k < slugs@.len(),
                slugs@.len() <= u32::MAX,
                count <= j,
                sv.len() == slugs@.len(),
                forall|t: int| 0 <= t < slugs@.len() ==> #[trigger] slugs@[t]@ == sv[t],
                count == occurrences(sv.subrange(0, j as int), sv[k as int]),
            decreases k + 1 - j,
        {
            proof {
                assert(sv.subrange(0, j + 1).drop_last() =~= sv.subrange(0, j as int));
            }
            if chars_equal(&slugs[j], &slugs[k]) {
                count = count + 1;
            }
            j = j + 1;
        }
        let mut id = String::new();
        push_str(&mut id, base);
        push_str(&mut id, "/item/");
        let unique = string_from_chars(&slugs[k]);
        push_str(&mut id, unique.as_str());
        if count != 1 {
            push_char(&mut id, '_');
            push_digits(&mut id, count);
        }
        proof {
            reveal_strlit("/item/");
            assert(id@ =~= item_test_id(base@, lv, k as int));
        }
        ids.push(id);
        k = k + 1;
    }
    ids
}

/// Reported when an item of a menu is chosen.
#[derive(Debug, Clone, Copy, PartialEq, Eq, Structural)]
pub struct MenuItemSelectEvent {
    /// The entity id of the menu.
    pub menu_entity: u64,
    /// The entity id of the chosen item.
    pub item_entity: u64,
}

/// A divider between menu items, with the small spacing above and below.
pub fn create_menu_divider() -> (d: DividerParts)
    ensures
        d == divider(DividerMargin::VerticalSmall),
{
    DividerParts {
        width: Length::Percent(100),
        height_px: 1,
        color: Paint::Solid(ColorRole::OutlineVariant),
        margin: DividerMargin::VerticalSmall,
    }
}

} // verus!
