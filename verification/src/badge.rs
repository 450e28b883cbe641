//! Badges: a dot, a count or a short text shown on an icon or a
//! navigation item.
use vstd::prelude::*;

use crate::style::{ColorRole, Paint};
use crate::text::{
    byte_len, chars_of, digits_of, parse_int_spec,
    parse_u32, push_char, push_digits, trim_end_char, trim_end_char_seq,
};

verus! {

/// Size of a badge.
#[derive(Debug, Clone, Copy, PartialEq, Eq, Structural)]
pub enum BadgeSize {
    /// A dot without content.
    Small,
    /// A pill that holds a count or a text.
    Large,
}

impl Default for BadgeSize {
    fn default() -> (s: Self)
        ensures
            s == BadgeSize::Large,
    {
        BadgeSize::Large
    }
}

/// Diameter of a dot badge, in pixels.
pub const BADGE_SIZE_SMALL: u128 = 6;
/// Height, and least width, of a large badge, in pixels.
pub const BADGE_SIZE_LARGE: u128 = 16;
/// Width a large badge gains for each byte of content after the first.
pub const BADGE_GROWTH_PER_BYTE: u128 = 6;
/// Horizontal padding inside a badge, in pixels.
pub const BADGE_PADDING: u32 = 4;
/// Offset of a badge from its parent's top right corner, in pixels.
pub const BADGE_OFFSET: i32 = -4;
/// The largest count shown as a number unless another limit is set.
pub const BADGE_DEFAULT_MAX: u32 = 999;

/// A badge.
#[derive(Debug, Clone)]
pub struct MaterialBadge {
    /// Dot or pill.
    pub size: BadgeSize,
    /// What the pill shows; `None` for a dot.
    pub content: Option<String>,
    /// The largest count shown as a number; larger counts show `"max+"`.
    pub max: u32,
    /// Whether the badge is shown.
    pub visible: bool,
    /// The count the badge shows, where it shows a count (the content is
    /// then that count under the limit).
    pub count: Option<u32>,
}

/// A badge as plain values.
pub struct BadgeView {
    pub size: BadgeSize,
    pub content: Option<Seq<char>>,
    pub max: u32,
    pub visible: bool,
    pub count: Option<u32>,
}

/// The characters of an optional string.
pub open spec fn opt_chars(s: Option<String>) -> Option<Seq<char>> {
    match s {
        Some(t) => Some(t@),
        None => None,
    }
}

impl View for MaterialBadge {
    type V = BadgeView;

    open spec fn view(&self) -> BadgeView {
        BadgeView {
            size: self.size,
            content: opt_chars(self.content),
            max: self.max,
            visible: self.visible,
            count: self.count,
        }
    }
}

/// How a count is shown under a limit: the number itself, or the limit
/// followed by `'+'` when the count exceeds it.
pub open spec fn count_text(count: u32, max: u32) -> Seq<char> {
    if count > max {
        digits_of(max as nat).push('+')
    } else {
        digits_of(count as nat)
    }
}

/// The content a badge has after its limit changes to `max`: a count badge
/// shows its count under the new limit; a text that reads as a count (once
/// trailing `'+'` are dropped) is shown as that count under the new limit;
/// other content is kept.
pub open spec fn content_under_limit(count: Option<u32>, content: Option<Seq<char>>, max: u32) -> Option<
    Seq<char>,
> {
    match count {
        Some(n) => Some(count_text(n, max)),
        None => match content {
            Some(t) => match parse_int_spec(trim_end_char_seq(t, '+'), 0, u32::MAX as int) {
                Some(n) => Some(count_text(n as u32, max)),
                None => Some(t),
            },
            None => None,
        },
    }
}

/// Width of a badge, in pixels: a dot is `BADGE_SIZE_SMALL` wide; a pill is
/// `BADGE_SIZE_LARGE` wide and grows by `BADGE_GROWTH_PER_BYTE` for each
/// UTF-8 byte of content after the first.
pub open spec fn badge_width_spec(size: BadgeSize, content: Option<Seq<char>>) -> int {
    match size {
        BadgeSize::Small => BADGE_SIZE_SMALL as int,
        BadgeSize::Large => match content {
            Some(t) => {
                let n = byte_len(t);
                if n <= 1 {
                    BADGE_SIZE_LARGE as int
                } else {
                    BADGE_SIZE_LARGE + (n - 1) * BADGE_GROWTH_PER_BYTE
                }
            },
            None => BADGE_SIZE_LARGE as int,
        },
    }
}

/// Changing the limit of a count badge shows its count under the new
/// limit: the number itself, or the new limit followed by `'+'` exactly
/// when the count exceeds it, whatever limit it was shown under before.
pub proof fn lemma_count_badge_relimit(count: u32, old_max: u32, new_max: u32)
    ensures
        content_under_limit(Some(count), Some(count_text(count, old_max)), new_max) == Some(
            count_text(count, new_max),
        ),
        count_text(count, new_max) == (if count > new_max {
            digits_of(new_max as nat).push('+')
        } else {
            digits_of(count as nat)
        }),
{
}

impl MaterialBadge {
    /// A visible dot badge.
    pub fn dot() -> (b: Self)
        ensures
            b@.size == BadgeSize::Small,
            b@.content is None,
            b@.max == BADGE_DEFAULT_MAX,
            b@.visible,
            b@.count is None,
    {
        Self { size: BadgeSize::Small, content: None, max: BADGE_DEFAULT_MAX, visible: true, count: None }
    }

    /// A visible pill showing `count` under the default limit.
    pub fn count(count: u32) -> (b: Self)
        ensures
            b@.size == BadgeSize::Large,
            b@.content == Some(count_text(count, BADGE_DEFAULT_MAX)),
            b@.max == BADGE_DEFAULT_MAX,
            b@.visible,
            b@.count == Some(count),
    {
        Self {
            size: BadgeSize::Large,
            content: Some(Self::format_count(count, BADGE_DEFAULT_MAX)),
            max: BADGE_DEFAULT_MAX,
            visible: true,
            count: Some(count),
        }
    }

    /// A visible pill showing `text`.
    pub fn text(text: &str) -> (b: Self)
        ensures
            b@.size == BadgeSize::Large,
            b@.content == Some(text@),
            b@.max == BADGE_DEFAULT_MAX,
            b@.visible,
            b@.count is None,
    {
        Self {
            size: BadgeSize::Large,
            content: Some(String::from_str(text)),
            max: BADGE_DEFAULT_MAX,
            visible: true,
            count: None,
        }
    }

    /// Sets the limit, and shows a count again under it.
    pub fn with_max(self, max: u32) -> (b: Self)
        ensures
            b@.size == self@.size,
            b@.content == content_under_limit(self@.count, self@.content, max),
            b@.max == max,
            b@.visible == self@.visible,
            b@.count == self@.count,
    {
        let mut this = self;
        this.max = max;
        if let Some(n) = this.count {
            this.content = Some(Self::format_count(n, max));
            return this;
        }
        let reformatted = match &this.content {
            Some(content) => {
                let chars = chars_of(content.as_str());
                let digits = trim_end_char(&chars, '+');
                match parse_u32(&digits) {
                    Some(n) => Some(Self::format_count(n, max)),
                    None => None,
                }
            },
            None => None,
        };
        if let Some(t) = reformatted {
            this.content = Some(t);
        }
        this
    }

    /// Shows or hides the badge.
    pub fn visible(self, visible: bool) -> (b: Self)
        ensures
            b@.size == self@.size,
            b@.content == self@.content,
            b@.max == self@.max,
            b@.visible == visible,
            b@.count == self@.count,
    {
        let mut this = self;
        this.visible = visible;
        this
    }

    /// Shows `count` under the current limit, as a pill.
    pub fn set_count(&mut self, count: u32)
        ensures
            final(self)@.size == BadgeSize::Large,
            final(self)@.content == Some(count_text(count, old(self)@.max)),
            final(self)@.max == old(self)@.max,
            final(self)@.visible == old(self)@.visible,
            final(self)@.count == Some(count),
    {
        self.size = BadgeSize::Large;
        self.content = Some(Self::format_count(count, self.max));
        self.count = Some(count);
    }

    /// Shows `text`, as a pill.
    pub fn set_text(&mut self, text: &str)
        ensures
            final(self)@.size == BadgeSize::Large,
            final(self)@.content == Some(text@),
            final(self)@.max == old(self)@.max,
            final(self)@.visible == old(self)@.visible,
            final(self)@.count is None,
    {
        self.size = BadgeSize::Large;
        self.content = Some(String::from_str(text));
        self.count = None;
    }

    /// Turns the badge into a dot.
    pub fn set_dot(&mut self)
        ensures
            final(self)@.size == BadgeSize::Small,
            final(self)@.content is None,
            final(self)@.max == old(self)@.max,
            final(self)@.visible == old(self)@.visible,
            final(self)@.count is None,
    {
        self.size = BadgeSize::Small;
        self.content = None;
        self.count = None;
    }

    /// The text the badge shows, if any.
    pub fn display_text(&self) -> (r: Option<&str>)
        ensures
            match r {
                Some(t) => self@.content == Some(t@),
                None => self@.content is None,
            },
    {
        match &self.content {
            Some(s) => Some(s.as_str()),
            None => None,
        }
    }

    /// `count` as shown under the limit `max`.
    fn format_count(count: u32, max: u32) -> (s: String)
        ensures
            s@ == count_text(count, max),
    {
        let mut s = String::new();
        if count > max {
            push_digits(&mut s, max);
            push_char(&mut s, '+');
        } else {
            push_digits(&mut s, count);
        }
        proof {
            assert(s@ =~= count_text(count, max));
        }
        s
    }

    /// The badge's container is painted in the error color.
    pub fn background_color(&self) -> (p: Paint)
        ensures
            p == Paint::Solid(ColorRole::Error),
    {
        Paint::Solid(ColorRole::Error)
    }

    /// The badge's content is painted in the on-error color.
    pub fn content_color(&self) -> (p: Paint)
        ensures
            p == Paint::Solid(ColorRole::OnError),
    {
        Paint::Solid(ColorRole::OnError)
    }

    /// Width in pixels.
    pub fn width(&self) -> (w: u128)
        ensures
            w == badge_width_spec(self@.size, self@.content),
    {
        match self.size {
            BadgeSize::Small => BADGE_SIZE_SMALL,
            BadgeSize::Large => match &self.content {
                Some(content) => {
                    let t = content.as_str();
                    let n = t.len();
                    if n <= 1 {
                        BADGE_SIZE_LARGE
                    } else {
                        BADGE_SIZE_LARGE + ((n - 1) as u128) * BADGE_GROWTH_PER_BYTE
                    }
                },
                None => BADGE_SIZE_LARGE,
            },
        }
    }

    /// Height in pixels.
    pub fn height(&self) -> (h: u128)
        ensures
            h == (match self@.size {
                BadgeSize::Small => BADGE_SIZE_SMALL,
                BadgeSize::Large => BADGE_SIZE_LARGE,
            }),
    {
        match self.size {
            BadgeSize::Small => BADGE_SIZE_SMALL,
            BadgeSize::Large => BADGE_SIZE_LARGE,
        }
    }
}

impl Default for MaterialBadge {
    fn default() -> (b: Self)
        ensures
            b@.size == BadgeSize::Small,
            b@.content is None,
            b@.max == BADGE_DEFAULT_MAX,
            b@.visible,
            b@.count is None,
    {
        Self::dot()
    }
}

/// Builds a badge step by step.
pub struct BadgeBuilder {
    badge: MaterialBadge,
}

impl View for BadgeBuilder {
    type V = BadgeView;

    closed spec fn view(&self) -> BadgeView {
        self.badge@
    }
}

impl BadgeBuilder {
    /// Starts from a dot badge.
    pub fn dot() -> (b: Self)
        ensures
            b@.size == BadgeSize::Small,
            b@.content is None,
            b@.max == BADGE_DEFAULT_MAX,
            b@.visible,
            b@.count is None,
    {
        Self { badge: MaterialBadge::dot() }
    }

    /// Starts from a count badge.
    pub fn count(count: u32) -> (b: Self)
        ensures
            b@.size == BadgeSize::Large,
            b@.content == Some(count_text(count, BADGE_DEFAULT_MAX)),
            b@.max == BADGE_DEFAULT_MAX,
            b@.visible,
            b@.count == Some(count),
    {
        Self { badge: MaterialBadge::count(count) }
    }

    /// Starts from a text badge.
    pub fn text(text: &str) -> (b: Self)
        ensures
            b@.size == BadgeSize::Large,
            b@.content == Some(text@),
            b@.max == BADGE_DEFAULT_MAX,
            b@.visible,
            b@.count is None,
    {
        Self { badge: MaterialBadge::text(text) }
    }

    /// Sets the limit (see `MaterialBadge::with_max`).
    pub fn max(self, max: u32) -> (b: Self)
        ensures
            b@.size == self@.size,
            b@.content == content_under_limit(self@.count, self@.content, max),
            b@.max == max,
            b@.visible == self@.visible,
            b@.count == self@.count,
    {
        Self { badge: self.badge.with_max(max) }
    }

    /// The badge.
    pub fn build(self) -> (b: MaterialBadge)
        ensures
            b@ == self@,
    {
        self.badge
    }
}

} // verus!
