//! Locale tags and the date input patterns they select.
use vstd::prelude::*;
use vstd::string::*;

use crate::text::{
    chars_equal_str, chars_of, lemma_split_nonempty, parse_i32, parse_int_spec, parse_u8,
    push_char, push_str, replace_char, replace_seq, split_chars, split_seq, string_from_chars,
    string_from_range, to_lower, to_upper, trim_chars, trim_seq, is_digit, lower_seq,
    upper_seq, is_white, trim_start_seq, trim_end_seq, lemma_split_extend, lemma_split_at_sep,
};

verus! {

/// The locale the library formats for, as a BCP-47-like tag ("en-US").
#[derive(Debug, Clone, PartialEq, Eq)]
pub struct MaterialLocale {
    pub tag: String,
}

/// The tag used when the environment names no locale.
pub open spec fn default_tag() -> Seq<char> {
    "en-US"@
}

impl MaterialLocale {
    pub fn new(tag: &str) -> (l: Self)
        ensures
            l.tag@ == tag@,
    {
        Self { tag: String::from_str(tag) }
    }

    /// The locale for a tag found in the environment, or "en-US" when
    /// none was found.
    pub fn from_system_tag(found: Option<String>) -> (l: Self)
        ensures
            l.tag@ == match found {
                Some(t) => t@,
                None => default_tag(),
            },
    {
        match found {
            Some(t) => Self { tag: t },
            None => Self::new("en-US"),
        }
    }
}

/// A locale that applies to one component instead of the global one.
#[derive(Debug, Clone, PartialEq, Eq)]
pub struct MaterialLocaleOverride {
    pub tag: String,
}

impl MaterialLocaleOverride {
    pub fn new(tag: &str) -> (l: Self)
        ensures
            l.tag@ == tag@,
    {
        Self { tag: String::from_str(tag) }
    }
}

/// The order of the numeric fields of a typed date.
#[derive(Debug, Clone, Copy, PartialEq, Eq, Structural, Hash)]
pub enum DateFieldOrder {
    /// Month / Day / Year
    Mdy,
    /// Day / Month / Year
    Dmy,
    /// Year / Month / Day
    Ymd,
}

/// How a date is typed: field order and the separator between fields.
/// A complete typed date is always ten characters long.
#[derive(Debug, Clone, Copy, PartialEq, Eq, Structural, Hash)]
pub struct DateInputPattern {
    pub order: DateFieldOrder,
    pub separator: char,
}

/// The input hint for a pattern, e.g. "MM/DD/YYYY".
pub open spec fn hint_spec(p: DateInputPattern) -> Seq<char> {
    let s = seq![p.separator];
    match p.order {
        DateFieldOrder::Mdy => "MM"@ + s + "DD"@ + s + "YYYY"@,
        DateFieldOrder::Dmy => "DD"@ + s + "MM"@ + s + "YYYY"@,
        DateFieldOrder::Ymd => "YYYY"@ + s + "MM"@ + s + "DD"@,
    }
}

/// The ASCII digits of `s`, in order.
pub open spec fn keep_digits(s: Seq<char>) -> Seq<char>
    decreases s.len(),
{
    if s.len() == 0 {
        Seq::empty()
    } else if is_digit(s.last()) {
        keep_digits(s.drop_last()).push(s.last())
    } else {
        keep_digits(s.drop_last())
    }
}

/// What a pattern makes of typed text: its first eight digits with the
/// separators inserted after the fields already complete.
pub open spec fn normalize_spec(p: DateInputPattern, input: Seq<char>) -> Seq<char> {
    let all = keep_digits(input);
    let d = if all.len() > 8 {
        all.subrange(0, 8)
    } else {
        all
    };
    let n = d.len() as int;
    let s = seq![p.separator];
    match p.order {
        DateFieldOrder::Ymd => if n <= 4 {
            d
        } else if n <= 6 {
            d.subrange(0, 4) + s + d.subrange(4, n)
        } else {
            d.subrange(0, 4) + s + d.subrange(4, 6) + s + d.subrange(6, n)
        },
        _ => if n <= 2 {
            d
        } else if n <= 4 {
            d.subrange(0, 2) + s + d.subrange(2, n)
        } else {
            d.subrange(0, 2) + s + d.subrange(2, 4) + s + d.subrange(4, n)
        },
    }
}

/// The (year, month, day) a complete typed date names: the text must be
/// ten bytes long, consist of exactly three separator-delimited fields,
/// and each field must parse as its integer type does with `str::parse`.
pub open spec fn parse_complete_spec(
    p: DateInputPattern,
    byte_len: int,
    input: Seq<char>,
) -> Option<(i32, u8, u8)> {
    let parts = split_seq(input, p.separator);
    if byte_len != 10 || parts.len() != 3 {
        None
    } else {
        let (y, m, d) = match p.order {
            DateFieldOrder::Mdy => (parts[2], parts[0], parts[1]),
            DateFieldOrder::Dmy => (parts[2], parts[1], parts[0]),
            DateFieldOrder::Ymd => (parts[0], parts[1], parts[2]),
        };
        match (
            parse_int_spec(y, i32::MIN as int, i32::MAX as int),
            parse_int_spec(m, 0, 255),
            parse_int_spec(d, 0, 255),
        ) {
            (Some(yv), Some(mv), Some(dv)) => Some((yv as i32, mv as u8, dv as u8)),
            _ => None,
        }
    }
}

/// Whether a pattern's ten-character text names a month `1..=12` and a
/// day `1..=31`.
pub open spec fn valid_basic_spec(p: DateInputPattern, byte_len: int, input: Seq<char>) -> bool {
    match parse_complete_spec(p, byte_len, input) {
        Some((_, m, d)) => 1 <= m <= 12 && 1 <= d <= 31,
        None => false,
    }
}

fn digits_prefix(v: &Vec<char>) -> (d: Vec<char>)
    ensures
        d@ == if keep_digits(v@).len() > 8 {
            keep_digits(v@).subrange(0, 8)
        } else {
            keep_digits(v@)
        },
{
    let mut d: Vec<char> = Vec::new();
    let mut i: usize = 0;
    while i < v.len()
        invariant
            i <= v@.len(),
            d@ == if keep_digits(v@.subrange(0, i as int)).len() > 8 {
                keep_digits(v@.subrange(0, i as int)).subrange(0, 8)
            } else {
                keep_digits(v@.subrange(0, i as int))
            },
        decreases v.len() - i,
    {
        let c = v[i];
        let ghost pre = v@.subrange(0, i as int);
        let ghost next = v@.subrange(0, i + 1);
        proof {
            assert(next.drop_last() =~= pre);
            assert(next.last() == c);
        }
        if '0' <= c && c <= '9' && d.len() < 8 {
            d.push(c);
            proof {
                assert(d@ =~= if keep_digits(next).len() > 8 {
                    keep_digits(next).subrange(0, 8)
                } else {
                    keep_digits(next)
                });
            }
        } else {
            proof {
                if '0' <= c && c <= '9' {
                    assert(keep_digits(next).subrange(0, 8) =~= keep_digits(pre).subrange(0, 8));
                }
            }
        }
        i = i + 1;
    }
    proof {
        assert(v@.subrange(0, v@.len() as int) =~= v@);
    }
    d
}

impl DateInputPattern {
    pub fn new(order: DateFieldOrder, separator: char) -> (p: Self)
        ensures
            p.order == order,
            p.separator == separator,
    {
        Self { order, separator }
    }

    /// Length of a complete typed date: always 10.
    pub fn formatted_len(self) -> (n: usize)
        ensures
            n == 10,
    {
        10
    }

    /// The input hint, e.g. "MM/DD/YYYY".
    pub fn hint(self) -> (s: String)
        ensures
            s@ == hint_spec(self),
    {
        let mut s = String::new();
        match self.order {
            DateFieldOrder::Mdy => {
                push_str(&mut s, "MM");
                push_char(&mut s, self.separator);
                push_str(&mut s, "DD");
                push_char(&mut s, self.separator);
                push_str(&mut s, "YYYY");
            },
            DateFieldOrder::Dmy => {
                push_str(&mut s, "DD");
                push_char(&mut s, self.separator);
                push_str(&mut s, "MM");
                push_char(&mut s, self.separator);
                push_str(&mut s, "YYYY");
            },
            DateFieldOrder::Ymd => {
                push_str(&mut s, "YYYY");
                push_char(&mut s, self.separator);
                push_str(&mut s, "MM");
                push_char(&mut s, self.separator);
                push_str(&mut s, "DD");
            },
        }
        proof {
            assert(s@ =~= hint_spec(self));
        }
        s
    }

    /// Keeps the first eight digits of `input` and inserts the separators
    /// after the fields already complete.
    pub fn normalize_digits(self, input: &str) -> (s: String)
        ensures
            s@ == normalize_spec(self, input@),
    {
        let v = chars_of(input);
        let d = digits_prefix(&v);
        let len = d.len();
        let (a, b): (usize, usize) = match self.order {
            DateFieldOrder::Ymd => (4, 6),
            _ => (2, 4),
        };
        if len <= a {
            let s = string_from_chars(&d);
            proof {
                assert(s@ =~= normalize_spec(self, input@));
            }
            return s;
        }
        let mut s = string_from_range(&d, 0, a);
        push_char(&mut s, self.separator);
        if len <= b {
            let rest = string_from_range(&d, a, len);
            push_str(&mut s, rest.as_str());
            proof {
                assert(s@ =~= normalize_spec(self, input@));
            }
            return s;
        }
        let mid = string_from_range(&d, a, b);
        push_str(&mut s, mid.as_str());
        push_char(&mut s, self.separator);
        let rest = string_from_range(&d, b, len);
        push_str(&mut s, rest.as_str());
        proof {
            assert(s@ =~= normalize_spec(self, input@));
        }
        s
    }

    /// The (year, month, day) of a complete typed date.
    pub fn try_parse_complete(self, input: &str) -> (r: Option<(i32, u8, u8)>)
        ensures
            r == parse_complete_spec(self, input.len() as int, input@),
    {
        if input.len() != self.formatted_len() {
            return None;
        }
        let v = chars_of(input);
        let parts = split_chars(&v, self.separator);
        if parts.len() != 3 {
            return None;
        }
        let (yi, mi, di): (usize, usize, usize) = match self.order {
            DateFieldOrder::Mdy => (2, 0, 1),
            DateFieldOrder::Dmy => (2, 1, 0),
            DateFieldOrder::Ymd => (0, 1, 2),
        };
        proof {
            assert(parts@[yi as int]@ == split_seq(v@, self.separator)[yi as int]);
            assert(parts@[mi as int]@ == split_seq(v@, self.separator)[mi as int]);
            assert(parts@[di as int]@ == split_seq(v@, self.separator)[di as int]);
        }
        let month = match parse_u8(&parts[mi]) {
            Some(m) => m,
            None => return None,
        };
        let day = match parse_u8(&parts[di]) {
            Some(d) => d,
            None => return None,
        };
        let year = match parse_i32(&parts[yi]) {
            Some(y) => y,
            None => return None,
        };
        Some((year, month, day))
    }

    /// Whether a complete typed date has month `1..=12` and day `1..=31`.
    pub fn is_valid_complete_basic(self, input: &str) -> (r: bool)
        ensures
            r == valid_basic_spec(self, input.len() as int, input@),
    {
        match self.try_parse_complete(input) {
            Some((_year, month, day)) => 1 <= month && month <= 12 && 1 <= day && day <= 31,
            None => false,
        }
    }
}

/// The language (lowercased first field) and region (uppercased second
/// field, or empty) of a tag, after trimming it and reading `_` as `-`.
pub open spec fn tag_fields(tag: Seq<char>) -> (Seq<char>, Seq<char>) {
    let parts = split_seq(replace_seq(trim_seq(tag), '_', '-'), '-');
    (lower_seq(parts[0]), upper_seq(if parts.len() > 1 { parts[1] } else { Seq::empty() }))
}

/// The pattern a locale selects: month first for the US, the Philippines
/// and Belize; year first for Chinese, Japanese and Korean; day first
/// otherwise; always separated by '/'.
pub open spec fn pattern_for_locale_spec(tag: Seq<char>) -> DateInputPattern {
    let (language, region) = tag_fields(tag);
    let order = if region == "US"@ || region == "PH"@ || region == "BZ"@ {
        DateFieldOrder::Mdy
    } else if language == "zh"@ || language == "ja"@ || language == "ko"@ {
        DateFieldOrder::Ymd
    } else {
        DateFieldOrder::Dmy
    };
    DateInputPattern { order, separator: '/' }
}

/// Whether `s` is one field of a locale tag: not empty, without `-` or
/// `_`, and without whitespace at its ends.
pub open spec fn tag_field(s: Seq<char>) -> bool {
    &&& s.len() >= 1
    &&& forall|i: int| 0 <= i < s.len() ==> s[i] != '-' && s[i] != '_'
    &&& !is_white(s[0])
    &&& !is_white(s.last())
}

proof fn lemma_tag_parts(lang: Seq<char>, region: Seq<char>)
    requires
        tag_field(lang),
        tag_field(region),
    ensures
        tag_fields(lang) == (lower_seq(lang), upper_seq(Seq::<char>::empty())),
        tag_fields(lang + seq!['-'] + region) == (lower_seq(lang), upper_seq(region)),
{
    let e = Seq::<char>::empty();
    let t = lang + seq!['-'] + region;
    // whole tags are already trimmed and have no '_'
    assert(trim_start_seq(lang) == lang);
    assert(trim_end_seq(lang) == lang);
    assert(replace_seq(lang, '_', '-') =~= lang);
    assert(t[0] == lang[0]);
    assert(t.last() == region.last());
    assert(trim_start_seq(t) == t);
    assert(trim_end_seq(t) == t);
    assert forall|i: int| 0 <= i < t.len() implies t[i] != '_' by {
        if i < lang.len() {
            assert(t[i] == lang[i]);
        } else if i > lang.len() {
            assert(t[i] == region[i - lang.len() - 1]);
        }
    }
    assert(replace_seq(t, '_', '-') =~= t);
    // splitting
    lemma_split_extend(e, lang, '-');
    assert(e + lang =~= lang);
    assert(split_seq(e, '-') =~= seq![e]);
    assert(seq![e].update(0, e + lang) =~= seq![lang]);
    lemma_split_at_sep(lang, '-');
    assert(lang.push('-') =~= lang + seq!['-']);
    lemma_split_extend(lang + seq!['-'], region, '-');
    assert(seq![lang, e].update(1, e + region) =~= seq![lang, region]);
    assert(e + region =~= region);
}

/// Which field order a tag "language-REGION" selects: month first for the
/// US, the Philippines and Belize whatever the language; otherwise year
/// first for Chinese, Japanese and Korean, in either case of letters, and
/// day first for every other language. A tag with the language alone
/// orders the same way as with another region. The separator is always
/// '/'.
pub proof fn lemma_locale_field_order(lang: Seq<char>, region: Seq<char>)
    requires
        tag_field(lang),
        tag_field(region),
    ensures
        ({
            let p = pattern_for_locale_spec(lang + seq!['-'] + region);
            let r = upper_seq(region);
            let l = lower_seq(lang);
            let cjk = l == "zh"@ || l == "ja"@ || l == "ko"@;
            &&& p.separator == '/'
            &&& (r == "US"@ || r == "PH"@ || r == "BZ"@) ==> p.order == DateFieldOrder::Mdy
            &&& !(r == "US"@ || r == "PH"@ || r == "BZ"@) && cjk ==> p.order == DateFieldOrder::Ymd
            &&& !(r == "US"@ || r == "PH"@ || r == "BZ"@) && !cjk ==> p.order == DateFieldOrder::Dmy
            &&& pattern_for_locale_spec(lang).order == if cjk {
                DateFieldOrder::Ymd
            } else {
                DateFieldOrder::Dmy
            }
        }),
{
    lemma_tag_parts(lang, region);
    reveal_strlit("US");
    reveal_strlit("PH");
    reveal_strlit("BZ");
    assert(upper_seq(Seq::<char>::empty()) =~= Seq::<char>::empty());
    assert(Seq::<char>::empty() != "US"@);
    assert(Seq::<char>::empty() != "PH"@);
    assert(Seq::<char>::empty() != "BZ"@);
}

/// The date input pattern a locale tag selects.
pub fn date_input_pattern_for_locale(tag: &str) -> (p: DateInputPattern)
    ensures
        p == pattern_for_locale_spec(tag@),
{
    let v = chars_of(tag);
    let t = trim_chars(&v);
    let n = replace_char(&t, '_', '-');
    let parts = split_chars(&n, '-');
    proof {
        lemma_split_nonempty(n@, '-');
    }
    let language = to_lower(&parts[0]);
    let empty: Vec<char> = Vec::new();
    let second = if parts.len() > 1 {
        &parts[1]
    } else {
        &empty
    };
    let region = to_upper(second);
    proof {
        assert(parts@[0]@ == split_seq(n@, '-')[0]);
        if parts.len() > 1 {
            assert(parts@[1]@ == split_seq(n@, '-')[1]);
        } else {
            assert(empty@ =~= Seq::<char>::empty());
        }
    }
    if chars_equal_str(&region, "US") || chars_equal_str(&region, "PH") || chars_equal_str(
        &region,
        "BZ",
    ) {
        return DateInputPattern::new(DateFieldOrder::Mdy, '/');
    }
    if chars_equal_str(&language, "zh") || chars_equal_str(&language, "ja") || chars_equal_str(
        &language,
        "ko",
    ) {
        return DateInputPattern::new(DateFieldOrder::Ymd, '/');
    }
    DateInputPattern::new(DateFieldOrder::Dmy, '/')
}

/// The tag that a locale environment value (such as "en_US.UTF-8") names:
/// trimmed, cut at the first '.', with `_` read as `-`; none when that
/// leaves nothing.
pub open spec fn env_tag_spec(value: Seq<char>) -> Option<Seq<char>> {
    let t = trim_seq(value);
    let tag = replace_seq(split_seq(t, '.')[0], '_', '-');
    if t.len() == 0 || tag.len() == 0 {
        None
    } else {
        Some(tag)
    }
}

/// The locale tag a locale environment value names.
pub fn locale_tag_from_env_value(value: &str) -> (r: Option<String>)
    ensures
        match r {
            Some(s) => env_tag_spec(value@) == Some(s@),
            None => env_tag_spec(value@) is None,
        },
{
    let v = chars_of(value);
    let t = trim_chars(&v);
    if t.len() == 0 {
        return None;
    }
    let parts = split_chars(&t, '.');
    proof {
        lemma_split_nonempty(t@, '.');
        assert(parts@[0]@ == split_seq(t@, '.')[0]);
    }
    let tag = replace_char(&parts[0], '_', '-');
    if tag.len() == 0 {
        return None;
    }
    Some(string_from_chars(&tag))
}

/// The first tag named by a list of environment values (in the order
/// LC_ALL, LANG, LANGUAGE; `None` where unset).
pub open spec fn first_env_tag(values: Seq<Option<String>>) -> Option<Seq<char>>
    decreases values.len(),
{
    if values.len() == 0 {
        None
    } else {
        match values[0] {
            Some(v) => match env_tag_spec(v@) {
                Some(t) => Some(t),
                None => first_env_tag(values.drop_first()),
            },
            None => first_env_tag(values.drop_first()),
        }
    }
}

/// The locale tag named by the first usable environment value.
pub fn system_locale_tag(values: &Vec<Option<String>>) -> (r: Option<String>)
    ensures
        match r {
            Some(s) => first_env_tag(values@) == Some(s@),
            None => first_env_tag(values@) is None,
        },
{
    let mut i: usize = 0;
    proof {
        assert(values@.subrange(0, values@.len() as int) =~= values@);
    }
    while i < values.len()
        invariant
            i <= values@.len(),
            first_env_tag(values@) == first_env_tag(values@.subrange(i as int, values@.len() as int)),
        decreases values.len() - i,
    {
        let ghost rest = values@.subrange(i as int, values@.len() as int);
        proof {
            assert(rest.drop_first() =~= values@.subrange(i + 1, values@.len() as int));
        }
        match &values[i] {
            Some(v) => {
                match locale_tag_from_env_value(v.as_str()) {
                    Some(t) => {
                        return Some(t);
                    },
                    None => {},
                }
            },
            None => {},
        }
        i = i + 1;
    }
    None
}

} // verus!
