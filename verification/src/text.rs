//! Character-level text utilities: decimal rendering, parsing of decimal
//! integers, splitting, trimming and case mapping, all stated over the
//! `Seq<char>` view of strings.
use vstd::prelude::*;
use vstd::string::*;

verus! {

// ---------------------------------------------------------------------------
// Decimal rendering
// ---------------------------------------------------------------------------

/// The ASCII character of a decimal digit.
pub open spec fn digit_char(d: int) -> char {
    (48 + d) as char
}

/// Decimal digits of a natural number, most significant first, without
/// leading zeros ("0" for zero).
pub open spec fn digits_of(n: nat) -> Seq<char>
    decreases n,
{
    if n < 10 {
        seq![digit_char(n as int)]
    } else {
        digits_of(n / 10).push(digit_char((n % 10) as int))
    }
}

/// `s` left-padded with `'0'` up to `width` characters.
pub open spec fn pad_zeros(s: Seq<char>, width: int) -> Seq<char> {
    if s.len() < width {
        Seq::new((width - s.len()) as nat, |i: int| '0') + s
    } else {
        s
    }
}

/// The text that `format!("{:0width$}", n)` produces: the sign counts
/// toward the width and the zeros go between sign and digits.
pub open spec fn fmt_int(n: int, width: int) -> Seq<char> {
    if n < 0 {
        seq!['-'] + pad_zeros(digits_of((-n) as nat), width - 1)
    } else {
        pad_zeros(digits_of(n as nat), width)
    }
}

/// The length in bytes that `str::len` reports for text with these
/// characters.
pub open spec fn byte_len(t: Seq<char>) -> usize {
    vstd::utf8::encode_utf8(t).len() as usize
}

/// Appends one character to a string.
#[verifier::external_body]
pub fn push_char(s: &mut String, c: char)
    ensures
        final(s)@ == old(s)@.push(c),
{
    s.push(c);
}

/// Appends a string slice to a string.
pub fn push_str(s: &mut String, t: &str)
    ensures
        final(s)@ == old(s)@ + t@,
{
    s.append(t);
}

/// The character of the digit `d`.
pub fn digit_to_char(d: u32) -> (c: char)
    requires
        d < 10,
    ensures
        c == digit_char(d as int),
{
    let b: u8 = 48u8 + (d as u8);
    b as char
}

/// Number of decimal digits of `n`.
pub fn count_digits(n: u32) -> (k: usize)
    ensures
        k as nat == digits_of(n as nat).len(),
        1 <= k <= n as int + 1,
    decreases n,
{
    if n < 10 {
        1
    } else {
        let k = count_digits(n / 10);
        proof {
            assert(digits_of(n as nat) == digits_of((n / 10) as nat).push(digit_char((n % 10) as int)));
        }
        k + 1
    }
}

/// Appends the decimal digits of `n`.
pub fn push_digits(s: &mut String, n: u32)
    ensures
        final(s)@ == old(s)@ + digits_of(n as nat),
    decreases n,
{
    if n >= 10 {
        push_digits(s, n / 10);
    }
    push_char(s, digit_to_char(n % 10));
    proof {
        if n >= 10 {
            assert(digits_of(n as nat) == digits_of((n / 10) as nat).push(digit_char((n % 10) as int)));
        }
    }
}

/// Appends `n` in decimal, left-padded with zeros to `width` characters.
pub fn push_padded(s: &mut String, n: u32, width: usize)
    ensures
        final(s)@ == old(s)@ + pad_zeros(digits_of(n as nat), width as int),
{
    let k = count_digits(n);
    let ghost start = s@;
    let mut i: usize = k;
    while i < width
        invariant
            k <= i,
            k as nat == digits_of(n as nat).len(),
            i <= width || i == k,
            s@ == start + Seq::new((i - k) as nat, |j: int| '0'),
        decreases width - i,
    {
        push_char(s, '0');
        proof {
            assert(s@ =~= start + Seq::new((i + 1 - k) as nat, |j: int| '0'));
        }
        i = i + 1;
    }
    let ghost zeros = s@;
    push_digits(s, n);
    proof {
        let d = digits_of(n as nat);
        if d.len() < width {
            assert(i == width);
            assert(s@ =~= start + pad_zeros(d, width as int));
        } else {
            assert(i == k);
            assert(s@ =~= start + pad_zeros(d, width as int));
        }
    }
}

/// The magnitude of an `i32` as a `u32`.
pub fn magnitude(n: i32) -> (m: u32)
    ensures
        m as int == if n < 0 { -n } else { n as int },
{
    if n < 0 {
        if n == i32::MIN {
            2147483648u32
        } else {
            (-n) as u32
        }
    } else {
        n as u32
    }
}

/// Appends `n` as `format!("{:0width$}", n)` renders it.
pub fn push_int(s: &mut String, n: i32, width: usize)
    ensures
        final(s)@ == old(s)@ + fmt_int(n as int, width as int),
{
    let m = magnitude(n);
    if n < 0 {
        push_char(s, '-');
        let w: usize = if width > 0 { width - 1 } else { 0 };
        let ghost mid = s@;
        push_padded(s, m, w);
        proof {
            let d = digits_of(m as nat);
            assert(pad_zeros(d, w as int) == pad_zeros(d, width - 1)) by {
                if width == 0 {
                    assert(d.len() >= 1) by {
                        reveal_with_fuel(digits_of, 2);
                    }
                }
            }
            assert(s@ =~= old(s)@ + fmt_int(n as int, width as int));
        }
    } else {
        push_padded(s, m, width);
    }
}

/// A fresh string holding `format!("{:0width$}", n)`.
pub fn int_to_string(n: i32, width: usize) -> (s: String)
    ensures
        s@ == fmt_int(n as int, width as int),
{
    let mut s = String::new();
    push_int(&mut s, n, width);
    proof {
        assert(s@ =~= fmt_int(n as int, width as int));
    }
    s
}

// ---------------------------------------------------------------------------
// Strings as character vectors
// ---------------------------------------------------------------------------

/// The characters of a string slice.
pub fn chars_of(s: &str) -> (v: Vec<char>)
    ensures
        v@ == s@,
{
    let n = s.unicode_len();
    let mut v: Vec<char> = Vec::new();
    let mut i: usize = 0;
    while i < n
        invariant
            n as nat == s@.len(),
            i <= n,
            v@ == s@.subrange(0, i as int),
        decreases n - i,
    {
        let c = s.get_char(i);
        v.push(c);
        proof {
            assert(v@ =~= s@.subrange(0, i + 1));
        }
        i = i + 1;
    }
    proof {
        assert(v@ =~= s@);
    }
    v
}

/// A string holding the characters `v[from..to]`.
pub fn string_from_range(v: &Vec<char>, from: usize, to: usize) -> (s: String)
    requires
        from <= to <= v@.len(),
    ensures
        s@ == v@.subrange(from as int, to as int),
{
    let mut s = String::new();
    let mut i = from;
    while i < to
        invariant
            from <= i <= to <= v@.len(),
            s@ == v@.subrange(from as int, i as int),
        decreases to - i,
    {
        push_char(&mut s, v[i]);
        proof {
            assert(s@ =~= v@.subrange(from as int, i + 1));
        }
        i = i + 1;
    }
    s
}

/// A string holding the characters of `v`.
pub fn string_from_chars(v: &Vec<char>) -> (s: String)
    ensures
        s@ == v@,
{
    let s = string_from_range(v, 0, v.len());
    proof {
        assert(v@.subrange(0, v@.len() as int) =~= v@);
    }
    s
}

/// Whether two character sequences are equal.
pub fn chars_equal(a: &Vec<char>, b: &Vec<char>) -> (r: bool)
    ensures
        r == (a@ == b@),
{
    if a.len() != b.len() {
        return false;
    }
    let mut i: usize = 0;
    while i < a.len()
        invariant
            a@.len() == b@.len(),
            i <= a@.len(),
            forall|j: int| 0 <= j < i ==> a@[j] == b@[j],
        decreases a.len() - i,
    {
        if a[i] != b[i] {
            return false;
        }
        i = i + 1;
    }
    proof {
        assert(a@ =~= b@);
    }
    true
}

/// Whether a character sequence equals the characters of `lit`.
pub fn chars_equal_str(a: &Vec<char>, lit: &str) -> (r: bool)
    ensures
        r == (a@ == lit@),
{
    let b = chars_of(lit);
    chars_equal(a, &b)
}

/// Whether two string slices hold the same characters.
pub fn str_equal(a: &str, b: &str) -> (r: bool)
    ensures
        r == (a@ == b@),
{
    let x = chars_of(a);
    let y = chars_of(b);
    chars_equal(&x, &y)
}

// ---------------------------------------------------------------------------
// Character classes
// ---------------------------------------------------------------------------

/// `char::is_ascii_digit`.
pub open spec fn is_digit(c: char) -> bool {
    '0' <= c && c <= '9'
}

/// The value of an ASCII digit.
pub open spec fn digit_value(c: char) -> int {
    (c as int) - 48
}

/// `char::is_whitespace`: the Unicode `White_Space` property.
pub open spec fn is_white(c: char) -> bool {
    ||| ('\u{9}' <= c && c <= '\u{d}')
    ||| c == ' '
    ||| c == '\u{85}'
    ||| c == '\u{a0}'
    ||| c == '\u{1680}'
    ||| ('\u{2000}' <= c && c <= '\u{200a}')
    ||| c == '\u{2028}'
    ||| c == '\u{2029}'
    ||| c == '\u{202f}'
    ||| c == '\u{205f}'
    ||| c == '\u{3000}'
}

/// Decides `is_white`.
pub fn is_whitespace_char(c: char) -> (r: bool)
    ensures
        r == is_white(c),
{
    ('\u{9}' <= c && c <= '\u{d}') || c == ' ' || c == '\u{85}' || c == '\u{a0}' || c
        == '\u{1680}' || ('\u{2000}' <= c && c <= '\u{200a}') || c == '\u{2028}' || c
        == '\u{2029}' || c == '\u{202f}' || c == '\u{205f}' || c == '\u{3000}'
}

/// `char::to_ascii_lowercase`.
pub open spec fn lower_char(c: char) -> char {
    if 'A' <= c && c <= 'Z' {
        ((c as int) + 32) as char
    } else {
        c
    }
}

/// `char::to_ascii_uppercase`.
pub open spec fn upper_char(c: char) -> char {
    if 'a' <= c && c <= 'z' {
        ((c as int) - 32) as char
    } else {
        c
    }
}

/// `str::to_ascii_lowercase` on a character sequence.
pub open spec fn lower_seq(s: Seq<char>) -> Seq<char> {
    s.map_values(|c: char| lower_char(c))
}

/// `str::to_ascii_uppercase` on a character sequence.
pub open spec fn upper_seq(s: Seq<char>) -> Seq<char> {
    s.map_values(|c: char| upper_char(c))
}

/// Maps every character to its ASCII lowercase.
pub fn to_lower(v: &Vec<char>) -> (r: Vec<char>)
    ensures
        r@ == lower_seq(v@),
{
    let mut r: Vec<char> = Vec::new();
    let mut i: usize = 0;
    while i < v.len()
        invariant
            i <= v@.len(),
            r@ == lower_seq(v@.subrange(0, i as int)),
        decreases v.len() - i,
    {
        let c = v[i];
        let l = if 'A' <= c && c <= 'Z' {
            ((c as u32 + 32) as u8) as char
        } else {
            c
        };
        r.push(l);
        proof {
            assert(r@ =~= lower_seq(v@.subrange(0, i + 1)));
        }
        i = i + 1;
    }
    proof {
        assert(v@.subrange(0, v@.len() as int) =~= v@);
    }
    r
}

/// Maps every character to its ASCII uppercase.
pub fn to_upper(v: &Vec<char>) -> (r: Vec<char>)
    ensures
        r@ == upper_seq(v@),
{
    let mut r: Vec<char> = Vec::new();
    let mut i: usize = 0;
    while i < v.len()
        invariant
            i <= v@.len(),
            r@ == upper_seq(v@.subrange(0, i as int)),
        decreases v.len() - i,
    {
        let c = v[i];
        let u = if 'a' <= c && c <= 'z' {
            ((c as u32 - 32) as u8) as char
        } else {
            c
        };
        r.push(u);
        proof {
            assert(r@ =~= upper_seq(v@.subrange(0, i + 1)));
        }
        i = i + 1;
    }
    proof {
        assert(v@.subrange(0, v@.len() as int) =~= v@);
    }
    r
}

// ---------------------------------------------------------------------------
// Trimming, replacing, splitting
// ---------------------------------------------------------------------------

/// `s` without its leading whitespace.
pub open spec fn trim_start_seq(s: Seq<char>) -> Seq<char>
    decreases s.len(),
{
    if s.len() > 0 && is_white(s[0]) {
        trim_start_seq(s.drop_first())
    } else {
        s
    }
}

/// `s` without its trailing whitespace.
pub open spec fn trim_end_seq(s: Seq<char>) -> Seq<char>
    decreases s.len(),
{
    if s.len() > 0 && is_white(s.last()) {
        trim_end_seq(s.drop_last())
    } else {
        s
    }
}

/// `str::trim`: both ends stripped of whitespace.
pub open spec fn trim_seq(s: Seq<char>) -> Seq<char> {
    trim_end_seq(trim_start_seq(s))
}

proof fn lemma_trim_start(s: Seq<char>, i: int)
    requires
        0 <= i <= s.len(),
        forall|j: int| 0 <= j < i ==> is_white(s[j]),
        i == s.len() || !is_white(s[i]),
    ensures
        trim_start_seq(s) == s.subrange(i, s.len() as int),
    decreases i,
{
    if i > 0 {
        assert(forall|j: int| 0 <= j < i - 1 ==> s.drop_first()[j] == s[j + 1]);
        lemma_trim_start(s.drop_first(), i - 1);
        assert(s.drop_first().subrange(i - 1, s.len() - 1) =~= s.subrange(i, s.len() as int));
    } else {
        assert(s.subrange(0, s.len() as int) =~= s);
    }
}

proof fn lemma_trim_end(s: Seq<char>, k: int)
    requires
        0 <= k <= s.len(),
        forall|j: int| k <= j < s.len() ==> is_white(s[j]),
        k == 0 || !is_white(s[k - 1]),
    ensures
        trim_end_seq(s) == s.subrange(0, k),
    decreases s.len() - k,
{
    if k < s.len() {
        lemma_trim_end(s.drop_last(), k);
        assert(s.drop_last().subrange(0, k) =~= s.subrange(0, k));
    } else {
        assert(s.subrange(0, k) =~= s);
    }
}

/// `str::trim` on a character vector.
pub fn trim_chars(v: &Vec<char>) -> (r: Vec<char>)
    ensures
        r@ == trim_seq(v@),
{
    let n = v.len();
    let mut a: usize = 0;
    while a < n && is_whitespace_char(v[a])
        invariant
            n == v@.len(),
            a <= n,
            forall|j: int| 0 <= j < a ==> is_white(v@[j]),
        decreases n - a,
    {
        a = a + 1;
    }
    proof {
        lemma_trim_start(v@, a as int);
    }
    let ghost t = v@.subrange(a as int, n as int);
    let mut b: usize = n;
    while b > a && is_whitespace_char(v[b - 1])
        invariant
            n == v@.len(),
            a <= b <= n,
            forall|j: int| b <= j < n ==> is_white(v@[j]),
        decreases b - a,
    {
        b = b - 1;
    }
    proof {
        assert forall|j: int| b - a <= j < t.len() implies is_white(t[j]) by {
            assert(t[j] == v@[j + a]);
        }
        if b > a {
            assert(t[b - a - 1] == v@[b - 1]);
        }
        lemma_trim_end(t, (b - a) as int);
        assert(t.subrange(0, (b - a) as int) =~= v@.subrange(a as int, b as int));
    }
    let mut r: Vec<char> = Vec::new();
    let mut i = a;
    while i < b
        invariant
            a <= i <= b <= n == v@.len(),
            r@ == v@.subrange(a as int, i as int),
        decreases b - i,
    {
        r.push(v[i]);
        proof {
            assert(r@ =~= v@.subrange(a as int, i + 1));
        }
        i = i + 1;
    }
    r
}

/// `s` without its trailing run of `c` (`str::trim_end_matches` with a
/// character pattern).
pub open spec fn trim_end_char_seq(s: Seq<char>, c: char) -> Seq<char>
    decreases s.len(),
{
    if s.len() > 0 && s.last() == c {
        trim_end_char_seq(s.drop_last(), c)
    } else {
        s
    }
}

proof fn lemma_trim_end_char(s: Seq<char>, c: char, k: int)
    requires
        0 <= k <= s.len(),
        forall|j: int| k <= j < s.len() ==> s[j] == c,
        k == 0 || s[k - 1] != c,
    ensures
        trim_end_char_seq(s, c) == s.subrange(0, k),
    decreases s.len() - k,
{
    if k < s.len() {
        lemma_trim_end_char(s.drop_last(), c, k);
        assert(s.drop_last().subrange(0, k) =~= s.subrange(0, k));
    } else {
        assert(s.subrange(0, k) =~= s);
    }
}

/// `str::trim_end_matches` with a single character.
pub fn trim_end_char(v: &Vec<char>, c: char) -> (r: Vec<char>)
    ensures
        r@ == trim_end_char_seq(v@, c),
{
    let n = v.len();
    let mut b: usize = n;
    while b > 0 && v[b - 1] == c
        invariant
            n == v@.len(),
            b <= n,
            forall|j: int| b <= j < n ==> v@[j] == c,
        decreases b,
    {
        b = b - 1;
    }
    proof {
        lemma_trim_end_char(v@, c, b as int);
    }
    let mut r: Vec<char> = Vec::new();
    let mut i: usize = 0;
    while i < b
        invariant
            i <= b <= n == v@.len(),
            r@ == v@.subrange(0, i as int),
        decreases b - i,
    {
        r.push(v[i]);
        proof {
            assert(r@ =~= v@.subrange(0, i + 1));
        }
        i = i + 1;
    }
    r
}

/// Every `from` replaced by `to`.
pub open spec fn replace_seq(s: Seq<char>, from: char, to: char) -> Seq<char> {
    s.map_values(|c: char| if c == from { to } else { c })
}

/// `str::replace` of one character by another.
pub fn replace_char(v: &Vec<char>, from: char, to: char) -> (r: Vec<char>)
    ensures
        r@ == replace_seq(v@, from, to),
{
    let mut r: Vec<char> = Vec::new();
    let mut i: usize = 0;
    while i < v.len()
        invariant
            i <= v@.len(),
            r@ == replace_seq(v@.subrange(0, i as int), from, to),
        decreases v.len() - i,
    {
        let c = v[i];
        r.push(if c == from { to } else { c });
        proof {
            assert(r@ =~= replace_seq(v@.subrange(0, i + 1), from, to));
        }
        i = i + 1;
    }
    proof {
        assert(v@.subrange(0, v@.len() as int) =~= v@);
    }
    r
}

/// The pieces of `s` between occurrences of `sep`, as `str::split`
/// yields them: there is always at least one piece and empty pieces are
/// kept.
pub open spec fn split_seq(s: Seq<char>, sep: char) -> Seq<Seq<char>>
    decreases s.len(),
{
    if s.len() == 0 {
        seq![Seq::empty()]
    } else {
        let prev = split_seq(s.drop_last(), sep);
        if s.last() == sep {
            prev.push(Seq::empty())
        } else {
            prev.update(prev.len() - 1, prev.last().push(s.last()))
        }
    }
}

/// Splitting always gives at least one piece.
pub proof fn lemma_split_nonempty(s: Seq<char>, sep: char)
    ensures
        split_seq(s, sep).len() >= 1,
    decreases s.len(),
{
    if s.len() > 0 {
        lemma_split_nonempty(s.drop_last(), sep);
    }
}

/// Splitting text extended by separator-free characters extends the last
/// piece.
pub proof fn lemma_split_extend(p: Seq<char>, t: Seq<char>, sep: char)
    requires
        forall|i: int| 0 <= i < t.len() ==> t[i] != sep,
    ensures
        ({
            let q = split_seq(p, sep);
            split_seq(p + t, sep) == q.update(q.len() - 1, q.last() + t)
        }),
    decreases t.len(),
{
    lemma_split_nonempty(p, sep);
    let q = split_seq(p, sep);
    if t.len() == 0 {
        assert(p + t =~= p);
        assert(q.last() + t =~= q.last());
        assert(q.update(q.len() - 1, q.last() + t) =~= q);
    } else {
        let t0 = t.drop_last();
        lemma_split_extend(p, t0, sep);
        assert((p + t).drop_last() =~= p + t0);
        assert((p + t).last() == t.last());
        let prev = split_seq(p + t0, sep);
        assert(prev.last() == q.last() + t0);
        assert(prev.last().push(t.last()) =~= q.last() + t);
        assert(prev.update(prev.len() - 1, prev.last().push(t.last())) =~= q.update(
            q.len() - 1,
            q.last() + t,
        ));
    }
}

/// Splitting text ended by a separator adds an empty piece.
pub proof fn lemma_split_at_sep(p: Seq<char>, sep: char)
    ensures
        split_seq(p.push(sep), sep) == split_seq(p, sep).push(Seq::empty()),
{
    assert(p.push(sep).drop_last() =~= p);
}

/// Three separator-free fields joined by the separator split back into
/// the three fields.
pub proof fn lemma_split_three(a: Seq<char>, b: Seq<char>, c: Seq<char>, sep: char)
    requires
        forall|i: int| 0 <= i < a.len() ==> a[i] != sep,
        forall|i: int| 0 <= i < b.len() ==> b[i] != sep,
        forall|i: int| 0 <= i < c.len() ==> c[i] != sep,
    ensures
        split_seq(a + seq![sep] + b + seq![sep] + c, sep) == seq![a, b, c],
{
    let e = Seq::<char>::empty();
    lemma_split_extend(e, a, sep);
    assert(e + a =~= a);
    assert(split_seq(e, sep) =~= seq![e]);
    assert(seq![e].update(0, e + a) =~= seq![a]);
    lemma_split_at_sep(a, sep);
    assert(a.push(sep) =~= a + seq![sep]);
    let p1 = a + seq![sep];
    lemma_split_extend(p1, b, sep);
    assert(seq![a, e].update(1, e + b) =~= seq![a, b]);
    let p2 = p1 + b;
    lemma_split_at_sep(p2, sep);
    assert(p2.push(sep) =~= p2 + seq![sep]);
    let p3 = p2 + seq![sep];
    lemma_split_extend(p3, c, sep);
    assert(seq![a, b, e].update(2, e + c) =~= seq![a, b, c]);
}

/// `str::split` by one character.
pub fn split_chars(v: &Vec<char>, sep: char) -> (parts: Vec<Vec<char>>)
    ensures
        parts@.len() == split_seq(v@, sep).len(),
        forall|j: int| 0 <= j < parts@.len() ==> #[trigger] parts@[j]@ == split_seq(v@, sep)[j],
{
    let mut parts: Vec<Vec<char>> = Vec::new();
    let mut cur: Vec<char> = Vec::new();
    let mut i: usize = 0;
    while i < v.len()
        invariant
            i <= v@.len(),
            parts@.len() + 1 == split_seq(v@.subrange(0, i as int), sep).len(),
            forall|j: int|
                0 <= j < parts@.len() ==> #[trigger] parts@[j]@ == split_seq(
                    v@.subrange(0, i as int),
                    sep,
                )[j],
            cur@ == split_seq(v@.subrange(0, i as int), sep).last(),
        decreases v.len() - i,
    {
        let c = v[i];
        let ghost pre = v@.subrange(0, i as int);
        let ghost next = v@.subrange(0, i + 1);
        proof {
            assert(next.drop_last() =~= pre);
            assert(next.last() == c);
            lemma_split_nonempty(pre, sep);
        }
        if c == sep {
            let done = cur;
            parts.push(done);
            cur = Vec::new();
            proof {
                assert(cur@ =~= Seq::<char>::empty());
            }
        } else {
            cur.push(c);
        }
        i = i + 1;
    }
    proof {
        assert(v@.subrange(0, v@.len() as int) =~= v@);
        lemma_split_nonempty(v@, sep);
    }
    parts.push(cur);
    parts
}

// ---------------------------------------------------------------------------
// Decimal parsing
// ---------------------------------------------------------------------------

/// Whether every character of `s` is an ASCII digit.
pub open spec fn all_digits(s: Seq<char>) -> bool {
    forall|i: int| 0 <= i < s.len() ==> is_digit(#[trigger] s[i])
}

/// The value of a sequence of ASCII digits.
pub open spec fn digits_value(s: Seq<char>) -> nat
    decreases s.len(),
{
    if s.len() == 0 {
        0
    } else {
        digits_value(s.drop_last()) * 10 + (digit_value(s.last()) as nat)
    }
}

/// The digits that follow an optional leading sign: `'+'` always, `'-'`
/// only where `signed`.
pub open spec fn unsigned_body(s: Seq<char>, signed: bool) -> Seq<char> {
    if s.len() > 0 && (s[0] == '+' || (signed && s[0] == '-')) {
        s.drop_first()
    } else {
        s
    }
}

/// What `str::parse` gives for an integer type with bounds `min..=max`:
/// an optional sign (`'-'` only where `min < 0`), then at least one ASCII
/// digit, and the value within bounds.
pub open spec fn parse_int_spec(s: Seq<char>, min: int, max: int) -> Option<int> {
    let signed = min < 0;
    let body = unsigned_body(s, signed);
    let negative = s.len() > 0 && signed && s[0] == '-';
    let value: int = if negative { -(digits_value(body) as int) } else { digits_value(body) as int };
    if body.len() == 0 || !all_digits(body) || value < min || value > max {
        None
    } else {
        Some(value)
    }
}

proof fn lemma_digits_value_mono(s: Seq<char>, i: int)
    requires
        0 <= i <= s.len(),
        all_digits(s),
    ensures
        digits_value(s.subrange(0, i)) <= digits_value(s),
    decreases s.len() - i,
{
    if i < s.len() {
        lemma_digits_value_mono(s, i + 1);
        let t = s.subrange(0, i + 1);
        assert(t.drop_last() =~= s.subrange(0, i));
        assert(is_digit(s[i]));
    } else {
        assert(s.subrange(0, i) =~= s);
    }
}

/// Rendered digits are all ASCII digits and read back as the number.
pub proof fn lemma_digits_of_read_back(n: nat)
    ensures
        all_digits(digits_of(n)),
        digits_value(digits_of(n)) == n,
        digits_of(n).len() > 0,
    decreases n,
{
    if n >= 10 {
        lemma_digits_of_read_back(n / 10);
        let s = digits_of(n);
        assert(s.drop_last() =~= digits_of(n / 10));
        assert(s.last() == digit_char((n % 10) as int));
        assert(digit_value(s.last()) == n % 10);
        assert(digits_value(s) == digits_value(s.drop_last()) * 10 + (digit_value(s.last()) as nat));
        assert(n == (n / 10) * 10 + n % 10);
        assert forall|i: int| 0 <= i < s.len() implies is_digit(#[trigger] s[i]) by {
            if i < s.len() - 1 {
                assert(s[i] == digits_of(n / 10)[i]);
            }
        }
    } else {
        let s = digits_of(n);
        assert(s.drop_last().len() == 0);
        assert(digits_value(s.drop_last()) == 0);
        assert(digit_value(s.last()) == n);
    }
}

/// Parsing the decimal rendering of a number in range gives the number.
pub proof fn lemma_parse_digits_of(n: nat, max: int)
    requires
        n <= max,
    ensures
        parse_int_spec(digits_of(n), 0, max) == Some(n as int),
{
    lemma_digits_of_read_back(n);
    let s = digits_of(n);
    assert(is_digit(s[0]));
    assert(unsigned_body(s, false) == s);
}

/// Leading zeros do not change the value of a digit sequence.
pub proof fn lemma_leading_zero(s: Seq<char>)
    ensures
        digits_value(seq!['0'] + s) == digits_value(s),
    decreases s.len(),
{
    if s.len() == 0 {
        let z = seq!['0'];
        assert(z.drop_last().len() == 0);
        assert(digits_value(z.drop_last()) == 0);
    } else {
        lemma_leading_zero(s.drop_last());
        assert((seq!['0'] + s).drop_last() =~= seq!['0'] + s.drop_last());
    }
}

/// Zero padding keeps the digits and their value.
pub proof fn lemma_pad_zeros(s: Seq<char>, width: int)
    requires
        all_digits(s),
    ensures
        all_digits(pad_zeros(s, width)),
        digits_value(pad_zeros(s, width)) == digits_value(s),
        pad_zeros(s, width).len() == if s.len() < width { width } else { s.len() as int },
        pad_zeros(s, width).len() > 0 ==> is_digit(pad_zeros(s, width)[0]) || s.len() == 0,
    decreases width - s.len(),
{
    if s.len() < width {
        let t = seq!['0'] + s;
        assert(all_digits(t)) by {
            assert forall|i: int| 0 <= i < t.len() implies is_digit(#[trigger] t[i]) by {
                if i > 0 {
                    assert(t[i] == s[i - 1]);
                }
            }
        }
        lemma_pad_zeros(t, width);
        lemma_leading_zero(s);
        assert(pad_zeros(t, width) =~= pad_zeros(s, width));
    } else if s.len() > 0 {
        assert(is_digit(s[0]));
    }
}

/// Digit count of small numbers.
pub proof fn lemma_digits_len(n: nat)
    ensures
        n < 10 ==> digits_of(n).len() == 1,
        n < 100 ==> digits_of(n).len() <= 2,
        n < 1000 ==> digits_of(n).len() <= 3,
        n < 10000 ==> digits_of(n).len() <= 4,
    decreases n,
{
    if n >= 10 {
        lemma_digits_len(n / 10);
    }
}

/// A number rendered with `{:0w$}` and parsed back within bounds gives the
/// number, for a non-negative number.
pub proof fn lemma_parse_fmt_nonneg(n: int, width: int, min: int, max: int)
    requires
        0 <= n <= max,
        min <= 0,
    ensures
        parse_int_spec(fmt_int(n, width), min, max) == Some(n),
{
    lemma_digits_of_read_back(n as nat);
    let d = digits_of(n as nat);
    lemma_pad_zeros(d, width);
    let t = fmt_int(n, width);
    assert(t == pad_zeros(d, width));
    assert(is_digit(t[0]));
    assert(unsigned_body(t, min < 0) == t);
}

/// A negative number rendered with `{:0w$}` and parsed back as a signed
/// integer gives the number.
pub proof fn lemma_parse_fmt_neg(n: int, width: int, min: int, max: int)
    requires
        min <= n < 0 <= max,
    ensures
        parse_int_spec(fmt_int(n, width), min, max) == Some(n),
{
    lemma_digits_of_read_back((-n) as nat);
    let d = digits_of((-n) as nat);
    lemma_pad_zeros(d, width - 1);
    let t = fmt_int(n, width);
    let body = pad_zeros(d, width - 1);
    assert(t == seq!['-'] + body);
    assert(t.drop_first() =~= body);
    assert(unsigned_body(t, true) == body);
}

/// Parses a run of ASCII digits (the whole of `v[from..]`) into a value no
/// greater than `limit`; `None` where a character is not a digit or the
/// value exceeds `limit`.
fn parse_digits(v: &Vec<char>, from: usize, limit: u64) -> (r: Option<u64>)
    requires
        from <= v@.len(),
        limit <= u32::MAX + 1,
    ensures
        match r {
            Some(x) => all_digits(v@.subrange(from as int, v@.len() as int)) && x as nat
                == digits_value(v@.subrange(from as int, v@.len() as int)) && x <= limit,
            None => !all_digits(v@.subrange(from as int, v@.len() as int)) || digits_value(
                v@.subrange(from as int, v@.len() as int),
            ) > limit,
        },
{
    let ghost body = v@.subrange(from as int, v@.len() as int);
    let mut acc: u64 = 0;
    let mut i = from;
    while i < v.len()
        invariant
            from <= i <= v@.len(),
            limit <= u32::MAX + 1,
            body == v@.subrange(from as int, v@.len() as int),
            all_digits(body.subrange(0, i - from)),
            acc as nat == digits_value(body.subrange(0, i - from)),
            acc <= limit,
        decreases v.len() - i,
    {
        let c = v[i];
        let ghost t = body.subrange(0, i + 1 - from);
        proof {
            assert(t.drop_last() =~= body.subrange(0, i - from));
            assert(t.last() == c);
        }
        if !('0' <= c && c <= '9') {
            proof {
                assert(body[i - from] == c);
            }
            return None;
        }
        let d: u64 = (c as u32 - 48) as u64;
        let next = acc * 10 + d;
        proof {
            assert(all_digits(t)) by {
                assert forall|j: int| 0 <= j < t.len() implies is_digit(#[trigger] t[j]) by {
                    if j < t.len() - 1 {
                        assert(t[j] == body.subrange(0, i - from)[j]);
                    }
                }
            }
        }
        if next > limit {
            proof {
                assert(digits_value(t) > limit);
                // the full body is at least its prefix, if it is all digits
                if all_digits(body) {
                    lemma_digits_value_mono(body, i + 1 - from);
                }
            }
            return None;
        }
        acc = next;
        i = i + 1;
    }
    proof {
        assert(body.subrange(0, body.len() as int) =~= body);
    }
    Some(acc)
}

/// `str::parse::<u8>` on a character sequence.
pub fn parse_u8(v: &Vec<char>) -> (r: Option<u8>)
    ensures
        match r {
            Some(x) => parse_int_spec(v@, 0, 255) == Some(x as int),
            None => parse_int_spec(v@, 0, 255) is None,
        },
{
    let from: usize = if v.len() > 0 && v[0] == '+' { 1 } else { 0 };
    proof {
        assert(unsigned_body(v@, false) =~= v@.subrange(from as int, v@.len() as int));
    }
    if from == v.len() {
        return None;
    }
    match parse_digits(v, from, 255) {
        Some(x) => Some(x as u8),
        None => None,
    }
}

/// `str::parse::<u32>` on a character sequence.
pub fn parse_u32(v: &Vec<char>) -> (r: Option<u32>)
    ensures
        match r {
            Some(x) => parse_int_spec(v@, 0, u32::MAX as int) == Some(x as int),
            None => parse_int_spec(v@, 0, u32::MAX as int) is None,
        },
{
    let from: usize = if v.len() > 0 && v[0] == '+' { 1 } else { 0 };
    proof {
        assert(unsigned_body(v@, false) =~= v@.subrange(from as int, v@.len() as int));
    }
    if from == v.len() {
        return None;
    }
    match parse_digits(v, from, 4294967295) {
        Some(x) => Some(x as u32),
        None => None,
    }
}

/// `str::parse::<i32>` on a character sequence.
pub fn parse_i32(v: &Vec<char>) -> (r: Option<i32>)
    ensures
        match r {
            Some(x) => parse_int_spec(v@, i32::MIN as int, i32::MAX as int) == Some(x as int),
            None => parse_int_spec(v@, i32::MIN as int, i32::MAX as int) is None,
        },
{
    let negative = v.len() > 0 && v[0] == '-';
    let from: usize = if v.len() > 0 && (v[0] == '+' || v[0] == '-') { 1 } else { 0 };
    proof {
        assert(unsigned_body(v@, true) =~= v@.subrange(from as int, v@.len() as int));
    }
    if from == v.len() {
        return None;
    }
    let limit: u64 = if negative { 2147483648 } else { 2147483647 };
    match parse_digits(v, from, limit) {
        Some(x) => {
            if negative {
                if x == 2147483648 {
                    Some(i32::MIN)
                } else {
                    Some(-(x as i32))
                }
            } else {
                Some(x as i32)
            }
        },
        None => None,
    }
}

} // verus!
