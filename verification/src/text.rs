//! Text primitives shared by the scanning rules.
//!
//! Strings are modelled by their view, a `Seq<char>`. The searches and the
//! number formatting are verified here; only the Unicode tables of the standard
//! library (case mapping, the classes of white space, numeric and alphanumeric
//! characters) and its sort are taken on trust.
use vstd::prelude::*;
use vstd::relations::{sorted_by, total_ordering};
use vstd::seq_lib::lemma_sorted_unique;

verus! {

/// `pattern` occurs in `text` starting at index `at`.
pub open spec fn occurs_at(text: Seq<char>, pattern: Seq<char>, at: int) -> bool {
    &&& 0 <= at
    &&& at + pattern.len() <= text.len()
    &&& text.subrange(at, at + pattern.len()) == pattern
}

/// `pattern` occurs somewhere in `text`.
pub open spec fn contains_text(text: Seq<char>, pattern: Seq<char>) -> bool {
    exists|at: int| occurs_at(text, pattern, at)
}

/// The characters of a string, as a vector that can be indexed.
pub fn to_chars(s: &str) -> (v: Vec<char>)
    ensures
        v@ == s@,
{
    let mut v: Vec<char> = Vec::new();
    for c in it: s.chars()
        invariant
            v@ == it.seq().take(it.index() as int),
            it.seq() == s@,
    {
        v.push(c);
    }
    v
}

/// Appends one character to a string (`String::push`).
pub assume_specification[ String::push ](s: &mut String, c: char)
    ensures
        final(s)@ == old(s)@.push(c),
;

/// The string made of the characters `v[from..to]`.
pub fn from_chars(v: &Vec<char>, from: usize, to: usize) -> (s: String)
    requires
        from <= to <= v.len(),
    ensures
        s@ == v@.subrange(from as int, to as int),
{
    let mut s = String::new();
    let mut i: usize = from;
    while i < to
        invariant
            from <= i <= to <= v.len(),
            s@ == v@.subrange(from as int, i as int),
        decreases to - i,
    {
        s.push(v[i]);
        i += 1;
        assert(v@.subrange(from as int, i as int) == v@.subrange(from as int, i - 1).push(
            v@[i - 1],
        ));
    }
    s
}

/// The characters `v[from..to]` as a vector of their own.
pub fn slice_chars(v: &Vec<char>, from: usize, to: usize) -> (r: Vec<char>)
    requires
        from <= to <= v.len(),
    ensures
        r@ == v@.subrange(from as int, to as int),
{
    let mut r: Vec<char> = Vec::new();
    let mut i: usize = from;
    while i < to
        invariant
            from <= i <= to <= v.len(),
            r@ == v@.subrange(from as int, i as int),
        decreases to - i,
    {
        r.push(v[i]);
        i += 1;
        assert(v@.subrange(from as int, i as int) == v@.subrange(from as int, i - 1).push(
            v@[i - 1],
        ));
    }
    r
}

/// Whether two strings hold the same characters.
pub fn text_eq(a: &str, b: &str) -> (r: bool)
    ensures
        r == (a@ == b@),
{
    let va = to_chars(a);
    let vb = to_chars(b);
    chars_eq(&va, &vb)
}

/// Whether two character vectors are equal.
pub fn chars_eq(a: &Vec<char>, b: &Vec<char>) -> (r: bool)
    ensures
        r == (a@ == b@),
{
    if a.len() != b.len() {
        return false;
    }
    let mut i: usize = 0;
    while i < a.len()
        invariant
            a.len() == b.len(),
            i <= a.len(),
            a@.subrange(0, i as int) == b@.subrange(0, i as int),
        decreases a.len() - i,
    {
        if a[i] != b[i] {
            return false;
        }
        i += 1;
        assert(a@.subrange(0, i as int) == a@.subrange(0, i - 1).push(a@[i - 1]));
        assert(b@.subrange(0, i as int) == b@.subrange(0, i - 1).push(b@[i - 1]));
    }
    assert(a@ == a@.subrange(0, a.len() as int));
    assert(b@ == b@.subrange(0, b.len() as int));
    true
}

/// Whether `pattern` occurs in `text` at index `at`.
pub fn chars_occur_at(text: &Vec<char>, pattern: &Vec<char>, at: usize) -> (r: bool)
    ensures
        r == occurs_at(text@, pattern@, at as int),
{
    if pattern.len() > text.len() || at > text.len() - pattern.len() {
        return false;
    }
    let mut i: usize = 0;
    while i < pattern.len()
        invariant
            at + pattern.len() <= text.len(),
            i <= pattern.len(),
            text@.subrange(at as int, at + i) == pattern@.subrange(0, i as int),
        decreases pattern.len() - i,
    {
        if text[at + i] != pattern[i] {
            assert(text@.subrange(at as int, at + pattern.len())[i as int] != pattern@[i as int]);
            return false;
        }
        i += 1;
        assert(text@.subrange(at as int, at + i) == text@.subrange(at as int, at + i - 1).push(
            text@[at + i - 1],
        ));
        assert(pattern@.subrange(0, i as int) == pattern@.subrange(0, i - 1).push(
            pattern@[i - 1],
        ));
    }
    assert(pattern@ == pattern@.subrange(0, pattern.len() as int));
    true
}

/// Whether `text` begins with `prefix` (as `str::starts_with` on a string
/// pattern).
pub fn chars_start_with(text: &Vec<char>, prefix: &Vec<char>) -> (r: bool)
    ensures
        r == prefix@.is_prefix_of(text@),
{
    chars_occur_at(text, prefix, 0)
}

/// Whether `text` ends with `suffix` (as `str::ends_with` on a string pattern).
pub fn chars_end_with(text: &Vec<char>, suffix: &Vec<char>) -> (r: bool)
    ensures
        r == suffix@.is_suffix_of(text@),
{
    if suffix.len() > text.len() {
        return false;
    }
    chars_occur_at(text, suffix, text.len() - suffix.len())
}

/// Whether `pattern` occurs anywhere in `text` (as `str::contains` on a string
/// pattern).
pub fn chars_contain(text: &Vec<char>, pattern: &Vec<char>) -> (r: bool)
    ensures
        r == contains_text(text@, pattern@),
{
    if pattern.len() > text.len() {
        assert(forall|at: int| !occurs_at(text@, pattern@, at));
        return false;
    }
    let last: usize = text.len() - pattern.len();
    let mut at: usize = 0;
    loop
        invariant
            last == text.len() - pattern.len(),
            at <= last,
            forall|k: int| 0 <= k < at ==> !occurs_at(text@, pattern@, k),
        decreases last - at,
    {
        if chars_occur_at(text, pattern, at) {
            return true;
        }
        if at == last {
            assert(forall|k: int| !occurs_at(text@, pattern@, k));
            return false;
        }
        at += 1;
    }
}

/// The decimal digit for `d`, which is below ten.
pub open spec fn digit_char(d: nat) -> char {
    if d == 0 {
        '0'
    } else if d == 1 {
        '1'
    } else if d == 2 {
        '2'
    } else if d == 3 {
        '3'
    } else if d == 4 {
        '4'
    } else if d == 5 {
        '5'
    } else if d == 6 {
        '6'
    } else if d == 7 {
        '7'
    } else if d == 8 {
        '8'
    } else {
        '9'
    }
}

/// The decimal numeral of a natural number, without leading zeros.
pub open spec fn decimal(n: nat) -> Seq<char>
    decreases n,
{
    if n < 10 {
        seq![digit_char(n)]
    } else {
        decimal(n / 10).push(digit_char(n % 10))
    }
}

/// The decimal numeral of an integer, with a minus sign where it is negative.
pub open spec fn signed_decimal(n: int) -> Seq<char> {
    if n < 0 {
        seq!['-'] + decimal((-n) as nat)
    } else {
        decimal(n as nat)
    }
}

fn digit_of(d: u64) -> (c: char)
    requires
        d < 10,
    ensures
        c == digit_char(d as nat),
{
    if d == 0 {
        '0'
    } else if d == 1 {
        '1'
    } else if d == 2 {
        '2'
    } else if d == 3 {
        '3'
    } else if d == 4 {
        '4'
    } else if d == 5 {
        '5'
    } else if d == 6 {
        '6'
    } else if d == 7 {
        '7'
    } else if d == 8 {
        '8'
    } else {
        '9'
    }
}

/// Appends the decimal numeral of `n` to `s`.
pub fn push_decimal(s: &mut String, n: u64)
    ensures
        final(s)@ == old(s)@ + decimal(n as nat),
    decreases n,
{
    if n >= 10 {
        push_decimal(s, n / 10);
    }
    s.push(digit_of(n % 10));
    assert(final(s)@ == old(s)@ + decimal(n as nat)) by {
        if n >= 10 {
            assert((old(s)@ + decimal((n / 10) as nat)).push(digit_char((n % 10) as nat)) == old(
                s,
            )@ + decimal((n / 10) as nat).push(digit_char((n % 10) as nat)));
        } else {
            assert(old(s)@.push(digit_char(n as nat)) == old(s)@ + seq![digit_char(n as nat)]);
        }
    }
}

/// Appends the decimal numeral of the signed number `n` to `s`.
pub fn push_signed_decimal(s: &mut String, n: i64)
    ensures
        final(s)@ == old(s)@ + signed_decimal(n as int),
{
    if n < 0 {
        s.push('-');
        let magnitude: u64 = if n == i64::MIN {
            9223372036854775808u64
        } else {
            (-n) as u64
        };
        push_decimal(s, magnitude);
        assert(old(s)@.push('-') + decimal(magnitude as nat) == old(s)@ + (seq!['-'] + decimal(
            magnitude as nat,
        )));
    } else {
        push_decimal(s, n as u64);
    }
}

/// Appends the characters of `t` to `s`.
pub fn push_text(s: &mut String, t: &str)
    ensures
        final(s)@ == old(s)@ + t@,
{
    s.append(t);
}

/// The strings of `s` in order, each kept at its first occurrence only.
pub open spec fn distinct(s: Seq<Seq<char>>) -> Seq<Seq<char>>
    decreases s.len(),
{
    if s.len() == 0 {
        Seq::empty()
    } else {
        let before = distinct(s.drop_last());
        if before.contains(s.last()) {
            before
        } else {
            before.push(s.last())
        }
    }
}

/// What keeping the first occurrences means: the result holds every string
/// of `s`, holds none twice, and holds nothing else.
pub proof fn distinct_holds_each_once(s: Seq<Seq<char>>)
    ensures
        distinct(s).no_duplicates(),
        forall|x: Seq<char>| #[trigger] distinct(s).contains(x) <==> s.contains(x),
        distinct(s).len() <= s.len(),
    decreases s.len(),
{
    if s.len() > 0 {
        let init = s.drop_last();
        let last = s.last();
        let before = distinct(init);
        distinct_holds_each_once(init);
        assert forall|x: Seq<char>| #[trigger] distinct(s).contains(x) <==> s.contains(x) by {
            assert(before.contains(x) <==> init.contains(x));
            if s.contains(x) && !distinct(s).contains(x) {
                let i = choose|i: int| 0 <= i < s.len() && s[i] == x;
                if i < s.len() - 1 {
                    assert(init[i] == x);
                    let k = choose|k: int| 0 <= k < before.len() && before[k] == x;
                    assert(distinct(s)[k] == x);
                } else if before.contains(last) {
                    assert(distinct(s) == before);
                } else {
                    assert(distinct(s)[before.len() as int] == x);
                }
            }
            if distinct(s).contains(x) && !s.contains(x) {
                let k = choose|k: int| 0 <= k < distinct(s).len() && distinct(s)[k] == x;
                if k < before.len() {
                    assert(before[k] == x);
                    let i = choose|i: int| 0 <= i < init.len() && init[i] == x;
                    assert(s[i] == x);
                } else {
                    assert(s[s.len() - 1] == x);
                }
            }
        }
    }
}

/// Whether `v` holds a string equal to `s`.
pub fn holds_text(v: &Vec<String>, s: &String) -> (r: bool)
    ensures
        r == v.deep_view().contains(s@),
{
    let mut i: usize = 0;
    while i < v.len()
        invariant
            i <= v.len(),
            forall|j: int| 0 <= j < i ==> v.deep_view()[j] != s@,
        decreases v.len() - i,
    {
        if v[i] == *s {
            assert(v.deep_view()[i as int] == s@);
            return true;
        }
        i += 1;
    }
    false
}

/// Appends a copy of `s` to `v` unless `v` already holds an equal string.
pub fn push_distinct(v: &mut Vec<String>, s: &String)
    ensures
        final(v).deep_view() == if old(v).deep_view().contains(s@) {
            old(v).deep_view()
        } else {
            old(v).deep_view().push(s@)
        },
{
    if !holds_text(v, s) {
        v.push(s.clone());
        assert(final(v).deep_view() =~= old(v).deep_view().push(s@));
    }
}

/// The order of strings: lexicographic by code point.
pub open spec fn text_le(a: Seq<char>, b: Seq<char>) -> bool
    decreases a.len(),
{
    if a.len() == 0 {
        true
    } else if b.len() == 0 {
        false
    } else if a[0] == b[0] {
        text_le(a.drop_first(), b.drop_first())
    } else {
        (a[0] as u32) < (b[0] as u32)
    }
}

/// The strings of `s` arranged in ascending order.
pub open spec fn sorted_texts(s: Seq<Seq<char>>) -> Seq<Seq<char>> {
    s.sort_by(text_order())
}

/// The order of strings as a relation.
pub open spec fn text_order() -> spec_fn(Seq<char>, Seq<char>) -> bool {
    |a: Seq<char>, b: Seq<char>| text_le(a, b)
}

/// `sort` on a slice of strings. Taken on trust: the strings are the same
/// as before, each as often as before, and they stand in ascending order,
/// where `String` is ordered lexicographically by bytes, which is the order
/// of the code points.
#[verifier::external_body]
fn sort_strings(v: &mut Vec<String>)
    ensures
        final(v).deep_view().to_multiset() == old(v).deep_view().to_multiset(),
        sorted_by(final(v).deep_view(), text_order()),
{
    v.sort();
}

proof fn text_le_reflexive(a: Seq<char>)
    ensures
        text_le(a, a),
    decreases a.len(),
{
    if a.len() > 0 {
        text_le_reflexive(a.drop_first());
    }
}

proof fn text_le_antisymmetric(a: Seq<char>, b: Seq<char>)
    requires
        text_le(a, b),
        text_le(b, a),
    ensures
        a == b,
    decreases a.len(),
{
    if a.len() > 0 && b.len() > 0 {
        text_le_antisymmetric(a.drop_first(), b.drop_first());
        assert(a =~= seq![a[0]] + a.drop_first());
        assert(b =~= seq![b[0]] + b.drop_first());
    } else {
        assert(a =~= b);
    }
}

proof fn text_le_transitive(a: Seq<char>, b: Seq<char>, c: Seq<char>)
    requires
        text_le(a, b),
        text_le(b, c),
    ensures
        text_le(a, c),
    decreases a.len(),
{
    if a.len() > 0 && b.len() > 0 && c.len() > 0 && a[0] == b[0] && b[0] == c[0] {
        text_le_transitive(a.drop_first(), b.drop_first(), c.drop_first());
    }
}

proof fn text_le_connected(a: Seq<char>, b: Seq<char>)
    ensures
        text_le(a, b) || text_le(b, a),
    decreases a.len(),
{
    if a.len() > 0 && b.len() > 0 {
        if a[0] == b[0] {
            text_le_connected(a.drop_first(), b.drop_first());
        } else {
            vstd::utf8::char_u32_cast(a[0], a[0] as u32);
            vstd::utf8::char_u32_cast(b[0], b[0] as u32);
        }
    }
}

/// The order of strings is a total order.
pub proof fn text_order_is_total()
    ensures
        total_ordering(text_order()),
{
    let le = text_order();
    assert forall|x: Seq<char>| #[trigger] le(x, x) by {
        text_le_reflexive(x);
    }
    assert forall|x: Seq<char>, y: Seq<char>| #[trigger] le(x, y) && #[trigger] le(y, x) implies x
        == y by {
        text_le_antisymmetric(x, y);
    }
    assert forall|x: Seq<char>, y: Seq<char>, z: Seq<char>| #[trigger]
        le(x, y) && #[trigger] le(y, z) implies le(x, z) by {
        text_le_transitive(x, y, z);
    }
    assert forall|x: Seq<char>, y: Seq<char>| #[trigger] le(x, y) || #[trigger] le(y, x) by {
        text_le_connected(x, y);
    }
}

/// What sorting means: the sorted strings are those that were given, each
/// as often as it was given, in ascending order.
pub proof fn sorted_texts_are_sorted(s: Seq<Seq<char>>)
    ensures
        sorted_texts(s).to_multiset() == s.to_multiset(),
        sorted_by(sorted_texts(s), text_order()),
{
    text_order_is_total();
    s.lemma_sort_by_ensures(text_order());
}

/// Sorts the strings into ascending order.
pub fn sort_texts(v: &mut Vec<String>)
    ensures
        final(v).deep_view() == sorted_texts(old(v).deep_view()),
{
    let ghost before = v.deep_view();
    sort_strings(v);
    proof {
        sorted_texts_are_sorted(before);
        text_order_is_total();
        lemma_sorted_unique(v.deep_view(), sorted_texts(before), text_order());
    }
}

/// The lowercase form of a text, as Unicode defines it.
pub uninterp spec fn lowercase_of(text: Seq<char>) -> Seq<char>;

/// The uppercase form of a text, as Unicode defines it.
pub uninterp spec fn uppercase_of(text: Seq<char>) -> Seq<char>;

/// Whether a character is white space, as Unicode defines it.
pub uninterp spec fn is_whitespace_char(c: char) -> bool;

/// Whether a character is numeric, as Unicode defines it.
pub uninterp spec fn is_numeric_char(c: char) -> bool;

/// Whether a character is a control character: one of the general category
/// Cc, which holds the code points up to U+001F and those from U+007F to
/// U+009F.
pub open spec fn is_control_char(c: char) -> bool {
    (c as u32) <= 0x1F || (0x7F <= (c as u32) && (c as u32) <= 0x9F)
}

/// Whether a character is alphabetic or numeric, as Unicode defines it.
pub uninterp spec fn is_alphanumeric_char(c: char) -> bool;

/// `str::to_lowercase`. Taken on trust: the result is the lowercase form of
/// the text under the standard library's Unicode tables, which depends on the
/// text alone.
#[verifier::external_body]
pub(crate) fn to_lowercase(text: &str) -> (r: String)
    ensures
        r@ == lowercase_of(text@),
{
    text.to_lowercase()
}

/// `str::to_uppercase`. Taken on trust: the result is the uppercase form of
/// the text under the standard library's Unicode tables, which depends on the
/// text alone.
#[verifier::external_body]
pub(crate) fn to_uppercase(text: &str) -> (r: String)
    ensures
        r@ == uppercase_of(text@),
{
    text.to_uppercase()
}

/// `char::is_whitespace`. Taken on trust: the answer depends on the
/// character alone.
#[verifier::external_body]
pub(crate) fn char_is_whitespace(c: char) -> (r: bool)
    ensures
        r == is_whitespace_char(c),
{
    c.is_whitespace()
}

/// `char::is_numeric`. Taken on trust: the answer depends on the character
/// alone.
#[verifier::external_body]
pub(crate) fn char_is_numeric(c: char) -> (r: bool)
    ensures
        r == is_numeric_char(c),
{
    c.is_numeric()
}

/// Whether a character is a control character (as `char::is_control`).
pub fn char_is_control(c: char) -> (r: bool)
    ensures
        r == is_control_char(c),
{
    let code = c as u32;
    code <= 0x1F || (0x7F <= code && code <= 0x9F)
}

/// `char::is_alphanumeric`. Taken on trust: the answer depends on the
/// character alone.
#[verifier::external_body]
pub(crate) fn char_is_alphanumeric(c: char) -> (r: bool)
    ensures
        r == is_alphanumeric_char(c),
{
    c.is_alphanumeric()
}

/// `text` without its leading white space.
pub open spec fn trimmed_start(text: Seq<char>) -> Seq<char>
    decreases text.len(),
{
    if text.len() > 0 && is_whitespace_char(text[0]) {
        trimmed_start(text.drop_first())
    } else {
        text
    }
}

/// `text` without its trailing white space.
pub open spec fn trimmed_end(text: Seq<char>) -> Seq<char>
    decreases text.len(),
{
    if text.len() > 0 && is_whitespace_char(text.last()) {
        trimmed_end(text.drop_last())
    } else {
        text
    }
}

/// `text` without its leading and trailing white space.
pub open spec fn trimmed(text: Seq<char>) -> Seq<char> {
    trimmed_end(trimmed_start(text))
}

/// The text without its leading and trailing white space (as `str::trim`).
pub fn trim(text: &str) -> (r: String)
    ensures
        r@ == trimmed(text@),
{
    let v = to_chars(text);
    let mut from: usize = 0;
    assert(v@.skip(0) == v@);
    while from < v.len() && char_is_whitespace(v[from])
        invariant
            from <= v.len(),
            trimmed_start(v@) == trimmed_start(v@.skip(from as int)),
        decreases v.len() - from,
    {
        assert(v@.skip(from as int).drop_first() == v@.skip(from + 1));
        from += 1;
    }
    assert(trimmed_start(v@) == v@.skip(from as int)) by {
        if from < v.len() {
            assert(v@.skip(from as int)[0] == v@[from as int]);
        }
    }
    let mut to: usize = v.len();
    assert(v@.skip(from as int) == v@.subrange(from as int, to as int));
    while to > from && char_is_whitespace(v[to - 1])
        invariant
            from <= to <= v.len(),
            trimmed(v@) == trimmed_end(v@.subrange(from as int, to as int)),
        decreases to,
    {
        assert(v@.subrange(from as int, to as int).drop_last() == v@.subrange(
            from as int,
            to - 1,
        ));
        assert(v@.subrange(from as int, to as int).last() == v@[to - 1]);
        to -= 1;
    }
    assert(trimmed(v@) == v@.subrange(from as int, to as int)) by {
        if to > from {
            assert(v@.subrange(from as int, to as int).last() == v@[to - 1]);
        }
    }
    from_chars(&v, from, to)
}

/// `text` with every `from` replaced by `to`.
pub open spec fn replaced(text: Seq<char>, from: char, to: char) -> Seq<char> {
    Seq::new(
        text.len(),
        |i: int|
            if text[i] == from {
                to
            } else {
                text[i]
            },
    )
}

/// The text with every character `from` replaced by `to`.
pub fn replace_char(text: &str, from: char, to: char) -> (r: String)
    ensures
        r@ == replaced(text@, from, to),
{
    let v = to_chars(text);
    let mut out = String::new();
    let mut i: usize = 0;
    while i < v.len()
        invariant
            i <= v.len(),
            v@ == text@,
            out@ =~= replaced(text@, from, to).take(i as int),
        decreases v.len() - i,
    {
        if v[i] == from {
            out.push(to);
        } else {
            out.push(v[i]);
        }
        i += 1;
    }
    out
}

/// `text` with every trailing occurrence of `pattern` removed.
pub open spec fn stripped_end(text: Seq<char>, pattern: Seq<char>) -> Seq<char>
    decreases text.len(),
{
    if pattern.len() > 0 && pattern.is_suffix_of(text) {
        stripped_end(text.take(text.len() - pattern.len()), pattern)
    } else {
        text
    }
}

/// The text with every trailing occurrence of `pattern` removed (as
/// `str::trim_end_matches`).
pub fn strip_trailing(text: &str, pattern: &str) -> (r: String)
    ensures
        r@ == stripped_end(text@, pattern@),
{
    let v = to_chars(text);
    let p = to_chars(pattern);
    let mut end: usize = v.len();
    assert(v@.take(end as int) == v@);
    if p.len() == 0 {
        return from_chars(&v, 0, end);
    }
    loop
        invariant
            end <= v.len(),
            p.len() > 0,
            p@ == pattern@,
            stripped_end(text@, pattern@) == stripped_end(v@.take(end as int), p@),
        decreases end,
    {
        if end < p.len() || !chars_occur_at(&v, &p, end - p.len()) {
            proof {
                let t = v@.take(end as int);
                if p@.is_suffix_of(t) {
                    assert(t.subrange(t.len() - p@.len(), t.len() as int) == v@.subrange(
                        end - p@.len(),
                        end as int,
                    ));
                }
            }
            assert(v@.take(end as int) == v@.subrange(0, end as int));
            return from_chars(&v, 0, end);
        }
        proof {
            let t = v@.take(end as int);
            assert(t.subrange(t.len() - p@.len(), t.len() as int) == v@.subrange(
                end - p@.len(),
                end as int,
            ));
            assert(p@.is_suffix_of(t));
            assert(t.take(t.len() - p@.len()) == v@.take(end - p@.len()));
        }
        end = end - p.len();
    }
}

/// The texts written one after the other with `separator` between them.
pub open spec fn joined_texts(items: Seq<Seq<char>>, separator: Seq<char>) -> Seq<char>
    decreases items.len(),
{
    if items.len() == 0 {
        Seq::empty()
    } else if items.len() == 1 {
        items[0]
    } else {
        joined_texts(items.drop_last(), separator) + separator + items.last()
    }
}

/// The texts written one after the other with `separator` between them (as
/// `join` on a slice of strings).
pub fn join_texts(items: &Vec<String>, separator: &str) -> (r: String)
    ensures
        r@ == joined_texts(items.deep_view(), separator@),
{
    let mut out = String::new();
    let mut i: usize = 0;
    let ghost all = items.deep_view();
    assert(all.take(0) =~= Seq::<Seq<char>>::empty());
    while i < items.len()
        invariant
            i <= items.len(),
            all == items.deep_view(),
            out@ == joined_texts(all.take(i as int), separator@),
        decreases items.len() - i,
    {
        assert(all.take(i + 1).drop_last() == all.take(i as int));
        assert(all.take(i + 1).last() == items[i as int]@);
        if i > 0 {
            push_text(&mut out, separator);
        } else {
            assert(out@ + items[i as int]@ =~= items[i as int]@);
            assert(all.take(1)[0] == items[0]@);
        }
        push_text(&mut out, items[i].as_str());
        i += 1;
    }
    assert(all.take(items.len() as int) == all);
    out
}

/// The part of `text` after its last `separator`; all of it where it has none.
pub open spec fn last_segment(text: Seq<char>, separator: char) -> Seq<char>
    decreases text.len(),
{
    if text.len() == 0 || text.last() == separator {
        Seq::empty()
    } else {
        last_segment(text.drop_last(), separator).push(text.last())
    }
}

/// The part of `text` after its last `separator` (as the first item of
/// `str::rsplit`).
pub fn segment_after_last(text: &str, separator: char) -> (r: String)
    ensures
        r@ == last_segment(text@, separator),
{
    let v = to_chars(text);
    let mut from: usize = v.len();
    assert(v@.subrange(from as int, v.len() as int) =~= Seq::<char>::empty());
    while from > 0 && v[from - 1] != separator
        invariant
            from <= v.len(),
            forall|k: int| from <= k < v.len() ==> v@[k] != separator,
        decreases from,
    {
        from -= 1;
    }
    proof {
        lemma_last_segment(v@, separator, from as int);
    }
    from_chars(&v, from, v.len())
}

proof fn lemma_last_segment(text: Seq<char>, separator: char, from: int)
    requires
        0 <= from <= text.len(),
        forall|k: int| from <= k < text.len() ==> text[k] != separator,
        from > 0 ==> text[from - 1] == separator,
    ensures
        last_segment(text, separator) == text.subrange(from, text.len() as int),
    decreases text.len(),
{
    if text.len() == 0 || text.last() == separator {
        assert(text.subrange(from, text.len() as int) =~= Seq::<char>::empty());
    } else {
        lemma_last_segment(text.drop_last(), separator, from);
        assert(text.subrange(from, text.len() as int) =~= text.drop_last().subrange(
            from,
            text.len() - 1,
        ).push(text.last()));
    }
}

} // verus!
