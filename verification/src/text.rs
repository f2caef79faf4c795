//! Character-level string helpers shared by the rest of the library.
use vstd::prelude::*;

verus! {

/// The decimal digit character for `d < 10`.
pub open spec fn digit_char(d: nat) -> char {
    if d == 0 { '0' } else if d == 1 { '1' } else if d == 2 { '2' } else if d == 3 { '3' }
    else if d == 4 { '4' } else if d == 5 { '5' } else if d == 6 { '6' } else if d == 7 { '7' }
    else if d == 8 { '8' } else { '9' }
}

/// The shortest decimal rendering of a natural number, as `Display` prints it.
pub open spec fn decimal(n: nat) -> Seq<char>
    decreases n,
{
    if n < 10 {
        seq![digit_char(n)]
    } else {
        decimal(n / 10).push(digit_char(n % 10))
    }
}

/// Appends one character to a string.
///
/// Trusted: calls `String::push`; the contract claims that the string's characters are the
/// old ones followed by `c`.
#[verifier::external_body]
pub(crate) fn push_char(s: &mut String, c: char)
    ensures
        final(s)@ == old(s)@.push(c),
{
    s.push(c);
}

/// Appends a string slice to a string.
pub fn push_str(s: &mut String, t: &str)
    ensures
        final(s)@ == old(s)@ + t@,
{
    s.append(t);
}

fn digit(d: u64) -> (c: char)
    requires
        d < 10,
    ensures
        c == digit_char(d as nat),
{
    if d == 0 { '0' } else if d == 1 { '1' } else if d == 2 { '2' } else if d == 3 { '3' }
    else if d == 4 { '4' } else if d == 5 { '5' } else if d == 6 { '6' } else if d == 7 { '7' }
    else if d == 8 { '8' } else { '9' }
}

/// Renders `n` in decimal.
pub fn decimal_string(n: u64) -> (s: String)
    ensures
        s@ == decimal(n as nat),
    decreases n,
{
    if n < 10 {
        let mut s = String::new();
        push_char(&mut s, digit(n));
        s
    } else {
        let mut s = decimal_string(n / 10);
        push_char(&mut s, digit(n % 10));
        s
    }
}

/// The characters of a string slice, one per element.
pub fn chars_of(s: &str) -> (v: Vec<char>)
    ensures
        v@ == s@,
{
    let mut v: Vec<char> = Vec::new();
    for c in it: s.chars()
        invariant
            v@ == it.seq().take(it.index()),
            it.seq() == s@,
    {
        v.push(c);
    }
    v
}


/// Concatenation of two string slices into a new string.
pub fn concat2(a: &str, b: &str) -> (s: String)
    ensures
        s@ == a@ + b@,
{
    let mut s = a.to_owned();
    s.append(b);
    s
}

/// Concatenation of three string slices into a new string.
pub fn concat3(a: &str, b: &str, c: &str) -> (s: String)
    ensures
        s@ == a@ + b@ + c@,
{
    let mut s = a.to_owned();
    s.append(b);
    s.append(c);
    s
}

/// The view of an optional string.
pub open spec fn opt_view(o: Option<String>) -> Option<Seq<char>> {
    match o {
        Some(s) => Some(s@),
        None => None,
    }
}

/// A copy of an optional string.
pub fn clone_opt(o: &Option<String>) -> (r: Option<String>)
    ensures
        opt_view(r) == opt_view(*o),
{
    match o {
        Some(s) => Some(s.clone()),
        None => None,
    }
}


/// Whether `m` occurs in `h` at index `i`.
pub open spec fn occurs_at(h: Seq<char>, m: Seq<char>, i: int) -> bool {
    0 <= i && i + m.len() <= h.len() && h.subrange(i, i + m.len()) == m
}

/// The first index at or after `k` where `m` occurs in `h`.
pub open spec fn first_occurrence_from(h: Seq<char>, m: Seq<char>, k: int) -> Option<int>
    decreases h.len() + 1 - k,
{
    if k < 0 || k + m.len() > h.len() {
        None
    } else if occurs_at(h, m, k) {
        Some(k)
    } else {
        first_occurrence_from(h, m, k + 1)
    }
}

/// The first index where `m` occurs in `h`.
pub open spec fn first_occurrence(h: Seq<char>, m: Seq<char>) -> Option<int> {
    first_occurrence_from(h, m, 0)
}

/// Whether `m` occurs anywhere in `h`.
pub open spec fn contains_seq(h: Seq<char>, m: Seq<char>) -> bool {
    first_occurrence(h, m) is Some
}

/// A first occurrence is an occurrence, and none comes earlier.
pub proof fn lemma_first_occurrence_from(h: Seq<char>, m: Seq<char>, k: int)
    requires
        0 <= k,
    ensures
        match first_occurrence_from(h, m, k) {
            Some(i) => k <= i && occurs_at(h, m, i) && forall|j: int| k <= j < i ==> !occurs_at(h, m, j),
            None => forall|j: int| k <= j ==> !occurs_at(h, m, j),
        },
    decreases h.len() + 1 - k,
{
    if k + m.len() > h.len() {
    } else if occurs_at(h, m, k) {
    } else {
        lemma_first_occurrence_from(h, m, k + 1);
    }
}

fn matches_at(h: &Vec<char>, m: &Vec<char>, i: usize) -> (b: bool)
    requires
        i + m@.len() <= h@.len(),
    ensures
        b == occurs_at(h@, m@, i as int),
{
    let hl = h.len();
    let mut j: usize = 0;
    while j < m.len()
        invariant
            i + m@.len() <= h@.len(),
            hl == h@.len(),
            0 <= j <= m@.len(),
            forall|t: int| 0 <= t < j ==> h@[i + t] == m@[t],
        decreases m@.len() - j,
    {
        if h[i + j] != m[j] {
            assert(h@.subrange(i as int, i + m@.len())[j as int] != m@[j as int]);
            return false;
        }
        j = j + 1;
    }
    assert(h@.subrange(i as int, i + m@.len()) =~= m@);
    true
}

/// The first index at or after `k` where `m` occurs in `h`.
pub fn find_from(h: &Vec<char>, m: &Vec<char>, k: usize) -> (r: Option<usize>)
    ensures
        match r {
            Some(i) => first_occurrence_from(h@, m@, k as int) == Some(i as int),
            None => first_occurrence_from(h@, m@, k as int) is None,
        },
{
    let mut i = k;
    if m.len() > h.len() {
        return None;
    }
    let last = h.len() - m.len();
    while i <= last
        invariant
            k <= i,
            last == h@.len() - m@.len(),
            first_occurrence_from(h@, m@, k as int) == first_occurrence_from(h@, m@, i as int),
        decreases last + 1 - i,
    {
        if matches_at(h, m, i) {
            return Some(i);
        }
        if i == last {
            return None;
        }
        i = i + 1;
    }
    None
}

/// Whether `m` occurs in `h`.
pub fn contains_str(h: &str, m: &str) -> (b: bool)
    ensures
        b == contains_seq(h@, m@),
{
    let hv = chars_of(h);
    let mv = chars_of(m);
    find_from(&hv, &mv, 0).is_some()
}

/// ASCII whitespace as `char::is_ascii_whitespace` defines it.
pub open spec fn is_ascii_ws(c: char) -> bool {
    c == ' ' || c == '\t' || c == '\n' || c == '\r' || c == '\x0C'
}

/// An ASCII decimal digit.
pub open spec fn is_ascii_digit(c: char) -> bool {
    '0' <= c && c <= '9'
}

/// Whitespace as `char::is_whitespace` defines it (the Unicode `White_Space` property).
pub open spec fn is_unicode_ws(c: char) -> bool {
    ||| ('\t' <= c && c <= '\r')
    ||| c == ' '
    ||| c == '\u{85}'
    ||| c == '\u{A0}'
    ||| c == '\u{1680}'
    ||| ('\u{2000}' <= c && c <= '\u{200A}')
    ||| c == '\u{2028}'
    ||| c == '\u{2029}'
    ||| c == '\u{202F}'
    ||| c == '\u{205F}'
    ||| c == '\u{3000}'
}

/// Whitespace as `char::is_whitespace` defines it.
pub fn is_whitespace(c: char) -> (b: bool)
    ensures
        b == is_unicode_ws(c),
{
    ('\t' <= c && c <= '\r') || c == ' ' || c == '\u{85}' || c == '\u{A0}' || c == '\u{1680}'
        || ('\u{2000}' <= c && c <= '\u{200A}') || c == '\u{2028}' || c == '\u{2029}'
        || c == '\u{202F}' || c == '\u{205F}' || c == '\u{3000}'
}

/// The count of leading characters of `s` that satisfy `p`.
pub open spec fn leading_count(s: Seq<char>, p: spec_fn(char) -> bool) -> nat
    decreases s.len(),
{
    if s.len() > 0 && p(s[0]) {
        1 + leading_count(s.drop_first(), p)
    } else {
        0
    }
}

/// The leading count is the first index where `p` fails.
pub proof fn lemma_leading_count(s: Seq<char>, p: spec_fn(char) -> bool)
    ensures
        leading_count(s, p) <= s.len(),
        forall|i: int| 0 <= i < leading_count(s, p) ==> p(s[i]),
        leading_count(s, p) < s.len() ==> !p(s[leading_count(s, p) as int]),
    decreases s.len(),
{
    if s.len() > 0 && p(s[0]) {
        lemma_leading_count(s.drop_first(), p);
        assert forall|i: int| 0 <= i < leading_count(s, p) implies p(s[i]) by {
            if i > 0 {
                assert(s[i] == s.drop_first()[i - 1]);
            }
        }
    }
}

/// The leading count is determined by the first index where `p` fails.
pub proof fn lemma_leading_count_at(s: Seq<char>, p: spec_fn(char) -> bool, n: int)
    requires
        0 <= n <= s.len(),
        forall|i: int| 0 <= i < n ==> p(s[i]),
        n < s.len() ==> !p(s[n]),
    ensures
        leading_count(s, p) == n,
    decreases s.len(),
{
    if n > 0 {
        assert forall|i: int| 0 <= i < n - 1 implies p(s.drop_first()[i]) by {
            assert(s.drop_first()[i] == s[i + 1]);
        }
        if n - 1 < s.drop_first().len() {
            assert(s.drop_first()[n - 1] == s[n]);
        }
        lemma_leading_count_at(s.drop_first(), p, n - 1);
    }
}

/// A string made of the characters `v[from..to]`.
pub fn string_from_chars(v: &Vec<char>, from: usize, to: usize) -> (s: String)
    requires
        from <= to <= v@.len(),
    ensures
        s@ == v@.subrange(from as int, to as int),
{
    let mut s = String::new();
    let mut i = from;
    while i < to
        invariant
            from <= i <= to <= v@.len(),
            s@ == v@.subrange(from as int, i as int),
        decreases to - i,
    {
        push_char(&mut s, v[i]);
        assert(v@.subrange(from as int, i + 1) =~= v@.subrange(from as int, i as int).push(v@[i as int]));
        i = i + 1;
    }
    s
}


/// Whether two string slices hold the same characters.
pub fn str_eq(a: &str, b: &str) -> (r: bool)
    ensures
        r == (a@ == b@),
{
    let av = chars_of(a);
    let bv = chars_of(b);
    if av.len() != bv.len() {
        return false;
    }
    let mut i: usize = 0;
    while i < av.len()
        invariant
            av@ == a@,
            bv@ == b@,
            av@.len() == bv@.len(),
            0 <= i <= av@.len(),
            forall|j: int| 0 <= j < i ==> av@[j] == bv@[j],
        decreases av@.len() - i,
    {
        if av[i] != bv[i] {
            return false;
        }
        i = i + 1;
    }
    assert(av@ =~= bv@);
    true
}


/// The count of trailing characters of `s` that satisfy `p`.
pub open spec fn trailing_count(s: Seq<char>, p: spec_fn(char) -> bool) -> nat
    decreases s.len(),
{
    if s.len() > 0 && p(s.last()) {
        1 + trailing_count(s.drop_last(), p)
    } else {
        0
    }
}

/// The trailing count is determined by the last index where `p` fails.
pub proof fn lemma_trailing_count_at(s: Seq<char>, p: spec_fn(char) -> bool, n: int)
    requires
        0 <= n <= s.len(),
        forall|i: int| s.len() - n <= i < s.len() ==> p(s[i]),
        n < s.len() ==> !p(s[s.len() - n - 1]),
    ensures
        trailing_count(s, p) == n,
    decreases s.len(),
{
    if n > 0 {
        assert forall|i: int| s.drop_last().len() - (n - 1) <= i < s.drop_last().len() implies p(
            s.drop_last()[i],
        ) by {
            assert(s.drop_last()[i] == s[i]);
        }
        if n - 1 < s.drop_last().len() {
            assert(s.drop_last()[s.drop_last().len() - (n - 1) - 1] == s[s.len() - n - 1]);
        }
        lemma_trailing_count_at(s.drop_last(), p, n - 1);
    }
}

/// `s` without leading Unicode whitespace, as `str::trim_start` leaves it.
pub open spec fn trim_start(s: Seq<char>) -> Seq<char> {
    s.skip(leading_count(s, |c: char| is_unicode_ws(c)) as int)
}

/// `s` without leading and trailing Unicode whitespace, as `str::trim` leaves it.
pub open spec fn trim(s: Seq<char>) -> Seq<char> {
    let rest = trim_start(s);
    rest.take(rest.len() - trailing_count(rest, |c: char| is_unicode_ws(c)))
}

/// The first index at or after `from` whose character is not whitespace.
fn skip_ws_from(v: &Vec<char>, from: usize) -> (r: usize)
    requires
        from <= v@.len(),
    ensures
        from <= r <= v@.len(),
        forall|t: int| from <= t < r ==> is_unicode_ws(v@[t]),
        r < v@.len() ==> !is_unicode_ws(v@[r as int]),
{
    let mut i = from;
    while i < v.len() && is_whitespace(v[i])
        invariant
            from <= i <= v@.len(),
            forall|t: int| from <= t < i ==> is_unicode_ws(v@[t]),
        decreases v@.len() - i,
    {
        i = i + 1;
    }
    i
}

/// The index where leading whitespace ends.
pub fn trim_start_index(v: &Vec<char>) -> (r: usize)
    ensures
        r == leading_count(v@, |c: char| is_unicode_ws(c)),
        r <= v@.len(),
{
    let r = skip_ws_from(v, 0);
    proof {
        lemma_leading_count_at(v@, |c: char| is_unicode_ws(c), r as int);
    }
    r
}

/// `s` without leading and trailing Unicode whitespace.
pub fn trim_str(s: &str) -> (r: String)
    ensures
        r@ == trim(s@),
{
    let v = chars_of(s);
    let a = trim_start_index(&v);
    let mut b = v.len();
    while b > a && is_whitespace(v[b - 1])
        invariant
            a <= b <= v@.len(),
            forall|t: int| b <= t < v@.len() ==> is_unicode_ws(v@[t]),
        decreases b,
    {
        b = b - 1;
    }
    let ghost rest = v@.skip(a as int);
    proof {
        let f = |c: char| is_unicode_ws(c);
        assert forall|i: int| rest.len() - (v@.len() - b) <= i < rest.len() implies f(rest[i]) by {
            assert(rest[i] == v@[a + i]);
        }
        if v@.len() - b < rest.len() {
            assert(rest[rest.len() - (v@.len() - b) - 1] == v@[b - 1]);
        }
        lemma_trailing_count_at(rest, f, v@.len() - b);
        assert(rest.take(rest.len() - (v@.len() - b)) =~= v@.subrange(a as int, b as int));
    }
    string_from_chars(&v, a, b)
}

/// `s` with every line feed replaced by a space.
pub open spec fn newlines_to_spaces(s: Seq<char>) -> Seq<char> {
    s.map_values(|c: char| if c == '\n' { ' ' } else { c })
}

/// Replaces every line feed by a space.
pub fn replace_newlines(s: &str) -> (r: String)
    ensures
        r@ == newlines_to_spaces(s@),
{
    let v = chars_of(s);
    let mut r = String::new();
    let mut i: usize = 0;
    while i < v.len()
        invariant
            0 <= i <= v@.len(),
            v@ == s@,
            r@ == newlines_to_spaces(v@.take(i as int)),
        decreases v@.len() - i,
    {
        let c = if v[i] == '\n' { ' ' } else { v[i] };
        push_char(&mut r, c);
        assert(newlines_to_spaces(v@.take(i + 1)) =~= newlines_to_spaces(v@.take(i as int)).push(c));
        i = i + 1;
    }
    assert(v@.take(v@.len() as int) =~= v@);
    r
}

/// Whether `a` sorts before `b`, character by character, as `String`'s order compares them
/// (by their UTF-8 bytes, which order as their code points do).
pub open spec fn text_lt(a: Seq<char>, b: Seq<char>) -> bool
    decreases a.len(),
{
    if a.len() == 0 {
        b.len() > 0
    } else if b.len() == 0 {
        false
    } else if a[0] != b[0] {
        (a[0] as int) < (b[0] as int)
    } else {
        text_lt(a.drop_first(), b.drop_first())
    }
}

/// The order of texts is transitive.
pub proof fn lemma_text_lt_transitive(a: Seq<char>, b: Seq<char>, c: Seq<char>)
    requires
        text_lt(a, b),
        text_lt(b, c),
    ensures
        text_lt(a, c),
    decreases a.len(),
{
    if a.len() > 0 && b.len() > 0 && c.len() > 0 && a[0] == b[0] && b[0] == c[0] {
        lemma_text_lt_transitive(a.drop_first(), b.drop_first(), c.drop_first());
    }
}

/// No text sorts before itself.
pub proof fn lemma_text_lt_irreflexive(a: Seq<char>)
    ensures
        !text_lt(a, a),
    decreases a.len(),
{
    if a.len() > 0 {
        lemma_text_lt_irreflexive(a.drop_first());
    }
}

/// Of two different texts, exactly one sorts before the other.
pub proof fn lemma_text_lt_total(a: Seq<char>, b: Seq<char>)
    ensures
        a == b || text_lt(a, b) || text_lt(b, a),
        !(text_lt(a, b) && text_lt(b, a)),
    decreases a.len(),
{
    if a.len() > 0 && b.len() > 0 {
        if a[0] == b[0] {
            lemma_text_lt_total(a.drop_first(), b.drop_first());
            if a.drop_first() == b.drop_first() {
                assert(a =~= seq![a[0]] + a.drop_first());
                assert(b =~= seq![b[0]] + b.drop_first());
            }
        }
    } else if a.len() == 0 && b.len() == 0 {
        assert(a =~= b);
    }
}

/// Whether text `a` sorts before text `b`, see [`text_lt`].
pub fn text_less(a: &str, b: &str) -> (r: bool)
    ensures
        r == text_lt(a@, b@),
{
    let av = chars_of(a);
    let bv = chars_of(b);
    let mut i: usize = 0;
    assert(av@.skip(0) =~= av@);
    assert(bv@.skip(0) =~= bv@);
    while i < av.len() && i < bv.len() && av[i] == bv[i]
        invariant
            av@ == a@,
            bv@ == b@,
            0 <= i <= av@.len(),
            i <= bv@.len(),
            text_lt(av@, bv@) == text_lt(av@.skip(i as int), bv@.skip(i as int)),
        decreases av@.len() - i,
    {
        let ghost x = av@.skip(i as int);
        let ghost y = bv@.skip(i as int);
        assert(x.drop_first() =~= av@.skip(i + 1));
        assert(y.drop_first() =~= bv@.skip(i + 1));
        i = i + 1;
    }
    let ghost x = av@.skip(i as int);
    let ghost y = bv@.skip(i as int);
    if i == av.len() {
        assert(x.len() == 0);
        i < bv.len()
    } else if i == bv.len() {
        assert(y.len() == 0);
        false
    } else {
        assert(x[0] == av@[i as int] && y[0] == bv@[i as int]);
        av[i] < bv[i]
    }
}

/// The character sequences of a sequence of strings.
pub open spec fn strings_view(s: Seq<String>) -> Seq<Seq<char>> {
    s.map_values(|x: String| x@)
}

/// Parts joined by a separator.
pub open spec fn join(parts: Seq<Seq<char>>, sep: Seq<char>) -> Seq<char>
    decreases parts.len(),
{
    if parts.len() == 0 {
        seq![]
    } else if parts.len() == 1 {
        parts[0]
    } else {
        join(parts.drop_last(), sep) + sep + parts.last()
    }
}

/// Joins strings with a separator.
pub fn join_strings(parts: &Vec<String>, sep: &str) -> (r: String)
    ensures
        r@ == join(parts@.map_values(|p: String| p@), sep@),
{
    let ghost pv = parts@.map_values(|p: String| p@);
    let mut r = String::new();
    let mut i: usize = 0;
    while i < parts.len()
        invariant
            0 <= i <= parts@.len(),
            pv == parts@.map_values(|p: String| p@),
            r@ == join(pv.take(i as int), sep@),
        decreases parts@.len() - i,
    {
        assert(pv.take(i + 1).drop_last() =~= pv.take(i as int));
        if i != 0 {
            r.append(sep);
        } else {
            assert(pv.take(1)[0] == pv[0]);
            assert(r@ =~= seq![]);
        }
        r.append(parts[i].as_str());
        i = i + 1;
    }
    assert(pv.take(parts@.len() as int) =~= pv);
    r
}

/// An integer in decimal, with a leading minus sign when negative.
pub open spec fn int_decimal(i: int) -> Seq<char> {
    if i < 0 {
        seq!['-'] + decimal((-i) as nat)
    } else {
        decimal(i as nat)
    }
}

/// Renders an `i64` in decimal, as `Display` prints it.
pub fn i64_decimal(i: i64) -> (s: String)
    ensures
        s@ == int_decimal(i as int),
{
    if i < 0 {
        let magnitude: u64 = if i == i64::MIN { 9223372036854775808u64 } else { (-i) as u64 };
        let mut s = String::new();
        push_char(&mut s, '-');
        s.append(decimal_string(magnitude).as_str());
        s
    } else {
        decimal_string(i as u64)
    }
}


/// The value of a digit character.
pub open spec fn digit_value(c: char) -> int {
    (c as int) - ('0' as int)
}

/// Whether every character is an ASCII digit.
pub open spec fn all_digits(s: Seq<char>) -> bool {
    forall|i: int| 0 <= i < s.len() ==> is_ascii_digit(#[trigger] s[i])
}

/// The number that a string of decimal digits denotes.
pub open spec fn digits_value(s: Seq<char>) -> int
    decreases s.len(),
{
    if s.len() == 0 {
        0
    } else {
        10 * digits_value(s.drop_last()) + digit_value(s.last())
    }
}

/// The integer that `i64::from_str` reads: an optional `+` or `-` and at least one digit,
/// within the range of `i64`.
pub open spec fn spec_parse_i64(s: Seq<char>) -> Option<int> {
    let neg = s.len() > 0 && s[0] == '-';
    let signed = s.len() > 0 && (s[0] == '-' || s[0] == '+');
    let digits = if signed { s.drop_first() } else { s };
    if digits.len() == 0 || !all_digits(digits) {
        None
    } else {
        let v = if neg { -digits_value(digits) } else { digits_value(digits) };
        if i64::MIN <= v <= i64::MAX { Some(v) } else { None }
    }
}

proof fn lemma_digits_value_nonneg(s: Seq<char>)
    requires
        all_digits(s),
    ensures
        digits_value(s) >= 0,
    decreases s.len(),
{
    if s.len() > 0 {
        assert(all_digits(s.drop_last())) by {
            assert forall|i: int| 0 <= i < s.drop_last().len() implies is_ascii_digit(s.drop_last()[i]) by {
                assert(s.drop_last()[i] == s[i]);
            }
        }
        lemma_digits_value_nonneg(s.drop_last());
        assert(is_ascii_digit(s[s.len() - 1]));
    }
}

/// Parses an `i64` as `str::parse::<i64>` does.
pub fn parse_i64(s: &str) -> (r: Option<i64>)
    ensures
        match r {
            Some(v) => spec_parse_i64(s@) == Some(v as int),
            None => spec_parse_i64(s@) is None,
        },
{
    let v = chars_of(s);
    if v.len() == 0 {
        return None;
    }
    let neg = v[0] == '-';
    let signed = v[0] == '-' || v[0] == '+';
    let start: usize = if signed { 1 } else { 0 };
    let ghost digits = if signed { v@.drop_first() } else { v@ };
    assert(digits =~= v@.skip(start as int));
    if start == v.len() {
        return None;
    }
    // The magnitude, as far as it stays within 2^63.
    let mut acc: u64 = 0;
    let mut i = start;
    while i < v.len()
        invariant
            start <= i <= v@.len(),
            v@ == s@,
            v@.len() > 0,
            signed == (v@[0] == '-' || v@[0] == '+'),
            neg == (v@[0] == '-'),
            start == (if signed { 1usize } else { 0usize }),
            digits == (if signed { v@.drop_first() } else { v@ }),
            digits == v@.skip(start as int),
            all_digits(v@.subrange(start as int, i as int)),
            acc as int == digits_value(v@.subrange(start as int, i as int)),
            acc <= 9223372036854775808u64,
        decreases v@.len() - i,
    {
        let c = v[i];
        if !('0' <= c && c <= '9') {
            assert(digits[i - start] == c);
            assert(!is_ascii_digit(digits[i - start]));
            assert(!all_digits(digits));
            return None;
        }
        let d: u64 = (c as u32 - '0' as u32) as u64;
        assert(v@.subrange(start as int, i + 1).drop_last() =~= v@.subrange(start as int, i as int));
        assert(all_digits(v@.subrange(start as int, i + 1))) by {
            assert forall|j: int| 0 <= j < v@.subrange(start as int, i + 1).len() implies is_ascii_digit(
                #[trigger] v@.subrange(start as int, i + 1)[j],
            ) by {
                if j < i - start {
                    assert(v@.subrange(start as int, i + 1)[j] == v@.subrange(start as int, i as int)[j]);
                }
            }
        }
        if acc > 922337203685477580u64 || (acc == 922337203685477580u64 && d > 8) {
            // Beyond 2^63: too large for an i64 of either sign.
            proof {
                let pre = v@.subrange(start as int, i + 1);
                assert(pre =~= digits.take(i + 1 - start));
                assert(pre.last() == c);
                assert(digits_value(pre) == 10 * digits_value(pre.drop_last()) + digit_value(c));
                assert(digits_value(pre) > 9223372036854775808);
                if all_digits(digits) {
                    lemma_digits_prefix_le(digits, i + 1 - start);
                    assert(digits_value(digits) > 9223372036854775808);
                }
            }
            return None;
        }
        acc = acc * 10 + d;
        i = i + 1;
    }
    assert(v@.subrange(start as int, v@.len() as int) =~= digits);
    if neg {
        if acc == 9223372036854775808u64 {
            Some(i64::MIN)
        } else {
            Some(-(acc as i64))
        }
    } else {
        if acc > 9223372036854775807u64 {
            None
        } else {
            Some(acc as i64)
        }
    }
}

/// A string of digits is worth at least any of its prefixes.
proof fn lemma_digits_prefix_le(s: Seq<char>, n: int)
    requires
        all_digits(s),
        0 <= n <= s.len(),
    ensures
        digits_value(s.take(n)) <= digits_value(s),
    decreases s.len() - n,
{
    if n < s.len() {
        assert(all_digits(s.drop_last())) by {
            assert forall|i: int| 0 <= i < s.drop_last().len() implies is_ascii_digit(s.drop_last()[i]) by {
                assert(s.drop_last()[i] == s[i]);
            }
        }
        lemma_digits_prefix_le(s.drop_last(), n);
        assert(s.drop_last().take(n) =~= s.take(n));
        lemma_digits_value_nonneg(s.drop_last());
        assert(is_ascii_digit(s[s.len() - 1]));
    } else {
        assert(s.take(n) =~= s);
    }
}

} // verus!
