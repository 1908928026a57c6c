//! Text as sequences of characters.
//!
//! The grammars of this crate (actions, key sequences, styles) are stated over
//! `Seq<char>`, the view of a string. This module holds the vocabulary those
//! statements share, and the executable functions that compute it on
//! `Vec<char>`.

use vstd::prelude::*;

verus! {

/// Appends one character to a string.
///
/// Trusted: the body calls `String::push` of the standard library, which by
/// its documentation appends the given character to the end of the string.
#[verifier::external_body]
fn push_char(s: &mut String, c: char)
    ensures
        final(s)@ == old(s)@.push(c),
{
    s.push(c)
}

/// The characters of a string.
pub fn chars_of(s: &str) -> (v: Vec<char>)
    ensures
        v@ == s@,
{
    let n: usize = s.unicode_len();
    let mut v: Vec<char> = Vec::new();
    let mut i: usize = 0;
    while i < n
        invariant
            i <= n,
            n == s@.len(),
            v@ == s@.subrange(0, i as int),
        decreases n - i,
    {
        v.push(s.get_char(i));
        i += 1;
    }
    v
}

/// The string made of the given characters.
pub fn string_of(v: &Vec<char>) -> (s: String)
    ensures
        s@ == v@,
{
    let mut s = String::new();
    let mut i: usize = 0;
    while i < v.len()
        invariant
            i <= v.len(),
            s@ == v@.subrange(0, i as int),
        decreases v.len() - i,
    {
        push_char(&mut s, v[i]);
        i += 1;
    }
    s
}

/// A copy of `s[from..to]`.
pub fn slice(s: &Vec<char>, from: usize, to: usize) -> (r: Vec<char>)
    requires
        from <= to <= s.len(),
    ensures
        r@ == s@.subrange(from as int, to as int),
{
    let mut r: Vec<char> = Vec::new();
    let mut i: usize = from;
    while i < to
        invariant
            from <= i <= to <= s.len(),
            r@ == s@.subrange(from as int, i as int),
        decreases to - i,
    {
        r.push(s[i]);
        i += 1;
    }
    r
}

/// Whether two texts hold the same characters.
pub fn same(a: &Vec<char>, b: &Vec<char>) -> (r: bool)
    ensures
        r == (a@ == b@),
{
    if a.len() != b.len() {
        return false;
    }
    let mut i: usize = 0;
    while i < a.len()
        invariant
            i <= a.len(),
            a.len() == b.len(),
            a@.subrange(0, i as int) == b@.subrange(0, i as int),
        decreases a.len() - i,
    {
        if a[i] != b[i] {
            return false;
        }
        assert(a@.subrange(0, i + 1) == a@.subrange(0, i as int).push(a@[i as int]));
        assert(b@.subrange(0, i + 1) == b@.subrange(0, i as int).push(b@[i as int]));
        i += 1;
    }
    assert(a@ == a@.subrange(0, a.len() as int));
    assert(b@ == b@.subrange(0, b.len() as int));
    true
}

/// Whether a text is the given literal.
pub fn is(s: &Vec<char>, literal: &str) -> (r: bool)
    ensures
        r == (s@ == literal@),
{
    let l = chars_of(literal);
    same(s, &l)
}

/// `p` stands in `s` at position `i`.
pub open spec fn occurs_at(s: Seq<char>, p: Seq<char>, i: int) -> bool {
    0 <= i && i + p.len() <= s.len() && s.subrange(i, i + p.len()) == p
}

/// `s` begins with `p`.
pub open spec fn starts_with(s: Seq<char>, p: Seq<char>) -> bool {
    occurs_at(s, p, 0)
}

/// `p` stands somewhere in `s`.
pub open spec fn contains(s: Seq<char>, p: Seq<char>) -> bool {
    exists|i: int| occurs_at(s, p, i)
}

/// `i` is the first position at which `p` stands in `s`.
pub open spec fn first_at(s: Seq<char>, p: Seq<char>, i: int) -> bool {
    occurs_at(s, p, i) && forall|j: int| 0 <= j < i ==> !occurs_at(s, p, j)
}

/// Computes [`occurs_at`].
pub fn matches_at(s: &Vec<char>, p: &Vec<char>, i: usize) -> (r: bool)
    ensures
        r == occurs_at(s@, p@, i as int),
{
    if p.len() > s.len() || i > s.len() - p.len() {
        return false;
    }
    let mut k: usize = 0;
    while k < p.len()
        invariant
            k <= p.len(),
            i + p.len() <= s.len(),
            s@.subrange(i as int, i + k) == p@.subrange(0, k as int),
        decreases p.len() - k,
    {
        if s[i + k] != p[k] {
            assert(s@.subrange(i as int, i + p.len())[k as int] == s@[i + k]);
            return false;
        }
        assert(s@.subrange(i as int, i + k + 1) == s@.subrange(i as int, i + k).push(s@[i + k]));
        assert(p@.subrange(0, k + 1) == p@.subrange(0, k as int).push(p@[k as int]));
        k += 1;
    }
    assert(p@ == p@.subrange(0, p.len() as int));
    true
}

/// The first position at or after `from` at which `p` stands in `s`, if any.
pub fn find_from(s: &Vec<char>, p: &Vec<char>, from: usize) -> (r: Option<usize>)
    ensures
        match r {
            Some(i) => from <= i && occurs_at(s@, p@, i as int) && forall|j: int|
                from <= j < i ==> !occurs_at(s@, p@, j),
            None => forall|j: int| from <= j ==> !occurs_at(s@, p@, j),
        },
{
    if p.len() > s.len() {
        return None;
    }
    let last: usize = s.len() - p.len();
    let mut i: usize = from;
    while i <= last
        invariant
            from <= i,
            last == s.len() - p.len(),
            forall|j: int| from <= j < i ==> !occurs_at(s@, p@, j),
        decreases last + 1 - i,
    {
        if matches_at(s, p, i) {
            return Some(i);
        }
        if i == last {
            return None;
        }
        i += 1;
    }
    None
}

/// The first position at which `p` stands in `s`, if any.
pub fn find(s: &Vec<char>, p: &Vec<char>) -> (r: Option<usize>)
    ensures
        match r {
            Some(i) => first_at(s@, p@, i as int),
            None => !contains(s@, p@),
        },
{
    find_from(s, p, 0)
}

/// The first position at which `p` stands in `s`, or the length of `s` where
/// it stands nowhere.
pub open spec fn index_of(s: Seq<char>, p: Seq<char>) -> int {
    if contains(s, p) {
        choose|i: int| first_at(s, p, i)
    } else {
        s.len() as int
    }
}

/// Computes [`index_of`].
pub fn position(s: &Vec<char>, p: &Vec<char>) -> (r: usize)
    ensures
        r == index_of(s@, p@),
        r <= s.len(),
{
    match find(s, p) {
        Some(i) => {
            assert(first_at(s@, p@, i as int));
            let ghost j = choose|j: int| first_at(s@, p@, j);
            assert(first_at(s@, p@, j));
            assert(occurs_at(s@, p@, j));
            assert(occurs_at(s@, p@, i as int));
            i
        },
        None => s.len(),
    }
}

/// Whether the literal stands somewhere in `s`.
pub fn has(s: &Vec<char>, literal: &str) -> (r: bool)
    ensures
        r == contains(s@, literal@),
{
    let p = chars_of(literal);
    find(s, &p).is_some()
}

/// Whether `s` begins with the literal.
pub fn begins(s: &Vec<char>, literal: &str) -> (r: bool)
    ensures
        r == starts_with(s@, literal@),
{
    let p = chars_of(literal);
    matches_at(s, &p, 0)
}

/// `s` with every occurrence of `from` replaced by `to`, the occurrences
/// taken from the left and without overlap. An empty `from` changes nothing.
pub open spec fn replaced(s: Seq<char>, from: Seq<char>, to: Seq<char>) -> Seq<char>
    decreases s.len(),
{
    if from.len() == 0 || s.len() == 0 {
        s
    } else if starts_with(s, from) {
        to + replaced(s.subrange(from.len() as int, s.len() as int), from, to)
    } else {
        seq![s[0]] + replaced(s.subrange(1, s.len() as int), from, to)
    }
}

/// Computes [`replaced`].
pub fn replace(s: &Vec<char>, from: &Vec<char>, to: &Vec<char>) -> (r: Vec<char>)
    ensures
        r@ == replaced(s@, from@, to@),
{
    if from.len() == 0 {
        return slice(s, 0, s.len());
    }
    let mut r: Vec<char> = Vec::new();
    let mut i: usize = 0;
    assert(s@.subrange(0, s.len() as int) == s@);
    assert(r@ + replaced(s@, from@, to@) == replaced(s@, from@, to@));
    while i < s.len()
        invariant
            i <= s.len(),
            from.len() > 0,
            r@ + replaced(s@.subrange(i as int, s.len() as int), from@, to@) == replaced(
                s@,
                from@,
                to@,
            ),
        decreases s.len() - i,
    {
        let ghost rest = s@.subrange(i as int, s.len() as int);
        if matches_at(s, from, i) {
            assert(rest.subrange(0, from.len() as int) == s@.subrange(i as int, i + from.len()));
            assert(rest.subrange(from.len() as int, rest.len() as int) == s@.subrange(
                i + from.len(),
                s.len() as int,
            ));
            let ghost before = r@;
            let mut k: usize = 0;
            while k < to.len()
                invariant
                    k <= to.len(),
                    r@ == before + to@.subrange(0, k as int),
                decreases to.len() - k,
            {
                r.push(to[k]);
                k += 1;
            }
            assert(to@.subrange(0, to.len() as int) == to@);
            assert(r@ + replaced(s@.subrange(i + from.len(), s.len() as int), from@, to@) == before
                + (to@ + replaced(s@.subrange(i + from.len(), s.len() as int), from@, to@)));
            i += from.len();
        } else {
            assert(!starts_with(rest, from@)) by {
                if starts_with(rest, from@) {
                    assert(rest.subrange(0, from.len() as int) == s@.subrange(
                        i as int,
                        i + from.len(),
                    ));
                }
            }
            assert(rest.subrange(1, rest.len() as int) == s@.subrange(i + 1, s.len() as int));
            let ghost before = r@;
            r.push(s[i]);
            assert(r@ + replaced(s@.subrange(i + 1, s.len() as int), from@, to@) == before + (
            seq![s@[i as int]] + replaced(s@.subrange(i + 1, s.len() as int), from@, to@)));
            i += 1;
        }
    }
    assert(s@.subrange(s.len() as int, s.len() as int).len() == 0);
    assert(r@ + Seq::<char>::empty() == r@);
    r
}

/// `s` with every occurrence of the literal `from` replaced by the literal
/// `to`.
pub fn replace_literal(s: &Vec<char>, from: &str, to: &str) -> (r: Vec<char>)
    ensures
        r@ == replaced(s@, from@, to@),
{
    let f = chars_of(from);
    let t = chars_of(to);
    replace(s, &f, &t)
}

/// `s` without the copies of `p` that it begins with. An empty `p` removes
/// nothing.
pub open spec fn without_leading(s: Seq<char>, p: Seq<char>) -> Seq<char>
    decreases s.len(),
{
    if p.len() > 0 && starts_with(s, p) {
        without_leading(s.subrange(p.len() as int, s.len() as int), p)
    } else {
        s
    }
}

/// Computes [`without_leading`] for a literal.
pub fn strip_leading(s: &Vec<char>, literal: &str) -> (r: Vec<char>)
    ensures
        r@ == without_leading(s@, literal@),
{
    let p = chars_of(literal);
    let mut i: usize = 0;
    assert(s@.subrange(0, s.len() as int) == s@);
    if p.len() > 0 {
        while matches_at(s, &p, i)
            invariant
                i <= s.len(),
                p.len() > 0,
                without_leading(s@.subrange(i as int, s.len() as int), p@) == without_leading(
                    s@,
                    p@,
                ),
            decreases s.len() - i,
        {
            let ghost rest = s@.subrange(i as int, s.len() as int);
            assert(rest.subrange(0, p.len() as int) == s@.subrange(i as int, i + p.len()));
            assert(rest.subrange(p.len() as int, rest.len() as int) == s@.subrange(
                i + p.len(),
                s.len() as int,
            ));
            i += p.len();
        }
        let ghost rest = s@.subrange(i as int, s.len() as int);
        assert(!starts_with(rest, p@)) by {
            if starts_with(rest, p@) {
                assert(rest.subrange(0, p.len() as int) == s@.subrange(i as int, i + p.len()));
            }
        }
    }
    slice(s, i, s.len())
}

/// `s` without the characters `c` that it ends with.
pub open spec fn without_trailing(s: Seq<char>, c: char) -> Seq<char>
    decreases s.len(),
{
    if s.len() > 0 && s.last() == c {
        without_trailing(s.drop_last(), c)
    } else {
        s
    }
}

/// Computes [`without_trailing`].
pub fn strip_trailing(s: &Vec<char>, c: char) -> (r: Vec<char>)
    ensures
        r@ == without_trailing(s@, c),
{
    let mut n: usize = s.len();
    assert(s@.subrange(0, n as int) == s@);
    while n > 0 && s[n - 1] == c
        invariant
            n <= s.len(),
            without_trailing(s@.subrange(0, n as int), c) == without_trailing(s@, c),
        decreases n,
    {
        assert(s@.subrange(0, n as int).drop_last() == s@.subrange(0, n - 1));
        n -= 1;
    }
    slice(s, 0, n)
}

/// The characters that `char::is_whitespace` accepts: those with the Unicode
/// property `White_Space`.
pub open spec fn is_space(c: char) -> bool {
    let n = c as u32;
    ||| 0x09 <= n <= 0x0d
    ||| n == 0x20
    ||| n == 0x85
    ||| n == 0xa0
    ||| n == 0x1680
    ||| 0x2000 <= n <= 0x200a
    ||| n == 0x2028
    ||| n == 0x2029
    ||| n == 0x202f
    ||| n == 0x205f
    ||| n == 0x3000
}

/// Computes [`is_space`].
pub fn space(c: char) -> (r: bool)
    ensures
        r == is_space(c),
{
    let n: u32 = c as u32;
    (0x09 <= n && n <= 0x0d) || n == 0x20 || n == 0x85 || n == 0xa0 || n == 0x1680 || (0x2000 <= n
        && n <= 0x200a) || n == 0x2028 || n == 0x2029 || n == 0x202f || n == 0x205f || n == 0x3000
}

/// `s` without the white space that it begins with.
pub open spec fn trimmed_start(s: Seq<char>) -> Seq<char>
    decreases s.len(),
{
    if s.len() > 0 && is_space(s[0]) {
        trimmed_start(s.subrange(1, s.len() as int))
    } else {
        s
    }
}

/// `s` without the white space that it ends with.
pub open spec fn trimmed_end(s: Seq<char>) -> Seq<char>
    decreases s.len(),
{
    if s.len() > 0 && is_space(s.last()) {
        trimmed_end(s.drop_last())
    } else {
        s
    }
}

/// `s` without the white space at either end.
pub open spec fn trimmed(s: Seq<char>) -> Seq<char> {
    trimmed_end(trimmed_start(s))
}

/// Computes [`trimmed`].
pub fn trim(s: &Vec<char>) -> (r: Vec<char>)
    ensures
        r@ == trimmed(s@),
{
    let mut a: usize = 0;
    assert(s@.subrange(0, s.len() as int) == s@);
    while a < s.len() && space(s[a])
        invariant
            a <= s.len(),
            trimmed_start(s@.subrange(a as int, s.len() as int)) == trimmed_start(s@),
        decreases s.len() - a,
    {
        let ghost rest = s@.subrange(a as int, s.len() as int);
        assert(rest.subrange(1, rest.len() as int) == s@.subrange(a + 1, s.len() as int));
        a += 1;
    }
    let mut b: usize = s.len();
    while b > a && space(s[b - 1])
        invariant
            a <= b <= s.len(),
            trimmed_end(s@.subrange(a as int, b as int)) == trimmed_end(
                s@.subrange(a as int, s.len() as int),
            ),
        decreases b,
    {
        assert(s@.subrange(a as int, b as int).drop_last() == s@.subrange(a as int, b - 1));
        b -= 1;
    }
    slice(s, a, b)
}

/// The lower-case form of an ASCII capital letter; any other character is
/// returned as it is.
pub open spec fn lower(c: char) -> char {
    if 'A' <= c <= 'Z' {
        ((c as u8) + 32) as char
    } else {
        c
    }
}

/// The capital form of an ASCII lower-case letter; any other character is
/// returned as it is.
pub open spec fn upper(c: char) -> char {
    if 'a' <= c <= 'z' {
        ((c as u8) - 32) as char
    } else {
        c
    }
}

/// Computes [`lower`].
pub fn to_lower(c: char) -> (r: char)
    ensures
        r == lower(c),
{
    if 'A' <= c && c <= 'Z' {
        let b: u8 = c as u8;
        (b + 32) as char
    } else {
        c
    }
}

/// Computes [`upper`].
pub fn to_upper(c: char) -> (r: char)
    ensures
        r == upper(c),
{
    if 'a' <= c && c <= 'z' {
        let b: u8 = c as u8;
        (b - 32) as char
    } else {
        c
    }
}

/// The text with every ASCII capital letter in lower case.
pub fn to_ascii_lowercase(s: &Vec<char>) -> (r: Vec<char>)
    ensures
        r@ == s@.map_values(|c: char| lower(c)),
{
    let mut r: Vec<char> = Vec::new();
    let mut i: usize = 0;
    while i < s.len()
        invariant
            i <= s.len(),
            r@ == s@.subrange(0, i as int).map_values(|c: char| lower(c)),
        decreases s.len() - i,
    {
        r.push(to_lower(s[i]));
        assert(s@.subrange(0, i + 1) == s@.subrange(0, i as int).push(s@[i as int]));
        i += 1;
    }
    assert(s@.subrange(0, s.len() as int) == s@);
    r
}

/// How often the character occurs in the text.
pub open spec fn count(s: Seq<char>, c: char) -> nat
    decreases s.len(),
{
    if s.len() == 0 {
        0
    } else {
        count(s.drop_last(), c) + if s.last() == c {
            1nat
        } else {
            0nat
        }
    }
}

/// Computes [`count`].
pub fn count_of(s: &Vec<char>, c: char) -> (n: usize)
    ensures
        n == count(s@, c),
{
    let mut n: usize = 0;
    let mut i: usize = 0;
    while i < s.len()
        invariant
            i <= s.len(),
            n <= i,
            n == count(s@.subrange(0, i as int), c),
        decreases s.len() - i,
    {
        assert(s@.subrange(0, i + 1).drop_last() == s@.subrange(0, i as int));
        if s[i] == c {
            n += 1;
        }
        i += 1;
    }
    assert(s@.subrange(0, s.len() as int) == s@);
    n
}

/// The pieces of `s` between the occurrences of `sep`, the occurrences taken
/// from the left and without overlap. A text without `sep` is one piece.
pub open spec fn pieces(s: Seq<char>, sep: Seq<char>) -> Seq<Seq<char>>
    decreases s.len(),
{
    pieces_after(s, sep, 0)
}

/// The pieces of `s` where the first `held` characters are known to belong to
/// the first piece.
pub open spec fn pieces_after(s: Seq<char>, sep: Seq<char>, held: int) -> Seq<Seq<char>>
    decreases s.len() - held,
{
    if sep.len() == 0 || held < 0 || held + sep.len() > s.len() {
        seq![s]
    } else if occurs_at(s, sep, held) {
        seq![s.subrange(0, held)] + pieces_after(
            s.subrange(held + sep.len(), s.len() as int),
            sep,
            0,
        )
    } else {
        pieces_after(s, sep, held + 1)
    }
}

/// The texts that a vector of texts holds.
pub open spec fn texts(v: Seq<Vec<char>>) -> Seq<Seq<char>> {
    v.map_values(|t: Vec<char>| t@)
}

/// Computes [`pieces`].
pub fn split(s: &Vec<char>, sep: &Vec<char>) -> (r: Vec<Vec<char>>)
    ensures
        texts(r@) == pieces(s@, sep@),
{
    let mut r: Vec<Vec<char>> = Vec::new();
    let mut start: usize = 0;
    let mut i: usize = 0;
    assert(s@.subrange(0, s.len() as int) == s@);
    if sep.len() == 0 {
        let whole = slice(s, 0, s.len());
        r.push(whole);
        assert(texts(r@) == seq![s@]);
        return r;
    }
    while sep.len() <= s.len() && i <= s.len() - sep.len()
        invariant
            start <= i <= s.len(),
            sep.len() > 0,
            texts(r@) + pieces_after(s@.subrange(start as int, s.len() as int), sep@, i - start)
                == pieces(s@, sep@),
        decreases s.len() - i,
    {
        let ghost rest = s@.subrange(start as int, s.len() as int);
        assert(rest.subrange(i - start, i - start + sep.len()) == s@.subrange(
            i as int,
            i + sep.len(),
        ));
        if matches_at(s, sep, i) {
            let piece = slice(s, start, i);
            assert(rest.subrange(0, i - start) == s@.subrange(start as int, i as int));
            assert(rest.subrange(i - start + sep.len(), rest.len() as int) == s@.subrange(
                i + sep.len(),
                s.len() as int,
            ));
            let ghost before = texts(r@);
            r.push(piece);
            assert(texts(r@) == before.push(piece@));
            assert(before.push(piece@) + pieces_after(
                s@.subrange(i + sep.len(), s.len() as int),
                sep@,
                0,
            ) == before + (seq![piece@] + pieces_after(
                s@.subrange(i + sep.len(), s.len() as int),
                sep@,
                0,
            )));
            i += sep.len();
            start = i;
        } else {
            i += 1;
        }
    }
    let piece = slice(s, start, s.len());
    let ghost before = texts(r@);
    r.push(piece);
    assert(texts(r@) == before.push(piece@));
    assert(before.push(piece@) == before + seq![piece@]);
    r
}

/// Why a text is not a number.
#[derive(Debug, Copy, Clone, PartialEq, Eq, Hash, Structural)]
pub enum NumberError {
    /// The text holds no digit.
    Empty,
    /// A character of the text is no decimal digit.
    InvalidDigit,
    /// The number does not fit the type that was asked for.
    Overflow,
}

/// The value of a text that is made of decimal digits only.
pub open spec fn digits_value(s: Seq<char>) -> nat
    decreases s.len(),
{
    if s.len() == 0 {
        0
    } else {
        digits_value(s.drop_last()) * 10 + (s.last() as u8 - '0' as u8) as nat
    }
}

/// Whether the character is a decimal digit.
pub open spec fn is_digit(c: char) -> bool {
    '0' <= c <= '9'
}

/// How many decimal digits the text begins with.
pub open spec fn leading_digits(s: Seq<char>) -> nat
    decreases s.len(),
{
    if s.len() > 0 && is_digit(s[0]) {
        1 + leading_digits(s.subrange(1, s.len() as int))
    } else {
        0
    }
}

/// What the text is as an unsigned decimal number of at most `max`, read
/// from the left as the unsigned integer types of the standard library read
/// their `FromStr` input. A single `+` may stand before the digits. The text
/// is refused at the first character that is no digit, or at the first digit
/// with which the number exceeds `max`, whichever comes first.
pub open spec fn number(s: Seq<char>, max: nat) -> Result<nat, NumberError> {
    let digits = if s.len() > 1 && s[0] == '+' {
        s.subrange(1, s.len() as int)
    } else {
        s
    };
    let run = digits.subrange(0, leading_digits(digits) as int);
    if s.len() == 0 {
        Err(NumberError::Empty)
    } else if s.len() == 1 && (s[0] == '+' || s[0] == '-') {
        Err(NumberError::InvalidDigit)
    } else if digits_value(run) > max {
        Err(NumberError::Overflow)
    } else if run.len() < digits.len() {
        Err(NumberError::InvalidDigit)
    } else {
        Ok(digits_value(digits))
    }
}

/// A longer run of digits is worth at least as much as what it begins with.
pub proof fn lemma_digits_value_grows(s: Seq<char>, n: int)
    requires
        0 <= n <= s.len(),
    ensures
        digits_value(s.subrange(0, n)) <= digits_value(s),
    decreases s.len() - n,
{
    if n == s.len() {
        assert(s.subrange(0, n) == s);
    } else {
        lemma_digits_value_grows(s.drop_last(), n);
        assert(s.drop_last().subrange(0, n) == s.subrange(0, n));
    }
}

/// Where the first `k` characters are digits, the text begins with at least
/// `k` digits, and with exactly `k` where the next character is none.
pub proof fn lemma_leading_digits(s: Seq<char>, k: int)
    requires
        0 <= k <= s.len(),
        forall|i: int| 0 <= i < k ==> is_digit(#[trigger] s[i]),
    ensures
        k <= leading_digits(s) <= s.len(),
        (k == s.len() || !is_digit(s[k])) ==> leading_digits(s) == k,
    decreases s.len(),
{
    if s.len() > 0 && is_digit(s[0]) {
        let rest = s.subrange(1, s.len() as int);
        if k > 0 {
            assert forall|i: int| 0 <= i < k - 1 implies is_digit(#[trigger] rest[i]) by {
                assert(rest[i] == s[i + 1]);
            }
            lemma_leading_digits(rest, k - 1);
        } else {
            lemma_leading_digits(rest, 0);
        }
    }
}

/// Computes [`number`] for a bound that fits 32 bits.
pub fn parse_number(s: &Vec<char>, max: u32) -> (r: Result<u32, NumberError>)
    ensures
        match r {
            Ok(n) => number(s@, max as nat) == Ok::<nat, NumberError>(n as nat),
            Err(e) => number(s@, max as nat) == Err::<nat, NumberError>(e),
        },
{
    if s.len() == 0 {
        return Err(NumberError::Empty);
    }
    if s.len() == 1 && (s[0] == '+' || s[0] == '-') {
        return Err(NumberError::InvalidDigit);
    }
    let first: usize = if s[0] == '+' {
        1
    } else {
        0
    };
    let ghost digits = s@.subrange(first as int, s.len() as int);
    assert(first == 0 ==> digits == s@);
    let mut value: u64 = 0;
    let mut i: usize = first;
    assert(digits.subrange(0, 0).len() == 0);
    while i < s.len()
        invariant
            first <= i <= s.len(),
            s.len() > 0,
            !(s.len() == 1 && (s@[0] == '+' || s@[0] == '-')),
            first == (if s@[0] == '+' {
                1int
            } else {
                0int
            }),
            digits == s@.subrange(first as int, s.len() as int),
            first == 0 ==> digits == s@,
            forall|j: int| 0 <= j < i - first ==> is_digit(#[trigger] digits[j]),
            value == digits_value(digits.subrange(0, i - first)),
            value <= max,
        decreases s.len() - i,
    {
        assert(digits[i - first] == s@[i as int]);
        if !('0' <= s[i] && s[i] <= '9') {
            proof {
                lemma_leading_digits(digits, i - first);
            }
            return Err(NumberError::InvalidDigit);
        }
        let d: u64 = (s[i] as u8 - '0' as u8) as u64;
        assert(digits.subrange(0, i + 1 - first).drop_last() == digits.subrange(0, i - first));
        assert(digits.subrange(0, i + 1 - first).last() == s@[i as int]);
        let next: u64 = value * 10 + d;
        if next > max as u64 {
            proof {
                lemma_leading_digits(digits, i + 1 - first);
                let run = digits.subrange(0, leading_digits(digits) as int);
                lemma_digits_value_grows(run, i + 1 - first);
                assert(run.subrange(0, i + 1 - first) == digits.subrange(0, i + 1 - first));
            }
            return Err(NumberError::Overflow);
        }
        value = next;
        i += 1;
    }
    proof {
        lemma_leading_digits(digits, digits.len() as int);
        assert(digits.subrange(0, digits.len() as int) == digits);
    }
    Ok(value as u32)
}

/// The decimal digits of a number, without leading zeros.
pub open spec fn decimal(n: nat) -> Seq<char>
    decreases n,
{
    if n < 10 {
        seq![('0' as u8 + n as u8) as char]
    } else {
        decimal(n / 10).push(('0' as u8 + (n % 10) as u8) as char)
    }
}

/// Computes [`decimal`].
pub fn decimal_of(n: u32) -> (r: Vec<char>)
    ensures
        r@ == decimal(n as nat),
    decreases n,
{
    if n < 10 {
        let mut r: Vec<char> = Vec::new();
        r.push((('0' as u8) + (n as u8)) as char);
        r
    } else {
        let mut r = decimal_of(n / 10);
        r.push((('0' as u8) + ((n % 10) as u8)) as char);
        r
    }
}

} // verus!
