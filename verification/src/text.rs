//! Character-level helpers shared by the textual command protocol and the
//! file-name formats: conversion between `str`/`String` and `Vec<char>`,
//! Unicode white-space trimming, and decimal integer text.
use vstd::prelude::*;

verus! {

/// Collects the characters of a string slice, in order.
pub fn chars_of(s: &str) -> (v: Vec<char>)
    ensures
        v@ == s@,
{
    broadcast use vstd::string::group_string_axioms;

    let mut v: Vec<char> = Vec::new();
    for c in it: s.chars()
        invariant
            it.seq() == s@,
            v@ == it.seq().take(it.index() as int),
    {
        v.push(c);
        proof {
            assert(v@ == it.seq().take(it.index() as int + 1));
        }
    }
    v
}


/// Appends one character to a `String` (std `String::push`): the string's
/// characters afterwards are the old ones followed by `c`.
#[verifier::external_body]
fn string_push(s: &mut String, c: char)
    ensures
        final(s)@ == old(s)@.push(c),
{
    s.push(c);
}

/// Builds a `String` holding exactly the given characters.
pub fn string_from_chars(v: &Vec<char>) -> (s: String)
    ensures
        s@ == v@,
{
    let mut s = String::new();
    let mut i: usize = 0;
    while i < v.len()
        invariant
            i <= v.len(),
            s@ == v@.take(i as int),
        decreases v.len() - i,
    {
        string_push(&mut s, v[i]);
        i = i + 1;
        proof {
            assert(s@ == v@.take(i as int));
        }
    }
    proof {
        assert(v@.take(v.len() as int) == v@);
    }
    s
}

/// Unicode `White_Space` property, as used by `char::is_whitespace` and `str::trim`.
pub open spec fn is_space(c: char) -> bool {
    let u = c as u32;
    ||| 0x09 <= u <= 0x0D
    ||| u == 0x20
    ||| u == 0x85
    ||| u == 0xA0
    ||| u == 0x1680
    ||| 0x2000 <= u <= 0x200A
    ||| u == 0x2028
    ||| u == 0x2029
    ||| u == 0x202F
    ||| u == 0x205F
    ||| u == 0x3000
}

/// Executable test of the Unicode `White_Space` property.
pub fn char_is_space(c: char) -> (b: bool)
    ensures
        b == is_space(c),
{
    let u = c as u32;
    (0x09 <= u && u <= 0x0D) || u == 0x20 || u == 0x85 || u == 0xA0 || u == 0x1680 || (0x2000
        <= u && u <= 0x200A) || u == 0x2028 || u == 0x2029 || u == 0x202F || u == 0x205F || u
        == 0x3000
}

/// `s` without its leading white space.
pub open spec fn trim_start(s: Seq<char>) -> Seq<char>
    decreases s.len(),
{
    if s.len() > 0 && is_space(s[0]) {
        trim_start(s.drop_first())
    } else {
        s
    }
}

/// `s` without its trailing white space.
pub open spec fn trim_end(s: Seq<char>) -> Seq<char>
    decreases s.len(),
{
    if s.len() > 0 && is_space(s.last()) {
        trim_end(s.drop_last())
    } else {
        s
    }
}

/// `s` without leading and trailing white space (`str::trim`).
pub open spec fn trim(s: Seq<char>) -> Seq<char> {
    trim_end(trim_start(s))
}

proof fn lemma_trim_start_skip(s: Seq<char>, i: int)
    requires
        0 <= i < s.len(),
        is_space(s[i]),
    ensures
        trim_start(s.skip(i)) == trim_start(s.skip(i + 1)),
{
    assert(s.skip(i).drop_first() == s.skip(i + 1));
}

/// Whether the trimmed characters of `s` are exactly `word`.
pub fn trimmed_equals(s: &[char], word: &[char]) -> (b: bool)
    ensures
        b == (trim(s@) == word@),
{
    let mut i: usize = 0;
    proof {
        assert(s@.skip(0) == s@);
    }
    while i < s.len() && char_is_space(s[i])
        invariant
            i <= s.len(),
            trim_start(s@) == trim_start(s@.skip(i as int)),
        decreases s.len() - i,
    {
        proof {
            lemma_trim_start_skip(s@, i as int);
        }
        i = i + 1;
    }
    let ghost front = s@.skip(i as int);
    proof {
        if i < s.len() {
            assert(front.len() > 0 && !is_space(front[0]));
        }
        assert(trim_start(front) == front);
    }
    let mut j: usize = s.len();
    while j > i && char_is_space(s[j - 1])
        invariant
            i <= j <= s.len(),
            front == s@.skip(i as int),
            trim(s@) == trim_end(s@.subrange(i as int, j as int)),
        decreases j,
    {
        proof {
            let t = s@.subrange(i as int, j as int);
            assert(t.drop_last() == s@.subrange(i as int, j - 1));
        }
        j = j - 1;
    }
    proof {
        let t = s@.subrange(i as int, j as int);
        if j > i {
            assert(t.last() == s@[j - 1]);
        }
        assert(trim_end(t) == t);
        assert(trim(s@) == t);
    }
    if j - i != word.len() {
        return false;
    }
    let mut k: usize = 0;
    while k < word.len()
        invariant
            i <= j <= s.len(),
            j - i == word.len(),
            trim(s@) == s@.subrange(i as int, j as int),
            k <= word.len(),
            forall|m: int| 0 <= m < k ==> s@[i + m] == word@[m],
        decreases word.len() - k,
    {
        if s[i + k] != word[k] {
            proof {
                assert(s@.subrange(i as int, j as int)[k as int] != word@[k as int]);
            }
            return false;
        }
        k = k + 1;
    }
    proof {
        assert(s@.subrange(i as int, j as int) =~= word@);
    }
    true
}


/// An ASCII decimal digit.
pub open spec fn is_digit(c: char) -> bool {
    48 <= (c as u32) <= 57
}

/// The value of an ASCII decimal digit.
pub open spec fn digit_value(c: char) -> nat {
    ((c as u32) - 48) as nat
}

/// Every character of `s` is an ASCII decimal digit.
pub open spec fn all_digits(s: Seq<char>) -> bool {
    forall|i: int| 0 <= i < s.len() ==> is_digit(#[trigger] s[i])
}

/// The number written by the decimal digits `s`, most significant first.
pub open spec fn digits_value(s: Seq<char>) -> nat
    decreases s.len(),
{
    if s.len() == 0 {
        0
    } else {
        digits_value(s.drop_last()) * 10 + digit_value(s.last())
    }
}

/// Unsigned decimal text: one or more ASCII digits (leading zeros allowed).
pub open spec fn parse_unsigned(s: Seq<char>) -> Option<nat> {
    if s.len() > 0 && all_digits(s) {
        Some(digits_value(s))
    } else {
        None
    }
}

/// Signed decimal text: an optional `-` followed by unsigned decimal text.
pub open spec fn parse_signed(s: Seq<char>) -> Option<int> {
    if s.len() > 0 && s[0] == '-' {
        match parse_unsigned(s.drop_first()) {
            Some(n) => Some(-n),
            None => None,
        }
    } else {
        match parse_unsigned(s) {
            Some(n) => Some(n as int),
            None => None,
        }
    }
}

/// Decimal text read as a `u32`: unsigned text whose value fits.
pub open spec fn parse_u32_text(s: Seq<char>) -> Option<u32> {
    match parse_unsigned(s) {
        Some(n) => if n <= u32::MAX {
            Some(n as u32)
        } else {
            None
        },
        None => None,
    }
}

/// Decimal text read as an `i32`: signed text whose value fits.
pub open spec fn parse_i32_text(s: Seq<char>) -> Option<i32> {
    match parse_signed(s) {
        Some(n) => if i32::MIN <= n <= i32::MAX {
            Some(n as i32)
        } else {
            None
        },
        None => None,
    }
}

/// The ASCII digit for a value below ten.
pub open spec fn digit_char(d: nat) -> char {
    ((d + 48) as u32) as char
}

/// Shortest decimal text of a natural number.
pub open spec fn nat_text(n: nat) -> Seq<char>
    decreases n,
{
    if n < 10 {
        seq![digit_char(n)]
    } else {
        nat_text(n / 10) + seq![digit_char(n % 10)]
    }
}

/// Decimal text of an integer, with a leading `-` when negative (as `{}` prints it).
pub open spec fn int_text(x: int) -> Seq<char> {
    if x < 0 {
        seq!['-'] + nat_text((-x) as nat)
    } else {
        nat_text(x as nat)
    }
}

/// The value of the digits `s[lo..hi]`, or `limit + 1` when that value exceeds
/// `limit`; `None` when the range is empty or holds a character that is not a digit.
fn digits_in(s: &[char], lo: usize, hi: usize, limit: u64) -> (r: Option<u64>)
    requires
        lo <= hi <= s.len(),
        limit < 0x1000_0000_0000_0000,
    ensures
        r is None <==> parse_unsigned(s@.subrange(lo as int, hi as int)) is None,
        r matches Some(x) ==> x == if digits_value(s@.subrange(lo as int, hi as int)) <= limit {
            digits_value(s@.subrange(lo as int, hi as int)) as int
        } else {
            limit + 1
        },
{
    if lo == hi {
        return None;
    }
    let mut acc: u64 = 0;
    let mut i: usize = lo;
    proof {
        assert(s@.subrange(lo as int, lo as int).len() == 0);
    }
    while i < hi
        invariant
            lo <= i <= hi <= s.len(),
            limit < 0x1000_0000_0000_0000,
            all_digits(s@.subrange(lo as int, i as int)),
            acc == if digits_value(s@.subrange(lo as int, i as int)) <= limit {
                digits_value(s@.subrange(lo as int, i as int)) as int
            } else {
                limit + 1
            },
        decreases hi - i,
    {
        let c = s[i];
        let u = c as u32;
        if u < 48 || u > 57 {
            proof {
                let t = s@.subrange(lo as int, hi as int);
                assert(t[i - lo] == c);
                assert(!all_digits(t));
            }
            return None;
        }
        let ghost prev = s@.subrange(lo as int, i as int);
        let ghost next = s@.subrange(lo as int, i + 1);
        proof {
            assert(next.drop_last() == prev);
            assert(next.last() == c);
            assert(digits_value(next) == digits_value(prev) * 10 + digit_value(c));
            assert forall|m: int| 0 <= m < next.len() implies is_digit(#[trigger] next[m]) by {
                if m < prev.len() {
                    assert(next[m] == prev[m]);
                }
            }
        }
        let d = (u - 48) as u64;
        if acc > limit {
            acc = limit + 1;
        } else {
            let v = acc * 10 + d;
            acc = if v > limit {
                limit + 1
            } else {
                v
            };
        }
        i = i + 1;
    }
    Some(acc)
}

/// `s[lo..hi]` read as a `u32` decimal number (`-` not allowed).
pub fn parse_u32_in(s: &[char], lo: usize, hi: usize) -> (r: Option<u32>)
    requires
        lo <= hi <= s.len(),
    ensures
        r == parse_u32_text(s@.subrange(lo as int, hi as int)),
{
    match digits_in(s, lo, hi, 0xFFFF_FFFF) {
        Some(x) => if x <= 0xFFFF_FFFF {
            Some(x as u32)
        } else {
            None
        },
        None => None,
    }
}

/// `s[lo..hi]` read as an `i32` decimal number with an optional leading `-`.
pub fn parse_i32_in(s: &[char], lo: usize, hi: usize) -> (r: Option<i32>)
    requires
        lo <= hi <= s.len(),
    ensures
        r == parse_i32_text(s@.subrange(lo as int, hi as int)),
{
    let ghost t = s@.subrange(lo as int, hi as int);
    if lo < hi && s[lo] == '-' {
        proof {
            assert(t[0] == '-');
            assert(t.drop_first() == s@.subrange(lo + 1, hi as int));
        }
        match digits_in(s, lo + 1, hi, 0x8000_0000) {
            Some(x) => if x <= 0x8000_0000 {
                Some((0 - (x as i64)) as i32)
            } else {
                None
            },
            None => None,
        }
    } else {
        proof {
            if lo < hi {
                assert(t[0] == s@[lo as int]);
            }
        }
        match digits_in(s, lo, hi, 0x7FFF_FFFF) {
            Some(x) => if x <= 0x7FFF_FFFF {
                Some(x as i32)
            } else {
                None
            },
            None => None,
        }
    }
}

/// Appends the decimal text of `n`.
pub fn push_nat_text(v: &mut Vec<char>, n: u64)
    ensures
        final(v)@ == old(v)@ + nat_text(n as nat),
    decreases n,
{
    if n >= 10 {
        push_nat_text(v, n / 10);
    }
    let d = (n % 10) as u32 + 48;
    v.push(char_from_digit(d));
    proof {
        assert(d as char == digit_char((n % 10) as nat));
    }
}

fn char_from_digit(u: u32) -> (c: char)
    requires
        48 <= u <= 57,
    ensures
        c == u as char,
        c as u32 == u,
{
    match u {
        48 => '0',
        49 => '1',
        50 => '2',
        51 => '3',
        52 => '4',
        53 => '5',
        54 => '6',
        55 => '7',
        56 => '8',
        _ => '9',
    }
}

/// The decimal text of `n`, padded on the left with `0` to at least `width`
/// characters.
pub open spec fn padded_text(n: nat, width: nat) -> Seq<char> {
    let t = nat_text(n);
    let zeros: nat = if t.len() < width {
        (width - t.len()) as nat
    } else {
        0
    };
    Seq::new(zeros, |i: int| '0') + t
}

/// Appends the decimal text of `n`, padded on the left with `0` to at least
/// `width` characters.
pub fn push_padded_text(v: &mut Vec<char>, n: u64, width: usize)
    ensures
        final(v)@ == old(v)@ + padded_text(n as nat, width as nat),
{
    let mut digits: Vec<char> = Vec::new();
    push_nat_text(&mut digits, n);
    let ghost start = v@;
    let mut i: usize = digits.len();
    let ghost zeros: nat = if digits@.len() < width {
        (width - digits@.len()) as nat
    } else {
        0
    };
    while i < width
        invariant
            digits@ == nat_text(n as nat),
            digits@.len() <= i,
            i <= width || i == digits@.len(),
            zeros == (if digits@.len() < width {
                (width - digits@.len()) as nat
            } else {
                0
            }),
            v@ == start + Seq::new((i - digits@.len()) as nat, |k: int| '0'),
        decreases width - i,
    {
        v.push('0');
        proof {
            assert(v@ =~= start + Seq::new((i + 1 - digits@.len()) as nat, |k: int| '0'));
        }
        i = i + 1;
    }
    proof {
        assert(Seq::new((i - digits@.len()) as nat, |k: int| '0') =~= Seq::new(
            zeros,
            |k: int| '0',
        ));
    }
    push_chars(v, digits.as_slice());
    proof {
        assert(v@ =~= old(v)@ + padded_text(n as nat, width as nat));
    }
}

/// Appends the decimal text of `x`, with a leading `-` when negative.
pub fn push_int_text(v: &mut Vec<char>, x: i64)
    ensures
        final(v)@ == old(v)@ + int_text(x as int),
{
    if x < 0 {
        v.push('-');
        let m: u64 = if x == i64::MIN {
            0x8000_0000_0000_0000
        } else {
            (0 - x) as u64
        };
        push_nat_text(v, m);
        proof {
            assert(final(v)@ =~= old(v)@ + (seq!['-'] + nat_text((-x) as nat)));
        }
    } else {
        push_nat_text(v, x as u64);
    }
}

pub proof fn lemma_nat_text_digits(n: nat)
    ensures
        nat_text(n).len() > 0,
        all_digits(nat_text(n)),
        digits_value(nat_text(n)) == n,
    decreases n,
{
    let t = nat_text(n);
    if n < 10 {
        assert(t.drop_last().len() == 0);
        assert(digits_value(t.drop_last()) == 0);
    } else {
        lemma_nat_text_digits(n / 10);
        let p = nat_text(n / 10);
        assert(t.drop_last() == p);
        assert forall|i: int| 0 <= i < t.len() implies is_digit(#[trigger] t[i]) by {
            if i < p.len() {
                assert(t[i] == p[i]);
            }
        }
    }
}

/// Reading back the decimal text of a natural number gives the number.
pub proof fn lemma_parse_nat_text(n: nat)
    ensures
        parse_unsigned(nat_text(n)) == Some(n),
{
    lemma_nat_text_digits(n);
}

/// Reading back the decimal text of an integer gives the integer.
pub proof fn lemma_parse_int_text(x: int)
    ensures
        parse_signed(int_text(x)) == Some(x),
{
    if x < 0 {
        let t = int_text(x);
        lemma_nat_text_digits((-x) as nat);
        assert(t.drop_first() == nat_text((-x) as nat));
    } else {
        lemma_nat_text_digits(x as nat);
        assert(is_digit(nat_text(x as nat)[0]));
    }
}


/// `s` begins with `p`.
pub open spec fn starts_with(s: Seq<char>, p: Seq<char>) -> bool {
    s.len() >= p.len() && s.take(p.len() as int) == p
}

/// Whether `s` begins with the characters `p`.
pub fn has_prefix(s: &[char], p: &[char]) -> (b: bool)
    ensures
        b == starts_with(s@, p@),
{
    if s.len() < p.len() {
        return false;
    }
    let mut i: usize = 0;
    while i < p.len()
        invariant
            p.len() <= s.len(),
            i <= p.len(),
            forall|m: int| 0 <= m < i ==> s@[m] == p@[m],
        decreases p.len() - i,
    {
        if s[i] != p[i] {
            proof {
                assert(s@.take(p.len() as int)[i as int] != p@[i as int]);
            }
            return false;
        }
        i = i + 1;
    }
    proof {
        assert(s@.take(p.len() as int) =~= p@);
    }
    true
}

/// The position of the first `c` in `s`, if any.
pub open spec fn first_index_of(s: Seq<char>, c: char) -> Option<int> {
    if exists|k: int| 0 <= k < s.len() && s[k] == c && forall|m: int| 0 <= m < k ==> s[m] != c {
        Some(
            choose|k: int|
                0 <= k < s.len() && s[k] == c && forall|m: int| 0 <= m < k ==> s[m] != c,
        )
    } else {
        None
    }
}

/// The position of the first `c` at or after `from` in `s`, if any.
pub fn find_char(s: &[char], from: usize, c: char) -> (r: Option<usize>)
    requires
        from <= s.len(),
    ensures
        r matches Some(k) ==> from <= k < s.len() && s@[k as int] == c && first_index_of(s@.skip(from as int), c) == Some(
            k - from,
        ),
        r is None ==> first_index_of(s@.skip(from as int), c) is None,
{
    let ghost t = s@.skip(from as int);
    let mut i: usize = from;
    while i < s.len()
        invariant
            from <= i <= s.len(),
            t == s@.skip(from as int),
            forall|m: int| 0 <= m < i - from ==> t[m] != c,
        decreases s.len() - i,
    {
        if s[i] == c {
            proof {
                let k = i - from;
                assert(t[k] == c);
                let w = choose|w: int|
                    0 <= w < t.len() && t[w] == c && forall|m: int| 0 <= m < w ==> t[m] != c;
                if w < k {
                    assert(t[w] != c);
                }
                if k < w {
                    assert(t[k] != c);
                }
            }
            return Some(i);
        }
        i = i + 1;
    }
    proof {
        if exists|k: int|
            0 <= k < t.len() && t[k] == c && forall|m: int| 0 <= m < k ==> t[m] != c {
            let w = choose|w: int|
                0 <= w < t.len() && t[w] == c && forall|m: int| 0 <= m < w ==> t[m] != c;
            assert(t[w] != c);
        }
    }
    None
}

/// Appends the characters of `p`.
pub fn push_chars(v: &mut Vec<char>, p: &[char])
    ensures
        final(v)@ == old(v)@ + p@,
{
    let ghost start = v@;
    let mut i: usize = 0;
    while i < p.len()
        invariant
            i <= p.len(),
            v@ == start + p@.take(i as int),
        decreases p.len() - i,
    {
        v.push(p[i]);
        i = i + 1;
        proof {
            assert(v@ == start + p@.take(i as int));
        }
    }
    proof {
        assert(p@.take(p.len() as int) == p@);
    }
}


/// Characterises `first_index_of` by a witness.
pub proof fn lemma_first_index(s: Seq<char>, c: char, k: int)
    requires
        0 <= k < s.len(),
        s[k] == c,
        forall|m: int| 0 <= m < k ==> s[m] != c,
    ensures
        first_index_of(s, c) == Some(k),
{
    let w = choose|w: int| 0 <= w < s.len() && s[w] == c && forall|m: int| 0 <= m < w ==> s[m] != c;
    if w < k {
        assert(s[w] != c);
    }
    if k < w {
        assert(s[k] != c);
    }
}

/// Text that neither begins nor ends with white space is its own trim.
pub proof fn lemma_trim_identity(s: Seq<char>)
    requires
        s.len() > 0,
        !is_space(s[0]),
        !is_space(s.last()),
    ensures
        trim(s) == s,
{
}

/// Bytes of the UTF-8 encoding of a character.
pub open spec fn utf8_width(c: char) -> nat {
    if (c as u32) < 0x80 {
        1
    } else if (c as u32) < 0x800 {
        2
    } else if (c as u32) < 0x10000 {
        3
    } else {
        4
    }
}

/// Bytes of the UTF-8 encoding of a text.
pub open spec fn utf8_len(s: Seq<char>) -> nat
    decreases s.len(),
{
    if s.len() == 0 {
        0
    } else {
        utf8_len(s.drop_last()) + utf8_width(s.last())
    }
}

} // verus!
