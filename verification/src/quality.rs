//! Quality ranges: the textual form `"<min>-<max>"`, its lenient parser, and the
//! single quality value that the lossy encoders share.
use vstd::prelude::*;
use crate::text::chars_of;

verus! {

/// Lower bound used when the first token of a quality range is missing or malformed.
pub const DEFAULT_MIN_QUALITY: u8 = 50;

/// Upper bound used when the second token of a quality range is missing or malformed.
pub const DEFAULT_MAX_QUALITY: u8 = 80;

/// Whether `c` is one of the ten ASCII digits.
pub open spec fn is_digit(c: char) -> bool {
    '0' <= c && c <= '9'
}

/// The number that an ASCII digit stands for.
pub open spec fn digit_value(c: char) -> nat {
    (c as nat - '0' as nat) as nat
}

/// Whether every character of `s` is an ASCII digit.
pub open spec fn all_digits(s: Seq<char>) -> bool {
    forall|i: int| 0 <= i < s.len() ==> is_digit(#[trigger] s[i])
}

/// The number that a sequence of digits denotes in base ten; the empty sequence denotes 0.
pub open spec fn digits_value(s: Seq<char>) -> nat
    decreases s.len(),
{
    if s.len() == 0 {
        0
    } else {
        digits_value(s.drop_last()) * 10 + digit_value(s.last())
    }
}

/// What is left of a token once one leading `+` sign, if there is one, is taken off.
pub open spec fn unsigned_part(t: Seq<char>) -> Seq<char> {
    if t.len() > 0 && t[0] == '+' {
        t.subrange(1, t.len() as int)
    } else {
        t
    }
}

/// The value of a token read as an unsigned 8-bit decimal numeral: an optional `+`,
/// then at least one digit, leading zeros allowed, the number at most 255.
/// Every other token has no value.
pub open spec fn token_value(t: Seq<char>) -> Option<u8> {
    let body = unsigned_part(t);
    if body.len() > 0 && all_digits(body) && digits_value(body) <= 255 {
        Some(digits_value(body) as u8)
    } else {
        None
    }
}

/// Whether `i` is where the first token of `s` ends: the position of the first `-`,
/// or the length of `s` where it holds none.
pub open spec fn is_token_end(s: Seq<char>, i: int) -> bool {
    &&& 0 <= i <= s.len()
    &&& forall|j: int| 0 <= j < i ==> #[trigger] s[j] != '-'
    &&& (i < s.len() ==> s[i] == '-')
}

/// The position at which the first token of `s` ends.
pub open spec fn token_end(s: Seq<char>) -> int
    decreases s.len(),
{
    if s.len() == 0 || s[0] == '-' {
        0
    } else {
        1 + token_end(s.drop_first())
    }
}

/// The first of the tokens that `s` falls into when it is cut at each `-`.
pub open spec fn first_token(s: Seq<char>) -> Seq<char> {
    s.subrange(0, token_end(s))
}

/// What follows the first `-` of `s`, if `s` holds one.
pub open spec fn after_first_token(s: Seq<char>) -> Option<Seq<char>> {
    if token_end(s) < s.len() {
        Some(s.subrange(token_end(s) + 1, s.len() as int))
    } else {
        None
    }
}

/// The second token of `s`, if `s` holds a `-`.
pub open spec fn second_token(s: Seq<char>) -> Option<Seq<char>> {
    match after_first_token(s) {
        Some(rest) => Some(first_token(rest)),
        None => None,
    }
}

/// The lower bound that `s` gives: the value of its first token, or the default.
pub open spec fn min_quality_of(s: Seq<char>) -> u8 {
    match token_value(first_token(s)) {
        Some(v) => v,
        None => DEFAULT_MIN_QUALITY,
    }
}

/// The upper bound that `s` gives: the value of its second token, or the default.
pub open spec fn max_quality_of(s: Seq<char>) -> u8 {
    match second_token(s) {
        Some(t) => match token_value(t) {
            Some(v) => v,
            None => DEFAULT_MAX_QUALITY,
        },
        None => DEFAULT_MAX_QUALITY,
    }
}

/// The pair of bounds that a quality string denotes. Each bound falls back to its
/// default on its own; tokens after the second are not looked at.
pub open spec fn quality_range_of(s: Seq<char>) -> (u8, u8) {
    (min_quality_of(s), max_quality_of(s))
}

/// The midpoint of the two bounds, rounded down. It does not depend on their order.
pub open spec fn midpoint(min: u8, max: u8) -> int {
    (min as int + max as int) / 2
}

/// The position at which the first token ends is the one position that
/// `is_token_end` accepts.
pub proof fn lemma_token_end(s: Seq<char>, i: int)
    requires
        is_token_end(s, i),
    ensures
        token_end(s) == i,
    decreases s.len(),
{
    if s.len() == 0 || s[0] == '-' {
        if i > 0 {
            assert(s[0] != '-');
        }
    } else {
        let t = s.drop_first();
        assert forall|j: int| 0 <= j < i - 1 implies #[trigger] t[j] != '-' by {
            assert(s[j + 1] != '-');
        }
        assert(is_token_end(t, i - 1));
        lemma_token_end(t, i - 1);
    }
}

/// A sequence of digits of which a prefix already denotes more than 255 denotes
/// more than 255 itself.
pub proof fn lemma_digits_value_grows(s: Seq<char>, k: int)
    requires
        0 <= k <= s.len(),
    ensures
        digits_value(s.subrange(0, k)) <= digits_value(s),
    decreases s.len() - k,
{
    if k == s.len() {
        assert(s.subrange(0, k) =~= s);
    } else {
        lemma_digits_value_grows(s.drop_last(), k);
        assert(s.drop_last().subrange(0, k) =~= s.subrange(0, k));
    }
}

/// The ASCII digit that stands for `d`.
pub open spec fn digit_char(d: nat) -> char {
    if d == 0 {
        '0'
    } else if d == 1 {
        '1'
    } else if d == 2 {
        '2'
    } else if d == 3 {
        '3'
    } else if d == 4 {
        '4'
    } else if d == 5 {
        '5'
    } else if d == 6 {
        '6'
    } else if d == 7 {
        '7'
    } else if d == 8 {
        '8'
    } else {
        '9'
    }
}

/// The decimal numeral of `n`, without sign or leading zeros.
pub open spec fn decimal(n: nat) -> Seq<char>
    decreases n,
{
    if n < 10 {
        seq![digit_char(n)]
    } else {
        decimal(n / 10).push(digit_char(n % 10))
    }
}

/// The decimal numeral of a number is a non-empty sequence of digits that denotes
/// that number.
pub proof fn lemma_decimal_denotes(n: nat)
    ensures
        decimal(n).len() > 0,
        all_digits(decimal(n)),
        digits_value(decimal(n)) == n,
    decreases n,
{
    if n < 10 {
        let s = decimal(n);
        assert(s.len() == 1);
        assert(s[0] == digit_char(n));
        assert(s.drop_last().len() == 0);
        assert(digits_value(s.drop_last()) == 0);
        assert(digit_value(s.last()) == n);
    } else {
        lemma_decimal_denotes(n / 10);
        let head = decimal(n / 10);
        let s = decimal(n);
        assert(s.drop_last() =~= head);
        assert(s.last() == digit_char(n % 10));
        assert(digit_value(s.last()) == n % 10);
        assert forall|i: int| 0 <= i < s.len() implies is_digit(#[trigger] s[i]) by {
            if i < head.len() {
                assert(s[i] == head[i]);
            }
        }
    }
}

/// A non-empty sequence of digits that denotes at most 255 is a token with that
/// value.
pub proof fn lemma_numeral_value(t: Seq<char>)
    requires
        t.len() > 0,
        all_digits(t),
        digits_value(t) <= 255,
    ensures
        token_value(t) == Some(digits_value(t) as u8),
        is_token_end(t, t.len() as int),
{
    assert(is_digit(t[0]));
    assert(unsigned_part(t) == t);
    assert forall|j: int| 0 <= j < t.len() implies #[trigger] t[j] != '-' by {
        assert(is_digit(t[j]));
    }
}

/// Two numerals with a `-` between them denote the pair of their values.
pub proof fn lemma_range_of_two_numerals(a: Seq<char>, b: Seq<char>)
    requires
        a.len() > 0,
        all_digits(a),
        digits_value(a) <= 255,
        b.len() > 0,
        all_digits(b),
        digits_value(b) <= 255,
    ensures
        quality_range_of(a + seq!['-'] + b) == (digits_value(a) as u8, digits_value(b) as u8),
{
    let s = a + seq!['-'] + b;
    lemma_numeral_value(a);
    lemma_numeral_value(b);
    assert forall|j: int| 0 <= j < a.len() implies #[trigger] s[j] != '-' by {
        assert(s[j] == a[j]);
    }
    assert(s[a.len() as int] == '-');
    assert(is_token_end(s, a.len() as int));
    lemma_token_end(s, a.len() as int);
    assert(first_token(s) =~= a);
    let rest = s.subrange(a.len() as int + 1, s.len() as int);
    assert(rest =~= b);
    lemma_token_end(b, b.len() as int);
    assert(first_token(b) =~= b);
}

/// One numeral alone denotes its value and the default upper bound.
pub proof fn lemma_range_of_one_numeral(a: Seq<char>)
    requires
        a.len() > 0,
        all_digits(a),
        digits_value(a) <= 255,
    ensures
        quality_range_of(a) == (digits_value(a) as u8, DEFAULT_MAX_QUALITY),
{
    lemma_numeral_value(a);
    lemma_token_end(a, a.len() as int);
    assert(first_token(a) =~= a);
}

/// For all `a` and `b` from 0 to 255, the string `"a-b"` denotes exactly `(a, b)`.
pub proof fn lemma_pair_is_read_back(a: u8, b: u8)
    ensures
        quality_range_of(decimal(a as nat) + seq!['-'] + decimal(b as nat)) == (a, b),
{
    lemma_decimal_denotes(a as nat);
    lemma_decimal_denotes(b as nat);
    lemma_range_of_two_numerals(decimal(a as nat), decimal(b as nat));
}

/// For all `a` from 0 to 255, the string `"a"` denotes `(a, 80)`.
pub proof fn lemma_single_is_read_back(a: u8)
    ensures
        quality_range_of(decimal(a as nat)) == (a, DEFAULT_MAX_QUALITY),
{
    lemma_decimal_denotes(a as nat);
    lemma_range_of_one_numeral(decimal(a as nat));
}

/// A string of which neither the first nor the second token is a numeral denotes
/// the defaults, `(50, 80)`; each bound falls back on its own.
pub proof fn lemma_malformed_gives_defaults(s: Seq<char>)
    ensures
        token_value(first_token(s)) is None ==> min_quality_of(s) == DEFAULT_MIN_QUALITY,
        second_token(s) is None ==> max_quality_of(s) == DEFAULT_MAX_QUALITY,
        second_token(s) matches Some(t) && token_value(t) is None ==> max_quality_of(s)
            == DEFAULT_MAX_QUALITY,
        token_value(first_token(s)) is None && (second_token(s) matches Some(t) ==> token_value(t)
            is None) ==> quality_range_of(s) == (DEFAULT_MIN_QUALITY, DEFAULT_MAX_QUALITY),
{
}

/// A string that holds neither a digit nor a `-` denotes the defaults.
pub proof fn lemma_no_digits_gives_defaults(s: Seq<char>)
    requires
        forall|i: int| 0 <= i < s.len() ==> !is_digit(#[trigger] s[i]) && s[i] != '-',
    ensures
        quality_range_of(s) == (DEFAULT_MIN_QUALITY, DEFAULT_MAX_QUALITY),
{
    lemma_token_end(s, s.len() as int);
    assert(first_token(s) =~= s);
    let body = unsigned_part(s);
    if body.len() > 0 {
        if s[0] == '+' {
            assert(body[0] == s[1]);
        } else {
            assert(body[0] == s[0]);
        }
        assert(!is_digit(body[0]));
    }
}

/// The midpoint is the same whichever bound comes first, and lies between them.
pub proof fn lemma_midpoint_ignores_order(min: u8, max: u8)
    ensures
        midpoint(min, max) == midpoint(max, min),
        min <= max ==> min <= midpoint(min, max) <= max,
        0 <= midpoint(min, max) <= 255,
{
}

/// Reads the digits `s[from..to)` as a number, if they are digits and the number fits.
fn parse_digits(s: &Vec<char>, from: usize, to: usize) -> (r: Option<u8>)
    requires
        from <= to <= s@.len(),
    ensures
        r == (if from < to && all_digits(s@.subrange(from as int, to as int)) && digits_value(
            s@.subrange(from as int, to as int),
        ) <= 255 {
            Some(digits_value(s@.subrange(from as int, to as int)) as u8)
        } else {
            None::<u8>
        }),
{
    if from == to {
        return None;
    }
    let ghost body = s@.subrange(from as int, to as int);
    let mut acc: u16 = 0;
    let mut i: usize = from;
    while i < to
        invariant
            from <= i <= to <= s@.len(),
            body == s@.subrange(from as int, to as int),
            all_digits(body.subrange(0, i - from)),
            acc as nat == digits_value(body.subrange(0, i - from)),
            acc <= 255,
        decreases to - i,
    {
        let c = s[i];
        let ghost pre = body.subrange(0, i - from);
        let ghost cur = body.subrange(0, i + 1 - from);
        proof {
            assert(cur.drop_last() =~= pre);
            assert(cur.last() == c);
            assert(body[i - from] == c);
        }
        if c < '0' || c > '9' {
            proof {
                assert(!is_digit(body[i - from]));
            }
            return None;
        }
        let d: u16 = (c as u32 - '0' as u32) as u16;
        let next: u16 = acc * 10 + d;
        proof {
            assert(next as nat == digits_value(cur));
            assert forall|j: int| 0 <= j < cur.len() implies is_digit(#[trigger] cur[j]) by {
                if j < pre.len() {
                    assert(cur[j] == pre[j]);
                }
            }
        }
        if next > 255 {
            proof {
                lemma_digits_value_grows(body, i + 1 - from);
            }
            return None;
        }
        acc = next;
        i = i + 1;
    }
    proof {
        assert(body.subrange(0, to - from) =~= body);
    }
    Some(acc as u8)
}

/// Reads the token `s[from..to)` as an unsigned 8-bit decimal numeral.
fn parse_token(s: &Vec<char>, from: usize, to: usize) -> (r: Option<u8>)
    requires
        from <= to <= s@.len(),
    ensures
        r == token_value(s@.subrange(from as int, to as int)),
{
    let ghost t = s@.subrange(from as int, to as int);
    if from < to && s[from] == '+' {
        proof {
            assert(t[0] == '+');
            assert(t.subrange(1, t.len() as int) =~= s@.subrange(from + 1, to as int));
        }
        parse_digits(s, from + 1, to)
    } else {
        proof {
            if from < to {
                assert(t[0] == s@[from as int]);
            }
        }
        parse_digits(s, from, to)
    }
}

/// Finds where the token that starts at `from` ends: at the next `-`, or at `len`.
fn scan_token(s: &Vec<char>, from: usize, len: usize) -> (end: usize)
    requires
        from <= len,
        len == s@.len(),
    ensures
        from <= end <= len,
        end - from == token_end(s@.subrange(from as int, len as int)),
{
    let ghost rest = s@.subrange(from as int, len as int);
    let mut i: usize = from;
    while i < len
        invariant
            from <= i <= len,
            len == s@.len(),
            rest == s@.subrange(from as int, len as int),
            forall|j: int| 0 <= j < i - from ==> #[trigger] rest[j] != '-',
        decreases len - i,
    {
        if s[i] == '-' {
            proof {
                assert(rest[i - from] == '-');
                lemma_token_end(rest, i - from);
            }
            return i;
        }
        proof {
            assert(rest[i - from] == s@[i as int]);
        }
        i = i + 1;
    }
    proof {
        lemma_token_end(rest, len - from);
    }
    len
}

/// Parses a quality range such as `"50-80"`.
///
/// The string is cut at each `-`. The first token gives the lower bound and the
/// second the upper bound; a token that is missing or is no unsigned 8-bit numeral
/// leaves its bound at the default, 50 or 80. No input is rejected, and the bounds
/// are not put in order.
pub fn parse_quality_range(s: &str) -> (r: (u8, u8))
    ensures
        r == quality_range_of(s@),
        r.0 == min_quality_of(s@),
        r.1 == max_quality_of(s@),
{
    let chars = chars_of(s);
    let len = chars.len();
    let end1 = scan_token(&chars, 0, len);
    proof {
        assert(s@.subrange(0, len as int) =~= s@);
    }
    let min = match parse_token(&chars, 0, end1) {
        Some(v) => v,
        None => DEFAULT_MIN_QUALITY,
    };
    if end1 == len {
        return (min, DEFAULT_MAX_QUALITY);
    }
    let start2 = end1 + 1;
    let end2 = scan_token(&chars, start2, len);
    proof {
        let rest = s@.subrange(start2 as int, len as int);
        assert(first_token(rest) =~= s@.subrange(start2 as int, end2 as int));
    }
    let max = match parse_token(&chars, start2, end2) {
        Some(v) => v,
        None => DEFAULT_MAX_QUALITY,
    };
    (min, max)
}

/// The one quality that drives the lossy encoders: the midpoint of the two bounds,
/// rounded down, whichever of them is the larger.
pub fn shared_quality(min: u8, max: u8) -> (q: u8)
    ensures
        q as int == midpoint(min, max),
        min <= max ==> min <= q <= max,
        max <= min ==> max <= q <= min,
{
    let sum: u16 = min as u16 + max as u16;
    (sum / 2) as u8
}

} // verus!
