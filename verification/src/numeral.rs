//! Decimal numerals: the text a measured value is shown as, read back as a
//! number so that it can be compared with whole limits.
//!
//! A numeral is an optional minus sign, one or more digits, and optionally a
//! point followed by one or more digits. `inf` and `-inf` stand for the two
//! infinities. Any other text, `NaN` among it, is not a number.

use vstd::prelude::*;
use crate::text::{chars_of, decimal_text, digit_char, text_is};

verus! {

/// What a numeral denotes, as far as comparing it with whole numbers needs:
/// its sign, the whole part of its absolute value, and whether a non-zero
/// fraction follows.
pub ghost struct Decimal {
    pub negative: bool,
    pub infinite: bool,
    pub whole: nat,
    pub partial: bool,
}

/// Whether `c` is one of the ten decimal digits.
pub open spec fn is_digit(c: char) -> bool {
    '0' <= c && c <= '9'
}

/// The number that the digit `c` writes.
pub open spec fn digit_value(c: char) -> nat {
    (c as u32 - '0' as u32) as nat
}

/// Whether `s` is one or more digits.
pub open spec fn all_digits(s: Seq<char>) -> bool {
    s.len() > 0 && forall|i: int| 0 <= i < s.len() ==> is_digit(#[trigger] s[i])
}

/// Whether some character of `s` is not `0`.
pub open spec fn has_nonzero(s: Seq<char>) -> bool {
    exists|i: int| 0 <= i < s.len() && #[trigger] s[i] != '0'
}

/// The number that a run of digits writes.
pub open spec fn digits_value(s: Seq<char>) -> nat
    decreases s.len(),
{
    if s.len() == 0 {
        0
    } else {
        10 * digits_value(s.drop_last()) + digit_value(s.last())
    }
}

/// How many digits `s` starts with.
pub open spec fn leading_digits(s: Seq<char>) -> nat
    decreases s.len(),
{
    if s.len() == 0 || !is_digit(s[0]) {
        0
    } else {
        1 + leading_digits(s.drop_first())
    }
}

/// Reads `s` as a numeral without sign.
pub open spec fn unsigned_numeral(s: Seq<char>) -> Option<Decimal> {
    let k = leading_digits(s) as int;
    let whole = digits_value(s.subrange(0, k));
    if k == 0 {
        None
    } else if k == s.len() {
        Some(Decimal { negative: false, infinite: false, whole, partial: false })
    } else if s[k] == '.' && all_digits(s.subrange(k + 1, s.len() as int)) {
        Some(
            Decimal {
                negative: false,
                infinite: false,
                whole,
                partial: has_nonzero(s.subrange(k + 1, s.len() as int)),
            },
        )
    } else {
        None
    }
}

/// Reads `s` as a numeral; `None` where it is not a number.
pub open spec fn numeral(s: Seq<char>) -> Option<Decimal> {
    if s == "inf"@ {
        Some(Decimal { negative: false, infinite: true, whole: 0, partial: false })
    } else if s == "-inf"@ {
        Some(Decimal { negative: true, infinite: true, whole: 0, partial: false })
    } else if s.len() > 0 && s[0] == '-' {
        match unsigned_numeral(s.drop_first()) {
            Some(d) => Some(Decimal { negative: true, ..d }),
            None => None,
        }
    } else {
        unsigned_numeral(s)
    }
}

impl Decimal {
    /// Whether the number is zero, of either sign.
    pub open spec fn is_zero(self) -> bool {
        !self.infinite && self.whole == 0 && !self.partial
    }

    /// Whether the number is less than `limit`.
    pub open spec fn below(self, limit: nat) -> bool {
        if self.negative {
            limit > 0 || !self.is_zero()
        } else {
            !self.infinite && self.whole < limit
        }
    }

    /// Whether the number is at most `limit`.
    pub open spec fn at_most(self, limit: nat) -> bool {
        if self.negative {
            true
        } else {
            !self.infinite && (self.whole < limit || (self.whole == limit && !self.partial))
        }
    }

    /// Whether the number is greater than `limit`.
    pub open spec fn above(self, limit: nat) -> bool {
        !self.negative && (self.infinite || self.whole > limit || (self.whole == limit
            && self.partial))
    }

    /// The same number with its whole part held to at most `cap`.
    pub open spec fn capped(self, cap: nat) -> Decimal {
        Decimal { whole: if self.whole > cap { cap } else { self.whole }, ..self }
    }
}

/// A number is at most a limit exactly when it is not above it, and what is
/// below a limit is at most it.
pub proof fn lemma_comparisons_are_exclusive(d: Decimal, limit: nat)
    ensures
        d.at_most(limit) <==> !d.above(limit),
        d.below(limit) ==> d.at_most(limit),
{
}

/// Comparing with a limit under the cap is not changed by capping.
pub proof fn lemma_capped_compares_alike(d: Decimal, cap: nat, limit: nat)
    requires
        limit < cap,
    ensures
        d.capped(cap).below(limit) == d.below(limit),
        d.capped(cap).at_most(limit) == d.at_most(limit),
        d.capped(cap).above(limit) == d.above(limit),
{
}

/// The decimal rendering of a natural number is made of digits and writes that number.
pub proof fn lemma_decimal_text_is_digits(n: nat)
    ensures
        all_digits(decimal_text(n)),
        digits_value(decimal_text(n)) == n,
    decreases n,
{
    let s = decimal_text(n);
    if n < 10 {
        assert(s =~= seq![digit_char(n)]);
        assert(s.drop_last() =~= Seq::<char>::empty());
        assert(digits_value(s.drop_last()) == 0);
    } else {
        lemma_decimal_text_is_digits(n / 10);
        assert(s.drop_last() =~= decimal_text(n / 10));
        assert(s.last() == digit_char(n % 10));
        assert forall|i: int| 0 <= i < s.len() implies is_digit(#[trigger] s[i]) by {
            if i < s.len() - 1 {
                assert(s[i] == decimal_text(n / 10)[i]);
            }
        }
    }
}

/// Reading back the decimal rendering of a natural number gives that number,
/// without sign and without fraction.
pub proof fn lemma_numeral_reads_decimal_text(n: nat)
    ensures
        numeral(decimal_text(n)) == Some(
            Decimal { negative: false, infinite: false, whole: n, partial: false },
        ),
{
    let s = decimal_text(n);
    lemma_decimal_text_is_digits(n);
    lemma_leading_digits(s, s.len() as int);
    assert(s.subrange(0, s.len() as int) =~= s);
    assert(is_digit(s[0]));
    reveal_strlit("inf");
    reveal_strlit("-inf");
    assert("inf"@[0] == 'i');
    assert("-inf"@[0] == '-');
}

/// Reading back the decimal rendering of a natural number, a point and a run
/// of digits gives that number as the whole part, with a fraction exactly
/// where one of the digits is not zero.
pub proof fn lemma_numeral_reads_fraction(n: nat, fraction: Seq<char>)
    requires
        all_digits(fraction),
    ensures
        numeral(decimal_text(n) + seq!['.'] + fraction) == Some(
            Decimal { negative: false, infinite: false, whole: n, partial: has_nonzero(fraction) },
        ),
{
    let whole = decimal_text(n);
    let s = whole + seq!['.'] + fraction;
    let k = whole.len() as int;
    lemma_decimal_text_is_digits(n);
    assert forall|i: int| 0 <= i < k implies is_digit(#[trigger] s[i]) by {
        assert(s[i] == whole[i]);
    }
    assert(s[k] == '.');
    lemma_leading_digits(s, k);
    assert(s.subrange(0, k) =~= whole);
    assert(s.subrange(k + 1, s.len() as int) =~= fraction);
    assert(is_digit(s[0]));
    reveal_strlit("inf");
    reveal_strlit("-inf");
    assert("inf"@[0] == 'i');
    assert("-inf"@[0] == '-');
}

/// The largest whole part that [`parse_numeral`] tells apart; larger ones are held to it.
pub const WHOLE_CAP: u32 = 1_000_000;

/// A numeral as read: like [`Decimal`], with the whole part held to [`WHOLE_CAP`].
#[derive(Clone, Copy, Debug, PartialEq, Eq)]
pub struct Quantity {
    pub negative: bool,
    pub infinite: bool,
    pub whole: u32,
    pub partial: bool,
}

impl View for Quantity {
    type V = Decimal;

    open spec fn view(&self) -> Decimal {
        Decimal {
            negative: self.negative,
            infinite: self.infinite,
            whole: self.whole as nat,
            partial: self.partial,
        }
    }
}

/// The view of what was read, if anything.
pub open spec fn quantity_view(q: Option<Quantity>) -> Option<Decimal> {
    match q {
        Some(q) => Some(q@),
        None => None,
    }
}

/// A numeral with its whole part held to [`WHOLE_CAP`].
pub open spec fn capped_numeral(s: Seq<char>) -> Option<Decimal> {
    match numeral(s) {
        Some(d) => Some(d.capped(WHOLE_CAP as nat)),
        None => None,
    }
}

impl Quantity {
    /// Whether the number is less than `limit`.
    pub fn below(&self, limit: u32) -> (r: bool)
        ensures
            r == self@.below(limit as nat),
    {
        if self.negative {
            limit > 0 || self.infinite || self.whole != 0 || self.partial
        } else {
            !self.infinite && self.whole < limit
        }
    }

    /// Whether the number is at most `limit`.
    pub fn at_most(&self, limit: u32) -> (r: bool)
        ensures
            r == self@.at_most(limit as nat),
    {
        if self.negative {
            true
        } else {
            !self.infinite && (self.whole < limit || (self.whole == limit && !self.partial))
        }
    }
}

proof fn lemma_leading_digits(s: Seq<char>, k: int)
    requires
        0 <= k <= s.len(),
        forall|i: int| 0 <= i < k ==> is_digit(#[trigger] s[i]),
        k < s.len() ==> !is_digit(s[k]),
    ensures
        leading_digits(s) == k,
    decreases k,
{
    if k > 0 {
        let rest = s.drop_first();
        assert forall|i: int| 0 <= i < k - 1 implies is_digit(#[trigger] rest[i]) by {
            assert(rest[i] == s[i + 1]);
        }
        lemma_leading_digits(rest, k - 1);
    }
}

fn digit_at(chars: &Vec<char>, i: usize) -> (r: Option<u32>)
    requires
        i < chars.len(),
    ensures
        r is Some <==> is_digit(chars[i as int]),
        r matches Some(d) ==> d == digit_value(chars[i as int]) && d <= 9,
{
    let c = chars[i];
    if '0' <= c && c <= '9' {
        Some(c as u32 - '0' as u32)
    } else {
        None
    }
}

/// Reads the numeral without sign that starts at `start`.
fn parse_unsigned(chars: &Vec<char>, start: usize) -> (r: Option<Quantity>)
    requires
        start <= chars.len(),
    ensures
        quantity_view(r) == match unsigned_numeral(chars@.skip(start as int)) {
            Some(d) => Some(d.capped(WHOLE_CAP as nat)),
            None => None,
        },
{
    let ghost s = chars@.subrange(start as int, chars.len() as int);
    let n = chars.len();
    let mut i: usize = start;
    let mut whole: u32 = 0;
    let mut more: bool = true;
    while more && i < n
        invariant
            start <= i <= n,
            n == chars.len(),
            s == chars@.subrange(start as int, n as int),
            forall|j: int| 0 <= j < i - start ==> is_digit(#[trigger] s[j]),
            whole <= WHOLE_CAP,
            whole as nat == (if digits_value(s.subrange(0, i - start)) > WHOLE_CAP {
                WHOLE_CAP as nat
            } else {
                digits_value(s.subrange(0, i - start))
            }),
            !more ==> i < n && !is_digit(s[i - start]),
        decreases (if more { 1int } else { 0int }) + n - i,
    {
        match digit_at(chars, i) {
            Some(d) => {
                proof {
                    let next = s.subrange(0, i - start + 1);
                    assert(next.drop_last() =~= s.subrange(0, i - start));
                    assert(next.last() == s[i - start]);
                }
                whole = if whole >= WHOLE_CAP {
                    WHOLE_CAP
                } else if whole * 10 + d > WHOLE_CAP {
                    WHOLE_CAP
                } else {
                    whole * 10 + d
                };
                i = i + 1;
            },
            None => {
                more = false;
            },
        }
    }
    proof {
        lemma_leading_digits(s, i - start);
    }
    if i == start {
        None
    } else if i == n {
        Some(Quantity { negative: false, infinite: false, whole, partial: false })
    } else if chars[i] != '.' || i + 1 == n {
        proof {
            if s[i - start] == '.' {
                assert(s.subrange(i - start + 1, s.len() as int).len() == 0);
            }
        }
        None
    } else {
        let ghost tail = s.subrange(i - start + 1, s.len() as int);
        let mut j: usize = i + 1;
        let mut partial = false;
        while j < n
            invariant
                i + 1 <= j <= n,
                n == chars.len(),
                s == chars@.subrange(start as int, n as int),
                tail == s.subrange(i - start + 1, s.len() as int),
                start < i,
                leading_digits(s) == i - start,
                s[i - start] == '.',
                forall|k: int| 0 <= k < j - i - 1 ==> is_digit(#[trigger] tail[k]),
                partial <==> exists|k: int| 0 <= k < j - i - 1 && #[trigger] tail[k] != '0',
            decreases n - j,
        {
            match digit_at(chars, j) {
                Some(d) => {
                    assert(tail[j - i - 1] == chars[j as int]);
                    if d != 0 {
                        partial = true;
                    }
                    j = j + 1;
                },
                None => {
                    assert(tail[j - i - 1] == chars[j as int]);
                    return None;
                },
            }
        }
        Some(Quantity { negative: false, infinite: false, whole, partial })
    }
}

/// Reads `text` as a numeral, the whole part held to [`WHOLE_CAP`].
pub fn parse_numeral(text: &String) -> (r: Option<Quantity>)
    ensures
        quantity_view(r) == capped_numeral(text@),
{
    if text_is(text, "inf") {
        Some(Quantity { negative: false, infinite: true, whole: 0, partial: false })
    } else if text_is(text, "-inf") {
        Some(Quantity { negative: true, infinite: true, whole: 0, partial: false })
    } else {
        let chars = chars_of(text.as_str());
        if chars.len() > 0 && chars[0] == '-' {
            assert(chars@.skip(1) =~= text@.drop_first());
            match parse_unsigned(&chars, 1) {
                Some(q) => Some(Quantity { negative: true, ..q }),
                None => None,
            }
        } else {
            assert(chars@.skip(0) =~= text@);
            parse_unsigned(&chars, 0)
        }
    }
}

} // verus!
