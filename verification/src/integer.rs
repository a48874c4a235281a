//! Whole numbers of any size, as they are written in base ten.

use crate::text::{
    chars_of, decimal, digits_value, is_digit, lemma_decimal_reads_back,
    lemma_digits_value_nonnegative, slice_chars, unsigned_part,
};
use vstd::prelude::*;

verus! {

broadcast use vstd::string::group_string_axioms;

/// Every character of `s` is an ASCII digit.
pub open spec fn all_digits(s: Seq<char>) -> bool {
    forall|i: int| 0 <= i < s.len() ==> is_digit(#[trigger] s[i])
}

/// The whole number that `s` writes: an optional sign, then at least one
/// ASCII digit and nothing else. `None` otherwise. The number may be of any
/// size.
pub open spec fn parse_int_spec(s: Seq<char>) -> Option<int> {
    let body = unsigned_part(s);
    if body.len() == 0 || !all_digits(body) {
        None
    } else if s[0] == '-' {
        Some(-digits_value(body))
    } else {
        Some(digits_value(body))
    }
}

/// 1 for a number above zero, -1 for one below, 0 for zero.
pub open spec fn sign(x: int) -> int {
    if x > 0 {
        1
    } else if x < 0 {
        -1
    } else {
        0
    }
}

/// A number written in base ten reads as itself.
pub proof fn lemma_decimal_parses(n: nat)
    ensures
        parse_int_spec(decimal(n)) == Some(n as int),
{
    lemma_decimal_reads_back(n);
    assert(is_digit(decimal(n)[0]));
}

/// A string of digits with one more digit is worth ten times the string and
/// the digit.
proof fn lemma_next_digit(s: Seq<char>, k: int)
    requires
        0 <= k < s.len(),
        all_digits(s),
    ensures
        digits_value(s.take(k + 1)) == digits_value(s.take(k)) * 10 + (s[k] as int - 48),
        0 <= s[k] as int - 48 <= 9,
        0 <= digits_value(s.take(k)),
{
    assert(s.take(k + 1).drop_last() =~= s.take(k));
    assert(s.take(k + 1).last() == s[k]);
    assert(is_digit(s[k]));
    assert forall|i: int| 0 <= i < s.take(k).len() implies is_digit(#[trigger] s.take(k)[i]) by {
        assert(s.take(k)[i] == s[i]);
    }
    lemma_digits_value_nonnegative(s.take(k));
}

/// Compares what two strings of digits are worth, the first at least as
/// long as the second.
fn compare_aligned(long: &Vec<char>, short: &Vec<char>) -> (order: i8)
    requires
        long.len() >= short.len(),
        all_digits(long@),
        all_digits(short@),
    ensures
        order == sign(digits_value(long@) - digits_value(short@)),
{
    let ahead: usize = long.len() - short.len();
    let mut order: i8 = 0;
    let mut i: usize = 0;
    assert(digits_value(long@.take(0)) == 0);
    while i < ahead
        invariant
            i <= ahead <= long.len(),
            all_digits(long@),
            order == sign(digits_value(long@.take(i as int))),
        decreases ahead - i,
    {
        proof {
            lemma_next_digit(long@, i as int);
        }
        if long[i] != '0' {
            order = 1;
        }
        i = i + 1;
    }
    let mut k: usize = 0;
    assert(digits_value(short@.take(0)) == 0);
    while k < short.len()
        invariant
            k <= short.len(),
            ahead + short.len() == long.len(),
            all_digits(long@),
            all_digits(short@),
            order == sign(
                digits_value(long@.take(ahead + k)) - digits_value(short@.take(k as int)),
            ),
        decreases short.len() - k,
    {
        proof {
            lemma_next_digit(long@, ahead + k);
            lemma_next_digit(short@, k as int);
        }
        if order == 0 {
            let a: char = long[ahead + k];
            let b: char = short[k];
            if a > b {
                order = 1;
            } else if a < b {
                order = -1;
            }
        }
        k = k + 1;
    }
    assert(long@.take(long.len() as int) =~= long@);
    assert(short@.take(short.len() as int) =~= short@);
    order
}

/// Compares what two strings of digits are worth.
fn compare_digits(a: &Vec<char>, b: &Vec<char>) -> (order: i8)
    requires
        all_digits(a@),
        all_digits(b@),
    ensures
        order == sign(digits_value(a@) - digits_value(b@)),
{
    if a.len() >= b.len() {
        compare_aligned(a, b)
    } else {
        let reverse = compare_aligned(b, a);
        0 - reverse
    }
}

/// A whole number of any size: its sign and its digits in base ten.
#[derive(Debug)]
pub struct Integer {
    negative: bool,
    digits: Vec<char>,
}

impl View for Integer {
    type V = int;

    closed spec fn view(&self) -> int {
        if self.negative {
            -digits_value(self.digits@)
        } else {
            digits_value(self.digits@)
        }
    }
}

impl Integer {
    #[verifier::type_invariant]
    spec fn well_formed(self) -> bool {
        all_digits(self.digits@)
    }

    /// The number zero.
    pub fn zero() -> (n: Integer)
        ensures
            n@ == 0,
    {
        Integer { negative: false, digits: Vec::new() }
    }

    /// Reads a whole number written in base ten.
    pub fn parse(text: &str) -> (n: Option<Integer>)
        ensures
            match n {
                Some(value) => Some(value@),
                None => None,
            } == parse_int_spec(text@),
    {
        let s = chars_of(text);
        let negative: bool = s.len() > 0 && s[0] == '-';
        let start: usize = if s.len() > 0 && (s[0] == '+' || s[0] == '-') {
            1
        } else {
            0
        };
        let digits = slice_chars(&s, start, s.len());
        assert(digits@ =~= unsigned_part(s@)) by {
            assert(s@.subrange(start as int, s.len() as int) =~= s@.skip(start as int));
            assert(s@.skip(0) =~= s@);
        }
        if digits.len() == 0 {
            return None;
        }
        let mut i: usize = 0;
        while i < digits.len()
            invariant
                i <= digits.len(),
                digits@ == unsigned_part(text@),
                digits.len() > 0,
                forall|j: int| 0 <= j < i ==> is_digit(#[trigger] digits@[j]),
            decreases digits.len() - i,
        {
            let c: char = digits[i];
            if c < '0' || c > '9' {
                assert(!is_digit(digits@[i as int]));
                return None;
            }
            i = i + 1;
        }
        Some(Integer { negative, digits })
    }

    /// Compares two numbers: the result is 1 where `self` is the larger,
    /// -1 where it is the smaller, and 0 where the two are equal.
    pub fn compare(&self, other: &Integer) -> (order: i8)
        ensures
            order == sign(self@ - other@),
    {
        proof {
            use_type_invariant(self);
            use_type_invariant(other);
            lemma_digits_value_nonnegative(self.digits@);
            lemma_digits_value_nonnegative(other.digits@);
        }
        if self.negative == other.negative {
            if self.negative {
                compare_digits(&other.digits, &self.digits)
            } else {
                compare_digits(&self.digits, &other.digits)
            }
        } else {
            let nothing: Vec<char> = Vec::new();
            assert(digits_value(nothing@) == 0);
            let both_zero = compare_digits(&self.digits, &nothing) == 0 && compare_digits(
                &other.digits,
                &nothing,
            ) == 0;
            if both_zero {
                0
            } else if self.negative {
                -1
            } else {
                1
            }
        }
    }

    /// Says whether `self` is larger than `other`.
    pub fn exceeds(&self, other: &Integer) -> (larger: bool)
        ensures
            larger == (self@ > other@),
    {
        self.compare(other) == 1
    }

    /// Says whether `self` and `other` are the same number.
    pub fn equals(&self, other: &Integer) -> (same: bool)
        ensures
            same == (self@ == other@),
    {
        self.compare(other) == 0
    }

    /// A copy of the number.
    pub fn duplicate(&self) -> (copy: Integer)
        ensures
            copy@ == self@,
    {
        proof {
            use_type_invariant(self);
        }
        let digits = slice_chars(&self.digits, 0, self.digits.len());
        assert(digits@ =~= self.digits@);
        Integer { negative: self.negative, digits }
    }
}

} // verus!
