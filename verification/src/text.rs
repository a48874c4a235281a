//! Character-level operations on strings, stated over `Seq<char>`.

use vstd::prelude::*;

verus! {

broadcast use vstd::string::group_string_axioms;

/// `String::push` appends one character to the end of the string.
pub assume_specification[ String::push ](s: &mut String, ch: char)
    ensures
        final(s)@ == old(s)@.push(ch),
;

/// The characters of `s`, in order.
pub fn chars_of(s: &str) -> (v: Vec<char>)
    ensures
        v@ == s@,
{
    let mut v: Vec<char> = Vec::new();
    for c in it: s.chars()
        invariant
            it.seq() == s@,
            v@ == it.seq().take(it.index()),
    {
        v.push(c);
        assert(v@ == it.seq().take(it.index() + 1));
    }
    assert(v@ == s@);
    v
}

/// The string whose characters are those of `v`, in order.
pub fn string_of(v: &Vec<char>) -> (s: String)
    ensures
        s@ == v@,
{
    let mut s = String::new();
    let mut i: usize = 0;
    while i < v.len()
        invariant
            i <= v.len(),
            s@ == v@.take(i as int),
        decreases v.len() - i,
    {
        s.push(v[i]);
        i = i + 1;
    }
    s
}

/// `pat` stands in `s` at index `i`.
pub open spec fn occurs_at(s: Seq<char>, pat: Seq<char>, i: int) -> bool {
    &&& 0 <= i
    &&& i + pat.len() <= s.len()
    &&& s.subrange(i, i + pat.len()) == pat
}

/// `pat` stands somewhere in `s`.
pub open spec fn contains(s: Seq<char>, pat: Seq<char>) -> bool {
    exists|i: int| #[trigger] occurs_at(s, pat, i)
}

/// `s` ends with `pat`.
pub open spec fn ends_with(s: Seq<char>, pat: Seq<char>) -> bool {
    occurs_at(s, pat, s.len() - pat.len())
}

/// What follows the last `delim` in `s`; all of `s` where it holds none.
pub open spec fn last_segment(s: Seq<char>, delim: char) -> Seq<char>
    decreases s.len(),
{
    if s.len() == 0 {
        s
    } else if s.last() == delim {
        Seq::empty()
    } else {
        last_segment(s.drop_last(), delim).push(s.last())
    }
}

/// What stands before the last `delim` in `s`; nothing where it holds none.
pub open spec fn before_last_segment(s: Seq<char>, delim: char) -> Seq<char> {
    let head = s.len() - last_segment(s, delim).len();
    if head <= 0 {
        Seq::empty()
    } else {
        s.take(head - 1)
    }
}

/// `s` with each occurrence of `from` replaced by `to`, found from the left
/// and without overlap. An empty `from` occurs nowhere.
pub open spec fn replace_all(s: Seq<char>, from: Seq<char>, to: Seq<char>) -> Seq<char>
    decreases s.len(),
{
    if from.len() == 0 || s.len() < from.len() {
        s
    } else if s.take(from.len() as int) == from {
        to + replace_all(s.skip(from.len() as int), from, to)
    } else {
        seq![s[0]] + replace_all(s.skip(1), from, to)
    }
}

/// Says whether `pat` stands in `s` at index `i`.
pub fn has_at(s: &Vec<char>, pat: &Vec<char>, i: usize) -> (found: bool)
    ensures
        found == occurs_at(s@, pat@, i as int),
{
    if pat.len() > s.len() || i > s.len() - pat.len() {
        return false;
    }
    let mut k: usize = 0;
    while k < pat.len()
        invariant
            k <= pat.len(),
            i + pat.len() <= s.len(),
            forall|j: int| 0 <= j < k ==> s@[i + j] == pat@[j],
        decreases pat.len() - k,
    {
        if s[i + k] != pat[k] {
            assert(s@.subrange(i as int, i + pat.len())[k as int] == s@[i + k]);
            return false;
        }
        k = k + 1;
    }
    assert(s@.subrange(i as int, i + pat.len()) =~= pat@);
    true
}

/// Says whether `pat` stands somewhere in `s`.
pub fn contains_chars(s: &Vec<char>, pat: &Vec<char>) -> (found: bool)
    ensures
        found == contains(s@, pat@),
{
    if pat.len() > s.len() {
        return false;
    }
    let last: usize = s.len() - pat.len();
    let mut i: usize = 0;
    loop
        invariant
            i <= last,
            last == s.len() - pat.len(),
            forall|j: int| 0 <= j < i ==> !occurs_at(s@, pat@, j),
        decreases last - i,
    {
        if has_at(s, pat, i) {
            return true;
        }
        if i == last {
            return false;
        }
        i = i + 1;
    }
}

/// Says whether `s` ends with `pat`.
pub fn ends_with_chars(s: &Vec<char>, pat: &Vec<char>) -> (found: bool)
    ensures
        found == ends_with(s@, pat@),
{
    if pat.len() > s.len() {
        return false;
    }
    has_at(s, pat, s.len() - pat.len())
}

/// The index at which the last segment of `s` begins.
pub fn last_segment_start(s: &Vec<char>, delim: char) -> (start: usize)
    ensures
        start <= s.len(),
        s@.skip(start as int) == last_segment(s@, delim),
        start == s.len() - last_segment(s@, delim).len(),
{
    let mut k: usize = s.len();
    assert(s@.take(k as int) =~= s@);
    assert(last_segment(s@, delim) =~= last_segment(s@.take(k as int), delim) + s@.skip(k as int));
    while k > 0 && s[k - 1] != delim
        invariant
            k <= s.len(),
            last_segment(s@, delim) == last_segment(s@.take(k as int), delim) + s@.skip(k as int),
        decreases k,
    {
        proof {
            let t = s@.take(k as int);
            assert(t.drop_last() =~= s@.take(k - 1));
            assert(last_segment(t, delim) == last_segment(s@.take(k - 1), delim).push(t.last()));
            assert(last_segment(s@.take(k - 1), delim).push(t.last()) + s@.skip(k as int)
                =~= last_segment(s@.take(k - 1), delim) + s@.skip(k - 1));
        }
        k = k - 1;
    }
    proof {
        let t = s@.take(k as int);
        assert(last_segment(t, delim) =~= Seq::<char>::empty());
        assert(last_segment(s@, delim) =~= s@.skip(k as int));
    }
    k
}

/// A copy of `s` from index `from` up to index `to`.
pub fn slice_chars(s: &Vec<char>, from: usize, to: usize) -> (out: Vec<char>)
    requires
        from <= to <= s.len(),
    ensures
        out@ == s@.subrange(from as int, to as int),
{
    let mut out: Vec<char> = Vec::new();
    let mut i: usize = from;
    while i < to
        invariant
            from <= i <= to,
            to <= s.len(),
            out@ == s@.subrange(from as int, i as int),
        decreases to - i,
    {
        out.push(s[i]);
        i = i + 1;
        assert(out@ =~= s@.subrange(from as int, i as int));
    }
    out
}

/// What follows the last `delim` in `s`.
pub fn last_segment_chars(s: &Vec<char>, delim: char) -> (out: Vec<char>)
    ensures
        out@ == last_segment(s@, delim),
{
    let start = last_segment_start(s, delim);
    let out = slice_chars(s, start, s.len());
    assert(s@.subrange(start as int, s.len() as int) =~= s@.skip(start as int));
    out
}

/// What stands before the last `delim` in `s`.
pub fn before_last_segment_chars(s: &Vec<char>, delim: char) -> (out: Vec<char>)
    ensures
        out@ == before_last_segment(s@, delim),
{
    let start = last_segment_start(s, delim);
    if start == 0 {
        Vec::new()
    } else {
        let out = slice_chars(s, 0, start - 1);
        assert(s@.subrange(0, start - 1) =~= s@.take(start - 1));
        out
    }
}

/// Replaces each occurrence of `from` in `s` by `to`.
pub fn replace_chars(s: &Vec<char>, from: &Vec<char>, to: &Vec<char>) -> (out: Vec<char>)
    ensures
        out@ == replace_all(s@, from@, to@),
{
    if from.len() == 0 {
        let out = slice_chars(s, 0, s.len());
        assert(s@.subrange(0, s.len() as int) =~= s@);
        return out;
    }
    let mut out: Vec<char> = Vec::new();
    let mut i: usize = 0;
    assert(s@.skip(0) =~= s@);
    assert(out@ + replace_all(s@, from@, to@) =~= replace_all(s@, from@, to@));
    while i < s.len()
        invariant
            i <= s.len(),
            from.len() > 0,
            replace_all(s@, from@, to@) == out@ + replace_all(s@.skip(i as int), from@, to@),
        decreases s.len() - i,
    {
        let ghost rest = s@.skip(i as int);
        let ghost before = out@;
        if has_at(s, from, i) {
            out.extend_from_slice(to.as_slice());
            proof {
                assert(rest.take(from.len() as int) =~= s@.subrange(i as int, i + from.len()));
                assert(rest.skip(from.len() as int) =~= s@.skip(i + from.len()));
                assert(out@ + replace_all(s@.skip(i + from.len()), from@, to@) =~= before + (to@
                    + replace_all(rest.skip(from.len() as int), from@, to@)));
            }
            i = i + from.len();
        } else {
            out.push(s[i]);
            proof {
                assert(rest.skip(1) =~= s@.skip(i + 1));
                assert(rest[0] == s@[i as int]);
                if rest.len() < from.len() {
                    assert(replace_all(rest, from@, to@) == rest);
                    assert(replace_all(rest.skip(1), from@, to@) == rest.skip(1));
                    assert(rest =~= seq![rest[0]] + rest.skip(1));
                } else {
                    assert(rest.take(from.len() as int) =~= s@.subrange(i as int, i + from.len()));
                }
                assert(out@ + replace_all(s@.skip(i + 1), from@, to@) =~= before + (seq![rest[0]]
                    + replace_all(rest.skip(1), from@, to@)));
            }
            i = i + 1;
        }
    }
    assert(replace_all(s@.skip(i as int), from@, to@) =~= Seq::<char>::empty());
    assert(out@ + Seq::<char>::empty() =~= out@);
    out
}

/// The character that writes the digit `d`, for `d` from 0 to 9.
pub open spec fn digit_char(d: int) -> char {
    (48 + d) as char
}

/// `n` written in base ten, without sign or leading zero.
pub open spec fn decimal(n: nat) -> Seq<char>
    decreases n,
{
    if n < 10 {
        seq![digit_char(n as int)]
    } else {
        decimal(n / 10).push(digit_char((n % 10) as int))
    }
}

/// Appends `n`, written in base ten, to `out`.
pub fn push_decimal(out: &mut Vec<char>, n: usize)
    ensures
        final(out)@ == old(out)@ + decimal(n as nat),
    decreases n,
{
    if n >= 10 {
        push_decimal(out, n / 10);
    }
    let d: u8 = (n % 10) as u8;
    let c: char = (48u8 + d) as char;
    out.push(c);
    assert(final(out)@ =~= old(out)@ + decimal(n as nat));
}

/// `c` is one of the ten ASCII digits.
pub open spec fn is_digit(c: char) -> bool {
    '0' <= c <= '9'
}

/// The number that a string of ASCII digits writes in base ten.
pub open spec fn digits_value(s: Seq<char>) -> int
    decreases s.len(),
{
    if s.len() == 0 {
        0
    } else {
        digits_value(s.drop_last()) * 10 + (s.last() as int - 48)
    }
}

/// The digits of a signed decimal number: `s` without a leading `+` or `-`.
pub open spec fn unsigned_part(s: Seq<char>) -> Seq<char> {
    if s.len() > 0 && (s[0] == '+' || s[0] == '-') {
        s.skip(1)
    } else {
        s
    }
}

/// A string of digits is worth at least zero.
pub proof fn lemma_digits_value_nonnegative(s: Seq<char>)
    requires
        forall|i: int| 0 <= i < s.len() ==> is_digit(#[trigger] s[i]),
    ensures
        0 <= digits_value(s),
    decreases s.len(),
{
    if s.len() > 0 {
        assert(is_digit(s[s.len() - 1]));
        lemma_digits_value_nonnegative(s.drop_last());
    }
}

/// Whether two strings hold the same characters.
pub fn same_text(a: &str, b: &str) -> (same: bool)
    ensures
        same == (a@ == b@),
{
    let x = chars_of(a);
    let y = chars_of(b);
    if x.len() != y.len() {
        return false;
    }
    let mut i: usize = 0;
    while i < x.len()
        invariant
            i <= x.len(),
            x.len() == y.len(),
            x@ == a@,
            y@ == b@,
            forall|j: int| 0 <= j < i ==> x@[j] == y@[j],
        decreases x.len() - i,
    {
        if x[i] != y[i] {
            return false;
        }
        i = i + 1;
    }
    assert(x@ =~= y@);
    true
}

/// The characters of an optional string.
pub open spec fn text_of(s: Option<String>) -> Option<Seq<char>> {
    match s {
        Some(t) => Some(t@),
        None => None,
    }
}

/// The lowercase form of `s`, as the Unicode tables of the standard library
/// give it.
pub uninterp spec fn lowercase_of(s: Seq<char>) -> Seq<char>;

/// Calls `str::to_lowercase`, which returns the lowercase equivalent of the
/// string as a new `String`. The contract only names the result.
#[verifier::external_body]
pub(crate) fn lowercase(s: &str) -> (lower: String)
    ensures
        lower@ == lowercase_of(s@),
{
    s.to_lowercase()
}

/// Appends the characters of `s` to `out`.
pub fn push_text(out: &mut Vec<char>, s: &str)
    ensures
        final(out)@ == old(out)@ + s@,
{
    let chars = chars_of(s);
    out.extend_from_slice(chars.as_slice());
}

/// The characters of each string of a sequence.
pub open spec fn texts(strings: Seq<String>) -> Seq<Seq<char>> {
    strings.map_values(|s: String| s@)
}

/// Replacing a pattern by another of the same length changes every string
/// that holds the pattern.
pub proof fn lemma_replace_changes(s: Seq<char>, from: Seq<char>, to: Seq<char>)
    requires
        from.len() > 0,
        from.len() == to.len(),
        from != to,
        contains(s, from),
    ensures
        replace_all(s, from, to) != s,
    decreases s.len(),
{
    let i = choose|i: int| occurs_at(s, from, i);
    assert(occurs_at(s, from, i));
    let n = from.len() as int;
    if s.take(n) == from {
        let r = replace_all(s, from, to);
        assert(r == to + replace_all(s.skip(n), from, to));
        if r == s {
            assert(r.take(n) =~= to);
            assert(false);
        }
    } else {
        assert(i != 0) by {
            if i == 0 {
                assert(s.subrange(0, n) =~= s.take(n));
            }
        }
        let rest = s.skip(1);
        assert(occurs_at(rest, from, i - 1)) by {
            assert(rest.subrange(i - 1, i - 1 + n) =~= s.subrange(i, i + n));
        }
        lemma_replace_changes(rest, from, to);
        let r = replace_all(s, from, to);
        assert(r == seq![s[0]] + replace_all(rest, from, to));
        if r == s {
            assert(r.skip(1) =~= replace_all(rest, from, to));
            assert(false);
        }
    }
}

/// Replacing a pattern by a longer one lengthens every string that holds
/// the pattern, and shortens none.
pub proof fn lemma_replace_grows(s: Seq<char>, from: Seq<char>, to: Seq<char>)
    requires
        from.len() > 0,
        from.len() <= to.len(),
    ensures
        replace_all(s, from, to).len() >= s.len(),
        contains(s, from) ==> replace_all(s, from, to).len() >= s.len() + to.len() - from.len(),
    decreases s.len(),
{
    let n = from.len() as int;
    if s.len() < from.len() {
        if contains(s, from) {
            let i = choose|i: int| occurs_at(s, from, i);
            assert(occurs_at(s, from, i));
        }
    } else if s.take(n) == from {
        lemma_replace_grows(s.skip(n), from, to);
    } else {
        let rest = s.skip(1);
        lemma_replace_grows(rest, from, to);
        if contains(s, from) {
            let i = choose|i: int| occurs_at(s, from, i);
            assert(occurs_at(s, from, i));
            assert(i != 0) by {
                if i == 0 {
                    assert(s.subrange(0, n) =~= s.take(n));
                }
            }
            assert(occurs_at(rest, from, i - 1)) by {
                assert(rest.subrange(i - 1, i - 1 + n) =~= s.subrange(i, i + n));
            }
        }
    }
}

/// Replacing a pattern by another of the same length keeps the length of
/// the string.
pub proof fn lemma_replace_keeps_length(s: Seq<char>, from: Seq<char>, to: Seq<char>)
    requires
        from.len() == to.len(),
    ensures
        replace_all(s, from, to).len() == s.len(),
    decreases s.len(),
{
    let n = from.len() as int;
    if from.len() == 0 || s.len() < from.len() {
    } else if s.take(n) == from {
        lemma_replace_keeps_length(s.skip(n), from, to);
    } else {
        lemma_replace_keeps_length(s.skip(1), from, to);
    }
}

/// A number written in base ten reads as itself.
pub proof fn lemma_decimal_reads_back(n: nat)
    ensures
        decimal(n).len() >= 1,
        forall|i: int| 0 <= i < decimal(n).len() ==> is_digit(#[trigger] decimal(n)[i]),
        digits_value(decimal(n)) == n,
        unsigned_part(decimal(n)) == decimal(n),
    decreases n,
{
    if n < 10 {
        let s = decimal(n);
        assert(s == seq![digit_char(n as int)]);
        assert(s[0] == digit_char(n as int));
        assert(is_digit(s[0]));
        assert(s.drop_last() =~= Seq::<char>::empty());
        assert(digits_value(s.drop_last()) == 0);
        assert(digits_value(s) == n);
    } else {
        lemma_decimal_reads_back(n / 10);
        let head = decimal(n / 10);
        let c = digit_char((n % 10) as int);
        let s = decimal(n);
        assert(s == head.push(c));
        assert(s.drop_last() =~= head);
        assert(s.last() == c);
        assert forall|i: int| 0 <= i < s.len() implies is_digit(#[trigger] s[i]) by {
            if i < head.len() {
                assert(s[i] == head[i]);
            }
        }
        assert(s[0] == head[0]);
        assert(digits_value(s) == digits_value(head) * 10 + (n % 10));
    }
    assert(is_digit(decimal(n)[0]));
}

/// The last segment holds no delimiter.
pub proof fn lemma_last_segment_has_no_delimiter(s: Seq<char>, delim: char)
    ensures
        !last_segment(s, delim).contains(delim),
    decreases s.len(),
{
    let segment = last_segment(s, delim);
    if s.len() > 0 && s.last() != delim {
        let front = last_segment(s.drop_last(), delim);
        lemma_last_segment_has_no_delimiter(s.drop_last(), delim);
        assert forall|i: int| 0 <= i < segment.len() implies segment[i] != delim by {
            if i < front.len() {
                assert(front.contains(front[i]));
            }
        }
    }
}

/// A string is cut at its last delimiter in one way only: where what
/// follows the delimiter holds no delimiter, both parts are determined.
pub proof fn lemma_cut_at_last_delimiter(
    head: Seq<char>,
    tail: Seq<char>,
    other_head: Seq<char>,
    other_tail: Seq<char>,
    delim: char,
)
    requires
        head + seq![delim] + tail == other_head + seq![delim] + other_tail,
        !tail.contains(delim),
        !other_tail.contains(delim),
    ensures
        head == other_head,
        tail == other_tail,
{
    let whole = head + seq![delim] + tail;
    let other = other_head + seq![delim] + other_tail;
    assert(whole.len() == head.len() + 1 + tail.len());
    assert(other.len() == other_head.len() + 1 + other_tail.len());
    assert(whole[head.len() as int] == delim);
    assert(other[other_head.len() as int] == delim);
    if head.len() < other_head.len() {
        let k = other_head.len() - head.len() - 1;
        assert(whole[other_head.len() as int] == tail[k]);
        assert(tail.contains(tail[k]));
        assert(false);
    }
    if other_head.len() < head.len() {
        let k = head.len() - other_head.len() - 1;
        assert(other[head.len() as int] == other_tail[k]);
        assert(other_tail.contains(other_tail[k]));
        assert(false);
    }
    assert(head =~= whole.take(head.len() as int));
    assert(other_head =~= other.take(head.len() as int));
    assert(tail =~= whole.skip(head.len() as int + 1));
    assert(other_tail =~= other.skip(head.len() as int + 1));
}

/// Two numbers that are written alike in base ten are one number.
pub proof fn lemma_decimal_is_injective(m: nat, n: nat)
    requires
        decimal(m) == decimal(n),
    ensures
        m == n,
{
    lemma_decimal_reads_back(m);
    lemma_decimal_reads_back(n);
}

/// Replacing one character by another leaves a string without the first
/// character as it is.
pub proof fn lemma_replace_char_absent(s: Seq<char>, from: char, to: char)
    requires
        !s.contains(from),
    ensures
        replace_all(s, seq![from], seq![to]) == s,
    decreases s.len(),
{
    if s.len() > 0 {
        assert(s.contains(s[0]));
        assert(s.take(1) != seq![from]) by {
            assert(s.take(1)[0] == s[0]);
            assert(seq![from][0] == from);
        }
        assert forall|i: int| 0 <= i < s.skip(1).len() implies s.skip(1)[i] != from by {
            assert(s.contains(s[i + 1]));
        }
        lemma_replace_char_absent(s.skip(1), from, to);
        assert(seq![s[0]] + s.skip(1) =~= s);
    }
}

/// Replacing one character by another in two strings joined is the same as
/// joining the two after the replacement.
pub proof fn lemma_replace_char_distributes(a: Seq<char>, b: Seq<char>, from: char, to: char)
    ensures
        replace_all(a + b, seq![from], seq![to]) == replace_all(a, seq![from], seq![to])
            + replace_all(b, seq![from], seq![to]),
    decreases a.len(),
{
    let pattern = seq![from];
    let with = seq![to];
    if a.len() == 0 {
        assert(a + b =~= b);
        assert(replace_all(a, pattern, with) + replace_all(b, pattern, with) =~= replace_all(
            b,
            pattern,
            with,
        ));
    } else {
        let joined = a + b;
        assert(joined.take(1) =~= a.take(1));
        assert(joined.skip(1) =~= a.skip(1) + b);
        assert(joined[0] == a[0]);
        lemma_replace_char_distributes(a.skip(1), b, from, to);
        let rest = replace_all(a.skip(1), pattern, with);
        let end = replace_all(b, pattern, with);
        if a.take(1) == pattern {
            assert(with + (rest + end) =~= (with + rest) + end);
        } else {
            assert(seq![a[0]] + (rest + end) =~= (seq![a[0]] + rest) + end);
        }
    }
}

} // verus!
