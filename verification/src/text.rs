//! Character-level text utilities used by the kernel source synthesizer.

use vstd::prelude::*;
use vstd::string::StringExecFns;

verus! {

/// Appends one character to a string.
///
/// Wraps `String::push`, which appends the given `char` to the end of the
/// string.
#[verifier::external_body]
pub(crate) fn push_char(s: &mut String, c: char)
    ensures
        final(s)@ == old(s)@.push(c),
{
    s.push(c)
}

/// The concatenation of two strings.
pub fn joined(a: &str, b: &str) -> (r: String)
    ensures
        r@ == a@ + b@,
{
    let mut r: String = a.to_owned();
    r.append(b);
    r
}

/// The characters of a string.
pub fn to_chars(s: &str) -> (v: Vec<char>)
    ensures
        v@ == s@,
{
    let mut v: Vec<char> = Vec::new();
    for c in it: s.chars()
        invariant
            v@ == s@.take(it.index() as int),
            it.seq() == s@,
    {
        v.push(c);
    }
    v
}

/// The string that holds the characters `v`.
pub fn from_chars(v: &Vec<char>) -> (s: String)
    ensures
        s@ == v@,
{
    let mut s: String = String::new();
    let n: usize = v.len();
    let mut i: usize = 0;
    while i < n
        invariant
            0 <= i <= n,
            n == v@.len(),
            s@ == v@.take(i as int),
        decreases n - i,
    {
        push_char(&mut s, v[i]);
        i = i + 1;
        assert(v@.take(i as int) =~= v@.take(i - 1).push(v@[i - 1]));
    }
    assert(v@.take(n as int) =~= v@);
    s
}

/// The character that prints the digit `d`.
pub open spec fn digit_char(d: nat) -> char {
    if d == 0 {
        '0'
    } else if d == 1 {
        '1'
    } else if d == 2 {
        '2'
    } else if d == 3 {
        '3'
    } else if d == 4 {
        '4'
    } else if d == 5 {
        '5'
    } else if d == 6 {
        '6'
    } else if d == 7 {
        '7'
    } else if d == 8 {
        '8'
    } else {
        '9'
    }
}

/// The digit that the character `c` prints; zero for any other character.
pub open spec fn digit_value(c: char) -> nat {
    if c == '1' {
        1
    } else if c == '2' {
        2
    } else if c == '3' {
        3
    } else if c == '4' {
        4
    } else if c == '5' {
        5
    } else if c == '6' {
        6
    } else if c == '7' {
        7
    } else if c == '8' {
        8
    } else if c == '9' {
        9
    } else {
        0
    }
}

/// The decimal digits of `n`, most significant first, without leading
/// zeros.
pub open spec fn decimal(n: nat) -> Seq<char>
    decreases n,
{
    if n < 10 {
        seq![digit_char(n)]
    } else {
        decimal(n / 10).push(digit_char(n % 10))
    }
}

/// The number that a sequence of decimal digits denotes.
pub open spec fn parse_decimal(digits: Seq<char>) -> nat
    decreases digits.len(),
{
    if digits.len() == 0 {
        0
    } else {
        parse_decimal(digits.drop_last()) * 10 + digit_value(digits.last())
    }
}

/// Reading the decimal digits of a number gives the number back.
pub proof fn lemma_parse_decimal(n: nat)
    ensures
        parse_decimal(decimal(n)) == n,
        decimal(n).len() >= 1,
    decreases n,
{
    if n < 10 {
        let d = seq![digit_char(n)];
        assert(d.drop_last() =~= Seq::<char>::empty());
        assert(parse_decimal(d.drop_last()) == 0);
    } else {
        lemma_parse_decimal(n / 10);
        let d = decimal(n / 10).push(digit_char(n % 10));
        assert(d.drop_last() =~= decimal(n / 10));
    }
}

/// The character that prints the digit `d`.
pub fn digit(d: u8) -> (c: char)
    requires
        d < 10,
    ensures
        c == digit_char(d as nat),
{
    if d == 0 {
        '0'
    } else if d == 1 {
        '1'
    } else if d == 2 {
        '2'
    } else if d == 3 {
        '3'
    } else if d == 4 {
        '4'
    } else if d == 5 {
        '5'
    } else if d == 6 {
        '6'
    } else if d == 7 {
        '7'
    } else if d == 8 {
        '8'
    } else {
        '9'
    }
}

/// Appends the decimal digits of `n` to `out`.
pub fn push_decimal(out: &mut String, n: u128)
    ensures
        final(out)@ == old(out)@ + decimal(n as nat),
    decreases n,
{
    if n >= 10 {
        push_decimal(out, n / 10);
    }
    push_char(out, digit((n % 10) as u8));
    proof {
        if n >= 10 {
            assert(final(out)@ =~= old(out)@ + decimal(n as nat));
        } else {
            assert(final(out)@ =~= old(out)@ + decimal(n as nat));
        }
    }
}

/// The decimal digits of `n`.
pub fn decimal_string(n: u128) -> (s: String)
    ensures
        s@ == decimal(n as nat),
{
    let mut s: String = String::new();
    push_decimal(&mut s, n);
    assert(s@ =~= decimal(n as nat));
    s
}

/// `text` with every occurrence of `from` replaced by `to`, scanning from
/// the left and going on behind each occurrence that was replaced. An empty
/// `from` occurs nowhere.
pub open spec fn spec_replace(text: Seq<char>, from: Seq<char>, to: Seq<char>) -> Seq<char>
    decreases text.len(),
{
    if from.len() == 0 || text.len() < from.len() {
        text
    } else if text.subrange(0, from.len() as int) == from {
        to + spec_replace(text.subrange(from.len() as int, text.len() as int), from, to)
    } else {
        seq![text[0]] + spec_replace(text.subrange(1, text.len() as int), from, to)
    }
}

/// Whether `pattern` stands in `text` at position `at`.
pub fn matches_at(text: &Vec<char>, at: usize, pattern: &Vec<char>) -> (b: bool)
    requires
        at + pattern@.len() <= text@.len(),
    ensures
        b == (text@.subrange(at as int, at + pattern@.len()) == pattern@),
{
    let m: usize = pattern.len();
    let n: usize = text.len();
    let mut j: usize = 0;
    while j < m
        invariant
            0 <= j <= m,
            m == pattern@.len(),
            at + m <= text@.len() == n,
            forall|k: int| 0 <= k < j ==> text@[at + k] == pattern@[k],
        decreases m - j,
    {
        if text[at + j] != pattern[j] {
            assert(text@.subrange(at as int, at + m)[j as int] != pattern@[j as int]);
            return false;
        }
        j = j + 1;
    }
    assert(text@.subrange(at as int, at + m) =~= pattern@);
    true
}

/// `text` with every occurrence of `from` replaced by `to`.
pub fn replace(text: &str, from: &str, to: &str) -> (r: String)
    ensures
        r@ == spec_replace(text@, from@, to@),
{
    let pattern: Vec<char> = to_chars(from);
    let m: usize = pattern.len();
    if m == 0 {
        return text.to_owned();
    }
    let src: Vec<char> = to_chars(text);
    let n: usize = src.len();
    let mut r: String = String::new();
    let mut i: usize = 0;
    assert(src@.subrange(0, n as int) =~= text@);
    assert(r@ + spec_replace(text@, from@, to@) =~= spec_replace(text@, from@, to@));
    while i < n
        invariant
            0 <= i <= n,
            n == src@.len(),
            src@ == text@,
            pattern@ == from@,
            m == pattern@.len(),
            m > 0,
            r@ + spec_replace(src@.subrange(i as int, n as int), from@, to@) == spec_replace(
                text@,
                from@,
                to@,
            ),
        decreases n - i,
    {
        let ghost rest = src@.subrange(i as int, n as int);
        if n - i >= m && matches_at(&src, i, &pattern) {
            proof {
                assert(rest.subrange(0, m as int) =~= src@.subrange(i as int, i + m));
                assert(rest.subrange(m as int, rest.len() as int) =~= src@.subrange(
                    i + m,
                    n as int,
                ));
                assert(r@ + to@ + spec_replace(src@.subrange(i + m, n as int), from@, to@) =~= r@
                    + (to@ + spec_replace(src@.subrange(i + m, n as int), from@, to@)));
            }
            r.append(to);
            i = i + m;
        } else {
            proof {
                assert(rest.len() >= m ==> rest.subrange(0, m as int) =~= src@.subrange(
                    i as int,
                    i + m,
                ));
                if rest.len() >= m {
                    assert(rest.subrange(1, rest.len() as int) =~= src@.subrange(
                        i + 1,
                        n as int,
                    ));
                    assert(r@.push(src@[i as int]) + spec_replace(
                        src@.subrange(i + 1, n as int),
                        from@,
                        to@,
                    ) =~= r@ + (seq![rest[0]] + spec_replace(
                        src@.subrange(i + 1, n as int),
                        from@,
                        to@,
                    )));
                } else {
                    lemma_replace_short(src@.subrange(i + 1, n as int), from@, to@);
                    assert(r@.push(src@[i as int]) + src@.subrange(i + 1, n as int) =~= r@
                        + rest);
                }
            }
            push_char(&mut r, src[i]);
            i = i + 1;
        }
    }
    assert(src@.subrange(n as int, n as int) =~= Seq::<char>::empty());
    assert(r@ + Seq::<char>::empty() =~= r@);
    r
}

/// A text that is shorter than the pattern is left as it is.
pub proof fn lemma_replace_short(text: Seq<char>, from: Seq<char>, to: Seq<char>)
    requires
        text.len() < from.len(),
    ensures
        spec_replace(text, from, to) == text,
{
}

/// Whether `a` comes before `b` in the order of dictionaries: at the first
/// position where they differ, `a` has the smaller character, or `a` ends
/// there and `b` goes on. This is the order in which strings compare.
pub open spec fn lex_less(a: Seq<char>, b: Seq<char>) -> bool
    decreases a.len(),
{
    if b.len() == 0 {
        false
    } else if a.len() == 0 {
        true
    } else if a[0] == b[0] {
        lex_less(a.drop_first(), b.drop_first())
    } else {
        a[0] < b[0]
    }
}

/// No text comes before itself.
pub proof fn lemma_lex_irreflexive(a: Seq<char>)
    ensures
        !lex_less(a, a),
    decreases a.len(),
{
    if a.len() > 0 {
        lemma_lex_irreflexive(a.drop_first());
    }
}

/// Of two different texts, one comes before the other.
pub proof fn lemma_lex_total(a: Seq<char>, b: Seq<char>)
    ensures
        lex_less(a, b) || lex_less(b, a) || a == b,
        !(lex_less(a, b) && lex_less(b, a)),
    decreases a.len(),
{
    if a.len() > 0 && b.len() > 0 {
        lemma_lex_total(a.drop_first(), b.drop_first());
        if a[0] == b[0] && a.drop_first() == b.drop_first() {
            assert(a =~= seq![a[0]] + a.drop_first());
            assert(b =~= seq![b[0]] + b.drop_first());
        }
    } else if a.len() == 0 && b.len() == 0 {
        assert(a =~= b);
    }
}

/// The order is transitive.
pub proof fn lemma_lex_transitive(a: Seq<char>, b: Seq<char>, c: Seq<char>)
    requires
        lex_less(a, b),
        lex_less(b, c),
    ensures
        lex_less(a, c),
    decreases a.len(),
{
    if a.len() > 0 {
        if a[0] == b[0] && b[0] == c[0] {
            lemma_lex_transitive(a.drop_first(), b.drop_first(), c.drop_first());
        }
    }
}

/// Whether `a` comes before `b` in the order of dictionaries.
pub fn less(a: &str, b: &str) -> (r: bool)
    ensures
        r == lex_less(a@, b@),
{
    let x: Vec<char> = to_chars(a);
    let y: Vec<char> = to_chars(b);
    let n: usize = x.len();
    let m: usize = y.len();
    let mut i: usize = 0;
    assert(x@.skip(0) =~= x@);
    assert(y@.skip(0) =~= y@);
    while i < n && i < m
        invariant
            0 <= i <= n,
            i <= m,
            n == x@.len(),
            m == y@.len(),
            x@ == a@,
            y@ == b@,
            lex_less(a@, b@) == lex_less(x@.skip(i as int), y@.skip(i as int)),
        decreases n - i,
    {
        proof {
            assert(x@.skip(i as int).drop_first() =~= x@.skip(i + 1));
            assert(y@.skip(i as int).drop_first() =~= y@.skip(i + 1));
            assert(x@.skip(i as int)[0] == x@[i as int]);
            assert(y@.skip(i as int)[0] == y@[i as int]);
        }
        if x[i] != y[i] {
            return x[i] < y[i];
        }
        i = i + 1;
    }
    i < m
}

/// Whether `pattern` stands somewhere in `text`.
pub open spec fn spec_occurs(text: Seq<char>, pattern: Seq<char>) -> bool {
    exists|i: int|
        0 <= i && i + pattern.len() <= text.len() && #[trigger] text.subrange(
            i,
            i + pattern.len(),
        ) == pattern
}

/// Whether `pattern` stands somewhere in `text`.
pub fn occurs(text: &str, pattern: &str) -> (b: bool)
    ensures
        b == spec_occurs(text@, pattern@),
{
    let src: Vec<char> = to_chars(text);
    let pat: Vec<char> = to_chars(pattern);
    let n: usize = src.len();
    let m: usize = pat.len();
    if m > n {
        return false;
    }
    let last: usize = n - m;
    let mut i: usize = 0;
    while i < last
        invariant
            0 <= i <= last,
            last == n - m,
            n == src@.len(),
            m == pat@.len(),
            src@ == text@,
            pat@ == pattern@,
            forall|k: int| 0 <= k < i ==> #[trigger] src@.subrange(k, k + m) != pat@,
        decreases last - i,
    {
        if matches_at(&src, i, &pat) {
            return true;
        }
        i = i + 1;
    }
    matches_at(&src, last, &pat)
}

/// A text in which the pattern does not stand is left as it is.
pub proof fn lemma_replace_nothing(text: Seq<char>, from: Seq<char>, to: Seq<char>)
    requires
        !spec_occurs(text, from),
    ensures
        spec_replace(text, from, to) == text,
    decreases text.len(),
{
    if from.len() == 0 || text.len() < from.len() {
    } else {
        assert(text.subrange(0int, 0int + from.len()) != from);
        let rest = text.subrange(1, text.len() as int);
        assert(!spec_occurs(rest, from)) by {
            assert forall|i: int| 0 <= i && i + from.len() <= rest.len() implies #[trigger] rest.subrange(
                i,
                i + from.len(),
            ) != from by {
                assert(rest.subrange(i, i + from.len()) =~= text.subrange(
                    i + 1,
                    i + 1 + from.len(),
                ));
            }
        }
        lemma_replace_nothing(rest, from, to);
        assert(seq![text[0]] + rest =~= text);
    }
}

} // verus!
