//! Small verified helpers for building the textual parts of request URLs:
//! appending single characters, zero-padded and plain decimal numbers, and
//! stripping path separators out of endpoint names.

use vstd::prelude::*;

verus! {

/// Relies on `String::push`: appends the given character to the end of the
/// string, as its documentation states.
#[verifier::external_body]
pub fn push_char(s: &mut String, c: char)
    ensures
        final(s)@ == old(s)@ + seq![c],
{
    s.push(c);
}

/// The decimal digit character for a value below ten.
pub open spec fn digit_char(d: int) -> char {
    ((48 + d) as u8) as char
}

/// Zero-padded two-character decimal form of a value below one hundred.
pub open spec fn two_digit_seq(n: int) -> Seq<char> {
    seq![digit_char(n / 10), digit_char(n % 10)]
}

/// Zero-padded four-character decimal form of a value below ten thousand.
pub open spec fn four_digit_seq(n: int) -> Seq<char> {
    seq![
        digit_char(n / 1000),
        digit_char((n / 100) % 10),
        digit_char((n / 10) % 10),
        digit_char(n % 10),
    ]
}

/// Decimal form of a non-negative value, without leading zeros (a lone
/// zero for zero).
pub open spec fn decimal_seq(n: int) -> Seq<char>
    decreases n,
{
    if n < 10 {
        seq![digit_char(n)]
    } else {
        decimal_seq(n / 10) + seq![digit_char(n % 10)]
    }
}

/// Appends the single decimal digit `d`.
pub fn push_digit(s: &mut String, d: u8)
    requires
        d < 10,
    ensures
        final(s)@ == old(s)@ + seq![digit_char(d as int)],
{
    let c: char = (48 + d) as char;
    push_char(s, c);
}

/// Appends the zero-padded two-digit decimal form of `n`.
pub fn push_two_digits(s: &mut String, n: u8)
    requires
        n < 100,
    ensures
        final(s)@ == old(s)@ + two_digit_seq(n as int),
{
    push_digit(s, n / 10);
    push_digit(s, n % 10);
    proof {
        assert(s@ =~= old(s)@ + two_digit_seq(n as int));
    }
}

/// Appends the zero-padded four-digit decimal form of `n`.
pub fn push_four_digits(s: &mut String, n: u16)
    requires
        n < 10000,
    ensures
        final(s)@ == old(s)@ + four_digit_seq(n as int),
{
    push_digit(s, (n / 1000) as u8);
    push_digit(s, ((n / 100) % 10) as u8);
    push_digit(s, ((n / 10) % 10) as u8);
    push_digit(s, (n % 10) as u8);
    proof {
        assert(s@ =~= old(s)@ + four_digit_seq(n as int));
    }
}

/// Appends the decimal form of `n` without leading zeros.
pub fn push_decimal(s: &mut String, n: u64)
    ensures
        final(s)@ == old(s)@ + decimal_seq(n as int),
    decreases n,
{
    if n < 10 {
        push_digit(s, n as u8);
    } else {
        push_decimal(s, n / 10);
        push_digit(s, (n % 10) as u8);
        proof {
            assert(s@ =~= old(s)@ + decimal_seq(n as int));
        }
    }
}

/// Holds of characters other than the path separator.
pub open spec fn not_slash(c: char) -> bool {
    c != '/'
}

/// The predicate keeping every character but the path separator.
pub open spec fn keep_non_slash() -> spec_fn(char) -> bool {
    |c: char| not_slash(c)
}

/// The characters of `s` with every `/` removed, in order.
pub open spec fn without_slashes(s: Seq<char>) -> Seq<char> {
    s.filter(keep_non_slash())
}

/// Returns a copy of `s` with every `/` character removed.
pub fn strip_slashes(s: &str) -> (r: String)
    ensures
        r@ == without_slashes(s@),
{
    let n = s.unicode_len();
    let mut out = String::new();
    let mut i: usize = 0;
    proof {
        reveal_with_fuel(Seq::filter, 2);
        assert(s@.subrange(0, 0).filter(keep_non_slash()) =~= Seq::<char>::empty());
    }
    while i < n
        invariant
            i <= n,
            n == s@.len(),
            out@ == without_slashes(s@.subrange(0, i as int)),
        decreases n - i,
    {
        let c = s.get_char(i);
        proof {
            reveal_with_fuel(Seq::filter, 2);
            let prefix = s@.subrange(0, i as int);
            let one = seq![s@[i as int]];
            assert(s@.subrange(0, i + 1) =~= prefix + one);
            Seq::<char>::filter_distributes_over_add(prefix, one, keep_non_slash());
            assert(one.drop_last() =~= Seq::<char>::empty());
            assert(Seq::<char>::empty().push(s@[i as int]) =~= one);
        }
        if c != '/' {
            push_char(&mut out, c);
        }
        i = i + 1;
    }
    proof {
        assert(s@.subrange(0, n as int) =~= s@);
    }
    out
}

} // verus!
