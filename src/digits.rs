//! Decimal digits and fixed-width, zero-padded fields.
use vstd::prelude::*;

verus! {

/// `10` raised to `w`.
pub open spec fn pow10(w: nat) -> nat
    decreases w,
{
    if w == 0 {
        1
    } else {
        10 * pow10((w - 1) as nat)
    }
}

/// The ASCII character of the decimal digit `d`.
pub open spec fn digit_char(d: nat) -> char {
    (48 + d) as char
}

/// Whether `c` is an ASCII decimal digit.
pub open spec fn is_digit(c: char) -> bool {
    '0' <= c && c <= '9'
}

/// A non-empty string made of ASCII decimal digits only.
pub open spec fn is_digit_string(s: Seq<char>) -> bool {
    s.len() > 0 && forall|i: int| 0 <= i < s.len() ==> is_digit(#[trigger] s[i])
}

/// The last `w` decimal digits of `n`, most significant first.
pub open spec fn digits_of(n: nat, w: nat) -> Seq<char>
    decreases w,
{
    if w == 0 {
        Seq::empty()
    } else {
        digits_of(n / 10, (w - 1) as nat).push(digit_char(n % 10))
    }
}

/// The number written by a string of decimal digits.
pub open spec fn value_of(s: Seq<char>) -> nat
    decreases s.len(),
{
    if s.len() == 0 {
        0
    } else {
        10 * value_of(s.drop_last()) + ((s.last() as nat) - 48) as nat
    }
}

/// `w` zero characters.
pub open spec fn zeros(w: nat) -> Seq<char> {
    Seq::new(w, |i: int| '0')
}

/// `s` preceded by zeros up to width `w`; `s` itself when it is already that wide.
pub open spec fn pad_left(s: Seq<char>, w: nat) -> Seq<char> {
    if s.len() < w {
        zeros((w - s.len()) as nat) + s
    } else {
        s
    }
}

/// `s` followed by zeros up to width `w`; `s` itself when it is already that wide.
pub open spec fn pad_right(s: Seq<char>, w: nat) -> Seq<char> {
    if s.len() < w {
        s + zeros((w - s.len()) as nat)
    } else {
        s
    }
}

pub proof fn lemma_digits_of_len(n: nat, w: nat)
    ensures
        digits_of(n, w).len() == w,
    decreases w,
{
    if w > 0 {
        lemma_digits_of_len(n / 10, (w - 1) as nat);
    }
}

/// The digits that a field of `w` digits holds read back as the value written, whenever the
/// value fits in `w` digits.
pub proof fn lemma_digits_round_trip(n: nat, w: nat)
    requires
        n < pow10(w),
    ensures
        value_of(digits_of(n, w)) == n,
    decreases w,
{
    if w > 0 {
        let p = pow10((w - 1) as nat);
        assert(n / 10 < p) by (nonlinear_arith)
            requires
                n < 10 * p,
        ;
        lemma_digits_round_trip(n / 10, (w - 1) as nat);
        let d = digits_of(n, w);
        assert(d.drop_last() == digits_of(n / 10, (w - 1) as nat));
        assert(d.last() == digit_char(n % 10));
    }
}

/// Pushes the last `w` decimal digits of `n` onto `out`.
pub fn push_digits(out: &mut Vec<char>, n: u32, w: usize)
    ensures
        final(out)@ == old(out)@ + digits_of(n as nat, w as nat),
    decreases w,
{
    if w > 0 {
        push_digits(out, n / 10, w - 1);
        let d: u32 = n % 10;
        let c = ((48 + d) as u8) as char;
        out.push(c);
        assert(out@ =~= old(out)@ + digits_of(n as nat, w as nat));
    }
}

/// Pushes `k` zero characters onto `out`.
pub fn push_zeros(out: &mut Vec<char>, k: usize)
    ensures
        final(out)@ == old(out)@ + zeros(k as nat),
{
    let mut i: usize = 0;
    while i < k
        invariant
            i <= k,
            out@ == old(out)@ + zeros(i as nat),
        decreases k - i,
    {
        out.push('0');
        i = i + 1;
        assert(out@ =~= old(out)@ + zeros(i as nat));
    }
}

/// Whether every character of `v` is a decimal digit, and there is at least one.
pub fn all_digits(v: &Vec<char>) -> (r: bool)
    ensures
        r == is_digit_string(v@),
{
    if v.len() == 0 {
        return false;
    }
    let mut i: usize = 0;
    while i < v.len()
        invariant
            i <= v@.len(),
            forall|j: int| 0 <= j < i ==> is_digit(#[trigger] v@[j]),
        decreases v@.len() - i,
    {
        if !('0' <= v[i] && v[i] <= '9') {
            return false;
        }
        i = i + 1;
    }
    true
}

} // verus!
