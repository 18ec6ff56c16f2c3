//! Properties that hold across the builder and the encoding.
use crate::account::is_finnish;
use crate::barcode::{
    account_outcome, due_date_outcome, encode, opt_view, BarcodeBuilder, BarcodeVersion,
    BarcodeView, ErrorKind,
};
use crate::digits::{
    digits_of, is_digit_string, lemma_digits_of_len, lemma_digits_round_trip, pad_left,
    pad_right, pow10, value_of, zeros,
};
use vstd::prelude::*;

verus! {

/// The other fields of `b` pass their checks: the account is a Finnish IBAN, the cents and the
/// euros are in range and the due date, if any, is a calendar date.
pub open spec fn other_fields_pass(b: BarcodeBuilder) -> bool {
    &&& account_outcome(b.account_number) matches Ok(e) && is_finnish(e)
    &&& b.cents < 100
    &&& b.euros < 999999
    &&& due_date_outcome(b.due_date) is Ok
}

/// Reading back the amount of a barcode: the six digits after the version digit and the
/// account give the euros, and the two after them the cents.
pub proof fn lemma_amount_round_trip(b: BarcodeView)
    requires
        b.valid(),
    ensures
        value_of(encode(b).subrange(17, 23)) == b.euros,
        value_of(encode(b).subrange(23, 25)) == b.cents,
{
    assert(pow10(0) == 1);
    assert(pow10(1) == 10);
    assert(pow10(2) == 100);
    assert(pow10(3) == 1000);
    assert(pow10(4) == 10000);
    assert(pow10(5) == 100000);
    assert(pow10(6) == 1000000);
    lemma_digits_of_len(b.euros, 6);
    lemma_digits_of_len(b.cents, 2);
    lemma_digits_round_trip(b.euros, 6);
    lemma_digits_round_trip(b.cents, 2);
    let e = encode(b);
    assert(e.subrange(17, 23) =~= digits_of(b.euros, 6));
    assert(e.subrange(23, 25) =~= digits_of(b.cents, 2));
}

/// An account whose country code is not FI fails finalization with `AccountNotFinnish`,
/// whatever the other fields hold.
pub proof fn lemma_foreign_account_refused(b: BarcodeBuilder)
    requires
        account_outcome(b.account_number) matches Ok(e) && !is_finnish(e),
    ensures
        b.outcome() == Err::<BarcodeView, ErrorKind>(ErrorKind::AccountNotFinnish),
{
}

/// In version 4 a reference of at most 20 digits is accepted, and the 20 characters before the
/// date hold it padded with zeros on the left.
pub proof fn lemma_v4_reference(b: BarcodeBuilder, s: Seq<char>)
    requires
        b.version == BarcodeVersion::V4,
        opt_view(b.reference) == Some(s),
        is_digit_string(s),
        s.len() <= 20,
        other_fields_pass(b),
    ensures
        b.outcome() is Ok,
        ({
            let e = encode(b.outcome()->Ok_0);
            e.subrange(e.len() - 26, e.len() - 6) == pad_left(s, 20)
        }),
{
    let v = b.outcome()->Ok_0;
    assert(v.reference == s);
    let e = encode(v);
    match v.due_date {
        Some((y, m, d)) => {
            lemma_digits_of_len(crate::barcode::abs(y) % 100, 2);
            lemma_digits_of_len(m as nat, 2);
            lemma_digits_of_len(d as nat, 2);
        },
        None => {},
    }
    assert(pad_left(s, 20).len() == 20);
    assert(e.subrange(e.len() - 26, e.len() - 6) =~= pad_left(s, 20));
}

/// In version 5 a reference `RF` followed by one to 23 digits is accepted. When there are
/// fewer than two digits, the two-character type field holds them followed by zeros and the
/// remaining 21 characters are zeros; otherwise the type field holds the first two digits and
/// the 21 characters after it hold the rest, padded with zeros on the left.
pub proof fn lemma_v5_reference(b: BarcodeBuilder, d: Seq<char>)
    requires
        b.version == BarcodeVersion::V5,
        opt_view(b.reference) == Some(seq!['R', 'F'] + d),
        is_digit_string(d),
        d.len() <= 23,
        other_fields_pass(b),
    ensures
        b.outcome() is Ok,
        ({
            let e = encode(b.outcome()->Ok_0);
            &&& d.len() < 2 ==> e.subrange(e.len() - 29, e.len() - 27) == pad_right(d, 2)
                && e.subrange(e.len() - 27, e.len() - 6) == zeros(21)
            &&& d.len() >= 2 ==> e.subrange(e.len() - 29, e.len() - 27) == d.subrange(0, 2)
                && e.subrange(e.len() - 27, e.len() - 6) == pad_left(
                d.subrange(2, d.len() as int),
                21,
            )
        }),
{
    let s = seq!['R', 'F'] + d;
    assert(s.subrange(2, s.len() as int) =~= d);
    let v = b.outcome()->Ok_0;
    assert(v.reference == d);
    let e = encode(v);
    match v.due_date {
        Some((y, m, day)) => {
            lemma_digits_of_len(crate::barcode::abs(y) % 100, 2);
            lemma_digits_of_len(m as nat, 2);
            lemma_digits_of_len(day as nat, 2);
        },
        None => {},
    }
    if d.len() < 2 {
        assert(pad_right(d, 2).len() == 2);
        assert(e.subrange(e.len() - 29, e.len() - 27) =~= pad_right(d, 2));
        assert(e.subrange(e.len() - 27, e.len() - 6) =~= zeros(21));
    } else {
        assert(pad_left(d.subrange(2, d.len() as int), 21).len() == 21);
        assert(e.subrange(e.len() - 29, e.len() - 27) =~= d.subrange(0, 2));
        assert(e.subrange(e.len() - 27, e.len() - 6) =~= pad_left(d.subrange(2, d.len() as int), 21));
    }
}

} // verus!
