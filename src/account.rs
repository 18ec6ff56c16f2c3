//! Bank accounts given by their IBAN.
use crate::digits::is_digit;
use crate::text::chars_of;
use vstd::prelude::*;

verus! {

/// The electronic form (upper case, without spaces) of the IBAN that `s` spells, if it
/// spells a valid one.
pub uninterp spec fn iban_of(s: Seq<char>) -> Option<Seq<char>>;

/// Whether `c` is an ASCII upper-case letter.
pub open spec fn is_upper(c: char) -> bool {
    'A' <= c && c <= 'Z'
}

/// Whether the IBAN `e` has the country code FI.
pub open spec fn is_finnish(e: Seq<char>) -> bool {
    e.len() >= 2 && e[0] == 'F' && e[1] == 'I'
}

/// The shape of an IBAN in electronic form: a two-letter country code, two check digits,
/// and for Finland sixteen more digits.
pub open spec fn iban_shape(e: Seq<char>) -> bool {
    &&& e.len() >= 4
    &&& is_upper(e[0]) && is_upper(e[1])
    &&& is_digit(e[2]) && is_digit(e[3])
    &&& is_finnish(e) ==> e.len() == 18 && forall|i: int| 2 <= i < 18 ==> is_digit(#[trigger] e[i])
}

/// Relies on `iban::Iban::parse` and `iban::Iban::as_str`: a valid IBAN is returned in
/// electronic form, which starts with two upper-case letters and two digits, and a Finnish
/// one follows the registry's format `FI2!n6!n7!n1!n` (sixteen digits after the check digits).
#[verifier::external_body]
fn parse_iban(s: &str) -> (r: Result<String, iban::ParseError>)
    ensures
        r is Ok <==> iban_of(s@) is Some,
        r matches Ok(e) ==> e@ == iban_of(s@)->Some_0 && iban_shape(e@),
{
    iban::Iban::parse(s).map(|i| i.as_str().to_string())
}

/// A bank account, held as its IBAN in electronic form.
#[derive(Debug)]
pub struct Account {
    electronic: Vec<char>,
}

impl View for Account {
    type V = Seq<char>;

    closed spec fn view(&self) -> Seq<char> {
        self.electronic@
    }
}

impl Account {
    #[verifier::type_invariant]
    spec fn inv(&self) -> bool {
        iban_shape(self.electronic@)
    }

    /// Parses an IBAN; spaces between the characters are allowed.
    pub fn parse(s: &str) -> (r: Result<Account, iban::ParseError>)
        ensures
            r is Ok <==> iban_of(s@) is Some,
            r matches Ok(a) ==> a@ == iban_of(s@)->Some_0,
    {
        match parse_iban(s) {
            Ok(e) => Ok(Account { electronic: chars_of(e.as_str()) }),
            Err(err) => Err(err),
        }
    }

    /// The IBAN's shape holds of every account.
    pub fn shape(&self)
        ensures
            iban_shape(self@),
    {
        proof {
            use_type_invariant(self);
        }
    }

    /// The characters of the IBAN in electronic form.
    pub fn electronic(&self) -> (r: &Vec<char>)
        ensures
            r@ == self@,
    {
        &self.electronic
    }
}

impl Clone for Account {
    fn clone(&self) -> (r: Account)
        ensures
            r@ == self@,
    {
        proof {
            use_type_invariant(self);
        }
        let electronic = self.electronic.clone();
        assert(electronic@ =~= self.electronic@);
        Account { electronic }
    }
}

#[verifier::external_type_specification]
#[verifier::external_body]
pub struct ExParseError(iban::ParseError);

} // verus!
