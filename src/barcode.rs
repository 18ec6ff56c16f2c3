//! The barcode record, its builder with the validation rules, and the fixed-width encoding.
use crate::account::{iban_of, iban_shape, is_finnish, Account};
use crate::date::{is_calendar_date, CalendarDate};
use crate::digits::{
    all_digits, digits_of, is_digit_string, lemma_digits_of_len, pad_left, pad_right, push_digits,
    push_zeros, zeros,
};
use crate::text::{chars_of, push_range, string_from_chars};
use vstd::prelude::*;

verus! {

/// The version of the bank barcode.
#[derive(Clone, Copy, Debug, PartialEq, Eq, Structural)]
pub enum BarcodeVersion {
    /// Version 4: a reference number of at most 20 digits.
    V4,
    /// Version 5: an RF creditor reference of at most 23 digits after the `RF` prefix.
    V5,
}

impl Default for BarcodeVersion {
    fn default() -> (r: BarcodeVersion)
        ensures
            r == BarcodeVersion::V5,
    {
        BarcodeVersion::V5
    }
}

/// The kinds of error that finalizing a builder reports.
#[derive(Clone, Copy, Debug, PartialEq, Eq, Structural)]
pub enum ErrorKind {
    NoAccount,
    InvalidAccount,
    AccountNotFinnish,
    SumTooLarge,
    InvalidCents,
    ReferenceTooLarge,
    InvalidReference,
    MalformedReference,
    InvalidDate,
}

/// Why a builder could not be finalized into a barcode.
#[derive(Debug)]
pub enum BuilderError {
    /// No account number was given.
    NoAccount,
    /// The account number is not a valid IBAN.
    InvalidAccount(iban::ParseError),
    /// The IBAN is not a Finnish one.
    AccountNotFinnish,
    /// The euros are 999 999 or more.
    SumTooLarge,
    /// The cents are 100 or more.
    InvalidCents,
    /// The reference number has more digits than the version allows.
    ReferenceTooLarge,
    /// The reference number is not a string of decimal digits.
    InvalidReference,
    /// A version 5 reference does not start with `RF`.
    MalformedReference,
    /// The due date is not a calendar date.
    InvalidDate(time::error::ComponentRange),
}

impl BuilderError {
    /// The kind of this error.
    pub open spec fn spec_kind(&self) -> ErrorKind {
        match self {
            BuilderError::NoAccount => ErrorKind::NoAccount,
            BuilderError::InvalidAccount(_) => ErrorKind::InvalidAccount,
            BuilderError::AccountNotFinnish => ErrorKind::AccountNotFinnish,
            BuilderError::SumTooLarge => ErrorKind::SumTooLarge,
            BuilderError::InvalidCents => ErrorKind::InvalidCents,
            BuilderError::ReferenceTooLarge => ErrorKind::ReferenceTooLarge,
            BuilderError::InvalidReference => ErrorKind::InvalidReference,
            BuilderError::MalformedReference => ErrorKind::MalformedReference,
            BuilderError::InvalidDate(_) => ErrorKind::InvalidDate,
        }
    }

    pub fn kind(&self) -> (r: ErrorKind)
        ensures
            r == self.spec_kind(),
    {
        match self {
            BuilderError::NoAccount => ErrorKind::NoAccount,
            BuilderError::InvalidAccount(_) => ErrorKind::InvalidAccount,
            BuilderError::AccountNotFinnish => ErrorKind::AccountNotFinnish,
            BuilderError::SumTooLarge => ErrorKind::SumTooLarge,
            BuilderError::InvalidCents => ErrorKind::InvalidCents,
            BuilderError::ReferenceTooLarge => ErrorKind::ReferenceTooLarge,
            BuilderError::InvalidReference => ErrorKind::InvalidReference,
            BuilderError::MalformedReference => ErrorKind::MalformedReference,
            BuilderError::InvalidDate(_) => ErrorKind::InvalidDate,
        }
    }
}

/// An account number as the builder received it.
#[derive(Debug)]
pub enum AccountInput {
    /// Text still to be parsed as an IBAN.
    Text(String),
    /// An account that was parsed before.
    Parsed(Account),
}

/// A due date as the builder received it.
#[derive(Debug)]
pub enum DueDateInput {
    /// A date that was checked before.
    Resolved(CalendarDate),
    /// Year, month and day still to be checked.
    Calendar(i32, u8, u8),
}

/// What a barcode holds, as mathematical values.
pub ghost struct BarcodeView {
    pub version: BarcodeVersion,
    /// The IBAN in electronic form.
    pub account: Seq<char>,
    pub euros: nat,
    pub cents: nat,
    /// The digits of the reference number (for version 5, those after `RF`).
    pub reference: Seq<char>,
    /// Year, month and day.
    pub due_date: Option<(int, int, int)>,
}

/// The most digits that a reference number of `version` may have.
pub open spec fn reference_limit(version: BarcodeVersion) -> nat {
    match version {
        BarcodeVersion::V4 => 20,
        BarcodeVersion::V5 => 23,
    }
}

impl BarcodeView {
    /// The rules that every barcode satisfies.
    pub open spec fn valid(self) -> bool {
        &&& iban_shape(self.account)
        &&& is_finnish(self.account)
        &&& self.euros < 999999
        &&& self.cents < 100
        &&& is_digit_string(self.reference)
        &&& self.reference.len() <= reference_limit(self.version)
        &&& match self.due_date {
            Some((y, m, d)) => is_calendar_date(y, m, d),
            None => true,
        }
    }
}

/// The account that finalizing takes, or the error it reports about the account.
pub open spec fn account_outcome(a: Option<AccountInput>) -> Result<Seq<char>, ErrorKind> {
    match a {
        None => Err(ErrorKind::NoAccount),
        Some(AccountInput::Text(s)) => match iban_of(s@) {
            Some(e) => Ok(e),
            None => Err(ErrorKind::InvalidAccount),
        },
        Some(AccountInput::Parsed(acc)) => Ok(acc@),
    }
}

/// Whether `s` starts with the characters `RF`.
pub open spec fn has_rf_prefix(s: Seq<char>) -> bool {
    s.len() >= 2 && s[0] == 'R' && s[1] == 'F'
}

/// The reference digits that finalizing stores, or the error it reports about the reference.
/// With no reference given, version 4 takes `0` and version 5 takes `RF00`.
pub open spec fn reference_outcome(version: BarcodeVersion, r: Option<Seq<char>>) -> Result<
    Seq<char>,
    ErrorKind,
> {
    match version {
        BarcodeVersion::V4 => {
            let s = match r {
                Some(s) => s,
                None => seq!['0'],
            };
            if !is_digit_string(s) {
                Err(ErrorKind::InvalidReference)
            } else if s.len() > 20 {
                Err(ErrorKind::ReferenceTooLarge)
            } else {
                Ok(s)
            }
        },
        BarcodeVersion::V5 => {
            let s = match r {
                Some(s) => s,
                None => seq!['R', 'F', '0', '0'],
            };
            if !has_rf_prefix(s) {
                Err(ErrorKind::MalformedReference)
            } else if !is_digit_string(s.subrange(2, s.len() as int)) {
                Err(ErrorKind::InvalidReference)
            } else if s.len() - 2 > 23 {
                Err(ErrorKind::ReferenceTooLarge)
            } else {
                Ok(s.subrange(2, s.len() as int))
            }
        },
    }
}

/// The due date that finalizing stores, or the error it reports about the date.
pub open spec fn due_date_outcome(d: Option<DueDateInput>) -> Result<
    Option<(int, int, int)>,
    ErrorKind,
> {
    match d {
        None => Ok(None),
        Some(DueDateInput::Resolved(date)) => Ok(Some(date@)),
        Some(DueDateInput::Calendar(y, m, day)) => if is_calendar_date(y as int, m as int, day as int) {
            Ok(Some((y as int, m as int, day as int)))
        } else {
            Err(ErrorKind::InvalidDate)
        },
    }
}

/// The view of an optional string.
pub open spec fn opt_view(s: Option<String>) -> Option<Seq<char>> {
    match s {
        Some(s) => Some(s@),
        None => None,
    }
}

/// Collects the fields of a barcode before they are checked.
#[derive(Debug)]
pub struct BarcodeBuilder {
    pub version: BarcodeVersion,
    pub account_number: Option<AccountInput>,
    pub euros: u32,
    pub cents: u8,
    pub reference: Option<String>,
    pub due_date: Option<DueDateInput>,
}

impl BarcodeBuilder {
    /// What finalizing gives: the barcode, or the first check that fails, in the order
    /// account, country, cents, euros, reference, due date.
    pub open spec fn outcome(&self) -> Result<BarcodeView, ErrorKind> {
        match account_outcome(self.account_number) {
            Err(k) => Err(k),
            Ok(account) => if !is_finnish(account) {
                Err(ErrorKind::AccountNotFinnish)
            } else if self.cents >= 100 {
                Err(ErrorKind::InvalidCents)
            } else if self.euros >= 999999 {
                Err(ErrorKind::SumTooLarge)
            } else {
                match reference_outcome(self.version, opt_view(self.reference)) {
                    Err(k) => Err(k),
                    Ok(reference) => match due_date_outcome(self.due_date) {
                        Err(k) => Err(k),
                        Ok(due_date) => Ok(
                            BarcodeView {
                                version: self.version,
                                account,
                                euros: self.euros as nat,
                                cents: self.cents as nat,
                                reference,
                                due_date,
                            },
                        ),
                    },
                }
            },
        }
    }
}

/// The character that opens a barcode of `version`.
pub open spec fn version_digit(version: BarcodeVersion) -> char {
    match version {
        BarcodeVersion::V4 => '4',
        BarcodeVersion::V5 => '5',
    }
}

/// The absolute value of `x`.
pub open spec fn abs(x: int) -> nat {
    if x < 0 {
        (-x) as nat
    } else {
        x as nat
    }
}

/// The last six characters: the due date as two-digit year, month and day, or six zeros.
pub open spec fn date_field(d: Option<(int, int, int)>) -> Seq<char> {
    match d {
        None => zeros(6),
        Some((y, m, day)) => digits_of(abs(y) % 100, 2) + digits_of(m as nat, 2) + digits_of(
            day as nat,
            2,
        ),
    }
}

/// The reference part: for version 4 three zeros and the reference padded to 20 digits; for
/// version 5 a two-character type field and the rest of the reference padded to 21 digits.
pub open spec fn reference_field(version: BarcodeVersion, r: Seq<char>) -> Seq<char> {
    match version {
        BarcodeVersion::V4 => zeros(3) + pad_left(r, 20),
        BarcodeVersion::V5 => if r.len() < 2 {
            pad_right(r, 2) + zeros(21)
        } else {
            r.subrange(0, 2) + pad_left(r.subrange(2, r.len() as int), 21)
        },
    }
}

/// The barcode's string: version digit, the IBAN without its country code, euros in six
/// digits, cents in two, the reference part and the date.
pub open spec fn encode(b: BarcodeView) -> Seq<char> {
    seq![version_digit(b.version)] + b.account.subrange(2, b.account.len() as int) + digits_of(
        b.euros,
        6,
    ) + digits_of(b.cents, 2) + reference_field(b.version, b.reference) + date_field(b.due_date)
}

/// Every valid barcode is written in 54 characters.
pub proof fn lemma_encode_len(b: BarcodeView)
    requires
        b.valid(),
    ensures
        encode(b).len() == 54,
{
    lemma_digits_of_len(b.euros, 6);
    lemma_digits_of_len(b.cents, 2);
    match b.due_date {
        Some((y, m, d)) => {
            lemma_digits_of_len(abs(y) % 100, 2);
            lemma_digits_of_len(m as nat, 2);
            lemma_digits_of_len(d as nat, 2);
        },
        None => {},
    }
}

/// A bank barcode whose fields have passed every check.
#[derive(Debug)]
pub struct Barcode {
    version: BarcodeVersion,
    account: Account,
    euros: u32,
    cents: u8,
    reference: Vec<char>,
    due_date: Option<CalendarDate>,
}

impl View for Barcode {
    type V = BarcodeView;

    closed spec fn view(&self) -> BarcodeView {
        BarcodeView {
            version: self.version,
            account: self.account@,
            euros: self.euros as nat,
            cents: self.cents as nat,
            reference: self.reference@,
            due_date: match self.due_date {
                Some(d) => Some(d@),
                None => None,
            },
        }
    }
}

impl Barcode {
    #[verifier::type_invariant]
    spec fn inv(&self) -> bool {
        self@.valid()
    }

    /// The barcode as its 54 decimal digits.
    pub fn to_string(&self) -> (r: String)
        ensures
            r@ == encode(self@),
            r@.len() == 54,
    {
        proof {
            use_type_invariant(self);
            lemma_encode_len(self@);
        }
        let mut out: Vec<char> = Vec::new();
        match self.version {
            BarcodeVersion::V4 => out.push('4'),
            BarcodeVersion::V5 => out.push('5'),
        }
        let e = self.account.electronic();
        push_range(&mut out, e, 2, e.len());
        push_digits(&mut out, self.euros, 6);
        push_digits(&mut out, self.cents as u32, 2);
        let ghost head = out@;
        let r = &self.reference;
        match self.version {
            BarcodeVersion::V4 => {
                push_zeros(&mut out, 3);
                push_zeros(&mut out, 20 - r.len());
                push_range(&mut out, r, 0, r.len());
                assert(out@ =~= head + reference_field(self.version, r@));
            },
            BarcodeVersion::V5 => {
                if r.len() < 2 {
                    push_range(&mut out, r, 0, r.len());
                    push_zeros(&mut out, 2 - r.len());
                    push_zeros(&mut out, 21);
                } else {
                    push_range(&mut out, r, 0, 2);
                    push_zeros(&mut out, 21 - (r.len() - 2));
                    push_range(&mut out, r, 2, r.len());
                }
                assert(out@ =~= head + reference_field(self.version, r@));
            },
        }
        let ghost middle = out@;
        match self.due_date {
            None => push_zeros(&mut out, 6),
            Some(d) => {
                let y = d.year();
                let a: u32 = if y < 0 {
                    (0 - (y as i64)) as u32
                } else {
                    y as u32
                };
                push_digits(&mut out, a % 100, 2);
                push_digits(&mut out, d.month() as u32, 2);
                push_digits(&mut out, d.day() as u32, 2);
            },
        }
        assert(out@ =~= middle + date_field(self@.due_date));
        assert(out@ =~= encode(self@));
        string_from_chars(out)
    }

    /// A builder with every field at its default.
    pub fn builder() -> (r: BarcodeBuilder)
        ensures
            r.is_empty_with(BarcodeVersion::V5),
    {
        BarcodeBuilder::default()
    }
}

impl Clone for Barcode {
    fn clone(&self) -> (r: Barcode)
        ensures
            r@ == self@,
    {
        proof {
            use_type_invariant(self);
        }
        let reference = self.reference.clone();
        assert(reference@ =~= self.reference@);
        Barcode {
            version: self.version,
            account: self.account.clone(),
            euros: self.euros,
            cents: self.cents,
            reference,
            due_date: self.due_date,
        }
    }
}

/// Checks the reference of a builder and returns the digits to store.
fn check_reference(version: BarcodeVersion, reference: &Option<String>) -> (r: Result<
    Vec<char>,
    BuilderError,
>)
    ensures
        r is Ok <==> reference_outcome(version, opt_view(*reference)) is Ok,
        r matches Ok(v) ==> v@ == reference_outcome(version, opt_view(*reference))->Ok_0,
        r matches Err(e) ==> reference_outcome(version, opt_view(*reference)) == Err::<
            Seq<char>,
            ErrorKind,
        >(e.spec_kind()),
{
    let s: Vec<char> = match reference {
        Some(s) => chars_of(s.as_str()),
        None => match version {
            BarcodeVersion::V4 => vec!['0'],
            BarcodeVersion::V5 => vec!['R', 'F', '0', '0'],
        },
    };
    match version {
        BarcodeVersion::V4 => {
            if !all_digits(&s) {
                Err(BuilderError::InvalidReference)
            } else if s.len() > 20 {
                Err(BuilderError::ReferenceTooLarge)
            } else {
                Ok(s)
            }
        },
        BarcodeVersion::V5 => {
            if !(s.len() >= 2 && s[0] == 'R' && s[1] == 'F') {
                return Err(BuilderError::MalformedReference);
            }
            let mut digits: Vec<char> = Vec::new();
            push_range(&mut digits, &s, 2, s.len());
            assert(digits@ =~= s@.subrange(2, s@.len() as int));
            if !all_digits(&digits) {
                Err(BuilderError::InvalidReference)
            } else if digits.len() > 23 {
                Err(BuilderError::ReferenceTooLarge)
            } else {
                Ok(digits)
            }
        },
    }
}

impl Default for BarcodeBuilder {
    fn default() -> (r: BarcodeBuilder)
        ensures
            r.is_empty_with(BarcodeVersion::V5),
    {
        BarcodeBuilder {
            version: BarcodeVersion::V5,
            account_number: None,
            euros: 0,
            cents: 0,
            reference: None,
            due_date: None,
        }
    }
}

impl BarcodeBuilder {
    /// A builder of `version` with no field given.
    pub open spec fn is_empty_with(&self, version: BarcodeVersion) -> bool {
        &&& self.version == version
        &&& self.account_number is None
        &&& self.euros == 0
        &&& self.cents == 0
        &&& self.reference is None
        &&& self.due_date is None
    }

    /// A builder of version 4 with no field given.
    pub fn v4() -> (r: Self)
        ensures
            r.is_empty_with(BarcodeVersion::V4),
    {
        Self::default().version(BarcodeVersion::V4)
    }

    /// A builder of version 5 (also the default version) with no field given.
    pub fn v5() -> (r: Self)
        ensures
            r.is_empty_with(BarcodeVersion::V5),
    {
        Self::default().version(BarcodeVersion::V5)
    }

    /// Sets the version.
    pub fn version(self, version: BarcodeVersion) -> (r: Self)
        ensures
            r == (BarcodeBuilder { version, ..self }),
    {
        BarcodeBuilder { version, ..self }
    }

    /// Sets the account number, an IBAN that finalizing parses; it is the only field that
    /// must be given.
    pub fn account_number(self, account: &str) -> (r: Self)
        ensures
            r.account_number matches Some(AccountInput::Text(t)) && t@ == account@,
            r == (BarcodeBuilder { account_number: r.account_number, ..self }),
    {
        BarcodeBuilder { account_number: Some(AccountInput::Text(String::from_str(account))), ..self }
    }

    /// Sets the account number from an account that was parsed before.
    pub fn account_number_iban(self, account: Account) -> (r: Self)
        ensures
            r == (BarcodeBuilder { account_number: Some(AccountInput::Parsed(account)), ..self }),
    {
        BarcodeBuilder { account_number: Some(AccountInput::Parsed(account)), ..self }
    }

    /// Sets the euros; finalizing asks for fewer than 999 999.
    pub fn euros(self, euros: u32) -> (r: Self)
        ensures
            r == (BarcodeBuilder { euros, ..self }),
    {
        BarcodeBuilder { euros, ..self }
    }

    /// Sets the cents; finalizing asks for fewer than 100.
    pub fn cents(self, cents: u8) -> (r: Self)
        ensures
            r == (BarcodeBuilder { cents, ..self }),
    {
        BarcodeBuilder { cents, ..self }
    }

    /// Sets the whole amount in cents: the same as setting the euros to `sum / 100` and the
    /// cents to `sum % 100`.
    pub fn sum(self, sum: u32) -> (r: Self)
        ensures
            r == (BarcodeBuilder { euros: sum / 100, cents: (sum % 100) as u8, ..self }),
    {
        BarcodeBuilder { euros: sum / 100, cents: (sum % 100) as u8, ..self }
    }

    /// Sets the reference number: at most 20 digits for version 4, `RF` and at most 23 digits
    /// for version 5.
    pub fn reference(self, reference: &str) -> (r: Self)
        ensures
            opt_view(r.reference) == Some(reference@),
            r == (BarcodeBuilder { reference: r.reference, ..self }),
    {
        BarcodeBuilder { reference: Some(String::from_str(reference)), ..self }
    }

    /// Sets the due date.
    pub fn due_date(self, due_date: CalendarDate) -> (r: Self)
        ensures
            r == (BarcodeBuilder { due_date: Some(DueDateInput::Resolved(due_date)), ..self }),
    {
        BarcodeBuilder { due_date: Some(DueDateInput::Resolved(due_date)), ..self }
    }

    /// Sets the due date by year, month and day, which finalizing checks.
    pub fn calendar_due_date(self, year: i32, month: u8, day: u8) -> (r: Self)
        ensures
            r == (BarcodeBuilder { due_date: Some(DueDateInput::Calendar(year, month, day)), ..self }),
    {
        BarcodeBuilder { due_date: Some(DueDateInput::Calendar(year, month, day)), ..self }
    }

    /// Checks the fields and returns the barcode, or the error of the first check that fails.
    pub fn build(self) -> (r: Result<Barcode, BuilderError>)
        ensures
            r is Ok <==> self.outcome() is Ok,
            r matches Ok(b) ==> b@ == self.outcome()->Ok_0 && b@.valid(),
            r matches Err(e) ==> self.outcome() == Err::<BarcodeView, ErrorKind>(e.spec_kind()),
    {
        let BarcodeBuilder { version, account_number, euros, cents, reference, due_date } = self;
        let account = match account_number {
            Some(AccountInput::Parsed(a)) => a,
            Some(AccountInput::Text(s)) => match Account::parse(s.as_str()) {
                Ok(a) => a,
                Err(e) => {
                    return Err(BuilderError::InvalidAccount(e));
                },
            },
            None => {
                return Err(BuilderError::NoAccount);
            },
        };
        account.shape();
        let e = account.electronic();
        if !(e[0] == 'F' && e[1] == 'I') {
            return Err(BuilderError::AccountNotFinnish);
        }
        if cents >= 100 {
            return Err(BuilderError::InvalidCents);
        }
        if euros >= 999999 {
            return Err(BuilderError::SumTooLarge);
        }
        let reference = match check_reference(version, &reference) {
            Ok(r) => r,
            Err(e) => {
                return Err(e);
            },
        };
        let due_date = match due_date {
            None => None,
            Some(DueDateInput::Resolved(d)) => {
                d.valid();
                Some(d)
            },
            Some(DueDateInput::Calendar(y, m, d)) => match CalendarDate::new(y, m, d) {
                Ok(date) => {
                    date.valid();
                    Some(date)
                },
                Err(e) => {
                    return Err(BuilderError::InvalidDate(e));
                },
            },
        };
        let b = Barcode { version, account, euros, cents, reference, due_date };
        Ok(b)
    }
}

} // verus!
