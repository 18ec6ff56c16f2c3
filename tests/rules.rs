use bank_barcode::{Account, Barcode, BarcodeBuilder, BarcodeVersion, BuilderError, CalendarDate, ErrorKind};

const FI_ACCOUNT: &str = "FI79 4405 2020 0360 82";

fn kind_of(b: BarcodeBuilder) -> ErrorKind {
    match b.build() {
        Ok(_) => panic!("expected an error"),
        Err(e) => e.kind(),
    }
}

#[test]
fn default_v5_scenario() {
    let code = Barcode::builder().account_number("FI73 3131 3001 0000 58").build().unwrap();
    assert_eq!("573313130010000580000000000000000000000000000000000000", code.to_string());
}

#[test]
fn v4_scenario() {
    let code = BarcodeBuilder::v4()
        .account_number(FI_ACCOUNT)
        .euros(4883)
        .cents(15)
        .reference("868516259619897")
        .due_date(CalendarDate::new(2010, 6, 12).unwrap())
        .build()
        .unwrap();
    assert_eq!("479440520200360820048831500000000868516259619897100612", code.to_string());
}

#[test]
fn v5_scenario() {
    let code = BarcodeBuilder::v5()
        .account_number(FI_ACCOUNT)
        .sum(488315)
        .reference("RF09868516259619897")
        .calendar_due_date(2010, 6, 12)
        .build()
        .unwrap();
    assert_eq!("579440520200360820048831509000000868516259619897100612", code.to_string());
}

#[test]
fn missing_rf_prefix_is_malformed() {
    let b = BarcodeBuilder::v5().account_number(FI_ACCOUNT).reference("12345");
    assert_eq!(kind_of(b), ErrorKind::MalformedReference);
}

#[test]
fn foreign_account_refused() {
    let b = Barcode::builder().account_number("DE89 3704 0044 0532 0130 00").euros(5).reference("RF18539007547034");
    assert_eq!(kind_of(b), ErrorKind::AccountNotFinnish);
    // Checked before the cents and the euros.
    let b = Barcode::builder().account_number("DE89370400440532013000").cents(200).euros(1_000_000);
    assert_eq!(kind_of(b), ErrorKind::AccountNotFinnish);
    let parsed = Account::parse("GB29 NWBK 6016 1331 9268 19").unwrap();
    assert_eq!(kind_of(BarcodeBuilder::v4().account_number_iban(parsed)), ErrorKind::AccountNotFinnish);
}

#[test]
fn no_account() {
    assert_eq!(kind_of(BarcodeBuilder::v4().euros(5)), ErrorKind::NoAccount);
}

#[test]
fn invalid_account() {
    let r = Barcode::builder().account_number("FI79 4405 2020 0360 83").build();
    assert!(matches!(r, Err(BuilderError::InvalidAccount(_))));
    assert_eq!(kind_of(Barcode::builder().account_number("not an iban")), ErrorKind::InvalidAccount);
}

#[test]
fn invalid_cents_before_euros() {
    let b = Barcode::builder().account_number(FI_ACCOUNT).cents(100).euros(999999);
    assert_eq!(kind_of(b), ErrorKind::InvalidCents);
    let b = Barcode::builder().account_number(FI_ACCOUNT).cents(99);
    assert!(b.build().is_ok());
}

#[test]
fn sum_too_large() {
    let b = Barcode::builder().account_number(FI_ACCOUNT).euros(999999);
    assert_eq!(kind_of(b), ErrorKind::SumTooLarge);
    let code = Barcode::builder().account_number(FI_ACCOUNT).euros(999998).cents(99).build().unwrap();
    assert_eq!(&code.to_string()[17..25], "99999899");
}

#[test]
fn reference_too_large() {
    let b = BarcodeBuilder::v4().account_number(FI_ACCOUNT).reference("123456789012345678901");
    assert_eq!(kind_of(b), ErrorKind::ReferenceTooLarge);
    let b = BarcodeBuilder::v5().account_number(FI_ACCOUNT).reference("RF123456789012345678901234");
    assert_eq!(kind_of(b), ErrorKind::ReferenceTooLarge);
}

#[test]
fn invalid_reference() {
    let b = BarcodeBuilder::v4().account_number(FI_ACCOUNT).reference("12a4");
    assert_eq!(kind_of(b), ErrorKind::InvalidReference);
    let b = BarcodeBuilder::v4().account_number(FI_ACCOUNT).reference("");
    assert_eq!(kind_of(b), ErrorKind::InvalidReference);
    let b = BarcodeBuilder::v5().account_number(FI_ACCOUNT).reference("RF");
    assert_eq!(kind_of(b), ErrorKind::InvalidReference);
    let b = BarcodeBuilder::v5().account_number(FI_ACCOUNT).reference("RF12x");
    assert_eq!(kind_of(b), ErrorKind::InvalidReference);
}

#[test]
fn invalid_date() {
    let b = Barcode::builder().account_number(FI_ACCOUNT).calendar_due_date(2021, 2, 29);
    assert_eq!(kind_of(b), ErrorKind::InvalidDate);
    let b = Barcode::builder().account_number(FI_ACCOUNT).calendar_due_date(2021, 13, 1);
    assert_eq!(kind_of(b), ErrorKind::InvalidDate);
    let b = Barcode::builder().account_number(FI_ACCOUNT).calendar_due_date(2021, 4, 0);
    assert_eq!(kind_of(b), ErrorKind::InvalidDate);
}

#[test]
fn calendar_dates() {
    assert!(CalendarDate::new(2020, 2, 29).is_ok());
    assert!(CalendarDate::new(2000, 2, 29).is_ok());
    assert!(CalendarDate::new(1900, 2, 29).is_err());
    assert!(CalendarDate::new(2021, 4, 31).is_err());
    assert!(CalendarDate::new(10000, 1, 1).is_err());
    let d = CalendarDate::new(-5, 1, 2).unwrap();
    assert_eq!((d.year(), d.month(), d.day()), (-5, 1, 2));
}

#[test]
fn date_field_of_early_year() {
    let code = Barcode::builder()
        .account_number(FI_ACCOUNT)
        .due_date(CalendarDate::new(-1905, 3, 7).unwrap())
        .build()
        .unwrap();
    assert!(code.to_string().ends_with("050307"));
}

#[test]
fn amount_round_trip() {
    let code = Barcode::builder().account_number(FI_ACCOUNT).euros(12).cents(3).build().unwrap();
    let s = code.to_string();
    assert_eq!(s[17..23].parse::<u32>().unwrap(), 12);
    assert_eq!(s[23..25].parse::<u32>().unwrap(), 3);
}

#[test]
fn v4_reference_padded() {
    let code = BarcodeBuilder::v4().account_number(FI_ACCOUNT).reference("42").build().unwrap();
    let s = code.to_string();
    assert_eq!(&s[25..48], "00000000000000000000042");
    let code = BarcodeBuilder::v4().account_number(FI_ACCOUNT).reference("12345678901234567890").build().unwrap();
    assert_eq!(&code.to_string()[28..48], "12345678901234567890");
    let code = BarcodeBuilder::v4().account_number(FI_ACCOUNT).build().unwrap();
    assert_eq!(&code.to_string()[25..48], "00000000000000000000000");
}

#[test]
fn v5_short_and_long_references() {
    let code = BarcodeBuilder::v5().account_number(FI_ACCOUNT).reference("RF7").build().unwrap();
    let s = code.to_string();
    assert_eq!(&s[25..27], "70");
    assert_eq!(&s[27..48], "000000000000000000000");
    let code = BarcodeBuilder::v5()
        .account_number(FI_ACCOUNT)
        .reference("RF12345678901234567890123")
        .build()
        .unwrap();
    let s = code.to_string();
    assert_eq!(&s[25..27], "12");
    assert_eq!(&s[27..48], "345678901234567890123");
}

#[test]
fn length_is_54() {
    let a = BarcodeBuilder::v4().account_number(FI_ACCOUNT).build().unwrap();
    let b = BarcodeBuilder::v5()
        .account_number(FI_ACCOUNT)
        .euros(999998)
        .cents(99)
        .reference("RF12345678901234567890123")
        .calendar_due_date(2099, 12, 31)
        .build()
        .unwrap();
    assert_eq!(a.to_string().len(), 54);
    assert_eq!(b.to_string().len(), 54);
}

#[test]
fn sum_splits_into_euros_and_cents() {
    let a = Barcode::builder().account_number(FI_ACCOUNT).sum(123456).build().unwrap();
    let b = Barcode::builder().account_number(FI_ACCOUNT).euros(1234).cents(56).build().unwrap();
    assert_eq!(a.to_string(), b.to_string());
    let c = Barcode::builder().sum(7);
    assert_eq!((c.euros, c.cents), (0, 7));
}

#[test]
fn version_setter() {
    let b = BarcodeBuilder::v5().version(BarcodeVersion::V4);
    assert_eq!(b.version, BarcodeVersion::V4);
    assert_eq!(BarcodeVersion::default(), BarcodeVersion::V5);
}
