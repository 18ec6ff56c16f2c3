//! Finnish bank barcode (pankkiviivakoodi) encoding with verified contracts.
//!
//! A `BarcodeBuilder` collects the account, amount, reference and due date; `build` checks
//! them and gives a `Barcode`, whose `to_string` is the 54-digit string that a barcode prints.

pub mod account;
pub mod barcode;
pub mod date;
pub mod digits;
pub mod laws;
pub mod text;

pub use account::Account;
pub use barcode::{
    AccountInput, Barcode, BarcodeBuilder, BarcodeVersion, BuilderError, DueDateInput, ErrorKind,
};
pub use date::CalendarDate;
