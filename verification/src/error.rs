//! Why an operation of the marketplace did not go through.

use anchor_lang::prelude::ProgramError;
use vstd::prelude::*;

verus! {

/// The rule that a request broke.
#[derive(Clone, Copy, Debug, PartialEq, Eq, Hash, Structural)]
pub enum ErrorCode {
    /// The metadata URI is longer than 200 bytes.
    MetadataUriTooLong,
    /// The city name is empty or longer than 50 bytes.
    CityNameTooLong,
    /// The country code is not 2 or 3 bytes long.
    CountryCodeInvalid,
    /// The upper height is not above the lower one.
    InvalidHeightRange,
    /// The price is zero.
    InvalidPrice,
    /// The listing has been sold, leased or cancelled.
    ListingNotActive,
    /// The listing is offered for lease, not for sale.
    NotForSale,
    /// The listing is offered for sale, not for lease.
    NotForLease,
    /// The caller does not own the listing.
    Unauthorized,
}

/// The text shown to a caller for each broken rule.
pub open spec fn message_of(code: ErrorCode) -> Seq<char> {
    match code {
        ErrorCode::MetadataUriTooLong => "Metadata URI exceeds maximum length"@,
        ErrorCode::CityNameTooLong => "City name exceeds maximum length"@,
        ErrorCode::CountryCodeInvalid => "Country code must be 2-3 characters"@,
        ErrorCode::InvalidHeightRange => "Invalid height range"@,
        ErrorCode::InvalidPrice => "Invalid price"@,
        ErrorCode::ListingNotActive => "Listing is not active"@,
        ErrorCode::NotForSale => "Listing is not for sale"@,
        ErrorCode::NotForLease => "Listing is not for lease"@,
        ErrorCode::Unauthorized => "Unauthorized"@,
    }
}

impl ErrorCode {
    /// The text shown to a caller for this code.
    pub fn message(&self) -> (text: &'static str)
        ensures
            text@ == message_of(*self),
    {
        match self {
            ErrorCode::MetadataUriTooLong => "Metadata URI exceeds maximum length",
            ErrorCode::CityNameTooLong => "City name exceeds maximum length",
            ErrorCode::CountryCodeInvalid => "Country code must be 2-3 characters",
            ErrorCode::InvalidHeightRange => "Invalid height range",
            ErrorCode::InvalidPrice => "Invalid price",
            ErrorCode::ListingNotActive => "Listing is not active",
            ErrorCode::NotForSale => "Listing is not for sale",
            ErrorCode::NotForLease => "Listing is not for lease",
            ErrorCode::Unauthorized => "Unauthorized",
        }
    }
}

/// Why the ledger declined to move funds.
#[derive(Clone, Copy, Debug, PartialEq, Eq, Hash, Structural)]
pub enum TransferError {
    /// The payer's balance does not cover the amount.
    InsufficientFunds,
    /// The payer did not authorise the transfer.
    Unauthorized,
}

/// Every way in which an operation can end without effect.
#[derive(Debug, PartialEq, Eq)]
pub enum Failure {
    /// The request broke a rule of the marketplace.
    Rejected(ErrorCode),
    /// A counter, an amount or a date left the range of its type.
    Arithmetic,
    /// The ledger declined a transfer.
    Ledger(TransferError),
    /// The runtime refused to tell the time; its error is passed on as it came.
    Clock(ProgramError),
    /// A settlement was told of an event that it was not waiting for.
    OutOfTurn,
}

} // verus!
