//! The errors an operation can end in, and the family each belongs to.

use vstd::prelude::*;
use vstd::string::StringExecFns;

verus! {

/// The families of failure.
#[derive(Clone, Copy, Debug, PartialEq, Eq, Structural, Hash)]
pub enum ErrorCategory {
    /// The caller lacks the capability the operation asks for.
    Authorization,
    /// A bounded resource would be exceeded.
    Capacity,
    /// A record is in a state that forbids the operation.
    State,
    /// A record was to be created where one already exists.
    DuplicateRecord,
    /// A counter or a payout computation left its range.
    Arithmetic,
}

/// Why an operation was refused. A refused operation changes nothing.
#[derive(Clone, Copy, Debug, PartialEq, Eq, Structural, Hash)]
pub enum PlatformError {
    /// The issuer is not on the platform's allow-list.
    UnauthorizedIssuer,
    /// The request would sell more shares than the property has.
    InsufficientTokensAvailable,
    /// The claimant holds no shares of the property.
    NoTokensOwned,
    /// The caller is not the platform's authority.
    Unauthorized,
    /// The allow-list already holds as many issuers as it can.
    IssuerCapacityExceeded,
    /// A text field is longer than its record leaves room for.
    TextTooLong,
    /// The issuer is already on the allow-list.
    IssuerAlreadyAuthorized,
    /// No record of the needed shape lives at the address.
    RecordNotFound,
    /// A record already lives at the address.
    DuplicateRecord,
    /// A counter or an amount would exceed 64 bits.
    ArithmeticOverflow,
    /// The payout would divide by a share supply of zero.
    DivisionByZero,
    /// The platform's liquid balance does not cover the payout.
    InsufficientFunds,
}

impl PlatformError {
    /// The family of each error.
    pub open spec fn category_of(self) -> ErrorCategory {
        match self {
            PlatformError::UnauthorizedIssuer => ErrorCategory::Authorization,
            PlatformError::Unauthorized => ErrorCategory::Authorization,
            PlatformError::InsufficientTokensAvailable => ErrorCategory::Capacity,
            PlatformError::IssuerCapacityExceeded => ErrorCategory::Capacity,
            PlatformError::TextTooLong => ErrorCategory::Capacity,
            PlatformError::NoTokensOwned => ErrorCategory::State,
            PlatformError::IssuerAlreadyAuthorized => ErrorCategory::State,
            PlatformError::RecordNotFound => ErrorCategory::State,
            PlatformError::DuplicateRecord => ErrorCategory::DuplicateRecord,
            PlatformError::ArithmeticOverflow => ErrorCategory::Arithmetic,
            PlatformError::DivisionByZero => ErrorCategory::Arithmetic,
            PlatformError::InsufficientFunds => ErrorCategory::Arithmetic,
        }
    }

    /// The family this error belongs to.
    pub fn category(&self) -> (category: ErrorCategory)
        ensures
            category == self.category_of(),
    {
        match self {
            PlatformError::UnauthorizedIssuer | PlatformError::Unauthorized => {
                ErrorCategory::Authorization
            },
            PlatformError::InsufficientTokensAvailable
            | PlatformError::IssuerCapacityExceeded
            | PlatformError::TextTooLong => ErrorCategory::Capacity,
            PlatformError::NoTokensOwned
            | PlatformError::IssuerAlreadyAuthorized
            | PlatformError::RecordNotFound => ErrorCategory::State,
            PlatformError::DuplicateRecord => ErrorCategory::DuplicateRecord,
            PlatformError::ArithmeticOverflow
            | PlatformError::DivisionByZero
            | PlatformError::InsufficientFunds => ErrorCategory::Arithmetic,
        }
    }

    /// The text shown to a caller for each error.
    pub open spec fn message_of(self) -> Seq<char> {
        match self {
            PlatformError::UnauthorizedIssuer => "Unauthorized issuer"@,
            PlatformError::InsufficientTokensAvailable => "Insufficient tokens available"@,
            PlatformError::NoTokensOwned => "No tokens owned"@,
            PlatformError::Unauthorized => "Caller is not the platform authority"@,
            PlatformError::IssuerCapacityExceeded => "Issuer list is full"@,
            PlatformError::TextTooLong => "Text field too long"@,
            PlatformError::IssuerAlreadyAuthorized => "Issuer already authorized"@,
            PlatformError::RecordNotFound => "Record not found"@,
            PlatformError::DuplicateRecord => "Record already exists"@,
            PlatformError::ArithmeticOverflow => "Arithmetic overflow"@,
            PlatformError::DivisionByZero => "Division by zero"@,
            PlatformError::InsufficientFunds => "Insufficient platform balance"@,
        }
    }

    /// The text shown to a caller for this error.
    pub fn message(&self) -> (text: String)
        ensures
            text@ == self.message_of(),
    {
        match self {
            PlatformError::UnauthorizedIssuer => String::from_str("Unauthorized issuer"),
            PlatformError::InsufficientTokensAvailable => {
                String::from_str("Insufficient tokens available")
            },
            PlatformError::NoTokensOwned => String::from_str("No tokens owned"),
            PlatformError::Unauthorized => {
                String::from_str("Caller is not the platform authority")
            },
            PlatformError::IssuerCapacityExceeded => String::from_str("Issuer list is full"),
            PlatformError::TextTooLong => String::from_str("Text field too long"),
            PlatformError::IssuerAlreadyAuthorized => {
                String::from_str("Issuer already authorized")
            },
            PlatformError::RecordNotFound => String::from_str("Record not found"),
            PlatformError::DuplicateRecord => String::from_str("Record already exists"),
            PlatformError::ArithmeticOverflow => String::from_str("Arithmetic overflow"),
            PlatformError::DivisionByZero => String::from_str("Division by zero"),
            PlatformError::InsufficientFunds => {
                String::from_str("Insufficient platform balance")
            },
        }
    }
}

} // verus!
