//! What can go wrong with a row or with a transaction.

use vstd::prelude::*;

verus! {

/// The reasons for which a row or a transaction is turned down.
#[derive(Clone, Copy, Debug, PartialEq, Eq, Structural)]
pub enum CustomError {
    /// The first field of a row is not the keyword of an action.
    UndefinedAction,
    /// A field does not hold an amount of money.
    DecimalParseError,
    /// A field does not hold an identifier.
    IntParseError,
    /// The source of the rows could not be opened or read.
    FileOpenError,
    /// A withdrawal asks for more than is available.
    AccountBalanceNotEnough,
    /// The account is locked.
    LockedAccount,
    /// The account already holds a transaction of this identifier.
    DuplicatedTransactionId,
    /// The account holds no transaction of this identifier.
    NonExistingTransactionId,
    /// The transaction referred to is not a deposit.
    UndefinedBehaviour,
    /// The transaction referred to is not under dispute.
    NotUnderDispute,
}

impl From<rust_decimal::Error> for CustomError {
    fn from(error: rust_decimal::Error) -> (r: CustomError) {
        CustomError::DecimalParseError
    }
}

impl vstd::std_specs::convert::FromSpecImpl<rust_decimal::Error> for CustomError {
    open spec fn obeys_from_spec() -> bool {
        true
    }

    open spec fn from_spec(error: rust_decimal::Error) -> CustomError {
        CustomError::DecimalParseError
    }
}

impl From<core::num::ParseIntError> for CustomError {
    fn from(error: core::num::ParseIntError) -> (r: CustomError) {
        CustomError::IntParseError
    }
}

impl vstd::std_specs::convert::FromSpecImpl<core::num::ParseIntError> for CustomError {
    open spec fn obeys_from_spec() -> bool {
        true
    }

    open spec fn from_spec(error: core::num::ParseIntError) -> CustomError {
        CustomError::IntParseError
    }
}

} // verus!
