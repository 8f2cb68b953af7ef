//! Actions and transactions, and how a row is decoded into one.

use crate::amount::{amount_of_text, Amount};
use crate::error::CustomError;
use crate::integer::{parsed_unsigned, u16_from_str, u32_from_str};
use crate::record::{record_field, record_fields};
use csv_async::StringRecord;
use vstd::prelude::*;

verus! {

/// Identifies a client, and so an account.
pub type ClientId = u16;

/// Identifies a transaction among those of one client.
pub type TransactionId = u32;

/// What a transaction asks for.
#[derive(Clone, Copy, Debug, PartialEq, Eq, Structural)]
pub enum Action {
    Deposit,
    Withdrawal,
    Dispute,
    Resolve,
    Chargeback,
}

/// One decoded row. A deposit or a withdrawal carries its amount; the other
/// actions refer to an earlier transaction by its identifier.
#[derive(Clone, Copy, Debug, PartialEq, Eq, Structural)]
pub struct Transaction {
    pub action_type: Action,
    pub client_id: ClientId,
    pub transaction_id: TransactionId,
    pub decimal: Option<Amount>,
    pub is_under_dispute: bool,
}

/// The action that a keyword names, if it names one.
pub open spec fn action_of_keyword(keyword: Seq<char>) -> Option<Action> {
    if keyword == "deposit"@ {
        Some(Action::Deposit)
    } else if keyword == "withdrawal"@ {
        Some(Action::Withdrawal)
    } else if keyword == "dispute"@ {
        Some(Action::Dispute)
    } else if keyword == "resolve"@ {
        Some(Action::Resolve)
    } else if keyword == "chargeback"@ {
        Some(Action::Chargeback)
    } else {
        None
    }
}

/// The transaction that the fields of a row decode to. The fields are read
/// in their order and the first that fails decides the error; a field that
/// the row lacks fails as one that cannot be read.
pub open spec fn decode(fields: Seq<Seq<char>>) -> Result<Transaction, CustomError> {
    if fields.len() < 1 || action_of_keyword(fields[0]) is None {
        Err(CustomError::UndefinedAction)
    } else if fields.len() < 2 || parsed_unsigned(fields[1], u16::MAX as int) is None {
        Err(CustomError::IntParseError)
    } else if fields.len() < 3 || parsed_unsigned(fields[2], u32::MAX as int) is None {
        Err(CustomError::IntParseError)
    } else {
        let action = action_of_keyword(fields[0])->0;
        let client = parsed_unsigned(fields[1], u16::MAX as int)->0 as u16;
        let id = parsed_unsigned(fields[2], u32::MAX as int)->0 as u32;
        if !action.is_monetary() {
            Ok(Transaction::assemble(action, client, id, None))
        } else if fields.len() < 4 || amount_of_text(fields[3]) is None {
            Err(CustomError::DecimalParseError)
        } else {
            Ok(Transaction::assemble(action, client, id, amount_of_text(fields[3])))
        }
    }
}

/// Whether two texts are the same.
fn same_text(a: &str, b: &str) -> (r: bool)
    ensures
        r == (a@ == b@),
{
    let x: String = a.to_owned();
    let y: String = b.to_owned();
    x == y
}

impl Action {
    /// Whether the action moves an amount of its own: a deposit or a
    /// withdrawal.
    pub open spec fn is_monetary(self) -> bool {
        self == Action::Deposit || self == Action::Withdrawal
    }

    /// Whether the action moves an amount of its own.
    pub fn carries_amount(&self) -> (r: bool)
        ensures
            r == self.is_monetary(),
    {
        match self {
            Action::Deposit => true,
            Action::Withdrawal => true,
            _ => false,
        }
    }

    /// Reads the keyword of an action.
    pub fn from_str(s: &str) -> (r: Result<Action, CustomError>)
        ensures
            r == match action_of_keyword(s@) {
                Some(action) => Ok::<Action, CustomError>(action),
                None => Err(CustomError::UndefinedAction),
            },
    {
        if same_text(s, "deposit") {
            Ok(Action::Deposit)
        } else if same_text(s, "withdrawal") {
            Ok(Action::Withdrawal)
        } else if same_text(s, "dispute") {
            Ok(Action::Dispute)
        } else if same_text(s, "resolve") {
            Ok(Action::Resolve)
        } else if same_text(s, "chargeback") {
            Ok(Action::Chargeback)
        } else {
            Err(CustomError::UndefinedAction)
        }
    }
}

impl Transaction {
    /// A transaction is well formed when a deposit or a withdrawal carries
    /// its amount, and the amount, where there is one, is well formed.
    pub open spec fn wf(self) -> bool {
        &&& self.action_type.is_monetary() ==> self.decimal is Some
        &&& self.decimal matches Some(amount) ==> amount.wf()
    }

    /// Tells whether the transaction is well formed.
    pub fn is_wf(&self) -> (r: bool)
        ensures
            r == self.wf(),
    {
        match self.decimal {
            Some(amount) => amount.is_wf(),
            None => !self.action_type.carries_amount(),
        }
    }

    /// The amount that the transaction carries, in ten-thousandths.
    pub open spec fn amount(self) -> int {
        match self.decimal {
            Some(amount) => amount@,
            None => 0,
        }
    }

    /// A transaction as a row gives it: not under dispute.
    pub open spec fn assemble(
        action_type: Action,
        client_id: ClientId,
        transaction_id: TransactionId,
        decimal: Option<Amount>,
    ) -> Transaction {
        Transaction { action_type, client_id, transaction_id, decimal, is_under_dispute: false }
    }

    /// Decodes a row: the keyword of the action, the client, the identifier
    /// of the transaction and, for a deposit or a withdrawal, the amount.
    pub fn from_record(record: &StringRecord) -> (r: Result<Transaction, CustomError>)
        ensures
            r == decode(record_fields(*record)),
            r matches Ok(transaction) ==> transaction.wf(),
    {
        let action_type: Action = match record_field(record, 0) {
            Some(text) => match Action::from_str(text) {
                Ok(action) => action,
                Err(error) => {
                    return Err(error);
                },
            },
            None => {
                return Err(CustomError::UndefinedAction);
            },
        };
        let client_id: ClientId = match record_field(record, 1) {
            Some(text) => match u16_from_str(text) {
                Ok(id) => id,
                Err(error) => {
                    return Err(CustomError::from(error));
                },
            },
            None => {
                return Err(CustomError::IntParseError);
            },
        };
        let transaction_id: TransactionId = match record_field(record, 2) {
            Some(text) => match u32_from_str(text) {
                Ok(id) => id,
                Err(error) => {
                    return Err(CustomError::from(error));
                },
            },
            None => {
                return Err(CustomError::IntParseError);
            },
        };
        if action_type.carries_amount() {
            let decimal: Amount = match record_field(record, 3) {
                Some(text) => match Amount::parse(text) {
                    Ok(amount) => amount,
                    Err(error) => {
                        return Err(error);
                    },
                },
                None => {
                    return Err(CustomError::DecimalParseError);
                },
            };
            Ok(Transaction::_new(action_type, client_id, transaction_id, Some(decimal), false))
        } else {
            Ok(Transaction::_new(action_type, client_id, transaction_id, None, false))
        }
    }

    /// The action of the transaction.
    pub fn get_action_type(&self) -> (r: Action)
        ensures
            r == self.action_type,
    {
        self.action_type
    }

    /// The client of the transaction.
    pub fn get_client_id(&self) -> (r: ClientId)
        ensures
            r == self.client_id,
    {
        self.client_id
    }

    /// A transaction of the given parts.
    pub fn _new(
        action_type: Action,
        client_id: ClientId,
        transaction_id: TransactionId,
        decimal: Option<Amount>,
        is_under_dispute: bool,
    ) -> (r: Transaction)
        ensures
            r == (Transaction { action_type, client_id, transaction_id, decimal, is_under_dispute }),
    {
        Transaction { action_type, client_id, transaction_id, decimal, is_under_dispute }
    }
}

} // verus!
