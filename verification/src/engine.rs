//! The engine: it keeps the account of every client, hands each transaction
//! to the account it is for, and decides what follows when one is turned
//! down.

use crate::account::{Account, AccountState, AccountSummary};
use crate::error::CustomError;
use crate::record::record_fields;
use crate::transaction::{decode, ClientId, Transaction};
use csv_async::StringRecord;
use std::collections::HashMap;
use vstd::prelude::*;
use vstd::std_specs::iter::IteratorSpec;

verus! {

broadcast use vstd::std_specs::hash::group_hash_axioms;

/// The accounts of a ledger, in the terms in which its rules are stated.
pub type Ledger = Map<ClientId, AccountState>;

/// How grave a failure is.
#[derive(Clone, Copy, Debug, PartialEq, Eq, Structural)]
pub enum Severity {
    /// The input cannot be trusted: the run stops.
    Fatal,
    /// A rule of the ledger turned one transaction down: the run goes on.
    Recoverable,
}

/// What became of one row.
#[derive(Clone, Copy, Debug, PartialEq, Eq, Structural)]
pub enum Step {
    /// Its transaction was applied.
    Applied,
    /// Its transaction was turned down, for the reason given, and is passed
    /// over.
    Skipped(Transaction, CustomError),
    /// The run stops here.
    Halted(CustomError),
}

/// How grave each failure is: a row that cannot be read, or a source that
/// cannot be, is fatal; what the rules of an account turn down is not.
pub open spec fn severity(error: CustomError) -> Severity {
    match error {
        CustomError::UndefinedAction => Severity::Fatal,
        CustomError::DecimalParseError => Severity::Fatal,
        CustomError::IntParseError => Severity::Fatal,
        CustomError::FileOpenError => Severity::Fatal,
        CustomError::AccountBalanceNotEnough => Severity::Recoverable,
        CustomError::LockedAccount => Severity::Recoverable,
        CustomError::DuplicatedTransactionId => Severity::Recoverable,
        CustomError::NonExistingTransactionId => Severity::Recoverable,
        CustomError::UndefinedBehaviour => Severity::Recoverable,
        CustomError::NotUnderDispute => Severity::Recoverable,
    }
}

/// What follows when a transaction fails: the run stops on a fatal failure
/// and passes over the transaction on any other.
pub open spec fn verdict(transaction: Transaction, error: CustomError) -> Step {
    if severity(error) == Severity::Fatal {
        Step::Halted(error)
    } else {
        Step::Skipped(transaction, error)
    }
}

/// The invariant of a ledger: every account is well formed and is kept
/// under the client that it belongs to.
pub open spec fn ledger_wf(ledger: Ledger) -> bool {
    forall|id: ClientId| #[trigger]
        ledger.contains_key(id) ==> ledger[id].wf() && ledger[id].client_id == id
}

/// The account of a client: the one that the ledger keeps, or a fresh one
/// where the client has not been seen.
pub open spec fn account_of(ledger: Ledger, id: ClientId) -> AccountState {
    if ledger.contains_key(id) {
        ledger[id]
    } else {
        AccountState::fresh(id)
    }
}

/// Whether the account that a transaction is for can take it.
pub open spec fn within_limits(ledger: Ledger, transaction: Transaction) -> bool {
    account_of(ledger, transaction.client_id).within_limits(transaction)
}

/// A transaction handed to the account of its client, which is opened
/// first where the client is new and stays in the ledger whether the
/// transaction is applied or turned down.
pub open spec fn route(ledger: Ledger, transaction: Transaction) -> (Ledger, Result<
    (),
    CustomError,
>) {
    let account = account_of(ledger, transaction.client_id);
    (ledger.insert(transaction.client_id, account.after(transaction)), account.outcome(transaction))
}

/// One row: it is decoded and its transaction routed. A row that cannot be
/// decoded stops the run and leaves the ledger as it was. `None` where the
/// account cannot take the transaction.
pub open spec fn step(ledger: Ledger, fields: Seq<Seq<char>>) -> Option<(Ledger, Step)> {
    match decode(fields) {
        Err(error) => Some((ledger, Step::Halted(error))),
        Ok(transaction) => if within_limits(ledger, transaction) {
            match route(ledger, transaction).1 {
                Ok(_) => Some((route(ledger, transaction).0, Step::Applied)),
                Err(error) => Some((route(ledger, transaction).0, verdict(transaction, error))),
            }
        } else {
            None
        },
    }
}

/// The rows from the one at `from` on, one after the other, up to the
/// first at which the run stops: the ledger that is left, and `Ok` after
/// the last row, the fatal error at the row that had it, or `None` at a row
/// whose transaction the account cannot take.
pub open spec fn run_from(ledger: Ledger, rows: Seq<Seq<Seq<char>>>, from: int) -> (Ledger, Option<
    Result<(), CustomError>,
>)
    decreases rows.len() - from,
{
    if from < 0 || from >= rows.len() {
        (ledger, Some(Ok(())))
    } else {
        match step(ledger, rows[from]) {
            None => (ledger, None),
            Some((next, Step::Halted(error))) => (next, Some(Err(error))),
            Some((next, _)) => run_from(next, rows, from + 1),
        }
    }
}

/// A whole run over the rows.
pub open spec fn run(ledger: Ledger, rows: Seq<Seq<Seq<char>>>) -> (Ledger, Option<
    Result<(), CustomError>,
>) {
    run_from(ledger, rows, 0)
}

/// The fields of each of the records.
pub open spec fn rows_of(records: Seq<StringRecord>) -> Seq<Seq<Seq<char>>> {
    Seq::new(records.len(), |i: int| record_fields(records[i]))
}

/// Whether `rows` reports the accounts of a ledger: each account once, with
/// its balances and its lock, in any order.
pub open spec fn is_snapshot_of(rows: Seq<AccountSummary>, ledger: Ledger) -> bool {
    &&& rows.len() == ledger.dom().len()
    &&& forall|i: int| 0 <= i < rows.len() ==> (#[trigger] rows[i]).wf()
    &&& forall|i: int|
        0 <= i < rows.len() ==> ledger.contains_key(#[trigger] rows[i].client_id) && rows[i]
            == ledger[rows[i].client_id].summary()
    &&& forall|i: int, j: int|
        0 <= i < j < rows.len() ==> #[trigger] rows[i].client_id != #[trigger] rows[j].client_id
    &&& forall|id: ClientId| #[trigger]
        ledger.contains_key(id) ==> exists|i: int|
            0 <= i < rows.len() && #[trigger] rows[i].client_id == id
}

/// The transaction engine.
pub struct Engine {
    clients: HashMap<ClientId, Account>,
}

impl View for Engine {
    type V = Ledger;

    closed spec fn view(&self) -> Ledger {
        Map::new(|id: ClientId| self.clients@.contains_key(id), |id: ClientId| self.clients@[id]@)
    }
}

/// Decides how grave a failure is.
pub fn classify(error: CustomError) -> (r: Severity)
    ensures
        r == severity(error),
{
    match error {
        CustomError::UndefinedAction
        | CustomError::DecimalParseError
        | CustomError::IntParseError
        | CustomError::FileOpenError => Severity::Fatal,
        CustomError::AccountBalanceNotEnough
        | CustomError::LockedAccount
        | CustomError::UndefinedBehaviour
        | CustomError::NonExistingTransactionId
        | CustomError::DuplicatedTransactionId
        | CustomError::NotUnderDispute => Severity::Recoverable,
    }
}

/// Decides what follows when a transaction fails.
pub fn decide(transaction: Transaction, error: CustomError) -> (r: Step)
    ensures
        r == verdict(transaction, error),
{
    match classify(error) {
        Severity::Fatal => Step::Halted(error),
        Severity::Recoverable => Step::Skipped(transaction, error),
    }
}

impl Engine {
    /// An engine is well formed when its ledger is.
    pub open spec fn wf(&self) -> bool {
        ledger_wf(self@)
    }

    /// An engine that has seen no client yet.
    pub fn new() -> (r: Engine)
        ensures
            r@ == Map::<ClientId, AccountState>::empty(),
            r.wf(),
    {
        let r = Engine { clients: HashMap::new() };
        assert(r@ =~= Map::<ClientId, AccountState>::empty());
        r
    }

    /// Hands a transaction to the account of its client, as `route` says.
    /// Where that account cannot take it, the ledger is left as it was and
    /// `None` is returned.
    pub fn route(&mut self, transaction: Transaction) -> (r: Option<Result<(), CustomError>>)
        requires
            old(self).wf(),
            transaction.wf(),
        ensures
            final(self).wf(),
            r == (if within_limits(old(self)@, transaction) {
                Some(route(old(self)@, transaction).1)
            } else {
                None
            }),
            final(self)@ == (if within_limits(old(self)@, transaction) {
                route(old(self)@, transaction).0
            } else {
                old(self)@
            }),
    {
        let client_id: ClientId = transaction.get_client_id();
        match self.clients.remove(&client_id) {
            Some(account) => {
                let mut account = account;
                let outcome = account.try_handle_transaction(transaction);
                self.clients.insert(client_id, account);
                proof {
                    if outcome is None {
                        assert(self@ =~= old(self)@);
                    } else {
                        assert(self@ =~= route(old(self)@, transaction).0);
                    }
                }
                outcome
            },
            None => {
                let mut account = Account::new(client_id);
                match account.try_handle_transaction(transaction) {
                    Some(outcome) => {
                        self.clients.insert(client_id, account);
                        assert(self@ =~= route(old(self)@, transaction).0);
                        Some(outcome)
                    },
                    None => {
                        assert(self@ =~= old(self)@);
                        None
                    },
                }
            },
        }
    }

    /// Takes one row: decodes it, routes its transaction, and decides what
    /// follows where either fails, as `step` says. `None`, and the ledger
    /// as it was, where the account cannot take the transaction.
    pub fn process_record(&mut self, record: &StringRecord) -> (r: Option<Step>)
        requires
            old(self).wf(),
        ensures
            final(self).wf(),
            match step(old(self)@, record_fields(*record)) {
                Some((next, outcome)) => r == Some(outcome) && final(self)@ == next,
                None => r is None && final(self)@ == old(self)@,
            },
    {
        match Transaction::from_record(record) {
            Err(error) => Some(Step::Halted(error)),
            Ok(transaction) => match self.route(transaction) {
                None => None,
                Some(Ok(_)) => Some(Step::Applied),
                Some(Err(error)) => Some(decide(transaction, error)),
            },
        }
    }

    /// Takes the rows one after the other, as `run` says, and stops at the
    /// first that is fatal. After the last row the accounts are reported;
    /// a run that stops before reports none.
    pub fn process(&mut self, records: &Vec<StringRecord>) -> (r: Option<
        Result<Vec<AccountSummary>, CustomError>,
    >)
        requires
            old(self).wf(),
        ensures
            final(self).wf(),
            final(self)@ == run(old(self)@, rows_of(records@)).0,
            match run(old(self)@, rows_of(records@)).1 {
                None => r is None,
                Some(Err(error)) => r == Some(Err::<Vec<AccountSummary>, CustomError>(error)),
                Some(Ok(_)) => r matches Some(Ok(rows)) && is_snapshot_of(rows@, final(self)@),
            },
    {
        let ghost rows = rows_of(records@);
        let mut i: usize = 0;
        while i < records.len()
            invariant
                i <= records.len(),
                rows == rows_of(records@),
                self.wf(),
                run_from(self@, rows, i as int) == run(old(self)@, rows),
            decreases records.len() - i,
        {
            match self.process_record(&records[i]) {
                None => {
                    return None;
                },
                Some(Step::Halted(error)) => {
                    return Some(Err(error));
                },
                Some(_) => {},
            }
            i = i + 1;
        }
        Some(Ok(self.snapshot()))
    }

    /// Reports every account, each once, in no particular order.
    pub fn snapshot(&self) -> (rows: Vec<AccountSummary>)
        requires
            self.wf(),
        ensures
            is_snapshot_of(rows@, self@),
    {
        let mut rows: Vec<AccountSummary> = Vec::new();
        let ghost pairs = self.clients.iter().remaining();
        assert forall|id: ClientId| #[trigger] self.clients@.contains_key(id) implies self.clients@[id].wf() by {
            assert(self@.contains_key(id));
        }
        for pair in it: self.clients.iter()
            invariant
                it.seq() == pairs,
                rows@.len() == it.index(),
                forall|i: int| 0 <= i < rows@.len() ==> rows@[i] == (*pairs[i].1)@.summary(),
                forall|i: int| 0 <= i < rows@.len() ==> (#[trigger] rows@[i]).wf(),
                forall|i: int|
                    0 <= i < pairs.len() ==> self.clients@.contains_key(*(#[trigger] pairs[i]).0)
                        && self.clients@[*pairs[i].0] == *pairs[i].1,
                forall|id: ClientId| #[trigger]
                    self.clients@.contains_key(id) ==> self.clients@[id].wf(),
        {
            assert(pair == pairs[rows@.len() as int]);
            rows.push(pair.1.summary());
        }
        proof {
            assert(self@.dom() =~= self.clients@.dom());
            assert forall|i: int| 0 <= i < rows@.len() implies {
                &&& #[trigger] rows@[i].client_id == *pairs[i].0
                &&& self@.contains_key(rows@[i].client_id)
                &&& rows@[i] == self@[rows@[i].client_id].summary()
            } by {
                assert(self.clients@.contains_key(*pairs[i].0));
                assert(self@.contains_key(*pairs[i].0));
            }
            assert forall|i: int, j: int| 0 <= i < j < rows@.len() implies #[trigger] rows@[i].client_id
                != #[trigger] rows@[j].client_id by {
                if rows@[i].client_id == rows@[j].client_id {
                    assert(self.clients@.contains_key(*pairs[i].0));
                    assert(self.clients@.contains_key(*pairs[j].0));
                    assert(pairs[i] == pairs[j]);
                }
            }
            assert forall|id: ClientId| #[trigger] self@.contains_key(id) implies exists|i: int|
                0 <= i < rows@.len() && #[trigger] rows@[i].client_id == id by {
                assert(self.clients@.contains_key(id));
                assert(pairs.contains((&id, &self.clients@[id])));
                let i = choose|i: int| 0 <= i < pairs.len() && pairs[i] == (&id, &self.clients@[id]);
                assert(rows@[i].client_id == id);
            }
        }
        rows
    }
}

} // verus!
