//! The account of one client: its balances, its lock, and the deposits and
//! withdrawals that a later dispute may refer to.

use crate::amount::Amount;
use crate::decimal::is_mantissa;
use crate::error::CustomError;
use crate::transaction::{Action, ClientId, Transaction, TransactionId};
use std::collections::HashMap;
use vstd::prelude::*;

verus! {

broadcast use vstd::std_specs::hash::group_hash_axioms;

/// What an account is, in the terms in which the rules of the ledger are
/// stated: the balances are whole numbers of ten-thousandths.
pub struct AccountState {
    pub client_id: ClientId,
    pub transactions: Map<TransactionId, Transaction>,
    pub locked: bool,
    pub available: int,
    pub held: int,
    pub total: int,
}

/// The balances and the lock of one account, as they are reported.
#[derive(Clone, Copy, Debug, PartialEq, Eq, Structural)]
pub struct AccountSummary {
    pub client_id: ClientId,
    pub available: Amount,
    pub held: Amount,
    pub total: Amount,
    pub locked: bool,
}

/// What one identifier adds to what is held: the amount of the deposit
/// stored under it, where there is one and it is under dispute.
pub open spec fn held_part(transactions: Map<TransactionId, Transaction>, id: TransactionId) -> int {
    if transactions.contains_key(id) && transactions[id].action_type == Action::Deposit
        && transactions[id].is_under_dispute {
        transactions[id].amount()
    } else {
        0
    }
}

/// What the identifiers below `bound` add to what is held.
pub open spec fn held_below(transactions: Map<TransactionId, Transaction>, bound: nat) -> int
    decreases bound,
{
    if bound == 0 {
        0
    } else {
        held_below(transactions, (bound - 1) as nat) + held_part(
            transactions,
            (bound - 1) as TransactionId,
        )
    }
}

/// The amounts of all the deposits under dispute, together.
pub open spec fn held_sum(transactions: Map<TransactionId, Transaction>) -> int {
    held_below(transactions, 0x1_0000_0000)
}

/// Where nothing is stored, nothing is under dispute.
proof fn lemma_nothing_stored_nothing_held(bound: nat)
    ensures
        held_below(Map::<TransactionId, Transaction>::empty(), bound) == 0,
    decreases bound,
{
    if bound > 0 {
        lemma_nothing_stored_nothing_held((bound - 1) as nat);
    }
}

/// Where what is stored changes under one identifier only, the sum changes
/// by what that identifier adds after and before.
proof fn lemma_held_changes_at(
    before: Map<TransactionId, Transaction>,
    after: Map<TransactionId, Transaction>,
    id: TransactionId,
    bound: nat,
)
    requires
        bound <= 0x1_0000_0000,
        forall|other: TransactionId|
            other != id ==> #[trigger] held_part(after, other) == held_part(before, other),
    ensures
        held_below(after, bound) == held_below(before, bound) + (if id < bound {
            held_part(after, id) - held_part(before, id)
        } else {
            0
        }),
    decreases bound,
{
    if bound > 0 {
        lemma_held_changes_at(before, after, id, (bound - 1) as nat);
    }
}

impl AccountSummary {
    /// A summary is well formed when its three amounts are.
    pub open spec fn wf(self) -> bool {
        self.available.wf() && self.held.wf() && self.total.wf()
    }

    /// Tells whether the summary is well formed.
    pub fn is_wf(&self) -> (r: bool)
        ensures
            r == self.wf(),
    {
        self.available.is_wf() && self.held.is_wf() && self.total.is_wf()
    }
}

impl AccountState {
    /// The account of a client of whom nothing has been seen yet.
    pub open spec fn fresh(client_id: ClientId) -> AccountState {
        AccountState {
            client_id,
            transactions: Map::empty(),
            locked: false,
            available: 0,
            held: 0,
            total: 0,
        }
    }

    /// Whether amounts of money can hold the three balances.
    pub open spec fn fits(self) -> bool {
        is_mantissa(self.available) && is_mantissa(self.held) && is_mantissa(self.total)
    }

    /// The invariant of an account: the total is what is available and what
    /// is held together, what is held is the amounts of the deposits under
    /// dispute, each counted once, the balances fit, and what is stored
    /// under an identifier is a deposit or a withdrawal of that identifier.
    pub open spec fn wf(self) -> bool {
        &&& self.total == self.available + self.held
        &&& self.held == held_sum(self.transactions)
        &&& self.fits()
        &&& forall|id: TransactionId| #[trigger]
            self.transactions.contains_key(id) ==> {
                &&& self.transactions[id].transaction_id == id
                &&& self.transactions[id].action_type.is_monetary()
                &&& self.transactions[id].wf()
            }
    }

    /// The account with a transaction stored under an identifier.
    pub open spec fn storing(self, id: TransactionId, transaction: Transaction) -> AccountState {
        AccountState { transactions: self.transactions.insert(id, transaction), ..self }
    }

    /// A deposit: turned down where its identifier is in use; else the
    /// amount is added to what is available and to the total, and the
    /// deposit is stored, not under dispute.
    pub open spec fn deposit(self, transaction: Transaction) -> Result<AccountState, CustomError> {
        if self.transactions.contains_key(transaction.transaction_id) {
            Err(CustomError::DuplicatedTransactionId)
        } else {
            Ok(
                AccountState {
                    available: self.available + transaction.amount(),
                    total: self.total + transaction.amount(),
                    ..self
                }.storing(
                    transaction.transaction_id,
                    Transaction { is_under_dispute: false, ..transaction },
                ),
            )
        }
    }

    /// A withdrawal: turned down where its identifier is in use, and where
    /// it asks for more than is available; else the amount is taken from
    /// what is available and from the total, and the withdrawal is stored.
    pub open spec fn withdraw(self, transaction: Transaction) -> Result<AccountState, CustomError> {
        if self.transactions.contains_key(transaction.transaction_id) {
            Err(CustomError::DuplicatedTransactionId)
        } else if self.available < transaction.amount() {
            Err(CustomError::AccountBalanceNotEnough)
        } else {
            Ok(
                AccountState {
                    available: self.available - transaction.amount(),
                    total: self.total - transaction.amount(),
                    ..self
                }.storing(
                    transaction.transaction_id,
                    Transaction { is_under_dispute: false, ..transaction },
                ),
            )
        }
    }

    /// The deposit that a dispute, a resolve or a chargeback refers to.
    pub open spec fn deposit_at(self, id: TransactionId) -> Result<Transaction, CustomError> {
        if !self.transactions.contains_key(id) {
            Err(CustomError::NonExistingTransactionId)
        } else if self.transactions[id].action_type != Action::Deposit {
            Err(CustomError::UndefinedBehaviour)
        } else {
            Ok(self.transactions[id])
        }
    }

    /// A dispute: the amount of the deposit moves from what is available to
    /// what is held, and the deposit is under dispute from then on. A
    /// deposit that is under dispute already is not held a second time: the
    /// account stays as it is.
    pub open spec fn dispute(self, id: TransactionId) -> Result<AccountState, CustomError> {
        match self.deposit_at(id) {
            Err(error) => Err(error),
            Ok(deposit) => if deposit.is_under_dispute {
                Ok(self)
            } else {
                Ok(
                    AccountState {
                        available: self.available - deposit.amount(),
                        held: self.held + deposit.amount(),
                        ..self
                    }.storing(id, Transaction { is_under_dispute: true, ..deposit }),
                )
            },
        }
    }

    /// A resolve: turned down where the deposit is not under dispute; else
    /// its amount moves back from what is held to what is available, and
    /// the dispute is over.
    pub open spec fn resolve(self, id: TransactionId) -> Result<AccountState, CustomError> {
        match self.deposit_at(id) {
            Err(error) => Err(error),
            Ok(deposit) => if !deposit.is_under_dispute {
                Err(CustomError::NotUnderDispute)
            } else {
                Ok(
                    AccountState {
                        available: self.available + deposit.amount(),
                        held: self.held - deposit.amount(),
                        ..self
                    }.storing(id, Transaction { is_under_dispute: false, ..deposit }),
                )
            },
        }
    }

    /// A chargeback: turned down where the deposit is not under dispute;
    /// else its amount leaves what is held and the total, the dispute is
    /// over, and the account is locked.
    pub open spec fn chargeback(self, id: TransactionId) -> Result<AccountState, CustomError> {
        match self.deposit_at(id) {
            Err(error) => Err(error),
            Ok(deposit) => if !deposit.is_under_dispute {
                Err(CustomError::NotUnderDispute)
            } else {
                Ok(
                    AccountState {
                        held: self.held - deposit.amount(),
                        total: self.total - deposit.amount(),
                        locked: true,
                        ..self
                    }.storing(id, Transaction { is_under_dispute: false, ..deposit }),
                )
            },
        }
    }

    /// What a transaction does to the account: the account that it leaves,
    /// or the reason for which it is turned down. A locked account turns
    /// every transaction down.
    pub open spec fn apply(self, transaction: Transaction) -> Result<AccountState, CustomError> {
        if self.locked {
            Err(CustomError::LockedAccount)
        } else {
            match transaction.action_type {
                Action::Deposit => self.deposit(transaction),
                Action::Withdrawal => self.withdraw(transaction),
                Action::Dispute => self.dispute(transaction.transaction_id),
                Action::Resolve => self.resolve(transaction.transaction_id),
                Action::Chargeback => self.chargeback(transaction.transaction_id),
            }
        }
    }

    /// What is answered to a transaction: `Ok` where it is applied, the
    /// reason where it is turned down.
    pub open spec fn outcome(self, transaction: Transaction) -> Result<(), CustomError> {
        match self.apply(transaction) {
            Ok(_) => Ok(()),
            Err(error) => Err(error),
        }
    }

    /// The account after a transaction: changed where the transaction is
    /// applied, as it was where the transaction is turned down.
    pub open spec fn after(self, transaction: Transaction) -> AccountState {
        match self.apply(transaction) {
            Ok(next) => next,
            Err(_) => self,
        }
    }

    /// A fresh account is well formed.
    pub(crate) proof fn lemma_fresh_is_well_formed(client_id: ClientId)
        ensures
            AccountState::fresh(client_id).wf(),
    {
        lemma_nothing_stored_nothing_held(0x1_0000_0000);
    }

    /// In an account whose held balance is the amounts of the deposits
    /// under dispute, it is so after every transaction: no deposit is ever
    /// held twice, and none is held that is not under dispute.
    pub(crate) proof fn lemma_held_is_what_is_under_dispute(self, transaction: Transaction)
        requires
            self.held == held_sum(self.transactions),
        ensures
            self.after(transaction).held == held_sum(self.after(transaction).transactions),
    {
        lemma_held_changes_at(
            self.transactions,
            self.after(transaction).transactions,
            transaction.transaction_id,
            0x1_0000_0000,
        );
    }

    /// Whether the balances that a transaction leaves, where it is applied,
    /// are balances that amounts of money can hold.
    pub open spec fn within_limits(self, transaction: Transaction) -> bool {
        self.apply(transaction) matches Ok(next) ==> next.fits()
    }

    /// What is reported of the account.
    pub open spec fn summary(self) -> AccountSummary {
        AccountSummary {
            client_id: self.client_id,
            available: Amount { units: self.available as i128 },
            held: Amount { units: self.held as i128 },
            total: Amount { units: self.total as i128 },
            locked: self.locked,
        }
    }
}

/// The account of one client.
pub struct Account {
    client_id: ClientId,
    transactions: HashMap<TransactionId, Transaction>,
    is_locked: bool,
    available: Amount,
    held: Amount,
    total: Amount,
}

/// What applying a transaction changes: the balances, the lock, and the
/// transaction to store under the identifier that it bears.
struct Change {
    available: Amount,
    held: Amount,
    total: Amount,
    locked: bool,
    stored: Transaction,
}

impl View for Account {
    type V = AccountState;

    closed spec fn view(&self) -> AccountState {
        AccountState {
            client_id: self.client_id,
            transactions: self.transactions@,
            locked: self.is_locked,
            available: self.available@,
            held: self.held@,
            total: self.total@,
        }
    }
}

impl Account {
    /// An account is well formed when what it stands for is.
    pub open spec fn wf(&self) -> bool {
        self@.wf()
    }

    /// Whether a change leads from one state of the account to another.
    spec fn leads(change: Change, from: AccountState, to: AccountState) -> bool {
        to == AccountState {
            client_id: from.client_id,
            transactions: from.transactions.insert(change.stored.transaction_id, change.stored),
            locked: change.locked,
            available: change.available@,
            held: change.held@,
            total: change.total@,
        }
    }

    /// The account of a client of whom nothing has been seen yet.
    pub fn new(client_id: ClientId) -> (r: Account)
        ensures
            r@ == AccountState::fresh(client_id),
            r.wf(),
    {
        proof {
            lemma_nothing_stored_nothing_held(0x1_0000_0000);
        }
        Account {
            client_id,
            transactions: HashMap::new(),
            is_locked: false,
            available: Amount::new(0),
            held: Amount::new(0),
            total: Amount::new(0),
        }
    }

    /// The client whose account this is.
    pub fn client_id(&self) -> (r: ClientId)
        ensures
            r == self@.client_id,
    {
        self.client_id
    }

    /// What the client can trade or withdraw.
    pub fn available(&self) -> (r: Amount)
        ensures
            r@ == self@.available,
    {
        self.available
    }

    /// What is held back while deposits are under dispute.
    pub fn held(&self) -> (r: Amount)
        ensures
            r@ == self@.held,
    {
        self.held
    }

    /// What is available and what is held, together.
    pub fn total(&self) -> (r: Amount)
        ensures
            r@ == self@.total,
    {
        self.total
    }

    /// Whether a chargeback has locked the account.
    pub fn is_locked(&self) -> (r: bool)
        ensures
            r == self@.locked,
    {
        self.is_locked
    }

    /// The deposit or withdrawal stored under an identifier, if there is
    /// one.
    pub fn transaction(&self, id: TransactionId) -> (r: Option<Transaction>)
        ensures
            r == (if self@.transactions.contains_key(id) {
                Some(self@.transactions[id])
            } else {
                None
            }),
    {
        match self.transactions.get(&id) {
            Some(stored) => Some(*stored),
            None => None,
        }
    }

    /// What is reported of the account.
    pub fn summary(&self) -> (r: AccountSummary)
        ensures
            r == self@.summary(),
            self.wf() ==> r.wf(),
    {
        AccountSummary {
            client_id: self.client_id,
            available: self.available,
            held: self.held,
            total: self.total,
            locked: self.is_locked,
        }
    }

    /// The deposit that a dispute, a resolve or a chargeback refers to.
    fn deposit_at(&self, id: TransactionId) -> (r: Result<Transaction, CustomError>)
        ensures
            r == self@.deposit_at(id),
    {
        match self.transactions.get(&id) {
            None => Err(CustomError::NonExistingTransactionId),
            Some(stored) => match stored.action_type {
                Action::Deposit => Ok(*stored),
                _ => Err(CustomError::UndefinedBehaviour),
            },
        }
    }

    /// Works out what a transaction would do, and changes nothing: the
    /// change to make, the reason to turn the transaction down, or `None`
    /// where a balance would be more than an amount can hold.
    fn plan(&self, transaction: &Transaction) -> (r: Option<Result<Change, CustomError>>)
        requires
            self.wf(),
            transaction.wf(),
        ensures
            match self@.apply(*transaction) {
                Err(error) => r == Some(Err::<Change, CustomError>(error)),
                Ok(next) => if next.fits() {
                    r matches Some(Ok(change)) && Self::leads(change, self@, next)
                        && change.stored.transaction_id == transaction.transaction_id
                } else {
                    r is None
                },
            },
    {
        if self.is_locked {
            return Some(Err(CustomError::LockedAccount));
        }
        let id: TransactionId = transaction.transaction_id;
        match transaction.get_action_type() {
            Action::Deposit => {
                if self.transactions.contains_key(&id) {
                    return Some(Err(CustomError::DuplicatedTransactionId));
                }
                let amount: Amount = transaction.decimal.unwrap();
                let stored = Transaction { is_under_dispute: false, ..*transaction };
                match (self.available.checked_add(amount), self.total.checked_add(amount)) {
                    (Some(available), Some(total)) => Some(
                        Ok(Change { available, held: self.held, total, locked: false, stored }),
                    ),
                    _ => None,
                }
            },
            Action::Withdrawal => {
                if self.transactions.contains_key(&id) {
                    return Some(Err(CustomError::DuplicatedTransactionId));
                }
                let amount: Amount = transaction.decimal.unwrap();
                if self.available.less_than(amount) {
                    return Some(Err(CustomError::AccountBalanceNotEnough));
                }
                let stored = Transaction { is_under_dispute: false, ..*transaction };
                match (self.available.checked_sub(amount), self.total.checked_sub(amount)) {
                    (Some(available), Some(total)) => Some(
                        Ok(Change { available, held: self.held, total, locked: false, stored }),
                    ),
                    _ => None,
                }
            },
            Action::Dispute => match self.deposit_at(id) {
                Err(error) => Some(Err(error)),
                Ok(deposit) => {
                    if deposit.is_under_dispute {
                        // Held already: nothing moves a second time.
                        assert(self@.transactions.insert(id, deposit) =~= self@.transactions);
                        return Some(
                            Ok(
                                Change {
                                    available: self.available,
                                    held: self.held,
                                    total: self.total,
                                    locked: false,
                                    stored: deposit,
                                },
                            ),
                        );
                    }
                    let amount: Amount = deposit.decimal.unwrap();
                    let stored = Transaction { is_under_dispute: true, ..deposit };
                    match (self.available.checked_sub(amount), self.held.checked_add(amount)) {
                        (Some(available), Some(held)) => Some(
                            Ok(Change { available, held, total: self.total, locked: false, stored }),
                        ),
                        _ => None,
                    }
                },
            },
            Action::Resolve => match self.deposit_at(id) {
                Err(error) => Some(Err(error)),
                Ok(deposit) => {
                    if !deposit.is_under_dispute {
                        return Some(Err(CustomError::NotUnderDispute));
                    }
                    let amount: Amount = deposit.decimal.unwrap();
                    let stored = Transaction { is_under_dispute: false, ..deposit };
                    match (self.available.checked_add(amount), self.held.checked_sub(amount)) {
                        (Some(available), Some(held)) => Some(
                            Ok(Change { available, held, total: self.total, locked: false, stored }),
                        ),
                        _ => None,
                    }
                },
            },
            Action::Chargeback => match self.deposit_at(id) {
                Err(error) => Some(Err(error)),
                Ok(deposit) => {
                    if !deposit.is_under_dispute {
                        return Some(Err(CustomError::NotUnderDispute));
                    }
                    let amount: Amount = deposit.decimal.unwrap();
                    let stored = Transaction { is_under_dispute: false, ..deposit };
                    match (self.held.checked_sub(amount), self.total.checked_sub(amount)) {
                        (Some(held), Some(total)) => Some(
                            Ok(Change { available: self.available, held, total, locked: true, stored }),
                        ),
                        _ => None,
                    }
                },
            },
        }
    }

    /// Whether the account can take a transaction: whether the balances
    /// that it would leave are balances that amounts of money can hold.
    pub fn accepts(&self, transaction: &Transaction) -> (r: bool)
        requires
            self.wf(),
            transaction.wf(),
        ensures
            r == self@.within_limits(*transaction),
    {
        self.plan(transaction).is_some()
    }

    /// Applies one transaction. Where the rules of the ledger turn it down,
    /// the reason is returned and the account is left as it was; else the
    /// account is changed as `AccountState::apply` says. The balances that
    /// the transaction leaves must be balances that amounts of money can
    /// hold: `accepts` tells whether they are, and `try_handle_transaction`
    /// asks first.
    pub fn handle_transaction(&mut self, transaction: Transaction) -> (r: Result<(), CustomError>)
        requires
            old(self).wf(),
            transaction.wf(),
            old(self)@.within_limits(transaction),
        ensures
            final(self).wf(),
            final(self)@ == old(self)@.after(transaction),
            r == old(self)@.outcome(transaction),
            final(self)@.total == final(self)@.available + final(self)@.held,
    {
        proof {
            self@.lemma_held_is_what_is_under_dispute(transaction);
        }
        match self.plan(&transaction).unwrap() {
            Err(error) => Err(error),
            Ok(change) => {
                self.available = change.available;
                self.held = change.held;
                self.total = change.total;
                self.is_locked = change.locked;
                self.transactions.insert(change.stored.transaction_id, change.stored);
                Ok(())
            },
        }
    }

    /// Applies one transaction where the account can take it, and leaves
    /// the account as it was, returning `None`, where a balance would be
    /// more than an amount of money can hold.
    pub fn try_handle_transaction(&mut self, transaction: Transaction) -> (r: Option<
        Result<(), CustomError>,
    >)
        requires
            old(self).wf(),
            transaction.wf(),
        ensures
            final(self).wf(),
            final(self)@.total == final(self)@.available + final(self)@.held,
            final(self)@ == (if old(self)@.within_limits(transaction) {
                old(self)@.after(transaction)
            } else {
                old(self)@
            }),
            r == (if old(self)@.within_limits(transaction) {
                Some(old(self)@.outcome(transaction))
            } else {
                None
            }),
    {
        if self.accepts(&transaction) {
            Some(self.handle_transaction(transaction))
        } else {
            None
        }
    }
}

} // verus!
