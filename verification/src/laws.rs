//! What holds of every account and of every run, whatever came before. The
//! laws of an account are stated of `AccountState::apply`, in whose terms
//! `Account::handle_transaction` says what it does; those of a run are
//! stated of `route` and `run`, in whose terms the engine does.

use crate::account::{held_sum, AccountState};
use crate::engine::{
    account_of, ledger_wf, route, run, run_from, severity, step, verdict, within_limits, Ledger,
    Severity, Step,
};
use crate::error::CustomError;
use crate::transaction::{
    action_of_keyword, decode, Action, ClientId, Transaction, TransactionId,
};
use vstd::prelude::*;

verus! {

/// A dispute, a resolve or a chargeback that refers to the transaction
/// `id`.
pub open spec fn refers_to(transaction: Transaction, action: Action, id: TransactionId) -> bool {
    transaction.action_type == action && transaction.transaction_id == id
}

/// Whether the account is open and holds a deposit under `id`.
pub open spec fn holds_deposit(state: AccountState, id: TransactionId) -> bool {
    &&& !state.locked
    &&& state.transactions.contains_key(id)
    &&& state.transactions[id].action_type == Action::Deposit
}

/// An account whose total is what is available and what is held together
/// is such an account after every transaction, applied or turned down,
/// whatever the transaction and however large the balances.
pub proof fn law_total_is_available_and_held(state: AccountState, transaction: Transaction)
    requires
        state.total == state.available + state.held,
    ensures
        state.after(transaction).total == state.after(transaction).available + state.after(
            transaction,
        ).held,
{
}

/// A well-formed account is well formed after every transaction that
/// leaves balances which amounts of money can hold.
pub proof fn law_account_stays_well_formed(state: AccountState, transaction: Transaction)
    requires
        state.wf(),
        transaction.wf(),
        state.within_limits(transaction),
    ensures
        state.after(transaction).wf(),
{
    state.lemma_held_is_what_is_under_dispute(transaction);
}

/// The account that a new client is given is well formed: empty, open, and
/// with nothing held.
pub proof fn law_fresh_account_is_well_formed(client_id: ClientId)
    ensures
        AccountState::fresh(client_id).wf(),
        AccountState::fresh(client_id).client_id == client_id,
{
    AccountState::lemma_fresh_is_well_formed(client_id);
}

/// A deposit and then a withdrawal of the same amount, both applied, leave
/// the three balances as they were before the deposit.
pub proof fn law_withdrawal_undoes_deposit(
    state: AccountState,
    deposit: Transaction,
    withdrawal: Transaction,
)
    requires
        deposit.action_type == Action::Deposit,
        withdrawal.action_type == Action::Withdrawal,
        deposit.amount() == withdrawal.amount(),
        state.apply(deposit) is Ok,
        state.apply(deposit)->Ok_0.apply(withdrawal) is Ok,
    ensures
        ({
            let end = state.apply(deposit)->Ok_0.apply(withdrawal)->Ok_0;
            &&& end.available == state.available
            &&& end.held == state.held
            &&& end.total == state.total
        }),
{
}

/// In an open account a deposit or a withdrawal is turned down as a
/// duplicate exactly where its identifier is in use, and the account is
/// then left as it was: what is stored under the identifier stays.
pub proof fn law_duplicate_is_turned_down(state: AccountState, transaction: Transaction)
    requires
        !state.locked,
        transaction.action_type.is_monetary(),
    ensures
        state.apply(transaction) == Err::<AccountState, CustomError>(
            CustomError::DuplicatedTransactionId,
        ) <==> state.transactions.contains_key(transaction.transaction_id),
        state.transactions.contains_key(transaction.transaction_id) ==> state.after(transaction)
            == state,
{
}

/// In an open account a deposit under a new identifier is applied: its
/// amount is added to what is available and to the total, what is held
/// stays, and the deposit is stored under its identifier, not under
/// dispute.
pub proof fn law_deposit_adds_its_amount(state: AccountState, deposit: Transaction)
    requires
        !state.locked,
        deposit.action_type == Action::Deposit,
        !state.transactions.contains_key(deposit.transaction_id),
    ensures
        state.apply(deposit) matches Ok(next) && {
            &&& next.available == state.available + deposit.amount()
            &&& next.held == state.held
            &&& next.total == state.total + deposit.amount()
            &&& next.locked == state.locked
            &&& next.transactions == state.transactions.insert(
                deposit.transaction_id,
                Transaction { is_under_dispute: false, ..deposit },
            )
        },
{
}

/// In an open account a withdrawal under a new identifier is turned down,
/// for want of balance, exactly where it asks for more than is available,
/// and the account is then left as it was. Where it asks for no more, for
/// all that is available too, it is applied: its amount leaves what is
/// available and the total, what is held stays, and the withdrawal is
/// stored.
pub proof fn law_overdraft_is_turned_down(state: AccountState, withdrawal: Transaction)
    requires
        !state.locked,
        withdrawal.action_type == Action::Withdrawal,
        !state.transactions.contains_key(withdrawal.transaction_id),
    ensures
        state.apply(withdrawal) == Err::<AccountState, CustomError>(
            CustomError::AccountBalanceNotEnough,
        ) <==> withdrawal.amount() > state.available,
        withdrawal.amount() > state.available ==> state.after(withdrawal) == state,
        withdrawal.amount() <= state.available ==> (state.apply(withdrawal) matches Ok(next) && {
            &&& next.available == state.available - withdrawal.amount()
            &&& next.held == state.held
            &&& next.total == state.total - withdrawal.amount()
            &&& next.locked == state.locked
            &&& next.transactions == state.transactions.insert(
                withdrawal.transaction_id,
                Transaction { is_under_dispute: false, ..withdrawal },
            )
        }),
{
}

/// A withdrawal of more than is available is turned down in every account,
/// whatever else may be wrong with it, and the account is left as it was.
pub proof fn law_overdraft_changes_nothing(state: AccountState, withdrawal: Transaction)
    requires
        withdrawal.action_type == Action::Withdrawal,
        withdrawal.amount() > state.available,
    ensures
        state.apply(withdrawal) is Err,
        state.after(withdrawal) == state,
{
}

/// A dispute of a deposit that is not under dispute, in an open account,
/// moves the amount of that deposit from what is available to what is
/// held, leaves the total and the lock, and puts the deposit under dispute;
/// nothing else that is stored changes, and the dispute is not stored.
pub proof fn law_dispute_holds_the_deposit(
    state: AccountState,
    dispute: Transaction,
    id: TransactionId,
)
    requires
        holds_deposit(state, id),
        !state.transactions[id].is_under_dispute,
        refers_to(dispute, Action::Dispute, id),
    ensures
        state.apply(dispute) matches Ok(next) && {
            let amount = state.transactions[id].amount();
            &&& next.available == state.available - amount
            &&& next.held == state.held + amount
            &&& next.total == state.total
            &&& next.locked == state.locked
            &&& next.transactions == state.transactions.insert(
                id,
                Transaction { is_under_dispute: true, ..state.transactions[id] },
            )
        },
{
}

/// A deposit is held once: a dispute of a deposit that is under dispute
/// already is answered with `Ok` and changes nothing, neither a balance
/// nor the lock nor what is stored.
pub proof fn law_deposit_is_held_once(state: AccountState, dispute: Transaction, id: TransactionId)
    requires
        holds_deposit(state, id),
        state.transactions[id].is_under_dispute,
        refers_to(dispute, Action::Dispute, id),
    ensures
        state.apply(dispute) == Ok::<AccountState, CustomError>(state),
        state.after(dispute) == state,
{
}

/// However often a deposit is disputed, what is available has its amount
/// taken out of it once at most: a second dispute, right after a first that
/// was applied, changes nothing.
pub proof fn law_second_dispute_changes_nothing(
    state: AccountState,
    dispute: Transaction,
    id: TransactionId,
)
    requires
        holds_deposit(state, id),
        refers_to(dispute, Action::Dispute, id),
    ensures
        state.after(dispute).after(dispute) == state.after(dispute),
        state.after(dispute).transactions[id].is_under_dispute,
{
}

/// What is held is the amounts of the deposits under dispute, each counted
/// once: an account of which that holds is such an account after every
/// transaction, applied or turned down. So no deposit is held twice, and
/// what is available has the amount of a deposit taken out of it once at
/// most while the deposit is under dispute.
pub proof fn law_held_is_what_is_under_dispute(state: AccountState, transaction: Transaction)
    requires
        state.held == held_sum(state.transactions),
    ensures
        state.after(transaction).held == held_sum(state.after(transaction).transactions),
{
    state.lemma_held_is_what_is_under_dispute(transaction);
}

/// A resolve of a deposit under dispute, in an open account, moves the
/// amount back from what is held to what is available, leaves the total,
/// and ends the dispute.
pub proof fn law_resolve_releases_the_deposit(
    state: AccountState,
    resolve: Transaction,
    id: TransactionId,
)
    requires
        holds_deposit(state, id),
        state.transactions[id].is_under_dispute,
        refers_to(resolve, Action::Resolve, id),
    ensures
        state.apply(resolve) matches Ok(next) && {
            let amount = state.transactions[id].amount();
            &&& next.available == state.available + amount
            &&& next.held == state.held - amount
            &&& next.total == state.total
            &&& next.locked == state.locked
            &&& next.transactions == state.transactions.insert(
                id,
                Transaction { is_under_dispute: false, ..state.transactions[id] },
            )
        },
{
}

/// A resolve undoes the dispute before it: for a deposit that was not
/// under dispute, the two, one after the other, are both applied and leave
/// the account as it was, balances, lock and what is stored.
pub proof fn law_resolve_undoes_dispute(
    state: AccountState,
    dispute: Transaction,
    resolve: Transaction,
    id: TransactionId,
)
    requires
        holds_deposit(state, id),
        !state.transactions[id].is_under_dispute,
        refers_to(dispute, Action::Dispute, id),
        refers_to(resolve, Action::Resolve, id),
    ensures
        state.apply(dispute) matches Ok(disputed) && disputed.apply(resolve) matches Ok(end) && {
            &&& end.available == state.available
            &&& end.held == state.held
            &&& end.total == state.total
            &&& end.locked == state.locked
            &&& end.transactions == state.transactions
        },
{
    let disputed = state.apply(dispute)->Ok_0;
    let end = disputed.apply(resolve)->Ok_0;
    assert(end.transactions =~= state.transactions);
}

/// A chargeback of a deposit under dispute, in an open account, takes the
/// amount from what is held and from the total, leaves what is available,
/// ends the dispute and locks the account.
pub proof fn law_chargeback_locks_the_account(
    state: AccountState,
    chargeback: Transaction,
    id: TransactionId,
)
    requires
        holds_deposit(state, id),
        state.transactions[id].is_under_dispute,
        refers_to(chargeback, Action::Chargeback, id),
    ensures
        state.apply(chargeback) matches Ok(next) && {
            let amount = state.transactions[id].amount();
            &&& next.available == state.available
            &&& next.held == state.held - amount
            &&& next.total == state.total - amount
            &&& next.locked
            &&& next.transactions == state.transactions.insert(
                id,
                Transaction { is_under_dispute: false, ..state.transactions[id] },
            )
        },
{
}

/// A locked account turns every transaction down, and so stays locked,
/// with the balances that it has.
pub proof fn law_locked_account_turns_all_down(state: AccountState, transaction: Transaction)
    requires
        state.locked,
    ensures
        state.apply(transaction) == Err::<AccountState, CustomError>(CustomError::LockedAccount),
        state.after(transaction) == state,
{
}

/// A lock is for good: an account that is locked is locked after every
/// transaction, and one that a transaction locks was locked by a
/// chargeback.
pub proof fn law_lock_is_permanent(state: AccountState, transaction: Transaction)
    ensures
        state.locked ==> state.after(transaction).locked,
        !state.locked && state.after(transaction).locked ==> transaction.action_type
            == Action::Chargeback,
{
}

/// A transaction that is turned down leaves the account as it was.
pub proof fn law_failure_changes_nothing(state: AccountState, transaction: Transaction)
    ensures
        state.apply(transaction) is Err ==> state.after(transaction) == state,
{
}

/// What is stored is never written over: whatever a transaction does, each
/// deposit and withdrawal that the account held is still held, under the
/// same identifier and with the same amount; only whether it is under
/// dispute may change, and only for the deposit that the transaction refers
/// to.
pub proof fn law_stored_transactions_stay(
    state: AccountState,
    transaction: Transaction,
    id: TransactionId,
)
    requires
        state.transactions.contains_key(id),
    ensures
        state.after(transaction).transactions.contains_key(id),
        state.after(transaction).transactions[id] == (Transaction {
            is_under_dispute: state.after(transaction).transactions[id].is_under_dispute,
            ..state.transactions[id]
        }),
        id != transaction.transaction_id ==> state.after(transaction).transactions[id]
            == state.transactions[id],
{
}

/// A transaction changes no account but that of its client, and that one is
/// in the ledger afterwards, whether the transaction was applied or turned
/// down.
pub proof fn law_accounts_are_independent(ledger: Ledger, transaction: Transaction, other: ClientId)
    requires
        other != transaction.client_id,
    ensures
        route(ledger, transaction).0.contains_key(transaction.client_id),
        route(ledger, transaction).0.contains_key(other) == ledger.contains_key(other),
        ledger.contains_key(other) ==> route(ledger, transaction).0[other] == ledger[other],
{
}

/// A well-formed ledger is well formed after every transaction that the
/// account of its client can take.
pub proof fn law_ledger_stays_well_formed(ledger: Ledger, transaction: Transaction)
    requires
        ledger_wf(ledger),
        transaction.wf(),
        within_limits(ledger, transaction),
    ensures
        ledger_wf(route(ledger, transaction).0),
{
    let account = account_of(ledger, transaction.client_id);
    AccountState::lemma_fresh_is_well_formed(transaction.client_id);
    account.lemma_held_is_what_is_under_dispute(transaction);
    assert(account.after(transaction).wf());
    assert(account.after(transaction).client_id == transaction.client_id);
}

/// A transaction that is turned down leaves the account of its client as
/// it was: as a fresh one, where the client was new.
pub proof fn law_skipped_transaction_changes_nothing(ledger: Ledger, transaction: Transaction)
    requires
        route(ledger, transaction).1 is Err,
    ensures
        route(ledger, transaction).0[transaction.client_id] == account_of(
            ledger,
            transaction.client_id,
        ),
{
}

/// After a run that reached its end, the ledger holds the account of every
/// client that a row named: each row was decoded, and its client is there.
pub proof fn law_every_client_seen_is_kept(ledger: Ledger, rows: Seq<Seq<Seq<char>>>, at: int)
    requires
        0 <= at < rows.len(),
        run(ledger, rows).1 matches Some(Ok(_)),
    ensures
        decode(rows[at]) matches Ok(transaction) && run(ledger, rows).0.contains_key(
            transaction.client_id,
        ),
{
    lemma_client_kept_from(ledger, rows, 0, at);
}

/// A run loses no account: whoever is in the ledger stays in it.
proof fn lemma_run_keeps_clients(ledger: Ledger, rows: Seq<Seq<Seq<char>>>, from: int, id: ClientId)
    requires
        0 <= from,
        ledger.contains_key(id),
    ensures
        run_from(ledger, rows, from).0.contains_key(id),
    decreases rows.len() - from,
{
    if from < rows.len() {
        match step(ledger, rows[from]) {
            Some((next, Step::Applied)) => lemma_run_keeps_clients(next, rows, from + 1, id),
            Some((next, Step::Skipped(_, _))) => lemma_run_keeps_clients(next, rows, from + 1, id),
            _ => {},
        }
    }
}

proof fn lemma_client_kept_from(ledger: Ledger, rows: Seq<Seq<Seq<char>>>, from: int, at: int)
    requires
        0 <= from <= at < rows.len(),
        run_from(ledger, rows, from).1 matches Some(Ok(_)),
    ensures
        decode(rows[at]) matches Ok(transaction) && run_from(ledger, rows, from).0.contains_key(
            transaction.client_id,
        ),
    decreases at - from,
{
    match step(ledger, rows[from]) {
        Some((next, Step::Applied)) => {
            if from < at {
                lemma_client_kept_from(next, rows, from + 1, at);
            } else {
                lemma_run_keeps_clients(next, rows, from + 1, decode(rows[at])->Ok_0.client_id);
            }
        },
        Some((next, Step::Skipped(_, _))) => {
            if from < at {
                lemma_client_kept_from(next, rows, from + 1, at);
            } else {
                lemma_run_keeps_clients(next, rows, from + 1, decode(rows[at])->Ok_0.client_id);
            }
        },
        _ => {},
    }
}

/// What an account turns a transaction down for is never fatal: the
/// transaction is passed over and the run goes on.
pub proof fn law_turned_down_transaction_is_passed_over(
    state: AccountState,
    transaction: Transaction,
)
    ensures
        state.apply(transaction) matches Err(error) ==> verdict(transaction, error)
            == Step::Skipped(transaction, error),
{
}

/// A row that cannot be decoded fails fatally, whichever field it is that
/// cannot be read: the run stops at it by the same rule by which it stops
/// at any fatal failure.
pub proof fn law_unreadable_row_is_fatal(fields: Seq<Seq<char>>)
    ensures
        decode(fields) matches Err(error) ==> severity(error) == Severity::Fatal,
{
}

/// A row whose first field is not the keyword of an action stops the run,
/// wherever among the rows it stands, unless the run has stopped before it:
/// the run does not reach its end, and so reports no account.
pub proof fn law_unknown_action_stops_the_run(ledger: Ledger, rows: Seq<Seq<Seq<char>>>, at: int)
    requires
        0 <= at < rows.len(),
        rows[at].len() == 0 || action_of_keyword(rows[at][0]) is None,
    ensures
        !(run(ledger, rows).1 matches Some(Ok(_))),
{
    lemma_stops_from(ledger, rows, 0, at);
}

proof fn lemma_stops_from(ledger: Ledger, rows: Seq<Seq<Seq<char>>>, from: int, at: int)
    requires
        0 <= from <= at < rows.len(),
        rows[at].len() == 0 || action_of_keyword(rows[at][0]) is None,
    ensures
        !(run_from(ledger, rows, from).1 matches Some(Ok(_))),
    decreases at - from,
{
    if from < at {
        match step(ledger, rows[from]) {
            Some((next, Step::Applied)) => lemma_stops_from(next, rows, from + 1, at),
            Some((next, Step::Skipped(_, _))) => lemma_stops_from(next, rows, from + 1, at),
            _ => {},
        }
    }
}

} // verus!
