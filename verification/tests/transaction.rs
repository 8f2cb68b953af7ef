use csv_async::StringRecord;
use transaction_handler::amount::Amount;
use transaction_handler::error::CustomError;
use transaction_handler::transaction::{Action, Transaction};

fn row(fields: Vec<&str>) -> StringRecord {
    StringRecord::from(fields)
}

#[test]
fn keywords_name_the_five_actions() {
    assert_eq!(Action::from_str("deposit"), Ok(Action::Deposit));
    assert_eq!(Action::from_str("withdrawal"), Ok(Action::Withdrawal));
    assert_eq!(Action::from_str("dispute"), Ok(Action::Dispute));
    assert_eq!(Action::from_str("resolve"), Ok(Action::Resolve));
    assert_eq!(Action::from_str("chargeback"), Ok(Action::Chargeback));
}

#[test]
fn other_words_name_no_action() {
    assert_eq!(Action::from_str(""), Err(CustomError::UndefinedAction));
    assert_eq!(Action::from_str("Deposit"), Err(CustomError::UndefinedAction));
    assert_eq!(Action::from_str("deposit "), Err(CustomError::UndefinedAction));
    assert_eq!(Action::from_str(" deposit"), Err(CustomError::UndefinedAction));
    assert_eq!(Action::from_str("deposits"), Err(CustomError::UndefinedAction));
    assert_eq!(Action::from_str("withdraw"), Err(CustomError::UndefinedAction));
    assert_eq!(Action::from_str("refund"), Err(CustomError::UndefinedAction));
}

#[test]
fn well_formed_transactions_are_told_apart() {
    let amount = Some(Amount::new(5));
    let beyond = Some(Amount { units: 1 << 100 });
    assert_eq!(Transaction::_new(Action::Deposit, 1, 1, amount, false).is_wf(), true);
    assert_eq!(Transaction::_new(Action::Withdrawal, 1, 1, amount, true).is_wf(), true);
    assert_eq!(Transaction::_new(Action::Dispute, 1, 1, None, false).is_wf(), true);
    assert_eq!(Transaction::_new(Action::Resolve, 1, 1, amount, false).is_wf(), true);
    assert_eq!(Transaction::_new(Action::Deposit, 1, 1, None, false).is_wf(), false);
    assert_eq!(Transaction::_new(Action::Withdrawal, 1, 1, None, false).is_wf(), false);
    assert_eq!(Transaction::_new(Action::Deposit, 1, 1, beyond, false).is_wf(), false);
    assert_eq!(Transaction::_new(Action::Chargeback, 1, 1, beyond, false).is_wf(), false);
}

#[test]
fn only_deposits_and_withdrawals_carry_amounts() {
    assert_eq!(Action::Deposit.carries_amount(), true);
    assert_eq!(Action::Withdrawal.carries_amount(), true);
    assert_eq!(Action::Dispute.carries_amount(), false);
    assert_eq!(Action::Resolve.carries_amount(), false);
    assert_eq!(Action::Chargeback.carries_amount(), false);
}

#[test]
fn new_keeps_the_parts() {
    let transaction =
        Transaction::_new(Action::Withdrawal, 3, 9, Some(Amount::new(5)), true);
    assert_eq!(transaction.get_action_type(), Action::Withdrawal);
    assert_eq!(transaction.get_client_id(), 3);
    assert_eq!(transaction.transaction_id, 9);
    assert_eq!(transaction.decimal, Some(Amount::new(5)));
    assert_eq!(transaction.is_under_dispute, true);
}

#[test]
fn deposit_row_is_decoded() {
    assert_eq!(
        Transaction::from_record(&row(vec!["deposit", "1", "2", "1.5"])),
        Ok(Transaction::_new(Action::Deposit, 1, 2, Some(Amount::new(15_000)), false))
    );
}

#[test]
fn withdrawal_row_is_decoded() {
    assert_eq!(
        Transaction::from_record(&row(vec!["withdrawal", "65535", "4294967295", "0.0001"])),
        Ok(Transaction::_new(
            Action::Withdrawal,
            65535,
            4294967295,
            Some(Amount::new(1)),
            false
        ))
    );
}

#[test]
fn rows_that_refer_carry_no_amount() {
    assert_eq!(
        Transaction::from_record(&row(vec!["dispute", "1", "2", ""])),
        Ok(Transaction::_new(Action::Dispute, 1, 2, None, false))
    );
    assert_eq!(
        Transaction::from_record(&row(vec!["resolve", "1", "2"])),
        Ok(Transaction::_new(Action::Resolve, 1, 2, None, false))
    );
    // What stands in the place of the amount is not read.
    assert_eq!(
        Transaction::from_record(&row(vec!["chargeback", "1", "2", "no amount"])),
        Ok(Transaction::_new(Action::Chargeback, 1, 2, None, false))
    );
}

#[test]
fn unknown_keyword_is_an_undefined_action() {
    assert_eq!(
        Transaction::from_record(&row(vec!["refund", "1", "2", "1.0"])),
        Err(CustomError::UndefinedAction)
    );
    // The keyword is read first.
    assert_eq!(
        Transaction::from_record(&row(vec!["refund", "x", "y", "z"])),
        Err(CustomError::UndefinedAction)
    );
    assert_eq!(
        Transaction::from_record(&row(vec![" deposit", "1", "2", "1.0"])),
        Err(CustomError::UndefinedAction)
    );
}

#[test]
fn unreadable_identifier_is_an_int_parse_error() {
    for client in ["", "x", "-1", "65536", "1.0", " 1", "1 ", "+", "1_0"] {
        assert_eq!(
            Transaction::from_record(&row(vec!["deposit", client, "2", "1.0"])),
            Err(CustomError::IntParseError)
        );
    }
    for id in ["", "x", "-1", "4294967296", "0x10"] {
        assert_eq!(
            Transaction::from_record(&row(vec!["dispute", "1", id])),
            Err(CustomError::IntParseError)
        );
    }
    // The identifiers are read before the amount.
    assert_eq!(
        Transaction::from_record(&row(vec!["deposit", "1", "x", "y"])),
        Err(CustomError::IntParseError)
    );
}

#[test]
fn identifiers_are_read_as_std_reads_them() {
    assert_eq!(
        Transaction::from_record(&row(vec!["dispute", "+7", "007"])),
        Ok(Transaction::_new(Action::Dispute, 7, 7, None, false))
    );
    assert_eq!(
        Transaction::from_record(&row(vec!["dispute", "0", "0"])),
        Ok(Transaction::_new(Action::Dispute, 0, 0, None, false))
    );
    assert_eq!(
        Transaction::from_record(&row(vec!["dispute", "00065535", "+04294967295"])),
        Ok(Transaction::_new(Action::Dispute, 65535, 4294967295, None, false))
    );
}

#[test]
fn unreadable_amount_is_a_decimal_parse_error() {
    for amount in ["", "x", "1.2.3", "1.00001"] {
        assert_eq!(
            Transaction::from_record(&row(vec!["deposit", "1", "2", amount])),
            Err(CustomError::DecimalParseError)
        );
        assert_eq!(
            Transaction::from_record(&row(vec!["withdrawal", "1", "2", amount])),
            Err(CustomError::DecimalParseError)
        );
    }
}

#[test]
fn missing_field_fails_as_an_unreadable_one() {
    assert_eq!(
        Transaction::from_record(&row(vec![])),
        Err(CustomError::UndefinedAction)
    );
    assert_eq!(
        Transaction::from_record(&row(vec!["deposit"])),
        Err(CustomError::IntParseError)
    );
    assert_eq!(
        Transaction::from_record(&row(vec!["deposit", "1"])),
        Err(CustomError::IntParseError)
    );
    assert_eq!(
        Transaction::from_record(&row(vec!["deposit", "1", "2"])),
        Err(CustomError::DecimalParseError)
    );
}
