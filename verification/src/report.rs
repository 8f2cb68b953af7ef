//! The report of a run: one line for each account, under a header.

use crate::account::AccountSummary;
use crate::amount::PRECISION;
use crate::decimal::has_fraction;
use crate::integer::{is_digit, is_plain_number, parsed_unsigned, u16_text, u16_to_string};
use vstd::prelude::*;

verus! {

/// The header of a report.
pub open spec fn header_text() -> Seq<char> {
    "client,available,held,total,locked\n"@
}

/// What a lock is written as.
pub open spec fn lock_text(locked: bool) -> Seq<char> {
    if locked {
        "true"@
    } else {
        "false"@
    }
}

/// The line of one account: the client, what is available, what is held,
/// the total and the lock, with commas between them.
pub open spec fn row_text(row: AccountSummary) -> Seq<char> {
    u16_text(row.client_id) + ","@ + row.available.text() + ","@ + row.held.text() + ","@
        + row.total.text() + ","@ + lock_text(row.locked) + "\n"@
}

/// Whether the line of an account is well written: the client is written
/// plainly, so that it is read back as the same client, and each of the
/// three amounts has a point and four digits after it.
pub open spec fn well_written(row: AccountSummary) -> bool {
    &&& is_plain_number(u16_text(row.client_id), row.client_id as int)
    &&& parsed_unsigned(u16_text(row.client_id), u16::MAX as int) == Some(row.client_id as int)
    &&& has_fraction(row.available.text(), PRECISION as nat)
    &&& has_fraction(row.held.text(), PRECISION as nat)
    &&& has_fraction(row.total.text(), PRECISION as nat)
}

/// The lines of the accounts, one after the other, in the order given.
pub open spec fn rows_text(rows: Seq<AccountSummary>) -> Seq<char>
    decreases rows.len(),
{
    if rows.len() == 0 {
        Seq::empty()
    } else {
        rows_text(rows.drop_last()) + row_text(rows.last())
    }
}

/// A whole report: the header, then the lines of the accounts.
pub open spec fn report_text(rows: Seq<AccountSummary>) -> Seq<char> {
    header_text() + rows_text(rows)
}

/// The header of a report.
pub fn header() -> (r: &'static str)
    ensures
        r@ == header_text(),
{
    "client,available,held,total,locked\n"
}

impl AccountSummary {
    /// Writes the line of the account, as `row_text` says. The line is
    /// well written.
    pub fn to_row(&self) -> (r: String)
        requires
            self.wf(),
        ensures
            r@ == row_text(*self),
            well_written(*self),
    {
        let mut line: String = u16_to_string(self.client_id);
        assert(is_digit(line@[0]));
        line.append(",");
        line.append(self.available.to_text().as_str());
        line.append(",");
        line.append(self.held.to_text().as_str());
        line.append(",");
        line.append(self.total.to_text().as_str());
        line.append(",");
        line.append(if self.locked { "true" } else { "false" });
        line.append("\n");
        line
    }
}

/// Writes a whole report, as `report_text` says. Each of its lines is well
/// written.
pub fn render(rows: &Vec<AccountSummary>) -> (r: String)
    requires
        forall|i: int| 0 <= i < rows@.len() ==> (#[trigger] rows@[i]).wf(),
    ensures
        r@ == report_text(rows@),
        forall|i: int| 0 <= i < rows@.len() ==> well_written(#[trigger] rows@[i]),
{
    let mut report: String = header().to_owned();
    let mut i: usize = 0;
    assert(rows@.take(0) =~= Seq::<AccountSummary>::empty());
    while i < rows.len()
        invariant
            i <= rows.len(),
            forall|i: int| 0 <= i < rows@.len() ==> (#[trigger] rows@[i]).wf(),
            report@ == header_text() + rows_text(rows@.take(i as int)),
            forall|j: int| 0 <= j < i ==> well_written(#[trigger] rows@[j]),
        decreases rows.len() - i,
    {
        let line: String = rows[i].to_row();
        report.append(line.as_str());
        proof {
            let before = rows@.take(i as int);
            let after = rows@.take(i + 1);
            assert(after.drop_last() =~= before);
            assert(after.last() == rows@[i as int]);
            assert(report@ =~= header_text() + rows_text(after));
        }
        i = i + 1;
    }
    assert(rows@.take(rows@.len() as int) =~= rows@);
    report
}

} // verus!
