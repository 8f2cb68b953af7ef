//! The calls into `csv_async`, for the fields of a row. Nothing here is
//! proved: each contract is a statement about that crate, which the rest of
//! the library relies on.

use csv_async::StringRecord;
use vstd::prelude::*;

verus! {

/// `csv_async::StringRecord`, one row of the input.
#[verifier::external_type_specification]
#[verifier::external_body]
pub struct ExStringRecord(csv_async::StringRecord);

/// The fields that a row holds, in their order.
pub uninterp spec fn record_fields(record: StringRecord) -> Seq<Seq<char>>;

/// Calls `StringRecord::get`. Claimed: it hands out the field at `index`,
/// and `None` exactly where the row has no such field.
#[verifier::external_body]
pub(crate) fn record_field(record: &StringRecord, index: usize) -> (r: Option<&str>)
    ensures
        match r {
            Some(text) => index < record_fields(*record).len() && text@ == record_fields(
                *record,
            )[index as int],
            None => index >= record_fields(*record).len(),
        },
{
    record.get(index)
}

} // verus!
