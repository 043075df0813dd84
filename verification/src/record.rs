//! The textual form of a single memo record.

use vstd::prelude::*;
use vstd::string::StringExecFns;

verus! {

/// The combined display form of one memo record: `<memo> || <price>NEAR`.
/// Once written into the ledger, this string never changes.
pub open spec fn combined_record(memo: Seq<char>, price: Seq<char>) -> Seq<char> {
    memo + " || "@ + price + "NEAR"@
}

/// Builds the combined record string that `append_memo_for` writes into the
/// ledger for one call.
pub fn make_record(memo_text: String, price: String) -> (r: String)
    ensures
        r@ == combined_record(memo_text@, price@),
{
    let mut s = memo_text;
    s.append(" || ");
    s.append(price.as_str());
    s.append("NEAR");
    s
}

} // verus!
