//! Selection of the output that a run spends. The rule is "first listed": the
//! node's order is kept, and neither value nor age is looked at.

use crate::failure::{outcome, FailureKind, FailureKindView};
use crate::ledger::{OutputReference, UnspentOutput};
use vstd::prelude::*;

verus! {

/// The output that is selected from `listing`: its first entry, or
/// `NoSpendableOutput` where it has none.
pub open spec fn selected(listing: Seq<UnspentOutput>) -> Result<
    OutputReference,
    FailureKindView,
> {
    if listing.len() == 0 {
        Err(FailureKindView::NoSpendableOutput)
    } else {
        Ok(listing[0].reference())
    }
}

/// Selects the output to spend from the node's listing of unspent outputs.
pub fn select_output(listing: &Vec<UnspentOutput>) -> (chosen: Result<OutputReference, FailureKind>)
    ensures
        outcome(chosen) == selected(listing@),
{
    if listing.len() == 0 {
        Err(FailureKind::NoSpendableOutput)
    } else {
        Ok(listing[0].to_reference())
    }
}

} // verus!
