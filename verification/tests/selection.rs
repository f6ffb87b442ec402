use utxo_pipeline::failure::FailureKind;
use utxo_pipeline::ledger::{OutputReference, TransactionId, UnspentOutput};
use utxo_pipeline::selector::select_output;

fn unspent(tag: u8, output_index: u32, amount: u64) -> UnspentOutput {
    UnspentOutput { transaction_id: TransactionId { bytes: [tag; 32] }, output_index, amount }
}

#[test]
fn empty_listing_has_no_spendable_output() {
    let listing: Vec<UnspentOutput> = Vec::new();
    assert_eq!(select_output(&listing), Err(FailureKind::NoSpendableOutput));
}

#[test]
fn single_entry_is_selected() {
    let listing = vec![unspent(7, 3, 5_000_000_000)];
    assert_eq!(
        select_output(&listing),
        Ok(OutputReference { transaction_id: TransactionId { bytes: [7; 32] }, output_index: 3 })
    );
}

#[test]
fn first_listed_is_selected_whatever_its_value() {
    let listing = vec![unspent(1, 0, 10), unspent(2, 1, 5_000_000_000), unspent(3, 2, 1)];
    assert_eq!(
        select_output(&listing),
        Ok(OutputReference { transaction_id: TransactionId { bytes: [1; 32] }, output_index: 0 })
    );
}

#[test]
fn selection_follows_the_order_of_the_listing() {
    let forward = vec![unspent(1, 0, 10), unspent(2, 1, 20)];
    let backward = vec![unspent(2, 1, 20), unspent(1, 0, 10)];
    assert_eq!(select_output(&forward).unwrap().transaction_id.bytes, [1; 32]);
    assert_eq!(select_output(&backward).unwrap().transaction_id.bytes, [2; 32]);
    assert_eq!(select_output(&backward).unwrap().output_index, 1);
}

#[test]
fn selection_is_repeatable_on_an_unchanged_listing() {
    let listing = vec![unspent(9, 4, 50), unspent(8, 0, 60)];
    let first = select_output(&listing);
    let second = select_output(&listing);
    assert_eq!(first, second);
    let copy = listing.clone();
    assert_eq!(select_output(&copy), first);
}

#[test]
fn entry_gives_its_reference() {
    let entry = unspent(5, 11, 42);
    let reference = entry.to_reference();
    assert_eq!(reference.transaction_id, entry.transaction_id);
    assert_eq!(reference.output_index, 11);
}
