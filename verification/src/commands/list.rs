//! Listing the keys of the vault.

use vstd::prelude::*;
use crate::cloud::types::{vault_view, VaultEntry};
use crate::entries::{entry_keys, vault_keys};
use crate::text::{sort_texts, texts_sorted, texts_view};

verus! {

/// The keys of the fetched vault in the dictionary order of their UTF-8
/// bytes, each as often as the vault holds it.
pub fn list_items(vault: &Vec<VaultEntry>) -> (keys: Vec<String>)
    ensures
        texts_view(keys@).to_multiset() == vault_keys(vault_view(vault@)).to_multiset(),
        texts_sorted(keys@),
{
    let mut keys = entry_keys(vault);
    sort_texts(&mut keys);
    keys
}

} // verus!
