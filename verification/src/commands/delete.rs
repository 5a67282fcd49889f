//! Deleting a record from the vault.

use vstd::prelude::*;
use crate::cloud::types::{vault_view, VaultEntry};
use crate::entries::{remove_key, without_key};

verus! {

/// Removes every entry stored under `item_name` from the fetched vault.
///
/// Says whether anything was removed; where nothing was, the vault need
/// not be sent back.
pub fn delete_item(vault: &mut Vec<VaultEntry>, item_name: &str) -> (removed: bool)
    ensures
        vault_view(final(vault)@) == without_key(vault_view(old(vault)@), item_name@),
        removed == (final(vault)@.len() != old(vault)@.len()),
{
    let initial_len = vault.len();
    remove_key(vault, item_name);
    vault.len() != initial_len
}

} // verus!
