//! Importing entries into the vault.

use vstd::prelude::*;
use crate::cloud::types::{vault_view, VaultEntry, VaultEntryView};
use crate::entries::{import_entries, imported};

verus! {

/// One entry of an import file.
pub struct ImportItem {
    pub key: String,
    pub value: String,
}

impl View for ImportItem {
    type V = VaultEntryView;

    open spec fn view(&self) -> VaultEntryView {
        VaultEntryView { key: self.key@, value: self.value@ }
    }
}

/// The items of an import file, each by its view.
pub open spec fn items_view(items: Seq<ImportItem>) -> Seq<VaultEntryView> {
    items.map_values(|item: ImportItem| item@)
}

/// Stores each item of an import file in the fetched vault, in the file's
/// order: an item replaces whatever was stored under its key.
///
/// Returns the number of items. Where the file holds none, the vault is
/// as it was and need not be sent back.
pub fn import_items(vault: &mut Vec<VaultEntry>, items: Vec<ImportItem>) -> (imported_count: usize)
    ensures
        vault_view(final(vault)@) == imported(vault_view(old(vault)@), items_view(items@)),
        imported_count == items@.len(),
{
    let mut entries: Vec<VaultEntry> = Vec::new();
    let mut i: usize = 0;
    while i < items.len()
        invariant
            i <= items.len(),
            entries@.len() == i,
            forall|j: int| 0 <= j < i ==> (#[trigger] entries@[j])@ == items@[j]@,
        decreases items.len() - i,
    {
        entries.push(VaultEntry { key: items[i].key.clone(), value: items[i].value.clone() });
        i = i + 1;
    }
    assert(vault_view(entries@) =~= items_view(items@));
    import_entries(vault, entries)
}

} // verus!
