//! Exporting the entries of the vault.

use vstd::prelude::*;
use crate::cloud::types::{vault_view, VaultEntry, VaultEntryView};

verus! {

/// One entry of an export file.
pub struct ExportItem {
    pub key: String,
    pub value: String,
}

impl View for ExportItem {
    type V = VaultEntryView;

    open spec fn view(&self) -> VaultEntryView {
        VaultEntryView { key: self.key@, value: self.value@ }
    }
}

/// The items of an export file, each by its view.
pub open spec fn exported_view(items: Seq<ExportItem>) -> Seq<VaultEntryView> {
    items.map_values(|item: ExportItem| item@)
}

/// The entries of the fetched vault as the items of an export file: the
/// same keys and values in the same order, still sealed.
pub fn export_items(vault: Vec<VaultEntry>) -> (items: Vec<ExportItem>)
    ensures
        exported_view(items@) == vault_view(vault@),
{
    let mut items: Vec<ExportItem> = Vec::new();
    let mut i: usize = 0;
    while i < vault.len()
        invariant
            i <= vault.len(),
            items@.len() == i,
            forall|j: int| 0 <= j < i ==> (#[trigger] items@[j])@ == vault@[j]@,
        decreases vault.len() - i,
    {
        items.push(ExportItem { key: vault[i].key.clone(), value: vault[i].value.clone() });
        i = i + 1;
    }
    assert(exported_view(items@) =~= vault_view(vault@));
    items
}

} // verus!
