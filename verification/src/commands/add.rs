//! Adding a record to the vault.

use vstd::prelude::*;
use vstd::string::StringExecFns;
use crate::cloud::client::RemoteSession;
use crate::cloud::types::{vault_view, VaultEntry};
use crate::entries::{upsert, upserted};
use crate::security::encryption::{encode_error_text, DecodeError, EncodeError};
use crate::text::has_prefix;
use crate::vault::{item_sealable, opened_record, seal_entry, VaultItem, VaultItemView};

verus! {

/// The website as it is stored: as given where it names `http://` or
/// `https://` itself, with `https://` in front otherwise.
pub open spec fn normalized_website(website: Seq<char>) -> Seq<char> {
    if "http://"@.is_prefix_of(website) || "https://"@.is_prefix_of(website) {
        website
    } else {
        "https://"@ + website
    }
}

/// Puts `https://` in front of a website that names no scheme.
pub fn normalize_website(website: String) -> (r: String)
    ensures
        r@ == normalized_website(website@),
{
    if has_prefix(website.as_str(), "http://") || has_prefix(website.as_str(), "https://") {
        website
    } else {
        String::from_str("https://").concat(website.as_str())
    }
}

/// The key under which a record is stored: its name, or the title of a
/// note.
pub open spec fn item_key(item: VaultItemView) -> Seq<char> {
    match item {
        VaultItemView::Password { name, .. } => name,
        VaultItemView::CreditCard { name, .. } => name,
        VaultItemView::SecureNote { title, .. } => title,
    }
}

/// The key under which `item` is stored.
pub fn unique_key(item: &VaultItem) -> (key: String)
    ensures
        key@ == item_key(item@),
{
    match item {
        VaultItem::Password { name, .. } => name.clone(),
        VaultItem::CreditCard { name, .. } => name.clone(),
        VaultItem::SecureNote { title, .. } => title.clone(),
    }
}

/// Seals `item` under the session's key and stores it in the fetched
/// vault under its own key, in place of whatever was stored there.
///
/// Returns the key. Fails, and leaves the vault as it was, exactly when
/// the record is too long to seal.
pub fn add_item(session: &RemoteSession, vault: &mut Vec<VaultEntry>, item: &VaultItem) -> (r:
    Result<String, String>)
    ensures
        r is Ok <==> item_sealable(item@),
        match r {
            Ok(key) => {
                let after = vault_view(final(vault)@);
                &&& key@ == item_key(item@)
                &&& after.len() > 0
                &&& after.last().key == key@
                &&& opened_record(session@.encryption_key, after.last().value) == Ok::<
                    VaultItemView,
                    DecodeError,
                >(item@)
                &&& after == upserted(vault_view(old(vault)@), after.last())
            },
            Err(message) => {
                &&& message@ == encode_error_text(EncodeError::TooLong)
                &&& final(vault)@ == old(vault)@
            },
        },
{
    let key = unique_key(item);
    match seal_entry(session.encryption_key(), key.clone(), item) {
        Ok(entry) => {
            upsert(vault, entry);
            Ok(key)
        },
        Err(e) => Err(e.message()),
    }
}

} // verus!
