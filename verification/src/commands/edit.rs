//! Editing a record of the vault.

use vstd::prelude::*;
use vstd::string::StringExecFns;
use crate::cloud::client::RemoteSession;
use crate::cloud::types::{vault_view, VaultEntry, VaultEntryView};
use crate::entries::{find_entry, first_with_key};
use crate::security::encryption::{
    decode_error_text, encode_error_text, DecodeError, EncodeError,
};
use crate::text::{trim_text, trimmed};
use crate::vault::{item_sealable, opened_record, seal_entry, SecureEntry, VaultItem, VaultItemView};

verus! {

/// What a prompt with a default yields for what the user typed: the
/// default where the input is blank, the input without the white space
/// around it otherwise.
pub open spec fn answer_or_default(input: Seq<char>, default: Seq<char>) -> Seq<char> {
    if trimmed(input).len() == 0 {
        default
    } else {
        trimmed(input)
    }
}

/// The value of a field after the user answered a prompt that offered
/// `default`.
pub fn prompt_with_default(input: &str, default: &str) -> (value: String)
    ensures
        value@ == answer_or_default(input@, default@),
{
    let answer = trim_text(input);
    if answer.is_empty() {
        String::from_str(default)
    } else {
        String::from_str(answer)
    }
}

/// What looking up and opening the entry called `item_key` gives.
pub open spec fn current_record(
    key: Seq<u8>,
    vault: Seq<VaultEntryView>,
    item_key: Seq<char>,
) -> Result<VaultItemView, Seq<char>> {
    match first_with_key(vault, item_key) {
        None => Err("Item not found in vault."@),
        Some(i) => match opened_record(key, vault[i].value) {
            Ok(item) => Ok(item),
            Err(e) => Err(decode_error_text(e)),
        },
    }
}

/// The record stored under `item_key`, opened with the session's key: the
/// values that an edit offers as defaults.
pub fn current_item(session: &RemoteSession, vault: &Vec<VaultEntry>, item_key: &str) -> (r:
    Result<VaultItem, String>)
    ensures
        match r {
            Ok(item) => current_record(
                session@.encryption_key,
                vault_view(vault@),
                item_key@,
            ) == Ok::<VaultItemView, Seq<char>>(item@),
            Err(message) => current_record(
                session@.encryption_key,
                vault_view(vault@),
                item_key@,
            ) == Err::<VaultItemView, Seq<char>>(message@),
        },
{
    let index = match find_entry(vault, item_key) {
        Some(index) => index,
        None => {
            return Err(String::from_str("Item not found in vault."));
        },
    };
    assert(vault_view(vault@)[index as int] == vault@[index as int]@);
    match SecureEntry::decrypt(session.encryption_key(), vault[index].value.as_str()) {
        Ok(item) => Ok(item),
        Err(e) => Err(e.message()),
    }
}

/// Seals `item` afresh under the session's key and puts it in place of the
/// value of the first entry stored under `item_key`. The entry keeps its
/// key and its place.
///
/// Fails, and leaves the vault as it was, where no entry has that key or
/// the record is too long to seal.
pub fn edit_item(
    session: &RemoteSession,
    vault: &mut Vec<VaultEntry>,
    item_key: &str,
    item: &VaultItem,
) -> (r: Result<(), String>)
    ensures
        r is Ok <==> first_with_key(vault_view(old(vault)@), item_key@) is Some && item_sealable(
            item@,
        ),
        match r {
            Ok(_) => {
                let before = vault_view(old(vault)@);
                let after = vault_view(final(vault)@);
                let i = first_with_key(before, item_key@)->0;
                &&& after.len() == before.len()
                &&& after[i].key == item_key@
                &&& opened_record(session@.encryption_key, after[i].value) == Ok::<
                    VaultItemView,
                    DecodeError,
                >(item@)
                &&& after == before.update(i, after[i])
            },
            Err(message) => {
                &&& final(vault)@ == old(vault)@
                &&& message@ == if first_with_key(vault_view(old(vault)@), item_key@) is None {
                    "Item not found in vault."@
                } else {
                    encode_error_text(EncodeError::TooLong)
                }
            },
        },
{
    let index = match find_entry(vault, item_key) {
        Some(index) => index,
        None => {
            return Err(String::from_str("Item not found in vault."));
        },
    };
    let ghost before = vault_view(vault@);
    match seal_entry(session.encryption_key(), vault[index].key.clone(), item) {
        Ok(entry) => {
            vault.set(index, entry);
            assert(vault_view(vault@) =~= before.update(index as int, entry@));
            Ok(())
        },
        Err(e) => Err(e.message()),
    }
}

} // verus!
