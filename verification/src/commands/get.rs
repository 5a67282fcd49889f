//! Showing a record of the vault.

use vstd::prelude::*;
use vstd::string::StringExecFns;
use crate::cloud::client::RemoteSession;
use crate::cloud::types::{optional_text_view, vault_view, VaultEntry, VaultEntryView};
use crate::entries::{find_entry, first_with_key};
use crate::security::encryption::decode_error_text;
use crate::vault::{opened_record, SecureEntry, VaultItem, VaultItemView};

verus! {

/// One line of a record as it is shown.
pub struct DetailLine {
    pub label: String,
    pub value: String,
}

/// A line as mathematics.
pub struct DetailLineView {
    pub label: Seq<char>,
    pub value: Seq<char>,
}

impl View for DetailLine {
    type V = DetailLineView;

    open spec fn view(&self) -> DetailLineView {
        DetailLineView { label: self.label@, value: self.value@ }
    }
}

/// How a record is shown: its kind, the fields printed in full, the label
/// of the field that is kept from the screen, and what goes to the
/// clipboard.
pub struct ItemDetails {
    pub kind: String,
    pub shown: Vec<DetailLine>,
    pub hidden: Option<String>,
    pub clipboard: Option<String>,
}

/// The details of a record as mathematics.
pub struct ItemDetailsView {
    pub kind: Seq<char>,
    pub shown: Seq<DetailLineView>,
    pub hidden: Option<Seq<char>>,
    pub clipboard: Option<Seq<char>>,
}

impl View for ItemDetails {
    type V = ItemDetailsView;

    open spec fn view(&self) -> ItemDetailsView {
        ItemDetailsView {
            kind: self.kind@,
            shown: self.shown@.map_values(|line: DetailLine| line@),
            hidden: optional_text_view(self.hidden),
            clipboard: optional_text_view(self.clipboard),
        }
    }
}

/// A line as mathematics.
pub open spec fn line(label: Seq<char>, value: Seq<char>) -> DetailLineView {
    DetailLineView { label, value }
}

/// What goes to the clipboard for a secret: the secret, unless it is
/// empty.
pub open spec fn clipboard_of(secret: Seq<char>) -> Option<Seq<char>> {
    if secret.len() == 0 {
        None
    } else {
        Some(secret)
    }
}

/// How a record is shown. A password and a card's verification code never
/// reach the screen: they go to the clipboard.
pub open spec fn details_of(item: VaultItemView) -> ItemDetailsView {
    match item {
        VaultItemView::Password { name, website, email, username, password } => ItemDetailsView {
            kind: "Password"@,
            shown: Seq::empty().push(line("Name:"@, name)).push(line("Website:"@, website)).push(
                line("Email:"@, email),
            ).push(line("Username:"@, username)),
            hidden: Some("Password:"@),
            clipboard: clipboard_of(password),
        },
        VaultItemView::CreditCard { name, number, expiration_date, cvv } => ItemDetailsView {
            kind: "Credit Card"@,
            shown: Seq::empty().push(line("Name:"@, name)).push(line("Number:"@, number)).push(
                line("Expiration Date:"@, expiration_date),
            ),
            hidden: Some("CVV:"@),
            clipboard: clipboard_of(cvv),
        },
        VaultItemView::SecureNote { title, note } => ItemDetailsView {
            kind: "Secure Note"@,
            shown: Seq::empty().push(line("Title:"@, title)).push(line("Note:"@, note)),
            hidden: None,
            clipboard: None,
        },
    }
}

fn detail(label: &str, value: String) -> (r: DetailLine)
    ensures
        r@ == line(label@, value@),
{
    DetailLine { label: String::from_str(label), value }
}

fn clipboard(secret: String) -> (r: Option<String>)
    ensures
        optional_text_view(r) == clipboard_of(secret@),
{
    if secret.as_str().is_empty() {
        None
    } else {
        Some(secret)
    }
}

/// How `item` is shown.
pub fn item_details(item: VaultItem) -> (details: ItemDetails)
    ensures
        details@ == details_of(item@),
{
    let mut shown: Vec<DetailLine> = Vec::new();
    let details = match item {
        VaultItem::Password { name, website, email, username, password } => {
            shown.push(detail("Name:", name));
            shown.push(detail("Website:", website));
            shown.push(detail("Email:", email));
            shown.push(detail("Username:", username));
            ItemDetails {
                kind: String::from_str("Password"),
                shown,
                hidden: Some(String::from_str("Password:")),
                clipboard: clipboard(password),
            }
        },
        VaultItem::CreditCard { name, number, expiration_date, cvv } => {
            shown.push(detail("Name:", name));
            shown.push(detail("Number:", number));
            shown.push(detail("Expiration Date:", expiration_date));
            ItemDetails {
                kind: String::from_str("Credit Card"),
                shown,
                hidden: Some(String::from_str("CVV:")),
                clipboard: clipboard(cvv),
            }
        },
        VaultItem::SecureNote { title, note } => {
            shown.push(detail("Title:", title));
            shown.push(detail("Note:", note));
            ItemDetails { kind: String::from_str("Secure Note"), shown, hidden: None, clipboard: None }
        },
    };
    assert(details@.shown =~= details_of(item@).shown);
    details
}

/// What looking up, opening and showing the entry called `item_key`
/// gives.
pub open spec fn shown_record(
    key: Seq<u8>,
    vault: Seq<VaultEntryView>,
    item_key: Seq<char>,
) -> Result<ItemDetailsView, Seq<char>> {
    match first_with_key(vault, item_key) {
        None => Err("Selected item not found."@),
        Some(i) => match opened_record(key, vault[i].value) {
            Ok(item) => Ok(details_of(item)),
            Err(e) => Err(decode_error_text(e)),
        },
    }
}

/// Opens the first entry stored under `item_key` with the session's key
/// and says how it is shown.
pub fn get_item(session: &RemoteSession, vault: &Vec<VaultEntry>, item_key: &str) -> (r: Result<
    ItemDetails,
    String,
>)
    ensures
        match r {
            Ok(details) => shown_record(session@.encryption_key, vault_view(vault@), item_key@)
                == Ok::<ItemDetailsView, Seq<char>>(details@),
            Err(message) => shown_record(session@.encryption_key, vault_view(vault@), item_key@)
                == Err::<ItemDetailsView, Seq<char>>(message@),
        },
{
    let index = match find_entry(vault, item_key) {
        Some(index) => index,
        None => {
            return Err(String::from_str("Selected item not found."));
        },
    };
    assert(vault_view(vault@)[index as int] == vault@[index as int]@);
    match SecureEntry::decrypt(session.encryption_key(), vault[index].value.as_str()) {
        Ok(item) => Ok(item_details(item)),
        Err(e) => Err(e.message()),
    }
}

} // verus!
