//! Values that travel between client and host.

use vstd::prelude::*;
use crate::text::{same_ignoring_case, same_text_ignoring_case};

verus! {

/// One entry of the vault: a caller-chosen label and the serialised
/// envelope stored under it.
#[derive(Clone, Debug)]
pub struct VaultEntry {
    pub key: String,
    pub value: String,
}

/// A vault entry as mathematics.
pub struct VaultEntryView {
    pub key: Seq<char>,
    pub value: Seq<char>,
}

impl View for VaultEntry {
    type V = VaultEntryView;

    open spec fn view(&self) -> VaultEntryView {
        VaultEntryView { key: self.key@, value: self.value@ }
    }
}

/// The entries of a vault, each by its view.
pub open spec fn vault_view(vault: Seq<VaultEntry>) -> Seq<VaultEntryView> {
    vault.map_values(|e: VaultEntry| e@)
}

/// The view of a vault that may be absent.
pub open spec fn optional_vault_view(vault: Option<Vec<VaultEntry>>) -> Option<
    Seq<VaultEntryView>,
> {
    match vault {
        Some(entries) => Some(vault_view(entries@)),
        None => None,
    }
}

/// The view of a text that may be absent.
pub open spec fn optional_text_view(text: Option<String>) -> Option<Seq<char>> {
    match text {
        Some(t) => Some(t@),
        None => None,
    }
}

/// The host's answer to a vault read or write.
#[derive(Clone, Debug)]
pub struct CloudResponse {
    pub success: bool,
    pub message: String,
    pub vault: Option<Vec<VaultEntry>>,
}

/// A vault answer as mathematics.
pub struct CloudResponseView {
    pub success: bool,
    pub message: Seq<char>,
    pub vault: Option<Seq<VaultEntryView>>,
}

impl View for CloudResponse {
    type V = CloudResponseView;

    open spec fn view(&self) -> CloudResponseView {
        CloudResponseView {
            success: self.success,
            message: self.message@,
            vault: optional_vault_view(self.vault),
        }
    }
}

/// The host's answer to an info request.
#[derive(Clone, Debug)]
pub struct CloudInfoResponse {
    pub success: bool,
    pub message: Option<String>,
    pub entry_count: usize,
}

/// An info answer as mathematics.
pub struct CloudInfoResponseView {
    pub success: bool,
    pub message: Option<Seq<char>>,
    pub entry_count: usize,
}

impl View for CloudInfoResponse {
    type V = CloudInfoResponseView;

    open spec fn view(&self) -> CloudInfoResponseView {
        CloudInfoResponseView {
            success: self.success,
            message: optional_text_view(self.message),
            entry_count: self.entry_count,
        }
    }
}

/// One header of a request.
#[derive(Clone, Debug)]
pub struct Header {
    pub name: String,
    pub value: String,
}

/// A header as mathematics.
pub struct HeaderView {
    pub name: Seq<char>,
    pub value: Seq<char>,
}

impl View for Header {
    type V = HeaderView;

    open spec fn view(&self) -> HeaderView {
        HeaderView { name: self.name@, value: self.value@ }
    }
}

/// The headers of a request, each by its view.
pub open spec fn headers_view(headers: Seq<Header>) -> Seq<HeaderView> {
    headers.map_values(|h: Header| h@)
}

/// The value of the first header called `name`, whatever the case of its
/// ASCII letters.
pub open spec fn header_value(headers: Seq<HeaderView>, name: Seq<char>) -> Option<Seq<char>>
    decreases headers.len(),
{
    if headers.len() == 0 {
        None
    } else if same_ignoring_case(headers.first().name, name) {
        Some(headers.first().value)
    } else {
        header_value(headers.drop_first(), name)
    }
}

/// Looks a header up by name, ignoring the case of ASCII letters.
pub fn find_header<'a>(headers: &'a Vec<Header>, name: &str) -> (r: Option<&'a String>)
    ensures
        r is Some <==> header_value(headers_view(headers@), name@) is Some,
        r matches Some(value) ==> header_value(headers_view(headers@), name@) == Some(value@),
{
    let ghost all = headers_view(headers@);
    let mut i: usize = 0;
    assert(all.skip(0) == all);
    while i < headers.len()
        invariant
            i <= headers.len(),
            all == headers_view(headers@),
            header_value(all, name@) == header_value(all.skip(i as int), name@),
        decreases headers.len() - i,
    {
        let ghost rest = all.skip(i as int);
        proof {
            assert(rest.first() == headers@[i as int]@);
            assert(rest.drop_first() == all.skip(i + 1));
        }
        if same_text_ignoring_case(headers[i].name.as_str(), name) {
            return Some(&headers[i].value);
        }
        i = i + 1;
    }
    None
}

/// A copy of `entry`.
pub fn copy_entry(entry: &VaultEntry) -> (r: VaultEntry)
    ensures
        r@ == entry@,
{
    VaultEntry { key: entry.key.clone(), value: entry.value.clone() }
}

/// A copy of `vault`, entry by entry.
pub fn copy_vault(vault: &[VaultEntry]) -> (r: Vec<VaultEntry>)
    ensures
        vault_view(r@) == vault_view(vault@),
{
    let mut out: Vec<VaultEntry> = Vec::new();
    let mut i: usize = 0;
    while i < vault.len()
        invariant
            i <= vault.len(),
            out@.len() == i,
            forall|j: int| 0 <= j < i ==> (#[trigger] out@[j])@ == vault@[j]@,
        decreases vault.len() - i,
    {
        out.push(copy_entry(&vault[i]));
        i = i + 1;
    }
    assert(vault_view(out@) =~= vault_view(vault@));
    out
}

} // verus!
