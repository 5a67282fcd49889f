//! Changes to a fetched vault.
//!
//! The vault is a list of entries. The host stores it as it comes; it is
//! the client that keeps its keys unique: to store an entry is to remove
//! whatever is stored under its key and to append it.

use vstd::prelude::*;
use crate::cloud::types::{copy_entry, vault_view, VaultEntry, VaultEntryView};
use crate::text::{same_text, texts_view};

verus! {

/// The entries of `vault` whose key satisfies `pred`, in their order.
pub open spec fn keep(vault: Seq<VaultEntryView>, pred: spec_fn(Seq<char>) -> bool) -> Seq<
    VaultEntryView,
>
    decreases vault.len(),
{
    if vault.len() == 0 {
        vault
    } else if pred(vault.last().key) {
        keep(vault.drop_last(), pred).push(vault.last())
    } else {
        keep(vault.drop_last(), pred)
    }
}

/// The test that a key is not `key`.
pub open spec fn other_than(key: Seq<char>) -> spec_fn(Seq<char>) -> bool {
    |k: Seq<char>| k != key
}

/// The test that a key is `key`.
pub open spec fn same_as(key: Seq<char>) -> spec_fn(Seq<char>) -> bool {
    |k: Seq<char>| k == key
}

/// The vault without the entries stored under `key`.
pub open spec fn without_key(vault: Seq<VaultEntryView>, key: Seq<char>) -> Seq<VaultEntryView> {
    keep(vault, other_than(key))
}

/// The entries of the vault stored under `key`.
pub open spec fn with_key(vault: Seq<VaultEntryView>, key: Seq<char>) -> Seq<VaultEntryView> {
    keep(vault, same_as(key))
}

/// The vault after `entry` was stored: whatever was stored under its key
/// is gone, and the entry stands at the end.
pub open spec fn upserted(vault: Seq<VaultEntryView>, entry: VaultEntryView) -> Seq<
    VaultEntryView,
> {
    without_key(vault, entry.key).push(entry)
}

/// The vault after each of `items` was stored in turn.
pub open spec fn imported(vault: Seq<VaultEntryView>, items: Seq<VaultEntryView>) -> Seq<
    VaultEntryView,
>
    decreases items.len(),
{
    if items.len() == 0 {
        vault
    } else {
        upserted(imported(vault, items.drop_last()), items.last())
    }
}

/// Whether some entry of `vault` is stored under `key`.
pub open spec fn has_key(vault: Seq<VaultEntryView>, key: Seq<char>) -> bool {
    exists|i: int| 0 <= i < vault.len() && (#[trigger] vault[i]).key == key
}

/// The index of the first entry stored under `key`.
pub open spec fn first_with_key(vault: Seq<VaultEntryView>, key: Seq<char>) -> Option<int>
    decreases vault.len(),
{
    if vault.len() == 0 {
        None
    } else {
        match first_with_key(vault.drop_last(), key) {
            Some(i) => Some(i),
            None => if vault.last().key == key {
                Some(vault.len() - 1)
            } else {
                None
            },
        }
    }
}

/// The last entry stored under `key`.
pub open spec fn last_with_key(vault: Seq<VaultEntryView>, key: Seq<char>) -> Option<
    VaultEntryView,
>
    decreases vault.len(),
{
    if vault.len() == 0 {
        None
    } else if vault.last().key == key {
        Some(vault.last())
    } else {
        last_with_key(vault.drop_last(), key)
    }
}

/// The keys of the vault, in its order.
pub open spec fn vault_keys(vault: Seq<VaultEntryView>) -> Seq<Seq<char>> {
    vault.map_values(|e: VaultEntryView| e.key)
}

/// The keys of the fetched vault, in its order.
pub fn entry_keys(vault: &Vec<VaultEntry>) -> (keys: Vec<String>)
    ensures
        texts_view(keys@) == vault_keys(vault_view(vault@)),
{
    let mut keys: Vec<String> = Vec::new();
    let mut i: usize = 0;
    while i < vault.len()
        invariant
            i <= vault.len(),
            keys@.len() == i,
            forall|j: int| 0 <= j < i ==> (#[trigger] keys@[j])@ == vault@[j].key@,
        decreases vault.len() - i,
    {
        keys.push(vault[i].key.clone());
        i = i + 1;
    }
    assert(texts_view(keys@) =~= vault_keys(vault_view(vault@)));
    keys
}

/// Removes every entry stored under `key`.
pub fn remove_key(vault: &mut Vec<VaultEntry>, key: &str)
    ensures
        vault_view(final(vault)@) == without_key(vault_view(old(vault)@), key@),
{
    let ghost before = vault_view(vault@);
    let ghost pred = other_than(key@);
    let mut kept: Vec<VaultEntry> = Vec::new();
    let mut i: usize = 0;
    assert(vault_view(kept@) =~= keep(before.take(0), pred));
    while i < vault.len()
        invariant
            i <= vault.len(),
            before == vault_view(vault@),
            pred == other_than(key@),
            vault_view(kept@) == keep(before.take(i as int), pred),
        decreases vault.len() - i,
    {
        let ghost upto = before.take(i + 1);
        proof {
            assert(upto.drop_last() == before.take(i as int));
            assert(upto.last() == vault@[i as int]@);
        }
        if !same_text(vault[i].key.as_str(), key) {
            let ghost kept_before = vault_view(kept@);
            kept.push(copy_entry(&vault[i]));
            assert(vault_view(kept@) =~= kept_before.push(vault@[i as int]@));
        }
        i = i + 1;
    }
    assert(before.take(i as int) == before);
    *vault = kept;
}

/// Stores `entry`: removes whatever is stored under its key, then appends
/// it.
pub fn upsert(vault: &mut Vec<VaultEntry>, entry: VaultEntry)
    ensures
        vault_view(final(vault)@) == upserted(vault_view(old(vault)@), entry@),
{
    remove_key(vault, entry.key.as_str());
    let ghost removed = vault_view(vault@);
    vault.push(entry);
    assert(vault_view(vault@) =~= removed.push(entry@));
}

/// The index of the first entry stored under `key`.
pub fn find_entry(vault: &Vec<VaultEntry>, key: &str) -> (r: Option<usize>)
    ensures
        match r {
            Some(i) => first_with_key(vault_view(vault@), key@) == Some(i as int) && i
                < vault.len() && vault@[i as int].key@ == key@,
            None => first_with_key(vault_view(vault@), key@) is None,
        },
{
    let ghost all = vault_view(vault@);
    let mut i: usize = 0;
    while i < vault.len()
        invariant
            i <= vault.len(),
            all == vault_view(vault@),
            first_with_key(all.take(i as int), key@) is None,
        decreases vault.len() - i,
    {
        let ghost upto = all.take(i + 1);
        proof {
            assert(upto.drop_last() == all.take(i as int));
            assert(upto.last() == vault@[i as int]@);
        }
        if same_text(vault[i].key.as_str(), key) {
            proof {
                lemma_first_with_key_extends(all, i + 1, key@);
            }
            return Some(i);
        }
        i = i + 1;
    }
    assert(all.take(i as int) == all);
    None
}

/// A first entry found in a front part of the vault is the first of the
/// vault.
pub proof fn lemma_first_with_key_extends(vault: Seq<VaultEntryView>, n: int, key: Seq<char>)
    requires
        0 <= n <= vault.len(),
        first_with_key(vault.take(n), key) is Some,
    ensures
        first_with_key(vault, key) == first_with_key(vault.take(n), key),
    decreases vault.len() - n,
{
    if n < vault.len() {
        let longer = vault.take(n + 1);
        assert(longer.drop_last() == vault.take(n));
        lemma_first_with_key_extends(vault, n + 1, key);
    } else {
        assert(vault.take(n) == vault);
    }
}

/// Stores each of `items` in turn and says how many there were.
pub fn import_entries(vault: &mut Vec<VaultEntry>, items: Vec<VaultEntry>) -> (imported_count: usize)
    ensures
        vault_view(final(vault)@) == imported(vault_view(old(vault)@), vault_view(items@)),
        imported_count == items@.len(),
{
    let ghost before = vault_view(vault@);
    let ghost all = vault_view(items@);
    let mut count: usize = 0;
    let mut i: usize = 0;
    while i < items.len()
        invariant
            i <= items.len(),
            count == i,
            all == vault_view(items@),
            vault_view(vault@) == imported(before, all.take(i as int)),
        decreases items.len() - i,
    {
        let ghost upto = all.take(i + 1);
        proof {
            assert(upto.drop_last() == all.take(i as int));
            assert(upto.last() == items@[i as int]@);
        }
        upsert(vault, copy_entry(&items[i]));
        count = count + 1;
        i = i + 1;
    }
    assert(all.take(i as int) == all);
    count
}

/// Keeping by one test and then by another keeps what passes both.
pub proof fn lemma_keep_twice(
    vault: Seq<VaultEntryView>,
    first: spec_fn(Seq<char>) -> bool,
    second: spec_fn(Seq<char>) -> bool,
    both: spec_fn(Seq<char>) -> bool,
)
    requires
        forall|i: int|
            0 <= i < vault.len() ==> both((#[trigger] vault[i]).key) == (first(vault[i].key)
                && second(vault[i].key)),
    ensures
        keep(keep(vault, first), second) == keep(vault, both),
    decreases vault.len(),
{
    if vault.len() > 0 {
        let front = vault.drop_last();
        assert forall|i: int| 0 <= i < front.len() implies both((#[trigger] front[i]).key) == (
        first(front[i].key) && second(front[i].key)) by {
            assert(front[i] == vault[i]);
        }
        lemma_keep_twice(front, first, second, both);
        assert(vault.last() == vault[vault.len() - 1]);
        if first(vault.last().key) {
            assert(keep(front, first).push(vault.last()).drop_last() == keep(front, first));
        }
    }
}

/// Keeping distributes over concatenation.
pub proof fn lemma_keep_concat(
    left: Seq<VaultEntryView>,
    right: Seq<VaultEntryView>,
    pred: spec_fn(Seq<char>) -> bool,
)
    ensures
        keep(left + right, pred) == keep(left, pred) + keep(right, pred),
    decreases right.len(),
{
    if right.len() == 0 {
        assert(left + right == left);
        assert(keep(left, pred) + keep(right, pred) == keep(left, pred));
    } else {
        let front = right.drop_last();
        assert((left + right).drop_last() == left + front);
        assert((left + right).last() == right.last());
        lemma_keep_concat(left, front, pred);
        if pred(right.last().key) {
            assert((keep(left, pred) + keep(front, pred)).push(right.last()) == keep(left, pred)
                + keep(front, pred).push(right.last()));
        }
    }
}

/// Where no key passes the test, nothing is kept.
pub proof fn lemma_keep_none(vault: Seq<VaultEntryView>, pred: spec_fn(Seq<char>) -> bool)
    requires
        forall|i: int| 0 <= i < vault.len() ==> !pred((#[trigger] vault[i]).key),
    ensures
        keep(vault, pred) == Seq::<VaultEntryView>::empty(),
    decreases vault.len(),
{
    if vault.len() > 0 {
        let front = vault.drop_last();
        assert forall|i: int| 0 <= i < front.len() implies !pred((#[trigger] front[i]).key) by {
            assert(front[i] == vault[i]);
        }
        lemma_keep_none(front, pred);
        assert(vault.last() == vault[vault.len() - 1]);
    } else {
        assert(vault == Seq::<VaultEntryView>::empty());
    }
}

/// Where every key passes the test, everything is kept.
pub proof fn lemma_keep_all(vault: Seq<VaultEntryView>, pred: spec_fn(Seq<char>) -> bool)
    requires
        forall|i: int| 0 <= i < vault.len() ==> pred((#[trigger] vault[i]).key),
    ensures
        keep(vault, pred) == vault,
    decreases vault.len(),
{
    if vault.len() > 0 {
        let front = vault.drop_last();
        assert forall|i: int| 0 <= i < front.len() implies pred((#[trigger] front[i]).key) by {
            assert(front[i] == vault[i]);
        }
        lemma_keep_all(front, pred);
        assert(vault.last() == vault[vault.len() - 1]);
        assert(front.push(vault.last()) == vault);
    }
}

/// Every entry that is kept passes the test and comes from the vault.
pub proof fn lemma_keep_members(vault: Seq<VaultEntryView>, pred: spec_fn(Seq<char>) -> bool)
    ensures
        forall|j: int|
            0 <= j < keep(vault, pred).len() ==> pred((#[trigger] keep(vault, pred)[j]).key)
                && has_key(vault, keep(vault, pred)[j].key),
    decreases vault.len(),
{
    if vault.len() > 0 {
        let front = vault.drop_last();
        lemma_keep_members(front, pred);
        let kept = keep(vault, pred);
        assert forall|j: int| 0 <= j < kept.len() implies pred((#[trigger] kept[j]).key)
            && has_key(vault, kept[j].key) by {
            if j < keep(front, pred).len() {
                assert(kept[j] == keep(front, pred)[j]);
                let i = choose|i: int|
                    0 <= i < front.len() && (#[trigger] front[i]).key == kept[j].key;
                assert(vault[i] == front[i]);
            } else {
                assert(kept[j] == vault[vault.len() - 1]);
            }
        }
    }
}

/// What `items` leave behind in an empty vault.
pub open spec fn imported_alone(items: Seq<VaultEntryView>) -> Seq<VaultEntryView> {
    imported(Seq::empty(), items)
}

/// The test that no item has a key.
pub open spec fn absent_from(items: Seq<VaultEntryView>) -> spec_fn(Seq<char>) -> bool {
    |k: Seq<char>| !has_key(items, k)
}

/// The entries of `vault` whose key no item has.
pub open spec fn untouched(vault: Seq<VaultEntryView>, items: Seq<VaultEntryView>) -> Seq<
    VaultEntryView,
> {
    keep(vault, absent_from(items))
}

/// An import leaves the entries whose key no item has where they were, and
/// puts behind them what the items leave behind in an empty vault.
pub proof fn lemma_imported_splits(vault: Seq<VaultEntryView>, items: Seq<VaultEntryView>)
    ensures
        imported(vault, items) == untouched(vault, items) + imported_alone(items),
    decreases items.len(),
{
    if items.len() == 0 {
        lemma_keep_all(vault, absent_from(items));
        assert(vault + Seq::<VaultEntryView>::empty() == vault);
    } else {
        let front = items.drop_last();
        let last = items.last();
        let not_last = other_than(last.key);
        let not_front = absent_from(front);
        let not_items = absent_from(items);
        lemma_imported_splits(vault, front);
        lemma_keep_concat(untouched(vault, front), imported_alone(front), not_last);
        assert forall|k: Seq<char>| #[trigger] not_items(k) == (not_front(k) && not_last(k)) by {
            if has_key(items, k) {
                let i = choose|i: int| 0 <= i < items.len() && (#[trigger] items[i]).key == k;
                if i < front.len() {
                    assert(front[i].key == k);
                }
            }
            if has_key(front, k) {
                let i = choose|i: int| 0 <= i < front.len() && (#[trigger] front[i]).key == k;
                assert(items[i].key == k);
            }
            if k == last.key {
                assert(items[items.len() - 1].key == k);
            }
        }
        lemma_keep_twice(vault, not_front, not_last, not_items);
        let rest = untouched(vault, items);
        let tail = without_key(imported_alone(front), last.key);
        assert((rest + tail).push(last) == rest + tail.push(last));
    }
}

/// Every entry that items leave behind in an empty vault has the key of an
/// item.
pub proof fn lemma_imported_alone_keys(items: Seq<VaultEntryView>)
    ensures
        forall|j: int|
            0 <= j < imported_alone(items).len() ==> has_key(
                items,
                (#[trigger] imported_alone(items)[j]).key,
            ),
    decreases items.len(),
{
    if items.len() > 0 {
        let front = items.drop_last();
        let last = items.last();
        lemma_imported_alone_keys(front);
        let not_last = other_than(last.key);
        lemma_keep_members(imported_alone(front), not_last);
        let tail = keep(imported_alone(front), not_last);
        let all = imported_alone(items);
        assert(all == tail.push(last));
        assert forall|j: int| 0 <= j < all.len() implies has_key(items, (#[trigger] all[j]).key) by {
            if j < tail.len() {
                assert(all[j] == tail[j]);
                assert(has_key(imported_alone(front), tail[j].key));
                let m = choose|m: int|
                    0 <= m < imported_alone(front).len() && (#[trigger] imported_alone(
                        front,
                    )[m]).key == tail[j].key;
                assert(has_key(front, imported_alone(front)[m].key));
                let i = choose|i: int|
                    0 <= i < front.len() && (#[trigger] front[i]).key == tail[j].key;
                assert(items[i].key == tail[j].key);
            } else {
                assert(items[items.len() - 1].key == last.key);
            }
        }
    }
}

/// Importing the same items a second time changes nothing.
pub proof fn lemma_import_idempotent(vault: Seq<VaultEntryView>, items: Seq<VaultEntryView>)
    ensures
        imported(imported(vault, items), items) == imported(vault, items),
{
    let not_items = absent_from(items);
    let once = imported(vault, items);
    lemma_imported_splits(vault, items);
    lemma_imported_splits(once, items);
    lemma_keep_concat(untouched(vault, items), imported_alone(items), not_items);
    lemma_keep_twice(vault, not_items, not_items, not_items);
    lemma_imported_alone_keys(items);
    lemma_keep_none(imported_alone(items), not_items);
    assert(untouched(vault, items) + Seq::<VaultEntryView>::empty() == untouched(vault, items));
}

/// After an import the vault holds exactly one entry under the key of each
/// item: the last item of that key.
pub proof fn lemma_import_latest_wins(
    vault: Seq<VaultEntryView>,
    items: Seq<VaultEntryView>,
    key: Seq<char>,
)
    requires
        has_key(items, key),
    ensures
        last_with_key(items, key) is Some,
        with_key(imported(vault, items), key) == Seq::empty().push(last_with_key(items, key)->0),
    decreases items.len(),
{
    let i = choose|i: int| 0 <= i < items.len() && (#[trigger] items[i]).key == key;
    let front = items.drop_last();
    let last = items.last();
    let earlier = imported(vault, front);
    let not_last = other_than(last.key);
    let is_key = same_as(key);
    if last.key == key {
        lemma_keep_members(earlier, not_last);
        let tail = keep(earlier, not_last);
        assert forall|j: int| 0 <= j < tail.len() implies !is_key((#[trigger] tail[j]).key) by {}
        lemma_keep_none(tail, is_key);
        assert(tail.push(last).drop_last() == tail);
    } else {
        assert(front[i].key == key);
        lemma_import_latest_wins(vault, front, key);
        lemma_keep_twice(earlier, not_last, is_key, is_key);
        let tail = keep(earlier, not_last);
        assert(tail.push(last).drop_last() == tail);
    }
}

/// Once a key was removed no entry is stored under it, and the entries
/// under every other key are as they were.
pub proof fn lemma_removed_key_is_gone(vault: Seq<VaultEntryView>, key: Seq<char>, other: Seq<char>)
    ensures
        !has_key(without_key(vault, key), key),
        other != key ==> with_key(without_key(vault, key), other) == with_key(vault, other),
{
    lemma_keep_members(vault, other_than(key));
    if other != key {
        lemma_keep_twice(vault, other_than(key), same_as(other), same_as(other));
    }
}

/// Whether no two entries of the vault are stored under one key.
pub open spec fn unique_keys(vault: Seq<VaultEntryView>) -> bool {
    forall|key: Seq<char>| (#[trigger] with_key(vault, key)).len() <= 1
}

/// After an entry was stored, it is the only one under its key.
pub proof fn lemma_upsert_stores_once(vault: Seq<VaultEntryView>, entry: VaultEntryView)
    ensures
        with_key(upserted(vault, entry), entry.key) == Seq::empty().push(entry),
{
    let removed = without_key(vault, entry.key);
    lemma_keep_members(vault, other_than(entry.key));
    assert forall|j: int| 0 <= j < removed.len() implies !same_as(entry.key)(
        (#[trigger] removed[j]).key,
    ) by {}
    lemma_keep_none(removed, same_as(entry.key));
    assert(removed.push(entry).drop_last() == removed);
}

/// Storing an entry leaves the entries under every other key as they
/// were.
pub proof fn lemma_upsert_spares_other_keys(
    vault: Seq<VaultEntryView>,
    entry: VaultEntryView,
    key: Seq<char>,
)
    requires
        key != entry.key,
    ensures
        with_key(upserted(vault, entry), key) == with_key(vault, key),
{
    let removed = without_key(vault, entry.key);
    lemma_keep_twice(vault, other_than(entry.key), same_as(key), same_as(key));
    assert(removed.push(entry).drop_last() == removed);
}

/// A vault in which no key occurs twice stays so when an entry is
/// stored.
pub proof fn lemma_upsert_keeps_keys_unique(vault: Seq<VaultEntryView>, entry: VaultEntryView)
    requires
        unique_keys(vault),
    ensures
        unique_keys(upserted(vault, entry)),
{
    assert forall|key: Seq<char>| (#[trigger] with_key(upserted(vault, entry), key)).len()
        <= 1 by {
        if key == entry.key {
            lemma_upsert_stores_once(vault, entry);
        } else {
            lemma_upsert_spares_other_keys(vault, entry, key);
            assert(with_key(vault, key).len() <= 1);
        }
    }
}

/// A vault in which no key occurs twice stays so through an import.
pub proof fn lemma_import_keeps_keys_unique(
    vault: Seq<VaultEntryView>,
    items: Seq<VaultEntryView>,
)
    requires
        unique_keys(vault),
    ensures
        unique_keys(imported(vault, items)),
    decreases items.len(),
{
    if items.len() > 0 {
        lemma_import_keeps_keys_unique(vault, items.drop_last());
        lemma_upsert_keeps_keys_unique(imported(vault, items.drop_last()), items.last());
    }
}

} // verus!
