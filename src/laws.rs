//! Properties of runs of appends.
use vstd::prelude::*;

use crate::account::BaseAccount;
use crate::entry::ItemStruct;
use crate::layout::{entries_size, entry_size, record_size, EMPTY_RECORD_SIZE};

verus! {

/// Appends keep their order. Say entry `a` was appended to the entries
/// `before_a`, giving `after_a`; later calls grew that into `before_b`, to
/// which `b` was appended, giving `after_b`; and later calls grew that into
/// `last`. Then in `last` entry `a` stands where it was appended, entry `b`
/// where it was appended, and `a` comes first.
pub proof fn lemma_append_order(
    before_a: Seq<ItemStruct>,
    after_a: Seq<ItemStruct>,
    before_b: Seq<ItemStruct>,
    after_b: Seq<ItemStruct>,
    last: Seq<ItemStruct>,
    a: ItemStruct,
    b: ItemStruct,
)
    requires
        after_a == before_a.push(a),
        after_a.is_prefix_of(before_b),
        after_b == before_b.push(b),
        after_b.is_prefix_of(last),
    ensures
        before_a.len() < before_b.len() < last.len(),
        last[before_a.len() as int] == a,
        last[before_b.len() as int] == b,
{
    assert(after_a[before_a.len() as int] == a);
    assert(before_b[before_a.len() as int] == a);
    assert(after_b[before_a.len() as int] == a);
    assert(after_b[before_b.len() as int] == b);
}

/// Entries that all take `size` bytes take `size` bytes each in all.
proof fn lemma_entries_size_uniform(items: Seq<ItemStruct>, size: nat)
    requires
        forall|i: int| 0 <= i < items.len() ==> entry_size(#[trigger] items[i]) == size,
    ensures
        entries_size(items) == items.len() * size,
    decreases items.len(),
{
    if items.len() > 0 {
        lemma_entries_size_uniform(items.drop_last(), size);
        assert(entries_size(items) == (items.len() - 1) * size + size);
        assert((items.len() - 1) * size + size == items.len() * size) by (nonlinear_arith);
    }
}

/// When the storage holds the empty record and room for exactly `n` entries
/// of one size, and the record holds at most `n` entries of that size, then
/// one more entry of that size fits exactly when the record holds fewer than
/// `n`. So starting from an empty record the first `n` appends succeed and
/// the next one fails with `CapacityExceeded`.
pub proof fn lemma_capacity_boundary(acct: &BaseAccount, item: ItemStruct, n: nat)
    requires
        acct.spec_capacity() == EMPTY_RECORD_SIZE + n * entry_size(item),
        acct@.len() <= n,
        forall|i: int| 0 <= i < acct@.len() ==> entry_size(#[trigger] acct@[i]) == entry_size(item),
    ensures
        acct.fits(item) <==> acct@.len() < n,
{
    let items = acct@.push(item);
    assert forall|i: int| 0 <= i < items.len() implies entry_size(#[trigger] items[i]) == entry_size(item) by {
        if i < acct@.len() {
            assert(items[i] == acct@[i]);
        }
    }
    lemma_entries_size_uniform(items, entry_size(item));
    assert(record_size(items) == EMPTY_RECORD_SIZE + items.len() * entry_size(item));
    if acct@.len() < n {
        assert(items.len() * entry_size(item) <= n * entry_size(item)) by (nonlinear_arith)
            requires items.len() <= n;
    } else {
        assert(items.len() * entry_size(item) == n * entry_size(item) + entry_size(item)) by (nonlinear_arith)
            requires items.len() == n + 1;
        assert(entry_size(item) > 0);
    }
}

} // verus!
