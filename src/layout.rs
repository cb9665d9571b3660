//! The stored layout of a record: an 8-byte account discriminator, the
//! 8-byte count, a 4-byte list length, then for each entry a 4-byte length
//! and the UTF-8 bytes of its link followed by a 32-byte key.
use vstd::prelude::*;
use vstd::utf8::encode_utf8;

use crate::entry::ItemStruct;

verus! {

/// Bytes taken by the account discriminator that leads the stored record.
pub const DISCRIMINATOR_SIZE: usize = 8;

/// Bytes taken by the stored count.
pub const COUNT_SIZE: usize = 8;

/// Bytes taken by the length that leads the stored list.
pub const LIST_PREFIX_SIZE: usize = 4;

/// Bytes taken by the length that leads each stored link.
pub const LINK_PREFIX_SIZE: usize = 4;

/// Bytes taken by a stored account key.
pub const KEY_SIZE: usize = 32;

/// Bytes of a record that holds no entry.
pub const EMPTY_RECORD_SIZE: usize = DISCRIMINATOR_SIZE + COUNT_SIZE + LIST_PREFIX_SIZE;

/// Bytes of an entry besides the bytes of its link.
pub const ENTRY_OVERHEAD: usize = LINK_PREFIX_SIZE + KEY_SIZE;

/// Number of bytes in the UTF-8 encoding of a link.
pub open spec fn link_size(link: Seq<char>) -> nat {
    encode_utf8(link).len()
}

/// Stored size of one entry.
pub open spec fn entry_size(item: ItemStruct) -> nat {
    ENTRY_OVERHEAD as nat + link_size(item.gif_link@)
}

/// Stored size of a list of entries, without the list's own length prefix.
pub open spec fn entries_size(items: Seq<ItemStruct>) -> nat
    decreases items.len(),
{
    if items.len() == 0 {
        0
    } else {
        entries_size(items.drop_last()) + entry_size(items.last())
    }
}

/// Stored size of a record that holds `items`.
pub open spec fn record_size(items: Seq<ItemStruct>) -> nat {
    EMPTY_RECORD_SIZE as nat + entries_size(items)
}

/// Adding an entry to the end of a list adds its stored size.
pub proof fn lemma_record_size_push(items: Seq<ItemStruct>, item: ItemStruct)
    ensures
        record_size(items.push(item)) == record_size(items) + entry_size(item),
{
    assert(items.push(item).drop_last() =~= items);
}

/// A prefix of a list is stored in no more bytes than the whole list.
pub proof fn lemma_entries_size_prefix(items: Seq<ItemStruct>, n: int)
    requires
        0 <= n <= items.len(),
    ensures
        entries_size(items.take(n)) <= entries_size(items),
    decreases items.len(),
{
    if n == items.len() {
        assert(items.take(n) =~= items);
    } else {
        assert(items.take(n) =~= items.drop_last().take(n));
        lemma_entries_size_prefix(items.drop_last(), n);
    }
}

/// Each entry takes at least its fixed overhead.
pub proof fn lemma_entries_size_bound(items: Seq<ItemStruct>)
    ensures
        entries_size(items) >= ENTRY_OVERHEAD * items.len(),
    decreases items.len(),
{
    if items.len() > 0 {
        lemma_entries_size_bound(items.drop_last());
    }
}

} // verus!
