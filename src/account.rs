//! The record that holds the board, its creation, and the one operation
//! that changes it.
use vstd::prelude::*;

use crate::entry::ItemStruct;
use crate::layout::{
    entries_size, lemma_entries_size_bound, lemma_entries_size_prefix, lemma_record_size_push,
    record_size, EMPTY_RECORD_SIZE, ENTRY_OVERHEAD,
};

verus! {

/// Why an append was refused. A refused append changes nothing.
#[derive(Debug, Clone, Copy, PartialEq, Eq, Structural)]
pub enum GifError {
    /// No authenticated key came with the call.
    Unauthenticated,
    /// The record with the new entry would not fit its storage.
    CapacityExceeded,
}

/// The record: a count and the entries in the order they were appended.
/// Its storage size is fixed when it is created. Its view is the list of
/// entries.
pub struct BaseAccount {
    total_gifs: u64,
    gif_list: Vec<ItemStruct>,
    space: usize,
    used: usize,
}

impl View for BaseAccount {
    type V = Seq<ItemStruct>;

    closed spec fn view(&self) -> Seq<ItemStruct> {
        self.gif_list@
    }
}

impl BaseAccount {
    /// The stored count.
    pub closed spec fn spec_total_gifs(&self) -> nat {
        self.total_gifs as nat
    }

    /// The storage size, in bytes, that the record was created with.
    pub closed spec fn spec_capacity(&self) -> nat {
        self.space as nat
    }

    /// The count matches the list, and the stored size of the list is
    /// tracked.
    pub closed spec fn wf(&self) -> bool {
        &&& self.total_gifs == self.gif_list@.len()
        &&& self.used == record_size(self.gif_list@)
    }

    /// Whether `item` may be appended: the record with it stays within the
    /// storage size.
    pub open spec fn fits(&self, item: ItemStruct) -> bool {
        record_size(self@.push(item)) <= self.spec_capacity()
    }

    /// A well-formed record counts exactly its entries.
    pub proof fn lemma_count_is_length(&self)
        requires
            self.wf(),
        ensures
            self.spec_total_gifs() == self@.len(),
    {
    }

    /// Rebuilds a record from a stored count, stored entries and the size of
    /// its storage. Gives `None` exactly when the count is not the number of
    /// entries or the entries do not fit in `space` bytes.
    pub fn load(total_gifs: u64, gif_list: Vec<ItemStruct>, space: usize) -> (r: Option<BaseAccount>)
        ensures
            r is Some <==> total_gifs == gif_list@.len() && record_size(gif_list@) <= space,
            r matches Some(a) ==> {
                &&& a.wf()
                &&& a@ == gif_list@
                &&& a.spec_total_gifs() == total_gifs
                &&& a.spec_capacity() == space
            },
    {
        if gif_list.len() as u64 != total_gifs {
            return None;
        }
        if space < EMPTY_RECORD_SIZE {
            proof {
                lemma_entries_size_prefix(gif_list@, 0);
            }
            return None;
        }
        let mut used: usize = EMPTY_RECORD_SIZE;
        let mut i: usize = 0;
        while i < gif_list.len()
            invariant
                i <= gif_list@.len(),
                used == record_size(gif_list@.take(i as int)),
                used <= space,
            decreases gif_list@.len() - i,
        {
            let link_len = gif_list[i].gif_link.as_str().as_bytes().len();
            proof {
                lemma_record_size_push(gif_list@.take(i as int), gif_list@[i as int]);
                assert(gif_list@.take(i as int).push(gif_list@[i as int]) =~= gif_list@.take(i + 1));
            }
            let available = space - used;
            if available < ENTRY_OVERHEAD || link_len > available - ENTRY_OVERHEAD {
                proof {
                    lemma_entries_size_prefix(gif_list@, i + 1);
                }
                return None;
            }
            used = used + ENTRY_OVERHEAD + link_len;
            i = i + 1;
        }
        assert(gif_list@.take(i as int) =~= gif_list@);
        Some(BaseAccount { total_gifs, gif_list, space, used })
    }

    /// Gives up the record as its stored count and its entries.
    pub fn into_parts(self) -> (r: (u64, Vec<ItemStruct>))
        ensures
            r.0 == self.spec_total_gifs(),
            r.1@ == self@,
    {
        (self.total_gifs, self.gif_list)
    }

    /// The stored count.
    pub fn total_gifs(&self) -> (r: u64)
        ensures
            r == self.spec_total_gifs(),
    {
        self.total_gifs
    }

    /// The entries, oldest first.
    pub fn gif_list(&self) -> (r: &Vec<ItemStruct>)
        ensures
            r@ == self@,
    {
        &self.gif_list
    }

    /// The storage size, in bytes, that the record was created with.
    pub fn capacity(&self) -> (r: usize)
        ensures
            r == self.spec_capacity(),
    {
        self.space
    }
}

/// Creates an empty record whose storage is `space` bytes.
pub fn initialize(space: usize) -> (r: BaseAccount)
    ensures
        r.wf(),
        r.spec_total_gifs() == 0,
        r@ == Seq::<ItemStruct>::empty(),
        r.spec_capacity() == space,
{
    let r = BaseAccount { total_gifs: 0, gif_list: Vec::new(), space, used: EMPTY_RECORD_SIZE };
    assert(r.gif_list@ =~= Seq::<ItemStruct>::empty());
    r
}

/// Appends the link `gif_link`, stamped with the caller's key `user`, to the
/// end of the record and counts it. Any text is accepted as a link, the
/// empty one too.
///
/// Without a key the call fails with `Unauthenticated`; when the record with
/// the new entry would outgrow its storage it fails with `CapacityExceeded`.
/// A failed call leaves the record as it was.
pub fn add_gif(
    base_account: &mut BaseAccount,
    gif_link: String,
    user: Option<anchor_lang::prelude::Pubkey>,
) -> (r: Result<(), GifError>)
    requires
        old(base_account).wf(),
    ensures
        final(base_account).wf(),
        final(base_account).spec_capacity() == old(base_account).spec_capacity(),
        final(base_account).spec_total_gifs() == final(base_account)@.len(),
        old(base_account)@.is_prefix_of(final(base_account)@),
        user is None ==> r == Err::<(), GifError>(GifError::Unauthenticated),
        user is Some ==> {
            let item = (ItemStruct { gif_link, user_address: user->0 });
            &&& !old(base_account).fits(item) ==> r == Err::<(), GifError>(GifError::CapacityExceeded)
            &&& old(base_account).fits(item) ==> r is Ok
            &&& r is Ok ==> final(base_account)@ == old(base_account)@.push(item)
        },
        r is Ok ==> final(base_account).spec_total_gifs() == old(base_account).spec_total_gifs() + 1,
        r is Err ==> *final(base_account) == *old(base_account),
{
    let user_address = match user {
        Some(k) => k,
        None => {
            return Err(GifError::Unauthenticated);
        },
    };
    let link_len = gif_link.as_str().as_bytes().len();
    let item = ItemStruct { gif_link, user_address };
    proof {
        lemma_record_size_push(base_account.gif_list@, item);
        lemma_entries_size_bound(base_account.gif_list@.push(item));
    }
    if base_account.used > base_account.space {
        return Err(GifError::CapacityExceeded);
    }
    let available = base_account.space - base_account.used;
    if available < ENTRY_OVERHEAD || link_len > available - ENTRY_OVERHEAD {
        return Err(GifError::CapacityExceeded);
    }
    // The grown list fits in `space`, and each entry takes at least
    // ENTRY_OVERHEAD (36) bytes, so the count stays far below u64::MAX.
    assert(record_size(base_account.gif_list@.push(item)) <= base_account.space);
    assert(entries_size(base_account.gif_list@.push(item)) >= 36 * (base_account.gif_list@.len() + 1));
    base_account.gif_list.push(item);
    base_account.total_gifs = base_account.total_gifs + 1;
    base_account.used = base_account.used + ENTRY_OVERHEAD + link_len;
    Ok(())
}

} // verus!
