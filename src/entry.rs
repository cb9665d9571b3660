//! One posted link and the key of the account that posted it.
use vstd::prelude::*;

verus! {

/// Declares anchor_lang's `Pubkey`, the runtime's 32-byte account key, so
/// that entries can hold one. Nothing is assumed of it: the library only
/// carries keys through and never looks inside one.
#[verifier::external_type_specification]
#[verifier::external_body]
pub struct ExPubkey(anchor_lang::prelude::Pubkey);

/// An entry of the board. It is never changed once it is in a record.
#[derive(Debug)]
pub struct ItemStruct {
    pub gif_link: String,
    pub user_address: anchor_lang::prelude::Pubkey,
}

} // verus!
