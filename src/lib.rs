//! An append-only board of links, each stamped with the key of the account
//! that posted it, kept in one record of fixed storage size.
pub mod account;
pub mod entry;
pub mod laws;
pub mod layout;

pub use account::{add_gif, initialize, BaseAccount, GifError};
pub use entry::ItemStruct;
