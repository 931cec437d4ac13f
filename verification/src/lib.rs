//! A record store: one operation that writes a signer's key and a short text
//! into a freshly allocated storage slot, with the checks a host would make
//! stated in the open.

pub mod laws;
pub mod layout;
pub mod record;
pub mod store;

pub use crate::record::{DecodeError, Pubkey, Record, StoreError};
pub use crate::store::{
    keys_equal, store_message, Signer, Slot, StoreMessage, System, PROGRAM_ID, SYSTEM_PROGRAM_ID,
};
