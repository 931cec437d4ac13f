//! The store operation and the accounts it works on.

use vstd::prelude::*;
use crate::layout::{zeroed, KEY_LEN, RECORD_SPACE};
use crate::record::{Pubkey, Record, RecordView, StoreError};

verus! {

/// The key of this program, under which its records are kept.
pub const PROGRAM_ID: Pubkey = [
    246, 86, 193, 44, 135, 69, 51, 141, 29, 109, 231, 202, 192, 119, 27, 174, 172, 230, 136, 194,
    71, 154, 64, 115, 147, 227, 107, 29, 198, 10, 232, 247,
];

/// The key of the account-creation facility, which owns every slot that
/// was never allocated.
pub const SYSTEM_PROGRAM_ID: Pubkey = [
    0, 0, 0, 0, 0, 0, 0, 0, 0, 0, 0, 0, 0, 0, 0, 0, 0, 0, 0, 0, 0, 0, 0, 0, 0, 0, 0, 0, 0, 0, 0, 0,
];

/// Whether two keys are the same.
pub fn keys_equal(a: &Pubkey, b: &Pubkey) -> (r: bool)
    ensures
        r == (a@ == b@),
{
    let mut i: usize = 0;
    while i < KEY_LEN
        invariant
            i <= KEY_LEN,
            a@.subrange(0, i as int) == b@.subrange(0, i as int),
        decreases KEY_LEN - i,
    {
        if a[i] != b[i] {
            assert(a@[i as int] != b@[i as int]);
            return false;
        }
        assert(a@.subrange(0, i + 1) =~= a@.subrange(0, i as int).push(a@[i as int]));
        assert(b@.subrange(0, i + 1) =~= b@.subrange(0, i as int).push(b@[i as int]));
        i += 1;
    }
    assert(a@.subrange(0, KEY_LEN as int) =~= a@);
    assert(b@.subrange(0, KEY_LEN as int) =~= b@);
    true
}

/// The account that authorises the invocation and pays for the new storage.
#[derive(Debug, Clone, Copy, PartialEq, Eq)]
pub struct Signer {
    /// The account's key.
    pub key: Pubkey,
    /// Whether the account signed the invocation.
    pub is_signer: bool,
    /// The account's balance.
    pub lamports: u64,
}

/// A storage slot: what it holds in funds and in bytes, and whose it is.
#[derive(Debug, Clone, PartialEq, Eq)]
pub struct Slot {
    /// The slot's balance.
    pub lamports: u64,
    /// The slot's content. A slot that was never allocated has none.
    pub data: Vec<u8>,
    /// Key of the program that the slot belongs to.
    pub owner: Pubkey,
}

/// What a slot is: a balance, a sequence of bytes and the owner's key.
pub struct SlotView {
    pub lamports: u64,
    pub data: Seq<u8>,
    pub owner: Seq<u8>,
}

/// The account-creation facility, with what it charges.
#[derive(Debug, Clone, Copy, PartialEq, Eq, Structural)]
pub struct System {
    /// The balance that an allocation of `RECORD_SPACE` bytes must be
    /// funded with.
    pub minimum_balance: u64,
}

/// The accounts of one invocation of the store operation.
#[derive(Debug, Clone, PartialEq, Eq)]
pub struct StoreMessage {
    /// The slot that is to hold the new record.
    pub record: Slot,
    /// The signer, who also pays.
    pub user: Signer,
    /// The facility that allocates the slot.
    pub system_program: System,
}

/// What the accounts of an invocation are.
pub struct StoreMessageView {
    pub record: SlotView,
    pub user: Signer,
    pub system_program: System,
}

impl View for Slot {
    type V = SlotView;

    open spec fn view(&self) -> SlotView {
        SlotView { lamports: self.lamports, data: self.data@, owner: self.owner@ }
    }
}

impl View for StoreMessage {
    type V = StoreMessageView;

    open spec fn view(&self) -> StoreMessageView {
        StoreMessageView {
            record: self.record@,
            user: self.user,
            system_program: self.system_program,
        }
    }
}

impl SlotView {
    /// Whether the slot is new: it holds neither funds nor data and no
    /// program has taken it.
    pub open spec fn is_vacant(self) -> bool {
        self.lamports == 0 && self.data.len() == 0 && self.owner == SYSTEM_PROGRAM_ID@
    }
}

impl Slot {
    /// Whether the slot is new: it holds neither funds nor data and no
    /// program has taken it.
    pub fn is_vacant(&self) -> (r: bool)
        ensures
            r == self@.is_vacant(),
    {
        self.lamports == 0 && self.data.len() == 0 && keys_equal(&self.owner, &SYSTEM_PROGRAM_ID)
    }
}

impl StoreMessageView {
    /// The record that storing `text` writes: the signer's key and the text.
    pub open spec fn record_of(self, text: Seq<char>) -> RecordView {
        RecordView { user: self.user.key@, text }
    }

    /// Why storing `text` is turned down, if it is. The signer's
    /// authorisation is looked at first, then the slot, then the signer's
    /// funds, then the size of the record.
    pub open spec fn rejection(self, text: Seq<char>) -> Option<StoreError> {
        if !self.user.is_signer {
            Some(StoreError::MissingSignature)
        } else if !self.record.is_vacant() {
            Some(StoreError::SlotInUse)
        } else if self.user.lamports < self.system_program.minimum_balance {
            Some(StoreError::InsufficientFunds)
        } else if !self.record_of(text).fits(RECORD_SPACE as nat) {
            Some(StoreError::RecordTooLarge)
        } else {
            None
        }
    }

    /// The accounts after `text` was stored: the slot is allocated, funded
    /// out of the signer's balance, belongs to this program and holds the
    /// record.
    pub open spec fn stored(self, text: Seq<char>) -> StoreMessageView
        recommends
            self.rejection(text) is None,
    {
        StoreMessageView {
            record: SlotView {
                lamports: self.system_program.minimum_balance,
                data: self.record_of(text).image(RECORD_SPACE as nat),
                owner: PROGRAM_ID@,
            },
            user: Signer {
                key: self.user.key,
                is_signer: self.user.is_signer,
                lamports: (self.user.lamports - self.system_program.minimum_balance) as u64,
            },
            system_program: self.system_program,
        }
    }

    /// What storing `text` comes to: the accounts afterwards, or the reason
    /// why nothing was stored.
    pub open spec fn store(self, text: Seq<char>) -> Result<StoreMessageView, StoreError> {
        match self.rejection(text) {
            Some(e) => Err(e),
            None => Ok(self.stored(text)),
        }
    }
}

/// Stores `text` for the signer in the slot. Either the slot is allocated
/// to this program, funded by the signer and holds the signer's key and the
/// text, or the invocation is turned down and the accounts stay as they
/// were.
pub fn store_message(ctx: &mut StoreMessage, text: String) -> (r: Result<(), StoreError>)
    ensures
        match old(ctx)@.store(text@) {
            Ok(after) => r is Ok && final(ctx)@ == after,
            Err(e) => r == Err::<(), StoreError>(e) && *final(ctx) == *old(ctx),
        },
{
    if !ctx.user.is_signer {
        return Err(StoreError::MissingSignature);
    }
    if !ctx.record.is_vacant() {
        return Err(StoreError::SlotInUse);
    }
    let price = ctx.system_program.minimum_balance;
    if ctx.user.lamports < price {
        return Err(StoreError::InsufficientFunds);
    }
    let record = Record { user: ctx.user.key, text };
    let mut data = zeroed(RECORD_SPACE);
    match record.try_serialize(&mut data) {
        Err(e) => Err(e),
        Ok(()) => {
            assert(data@ =~= record@.image(RECORD_SPACE as nat));
            ctx.record.lamports = price;
            ctx.record.data = data;
            ctx.record.owner = PROGRAM_ID;
            ctx.user.lamports = ctx.user.lamports - price;
            Ok(())
        },
    }
}

} // verus!
