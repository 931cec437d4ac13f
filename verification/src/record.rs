//! The record: an owner's key and a text, and its persisted form.

use vstd::prelude::*;
use vstd::utf8::*;
use crate::layout::{
    discriminator, le32, le32_value, read_bytes, read_le32, write_bytes, write_le32, zeros,
    DISCRIMINATOR_LEN, KEY_LEN, OWNER_OFFSET, RECORD_DISCRIMINATOR, TEXT_LEN_OFFSET, TEXT_OFFSET,
};

verus! {

/// The key of an account.
pub type Pubkey = [u8; 32];

/// Why a write into storage was turned down.
#[derive(Debug, Clone, Copy, PartialEq, Eq, Structural)]
pub enum StoreError {
    /// The payer did not authorise the invocation.
    MissingSignature,
    /// The target slot is not new: it holds funds or data, or a program
    /// has taken it.
    SlotInUse,
    /// The payer cannot fund the allocation.
    InsufficientFunds,
    /// The record does not fit into the space it was given.
    RecordTooLarge,
}

/// Why stored bytes could not be read as a record.
#[derive(Debug, Clone, Copy, PartialEq, Eq, Structural)]
pub enum DecodeError {
    /// The data is shorter than a type tag.
    DiscriminatorNotFound,
    /// The data opens with another type tag.
    DiscriminatorMismatch,
    /// What follows the type tag is no key and length-prefixed text.
    DidNotDeserialize,
}

/// The sole persisted entity.
#[derive(Debug, Clone, PartialEq, Eq)]
pub struct Record {
    /// Key of the account that authored the record.
    pub user: Pubkey,
    /// The text, as it was submitted.
    pub text: String,
}

/// What a record is: the bytes of a key and a sequence of characters.
pub struct RecordView {
    pub user: Seq<u8>,
    pub text: Seq<char>,
}

impl View for Record {
    type V = RecordView;

    open spec fn view(&self) -> RecordView {
        RecordView { user: self.user@, text: self.text@ }
    }
}

impl RecordView {
    /// The text in UTF-8.
    pub open spec fn text_bytes(self) -> Seq<u8> {
        encode_utf8(self.text)
    }

    /// Bytes that the persisted form occupies.
    pub open spec fn serialized_len(self) -> nat {
        TEXT_OFFSET as nat + self.text_bytes().len()
    }

    /// Whether a persisted form exists: the key is whole and the text's
    /// length can be written in the prefix.
    pub open spec fn serializable(self) -> bool {
        self.user.len() == KEY_LEN && self.text_bytes().len() <= u32::MAX
    }

    /// Whether the record can be written into `space` bytes.
    pub open spec fn fits(self, space: nat) -> bool {
        self.serializable() && self.serialized_len() <= space
    }

    /// The persisted form: type tag, key, length prefix, text.
    pub open spec fn serialized(self) -> Seq<u8> {
        discriminator() + self.user + le32(self.text_bytes().len()) + self.text_bytes()
    }

    /// The content of a slot of `space` bytes that holds the record: the
    /// persisted form, then zeros.
    pub open spec fn image(self, space: nat) -> Seq<u8>
        recommends
            self.fits(space),
    {
        self.serialized() + zeros((space - self.serialized_len()) as nat)
    }
}

/// The record that stored bytes hold, or why they hold none. Bytes behind
/// the text are not looked at.
pub open spec fn parse(data: Seq<u8>) -> Result<RecordView, DecodeError> {
    if data.len() < DISCRIMINATOR_LEN {
        Err(DecodeError::DiscriminatorNotFound)
    } else if data.subrange(0, DISCRIMINATOR_LEN as int) != discriminator() {
        Err(DecodeError::DiscriminatorMismatch)
    } else if data.len() < TEXT_OFFSET {
        Err(DecodeError::DidNotDeserialize)
    } else {
        let n = le32_value(data.subrange(TEXT_LEN_OFFSET as int, TEXT_OFFSET as int));
        if TEXT_OFFSET + n > data.len() {
            Err(DecodeError::DidNotDeserialize)
        } else if !valid_utf8(data.subrange(TEXT_OFFSET as int, TEXT_OFFSET + n)) {
            Err(DecodeError::DidNotDeserialize)
        } else {
            Ok(
                RecordView {
                    user: data.subrange(OWNER_OFFSET as int, TEXT_LEN_OFFSET as int),
                    text: decode_utf8(data.subrange(TEXT_OFFSET as int, TEXT_OFFSET + n)),
                },
            )
        }
    }
}

/// `String::from_utf8`: the string whose UTF-8 form is `bytes`, where the
/// bytes are valid UTF-8, and nothing where they are not.
#[verifier::external_body]
fn string_from_utf8(bytes: Vec<u8>) -> (r: Option<String>)
    ensures
        r is Some <==> valid_utf8(bytes@),
        r matches Some(s) ==> encode_utf8(s@) == bytes@,
{
    match String::from_utf8(bytes) {
        Ok(s) => Some(s),
        Err(_) => None,
    }
}

impl Record {
    /// Writes the persisted form over the front of `data`, whose length is
    /// the space at hand. What lies behind the record stays. A record that
    /// does not fit is turned down and `data` is left as it was.
    pub fn try_serialize(&self, data: &mut Vec<u8>) -> (r: Result<(), StoreError>)
        ensures
            self@.fits(old(data)@.len()) ==> r is Ok && final(data)@ == self@.serialized()
                + old(data)@.subrange(self@.serialized_len() as int, old(data)@.len() as int),
            !self@.fits(old(data)@.len()) ==> r == Err::<(), StoreError>(StoreError::RecordTooLarge)
                && final(data)@ == old(data)@,
    {
        let text = self.text.as_str().as_bytes();
        let space = data.len();
        if space < TEXT_OFFSET || text.len() > space - TEXT_OFFSET || text.len() > 0xffff_ffff {
            return Err(StoreError::RecordTooLarge);
        }
        let ghost before = data@;
        write_bytes(data, 0, RECORD_DISCRIMINATOR.as_slice());
        write_bytes(data, OWNER_OFFSET, self.user.as_slice());
        write_le32(data, TEXT_LEN_OFFSET, text.len() as u32);
        write_bytes(data, TEXT_OFFSET, text);
        assert(RECORD_DISCRIMINATOR@ =~= discriminator());
        assert(data@ =~= self@.serialized() + before.subrange(
            self@.serialized_len() as int,
            before.len() as int,
        ));
        Ok(())
    }

    /// Reads a record from the front of `data`.
    pub fn try_deserialize(data: &[u8]) -> (r: Result<Record, DecodeError>)
        ensures
            match parse(data@) {
                Ok(v) => r is Ok && r->Ok_0@ == v,
                Err(e) => r == Err::<Record, DecodeError>(e),
            },
    {
        if data.len() < DISCRIMINATOR_LEN {
            return Err(DecodeError::DiscriminatorNotFound);
        }
        let mut i: usize = 0;
        while i < DISCRIMINATOR_LEN
            invariant
                i <= DISCRIMINATOR_LEN <= data.len(),
                data@.subrange(0, i as int) == discriminator().subrange(0, i as int),
            decreases DISCRIMINATOR_LEN - i,
        {
            if data[i] != RECORD_DISCRIMINATOR[i] {
                assert(data@.subrange(0, DISCRIMINATOR_LEN as int)[i as int] != discriminator()[i as int]);
                return Err(DecodeError::DiscriminatorMismatch);
            }
            assert(data@.subrange(0, i + 1) =~= discriminator().subrange(0, i + 1));
            i += 1;
        }
        assert(discriminator().subrange(0, DISCRIMINATOR_LEN as int) =~= discriminator());
        if data.len() < TEXT_OFFSET {
            return Err(DecodeError::DidNotDeserialize);
        }
        let n = read_le32(data, TEXT_LEN_OFFSET) as usize;
        if n > data.len() - TEXT_OFFSET {
            return Err(DecodeError::DidNotDeserialize);
        }
        let mut user: Pubkey = [0u8; 32];
        let mut j: usize = 0;
        while j < KEY_LEN
            invariant
                j <= KEY_LEN,
                data.len() >= TEXT_OFFSET,
                user@.subrange(0, j as int) == data@.subrange(OWNER_OFFSET as int, OWNER_OFFSET + j),
            decreases KEY_LEN - j,
        {
            let ghost prev = user@;
            user[j] = data[OWNER_OFFSET + j];
            assert(user@.subrange(0, j + 1) =~= prev.subrange(0, j as int).push(
                data@[OWNER_OFFSET + j],
            ));
            assert(data@.subrange(OWNER_OFFSET as int, OWNER_OFFSET + j + 1) =~= data@.subrange(
                OWNER_OFFSET as int,
                OWNER_OFFSET + j,
            ).push(data@[OWNER_OFFSET + j]));
            j += 1;
        }
        assert(user@.subrange(0, KEY_LEN as int) =~= user@);
        let bytes = read_bytes(data, TEXT_OFFSET, n);
        match string_from_utf8(bytes) {
            Some(text) => {
                proof {
                    encode_utf8_decode_utf8(text@);
                }
                Ok(Record { user, text })
            },
            None => Err(DecodeError::DidNotDeserialize),
        }
    }
}

} // verus!
