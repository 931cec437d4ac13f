//! What holds of the store operation on every input.

use vstd::prelude::*;
use vstd::utf8::{encode_utf8, encode_utf8_decode_utf8, encode_utf8_valid_utf8};
use crate::layout::{
    discriminator, le32, lemma_le32_round_trip, DISCRIMINATOR_LEN, MAX_TEXT_LEN, OWNER_OFFSET,
    RECORD_SPACE, TEXT_LEN_OFFSET, TEXT_OFFSET,
};
use crate::record::{parse, RecordView, StoreError};
use crate::store::{Signer, SlotView, StoreMessageView, System, PROGRAM_ID};

verus! {

/// A record fits into the space of a slot exactly when its text takes no
/// more than the longest text's bytes.
pub proof fn lemma_fits_record_space(record: RecordView)
    requires
        record.user.len() == 32,
    ensures
        record.fits(RECORD_SPACE as nat) <==> record.text_bytes().len() <= MAX_TEXT_LEN,
{
}

/// Reading gives back what was written: the persisted form of a record,
/// whatever bytes follow it, is read as that record.
pub proof fn lemma_parse_serialized(record: RecordView, tail: Seq<u8>)
    requires
        record.serializable(),
    ensures
        parse(record.serialized() + tail) == Ok::<RecordView, crate::record::DecodeError>(record),
{
    let bytes = record.text_bytes();
    let n = bytes.len();
    let data = record.serialized() + tail;
    lemma_le32_round_trip(n);
    encode_utf8_valid_utf8(record.text);
    encode_utf8_decode_utf8(record.text);
    assert(data.subrange(0, DISCRIMINATOR_LEN as int) =~= discriminator());
    assert(data.subrange(OWNER_OFFSET as int, TEXT_LEN_OFFSET as int) =~= record.user);
    assert(data.subrange(TEXT_LEN_OFFSET as int, TEXT_OFFSET as int) =~= le32(n));
    assert(data.subrange(TEXT_OFFSET as int, TEXT_OFFSET + n) =~= bytes);
}

/// A slot that holds a record is read as that record.
pub proof fn lemma_parse_image(record: RecordView, space: nat)
    requires
        record.fits(space),
    ensures
        parse(record.image(space)) == Ok::<RecordView, crate::record::DecodeError>(record),
{
    lemma_parse_serialized(
        record,
        crate::layout::zeros((space - record.serialized_len()) as nat),
    );
}

/// Round-trip fidelity: a signer who signed and can pay, a new slot and a
/// text of no more than the longest text's bytes always give a stored
/// record. The slot then belongs to this program, is filled to its whole
/// space and reads as the signer's key and that very text.
pub proof fn lemma_store_round_trip(ctx: StoreMessageView, text: Seq<char>)
    requires
        ctx.user.is_signer,
        ctx.user.lamports >= ctx.system_program.minimum_balance,
        ctx.record.is_vacant(),
        encode_utf8(text).len() <= MAX_TEXT_LEN,
    ensures
        ctx.store(text) == Ok::<StoreMessageView, StoreError>(ctx.stored(text)),
        parse(ctx.stored(text).record.data) == Ok::<RecordView, crate::record::DecodeError>(
            RecordView { user: ctx.user.key@, text },
        ),
        ctx.stored(text).record.data.len() == RECORD_SPACE,
        ctx.stored(text).record.owner == PROGRAM_ID@,
{
    lemma_parse_image(ctx.record_of(text), RECORD_SPACE as nat);
}

/// A text whose record exceeds the space of a slot is turned down, whoever
/// submits it and whatever the slot.
pub proof fn lemma_oversized_text_rejected(ctx: StoreMessageView, text: Seq<char>)
    requires
        encode_utf8(text).len() > MAX_TEXT_LEN,
    ensures
        ctx.store(text) is Err,
{
}

/// Without the signer's authorisation every text is turned down.
pub proof fn lemma_unsigned_rejected(ctx: StoreMessageView, text: Seq<char>)
    requires
        !ctx.user.is_signer,
    ensures
        ctx.store(text) == Err::<StoreMessageView, StoreError>(StoreError::MissingSignature),
{
}

/// Two invocations by one signer on two new slots give two records, each
/// its own text under the signer's key; the second leaves the first slot
/// as the first invocation left it.
pub proof fn lemma_two_stores_independent(
    user: Signer,
    system_program: System,
    first_slot: SlotView,
    second_slot: SlotView,
    first_text: Seq<char>,
    second_text: Seq<char>,
)
    requires
        user.is_signer,
        user.lamports >= 2 * system_program.minimum_balance,
        first_slot.is_vacant(),
        second_slot.is_vacant(),
        encode_utf8(first_text).len() <= MAX_TEXT_LEN,
        encode_utf8(second_text).len() <= MAX_TEXT_LEN,
    ensures
        ({
            let first = StoreMessageView { record: first_slot, user, system_program };
            let after_first = first.stored(first_text);
            let second = StoreMessageView {
                record: second_slot,
                user: after_first.user,
                system_program,
            };
            let after_second = second.stored(second_text);
            &&& first.store(first_text) == Ok::<StoreMessageView, StoreError>(after_first)
            &&& second.store(second_text) == Ok::<StoreMessageView, StoreError>(after_second)
            &&& parse(after_first.record.data) == Ok::<RecordView, crate::record::DecodeError>(
                RecordView { user: user.key@, text: first_text },
            )
            &&& parse(after_second.record.data) == Ok::<RecordView, crate::record::DecodeError>(
                RecordView { user: user.key@, text: second_text },
            )
            &&& after_second.user.key == user.key
        }),
{
    let first = StoreMessageView { record: first_slot, user, system_program };
    lemma_store_round_trip(first, first_text);
    let second = StoreMessageView {
        record: second_slot,
        user: first.stored(first_text).user,
        system_program,
    };
    lemma_store_round_trip(second, second_text);
}

/// A slot that holds funds or data, or that a program has taken, is never
/// written: the invocation is turned down for every signer and every text.
pub proof fn lemma_used_slot_rejected(ctx: StoreMessageView, text: Seq<char>)
    requires
        !ctx.record.is_vacant(),
    ensures
        ctx.store(text) is Err,
        ctx.user.is_signer ==> ctx.store(text) == Err::<StoreMessageView, StoreError>(
            StoreError::SlotInUse,
        ),
{
}

/// A slot that a record was stored in cannot be the target again.
pub proof fn lemma_stored_slot_rejected(
    ctx: StoreMessageView,
    text: Seq<char>,
    user: Signer,
    system_program: System,
    next_text: Seq<char>,
)
    requires
        ctx.store(text) is Ok,
    ensures
        (StoreMessageView { record: ctx.stored(text).record, user, system_program }).store(
            next_text,
        ) is Err,
{
    let record = ctx.record_of(text);
    assert(record.image(RECORD_SPACE as nat).len() == RECORD_SPACE);
}

} // verus!
