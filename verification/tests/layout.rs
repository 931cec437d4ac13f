use anchor_lang::prelude::Pubkey;
use anchor_lang::{AnchorDeserialize, AnchorSerialize};
use rizoma2::layout::{
    read_bytes, read_le32, write_bytes, write_le32, zeroed, DISCRIMINATOR_LEN, KEY_LEN,
    LEN_PREFIX_LEN, MAX_TEXT_LEN, OWNER_OFFSET, RECORD_DISCRIMINATOR, RECORD_SPACE,
    TEXT_LEN_OFFSET, TEXT_OFFSET,
};
use rizoma2::{
    store_message, DecodeError, Record, Signer, Slot, StoreError, StoreMessage, System,
    PROGRAM_ID, SYSTEM_PROGRAM_ID,
};
use std::str::FromStr;
use sha2::{Digest, Sha256};

fn sample_key() -> [u8; 32] {
    let mut k = [0u8; 32];
    for (i, b) in k.iter_mut().enumerate() {
        *b = 200u8.wrapping_add(3 * i as u8);
    }
    k
}

fn serialized(record: &Record) -> Vec<u8> {
    let mut data = vec![0u8; 44 + record.text.len()];
    assert_eq!(record.try_serialize(&mut data), Ok(()));
    data
}

#[test]
fn sizes_add_up_to_the_allocation() {
    assert_eq!(DISCRIMINATOR_LEN, 8);
    assert_eq!(KEY_LEN, 32);
    assert_eq!(LEN_PREFIX_LEN, 4);
    assert_eq!(MAX_TEXT_LEN, 280);
    assert_eq!(RECORD_SPACE, 324);
    assert_eq!(DISCRIMINATOR_LEN + KEY_LEN + LEN_PREFIX_LEN + MAX_TEXT_LEN, RECORD_SPACE);
    assert_eq!(OWNER_OFFSET, DISCRIMINATOR_LEN);
    assert_eq!(TEXT_LEN_OFFSET, OWNER_OFFSET + KEY_LEN);
    assert_eq!(TEXT_OFFSET, TEXT_LEN_OFFSET + LEN_PREFIX_LEN);
}

#[test]
fn discriminator_is_the_hash_of_the_account_name() {
    let digest = Sha256::digest(b"account:Record");
    assert_eq!(&RECORD_DISCRIMINATOR[..], &digest[..8]);
}

#[test]
fn program_key_is_the_declared_one() {
    let declared = Pubkey::from_str("Hac29kvvQ3vMEu3CzsALtciEwKYULtYuKcifebNFFhrE").unwrap();
    assert_eq!(declared.to_bytes(), PROGRAM_ID);
    assert_eq!(anchor_lang::system_program::ID.to_bytes(), SYSTEM_PROGRAM_ID);
}

#[test]
fn length_prefix_is_little_endian() {
    let mut data = vec![0xaau8; 8];
    write_le32(&mut data, 2, 0x0403_0201);
    assert_eq!(data, vec![0xaa, 0xaa, 1, 2, 3, 4, 0xaa, 0xaa]);
    assert_eq!(read_le32(&data, 2), 0x0403_0201);
    assert_eq!(read_le32(&[0x18, 0x01, 0, 0], 0), 280);
    assert_eq!(read_le32(&[0xff, 0xff, 0xff, 0xff], 0), u32::MAX);
    let mut top = vec![0u8; 4];
    write_le32(&mut top, 0, u32::MAX);
    assert_eq!(top, vec![0xff; 4]);
}

#[test]
fn bytes_are_copied_in_place() {
    let mut data = vec![9u8; 6];
    write_bytes(&mut data, 1, &[1, 2, 3]);
    assert_eq!(data, vec![9, 1, 2, 3, 9, 9]);
    write_bytes(&mut data, 6, &[]);
    assert_eq!(data, vec![9, 1, 2, 3, 9, 9]);
    assert_eq!(read_bytes(&data, 1, 3), vec![1, 2, 3]);
    assert_eq!(read_bytes(&data, 6, 0), Vec::<u8>::new());
    assert_eq!(zeroed(3), vec![0, 0, 0]);
    assert_eq!(zeroed(0), Vec::<u8>::new());
}

#[test]
fn serialize_writes_tag_key_prefix_and_text() {
    let record = Record { user: sample_key(), text: String::from("hello") };
    let mut data = vec![0x55u8; 60];
    assert_eq!(record.try_serialize(&mut data), Ok(()));
    assert_eq!(&data[0..8], &RECORD_DISCRIMINATOR);
    assert_eq!(&data[8..40], &sample_key());
    assert_eq!(&data[40..44], &[5, 0, 0, 0]);
    assert_eq!(&data[44..49], b"hello");
    assert_eq!(&data[49..], &[0x55u8; 11]);
}

#[test]
fn serialize_needs_room_for_the_whole_record() {
    let record = Record { user: sample_key(), text: String::from("hello") };
    let mut exact = vec![0u8; 49];
    assert_eq!(record.try_serialize(&mut exact), Ok(()));
    for space in [0usize, 7, 8, 43, 44, 48] {
        let mut data = vec![0x55u8; space];
        assert_eq!(record.try_serialize(&mut data), Err(StoreError::RecordTooLarge));
        assert_eq!(data, vec![0x55u8; space]);
    }
}

#[test]
fn serialized_form_is_what_the_framework_writes() {
    for text in ["", "hello", "gr\u{fc}\u{df}e \u{1f30d}", &"z".repeat(280)] {
        let record = Record { user: sample_key(), text: String::from(text) };
        let mut expected = RECORD_DISCRIMINATOR.to_vec();
        AnchorSerialize::serialize(&Pubkey::new_from_array(sample_key()), &mut expected).unwrap();
        AnchorSerialize::serialize(&record.text, &mut expected).unwrap();
        assert_eq!(serialized(&record), expected);
    }
}

#[test]
fn framework_reads_what_was_stored() {
    let mut ctx = StoreMessage {
        record: Slot { lamports: 0, data: Vec::new(), owner: SYSTEM_PROGRAM_ID },
        user: Signer { key: sample_key(), is_signer: true, lamports: 1 },
        system_program: System { minimum_balance: 1 },
    };
    assert_eq!(store_message(&mut ctx, String::from("gr\u{fc}\u{df}e")), Ok(()));
    let mut rest: &[u8] = &ctx.record.data[8..];
    let user: Pubkey = AnchorDeserialize::deserialize(&mut rest).unwrap();
    let text: String = AnchorDeserialize::deserialize(&mut rest).unwrap();
    assert_eq!(user.to_bytes(), sample_key());
    assert_eq!(text, "gr\u{fc}\u{df}e");
}

#[test]
fn deserialize_gives_back_what_was_serialized() {
    for text in ["", "hello", "gr\u{fc}\u{df}e \u{1f30d}", &"z".repeat(280)] {
        let record = Record { user: sample_key(), text: String::from(text) };
        let mut data = serialized(&record);
        assert_eq!(Record::try_deserialize(&data), Ok(record.clone()));
        data.extend_from_slice(&[0xff, 0xfe, 0xfd]);
        assert_eq!(Record::try_deserialize(&data), Ok(record));
    }
}

#[test]
fn deserialize_reads_a_multi_byte_text() {
    let mut data = RECORD_DISCRIMINATOR.to_vec();
    data.extend_from_slice(&sample_key());
    data.extend_from_slice(&[7, 0, 0, 0]);
    data.extend_from_slice(&[0x61, 0xc3, 0xa9, 0xf0, 0x9f, 0x8c, 0x8d]);
    let record = Record::try_deserialize(&data).unwrap();
    assert_eq!(record.text, "a\u{e9}\u{1f30d}");
    assert_eq!(record.text.chars().count(), 3);
    assert_eq!(record.user, sample_key());
}

#[test]
fn deserialize_needs_a_type_tag() {
    assert_eq!(Record::try_deserialize(&[]), Err(DecodeError::DiscriminatorNotFound));
    assert_eq!(
        Record::try_deserialize(&RECORD_DISCRIMINATOR[..7]),
        Err(DecodeError::DiscriminatorNotFound)
    );
}

#[test]
fn deserialize_turns_down_another_type_tag() {
    let record = Record { user: sample_key(), text: String::from("hello") };
    for i in 0..8 {
        let mut data = serialized(&record);
        data[i] ^= 1;
        assert_eq!(Record::try_deserialize(&data), Err(DecodeError::DiscriminatorMismatch));
    }
    assert_eq!(Record::try_deserialize(&[0u8; 324]), Err(DecodeError::DiscriminatorMismatch));
    assert_eq!(Record::try_deserialize(&[0u8; 8]), Err(DecodeError::DiscriminatorMismatch));
}

#[test]
fn deserialize_turns_down_a_cut_record() {
    let record = Record { user: sample_key(), text: String::from("hello") };
    let data = serialized(&record);
    for len in 8..49 {
        assert_eq!(Record::try_deserialize(&data[..len]), Err(DecodeError::DidNotDeserialize));
    }
    assert!(Record::try_deserialize(&data[..49]).is_ok());
}

#[test]
fn deserialize_turns_down_a_prefix_beyond_the_data() {
    let mut data = RECORD_DISCRIMINATOR.to_vec();
    data.extend_from_slice(&sample_key());
    data.extend_from_slice(&[0xff, 0xff, 0xff, 0xff]);
    data.extend_from_slice(b"hello");
    assert_eq!(Record::try_deserialize(&data), Err(DecodeError::DidNotDeserialize));
}

#[test]
fn deserialize_turns_down_text_that_is_not_utf8() {
    let mut data = RECORD_DISCRIMINATOR.to_vec();
    data.extend_from_slice(&sample_key());
    data.extend_from_slice(&[2, 0, 0, 0]);
    data.extend_from_slice(&[0xc3, 0x28]);
    assert_eq!(Record::try_deserialize(&data), Err(DecodeError::DidNotDeserialize));

    let mut cut = RECORD_DISCRIMINATOR.to_vec();
    cut.extend_from_slice(&sample_key());
    cut.extend_from_slice(&[1, 0, 0, 0]);
    cut.extend_from_slice(&[0xc3, 0xa9]);
    assert_eq!(Record::try_deserialize(&cut), Err(DecodeError::DidNotDeserialize));
}

#[test]
fn allocated_slot_without_a_record_reads_as_another_type() {
    assert_eq!(
        Record::try_deserialize(&zeroed(RECORD_SPACE)),
        Err(DecodeError::DiscriminatorMismatch)
    );
}
