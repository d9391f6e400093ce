use penguin::savefile::constants::{
    PlayerCharacter, SaveFileRegion, HEADER_SIZE, SAVE_FILE_SIZE, SAVE_SLOT_SIZE, SLOT_COUNT,
};
use penguin::savefile::error::SaveError;
use penguin::savefile::saveheader::SaveHeader;
use penguin::savefile::saveslot::SaveSlot;
use penguin::savefile::SaveFile;

fn sample_file() -> SaveFile {
    let mut file = SaveFile::blank();
    file.header.region = SaveFileRegion::JPN;
    file.header.last_selected_index = 2;
    file.header.free_mode_play_count[3][7] = 513;
    file.header.coin_battle_play_count[9][41] = 0xFFFF;
    file.header.extra_modes_unlocked_worlds = 0x1FF;
    for (i, slot) in file.save_slots.iter_mut().enumerate() {
        slot.game_completion_flags = 1 << i;
        slot.cur_world = i as u8;
        slot.ingame_score = 1000 * (i as u32 + 1);
        slot.item_stock[i] = 10 + i as u8;
        slot.stage_completion_flags[i][i] = 0x1B7;
        slot.hint_movie_bought[63 - i] = true;
        slot.world_unlocked[i] = true;
    }
    file
}

#[test]
fn blank_file_has_six_blank_slots() {
    let file = SaveFile::blank();
    assert_eq!(file.header, SaveHeader::blank());
    assert_eq!(file.save_slots.len(), 6);
    assert_eq!(SLOT_COUNT, 6);
    for slot in file.save_slots.iter() {
        assert_eq!(*slot, SaveSlot::blank());
        assert_eq!(slot.game_completion_flags, 0);
        assert!(slot.world_unlocked.iter().all(|unlocked| !unlocked));
        assert!(slot.hint_movie_bought.iter().all(|bought| !bought));
        assert_eq!(slot.ingame_score, 0);
        assert_eq!(slot.staff_credits_high_score, 0);
    }
}

#[test]
fn file_is_header_then_six_records() {
    let file = sample_file();
    let out = file.to_bytes();
    assert_eq!(out.len(), SAVE_FILE_SIZE);
    assert_eq!(SAVE_FILE_SIZE, HEADER_SIZE + 6 * SAVE_SLOT_SIZE);
    assert_eq!(out[..HEADER_SIZE], file.header.to_bytes()[..]);
    for i in 0..6 {
        let start = HEADER_SIZE + i * SAVE_SLOT_SIZE;
        assert_eq!(out[start..start + SAVE_SLOT_SIZE], file.save_slots[i].to_bytes()[..]);
    }
}

#[test]
fn file_round_trip() {
    let file = sample_file();
    let bytes = file.to_bytes();
    let decoded = SaveFile::from_bytes(&bytes).unwrap();
    assert_eq!(decoded, file);
    assert_eq!(decoded.to_bytes(), bytes);
}

#[test]
fn blank_file_round_trip() {
    let file = SaveFile::blank();
    let decoded = SaveFile::from_bytes(&file.to_bytes()).unwrap();
    assert_eq!(decoded, file);
}

#[test]
fn reencoding_a_decoded_buffer_is_stable() {
    let mut input: Vec<u8> = (0..SAVE_FILE_SIZE).map(|k| (k * 31 + 7) as u8).collect();
    input[..3].copy_from_slice(b"SMN");
    let first = SaveFile::from_bytes(&input).unwrap();
    let written = first.to_bytes();
    let second = SaveFile::from_bytes(&written).unwrap();
    assert_eq!(second, first);
    assert_eq!(second.to_bytes(), written);
    // integer fields are reproduced byte for byte
    assert_eq!(written[6], input[6]);
    assert_eq!(written[8..0x69A], input[8..0x69A]);
    let start = HEADER_SIZE + 2 * SAVE_SLOT_SIZE;
    assert_eq!(written[start + 2..start + 7], input[start + 2..start + 7]);
    assert_eq!(written[start + 0x66..start + 0x6FC], input[start + 0x66..start + 0x6FC]);
}

#[test]
fn every_region_of_a_file_carries_its_checksum() {
    let out = sample_file().to_bytes();
    assert_eq!(out[0x69C..0x6A0], crc32fast::hash(&out[4..0x69C]).to_be_bytes());
    for i in 0..6 {
        let start = HEADER_SIZE + i * SAVE_SLOT_SIZE;
        let end = start + SAVE_SLOT_SIZE;
        assert_eq!(out[end - 4..end], crc32fast::hash(&out[start..end - 4]).to_be_bytes());
    }
}

#[test]
fn wrong_signature_is_a_format_error() {
    let zeros = vec![0u8; SAVE_FILE_SIZE];
    assert_eq!(SaveFile::from_bytes(&zeros), Err(SaveError::Format));
    let good = sample_file().to_bytes();
    for k in 0..3 {
        let mut input = good.clone();
        input[k] ^= 0x20;
        assert_eq!(SaveFile::from_bytes(&input), Err(SaveError::Format));
    }
    let mut input = good.clone();
    input[..3].copy_from_slice(b"NMS");
    assert_eq!(SaveFile::from_bytes(&input), Err(SaveError::Format));
}

#[test]
fn short_buffer_is_a_format_error() {
    assert_eq!(SaveFile::from_bytes(&[]), Err(SaveError::Format));
    assert_eq!(SaveFile::from_bytes(b"SM"), Err(SaveError::Format));
    assert_eq!(SaveFile::from_bytes(b"SMN"), Err(SaveError::Format));
    let good = sample_file().to_bytes();
    assert_eq!(SaveFile::from_bytes(&good[..HEADER_SIZE]), Err(SaveError::Format));
    assert_eq!(SaveFile::from_bytes(&good[..SAVE_FILE_SIZE - 1]), Err(SaveError::Format));
}

#[test]
fn bytes_behind_the_last_record_are_ignored() {
    let file = sample_file();
    let mut input = file.to_bytes();
    input.extend_from_slice(&[0xAA; 100]);
    assert_eq!(SaveFile::from_bytes(&input).unwrap(), file);
}

#[test]
fn corrupt_checksums_and_fields_are_accepted() {
    let file = sample_file();
    let mut input = file.to_bytes();
    input[0x69C] ^= 0xFF;
    input[SAVE_FILE_SIZE - 1] ^= 0xFF;
    input[4] = 0;
    assert_eq!(SaveFile::from_bytes(&input).unwrap(), file);
    input[HEADER_SIZE + 0x2A] = 0xFF;
    input[3] = b'?';
    let decoded = SaveFile::from_bytes(&input).unwrap();
    assert_eq!(decoded.header.region, SaveFileRegion::NTSC);
    assert_eq!(decoded.save_slots[0].player_character[0], PlayerCharacter::Mario);
}

#[test]
fn file_clone_is_equal() {
    let file = sample_file();
    assert_eq!(file.clone(), file);
}

#[test]
fn errors_have_messages() {
    assert_eq!(SaveError::Format.message(), "not a recognized save file");
    assert_eq!(SaveError::TruncatedInput.message(), "save data ends before the record");
}

#[test]
fn canonical_flag_and_enumeration_bytes_are_rewritten_as_they_were() {
    let mut input: Vec<u8> = (0..SAVE_FILE_SIZE).map(|k| (k * 31 + 7) as u8).collect();
    input[..3].copy_from_slice(b"SMN");
    input[3] = b'K';
    let start = HEADER_SIZE + 4 * SAVE_SLOT_SIZE;
    input[start + 0x07] = 1;
    input[start + 0x10] = 6;
    input[start + 0x2A] = 3;
    input[start + 0x2E] = 5;
    input[start + 0x32] = 0;
    input[start + 0x6FC] = 1;
    input[start + 0x79C] = 2;
    // and three bytes that stand for a default they do not name
    input[start + 0x11] = 7;
    input[start + 0x2B] = 0xFF;
    input[start + 0x33] = 2;
    let written = SaveFile::from_bytes(&input).unwrap().to_bytes();
    assert_eq!(written[3], b'K');
    for at in [0x07, 0x10, 0x2A, 0x2E, 0x32, 0x6FC, 0x79C] {
        assert_eq!(written[start + at], input[start + at]);
    }
    assert_eq!(written[start + 0x11], 0);
    assert_eq!(written[start + 0x2B], 0);
    assert_eq!(written[start + 0x33], 1);
}
