use penguin::savefile::constants::{SaveFileRegion, HEADER_SIZE, STAGE_COUNT, WORLD_COUNT};
use penguin::savefile::error::SaveError;
use penguin::savefile::saveheader::SaveHeader;

fn sample_header() -> SaveHeader {
    let mut header = SaveHeader::blank();
    header.region = SaveFileRegion::KOR;
    header.last_selected_index = 1;
    for w in 0..WORLD_COUNT {
        for s in 0..STAGE_COUNT {
            header.free_mode_play_count[w][s] = (w * 1000 + s * 7 + 1) as u16;
            header.coin_battle_play_count[w][s] = 0xFFFF - (w * STAGE_COUNT + s) as u16;
        }
    }
    header.extra_modes_unlocked_worlds = 0x01A5;
    header
}

#[test]
fn blank_header_is_all_defaults() {
    let header = SaveHeader::blank();
    assert_eq!(header.region, SaveFileRegion::NTSC);
    assert_eq!(header.last_selected_index, 0);
    assert_eq!(header.free_mode_play_count, [[0u16; STAGE_COUNT]; WORLD_COUNT]);
    assert_eq!(header.coin_battle_play_count, [[0u16; STAGE_COUNT]; WORLD_COUNT]);
    assert_eq!(header.extra_modes_unlocked_worlds, 0);
}

#[test]
fn blank_header_bytes() {
    let bytes = SaveHeader::blank().to_bytes();
    let mut expected = vec![0u8; HEADER_SIZE];
    expected[..4].copy_from_slice(b"SMNE");
    expected[4] = 0x0E;
    expected[0x69C..].copy_from_slice(&[0xBF, 0xB4, 0xB6, 0x4A]);
    assert_eq!(bytes, expected);
}

#[test]
fn unsealed_header_has_zero_checksum_field() {
    let header = sample_header();
    let unsealed = header.to_bytes_unsealed();
    let sealed = header.to_bytes();
    assert_eq!(unsealed.len(), HEADER_SIZE);
    assert_eq!(unsealed[..0x69C], sealed[..0x69C]);
    assert_eq!(unsealed[0x69C..], [0u8; 4]);
}

#[test]
fn header_with_three_worlds_unlocked_is_decoded_and_rewritten() {
    let mut input = vec![0u8; HEADER_SIZE];
    input[..3].copy_from_slice(b"SMN");
    input[3] = b'E';
    input[6] = 2;
    input[0x698] = 0x00;
    input[0x699] = 0x07;
    let header = SaveHeader::from_bytes(&input).unwrap();
    assert_eq!(header.region, SaveFileRegion::NTSC);
    assert_eq!(header.last_selected_index, 2);
    assert_eq!(header.extra_modes_unlocked_worlds, 7);
    assert_eq!(header.free_mode_play_count, [[0u16; STAGE_COUNT]; WORLD_COUNT]);
    assert_eq!(header.coin_battle_play_count, [[0u16; STAGE_COUNT]; WORLD_COUNT]);

    let out = header.to_bytes();
    assert_eq!(out.len(), HEADER_SIZE);
    assert_eq!(out[3], b'E');
    assert_eq!(out[6], 2);
    assert_eq!(out[0x698..0x69A], [0x00, 0x07]);
    assert_eq!(out[0x69C..0x6A0], crc32fast::hash(&out[4..0x69C]).to_be_bytes());
    assert_eq!(out[0x69C..0x6A0], [0x90, 0x0E, 0x95, 0x03]);
}

#[test]
fn header_fields_lie_at_their_offsets() {
    let header = sample_header();
    let out = header.to_bytes();
    assert_eq!(out[..3], *b"SMN");
    assert_eq!(out[3], b'K');
    assert_eq!(out[4], 0x0E);
    assert_eq!(out[5], 0);
    assert_eq!(out[6], 1);
    assert_eq!(out[7], 0);
    // free play, world 0 stage 0 and world 9 stage 41
    assert_eq!(out[8..10], 1u16.to_be_bytes());
    let last = 8 + 2 * (9 * 42 + 41);
    assert_eq!(out[last..last + 2], ((9 * 1000 + 41 * 7 + 1) as u16).to_be_bytes());
    assert_eq!(last + 2, 0x350);
    // coin battle, world 0 stage 0 and world 3 stage 5
    assert_eq!(out[0x350..0x352], [0xFF, 0xFF]);
    let at = 0x350 + 2 * (3 * 42 + 5);
    assert_eq!(out[at..at + 2], (0xFFFFu16 - 131).to_be_bytes());
    assert_eq!(out[0x698..0x69A], [0x01, 0xA5]);
    assert_eq!(out[0x69A..0x69C], [0, 0]);
}

#[test]
fn header_checksum_covers_version_byte_to_checksum_field() {
    let out = sample_header().to_bytes();
    let stored = u32::from_be_bytes([out[0x69C], out[0x69D], out[0x69E], out[0x69F]]);
    assert_eq!(stored, crc32fast::hash(&out[4..0x69C]));
    assert_ne!(stored, crc32fast::hash(&out[..0x69C]));
}

#[test]
fn header_round_trip() {
    let header = sample_header();
    let decoded = SaveHeader::from_bytes(&header.to_bytes()).unwrap();
    assert_eq!(decoded, header);
    assert_eq!(decoded.to_bytes(), header.to_bytes());
}

#[test]
fn header_decode_reads_big_endian_counts() {
    let mut input = vec![0u8; HEADER_SIZE];
    input[8 + 2 * 43] = 0x12;
    input[8 + 2 * 43 + 1] = 0x34;
    input[0x350 + 2 * 419] = 0xAB;
    input[0x350 + 2 * 419 + 1] = 0xCD;
    let header = SaveHeader::from_bytes(&input).unwrap();
    assert_eq!(header.free_mode_play_count[1][1], 0x1234);
    assert_eq!(header.coin_battle_play_count[9][41], 0xABCD);
    assert_eq!(header.free_mode_play_count[0][0], 0);
}

#[test]
fn header_decode_ignores_signature_version_and_checksum() {
    let mut input = sample_header().to_bytes();
    input[0] = 0;
    input[4] = 0x77;
    input[0x69C] ^= 0xFF;
    assert_eq!(SaveHeader::from_bytes(&input).unwrap(), sample_header());
}

#[test]
fn header_with_unknown_region_tag_reads_as_ntsc() {
    let mut input = sample_header().to_bytes();
    input[3] = b'X';
    let header = SaveHeader::from_bytes(&input).unwrap();
    assert_eq!(header.region, SaveFileRegion::NTSC);
    input[3] = 0;
    assert_eq!(SaveHeader::from_bytes(&input).unwrap().region, SaveFileRegion::NTSC);
}

#[test]
fn short_header_is_truncated_input() {
    assert_eq!(SaveHeader::from_bytes(&[]), Err(SaveError::TruncatedInput));
    assert_eq!(SaveHeader::from_bytes(b"SMNE"), Err(SaveError::TruncatedInput));
    let input = vec![0u8; HEADER_SIZE - 1];
    assert_eq!(SaveHeader::from_bytes(&input), Err(SaveError::TruncatedInput));
    let input = vec![0u8; HEADER_SIZE];
    assert!(SaveHeader::from_bytes(&input).is_ok());
}

#[test]
fn header_clone_is_equal() {
    let header = sample_header();
    assert_eq!(header.clone(), header);
}

#[test]
fn blank_header_is_the_all_zero_template() {
    let bytes = SaveHeader::blank().to_bytes_unsealed();
    assert_eq!(bytes[..5], [b'S', b'M', b'N', b'E', 0x0E]);
    assert!(bytes[5..].iter().all(|byte| *byte == 0));
}
