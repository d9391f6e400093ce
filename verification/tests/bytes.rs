use penguin::savefile::bytes::{
    checksum, checksum_of_range, get_grid, get_row, get_u16_be, get_u16_grid, get_u32_be,
    get_u32_grid, put_grid, put_row, put_u16_be, put_u16_grid, put_u32_be, put_u32_grid, put_u8,
    zeroed,
};
use penguin::savefile::constants::{EnemyDirection, PlayerPowerup};

// The CRC-32 bit by bit: polynomial 0xEDB88320, a register that starts
// as all ones and is turned over at the end.
fn crc32_bit_by_bit(bytes: &[u8]) -> u32 {
    let mut register = 0xFFFF_FFFFu32;
    for byte in bytes {
        register ^= u32::from(*byte);
        for _ in 0..8 {
            register = if register & 1 == 1 {
                (register >> 1) ^ 0xEDB8_8320
            } else {
                register >> 1
            };
        }
    }
    register ^ 0xFFFF_FFFF
}

#[test]
fn checksum_is_the_crc32_bit_by_bit() {
    let mut data: Vec<u8> = Vec::new();
    for k in 0..600u32 {
        assert_eq!(checksum(&data), crc32_bit_by_bit(&data));
        data.push((k.wrapping_mul(2654435761) >> 13) as u8);
    }
    for byte in 0..=255u8 {
        assert_eq!(checksum(&[byte]), crc32_bit_by_bit(&[byte]));
    }
    assert_eq!(checksum(&[0u8; 4096]), crc32_bit_by_bit(&[0u8; 4096]));
    assert_eq!(checksum(&[0xFFu8; 4097]), crc32_bit_by_bit(&[0xFFu8; 4097]));
}

#[test]
fn checksum_of_check_string() {
    assert_eq!(checksum(b"123456789"), 0xCBF4_3926);
}

#[test]
fn checksum_of_nothing_is_zero() {
    assert_eq!(checksum(b""), 0);
}

#[test]
fn checksum_matches_crc32fast() {
    assert_eq!(checksum(b"foo bar baz"), 0xF262_DE61);
    assert_eq!(checksum(b"foo bar baz"), crc32fast::hash(b"foo bar baz"));
}

#[test]
fn checksum_of_range_leaves_out_the_rest() {
    let bytes = b"xx123456789yyy".to_vec();
    assert_eq!(checksum_of_range(&bytes, 2, 11), 0xCBF4_3926);
    assert_eq!(checksum_of_range(&bytes, 5, 5), 0);
}

#[test]
fn zeroed_has_length_and_zeros() {
    assert_eq!(zeroed(0), Vec::<u8>::new());
    assert_eq!(zeroed(5), vec![0u8, 0, 0, 0, 0]);
}

#[test]
fn get_u16_be_reads_most_significant_byte_first() {
    let bytes = [0xAAu8, 0x12, 0x34, 0xBB];
    assert_eq!(get_u16_be(&bytes, 1), 0x1234);
    assert_eq!(get_u16_be(&bytes, 0), 0xAA12);
    assert_eq!(get_u16_be(&bytes, 2), 0x34BB);
}

#[test]
fn get_u32_be_reads_most_significant_byte_first() {
    let bytes = [0xAAu8, 0x12, 0x34, 0x56, 0x78, 0xBB];
    assert_eq!(get_u32_be(&bytes, 1), 0x1234_5678);
    assert_eq!(get_u32_be(&bytes, 0), 0xAA12_3456);
    assert_eq!(get_u32_be(&bytes, 2), 0x3456_78BB);
}

#[test]
fn put_u8_changes_one_byte() {
    let mut out = vec![1u8, 2, 3];
    put_u8(&mut out, 1, 0xFF);
    assert_eq!(out, vec![1u8, 0xFF, 3]);
}

#[test]
fn put_u16_be_writes_most_significant_byte_first() {
    let mut out = vec![9u8; 4];
    put_u16_be(&mut out, 1, 0x1234);
    assert_eq!(out, vec![9u8, 0x12, 0x34, 9]);
    put_u16_be(&mut out, 2, 1000);
    assert_eq!(out, vec![9u8, 0x12, 0x03, 0xE8]);
}

#[test]
fn put_u32_be_writes_most_significant_byte_first() {
    let mut out = vec![9u8; 6];
    put_u32_be(&mut out, 1, 0x1234_5678);
    assert_eq!(out, vec![9u8, 0x12, 0x34, 0x56, 0x78, 9]);
    put_u32_be(&mut out, 0, 1000);
    assert_eq!(out, vec![0u8, 0, 0x03, 0xE8, 0x78, 9]);
}

#[test]
fn big_endian_extremes_round_trip() {
    let mut out = vec![0u8; 6];
    put_u16_be(&mut out, 0, u16::MAX);
    put_u32_be(&mut out, 2, u32::MAX);
    assert_eq!(out, vec![0xFFu8; 6]);
    assert_eq!(get_u16_be(&out, 0), u16::MAX);
    assert_eq!(get_u32_be(&out, 2), u32::MAX);
    put_u16_be(&mut out, 0, 0x0100);
    put_u32_be(&mut out, 2, 0x0100_0000);
    assert_eq!(out, vec![1u8, 0, 1, 0, 0, 0]);
    assert_eq!(get_u16_be(&out, 0), 0x0100);
    assert_eq!(get_u32_be(&out, 2), 0x0100_0000);
}

#[test]
fn rows_are_read_and_written_in_index_order() {
    let mut out = vec![0xEEu8; 6];
    put_row(&mut out, 1, &[1u8, 2, 3]);
    assert_eq!(out, vec![0xEEu8, 1, 2, 3, 0xEE, 0xEE]);
    let row: [u8; 3] = get_row(&out, 1);
    assert_eq!(row, [1u8, 2, 3]);
    put_row(&mut out, 4, &[true, false]);
    assert_eq!(out, vec![0xEEu8, 1, 2, 3, 1, 0]);
    let flags: [bool; 4] = get_row(&out, 0);
    assert_eq!(flags, [true, true, true, true]);
    let flags: [bool; 2] = get_row(&out, 4);
    assert_eq!(flags, [true, false]);
}

#[test]
fn rows_of_enumerations_use_discriminant_bytes() {
    let mut out = vec![0u8; 4];
    put_row(
        &mut out,
        0,
        &[
            PlayerPowerup::IceFlower,
            PlayerPowerup::NoPowerup,
            PlayerPowerup::PenguinSuit,
            PlayerPowerup::Mushroom,
        ],
    );
    assert_eq!(out, vec![6u8, 0, 5, 1]);
    let bytes = [3u8, 7, 0xFF, 4];
    let row: [PlayerPowerup; 4] = get_row(&bytes, 0);
    assert_eq!(
        row,
        [
            PlayerPowerup::MiniMushroom,
            PlayerPowerup::NoPowerup,
            PlayerPowerup::NoPowerup,
            PlayerPowerup::PropellerMushroom,
        ]
    );
}

#[test]
fn grids_are_stored_row_after_row() {
    let mut out = vec![0xEEu8; 8];
    put_grid(&mut out, 1, &[[1u8, 2, 3], [4, 5, 6]]);
    assert_eq!(out, vec![0xEEu8, 1, 2, 3, 4, 5, 6, 0xEE]);
    let grid: [[u8; 3]; 2] = get_grid(&out, 1);
    assert_eq!(grid, [[1u8, 2, 3], [4, 5, 6]]);
    let grid: [[u8; 2]; 3] = get_grid(&out, 1);
    assert_eq!(grid, [[1u8, 2], [3, 4], [5, 6]]);
    let directions: [[EnemyDirection; 2]; 2] = get_grid(&out, 0);
    assert_eq!(
        directions,
        [
            [EnemyDirection::ToNextNode, EnemyDirection::ToPreviousNode],
            [EnemyDirection::FirstTimeValue, EnemyDirection::ToNextNode],
        ]
    );
}

#[test]
fn grids_of_u16_are_big_endian() {
    let mut out = vec![0xEEu8; 10];
    put_u16_grid(&mut out, 1, &[[0x0102u16, 0x0304], [0x0506, 0x0708]]);
    assert_eq!(out, vec![0xEEu8, 1, 2, 3, 4, 5, 6, 7, 8, 0xEE]);
    let grid: [[u16; 2]; 2] = get_u16_grid(&out, 1);
    assert_eq!(grid, [[0x0102u16, 0x0304], [0x0506, 0x0708]]);
    let grid: [[u16; 1]; 3] = get_u16_grid(&out, 0);
    assert_eq!(grid, [[0xEE01u16], [0x0203], [0x0405]]);
}

#[test]
fn grids_of_u32_are_big_endian() {
    let mut out = vec![0xEEu8; 18];
    put_u32_grid(&mut out, 1, &[[0x0102_0304u32, 0x0506_0708], [0x090A_0B0C, 0x0D0E_0F10]]);
    assert_eq!(
        out,
        vec![0xEEu8, 1, 2, 3, 4, 5, 6, 7, 8, 9, 10, 11, 12, 13, 14, 15, 16, 0xEE]
    );
    let grid: [[u32; 2]; 2] = get_u32_grid(&out, 1);
    assert_eq!(grid, [[0x0102_0304u32, 0x0506_0708], [0x090A_0B0C, 0x0D0E_0F10]]);
}

#[test]
fn empty_rows_and_grids_touch_nothing() {
    let mut out = vec![7u8; 3];
    put_row::<u8, 0>(&mut out, 3, &[]);
    put_grid::<u8, 0, 4>(&mut out, 3, &[]);
    put_grid::<u8, 2, 0>(&mut out, 3, &[[], []]);
    put_u16_grid::<0, 2>(&mut out, 3, &[]);
    put_u32_grid::<1, 0>(&mut out, 3, &[[]]);
    assert_eq!(out, vec![7u8; 3]);
    let row: [u8; 0] = get_row(&out, 3);
    assert_eq!(row, [0u8; 0]);
}
