use penguin::savefile::constants::{
    ByteCoded, EnemyDirection, PlayerCharacter, PlayerPowerup, SaveFileRegion,
    StartingMushroomKind,
};

#[test]
fn region_tags_are_ascii_letters() {
    assert_eq!(SaveFileRegion::NTSC.to_byte(), b'E');
    assert_eq!(SaveFileRegion::PAL.to_byte(), b'P');
    assert_eq!(SaveFileRegion::JPN.to_byte(), b'J');
    assert_eq!(SaveFileRegion::KOR.to_byte(), b'K');
    assert_eq!(SaveFileRegion::CHN.to_byte(), b'C');
    assert_eq!(SaveFileRegion::TW.to_byte(), b'W');
    assert_eq!(SaveFileRegion::from_byte(b'E'), SaveFileRegion::NTSC);
    assert_eq!(SaveFileRegion::from_byte(b'P'), SaveFileRegion::PAL);
    assert_eq!(SaveFileRegion::from_byte(b'J'), SaveFileRegion::JPN);
    assert_eq!(SaveFileRegion::from_byte(b'K'), SaveFileRegion::KOR);
    assert_eq!(SaveFileRegion::from_byte(b'C'), SaveFileRegion::CHN);
    assert_eq!(SaveFileRegion::from_byte(b'W'), SaveFileRegion::TW);
}

#[test]
fn unknown_region_tag_reads_as_ntsc() {
    let known = [b'E', b'P', b'J', b'K', b'C', b'W'];
    for b in 0..=255u8 {
        if !known.contains(&b) {
            assert_eq!(SaveFileRegion::from_byte(b), SaveFileRegion::NTSC);
        }
    }
    assert_eq!(SaveFileRegion::from_byte(0), SaveFileRegion::NTSC);
    assert_eq!(SaveFileRegion::from_byte(b'e'), SaveFileRegion::NTSC);
    assert_eq!(SaveFileRegion::from_byte(0xFF), SaveFileRegion::NTSC);
}

#[test]
fn unknown_powerup_reads_as_no_powerup() {
    assert_eq!(PlayerPowerup::from_byte(0xFF), PlayerPowerup::NoPowerup);
    for b in 7..=255u8 {
        assert_eq!(PlayerPowerup::from_byte(b), PlayerPowerup::NoPowerup);
    }
}

#[test]
fn unknown_house_kind_reads_as_no_house() {
    assert_eq!(StartingMushroomKind::from_byte(0xFF), StartingMushroomKind::NoHouse);
    for b in 7..=255u8 {
        assert_eq!(StartingMushroomKind::from_byte(b), StartingMushroomKind::NoHouse);
    }
}

#[test]
fn unknown_direction_reads_as_to_next_node() {
    assert_eq!(EnemyDirection::from_byte(0xFF), EnemyDirection::ToNextNode);
    for b in 3..=255u8 {
        assert_eq!(EnemyDirection::from_byte(b), EnemyDirection::ToNextNode);
    }
}

#[test]
fn unknown_character_reads_as_mario() {
    assert_eq!(PlayerCharacter::from_byte(0xFF), PlayerCharacter::Mario);
    for b in 4..=255u8 {
        assert_eq!(PlayerCharacter::from_byte(b), PlayerCharacter::Mario);
    }
}

#[test]
fn powerup_bytes() {
    let all = [
        PlayerPowerup::NoPowerup,
        PlayerPowerup::Mushroom,
        PlayerPowerup::FireFlower,
        PlayerPowerup::MiniMushroom,
        PlayerPowerup::PropellerMushroom,
        PlayerPowerup::PenguinSuit,
        PlayerPowerup::IceFlower,
    ];
    for (byte, value) in all.iter().enumerate() {
        assert_eq!(value.to_byte(), byte as u8);
        assert_eq!(PlayerPowerup::from_byte(byte as u8), *value);
    }
}

#[test]
fn house_kind_bytes() {
    let all = [
        StartingMushroomKind::NoHouse,
        StartingMushroomKind::Star,
        StartingMushroomKind::Item,
        StartingMushroomKind::OneUp,
        StartingMushroomKind::StarRescue,
        StartingMushroomKind::ItemRescue,
        StartingMushroomKind::OneUpRescue,
    ];
    for (byte, value) in all.iter().enumerate() {
        assert_eq!(value.to_byte(), byte as u8);
        assert_eq!(StartingMushroomKind::from_byte(byte as u8), *value);
    }
}

#[test]
fn character_bytes() {
    let all = [
        PlayerCharacter::Mario,
        PlayerCharacter::Luigi,
        PlayerCharacter::BlueToad,
        PlayerCharacter::YellowToad,
    ];
    for (byte, value) in all.iter().enumerate() {
        assert_eq!(value.to_byte(), byte as u8);
        assert_eq!(PlayerCharacter::from_byte(byte as u8), *value);
    }
}

#[test]
fn direction_bytes() {
    let all = [
        EnemyDirection::ToNextNode,
        EnemyDirection::ToPreviousNode,
        EnemyDirection::FirstTimeValue,
    ];
    for (byte, value) in all.iter().enumerate() {
        assert_eq!(value.to_byte(), byte as u8);
        assert_eq!(EnemyDirection::from_byte(byte as u8), *value);
    }
}

#[test]
fn plain_bytes_and_flags() {
    assert_eq!(<u8 as ByteCoded>::from_byte(0xAB), 0xAB);
    assert_eq!(0xABu8.to_byte(), 0xAB);
    assert_eq!(true.to_byte(), 1);
    assert_eq!(false.to_byte(), 0);
    assert!(!<bool as ByteCoded>::from_byte(0));
    assert!(<bool as ByteCoded>::from_byte(1));
    assert!(<bool as ByteCoded>::from_byte(2));
    assert!(<bool as ByteCoded>::from_byte(0xFF));
}
