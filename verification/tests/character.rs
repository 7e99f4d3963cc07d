use jdcp::character::character_data::class_type::ClassType;
use jdcp::character::character_data::health_points::HealthPoints;
use jdcp::character::character_data::race_kind::RaceKind;
use jdcp::character::character_data::stat_block::StatBlock;
use jdcp::character::Character;

#[test]
fn character_new_functions() {
    let character = Character::new(
        "Sally".to_string(),
        RaceKind::GNOME,
        ClassType::ROGUE,
        6u8,
        StatBlock {
            strength: 13,
            dexterity: 17,
            constitution: 15,
            intelligence: 14,
            wisdom: 12,
            charisma: 10,
        },
        HealthPoints {
            current: 56,
            max: 60,
        },
        2420u16,
        "Some weird description".to_string(),
    );
    assert_eq!(
        character,
        Character {
            name: "Sally".to_string(),
            race: RaceKind::GNOME,
            class: ClassType::ROGUE,
            level: 6u8,
            stats: StatBlock {
                strength: 13,
                dexterity: 17,
                constitution: 15,
                intelligence: 14,
                wisdom: 12,
                charisma: 10
            },
            hp: HealthPoints {
                current: 56,
                max: 60
            },
            age: 2420u16,
            description: "Some weird description".to_string()
        }
    )
}

#[test]
fn stat_block_new_keeps_the_order_of_the_scores() {
    assert_eq!(
        StatBlock::new(1, 2, 3, 4, 5, 6),
        StatBlock {
            strength: 1,
            dexterity: 2,
            constitution: 3,
            intelligence: 4,
            wisdom: 5,
            charisma: 6,
        }
    );
}

#[test]
fn stat_block_from_bytes_reads_the_first_six() {
    assert_eq!(
        StatBlock::from_bytes(&[8, 12, 19, 14, 16, 9, 77]),
        StatBlock::new(8, 12, 19, 14, 16, 9)
    );
}

#[test]
fn health_points_from_bytes_reads_current_then_max() {
    assert_eq!(
        HealthPoints::from_bytes(&[0x22, 0x25]),
        HealthPoints {
            current: 0x22,
            max: 0x25
        }
    );
}

#[test]
fn class_discriminants_run_from_1_to_14() {
    let classes = [
        ClassType::ARTIFICER,
        ClassType::BARBARIAN,
        ClassType::BARD,
        ClassType::BLOODHUNTER,
        ClassType::CLERIC,
        ClassType::DRUID,
        ClassType::FIGHTER,
        ClassType::MONK,
        ClassType::PALADIN,
        ClassType::RANGER,
        ClassType::ROGUE,
        ClassType::SORCERER,
        ClassType::WARLOCK,
        ClassType::WIZARD,
    ];
    for (index, class) in classes.iter().enumerate() {
        assert_eq!(class.discriminant(), index as u8 + 1);
    }
}

#[test]
fn class_tables_are_inverse() {
    for byte in 0..=255u8 {
        match ClassType::from_discriminant(byte) {
            Some(class) => {
                assert!((1..=14).contains(&byte));
                assert_eq!(class.discriminant(), byte);
            }
            None => assert!(byte == 0 || byte > 14),
        }
    }
}

#[test]
fn race_discriminants_run_from_1_to_9() {
    let races = [
        RaceKind::DWARF,
        RaceKind::ELF,
        RaceKind::GNOME,
        RaceKind::HALFELF,
        RaceKind::HALFLING,
        RaceKind::HALFORC,
        RaceKind::HUMAN,
        RaceKind::ORC,
        RaceKind::TIEFLING,
    ];
    for (index, race) in races.iter().enumerate() {
        assert_eq!(race.discriminant(), index as u8 + 1);
    }
}

#[test]
fn race_tables_are_inverse() {
    for byte in 0..=255u8 {
        match RaceKind::from_discriminant(byte) {
            Some(race) => {
                assert!((1..=9).contains(&byte));
                assert_eq!(race.discriminant(), byte);
            }
            None => assert!(byte == 0 || byte > 9),
        }
    }
}
