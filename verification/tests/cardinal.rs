use rpg_character::RpgDirection::{East, North, NorthEast, NorthWest, South, SouthEast, SouthWest, West};
use rpg_character::RpgDirection;

const ALL: [RpgDirection; 8] = [
    RpgDirection::East,
    RpgDirection::SouthEast,
    RpgDirection::South,
    RpgDirection::SouthWest,
    RpgDirection::West,
    RpgDirection::NorthWest,
    RpgDirection::North,
    RpgDirection::NorthEast,
];

#[test]
fn index_round_trips() {
    for (i, d) in ALL.iter().enumerate() {
        assert_eq!(d.index() as usize, i);
        assert_eq!(RpgDirection::from_index(i as u8), Some(*d));
    }
    assert_eq!(RpgDirection::from_index(8), None);
    assert_eq!(RpgDirection::from_index(255), None);
}

#[test]
fn default_is_south() {
    assert_eq!(RpgDirection::default(), RpgDirection::South);
}

#[test]
fn order_follows_declaration() {
    assert!(RpgDirection::East < RpgDirection::SouthEast);
    assert!(RpgDirection::North < RpgDirection::NorthEast);
}

#[test]
fn names() {
    let names = ["east", "southeast", "south", "southwest", "west", "northwest", "north", "northeast"];
    for (d, n) in ALL.iter().zip(names.iter()) {
        assert_eq!(d.name(), *n);
    }
}

#[test]
fn cardinals_are_even_positions() {
    for d in ALL {
        assert_eq!(d.is_cardinal(), d.index() % 2 == 0);
    }
    assert!(RpgDirection::North.is_cardinal());
    assert!(!RpgDirection::NorthWest.is_cardinal());
}

#[test]
fn nearest_cardinal_examples() {
    // cardinals stay
    assert_eq!(North.nearest_cardinal(East), North);
    // a neighbouring cardinal sticky direction wins
    assert_eq!(SouthEast.nearest_cardinal(South), South);
    assert_eq!(SouthEast.nearest_cardinal(East), East);
    assert_eq!(NorthEast.nearest_cardinal(East), East); // across the wrap-around
    assert_eq!(NorthEast.nearest_cardinal(North), North);
    // otherwise the cardinal counter-clockwise of it
    assert_eq!(SouthEast.nearest_cardinal(North), East);
    assert_eq!(SouthWest.nearest_cardinal(NorthWest), South);
    assert_eq!(NorthWest.nearest_cardinal(SouthEast), West);
    assert_eq!(NorthEast.nearest_cardinal(NorthEast), North);
}

#[test]
fn nearest_cardinal_law() {
    for d in ALL {
        for s in ALL {
            let c = d.nearest_cardinal(s);
            assert!(c.is_cardinal());
            let diff = (c.index() as i32 - d.index() as i32).rem_euclid(8);
            assert!(diff <= 1 || diff == 7);
            for s2 in ALL {
                assert_eq!(c.nearest_cardinal(s2), c);
            }
        }
    }
}

#[test]
fn sector_mapping() {
    let expected = [West, West, NorthWest, NorthWest, North, North, NorthEast, NorthEast, East, East,
        SouthEast, SouthEast, South, South, SouthWest, SouthWest];
    for step in 0..32u32 {
        assert_eq!(RpgDirection::from_sector(step), expected[(step % 16) as usize]);
    }
    assert_eq!(RpgDirection::from_sector(u32::MAX), SouthWest);
}

#[test]
fn cardinal_sector_mapping() {
    let expected = [West, West, North, North, East, East, South, South];
    for step in 0..24u32 {
        let d = RpgDirection::from_sector_cardinal(step);
        assert_eq!(d, expected[(step % 8) as usize]);
        assert!(d.is_cardinal());
    }
}
