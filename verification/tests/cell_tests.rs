use game_of_life::cell::{Cell, CellSize, CellState};
use game_of_life::game::state_from_byte;

#[test]
fn test_cell_size_dimensions() {
    assert_eq!(CellSize::Small.width(), 2);
    assert_eq!(CellSize::Small.height(), 1);
    assert_eq!(CellSize::Medium.width(), 3);
    assert_eq!(CellSize::Medium.height(), 2);
    assert_eq!(CellSize::Large.width(), 5);
    assert_eq!(CellSize::Large.height(), 3);
}

#[test]
fn test_parse_keywords() {
    assert_eq!(CellSize::parse("small"), Ok(CellSize::Small));
    assert_eq!(CellSize::parse("sm"), Ok(CellSize::Small));
    assert_eq!(CellSize::parse("medium"), Ok(CellSize::Medium));
    assert_eq!(CellSize::parse("md"), Ok(CellSize::Medium));
    assert_eq!(CellSize::parse("large"), Ok(CellSize::Large));
    assert_eq!(CellSize::parse("lg"), Ok(CellSize::Large));
}

#[test]
fn test_parse_case_insensitive() {
    assert_eq!(CellSize::parse("SMALL"), Ok(CellSize::Small));
    assert_eq!(CellSize::parse("Sm"), Ok(CellSize::Small));
    assert_eq!(CellSize::parse("MEDIUM"), Ok(CellSize::Medium));
    assert_eq!(CellSize::parse("mD"), Ok(CellSize::Medium));
    assert_eq!(CellSize::parse("LaRgE"), Ok(CellSize::Large));
    assert_eq!(CellSize::parse("LG"), Ok(CellSize::Large));
}

#[test]
fn test_parse_invalid() {
    assert_eq!(CellSize::parse("tiny"), Err(()));
    assert_eq!(CellSize::parse(""), Err(()));
    assert_eq!(CellSize::parse("smalll"), Err(()));
    assert_eq!(CellSize::parse("s m"), Err(()));
}

#[test]
fn test_label() {
    assert_eq!(CellSize::Small.label(), "small");
    assert_eq!(CellSize::Medium.label(), "medium");
    assert_eq!(CellSize::Large.label(), "large");
}

#[test]
fn test_cell_new_is_alive() {
    let a = Cell::new((3, 4), CellState::Alive);
    assert_eq!(a.location, (3, 4));
    assert!(a.is_alive());
    let d = Cell::new((0, 0), CellState::Dead);
    assert!(!d.is_alive());
}

#[test]
fn test_state_from_byte() {
    assert_eq!(state_from_byte(0), CellState::Alive);
    assert_eq!(state_from_byte(1), CellState::Dead);
    assert_eq!(state_from_byte(42), CellState::Alive);
    assert_eq!(state_from_byte(255), CellState::Dead);
}
