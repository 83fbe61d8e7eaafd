use game_of_life::cell::ALIVE_GLYPH;
use game_of_life::cell::DEAD_GLYPH;
use game_of_life::Cell;
use game_of_life::Universe;

/// A 3 by 3 torus with `center` in the middle and the eight neighbours given
/// in reading order (1 for alive, 0 for dead). On this grid every other cell
/// is a neighbour of the centre.
fn neighborhood(center: Cell, neighbors: [u8; 8]) -> Universe {
    let mut cells = Vec::new();
    for (position, &state) in neighbors.iter().enumerate() {
        if position == 4 {
            cells.push(center);
        }
        cells.push(if state == 1 { Cell::Alive } else { Cell::Dead });
    }
    Universe::from_cells(3, 3, cells).unwrap()
}

fn center_after_tick(center: Cell, neighbors: [u8; 8]) -> Cell {
    let mut universe = neighborhood(center, neighbors);
    assert_eq!(universe.cell(1, 1), center);
    let live: u8 = neighbors.iter().sum();
    assert_eq!(universe.live_neighbor_count(1, 1), live);
    universe.tick();
    universe.cell(1, 1)
}

#[test]
fn alive_with_one_neighbor_dies() {
    assert_eq!(center_after_tick(Cell::Alive, [1, 0, 0, 0, 0, 0, 0, 0]), Cell::Dead);
}

#[test]
fn alive_with_no_neighbor_dies() {
    assert_eq!(center_after_tick(Cell::Alive, [0, 0, 0, 0, 0, 0, 0, 0]), Cell::Dead);
}

#[test]
fn alive_with_two_neighbors_survives() {
    assert_eq!(center_after_tick(Cell::Alive, [1, 0, 0, 0, 0, 0, 0, 1]), Cell::Alive);
    assert_eq!(center_after_tick(Cell::Alive, [0, 1, 0, 1, 0, 0, 0, 0]), Cell::Alive);
}

#[test]
fn alive_with_three_neighbors_survives() {
    assert_eq!(center_after_tick(Cell::Alive, [1, 1, 1, 0, 0, 0, 0, 0]), Cell::Alive);
    assert_eq!(center_after_tick(Cell::Alive, [0, 0, 1, 0, 1, 0, 1, 0]), Cell::Alive);
}

#[test]
fn alive_with_four_neighbors_dies() {
    assert_eq!(center_after_tick(Cell::Alive, [1, 1, 1, 1, 0, 0, 0, 0]), Cell::Dead);
    assert_eq!(center_after_tick(Cell::Alive, [1, 0, 1, 0, 0, 1, 0, 1]), Cell::Dead);
}

#[test]
fn alive_with_eight_neighbors_dies() {
    assert_eq!(center_after_tick(Cell::Alive, [1, 1, 1, 1, 1, 1, 1, 1]), Cell::Dead);
}

#[test]
fn dead_with_three_neighbors_is_born() {
    assert_eq!(center_after_tick(Cell::Dead, [1, 1, 1, 0, 0, 0, 0, 0]), Cell::Alive);
    assert_eq!(center_after_tick(Cell::Dead, [0, 0, 0, 1, 0, 0, 1, 1]), Cell::Alive);
}

#[test]
fn dead_with_two_or_four_neighbors_stays_dead() {
    assert_eq!(center_after_tick(Cell::Dead, [1, 1, 0, 0, 0, 0, 0, 0]), Cell::Dead);
    assert_eq!(center_after_tick(Cell::Dead, [1, 1, 1, 1, 0, 0, 0, 0]), Cell::Dead);
    assert_eq!(center_after_tick(Cell::Dead, [0, 0, 0, 0, 0, 0, 0, 0]), Cell::Dead);
}

#[test]
fn next_state_follows_the_rule_table() {
    let alive = [
        Cell::Dead,
        Cell::Dead,
        Cell::Alive,
        Cell::Alive,
        Cell::Dead,
        Cell::Dead,
        Cell::Dead,
        Cell::Dead,
        Cell::Dead,
    ];
    let dead = [
        Cell::Dead,
        Cell::Dead,
        Cell::Dead,
        Cell::Alive,
        Cell::Dead,
        Cell::Dead,
        Cell::Dead,
        Cell::Dead,
        Cell::Dead,
    ];
    for live_neighbors in 0..=8u8 {
        assert_eq!(Cell::Alive.next_state(live_neighbors), alive[live_neighbors as usize]);
        assert_eq!(Cell::Dead.next_state(live_neighbors), dead[live_neighbors as usize]);
    }
}

#[test]
fn as_count_is_zero_or_one() {
    assert_eq!(Cell::Dead.as_count(), 0);
    assert_eq!(Cell::Alive.as_count(), 1);
}

#[test]
fn glyphs_are_hollow_and_filled_squares() {
    assert_eq!(DEAD_GLYPH, '\u{25FB}');
    assert_eq!(ALIVE_GLYPH, '\u{25FC}');
    assert_eq!(Cell::Dead.glyph_str(), "\u{25FB}");
    assert_eq!(Cell::Alive.glyph_str(), "\u{25FC}");
    assert_eq!(Cell::Dead.glyph_str().chars().collect::<Vec<char>>(), vec![DEAD_GLYPH]);
    assert_eq!(Cell::Alive.glyph_str().chars().collect::<Vec<char>>(), vec![ALIVE_GLYPH]);
}
