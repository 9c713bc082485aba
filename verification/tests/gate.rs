use roborex::gate::Gate;
use roborex::geom::Rectangle;
use roborex::primitive::{Dimension, Position};
use roborex::render::TileSprite;

fn gate_at(x: u32, y: u32) -> Gate {
    Gate::new(Position::new(x, y), Dimension::new(16, 16), Dimension::new(400, 400))
}

#[test]
fn new_gate_is_closed_at_its_position() {
    let gate = gate_at(24, 13);
    assert!(gate.is_close());
    assert_eq!(gate.position(), Position::new(24, 13));
}

#[test]
fn closed_gate_covers_three_cells() {
    let gate = gate_at(24, 13);
    assert!(gate.is_gate(24, 13));
    assert!(gate.is_gate(24, 14));
    assert!(gate.is_gate(24, 15));
    assert!(!gate.is_gate(24, 12));
    assert!(!gate.is_gate(24, 16));
    assert!(!gate.is_gate(23, 13));
    assert!(!gate.is_gate(25, 14));
}

#[test]
fn open_gate_covers_nothing() {
    let mut gate = gate_at(24, 13);
    gate.open();
    assert!(!gate.is_close());
    assert!(!gate.is_gate(24, 13));
    assert!(!gate.is_gate(24, 14));
    assert!(!gate.is_gate(24, 15));
}

#[test]
fn open_gate_stays_open_when_opened_again() {
    let mut gate = gate_at(24, 13);
    gate.open();
    gate.open();
    assert!(!gate.is_close());
    assert_eq!(gate.position(), Position::new(24, 13));
}

#[test]
fn gate_at_the_lower_edge_covers_the_cells_that_exist() {
    let gate = gate_at(3, u32::MAX - 1);
    assert!(gate.is_gate(3, u32::MAX - 1));
    assert!(gate.is_gate(3, u32::MAX));
    assert!(!gate.is_gate(3, u32::MAX - 2));
    assert!(!gate.is_gate(3, 0));
    assert_eq!(gate.draw().len(), 2);
    assert_eq!(gate_at(3, u32::MAX).draw().len(), 1);
}

#[test]
fn sheet_rectangle_of_a_tile() {
    let tile = Dimension::new(16, 16);
    let image = Dimension::new(400, 400);
    assert_eq!(Gate::to_rectangle(214, &tile, &image), Rectangle::new((208, 128), (16, 16)));
    assert_eq!(Gate::to_rectangle(1, &tile, &image), Rectangle::new((0, 0), (16, 16)));
    assert_eq!(Gate::to_rectangle(27, &tile, &image), Rectangle::new((16, 16), (16, 16)));
}

#[test]
fn sheet_rectangle_with_tiles_that_are_not_square() {
    let tile = Dimension::new(10, 20);
    let image = Dimension::new(100, 60);
    assert_eq!(Gate::to_rectangle(7, &tile, &image), Rectangle::new((60, 20), (10, 20)));
    assert_eq!(Gate::to_rectangle(4, &tile, &image), Rectangle::new((30, 0), (10, 20)));
}

#[test]
fn sheet_rectangle_of_a_tile_in_the_last_column_lies_left_of_the_sheet() {
    let tile = Dimension::new(16, 16);
    let image = Dimension::new(400, 400);
    assert_eq!(Gate::to_rectangle(25, &tile, &image), Rectangle::new((-16, 16), (16, 16)));
    assert_eq!(Gate::to_rectangle(0, &tile, &image), Rectangle::new((-16, 0), (16, 16)));
}

#[test]
fn sheet_rectangle_with_the_largest_sizes() {
    let tile = Dimension::new(1, i32::MAX as u32);
    let image = Dimension::new(i32::MAX as u32, 1);
    assert_eq!(
        Gate::to_rectangle(u32::MAX, &tile, &image),
        Rectangle::new((0, 4294967295 * 2147483647), (1, 2147483647))
    );
}

#[test]
fn closed_gate_is_drawn_as_three_tiles() {
    let gate = gate_at(24, 13);
    let source = Rectangle::new((208, 128), (16, 16));
    assert_eq!(
        gate.draw(),
        vec![
            TileSprite { area: Rectangle::new((776, 424), (16, 16)), source, scale: 2, z: 11 },
            TileSprite { area: Rectangle::new((776, 456), (16, 16)), source, scale: 2, z: 11 },
            TileSprite { area: Rectangle::new((776, 488), (16, 16)), source, scale: 2, z: 11 },
        ]
    );
}

#[test]
fn open_gate_is_not_drawn() {
    let mut gate = gate_at(24, 13);
    gate.open();
    assert_eq!(gate.draw(), vec![]);
}
