use roborex::primitive::{Dimension, Position};

#[test]
fn position_add_moves_by_the_offset() {
    let p = Position::new(3, 5);
    assert_eq!(p.add(1, 0), Position::new(4, 5));
    assert_eq!(p.add(-1, 0), Position::new(2, 5));
    assert_eq!(p.add(0, -5), Position::new(3, 0));
    assert_eq!(p.add(7, 1), Position::new(10, 6));
}

#[test]
fn dimension_new_keeps_width_and_height() {
    let d = Dimension::new(16, 32);
    assert_eq!(d.width, 16);
    assert_eq!(d.height, 32);
}
