use roborex::collectible::{Collectible, Status};
use roborex::geom::Vector;
use roborex::player::Player;
use roborex::primitive::Position;
use roborex::render::LetterSprite;

#[test]
fn new_collectible_is_not_collected() {
    let letter = Collectible::new('A', Position::new(5, 7));
    assert_eq!(letter.status, Status::NotCollected);
    assert_eq!(letter.position, Position::new(5, 7));
    assert_eq!(letter.letter, 'A');
}

#[test]
fn collected_stays_collected() {
    let mut letter = Collectible::new('A', Position::new(5, 7));
    letter.collect();
    assert_eq!(letter.status, Status::Collected);
    letter.collect();
    assert_eq!(letter, Collectible { status: Status::Collected, position: Position::new(5, 7), letter: 'A' });
}

#[test]
fn player_runs_into_a_letter_on_their_cell() {
    let mut letter = Collectible::new('A', Position::new(5, 7));
    let mut player = Player::new();
    assert!(!letter.collide_with(&player));
    player.position = Position::new(5, 7);
    assert!(letter.collide_with(&player));
    player.position = Position::new(7, 5);
    assert!(!letter.collide_with(&player));
    player.place(Position::new(5, 7));
    letter.collect();
    assert!(!letter.collide_with(&player));
}

#[test]
fn letter_is_drawn_until_it_is_collected() {
    let mut letter = Collectible::new('L', Position::new(17, 11));
    assert_eq!(
        letter.draw(),
        Some(LetterSprite { letter: 'L', center: Vector::new(576, 384), size: 24, z: 10 })
    );
    letter.collect();
    assert_eq!(letter.draw(), None);
}
