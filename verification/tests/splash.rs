use roborex::geom::Vector;
use roborex::input::Input;
use roborex::splash::Splash;

#[test]
fn splash_waits_until_asked_to_begin() {
    let mut splash = Splash::new();
    assert!(!splash.is_clicked());
    splash.update(&Input::idle(16));
    assert!(!splash.is_clicked());
    let mut arrows = Input::idle(16);
    arrows.left = true;
    arrows.right = true;
    arrows.up = true;
    arrows.down = true;
    splash.update(&arrows);
    assert!(!splash.is_clicked());
}

#[test]
fn mouse_release_begins_the_game() {
    let mut splash = Splash::new();
    let mut input = Input::idle(16);
    input.released = Some(Vector::new(1, 1));
    splash.update(&input);
    assert!(splash.is_clicked());
}

#[test]
fn return_key_begins_the_game() {
    let mut splash = Splash::new();
    let mut input = Input::idle(16);
    input.enter = true;
    splash.update(&input);
    assert!(splash.is_clicked());
}

#[test]
fn clicked_splash_stays_clicked() {
    let mut splash = Splash::new();
    let mut input = Input::idle(16);
    input.enter = true;
    splash.update(&input);
    splash.update(&Input::idle(16));
    assert!(splash.is_clicked());
}
