use engine::scancode::{convert_scancode, Scancode};

#[test]
fn letters_and_digits_convert() {
    assert_eq!(convert_scancode(4), Some(Scancode::A));
    assert_eq!(convert_scancode(29), Some(Scancode::Z));
    assert_eq!(convert_scancode(30), Some(Scancode::One));
    assert_eq!(convert_scancode(39), Some(Scancode::Zero));
}

#[test]
fn renamed_keys_convert() {
    // SDL's minus key is the engine's dash, its non-US hash the alt hash
    assert_eq!(convert_scancode(45), Some(Scancode::Dash));
    assert_eq!(convert_scancode(50), Some(Scancode::AltHash));
    assert_eq!(convert_scancode(83), Some(Scancode::NumLock));
    assert_eq!(convert_scancode(224), Some(Scancode::LeftControl));
}

#[test]
fn numbers_of_no_key_give_none() {
    assert_eq!(convert_scancode(0), None);
    assert_eq!(convert_scancode(512), None);
    assert_eq!(convert_scancode(-1), None);
}
