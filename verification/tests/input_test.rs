use beans_engine::input::{
    key_control, Axes, Control, ElementState, Inputs, Key, KeyEvent, Modifiers, NamedKey,
};

fn press(key: Key) -> KeyEvent {
    KeyEvent { state: ElementState::Pressed, logical_key: key }
}

fn release(key: Key) -> KeyEvent {
    KeyEvent { state: ElementState::Released, logical_key: key }
}

fn ch(s: &str) -> Key {
    Key::Character(String::from(s))
}

const NONE: Modifiers = Modifiers { bits: 0 };
const SHIFT: Modifiers = Modifiers { bits: 0b100 };
const CONTROL: Modifiers = Modifiers { bits: 0b100 << 3 };

#[test]
fn controls_start_at_rest() {
    let i = Inputs::new();
    assert_eq!(i.velocity, Axes { x: 0, y: 0, z: 0 });
    assert_eq!(i.look, Axes { x: 0, y: 0, z: 0 });
    assert_eq!(i.delta_fov, 0);
    assert!(!i.shift_mod);
}

#[test]
fn keys_map_to_controls() {
    assert_eq!(key_control(&ch("w")), Some(Control::Forward));
    assert_eq!(key_control(&ch("W")), Some(Control::Forward));
    assert_eq!(key_control(&ch("_")), Some(Control::Narrow));
    assert_eq!(key_control(&ch("+")), Some(Control::Widen));
    assert_eq!(key_control(&ch("x")), None);
    assert_eq!(key_control(&ch("ww")), None);
    assert_eq!(key_control(&Key::Named(NamedKey::ArrowLeft)), Some(Control::LookLeft));
    assert_eq!(key_control(&Key::Named(NamedKey::Other)), None);
    assert_eq!(key_control(&Key::Unidentified), None);
}

#[test]
fn presses_set_directions() {
    let mut i = Inputs::new();
    i.key_handler(&press(ch("a")), NONE);
    i.key_handler(&press(ch("q")), NONE);
    i.key_handler(&press(ch("w")), NONE);
    i.key_handler(&press(Key::Named(NamedKey::ArrowDown)), NONE);
    i.key_handler(&press(Key::Named(NamedKey::ArrowLeft)), NONE);
    i.key_handler(&press(ch("=")), NONE);
    assert_eq!(i.velocity, Axes { x: 1, y: -1, z: -1 });
    assert_eq!(i.look, Axes { x: 1, y: -1, z: 0 });
    assert_eq!(i.delta_fov, 1);
    i.key_handler(&press(ch("D")), NONE);
    i.key_handler(&press(ch("E")), NONE);
    i.key_handler(&press(ch("S")), NONE);
    i.key_handler(&press(Key::Named(NamedKey::ArrowUp)), NONE);
    i.key_handler(&press(Key::Named(NamedKey::ArrowRight)), NONE);
    i.key_handler(&press(ch("-")), NONE);
    assert_eq!(i.velocity, Axes { x: -1, y: 1, z: 1 });
    assert_eq!(i.look, Axes { x: -1, y: 1, z: 0 });
    assert_eq!(i.delta_fov, -1);
}

#[test]
fn releases_rest_the_axis() {
    let mut i = Inputs::new();
    i.key_handler(&press(ch("a")), NONE);
    i.key_handler(&press(ch("w")), NONE);
    i.key_handler(&release(ch("D")), NONE);
    assert_eq!(i.velocity, Axes { x: 0, y: 0, z: -1 });
    i.key_handler(&release(ch("s")), NONE);
    assert_eq!(i.velocity, Axes { x: 0, y: 0, z: 0 });
}

#[test]
fn shift_is_tracked_and_allowed() {
    let mut i = Inputs::new();
    i.key_handler(&press(Key::Named(NamedKey::Shift)), SHIFT);
    assert!(i.shift_mod);
    i.key_handler(&press(ch("A")), SHIFT);
    assert_eq!(i.velocity.x, 1);
    i.key_handler(&release(Key::Named(NamedKey::Shift)), NONE);
    assert!(!i.shift_mod);
}

#[test]
fn other_modifiers_block_keys() {
    let mut i = Inputs::new();
    i.key_handler(&press(ch("a")), CONTROL);
    assert_eq!(i, Inputs::new());
    let both = Modifiers { bits: SHIFT.bits | CONTROL.bits };
    i.key_handler(&press(ch("a")), both);
    assert_eq!(i.velocity.x, 1);
    assert!(SHIFT.shift_key());
    assert!(!CONTROL.shift_key());
    assert!(NONE.is_empty());
}

#[test]
fn window_mapping_flips_sideways_and_look() {
    let mut i = Inputs::new();
    i.window_key_handler(&press(ch("a")), NONE);
    i.window_key_handler(&press(Key::Named(NamedKey::ArrowDown)), NONE);
    i.window_key_handler(&press(Key::Named(NamedKey::ArrowLeft)), NONE);
    i.window_key_handler(&press(ch("w")), NONE);
    assert_eq!(i.velocity, Axes { x: -1, y: 0, z: -1 });
    assert_eq!(i.look, Axes { x: -1, y: 1, z: 0 });
    i.window_key_handler(&release(Key::Named(NamedKey::ArrowUp)), NONE);
    assert_eq!(i.look.x, 0);
}

#[test]
fn a_held_key_keeps_its_axis_until_released() {
    let mut i = Inputs::new();
    i.window_key_handler(&press(ch("a")), NONE);
    assert_eq!(i.velocity.x, -1);
    i.window_key_handler(&press(ch("w")), NONE);
    i.window_key_handler(&press(Key::Named(NamedKey::ArrowUp)), NONE);
    i.window_key_handler(&release(ch("w")), NONE);
    assert_eq!(i.velocity.x, -1);
    i.window_key_handler(&release(ch("a")), NONE);
    assert_eq!(i.velocity.x, 0);
    assert_eq!(i.look.x, 1);
}
