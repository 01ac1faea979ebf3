use vstd::prelude::*;
use crate::text::text_eq;

verus! {

/// The shift bit of a modifier set.
pub const SHIFT_BIT: u32 = 4;

/// The modifier keys held while a key event arrives, as a bit set (shift,
/// control, alt and super at bits 2, 5, 8 and 11).
#[derive(Debug, Clone, Copy, PartialEq, Eq, Structural)]
pub struct Modifiers {
    pub bits: u32,
}

impl Modifiers {
    /// Whether no modifier is held.
    pub fn is_empty(&self) -> (r: bool)
        ensures
            r == (self.bits == 0),
    {
        self.bits == 0
    }

    /// Whether shift is held.
    pub fn shift_key(&self) -> (r: bool)
        ensures
            r == (self.bits & SHIFT_BIT != 0),
    {
        self.bits & SHIFT_BIT != 0
    }
}

/// Whether a key was pressed or released.
#[derive(Debug, Clone, Copy, PartialEq, Eq, Structural)]
pub enum ElementState {
    Pressed,
    Released,
}

/// The named keys that steer the camera; every other named key is `Other`.
#[derive(Debug, Clone, Copy, PartialEq, Eq, Structural)]
pub enum NamedKey {
    ArrowDown,
    ArrowUp,
    ArrowLeft,
    ArrowRight,
    Shift,
    Other,
}

/// The logical meaning of a key: the text it types, a named key, or neither.
#[derive(Debug, Clone)]
pub enum Key {
    Character(String),
    Named(NamedKey),
    Unidentified,
}

/// A key press or release with its logical key.
#[derive(Debug, Clone)]
pub struct KeyEvent {
    pub state: ElementState,
    pub logical_key: Key,
}

/// A direction along three axes, each held at `-1`, `0` or `1`.
#[derive(Debug, Clone, Copy, PartialEq, Eq, Structural)]
pub struct Axes {
    pub x: i8,
    pub y: i8,
    pub z: i8,
}

/// The camera controls that the keyboard drives: each number stands for a
/// direction and is `-1`, `0` or `1`.
#[derive(Debug, Clone, Copy, PartialEq, Eq, Structural)]
pub struct Inputs {
    pub velocity: Axes,
    pub look: Axes,
    pub delta_fov: i8,
    pub shift_mod: bool,
}

/// A direction value is one of `-1`, `0` and `1`.
pub open spec fn unit(v: i8) -> bool {
    v == -1 || v == 0 || v == 1
}

impl Inputs {
    /// Every control holds `-1`, `0` or `1`.
    pub open spec fn wf(self) -> bool {
        &&& unit(self.velocity.x)
        &&& unit(self.velocity.y)
        &&& unit(self.velocity.z)
        &&& unit(self.look.x)
        &&& unit(self.look.y)
        &&& unit(self.look.z)
        &&& unit(self.delta_fov)
    }
}

/// The keys that steer the camera.
#[derive(Debug, Clone, Copy, PartialEq, Eq, Structural)]
pub enum Control {
    Left,
    Right,
    Down,
    Up,
    Back,
    Forward,
    LookDown,
    LookUp,
    LookLeft,
    LookRight,
    Narrow,
    Widen,
    Shift,
}

/// The control a logical key stands for, if any: letters in either case,
/// the arrow keys, `-`/`_`, `=`/`+` and shift.
pub open spec fn control_of(key: Key) -> Option<Control> {
    match key {
        Key::Character(s) => if s@ == "a"@ || s@ == "A"@ {
            Some(Control::Left)
        } else if s@ == "d"@ || s@ == "D"@ {
            Some(Control::Right)
        } else if s@ == "q"@ || s@ == "Q"@ {
            Some(Control::Down)
        } else if s@ == "e"@ || s@ == "E"@ {
            Some(Control::Up)
        } else if s@ == "s"@ || s@ == "S"@ {
            Some(Control::Back)
        } else if s@ == "w"@ || s@ == "W"@ {
            Some(Control::Forward)
        } else if s@ == "-"@ || s@ == "_"@ {
            Some(Control::Narrow)
        } else if s@ == "="@ || s@ == "+"@ {
            Some(Control::Widen)
        } else {
            None
        },
        Key::Named(n) => match n {
            NamedKey::ArrowDown => Some(Control::LookDown),
            NamedKey::ArrowUp => Some(Control::LookUp),
            NamedKey::ArrowLeft => Some(Control::LookLeft),
            NamedKey::ArrowRight => Some(Control::LookRight),
            NamedKey::Shift => Some(Control::Shift),
            NamedKey::Other => None,
        },
        Key::Unidentified => None,
    }
}

fn either(s: &str, a: &str, b: &str) -> (r: bool)
    ensures
        r == (s@ == a@ || s@ == b@),
{
    text_eq(s, a) || text_eq(s, b)
}

/// Finds the control a logical key stands for, as [`control_of`] describes.
pub fn key_control(key: &Key) -> (r: Option<Control>)
    ensures
        r == control_of(*key),
{
    match key {
        Key::Character(s) => {
            let s = s.as_str();
            if either(s, "a", "A") {
                Some(Control::Left)
            } else if either(s, "d", "D") {
                Some(Control::Right)
            } else if either(s, "q", "Q") {
                Some(Control::Down)
            } else if either(s, "e", "E") {
                Some(Control::Up)
            } else if either(s, "s", "S") {
                Some(Control::Back)
            } else if either(s, "w", "W") {
                Some(Control::Forward)
            } else if either(s, "-", "_") {
                Some(Control::Narrow)
            } else if either(s, "=", "+") {
                Some(Control::Widen)
            } else {
                None
            }
        },
        Key::Named(n) => match n {
            NamedKey::ArrowDown => Some(Control::LookDown),
            NamedKey::ArrowUp => Some(Control::LookUp),
            NamedKey::ArrowLeft => Some(Control::LookLeft),
            NamedKey::ArrowRight => Some(Control::LookRight),
            NamedKey::Shift => Some(Control::Shift),
            NamedKey::Other => None,
        },
        Key::Unidentified => None,
    }
}

/// Whether the held modifiers make a key event count for nothing: any
/// modifier but shift.
pub open spec fn blocked_by(modifiers: Modifiers) -> bool {
    modifiers.bits != 0 && modifiers.bits & SHIFT_BIT == 0
}

/// Which way a press moves each control. `flipped` gives the mapping in
/// which left/right and the look directions point the other way.
pub open spec fn press_sign(c: Control, flipped: bool) -> i8 {
    match c {
        Control::Left => if flipped { -1i8 } else { 1i8 },
        Control::Right => if flipped { 1i8 } else { -1i8 },
        Control::Down => -1i8,
        Control::Up => 1i8,
        Control::Back => 1i8,
        Control::Forward => -1i8,
        Control::LookDown => if flipped { -1i8 } else { 1i8 },
        Control::LookUp => if flipped { 1i8 } else { -1i8 },
        Control::LookLeft => if flipped { 1i8 } else { -1i8 },
        Control::LookRight => if flipped { -1i8 } else { 1i8 },
        Control::Narrow => -1i8,
        Control::Widen => 1i8,
        Control::Shift => 0i8,
    }
}

/// The controls after control `c` is pressed (`pressed`) or released: a press
/// sets its axis to [`press_sign`], a release sets it to rest; shift sets
/// the shift flag.
pub open spec fn apply_control(s: Inputs, c: Control, pressed: bool, flipped: bool) -> Inputs {
    let v: i8 = if pressed {
        press_sign(c, flipped)
    } else {
        0
    };
    match c {
        Control::Left | Control::Right => Inputs { velocity: Axes { x: v, ..s.velocity }, ..s },
        Control::Down | Control::Up => Inputs { velocity: Axes { y: v, ..s.velocity }, ..s },
        Control::Back | Control::Forward => Inputs { velocity: Axes { z: v, ..s.velocity }, ..s },
        Control::LookDown | Control::LookUp => Inputs { look: Axes { x: v, ..s.look }, ..s },
        Control::LookLeft | Control::LookRight => Inputs { look: Axes { y: v, ..s.look }, ..s },
        Control::Narrow | Control::Widen => Inputs { delta_fov: v, ..s },
        Control::Shift => Inputs { shift_mod: pressed, ..s },
    }
}

/// The controls after a key event.
pub open spec fn key_effect(s: Inputs, event: KeyEvent, modifiers: Modifiers, flipped: bool) -> Inputs {
    if blocked_by(modifiers) {
        s
    } else {
        match control_of(event.logical_key) {
            None => s,
            Some(c) => apply_control(s, c, event.state == ElementState::Pressed, flipped),
        }
    }
}

impl Inputs {
    /// All controls at rest.
    pub fn new() -> (r: Self)
        ensures
            r == (Inputs {
                velocity: Axes { x: 0, y: 0, z: 0 },
                look: Axes { x: 0, y: 0, z: 0 },
                delta_fov: 0,
                shift_mod: false,
            }),
    {
        Inputs {
            velocity: Axes { x: 0, y: 0, z: 0 },
            look: Axes { x: 0, y: 0, z: 0 },
            delta_fov: 0,
            shift_mod: false,
        }
    }

    fn apply(&mut self, c: Control, pressed: bool, flipped: bool)
        ensures
            *final(self) == apply_control(*old(self), c, pressed, flipped),
    {
        let v: i8 = if !pressed {
            0
        } else {
            match c {
                Control::Left => if flipped { -1 } else { 1 },
                Control::Right => if flipped { 1 } else { -1 },
                Control::Down => -1,
                Control::Up => 1,
                Control::Back => 1,
                Control::Forward => -1,
                Control::LookDown => if flipped { -1 } else { 1 },
                Control::LookUp => if flipped { 1 } else { -1 },
                Control::LookLeft => if flipped { 1 } else { -1 },
                Control::LookRight => if flipped { -1 } else { 1 },
                Control::Narrow => -1,
                Control::Widen => 1,
                Control::Shift => 0,
            }
        };
        match c {
            Control::Left | Control::Right => {
                self.velocity.x = v;
            },
            Control::Down | Control::Up => {
                self.velocity.y = v;
            },
            Control::Back | Control::Forward => {
                self.velocity.z = v;
            },
            Control::LookDown | Control::LookUp => {
                self.look.x = v;
            },
            Control::LookLeft | Control::LookRight => {
                self.look.y = v;
            },
            Control::Narrow | Control::Widen => {
                self.delta_fov = v;
            },
            Control::Shift => {
                self.shift_mod = pressed;
            },
        }
    }

    /// Updates the controls for a key event: nothing happens while a modifier
    /// other than shift is held; a press of a steering key sets its axis, a
    /// release puts the axis back to rest.
    pub fn key_handler(&mut self, event: &KeyEvent, modifiers: Modifiers)
        ensures
            *final(self) == key_effect(*old(self), *event, modifiers, false),
    {
        if !modifiers.is_empty() && !modifiers.shift_key() {
            return;
        }
        match key_control(&event.logical_key) {
            None => {},
            Some(c) => {
                let pressed = match event.state {
                    ElementState::Pressed => true,
                    ElementState::Released => false,
                };
                self.apply(c, pressed, false);
            },
        }
    }

    /// The window's own mapping of key events onto the camera controls: as
    /// [`Inputs::key_handler`], with left/right and the look directions the
    /// other way round.
    pub fn window_key_handler(&mut self, event: &KeyEvent, modifiers: Modifiers)
        ensures
            *final(self) == key_effect(*old(self), *event, modifiers, true),
    {
        if !modifiers.is_empty() && !modifiers.shift_key() {
            return;
        }
        match key_control(&event.logical_key) {
            None => {},
            Some(c) => {
                let pressed = match event.state {
                    ElementState::Pressed => true,
                    ElementState::Released => false,
                };
                self.apply(c, pressed, true);
            },
        }
    }
}

/// Every key event keeps each control at `-1`, `0` or `1`.
pub proof fn lemma_key_effect_wf(s: Inputs, event: KeyEvent, modifiers: Modifiers, flipped: bool)
    requires
        s.wf(),
    ensures
        key_effect(s, event, modifiers, flipped).wf(),
{
}

/// Releasing a key puts its control back to rest, whatever pressing it did.
pub proof fn lemma_release_rests(
    s: Inputs,
    key: Key,
    modifiers: Modifiers,
    flipped: bool,
)
    requires
        !blocked_by(modifiers),
        control_of(key) is Some,
    ensures
        ({
            let pressed = key_effect(
                s,
                KeyEvent { state: ElementState::Pressed, logical_key: key },
                modifiers,
                flipped,
            );
            let released = key_effect(
                pressed,
                KeyEvent { state: ElementState::Released, logical_key: key },
                modifiers,
                flipped,
            );
            released == key_effect(
                s,
                KeyEvent { state: ElementState::Released, logical_key: key },
                modifiers,
                flipped,
            )
        }),
{
}

/// While a modifier other than shift is held, key events change nothing.
pub proof fn lemma_blocked_keeps(s: Inputs, event: KeyEvent, modifiers: Modifiers, flipped: bool)
    requires
        blocked_by(modifiers),
    ensures
        key_effect(s, event, modifiers, flipped) == s,
{
}

/// The two mappings agree on every key but left/right and the look
/// directions, which they send opposite ways.
pub proof fn lemma_flipped_mapping(c: Control)
    ensures
        press_sign(c, true) as int == if c == Control::Left || c == Control::Right || c
            == Control::LookDown || c == Control::LookUp || c == Control::LookLeft || c
            == Control::LookRight {
            -(press_sign(c, false) as int)
        } else {
            press_sign(c, false) as int
        },
{
}

/// The axis a control drives: the three velocity axes, the two look axes,
/// the field of view, and the shift flag.
pub open spec fn axis_of(c: Control) -> int {
    match c {
        Control::Left | Control::Right => 0,
        Control::Down | Control::Up => 1,
        Control::Back | Control::Forward => 2,
        Control::LookDown | Control::LookUp => 3,
        Control::LookLeft | Control::LookRight => 4,
        Control::Narrow | Control::Widen => 5,
        Control::Shift => 6,
    }
}

/// The value of axis `a` (the shift flag, axis 6, counts as `1` when set).
pub open spec fn axis_value(s: Inputs, a: int) -> int {
    if a == 0 {
        s.velocity.x as int
    } else if a == 1 {
        s.velocity.y as int
    } else if a == 2 {
        s.velocity.z as int
    } else if a == 3 {
        s.look.x as int
    } else if a == 4 {
        s.look.y as int
    } else if a == 5 {
        s.delta_fov as int
    } else if a == 6 && s.shift_mod {
        1
    } else {
        0
    }
}

/// The value a press of control `c` gives its axis.
pub open spec fn held_value(c: Control, flipped: bool) -> int {
    if c == Control::Shift {
        1
    } else {
        press_sign(c, flipped) as int
    }
}

/// The controls after the key events `events`, in order, with `modifiers`
/// held throughout.
pub open spec fn events_effect(s: Inputs, events: Seq<KeyEvent>, modifiers: Modifiers, flipped: bool) -> Inputs
    decreases events.len(),
{
    if events.len() == 0 {
        s
    } else {
        events_effect(key_effect(s, events[0], modifiers, flipped), events.drop_first(), modifiers, flipped)
    }
}

/// The event does not touch axis `a`: its key drives no control, or a
/// control of another axis.
pub open spec fn leaves_axis(e: KeyEvent, a: int) -> bool {
    match control_of(e.logical_key) {
        None => true,
        Some(d) => axis_of(d) != a,
    }
}

proof fn lemma_events_keep_axis(s: Inputs, events: Seq<KeyEvent>, modifiers: Modifiers, flipped: bool, a: int)
    requires
        forall|i: int| 0 <= i < events.len() ==> leaves_axis(#[trigger] events[i], a),
    ensures
        axis_value(events_effect(s, events, modifiers, flipped), a) == axis_value(s, a),
    decreases events.len(),
{
    if events.len() > 0 {
        let t = key_effect(s, events[0], modifiers, flipped);
        assert(leaves_axis(events[0], a));
        assert(axis_value(t, a) == axis_value(s, a));
        assert forall|i: int| 0 <= i < events.drop_first().len() implies leaves_axis(
            #[trigger] events.drop_first()[i],
            a,
        ) by {
            assert(events.drop_first()[i] == events[i + 1]);
        }
        lemma_events_keep_axis(t, events.drop_first(), modifiers, flipped, a);
    }
}

/// A key pressed, then any key events that leave its axis alone, then the
/// key released: while it is held its axis keeps the value the press gave
/// it, and the release puts the axis back to rest.
pub proof fn lemma_hold_then_release(
    s: Inputs,
    key: Key,
    between: Seq<KeyEvent>,
    modifiers: Modifiers,
    flipped: bool,
)
    requires
        !blocked_by(modifiers),
        control_of(key) is Some,
        forall|i: int| 0 <= i < between.len() ==> leaves_axis(#[trigger] between[i], axis_of(control_of(key)->0)),
    ensures
        ({
            let c = control_of(key)->0;
            let held = events_effect(
                key_effect(s, KeyEvent { state: ElementState::Pressed, logical_key: key }, modifiers, flipped),
                between,
                modifiers,
                flipped,
            );
            &&& axis_value(held, axis_of(c)) == held_value(c, flipped)
            &&& axis_value(
                key_effect(held, KeyEvent { state: ElementState::Released, logical_key: key }, modifiers, flipped),
                axis_of(c),
            ) == 0
        }),
{
    let c = control_of(key)->0;
    let pressed = key_effect(s, KeyEvent { state: ElementState::Pressed, logical_key: key }, modifiers, flipped);
    assert(axis_value(pressed, axis_of(c)) == held_value(c, flipped));
    lemma_events_keep_axis(pressed, between, modifiers, flipped, axis_of(c));
}

/// What each key does. In the window's mapping (`flipped`): `a`/`d` move
/// left/right (`x` to `-1`/`1`), `q`/`e` down/up (`y`), `w`/`s` forward/back
/// (`z` to `-1`/`1`), the arrows turn the view (down/up: look `x` to
/// `-1`/`1`; left/right: look `y` to `1`/`-1`), `-`/`_` and `=`/`+` narrow and
/// widen the view, and shift sets the shift flag; the other mapping sends
/// left/right and the look directions the opposite way. Releasing any of
/// these keys puts its axis back to rest, and other keys change nothing.
#[verifier::rlimit(60)]
#[verifier::spinoff_prover]
pub proof fn lemma_key_table(s: Inputs, key: Key, modifiers: Modifiers, flipped: bool)
    requires
        !blocked_by(modifiers),
    ensures
        ({
            let pressed = key_effect(s, KeyEvent { state: ElementState::Pressed, logical_key: key }, modifiers, flipped);
            let released = key_effect(s, KeyEvent { state: ElementState::Released, logical_key: key }, modifiers, flipped);
            let text = key->Character_0@;
            &&& (key is Character && (text == "a"@ || text == "A"@)) ==> pressed.velocity.x == (if flipped { -1i8 } else { 1i8 }) && released.velocity.x == 0
            &&& (key is Character && (text == "d"@ || text == "D"@)) ==> pressed.velocity.x == (if flipped { 1i8 } else { -1i8 }) && released.velocity.x == 0
            &&& (key is Character && (text == "q"@ || text == "Q"@)) ==> pressed.velocity.y == (if flipped { -1i8 } else { -1i8 }) && released.velocity.y == 0
            &&& (key is Character && (text == "e"@ || text == "E"@)) ==> pressed.velocity.y == (if flipped { 1i8 } else { 1i8 }) && released.velocity.y == 0
            &&& (key is Character && (text == "s"@ || text == "S"@)) ==> pressed.velocity.z == (if flipped { 1i8 } else { 1i8 }) && released.velocity.z == 0
            &&& (key is Character && (text == "w"@ || text == "W"@)) ==> pressed.velocity.z == (if flipped { -1i8 } else { -1i8 }) && released.velocity.z == 0
            &&& (key is Character && (text == "-"@ || text == "_"@)) ==> pressed.delta_fov == (if flipped { -1i8 } else { -1i8 }) && released.delta_fov == 0
            &&& (key is Character && (text == "="@ || text == "+"@)) ==> pressed.delta_fov == (if flipped { 1i8 } else { 1i8 }) && released.delta_fov == 0
            &&& key == Key::Named(NamedKey::ArrowDown) ==> pressed.look.x == (if flipped { -1i8 } else { 1i8 }) && released.look.x == 0
            &&& key == Key::Named(NamedKey::ArrowUp) ==> pressed.look.x == (if flipped { 1i8 } else { -1i8 }) && released.look.x == 0
            &&& key == Key::Named(NamedKey::ArrowLeft) ==> pressed.look.y == (if flipped { 1i8 } else { -1i8 }) && released.look.y == 0
            &&& key == Key::Named(NamedKey::ArrowRight) ==> pressed.look.y == (if flipped { -1i8 } else { 1i8 }) && released.look.y == 0
            &&& key == Key::Named(NamedKey::Shift) ==> pressed.shift_mod && !released.shift_mod
            &&& (key == Key::Named(NamedKey::Other) || key == Key::Unidentified) ==> pressed == s && released == s
        }),
{
    reveal_strlit("a");
    reveal_strlit("A");
    reveal_strlit("d");
    reveal_strlit("D");
    reveal_strlit("q");
    reveal_strlit("Q");
    reveal_strlit("e");
    reveal_strlit("E");
    reveal_strlit("s");
    reveal_strlit("S");
    reveal_strlit("w");
    reveal_strlit("W");
    reveal_strlit("-");
    reveal_strlit("_");
    reveal_strlit("=");
    reveal_strlit("+");
    assert("a"@.len() == 1 && "a"@[0] == 'a') by { assert("a"@ =~= seq!['a']); }
    assert("A"@.len() == 1 && "A"@[0] == 'A') by { assert("A"@ =~= seq!['A']); }
    assert("d"@.len() == 1 && "d"@[0] == 'd') by { assert("d"@ =~= seq!['d']); }
    assert("D"@.len() == 1 && "D"@[0] == 'D') by { assert("D"@ =~= seq!['D']); }
    assert("q"@.len() == 1 && "q"@[0] == 'q') by { assert("q"@ =~= seq!['q']); }
    assert("Q"@.len() == 1 && "Q"@[0] == 'Q') by { assert("Q"@ =~= seq!['Q']); }
    assert("e"@.len() == 1 && "e"@[0] == 'e') by { assert("e"@ =~= seq!['e']); }
    assert("E"@.len() == 1 && "E"@[0] == 'E') by { assert("E"@ =~= seq!['E']); }
    assert("s"@.len() == 1 && "s"@[0] == 's') by { assert("s"@ =~= seq!['s']); }
    assert("S"@.len() == 1 && "S"@[0] == 'S') by { assert("S"@ =~= seq!['S']); }
    assert("w"@.len() == 1 && "w"@[0] == 'w') by { assert("w"@ =~= seq!['w']); }
    assert("W"@.len() == 1 && "W"@[0] == 'W') by { assert("W"@ =~= seq!['W']); }
    assert("-"@.len() == 1 && "-"@[0] == '-') by { assert("-"@ =~= seq!['-']); }
    assert("_"@.len() == 1 && "_"@[0] == '_') by { assert("_"@ =~= seq!['_']); }
    assert("="@.len() == 1 && "="@[0] == '=') by { assert("="@ =~= seq!['=']); }
    assert("+"@.len() == 1 && "+"@[0] == '+') by { assert("+"@ =~= seq!['+']); }
    if key is Character && key->Character_0@ == "a"@ {
        assert(control_of(key) == Some(Control::Left));
    }
    if key is Character && key->Character_0@ == "A"@ {
        assert(key->Character_0@ != "a"@);
        assert(control_of(key) == Some(Control::Left));
    }
    if key is Character && key->Character_0@ == "d"@ {
        assert(key->Character_0@ != "a"@);
        assert(key->Character_0@ != "A"@);
        assert(control_of(key) == Some(Control::Right));
    }
    if key is Character && key->Character_0@ == "D"@ {
        assert(key->Character_0@ != "a"@);
        assert(key->Character_0@ != "A"@);
        assert(key->Character_0@ != "d"@);
        assert(control_of(key) == Some(Control::Right));
    }
    if key is Character && key->Character_0@ == "q"@ {
        assert(key->Character_0@ != "a"@);
        assert(key->Character_0@ != "A"@);
        assert(key->Character_0@ != "d"@);
        assert(key->Character_0@ != "D"@);
        assert(control_of(key) == Some(Control::Down));
    }
    if key is Character && key->Character_0@ == "Q"@ {
        assert(key->Character_0@ != "a"@);
        assert(key->Character_0@ != "A"@);
        assert(key->Character_0@ != "d"@);
        assert(key->Character_0@ != "D"@);
        assert(key->Character_0@ != "q"@);
        assert(control_of(key) == Some(Control::Down));
    }
    if key is Character && key->Character_0@ == "e"@ {
        assert(key->Character_0@ != "a"@);
        assert(key->Character_0@ != "A"@);
        assert(key->Character_0@ != "d"@);
        assert(key->Character_0@ != "D"@);
        assert(key->Character_0@ != "q"@);
        assert(key->Character_0@ != "Q"@);
        assert(control_of(key) == Some(Control::Up));
    }
    if key is Character && key->Character_0@ == "E"@ {
        assert(key->Character_0@ != "a"@);
        assert(key->Character_0@ != "A"@);
        assert(key->Character_0@ != "d"@);
        assert(key->Character_0@ != "D"@);
        assert(key->Character_0@ != "q"@);
        assert(key->Character_0@ != "Q"@);
        assert(key->Character_0@ != "e"@);
        assert(control_of(key) == Some(Control::Up));
    }
    if key is Character && key->Character_0@ == "s"@ {
        assert(key->Character_0@ != "a"@);
        assert(key->Character_0@ != "A"@);
        assert(key->Character_0@ != "d"@);
        assert(key->Character_0@ != "D"@);
        assert(key->Character_0@ != "q"@);
        assert(key->Character_0@ != "Q"@);
        assert(key->Character_0@ != "e"@);
        assert(key->Character_0@ != "E"@);
        assert(control_of(key) == Some(Control::Back));
    }
    if key is Character && key->Character_0@ == "S"@ {
        assert(key->Character_0@ != "a"@);
        assert(key->Character_0@ != "A"@);
        assert(key->Character_0@ != "d"@);
        assert(key->Character_0@ != "D"@);
        assert(key->Character_0@ != "q"@);
        assert(key->Character_0@ != "Q"@);
        assert(key->Character_0@ != "e"@);
        assert(key->Character_0@ != "E"@);
        assert(key->Character_0@ != "s"@);
        assert(control_of(key) == Some(Control::Back));
    }
    if key is Character && key->Character_0@ == "w"@ {
        assert(key->Character_0@ != "a"@);
        assert(key->Character_0@ != "A"@);
        assert(key->Character_0@ != "d"@);
        assert(key->Character_0@ != "D"@);
        assert(key->Character_0@ != "q"@);
        assert(key->Character_0@ != "Q"@);
        assert(key->Character_0@ != "e"@);
        assert(key->Character_0@ != "E"@);
        assert(key->Character_0@ != "s"@);
        assert(key->Character_0@ != "S"@);
        assert(control_of(key) == Some(Control::Forward));
    }
    if key is Character && key->Character_0@ == "W"@ {
        assert(key->Character_0@ != "a"@);
        assert(key->Character_0@ != "A"@);
        assert(key->Character_0@ != "d"@);
        assert(key->Character_0@ != "D"@);
        assert(key->Character_0@ != "q"@);
        assert(key->Character_0@ != "Q"@);
        assert(key->Character_0@ != "e"@);
        assert(key->Character_0@ != "E"@);
        assert(key->Character_0@ != "s"@);
        assert(key->Character_0@ != "S"@);
        assert(key->Character_0@ != "w"@);
        assert(control_of(key) == Some(Control::Forward));
    }
    if key is Character && key->Character_0@ == "-"@ {
        assert(key->Character_0@ != "a"@);
        assert(key->Character_0@ != "A"@);
        assert(key->Character_0@ != "d"@);
        assert(key->Character_0@ != "D"@);
        assert(key->Character_0@ != "q"@);
        assert(key->Character_0@ != "Q"@);
        assert(key->Character_0@ != "e"@);
        assert(key->Character_0@ != "E"@);
        assert(key->Character_0@ != "s"@);
        assert(key->Character_0@ != "S"@);
        assert(key->Character_0@ != "w"@);
        assert(key->Character_0@ != "W"@);
        assert(control_of(key) == Some(Control::Narrow));
    }
    if key is Character && key->Character_0@ == "_"@ {
        assert(key->Character_0@ != "a"@);
        assert(key->Character_0@ != "A"@);
        assert(key->Character_0@ != "d"@);
        assert(key->Character_0@ != "D"@);
        assert(key->Character_0@ != "q"@);
        assert(key->Character_0@ != "Q"@);
        assert(key->Character_0@ != "e"@);
        assert(key->Character_0@ != "E"@);
        assert(key->Character_0@ != "s"@);
        assert(key->Character_0@ != "S"@);
        assert(key->Character_0@ != "w"@);
        assert(key->Character_0@ != "W"@);
        assert(key->Character_0@ != "-"@);
        assert(control_of(key) == Some(Control::Narrow));
    }
    if key is Character && key->Character_0@ == "="@ {
        assert(key->Character_0@ != "a"@);
        assert(key->Character_0@ != "A"@);
        assert(key->Character_0@ != "d"@);
        assert(key->Character_0@ != "D"@);
        assert(key->Character_0@ != "q"@);
        assert(key->Character_0@ != "Q"@);
        assert(key->Character_0@ != "e"@);
        assert(key->Character_0@ != "E"@);
        assert(key->Character_0@ != "s"@);
        assert(key->Character_0@ != "S"@);
        assert(key->Character_0@ != "w"@);
        assert(key->Character_0@ != "W"@);
        assert(key->Character_0@ != "-"@);
        assert(key->Character_0@ != "_"@);
        assert(control_of(key) == Some(Control::Widen));
    }
    if key is Character && key->Character_0@ == "+"@ {
        assert(key->Character_0@ != "a"@);
        assert(key->Character_0@ != "A"@);
        assert(key->Character_0@ != "d"@);
        assert(key->Character_0@ != "D"@);
        assert(key->Character_0@ != "q"@);
        assert(key->Character_0@ != "Q"@);
        assert(key->Character_0@ != "e"@);
        assert(key->Character_0@ != "E"@);
        assert(key->Character_0@ != "s"@);
        assert(key->Character_0@ != "S"@);
        assert(key->Character_0@ != "w"@);
        assert(key->Character_0@ != "W"@);
        assert(key->Character_0@ != "-"@);
        assert(key->Character_0@ != "_"@);
        assert(key->Character_0@ != "="@);
        assert(control_of(key) == Some(Control::Widen));
    }
}

} // verus!
