//! The keys that steer the camera, and which of them are held during a tick.

use bevy::input::keyboard::KeyCode;
use bevy::input::Input;
use vstd::prelude::*;

verus! {

/// A physical key, as far as the camera tells keys apart.
#[derive(Clone, Copy, Debug, PartialEq, Eq)]
pub enum Key {
    W,
    A,
    S,
    D,
    Space,
    Escape,
    /// Any key that the camera does not react to.
    Other,
}

/// The logical keys that are held down during one tick.
#[derive(Clone, Copy, Debug, PartialEq, Eq)]
pub struct HeldKeys {
    pub forward: bool,
    pub back: bool,
    pub strafe_left: bool,
    pub strafe_right: bool,
    pub jump: bool,
    pub exit: bool,
}

/// bevy's record of which buttons are down. Verified code sees what it
/// holds only through `pressed_keys`.
#[verifier::external_type_specification]
#[verifier::external_body]
#[verifier::reject_recursive_types(T)]
pub struct ExInput<T: Eq + std::hash::Hash>(Input<T>);

/// bevy's key codes, carried through as opaque values.
#[verifier::external_type_specification]
#[verifier::external_body]
pub struct ExKeyCode(KeyCode);

/// The keys in the pressed set of a keyboard input state, each key code
/// taken as the `Key` of the same name, or as `Key::Other` if there is none.
pub uninterp spec fn pressed_keys(input: Input<KeyCode>) -> Set<Key>;

/// Walks `bevy::input::Input::get_pressed`, which visits every element of
/// the pressed set once, in no particular order, and hands each key code on
/// as the `Key` of the same name, or as `Key::Other`. The contract claims
/// that the keys handed out are exactly the ones that `pressed_keys` names;
/// it claims nothing of their order or of how often `Key::Other` occurs.
#[verifier::external_body]
fn keys_down(input: &Input<KeyCode>) -> (keys: Vec<Key>)
    ensures
        keys@.to_set() == pressed_keys(*input),
{
    let mut keys = Vec::new();
    for code in input.get_pressed() {
        keys.push(match code {
            KeyCode::W => Key::W,
            KeyCode::A => Key::A,
            KeyCode::S => Key::S,
            KeyCode::D => Key::D,
            KeyCode::Space => Key::Space,
            KeyCode::Escape => Key::Escape,
            _ => Key::Other,
        });
    }
    keys
}

/// Taking one more element of a sequence adds that element to what the prefix contains.
proof fn lemma_prefix_contains(keys: Seq<Key>, i: int, key: Key)
    requires
        0 <= i < keys.len(),
    ensures
        keys.take(i + 1).contains(key) <==> keys.take(i).contains(key) || keys[i] == key,
{
    let shorter = keys.take(i);
    let longer = keys.take(i + 1);
    if shorter.contains(key) {
        let j = choose|j: int| 0 <= j < shorter.len() && shorter[j] == key;
        assert(longer[j] == key);
    }
    if keys[i] == key {
        assert(longer[i] == key);
    }
    if longer.contains(key) {
        let j = choose|j: int| 0 <= j < longer.len() && longer[j] == key;
        if j < i {
            assert(shorter[j] == key);
        }
    }
}

impl HeldKeys {
    /// No key is held.
    pub open spec fn is_idle(self) -> bool {
        !self.steers() && !self.exit
    }

    /// A key that moves the camera is held.
    pub open spec fn steers(self) -> bool {
        self.forward || self.back || self.strafe_left || self.strafe_right || self.jump
    }

    /// The bindings: W and S move forward and back, A and D strafe left and
    /// right, Space jumps, Escape asks to leave.
    pub open spec fn bound_to(self, pressed: Set<Key>) -> bool {
        &&& self.forward == pressed.contains(Key::W)
        &&& self.back == pressed.contains(Key::S)
        &&& self.strafe_left == pressed.contains(Key::A)
        &&& self.strafe_right == pressed.contains(Key::D)
        &&& self.jump == pressed.contains(Key::Space)
        &&& self.exit == pressed.contains(Key::Escape)
    }

    /// The state in which no key is held.
    pub fn none() -> (keys: HeldKeys)
        ensures
            keys.is_idle(),
    {
        HeldKeys {
            forward: false,
            back: false,
            strafe_left: false,
            strafe_right: false,
            jump: false,
            exit: false,
        }
    }

    /// The logical keys that a list of pressed keys holds down. Neither the
    /// order of the list nor a key's occurring twice makes a difference.
    pub fn from_keys(pressed: &[Key]) -> (keys: HeldKeys)
        ensures
            keys.bound_to(pressed@.to_set()),
    {
        let mut keys: HeldKeys = HeldKeys::none();
        let mut i: usize = 0;
        while i < pressed.len()
            invariant
                i <= pressed.len(),
                keys.forward == pressed@.take(i as int).contains(Key::W),
                keys.back == pressed@.take(i as int).contains(Key::S),
                keys.strafe_left == pressed@.take(i as int).contains(Key::A),
                keys.strafe_right == pressed@.take(i as int).contains(Key::D),
                keys.jump == pressed@.take(i as int).contains(Key::Space),
                keys.exit == pressed@.take(i as int).contains(Key::Escape),
            decreases pressed.len() - i,
        {
            proof {
                lemma_prefix_contains(pressed@, i as int, Key::W);
                lemma_prefix_contains(pressed@, i as int, Key::S);
                lemma_prefix_contains(pressed@, i as int, Key::A);
                lemma_prefix_contains(pressed@, i as int, Key::D);
                lemma_prefix_contains(pressed@, i as int, Key::Space);
                lemma_prefix_contains(pressed@, i as int, Key::Escape);
            }
            match pressed[i] {
                Key::W => {
                    keys.forward = true;
                },
                Key::S => {
                    keys.back = true;
                },
                Key::A => {
                    keys.strafe_left = true;
                },
                Key::D => {
                    keys.strafe_right = true;
                },
                Key::Space => {
                    keys.jump = true;
                },
                Key::Escape => {
                    keys.exit = true;
                },
                Key::Other => {},
            }
            i += 1;
        }
        proof {
            assert(pressed@.take(i as int) =~= pressed@);
        }
        keys
    }

    /// Reads the held keys off a keyboard input state.
    pub fn from_input(input: &Input<KeyCode>) -> (keys: HeldKeys)
        ensures
            keys.bound_to(pressed_keys(*input)),
    {
        let down: Vec<Key> = keys_down(input);
        HeldKeys::from_keys(down.as_slice())
    }
}

} // verus!
