use crate::scancode::{lemma_key_index_injective, Scancode};
use std::collections::HashMap;
use vstd::std_specs::hash::spec_hash_map_iter;
use vstd::std_specs::iter::IteratorSpec;
use vstd::prelude::*;

verus! {

/// Current state of a key
#[derive(Clone, Copy, PartialEq, Eq, Structural, PartialOrd, Ord, Hash, Debug)]
pub enum KeyState {
    /// The key is not currently pressed
    NotPressed,
    /// The key was pressed down on this frame
    Down,
    /// The key is being held down
    Hold,
    /// The key was released on this frame
    Up,
}

/// The state a key moves to when a new frame starts: a key pressed last
/// frame is now held, a key released last frame is now not pressed.
pub open spec fn next_frame_key_state(s: KeyState) -> KeyState {
    match s {
        KeyState::Down => KeyState::Hold,
        KeyState::Up => KeyState::NotPressed,
        other => other,
    }
}

/// The current frame's mouse, scroll wheel and mouse button state
#[derive(Clone, Copy, PartialEq, Eq, Structural, PartialOrd, Ord, Hash, Debug)]
pub struct MouseState {
    /// Current mouse horizontal position
    x: i32,
    /// Current mouse vertical position
    y: i32,
    /// How much the mouse moved horizontally this frame
    delta_x: i32,
    /// How much the mouse moved vertically this frame
    delta_y: i32,
    /// The current mouse wheel horizontal location
    wheel_x: i32,
    /// The current mouse wheel vertical location
    wheel_y: i32,
    /// How much the mouse wheel moved horizontally this frame
    wheel_delta_x: i32,
    /// How much the mouse wheel moved vertically this frame
    wheel_delta_y: i32,
    /// The state of the left click button
    left_button: bool,
    /// The state of the middle mouse button
    middle_button: bool,
    /// The state of the right mouse button
    right_button: bool,
    /// The state of the fourth mouse button (back)
    mouse_four: bool,
    /// The state of the fifth mouse button (forward)
    mouse_five: bool,
}

/// The mathematical model of a mouse state.
pub struct MouseView {
    pub x: i32,
    pub y: i32,
    pub delta_x: i32,
    pub delta_y: i32,
    pub wheel_x: i32,
    pub wheel_y: i32,
    pub wheel_delta_x: i32,
    pub wheel_delta_y: i32,
    pub left_button: bool,
    pub middle_button: bool,
    pub right_button: bool,
    pub mouse_four: bool,
    pub mouse_five: bool,
}

impl View for MouseState {
    type V = MouseView;

    closed spec fn view(&self) -> MouseView {
        MouseView {
            x: self.x,
            y: self.y,
            delta_x: self.delta_x,
            delta_y: self.delta_y,
            wheel_x: self.wheel_x,
            wheel_y: self.wheel_y,
            wheel_delta_x: self.wheel_delta_x,
            wheel_delta_y: self.wheel_delta_y,
            left_button: self.left_button,
            middle_button: self.middle_button,
            right_button: self.right_button,
            mouse_four: self.mouse_four,
            mouse_five: self.mouse_five,
        }
    }
}

/// The mouse at the origin, not moving, with no button pressed.
pub open spec fn spec_resting_mouse() -> MouseView {
    MouseView {
        x: 0,
        y: 0,
        delta_x: 0,
        delta_y: 0,
        wheel_x: 0,
        wheel_y: 0,
        wheel_delta_x: 0,
        wheel_delta_y: 0,
        left_button: false,
        middle_button: false,
        right_button: false,
        mouse_four: false,
        mouse_five: false,
    }
}

impl Default for MouseState {
    /// The mouse at the origin, not moving, with no button pressed.
    fn default() -> (r: MouseState)
        ensures
            r@ == spec_resting_mouse(),
    {
        MouseState {
            x: 0,
            y: 0,
            delta_x: 0,
            delta_y: 0,
            wheel_x: 0,
            wheel_y: 0,
            wheel_delta_x: 0,
            wheel_delta_y: 0,
            left_button: false,
            middle_button: false,
            right_button: false,
            mouse_four: false,
            mouse_five: false,
        }
    }
}

/// The state of the user input on the current frame
pub struct InputState {
    /// The state of the mouse
    mouse: MouseState,
    /// The state of the keyboard: each key seen so far, by its number
    keys: HashMap<u32, KeyState>,
}

impl InputState {
    /// The state of every key seen so far.
    pub closed spec fn keys(&self) -> Map<Scancode, KeyState> {
        Map::new(
            |k: Scancode| self.keys@.contains_key(k.spec_key_index()),
            |k: Scancode| self.keys@[k.spec_key_index()],
        )
    }

    /// The state of the mouse.
    pub closed spec fn mouse(&self) -> MouseView {
        self.mouse@
    }

    /// The state of key `k`: not pressed unless seen.
    pub open spec fn spec_key_state(&self, k: Scancode) -> KeyState {
        if self.keys().contains_key(k) {
            self.keys()[k]
        } else {
            KeyState::NotPressed
        }
    }

    /// No key seen, mouse at rest at the origin.
    pub fn new() -> (r: InputState)
        ensures
            r.keys() == Map::<Scancode, KeyState>::empty(),
            r.mouse() == spec_resting_mouse(),
    {
        let r = InputState { mouse: MouseState::default(), keys: HashMap::new() };
        assert(r.keys() =~= Map::<Scancode, KeyState>::empty());
        r
    }

    /// updates the state for a new frame: the mouse takes the new state, a
    /// key pressed last frame is now held, a key released last frame is now
    /// not pressed, and every other key keeps its state.
    pub fn update(&mut self, mouse_state: MouseState)
        ensures
            final(self).mouse() == mouse_state@,
            final(self).keys() == Map::new(
                |k: Scancode| old(self).keys().contains_key(k),
                |k: Scancode| next_frame_key_state(old(self).keys()[k]),
            ),
    {
        broadcast use vstd::std_specs::hash::group_hash_axioms;

        let ghost old_map = self.keys@;
        let mut keys: HashMap<u32, KeyState> = HashMap::new();
        for (code, state) in it: self.keys.iter()
            invariant
                self.keys@ == old_map,
                it.seq() == spec_hash_map_iter(&self.keys).remaining(),
                forall|c: u32| #[trigger]
                    keys@.contains_key(c) ==> old_map.contains_key(c) && keys@[c]
                        == next_frame_key_state(old_map[c]),
                forall|j: int| 0 <= j < it.index() ==> keys@.contains_key(*(#[trigger] it.seq()[j]).0),
        {
            let new_state = match *state {
                KeyState::Down => KeyState::Hold,
                KeyState::Up => KeyState::NotPressed,
                a => a,
            };
            keys.insert(*code, new_state);
        }
        proof {
            let v = spec_hash_map_iter(&self.keys).remaining();
            assert forall|c: u32| old_map.contains_key(c) implies #[trigger] keys@.contains_key(c) by {
                assert(v.contains((&c, &old_map[c])));
                let j = choose|j: int| 0 <= j < v.len() && v[j] == (&c, &old_map[c]);
                assert(*v[j].0 == c);
            }
            let target = Map::new(
                |k: Scancode| old_map.contains_key(k.spec_key_index()),
                |k: Scancode| next_frame_key_state(old_map[k.spec_key_index()]),
            );
            assert(Map::new(
                |k: Scancode| keys@.contains_key(k.spec_key_index()),
                |k: Scancode| keys@[k.spec_key_index()],
            ) =~= target);
        }
        self.mouse = mouse_state;
        self.keys = keys;
    }

    /// Get the current state of a key
    pub fn key_state(&self, key: Scancode) -> (r: KeyState)
        ensures
            r == self.spec_key_state(key),
    {
        broadcast use vstd::std_specs::hash::group_hash_axioms;

        let code = key.key_index();
        match self.keys.get(&code) {
            Some(s) => *s,
            None => KeyState::NotPressed,
        }
    }

    /// Set the state of a key; every other key keeps its state.
    pub fn set_key_state(&mut self, key: Scancode, state: KeyState)
        ensures
            final(self).keys() == old(self).keys().insert(key, state),
            final(self).mouse() == old(self).mouse(),
    {
        broadcast use vstd::std_specs::hash::group_hash_axioms;

        let code = key.key_index();
        self.keys.insert(code, state);
        proof {
            assert forall|k: Scancode| k != key implies #[trigger] k.spec_key_index() != code by {
                lemma_key_index_injective(k, key);
            }
            assert(self.keys() =~= old(self).keys().insert(key, state));
        }
    }

    /// Is a key currently pressed down
    pub fn is_key_pressed(&self, key: Scancode) -> (r: bool)
        ensures
            r <==> (self.spec_key_state(key) == KeyState::Down || self.spec_key_state(key)
                == KeyState::Hold),
    {
        let key = self.key_state(key);
        if key == KeyState::Down || key == KeyState::Hold {
            true
        } else {
            false
        }
    }

    /// Get the current (x, y) position of the mouse
    pub fn mouse_position(&self) -> (r: (i32, i32))
        ensures
            r == (self.mouse().x, self.mouse().y),
    {
        (self.mouse.x, self.mouse.y)
    }

    /// Set the current mouse position this frame
    pub fn set_mouse_position(&mut self, x: i32, y: i32)
        ensures
            final(self).mouse() == (MouseView { x, y, ..old(self).mouse() }),
            final(self).keys() == old(self).keys(),
    {
        self.mouse.x = x;
        self.mouse.y = y;
    }

    /// Get the amount the mouse moved in the current frame
    pub fn mouse_delta(&self) -> (r: (i32, i32))
        ensures
            r == (self.mouse().delta_x, self.mouse().delta_y),
    {
        (self.mouse.delta_x, self.mouse.delta_y)
    }

    /// Set the amount the mouse moved in the current frame
    pub fn set_mouse_delta(&mut self, x: i32, y: i32)
        ensures
            final(self).mouse() == (MouseView { delta_x: x, delta_y: y, ..old(self).mouse() }),
            final(self).keys() == old(self).keys(),
    {
        self.mouse.delta_x = x;
        self.mouse.delta_y = y;
    }

    /// Get the cumulative scroll position of the mouse wheel
    /// result = (horizontal, vertical)
    pub fn wheel_position(&self) -> (r: (i32, i32))
        ensures
            r == (self.mouse().wheel_x, self.mouse().wheel_y),
    {
        (self.mouse.wheel_x, self.mouse.wheel_y)
    }

    /// Set the current mouse scroll position
    pub fn set_wheel_position(&mut self, x: i32, y: i32)
        ensures
            final(self).mouse() == (MouseView { wheel_x: x, wheel_y: y, ..old(self).mouse() }),
            final(self).keys() == old(self).keys(),
    {
        self.mouse.wheel_x = x;
        self.mouse.wheel_y = y;
    }

    /// Get how much the mouse wheel has moved in the current frame
    /// result = (horizontal, vertical)
    pub fn wheel_delta(&self) -> (r: (i32, i32))
        ensures
            r == (self.mouse().wheel_delta_x, self.mouse().wheel_delta_y),
    {
        (self.mouse.wheel_delta_x, self.mouse.wheel_delta_y)
    }

    /// Set the current frame's scroll wheel change; the wheel position is
    /// not changed.
    pub fn set_wheel_delta(&mut self, x: i32, y: i32)
        ensures
            final(self).mouse() == (MouseView {
                wheel_delta_x: x,
                wheel_delta_y: y,
                ..old(self).mouse()
            }),
            final(self).keys() == old(self).keys(),
    {
        self.mouse.wheel_delta_x = x;
        self.mouse.wheel_delta_y = y;
    }

    /// Is the left mouse button pressed
    pub fn mouse_left(&self) -> (r: bool)
        ensures
            r == self.mouse().left_button,
    {
        self.mouse.left_button
    }

    /// Set if the left mouse button is pressed
    pub fn set_mouse_left(&mut self, value: bool)
        ensures
            final(self).mouse() == (MouseView { left_button: value, ..old(self).mouse() }),
            final(self).keys() == old(self).keys(),
    {
        self.mouse.left_button = value;
    }

    /// Is the middle mouse button pressed
    pub fn mouse_middle(&self) -> (r: bool)
        ensures
            r == self.mouse().middle_button,
    {
        self.mouse.middle_button
    }

    /// Set if the middle mouse button is pressed
    pub fn set_mouse_middle(&mut self, value: bool)
        ensures
            final(self).mouse() == (MouseView { middle_button: value, ..old(self).mouse() }),
            final(self).keys() == old(self).keys(),
    {
        self.mouse.middle_button = value;
    }

    /// Is the right mouse button pressed
    pub fn mouse_right(&self) -> (r: bool)
        ensures
            r == self.mouse().right_button,
    {
        self.mouse.right_button
    }

    /// Set if the right mouse button is pressed
    pub fn set_mouse_right(&mut self, value: bool)
        ensures
            final(self).mouse() == (MouseView { right_button: value, ..old(self).mouse() }),
            final(self).keys() == old(self).keys(),
    {
        self.mouse.right_button = value;
    }

    /// Is the fourth mouse button pressed
    pub fn mouse_four(&self) -> (r: bool)
        ensures
            r == self.mouse().mouse_four,
    {
        self.mouse.mouse_four
    }

    /// Set if the fourth mouse button is pressed
    pub fn set_mouse_four(&mut self, value: bool)
        ensures
            final(self).mouse() == (MouseView { mouse_four: value, ..old(self).mouse() }),
            final(self).keys() == old(self).keys(),
    {
        self.mouse.mouse_four = value;
    }

    /// Is the fifth mouse button pressed
    pub fn mouse_five(&self) -> (r: bool)
        ensures
            r == self.mouse().mouse_five,
    {
        self.mouse.mouse_five
    }

    /// Set if the fifth mouse button is pressed
    pub fn set_mouse_five(&mut self, value: bool)
        ensures
            final(self).mouse() == (MouseView { mouse_five: value, ..old(self).mouse() }),
            final(self).keys() == old(self).keys(),
    {
        self.mouse.mouse_five = value;
    }
}

impl Default for InputState {
    /// No key seen, mouse at rest at the origin.
    fn default() -> (r: InputState)
        ensures
            r.keys() == Map::<Scancode, KeyState>::empty(),
            r.mouse() == spec_resting_mouse(),
    {
        InputState::new()
    }
}

} // verus!
