//! The intent side of the camera controllers. Input events only change the
//! intent held here; a camera's update reads it, and drains the one-shot parts
//! (an eye reset, a pending rotation), so that update alone moves the pose.

use vstd::prelude::*;

verus! {

/// Whether a key went down or up.
#[derive(Clone, Copy, Debug, PartialEq, Eq, Structural)]
pub enum KeyState {
    Pressed,
    Released,
}

/// The keys that the controllers read; every other key is `Other`.
#[derive(Clone, Copy, Debug, PartialEq, Eq, Structural)]
pub enum Key {
    W,
    A,
    S,
    D,
    Up,
    Down,
    Left,
    Right,
    Space,
    LControl,
    LShift,
    R,
    Other,
}

/// A direction of movement that a held key asks for.
#[derive(Clone, Copy, Debug, PartialEq, Eq, Structural)]
pub enum Movement {
    Forward,
    Backward,
    Left,
    Right,
    Up,
    Down,
}

/// Which key moves the orbit camera in which direction.
pub open spec fn orbit_binding(key: Key) -> Option<Movement> {
    match key {
        Key::W | Key::Up => Some(Movement::Forward),
        Key::A | Key::Left => Some(Movement::Left),
        Key::S | Key::Down => Some(Movement::Backward),
        Key::D | Key::Right => Some(Movement::Right),
        Key::Space => Some(Movement::Up),
        Key::LControl => Some(Movement::Down),
        _ => None,
    }
}

/// Which key moves the first-person camera in which direction.
pub open spec fn fps_binding(key: Key) -> Option<Movement> {
    match key {
        Key::W | Key::Up => Some(Movement::Forward),
        Key::S | Key::Down => Some(Movement::Backward),
        Key::A | Key::Left => Some(Movement::Left),
        Key::D | Key::Right => Some(Movement::Right),
        Key::Space => Some(Movement::Up),
        Key::LShift => Some(Movement::Down),
        _ => None,
    }
}

pub fn orbit_movement_for(key: Key) -> (r: Option<Movement>)
    ensures
        r == orbit_binding(key),
{
    match key {
        Key::W | Key::Up => Some(Movement::Forward),
        Key::A | Key::Left => Some(Movement::Left),
        Key::S | Key::Down => Some(Movement::Backward),
        Key::D | Key::Right => Some(Movement::Right),
        Key::Space => Some(Movement::Up),
        Key::LControl => Some(Movement::Down),
        _ => None,
    }
}

pub fn fps_movement_for(key: Key) -> (r: Option<Movement>)
    ensures
        r == fps_binding(key),
{
    match key {
        Key::W | Key::Up => Some(Movement::Forward),
        Key::S | Key::Down => Some(Movement::Backward),
        Key::A | Key::Left => Some(Movement::Left),
        Key::D | Key::Right => Some(Movement::Right),
        Key::Space => Some(Movement::Up),
        Key::LShift => Some(Movement::Down),
        _ => None,
    }
}

/// Which movement keys are held.
#[derive(Clone, Copy, Debug, PartialEq, Eq, Structural)]
pub struct MovementKeys {
    pub forward: bool,
    pub backward: bool,
    pub left: bool,
    pub right: bool,
    pub up: bool,
    pub down: bool,
}

impl MovementKeys {
    pub open spec fn held(self, m: Movement) -> bool {
        match m {
            Movement::Forward => self.forward,
            Movement::Backward => self.backward,
            Movement::Left => self.left,
            Movement::Right => self.right,
            Movement::Up => self.up,
            Movement::Down => self.down,
        }
    }

    /// `self` with movement `m` held or not as `pressed` says.
    pub open spec fn with(self, m: Movement, pressed: bool) -> MovementKeys {
        match m {
            Movement::Forward => MovementKeys { forward: pressed, ..self },
            Movement::Backward => MovementKeys { backward: pressed, ..self },
            Movement::Left => MovementKeys { left: pressed, ..self },
            Movement::Right => MovementKeys { right: pressed, ..self },
            Movement::Up => MovementKeys { up: pressed, ..self },
            Movement::Down => MovementKeys { down: pressed, ..self },
        }
    }

    /// One for held, zero for not.
    pub open spec fn amount(self, m: Movement) -> int {
        if self.held(m) {
            1
        } else {
            0
        }
    }

    /// No key held.
    pub fn none() -> (r: Self)
        ensures
            forall|m: Movement| !r.held(m),
    {
        MovementKeys { forward: false, backward: false, left: false, right: false, up: false, down: false }
    }

    pub fn set(&mut self, m: Movement, pressed: bool)
        ensures
            *final(self) == old(self).with(m, pressed),
    {
        match m {
            Movement::Forward => self.forward = pressed,
            Movement::Backward => self.backward = pressed,
            Movement::Left => self.left = pressed,
            Movement::Right => self.right = pressed,
            Movement::Up => self.up = pressed,
            Movement::Down => self.down = pressed,
        }
    }

    fn amount_of(&self, m: Movement) -> (r: i8)
        ensures
            r == self.amount(m),
    {
        match m {
            Movement::Forward => if self.forward { 1 } else { 0 },
            Movement::Backward => if self.backward { 1 } else { 0 },
            Movement::Left => if self.left { 1 } else { 0 },
            Movement::Right => if self.right { 1 } else { 0 },
            Movement::Up => if self.up { 1 } else { 0 },
            Movement::Down => if self.down { 1 } else { 0 },
        }
    }

    /// Net movement along forward: 1, 0 or -1.
    pub fn forward_axis(&self) -> (r: i8)
        ensures
            r == self.amount(Movement::Forward) - self.amount(Movement::Backward),
    {
        self.amount_of(Movement::Forward) - self.amount_of(Movement::Backward)
    }

    /// Net movement along right: 1, 0 or -1.
    pub fn right_axis(&self) -> (r: i8)
        ensures
            r == self.amount(Movement::Right) - self.amount(Movement::Left),
    {
        self.amount_of(Movement::Right) - self.amount_of(Movement::Left)
    }

    /// Net movement along up: 1, 0 or -1.
    pub fn vertical_axis(&self) -> (r: i8)
        ensures
            r == self.amount(Movement::Up) - self.amount(Movement::Down),
    {
        self.amount_of(Movement::Up) - self.amount_of(Movement::Down)
    }
}

/// Intent of the orbit camera: the held keys, and whether the eye is to go
/// back to its starting place at the next update.
#[derive(Clone, Copy, Debug, PartialEq, Eq, Structural)]
pub struct OrbitControls {
    pub keys: MovementKeys,
    pub reset_requested: bool,
}

impl OrbitControls {
    /// What a key event does to the intent: a movement key sets its flag, `R`
    /// (down or up) asks for an eye reset, any other key changes nothing.
    pub open spec fn after_key(self, key: Key, state: KeyState) -> OrbitControls {
        match orbit_binding(key) {
            Some(m) => OrbitControls { keys: self.keys.with(m, state == KeyState::Pressed), ..self },
            None => if key == Key::R {
                OrbitControls { reset_requested: true, ..self }
            } else {
                self
            },
        }
    }

    pub fn new() -> (r: Self)
        ensures
            forall|m: Movement| !r.keys.held(m),
            !r.reset_requested,
    {
        OrbitControls { keys: MovementKeys::none(), reset_requested: false }
    }

    pub fn input(&mut self, key: Key, state: KeyState)
        ensures
            *final(self) == old(self).after_key(key, state),
    {
        match orbit_movement_for(key) {
            Some(m) => self.keys.set(m, state == KeyState::Pressed),
            None => {
                if key == Key::R {
                    self.reset_requested = true;
                }
            },
        }
    }

    /// Read and clear the reset request; the held keys stay.
    pub fn take_reset(&mut self) -> (r: bool)
        ensures
            r == old(self).reset_requested,
            *final(self) == (OrbitControls { reset_requested: false, ..*old(self) }),
    {
        let r = self.reset_requested;
        self.reset_requested = false;
        r
    }
}

/// Intent of the first-person camera: the held keys, and the sum of the
/// rotation deltas of the mouse moves that no update has applied yet.
pub struct FpsControls<D> {
    pub keys: MovementKeys,
    pub rotation: Option<D>,
}

impl<D> FpsControls<D> {
    /// What a key event does to the intent: a movement key sets its flag, any
    /// other key changes nothing.
    pub open spec fn after_key(self, key: Key, state: KeyState) -> FpsControls<D> {
        match fps_binding(key) {
            Some(m) => FpsControls { keys: self.keys.with(m, state == KeyState::Pressed), ..self },
            None => self,
        }
    }

    /// The intent once an update has taken the pending rotation.
    pub open spec fn drained(self) -> FpsControls<D> {
        FpsControls { rotation: None, ..self }
    }

    pub fn new() -> (r: Self)
        ensures
            forall|m: Movement| !r.keys.held(m),
            r.rotation is None,
    {
        FpsControls { keys: MovementKeys::none(), rotation: None }
    }

    pub fn key_input(&mut self, key: Key, state: KeyState)
        ensures
            *final(self) == old(self).after_key(key, state),
    {
        match fps_movement_for(key) {
            Some(m) => self.keys.set(m, state == KeyState::Pressed),
            None => {},
        }
    }

    /// A mouse move: its delta is added to the one pending, so that repeated
    /// moves before an update sum; `combine` is the addition of two deltas.
    pub fn mouse_move<F: Fn(D, D) -> D>(&mut self, delta: D, combine: F)
        requires
            forall|a: D, b: D| combine.requires((a, b)),
        ensures
            final(self).keys == old(self).keys,
            old(self).rotation is None ==> final(self).rotation == Some(delta),
            old(self).rotation is Some ==> {
                &&& final(self).rotation is Some
                &&& combine.ensures((old(self).rotation->0, delta), final(self).rotation->0)
            },
    {
        match self.rotation.take() {
            None => {
                self.rotation = Some(delta);
            },
            Some(pending) => {
                let sum = combine(pending, delta);
                self.rotation = Some(sum);
            },
        }
    }

    /// Take the pending rotation for this update and leave none behind.
    pub fn take_rotation(&mut self) -> (r: Option<D>)
        ensures
            r == old(self).rotation,
            *final(self) == old(self).drained(),
    {
        let r = self.rotation.take();
        r
    }
}

/// An update that follows another with no input between them finds no
/// rotation to apply, and leaves the intent as it was.
pub proof fn lemma_second_update_rotates_nothing<D>(c: FpsControls<D>)
    ensures
        c.drained().rotation is None,
        c.drained().drained() == c.drained(),
{
}

} // verus!
