//! Pressed/released bookkeeping for the keys the application reads. The
//! window glue translates its event codes into [`KeyCode`] values and feeds
//! them in; the per-tick movement logic reads the stored states.

use vstd::prelude::*;

pub use KeyState::{Pressed, Released};

verus! {

/// State of each key.
#[derive(Clone, Copy, PartialEq, Eq, Structural, Debug)]
pub enum KeyState {
    Pressed,
    Released,
}

impl Default for KeyState {
    /// A key starts released.
    fn default() -> (r: Self)
        ensures
            r == KeyState::Released,
    {
        KeyState::Released
    }
}

impl KeyState {
    /// Whether the key is down.
    pub fn is_pressed(self) -> (r: bool)
        ensures
            r == (self is Pressed),
    {
        match self {
            KeyState::Pressed => true,
            KeyState::Released => false,
        }
    }

    /// Whether two key states differ (one pressed, the other released).
    pub fn differs(self, other: Self) -> (r: bool)
        ensures
            r == (self != other),
    {
        match (self, other) {
            (KeyState::Pressed, KeyState::Released) => true,
            (KeyState::Released, KeyState::Pressed) => true,
            _ => false,
        }
    }
}

/// The keys the application reacts to. The movement keys have their state
/// tracked; `Escape`, `Q` and `C` only trigger actions; anything else is
/// ignored.
#[derive(Clone, Copy, PartialEq, Eq, Structural, Debug)]
pub enum KeyCode {
    A,
    W,
    S,
    D,
    Space,
    LShift,
    LControl,
    Up,
    Down,
    Left,
    Right,
    Escape,
    Q,
    C,
    Other,
}

/// Information about each tracked key's pressed / not pressed state.
#[derive(Clone, Copy, PartialEq, Eq, Structural, Debug)]
pub struct Keys {
    pub a: KeyState,
    pub w: KeyState,
    pub s: KeyState,
    pub d: KeyState,
    pub space: KeyState,
    pub l_shift: KeyState,
    pub l_ctrl: KeyState,
    pub up_key: KeyState,
    pub down_key: KeyState,
    pub left_key: KeyState,
    pub right_key: KeyState,
}

/// The key table after one event: the named key takes the new state, every
/// other key keeps its own, and untracked keys change nothing.
pub open spec fn spec_keys_updated(keys: Keys, code: KeyCode, state: KeyState) -> Keys {
    match code {
        KeyCode::A => Keys { a: state, ..keys },
        KeyCode::W => Keys { w: state, ..keys },
        KeyCode::S => Keys { s: state, ..keys },
        KeyCode::D => Keys { d: state, ..keys },
        KeyCode::Space => Keys { space: state, ..keys },
        KeyCode::LShift => Keys { l_shift: state, ..keys },
        KeyCode::LControl => Keys { l_ctrl: state, ..keys },
        KeyCode::Up => Keys { up_key: state, ..keys },
        KeyCode::Down => Keys { down_key: state, ..keys },
        KeyCode::Left => Keys { left_key: state, ..keys },
        KeyCode::Right => Keys { right_key: state, ..keys },
        KeyCode::Escape => keys,
        KeyCode::Q => keys,
        KeyCode::C => keys,
        KeyCode::Other => keys,
    }
}

impl Keys {
    /// A fresh table with every key released.
    pub fn new() -> (r: Self)
        ensures
            r == (Keys {
                a: KeyState::Released,
                w: KeyState::Released,
                s: KeyState::Released,
                d: KeyState::Released,
                space: KeyState::Released,
                l_shift: KeyState::Released,
                l_ctrl: KeyState::Released,
                up_key: KeyState::Released,
                down_key: KeyState::Released,
                left_key: KeyState::Released,
                right_key: KeyState::Released,
            }),
    {
        Keys {
            a: KeyState::Released,
            w: KeyState::Released,
            s: KeyState::Released,
            d: KeyState::Released,
            space: KeyState::Released,
            l_shift: KeyState::Released,
            l_ctrl: KeyState::Released,
            up_key: KeyState::Released,
            down_key: KeyState::Released,
            left_key: KeyState::Released,
            right_key: KeyState::Released,
        }
    }

    /// Records one key event.
    pub fn update_from_event(&mut self, code: KeyCode, state: KeyState)
        ensures
            *final (self) == spec_keys_updated(*old(self), code, state),
    {
        match code {
            KeyCode::A => self.a = state,
            KeyCode::W => self.w = state,
            KeyCode::S => self.s = state,
            KeyCode::D => self.d = state,
            KeyCode::Space => self.space = state,
            KeyCode::LShift => self.l_shift = state,
            KeyCode::LControl => self.l_ctrl = state,
            KeyCode::Up => self.up_key = state,
            KeyCode::Down => self.down_key = state,
            KeyCode::Left => self.left_key = state,
            KeyCode::Right => self.right_key = state,
            KeyCode::Escape => {},
            KeyCode::Q => {},
            KeyCode::C => {},
            KeyCode::Other => {},
        }
    }

    /// The per-tick movement the held keys ask for, one signed unit per
    /// axis: `lateral` is negative towards the left, `forward` positive
    /// forwards, `vertical` positive upwards; opposed or idle pairs cancel.
    pub fn movement_intent(&self) -> (r: MovementIntent)
        ensures
            r == spec_movement_intent(*self),
    {
        let lateral: i8 = if self.a.differs(self.d) {
            if self.a.is_pressed() {
                -1
            } else {
                1
            }
        } else {
            0
        };
        let forward: i8 = if self.w.differs(self.s) {
            if self.w.is_pressed() {
                1
            } else {
                -1
            }
        } else {
            0
        };
        let vertical: i8 = if self.space.differs(self.l_shift) {
            if self.space.is_pressed() {
                1
            } else {
                -1
            }
        } else {
            0
        };
        MovementIntent { lateral, forward, vertical }
    }
}

/// Camera movement for one tick, one signed unit per axis.
#[derive(Clone, Copy, PartialEq, Eq, Structural, Debug)]
pub struct MovementIntent {
    pub lateral: i8,
    pub forward: i8,
    pub vertical: i8,
}

/// The movement the held keys ask for: each axis is driven by a key pair
/// and moves only while exactly one of the two is down.
pub open spec fn spec_movement_intent(keys: Keys) -> MovementIntent {
    MovementIntent {
        lateral: if keys.a != keys.d {
            if keys.a is Pressed {
                -1i8
            } else {
                1i8
            }
        } else {
            0i8
        },
        forward: if keys.w != keys.s {
            if keys.w is Pressed {
                1i8
            } else {
                -1i8
            }
        } else {
            0i8
        },
        vertical: if keys.space != keys.l_shift {
            if keys.space is Pressed {
                1i8
            } else {
                -1i8
            }
        } else {
            0i8
        },
    }
}

/// What the application does in response to one key event, beyond updating
/// the key table.
#[derive(Clone, Copy, PartialEq, Eq, Structural, Debug)]
pub enum AppAction {
    /// Escape pressed: leave the application.
    Exit,
    /// A dynamic object is added; the configured maximum still has room.
    SpawnDynamicObject,
    /// A dynamic object was asked for but the maximum is reached.
    SpawnRefused,
    /// Cursor grabbing is toggled.
    ToggleCursorGrab,
    /// The camera switches to its fast speed while the modifier is held.
    SetFastCameraSpeed,
    /// The camera returns to its normal speed.
    SetNormalCameraSpeed,
    /// The event asks for nothing further.
    NoAction,
}

/// The action one key event triggers, given how many dynamic objects exist
/// and how many the tiers were sized for.
pub open spec fn spec_key_event_action(
    code: KeyCode,
    state: KeyState,
    dynamic_count: u64,
    max_dynamic: u64,
) -> AppAction {
    match (code, state) {
        (KeyCode::Escape, KeyState::Pressed) => AppAction::Exit,
        (KeyCode::Q, KeyState::Released) => if dynamic_count < max_dynamic {
            AppAction::SpawnDynamicObject
        } else {
            AppAction::SpawnRefused
        },
        (KeyCode::C, KeyState::Pressed) => AppAction::ToggleCursorGrab,
        (KeyCode::LControl, KeyState::Pressed) => AppAction::SetFastCameraSpeed,
        (KeyCode::LControl, KeyState::Released) => AppAction::SetNormalCameraSpeed,
        _ => AppAction::NoAction,
    }
}

/// Decides what one key event triggers. Spawning is granted only while the
/// dynamic-object count is below the configured maximum, so the tiers are
/// never asked for more instances than they were sized for.
pub fn key_event_action(
    code: KeyCode,
    state: KeyState,
    dynamic_count: u64,
    max_dynamic: u64,
) -> (r: AppAction)
    ensures
        r == spec_key_event_action(code, state, dynamic_count, max_dynamic),
{
    match (code, state) {
        (KeyCode::Escape, KeyState::Pressed) => AppAction::Exit,
        (KeyCode::Q, KeyState::Released) => {
            if dynamic_count < max_dynamic {
                AppAction::SpawnDynamicObject
            } else {
                AppAction::SpawnRefused
            }
        },
        (KeyCode::C, KeyState::Pressed) => AppAction::ToggleCursorGrab,
        (KeyCode::LControl, KeyState::Pressed) => AppAction::SetFastCameraSpeed,
        (KeyCode::LControl, KeyState::Released) => AppAction::SetNormalCameraSpeed,
        _ => AppAction::NoAction,
    }
}

} // verus!
