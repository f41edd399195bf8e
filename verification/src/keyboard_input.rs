//! Logical input actions and key bindings.
//!
//! A key map pairs platform key codes with actions; lookup returns the first
//! binding for a code. The held state of the whole action set is a plain
//! record, one flag per action, recording presses and releases.

use vstd::prelude::*;

verus! {

/// A logical action a key or button can be bound to.
#[derive(Clone, Copy, Debug, Hash, PartialEq, Eq, PartialOrd, Ord, Structural)]
pub enum Action {
    Forward,
    Backward,
    Left,
    Right,
    Jump,
    Attack,
}

/// Bindings from platform key codes to actions, in binding order.
pub type KeyMap = Vec<(u32, Action)>;

/// The first binding for `code` at or after position `i`.
pub open spec fn keymap_match_from(m: Seq<(u32, Action)>, code: u32, i: int) -> Option<Action>
    decreases m.len() - i,
{
    if i < 0 || i >= m.len() {
        None
    } else if m[i].0 == code {
        Some(m[i].1)
    } else {
        keymap_match_from(m, code, i + 1)
    }
}

/// The action `code` is bound to, if any: the first matching binding.
pub open spec fn keymap_action_of(m: Seq<(u32, Action)>, code: u32) -> Option<Action> {
    keymap_match_from(m, code, 0)
}

/// Look a key code up in a key map.
pub fn keymap_lookup(m: &KeyMap, code: u32) -> (r: Option<Action>)
    ensures
        r == keymap_action_of(m@, code),
{
    let mut i: usize = 0;
    while i < m.len()
        invariant
            i <= m@.len(),
            keymap_match_from(m@, code, 0) == keymap_match_from(m@, code, i as int),
        decreases m@.len() - i,
    {
        let (c, a) = m[i];
        if c == code {
            return Some(a);
        }
        i = i + 1;
    }
    None
}

/// The held state of every action: the press/release map over the closed
/// action set.
#[derive(Clone, Copy, Debug, PartialEq, Eq, Structural)]
pub struct ActionStates {
    pub forward: bool,
    pub backward: bool,
    pub left: bool,
    pub right: bool,
    pub jump: bool,
    pub attack: bool,
}

impl ActionStates {
    /// Whether `a` is currently held.
    pub open spec fn spec_get(self, a: Action) -> bool {
        match a {
            Action::Forward => self.forward,
            Action::Backward => self.backward,
            Action::Left => self.left,
            Action::Right => self.right,
            Action::Jump => self.jump,
            Action::Attack => self.attack,
        }
    }

    /// All actions released.
    pub fn new() -> (r: ActionStates)
        ensures
            forall|a: Action| !r.spec_get(a),
    {
        ActionStates {
            forward: false,
            backward: false,
            left: false,
            right: false,
            jump: false,
            attack: false,
        }
    }

    pub fn get(&self, a: Action) -> (r: bool)
        ensures
            r == self.spec_get(a),
    {
        match a {
            Action::Forward => self.forward,
            Action::Backward => self.backward,
            Action::Left => self.left,
            Action::Right => self.right,
            Action::Jump => self.jump,
            Action::Attack => self.attack,
        }
    }

    /// Record a press or release of `a`, leaving the other actions as they
    /// were.
    pub fn set(&mut self, a: Action, held: bool)
        ensures
            final(self).spec_get(a) == held,
            forall|b: Action| b != a ==> final(self).spec_get(b) == old(self).spec_get(b),
    {
        match a {
            Action::Forward => self.forward = held,
            Action::Backward => self.backward = held,
            Action::Left => self.left = held,
            Action::Right => self.right = held,
            Action::Jump => self.jump = held,
            Action::Attack => self.attack = held,
        }
    }
}

} // verus!
