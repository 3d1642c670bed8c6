//! Key bindings and movement intent: the set of held physical keys is
//! resolved, once per tick, into a small integer intent vector over the
//! body's semantic axes (+z forward, +x right, +y up).

use vstd::prelude::*;
use crate::vec3::Vec3i;

verus! {

/// The physical keys the controller distinguishes.
#[derive(Clone, Copy, PartialEq, Eq, Structural, Debug)]
pub enum Key {
    W,
    A,
    S,
    D,
    Q,
    E,
    C,
    M,
    ArrowUp,
    ArrowDown,
    ArrowLeft,
    ArrowRight,
    RightShift,
    RightControl,
}

/// The logical movement actions, one per semantic half-axis.
#[derive(Clone, Copy, PartialEq, Eq, Structural, Debug)]
pub enum MoveAction {
    Forward,
    Backward,
    Rightward,
    Leftward,
    Upward,
    Downward,
}

/// A dual binding: a primary and a secondary physical key for one action.
#[derive(Clone, Copy, PartialEq, Eq, Structural, Debug)]
pub struct KeyPair {
    pub primary: Key,
    pub secondary: Key,
}

/// Each movement action answers to two physical keys.
#[derive(Clone, Copy, PartialEq, Eq, Structural, Debug)]
pub struct KeyBindings {
    pub forward: KeyPair,
    pub backward: KeyPair,
    pub rightward: KeyPair,
    pub leftward: KeyPair,
    pub upward: KeyPair,
    pub downward: KeyPair,
}

impl KeyBindings {
    /// The two keys bound to an action.
    pub open spec fn pair_of(self, a: MoveAction) -> KeyPair {
        match a {
            MoveAction::Forward => self.forward,
            MoveAction::Backward => self.backward,
            MoveAction::Rightward => self.rightward,
            MoveAction::Leftward => self.leftward,
            MoveAction::Upward => self.upward,
            MoveAction::Downward => self.downward,
        }
    }

    /// Whether a key is bound to an action.
    pub open spec fn binds(self, a: MoveAction, k: Key) -> bool {
        self.pair_of(a).primary == k || self.pair_of(a).secondary == k
    }

    /// No key serves two different actions.
    pub open spec fn wf(self) -> bool {
        forall|a1: MoveAction, a2: MoveAction, k: Key|
            #[trigger] self.binds(a1, k) && #[trigger] self.binds(a2, k) ==> a1 == a2
    }

    /// The bindings the rig ships with: WASD plus the arrow keys, E/Q and
    /// right shift/control for vertical movement.
    pub fn standard() -> (b: KeyBindings)
        ensures
            b.forward == (KeyPair { primary: Key::W, secondary: Key::ArrowUp }),
            b.backward == (KeyPair { primary: Key::S, secondary: Key::ArrowDown }),
            b.rightward == (KeyPair { primary: Key::D, secondary: Key::ArrowRight }),
            b.leftward == (KeyPair { primary: Key::A, secondary: Key::ArrowLeft }),
            b.upward == (KeyPair { primary: Key::E, secondary: Key::RightShift }),
            b.downward == (KeyPair { primary: Key::Q, secondary: Key::RightControl }),
            b.wf(),
    {
        let b = KeyBindings {
            forward: KeyPair { primary: Key::W, secondary: Key::ArrowUp },
            backward: KeyPair { primary: Key::S, secondary: Key::ArrowDown },
            rightward: KeyPair { primary: Key::D, secondary: Key::ArrowRight },
            leftward: KeyPair { primary: Key::A, secondary: Key::ArrowLeft },
            upward: KeyPair { primary: Key::E, secondary: Key::RightShift },
            downward: KeyPair { primary: Key::Q, secondary: Key::RightControl },
        };
        proof {
            assert forall|a1: MoveAction, a2: MoveAction, k: Key|
                #[trigger] b.binds(a1, k) && #[trigger] b.binds(a2, k) implies a1 == a2 by {
            }
        }
        b
    }
}

/// Whether either key of a pair is held.
pub open spec fn held_any(held: Seq<Key>, pair: KeyPair) -> bool {
    held.contains(pair.primary) || held.contains(pair.secondary)
}

/// The intent along one axis: +1 for the positive action, -1 for the
/// negative one, 0 when neither or both are held — opposite keys cancel
/// exactly.
pub open spec fn axis_intent(held: Seq<Key>, pos: KeyPair, neg: KeyPair) -> int {
    (if held_any(held, pos) {
        1int
    } else {
        0int
    }) - (if held_any(held, neg) {
        1int
    } else {
        0int
    })
}

/// The full movement intent for a held-key set.
pub open spec fn intent_x(held: Seq<Key>, b: KeyBindings) -> int {
    axis_intent(held, b.rightward, b.leftward)
}

/// The full movement intent for a held-key set.
pub open spec fn intent_y(held: Seq<Key>, b: KeyBindings) -> int {
    axis_intent(held, b.upward, b.downward)
}

/// The full movement intent for a held-key set.
pub open spec fn intent_z(held: Seq<Key>, b: KeyBindings) -> int {
    axis_intent(held, b.forward, b.backward)
}

/// Movement cancellation law: while both the forward and the backward
/// bindings are held, the forward axis contributes exactly zero intent.
pub proof fn lemma_movement_cancellation(held: Seq<Key>, b: KeyBindings)
    requires
        held_any(held, b.forward),
        held_any(held, b.backward),
    ensures
        intent_z(held, b) == 0,
{
}

/// Dual-binding equivalence law: for a well-formed binding table, holding
/// only the primary key of an action produces exactly the same movement
/// intent as holding only its secondary key.
pub proof fn lemma_dual_binding_equivalence(b: KeyBindings, a: MoveAction)
    requires
        b.wf(),
    ensures
        intent_x(seq![b.pair_of(a).primary], b) == intent_x(seq![b.pair_of(a).secondary], b),
        intent_y(seq![b.pair_of(a).primary], b) == intent_y(seq![b.pair_of(a).secondary], b),
        intent_z(seq![b.pair_of(a).primary], b) == intent_z(seq![b.pair_of(a).secondary], b),
{
    let prim = seq![b.pair_of(a).primary];
    let sec = seq![b.pair_of(a).secondary];
    assert forall|a2: MoveAction| #[trigger]
        held_any(prim, b.pair_of(a2)) == held_any(sec, b.pair_of(a2)) by {
        assert(forall|k: Key| prim.contains(k) <==> k == b.pair_of(a).primary) by {
            assert(prim[0] == b.pair_of(a).primary);
        }
        assert(forall|k: Key| sec.contains(k) <==> k == b.pair_of(a).secondary) by {
            assert(sec[0] == b.pair_of(a).secondary);
        }
        if held_any(prim, b.pair_of(a2)) {
            assert(b.binds(a2, b.pair_of(a).primary));
            assert(b.binds(a, b.pair_of(a).primary));
            assert(a2 == a);
            assert(b.binds(a, b.pair_of(a).secondary));
        }
        if held_any(sec, b.pair_of(a2)) {
            assert(b.binds(a2, b.pair_of(a).secondary));
            assert(b.binds(a, b.pair_of(a).secondary));
            assert(a2 == a);
            assert(b.binds(a, b.pair_of(a).primary));
        }
    }
    assert(held_any(prim, b.pair_of(MoveAction::Forward)) == held_any(
        sec,
        b.pair_of(MoveAction::Forward),
    ));
    assert(held_any(prim, b.pair_of(MoveAction::Backward)) == held_any(
        sec,
        b.pair_of(MoveAction::Backward),
    ));
    assert(held_any(prim, b.pair_of(MoveAction::Rightward)) == held_any(
        sec,
        b.pair_of(MoveAction::Rightward),
    ));
    assert(held_any(prim, b.pair_of(MoveAction::Leftward)) == held_any(
        sec,
        b.pair_of(MoveAction::Leftward),
    ));
    assert(held_any(prim, b.pair_of(MoveAction::Upward)) == held_any(
        sec,
        b.pair_of(MoveAction::Upward),
    ));
    assert(held_any(prim, b.pair_of(MoveAction::Downward)) == held_any(
        sec,
        b.pair_of(MoveAction::Downward),
    ));
}

/// Whether a key is in the held set, executably.
pub fn key_held(held: &Vec<Key>, k: Key) -> (r: bool)
    ensures
        r == held@.contains(k),
{
    let mut i: usize = 0;
    while i < held.len()
        invariant
            i <= held@.len(),
            forall|j: int| 0 <= j < i ==> held@[j] != k,
        decreases held@.len() - i,
    {
        if held[i] == k {
            return true;
        }
        i = i + 1;
    }
    false
}

/// Whether either key bound to an action is held, executably.
pub fn action_held(held: &Vec<Key>, pair: KeyPair) -> (r: bool)
    ensures
        r == held_any(held@, pair),
{
    key_held(held, pair.primary) || key_held(held, pair.secondary)
}

/// The per-tick resolution of held keys into a movement-intent vector.
pub fn movement_intent(held: &Vec<Key>, b: &KeyBindings) -> (v: Vec3i)
    ensures
        v.x == intent_x(held@, *b),
        v.y == intent_y(held@, *b),
        v.z == intent_z(held@, *b),
        v.bounded(1),
{
    let mut v = Vec3i::zero();
    if action_held(held, b.forward) {
        v.z = v.z + 1;
    }
    if action_held(held, b.backward) {
        v.z = v.z - 1;
    }
    if action_held(held, b.rightward) {
        v.x = v.x + 1;
    }
    if action_held(held, b.leftward) {
        v.x = v.x - 1;
    }
    if action_held(held, b.upward) {
        v.y = v.y + 1;
    }
    if action_held(held, b.downward) {
        v.y = v.y - 1;
    }
    v
}

} // verus!
