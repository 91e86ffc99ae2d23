//! Player input: the actions, the keys bound to them, and the bit set of
//! actions currently held.
use vstd::prelude::*;

use crate::shooter::gfx::IVec2;

verus! {

/// What the player can do.
#[derive(Clone, Copy, PartialEq, Eq, Structural, Debug)]
pub enum Action {
    Up,
    Down,
    Left,
    Right,
    Fire,
}

/// The bit position of an action in the input set, in declaration order.
pub open spec fn action_index(action: Action) -> u32 {
    match action {
        Action::Up => 0,
        Action::Down => 1,
        Action::Left => 2,
        Action::Right => 3,
        Action::Fire => 4,
    }
}

impl Action {
    /// The action's bit position in the input set.
    pub fn index(self) -> (r: u32)
        ensures
            r == action_index(self),
    {
        match self {
            Action::Up => 0,
            Action::Down => 1,
            Action::Left => 2,
            Action::Right => 3,
            Action::Fire => 4,
        }
    }
}

/// The physical keys the game listens to.
#[derive(Clone, Copy, PartialEq, Eq, Structural, Debug)]
pub enum KeyCode {
    KeyW,
    ArrowUp,
    KeyS,
    ArrowDown,
    KeyA,
    ArrowLeft,
    KeyD,
    ArrowRight,
    Space,
    /// Any other key.
    Other,
}

/// The action bound to a key: WASD and the arrows move, space fires.
pub fn bind_key(code: KeyCode) -> (r: Option<Action>)
    ensures
        r == match code {
            KeyCode::KeyW | KeyCode::ArrowUp => Some(Action::Up),
            KeyCode::KeyS | KeyCode::ArrowDown => Some(Action::Down),
            KeyCode::KeyA | KeyCode::ArrowLeft => Some(Action::Left),
            KeyCode::KeyD | KeyCode::ArrowRight => Some(Action::Right),
            KeyCode::Space => Some(Action::Fire),
            KeyCode::Other => None::<Action>,
        },
{
    match code {
        KeyCode::KeyW | KeyCode::ArrowUp => Some(Action::Up),
        KeyCode::KeyS | KeyCode::ArrowDown => Some(Action::Down),
        KeyCode::KeyA | KeyCode::ArrowLeft => Some(Action::Left),
        KeyCode::KeyD | KeyCode::ArrowRight => Some(Action::Right),
        KeyCode::Space => Some(Action::Fire),
        KeyCode::Other => None,
    }
}

/// Whether the input set holds `action`.
pub open spec fn holds(input: u32, action: Action) -> bool {
    input & (1u32 << action_index(action)) != 0
}

/// Whether the input set holds `action`.
pub fn has_action(input: u32, action: Action) -> (r: bool)
    ensures
        r == holds(input, action),
{
    input & (1u32 << action.index()) != 0
}

/// The input set after a key bound to `action` was pressed (`pressed`) or
/// released: the action's bit is set or cleared and no other bit changes.
pub fn set_action(input: u32, action: Action, pressed: bool) -> (r: u32)
    ensures
        r == if pressed {
            input | (1u32 << action_index(action))
        } else {
            input & !(1u32 << action_index(action))
        },
        holds(r, action) == pressed,
        forall|other: Action| other != action ==> holds(r, other) == holds(input, other),
{
    let bit: u32 = 1u32 << action.index();
    let r = if pressed {
        input | bit
    } else {
        input & !bit
    };
    proof {
        lemma_set_bit(input, action_index(action), pressed);
        assert forall|other: Action| other != action implies holds(r, other) == holds(
            input,
            other,
        ) by {
            lemma_other_bit(input, action_index(action), action_index(other), pressed);
        }
    }
    r
}

proof fn lemma_set_bit(input: u32, k: u32, pressed: bool)
    requires
        k < 5,
    ensures
        pressed ==> (input | (1u32 << k)) & (1u32 << k) != 0,
        !pressed ==> (input & !(1u32 << k)) & (1u32 << k) == 0,
{
    assert(k < 5 ==> (input | (1u32 << k)) & (1u32 << k) != 0) by (bit_vector);
    assert(k < 5 ==> (input & !(1u32 << k)) & (1u32 << k) == 0) by (bit_vector);
}

proof fn lemma_other_bit(input: u32, k: u32, j: u32, pressed: bool)
    requires
        k < 5,
        j < 5,
        k != j,
    ensures
        pressed ==> ((input | (1u32 << k)) & (1u32 << j) != 0) == (input & (1u32 << j) != 0),
        !pressed ==> ((input & !(1u32 << k)) & (1u32 << j) != 0) == (input & (1u32 << j) != 0),
{
    assert(k < 5 && j < 5 && k != j ==> (((input | (1u32 << k)) & (1u32 << j) != 0) == (input & (
    1u32 << j) != 0))) by (bit_vector);
    assert(k < 5 && j < 5 && k != j ==> (((input & !(1u32 << k)) & (1u32 << j) != 0) == (input & (
    1u32 << j) != 0))) by (bit_vector);
}

/// -1, 0 or 1 for a held direction pair.
pub open spec fn axis(neg: bool, pos: bool) -> int {
    (if pos { 1int } else { 0int }) - (if neg { 1int } else { 0int })
}

/// The direction the held movement actions add up to: each of up, down,
/// left and right contributes one unit step, so opposite actions cancel.
pub fn player_direction(input: u32) -> (d: IVec2)
    ensures
        d.x == axis(holds(input, Action::Left), holds(input, Action::Right)),
        d.y == axis(holds(input, Action::Up), holds(input, Action::Down)),
{
    let moves: [(Action, IVec2); 4] = [
        (Action::Up, IVec2 { x: 0, y: -1 }),
        (Action::Down, IVec2 { x: 0, y: 1 }),
        (Action::Left, IVec2 { x: -1, y: 0 }),
        (Action::Right, IVec2 { x: 1, y: 0 }),
    ];
    let mut acc = IVec2 { x: 0, y: 0 };
    let mut i: usize = 0;
    while i < 4
        invariant
            i <= 4,
            moves@ == seq![
                (Action::Up, IVec2 { x: 0, y: -1i32 }),
                (Action::Down, IVec2 { x: 0, y: 1 }),
                (Action::Left, IVec2 { x: -1i32, y: 0 }),
                (Action::Right, IVec2 { x: 1, y: 0 }),
            ],
            acc.x == (if i > 3 && holds(input, Action::Right) { 1int } else { 0int }) - (if i
                > 2 && holds(input, Action::Left) {
                1int
            } else {
                0int
            }),
            acc.y == (if i > 1 && holds(input, Action::Down) { 1int } else { 0int }) - (if i
                > 0 && holds(input, Action::Up) {
                1int
            } else {
                0int
            }),
        decreases 4 - i,
    {
        let (a, v) = moves[i];
        if has_action(input, a) {
            acc = IVec2 { x: acc.x + v.x, y: acc.y + v.y };
        }
        i = i + 1;
    }
    acc
}

} // verus!
