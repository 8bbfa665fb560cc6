//! Which keys move what: the arrow keys move the world origin, W, A, S and D
//! move the first box, or the second one while shift is held.
use vstd::prelude::*;

verus! {

/// The keys that are down during a frame.
#[derive(Clone, Copy, Debug, PartialEq, Eq, Structural)]
pub struct Keys {
    pub up: bool,
    pub down: bool,
    pub left: bool,
    pub right: bool,
    pub w: bool,
    pub a: bool,
    pub s: bool,
    pub d: bool,
    pub shift: bool,
}

/// The unit moves that one object makes during a frame, applied in the order
/// up, down, left, right.
#[derive(Clone, Copy, Debug, PartialEq, Eq, Structural)]
pub struct Moves {
    pub up: bool,
    pub down: bool,
    pub left: bool,
    pub right: bool,
}

/// The moves of the world origin and of the two boxes during a frame.
#[derive(Clone, Copy, Debug, PartialEq, Eq, Structural)]
pub struct FrameMoves {
    pub origin: Moves,
    pub first_box: Moves,
    pub second_box: Moves,
}

/// The moves that the given keys call for.
pub open spec fn frame_moves_spec(k: Keys) -> FrameMoves {
    FrameMoves {
        origin: Moves { up: k.up, down: k.down, left: k.left, right: k.right },
        first_box: Moves { up: k.w && !k.shift, down: k.s && !k.shift, left: k.a && !k.shift, right: k.d && !k.shift },
        second_box: Moves { up: k.w && k.shift, down: k.s && k.shift, left: k.a && k.shift, right: k.d && k.shift },
    }
}

/// The moves of a frame. Each of W, A, S and D that is down moves exactly one
/// of the two boxes, the first without shift and the second with it; a key
/// that is up moves neither.
pub fn frame_moves(keys: &Keys) -> (m: FrameMoves)
    ensures
        m == frame_moves_spec(*keys),
        m.origin.up == keys.up,
        m.origin.down == keys.down,
        m.origin.left == keys.left,
        m.origin.right == keys.right,
        m.first_box.up == (keys.w && !keys.shift),
        m.first_box.down == (keys.s && !keys.shift),
        m.first_box.left == (keys.a && !keys.shift),
        m.first_box.right == (keys.d && !keys.shift),
        m.second_box.up == (keys.w && keys.shift),
        m.second_box.down == (keys.s && keys.shift),
        m.second_box.left == (keys.a && keys.shift),
        m.second_box.right == (keys.d && keys.shift),
        m.first_box.up != m.second_box.up || !keys.w,
        m.first_box.down != m.second_box.down || !keys.s,
        m.first_box.left != m.second_box.left || !keys.a,
        m.first_box.right != m.second_box.right || !keys.d,
        keys.w == (m.first_box.up || m.second_box.up),
        keys.s == (m.first_box.down || m.second_box.down),
        keys.a == (m.first_box.left || m.second_box.left),
        keys.d == (m.first_box.right || m.second_box.right),
{
    let shift = keys.shift;
    FrameMoves {
        origin: Moves { up: keys.up, down: keys.down, left: keys.left, right: keys.right },
        first_box: Moves {
            up: keys.w && !shift,
            down: keys.s && !shift,
            left: keys.a && !shift,
            right: keys.d && !shift,
        },
        second_box: Moves {
            up: keys.w && shift,
            down: keys.s && shift,
            left: keys.a && shift,
            right: keys.d && shift,
        },
    }
}

/// The world origin moves exactly along the arrow keys that are down,
/// whatever the letter keys and shift: changing only the letters or shift
/// leaves its moves as they were.
pub proof fn lemma_origin_follows_arrows(k: Keys, other: Keys)
    requires
        other.up == k.up,
        other.down == k.down,
        other.left == k.left,
        other.right == k.right,
    ensures
        frame_moves_spec(k).origin == frame_moves_spec(other).origin,
        frame_moves_spec(k).origin.up == k.up,
        frame_moves_spec(k).origin.down == k.down,
        frame_moves_spec(k).origin.left == k.left,
        frame_moves_spec(k).origin.right == k.right,
{
}

/// Without shift the letter keys move the first box and leave the second
/// still; the arrow keys never move either box.
pub proof fn lemma_letters_without_shift_move_first_box(k: Keys)
    requires
        !k.shift,
    ensures
        frame_moves_spec(k).first_box.up == k.w,
        frame_moves_spec(k).first_box.down == k.s,
        frame_moves_spec(k).first_box.left == k.a,
        frame_moves_spec(k).first_box.right == k.d,
        frame_moves_spec(k).second_box == (Moves { up: false, down: false, left: false, right: false }),
{
}

/// With shift held the letter keys move the second box and leave the first
/// still.
pub proof fn lemma_letters_with_shift_move_second_box(k: Keys)
    requires
        k.shift,
    ensures
        frame_moves_spec(k).second_box.up == k.w,
        frame_moves_spec(k).second_box.down == k.s,
        frame_moves_spec(k).second_box.left == k.a,
        frame_moves_spec(k).second_box.right == k.d,
        frame_moves_spec(k).first_box == (Moves { up: false, down: false, left: false, right: false }),
{
}

/// The boxes' moves depend on the letter keys and shift alone: changing only
/// the arrow keys leaves them as they were.
pub proof fn lemma_boxes_ignore_arrows(k: Keys, other: Keys)
    requires
        other.w == k.w,
        other.a == k.a,
        other.s == k.s,
        other.d == k.d,
        other.shift == k.shift,
    ensures
        frame_moves_spec(k).first_box == frame_moves_spec(other).first_box,
        frame_moves_spec(k).second_box == frame_moves_spec(other).second_box,
{
}

} // verus!
