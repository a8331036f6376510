//! The input and motion controller: from the keys held in one frame to the
//! character's tool, activity and facing, and the direction in which to move.
//!
//! Tools are selected first and stay selected while the character walks or
//! acts. Holding the act key with a tool in hand makes the character act, and
//! an acting character does not move. An idle character puts its tool away.

use vstd::prelude::*;
use crate::sprite::{AnimatedSprite, AnimationType, Direction, ToolAction};

verus! {

/// The keys as the host sees them in one frame.
#[derive(Copy, Clone, PartialEq, Eq, Debug, Structural)]
pub struct InputSnapshot {
    /// "Move up" is held.
    pub up: bool,
    /// "Move down" is held.
    pub down: bool,
    /// "Move left" is held.
    pub left: bool,
    /// "Move right" is held.
    pub right: bool,
    /// "Select the axe" went down in this frame.
    pub select_chop: bool,
    /// "Select the hoe" went down in this frame.
    pub select_hoe: bool,
    /// "Select the watering can" went down in this frame.
    pub select_water: bool,
    /// "Put the tool away" went down in this frame.
    pub select_none: bool,
    /// "Act" is held.
    pub act: bool,
}

/// A direction of movement on the grid of the four movement keys: each
/// component is -1, 0 or 1 when it comes from the keys.
#[derive(Copy, Clone, PartialEq, Eq, Debug, Structural)]
pub struct MoveVector {
    /// Rightwards.
    pub x: i8,
    /// Upwards.
    pub y: i8,
}

/// What one movement key adds along its axis: one step if it is held.
pub open spec fn unit(pressed: bool) -> int {
    if pressed {
        1
    } else {
        0
    }
}

/// The horizontal sum of the held keys: right counts 1 and left -1.
pub open spec fn net_x(input: InputSnapshot) -> int {
    unit(input.right) - unit(input.left)
}

/// The vertical sum of the held keys: up counts 1 and down -1.
pub open spec fn net_y(input: InputSnapshot) -> int {
    unit(input.up) - unit(input.down)
}

/// The facing that a movement calls for: up before down before right before
/// left, and the present facing where nothing moves.
pub open spec fn facing_toward(x: int, y: int, current: Direction) -> Direction {
    if y > 0 {
        Direction::Up
    } else if y < 0 {
        Direction::Down
    } else if x > 0 {
        Direction::Right
    } else if x < 0 {
        Direction::Left
    } else {
        current
    }
}

/// The tool in hand once the selection keys of this frame are seen. The first
/// key that went down wins, in the order axe, hoe, watering can, put away.
pub open spec fn selected_tool(current: ToolAction, input: InputSnapshot) -> ToolAction {
    if input.select_chop {
        ToolAction::Chop
    } else if input.select_hoe {
        ToolAction::Hoe
    } else if input.select_water {
        ToolAction::Water
    } else if input.select_none {
        ToolAction::NoTool
    } else {
        current
    }
}

/// Whether the character acts in this frame: the act key is held and, the
/// selection keys seen, a tool is in hand.
pub open spec fn acts(current: ToolAction, input: InputSnapshot) -> bool {
    input.act && selected_tool(current, input) != ToolAction::NoTool
}

/// Whether the movement keys, opposing ones cancelled, leave a direction.
pub open spec fn moves(input: InputSnapshot) -> bool {
    net_x(input) != 0 || net_y(input) != 0
}

/// The record after one frame of input.
pub open spec fn controlled(animated: AnimatedSprite, input: InputSnapshot) -> AnimatedSprite {
    if acts(animated.action, input) {
        AnimatedSprite {
            direction: animated.direction,
            state: AnimationType::Acting,
            action: selected_tool(animated.action, input),
        }
    } else if moves(input) {
        AnimatedSprite {
            direction: facing_toward(net_x(input), net_y(input), animated.direction),
            state: AnimationType::Walking,
            action: selected_tool(animated.action, input),
        }
    } else {
        AnimatedSprite {
            direction: animated.direction,
            state: AnimationType::Idle,
            action: ToolAction::NoTool,
        }
    }
}

/// The direction in which the character is to be moved in this frame: that
/// of the keys, and none while it acts.
pub open spec fn travel(animated: AnimatedSprite, input: InputSnapshot) -> (int, int) {
    if acts(animated.action, input) {
        (0, 0)
    } else {
        (net_x(input), net_y(input))
    }
}

/// The keys with none held and none gone down.
pub open spec fn released_keys() -> InputSnapshot {
    InputSnapshot {
        up: false,
        down: false,
        left: false,
        right: false,
        select_chop: false,
        select_hoe: false,
        select_water: false,
        select_none: false,
        act: false,
    }
}

impl InputSnapshot {
    /// No key held and none gone down.
    pub fn released() -> (input: InputSnapshot)
        ensures
            input == released_keys(),
    {
        InputSnapshot {
            up: false,
            down: false,
            left: false,
            right: false,
            select_chop: false,
            select_hoe: false,
            select_water: false,
            select_none: false,
            act: false,
        }
    }

    /// Adds up the movement keys: each held key gives one step along its axis
    /// and opposing keys cancel.
    pub fn movement_vector(&self) -> (v: MoveVector)
        ensures
            v.x == net_x(*self),
            v.y == net_y(*self),
    {
        let mut x: i8 = 0;
        let mut y: i8 = 0;
        if self.up {
            y += 1;
        }
        if self.down {
            y -= 1;
        }
        if self.left {
            x -= 1;
        }
        if self.right {
            x += 1;
        }
        MoveVector { x, y }
    }
}

impl MoveVector {
    /// No movement.
    pub fn zero() -> (v: MoveVector)
        ensures
            v.x == 0,
            v.y == 0,
    {
        MoveVector { x: 0, y: 0 }
    }

    /// Whether this is no movement at all.
    pub fn is_zero(&self) -> (z: bool)
        ensures
            z == (self.x == 0 && self.y == 0),
    {
        self.x == 0 && self.y == 0
    }

    /// The facing that this movement calls for, given the present one.
    pub fn facing(&self, current: Direction) -> (direction: Direction)
        ensures
            direction == facing_toward(self.x as int, self.y as int, current),
    {
        if self.y > 0 {
            Direction::Up
        } else if self.y < 0 {
            Direction::Down
        } else if self.x > 0 {
            Direction::Right
        } else if self.x < 0 {
            Direction::Left
        } else {
            current
        }
    }
}

/// Runs the controller for one frame: selects the tool, then sets activity
/// and facing from the keys. Returns the direction in which the host is to
/// move the character, which is zero unless it walks.
pub fn handle_input(animated: &mut AnimatedSprite, input: &InputSnapshot) -> (movement: MoveVector)
    ensures
        *final(animated) == controlled(*old(animated), *input),
        (movement.x as int, movement.y as int) == travel(*old(animated), *input),
{
    if input.select_chop {
        animated.action = ToolAction::Chop;
    } else if input.select_hoe {
        animated.action = ToolAction::Hoe;
    } else if input.select_water {
        animated.action = ToolAction::Water;
    } else if input.select_none {
        animated.action = ToolAction::NoTool;
    }
    let direction = input.movement_vector();
    let is_moving = !direction.is_zero();
    let is_acting = input.act && animated.action != ToolAction::NoTool;
    if is_acting {
        animated.state = AnimationType::Acting;
        MoveVector::zero()
    } else if is_moving {
        animated.state = AnimationType::Walking;
        animated.direction = direction.facing(animated.direction);
        direction
    } else {
        animated.state = AnimationType::Idle;
        animated.action = ToolAction::NoTool;
        direction
    }
}

/// Opposing movement keys cancel: with both keys of an axis held, or neither,
/// nothing is left along it, and with one held the step is one in its
/// direction. Each component is the sum of what its two keys give.
pub proof fn opposing_keys_cancel(input: InputSnapshot)
    ensures
        input.up == input.down ==> net_y(input) == 0,
        input.left == input.right ==> net_x(input) == 0,
        input.up && !input.down ==> net_y(input) == 1,
        input.down && !input.up ==> net_y(input) == -1,
        input.right && !input.left ==> net_x(input) == 1,
        input.left && !input.right ==> net_x(input) == -1,
        net_x(input) == unit(input.right) + (-1) * unit(input.left),
        net_y(input) == unit(input.up) + (-1) * unit(input.down),
{
}

/// A movement that is not zero always decides the facing, whatever it was
/// before, and the vertical part decides before the horizontal one.
pub proof fn facing_follows_movement(x: int, y: int, a: Direction, b: Direction)
    requires
        x != 0 || y != 0,
    ensures
        facing_toward(x, y, a) == facing_toward(x, y, b),
        y > 0 ==> facing_toward(x, y, a) == Direction::Up,
        y < 0 ==> facing_toward(x, y, a) == Direction::Down,
        y == 0 && x > 0 ==> facing_toward(x, y, a) == Direction::Right,
        y == 0 && x < 0 ==> facing_toward(x, y, a) == Direction::Left,
{
}

} // verus!
