//! What a character is doing: the record that the controller writes and the
//! animation driver reads.

use vstd::prelude::*;

verus! {

/// The way a character faces.
#[derive(Copy, Clone, PartialEq, Eq, Debug, Structural)]
pub enum Direction {
    Down,
    Left,
    Right,
    Up,
}

/// The animation that a character plays.
#[derive(Copy, Clone, PartialEq, Eq, Debug, Structural)]
pub enum AnimationType {
    Idle,
    Walking,
    Acting,
}

/// The tool that a character has in hand.
#[derive(Copy, Clone, PartialEq, Eq, Debug, Structural)]
pub enum ToolAction {
    NoTool,
    Chop,
    Hoe,
    Water,
}

/// Facing direction, activity and tool of one character.
#[derive(Copy, Clone, PartialEq, Eq, Debug, Structural)]
pub struct AnimatedSprite {
    pub direction: Direction,
    pub state: AnimationType,
    pub action: ToolAction,
}

/// The place of a direction within a band of four sheet rows.
pub open spec fn direction_slot(direction: Direction) -> nat {
    match direction {
        Direction::Down => 0,
        Direction::Up => 1,
        Direction::Right => 2,
        Direction::Left => 3,
    }
}

/// The first sheet row of the band that holds an activity's animations.
/// Acting with no tool in hand has no band and falls back to the first one.
pub open spec fn band_start(state: AnimationType, action: ToolAction) -> nat {
    match state {
        AnimationType::Idle => 0,
        AnimationType::Walking => 4,
        AnimationType::Acting => match action {
            ToolAction::Hoe => 12,
            ToolAction::Chop => 16,
            ToolAction::Water => 20,
            ToolAction::NoTool => 0,
        },
    }
}

/// The sheet row that shows a character in the given condition.
pub open spec fn sheet_row(state: AnimationType, direction: Direction, action: ToolAction) -> nat {
    if state == AnimationType::Acting && action == ToolAction::NoTool {
        0
    } else {
        band_start(state, action) + direction_slot(direction)
    }
}

/// The number of rows that the sheet layout provides.
pub const SHEET_ROWS: usize = 24;

impl AnimatedSprite {
    /// The sheet row of this record.
    pub open spec fn row(self) -> nat {
        sheet_row(self.state, self.direction, self.action)
    }

    /// Looks up the sheet row for this record.
    pub fn row_index(&self) -> (row: usize)
        ensures
            row == self.row(),
            row < SHEET_ROWS,
    {
        match self.state {
            AnimationType::Idle => match self.direction {
                Direction::Down => 0,
                Direction::Up => 1,
                Direction::Right => 2,
                Direction::Left => 3,
            },
            AnimationType::Walking => match self.direction {
                Direction::Down => 4,
                Direction::Up => 5,
                Direction::Right => 6,
                Direction::Left => 7,
            },
            AnimationType::Acting => match self.action {
                ToolAction::Chop => match self.direction {
                    Direction::Down => 16,
                    Direction::Up => 17,
                    Direction::Right => 18,
                    Direction::Left => 19,
                },
                ToolAction::Hoe => match self.direction {
                    Direction::Down => 12,
                    Direction::Up => 13,
                    Direction::Right => 14,
                    Direction::Left => 15,
                },
                ToolAction::Water => match self.direction {
                    Direction::Down => 20,
                    Direction::Up => 21,
                    Direction::Right => 22,
                    Direction::Left => 23,
                },
                ToolAction::NoTool => 0,
            },
        }
    }
}

/// The row table of the sheet layout. Idle rows are 0 to 3 and walking rows 4
/// to 7, whatever the tool; hoeing takes rows 12 to 15, chopping 16 to 19 and
/// watering 20 to 23; each band runs down, up, right, left. Acting with no tool
/// in hand shows row 0 whatever the direction.
pub proof fn row_table(direction: Direction, action: ToolAction)
    ensures
        sheet_row(AnimationType::Idle, Direction::Down, action) == 0,
        sheet_row(AnimationType::Idle, Direction::Up, action) == 1,
        sheet_row(AnimationType::Idle, Direction::Right, action) == 2,
        sheet_row(AnimationType::Idle, Direction::Left, action) == 3,
        sheet_row(AnimationType::Walking, Direction::Down, action) == 4,
        sheet_row(AnimationType::Walking, Direction::Up, action) == 5,
        sheet_row(AnimationType::Walking, Direction::Right, action) == 6,
        sheet_row(AnimationType::Walking, Direction::Left, action) == 7,
        sheet_row(AnimationType::Acting, Direction::Down, ToolAction::Hoe) == 12,
        sheet_row(AnimationType::Acting, Direction::Up, ToolAction::Hoe) == 13,
        sheet_row(AnimationType::Acting, Direction::Right, ToolAction::Hoe) == 14,
        sheet_row(AnimationType::Acting, Direction::Left, ToolAction::Hoe) == 15,
        sheet_row(AnimationType::Acting, Direction::Down, ToolAction::Chop) == 16,
        sheet_row(AnimationType::Acting, Direction::Up, ToolAction::Chop) == 17,
        sheet_row(AnimationType::Acting, Direction::Right, ToolAction::Chop) == 18,
        sheet_row(AnimationType::Acting, Direction::Left, ToolAction::Chop) == 19,
        sheet_row(AnimationType::Acting, Direction::Down, ToolAction::Water) == 20,
        sheet_row(AnimationType::Acting, Direction::Up, ToolAction::Water) == 21,
        sheet_row(AnimationType::Acting, Direction::Right, ToolAction::Water) == 22,
        sheet_row(AnimationType::Acting, Direction::Left, ToolAction::Water) == 23,
        sheet_row(AnimationType::Acting, direction, ToolAction::NoTool) == 0,
        sheet_row(AnimationType::Idle, direction, action) < 4,
        4 <= sheet_row(AnimationType::Walking, direction, action) < 8,
{
}

} // verus!
