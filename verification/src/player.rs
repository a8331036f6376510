//! One playable character and its frame: the controller first, then the
//! animation driver.

use vstd::prelude::*;
use crate::animation::{
    execute_animations, next_index_wraps, shown, shown_after, ticks_accumulate, timer_cadence,
    AnimationConfig, AnimationModel,
};
use crate::input::{controlled, handle_input, released_keys, travel, InputSnapshot, MoveVector};
use crate::sprite::{direction_slot, AnimatedSprite, AnimationType, Direction, ToolAction};

verus! {

/// Columns in a row of the character sheet.
pub const SHEET_COLUMNS: usize = 8;

/// Frames of the character's animations shown per second.
pub const FRAME_RATE: u8 = 10;

/// A playable character: its record, its animation timer and the atlas index
/// of its sprite, if the sprite has an atlas.
#[derive(Copy, Clone, Debug)]
pub struct Player {
    pub animated: AnimatedSprite,
    pub config: AnimationConfig,
    pub atlas_index: Option<usize>,
}

/// The mathematical content of a [`Player`].
pub struct PlayerModel {
    pub animated: AnimatedSprite,
    pub timer: AnimationModel,
    pub atlas_index: Option<nat>,
}

impl View for Player {
    type V = PlayerModel;

    open spec fn view(&self) -> PlayerModel {
        PlayerModel {
            animated: self.animated,
            timer: self.config@,
            atlas_index: shown(self.atlas_index),
        }
    }
}

impl PlayerModel {
    /// The character as it is spawned: facing down, idle, no tool in hand,
    /// on the first frame of the sheet, with a fresh timer.
    pub open spec fn spawned() -> PlayerModel {
        PlayerModel {
            animated: AnimatedSprite {
                direction: Direction::Down,
                state: AnimationType::Idle,
                action: ToolAction::NoTool,
            },
            timer: AnimationModel {
                frames_per_row: SHEET_COLUMNS as nat,
                fps: FRAME_RATE as nat,
                elapsed_nanos: 0,
            },
            atlas_index: Some(0nat),
        }
    }

    /// The character after one frame: the controller sets the record from
    /// the keys, then the animation driver, which sees the new record, ticks
    /// the timer and steps the sprite.
    pub open spec fn frame(self, input: InputSnapshot, delta_nanos: nat) -> PlayerModel {
        let animated = controlled(self.animated, input);
        PlayerModel {
            animated,
            timer: self.timer.tick(delta_nanos),
            atlas_index: shown_after(
                self.atlas_index,
                self.timer.fires(delta_nanos),
                animated.row(),
                self.timer.frames_per_row,
            ),
        }
    }

    /// The character after `count` frames with the same keys and the same
    /// time step.
    pub open spec fn frames(self, input: InputSnapshot, delta_nanos: nat, count: nat) -> PlayerModel
        decreases count,
    {
        if count == 0 {
            self
        } else {
            self.frames(input, delta_nanos, (count - 1) as nat).frame(input, delta_nanos)
        }
    }
}

/// The character as it enters the game.
pub fn setup() -> (player: Player)
    ensures
        player@ == PlayerModel::spawned(),
{
    Player {
        animated: AnimatedSprite {
            direction: Direction::Down,
            state: AnimationType::Idle,
            action: ToolAction::NoTool,
        },
        config: AnimationConfig::new(SHEET_COLUMNS, FRAME_RATE),
        atlas_index: Some(0),
    }
}

impl Player {
    /// Runs one frame for this character: the controller, then the animation
    /// driver. Returns the direction in which the host is to move it.
    pub fn update(&mut self, input: &InputSnapshot, delta_nanos: u64) -> (movement: MoveVector)
        ensures
            final(self)@ == old(self)@.frame(*input, delta_nanos as nat),
            (movement.x as int, movement.y as int) == travel(old(self).animated, *input),
    {
        let movement = handle_input(&mut self.animated, input);
        execute_animations(&mut self.config, &self.animated, &mut self.atlas_index, delta_nanos);
        movement
    }
}

/// Runs one frame of the game. Without a character nothing happens and
/// nothing is to be moved.
pub fn update(player: &mut Option<Player>, input: &InputSnapshot, delta_nanos: u64) -> (movement:
    MoveVector)
    ensures
        (*old(player)) is Some ==> {
            &&& (*final(player)) is Some
            &&& (*final(player)).unwrap()@ == (*old(player)).unwrap()@.frame(
                *input,
                delta_nanos as nat,
            )
            &&& (movement.x as int, movement.y as int) == travel(
                (*old(player)).unwrap().animated,
                *input,
            )
        },
        (*old(player)) is None ==> (*final(player)) is None && movement.x == 0 && movement.y == 0,
{
    match player {
        Some(present) => present.update(input, delta_nanos),
        None => MoveVector::zero(),
    }
}

/// A character left alone stands idle. After any number of frames with no
/// key held, it is idle with no tool in hand and faces as it did, nothing is
/// to be moved, and the timer has gathered the time of all the frames. Its
/// sprite shows what it showed at the start or a frame of the idle row for
/// its facing, one of the first four rows. Where no time passes either, the
/// timer and the sprite stay exactly as they were.
pub proof fn idle_is_stable(player: PlayerModel, delta_nanos: nat, count: nat)
    requires
        player.timer.wf(),
        0 < count,
    ensures
        travel(player.animated, released_keys()) == (0int, 0int),
        ({
            let after = player.frames(released_keys(), delta_nanos, count);
            let slot = direction_slot(player.animated.direction);
            &&& after.animated == (AnimatedSprite {
                direction: player.animated.direction,
                state: AnimationType::Idle,
                action: ToolAction::NoTool,
            })
            &&& after.timer == player.timer.tick(count * delta_nanos)
            &&& after.timer.wf()
            &&& after.atlas_index is Some <==> player.atlas_index is Some
            &&& after.atlas_index matches Some(k) ==> {
                ||| after.atlas_index == player.atlas_index
                ||| k / player.timer.frames_per_row == slot && slot < 4
            }
            &&& delta_nanos == 0 ==> after.timer == player.timer && after.atlas_index
                == player.atlas_index
        }),
    decreases count,
{
    let input = released_keys();
    let before = player.frames(input, delta_nanos, (count - 1) as nat);
    let gathered = ((count - 1) * delta_nanos) as nat;
    if count == 1 {
        assert(before == player);
        assert(player.timer.tick(0) == player.timer) by {
            timer_cadence(player.timer, 0);
        }
    } else {
        idle_is_stable(player, delta_nanos, (count - 1) as nat);
        assert(((count - 1) as nat) * delta_nanos == gathered);
    }
    assert(before.timer == player.timer.tick(gathered));
    assert(gathered + delta_nanos == count * delta_nanos) by (nonlinear_arith)
        requires
            gathered == (count - 1) * delta_nanos,
    ;
    timer_cadence(player.timer, gathered);
    timer_cadence(before.timer, delta_nanos);
    ticks_accumulate(player.timer, gathered, delta_nanos);
    if before.atlas_index is Some {
        next_index_wraps(
            before.atlas_index.unwrap(),
            direction_slot(player.animated.direction),
            player.timer.frames_per_row,
        );
    }
}

} // verus!
