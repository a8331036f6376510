//! The animation driver: a repeating timer per character and the frame that
//! the sprite sheet shows when it fires.

use bevy::time::{Timer, TimerMode};
use std::time::Duration;
use vstd::arithmetic::div_mod::{lemma_fundamental_div_mod, lemma_fundamental_div_mod_converse};
use vstd::prelude::*;
use crate::sprite::{AnimatedSprite, SHEET_ROWS};

verus! {

/// Nanoseconds in a second.
pub const NANOS_PER_SECOND: u64 = 1_000_000_000;

/// The repeating timer counts the periods that one tick spans in 32 bits.
pub const LAP_COUNTER_SPAN: u64 = 0x1_0000_0000;

/// The mathematical content of an [`AnimationConfig`].
pub struct AnimationModel {
    /// Columns in one row of the sprite sheet.
    pub frames_per_row: nat,
    /// Frames shown per second.
    pub fps: nat,
    /// Time gathered since the timer last fired, in nanoseconds.
    pub elapsed_nanos: nat,
}

impl AnimationModel {
    /// The time from one fire to the next: a second divided by the frame
    /// rate, in whole nanoseconds.
    pub open spec fn period_nanos(self) -> nat {
        (NANOS_PER_SECOND as nat) / self.fps
    }

    /// Both counts are positive, the rate fits a byte, and less than a period
    /// has gathered.
    pub open spec fn wf(self) -> bool {
        &&& 0 < self.frames_per_row
        &&& 0 < self.fps <= u8::MAX
        &&& self.elapsed_nanos < self.period_nanos()
    }

    /// The number of whole periods reached when `delta_nanos` more pass.
    pub open spec fn laps(self, delta_nanos: nat) -> nat {
        (self.elapsed_nanos + delta_nanos) / self.period_nanos()
    }

    /// Whether the timer fires on a tick of `delta_nanos`. It fires when the
    /// tick reaches at least one period, except that the lap counter wraps: a
    /// tick that spans an exact multiple of [`LAP_COUNTER_SPAN`] periods goes
    /// unseen.
    pub open spec fn fires(self, delta_nanos: nat) -> bool {
        self.laps(delta_nanos) % (LAP_COUNTER_SPAN as nat) != 0
    }

    /// The timer after a tick of `delta_nanos`: whole periods are taken off
    /// and the rest is kept.
    pub open spec fn tick(self, delta_nanos: nat) -> AnimationModel {
        AnimationModel {
            elapsed_nanos: (self.elapsed_nanos + delta_nanos) % self.period_nanos(),
            ..self
        }
    }
}

/// The sheet index one frame on from `index`, in row `row` of a sheet with
/// `frames_per_row` columns. The column moves one to the right of the column
/// that `index` had in its own row, and wraps at the end of the row.
pub open spec fn next_index(index: nat, row: nat, frames_per_row: nat) -> nat {
    row * frames_per_row + (index % frames_per_row + 1) % frames_per_row
}

/// An atlas index as a number, where the sprite has an atlas.
pub open spec fn shown(atlas_index: Option<usize>) -> Option<nat> {
    match atlas_index {
        Some(index) => Some(index as nat),
        None => None,
    }
}

/// What the sprite shows after a tick: one frame on in the current row if the
/// timer fired and the sprite has an atlas, else what it showed before.
pub open spec fn shown_after(
    index: Option<nat>,
    fired: bool,
    row: nat,
    frames_per_row: nat,
) -> Option<nat> {
    match index {
        Some(i) if fired => Some(next_index(i, row, frames_per_row)),
        _ => index,
    }
}

/// Frame layout and repeating timer of one animated character.
#[derive(Copy, Clone, Debug)]
pub struct AnimationConfig {
    frames_per_row: usize,
    fps: u8,
    elapsed_nanos: u64,
}

impl View for AnimationConfig {
    type V = AnimationModel;

    closed spec fn view(&self) -> AnimationModel {
        AnimationModel {
            frames_per_row: self.frames_per_row as nat,
            fps: self.fps as nat,
            elapsed_nanos: self.elapsed_nanos as nat,
        }
    }
}

/// One `tick` of bevy's repeating `Timer`, on plain values. The body makes a
/// timer with `Timer::new` in `TimerMode::Repeating`, puts `elapsed_nanos` on
/// it with `set_elapsed`, calls `Timer::tick` with `delta_nanos`, and hands
/// back `elapsed` and `just_finished`.
///
/// Taken on trust from the timer's source: `tick` adds the delta to the time
/// on the timer; where the sum reaches the period it divides the sum by the
/// period, keeps the low 32 bits of the quotient as the number of times it
/// finished, and leaves the remainder on the timer; `just_finished` says
/// whether that number is above zero.
#[verifier::external_body]
fn tick_repeating(period_nanos: u64, elapsed_nanos: u64, delta_nanos: u64) -> (out: (u64, bool))
    requires
        period_nanos > 0,
    ensures
        out.0 == (elapsed_nanos + delta_nanos) % (period_nanos as int),
        out.1 == (((elapsed_nanos + delta_nanos) / (period_nanos as int)) % (LAP_COUNTER_SPAN as int)
            != 0),
{
    let mut timer = Timer::new(Duration::from_nanos(period_nanos), TimerMode::Repeating);
    timer.set_elapsed(Duration::from_nanos(elapsed_nanos));
    timer.tick(Duration::from_nanos(delta_nanos));
    (timer.elapsed().as_nanos() as u64, timer.just_finished())
}

/// A frame rate that fits a byte leaves a period of at least one nanosecond.
proof fn lemma_period_positive(fps: nat)
    requires
        0 < fps <= u8::MAX,
    ensures
        0 < (NANOS_PER_SECOND as nat) / fps,
{
    assert(0 < 1_000_000_000nat / fps) by (nonlinear_arith)
        requires
            0 < fps <= 255,
    ;
}

/// The index one frame on stays inside its row, and so inside a sheet of
/// `rows` rows.
proof fn lemma_next_index_in_row(index: nat, row: nat, frames_per_row: nat, rows: nat)
    requires
        0 < frames_per_row,
        row < rows,
    ensures
        row * frames_per_row <= next_index(index, row, frames_per_row) < (row + 1) * frames_per_row,
        next_index(index, row, frames_per_row) < rows * frames_per_row,
{
    assert((row + 1) * frames_per_row == row * frames_per_row + frames_per_row)
        by (nonlinear_arith);
    assert((row + 1) * frames_per_row <= rows * frames_per_row) by (nonlinear_arith)
        requires
            row + 1 <= rows,
    ;
}

/// A frame step keeps the index in the row asked for and moves the column
/// one to the right, from the last column back to the first.
pub proof fn next_index_wraps(index: nat, row: nat, frames_per_row: nat)
    requires
        0 < frames_per_row,
    ensures
        next_index(index, row, frames_per_row) / frames_per_row == row,
        next_index(index, row, frames_per_row) % frames_per_row == (index % frames_per_row + 1)
            % frames_per_row,
        index % frames_per_row + 1 < frames_per_row ==> next_index(index, row, frames_per_row)
            % frames_per_row == index % frames_per_row + 1,
        index % frames_per_row + 1 == frames_per_row ==> next_index(index, row, frames_per_row)
            % frames_per_row == 0,
{
    let column = (index % frames_per_row + 1) % frames_per_row;
    lemma_fundamental_div_mod_converse(
        next_index(index, row, frames_per_row) as int,
        frames_per_row as int,
        row as int,
        column as int,
    );
    if index % frames_per_row + 1 < frames_per_row {
        lemma_fundamental_div_mod_converse(
            (index % frames_per_row + 1) as int,
            frames_per_row as int,
            0,
            (index % frames_per_row + 1) as int,
        );
    } else {
        lemma_fundamental_div_mod_converse(
            (index % frames_per_row + 1) as int,
            frames_per_row as int,
            1,
            0,
        );
    }
}

/// The cadence of the timer. A tick leaves it well formed. It fires only
/// once a full period has gathered since the last fire; short of that the
/// time is simply added. What a fire leaves over is carried: the time left
/// on the timer and the whole periods taken off add up to what was there
/// plus the tick. Below [`LAP_COUNTER_SPAN`] periods in one tick, it fires
/// exactly when a period has gathered. At ten frames a second the period is
/// a tenth of a second.
pub proof fn timer_cadence(timer: AnimationModel, delta_nanos: nat)
    requires
        timer.wf(),
    ensures
        timer.tick(delta_nanos).wf(),
        timer.fires(delta_nanos) ==> timer.elapsed_nanos + delta_nanos >= timer.period_nanos(),
        timer.elapsed_nanos + delta_nanos < timer.period_nanos() ==> !timer.fires(delta_nanos)
            && timer.tick(delta_nanos).elapsed_nanos == timer.elapsed_nanos + delta_nanos,
        timer.tick(delta_nanos).elapsed_nanos + timer.laps(delta_nanos) * timer.period_nanos()
            == timer.elapsed_nanos + delta_nanos,
        timer.laps(delta_nanos) < LAP_COUNTER_SPAN ==> (timer.fires(delta_nanos)
            <==> timer.elapsed_nanos + delta_nanos >= timer.period_nanos()),
        timer.fps == 10 ==> timer.period_nanos() == 100_000_000,
{
    let period = timer.period_nanos() as int;
    let total = (timer.elapsed_nanos + delta_nanos) as int;
    let laps = timer.laps(delta_nanos) as int;
    lemma_fundamental_div_mod(total, period);
    assert(period * (total / period) == (total / period) * period) by (nonlinear_arith);
    if total < period {
        lemma_fundamental_div_mod_converse(total, period, 0, total);
    } else {
        assert(laps >= 1) by (nonlinear_arith)
            requires
                total == laps * period + total % period,
                0 <= total % period < period,
                total >= period,
        ;
    }
    if 0 <= laps < LAP_COUNTER_SPAN {
        lemma_fundamental_div_mod_converse(laps, LAP_COUNTER_SPAN as int, 0, laps);
    }
}

/// Time gathers across ticks: two ticks in a row leave the timer as one tick
/// of their sum does, and between them pass as many whole periods.
pub proof fn ticks_accumulate(timer: AnimationModel, first: nat, second: nat)
    requires
        timer.wf(),
    ensures
        timer.tick(first).tick(second) == timer.tick(first + second),
        timer.laps(first) + timer.tick(first).laps(second) == timer.laps(first + second),
{
    let period = timer.period_nanos() as int;
    let total = (timer.elapsed_nanos + first) as int;
    let rest = total % period;
    let laps = total / period;
    lemma_fundamental_div_mod(total, period);
    lemma_fundamental_div_mod(rest + second, period);
    let more = (rest + second) / period;
    let last = (rest + second) % period;
    assert(total + second == (laps + more) * period + last) by (nonlinear_arith)
        requires
            total == period * laps + rest,
            rest + second == period * more + last,
    ;
    lemma_fundamental_div_mod_converse(total + second, period, laps + more, last);
}

impl AnimationConfig {
    #[verifier::type_invariant]
    spec fn inv(self) -> bool {
        &&& self@.wf()
        &&& self.frames_per_row * SHEET_ROWS <= usize::MAX
    }

    /// A timer for a sheet with `frames_per_row` columns that fires `fps`
    /// times a second, with nothing gathered yet. The sheet's last index has
    /// to fit the machine word.
    pub fn new(frames_per_row: usize, fps: u8) -> (config: Self)
        requires
            0 < frames_per_row,
            frames_per_row * SHEET_ROWS <= usize::MAX,
            0 < fps,
        ensures
            config@ == (AnimationModel {
                frames_per_row: frames_per_row as nat,
                fps: fps as nat,
                elapsed_nanos: 0,
            }),
            config@.wf(),
    {
        proof {
            lemma_period_positive(fps as nat);
        }
        Self { frames_per_row, fps, elapsed_nanos: 0 }
    }

    /// Columns in one row of the sprite sheet.
    pub fn frames_per_row(&self) -> (n: usize)
        ensures
            n == self@.frames_per_row,
            0 < n,
            n * SHEET_ROWS <= usize::MAX,
    {
        proof {
            use_type_invariant(self);
        }
        self.frames_per_row
    }

    /// Frames shown per second.
    pub fn fps(&self) -> (n: u8)
        ensures
            n == self@.fps,
            0 < n,
    {
        proof {
            use_type_invariant(self);
        }
        self.fps
    }

    /// Time gathered since the timer last fired, in nanoseconds.
    pub fn elapsed_nanos(&self) -> (n: u64)
        ensures
            n == self@.elapsed_nanos,
            n < self@.period_nanos(),
    {
        proof {
            use_type_invariant(self);
        }
        self.elapsed_nanos
    }

    /// The time from one fire to the next, in nanoseconds.
    pub fn period_nanos(&self) -> (n: u64)
        ensures
            n == self@.period_nanos(),
            0 < n,
    {
        proof {
            use_type_invariant(self);
        }
        NANOS_PER_SECOND / (self.fps as u64)
    }

    /// Advances the timer by `delta_nanos` and says whether it fired.
    pub fn tick(&mut self, delta_nanos: u64) -> (fired: bool)
        ensures
            final(self)@ == old(self)@.tick(delta_nanos as nat),
            final(self)@.wf(),
            fired == old(self)@.fires(delta_nanos as nat),
    {
        proof {
            use_type_invariant(&*self);
        }
        let period = self.period_nanos();
        let (rest, fired) = tick_repeating(period, self.elapsed_nanos, delta_nanos);
        self.elapsed_nanos = rest;
        fired
    }
}

/// Advances the character's timer by `delta_nanos`; if it fires and the sprite
/// has an atlas, moves the atlas index one frame on within the row that the
/// record calls for. A sprite without an atlas is left alone.
pub fn execute_animations(
    config: &mut AnimationConfig,
    animated: &AnimatedSprite,
    atlas_index: &mut Option<usize>,
    delta_nanos: u64,
)
    ensures
        final(config)@ == old(config)@.tick(delta_nanos as nat),
        final(config)@.wf(),
        shown(*final(atlas_index)) == shown_after(
            shown(*old(atlas_index)),
            old(config)@.fires(delta_nanos as nat),
            animated.row(),
            old(config)@.frames_per_row,
        ),
{
    let fired = config.tick(delta_nanos);
    if fired {
        if let Some(index) = *atlas_index {
            let frames_per_row = config.frames_per_row();
            let row_index = animated.row_index();
            proof {
                lemma_next_index_in_row(
                    index as nat,
                    row_index as nat,
                    frames_per_row as nat,
                    SHEET_ROWS as nat,
                );
            }
            let row_offset = row_index * frames_per_row;
            let current = index % frames_per_row;
            let next = (current + 1) % frames_per_row;
            *atlas_index = Some(row_offset + next);
        }
    }
}

} // verus!
