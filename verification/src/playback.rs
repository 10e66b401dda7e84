//! The playback engine: how fast the words go by, and how far the reading
//! has come.
//!
//! Speed is counted in whole words per minute. The position is counted in
//! ticks: the progress that one nanosecond makes at one word per minute, so
//! that a frame of `d` nanoseconds at `s` words per minute adds exactly
//! `s * d` ticks, and a word is [`TICKS_PER_WORD`] ticks long.

use vstd::prelude::*;

verus! {

/// The speed at which a reader starts, in words per minute.
pub const INITIAL_SPEED: u64 = 60;

/// The speed below which no adjustment goes, in words per minute.
pub const MIN_SPEED: u64 = 10;

/// What one adjustment adds or takes away, in words per minute.
pub const SPEED_STEP: u64 = 10;

/// The ticks that make up one word: the nanoseconds of a minute.
pub const TICKS_PER_WORD: u128 = 60_000_000_000;

/// The sign of a wheel movement.
#[derive(Clone, Copy, PartialEq, Eq, Debug, Structural)]
pub enum Direction {
    /// One step up.
    Faster,
    /// One step down.
    Slower,
}

/// The speed after one adjustment: a step up, which stops at the top of the
/// counter's range, or a step down, which stops at [`MIN_SPEED`].
pub open spec fn speed_after(speed: nat, direction: Direction) -> nat {
    match direction {
        Direction::Faster => if speed + SPEED_STEP <= u64::MAX {
            (speed + SPEED_STEP) as nat
        } else {
            u64::MAX as nat
        },
        Direction::Slower => if speed >= MIN_SPEED + SPEED_STEP {
            (speed - SPEED_STEP) as nat
        } else {
            MIN_SPEED as nat
        },
    }
}

/// The position after a frame of `delta_nanos` nanoseconds at `speed` words
/// per minute: `speed * delta_nanos` ticks further, stopping at the top of
/// the counter's range.
pub open spec fn position_after(position: nat, speed: nat, delta_nanos: nat) -> nat {
    if position + speed * delta_nanos <= u128::MAX {
        position + speed * delta_nanos
    } else {
        u128::MAX as nat
    }
}

/// The index of the word to show at `position` among `word_count` words:
/// the whole words that have gone by, but never past the last word.
pub open spec fn index_at(position: nat, word_count: nat) -> nat
    recommends
        word_count >= 1,
{
    let whole = position / (TICKS_PER_WORD as nat);
    if whole < word_count - 1 {
        whole
    } else {
        (word_count - 1) as nat
    }
}

/// The speed after `count` adjustments in the same direction.
pub open spec fn speed_after_steps(speed: nat, direction: Direction, count: nat) -> nat
    decreases count,
{
    if count == 0 {
        speed
    } else {
        speed_after(speed_after_steps(speed, direction, (count - 1) as nat), direction)
    }
}

/// The speed after the adjustments of `directions`, taken in order.
pub open spec fn speed_after_all(speed: nat, directions: Seq<Direction>) -> nat
    decreases directions.len(),
{
    if directions.len() == 0 {
        speed
    } else {
        speed_after(speed_after_all(speed, directions.drop_last()), directions.last())
    }
}

/// Whatever the speed was, one adjustment leaves it at [`MIN_SPEED`] or
/// above, and within the counter's range if it was there before.
pub proof fn lemma_adjusted_speed_bounds(speed: nat, direction: Direction)
    ensures
        speed_after(speed, direction) >= MIN_SPEED,
        speed <= u64::MAX ==> speed_after(speed, direction) <= u64::MAX,
{
}

/// No sequence of adjustments brings a speed of [`MIN_SPEED`] or more
/// below [`MIN_SPEED`]; and after at least one adjustment the speed is that
/// high whatever it was.
pub proof fn lemma_speed_never_below_minimum(speed: nat, directions: Seq<Direction>)
    ensures
        speed >= MIN_SPEED || directions.len() > 0 ==> speed_after_all(speed, directions)
            >= MIN_SPEED,
    decreases directions.len(),
{
    if directions.len() > 0 {
        lemma_speed_never_below_minimum(speed, directions.drop_last());
    }
}

/// `count` steps down take `count` times [`SPEED_STEP`] away, but stop at
/// [`MIN_SPEED`].
pub proof fn lemma_steps_slower(speed: nat, count: nat)
    requires
        speed >= MIN_SPEED,
    ensures
        speed_after_steps(speed, Direction::Slower, count) == if speed >= MIN_SPEED + count
            * SPEED_STEP {
            (speed - count * SPEED_STEP) as nat
        } else {
            MIN_SPEED as nat
        },
    decreases count,
{
    if count > 0 {
        lemma_steps_slower(speed, (count - 1) as nat);
    }
}

/// `count` steps up add `count` times [`SPEED_STEP`], but stop at the top of
/// the counter's range.
pub proof fn lemma_steps_faster(speed: nat, count: nat)
    requires
        speed <= u64::MAX,
    ensures
        speed_after_steps(speed, Direction::Faster, count) == if speed + count * SPEED_STEP
            <= u64::MAX {
            (speed + count * SPEED_STEP) as nat
        } else {
            u64::MAX as nat
        },
    decreases count,
{
    if count > 0 {
        lemma_steps_faster(speed, (count - 1) as nat);
    }
}

/// As many steps up as steps down before them bring the speed back to where
/// it was exactly when the steps down never ran into [`MIN_SPEED`].
///
/// Left out is the one speed at which the steps up can end where they began
/// by running into the top of the counter's range.
pub proof fn lemma_slower_then_faster(speed: nat, count: nat)
    requires
        MIN_SPEED <= speed <= u64::MAX,
        speed < u64::MAX || MIN_SPEED + count * SPEED_STEP <= u64::MAX,
    ensures
        speed_after_steps(
            speed_after_steps(speed, Direction::Slower, count),
            Direction::Faster,
            count,
        ) == speed <==> speed >= MIN_SPEED + count * SPEED_STEP,
{
    lemma_steps_slower(speed, count);
    lemma_steps_faster(speed_after_steps(speed, Direction::Slower, count), count);
}

/// As many steps down as steps up before them bring the speed back to where
/// it was: coming down from there, [`MIN_SPEED`] is not in the way.
///
/// Left out are the speeds from which the steps up run into the top of the
/// counter's range, but for [`MIN_SPEED`], to which the steps down then
/// lead back all the same.
pub proof fn lemma_faster_then_slower(speed: nat, count: nat)
    requires
        MIN_SPEED <= speed <= u64::MAX,
        speed + count * SPEED_STEP <= u64::MAX || speed == MIN_SPEED,
    ensures
        speed_after_steps(
            speed_after_steps(speed, Direction::Faster, count),
            Direction::Slower,
            count,
        ) == speed,
{
    lemma_steps_faster(speed, count);
    lemma_steps_slower(speed_after_steps(speed, Direction::Faster, count), count);
}

/// The steps up of `directions` less its steps down.
pub open spec fn net_steps(directions: Seq<Direction>) -> int
    decreases directions.len(),
{
    if directions.len() == 0 {
        0
    } else {
        net_steps(directions.drop_last()) + match directions.last() {
            Direction::Faster => 1int,
            Direction::Slower => -1int,
        }
    }
}

/// Whether one of the steps down of `directions`, taken in order from
/// `speed`, runs into [`MIN_SPEED`]: it finds less than a whole step above
/// it.
pub open spec fn floor_hit(speed: nat, directions: Seq<Direction>) -> bool
    decreases directions.len(),
{
    directions.len() > 0 && (floor_hit(speed, directions.drop_last()) || (directions.last()
        is Slower && speed_after_all(speed, directions.drop_last()) < MIN_SPEED + SPEED_STEP))
}

/// Whether one of the steps up of `directions`, taken in order from `speed`,
/// runs into the top of the counter's range.
pub open spec fn ceiling_hit(speed: nat, directions: Seq<Direction>) -> bool
    decreases directions.len(),
{
    directions.len() > 0 && (ceiling_hit(speed, directions.drop_last()) || (directions.last()
        is Faster && speed_after_all(speed, directions.drop_last()) + SPEED_STEP > u64::MAX))
}

/// Adjustments in any order move the speed by their net number of steps as
/// long as no step down runs into [`MIN_SPEED`], and leave it higher than
/// that once one does. So a sequence of as many steps up as steps down
/// brings the speed back to where it was exactly when [`MIN_SPEED`] was
/// never in the way.
///
/// This is stated for sequences that stay below the top of the counter's
/// range.
pub proof fn lemma_equal_steps_return(speed: nat, directions: Seq<Direction>)
    requires
        !ceiling_hit(speed, directions),
    ensures
        !floor_hit(speed, directions) ==> speed_after_all(speed, directions) == speed + SPEED_STEP
            * net_steps(directions),
        floor_hit(speed, directions) ==> speed_after_all(speed, directions) > speed + SPEED_STEP
            * net_steps(directions),
        net_steps(directions) == 0 ==> (speed_after_all(speed, directions) == speed
            <==> !floor_hit(speed, directions)),
    decreases directions.len(),
{
    if directions.len() > 0 {
        lemma_equal_steps_return(speed, directions.drop_last());
    }
}

/// The position never goes back, and stays within the counter's range.
pub proof fn lemma_position_never_decreases(position: nat, speed: nat, delta_nanos: nat)
    requires
        position <= u128::MAX,
    ensures
        position <= position_after(position, speed, delta_nanos) <= u128::MAX,
{
    assert(speed * delta_nanos >= 0) by (nonlinear_arith);
}

/// The displayed index is the number of whole words gone by, or the index of
/// the last word where that is smaller: it always names a word, and it never
/// goes back when the position moves on.
pub proof fn lemma_index_at(position: nat, later: nat, word_count: nat)
    requires
        word_count >= 1,
        position <= later,
    ensures
        index_at(position, word_count) < word_count,
        index_at(position, word_count) == vstd::math::min(
            position as int / TICKS_PER_WORD as int,
            word_count as int - 1,
        ),
        index_at(position, word_count) <= index_at(later, word_count),
{
    assert(position as int / TICKS_PER_WORD as int <= later as int / TICKS_PER_WORD as int)
        by (nonlinear_arith)
        requires
            position <= later,
            TICKS_PER_WORD > 0,
    ;
}

/// A position one word further on shows the next word, unless the last word
/// is shown already.
pub proof fn lemma_one_word_further(position: nat, word_count: nat)
    requires
        word_count >= 1,
    ensures
        index_at(position + TICKS_PER_WORD as nat, word_count) == if index_at(
            position,
            word_count,
        ) + 1 < word_count {
            index_at(position, word_count) + 1
        } else {
            index_at(position, word_count)
        },
{
    let ticks = TICKS_PER_WORD as int;
    assert((position as int + ticks) / ticks == position as int / ticks + 1) by (nonlinear_arith)
        requires
            ticks > 0,
            position >= 0,
    ;
}

/// What the playback engine holds, as plain numbers.
pub struct PlaybackModel {
    /// Words per minute.
    pub speed: nat,
    /// Ticks read so far.
    pub position: nat,
}

impl PlaybackModel {
    /// The state in which an engine starts.
    pub open spec fn initial() -> PlaybackModel {
        PlaybackModel { speed: INITIAL_SPEED as nat, position: 0 }
    }

    /// The speed is at least [`MIN_SPEED`], and both counters are in range.
    pub open spec fn wf(self) -> bool {
        &&& MIN_SPEED <= self.speed <= u64::MAX
        &&& self.position <= u128::MAX
    }

    /// One adjustment changes the speed, and nothing else.
    pub open spec fn after_adjust(self, direction: Direction) -> PlaybackModel {
        PlaybackModel { speed: speed_after(self.speed, direction), ..self }
    }

    /// One frame changes the position, and nothing else.
    pub open spec fn after_advance(self, delta_nanos: nat) -> PlaybackModel {
        PlaybackModel { position: position_after(self.position, self.speed, delta_nanos), ..self }
    }
}

/// Speed and position of the reading.
pub struct Playback {
    speed: u64,
    position: u128,
}

impl View for Playback {
    type V = PlaybackModel;

    closed spec fn view(&self) -> PlaybackModel {
        PlaybackModel { speed: self.speed as nat, position: self.position as nat }
    }
}

impl Playback {
    #[verifier::type_invariant]
    pub open spec fn inv(self) -> bool {
        self@.wf()
    }

    /// An engine at [`INITIAL_SPEED`], with nothing read yet.
    pub fn new() -> (engine: Self)
        ensures
            engine@ == PlaybackModel::initial(),
    {
        Playback { speed: INITIAL_SPEED, position: 0 }
    }

    /// Words per minute.
    pub fn speed(&self) -> (speed: u64)
        ensures
            speed == self@.speed,
            self@.wf(),
    {
        proof {
            use_type_invariant(self);
        }
        self.speed
    }

    /// Ticks read so far.
    pub fn position(&self) -> (position: u128)
        ensures
            position == self@.position,
            self@.wf(),
    {
        proof {
            use_type_invariant(self);
        }
        self.position
    }

    /// The index of the word to show among `word_count` words; none where
    /// there is no word.
    pub fn displayed_index(&self, word_count: usize) -> (index: Option<usize>)
        ensures
            word_count == 0 ==> index is None,
            word_count > 0 ==> index is Some && index->0 == index_at(
                self@.position,
                word_count as nat,
            ),
    {
        if word_count == 0 {
            return None;
        }
        let last: usize = word_count - 1;
        let whole: u128 = self.position / TICKS_PER_WORD;
        if whole < last as u128 {
            Some(whole as usize)
        } else {
            Some(last)
        }
    }

    /// One step faster or slower.
    pub fn adjust_speed(&mut self, direction: Direction)
        ensures
            final(self)@ == old(self)@.after_adjust(direction),
            final(self)@.wf(),
    {
        proof {
            use_type_invariant(&*self);
        }
        match direction {
            Direction::Faster => {
                if self.speed <= u64::MAX - SPEED_STEP {
                    self.speed = self.speed + SPEED_STEP;
                } else {
                    self.speed = u64::MAX;
                }
            },
            Direction::Slower => {
                if self.speed >= MIN_SPEED + SPEED_STEP {
                    self.speed = self.speed - SPEED_STEP;
                } else {
                    self.speed = MIN_SPEED;
                }
            },
        }
    }

    /// Reads on for a frame of `delta_nanos` nanoseconds.
    pub fn advance(&mut self, delta_nanos: u64)
        ensures
            final(self)@ == old(self)@.after_advance(delta_nanos as nat),
            final(self)@.wf(),
    {
        proof {
            use_type_invariant(&*self);
        }
        let speed: u128 = self.speed as u128;
        let delta: u128 = delta_nanos as u128;
        assert(speed * delta <= u128::MAX) by (nonlinear_arith)
            requires
                speed <= u64::MAX,
                delta <= u64::MAX,
        ;
        let gain: u128 = speed * delta;
        if self.position <= u128::MAX - gain {
            self.position = self.position + gain;
        } else {
            self.position = u128::MAX;
        }
    }
}

} // verus!
