//! The spawned entities of the world: the scoring reward, the decaying
//! trap, the periodic super bonus, the roaming moving target, and the
//! game-status bookkeeping types.

use vstd::prelude::*;
use crate::arith::{sadd, sat_add, sat_mul, smul};
use crate::grid::{neighbor, spec_neighbor, Direction};
use crate::rng::RandomSource;
use crate::snake::SnakeCell;

verus! {

/// The tier of a reward, derived from the snake length at spawn time.
#[derive(Clone, Copy, PartialEq, Eq, Structural, Debug)]
pub enum RewardType {
    Yellow,
    Red,
    Blue,
    Black,
}

/// The tier a freshly spawned reward gets at snake length `len`.
pub open spec fn spec_reward_type(len: int) -> RewardType {
    if len <= 7 {
        RewardType::Yellow
    } else if len <= 12 {
        RewardType::Red
    } else if len <= 18 {
        RewardType::Blue
    } else {
        RewardType::Black
    }
}

/// The point value a freshly spawned reward gets at snake length `len`:
/// the length itself for yellow, three or four times it for red and blue,
/// and five times it plus 55 for black.
pub open spec fn spec_reward_points(len: int) -> int {
    match spec_reward_type(len) {
        RewardType::Yellow => len,
        RewardType::Red => sadd(len, smul(len, 2)),
        RewardType::Blue => sadd(len, smul(len, 3)),
        RewardType::Black => sadd(sadd(len, smul(len, 4)), 55),
    }
}

/// The reward tier for a snake of `num` cells.
pub fn define_reward_type(num: usize) -> (t: RewardType)
    ensures
        t == spec_reward_type(num as int),
{
    if num <= 7 {
        RewardType::Yellow
    } else if num <= 12 {
        RewardType::Red
    } else if num <= 18 {
        RewardType::Blue
    } else {
        RewardType::Black
    }
}

/// The length-scaled point value of a reward of tier `reward_type`.
pub fn define_reward_points(snake_body: &Vec<SnakeCell>, reward_type: RewardType) -> (points: usize)
    ensures
        reward_type == spec_reward_type(snake_body@.len() as int) ==> points == spec_reward_points(
            snake_body@.len() as int,
        ),
        points == (match reward_type {
            RewardType::Yellow => snake_body@.len() as int,
            RewardType::Red => sadd(snake_body@.len() as int, smul(snake_body@.len() as int, 2)),
            RewardType::Blue => sadd(snake_body@.len() as int, smul(snake_body@.len() as int, 3)),
            RewardType::Black => sadd(
                sadd(snake_body@.len() as int, smul(snake_body@.len() as int, 4)),
                55,
            ),
        }),
{
    let points: usize = snake_body.len();
    match reward_type {
        RewardType::Yellow => points,
        RewardType::Red => sat_add(points, sat_mul(points, 2)),
        RewardType::Blue => sat_add(points, sat_mul(points, 3)),
        RewardType::Black => sat_add(sat_add(points, sat_mul(points, 4)), 55),
    }
}

/// The scoring reward: always present on the board.
#[derive(Clone, Copy)]
pub struct RewardCell {
    pub idx: usize,
    pub reward_type: Option<RewardType>,
    pub points: usize,
}

impl RewardCell {
    /// A reward at `idx` with the given tier and point value.
    pub fn new(idx: usize, reward_type: RewardType, points: usize) -> (r: RewardCell)
        ensures
            r.idx == idx,
            r.reward_type == Some(reward_type),
            r.points == points,
    {
        RewardCell { idx, reward_type: Some(reward_type), points }
    }
}

/// The display tag a trap carries, one of four colors.
#[derive(Clone, Copy, PartialEq, Eq, Structural, Debug)]
pub enum TrapColor {
    Pale,
    Chocolate,
    BlueViolet,
    Brown,
}

/// A trap: stepping on it halves the score and shrinks the snake.
#[derive(Clone, Copy)]
pub struct TrapCell {
    pub idx: usize,
    pub life: usize,
    pub color: TrapColor,
}

impl TrapCell {
    /// A trap at `idx` with the given remaining life and color tag.
    pub fn new(idx: usize, life: usize, color: TrapColor) -> (t: TrapCell)
        ensures
            t.idx == idx,
            t.life == life,
            t.color == color,
    {
        TrapCell { idx, life, color }
    }

    /// An identical copy of the trap.
    pub fn copy(&self) -> (t: TrapCell)
        ensures
            t == *self,
    {
        *self
    }
}

/// The super bonus: a cell index and a remaining life counter.
#[derive(Clone, Copy)]
pub struct SuperBonus(pub usize, pub usize);

/// The status of a game.
#[derive(Clone, Copy, PartialEq, Eq, Structural, Debug)]
pub enum GameStatus {
    Won,
    Lost,
    Played,
}

/// Why a game was lost.
#[derive(Clone, Copy, PartialEq, Eq, Structural, Debug)]
pub enum Reason {
    StillAlive,
    Eaten,
    NotActive,
    Suicide,
}

/// An aggregated snapshot of the game counters.
pub struct GameStat {
    pub consumed_rewards: usize,
    pub consumed_traps: usize,
    pub life_steps: usize,
    pub bonus: usize,
    pub snake_size: usize,
    pub super_bonuses: usize,
    pub consumed_moving_targets: usize,
    pub points: usize,
    pub eaten_by_enemy: usize,
}

/// The roaming enemy/prize.  Its two counters make heading changes and
/// physical steps asynchronous: the decision counter gates re-rolls of the
/// direction, the move counter gates actual movement.
#[derive(Clone, Copy)]
pub struct MovingTarget {
    pub idx: usize,
    pub direction: Direction,
    pub points: usize,
    pub life: usize,
    pub decision_steps: usize,
    pub steps_to_move: usize,
}

impl MovingTarget {
    /// The value a consumer of this target scores: the stored points plus
    /// fifteen per remaining life.
    pub open spec fn spec_points(self) -> int {
        sadd(self.points as int, smul(self.life as int, 15))
    }

    /// A fresh target at `idx` with 50 life, 500 points, and random
    /// direction and cadences.
    pub fn new<R: RandomSource>(idx: usize, rng: &mut R) -> (t: MovingTarget)
        ensures
            t.idx == idx,
            t.points == 500,
            t.life == 50,
            t.decision_steps < 3,
            2 <= t.steps_to_move < 4,
    {
        let direction = MovingTarget::decide_direction(rng);
        let decision_steps = rng.random_uint(3);
        let steps_to_move = MovingTarget::gen_move_steps(rng);
        MovingTarget { idx, direction, points: 500, life: 50, decision_steps, steps_to_move }
    }

    /// A random heading: right, left or down one draw in five each,
    /// up on the remaining two.
    fn decide_direction<R: RandomSource>(rng: &mut R) -> Direction {
        let rnd_direction = rng.random_uint(5);
        if rnd_direction == 0 {
            Direction::Right
        } else if rnd_direction == 1 {
            Direction::Left
        } else if rnd_direction == 2 {
            Direction::Down
        } else {
            Direction::Up
        }
    }

    /// The consumption value of the target.
    pub fn calculate_points(&self) -> (r: usize)
        ensures
            r == self.spec_points(),
    {
        sat_add(self.points, sat_mul(self.life, 15))
    }

    /// The cell the target stands on.
    pub fn position(&self) -> (r: usize)
        ensures
            r == self.idx,
    {
        self.idx
    }

    /// One tick of aging.
    pub fn decrease_life_steps(&mut self)
        requires
            old(self).life >= 1,
        ensures
            final(self).life == old(self).life - 1,
            final(self).idx == old(self).idx,
            final(self).direction == old(self).direction,
            final(self).points == old(self).points,
            final(self).decision_steps == old(self).decision_steps,
            final(self).steps_to_move == old(self).steps_to_move,
    {
        self.life = self.life - 1;
    }

    /// Re-roll the heading with 60% probability, else keep it.
    pub fn change_direction<R: RandomSource>(&mut self, rng: &mut R)
        ensures
            final(self).idx == old(self).idx,
            final(self).points == old(self).points,
            final(self).life == old(self).life,
            final(self).decision_steps == old(self).decision_steps,
            final(self).steps_to_move == old(self).steps_to_move,
    {
        let rnd_range = rng.random_uint(10);
        if rnd_range <= 5 {
            self.direction = MovingTarget::decide_direction(rng);
        }
    }

    /// A fresh move cadence of two or three ticks.
    pub fn gen_move_steps<R: RandomSource>(rng: &mut R) -> (r: usize)
        ensures
            2 <= r < 4,
    {
        let v = rng.random_uint(2);
        v + 2
    }

    /// Advance one cell in the current heading once the move cadence has
    /// run out; otherwise just let the cadence tick down.
    pub fn next_move<R: RandomSource>(&mut self, rng: &mut R, map_length: usize)
        requires
            map_length >= 1,
            (old(self).idx as int) < (map_length as int) * (map_length as int),
            (map_length as int) * (map_length as int) <= usize::MAX,
        ensures
            final(self).direction == old(self).direction,
            final(self).points == old(self).points,
            final(self).life == old(self).life,
            final(self).decision_steps == old(self).decision_steps,
            (final(self).idx as int) < (map_length as int) * (map_length as int),
            old(self).steps_to_move == 0 ==> final(self).idx == spec_neighbor(
                old(self).idx as int,
                old(self).direction,
                map_length as int,
            ) && 2 <= final(self).steps_to_move < 4,
            old(self).steps_to_move != 0 ==> final(self).idx == old(self).idx
                && final(self).steps_to_move == old(self).steps_to_move - 1,
    {
        if self.steps_to_move == 0 {
            self.idx = neighbor(self.idx, self.direction, map_length);
            self.steps_to_move = MovingTarget::gen_move_steps(rng);
        } else {
            self.steps_to_move = self.steps_to_move - 1;
        }
    }
}

} // verus!
