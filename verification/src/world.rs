//! The aggregate world and its per-tick update orchestrator.
//!
//! A [`WorldMap`] owns the board size, the snake, the four optional spawn
//! entities with their countdowns, the scores and counters, and the game
//! status.  An external driver calls [`WorldMap::update`] once per tick;
//! read accessors expose the resulting positions and scores.

use vstd::prelude::*;
use crate::arith::{sadd, sat_add, sat_mul};
use crate::entities::{
    define_reward_points, define_reward_type, spec_reward_points, spec_reward_type, GameStat,
    GameStatus, MovingTarget, Reason, RewardCell, RewardType, SuperBonus, TrapCell, TrapColor,
};
use crate::grid::{neighbor, spec_neighbor, Direction};
use crate::rng::{Clock, RandomSource};
use crate::snake::{
    board_full, body_contains, clone_body, find_snake_cell_index, lemma_free_cell_exists, occupied,
    occupied_from, shift_tail, tail_contains, Snake, SnakeCell,
};
use vstd::string::StringExecFns;

verus! {

/// Index reported by the cell accessors when an entity is absent.
pub const NO_CELL: usize = 1000000;

/// On a board whose cell count fits the machine, the small countdown
/// bounds derived from the side length fit as well.
proof fn lemma_countdown_fits(size: int)
    requires
        1 <= size,
        size * size <= usize::MAX,
    ensures
        size + 10 <= usize::MAX,
        2 * size + 4 <= usize::MAX,
        4 * size + 5 <= usize::MAX,
{
    if size >= 5 {
        assert(5 * size <= size * size) by (nonlinear_arith)
            requires
                size >= 5,
        ;
    }
}

/// The shared mutable world of one game session.
pub struct WorldMap<R: RandomSource, C: Clock> {
    pub size: usize,
    pub snake: Snake,
    pub next_cell: Option<SnakeCell>,
    pub reward_cell: RewardCell,
    pub status: Option<GameStatus>,
    pub points: usize,
    pub steps: usize,
    pub bonus_points: usize,
    pub steps_refill: usize,
    pub trap_steps: usize,
    pub trap_cell: Option<TrapCell>,
    pub life_steps: usize,
    pub super_bonus_cell: Option<SuperBonus>,
    pub super_bonus_steps: usize,
    pub consumed_rewards: usize,
    pub consumed_traps: usize,
    pub consumed_super_bonuses: usize,
    pub consumed_moving_targets: usize,
    pub moving_cell: Option<MovingTarget>,
    pub steps_to_moving_target: usize,
    pub reason: Reason,
    pub eaten_by_enemy: usize,
    pub max_snake_size: usize,
    pub rng: R,
    pub clock: C,
}

impl<R: RandomSource, C: Clock> WorldMap<R, C> {
    /// The number of cells of the board.
    pub open spec fn area(self) -> int {
        (self.size as int) * (self.size as int)
    }

    /// The board side is positive and the cell count fits the machine.
    pub open spec fn grid_ok(self) -> bool {
        &&& 1 <= self.size
        &&& self.area() <= usize::MAX
    }

    /// The snake has a head and a neck and lies on the board.
    pub open spec fn cells_ok(self) -> bool {
        &&& self.snake.body@.len() >= 2
        &&& forall|i: int|
            0 <= i < self.snake.body@.len() ==> (self.snake.body@[i].0 as int) < self.area()
    }

    /// Every entity lies on the board; lives are positive while an entity
    /// is spawned; a trap only ever coexists with a snake of three or more
    /// cells (so consuming it cannot exhaust the body).
    pub open spec fn entities_ok(self) -> bool {
        &&& (self.reward_cell.idx as int) < self.area()
        &&& match self.next_cell {
            Some(c) => (c.0 as int) < self.area(),
            None => true,
        }
        &&& match self.trap_cell {
            Some(t) => (t.idx as int) < self.area() && t.life >= 1 && self.snake.body@.len() >= 3,
            None => true,
        }
        &&& match self.super_bonus_cell {
            Some(b) => (b.0 as int) < self.area() && b.1 >= 1,
            None => true,
        }
        &&& match self.moving_cell {
            Some(m) => (m.idx as int) < self.area(),
            None => true,
        }
    }

    /// Well-formedness of the world: established by [`WorldMap::new`] and
    /// preserved by every operation.
    pub open spec fn wf(self) -> bool {
        &&& self.grid_ok()
        &&& self.cells_ok()
        &&& self.entities_ok()
        &&& self.steps >= 1
        &&& self.steps_refill >= 1
    }

    /// The linear index of the snake head.
    pub open spec fn spec_head(self) -> int {
        self.snake.body@[0].0 as int
    }

    /// The snake length.
    pub open spec fn snake_len(self) -> int {
        self.snake.body@.len() as int
    }

    /// The reported moving-target cell, with the absent sentinel.
    pub open spec fn spec_moving_target_idx(self) -> usize {
        match self.moving_cell {
            Some(m) => m.idx,
            None => NO_CELL,
        }
    }

    /// The reported trap cell, with the absent sentinel.
    pub open spec fn spec_trap_idx(self) -> usize {
        match self.trap_cell {
            Some(t) => t.idx,
            None => NO_CELL,
        }
    }

    /// The reported super-bonus cell, with the absent sentinel.
    pub open spec fn spec_super_bonus_idx(self) -> usize {
        match self.super_bonus_cell {
            Some(b) => b.0,
            None => NO_CELL,
        }
    }

    /// The value a super-bonus consumption awards right now.
    pub open spec fn spec_super_bonus_points(self) -> int {
        sadd(300, crate::arith::smul(self.snake_len(), 10))
    }

    /// The total of the four consumption counters.
    pub open spec fn spec_consumed_items(self) -> int {
        sadd(
            sadd(
                sadd(self.consumed_traps as int, self.consumed_rewards as int),
                self.consumed_super_bonuses as int,
            ),
            self.consumed_moving_targets as int,
        )
    }

    /// The snake and the queued head are those of `o`.
    pub open spec fn same_snake(self, o: Self) -> bool {
        &&& self.snake.body@ == o.snake.body@
        &&& self.snake.direction == o.snake.direction
        &&& self.next_cell == o.next_cell
    }

    /// Score, bonus total and turn budget are those of `o`.
    pub open spec fn same_scores(self, o: Self) -> bool {
        &&& self.points == o.points
        &&& self.bonus_points == o.bonus_points
        &&& self.steps == o.steps
        &&& self.steps_refill == o.steps_refill
    }

    /// All cumulative counters are those of `o`.
    pub open spec fn same_counters(self, o: Self) -> bool {
        &&& self.consumed_rewards == o.consumed_rewards
        &&& self.consumed_traps == o.consumed_traps
        &&& self.consumed_super_bonuses == o.consumed_super_bonuses
        &&& self.consumed_moving_targets == o.consumed_moving_targets
        &&& self.life_steps == o.life_steps
        &&& self.eaten_by_enemy == o.eaten_by_enemy
        &&& self.max_snake_size == o.max_snake_size
    }

    /// The reward is that of `o`.
    pub open spec fn same_reward(self, o: Self) -> bool {
        self.reward_cell == o.reward_cell
    }

    /// The trap and its respawn countdown are those of `o`.
    pub open spec fn same_trap(self, o: Self) -> bool {
        &&& self.trap_cell == o.trap_cell
        &&& self.trap_steps == o.trap_steps
    }

    /// The super bonus and its respawn countdown are those of `o`.
    pub open spec fn same_bonus(self, o: Self) -> bool {
        &&& self.super_bonus_cell == o.super_bonus_cell
        &&& self.super_bonus_steps == o.super_bonus_steps
    }

    /// The moving target and its respawn countdown are those of `o`.
    pub open spec fn same_target(self, o: Self) -> bool {
        &&& self.moving_cell == o.moving_cell
        &&& self.steps_to_moving_target == o.steps_to_moving_target
    }

    /// Board size, status and loss reason are those of `o`.
    pub open spec fn same_meta(self, o: Self) -> bool {
        &&& self.size == o.size
        &&& self.status == o.status
        &&& self.reason == o.reason
    }

    /// The five cumulative counters never decrease.
    pub open spec fn counters_monotone(pre: Self, post: Self) -> bool {
        &&& post.consumed_rewards >= pre.consumed_rewards
        &&& post.consumed_traps >= pre.consumed_traps
        &&& post.consumed_super_bonuses >= pre.consumed_super_bonuses
        &&& post.consumed_moving_targets >= pre.consumed_moving_targets
        &&& post.life_steps >= pre.life_steps
    }

    /// A new world: a three-cell snake heading up, a freshly placed
    /// reward, no other entity, and jittered spawn countdowns.
    pub fn new(size: usize, snake_idx: usize, rng: R, clock: C) -> (w: WorldMap<R, C>)
        requires
            2 <= size,
            (size as int) * (size as int) <= usize::MAX,
            2 <= snake_idx,
            (snake_idx as int) < (size as int) * (size as int),
        ensures
            w.wf(),
            w.size == size,
            w.snake.body@.len() == 3,
            w.snake.body@[0].0 == snake_idx,
            w.snake.body@[1].0 == snake_idx - 1,
            w.snake.body@[2].0 == snake_idx - 2,
            w.snake.direction == Direction::Up,
            w.next_cell is None,
            !occupied(w.snake.body@, w.reward_cell.idx as int),
            w.reward_cell.reward_type == Some(RewardType::Yellow),
            w.reward_cell.points == 3,
            w.status is None,
            w.points == 0,
            w.steps == 10,
            w.bonus_points == 0,
            w.steps_refill == 7,
            w.trap_cell is None,
            w.super_bonus_cell is None,
            w.moving_cell is None,
            2 <= w.trap_steps < size + 2,
            4 <= w.super_bonus_steps < 2 * size + 4,
            5 <= w.steps_to_moving_target < 4 * size + 5,
            w.life_steps == 0,
            w.consumed_rewards == 0,
            w.consumed_traps == 0,
            w.consumed_super_bonuses == 0,
            w.consumed_moving_targets == 0,
            w.eaten_by_enemy == 0,
            w.max_snake_size == 3,
            w.reason == Reason::StillAlive,
    {
        let mut rng = rng;
        let mut clock = clock;
        proof {
            lemma_countdown_fits(size as int);
        }
        let snake_body_size: usize = 3;
        let snake = Snake::new(snake_idx, snake_body_size);
        let area = size * size;
        let reward_cell = match Self::generate_reward_cell(&mut rng, area, &snake.body) {
            Some(rc) => rc,
            None => {
                proof {
                    assert(4 <= (size as int) * (size as int)) by (nonlinear_arith)
                        requires
                            2 <= size,
                    ;
                    lemma_free_cell_exists(snake.body@, area as int);
                    assert(false);
                }
                RewardCell::new(0, RewardType::Yellow, 0)
            },
        };
        let trap_steps = sat_add(clock.now() % size, 2);
        let super_bonus_steps = Self::gen_super_bonus_steps(&mut rng, size);
        let steps_to_moving_target = Self::gen_moving_target_steps(&mut rng, size);

        WorldMap {
            size,
            snake,
            next_cell: None,
            reward_cell,
            status: None,
            points: 0,
            steps: 10,
            bonus_points: 0,
            steps_refill: 7,
            trap_steps,
            trap_cell: None,
            life_steps: 0,
            super_bonus_cell: None,
            super_bonus_steps,
            consumed_rewards: 0,
            consumed_traps: 0,
            consumed_super_bonuses: 0,
            consumed_moving_targets: 0,
            moving_cell: None,
            steps_to_moving_target,
            reason: Reason::StillAlive,
            eaten_by_enemy: 0,
            max_snake_size: snake_body_size,
            rng,
            clock,
        }
    }

    /// A jittered countdown until a moving target may spawn: a uniform
    /// draw below four times the side, plus five.
    fn gen_moving_target_steps(rng: &mut R, size: usize) -> (r: usize)
        requires
            size >= 1,
            (size as int) * (size as int) <= usize::MAX,
        ensures
            5 <= r < 4 * size + 5,
    {
        proof {
            lemma_countdown_fits(size as int);
        }
        let bound = sat_mul(size, 4);
        let v = rng.random_uint(bound);
        sat_add(v, 5)
    }

    /// A jittered countdown until a super bonus may spawn: a uniform draw
    /// below twice the side, plus four.
    fn gen_super_bonus_steps(rng: &mut R, size: usize) -> (r: usize)
        requires
            size >= 1,
            (size as int) * (size as int) <= usize::MAX,
        ensures
            4 <= r < 2 * size + 4,
    {
        proof {
            lemma_countdown_fits(size as int);
        }
        let bound = sat_mul(size, 2);
        let v = rng.random_uint(bound);
        sat_add(v, 4)
    }

    /// Rejection-sampled placement: draw uniform cells until one misses
    /// the snake body, falling back to a linear scan; `None` only when the
    /// body covers the whole board.
    fn find_free_cell(rng: &mut R, max: usize, snake_body: &Vec<SnakeCell>) -> (r: Option<usize>)
        requires
            max >= 1,
        ensures
            match r {
                Some(i) => i < max && !occupied(snake_body@, i as int),
                None => board_full(snake_body@, max as int),
            },
            !board_full(snake_body@, max as int) ==> r is Some,
            (exists|i: int| 0 <= i < max && !occupied(snake_body@, i)) ==> r is Some,
    {
        let mut attempts: usize = 0;
        while attempts < 64
            invariant
                max >= 1,
            decreases 64 - attempts,
        {
            let cell_idx = rng.random_uint(max);
            if !body_contains(snake_body, cell_idx) {
                return Some(cell_idx);
            }
            attempts = attempts + 1;
        }
        let mut i: usize = 0;
        while i < max
            invariant
                i <= max,
                forall|k: int| 0 <= k < i ==> occupied(snake_body@, k),
            decreases max - i,
        {
            if !body_contains(snake_body, i) {
                return Some(i);
            }
            i = i + 1;
        }
        None
    }

    /// Place a fresh reward off the snake body, with tier and points
    /// derived from the snake length.
    fn generate_reward_cell(rng: &mut R, max: usize, snake_body: &Vec<SnakeCell>) -> (r: Option<
        RewardCell,
    >)
        requires
            max >= 1,
        ensures
            match r {
                Some(rc) => {
                    &&& rc.idx < max
                    &&& !occupied(snake_body@, rc.idx as int)
                    &&& rc.reward_type == Some(spec_reward_type(snake_body@.len() as int))
                    &&& rc.points == spec_reward_points(snake_body@.len() as int)
                },
                None => board_full(snake_body@, max as int),
            },
            !board_full(snake_body@, max as int) ==> r is Some,
            (exists|i: int| 0 <= i < max && !occupied(snake_body@, i)) ==> r is Some,
    {
        match Self::find_free_cell(rng, max, snake_body) {
            Some(reward_cell_idx) => {
                let reward_type = define_reward_type(snake_body.len());
                let points = define_reward_points(snake_body, reward_type);
                Some(RewardCell::new(reward_cell_idx, reward_type, points))
            },
            None => None,
        }
    }

    /// Place a fresh trap off the snake body, with a random color tag and
    /// a random life of two to eleven ticks.
    fn generate_trap_cell(rng: &mut R, max: usize, snake_body: &Vec<SnakeCell>) -> (r: Option<
        TrapCell,
    >)
        requires
            max >= 1,
        ensures
            match r {
                Some(t) => {
                    &&& t.idx < max
                    &&& !occupied(snake_body@, t.idx as int)
                    &&& 2 <= t.life < 12
                },
                None => board_full(snake_body@, max as int),
            },
            !board_full(snake_body@, max as int) ==> r is Some,
            (exists|i: int| 0 <= i < max && !occupied(snake_body@, i)) ==> r is Some,
    {
        match Self::find_free_cell(rng, max, snake_body) {
            Some(trap_cell_idx) => {
                let rnd_num = rng.random_uint(4);
                let life = rng.random_uint(10) + 2;
                let color = if rnd_num == 0 {
                    TrapColor::Pale
                } else if rnd_num == 1 {
                    TrapColor::Chocolate
                } else if rnd_num == 2 {
                    TrapColor::BlueViolet
                } else {
                    TrapColor::Brown
                };
                Some(TrapCell::new(trap_cell_idx, life, color))
            },
            None => None,
        }
    }

    /// Place a fresh super bonus off the snake body, with a fixed life of
    /// five ticks.
    fn generate_super_bonus(rng: &mut R, max: usize, snake_body: &Vec<SnakeCell>) -> (r: Option<
        SuperBonus,
    >)
        requires
            max >= 1,
        ensures
            match r {
                Some(b) => {
                    &&& b.0 < max
                    &&& !occupied(snake_body@, b.0 as int)
                    &&& b.1 == 5
                },
                None => board_full(snake_body@, max as int),
            },
            !board_full(snake_body@, max as int) ==> r is Some,
            (exists|i: int| 0 <= i < max && !occupied(snake_body@, i)) ==> r is Some,
    {
        match Self::find_free_cell(rng, max, snake_body) {
            Some(cell_idx) => Some(SuperBonus(cell_idx, 5)),
            None => None,
        }
    }

    /// Place a fresh moving target off the snake body.
    fn generate_moving_target(rng: &mut R, max: usize, snake_body: &Vec<SnakeCell>) -> (r: Option<
        MovingTarget,
    >)
        requires
            max >= 1,
        ensures
            match r {
                Some(m) => {
                    &&& m.idx < max
                    &&& !occupied(snake_body@, m.idx as int)
                    &&& m.life == 50
                    &&& m.points == 500
                },
                None => board_full(snake_body@, max as int),
            },
            !board_full(snake_body@, max as int) ==> r is Some,
            (exists|i: int| 0 <= i < max && !occupied(snake_body@, i)) ==> r is Some,
    {
        match Self::find_free_cell(rng, max, snake_body) {
            Some(cell_idx) => Some(MovingTarget::new(cell_idx, rng)),
            None => None,
        }
    }

    /// Ticks left until a moving target may spawn.
    pub fn steps_to_moving_target(&self) -> (r: usize)
        ensures
            r == self.steps_to_moving_target,
    {
        self.steps_to_moving_target
    }

    /// Remaining life of the moving target, 0 when absent.
    pub fn moving_target_life(&self) -> (r: usize)
        ensures
            r == match self.moving_cell {
                Some(m) => m.life,
                None => 0,
            },
    {
        match &self.moving_cell {
            Some(moving_target) => moving_target.life,
            None => 0,
        }
    }

    /// Consumption value of the moving target, 0 when absent.
    pub fn moving_target_points(&self) -> (r: usize)
        ensures
            r == match self.moving_cell {
                Some(m) => m.spec_points(),
                None => 0,
            },
    {
        match &self.moving_cell {
            None => 0,
            Some(moving_target) => moving_target.calculate_points(),
        }
    }

    /// Cell of the moving target, or the absent sentinel.
    pub fn moving_target_cell_idx(&self) -> (r: usize)
        ensures
            r == self.spec_moving_target_idx(),
    {
        match &self.moving_cell {
            None => NO_CELL,
            Some(moving_target) => moving_target.position(),
        }
    }

    /// Remaining life of the super bonus, 0 when absent.
    pub fn super_bonus_cell_life(&self) -> (r: usize)
        ensures
            r == match self.super_bonus_cell {
                Some(b) => b.1,
                None => 0,
            },
    {
        match &self.super_bonus_cell {
            None => 0,
            Some(super_bonus_cell) => super_bonus_cell.1,
        }
    }

    /// The value a super-bonus consumption awards right now.
    pub fn super_bonus_points(&self) -> (r: usize)
        ensures
            r == self.spec_super_bonus_points(),
    {
        sat_add(300, sat_mul(self.snake.body.len(), 10))
    }

    /// Cell of the super bonus, or the absent sentinel.
    pub fn super_bonus_cell_idx(&self) -> (r: usize)
        ensures
            r == self.spec_super_bonus_idx(),
    {
        match &self.super_bonus_cell {
            None => NO_CELL,
            Some(super_bonus) => super_bonus.0,
        }
    }

    /// Ticks left until a super bonus may spawn.
    pub fn super_bonus_steps(&self) -> (r: usize)
        ensures
            r == self.super_bonus_steps,
    {
        self.super_bonus_steps
    }

    /// Ticks left until a trap may spawn.
    pub fn trap_steps(&self) -> (r: usize)
        ensures
            r == self.trap_steps,
    {
        self.trap_steps
    }

    /// Cell of the trap, or the absent sentinel.
    pub fn trap_cell_idx(&self) -> (r: usize)
        ensures
            r == self.spec_trap_idx(),
    {
        match &self.trap_cell {
            None => NO_CELL,
            Some(trap_cell) => trap_cell.idx,
        }
    }

    /// Display color of the trap, `"None"` when absent.
    pub fn trap_color(&self) -> (r: String)
        ensures
            r@ == match self.trap_cell {
                None => "None"@,
                Some(t) => match t.color {
                    TrapColor::Pale => "#FFEAAE"@,
                    TrapColor::Chocolate => "chocolate"@,
                    TrapColor::BlueViolet => "blueviolet"@,
                    TrapColor::Brown => "brown"@,
                },
            },
    {
        match &self.trap_cell {
            None => String::from_str("None"),
            Some(trap_cell) => match trap_cell.color {
                TrapColor::Pale => String::from_str("#FFEAAE"),
                TrapColor::Chocolate => String::from_str("chocolate"),
                TrapColor::BlueViolet => String::from_str("blueviolet"),
                TrapColor::Brown => String::from_str("brown"),
            },
        }
    }

    /// Remaining life of the trap, 0 when absent.
    pub fn trap_life(&self) -> (r: usize)
        ensures
            r == match self.trap_cell {
                Some(t) => t.life,
                None => 0,
            },
    {
        match &self.trap_cell {
            None => 0,
            Some(trap_cell) => trap_cell.life,
        }
    }

    /// The cumulative score.
    pub fn points(&self) -> (r: usize)
        ensures
            r == self.points,
    {
        self.points
    }

    /// The cumulative bonus total.
    pub fn bonus_stat(&self) -> (r: usize)
        ensures
            r == self.bonus_points,
    {
        self.bonus_points
    }

    /// The step-surplus bonus a reward consumption would award right now:
    /// the whole remaining turn budget, once it exceeds the refill amount.
    pub fn comming_bonus_by_steps(&self) -> (r: usize)
        ensures
            r == if self.steps > self.steps_refill {
                self.steps as int
            } else {
                0
            },
    {
        if self.steps > self.steps_refill {
            self.steps
        } else {
            0
        }
    }

    /// Display color of the reward tier.
    pub fn get_reward_color(&self) -> (r: String)
        ensures
            r@ == match self.reward_cell.reward_type {
                Some(RewardType::Yellow) => "#FFEAAE"@,
                Some(RewardType::Red) => "chocolate"@,
                Some(RewardType::Blue) => "blueviolet"@,
                Some(RewardType::Black) => "brown"@,
                None => "cadetblue"@,
            },
    {
        match self.reward_cell.reward_type {
            Some(RewardType::Yellow) => String::from_str("#FFEAAE"),
            Some(RewardType::Red) => String::from_str("chocolate"),
            Some(RewardType::Blue) => String::from_str("blueviolet"),
            Some(RewardType::Black) => String::from_str("brown"),
            None => String::from_str("cadetblue"),
        }
    }

    /// An aggregated snapshot of the game counters.
    pub fn get_game_stat(&self) -> (r: GameStat)
        ensures
            r.consumed_rewards == self.consumed_rewards,
            r.consumed_traps == self.consumed_traps,
            r.life_steps == self.life_steps,
            r.bonus == self.bonus_points,
            r.snake_size == self.max_snake_size,
            r.super_bonuses == self.consumed_super_bonuses,
            r.consumed_moving_targets == self.consumed_moving_targets,
            r.points == self.points,
            r.eaten_by_enemy == self.eaten_by_enemy,
    {
        GameStat {
            consumed_rewards: self.consumed_rewards,
            consumed_traps: self.consumed_traps,
            life_steps: self.life_steps,
            bonus: self.bonus_points,
            snake_size: self.max_snake_size,
            super_bonuses: self.consumed_super_bonuses,
            consumed_moving_targets: self.consumed_moving_targets,
            points: self.points,
            eaten_by_enemy: self.eaten_by_enemy,
        }
    }

    /// The current point value of the reward.
    pub fn get_reward_points(&self) -> (r: usize)
        ensures
            r == self.reward_cell.points,
    {
        self.reward_cell.points
    }

    /// Transition into the playing state.
    pub fn start_game(&mut self)
        ensures
            final(self).status == Some(GameStatus::Played),
            final(self).same_snake(*old(self)),
            final(self).same_scores(*old(self)),
            final(self).same_counters(*old(self)),
            final(self).same_reward(*old(self)),
            final(self).same_trap(*old(self)),
            final(self).same_bonus(*old(self)),
            final(self).same_target(*old(self)),
            final(self).size == old(self).size,
            final(self).reason == old(self).reason,
    {
        self.status = Some(GameStatus::Played);
    }

    /// The game status; `None` while paused.
    pub fn game_status(&self) -> (r: Option<GameStatus>)
        ensures
            r == self.status,
    {
        self.status
    }

    /// Human-readable status.
    pub fn game_status_text(&self) -> (r: String)
        ensures
            r@ == match self.status {
                Some(GameStatus::Won) => "You have won!"@,
                Some(GameStatus::Lost) => "You have lost!"@,
                Some(GameStatus::Played) => "Game ongoing"@,
                None => "Pause"@,
            },
    {
        match self.status {
            Some(GameStatus::Won) => String::from_str("You have won!"),
            Some(GameStatus::Lost) => String::from_str("You have lost!"),
            Some(GameStatus::Played) => String::from_str("Game ongoing"),
            None => String::from_str("Pause"),
        }
    }

    /// Cell of the reward.
    pub fn reward_cell_idx(&self) -> (r: usize)
        ensures
            r == self.reward_cell.idx,
    {
        self.reward_cell.idx
    }

    /// The board side length.
    pub fn size(&self) -> (r: usize)
        ensures
            r == self.size,
    {
        self.size
    }

    /// The number of cells of the board.
    pub fn get_2d_size(&self) -> (r: usize)
        requires
            self.grid_ok(),
        ensures
            r == self.area(),
    {
        self.size * self.size
    }

    /// Whether every index held by the world fits a board of side
    /// `new_size`.
    pub open spec fn fits_board(self, new_size: int) -> bool {
        &&& forall|i: int|
            0 <= i < self.snake.body@.len() ==> (self.snake.body@[i].0 as int) < new_size * new_size
        &&& (self.reward_cell.idx as int) < new_size * new_size
        &&& match self.next_cell {
            Some(c) => (c.0 as int) < new_size * new_size,
            None => true,
        }
        &&& match self.trap_cell {
            Some(t) => (t.idx as int) < new_size * new_size,
            None => true,
        }
        &&& match self.super_bonus_cell {
            Some(b) => (b.0 as int) < new_size * new_size,
            None => true,
        }
        &&& match self.moving_cell {
            Some(m) => (m.idx as int) < new_size * new_size,
            None => true,
        }
    }

    /// Change the board side.  The caller must ensure everything already
    /// on the board still fits.
    pub fn set_size(&mut self, new_size: usize)
        requires
            new_size >= 1,
            (new_size as int) * (new_size as int) <= usize::MAX,
            old(self).fits_board(new_size as int),
        ensures
            final(self).size == new_size,
            final(self).same_snake(*old(self)),
            final(self).same_scores(*old(self)),
            final(self).same_counters(*old(self)),
            final(self).same_reward(*old(self)),
            final(self).same_trap(*old(self)),
            final(self).same_bonus(*old(self)),
            final(self).same_target(*old(self)),
            final(self).status == old(self).status,
            final(self).reason == old(self).reason,
    {
        self.size = new_size;
    }

    /// The cell under the snake head.
    pub fn snake_head_index(&self) -> (r: usize)
        requires
            self.snake.body@.len() >= 1,
        ensures
            r == self.spec_head(),
    {
        self.snake.body[0].0
    }

    /// The remaining turn budget.
    pub fn get_steps(&self) -> (r: usize)
        ensures
            r == self.steps,
    {
        self.steps
    }

    /// Queue a turn: the head cell the new heading leads to is remembered
    /// and consumed on the next tick, unless it would reverse straight
    /// into the snake's neck, in which case the request is dropped.
    pub fn change_snake_direction(&mut self, direction: Direction)
        requires
            old(self).grid_ok(),
            old(self).cells_ok(),
        ensures
            ({
                let nc = spec_neighbor(old(self).spec_head(), direction, old(self).size as int);
                if nc == old(self).snake.body@[1].0 {
                    *final(self) == *old(self)
                } else {
                    &&& final(self).next_cell == Some(SnakeCell(nc as usize))
                    &&& final(self).snake.direction == direction
                    &&& final(self).snake.body@ == old(self).snake.body@
                    &&& final(self).same_scores(*old(self))
                    &&& final(self).same_counters(*old(self))
                    &&& final(self).same_reward(*old(self))
                    &&& final(self).same_trap(*old(self))
                    &&& final(self).same_bonus(*old(self))
                    &&& final(self).same_target(*old(self))
                    &&& final(self).same_meta(*old(self))
                }
            }),
    {
        let next_cell = self.generate_next_snake_cell(&direction);
        if self.snake.body[1].0 == next_cell.0 {
            return ;
        }
        self.next_cell = Some(next_cell);
        self.snake.direction = direction;
    }

    /// An ordered read-only copy of the snake body, head first.
    pub fn snake_cells(&self) -> (r: Vec<SnakeCell>)
        ensures
            r@ == self.snake.body@,
    {
        clone_body(&self.snake.body)
    }

    /// The snake length.
    pub fn snake_length(&self) -> (r: usize)
        ensures
            r == self.snake.body@.len(),
    {
        self.snake.body.len()
    }

    /// The cell one wraparound step from the head in `direction`.
    fn generate_next_snake_cell(&self, direction: &Direction) -> (r: SnakeCell)
        requires
            self.grid_ok(),
            self.cells_ok(),
        ensures
            r.0 == spec_neighbor(self.spec_head(), *direction, self.size as int),
            (r.0 as int) < self.area(),
    {
        let snake_idx = self.snake_head_index();
        SnakeCell(neighbor(snake_idx, *direction, self.size))
    }

    /// The total of the four consumption counters.
    fn consumed_items(&self) -> (r: usize)
        ensures
            r == self.spec_consumed_items(),
    {
        sat_add(
            sat_add(sat_add(self.consumed_traps, self.consumed_rewards), self.consumed_super_bonuses),
            self.consumed_moving_targets,
        )
    }

    /// Human-readable loss reason.
    pub fn get_reason(&self) -> (r: String)
        ensures
            r@ == match self.reason {
                Reason::Eaten => "Eaten by enemy"@,
                Reason::NotActive => "Not active, death from hungry"@,
                Reason::StillAlive => "More than alive!"@,
                Reason::Suicide => "Suiside due to depression"@,
            },
    {
        match self.reason {
            Reason::Eaten => String::from_str("Eaten by enemy"),
            Reason::NotActive => String::from_str("Not active, death from hungry"),
            Reason::StillAlive => String::from_str("More than alive!"),
            Reason::Suicide => String::from_str("Suiside due to depression"),
        }
    }

    /// The starvation rule: every hundred ticks the game is lost unless
    /// one item per twenty lifetime ticks has been consumed.
    fn check_activity(&mut self)
        ensures
            final(self).same_snake(*old(self)),
            final(self).same_scores(*old(self)),
            final(self).same_counters(*old(self)),
            final(self).same_reward(*old(self)),
            final(self).same_trap(*old(self)),
            final(self).same_bonus(*old(self)),
            final(self).same_target(*old(self)),
            final(self).size == old(self).size,
            if old(self).life_steps % 100 == 0 && old(self).spec_consumed_items() < old(self).life_steps / 20 {
                final(self).status == Some(GameStatus::Lost) && final(self).reason
                    == Reason::NotActive
            } else {
                final(self).status == old(self).status && final(self).reason == old(self).reason
            },
    {
        if self.life_steps % 100 == 0 && self.consumed_items() < self.life_steps / 20 {
            self.reason = Reason::NotActive;
            self.status = Some(GameStatus::Lost);
        }
    }

    /// Despawn the moving target and re-roll its respawn countdown.
    fn remove_moving_target(&mut self)
        requires
            old(self).grid_ok(),
        ensures
            final(self).moving_cell is None,
            5 <= final(self).steps_to_moving_target < 4 * old(self).size + 5,
            final(self).same_snake(*old(self)),
            final(self).same_scores(*old(self)),
            final(self).same_counters(*old(self)),
            final(self).same_reward(*old(self)),
            final(self).same_trap(*old(self)),
            final(self).same_bonus(*old(self)),
            final(self).same_meta(*old(self)),
    {
        self.moving_cell = None;
        let size = self.size;
        self.steps_to_moving_target = Self::gen_moving_target_steps(&mut self.rng, size);
    }

    /// The head landed on the moving target: grow by one, score its
    /// consumption value, and despawn it.
    fn consume_moving_target(&mut self)
        requires
            old(self).grid_ok(),
            old(self).snake.body@.len() >= 2,
        ensures
            final(self).snake.body@ == old(self).snake.body@.push(old(self).snake.body@[1]),
            final(self).snake.direction == old(self).snake.direction,
            final(self).next_cell == old(self).next_cell,
            match old(self).moving_cell {
                Some(m) => final(self).points == sadd(old(self).points as int, m.spec_points())
                    && final(self).bonus_points == sadd(
                    old(self).bonus_points as int,
                    m.spec_points(),
                ),
                None => final(self).points == old(self).points && final(self).bonus_points == old(self).bonus_points,
            },
            final(self).consumed_moving_targets == sadd(
                old(self).consumed_moving_targets as int,
                1,
            ),
            final(self).moving_cell is None,
            5 <= final(self).steps_to_moving_target < 4 * old(self).size + 5,
            final(self).steps == old(self).steps,
            final(self).steps_refill == old(self).steps_refill,
            final(self).same_reward(*old(self)),
            final(self).same_trap(*old(self)),
            final(self).same_bonus(*old(self)),
            final(self).same_meta(*old(self)),
            final(self).consumed_rewards == old(self).consumed_rewards,
            final(self).consumed_traps == old(self).consumed_traps,
            final(self).consumed_super_bonuses == old(self).consumed_super_bonuses,
            final(self).life_steps == old(self).life_steps,
            final(self).eaten_by_enemy == old(self).eaten_by_enemy,
            final(self).max_snake_size == old(self).max_snake_size,
    {
        let neck = self.snake.body[1];
        self.snake.body.push(neck);
        let points = self.moving_target_points();
        self.points = sat_add(self.points, points);
        self.bonus_points = sat_add(self.bonus_points, points);
        self.consumed_moving_targets = sat_add(self.consumed_moving_targets, 1);
        self.remove_moving_target();
    }

    /// Grant the moving target extra points, if it is spawned.
    fn increase_moving_cell_points(&mut self, points: usize)
        ensures
            match old(self).moving_cell {
                Some(m) => final(self).moving_cell matches Some(m2) && m2.points == sadd(
                    m.points as int,
                    points as int,
                ) && m2.idx == m.idx && m2.direction == m.direction && m2.life == m.life
                    && m2.decision_steps == m.decision_steps && m2.steps_to_move == m.steps_to_move,
                None => final(self).moving_cell is None,
            },
            final(self).steps_to_moving_target == old(self).steps_to_moving_target,
            final(self).same_snake(*old(self)),
            final(self).same_scores(*old(self)),
            final(self).same_counters(*old(self)),
            final(self).same_reward(*old(self)),
            final(self).same_trap(*old(self)),
            final(self).same_bonus(*old(self)),
            final(self).same_meta(*old(self)),
    {
        match self.moving_cell {
            Some(mut moving_target) => {
                moving_target.points = sat_add(moving_target.points, points);
                self.moving_cell = Some(moving_target);
            },
            None => {},
        }
    }

    /// The moving target bit a snake segment: zero the score, reward the
    /// target, and truncate the snake at the bitten cell (never above
    /// position four) — or lose the game when the snake is already short.
    fn moving_cell_bite_snake(&mut self)
        requires
            old(self).grid_ok(),
            old(self).cells_ok(),
        ensures
            final(self).points == 0,
            final(self).eaten_by_enemy == sadd(old(self).eaten_by_enemy as int, 1),
            final(self).bonus_points == old(self).bonus_points,
            final(self).steps == old(self).steps,
            final(self).steps_refill == old(self).steps_refill,
            final(self).same_reward(*old(self)),
            final(self).same_trap(*old(self)),
            final(self).same_bonus(*old(self)),
            final(self).size == old(self).size,
            final(self).steps_to_moving_target == old(self).steps_to_moving_target,
            final(self).consumed_rewards == old(self).consumed_rewards,
            final(self).consumed_traps == old(self).consumed_traps,
            final(self).consumed_super_bonuses == old(self).consumed_super_bonuses,
            final(self).consumed_moving_targets == old(self).consumed_moving_targets,
            final(self).life_steps == old(self).life_steps,
            final(self).max_snake_size == old(self).max_snake_size,
            final(self).snake.direction == old(self).snake.direction,
            final(self).next_cell == old(self).next_cell,
            match old(self).moving_cell {
                None => final(self).moving_cell is None && final(self).snake.body@ == old(self).snake.body@ && final(self).status == old(self).status && final(self).reason
                    == old(self).reason,
                Some(m) => {
                    &&& (final(self).moving_cell matches Some(m2) && m2.idx == m.idx
                        && m2.direction == m.direction && m2.decision_steps == m.decision_steps
                        && m2.steps_to_move == m.steps_to_move && m2.points == sadd(
                        m.points as int,
                        1500,
                    ) && m2.life == (if occupied(old(self).snake.body@, m.idx as int) {
                        sadd(m.life as int, 30)
                    } else {
                        m.life as int
                    }))
                    &&& (if occupied(old(self).snake.body@, m.idx as int) {
                        if old(self).snake.body@.len() > 4 {
                            &&& final(self).status == old(self).status
                            &&& final(self).reason == old(self).reason
                            &&& 4 <= final(self).snake.body@.len() <= old(self).snake.body@.len()
                            &&& final(self).snake.body@ == old(self).snake.body@.subrange(
                                0,
                                final(self).snake.body@.len() as int,
                            )
                            &&& ({
                                let cut = final(self).snake.body@.len() as int;
                                cut > 4 ==> old(self).snake.body@[cut].0 == m.idx && !occupied(
                                    final(self).snake.body@,
                                    m.idx as int,
                                )
                            })
                            &&& (final(self).snake.body@.len() == 4 ==> exists|i: int|
                                0 <= i <= 4 && old(self).snake.body@[i].0 == m.idx)
                        } else {
                            &&& final(self).status == Some(GameStatus::Lost)
                            &&& final(self).reason == Reason::Eaten
                            &&& final(self).snake.body@ == old(self).snake.body@
                        }
                    } else {
                        &&& final(self).snake.body@ == old(self).snake.body@
                        &&& final(self).status == old(self).status
                        &&& final(self).reason == old(self).reason
                    })
                },
            },
    {
        self.points = 0;
        self.eaten_by_enemy = sat_add(self.eaten_by_enemy, 1);
        self.increase_moving_cell_points(1500);
        match self.moving_cell {
            Some(mut moving_target) => {
                let cut_index = moving_target.idx;
                match find_snake_cell_index(&self.snake.body, cut_index) {
                    Some(snake_cell) => {
                        moving_target.life = sat_add(moving_target.life, 30);
                        self.moving_cell = Some(moving_target);
                        let snake_cut_index: usize = if snake_cell > 4 {
                            snake_cell
                        } else {
                            4
                        };
                        if self.snake.body.len() > 4 {
                            self.snake.body.truncate(snake_cut_index);
                        } else {
                            self.reason = Reason::Eaten;
                            self.status = Some(GameStatus::Lost);
                        }
                    },
                    None => {},
                }
            },
            None => {},
        }
    }

    /// A moving target standing on the trap either despawns (low life) or
    /// is reset to 10 life and no points.
    fn check_moving_target_consume_trap(&mut self)
        ensures
            final(self).same_snake(*old(self)),
            final(self).same_scores(*old(self)),
            final(self).same_counters(*old(self)),
            final(self).same_reward(*old(self)),
            final(self).same_trap(*old(self)),
            final(self).same_bonus(*old(self)),
            final(self).same_meta(*old(self)),
            final(self).steps_to_moving_target == old(self).steps_to_moving_target,
            match (old(self).moving_cell, old(self).trap_cell) {
                (Some(m), Some(t)) => {
                    if m.idx == t.idx {
                        if m.life < 20 {
                            final(self).moving_cell is None
                        } else {
                            final(self).moving_cell matches Some(m2) && m2.idx == m.idx
                                && m2.direction == m.direction && m2.points == 0 && m2.life == 10
                                && m2.decision_steps == m.decision_steps && m2.steps_to_move
                                == m.steps_to_move
                        }
                    } else {
                        final(self).moving_cell == old(self).moving_cell
                    }
                },
                _ => final(self).moving_cell == old(self).moving_cell,
            },
    {
        let trap_idx_opt: Option<usize> = match self.trap_cell {
            Some(t) => Some(t.idx),
            None => None,
        };
        match (self.moving_cell, trap_idx_opt) {
            (Some(moving_target), Some(trap_idx)) => {
                if moving_target.idx == trap_idx {
                    if moving_target.life < 20 {
                        self.moving_cell = None;
                    } else {
                        let mut fed = moving_target;
                        fed.points = 0;
                        fed.life = 10;
                        self.moving_cell = Some(fed);
                    }
                }
            },
            _ => {},
        }
    }

    /// A moving target standing on the reward eats it: it gains life and
    /// points and the reward is respawned off the snake body.
    fn check_moving_target_consume_reward(&mut self)
        requires
            old(self).grid_ok(),
        ensures
            final(self).same_snake(*old(self)),
            final(self).same_scores(*old(self)),
            final(self).same_counters(*old(self)),
            final(self).same_trap(*old(self)),
            final(self).same_bonus(*old(self)),
            final(self).same_meta(*old(self)),
            final(self).steps_to_moving_target == old(self).steps_to_moving_target,
            match old(self).moving_cell {
                Some(m) => {
                    if m.idx == old(self).reward_cell.idx {
                        &&& (final(self).moving_cell matches Some(m2) && m2.idx == m.idx
                            && m2.direction == m.direction && m2.life == sadd(m.life as int, 10)
                            && m2.points == sadd(m.points as int, 100) && m2.decision_steps
                            == m.decision_steps && m2.steps_to_move == m.steps_to_move)
                        &&& (!board_full(old(self).snake.body@, old(self).area()) ==> (final(self).reward_cell.idx as int) < old(self).area() && !occupied(
                            old(self).snake.body@,
                            final(self).reward_cell.idx as int,
                        ) && final(self).reward_cell.reward_type == Some(
                            spec_reward_type(old(self).snake_len()),
                        ) && final(self).reward_cell.points == spec_reward_points(
                            old(self).snake_len(),
                        ))
                        &&& (board_full(old(self).snake.body@, old(self).area()) ==> final(self).same_reward(*old(self)))
                    } else {
                        final(self).moving_cell == old(self).moving_cell && final(self).same_reward(
                            *old(self),
                        )
                    }
                },
                None => final(self).moving_cell is None && final(self).same_reward(*old(self)),
            },
    {
        let reward_idx = self.reward_cell.idx;
        match self.moving_cell {
            Some(mut moving_target) => {
                if moving_target.idx == reward_idx {
                    moving_target.life = sat_add(moving_target.life, 10);
                    moving_target.points = sat_add(moving_target.points, 100);
                    self.moving_cell = Some(moving_target);
                    proof {
                        crate::grid::lemma_size_le_area(self.size as int);
                    }
                    let area = self.get_2d_size();
                    match Self::generate_reward_cell(&mut self.rng, area, &self.snake.body) {
                        Some(rc) => {
                            self.reward_cell = rc;
                        },
                        None => {},
                    }
                }
            },
            None => {},
        }
    }

    /// A moving target standing on the super bonus gains life and its
    /// value; the reward is respawned off the snake body.
    fn check_moving_target_consume_super_bonus(&mut self)
        requires
            old(self).grid_ok(),
        ensures
            final(self).same_snake(*old(self)),
            final(self).same_scores(*old(self)),
            final(self).same_counters(*old(self)),
            final(self).same_trap(*old(self)),
            final(self).same_bonus(*old(self)),
            final(self).same_meta(*old(self)),
            final(self).steps_to_moving_target == old(self).steps_to_moving_target,
            match (old(self).moving_cell, old(self).super_bonus_cell) {
                (Some(m), Some(b)) => {
                    if m.idx == b.0 {
                        &&& (final(self).moving_cell matches Some(m2) && m2.idx == m.idx
                            && m2.direction == m.direction && m2.life == sadd(m.life as int, 15)
                            && m2.points == sadd(
                            m.points as int,
                            sadd(old(self).spec_super_bonus_points(), 300),
                        ) && m2.decision_steps == m.decision_steps && m2.steps_to_move
                            == m.steps_to_move)
                        &&& (!board_full(old(self).snake.body@, old(self).area()) ==> (final(self).reward_cell.idx as int) < old(self).area() && !occupied(
                            old(self).snake.body@,
                            final(self).reward_cell.idx as int,
                        ) && final(self).reward_cell.reward_type == Some(
                            spec_reward_type(old(self).snake_len()),
                        ) && final(self).reward_cell.points == spec_reward_points(
                            old(self).snake_len(),
                        ))
                        &&& (board_full(old(self).snake.body@, old(self).area()) ==> final(self).same_reward(*old(self)))
                    } else {
                        final(self).moving_cell == old(self).moving_cell && final(self).same_reward(
                            *old(self),
                        )
                    }
                },
                _ => final(self).moving_cell == old(self).moving_cell && final(self).same_reward(
                    *old(self),
                ),
            },
    {
        let bonus_idx_opt: Option<usize> = match self.super_bonus_cell {
            Some(b) => Some(b.0),
            None => None,
        };
        let bonus_points = self.super_bonus_points();
        match (self.moving_cell, bonus_idx_opt) {
            (Some(mut moving_target), Some(bonus_idx)) => {
                if moving_target.idx == bonus_idx {
                    moving_target.life = sat_add(moving_target.life, 15);
                    moving_target.points = sat_add(
                        moving_target.points,
                        sat_add(bonus_points, 300),
                    );
                    self.moving_cell = Some(moving_target);
                    proof {
                        crate::grid::lemma_size_le_area(self.size as int);
                    }
                    let area = self.get_2d_size();
                    match Self::generate_reward_cell(&mut self.rng, area, &self.snake.body) {
                        Some(rc) => {
                            self.reward_cell = rc;
                        },
                        None => {},
                    }
                }
            },
            _ => {},
        }
    }

    /// One tick of moving-target behavior: age and despawn at zero life,
    /// tick the decision cadence and move on its beat, or count down to a
    /// fresh spawn while absent.
    fn check_moving_target(&mut self)
        requires
            old(self).grid_ok(),
            old(self).cells_ok(),
            match old(self).moving_cell {
                Some(m) => (m.idx as int) < old(self).area(),
                None => true,
            },
        ensures
            final(self).same_snake(*old(self)),
            final(self).same_scores(*old(self)),
            final(self).same_counters(*old(self)),
            final(self).same_reward(*old(self)),
            final(self).same_trap(*old(self)),
            final(self).same_bonus(*old(self)),
            final(self).same_meta(*old(self)),
            match final(self).moving_cell {
                Some(m) => (m.idx as int) < final(self).area(),
                None => true,
            },
            match old(self).moving_cell {
                Some(m) => {
                    if m.life == 0 {
                        final(self).moving_cell is None && 5 <= final(self).steps_to_moving_target
                            < 4 * old(self).size + 5
                    } else {
                        (final(self).moving_cell matches Some(m2) && m2.life == m.life - 1
                            && m2.points == m.points && (if m.decision_steps == 0 {
                            if m.steps_to_move == 0 {
                                &&& m2.idx == spec_neighbor(
                                    m.idx as int,
                                    m2.direction,
                                    old(self).size as int,
                                )
                                &&& 2 <= m2.steps_to_move < 4
                                &&& m2.decision_steps == 0
                            } else {
                                &&& m2.idx == m.idx
                                &&& m2.steps_to_move == m.steps_to_move - 1
                                &&& m2.decision_steps == 0
                            }
                        } else {
                            &&& m2.idx == m.idx
                            &&& m2.direction == m.direction
                            &&& m2.decision_steps == m.decision_steps - 1
                            &&& m2.steps_to_move == m.steps_to_move
                        })) && final(self).steps_to_moving_target == old(self).steps_to_moving_target
                    }
                },
                None => {
                    if old(self).steps_to_moving_target == 0 {
                        if old(self).snake_len() < old(self).area() - old(self).size {
                            (final(self).moving_cell matches Some(m) && m.life == 50 && m.points
                                == 500 && !occupied(old(self).snake.body@, m.idx as int)) && final(self).steps_to_moving_target == old(self).steps_to_moving_target
                        } else {
                            final(self).moving_cell is None && final(self).steps_to_moving_target
                                == old(self).steps_to_moving_target
                        }
                    } else {
                        final(self).moving_cell is None && final(self).steps_to_moving_target == old(self).steps_to_moving_target - 1
                    }
                },
            },
    {
        match self.moving_cell {
            Some(mut moving_target) => {
                if moving_target.life == 0 {
                    self.remove_moving_target();
                } else {
                    if moving_target.decision_steps == 0 {
                        moving_target.change_direction(&mut self.rng);
                        let map_length = self.size;
                        moving_target.next_move(&mut self.rng, map_length);
                    } else {
                        moving_target.decision_steps = moving_target.decision_steps - 1;
                    }
                    moving_target.decrease_life_steps();
                    self.moving_cell = Some(moving_target);
                }
            },
            None => {
                if self.steps_to_moving_target == 0 {
                    proof {
                        crate::grid::lemma_size_le_area(self.size as int);
                    }
                    let area = self.get_2d_size();
                    let headroom = area - self.size;
                    if self.snake.body.len() < headroom {
                        match Self::generate_moving_target(&mut self.rng, area, &self.snake.body) {
                            Some(m) => {
                                self.moving_cell = Some(m);
                            },
                            None => {
                                proof {
                                    lemma_free_cell_exists(self.snake.body@, area as int);
                                    assert(false);
                                }
                            },
                        }
                    }
                } else {
                    self.steps_to_moving_target = self.steps_to_moving_target - 1;
                }
            },
        }
    }

    /// Score the super bonus and clear it.  The award is computed from the
    /// current snake length, whether or not a bonus is spawned.
    pub fn super_bonus_consumption(&mut self)
        ensures
            final(self).points == sadd(old(self).points as int, old(self).spec_super_bonus_points()),
            final(self).bonus_points == sadd(
                old(self).bonus_points as int,
                old(self).spec_super_bonus_points(),
            ),
            final(self).super_bonus_cell is None,
            final(self).super_bonus_steps == old(self).super_bonus_steps,
            final(self).steps == old(self).steps,
            final(self).steps_refill == old(self).steps_refill,
            final(self).same_snake(*old(self)),
            final(self).same_counters(*old(self)),
            final(self).same_reward(*old(self)),
            final(self).same_trap(*old(self)),
            final(self).same_target(*old(self)),
            final(self).same_meta(*old(self)),
    {
        let pts = self.super_bonus_points();
        self.bonus_points = sat_add(self.bonus_points, pts);
        self.points = sat_add(self.points, pts);
        self.super_bonus_cell = None;
    }

    /// One tick of super-bonus behavior: consume it under the head, decay
    /// it, and count down to a fresh spawn, suppressed while the snake
    /// leaves too little headroom.
    fn check_super_bonus(&mut self)
        requires
            old(self).grid_ok(),
            old(self).cells_ok(),
            match old(self).super_bonus_cell {
                Some(b) => b.1 >= 1 && (b.0 as int) < old(self).area(),
                None => true,
            },
        ensures
            final(self).same_snake(*old(self)),
            final(self).same_counters(*old(self)),
            final(self).same_reward(*old(self)),
            final(self).same_trap(*old(self)),
            final(self).same_target(*old(self)),
            final(self).same_meta(*old(self)),
            final(self).steps == old(self).steps,
            final(self).steps_refill == old(self).steps_refill,
            ({
                let hit = match old(self).super_bonus_cell {
                    Some(b) => b.0 as int == old(self).spec_head(),
                    None => false,
                };
                if hit {
                    final(self).points == sadd(
                        old(self).points as int,
                        old(self).spec_super_bonus_points(),
                    ) && final(self).bonus_points == sadd(
                        old(self).bonus_points as int,
                        old(self).spec_super_bonus_points(),
                    )
                } else {
                    final(self).points == old(self).points && final(self).bonus_points == old(self).bonus_points
                }
            }),
            match final(self).super_bonus_cell {
                Some(b) => (b.0 as int) < final(self).area() && b.1 >= 1 && ((match old(self).super_bonus_cell {
                    Some(b0) => b.0 == b0.0 && b.1 == b0.1 - 1,
                    None => false,
                }) || (b.1 == 5 && !occupied(old(self).snake.body@, b.0 as int))),
                None => true,
            },
            // The cell decays by one and vanishes at zero life or on
            // consumption; the countdown is first raised to the decayed
            // life when lower, then ticks down, and at zero a fresh bonus
            // spawns — headroom permitting — with a fresh jittered
            // countdown.
            ({
                let hit = match old(self).super_bonus_cell {
                    Some(b) => b.0 as int == old(self).spec_head(),
                    None => false,
                };
                let decayed = match old(self).super_bonus_cell {
                    Some(b) => if hit || b.1 == 1 {
                        None
                    } else {
                        Some(SuperBonus(b.0, (b.1 - 1) as usize))
                    },
                    None => None,
                };
                let raised = match old(self).super_bonus_cell {
                    Some(b) => if !hit && old(self).super_bonus_steps < b.1 - 1 {
                        (b.1 - 1) as usize
                    } else {
                        old(self).super_bonus_steps
                    },
                    None => old(self).super_bonus_steps,
                };
                let ticked: usize = if raised > 0 {
                    (raised - 1) as usize
                } else {
                    0
                };
                let spawning = ticked == 0 && old(self).snake_len() < old(self).area() - old(self).size;
                &&& (!spawning ==> final(self).super_bonus_cell == decayed && final(self).super_bonus_steps == ticked)
                &&& (spawning ==> (final(self).super_bonus_cell matches Some(b2) && b2.1 == 5
                    && (b2.0 as int) < old(self).area() && !occupied(
                    old(self).snake.body@,
                    b2.0 as int,
                )) && 4 <= final(self).super_bonus_steps < 2 * old(self).size + 4)
            }),
    {
        let head = self.snake.body[0].0;
        let hit = match self.super_bonus_cell {
            Some(b) => b.0 == head,
            None => false,
        };
        if hit {
            self.super_bonus_consumption();
        }
        match self.super_bonus_cell {
            Some(b) => {
                let new_life = b.1 - 1;
                if self.super_bonus_steps < new_life {
                    self.super_bonus_steps = new_life;
                }
                if new_life == 0 {
                    self.super_bonus_cell = None;
                } else {
                    self.super_bonus_cell = Some(SuperBonus(b.0, new_life));
                }
            },
            None => {},
        }
        if self.super_bonus_steps > 0 {
            self.super_bonus_steps = self.super_bonus_steps - 1;
        }
        if self.super_bonus_steps == 0 {
            proof {
                crate::grid::lemma_size_le_area(self.size as int);
            }
            let area = self.get_2d_size();
            let headroom = area - self.size;
            if self.snake.body.len() < headroom {
                match Self::generate_super_bonus(&mut self.rng, area, &self.snake.body) {
                    Some(b) => {
                        self.super_bonus_cell = Some(b);
                        let size = self.size;
                        self.super_bonus_steps = Self::gen_super_bonus_steps(&mut self.rng, size);
                    },
                    None => {
                        proof {
                            lemma_free_cell_exists(self.snake.body@, area as int);
                            assert(false);
                        }
                    },
                }
            }
        }
    }

    /// Add `bonus` to both the score and the bonus total.
    fn increase_points(&mut self, bonus: usize)
        ensures
            final(self).points == sadd(old(self).points as int, bonus as int),
            final(self).bonus_points == sadd(old(self).bonus_points as int, bonus as int),
            final(self).steps == old(self).steps,
            final(self).steps_refill == old(self).steps_refill,
            final(self).same_snake(*old(self)),
            final(self).same_counters(*old(self)),
            final(self).same_reward(*old(self)),
            final(self).same_trap(*old(self)),
            final(self).same_bonus(*old(self)),
            final(self).same_target(*old(self)),
            final(self).same_meta(*old(self)),
    {
        self.bonus_points = sat_add(self.bonus_points, bonus);
        self.points = sat_add(self.points, bonus);
    }

    /// Add the reward's current value to the score.
    fn add_points(&mut self)
        ensures
            final(self).points == sadd(old(self).points as int, old(self).reward_cell.points as int),
            final(self).bonus_points == old(self).bonus_points,
            final(self).steps == old(self).steps,
            final(self).steps_refill == old(self).steps_refill,
            final(self).same_snake(*old(self)),
            final(self).same_counters(*old(self)),
            final(self).same_reward(*old(self)),
            final(self).same_trap(*old(self)),
            final(self).same_bonus(*old(self)),
            final(self).same_target(*old(self)),
            final(self).same_meta(*old(self)),
    {
        self.points = sat_add(self.points, self.reward_cell.points);
    }

    /// The turn budget ran out: shrink the reward's value by one third and
    /// replenish the budget.
    fn reduce_points(&mut self)
        ensures
            final(self).reward_cell.idx == old(self).reward_cell.idx,
            final(self).reward_cell.reward_type == old(self).reward_cell.reward_type,
            final(self).reward_cell.points == old(self).reward_cell.points - old(self).reward_cell.points as int / 3,
            final(self).steps == sadd(old(self).steps as int, old(self).steps_refill as int),
            final(self).steps_refill == old(self).steps_refill,
            final(self).points == old(self).points,
            final(self).bonus_points == old(self).bonus_points,
            final(self).same_snake(*old(self)),
            final(self).same_counters(*old(self)),
            final(self).same_trap(*old(self)),
            final(self).same_bonus(*old(self)),
            final(self).same_target(*old(self)),
            final(self).same_meta(*old(self)),
    {
        self.reward_cell.points = self.reward_cell.points - self.reward_cell.points / 3;
        self.steps = sat_add(self.steps, self.steps_refill);
    }

    /// The head landed on the reward: award any step-surplus bonus,
    /// replenish the turn budget, score the reward, respawn it (or win on
    /// a full board), and grow the snake.
    fn consume_reward(&mut self)
        requires
            old(self).grid_ok(),
            old(self).cells_ok(),
        ensures
            final(self).consumed_rewards == sadd(old(self).consumed_rewards as int, 1),
            final(self).snake.body@ == old(self).snake.body@.push(old(self).snake.body@[1]),
            final(self).snake.direction == old(self).snake.direction,
            final(self).next_cell == old(self).next_cell,
            ({
                let sb = if old(self).steps > old(self).steps_refill {
                    old(self).steps as int
                } else {
                    0
                };
                let mid = if sb != 0 {
                    sadd(old(self).points as int, sadd(sb, 1))
                } else {
                    old(self).points as int
                };
                &&& final(self).points == sadd(mid, old(self).reward_cell.points as int)
                &&& final(self).bonus_points == (if sb != 0 {
                    sadd(old(self).bonus_points as int, sadd(sb, 1))
                } else {
                    old(self).bonus_points as int
                })
            }),
            final(self).steps == sadd(old(self).steps as int, old(self).steps_refill as int),
            final(self).steps_refill == old(self).steps_refill,
            old(self).snake_len() < old(self).area() ==> ({
                &&& final(self).status == old(self).status
                &&& (final(self).reward_cell.idx as int) < old(self).area()
                &&& !occupied(old(self).snake.body@, final(self).reward_cell.idx as int)
                &&& final(self).reward_cell.reward_type == Some(
                    spec_reward_type(old(self).snake_len()),
                )
                &&& final(self).reward_cell.points == spec_reward_points(old(self).snake_len())
            }),
            old(self).snake_len() >= old(self).area() ==> final(self).status == Some(
                GameStatus::Won,
            ) && final(self).same_reward(*old(self)),
            final(self).reason == old(self).reason,
            final(self).size == old(self).size,
            final(self).same_trap(*old(self)),
            final(self).same_bonus(*old(self)),
            final(self).same_target(*old(self)),
            final(self).consumed_traps == old(self).consumed_traps,
            final(self).consumed_super_bonuses == old(self).consumed_super_bonuses,
            final(self).consumed_moving_targets == old(self).consumed_moving_targets,
            final(self).life_steps == old(self).life_steps,
            final(self).eaten_by_enemy == old(self).eaten_by_enemy,
            final(self).max_snake_size == old(self).max_snake_size,
    {
        self.consumed_rewards = sat_add(self.consumed_rewards, 1);
        let bonus = self.comming_bonus_by_steps();
        if bonus != 0 {
            self.increase_points(sat_add(bonus, 1));
        }
        self.steps = sat_add(self.steps, self.steps_refill);
        self.add_points();
        proof {
            crate::grid::lemma_size_le_area(self.size as int);
        }
        let area = self.get_2d_size();
        if self.snake.body.len() < area {
            match Self::generate_reward_cell(&mut self.rng, area, &self.snake.body) {
                Some(rc) => {
                    self.reward_cell = rc;
                },
                None => {
                    proof {
                        lemma_free_cell_exists(self.snake.body@, area as int);
                        assert(false);
                    }
                },
            }
        } else {
            self.status = Some(GameStatus::Won);
        }
        let neck = self.snake.body[1];
        self.snake.body.push(neck);
    }

    /// Despawn the trap.
    fn clear_trap_cell(&mut self)
        ensures
            final(self).trap_cell is None,
            final(self).trap_steps == old(self).trap_steps,
            final(self).same_snake(*old(self)),
            final(self).same_scores(*old(self)),
            final(self).same_counters(*old(self)),
            final(self).same_reward(*old(self)),
            final(self).same_bonus(*old(self)),
            final(self).same_target(*old(self)),
            final(self).same_meta(*old(self)),
    {
        self.trap_cell = None;
    }

    /// The head landed on the trap: every fifth trap pays out the bonus
    /// total, any other halves the score; the snake loses its last cell
    /// and the trap despawns.
    fn consuming_trap(&mut self)
        requires
            old(self).snake.body@.len() >= 1,
        ensures
            final(self).consumed_traps == sadd(old(self).consumed_traps as int, 1),
            ({
                let n = sadd(old(self).consumed_traps as int, 1);
                if n % 5 == 0 {
                    final(self).points == sadd(old(self).points as int, old(self).bonus_points as int)
                } else {
                    final(self).points == old(self).points as int / 2
                }
            }),
            final(self).snake.body@ == old(self).snake.body@.drop_last(),
            final(self).snake.direction == old(self).snake.direction,
            final(self).next_cell == old(self).next_cell,
            final(self).trap_cell is None,
            final(self).trap_steps == old(self).trap_steps,
            final(self).bonus_points == old(self).bonus_points,
            final(self).steps == old(self).steps,
            final(self).steps_refill == old(self).steps_refill,
            final(self).same_reward(*old(self)),
            final(self).same_bonus(*old(self)),
            final(self).same_target(*old(self)),
            final(self).same_meta(*old(self)),
            final(self).consumed_rewards == old(self).consumed_rewards,
            final(self).consumed_super_bonuses == old(self).consumed_super_bonuses,
            final(self).consumed_moving_targets == old(self).consumed_moving_targets,
            final(self).life_steps == old(self).life_steps,
            final(self).eaten_by_enemy == old(self).eaten_by_enemy,
            final(self).max_snake_size == old(self).max_snake_size,
    {
        self.consumed_traps = sat_add(self.consumed_traps, 1);
        if self.consumed_traps % 5 == 0 {
            self.points = sat_add(self.points, self.bonus_points);
        } else {
            self.points = self.points / 2;
        }
        self.snake.body.pop();
        self.clear_trap_cell();
    }

    /// Spawn a fresh trap off the snake body and push its respawn
    /// countdown out by the trap's life plus clock jitter.  Suppressed
    /// while the snake is shorter than three cells or leaves fewer than
    /// ten cells of headroom.
    pub fn recreate_trap_cell(&mut self)
        requires
            old(self).grid_ok(),
            old(self).cells_ok(),
        ensures
            final(self).same_snake(*old(self)),
            final(self).same_scores(*old(self)),
            final(self).same_counters(*old(self)),
            final(self).same_reward(*old(self)),
            final(self).same_bonus(*old(self)),
            final(self).same_target(*old(self)),
            final(self).same_meta(*old(self)),
            (old(self).snake_len() < 3 || old(self).snake_len() + 10 > old(self).area()) ==> final(self).same_trap(*old(self)),
            (old(self).snake_len() >= 3 && old(self).snake_len() + 10 <= old(self).area()) ==> ({
                &&& final(self).trap_cell matches Some(t) && (t.idx as int) < old(self).area()
                    && !occupied(old(self).snake.body@, t.idx as int) && 2 <= t.life < 12 && (
                exists|j: int|
                    0 <= j < old(self).size && final(self).trap_steps == #[trigger] sadd(
                        old(self).trap_steps as int,
                        t.life + j,
                    ))
                &&& final(self).trap_steps >= old(self).trap_steps
            }),
    {
        if self.snake.body.len() < 3 {
            return ;
        }
        let area = self.get_2d_size();
        let len = self.snake.body.len();
        // the headroom rule, phrased additively so that small boards
        // cannot underflow
        if len > area || area - len < 10 {
            return ;
        }
        self.trap_cell = None;
        match Self::generate_trap_cell(&mut self.rng, area, &self.snake.body) {
            Some(trap_cell) => {
                self.trap_cell = Some(trap_cell);
                let jitter = self.clock.now() % self.size;
                proof {
                    lemma_countdown_fits(self.size as int);
                }
                let new_steps = sat_add(trap_cell.life, jitter);
                self.trap_steps = sat_add(self.trap_steps, new_steps);
                proof {
                    assert((jitter as int) < (old(self).size as int));
                    assert(self.trap_steps == sadd(
                        old(self).trap_steps as int,
                        trap_cell.life + jitter,
                    ));
                }
            },
            None => {
                proof {
                    lemma_free_cell_exists(self.snake.body@, area as int);
                    assert(false);
                }
            },
        }
    }

    /// One tick of trap behavior: decay it, consume it under the head,
    /// and count down to a fresh spawn.
    fn check_trap(&mut self)
        requires
            old(self).grid_ok(),
            old(self).cells_ok(),
            match old(self).trap_cell {
                Some(t) => (t.idx as int) < old(self).area() && t.life >= 1 && old(self).snake.body@.len() >= 3,
                None => true,
            },
        ensures
            ({
                let hit = match old(self).trap_cell {
                    Some(t) => t.life > 1 && (t.idx as int) == old(self).spec_head(),
                    None => false,
                };
                &&& final(self).consumed_traps == (if hit {
                    sadd(old(self).consumed_traps as int, 1)
                } else {
                    old(self).consumed_traps as int
                })
                &&& (hit ==> final(self).snake.body@ == old(self).snake.body@.drop_last())
                &&& (!hit ==> final(self).snake.body@ == old(self).snake.body@)
                &&& (hit ==> ({
                    let n = sadd(old(self).consumed_traps as int, 1);
                    if n % 5 == 0 {
                        final(self).points == sadd(
                            old(self).points as int,
                            old(self).bonus_points as int,
                        )
                    } else {
                        final(self).points == old(self).points as int / 2
                    }
                }))
                &&& (!hit ==> final(self).points == old(self).points)
            }),
            final(self).snake.direction == old(self).snake.direction,
            final(self).next_cell == old(self).next_cell,
            final(self).bonus_points == old(self).bonus_points,
            final(self).steps == old(self).steps,
            final(self).steps_refill == old(self).steps_refill,
            final(self).same_reward(*old(self)),
            final(self).same_bonus(*old(self)),
            final(self).same_target(*old(self)),
            final(self).same_meta(*old(self)),
            final(self).consumed_rewards == old(self).consumed_rewards,
            final(self).consumed_super_bonuses == old(self).consumed_super_bonuses,
            final(self).consumed_moving_targets == old(self).consumed_moving_targets,
            final(self).life_steps == old(self).life_steps,
            final(self).eaten_by_enemy == old(self).eaten_by_enemy,
            final(self).max_snake_size == old(self).max_snake_size,
            match final(self).trap_cell {
                Some(t2) => (t2.idx as int) < final(self).area() && t2.life >= 1 && final(self).snake.body@.len() >= 3,
                None => true,
            },
            // The trap decays by one before the head check — so a trap at
            // one life expires unconsumed — and vanishes on consumption;
            // the respawn countdown ticks down when positive, and at zero
            // a fresh trap spawns off the post-consumption body, headroom
            // permitting, pushing the countdown out by its life plus
            // clock jitter.
            ({
                let hit = match old(self).trap_cell {
                    Some(t) => t.life > 1 && (t.idx as int) == old(self).spec_head(),
                    None => false,
                };
                let adjusted = match old(self).trap_cell {
                    Some(t) => if t.life == 1 || (t.life > 1 && (t.idx as int) == old(self).spec_head()) {
                        None
                    } else {
                        Some((TrapCell { idx: t.idx, life: (t.life - 1) as usize, color: t.color }))
                    },
                    None => None,
                };
                let body_after = if hit {
                    old(self).snake.body@.drop_last()
                } else {
                    old(self).snake.body@
                };
                let suppressed = body_after.len() < 3 || body_after.len() + 10 > old(self).area();
                &&& (old(self).trap_steps > 0 ==> final(self).trap_cell == adjusted && final(self).trap_steps == old(self).trap_steps - 1)
                &&& ((old(self).trap_steps == 0 && suppressed) ==> final(self).trap_cell == adjusted
                    && final(self).trap_steps == 0)
                &&& ((old(self).trap_steps == 0 && !suppressed) ==> (final(self).trap_cell matches Some(t)
                    && (t.idx as int) < old(self).area() && !occupied(body_after, t.idx as int) && 2
                    <= t.life < 12 && (exists|j: int|
                    0 <= j < old(self).size && final(self).trap_steps == #[trigger] sadd(
                        0,
                        t.life + j,
                    ))))
            }),
    {
        match self.trap_cell {
            Some(trap_cell) => {
                let new_life = trap_cell.life - 1;
                if new_life == 0 {
                    self.clear_trap_cell();
                } else {
                    self.trap_cell = Some(TrapCell::new(trap_cell.idx, new_life, trap_cell.color));
                }
            },
            None => {},
        }
        let head = self.snake.body[0].0;
        let hit = match self.trap_cell {
            Some(t) => t.idx == head,
            None => false,
        };
        if hit {
            self.consuming_trap();
        }
        if self.trap_steps == 0 {
            self.recreate_trap_cell();
        } else {
            self.trap_steps = self.trap_steps - 1;
        }
    }

    /// The snake never dies out and never leaves the board: a well-formed
    /// world always has a snake of at least one cell whose head index lies
    /// in `[0, size * size)`.
    pub proof fn lemma_snake_alive(self)
        requires
            self.wf(),
        ensures
            self.snake.body@.len() >= 1,
            0 <= self.spec_head() < self.area(),
    {
    }

    /// The starvation rule fires on this tick: a multiple of a hundred
    /// lifetime ticks with fewer consumptions than one per twenty ticks.
    pub open spec fn spec_starved(self) -> bool {
        self.life_steps % 100 == 0 && self.spec_consumed_items() < self.life_steps as int / 20
    }

    /// The cell the head moves to on the next played tick: the queued
    /// cell if a turn is pending, else one step along the heading.
    pub open spec fn spec_next_head(self) -> SnakeCell {
        match self.next_cell {
            Some(c) => c,
            None => SnakeCell(
                spec_neighbor(self.spec_head(), self.snake.direction, self.size as int) as usize,
            ),
        }
    }

    /// Advance the world one tick: track the longest length, apply the
    /// starvation rule, and — while the game is being played — move the
    /// snake one cell, consume whatever the head lands on, advance every
    /// entity's countdowns, and apply the cross-entity consumption rules,
    /// in a fixed order.  Terminal states are absorbing for the snake, the
    /// score and every entity.
    #[verifier::rlimit(100)]
    #[verifier::spinoff_prover]
    pub fn update(&mut self)
        requires
            old(self).wf(),
        ensures
            final(self).wf(),
            final(self).size == old(self).size,
            final(self).steps_refill == old(self).steps_refill,
            Self::counters_monotone(*old(self), *final(self)),
            final(self).max_snake_size == (if old(self).snake.body@.len() > old(self).max_snake_size {
                old(self).snake.body@.len() as int
            } else {
                old(self).max_snake_size as int
            }),
            (old(self).status == Some(GameStatus::Played) && !old(self).spec_starved()) ==> final(self).life_steps == sadd(old(self).life_steps as int, 1),
            final(self).snake.direction == old(self).snake.direction,
            (old(self).status == Some(GameStatus::Played) && !old(self).spec_starved()) ==> ({
                let head = old(self).spec_next_head();
                &&& final(self).next_cell is None
                &&& final(self).snake.body@[0] == head
                &&& final(self).consumed_moving_targets == (match old(self).moving_cell {
                    Some(m) => if m.idx == head.0 {
                        sadd(old(self).consumed_moving_targets as int, 1)
                    } else {
                        old(self).consumed_moving_targets as int
                    },
                    None => old(self).consumed_moving_targets as int,
                })
                &&& final(self).consumed_rewards == (if old(self).reward_cell.idx == head.0 {
                    sadd(old(self).consumed_rewards as int, 1)
                } else {
                    old(self).consumed_rewards as int
                })
                &&& final(self).consumed_traps == (match old(self).trap_cell {
                    Some(t) => if t.life > 1 && t.idx == head.0 {
                        sadd(old(self).consumed_traps as int, 1)
                    } else {
                        old(self).consumed_traps as int
                    },
                    None => old(self).consumed_traps as int,
                })
            }),
            !(old(self).status == Some(GameStatus::Played) && !old(self).spec_starved()) ==> ({
                &&& final(self).consumed_rewards == old(self).consumed_rewards
                &&& final(self).consumed_traps == old(self).consumed_traps
                &&& final(self).consumed_moving_targets == old(self).consumed_moving_targets
                &&& final(self).eaten_by_enemy == old(self).eaten_by_enemy
            }),
            final(self).consumed_super_bonuses == old(self).consumed_super_bonuses,
            (old(self).moving_cell is None && old(self).steps_to_moving_target != 0)
                ==> final(self).eaten_by_enemy == old(self).eaten_by_enemy,
            // A quiet tick — no moving target in play, nothing under the
            // new head but possibly a super bonus — is fully determined:
            // the body shifts one cell, the bonus pays if hit, and the
            // game is lost by suicide exactly when the new head cell was
            // held by a body cell other than the departing tail.
            ({
                let head = old(self).spec_next_head();
                let quiet = old(self).status == Some(GameStatus::Played) && !old(self).spec_starved() && old(self).moving_cell is None && old(self).steps_to_moving_target != 0 && old(self).reward_cell.idx != head.0 && (match old(self).trap_cell {
                    Some(t) => !(t.life > 1 && t.idx == head.0),
                    None => true,
                });
                let collided = occupied(
                    old(self).snake.body@.take(old(self).snake_len() - 1),
                    head.0 as int,
                );
                quiet ==> ({
                    &&& final(self).snake.body@.len() == old(self).snake.body@.len()
                    &&& (forall|j: int|
                        1 <= j < final(self).snake.body@.len() ==> final(self).snake.body@[j]
                            == old(self).snake.body@[j - 1])
                    &&& final(self).points == (match old(self).super_bonus_cell {
                        Some(b) => if b.0 == head.0 {
                            sadd(old(self).points as int, old(self).spec_super_bonus_points())
                        } else {
                            old(self).points as int
                        },
                        None => old(self).points as int,
                    })
                    &&& final(self).status == (if collided {
                        Some(GameStatus::Lost)
                    } else {
                        Some(GameStatus::Played)
                    })
                    &&& final(self).reason == (if collided {
                        Reason::Suicide
                    } else {
                        old(self).reason
                    })
                })
            }),
            // The self-collision rule: on a played tick with no moving
            // target in play, the game is lost by suicide exactly when the
            // new head cell is held by a body cell other than the
            // departing tail — save when a same-tick reward consumption on
            // a full board would win instead.
            ({
                let head = old(self).spec_next_head();
                let collided = occupied(
                    old(self).snake.body@.take(old(self).snake_len() - 1),
                    head.0 as int,
                );
                (old(self).status == Some(GameStatus::Played) && !old(self).spec_starved() && old(self).moving_cell is None && (old(self).reward_cell.idx != head.0 || old(self).snake_len()
                    < old(self).area())) ==> ({
                    &&& (collided ==> final(self).status == Some(GameStatus::Lost) && final(self).reason == Reason::Suicide)
                    &&& (!collided ==> final(self).status == Some(GameStatus::Played) && final(self).reason == old(self).reason)
                })
            }),
            // The win rule: when the head lands on the reward and the
            // snake already covers the board, the game is won and no new
            // reward is generated — provided no bite can intervene.
            ({
                let head = old(self).spec_next_head();
                let no_bite = match old(self).moving_cell {
                    Some(m) => m.idx == head.0,
                    None => true,
                };
                let grown: int = match old(self).moving_cell {
                    Some(m) => if m.idx == head.0 {
                        1
                    } else {
                        0
                    },
                    None => 0,
                };
                (old(self).status == Some(GameStatus::Played) && !old(self).spec_starved()
                    && no_bite && old(self).reward_cell.idx == head.0 && old(self).snake_len()
                    + grown >= old(self).area()) ==> final(self).status == Some(GameStatus::Won)
                    && final(self).reward_cell.idx == old(self).reward_cell.idx && final(self).reward_cell.reward_type == old(self).reward_cell.reward_type
            }),
            // The trap rule: on a played tick with no moving target in
            // play and the reward elsewhere, a consumed trap halves the
            // score as accumulated by this tick (or pays out the bonus
            // total on every fifth trap) and the snake shrinks by one.
            ({
                let head = old(self).spec_next_head();
                let bonus_hit = match old(self).super_bonus_cell {
                    Some(b) => b.0 == head.0,
                    None => false,
                };
                let base = if bonus_hit {
                    sadd(old(self).points as int, old(self).spec_super_bonus_points())
                } else {
                    old(self).points as int
                };
                let pool = if bonus_hit {
                    sadd(old(self).bonus_points as int, old(self).spec_super_bonus_points())
                } else {
                    old(self).bonus_points as int
                };
                let trap_hit = match old(self).trap_cell {
                    Some(t) => t.life > 1 && t.idx == head.0,
                    None => false,
                };
                (old(self).status == Some(GameStatus::Played) && !old(self).spec_starved() && old(self).moving_cell is None && old(self).reward_cell.idx != head.0 && trap_hit) ==> ({
                    let n = sadd(old(self).consumed_traps as int, 1);
                    &&& (n % 5 != 0 ==> final(self).points == base / 2)
                    &&& (n % 5 == 0 ==> final(self).points == sadd(base, pool))
                    &&& final(self).snake.body@.len() == old(self).snake.body@.len() - 1
                })
            }),
            !(old(self).status == Some(GameStatus::Played) && !old(self).spec_starved()) ==> final(self).life_steps == old(self).life_steps,
            // Any tick that does not enter the played branch — a paused or
            // terminal status, or a played tick ended by the starvation
            // rule — leaves the snake, the scores and every entity alone.
            !(old(self).status == Some(GameStatus::Played) && !old(self).spec_starved()) ==> ({
                &&& final(self).snake.body@ == old(self).snake.body@
                &&& final(self).snake.direction == old(self).snake.direction
                &&& final(self).next_cell == old(self).next_cell
                &&& final(self).points == old(self).points
                &&& final(self).bonus_points == old(self).bonus_points
                &&& final(self).steps == old(self).steps
                &&& final(self).same_reward(*old(self))
                &&& final(self).same_trap(*old(self))
                &&& final(self).same_bonus(*old(self))
                &&& final(self).same_target(*old(self))
            }),
            final(self).status == old(self).status || final(self).status == Some(GameStatus::Won)
                || final(self).status == Some(GameStatus::Lost),
            // The starvation rule: it runs ahead of the played branch,
            // whatever the status, and ends the game as not active.
            old(self).spec_starved() ==> final(self).status == Some(GameStatus::Lost) && final(self).reason == Reason::NotActive,
            // A tick on a paused or terminal status that does not starve
            // leaves the status and reason alone.
            (old(self).status != Some(GameStatus::Played) && !old(self).spec_starved()) ==> final(self).status == old(self).status && final(self).reason == old(self).reason,
    {
        self.update_max_snake_size();
        self.check_activity();
        let is_played = match self.status {
            Some(GameStatus::Played) => true,
            _ => false,
        };
        if is_played {
            self.played_tick();
        }
    }

    /// One played tick: move the head to the queued or computed next cell,
    /// consume whatever it landed on, shift the tail, advance every
    /// entity, check the loss rules and apply the cross-entity rules, in
    /// the fixed order.
    #[verifier::rlimit(100)]
    #[verifier::spinoff_prover]
    fn played_tick(&mut self)
        requires
            old(self).wf(),
            old(self).status == Some(GameStatus::Played),
        ensures
            final(self).wf(),
            final(self).size == old(self).size,
            final(self).steps_refill == old(self).steps_refill,
            Self::counters_monotone(*old(self), *final(self)),
            final(self).max_snake_size == old(self).max_snake_size,
            final(self).life_steps == sadd(old(self).life_steps as int, 1),
            final(self).snake.direction == old(self).snake.direction,
            final(self).status == Some(GameStatus::Played) || final(self).status == Some(
                GameStatus::Won,
            ) || final(self).status == Some(GameStatus::Lost),
            ({
                let head = old(self).spec_next_head();
                &&& final(self).next_cell is None
                &&& final(self).snake.body@[0] == head
                &&& final(self).consumed_moving_targets == (match old(self).moving_cell {
                    Some(m) => if m.idx == head.0 {
                        sadd(old(self).consumed_moving_targets as int, 1)
                    } else {
                        old(self).consumed_moving_targets as int
                    },
                    None => old(self).consumed_moving_targets as int,
                })
                &&& final(self).consumed_rewards == (if old(self).reward_cell.idx == head.0 {
                    sadd(old(self).consumed_rewards as int, 1)
                } else {
                    old(self).consumed_rewards as int
                })
                &&& final(self).consumed_traps == (match old(self).trap_cell {
                    Some(t) => if t.life > 1 && t.idx == head.0 {
                        sadd(old(self).consumed_traps as int, 1)
                    } else {
                        old(self).consumed_traps as int
                    },
                    None => old(self).consumed_traps as int,
                })
            }),
            final(self).consumed_super_bonuses == old(self).consumed_super_bonuses,
            (old(self).moving_cell is None && old(self).steps_to_moving_target != 0)
                ==> final(self).eaten_by_enemy == old(self).eaten_by_enemy,
            ({
                let head = old(self).spec_next_head();
                let quiet = old(self).moving_cell is None && old(self).steps_to_moving_target != 0
                    && old(self).reward_cell.idx != head.0 && (match old(self).trap_cell {
                    Some(t) => !(t.life > 1 && t.idx == head.0),
                    None => true,
                });
                let collided = occupied(
                    old(self).snake.body@.take(old(self).snake_len() - 1),
                    head.0 as int,
                );
                quiet ==> ({
                    &&& final(self).snake.body@.len() == old(self).snake.body@.len()
                    &&& (forall|j: int|
                        1 <= j < final(self).snake.body@.len() ==> final(self).snake.body@[j]
                            == old(self).snake.body@[j - 1])
                    &&& final(self).points == (match old(self).super_bonus_cell {
                        Some(b) => if b.0 == head.0 {
                            sadd(old(self).points as int, old(self).spec_super_bonus_points())
                        } else {
                            old(self).points as int
                        },
                        None => old(self).points as int,
                    })
                    &&& final(self).status == (if collided {
                        Some(GameStatus::Lost)
                    } else {
                        Some(GameStatus::Played)
                    })
                    &&& final(self).reason == (if collided {
                        Reason::Suicide
                    } else {
                        old(self).reason
                    })
                })
            }),
            // The self-collision rule: with no moving target in play, the
            // game is lost by suicide exactly when the new head cell is
            // held by a body cell other than the departing tail (which
            // vacates on the shift) — save when a same-tick reward
            // consumption on a full board would win instead.
            ({
                let head = old(self).spec_next_head();
                let collided = occupied(
                    old(self).snake.body@.take(old(self).snake_len() - 1),
                    head.0 as int,
                );
                (old(self).moving_cell is None && (old(self).reward_cell.idx != head.0 || old(self).snake_len() < old(self).area())) ==> ({
                    &&& (collided ==> final(self).status == Some(GameStatus::Lost) && final(self).reason == Reason::Suicide)
                    &&& (!collided ==> final(self).status == Some(GameStatus::Played) && final(self).reason == old(self).reason)
                })
            }),
            // The win rule: when the head lands on the reward and the
            // snake already covers the board, the game is won and no new
            // reward is generated — provided no bite can intervene (the
            // target is absent or is consumed by the same move).
            ({
                let head = old(self).spec_next_head();
                let no_bite = match old(self).moving_cell {
                    Some(m) => m.idx == head.0,
                    None => true,
                };
                let grown: int = match old(self).moving_cell {
                    Some(m) => if m.idx == head.0 {
                        1
                    } else {
                        0
                    },
                    None => 0,
                };
                (no_bite && old(self).reward_cell.idx == head.0 && old(self).snake_len() + grown
                    >= old(self).area()) ==> final(self).status == Some(GameStatus::Won) && final(self).reward_cell.idx == old(self).reward_cell.idx && final(self).reward_cell.reward_type
                    == old(self).reward_cell.reward_type
            }),
            // The trap rule at the tick boundary: with no moving target in
            // play and the reward elsewhere, a consumed trap halves the
            // score as accumulated by this tick (or pays out the bonus
            // total on every fifth trap) and the snake shrinks by one.
            ({
                let head = old(self).spec_next_head();
                let bonus_hit = match old(self).super_bonus_cell {
                    Some(b) => b.0 == head.0,
                    None => false,
                };
                let base = if bonus_hit {
                    sadd(old(self).points as int, old(self).spec_super_bonus_points())
                } else {
                    old(self).points as int
                };
                let pool = if bonus_hit {
                    sadd(old(self).bonus_points as int, old(self).spec_super_bonus_points())
                } else {
                    old(self).bonus_points as int
                };
                let trap_hit = match old(self).trap_cell {
                    Some(t) => t.life > 1 && t.idx == head.0,
                    None => false,
                };
                (old(self).moving_cell is None && old(self).reward_cell.idx != head.0 && trap_hit)
                    ==> ({
                    let n = sadd(old(self).consumed_traps as int, 1);
                    &&& (n % 5 != 0 ==> final(self).points == base / 2)
                    &&& (n % 5 == 0 ==> final(self).points == sadd(base, pool))
                    &&& final(self).snake.body@.len() == old(self).snake.body@.len() - 1
                })
            }),
    {
        self.life_steps = sat_add(self.life_steps, 1);
        self.steps = self.steps - 1;
        let temp = clone_body(&self.snake.body);
        let next = match self.next_cell {
            Some(cell) => {
                self.next_cell = None;
                cell
            },
            None => {
                let direction = self.snake.direction;
                self.generate_next_snake_cell(&direction)
            },
        };
        self.snake.body.set(0, next);
        let target_hit = match self.moving_cell {
            Some(m) => m.idx == next.0,
            None => false,
        };
        if target_hit {
            self.consume_moving_target();
        }
        shift_tail(&mut self.snake.body, &temp);
        proof {
            assert forall|i: int|
                0 <= i < self.snake.body@.len() implies (self.snake.body@[i].0 as int)
                < self.area() by {
                if i >= 1 {
                    assert(self.snake.body@[i] == temp@[i - 1]);
                }
            }
        }
        self.check_super_bonus();
        self.check_moving_target();
        if self.steps == 0 {
            self.reduce_points();
        }
        let head = self.snake.body[0].0;
        let suicide_hit = tail_contains(&self.snake.body, head);
        proof {
            // On a quiet tick the body is exactly the old one shifted, so
            // the collision scan over the shifted tail coincides with a
            // scan over the old body without its last cell.
            if old(self).moving_cell is None {
                let mid = self.snake.body@;
                let pre = old(self).snake.body@.take(old(self).snake_len() - 1);
                if suicide_hit {
                    let j = choose|j: int| 1 <= j < mid.len() && mid[j].0 == head;
                    assert(mid[j] == temp@[j - 1]);
                    assert(pre[j - 1].0 == head);
                    assert(occupied(pre, head as int));
                } else {
                    if occupied(pre, head as int) {
                        let i = choose|i: int| 0 <= i < pre.len() && pre[i].0 == head as int;
                        assert(mid[i + 1] == temp@[i]);
                        assert(mid[i + 1].0 == head);
                        assert(occupied_from(mid, 1, head as int));
                        assert(false);
                    }
                }
            }
        }
        if suicide_hit {
            self.reason = Reason::Suicide;
            self.status = Some(GameStatus::Lost);
        }
        let bite = match self.moving_cell {
            Some(m) => tail_contains(&self.snake.body, m.idx),
            None => false,
        };
        if bite {
            self.moving_cell_bite_snake();
        }
        if self.reward_cell.idx == self.snake.body[0].0 {
            self.consume_reward();
        }
        self.check_trap();
        self.check_moving_target_consume_trap();
        self.check_moving_target_consume_reward();
        self.check_moving_target_consume_super_bonus();
    }

    /// Track the greatest length the snake has ever had.
    fn update_max_snake_size(&mut self)
        ensures
            final(self).max_snake_size == if old(self).snake.body@.len() > old(self).max_snake_size {
                old(self).snake.body@.len() as int
            } else {
                old(self).max_snake_size as int
            },
            final(self).same_snake(*old(self)),
            final(self).same_scores(*old(self)),
            final(self).same_reward(*old(self)),
            final(self).same_trap(*old(self)),
            final(self).same_bonus(*old(self)),
            final(self).same_target(*old(self)),
            final(self).same_meta(*old(self)),
            final(self).consumed_rewards == old(self).consumed_rewards,
            final(self).consumed_traps == old(self).consumed_traps,
            final(self).consumed_super_bonuses == old(self).consumed_super_bonuses,
            final(self).consumed_moving_targets == old(self).consumed_moving_targets,
            final(self).life_steps == old(self).life_steps,
            final(self).eaten_by_enemy == old(self).eaten_by_enemy,
    {
        if self.snake_length() > self.max_snake_size {
            self.max_snake_size = self.snake.body.len();
        }
    }
}

} // verus!
