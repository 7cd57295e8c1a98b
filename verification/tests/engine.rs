use snake_engine::entities::{define_reward_points, define_reward_type};
use snake_engine::world::NO_CELL;
use snake_engine::{
    Direction, FixedClock, GameStatus, MovingTarget, RewardType, ScriptedRandom, SnakeCell,
    TrapCell, TrapColor, WorldMap,
};

fn world(
    size: usize,
    snake_idx: usize,
    script: Vec<usize>,
    instant: usize,
) -> WorldMap<ScriptedRandom, FixedClock> {
    WorldMap::new(
        size,
        snake_idx,
        ScriptedRandom::new(script),
        FixedClock::new(instant),
    )
}

fn cells(w: &WorldMap<ScriptedRandom, FixedClock>) -> Vec<usize> {
    w.snake_cells().iter().map(|c| c.0).collect()
}

#[test]
fn new_world_basics() {
    let w = world(5, 12, vec![7, 9, 19], 4);
    assert_eq!(w.size(), 5);
    assert_eq!(w.get_2d_size(), 25);
    assert_eq!(w.snake_length(), 3);
    assert_eq!(w.snake_head_index(), 12);
    assert_eq!(cells(&w), vec![12, 11, 10]);
    assert_eq!(w.game_status(), None);
    assert_eq!(w.game_status_text(), "Pause");
    assert_eq!(w.get_reason(), "More than alive!");
    assert_eq!(w.points(), 0);
    assert_eq!(w.bonus_stat(), 0);
    assert_eq!(w.get_steps(), 10);
    assert_eq!(w.reward_cell_idx(), 7);
    assert_eq!(w.get_reward_points(), 3);
    assert_eq!(w.get_reward_color(), "#FFEAAE");
    assert_eq!(w.trap_cell_idx(), NO_CELL);
    assert_eq!(w.trap_color(), "None");
    assert_eq!(w.trap_life(), 0);
    assert_eq!(w.trap_steps(), 6);
    assert_eq!(w.super_bonus_cell_idx(), NO_CELL);
    assert_eq!(w.super_bonus_cell_life(), 0);
    assert_eq!(w.super_bonus_steps(), 13);
    assert_eq!(w.moving_target_cell_idx(), NO_CELL);
    assert_eq!(w.moving_target_life(), 0);
    assert_eq!(w.moving_target_points(), 0);
    assert_eq!(w.steps_to_moving_target(), 24);
    let stat = w.get_game_stat();
    assert_eq!(stat.consumed_rewards, 0);
    assert_eq!(stat.consumed_traps, 0);
    assert_eq!(stat.super_bonuses, 0);
    assert_eq!(stat.consumed_moving_targets, 0);
    assert_eq!(stat.life_steps, 0);
    assert_eq!(stat.eaten_by_enemy, 0);
    assert_eq!(stat.snake_size, 3);
    assert_eq!(stat.points, 0);
    assert_eq!(stat.bonus, 0);
}

#[test]
fn reward_spawn_avoids_snake_body() {
    // The first two draws land on the snake and are rejected.
    let w = world(5, 12, vec![12, 11, 7, 9, 19], 4);
    assert_eq!(w.reward_cell_idx(), 7);
    assert!(!cells(&w).contains(&w.reward_cell_idx()));
}

#[test]
fn wraparound_right_wraps_column() {
    // Head at column 4 of row 0 moving right lands at column 0, same row.
    let mut w = world(5, 4, vec![13, 9, 19], 4);
    w.start_game();
    w.change_snake_direction(Direction::Right);
    w.update();
    assert_eq!(w.snake_head_index(), 0);
}

#[test]
fn wraparound_up_wraps_row() {
    // Head at row 0 moving up lands at row 4, same column.
    let mut w = world(5, 2, vec![13, 9, 19], 4);
    w.start_game();
    w.update();
    assert_eq!(w.snake_head_index(), 22);
}

#[test]
fn reversal_into_neck_is_rejected() {
    let mut w = world(5, 12, vec![24, 9, 19], 4);
    w.start_game();
    // The neck is at 11, directly left of the head: a left turn reverses.
    w.change_snake_direction(Direction::Left);
    w.update();
    // The snake kept heading up.
    assert_eq!(w.snake_head_index(), 7);
}

#[test]
fn reward_tiers_and_points() {
    let body5: Vec<SnakeCell> = (0..5).map(SnakeCell).collect();
    let body20: Vec<SnakeCell> = (0..20).map(SnakeCell).collect();
    assert_eq!(define_reward_type(5), RewardType::Yellow);
    assert_eq!(define_reward_points(&body5, RewardType::Yellow), 5);
    assert_eq!(define_reward_type(20), RewardType::Black);
    assert_eq!(define_reward_points(&body20, RewardType::Black), 155);
    let body8: Vec<SnakeCell> = (0..8).map(SnakeCell).collect();
    let body13: Vec<SnakeCell> = (0..13).map(SnakeCell).collect();
    assert_eq!(define_reward_type(8), RewardType::Red);
    assert_eq!(define_reward_points(&body8, RewardType::Red), 24);
    assert_eq!(define_reward_type(13), RewardType::Blue);
    assert_eq!(define_reward_points(&body13, RewardType::Blue), 52);
}

#[test]
fn reward_consumption_grows_and_scores() {
    let mut w = world(5, 12, vec![7, 9, 19, 24], 4);
    w.start_game();
    w.update();
    // Turn budget 10 -> 9, the surplus bonus pays 9 + 1, the reward 3.
    assert_eq!(w.points(), 13);
    assert_eq!(w.bonus_stat(), 10);
    assert_eq!(w.get_steps(), 16);
    assert_eq!(w.snake_length(), 4);
    assert_eq!(w.reward_cell_idx(), 24);
    assert_eq!(cells(&w), vec![7, 12, 11, 12]);
    assert_eq!(w.get_game_stat().consumed_rewards, 1);
}

#[test]
fn trap_consumption_halves_score_and_shrinks() {
    let mut w = world(5, 12, vec![7, 9, 19, 24, 2, 1, 3], 4);
    w.start_game();
    w.update();
    assert_eq!(w.points(), 13);
    assert_eq!(w.snake_length(), 4);
    // Force a trap right on the head's next cell.
    w.recreate_trap_cell();
    assert_eq!(w.trap_cell_idx(), 2);
    assert_eq!(w.trap_life(), 5);
    assert_eq!(w.trap_color(), "chocolate");
    assert_eq!(w.trap_steps(), 14);
    w.update();
    // No bonus paid out on the first trap: the score is halved and the
    // snake loses exactly one cell.
    assert_eq!(w.points(), 13 / 2);
    assert_eq!(w.snake_length(), 3);
    assert_eq!(w.trap_cell_idx(), NO_CELL);
    assert_eq!(w.get_game_stat().consumed_traps, 1);
    assert_eq!(w.trap_steps(), 13);
}

fn lost_by_suicide() -> WorldMap<ScriptedRandom, FixedClock> {
    let mut w = world(5, 12, vec![7, 9, 19, 2, 24], 4);
    w.start_game();
    w.update(); // eat reward at 7, length 4
    w.update(); // eat reward at 2, length 5
    assert_eq!(w.snake_length(), 5);
    w.change_snake_direction(Direction::Right);
    w.update(); // head 3
    w.change_snake_direction(Direction::Down);
    w.update(); // head 8
    w.change_snake_direction(Direction::Left);
    w.update(); // head 7, already held by the tail
    w
}

#[test]
fn doubling_back_loses_by_suicide() {
    let w = lost_by_suicide();
    assert_eq!(w.game_status(), Some(GameStatus::Lost));
    assert_eq!(w.game_status_text(), "You have lost!");
    assert_eq!(w.get_reason(), "Suiside due to depression");
    assert_eq!(w.snake_length(), 5);
}

#[test]
fn terminal_state_absorbs_updates() {
    let mut w = lost_by_suicide();
    let points = w.points();
    let body = cells(&w);
    let reward = w.reward_cell_idx();
    let trap = w.trap_cell_idx();
    let bonus = w.super_bonus_cell_idx();
    let target = w.moving_target_cell_idx();
    let life_steps = w.get_game_stat().life_steps;
    for _ in 0..3 {
        w.update();
        assert_eq!(w.game_status(), Some(GameStatus::Lost));
        assert_eq!(w.points(), points);
        assert_eq!(cells(&w), body);
        assert_eq!(w.reward_cell_idx(), reward);
        assert_eq!(w.trap_cell_idx(), trap);
        assert_eq!(w.super_bonus_cell_idx(), bonus);
        assert_eq!(w.moving_target_cell_idx(), target);
        assert_eq!(w.get_game_stat().life_steps, life_steps);
    }
}

fn won_on_full_board() -> WorldMap<ScriptedRandom, FixedClock> {
    let mut w = world(3, 2, vec![5, 5, 11, 8, 7, 4, 3, 6, 0], 0);
    w.start_game();
    w.change_snake_direction(Direction::Down);
    w.update(); // head 5
    w.update(); // head 8
    w.change_snake_direction(Direction::Left);
    w.update(); // head 7
    w.change_snake_direction(Direction::Up);
    w.update(); // head 4
    w.change_snake_direction(Direction::Left);
    w.update(); // head 3
    w.change_snake_direction(Direction::Down);
    w.update(); // head 6
    w.update(); // head 0: the board is full
    w
}

#[test]
fn filling_the_board_wins() {
    let w = won_on_full_board();
    assert_eq!(w.game_status(), Some(GameStatus::Won));
    assert_eq!(w.game_status_text(), "You have won!");
    assert_eq!(w.get_game_stat().consumed_rewards, 7);
    assert_eq!(w.snake_length(), 10);
}

#[test]
fn counters_never_decrease() {
    let mut w = world(3, 2, vec![5, 5, 11, 8, 7, 4, 3, 6, 0], 0);
    w.start_game();
    let turns = [
        Some(Direction::Down),
        None,
        Some(Direction::Left),
        Some(Direction::Up),
        Some(Direction::Left),
        Some(Direction::Down),
        None,
        None,
        None,
    ];
    let mut last = w.get_game_stat();
    for turn in turns {
        if let Some(direction) = turn {
            w.change_snake_direction(direction);
        }
        w.update();
        let next = w.get_game_stat();
        assert!(next.consumed_rewards >= last.consumed_rewards);
        assert!(next.consumed_traps >= last.consumed_traps);
        assert!(next.super_bonuses >= last.super_bonuses);
        assert!(next.consumed_moving_targets >= last.consumed_moving_targets);
        assert!(next.life_steps >= last.life_steps);
        last = next;
    }
}

#[test]
fn moving_target_spawns_and_is_consumed() {
    let mut w = world(5, 12, vec![24, 9, 0, 7, 2, 0, 0, 0, 19, 7, 20, 0, 7], 4);
    // The target countdown starts at 5.
    assert_eq!(w.steps_to_moving_target(), 5);
    w.start_game();
    for _ in 0..5 {
        w.update();
    }
    assert_eq!(w.steps_to_moving_target(), 0);
    assert_eq!(w.moving_target_cell_idx(), NO_CELL);
    w.update();
    // Spawned: its first placement draw hit the snake and was rejected.
    assert_eq!(w.moving_target_cell_idx(), 2);
    assert_eq!(w.moving_target_life(), 50);
    assert_eq!(w.moving_target_points(), 500 + 50 * 15);
    w.update();
    // The head landed on the target and consumed it.
    assert_eq!(w.moving_target_cell_idx(), NO_CELL);
    assert_eq!(w.points(), 1250);
    assert_eq!(w.bonus_stat(), 1250);
    assert_eq!(w.snake_length(), 4);
    assert_eq!(w.get_game_stat().consumed_moving_targets, 1);
    // The fresh countdown of 24 already ticked once this very turn.
    assert_eq!(w.steps_to_moving_target(), 23);
    // A trap also spawned this tick; its first draw was rejected too.
    assert_eq!(w.trap_cell_idx(), 20);
    assert_eq!(w.trap_life(), 9);
    assert_eq!(w.trap_color(), "#FFEAAE");
    assert_eq!(w.trap_steps(), 13);
}

#[test]
fn super_bonus_spawns_and_is_consumed() {
    let mut w = world(5, 12, vec![24, 0, 19, 20, 0, 7, 12, 5], 0);
    assert_eq!(w.super_bonus_steps(), 4);
    w.start_game();
    w.update();
    w.update();
    w.update();
    assert_eq!(w.super_bonus_cell_idx(), NO_CELL);
    w.update();
    assert_eq!(w.super_bonus_cell_idx(), 12);
    assert_eq!(w.super_bonus_cell_life(), 5);
    assert_eq!(w.super_bonus_steps(), 9);
    w.update();
    // Consumed under the head: 300 plus ten per snake cell.
    assert_eq!(w.points(), 330);
    assert_eq!(w.bonus_stat(), 330);
    assert_eq!(w.super_bonus_cell_idx(), NO_CELL);
    assert_eq!(w.super_bonus_cell_life(), 0);
}

#[test]
fn super_bonus_consumption_awards_even_when_absent() {
    let mut w = world(5, 12, vec![24, 9, 19], 4);
    assert_eq!(w.super_bonus_points(), 330);
    w.super_bonus_consumption();
    assert_eq!(w.points(), 330);
    assert_eq!(w.bonus_stat(), 330);
    assert_eq!(w.super_bonus_cell_idx(), NO_CELL);
}

#[test]
fn coming_bonus_follows_turn_budget() {
    let w = world(5, 12, vec![24, 9, 19], 4);
    // Budget 10 exceeds the refill amount 7.
    assert_eq!(w.comming_bonus_by_steps(), 10);
}

#[test]
fn set_size_grows_the_board() {
    let mut w = world(5, 12, vec![7, 9, 19], 4);
    w.set_size(6);
    assert_eq!(w.size(), 6);
    assert_eq!(w.get_2d_size(), 36);
    assert_eq!(w.snake_head_index(), 12);
    assert_eq!(w.reward_cell_idx(), 7);
}

#[test]
fn trap_cell_construction_and_copy() {
    let t = TrapCell::new(3, 5, TrapColor::Brown);
    let u = t.copy();
    assert_eq!(u.idx, 3);
    assert_eq!(u.life, 5);
    assert_eq!(u.color, TrapColor::Brown);
}

#[test]
fn moving_target_construction() {
    let mut rng = ScriptedRandom::new(vec![0, 1, 1]);
    let m = MovingTarget::new(4, &mut rng);
    assert_eq!(m.position(), 4);
    assert_eq!(m.life, 50);
    assert_eq!(m.points, 500);
    // 500 points plus fifteen per remaining life tick.
    assert_eq!(m.calculate_points(), 500 + 50 * 15);
    assert_eq!(m.direction, Direction::Right);
}

#[test]
fn max_snake_length_is_tracked() {
    let mut w = world(5, 12, vec![7, 9, 19, 24, 2, 1, 3], 4);
    w.start_game();
    w.update(); // grows to 4
    w.update(); // plain move
    assert_eq!(w.get_game_stat().snake_size, 4);
}

#[test]
fn every_fifth_trap_pays_the_bonus_total() {
    // A 7x7 board; each tick the reward and a freshly forced trap share
    // the head's next cell, so the snake eats both: it grows by one and
    // shrinks by one, and the score is halved four times and then, on the
    // fifth trap, raised by the whole bonus total.
    let mut w = world(
        7,
        24,
        vec![
            17, 13, 27, 17, 0, 0, 10, 10, 0, 0, 3, 3, 0, 0, 45, 45, 0, 0, 38, 38, 0, 0, 31,
        ],
        5,
    );
    w.start_game();
    let expected_points = [6, 12, 18, 24, 171];
    let expected_bonus = [10, 26, 48, 76, 110];
    for i in 0..5 {
        w.recreate_trap_cell();
        w.update();
        assert_eq!(w.get_game_stat().consumed_traps, i + 1);
        assert_eq!(w.points(), expected_points[i]);
        assert_eq!(w.bonus_stat(), expected_bonus[i]);
        assert_eq!(w.snake_length(), 3);
    }
}

#[test]
fn moving_target_bite_zeroes_score_and_ends_short_games() {
    let mut w = world(
        5,
        12,
        vec![7, 9, 0, 24, 23, 1, 0, 0, 9, 16, 0, 0, 9, 9, 0],
        4,
    );
    w.start_game();
    w.update(); // eat the reward at 7
    assert_eq!(w.points(), 13);
    for _ in 0..4 {
        w.update();
    }
    w.update(); // the target spawns at 23, heading left
    assert_eq!(w.moving_target_cell_idx(), 23);
    w.update();
    w.update();
    w.update(); // the target steps onto the snake's neck at 22
    assert_eq!(w.moving_target_cell_idx(), 22);
    // The bite zeroes the score, feeds the target, and — the snake being
    // too short to truncate — loses the game.
    assert_eq!(w.points(), 0);
    assert_eq!(w.get_game_stat().eaten_by_enemy, 1);
    assert_eq!(w.moving_target_life(), 77);
    assert_eq!(w.moving_target_points(), 2000 + 77 * 15);
    assert_eq!(w.game_status(), Some(GameStatus::Lost));
    assert_eq!(w.get_reason(), "Eaten by enemy");
}
