//! Simulation engine for a grid-based snake game.
//!
//! The engine advances a shared mutable world one discrete tick at a time:
//! a snake moves over a toroidal square board, consuming a scoring reward,
//! a decaying trap, a periodic super bonus and a roaming moving target.
//! Randomness and the clock are injected through the [`rng`] capability
//! traits so that the whole state machine is deterministic and verified.

pub mod arith;
pub mod entities;
pub mod grid;
pub mod rng;
pub mod snake;
pub mod world;

pub use entities::{GameStat, GameStatus, MovingTarget, Reason, RewardCell, RewardType, SuperBonus, TrapCell, TrapColor};
pub use grid::Direction;
pub use rng::{Clock, FixedClock, RandomSource, ScriptedRandom};
pub use snake::SnakeCell;
pub use world::WorldMap;
