//! Core simulation of a small arcade game: a player-controlled flyer must
//! dodge falling rocks and collect coins inside a bounded playfield.
//!
//! All coordinates, velocities and sizes are fixed-point integers: 1000 units
//! equal one playfield half-extent, velocities are units per second, and time
//! is measured in milliseconds of a caller-supplied monotonic clock. The
//! single entry point `logic::tick` advances the whole game state by one
//! frame.

use vstd::prelude::*;

pub mod logic;
mod rng;

use crate::logic::birdy;
use crate::logic::coin;
use crate::logic::rock;
use crate::logic::InputKey;
use crate::logic::PhysObj;

verus! {

/// All mutable state of one round: the flyer, the rock and coin collections,
/// the score, the death flag, the cooldown timestamps, the alternating rock
/// fall direction and the pre-drawn next rock and coin, and the currently
/// held keys. Constructed fresh per round; after `dead` is set the driver is
/// expected to replace it with a new instance rather than tick it again.
#[derive(Clone)]
pub struct GameState {
    pub last_jump_time: Option<u64>,
    pub last_rock_spawn_time: Option<u64>,
    pub rock_fall_direction: i64,
    pub next_rock: PhysObj,
    pub last_coin_spawn_time: Option<u64>,
    pub next_coin: PhysObj,
    pub birdy: PhysObj,
    pub rocks: Vec<PhysObj>,
    pub coins: Vec<PhysObj>,
    pub score: u32,
    pub keys: Vec<InputKey>,
    pub dead: bool,
}

impl GameState {
    /// The invariant that `new` establishes and `tick` preserves.
    pub open spec fn wf(self) -> bool {
        &&& logic::flyer_wf(self.birdy)
        &&& forall|i: int|
            0 <= i < self.rocks@.len() ==> logic::obj_wf(#[trigger] self.rocks@[i])
        &&& forall|i: int|
            0 <= i < self.coins@.len() ==> logic::obj_wf(#[trigger] self.coins@[i])
        &&& self.rock_fall_direction == 1 || self.rock_fall_direction == -1
        &&& rock::spawned_rock(self.next_rock, self.rock_fall_direction as int)
        &&& coin::spawned_coin(self.next_coin)
    }

    /// A fresh round: the flyer centered and at rest, no rocks or coins, no
    /// recorded timestamps, zero score, alive, with the rock fall direction
    /// at its fixed initial sign and the first rock and coin pre-drawn.
    pub fn new() -> (s: GameState)
        ensures
            s.wf(),
            s.last_jump_time == None::<u64>,
            s.last_rock_spawn_time == None::<u64>,
            s.last_coin_spawn_time == None::<u64>,
            s.rock_fall_direction == 1,
            rock::spawned_rock(s.next_rock, 1),
            coin::spawned_coin(s.next_coin),
            s.birdy == (PhysObj {
                x: 0,
                y: 0,
                x_velocity: 0,
                y_velocity: 0,
                width: birdy::BIRDY_SIZE,
                height: birdy::BIRDY_SIZE,
            }),
            s.rocks@ == Seq::<PhysObj>::empty(),
            s.coins@ == Seq::<PhysObj>::empty(),
            s.score == 0,
            s.keys@ == Seq::<InputKey>::empty(),
            !s.dead,
    {
        GameState {
            last_jump_time: None,
            last_rock_spawn_time: None,
            rock_fall_direction: 1,
            next_rock: rock::new_rock(1),
            last_coin_spawn_time: None,
            next_coin: coin::new_coin(),
            birdy: birdy::new_birdy(),
            rocks: Vec::new(),
            coins: Vec::new(),
            score: 0,
            keys: Vec::new(),
            dead: false,
        }
    }
}

} // verus!
