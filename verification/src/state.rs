//! The game's state machines: the top-level screen and the phases of a fight.

use vstd::prelude::*;

verus! {

/// The top-level screens of the game.
#[derive(PartialEq, Eq, Structural, Clone, Copy, Debug, Hash)]
pub enum GameState {
    StartMenu,
    Overworld,
    Combat,
}

/// The phases of a fight.
///
/// `EnemyTurn(false)` waits for the enemy to act; `EnemyTurn(true)` records
/// that the enemy has already sent its attack.
#[derive(PartialEq, Eq, Structural, Clone, Copy, Debug, Hash)]
pub enum CombatState {
    PlayerTurn,
    PlayerAttack,
    EnemyTurn(bool),
    EnemyAttack,
    Reward,
    Exiting,
}

} // verus!
