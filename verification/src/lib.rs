//! Turn-based combat rules, menu handling and sprite-frame cycling of a
//! small top-down RPG, with their contracts and the laws that tie them
//! together.

pub mod animation;
pub mod combat;
pub mod laws;
pub mod state;
pub mod stats;

pub use animation::{CharacterSheet, FrameAnimation};
pub use combat::{
    combat_damage_calc, combat_input, handle_accepting_reward, handle_attack_effects,
    process_enemy_turn, CombatEffects, CombatKeys, CombatMenuOption, CombatMenuSelection,
    FightEvent, NUM_MENU_OPTIONS,
};
pub use state::{CombatState, GameState};
pub use stats::{enemy_stats, CombatStats, Enemy, EnemyType};
