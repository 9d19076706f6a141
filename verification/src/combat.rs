//! The decisions taken during a fight: menu input, the enemy's turn, damage,
//! the end of attack effects and accepting the reward.
//!
//! Each function takes plain values (keys pressed, statistics, the current
//! phase) and returns what the game must do: send a fight event, switch the
//! combat phase, start a fade-out.

use crate::state::CombatState;
use crate::stats::{damaged_health, CombatStats};
use vstd::prelude::*;

verus! {

/// Number of entries of the combat menu.
pub const NUM_MENU_OPTIONS: isize = 2;

/// The entries of the combat menu, left to right.
#[derive(PartialEq, Eq, Structural, Clone, Copy, Debug)]
pub enum CombatMenuOption {
    Fight,
    Run,
}

/// The menu entry that is currently highlighted.
#[derive(PartialEq, Eq, Structural, Clone, Copy, Debug)]
pub struct CombatMenuSelection {
    pub selected: CombatMenuOption,
}

/// An attack on `target` (an entity id) for `damage_amount` points; once it
/// has been dealt with, the fight moves to `next_state` unless the target died.
#[derive(PartialEq, Eq, Structural, Clone, Copy, Debug)]
pub struct FightEvent {
    pub target: u64,
    pub damage_amount: isize,
    pub next_state: CombatState,
}

/// The keys that were just pressed: `left` (A), `right` (D) and `confirm` (Space).
#[derive(PartialEq, Eq, Structural, Clone, Copy, Debug)]
pub struct CombatKeys {
    pub left: bool,
    pub right: bool,
    pub confirm: bool,
}

/// What the game must do after a decision: send `fight_event`, switch the
/// combat phase to `next_state`, start a fade-out when `fade_out` holds.
#[derive(PartialEq, Eq, Structural, Clone, Copy, Debug)]
pub struct CombatEffects {
    pub fight_event: Option<FightEvent>,
    pub next_state: Option<CombatState>,
    pub fade_out: bool,
}

/// Position of a menu entry, counted from the left.
pub open spec fn menu_position(option: CombatMenuOption) -> int {
    match option {
        CombatMenuOption::Fight => 0,
        CombatMenuOption::Run => 1,
    }
}

/// The menu entry at `position`, wrapping around at both ends.
pub open spec fn menu_option_at(position: int) -> CombatMenuOption {
    if position % NUM_MENU_OPTIONS as int == 0 {
        CombatMenuOption::Fight
    } else {
        CombatMenuOption::Run
    }
}

/// The entry highlighted after the keys: `left` moves one to the left,
/// `right` one to the right, wrapping around.
pub open spec fn moved_selection(selected: CombatMenuOption, keys: CombatKeys) -> CombatMenuOption {
    menu_option_at(
        menu_position(selected) - (if keys.left { 1int } else { 0int }) + (if keys.right {
            1int
        } else {
            0int
        }),
    )
}

/// Doing nothing.
pub open spec fn no_effects() -> CombatEffects {
    CombatEffects { fight_event: None, next_state: None, fade_out: false }
}

/// The player attacks `enemy` with `player_attack` points.
pub open spec fn player_attack_effects(player_attack: isize, enemy: u64) -> CombatEffects {
    CombatEffects {
        fight_event: Some(
            FightEvent {
                target: enemy,
                damage_amount: player_attack,
                next_state: CombatState::PlayerAttack,
            },
        ),
        next_state: None,
        fade_out: false,
    }
}

/// Leaving the fight: fade out and switch to `Exiting`.
pub open spec fn exit_effects() -> CombatEffects {
    CombatEffects { fight_event: None, next_state: Some(CombatState::Exiting), fade_out: true }
}

/// What confirming (or not) the highlighted entry does.
pub open spec fn chosen_effects(
    selected: CombatMenuOption,
    confirm: bool,
    player_attack: isize,
    enemy: u64,
) -> CombatEffects {
    if !confirm {
        no_effects()
    } else {
        match selected {
            CombatMenuOption::Fight => player_attack_effects(player_attack, enemy),
            CombatMenuOption::Run => exit_effects(),
        }
    }
}

/// The enemy attacks `player` with `enemy_attack` points and the fight
/// records that the enemy has acted.
pub open spec fn enemy_turn_effects(enemy_attack: isize, player: u64) -> CombatEffects {
    CombatEffects {
        fight_event: Some(
            FightEvent {
                target: player,
                damage_amount: enemy_attack,
                next_state: CombatState::EnemyAttack,
            },
        ),
        next_state: Some(CombatState::EnemyTurn(true)),
        fade_out: false,
    }
}

/// The phase after a hit: `Reward` when the target's health reached zero,
/// else the phase the fight event names.
pub open spec fn phase_after_hit(health_left: int, event_next: CombatState) -> CombatState {
    if health_left == 0 {
        CombatState::Reward
    } else {
        event_next
    }
}

/// The phase after the attack animation ends: the enemy's turn after the
/// player's attack, the player's turn otherwise.
pub open spec fn phase_after_effects(state: CombatState) -> CombatState {
    if state == CombatState::PlayerAttack {
        CombatState::EnemyTurn(false)
    } else {
        CombatState::PlayerTurn
    }
}

/// What the reward screen does: leave the fight on confirm, wait otherwise.
pub open spec fn reward_effects(confirm: bool) -> CombatEffects {
    if confirm {
        exit_effects()
    } else {
        no_effects()
    }
}

impl CombatMenuOption {
    /// Position of this entry, counted from the left.
    pub fn position(&self) -> (p: isize)
        ensures
            p == menu_position(*self),
            *self == CombatMenuOption::Fight ==> p == 0,
            *self == CombatMenuOption::Run ==> p == 1,
    {
        match self {
            CombatMenuOption::Fight => 0,
            CombatMenuOption::Run => 1,
        }
    }
}

impl CombatMenuSelection {
    /// The menu as a fight opens it: `Fight` highlighted.
    pub fn new() -> (menu: CombatMenuSelection)
        ensures
            menu.selected == CombatMenuOption::Fight,
    {
        CombatMenuSelection { selected: CombatMenuOption::Fight }
    }

    /// Whether the button of `option` is drawn highlighted.
    pub fn highlights(&self, option: CombatMenuOption) -> (highlighted: bool)
        ensures
            highlighted == (self.selected == option),
    {
        self.selected == option
    }
}

/// Handles the keys on the player's turn: moves the highlight, then on
/// confirm either attacks `enemy` with `player_attack` points or leaves the
/// fight. Outside the player's turn the menu stays as it is and nothing happens.
pub fn combat_input(
    state: CombatState,
    menu: &mut CombatMenuSelection,
    keys: CombatKeys,
    player_attack: isize,
    enemy: u64,
) -> (effects: CombatEffects)
    ensures
        state != CombatState::PlayerTurn ==> *final(menu) == *old(menu) && effects
            == no_effects(),
        state == CombatState::PlayerTurn ==> final(menu).selected == moved_selection(
            old(menu).selected,
            keys,
        ) && effects == chosen_effects(final(menu).selected, keys.confirm, player_attack, enemy),
        state != CombatState::PlayerTurn ==> effects == (CombatEffects {
            fight_event: None,
            next_state: None,
            fade_out: false,
        }),
        state == CombatState::PlayerTurn && keys.left == keys.right ==> final(menu).selected
            == old(menu).selected,
        state == CombatState::PlayerTurn && keys.left != keys.right ==> final(menu).selected
            != old(menu).selected,
        state == CombatState::PlayerTurn && !keys.confirm ==> effects == (CombatEffects {
            fight_event: None,
            next_state: None,
            fade_out: false,
        }),
        state == CombatState::PlayerTurn && keys.confirm && final(menu).selected
            == CombatMenuOption::Fight ==> effects == (CombatEffects {
            fight_event: Some(
                FightEvent {
                    target: enemy,
                    damage_amount: player_attack,
                    next_state: CombatState::PlayerAttack,
                },
            ),
            next_state: None,
            fade_out: false,
        }),
        state == CombatState::PlayerTurn && keys.confirm && final(menu).selected
            == CombatMenuOption::Run ==> effects == (CombatEffects {
            fight_event: None,
            next_state: Some(CombatState::Exiting),
            fade_out: true,
        }),
{
    if state != CombatState::PlayerTurn {
        return CombatEffects { fight_event: None, next_state: None, fade_out: false };
    }
    let mut new_selection: isize = menu.selected.position();
    if keys.left {
        new_selection -= 1;
    }
    if keys.right {
        new_selection += 1;
    }
    new_selection = (new_selection + NUM_MENU_OPTIONS) % NUM_MENU_OPTIONS;
    menu.selected = if new_selection == 0 {
        CombatMenuOption::Fight
    } else {
        CombatMenuOption::Run
    };
    if keys.confirm {
        match menu.selected {
            CombatMenuOption::Fight => CombatEffects {
                fight_event: Some(
                    FightEvent {
                        target: enemy,
                        damage_amount: player_attack,
                        next_state: CombatState::PlayerAttack,
                    },
                ),
                next_state: None,
                fade_out: false,
            },
            CombatMenuOption::Run => CombatEffects {
                fight_event: None,
                next_state: Some(CombatState::Exiting),
                fade_out: true,
            },
        }
    } else {
        CombatEffects { fight_event: None, next_state: None, fade_out: false }
    }
}

/// The enemy's turn: it attacks `player` with its attack points, and the
/// fight records that the enemy has acted.
pub fn process_enemy_turn(enemy_stats: &CombatStats, player: u64) -> (effects: CombatEffects)
    ensures
        effects == enemy_turn_effects(enemy_stats.attack, player),
        effects.fight_event == Some(
            FightEvent {
                target: player,
                damage_amount: enemy_stats.attack,
                next_state: CombatState::EnemyAttack,
            },
        ),
        effects.next_state == Some(CombatState::EnemyTurn(true)),
        !effects.fade_out,
{
    CombatEffects {
        fight_event: Some(
            FightEvent {
                target: player,
                damage_amount: enemy_stats.attack,
                next_state: CombatState::EnemyAttack,
            },
        ),
        next_state: Some(CombatState::EnemyTurn(true)),
        fade_out: false,
    }
}

/// Deals the damage of `event` to the target's `stats` and returns the phase
/// the fight moves to: `Reward` when the target's health reached zero, the
/// event's next phase otherwise.
pub fn combat_damage_calc(stats: &mut CombatStats, event: &FightEvent) -> (next: CombatState)
    requires
        old(stats).can_take(event.damage_amount as int),
    ensures
        final(stats).health == damaged_health(
            old(stats).health as int,
            event.damage_amount as int,
            old(stats).defense as int,
        ),
        final(stats).max_health == old(stats).max_health,
        final(stats).attack == old(stats).attack,
        final(stats).defense == old(stats).defense,
        next == phase_after_hit(final(stats).health as int, event.next_state),
        old(stats).health - (event.damage_amount - old(stats).defense) > 0 ==> final(stats).health
            == old(stats).health - (event.damage_amount - old(stats).defense),
        old(stats).health - (event.damage_amount - old(stats).defense) <= 0 ==> final(stats).health
            == 0,
        final(stats).health == 0 ==> next == CombatState::Reward,
        final(stats).health != 0 ==> next == event.next_state,
{
    stats.take_damage(event.damage_amount);
    if stats.health == 0 {
        CombatState::Reward
    } else {
        event.next_state
    }
}

/// The phase after the attack animation has run to its end: the enemy's turn
/// after the player's attack, the player's turn after the enemy's.
pub fn handle_attack_effects(state: CombatState) -> (next: CombatState)
    ensures
        next == phase_after_effects(state),
        state == CombatState::PlayerAttack ==> next == CombatState::EnemyTurn(false),
        state != CombatState::PlayerAttack ==> next == CombatState::PlayerTurn,
{
    if state == CombatState::PlayerAttack {
        CombatState::EnemyTurn(false)
    } else {
        CombatState::PlayerTurn
    }
}

/// The reward screen: confirming leaves the fight with a fade-out.
pub fn handle_accepting_reward(confirm: bool) -> (effects: CombatEffects)
    ensures
        effects == reward_effects(confirm),
        confirm ==> effects == (CombatEffects {
            fight_event: None,
            next_state: Some(CombatState::Exiting),
            fade_out: true,
        }),
        !confirm ==> effects == (CombatEffects { fight_event: None, next_state: None, fade_out: false }),
{
    if confirm {
        CombatEffects { fight_event: None, next_state: Some(CombatState::Exiting), fade_out: true }
    } else {
        CombatEffects { fight_event: None, next_state: None, fade_out: false }
    }
}

} // verus!
