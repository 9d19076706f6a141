//! Properties of the combat rules and the animations that span several
//! functions or every state.

use crate::animation::{cycled_frame, frame_after};
use crate::combat::{
    chosen_effects, enemy_turn_effects, menu_position, moved_selection, phase_after_effects, phase_after_hit,
    reward_effects, CombatEffects, CombatKeys, CombatMenuOption, FightEvent,
};
use crate::state::CombatState;
use crate::stats::{damaged_health, spec_enemy_stats, spec_exp_reward, CombatStats, EnemyType};
use vstd::prelude::*;

verus! {

/// A hit never leaves negative health, and it leaves zero exactly when it
/// removes at least as many points as the target had.
pub proof fn lemma_health_never_negative(health: int, damage: int, defense: int)
    ensures
        damaged_health(health, damage, defense) >= 0,
        damaged_health(health, damage, defense) == 0 <==> health - (damage - defense) <= 0,
{
}

/// A hit whose damage is at least the target's defense never raises the
/// target's health; one below the defense raises it by the difference.
pub proof fn lemma_hit_monotone(health: int, damage: int, defense: int)
    requires
        health >= 0,
    ensures
        damage >= defense ==> damaged_health(health, damage, defense) <= health,
        damage < defense ==> damaged_health(health, damage, defense) == health + (defense
            - damage),
{
}

/// After any attack that the menu or the enemy's turn sends, the fight goes
/// to `Reward` exactly when the target's health reached zero.
pub proof fn lemma_reward_iff_defeated(health_left: int, event: FightEvent)
    requires
        event.next_state == CombatState::PlayerAttack || event.next_state
            == CombatState::EnemyAttack,
    ensures
        (phase_after_hit(health_left, event.next_state) == CombatState::Reward) <==> health_left
            == 0,
{
}

/// Moving right twice, left then right, or pressing both at once, brings
/// the highlight back where it was; from the last entry, right wraps to the
/// first, and from the first, left wraps to the last.
pub proof fn lemma_menu_moves_wrap(selected: CombatMenuOption)
    ensures
        ({
            let right = CombatKeys { left: false, right: true, confirm: false };
            moved_selection(moved_selection(selected, right), right) == selected
        }),
        ({
            let left = CombatKeys { left: true, right: false, confirm: false };
            let right = CombatKeys { left: false, right: true, confirm: false };
            moved_selection(moved_selection(selected, left), right) == selected
        }),
        ({
            let both = CombatKeys { left: true, right: true, confirm: false };
            moved_selection(selected, both) == selected
        }),
        moved_selection(
            CombatMenuOption::Run,
            CombatKeys { left: false, right: true, confirm: false },
        ) == CombatMenuOption::Fight,
        moved_selection(
            CombatMenuOption::Fight,
            CombatKeys { left: true, right: false, confirm: false },
        ) == CombatMenuOption::Run,
{
}

/// A full round of a fight: on the player's turn, with `Fight` highlighted,
/// confirming attacks the enemy for `player.attack` points; if the enemy
/// survives, the attack animation hands the turn to the enemy, which attacks
/// the player for its own attack points; if the player survives, the enemy's
/// attack animation hands the turn back to the player. If the enemy falls,
/// the fight goes to `Reward` instead, and so it does if the player falls.
pub proof fn lemma_fight_round(player: CombatStats, enemy: CombatStats, player_id: u64, enemy_id: u64)
    ensures
        ({
            let confirm = CombatKeys { left: false, right: false, confirm: true };
            let selected = moved_selection(CombatMenuOption::Fight, confirm);
            let first = chosen_effects(selected, true, player.attack, enemy_id);
            let hit = first.fight_event.unwrap();
            let enemy_left = damaged_health(enemy.health as int, hit.damage_amount as int, enemy.defense as int);
            let after_player = phase_after_hit(enemy_left, hit.next_state);
            let second = enemy_turn_effects(enemy.attack, player_id);
            let counter = second.fight_event.unwrap();
            let player_left = damaged_health(player.health as int, counter.damage_amount as int, player.defense as int);
            let after_enemy = phase_after_hit(player_left, counter.next_state);
            &&& selected == CombatMenuOption::Fight
            &&& first.fight_event is Some && first.next_state is None && !first.fade_out
            &&& hit.target == enemy_id && hit.damage_amount == player.attack
            &&& (enemy_left == 0 ==> after_player == CombatState::Reward)
            &&& (enemy_left != 0 ==> {
                &&& after_player == CombatState::PlayerAttack
                &&& phase_after_effects(after_player) == CombatState::EnemyTurn(false)
            })
            &&& second.next_state == Some(CombatState::EnemyTurn(true))
            &&& counter.target == player_id && counter.damage_amount == enemy.attack
            &&& (player_left == 0 ==> after_enemy == CombatState::Reward)
            &&& (player_left != 0 ==> {
                &&& after_enemy == CombatState::EnemyAttack
                &&& phase_after_effects(after_enemy) == CombatState::PlayerTurn
            })
        }),
{
}

/// The frame reached after `steps` advances is `steps` frames further on,
/// counted around the loop.
pub proof fn lemma_frame_after_offset(current: nat, len: nat, steps: nat)
    requires
        len > 0,
        current < len,
    ensures
        frame_after(current, len, steps) == (current + steps) % len,
        frame_after(current, len, steps) < len,
    decreases steps,
{
    if steps == 0 {
        vstd::arithmetic::div_mod::lemma_small_mod(current, len);
    } else {
        let prev = (steps - 1) as nat;
        lemma_frame_after_offset(current, len, prev);
        vstd::arithmetic::div_mod::lemma_add_mod_noop_right(
            1,
            (current + prev) as int,
            len as int,
        );
        assert(frame_after(current, len, steps) == cycled_frame(frame_after(current, len, prev), len));
    }
}

/// Advancing a looping animation as many times as it has frames shows the
/// frame it started on again.
pub proof fn lemma_frame_cycle_returns(current: nat, len: nat)
    requires
        len > 0,
        current < len,
    ensures
        frame_after(current, len, len) == current,
{
    lemma_frame_after_offset(current, len, len);
    vstd::arithmetic::div_mod::lemma_add_mod_noop_right(current as int, len as int, len as int);
    vstd::arithmetic::div_mod::lemma_mod_self_0(len as int);
    vstd::arithmetic::div_mod::lemma_small_mod(current, len);
}

/// A hit removes exactly `damage - defense` points while the target keeps
/// some health, and leaves zero otherwise; a hit whose damage equals the
/// defense changes nothing.
pub proof fn lemma_hit_exact(health: int, damage: int, defense: int)
    ensures
        health - (damage - defense) > 0 ==> damaged_health(health, damage, defense) == health
            - (damage - defense),
        health - (damage - defense) <= 0 ==> damaged_health(health, damage, defense) == 0,
        damage == defense && health >= 0 ==> damaged_health(health, damage, defense) == health,
{
}

/// `Fight` is the first entry and `Run` the second. The highlight moves only
/// when exactly one of left and right is pressed, and then it lands on the
/// other entry; otherwise it stays where it was.
pub proof fn lemma_selection_moves_only_with_keys(selected: CombatMenuOption, keys: CombatKeys)
    ensures
        menu_position(CombatMenuOption::Fight) == 0,
        menu_position(CombatMenuOption::Run) == 1,
        keys.left == keys.right ==> moved_selection(selected, keys) == selected,
        keys.left != keys.right ==> moved_selection(selected, keys) != selected,
{
}

/// Without confirm, the menu does nothing, whichever entry is highlighted;
/// confirming `Fight` only sends the player's attack at the enemy, and
/// confirming `Run` only fades out into `Exiting`.
pub proof fn lemma_menu_needs_confirm(selected: CombatMenuOption, player_attack: isize, enemy: u64)
    ensures
        chosen_effects(selected, false, player_attack, enemy) == (CombatEffects {
            fight_event: None,
            next_state: None,
            fade_out: false,
        }),
        chosen_effects(CombatMenuOption::Fight, true, player_attack, enemy) == (CombatEffects {
            fight_event: Some(
                FightEvent {
                    target: enemy,
                    damage_amount: player_attack,
                    next_state: CombatState::PlayerAttack,
                },
            ),
            next_state: None,
            fade_out: false,
        }),
        chosen_effects(CombatMenuOption::Run, true, player_attack, enemy) == (CombatEffects {
            fight_event: None,
            next_state: Some(CombatState::Exiting),
            fade_out: true,
        }),
{
}

/// The enemy's turn attacks the player with exactly the enemy's attack
/// points, records that the enemy acted, and never fades out of the fight.
pub proof fn lemma_enemy_turn_only_attacks(enemy_attack: isize, player: u64)
    ensures
        !enemy_turn_effects(enemy_attack, player).fade_out,
        enemy_turn_effects(enemy_attack, player).next_state == Some(CombatState::EnemyTurn(true)),
        enemy_turn_effects(enemy_attack, player).fight_event == Some(
            FightEvent {
                target: player,
                damage_amount: enemy_attack,
                next_state: CombatState::EnemyAttack,
            },
        ),
{
}

/// The attack animation of the player hands the turn to the enemy, and the
/// enemy's hands it back to the player.
pub proof fn lemma_turn_handover()
    ensures
        phase_after_effects(CombatState::PlayerAttack) == CombatState::EnemyTurn(false),
        phase_after_effects(CombatState::EnemyAttack) == CombatState::PlayerTurn,
{
}

/// The reward screen leaves the fight only on confirm.
pub proof fn lemma_reward_needs_confirm()
    ensures
        reward_effects(false) == (CombatEffects { fight_event: None, next_state: None, fade_out: false }),
        reward_effects(true) == (CombatEffects {
            fight_event: None,
            next_state: Some(CombatState::Exiting),
            fade_out: true,
        }),
{
}

/// Bats start with 3 health, 2 attack and 1 defense and are worth 10
/// experience; spirits start with 5 health, 3 attack and 2 defense and are
/// worth 30. Both start at full health.
pub proof fn lemma_enemy_table(enemy_type: EnemyType)
    ensures
        spec_enemy_stats(enemy_type).health == spec_enemy_stats(enemy_type).max_health,
        enemy_type == EnemyType::Bat ==> spec_enemy_stats(enemy_type) == (CombatStats {
            health: 3,
            max_health: 3,
            attack: 2,
            defense: 1,
        }) && spec_exp_reward(enemy_type) == 10,
        enemy_type == EnemyType::Spirit ==> spec_enemy_stats(enemy_type) == (CombatStats {
            health: 5,
            max_health: 5,
            attack: 3,
            defense: 2,
        }) && spec_exp_reward(enemy_type) == 30,
{
}

/// One advance moves to the next frame, and from the last frame back to the first.
pub proof fn lemma_frame_step(current: nat, len: nat)
    requires
        current < len,
    ensures
        current + 1 < len ==> cycled_frame(current, len) == current + 1,
        current + 1 == len ==> cycled_frame(current, len) == 0,
{
    if current + 1 < len {
        vstd::arithmetic::div_mod::lemma_small_mod((current + 1) as nat, len);
    } else {
        vstd::arithmetic::div_mod::lemma_mod_self_0(len as int);
    }
}

} // verus!
