use bevy_tutorial::{
    combat_damage_calc, combat_input, enemy_stats, handle_accepting_reward,
    handle_attack_effects, process_enemy_turn, CombatEffects, CombatKeys, CombatMenuOption,
    CombatMenuSelection, CombatState, CombatStats, Enemy, EnemyType, FightEvent,
};

fn keys(left: bool, right: bool, confirm: bool) -> CombatKeys {
    CombatKeys { left, right, confirm }
}

fn nothing() -> CombatEffects {
    CombatEffects { fight_event: None, next_state: None, fade_out: false }
}

fn player() -> CombatStats {
    CombatStats { health: 10, max_health: 10, attack: 2, defense: 1 }
}

#[test]
fn bat_and_spirit_start_with_their_stats() {
    assert_eq!(
        enemy_stats(EnemyType::Bat),
        CombatStats { health: 3, max_health: 3, attack: 2, defense: 1 }
    );
    assert_eq!(
        enemy_stats(EnemyType::Spirit),
        CombatStats { health: 5, max_health: 5, attack: 3, defense: 2 }
    );
}

#[test]
fn rewards_per_enemy_kind() {
    assert_eq!(Enemy::new(EnemyType::Bat).exp_reward(), 10);
    assert_eq!(Enemy::new(EnemyType::Spirit).exp_reward(), 30);
    assert_eq!(Enemy::new(EnemyType::Spirit).enemy_type, EnemyType::Spirit);
}

#[test]
fn damage_subtracts_attack_minus_defense() {
    let mut stats = enemy_stats(EnemyType::Spirit);
    stats.take_damage(4);
    assert_eq!(stats.health, 3);
    assert_eq!(stats.max_health, 5);
    assert_eq!(stats.attack, 3);
    assert_eq!(stats.defense, 2);
}

#[test]
fn damage_never_leaves_negative_health() {
    let mut stats = enemy_stats(EnemyType::Bat);
    stats.take_damage(100);
    assert_eq!(stats.health, 0);
}

#[test]
fn weak_hit_below_defense_heals() {
    let mut stats = enemy_stats(EnemyType::Spirit);
    stats.take_damage(0);
    assert_eq!(stats.health, 7);
}

#[test]
fn damage_calc_moves_on_when_target_survives() {
    let mut stats = enemy_stats(EnemyType::Spirit);
    let event = FightEvent { target: 7, damage_amount: 3, next_state: CombatState::PlayerAttack };
    assert_eq!(combat_damage_calc(&mut stats, &event), CombatState::PlayerAttack);
    assert_eq!(stats.health, 4);
}

#[test]
fn damage_calc_gives_reward_when_target_falls() {
    let mut stats = enemy_stats(EnemyType::Bat);
    let event = FightEvent { target: 7, damage_amount: 4, next_state: CombatState::PlayerAttack };
    assert_eq!(combat_damage_calc(&mut stats, &event), CombatState::Reward);
    assert_eq!(stats.health, 0);
}

#[test]
fn input_ignored_outside_player_turn() {
    for state in [
        CombatState::PlayerAttack,
        CombatState::EnemyTurn(false),
        CombatState::EnemyTurn(true),
        CombatState::EnemyAttack,
        CombatState::Reward,
        CombatState::Exiting,
    ] {
        let mut menu = CombatMenuSelection::new();
        let effects = combat_input(state, &mut menu, keys(true, false, true), 2, 9);
        assert_eq!(effects, nothing());
        assert_eq!(menu.selected, CombatMenuOption::Fight);
    }
}

#[test]
fn input_moves_highlight_and_wraps() {
    let mut menu = CombatMenuSelection::new();
    assert_eq!(combat_input(CombatState::PlayerTurn, &mut menu, keys(false, true, false), 2, 9), nothing());
    assert_eq!(menu.selected, CombatMenuOption::Run);
    combat_input(CombatState::PlayerTurn, &mut menu, keys(false, true, false), 2, 9);
    assert_eq!(menu.selected, CombatMenuOption::Fight);
    combat_input(CombatState::PlayerTurn, &mut menu, keys(true, false, false), 2, 9);
    assert_eq!(menu.selected, CombatMenuOption::Run);
    combat_input(CombatState::PlayerTurn, &mut menu, keys(true, true, false), 2, 9);
    assert_eq!(menu.selected, CombatMenuOption::Run);
}

#[test]
fn confirming_fight_attacks_the_enemy() {
    let mut menu = CombatMenuSelection::new();
    let effects = combat_input(CombatState::PlayerTurn, &mut menu, keys(false, false, true), 2, 9);
    assert_eq!(
        effects,
        CombatEffects {
            fight_event: Some(FightEvent {
                target: 9,
                damage_amount: 2,
                next_state: CombatState::PlayerAttack
            }),
            next_state: None,
            fade_out: false,
        }
    );
}

#[test]
fn confirming_run_leaves_the_fight() {
    let mut menu = CombatMenuSelection::new();
    let effects = combat_input(CombatState::PlayerTurn, &mut menu, keys(true, false, true), 2, 9);
    assert_eq!(menu.selected, CombatMenuOption::Run);
    assert_eq!(
        effects,
        CombatEffects { fight_event: None, next_state: Some(CombatState::Exiting), fade_out: true }
    );
}

#[test]
fn highlight_follows_selection() {
    let menu = CombatMenuSelection::new();
    assert!(menu.highlights(CombatMenuOption::Fight));
    assert!(!menu.highlights(CombatMenuOption::Run));
    assert_eq!(CombatMenuOption::Fight.position(), 0);
    assert_eq!(CombatMenuOption::Run.position(), 1);
}

#[test]
fn enemy_turn_attacks_the_player() {
    let bat = enemy_stats(EnemyType::Bat);
    let effects = process_enemy_turn(&bat, 4);
    assert_eq!(
        effects,
        CombatEffects {
            fight_event: Some(FightEvent {
                target: 4,
                damage_amount: 2,
                next_state: CombatState::EnemyAttack
            }),
            next_state: Some(CombatState::EnemyTurn(true)),
            fade_out: false,
        }
    );
}

#[test]
fn attack_effects_hand_over_the_turn() {
    assert_eq!(handle_attack_effects(CombatState::PlayerAttack), CombatState::EnemyTurn(false));
    assert_eq!(handle_attack_effects(CombatState::EnemyAttack), CombatState::PlayerTurn);
}

#[test]
fn reward_screen_waits_for_confirm() {
    assert_eq!(handle_accepting_reward(false), nothing());
    assert_eq!(
        handle_accepting_reward(true),
        CombatEffects { fight_event: None, next_state: Some(CombatState::Exiting), fade_out: true }
    );
}

#[test]
fn full_round_returns_to_player_turn() {
    let mut me = player();
    let mut bat = enemy_stats(EnemyType::Bat);
    let mut menu = CombatMenuSelection::new();
    let first = combat_input(CombatState::PlayerTurn, &mut menu, keys(false, false, true), me.attack, 2);
    let hit = first.fight_event.unwrap();
    let state = combat_damage_calc(&mut bat, &hit);
    assert_eq!(state, CombatState::PlayerAttack);
    assert_eq!(bat.health, 2);
    let state = handle_attack_effects(state);
    assert_eq!(state, CombatState::EnemyTurn(false));
    let second = process_enemy_turn(&bat, 1);
    assert_eq!(second.next_state, Some(CombatState::EnemyTurn(true)));
    let counter = second.fight_event.unwrap();
    let state = combat_damage_calc(&mut me, &counter);
    assert_eq!(state, CombatState::EnemyAttack);
    assert_eq!(me.health, 9);
    assert_eq!(handle_attack_effects(state), CombatState::PlayerTurn);
}

#[test]
fn killing_blow_ends_round_in_reward() {
    let mut spirit = enemy_stats(EnemyType::Spirit);
    let mut menu = CombatMenuSelection::new();
    let first = combat_input(CombatState::PlayerTurn, &mut menu, keys(false, false, true), 7, 2);
    assert_eq!(combat_damage_calc(&mut spirit, &first.fight_event.unwrap()), CombatState::Reward);
}
