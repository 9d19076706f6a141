//! Fighters' statistics, the kinds of enemy and the damage rule.

use vstd::prelude::*;

verus! {

/// Hit points and strength of a fighter (the player or an enemy).
#[derive(PartialEq, Eq, Structural, Clone, Copy, Debug)]
pub struct CombatStats {
    pub health: isize,
    pub max_health: isize,
    pub attack: isize,
    pub defense: isize,
}

/// The kinds of enemy met in a fight.
#[derive(PartialEq, Eq, Structural, Clone, Copy, Debug)]
pub enum EnemyType {
    Bat,
    Spirit,
}

/// An enemy on the field, tagged with its kind.
#[derive(PartialEq, Eq, Structural, Clone, Copy, Debug)]
pub struct Enemy {
    pub enemy_type: EnemyType,
}

/// Health left after a hit of `damage` against `defense`: the hit removes
/// `damage - defense` points (a negative difference heals), and health never
/// drops below zero.
pub open spec fn damaged_health(health: int, damage: int, defense: int) -> int {
    let h = health - (damage - defense);
    if h > 0 {
        h
    } else {
        0
    }
}

/// The starting statistics of each kind of enemy.
pub open spec fn spec_enemy_stats(enemy_type: EnemyType) -> CombatStats {
    match enemy_type {
        EnemyType::Bat => CombatStats { health: 3, max_health: 3, attack: 2, defense: 1 },
        EnemyType::Spirit => CombatStats { health: 5, max_health: 5, attack: 3, defense: 2 },
    }
}

/// Experience granted for defeating each kind of enemy.
pub open spec fn spec_exp_reward(enemy_type: EnemyType) -> nat {
    match enemy_type {
        EnemyType::Bat => 10,
        EnemyType::Spirit => 30,
    }
}

impl CombatStats {
    /// The hit can be computed in `isize` without overflow: both
    /// `damage - defense` and `health - (damage - defense)` fit.
    pub open spec fn can_take(self, damage: int) -> bool {
        &&& isize::MIN <= damage - self.defense <= isize::MAX
        &&& isize::MIN <= self.health - (damage - self.defense) <= isize::MAX
    }

    /// Applies a hit of `damage` points: health becomes
    /// `max(health - (damage - defense), 0)`; nothing else changes.
    pub fn take_damage(&mut self, damage: isize)
        requires
            old(self).can_take(damage as int),
        ensures
            final(self).health == damaged_health(
                old(self).health as int,
                damage as int,
                old(self).defense as int,
            ),
            final(self).max_health == old(self).max_health,
            final(self).attack == old(self).attack,
            final(self).defense == old(self).defense,
            old(self).health - (damage - old(self).defense) > 0 ==> final(self).health == old(
                self,
            ).health - (damage - old(self).defense),
            old(self).health - (damage - old(self).defense) <= 0 ==> final(self).health == 0,
            damage == old(self).defense && old(self).health >= 0 ==> final(self).health == old(
                self,
            ).health,
    {
        let dealt = damage - self.defense;
        let left = self.health - dealt;
        self.health = if left > 0 {
            left
        } else {
            0
        };
    }
}

/// The statistics a freshly spawned enemy of the given kind starts with.
pub fn enemy_stats(enemy_type: EnemyType) -> (stats: CombatStats)
    ensures
        stats == spec_enemy_stats(enemy_type),
        enemy_type == EnemyType::Bat ==> stats == (CombatStats {
            health: 3,
            max_health: 3,
            attack: 2,
            defense: 1,
        }),
        enemy_type == EnemyType::Spirit ==> stats == (CombatStats {
            health: 5,
            max_health: 5,
            attack: 3,
            defense: 2,
        }),
{
    match enemy_type {
        EnemyType::Bat => CombatStats { health: 3, max_health: 3, attack: 2, defense: 1 },
        EnemyType::Spirit => CombatStats { health: 5, max_health: 5, attack: 3, defense: 2 },
    }
}

impl Enemy {
    /// An enemy of the given kind.
    pub fn new(enemy_type: EnemyType) -> (enemy: Enemy)
        ensures
            enemy.enemy_type == enemy_type,
    {
        Enemy { enemy_type }
    }

    /// Experience the player earns for defeating this enemy.
    pub fn exp_reward(&self) -> (exp: usize)
        ensures
            exp == spec_exp_reward(self.enemy_type),
            self.enemy_type == EnemyType::Bat ==> exp == 10,
            self.enemy_type == EnemyType::Spirit ==> exp == 30,
    {
        match self.enemy_type {
            EnemyType::Bat => 10,
            EnemyType::Spirit => 30,
        }
    }
}

} // verus!
