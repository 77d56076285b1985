use rand::Rng;
use vstd::prelude::*;

use crate::culling::{select, take_marked, lemma_select_partitions};
use crate::global_constants::{
    ENEMY_ANIMATION_FPS_MAX, ENEMY_ANIMATION_FPS_MIN, ENEMY_SPEED_MAX, ENEMY_SPEED_MIN,
};

verus! {

/// The enemies alive in the arena, and how many have been killed this run.
pub struct EnemyRoster<E> {
    pub current_enemies: Vec<E>,
    pub kill_count: i32,
}

impl<E> EnemyRoster<E> {
    /// No enemies, no kills.
    pub fn new() -> (roster: Self)
        ensures
            roster.current_enemies@.len() == 0,
            roster.kill_count == 0,
    {
        EnemyRoster { current_enemies: Vec::new(), kill_count: 0 }
    }

    /// Adds a freshly spawned enemy.
    pub fn spawn(&mut self, enemy: E)
        ensures
            final(self).current_enemies@ == old(self).current_enemies@.push(enemy),
            final(self).kill_count == old(self).kill_count,
    {
        self.current_enemies.push(enemy);
    }

    /// Removes the enemies marked as defeated (out of hit points), keeping the
    /// others in order, counts each removed one as a kill, and hands the
    /// removed ones back in order (where they fell, materials drop).
    pub fn remove_defeated(&mut self, defeated: &Vec<bool>) -> (removed: Vec<E>)
        requires
            defeated@.len() == old(self).current_enemies@.len(),
            old(self).kill_count + select(old(self).current_enemies@, defeated@, true).len()
                <= i32::MAX,
        ensures
            removed@ == select(old(self).current_enemies@, defeated@, true),
            final(self).current_enemies@ == select(old(self).current_enemies@, defeated@, false),
            final(self).kill_count == old(self).kill_count + select(
                old(self).current_enemies@,
                defeated@,
                true,
            ).len(),
    {
        let ghost before = self.kill_count;
        let removed = take_marked(&mut self.current_enemies, defeated);
        let ghost kept = self.current_enemies@;
        let mut counted: usize = 0;
        while counted < removed.len()
            invariant
                self.current_enemies@ == kept,
                counted <= removed@.len(),
                self.kill_count == before + counted,
                before + removed@.len() <= i32::MAX,
            decreases removed@.len() - counted,
        {
            self.kill_count = self.kill_count + 1;
            counted = counted + 1;
        }
        removed
    }

    /// Starts the run over: no enemies, no kills.
    pub fn clear(&mut self)
        ensures
            final(self).current_enemies@.len() == 0,
            final(self).kill_count == 0,
    {
        self.kill_count = 0;
        self.current_enemies.clear();
    }

    /// Empties the arena but keeps the kill count (between waves).
    pub fn clear_current_enemies(&mut self)
        ensures
            final(self).current_enemies@.len() == 0,
            final(self).kill_count == old(self).kill_count,
    {
        self.current_enemies.clear();
    }
}

/// Draws an integer uniformly from `low..high` with the thread-local
/// generator (`rand::thread_rng().gen_range`). The contract claims only
/// that the draw lies in the half-open range; which value comes out is
/// left to chance.
#[verifier::external_body]
fn random_in_range(low: i32, high: i32) -> (drawn: i32)
    requires
        low < high,
    ensures
        low <= drawn < high,
{
    rand::thread_rng().gen_range(low..high)
}

/// How many enemies one spawn produces, for a wave whose spawn count is
/// `count` (which callers keep above one): `count - 1` or `count`, at
/// random, so never none.
pub fn spawn_batch_size(count: i32) -> (size: i32)
    requires
        1 < count < i32::MAX,
    ensures
        count - 1 <= size <= count,
        size >= 1,
{
    random_in_range(count - 1, count + 1)
}

/// A spawned enemy's speed, drawn at random from the enemy speed range.
pub fn random_enemy_speed() -> (speed: i32)
    ensures
        ENEMY_SPEED_MIN <= speed < ENEMY_SPEED_MAX,
{
    random_in_range(ENEMY_SPEED_MIN, ENEMY_SPEED_MAX)
}

/// A spawned enemy's animation rate, drawn at random from the enemy
/// animation rate range, so that enemies do not run in step.
pub fn random_animation_fps() -> (fps: u32)
    ensures
        ENEMY_ANIMATION_FPS_MIN <= fps < ENEMY_ANIMATION_FPS_MAX,
{
    let drawn = random_in_range(ENEMY_ANIMATION_FPS_MIN, ENEMY_ANIMATION_FPS_MAX);
    drawn as u32
}

/// Culling never changes how many enemies have been met: those still alive
/// plus those killed by the cull make up the enemies before it.
pub proof fn lemma_cull_conserves_enemies<E>(before: Seq<E>, defeated: Seq<bool>)
    ensures
        select(before, defeated, false).len() + select(before, defeated, true).len()
            == before.len(),
{
    lemma_select_partitions(before, defeated);
}

} // verus!
