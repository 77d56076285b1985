use vstd::prelude::*;

use crate::global_constants::{ENEMY_SPAWN_COUNT, WAVE_SPAWN_COUNT_BONUS_INTERVAL};

verus! {

/// Progress of the current run: the wave being fought and the materials
/// collected so far.
pub struct RunState {
    pub wave: i32,
    pub materials: i32,
}

/// Integer division rounding toward zero, as machine integers divide.
pub open spec fn div_toward_zero(a: int, b: int) -> int {
    if a >= 0 {
        a / b
    } else {
        -((-a) / b)
    }
}

/// How many enemies each spawn of `wave` produces: the base count plus one
/// per completed bonus interval of waves since the first.
pub open spec fn spawn_count_for(wave: int) -> int {
    ENEMY_SPAWN_COUNT + div_toward_zero(wave - 1, WAVE_SPAWN_COUNT_BONUS_INTERVAL as int)
}

/// The sum of a list of material values.
pub open spec fn sum_values(values: Seq<i32>) -> int
    decreases values.len(),
{
    if values.len() == 0 {
        0
    } else {
        sum_values(values.drop_last()) + values.last()
    }
}

/// Totals add up: the sum of two lists one after the other is the sum of
/// the first plus the sum of the second.
pub proof fn lemma_sum_values_append(first: Seq<i32>, second: Seq<i32>)
    ensures
        sum_values(first + second) == sum_values(first) + sum_values(second),
    decreases second.len(),
{
    if second.len() == 0 {
        assert(first + second =~= first);
    } else {
        lemma_sum_values_append(first, second.drop_last());
        assert((first + second).drop_last() =~= first + second.drop_last());
    }
}

/// A single value sums to itself, and nothing sums to zero.
pub proof fn lemma_sum_values_small(value: i32)
    ensures
        sum_values(Seq::<i32>::empty()) == 0,
        sum_values(seq![value]) == value,
{
    assert(seq![value].drop_last() =~= Seq::<i32>::empty());
}

/// Adding the values up one after another never leaves the `i32` range.
pub open spec fn partial_sums_fit(values: Seq<i32>) -> bool {
    forall|k: int|
        0 <= k <= values.len() ==> i32::MIN <= #[trigger] sum_values(values.take(k)) <= i32::MAX
}

/// Adds up the material values of the items collected in one frame; `None`
/// when a running total leaves the `i32` range.
pub fn material_total(values: &Vec<i32>) -> (total: Option<i32>)
    ensures
        total is Some <==> partial_sums_fit(values@),
        total matches Some(t) ==> t == sum_values(values@),
{
    let mut total: i32 = 0;
    let mut i: usize = 0;
    assert(values@.take(0) =~= Seq::<i32>::empty());
    while i < values.len()
        invariant
            0 <= i <= values@.len(),
            total == sum_values(values@.take(i as int)),
            forall|k: int|
                0 <= k <= i ==> i32::MIN <= #[trigger] sum_values(values@.take(k)) <= i32::MAX,
        decreases values@.len() - i,
    {
        assert(values@.take(i + 1).drop_last() =~= values@.take(i as int));
        assert(values@.take(i + 1).last() == values@[i as int]);
        match total.checked_add(values[i]) {
            Some(next) => {
                total = next;
                i = i + 1;
            },
            None => {
                assert(!(i32::MIN <= sum_values(values@.take(i + 1)) <= i32::MAX));
                return None;
            },
        }
    }
    assert(values@.take(values@.len() as int) =~= values@);
    Some(total)
}

impl RunState {
    /// Waves are numbered from one.
    pub open spec fn wf(&self) -> bool {
        self.wave >= 1
    }

    /// A fresh run: first wave, no materials.
    pub fn new() -> (state: Self)
        ensures
            state.wave == 1,
            state.materials == 0,
            state.wf(),
    {
        Self { wave: 1, materials: 0 }
    }

    /// The current wave is over: move on to the next one.
    pub fn advance_wave(&mut self)
        requires
            old(self).wave < i32::MAX,
        ensures
            final(self).wave == old(self).wave + 1,
            final(self).materials == old(self).materials,
            old(self).wf() ==> final(self).wf(),
    {
        self.wave = self.wave + 1;
    }

    /// Adds collected materials.
    pub fn add_materials(&mut self, amount: i32)
        requires
            i32::MIN <= old(self).materials + amount <= i32::MAX,
        ensures
            final(self).materials == old(self).materials + amount,
            final(self).wave == old(self).wave,
    {
        self.materials = self.materials + amount;
    }

    /// Pays `cost` materials if the run has that many; reports whether it did.
    pub fn spend_materials(&mut self, cost: i32) -> (paid: bool)
        requires
            old(self).materials >= cost ==> old(self).materials - cost <= i32::MAX,
        ensures
            paid == (old(self).materials >= cost),
            paid ==> final(self).materials == old(self).materials - cost,
            !paid ==> final(self).materials == old(self).materials,
            final(self).wave == old(self).wave,
    {
        if self.materials >= cost {
            self.materials = self.materials - cost;
            true
        } else {
            false
        }
    }

    /// How many enemies each spawn produces in the current wave: the base
    /// count plus one for every completed bonus interval of waves.
    pub fn enemy_spawn_count(&self) -> (count: i32)
        requires
            self.wave > i32::MIN,
        ensures
            count == spawn_count_for(self.wave as int),
            self.wf() ==> count > 1,
    {
        ENEMY_SPAWN_COUNT + (self.wave - 1) / WAVE_SPAWN_COUNT_BONUS_INTERVAL
    }

    /// Starts the run over.
    pub fn reset(&mut self)
        ensures
            final(self).wave == 1,
            final(self).materials == 0,
            final(self).wf(),
    {
        *self = Self::new();
    }
}

/// The first waves spawn the base count, and every further bonus interval
/// of waves adds exactly one enemy per spawn, without limit.
pub proof fn lemma_spawn_count_grows_per_interval(wave: int)
    requires
        wave >= 1,
    ensures
        wave < 1 + WAVE_SPAWN_COUNT_BONUS_INTERVAL ==> spawn_count_for(wave) == ENEMY_SPAWN_COUNT,
        spawn_count_for(wave + WAVE_SPAWN_COUNT_BONUS_INTERVAL) == spawn_count_for(wave) + 1,
{
}

/// Every wave spawns more than one enemy at a time, as the spawner needs.
pub proof fn lemma_spawn_count_above_one(wave: int)
    requires
        wave >= 1,
    ensures
        spawn_count_for(wave) > 1,
{
}

/// Later waves never spawn fewer enemies at a time than earlier ones.
pub proof fn lemma_spawn_count_monotone(earlier: int, later: int)
    requires
        earlier <= later,
    ensures
        spawn_count_for(earlier) <= spawn_count_for(later),
{
    let k = WAVE_SPAWN_COUNT_BONUS_INTERVAL as int;
    let (a, b) = (earlier - 1, later - 1);
    if a >= 0 {
        vstd::arithmetic::div_mod::lemma_div_is_ordered(a, b, k);
    } else if b < 0 {
        vstd::arithmetic::div_mod::lemma_div_is_ordered(-b, -a, k);
    } else {
        vstd::arithmetic::div_mod::lemma_div_pos_is_pos(b, k);
        vstd::arithmetic::div_mod::lemma_div_pos_is_pos(-a, k);
    }
}

} // verus!
