use vstd::prelude::*;

use crate::run_state::RunState;
use crate::shop::{cost_of, upgrade_cost, UpgradeKind};

verus! {

/// What one gameplay step reports to the screen flow (`Ongoing`: the wave
/// goes on).
#[derive(Clone, Copy, PartialEq, Eq, Debug, Structural)]
pub enum RunEvent {
    Ongoing,
    WaveComplete,
    PlayerDied,
}

/// The event a gameplay frame reports: a wave whose time is up ends the
/// frame before anything else happens; otherwise a dead player is reported;
/// otherwise the wave goes on.
pub fn frame_event(wave_over: bool, player_dead: bool) -> (event: RunEvent)
    ensures
        event == (if wave_over {
            RunEvent::WaveComplete
        } else if player_dead {
            RunEvent::PlayerDied
        } else {
            RunEvent::Ongoing
        }),
{
    if wave_over {
        RunEvent::WaveComplete
    } else if player_dead {
        RunEvent::PlayerDied
    } else {
        RunEvent::Ongoing
    }
}

/// Pays for an upgrade out of the run's materials, at the shop's price.
///
/// Returns whether the upgrade was paid for and must now be applied; when
/// the run cannot afford it nothing changes.
pub fn pay_for_upgrade(run_state: &mut RunState, kind: UpgradeKind) -> (paid: bool)
    ensures
        paid == (old(run_state).materials >= cost_of(kind)),
        paid ==> final(run_state).materials == old(run_state).materials - cost_of(kind),
        !paid ==> final(run_state).materials == old(run_state).materials,
        final(run_state).wave == old(run_state).wave,
{
    let cost = upgrade_cost(kind);
    run_state.spend_materials(cost)
}

} // verus!
