//! Reading of the power service's battery codes.

use vstd::prelude::*;

verus! {

/// What the battery is doing.
#[derive(Clone, Copy, Debug, PartialEq, Eq, Structural)]
pub enum BatteryState {
    Unknown,
    Charging,
    Discharging,
    Empty,
    FullyCharged,
    PendingCharge,
    PendingDischarge,
}

/// The state that a code of the power service stands for. A code is absent
/// where the service did not answer; that and every code outside 1 to 6 is
/// `Unknown`.
pub open spec fn battery_state_of(code: Option<u32>) -> BatteryState {
    match code {
        Some(1) => BatteryState::Charging,
        Some(2) => BatteryState::Discharging,
        Some(3) => BatteryState::Empty,
        Some(4) => BatteryState::FullyCharged,
        Some(5) => BatteryState::PendingCharge,
        Some(6) => BatteryState::PendingDischarge,
        _ => BatteryState::Unknown,
    }
}

/// Reads the battery state from the power service's code.
pub fn battery_state(code: Option<u32>) -> (r: BatteryState)
    ensures
        r == battery_state_of(code),
{
    match code {
        Some(1) => BatteryState::Charging,
        Some(2) => BatteryState::Discharging,
        Some(3) => BatteryState::Empty,
        Some(4) => BatteryState::FullyCharged,
        Some(5) => BatteryState::PendingCharge,
        Some(6) => BatteryState::PendingDischarge,
        _ => BatteryState::Unknown,
    }
}

impl BatteryState {
    /// Whether the time reported with this state is the time until the
    /// battery is full: so it is while charging. In every other state it is
    /// the time until the battery is empty.
    pub fn counts_to_full(&self) -> (r: bool)
        ensures
            r == (*self == BatteryState::Charging),
    {
        match self {
            BatteryState::Charging => true,
            _ => false,
        }
    }

    /// Whether the battery is being drained, the one state in which a low
    /// charge is worth a warning.
    pub fn is_discharging(&self) -> (r: bool)
        ensures
            r == (*self == BatteryState::Discharging),
    {
        match self {
            BatteryState::Discharging => true,
            _ => false,
        }
    }
}

} // verus!
