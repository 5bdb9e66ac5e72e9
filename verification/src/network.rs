//! Reading of the network service's device codes.

use vstd::prelude::*;

verus! {

/// The reason code with which a device reports that it was removed.
pub const REASON_REMOVED: u32 = 36;

/// The kind of a network device.
#[derive(Clone, Copy, Debug, PartialEq, Eq, Structural)]
pub enum InterfaceType {
    Wired,
    Wireless,
    Other,
}

/// How far a network device is connected.
#[derive(Clone, Copy, Debug, PartialEq, Eq, Structural)]
pub enum InterfaceState {
    Connected,
    Connecting,
    Disconnected,
    Unavailable,
}

/// The kind of device that a code of the network service stands for: 1 is
/// wired, 2 is wireless, and every other code, or none, is `Other`.
pub open spec fn interface_type_of(code: Option<u32>) -> InterfaceType {
    match code {
        Some(1) => InterfaceType::Wired,
        Some(2) => InterfaceType::Wireless,
        _ => InterfaceType::Other,
    }
}

/// The state that a code of the network service stands for: 30 is
/// disconnected, 40 to 90 connecting, 100 connected, and every other code,
/// or none, is `Unavailable`.
pub open spec fn interface_state_of(code: Option<u32>) -> InterfaceState {
    match code {
        Some(c) => if c == 30 {
            InterfaceState::Disconnected
        } else if 40 <= c <= 90 {
            InterfaceState::Connecting
        } else if c == 100 {
            InterfaceState::Connected
        } else {
            InterfaceState::Unavailable
        },
        None => InterfaceState::Unavailable,
    }
}

/// Reads the kind of a device from the network service's code.
pub fn interface_type(code: Option<u32>) -> (r: InterfaceType)
    ensures
        r == interface_type_of(code),
{
    match code {
        Some(1) => InterfaceType::Wired,
        Some(2) => InterfaceType::Wireless,
        _ => InterfaceType::Other,
    }
}

/// Reads the state of a device from the network service's code.
pub fn interface_state(code: Option<u32>) -> (r: InterfaceState)
    ensures
        r == interface_state_of(code),
{
    match code {
        Some(30) => InterfaceState::Disconnected,
        Some(40..=90) => InterfaceState::Connecting,
        Some(100) => InterfaceState::Connected,
        _ => InterfaceState::Unavailable,
    }
}

impl InterfaceType {
    /// Whether a device of this kind is reported: wired and wireless ones
    /// are, all others are left out.
    pub fn is_reported(&self) -> (r: bool)
        ensures
            r == (*self != InterfaceType::Other),
    {
        match self {
            InterfaceType::Other => false,
            _ => true,
        }
    }
}

/// Whether to go on listening to a device after a state change with this
/// reason: always, unless the device was removed.
pub fn keeps_listening(reason: u32) -> (r: bool)
    ensures
        r == (reason != REASON_REMOVED),
{
    reason != REASON_REMOVED
}

/// The address that is reported for a device: the first of those it has.
/// `addresses` is absent where they could not be had.
pub fn first_address(addresses: Option<Vec<(String, u64)>>) -> (r: Option<(String, u64)>)
    ensures
        match addresses {
            Some(list) => if list@.len() == 0 {
                r is None
            } else {
                r == Some(list@[0])
            },
            None => r is None,
        },
{
    match addresses {
        Some(mut list) => {
            if list.len() == 0 {
                None
            } else {
                Some(list.swap_remove(0))
            }
        },
        None => None,
    }
}

} // verus!
