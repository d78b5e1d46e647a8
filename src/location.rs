//! Locations of consensus systems as seen from a chain of the network, and the
//! routing rules that pick a parachain out of a destination.
use vstd::prelude::*;

verus! {

/// An account identifier: 32 opaque bytes.
#[derive(Clone, Copy, Debug, PartialEq, Eq)]
pub struct AccountId32 {
    pub bytes: [u8; 32],
}

/// The account whose 32 bytes are all zero.
pub open spec fn spec_alice() -> AccountId32 {
    AccountId32 { bytes: vstd::array::spec_array_fill_for_copy_type::<u8, 32>(0u8) }
}

/// The account whose 32 bytes are all zero, endowed at genesis in the
/// networks this crate builds.
pub fn alice() -> (r: AccountId32)
    ensures
        r == spec_alice(),
{
    let bytes: [u8; 32] = [0u8; 32];
    AccountId32 { bytes }
}

/// The network an account belongs to.
#[derive(Clone, Copy, Debug, PartialEq, Eq, Structural)]
pub enum NetworkId {
    Any,
    Polkadot,
    Kusama,
}

/// One step of a relative location.
#[derive(Clone, Copy, Debug, PartialEq, Eq)]
pub enum Junction {
    /// The consensus system one level up (a parachain's relay chain).
    Parent,
    /// A parachain, by its id.
    Parachain(u32),
    /// An account on the chain at this point of the path.
    AccountId32 { network: NetworkId, id: AccountId32 },
}

/// A relative location: up to two junctions.
#[derive(Clone, Copy, Debug, PartialEq, Eq)]
pub enum MultiLocation {
    Null,
    X1(Junction),
    X2(Junction, Junction),
}

/// Why a message could not be handed on.
#[derive(Clone, Copy, Debug, PartialEq, Eq, Structural)]
pub enum XcmError {
    /// No chain of the network answers to the destination.
    CannotReachDestination,
}

/// The parachain that a parachain's outbound sender hands a message to:
/// a destination of exactly one `Parachain` junction.
pub open spec fn spec_para_sender_target(dest: MultiLocation) -> Option<u32> {
    match dest {
        MultiLocation::X1(Junction::Parachain(id)) => Some(id),
        _ => None,
    }
}

/// The parachain that the relay chain's outbound sender hands a message to:
/// a destination of `Parent` followed by a `Parachain` junction.
pub open spec fn spec_relay_sender_target(dest: MultiLocation) -> Option<u32> {
    match dest {
        MultiLocation::X2(Junction::Parent, Junction::Parachain(id)) => Some(id),
        _ => None,
    }
}

/// Destination parachain of a message sent by a parachain's outbound sender.
pub fn para_sender_target(dest: &MultiLocation) -> (r: Option<u32>)
    ensures
        r == spec_para_sender_target(*dest),
{
    match dest {
        MultiLocation::X1(Junction::Parachain(id)) => Some(*id),
        _ => None,
    }
}

/// Destination parachain of a message sent by the relay chain's outbound sender.
pub fn relay_sender_target(dest: &MultiLocation) -> (r: Option<u32>)
    ensures
        r == spec_relay_sender_target(*dest),
{
    match dest {
        MultiLocation::X2(Junction::Parent, Junction::Parachain(id)) => Some(*id),
        _ => None,
    }
}

/// Converts an account into the location that names it on any network.
pub struct AccountIdToMultiLocation;

impl AccountIdToMultiLocation {
    pub fn convert(account: AccountId32) -> (r: MultiLocation)
        ensures
            r == MultiLocation::X1(Junction::AccountId32 { network: NetworkId::Any, id: account }),
    {
        MultiLocation::X1(Junction::AccountId32 { network: NetworkId::Any, id: account })
    }
}

} // verus!
