//! The interfaces through which the chains of the network hand messages to
//! one another.
use vstd::prelude::*;
use crate::location::XcmError;

verus! {

/// A chain whose state can be put back to what it was built with.
pub trait TestExt {
    fn reset_ext(&mut self);
}

/// A chain that takes upward messages from parachains.
pub trait UmpMsgHandler {
    fn handle_ump_msg(&mut self, from: u32, msg: Vec<u8>) -> Result<(), ()>;
}

/// A chain that takes horizontal messages from other parachains.
pub trait HrmpMsgHandler {
    fn handle_hrmp_msg(&mut self, from: u32, msg: Vec<u8>) -> Result<(), ()>;
}

/// A chain that takes downward messages from the relay chain.
pub trait DmpMsgHandler {
    fn handle_dmp_msg(&mut self, msg: Vec<u8>) -> Result<(), XcmError>;
}

/// A network that carries messages between its chains.
pub trait XcmRelay {
    fn send_ump_msg(&mut self, from: u32, msg: Vec<u8>) -> Result<(), ()>;

    fn send_hrmp_msg(&mut self, from: u32, to: u32, msg: Vec<u8>) -> Result<(), ()>;

    fn send_dmp_msg(&mut self, to: u32, msg: Vec<u8>) -> Result<(), XcmError>;
}

/// A parachain, which knows its own id.
pub trait GetParaId {
    fn para_id(&self) -> u32;
}

} // verus!
