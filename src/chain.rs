//! A mock chain: the state it was built from, the messages it has received,
//! and the messages it has queued for other chains.
use vstd::prelude::*;
use crate::config::HostConfiguration;
use crate::location::{AccountId32, XcmError};
use crate::traits::{DmpMsgHandler, GetParaId, HrmpMsgHandler, TestExt, UmpMsgHandler};

verus! {

/// The relay block that a message handed straight to a chain, outside a relay
/// chain's step, is stamped with.
pub const DIRECT_SENT_AT: u32 = 1;

/// What a chain starts from: its parachain id (none for the relay chain), the
/// endowed accounts, and the relay chain's host configuration where it has one.
#[derive(Debug, PartialEq, Eq)]
pub struct Genesis {
    pub parachain_id: Option<u32>,
    pub balances: Vec<(AccountId32, u128)>,
    pub host_configuration: Option<HostConfiguration>,
}

/// A message that a chain has received.
#[derive(Debug, PartialEq, Eq)]
pub enum InboundMessage {
    /// From a parachain to the relay chain.
    Upward { from: u32, data: Vec<u8> },
    /// From the relay chain to a parachain, sent at a relay block.
    Downward { sent_at: u32, data: Vec<u8> },
    /// From a parachain to another, sent at a relay block.
    Horizontal { from: u32, sent_at: u32, data: Vec<u8> },
}

/// The model of an `InboundMessage`.
pub enum InboundMessageView {
    Upward { from: u32, data: Seq<u8> },
    Downward { sent_at: u32, data: Seq<u8> },
    Horizontal { from: u32, sent_at: u32, data: Seq<u8> },
}

impl View for InboundMessage {
    type V = InboundMessageView;

    open spec fn view(&self) -> InboundMessageView {
        match self {
            InboundMessage::Upward { from, data } => InboundMessageView::Upward {
                from: *from,
                data: data@,
            },
            InboundMessage::Downward { sent_at, data } => InboundMessageView::Downward {
                sent_at: *sent_at,
                data: data@,
            },
            InboundMessage::Horizontal { from, sent_at, data } => InboundMessageView::Horizontal {
                from: *from,
                sent_at: *sent_at,
                data: data@,
            },
        }
    }
}

/// A message that the relay chain holds for a parachain.
#[derive(Debug, PartialEq, Eq)]
pub struct DownwardMessage {
    pub to: u32,
    pub sent_at: u32,
    pub data: Vec<u8>,
}

/// The model of a `DownwardMessage`.
pub struct DownwardMessageView {
    pub to: u32,
    pub sent_at: u32,
    pub data: Seq<u8>,
}

impl View for DownwardMessage {
    type V = DownwardMessageView;

    open spec fn view(&self) -> DownwardMessageView {
        DownwardMessageView { to: self.to, sent_at: self.sent_at, data: self.data@ }
    }
}

/// The isolated state of one mock chain.
pub struct MockChain {
    pub genesis: Genesis,
    pub block_number: u32,
    /// Messages handed to this chain, oldest first.
    pub received: Vec<InboundMessage>,
    /// Upward messages a parachain has sent during the current step.
    pub upward_queue: Vec<Vec<u8>>,
    /// Downward messages the relay chain holds for parachains, oldest first.
    pub downward_queue: Vec<DownwardMessage>,
}

/// The model of a `MockChain`.
pub struct MockChainView {
    pub genesis: Genesis,
    pub block_number: u32,
    pub received: Seq<InboundMessageView>,
    pub upward_queue: Seq<Seq<u8>>,
    pub downward_queue: Seq<DownwardMessageView>,
}

impl View for MockChain {
    type V = MockChainView;

    open spec fn view(&self) -> MockChainView {
        MockChainView {
            genesis: self.genesis,
            block_number: self.block_number,
            received: self.received@.map_values(|m: InboundMessage| m@),
            upward_queue: self.upward_queue@.map_values(|d: Vec<u8>| d@),
            downward_queue: self.downward_queue@.map_values(|m: DownwardMessage| m@),
        }
    }
}

impl MockChainView {
    /// The state a chain is in right after it is built from `genesis`: at block
    /// one, with nothing received and nothing queued.
    pub open spec fn initial(genesis: Genesis) -> MockChainView {
        MockChainView {
            genesis,
            block_number: 1,
            received: Seq::empty(),
            upward_queue: Seq::empty(),
            downward_queue: Seq::empty(),
        }
    }

    /// This state with `m` appended to what the chain has received.
    pub open spec fn receive(self, m: InboundMessageView) -> MockChainView {
        MockChainView { received: self.received.push(m), ..self }
    }

    /// This state with `ms` appended, in order, to what the chain has received.
    pub open spec fn receive_all(self, ms: Seq<InboundMessageView>) -> MockChainView {
        MockChainView { received: self.received + ms, ..self }
    }
}

impl MockChain {
    /// Builds a chain from `genesis`.
    pub fn new(genesis: Genesis) -> (r: MockChain)
        ensures
            r@ == MockChainView::initial(genesis),
    {
        let r = MockChain {
            genesis,
            block_number: 1,
            received: Vec::new(),
            upward_queue: Vec::new(),
            downward_queue: Vec::new(),
        };
        proof {
            assert(r@.received =~= Seq::empty());
            assert(r@.upward_queue =~= Seq::empty());
            assert(r@.downward_queue =~= Seq::empty());
        }
        r
    }

    /// Hands `m` to this chain.
    pub fn receive(&mut self, m: InboundMessage)
        ensures
            final(self)@ == old(self)@.receive(m@),
    {
        self.received.push(m);
        proof {
            assert(self@.received =~= old(self)@.received.push(m@));
        }
    }

    /// Hands each of `ms` to this chain, in order.
    pub fn receive_all(&mut self, ms: Vec<InboundMessage>)
        ensures
            final(self)@ == old(self)@.receive_all(ms@.map_values(|m: InboundMessage| m@)),
    {
        let mut ms = ms;
        let ghost added = ms@;
        self.received.append(&mut ms);
        proof {
            assert(self@.received =~= old(self)@.received + added.map_values(
                |m: InboundMessage| m@,
            ));
        }
    }

    /// Queues an upward message, to be handed to the relay chain when the
    /// current step ends.
    pub fn queue_upward(&mut self, msg: Vec<u8>)
        ensures
            final(self)@ == (MockChainView { upward_queue: old(self)@.upward_queue.push(msg@), ..old(self)@ }),
    {
        self.upward_queue.push(msg);
        proof {
            assert(self@.upward_queue =~= old(self)@.upward_queue.push(msg@));
        }
    }

    /// Empties the upward queue and returns what it held.
    pub fn take_upward_queue(&mut self) -> (r: Vec<Vec<u8>>)
        ensures
            r@.map_values(|d: Vec<u8>| d@) == old(self)@.upward_queue,
            final(self)@ == (MockChainView { upward_queue: Seq::empty(), ..old(self)@ }),
    {
        let mut r: Vec<Vec<u8>> = Vec::new();
        std::mem::swap(&mut self.upward_queue, &mut r);
        proof {
            assert(self@.upward_queue =~= Seq::<Seq<u8>>::empty());
        }
        r
    }

    /// Queues a downward message for the parachain `to`, stamped with the
    /// current block.
    pub fn queue_downward(&mut self, to: u32, msg: Vec<u8>)
        ensures
            final(self)@ == (MockChainView {
                downward_queue: old(self)@.downward_queue.push(
                    DownwardMessageView { to, sent_at: old(self)@.block_number, data: msg@ },
                ),
                ..old(self)@
            }),
    {
        let m = DownwardMessage { to, sent_at: self.block_number, data: msg };
        self.downward_queue.push(m);
        proof {
            assert(self@.downward_queue =~= old(self)@.downward_queue.push(m@));
        }
    }
}

impl TestExt for MockChain {
    /// Puts the chain back to the state it was built in.
    fn reset_ext(&mut self)
        ensures
            final(self)@ == MockChainView::initial(old(self).genesis),
    {
        self.block_number = 1;
        self.received = Vec::new();
        self.upward_queue = Vec::new();
        self.downward_queue = Vec::new();
        proof {
            assert(self@.received =~= Seq::empty());
            assert(self@.upward_queue =~= Seq::empty());
            assert(self@.downward_queue =~= Seq::empty());
        }
    }
}

impl UmpMsgHandler for MockChain {
    /// Takes an upward message from the parachain `from`.
    fn handle_ump_msg(&mut self, from: u32, msg: Vec<u8>) -> (r: Result<(), ()>)
        ensures
            r is Ok,
            final(self)@ == old(self)@.receive(InboundMessageView::Upward { from, data: msg@ }),
    {
        self.receive(InboundMessage::Upward { from, data: msg });
        Ok(())
    }
}

/// A chain of the network registered under a parachain id.
pub struct Parachain {
    pub para_id: u32,
    pub chain: MockChain,
}

/// The model of a `Parachain`.
pub struct ParachainView {
    pub para_id: u32,
    pub chain: MockChainView,
}

impl View for Parachain {
    type V = ParachainView;

    open spec fn view(&self) -> ParachainView {
        ParachainView { para_id: self.para_id, chain: self.chain@ }
    }
}

impl ParachainView {
    /// This parachain with `m` appended to what it has received.
    pub open spec fn receive(self, m: InboundMessageView) -> ParachainView {
        ParachainView { chain: self.chain.receive(m), ..self }
    }
}

impl GetParaId for Parachain {
    fn para_id(&self) -> (r: u32)
        ensures
            r == self.para_id,
    {
        self.para_id
    }
}

impl HrmpMsgHandler for Parachain {
    /// Takes a horizontal message from the parachain `from`.
    fn handle_hrmp_msg(&mut self, from: u32, msg: Vec<u8>) -> (r: Result<(), ()>)
        ensures
            r is Ok,
            final(self)@ == old(self)@.receive(
                InboundMessageView::Horizontal { from, sent_at: DIRECT_SENT_AT, data: msg@ },
            ),
    {
        self.chain.receive(InboundMessage::Horizontal { from, sent_at: DIRECT_SENT_AT, data: msg });
        Ok(())
    }
}

impl DmpMsgHandler for Parachain {
    /// Takes a downward message from the relay chain.
    fn handle_dmp_msg(&mut self, msg: Vec<u8>) -> (r: Result<(), XcmError>)
        ensures
            r is Ok,
            final(self)@ == old(self)@.receive(
                InboundMessageView::Downward { sent_at: DIRECT_SENT_AT, data: msg@ },
            ),
    {
        self.chain.receive(InboundMessage::Downward { sent_at: DIRECT_SENT_AT, data: msg });
        Ok(())
    }
}

} // verus!
