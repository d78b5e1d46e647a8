//! The simulated network: a relay chain and the parachains registered with it,
//! and the routing of messages between them.
use vstd::prelude::*;
use crate::chain::{
    DIRECT_SENT_AT, DownwardMessage, DownwardMessageView, InboundMessage, InboundMessageView,
    MockChain, MockChainView, Parachain, ParachainView,
};
use crate::location::{
    MultiLocation, XcmError, para_sender_target, relay_sender_target, spec_para_sender_target,
    spec_relay_sender_target,
};
use crate::traits::{TestExt, UmpMsgHandler, XcmRelay};

verus! {

/// Why a network could not be put together.
#[derive(Clone, Copy, Debug, PartialEq, Eq, Structural)]
pub enum NetworkError {
    /// Two parachains were registered under this id.
    DuplicateParaId(u32),
}

/// No id occurs twice in `ids`.
pub open spec fn distinct_ids(ids: Seq<u32>) -> bool {
    forall|i: int, j: int| 0 <= i < j < ids.len() ==> ids[i] != ids[j]
}

/// The ids under which `paras` are registered, in order.
pub open spec fn ids_of_views(paras: Seq<ParachainView>) -> Seq<u32> {
    paras.map_values(|p: ParachainView| p.para_id)
}

/// The ids of `parachains`, in order.
pub open spec fn ids_of(parachains: Seq<(u32, MockChain)>) -> Seq<u32> {
    parachains.map_values(|p: (u32, MockChain)| p.0)
}

/// The parachains of `parachains`, each registered under the id beside it.
pub open spec fn registered(parachains: Seq<(u32, MockChain)>) -> Seq<ParachainView> {
    Seq::new(
        parachains.len(),
        |i: int| ParachainView { para_id: parachains[i].0, chain: parachains[i].1@ },
    )
}

/// The upward messages `queue`, as the relay chain receives them from `from`.
pub open spec fn upward_from(from: u32, queue: Seq<Seq<u8>>) -> Seq<InboundMessageView> {
    queue.map_values(|d: Seq<u8>| InboundMessageView::Upward { from, data: d })
}

/// The messages of the relay chain's downward queue `queue` that are meant
/// for the parachain `id`, in order, as that parachain receives them.
pub open spec fn downward_for(queue: Seq<DownwardMessageView>, id: u32) -> Seq<
    InboundMessageView,
>
    decreases queue.len(),
{
    if queue.len() == 0 {
        Seq::empty()
    } else {
        let earlier = downward_for(queue.drop_last(), id);
        let m = queue.last();
        if m.to == id {
            earlier.push(InboundMessageView::Downward { sent_at: m.sent_at, data: m.data })
        } else {
            earlier
        }
    }
}

/// An id that occurs twice in `ids`, if any does.
fn find_duplicate(ids: &Vec<u32>) -> (r: Option<u32>)
    ensures
        match r {
            Some(id) => exists|i: int, j: int|
                0 <= i < j < ids.len() && ids@[i] == id && ids@[j] == id,
            None => distinct_ids(ids@),
        },
{
    let mut j: usize = 0;
    while j < ids.len()
        invariant
            j <= ids.len(),
            distinct_ids(ids@.subrange(0, j as int)),
        decreases ids.len() - j,
    {
        let mut i: usize = 0;
        while i < j
            invariant
                i <= j < ids.len(),
                forall|k: int| 0 <= k < i ==> ids@[k] != ids@[j as int],
            decreases j - i,
        {
            if ids[i] == ids[j] {
                return Some(ids[j]);
            }
            i = i + 1;
        }
        proof {
            let prev = ids@.subrange(0, j as int);
            let next = ids@.subrange(0, j + 1);
            assert forall|a: int, b: int| 0 <= a < b < next.len() implies next[a] != next[b] by {
                if b < j {
                    assert(prev[a] != prev[b]);
                }
            }
        }
        j = j + 1;
    }
    proof {
        assert(ids@.subrange(0, ids@.len() as int) =~= ids@);
    }
    None
}

/// The messages of `queue` meant for the parachain `id`, in order.
fn downward_messages_for(queue: &Vec<DownwardMessage>, id: u32) -> (r: Vec<InboundMessage>)
    ensures
        r@.map_values(|m: InboundMessage| m@) == downward_for(
            queue@.map_values(|m: DownwardMessage| m@),
            id,
        ),
{
    let ghost qv = queue@.map_values(|m: DownwardMessage| m@);
    let mut r: Vec<InboundMessage> = Vec::new();
    let mut j: usize = 0;
    while j < queue.len()
        invariant
            j <= queue.len(),
            qv == queue@.map_values(|m: DownwardMessage| m@),
            r@.map_values(|m: InboundMessage| m@) == downward_for(qv.subrange(0, j as int), id),
        decreases queue.len() - j,
    {
        let ghost before = r@;
        assert(qv.subrange(0, j + 1).drop_last() =~= qv.subrange(0, j as int));
        if queue[j].to == id {
            let data = queue[j].data.clone();
            let m = InboundMessage::Downward { sent_at: queue[j].sent_at, data };
            assert(m@ == InboundMessageView::Downward { sent_at: qv[j as int].sent_at, data: qv[j as int].data }) by {
                assert(data@ =~= queue@[j as int].data@);
            }
            r.push(m);
            assert(r@.map_values(|m: InboundMessage| m@) =~= before.map_values(|m: InboundMessage| m@).push(m@));
        }
        j = j + 1;
    }
    assert(qv.subrange(0, queue.len() as int) =~= qv);
    r
}

/// The upward messages `queue` of the parachain `from`, in order, as the
/// relay chain receives them.
fn upward_messages(from: u32, queue: Vec<Vec<u8>>) -> (r: Vec<InboundMessage>)
    ensures
        r@.map_values(|m: InboundMessage| m@) == upward_from(
            from,
            queue@.map_values(|d: Vec<u8>| d@),
        ),
{
    let ghost qv = queue@.map_values(|d: Vec<u8>| d@);
    let mut rest = queue;
    let mut r: Vec<InboundMessage> = Vec::new();
    while rest.len() > 0
        invariant
            r@.len() + rest@.len() == qv.len(),
            rest@.map_values(|d: Vec<u8>| d@) == qv.subrange(r@.len() as int, qv.len() as int),
            r@.map_values(|m: InboundMessage| m@) == upward_from(
                from,
                qv.subrange(0, r@.len() as int),
            ),
        decreases rest@.len(),
    {
        let ghost k: int = r@.len() as int;
        let ghost before = r@;
        let ghost old_rest = rest@;
        assert(old_rest.map_values(|d: Vec<u8>| d@)[0] == qv[k]);
        let data = rest.remove(0);
        let m = InboundMessage::Upward { from, data };
        r.push(m);
        proof {
            assert forall|j: int| 0 <= j < rest@.len() implies #[trigger] rest@[j]@ == qv[k + 1 + j] by {
                assert(rest@[j] == old_rest[j + 1]);
                assert(old_rest.map_values(|d: Vec<u8>| d@)[j + 1] == qv[k + 1 + j]);
            }
            assert(m@ == InboundMessageView::Upward { from, data: qv[k] });
            assert(r@.map_values(|m: InboundMessage| m@) =~= before.map_values(
                |m: InboundMessage| m@,
            ).push(m@));
            assert(qv.subrange(0, k + 1) =~= qv.subrange(0, k).push(qv[k]));
            assert(upward_from(from, qv.subrange(0, k + 1)) =~= upward_from(
                from,
                qv.subrange(0, k),
            ).push(InboundMessageView::Upward { from, data: qv[k] }));
            assert(rest@.map_values(|d: Vec<u8>| d@) =~= qv.subrange(k + 1, qv.len() as int));
            assert(r@.map_values(|m: InboundMessage| m@) =~= upward_from(
                from,
                qv.subrange(0, k + 1),
            ));
        }
    }
    assert(qv.subrange(0, qv.len() as int) =~= qv);
    r
}

/// The parachains of a network, each under an id of its own.
struct ParachainRegistry {
    paras: Vec<Parachain>,
}

impl View for ParachainRegistry {
    type V = Seq<ParachainView>;

    closed spec fn view(&self) -> Seq<ParachainView> {
        self.paras@.map_values(|p: Parachain| p@)
    }
}

impl ParachainRegistry {
    #[verifier::type_invariant]
    closed spec fn ids_are_distinct(self) -> bool {
        distinct_ids(ids_of_views(self@))
    }

    /// The registry of `paras`, whose ids are distinct.
    fn new(paras: Vec<Parachain>) -> (r: ParachainRegistry)
        requires
            distinct_ids(ids_of_views(paras@.map_values(|p: Parachain| p@))),
        ensures
            r@ == paras@.map_values(|p: Parachain| p@),
    {
        ParachainRegistry { paras }
    }

    fn len(&self) -> (r: usize)
        ensures
            r == self@.len(),
    {
        self.paras.len()
    }

    fn get(&self, i: usize) -> (r: &Parachain)
        requires
            i < self@.len(),
        ensures
            r@ == self@[i as int],
    {
        &self.paras[i]
    }

    /// Position of the parachain registered under `id`.
    fn find(&self, id: u32) -> (r: Option<usize>)
        ensures
            match r {
                Some(i) => i < self@.len() && self@[i as int].para_id == id,
                None => forall|k: int| 0 <= k < self@.len() ==> self@[k].para_id != id,
            },
    {
        let mut i: usize = 0;
        while i < self.paras.len()
            invariant
                i <= self.paras.len(),
                forall|k: int| 0 <= k < i ==> self@[k].para_id != id,
            decreases self.paras.len() - i,
        {
            if self.paras[i].para_id == id {
                return Some(i);
            }
            i = i + 1;
        }
        None
    }

    /// Empties the registry and returns its parachains, whose ids are
    /// distinct.
    fn take_all(&mut self) -> (r: Vec<Parachain>)
        ensures
            r@.map_values(|p: Parachain| p@) == old(self)@,
            distinct_ids(ids_of_views(old(self)@)),
            final(self)@.len() == 0,
    {
        proof {
            use_type_invariant(&*self);
        }
        let mut paras: Vec<Parachain> = Vec::new();
        std::mem::swap(&mut self.paras, &mut paras);
        proof {
            assert(ids_of_views(self@) =~= Seq::<u32>::empty());
        }
        paras
    }

    /// Puts `paras`, whose ids are distinct, in the place of the registry's
    /// parachains.
    fn restore(&mut self, paras: Vec<Parachain>)
        requires
            distinct_ids(ids_of_views(paras@.map_values(|p: Parachain| p@))),
        ensures
            final(self)@ == paras@.map_values(|p: Parachain| p@),
    {
        self.paras = paras;
    }
}

/// In a list of parachains with distinct ids, the one at position `i` is the
/// only one registered under its id.
proof fn lemma_only_match(paras: Seq<ParachainView>, i: int)
    requires
        distinct_ids(ids_of_views(paras)),
        0 <= i < paras.len(),
    ensures
        forall|k: int|
            0 <= k < paras.len() && k != i ==> #[trigger] paras[k].para_id != paras[i].para_id,
{
    let ids = ids_of_views(paras);
    assert forall|k: int| 0 <= k < paras.len() && k != i implies #[trigger] paras[k].para_id
        != paras[i].para_id by {
        assert(ids[k] == paras[k].para_id && ids[i] == paras[i].para_id);
        if k < i {
            assert(ids[k] != ids[i]);
        } else {
            assert(ids[i] != ids[k]);
        }
    }
}

/// A relay chain and its parachains, each parachain under its own id.
pub struct TestNetwork {
    relay: MockChain,
    paras: ParachainRegistry,
}

/// The model of a `TestNetwork`.
pub struct TestNetworkView {
    pub relay: MockChainView,
    pub paras: Seq<ParachainView>,
}

impl View for TestNetwork {
    type V = TestNetworkView;

    closed spec fn view(&self) -> TestNetworkView {
        TestNetworkView { relay: self.relay@, paras: self.paras@ }
    }
}

impl TestNetworkView {
    /// The ids under which the parachains are registered, in order.
    pub open spec fn para_ids(self) -> Seq<u32> {
        ids_of_views(self.paras)
    }

    /// Some parachain is registered under `id`.
    pub open spec fn has_para(self, id: u32) -> bool {
        exists|i: int| 0 <= i < self.paras.len() && #[trigger] self.paras[i].para_id == id
    }

    /// Position of the parachain registered under `id`, where one is.
    pub open spec fn index_of(self, id: u32) -> int {
        choose|i: int| 0 <= i < self.paras.len() && self.paras[i].para_id == id
    }

    /// The network after `m` is handed to the parachain registered under `to`.
    pub open spec fn deliver(self, to: u32, m: InboundMessageView) -> TestNetworkView {
        TestNetworkView {
            paras: Seq::new(
                self.paras.len(),
                |i: int|
                    if self.paras[i].para_id == to {
                        self.paras[i].receive(m)
                    } else {
                        self.paras[i]
                    },
            ),
            ..self
        }
    }

    /// Every chain of the network put back to the state it was built in.
    pub open spec fn reset(self) -> TestNetworkView {
        TestNetworkView {
            relay: MockChainView::initial(self.relay.genesis),
            paras: Seq::new(
                self.paras.len(),
                |i: int|
                    ParachainView {
                        para_id: self.paras[i].para_id,
                        chain: MockChainView::initial(self.paras[i].chain.genesis),
                    },
            ),
        }
    }

    /// The network after the parachain `from` queues the upward message `msg`.
    pub open spec fn queue_upward(self, from: u32, msg: Seq<u8>) -> TestNetworkView {
        TestNetworkView {
            paras: Seq::new(
                self.paras.len(),
                |i: int|
                    if self.paras[i].para_id == from {
                        ParachainView {
                            chain: MockChainView {
                                upward_queue: self.paras[i].chain.upward_queue.push(msg),
                                ..self.paras[i].chain
                            },
                            ..self.paras[i]
                        }
                    } else {
                        self.paras[i]
                    },
            ),
            ..self
        }
    }

    /// The network after the step of the parachain at position `i` ends: the
    /// relay chain has received the parachain's queued upward messages, in
    /// order, and the parachain's queue is empty.
    pub open spec fn finish_para_step(self, i: int) -> TestNetworkView {
        TestNetworkView {
            relay: self.relay.receive_all(
                upward_from(self.paras[i].para_id, self.paras[i].chain.upward_queue),
            ),
            paras: self.paras.update(
                i,
                ParachainView {
                    chain: MockChainView { upward_queue: Seq::empty(), ..self.paras[i].chain },
                    ..self.paras[i]
                },
            ),
        }
    }

    /// The network after the relay chain queues the downward message `msg`
    /// for the parachain `to`.
    pub open spec fn queue_downward(self, to: u32, msg: Seq<u8>) -> TestNetworkView {
        TestNetworkView {
            relay: MockChainView {
                downward_queue: self.relay.downward_queue.push(
                    DownwardMessageView { to, sent_at: self.relay.block_number, data: msg },
                ),
                ..self.relay
            },
            ..self
        }
    }

    /// The network after the relay chain's step ends: every parachain has
    /// received, in order, the queued downward messages meant for it. The
    /// relay chain keeps its queue.
    pub open spec fn finish_relay_step(self) -> TestNetworkView {
        TestNetworkView {
            paras: Seq::new(
                self.paras.len(),
                |i: int|
                    ParachainView {
                        chain: self.paras[i].chain.receive_all(
                            downward_for(self.relay.downward_queue, self.paras[i].para_id),
                        ),
                        ..self.paras[i]
                    },
            ),
            ..self
        }
    }
}

impl TestNetwork {
    /// Puts together a network of `relay` and `parachains`, each parachain
    /// registered under the id beside it. Fails where an id occurs twice.
    pub fn new(relay: MockChain, parachains: Vec<(u32, MockChain)>) -> (r: Result<
        TestNetwork,
        NetworkError,
    >)
        ensures
            r is Ok <==> distinct_ids(ids_of(parachains@)),
            match r {
                Ok(n) => n@ == TestNetworkView { relay: relay@, paras: registered(parachains@) },
                Err(NetworkError::DuplicateParaId(id)) => exists|i: int, j: int|
                    0 <= i < j < parachains@.len() && parachains@[i].0 == id && parachains@[j].0
                        == id,
            },
    {
        let mut ids: Vec<u32> = Vec::new();
        let mut k: usize = 0;
        while k < parachains.len()
            invariant
                k <= parachains.len(),
                ids@ =~= ids_of(parachains@).subrange(0, k as int),
            decreases parachains.len() - k,
        {
            ids.push(parachains[k].0);
            k = k + 1;
        }
        assert(ids@ =~= ids_of(parachains@));
        if let Some(id) = find_duplicate(&ids) {
            return Err(NetworkError::DuplicateParaId(id));
        }
        let ghost all = parachains@;
        let mut rest = parachains;
        let mut paras: Vec<Parachain> = Vec::new();
        while rest.len() > 0
            invariant
                paras@.len() + rest@.len() == all.len(),
                rest@ == all.subrange(paras@.len() as int, all.len() as int),
                forall|i: int|
                    0 <= i < paras@.len() ==> #[trigger] paras@[i]@ == registered(all)[i],
            decreases rest@.len(),
        {
            let (para_id, chain) = rest.remove(0);
            paras.push(Parachain { para_id, chain });
        }
        proof {
            assert(paras@.map_values(|p: Parachain| p@) =~= registered(all));
            assert(ids_of_views(registered(all)) =~= ids@);
        }
        Ok(TestNetwork { relay, paras: ParachainRegistry::new(paras) })
    }

    /// The relay chain.
    pub fn relay(&self) -> (r: &MockChain)
        ensures
            r@ == self@.relay,
    {
        &self.relay
    }

    /// The parachain registered under `id`, if any.
    pub fn para(&self, id: u32) -> (r: Option<&Parachain>)
        ensures
            r is Some <==> self@.has_para(id),
            match r {
                Some(p) => p@.para_id == id && self@.paras.contains(p@),
                None => true,
            },
    {
        match self.paras.find(id) {
            Some(i) => {
                let p = self.paras.get(i);
                assert(self@.paras[i as int] == p@);
                Some(p)
            },
            None => None,
        }
    }

    /// The ids under which the parachains are registered, in order; no id
    /// occurs twice.
    pub fn para_ids(&self) -> (r: Vec<u32>)
        ensures
            r@ == self@.para_ids(),
            distinct_ids(r@),
    {
        proof {
            use_type_invariant(&self.paras);
        }
        let mut r: Vec<u32> = Vec::new();
        let mut i: usize = 0;
        while i < self.paras.len()
            invariant
                i <= self.paras@.len(),
                r@ =~= self@.para_ids().subrange(0, i as int),
            decreases self.paras@.len() - i,
        {
            r.push(self.paras.get(i).para_id);
            i = i + 1;
        }
        assert(r@ =~= self@.para_ids());
        r
    }

    /// Hands `m` to the parachain at position `i`.
    fn deliver_at(&mut self, i: usize, m: InboundMessage)
        requires
            i < old(self)@.paras.len(),
        ensures
            final(self)@ == old(self)@.deliver(old(self)@.paras[i as int].para_id, m@),
    {
        let ghost to = self@.paras[i as int].para_id;
        let mut paras = self.paras.take_all();
        let ghost before = paras@;
        paras[i].chain.receive(m);
        proof {
            lemma_only_match(old(self)@.paras, i as int);
            assert(paras@.map_values(|p: Parachain| p@) =~= old(self)@.deliver(to, m@).paras);
            assert(ids_of_views(paras@.map_values(|p: Parachain| p@)) =~= ids_of_views(
                old(self)@.paras,
            ));
        }
        self.paras.restore(paras);
    }

    /// Puts every chain of the network back to the state it was built in.
    pub fn reset(&mut self)
        ensures
            final(self)@ == old(self)@.reset(),
    {
        self.relay.reset_ext();
        let mut paras = self.paras.take_all();
        let mut i: usize = 0;
        while i < paras.len()
            invariant
                i <= paras@.len() == old(self)@.paras.len(),
                forall|k: int|
                    0 <= k < i ==> #[trigger] paras@[k]@ == old(self)@.reset().paras[k],
                forall|k: int| i <= k < paras@.len() ==> #[trigger] paras@[k]@ == old(self)@.paras[k],
            decreases paras@.len() - i,
        {
            let ghost before = paras@[i as int];
            paras[i].chain.reset_ext();
            assert(paras@[i as int]@ == old(self)@.reset().paras[i as int]) by {
                assert(before@ == old(self)@.paras[i as int]);
            }
            i = i + 1;
        }
        proof {
            assert(paras@.map_values(|p: Parachain| p@) =~= old(self)@.reset().paras);
            assert(ids_of_views(paras@.map_values(|p: Parachain| p@)) =~= ids_of_views(
                old(self)@.paras,
            ));
        }
        self.paras.restore(paras);
    }
}

impl XcmRelay for TestNetwork {
    /// Hands an upward message from the parachain `from` to the relay chain.
    fn send_ump_msg(&mut self, from: u32, msg: Vec<u8>) -> (r: Result<(), ()>)
        ensures
            r is Ok,
            final(self)@ == (TestNetworkView {
                relay: old(self)@.relay.receive(InboundMessageView::Upward { from, data: msg@ }),
                ..old(self)@
            }),
    {
        self.relay.handle_ump_msg(from, msg)
    }

    /// Hands a horizontal message from `from` to the parachain registered
    /// under `to`; fails, changing nothing, where no parachain is.
    fn send_hrmp_msg(&mut self, from: u32, to: u32, msg: Vec<u8>) -> (r: Result<(), ()>)
        ensures
            r is Ok <==> old(self)@.has_para(to),
            r is Ok ==> final(self)@ == old(self)@.deliver(
                to,
                InboundMessageView::Horizontal { from, sent_at: DIRECT_SENT_AT, data: msg@ },
            ),
            r is Err ==> final(self)@ == old(self)@,
    {
        match self.paras.find(to) {
            Some(i) => {
                self.deliver_at(
                    i,
                    InboundMessage::Horizontal { from, sent_at: DIRECT_SENT_AT, data: msg },
                );
                Ok(())
            },
            None => Err(()),
        }
    }

    /// Hands a downward message from the relay chain to the parachain
    /// registered under `to`; fails, changing nothing, where no parachain is.
    fn send_dmp_msg(&mut self, to: u32, msg: Vec<u8>) -> (r: Result<(), XcmError>)
        ensures
            r is Ok <==> old(self)@.has_para(to),
            r is Ok ==> final(self)@ == old(self)@.deliver(
                to,
                InboundMessageView::Downward { sent_at: DIRECT_SENT_AT, data: msg@ },
            ),
            r is Err ==> r == Err::<(), XcmError>(XcmError::CannotReachDestination) && final(self)@
                == old(self)@,
    {
        match self.paras.find(to) {
            Some(i) => {
                self.deliver_at(i, InboundMessage::Downward { sent_at: DIRECT_SENT_AT, data: msg });
                Ok(())
            },
            None => Err(XcmError::CannotReachDestination),
        }
    }
}

impl TestNetwork {
    /// Sends `msg` as the relay chain's outbound sender does: to the parachain
    /// named by a destination of `Parent` and `Parachain`, as a downward
    /// message. Any other destination, or one that names no registered
    /// parachain, cannot be reached, and nothing changes.
    pub fn relay_send_xcm(&mut self, dest: &MultiLocation, msg: Vec<u8>) -> (r: Result<(), XcmError>)
        ensures
            match spec_relay_sender_target(*dest) {
                Some(id) => {
                    &&& r is Ok <==> old(self)@.has_para(id)
                    &&& r is Ok ==> final(self)@ == old(self)@.deliver(
                        id,
                        InboundMessageView::Downward { sent_at: DIRECT_SENT_AT, data: msg@ },
                    )
                },
                None => r is Err,
            },
            r is Err ==> r == Err::<(), XcmError>(XcmError::CannotReachDestination) && final(self)@
                == old(self)@,
    {
        match relay_sender_target(dest) {
            Some(id) => self.send_dmp_msg(id, msg),
            None => Err(XcmError::CannotReachDestination),
        }
    }

    /// Sends `msg` as a parachain's outbound sender does: to the parachain
    /// named by a destination of one `Parachain` junction, as a downward
    /// message. Any other destination, or one that names no registered
    /// parachain, cannot be reached, and nothing changes.
    pub fn para_send_xcm(&mut self, dest: &MultiLocation, msg: Vec<u8>) -> (r: Result<(), XcmError>)
        ensures
            match spec_para_sender_target(*dest) {
                Some(id) => {
                    &&& r is Ok <==> old(self)@.has_para(id)
                    &&& r is Ok ==> final(self)@ == old(self)@.deliver(
                        id,
                        InboundMessageView::Downward { sent_at: DIRECT_SENT_AT, data: msg@ },
                    )
                },
                None => r is Err,
            },
            r is Err ==> r == Err::<(), XcmError>(XcmError::CannotReachDestination) && final(self)@
                == old(self)@,
    {
        match para_sender_target(dest) {
            Some(id) => self.send_dmp_msg(id, msg),
            None => Err(XcmError::CannotReachDestination),
        }
    }

    /// Sets the relay chain's block number, which stamps the downward
    /// messages it queues from then on.
    pub fn set_relay_block_number(&mut self, n: u32)
        ensures
            final(self)@ == (TestNetworkView {
                relay: MockChainView { block_number: n, ..old(self)@.relay },
                ..old(self)@
            }),
    {
        self.relay.block_number = n;
    }

    /// Queues an upward message of the parachain `from`, to be handed to the
    /// relay chain when that parachain's step ends; fails, changing nothing,
    /// where no parachain is registered under `from`.
    pub fn queue_upward_msg(&mut self, from: u32, msg: Vec<u8>) -> (r: Result<(), ()>)
        ensures
            r is Ok <==> old(self)@.has_para(from),
            r is Ok ==> final(self)@ == old(self)@.queue_upward(from, msg@),
            r is Err ==> final(self)@ == old(self)@,
    {
        match self.paras.find(from) {
            Some(i) => {
                let mut paras = self.paras.take_all();
                paras[i].chain.queue_upward(msg);
                proof {
                    lemma_only_match(old(self)@.paras, i as int);
                    assert(paras@.map_values(|p: Parachain| p@) =~= old(self)@.queue_upward(
                        from,
                        msg@,
                    ).paras);
                    assert(ids_of_views(paras@.map_values(|p: Parachain| p@)) =~= ids_of_views(
                        old(self)@.paras,
                    ));
                }
                self.paras.restore(paras);
                Ok(())
            },
            None => Err(()),
        }
    }

    /// Ends the step of the parachain `para_id`: its queued upward messages
    /// are handed to the relay chain, in order, and its queue is emptied.
    /// Fails, changing nothing, where no parachain is registered under
    /// `para_id`.
    pub fn finish_para_step(&mut self, para_id: u32) -> (r: Result<(), ()>)
        ensures
            r is Ok <==> old(self)@.has_para(para_id),
            r is Ok ==> final(self)@ == old(self)@.finish_para_step(old(self)@.index_of(para_id)),
            r is Err ==> final(self)@ == old(self)@,
    {
        match self.paras.find(para_id) {
            Some(i) => {
                let mut paras = self.paras.take_all();
                let queue = paras[i].chain.take_upward_queue();
                let ghost expected = old(self)@.finish_para_step(i as int);
                proof {
                    lemma_only_match(old(self)@.paras, i as int);
                    let k = old(self)@.index_of(para_id);
                    assert(old(self)@.paras[k].para_id == para_id);
                    assert(k == i);
                    assert(paras@.map_values(|p: Parachain| p@) =~= expected.paras);
                    assert(ids_of_views(paras@.map_values(|p: Parachain| p@)) =~= ids_of_views(
                        old(self)@.paras,
                    ));
                }
                self.paras.restore(paras);
                let msgs = upward_messages(para_id, queue);
                self.relay.receive_all(msgs);
                Ok(())
            },
            None => Err(()),
        }
    }

    /// Queues a downward message of the relay chain for the parachain `to`,
    /// stamped with the relay chain's block number; it is handed on when the
    /// relay chain's step ends. Fails, changing nothing, where no parachain is
    /// registered under `to`.
    pub fn queue_downward_msg(&mut self, to: u32, msg: Vec<u8>) -> (r: Result<(), XcmError>)
        ensures
            r is Ok <==> old(self)@.has_para(to),
            r is Ok ==> final(self)@ == old(self)@.queue_downward(to, msg@),
            r is Err ==> r == Err::<(), XcmError>(XcmError::CannotReachDestination) && final(self)@
                == old(self)@,
    {
        match self.paras.find(to) {
            Some(_) => {
                self.relay.queue_downward(to, msg);
                Ok(())
            },
            None => Err(XcmError::CannotReachDestination),
        }
    }

    /// Ends the relay chain's step: every parachain receives, in order, the
    /// queued downward messages meant for it. The relay chain keeps its
    /// queue, so a later step hands the same messages on again.
    pub fn finish_relay_step(&mut self)
        ensures
            final(self)@ == old(self)@.finish_relay_step(),
    {
        let mut paras = self.paras.take_all();
        let mut i: usize = 0;
        while i < paras.len()
            invariant
                i <= paras@.len() == old(self)@.paras.len(),
                self.relay@ == old(self)@.relay,
                forall|k: int|
                    0 <= k < i ==> #[trigger] paras@[k]@ == old(self)@.finish_relay_step().paras[k],
                forall|k: int| i <= k < paras@.len() ==> #[trigger] paras@[k]@ == old(self)@.paras[k],
            decreases paras@.len() - i,
        {
            let ghost before = paras@[i as int];
            let msgs = downward_messages_for(&self.relay.downward_queue, paras[i].para_id);
            paras[i].chain.receive_all(msgs);
            assert(paras@[i as int]@ == old(self)@.finish_relay_step().paras[i as int]) by {
                assert(before@ == old(self)@.paras[i as int]);
            }
            i = i + 1;
        }
        proof {
            assert(paras@.map_values(|p: Parachain| p@) =~= old(self)@.finish_relay_step().paras);
            assert(ids_of_views(paras@.map_values(|p: Parachain| p@)) =~= ids_of_views(
                old(self)@.paras,
            ));
        }
        self.paras.restore(paras);
    }
}

} // verus!
