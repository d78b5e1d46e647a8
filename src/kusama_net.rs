//! A network of a Kusama-like relay chain, which holds a host configuration,
//! and three parachains of one runtime, each endowing one account.
use vstd::prelude::*;
use crate::chain::{Genesis, MockChain, MockChainView};
use crate::config::{default_parachains_host_configuration, spec_default_host_configuration};
use crate::location::{alice, spec_alice};
use crate::network::{TestNetwork, distinct_ids, ids_of};

verus! {

/// What `alice()` holds on every chain at genesis.
pub const INITIAL_BALANCE: u128 = 1_000_000_000_000;

/// `c` is a chain of this network, freshly built: a parachain under
/// `para_id`, or the relay chain, with the host configuration, where
/// `para_id` is none.
pub open spec fn is_fresh_chain(c: MockChainView, para_id: Option<u32>) -> bool {
    &&& c == MockChainView::initial(c.genesis)
    &&& c.genesis.parachain_id == para_id
    &&& c.genesis.balances@ == seq![(spec_alice(), INITIAL_BALANCE)]
    &&& c.genesis.host_configuration == if para_id is None {
        Some(spec_default_host_configuration())
    } else {
        None
    }
}

/// A parachain with id `para_id` that endows `alice()`.
pub fn yayoi_ext(para_id: u32) -> (r: MockChain)
    ensures
        is_fresh_chain(r@, Some(para_id)),
{
    let balances = vec![(alice(), INITIAL_BALANCE)];
    assert(balances@ =~= seq![(spec_alice(), INITIAL_BALANCE)]);
    MockChain::new(Genesis { parachain_id: Some(para_id), balances, host_configuration: None })
}

/// A relay chain that endows `alice()` and holds the default host
/// configuration.
pub fn kusama_ext() -> (r: MockChain)
    ensures
        is_fresh_chain(r@, None),
{
    let balances = vec![(alice(), INITIAL_BALANCE)];
    assert(balances@ =~= seq![(spec_alice(), INITIAL_BALANCE)]);
    let host_configuration = Some(default_parachains_host_configuration());
    MockChain::new(Genesis { parachain_id: None, balances, host_configuration })
}

/// The network of `kusama_ext()` and of `yayoi_ext(1)`, `yayoi_ext(2)` and
/// `yayoi_ext(3)`, registered under 1, 2 and 3.
pub fn kusama_network() -> (r: TestNetwork)
    ensures
        is_fresh_chain(r@.relay, None),
        r@.paras.len() == 3,
        r@.paras[0].para_id == 1,
        r@.paras[1].para_id == 2,
        r@.paras[2].para_id == 3,
        forall|i: int|
            0 <= i < r@.paras.len() ==> is_fresh_chain(
                #[trigger] r@.paras[i].chain,
                Some(r@.paras[i].para_id),
            ),
{
    let parachains = vec![(1u32, yayoi_ext(1)), (2u32, yayoi_ext(2)), (3u32, yayoi_ext(3))];
    assert(distinct_ids(ids_of(parachains@))) by {
        assert(ids_of(parachains@) =~= seq![1u32, 2u32, 3u32]);
    }
    match TestNetwork::new(kusama_ext(), parachains) {
        Ok(n) => n,
        Err(_) => vstd::pervasive::unreached(),
    }
}

} // verus!
