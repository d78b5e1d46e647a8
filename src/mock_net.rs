//! A network of a relay chain and two parachains, each endowing one account.
use vstd::prelude::*;
use crate::chain::{Genesis, MockChain, MockChainView};
use crate::location::{alice, spec_alice};
use crate::network::{TestNetwork, distinct_ids, ids_of};

verus! {

/// What `alice()` holds on every chain at genesis.
pub const INITIAL_BALANCE: u128 = 1_000_000_000;

/// `c` is a chain of this network, freshly built, under the parachain id
/// `para_id` (none for the relay chain).
pub open spec fn is_fresh_chain(c: MockChainView, para_id: Option<u32>) -> bool {
    &&& c == MockChainView::initial(c.genesis)
    &&& c.genesis.parachain_id == para_id
    &&& c.genesis.balances@ == seq![(spec_alice(), INITIAL_BALANCE)]
    &&& c.genesis.host_configuration is None
}

/// A parachain with id `para_id` that endows `alice()`.
pub fn para_ext(para_id: u32) -> (r: MockChain)
    ensures
        is_fresh_chain(r@, Some(para_id)),
{
    let balances = vec![(alice(), INITIAL_BALANCE)];
    assert(balances@ =~= seq![(spec_alice(), INITIAL_BALANCE)]);
    MockChain::new(Genesis { parachain_id: Some(para_id), balances, host_configuration: None })
}

/// A relay chain that endows `alice()`.
pub fn relay_ext() -> (r: MockChain)
    ensures
        is_fresh_chain(r@, None),
{
    let balances = vec![(alice(), INITIAL_BALANCE)];
    assert(balances@ =~= seq![(spec_alice(), INITIAL_BALANCE)]);
    MockChain::new(Genesis { parachain_id: None, balances, host_configuration: None })
}

/// The network of `relay_ext()` and of `para_ext(1)` and `para_ext(2)`,
/// registered under 1 and 2.
pub fn mock_net() -> (r: TestNetwork)
    ensures
        is_fresh_chain(r@.relay, None),
        r@.paras.len() == 2,
        r@.paras[0].para_id == 1,
        r@.paras[1].para_id == 2,
        forall|i: int|
            0 <= i < r@.paras.len() ==> is_fresh_chain(
                #[trigger] r@.paras[i].chain,
                Some(r@.paras[i].para_id),
            ),
{
    let parachains = vec![(1u32, para_ext(1)), (2u32, para_ext(2))];
    assert(distinct_ids(ids_of(parachains@))) by {
        assert(ids_of(parachains@) =~= seq![1u32, 2u32]);
    }
    match TestNetwork::new(relay_ext(), parachains) {
        Ok(n) => n,
        Err(_) => vstd::pervasive::unreached(),
    }
}

} // verus!
