//! Building a bare relay chain.
use vstd::prelude::*;
use crate::chain::{Genesis, MockChain, MockChainView};

verus! {

/// Builds a relay chain that holds nothing.
pub struct ExtBuilder;

impl Default for ExtBuilder {
    fn default() -> (r: ExtBuilder)
        ensures
            r == ExtBuilder,
    {
        ExtBuilder
    }
}

impl ExtBuilder {
    /// A relay chain with no endowed account and no host configuration, at
    /// block one.
    pub fn build(self) -> (r: MockChain)
        ensures
            r@ == MockChainView::initial(r.genesis),
            r.genesis.parachain_id is None,
            r.genesis.balances@.len() == 0,
            r.genesis.host_configuration is None,
    {
        MockChain::new(Genesis { parachain_id: None, balances: Vec::new(), host_configuration: None })
    }
}

/// A bare relay chain.
pub fn default_ext() -> (r: MockChain)
    ensures
        r@ == MockChainView::initial(r.genesis),
        r.genesis.parachain_id is None,
        r.genesis.balances@.len() == 0,
        r.genesis.host_configuration is None,
{
    ExtBuilder::default().build()
}

/// A bare relay chain.
pub fn ext() -> (r: MockChain)
    ensures
        r@ == MockChainView::initial(r.genesis),
        r.genesis.parachain_id is None,
        r.genesis.balances@.len() == 0,
        r.genesis.host_configuration is None,
{
    default_ext()
}

} // verus!
