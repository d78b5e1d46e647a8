//! Building a bare parachain.
use vstd::prelude::*;
use crate::chain::{Genesis, MockChain, MockChainView};

verus! {

/// Builds a parachain that holds nothing but its own id.
pub struct ExtBuilder;

impl Default for ExtBuilder {
    fn default() -> (r: ExtBuilder)
        ensures
            r == ExtBuilder,
    {
        ExtBuilder
    }
}

impl ExtBuilder {
    /// A parachain with id `para_id`, no endowed account and no host
    /// configuration, at block one.
    pub fn build(self, para_id: u32) -> (r: MockChain)
        ensures
            r@ == MockChainView::initial(r.genesis),
            r.genesis.parachain_id == Some(para_id),
            r.genesis.balances@.len() == 0,
            r.genesis.host_configuration is None,
    {
        MockChain::new(Genesis { parachain_id: Some(para_id), balances: Vec::new(), host_configuration: None })
    }
}

/// A bare parachain with id `para_id`.
pub fn default_ext(para_id: u32) -> (r: MockChain)
    ensures
        r@ == MockChainView::initial(r.genesis),
        r.genesis.parachain_id == Some(para_id),
        r.genesis.balances@.len() == 0,
        r.genesis.host_configuration is None,
{
    ExtBuilder::default().build(para_id)
}

} // verus!
