use xcm_simulator::chain::{InboundMessage, Parachain, DIRECT_SENT_AT};
use xcm_simulator::config::default_parachains_host_configuration;
use xcm_simulator::kusama_net::{self, kusama_ext, kusama_network, yayoi_ext};
use xcm_simulator::location::{
    alice, para_sender_target, relay_sender_target, AccountId32, AccountIdToMultiLocation, Junction,
    MultiLocation, NetworkId,
};
use xcm_simulator::mock_net::{self, mock_net, para_ext, relay_ext};
use xcm_simulator::parachain;
use xcm_simulator::relay_chain;
use xcm_simulator::traits::{DmpMsgHandler, GetParaId, HrmpMsgHandler, TestExt, UmpMsgHandler};

#[test]
fn parachain_builder_sets_only_the_para_id() {
    let c = parachain::ExtBuilder::default().build(7);
    assert_eq!(c.genesis.parachain_id, Some(7));
    assert!(c.genesis.balances.is_empty());
    assert_eq!(c.genesis.host_configuration, None);
    assert_eq!(c.block_number, 1);
    assert!(c.received.is_empty());
    assert_eq!(parachain::default_ext(7).genesis, c.genesis);
}

#[test]
fn relay_builder_holds_nothing() {
    let c = relay_chain::ExtBuilder::default().build();
    assert_eq!(c.genesis.parachain_id, None);
    assert!(c.genesis.balances.is_empty());
    assert_eq!(c.block_number, 1);
    assert_eq!(relay_chain::default_ext().genesis, c.genesis);
    assert_eq!(relay_chain::ext().genesis, c.genesis);
}

#[test]
fn alice_is_endowed_on_the_mock_net() {
    let p = para_ext(2);
    assert_eq!(p.genesis.parachain_id, Some(2));
    assert_eq!(p.genesis.balances, vec![(alice(), mock_net::INITIAL_BALANCE)]);
    assert_eq!(mock_net::INITIAL_BALANCE, 1_000_000_000);
    let r = relay_ext();
    assert_eq!(r.genesis.parachain_id, None);
    assert_eq!(r.genesis.balances, vec![(alice(), 1_000_000_000)]);
    assert_eq!(mock_net().para_ids(), vec![1, 2]);
}

#[test]
fn kusama_relay_holds_the_host_configuration() {
    let r = kusama_ext();
    assert_eq!(r.genesis.host_configuration, Some(default_parachains_host_configuration()));
    assert_eq!(r.genesis.balances, vec![(alice(), kusama_net::INITIAL_BALANCE)]);
    assert_eq!(kusama_net::INITIAL_BALANCE, 1_000_000_000_000);
    let p = yayoi_ext(3);
    assert_eq!(p.genesis.parachain_id, Some(3));
    assert_eq!(p.genesis.host_configuration, None);
    assert_eq!(kusama_network().para_ids(), vec![1, 2, 3]);
}

#[test]
fn alice_is_all_zero_bytes() {
    assert_eq!(alice(), AccountId32 { bytes: [0u8; 32] });
}

#[test]
fn account_converts_to_a_location_on_any_network() {
    let account = AccountId32 { bytes: [7u8; 32] };
    assert_eq!(
        AccountIdToMultiLocation::convert(account),
        MultiLocation::X1(Junction::AccountId32 { network: NetworkId::Any, id: account })
    );
}

#[test]
fn sender_targets() {
    assert_eq!(para_sender_target(&MultiLocation::X1(Junction::Parachain(4))), Some(4));
    assert_eq!(para_sender_target(&MultiLocation::X1(Junction::Parent)), None);
    assert_eq!(para_sender_target(&MultiLocation::Null), None);
    assert_eq!(
        relay_sender_target(&MultiLocation::X2(Junction::Parent, Junction::Parachain(4))),
        Some(4)
    );
    assert_eq!(
        relay_sender_target(&MultiLocation::X2(Junction::Parachain(4), Junction::Parent)),
        None
    );
    assert_eq!(relay_sender_target(&MultiLocation::X1(Junction::Parachain(4))), None);
}

#[test]
fn handlers_record_what_they_take() {
    let mut relay = relay_chain::ext();
    assert_eq!(relay.handle_ump_msg(5, vec![1]), Ok(()));
    assert_eq!(relay.received, vec![InboundMessage::Upward { from: 5, data: vec![1] }]);

    let mut para = Parachain { para_id: 5, chain: parachain::default_ext(5) };
    assert_eq!(para.para_id(), 5);
    assert_eq!(para.handle_hrmp_msg(6, vec![2]), Ok(()));
    assert_eq!(para.handle_dmp_msg(vec![3]), Ok(()));
    assert_eq!(
        para.chain.received,
        vec![
            InboundMessage::Horizontal { from: 6, sent_at: DIRECT_SENT_AT, data: vec![2] },
            InboundMessage::Downward { sent_at: DIRECT_SENT_AT, data: vec![3] },
        ]
    );
}

#[test]
fn reset_ext_returns_to_genesis() {
    let mut c = para_ext(1);
    c.queue_upward(vec![1]);
    c.queue_downward(2, vec![2]);
    c.block_number = 9;
    assert_eq!(c.handle_ump_msg(1, vec![3]), Ok(()));
    c.reset_ext();
    assert_eq!(c.block_number, 1);
    assert!(c.received.is_empty());
    assert!(c.upward_queue.is_empty());
    assert!(c.downward_queue.is_empty());
    assert_eq!(c.genesis.parachain_id, Some(1));
}

#[test]
fn take_upward_queue_empties_it() {
    let mut c = para_ext(1);
    c.queue_upward(vec![1]);
    c.queue_upward(vec![2]);
    assert_eq!(c.take_upward_queue(), vec![vec![1], vec![2]]);
    assert!(c.upward_queue.is_empty());
}
