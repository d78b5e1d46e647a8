use xcm_simulator::config::{default_parachains_host_configuration, MAX_CODE_SIZE, MAX_POV_SIZE};
use xcm_simulator::inherent::{
    empty_hrmp_channel, hrmp_channel_parachain_inherent_data, hrmp_egress_channel_index,
    search_ascending, HrmpChannelId,
};

#[test]
fn egress_index_is_ascending_without_repeats() {
    assert_eq!(hrmp_egress_channel_index(&vec![3, 1, 3, 2]), vec![1, 2, 3]);
    assert_eq!(hrmp_egress_channel_index(&vec![2, 2, 2]), vec![2]);
    assert_eq!(hrmp_egress_channel_index(&vec![u32::MAX, 0]), vec![0, u32::MAX]);
}

#[test]
fn egress_index_of_no_recipient_is_empty() {
    assert!(hrmp_egress_channel_index(&vec![]).is_empty());
}

#[test]
fn search_ascending_finds_or_places() {
    let v = vec![2, 4, 6];
    assert_eq!(search_ascending(&v, 4), Ok(1));
    assert_eq!(search_ascending(&v, 1), Err(0));
    assert_eq!(search_ascending(&v, 5), Err(2));
    assert_eq!(search_ascending(&v, 7), Err(3));
    assert_eq!(search_ascending(&vec![], 7), Err(0));
}

#[test]
fn inherent_data_opens_an_empty_channel_to_each_parachain() {
    let setup = hrmp_channel_parachain_inherent_data(2, 1, &vec![1, 2, 3]);
    assert_eq!(setup.para_id, 2);
    assert_eq!(setup.relay_parent_number, 1);
    assert_eq!(setup.hrmp_egress_channel_index, vec![1, 2, 3]);
    let recipients: Vec<u32> = setup.hrmp_channels.iter().map(|(id, _)| id.recipient).collect();
    assert_eq!(recipients, vec![1, 2, 3]);
    for (id, channel) in &setup.hrmp_channels {
        assert_eq!(id.sender, 2);
        assert_eq!(*channel, empty_hrmp_channel());
    }
    assert_eq!(setup.hrmp_channels[0].0, HrmpChannelId { sender: 2, recipient: 1 });
}

#[test]
fn empty_channel_limits() {
    let c = empty_hrmp_channel();
    assert_eq!(c.max_capacity, 1024);
    assert_eq!(c.max_total_size, 1024 * 1024);
    assert_eq!(c.max_message_size, 1024 * 1024);
    assert_eq!(c.msg_count, 0);
    assert_eq!(c.total_size, 0);
    assert_eq!(c.mqc_head, None);
}

#[test]
fn default_host_configuration_values() {
    let c = default_parachains_host_configuration();
    assert_eq!(c.minimum_validation_upgrade_delay, 5);
    assert_eq!(c.validation_upgrade_cooldown, 10);
    assert_eq!(c.validation_upgrade_delay, 10);
    assert_eq!(c.code_retention_period, 1200);
    assert_eq!(c.max_code_size, MAX_CODE_SIZE);
    assert_eq!(c.max_code_size, 3 * 1024 * 1024);
    assert_eq!(c.max_pov_size, MAX_POV_SIZE);
    assert_eq!(c.max_pov_size, 5 * 1024 * 1024);
    assert_eq!(c.max_head_data_size, 32 * 1024);
    assert_eq!(c.group_rotation_frequency, 20);
    assert_eq!(c.chain_availability_period, 4);
    assert_eq!(c.thread_availability_period, 4);
    assert_eq!(c.max_upward_queue_count, 8);
    assert_eq!(c.max_upward_queue_size, 1024 * 1024);
    assert_eq!(c.max_downward_message_size, 1024);
    assert_eq!(c.ump_service_total_weight, 4_000_000_000);
    assert_eq!(c.max_upward_message_size, 50 * 1024);
    assert_eq!(c.max_upward_message_num_per_candidate, 5);
    assert_eq!(c.hrmp_sender_deposit, 0);
    assert_eq!(c.hrmp_recipient_deposit, 0);
    assert_eq!(c.hrmp_channel_max_capacity, 8);
    assert_eq!(c.hrmp_channel_max_total_size, 8 * 1024);
    assert_eq!(c.hrmp_max_parachain_inbound_channels, 4);
    assert_eq!(c.hrmp_max_parathread_inbound_channels, 4);
    assert_eq!(c.hrmp_channel_max_message_size, 1024 * 1024);
    assert_eq!(c.hrmp_max_parachain_outbound_channels, 4);
    assert_eq!(c.hrmp_max_parathread_outbound_channels, 4);
    assert_eq!(c.hrmp_max_message_num_per_candidate, 5);
    assert_eq!(c.dispute_period, 6);
    assert_eq!(c.no_show_slots, 2);
    assert_eq!(c.n_delay_tranches, 25);
    assert_eq!(c.needed_approvals, 2);
    assert_eq!(c.relay_vrf_modulo_samples, 2);
    assert_eq!(c.zeroth_delay_tranche_width, 0);
}
