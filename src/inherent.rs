//! What a parachain is told about the relay chain before each step: its
//! outbound horizontal channels, one to every parachain of the network.
use vstd::prelude::*;

verus! {

/// Capacity, in messages, of each simulated horizontal channel.
pub const HRMP_CHANNEL_MAX_CAPACITY: u32 = 1024;

/// Total size, in bytes, that each simulated horizontal channel may hold.
pub const HRMP_CHANNEL_MAX_TOTAL_SIZE: u32 = 1048576;

/// Largest message, in bytes, that a simulated horizontal channel takes.
pub const HRMP_CHANNEL_MAX_MESSAGE_SIZE: u32 = 1048576;

/// The relay chain's summary of one horizontal channel.
#[derive(Clone, Copy, Debug, PartialEq, Eq)]
pub struct AbridgedHrmpChannel {
    pub max_capacity: u32,
    pub max_total_size: u32,
    pub max_message_size: u32,
    pub msg_count: u32,
    pub total_size: u32,
    pub mqc_head: Option<[u8; 32]>,
}

/// A horizontal channel, named by its two ends.
#[derive(Clone, Copy, Debug, PartialEq, Eq, Structural)]
pub struct HrmpChannelId {
    pub sender: u32,
    pub recipient: u32,
}

/// The relay-chain state that a parachain's step starts from.
pub struct RelayStateSetup {
    pub para_id: u32,
    pub relay_parent_number: u32,
    /// Recipients of the parachain's outbound channels, ascending, each once.
    pub hrmp_egress_channel_index: Vec<u32>,
    /// One channel per entry of the index, in the same order.
    pub hrmp_channels: Vec<(HrmpChannelId, AbridgedHrmpChannel)>,
}

/// An empty channel with the simulated limits.
pub open spec fn spec_empty_hrmp_channel() -> AbridgedHrmpChannel {
    AbridgedHrmpChannel {
        max_capacity: HRMP_CHANNEL_MAX_CAPACITY,
        max_total_size: HRMP_CHANNEL_MAX_TOTAL_SIZE,
        max_message_size: HRMP_CHANNEL_MAX_MESSAGE_SIZE,
        msg_count: 0,
        total_size: 0,
        mqc_head: None,
    }
}

/// Each element is smaller than the next: sorted, with no repeats.
pub open spec fn strictly_ascending(s: Seq<u32>) -> bool {
    forall|i: int, j: int| 0 <= i < j < s.len() ==> s[i] < s[j]
}

/// `s` holds exactly the values that `t` holds.
pub open spec fn same_values(s: Seq<u32>, t: Seq<u32>) -> bool {
    forall|x: u32| s.contains(x) <==> t.contains(x)
}

/// An empty channel with the simulated limits.
pub fn empty_hrmp_channel() -> (r: AbridgedHrmpChannel)
    ensures
        r == spec_empty_hrmp_channel(),
{
    AbridgedHrmpChannel {
        max_capacity: HRMP_CHANNEL_MAX_CAPACITY,
        max_total_size: HRMP_CHANNEL_MAX_TOTAL_SIZE,
        max_message_size: HRMP_CHANNEL_MAX_MESSAGE_SIZE,
        msg_count: 0,
        total_size: 0,
        mqc_head: None,
    }
}

/// Looks `x` up in an ascending vector: `Ok` with its position where it is
/// present, else `Err` with the position where inserting it keeps the order.
pub fn search_ascending(v: &Vec<u32>, x: u32) -> (r: Result<usize, usize>)
    requires
        strictly_ascending(v@),
    ensures
        match r {
            Ok(i) => i < v.len() && v@[i as int] == x,
            Err(i) => i <= v.len() && !v@.contains(x) && (forall|k: int|
                0 <= k < i ==> v@[k] < x) && (forall|k: int| i <= k < v.len() ==> x < v@[k]),
        },
{
    let mut lo: usize = 0;
    let mut hi: usize = v.len();
    while lo < hi
        invariant
            lo <= hi <= v.len(),
            strictly_ascending(v@),
            forall|k: int| 0 <= k < lo ==> v@[k] < x,
            forall|k: int| hi <= k < v.len() ==> x < v@[k],
        decreases hi - lo,
    {
        let mid = lo + (hi - lo) / 2;
        if v[mid] == x {
            return Ok(mid);
        } else if v[mid] < x {
            lo = mid + 1;
        } else {
            hi = mid;
        }
    }
    Err(lo)
}

/// The egress channel index of a parachain: the given recipients, ascending
/// and each once.
pub fn hrmp_egress_channel_index(recipients: &Vec<u32>) -> (r: Vec<u32>)
    ensures
        strictly_ascending(r@),
        same_values(r@, recipients@),
{
    let mut index: Vec<u32> = Vec::new();
    let mut n: usize = 0;
    while n < recipients.len()
        invariant
            n <= recipients.len(),
            strictly_ascending(index@),
            same_values(index@, recipients@.subrange(0, n as int)),
        decreases recipients.len() - n,
    {
        let recipient = recipients[n];
        let ghost before = index@;
        match search_ascending(&index, recipient) {
            Ok(_) => {},
            Err(pos) => {
                index.insert(pos, recipient);
                proof {
                    before.insert_ensures(pos as int, recipient);
                    assert forall|x: u32| index@.contains(x) <==> (before.contains(x) || x == recipient) by {
                        if index@.contains(x) {
                            let k = choose|k: int| 0 <= k < index@.len() && index@[k] == x;
                            if k < pos {
                                assert(before[k] == x);
                            } else if k > pos {
                                assert(before[k - 1] == x);
                            }
                        }
                        if before.contains(x) {
                            let k = choose|k: int| 0 <= k < before.len() && before[k] == x;
                            if k < pos {
                                assert(index@[k] == x);
                            } else {
                                assert(index@[k + 1] == x);
                            }
                        }
                        if x == recipient {
                            assert(index@[pos as int] == x);
                        }
                    }
                }
            },
        }
        proof {
            let prefix = recipients@.subrange(0, n as int);
            let next = recipients@.subrange(0, n + 1);
            assert(next =~= prefix.push(recipient));
            assert forall|x: u32| next.contains(x) <==> (prefix.contains(x) || x == recipient) by {
                if next.contains(x) {
                    let k = choose|k: int| 0 <= k < next.len() && next[k] == x;
                    if k < n {
                        assert(prefix[k] == x);
                    }
                }
                if prefix.contains(x) {
                    let k = choose|k: int| 0 <= k < prefix.len() && prefix[k] == x;
                    assert(next[k] == x);
                }
                if x == recipient {
                    assert(next[n as int] == x);
                }
            }
        }
        n = n + 1;
    }
    proof {
        assert(recipients@.subrange(0, recipients@.len() as int) =~= recipients@);
    }
    index
}

/// The relay-chain state that the parachain `para_id` starts a step from:
/// an outbound channel to each of `para_ids`, every one of them empty.
pub fn hrmp_channel_parachain_inherent_data(
    para_id: u32,
    relay_parent_number: u32,
    para_ids: &Vec<u32>,
) -> (r: RelayStateSetup)
    ensures
        r.para_id == para_id,
        r.relay_parent_number == relay_parent_number,
        strictly_ascending(r.hrmp_egress_channel_index@),
        same_values(r.hrmp_egress_channel_index@, para_ids@),
        r.hrmp_channels@.len() == r.hrmp_egress_channel_index@.len(),
        forall|i: int|
            0 <= i < r.hrmp_channels@.len() ==> #[trigger] r.hrmp_channels@[i] == (
            HrmpChannelId { sender: para_id, recipient: r.hrmp_egress_channel_index@[i] },
            spec_empty_hrmp_channel(),
        ),
{
    let index = hrmp_egress_channel_index(para_ids);
    let mut channels: Vec<(HrmpChannelId, AbridgedHrmpChannel)> = Vec::new();
    let mut n: usize = 0;
    while n < index.len()
        invariant
            n <= index.len(),
            channels@.len() == n,
            forall|i: int|
                0 <= i < n ==> #[trigger] channels@[i] == (
                HrmpChannelId { sender: para_id, recipient: index@[i] },
                spec_empty_hrmp_channel(),
            ),
        decreases index.len() - n,
    {
        let id = HrmpChannelId { sender: para_id, recipient: index[n] };
        channels.push((id, empty_hrmp_channel()));
        n = n + 1;
    }
    RelayStateSetup {
        para_id,
        relay_parent_number,
        hrmp_egress_channel_index: index,
        hrmp_channels: channels,
    }
}

} // verus!
