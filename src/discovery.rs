//! Client-side discovery: the probe datagram, what counts as an answer,
//! and the list of appliances gathered from the probes' outcomes.
//!
//! The probes themselves run concurrently outside this module; each
//! outcome is recorded at its host's index, so the order in which probes
//! finish has no bearing on the result.

use vstd::prelude::*;
use crate::protocol::{encode_spec, Message, MessageView, Method, Version};

verus! {

/// Port the appliance serves on.
pub const DEVICE_PORT: u16 = 30462;

/// How long a probe waits for its answer by default, in milliseconds.
pub const DEFAULT_RECV_TIMEOUT_MS: u64 = 500;

/// Most probes in flight at once, by default.
pub const DEFAULT_PROBE_LIMIT: usize = 256;

/// A host address.
#[derive(Debug, Clone, Copy, PartialEq, Eq, Structural)]
pub enum HostAddr {
    V4(u32),
    V6(u128),
}

/// An appliance's address, compared by value.
#[derive(Debug, Clone, Copy, PartialEq, Eq, Structural)]
pub struct Device {
    pub ip_addr: HostAddr,
    pub port: u16,
}

impl Device {
    pub fn new(ip: HostAddr, port: u16) -> (r: Device)
        ensures
            r.ip_addr == ip,
            r.port == port,
    {
        Device { ip_addr: ip, port }
    }

    pub fn ip(&self) -> (r: HostAddr)
        ensures
            r == self.ip_addr,
    {
        self.ip_addr
    }

    pub fn port(&self) -> (r: u16)
        ensures
            r == self.port,
    {
        self.port
    }
}

/// What became of one probe.
#[derive(Debug, Clone)]
pub enum ProbeOutcome {
    /// The bytes that came back.
    Reply(Vec<u8>),
    /// A socket error or no answer in time.
    Failed,
}

/// The message a probe sends: a ping.
pub open spec fn probe_message() -> MessageView {
    MessageView { version: Version::V1, method: Method::GetPing, payload: Seq::empty() }
}

/// Whether a reply acknowledges a probe: at least two bytes, echoing the
/// probe's version and method.
pub open spec fn is_ack_spec(reply: Seq<u8>) -> bool {
    reply.len() >= 2 && reply[0] == 0x01 && reply[1] == 0x01
}

pub open spec fn probe_ok(o: ProbeOutcome) -> bool {
    match o {
        ProbeOutcome::Reply(b) => is_ack_spec(b@),
        ProbeOutcome::Failed => false,
    }
}

/// The appliances found, host by host.
pub open spec fn reachable_spec(hosts: Seq<HostAddr>, outcomes: Seq<ProbeOutcome>, port: u16) -> Seq<
    Device,
>
    decreases hosts.len(),
{
    if hosts.len() == 0 || outcomes.len() == 0 {
        Seq::empty()
    } else {
        let prev = reachable_spec(hosts.drop_last(), outcomes.drop_last(), port);
        if probe_ok(outcomes.last()) {
            prev.push(Device { ip_addr: hosts.last(), port })
        } else {
            prev
        }
    }
}

/// The datagram a probe sends.
pub fn probe_datagram() -> (r: Vec<u8>)
    ensures
        r@ == encode_spec(probe_message()),
        r@ == seq![0x01u8, 0x01u8],
{
    let m = Message { version: Version::V1, method: Method::GetPing, payload: Vec::new() };
    let r = m.encode();
    assert(m@ == probe_message());
    assert(r@ =~= seq![0x01u8, 0x01u8]);
    r
}

/// Whether a reply acknowledges a probe.
pub fn is_acknowledgement(reply: &[u8]) -> (r: bool)
    ensures
        r == is_ack_spec(reply@),
{
    reply.len() >= 2 && reply[0] == 0x01 && reply[1] == 0x01
}

/// Settings of a scan.
#[derive(Debug, Clone, Copy)]
pub struct DeviceDetector {
    pub port: u16,
    pub recv_timeout_ms: u64,
    pub probe_limit: usize,
}

impl DeviceDetector {
    pub fn new(port: u16, recv_timeout_ms: u64) -> (r: DeviceDetector)
        ensures
            r.port == port,
            r.recv_timeout_ms == recv_timeout_ms,
            r.probe_limit == DEFAULT_PROBE_LIMIT,
    {
        DeviceDetector { port, recv_timeout_ms, probe_limit: DEFAULT_PROBE_LIMIT }
    }

    /// The appliances among `hosts`, given each probe's outcome at its
    /// host's index. A failed probe only leaves its host out.
    pub fn collect(&self, hosts: &Vec<HostAddr>, outcomes: &Vec<ProbeOutcome>) -> (r: Vec<Device>)
        requires
            hosts@.len() == outcomes@.len(),
        ensures
            r@ == reachable_spec(hosts@, outcomes@, self.port),
    {
        let mut r: Vec<Device> = Vec::new();
        let mut i: usize = 0;
        while i < hosts.len()
            invariant
                i <= hosts@.len(),
                hosts@.len() == outcomes@.len(),
                r@ == reachable_spec(
                    hosts@.subrange(0, i as int),
                    outcomes@.subrange(0, i as int),
                    self.port,
                ),
            decreases hosts.len() - i,
        {
            let ok = match &outcomes[i] {
                ProbeOutcome::Reply(b) => is_acknowledgement(b.as_slice()),
                ProbeOutcome::Failed => false,
            };
            if ok {
                r.push(Device { ip_addr: hosts[i], port: self.port });
            }
            proof {
                let h = hosts@.subrange(0, i + 1);
                let o = outcomes@.subrange(0, i + 1);
                assert(h.drop_last() =~= hosts@.subrange(0, i as int));
                assert(o.drop_last() =~= outcomes@.subrange(0, i as int));
                assert(o.last() == outcomes@[i as int]);
            }
            i += 1;
        }
        assert(hosts@.subrange(0, i as int) =~= hosts@);
        assert(outcomes@.subrange(0, i as int) =~= outcomes@);
        r
    }
}

impl Default for DeviceDetector {
    fn default() -> (r: DeviceDetector)
        ensures
            r.port == DEVICE_PORT,
            r.recv_timeout_ms == DEFAULT_RECV_TIMEOUT_MS,
            r.probe_limit == DEFAULT_PROBE_LIMIT,
    {
        DeviceDetector::new(DEVICE_PORT, DEFAULT_RECV_TIMEOUT_MS)
    }
}

/// An appliance is found exactly when some probe of its host was
/// answered: the result depends on the outcomes alone, not on the order
/// in which they came in.
pub proof fn lemma_reachable_members(
    hosts: Seq<HostAddr>,
    outcomes: Seq<ProbeOutcome>,
    port: u16,
    d: Device,
)
    requires
        hosts.len() == outcomes.len(),
    ensures
        reachable_spec(hosts, outcomes, port).contains(d) <==> (d.port == port && exists|
            i: int,
        |
            0 <= i < hosts.len() && hosts[i] == d.ip_addr && probe_ok(outcomes[i])),
    decreases hosts.len(),
{
    if hosts.len() > 0 {
        let n = hosts.len() - 1;
        lemma_reachable_members(hosts.drop_last(), outcomes.drop_last(), port, d);
        let prev = reachable_spec(hosts.drop_last(), outcomes.drop_last(), port);
        if reachable_spec(hosts, outcomes, port).contains(d) {
            if prev.contains(d) {
                let i = choose|i: int|
                    0 <= i < n && hosts.drop_last()[i] == d.ip_addr && probe_ok(
                        outcomes.drop_last()[i],
                    );
                assert(hosts[i] == d.ip_addr && probe_ok(outcomes[i]));
            } else {
                let w = choose|k: int| 0 <= k < reachable_spec(hosts, outcomes, port).len()
                    && reachable_spec(hosts, outcomes, port)[k] == d;
                assert(probe_ok(outcomes[n]));
                assert(w == prev.len());
                assert(hosts[n] == d.ip_addr);
            }
        }
        if d.port == port && exists|i: int|
            0 <= i < hosts.len() && hosts[i] == d.ip_addr && probe_ok(outcomes[i]) {
            let i = choose|i: int|
                0 <= i < hosts.len() && hosts[i] == d.ip_addr && probe_ok(outcomes[i]);
            if i < n {
                assert(hosts.drop_last()[i] == d.ip_addr && probe_ok(outcomes.drop_last()[i]));
                assert(prev.contains(d));
                let k = choose|k: int| 0 <= k < prev.len() && prev[k] == d;
                if probe_ok(outcomes.last()) {
                    assert(reachable_spec(hosts, outcomes, port)[k] == d);
                }
            } else {
                assert(d == Device { ip_addr: hosts.last(), port });
                assert(reachable_spec(hosts, outcomes, port)[prev.len() as int] == d);
            }
        }
    }
}

/// Where no host answers, the scan finds nothing, and that is no error.
pub proof fn lemma_no_responders_empty(hosts: Seq<HostAddr>, outcomes: Seq<ProbeOutcome>, port: u16)
    requires
        forall|i: int| 0 <= i < outcomes.len() ==> !probe_ok(#[trigger] outcomes[i]),
    ensures
        reachable_spec(hosts, outcomes, port).len() == 0,
    decreases hosts.len(),
{
    if hosts.len() > 0 && outcomes.len() > 0 {
        let o = outcomes.drop_last();
        assert forall|i: int| 0 <= i < o.len() implies !probe_ok(#[trigger] o[i]) by {
            assert(o[i] == outcomes[i]);
        }
        lemma_no_responders_empty(hosts.drop_last(), o, port);
        assert(!probe_ok(outcomes[outcomes.len() - 1]));
    }
}

} // verus!
