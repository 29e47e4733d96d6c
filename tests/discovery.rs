use sl1_core::discovery::{
    is_acknowledgement, probe_datagram, Device, DeviceDetector, HostAddr, ProbeOutcome,
    DEVICE_PORT,
};

fn hosts() -> Vec<HostAddr> {
    (1u32..=4).map(|i| HostAddr::V4(0xc0a8_0100 + i)).collect()
}

#[test]
fn probe_is_a_ping() {
    assert_eq!(probe_datagram(), vec![0x01, 0x01]);
    assert!(is_acknowledgement(&[0x01, 0x01]));
    assert!(is_acknowledgement(&[0x01, 0x01, 0x00]));
    assert!(!is_acknowledgement(&[0x01]));
    assert!(!is_acknowledgement(&[0x01, 0x00]));
}

#[test]
fn one_responder_among_four() {
    let det = DeviceDetector::default();
    for responder in 0..4 {
        let outcomes: Vec<ProbeOutcome> = (0..4)
            .map(|i| {
                if i == responder {
                    ProbeOutcome::Reply(vec![0x01, 0x01])
                } else if i % 2 == 0 {
                    ProbeOutcome::Failed
                } else {
                    ProbeOutcome::Reply(vec![0x02])
                }
            })
            .collect();
        let found = det.collect(&hosts(), &outcomes);
        assert_eq!(found, vec![Device::new(hosts()[responder], DEVICE_PORT)]);
    }
}

#[test]
fn no_responders_gives_empty_list() {
    let det = DeviceDetector::new(4000, 100);
    let outcomes = vec![ProbeOutcome::Failed; 4];
    assert!(det.collect(&hosts(), &outcomes).is_empty());
    assert!(det.collect(&vec![], &vec![]).is_empty());
}

#[test]
fn detector_defaults() {
    let det = DeviceDetector::default();
    assert_eq!(det.port, 30462);
    assert_eq!(det.recv_timeout_ms, 500);
    assert_eq!(det.probe_limit, 256);
}
