use lib::error::Error;
use lib::virtio_net::{
    configure_netdev, guest_offloads, guest_offloads_from_features, virtio_has_feature,
    InitVqsStage, NetDeviceSettings, ProbeAction, ProbeStage, VirtioNetProbe, VirtioNetResources,
    DUPLEX_UNKNOWN, GUEST_OFFLOADS_MASK, IFF_LIVE_ADDR_CHANGE, IFF_TX_SKB_NO_LINEAR,
    IFF_UNICAST_FLT, MAX_MTU, MIN_MTU, NETIF_F_HIGHDMA, SPEED_UNKNOWN, VIRTIO_NET_F_GUEST_CSUM,
    VIRTIO_NET_F_GUEST_ECN, VIRTIO_NET_F_GUEST_TSO4, VIRTIO_NET_F_GUEST_TSO6,
    VIRTIO_NET_F_GUEST_UFO, VIRTIO_NET_F_STATUS,
};

fn bit(b: u64) -> u64 {
    1u64 << b
}

#[test]
fn has_feature_tests_one_bit() {
    assert!(virtio_has_feature(bit(16), VIRTIO_NET_F_STATUS));
    assert!(!virtio_has_feature(bit(15), VIRTIO_NET_F_STATUS));
    assert!(virtio_has_feature(u64::MAX, 63));
    assert!(!virtio_has_feature(0, 0));
}

#[test]
fn offload_list_and_mask_agree() {
    let list = guest_offloads();
    assert_eq!(
        list,
        [
            VIRTIO_NET_F_GUEST_TSO4,
            VIRTIO_NET_F_GUEST_TSO6,
            VIRTIO_NET_F_GUEST_ECN,
            VIRTIO_NET_F_GUEST_UFO,
            VIRTIO_NET_F_GUEST_CSUM
        ]
    );
    let mask = list.iter().fold(0u64, |m, f| m | bit(*f));
    assert_eq!(mask, GUEST_OFFLOADS_MASK);
}

#[test]
fn offloads_are_the_offload_features_the_device_has() {
    assert_eq!(guest_offloads_from_features(0), 0);
    assert_eq!(guest_offloads_from_features(u64::MAX), 0x782);
    assert_eq!(guest_offloads_from_features(bit(7) | bit(16) | bit(0)), 0x80);
    assert_eq!(guest_offloads_from_features(bit(1) | bit(10) | bit(63)), 0x402);
    for b in 0..64u64 {
        let got = guest_offloads_from_features(bit(b)) as u64;
        let expected = if [1, 7, 8, 9, 10].contains(&b) { bit(b) } else { 0 };
        assert_eq!(got, expected, "bit {}", b);
    }
}

#[test]
fn netdev_settings_add_the_driver_flags() {
    let s = configure_netdev(0x3);
    assert_eq!(
        s,
        NetDeviceSettings {
            priv_flags: 0x3 | IFF_UNICAST_FLT | IFF_LIVE_ADDR_CHANGE | IFF_TX_SKB_NO_LINEAR,
            features: NETIF_F_HIGHDMA,
            vlan_features: NETIF_F_HIGHDMA,
            min_mtu: 68,
            max_mtu: 65535,
        }
    );
    assert_eq!(s.priv_flags, 0x8000_9003);
    assert_eq!(MIN_MTU, 68);
    assert_eq!(MAX_MTU, 0xFFFF);
}

#[test]
fn resources_setters() {
    let mut r = VirtioNetResources::new();
    assert_eq!(r.max_queue_pairs, 0);
    assert_eq!(r.speed, 0);
    r.set_max_queue_pairs(1);
    r.set_speed(SPEED_UNKNOWN);
    r.set_duplex(DUPLEX_UNKNOWN);
    r.set_guest_offloads(bit(8) | bit(9));
    assert_eq!(r.max_queue_pairs, 1);
    assert_eq!(r.speed, 0xFFFF_FFFF);
    assert_eq!(r.duplex, 0xFF);
    assert_eq!(r.guest_offloads, 0x300);
    assert_eq!(r.guest_offloads_capable, 0x300);
    assert_eq!(r.curr_queue_pairs, 0);
}

#[test]
fn init_vqs_succeeds_after_three_steps() {
    let s = InitVqsStage::start();
    assert_eq!(s, InitVqsStage::AllocQueues);
    assert_eq!(s.result(), None);
    let s = s.next(Ok(()));
    assert_eq!(s, InitVqsStage::FindVqs);
    let s = s.next(Ok(()));
    assert_eq!(s, InitVqsStage::SetAffinity);
    let s = s.next(Ok(()));
    assert_eq!(s.result(), Some(Ok(0)));
}

#[test]
fn init_vqs_stops_at_the_first_error() {
    let e = Error::from_kernel_errno(-12);
    let s = InitVqsStage::start().next(Ok(())).next(Err(e));
    assert_eq!(s, InitVqsStage::Failed(e));
    let s = s.next(Ok(())).next(Err(Error::einval()));
    assert_eq!(s.result(), Some(Err(e)));
}

fn run(p: &mut VirtioNetProbe, outcomes: &[Result<(), Error>]) -> Vec<Option<ProbeAction>> {
    let mut actions = Vec::new();
    for o in outcomes {
        actions.push(p.action());
        p.step(*o);
    }
    actions
}

#[test]
fn probe_walks_through_every_step() {
    let features = bit(VIRTIO_NET_F_STATUS) | bit(7) | bit(1);
    let mut p = VirtioNetProbe::new(features, 0x20);
    assert_eq!(p.result(), None);
    let actions = run(&mut p, &[Ok(()); 6]);
    assert_eq!(
        actions,
        vec![
            Some(ProbeAction::NewRegistration),
            Some(ProbeAction::InitVqs { settings: configure_netdev(0x20) }),
            Some(ProbeAction::RegisterNetdev { real_num_tx_queues: 1, real_num_rx_queues: 1 }),
            Some(ProbeAction::DeviceReady),
            Some(ProbeAction::NewDeviceData { schedule_config_work: true }),
            Some(ProbeAction::Register),
        ]
    );
    assert_eq!(p.stage, ProbeStage::Done);
    assert_eq!(p.result(), Some(Ok(())));
    assert_eq!(p.action(), None);
    assert_eq!(p.resources.max_queue_pairs, 1);
    assert_eq!(p.resources.curr_queue_pairs, 1);
    assert_eq!(p.resources.speed, SPEED_UNKNOWN);
    assert_eq!(p.resources.duplex, DUPLEX_UNKNOWN);
    assert_eq!(p.resources.guest_offloads, 0x82);
    assert_eq!(p.resources.guest_offloads_capable, 0x82);
}

#[test]
fn probe_without_status_feature_schedules_no_config_work() {
    let mut p = VirtioNetProbe::new(0, 0);
    let actions = run(&mut p, &[Ok(()); 5]);
    assert_eq!(actions[4], Some(ProbeAction::NewDeviceData { schedule_config_work: false }));
}

#[test]
fn probe_fails_with_the_error_of_a_failing_step() {
    let e = Error::from_kernel_errno(-19);
    for failing in [0usize, 2, 3, 4] {
        let mut outcomes = [Ok(()); 6];
        outcomes[failing] = Err(e);
        let mut p = VirtioNetProbe::new(u64::MAX, 0);
        run(&mut p, &outcomes);
        assert_eq!(p.result(), Some(Err(e)), "step {}", failing);
        assert_eq!(p.stage, ProbeStage::Failed(e));
    }
}

#[test]
fn probe_ignores_virtqueue_setup_and_data_registration_failures() {
    let e = Error::einval();
    let mut p = VirtioNetProbe::new(0, 0);
    run(&mut p, &[Ok(()), Err(e), Ok(()), Ok(()), Ok(()), Err(e)]);
    assert_eq!(p.result(), Some(Ok(())));
}

#[test]
fn ended_probe_stays() {
    let e = Error::from_kernel_errno(-1);
    let mut p = VirtioNetProbe::new(0, 0);
    p.step(Err(e));
    let before = p;
    p.step(Ok(()));
    p.step(Err(Error::einval()));
    assert_eq!(p, before);
    assert_eq!(p.action(), None);
}

#[test]
fn first_failure_wins() {
    let e1 = Error::from_kernel_errno(-2);
    let e2 = Error::from_kernel_errno(-3);
    let mut p = VirtioNetProbe::new(0, 0);
    run(&mut p, &[Ok(()), Ok(()), Err(e1), Err(e2), Ok(()), Ok(())]);
    assert_eq!(p.result(), Some(Err(e1)));
}
