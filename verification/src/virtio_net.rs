//! The virtio network driver: the settings it gives the network device, the
//! offloads it takes from the device's features, and the order of the steps
//! of probing a device, with how a failing step ends the probe.

use vstd::prelude::*;
use crate::error::Error;

verus! {

/// Device handles packets with partial checksum (`VIRTIO_NET_F_GUEST_CSUM`).
pub const VIRTIO_NET_F_GUEST_CSUM: u64 = 1;
/// Driver can receive TSOv4 (`VIRTIO_NET_F_GUEST_TSO4`).
pub const VIRTIO_NET_F_GUEST_TSO4: u64 = 7;
/// Driver can receive TSOv6 (`VIRTIO_NET_F_GUEST_TSO6`).
pub const VIRTIO_NET_F_GUEST_TSO6: u64 = 8;
/// Driver can receive TSO with ECN (`VIRTIO_NET_F_GUEST_ECN`).
pub const VIRTIO_NET_F_GUEST_ECN: u64 = 9;
/// Driver can receive UFO (`VIRTIO_NET_F_GUEST_UFO`).
pub const VIRTIO_NET_F_GUEST_UFO: u64 = 10;
/// The link status field is available (`VIRTIO_NET_F_STATUS`).
pub const VIRTIO_NET_F_STATUS: u64 = 16;

/// The offload feature bits as one mask: bits 1, 7, 8, 9 and 10.
pub const GUEST_OFFLOADS_MASK: u64 = 0x782;

/// Private flag: the device supports unicast filtering (`IFF_UNICAST_FLT`).
pub const IFF_UNICAST_FLT: u32 = 0x1000;
/// Private flag: the address can change while the device runs (`IFF_LIVE_ADDR_CHANGE`).
pub const IFF_LIVE_ADDR_CHANGE: u32 = 0x8000;
/// Private flag: the device sends socket buffers without a linear part (`IFF_TX_SKB_NO_LINEAR`).
pub const IFF_TX_SKB_NO_LINEAR: u32 = 0x8000_0000;
/// Device feature: DMA to high memory (`NETIF_F_HIGHDMA`).
pub const NETIF_F_HIGHDMA: u64 = 0x20;
/// The smallest MTU of an Ethernet device.
pub const MIN_MTU: u32 = 68;
/// The largest MTU of an Ethernet device.
pub const MAX_MTU: u32 = 0xFFFF;
/// Link speed not known (`SPEED_UNKNOWN`, that is -1).
pub const SPEED_UNKNOWN: u32 = 0xFFFF_FFFF;
/// Duplex not known (`DUPLEX_UNKNOWN`).
pub const DUPLEX_UNKNOWN: u8 = 0xFF;

/// Whether feature bit `fbit` is set in `features`.
pub open spec fn has_feature(features: u64, fbit: u64) -> bool {
    features & (1u64 << fbit) != 0
}

/// Tests feature bit `fbit` of a device whose feature bits are `features`.
pub fn virtio_has_feature(features: u64, fbit: u64) -> (r: bool)
    requires
        fbit < 64,
    ensures
        r == has_feature(features, fbit),
{
    features & (1u64 << fbit) != 0
}

/// The offload features that the driver takes from the device when present.
pub open spec fn guest_offload_features() -> Seq<u64> {
    seq![
        VIRTIO_NET_F_GUEST_TSO4,
        VIRTIO_NET_F_GUEST_TSO6,
        VIRTIO_NET_F_GUEST_ECN,
        VIRTIO_NET_F_GUEST_UFO,
        VIRTIO_NET_F_GUEST_CSUM,
    ]
}

/// The offload features that the driver takes from the device when present.
pub fn guest_offloads() -> (r: [u64; 5])
    ensures
        r@ == guest_offload_features(),
{
    let r = [
        VIRTIO_NET_F_GUEST_TSO4,
        VIRTIO_NET_F_GUEST_TSO6,
        VIRTIO_NET_F_GUEST_ECN,
        VIRTIO_NET_F_GUEST_UFO,
        VIRTIO_NET_F_GUEST_CSUM,
    ];
    assert(r@ =~= guest_offload_features());
    r
}

/// The mask of the first `i` offload features.
spec fn offload_prefix_mask(i: int) -> u64
    decreases i,
{
    if i <= 0 {
        0
    } else {
        offload_prefix_mask(i - 1) | (1u64 << guest_offload_features()[i - 1])
    }
}

/// The offloads of a device with feature bits `features`: the offload
/// features among them.
pub open spec fn guest_offloads_of(features: u64) -> u64 {
    features & GUEST_OFFLOADS_MASK
}

proof fn lemma_add_feature_bit(features: u64, m: u64, f: u64, acc: u64)
    requires
        f < 64,
        acc == features & m,
    ensures
        features & (1u64 << f) != 0 ==> (acc | (1u64 << f)) == features & (m | (1u64 << f)),
        features & (1u64 << f) == 0 ==> acc == features & (m | (1u64 << f)),
{
    if features & (1u64 << f) != 0 {
        assert((acc | (1u64 << f)) == features & (m | (1u64 << f))) by (bit_vector)
            requires
                f < 64,
                acc == features & m,
                features & (1u64 << f) != 0,
        ;
    } else {
        assert(acc == features & (m | (1u64 << f))) by (bit_vector)
            requires
                f < 64,
                acc == features & m,
                features & (1u64 << f) == 0,
        ;
    }
}

proof fn lemma_offload_prefix_mask_full()
    ensures
        offload_prefix_mask(5) == GUEST_OFFLOADS_MASK,
{
    reveal_with_fuel(offload_prefix_mask, 6);
    assert(((((0u64 | (1u64 << 7u64)) | (1u64 << 8u64)) | (1u64 << 9u64)) | (1u64 << 10u64)) | (1u64 << 1u64)
        == 0x782u64) by (bit_vector);
}

/// Collects the offloads of a device with feature bits `features`: the bit of
/// each offload feature that the device has.
pub fn guest_offloads_from_features(features: u64) -> (r: u32)
    ensures
        r as u64 == guest_offloads_of(features),
{
    let offloads = guest_offloads();
    let mut bits: u64 = 0;
    let mut i: usize = 0;
    assert(features & 0u64 == 0u64) by (bit_vector);
    while i < 5
        invariant
            i <= 5,
            offloads@ == guest_offload_features(),
            bits == features & offload_prefix_mask(i as int),
        decreases 5 - i,
    {
        let f = offloads[i];
        proof {
            lemma_add_feature_bit(features, offload_prefix_mask(i as int), f, bits);
        }
        if virtio_has_feature(features, f) {
            bits = bits | (1u64 << f);
        }
        i = i + 1;
    }
    proof {
        lemma_offload_prefix_mask_full();
        assert((features & 0x782u64) <= 0x782u64) by (bit_vector);
    }
    bits as u32
}

/// Bit `b` of the offloads is set exactly when `b` is an offload feature and
/// the device has feature `b`.
pub proof fn lemma_guest_offload_bits(features: u64, b: u64)
    requires
        b < 64,
    ensures
        has_feature(guest_offloads_of(features), b) <==> (guest_offload_features().contains(b)
            && has_feature(features, b)),
{
    assert(guest_offload_features()[0] == 7);
    assert(guest_offload_features()[1] == 8);
    assert(guest_offload_features()[2] == 9);
    assert(guest_offload_features()[3] == 10);
    assert(guest_offload_features()[4] == 1);
    assert((features & 0x782u64) & (1u64 << b) != 0 <==> ((b == 1 || b == 7 || b == 8 || b == 9 || b
        == 10) && features & (1u64 << b) != 0)) by (bit_vector)
        requires
            b < 64,
    ;
    if b == 1 || b == 7 || b == 8 || b == 9 || b == 10 {
        let j: int = if b == 7 { 0 } else if b == 8 { 1 } else if b == 9 { 2 } else if b == 10 { 3 } else { 4 };
        assert(guest_offload_features()[j] == b);
    }
}


/// The settings the driver gives the network device before registering it.
#[derive(PartialEq, Eq, Structural, Clone, Copy, Debug)]
pub struct NetDeviceSettings {
    /// The device's private flags.
    pub priv_flags: u32,
    /// The device's features.
    pub features: u64,
    /// The features of VLAN devices stacked on the device.
    pub vlan_features: u64,
    /// The smallest MTU the device accepts.
    pub min_mtu: u32,
    /// The largest MTU the device accepts.
    pub max_mtu: u32,
}

/// The settings of a network device whose private flags were `priv_flags`.
pub open spec fn netdev_settings(priv_flags: u32) -> NetDeviceSettings {
    NetDeviceSettings {
        priv_flags: priv_flags | IFF_UNICAST_FLT | IFF_LIVE_ADDR_CHANGE | IFF_TX_SKB_NO_LINEAR,
        features: NETIF_F_HIGHDMA,
        vlan_features: NETIF_F_HIGHDMA,
        min_mtu: MIN_MTU,
        max_mtu: MAX_MTU,
    }
}

/// The settings of a network device whose private flags were `priv_flags`:
/// the flags gain unicast filtering, live address change and sending without
/// a linear part; the device does DMA to high memory, its VLAN devices get
/// the same features, and its MTU ranges over the Ethernet bounds.
pub fn configure_netdev(priv_flags: u32) -> (s: NetDeviceSettings)
    ensures
        s == netdev_settings(priv_flags),
{
    let features = NETIF_F_HIGHDMA;
    NetDeviceSettings {
        priv_flags: priv_flags | IFF_UNICAST_FLT | IFF_LIVE_ADDR_CHANGE | IFF_TX_SKB_NO_LINEAR,
        features,
        vlan_features: features,
        min_mtu: MIN_MTU,
        max_mtu: MAX_MTU,
    }
}

/// The driver's state of one virtio network device (its plain values).
#[derive(PartialEq, Eq, Structural, Clone, Copy, Debug)]
pub struct VirtioNetResources {
    /// The link status last read from the device.
    pub status: u32,
    /// Number of queue pairs the device supports.
    pub max_queue_pairs: u16,
    /// Number of queue pairs the driver uses.
    pub curr_queue_pairs: u16,
    /// Number of XDP queue pairs the driver uses.
    pub xdp_queue_pairs: u16,
    /// XDP is loaded.
    pub xdp_enabled: bool,
    /// The device takes big packets.
    pub big_packets: bool,
    /// The device merges receive buffers for big packets.
    pub mergeable_rx_bufs: bool,
    /// The device supports RSS.
    pub has_rss: bool,
    /// The device supports hash reports.
    pub has_rss_hash_report: bool,
    /// Size of the RSS key.
    pub rss_key_size: u8,
    /// Size of the RSS indirection table.
    pub rss_indir_table_size: u16,
    /// The hash types the device supports.
    pub rss_hash_types_supported: u32,
    /// The hash types in use.
    pub rss_hash_types_saved: u32,
    /// The device has a control virtqueue.
    pub has_cvq: bool,
    /// The device handles any split between header and packet data.
    pub any_header_sg: bool,
    /// Size of the packet's virtio header.
    pub hdr_len: u8,
    /// The affinity hint is set for the virtqueues.
    pub affinity_hint_set: bool,
    /// Duplex as reported to ethtool.
    pub duplex: u8,
    /// Speed as reported to ethtool.
    pub speed: u32,
    /// The offloads in use.
    pub guest_offloads: u32,
    /// The offloads the device can do.
    pub guest_offloads_capable: u32,
}

impl VirtioNetResources {
    /// The state with every field zero or `false`.
    pub open spec fn zeroed() -> VirtioNetResources {
        VirtioNetResources {
            status: 0,
            max_queue_pairs: 0,
            curr_queue_pairs: 0,
            xdp_queue_pairs: 0,
            xdp_enabled: false,
            big_packets: false,
            mergeable_rx_bufs: false,
            has_rss: false,
            has_rss_hash_report: false,
            rss_key_size: 0,
            rss_indir_table_size: 0,
            rss_hash_types_supported: 0,
            rss_hash_types_saved: 0,
            has_cvq: false,
            any_header_sg: false,
            hdr_len: 0,
            affinity_hint_set: false,
            duplex: 0,
            speed: 0,
            guest_offloads: 0,
            guest_offloads_capable: 0,
        }
    }

    /// A state with every field zero or `false`.
    pub fn new() -> (r: Self)
        ensures
            r == Self::zeroed(),
    {
        VirtioNetResources {
            status: 0,
            max_queue_pairs: 0,
            curr_queue_pairs: 0,
            xdp_queue_pairs: 0,
            xdp_enabled: false,
            big_packets: false,
            mergeable_rx_bufs: false,
            has_rss: false,
            has_rss_hash_report: false,
            rss_key_size: 0,
            rss_indir_table_size: 0,
            rss_hash_types_supported: 0,
            rss_hash_types_saved: 0,
            has_cvq: false,
            any_header_sg: false,
            hdr_len: 0,
            affinity_hint_set: false,
            duplex: 0,
            speed: 0,
            guest_offloads: 0,
            guest_offloads_capable: 0,
        }
    }

    /// Sets the number of queue pairs the device supports.
    pub fn set_max_queue_pairs(&mut self, n: u16)
        ensures
            *final(self) == (VirtioNetResources { max_queue_pairs: n, ..*old(self) }),
    {
        self.max_queue_pairs = n;
    }

    /// Sets the speed reported to ethtool.
    pub fn set_speed(&mut self, speed: u32)
        ensures
            *final(self) == (VirtioNetResources { speed, ..*old(self) }),
    {
        self.speed = speed;
    }

    /// Sets the duplex reported to ethtool.
    pub fn set_duplex(&mut self, duplex: u8)
        ensures
            *final(self) == (VirtioNetResources { duplex, ..*old(self) }),
    {
        self.duplex = duplex;
    }

    /// Takes the offloads from the device's feature bits; the offloads the
    /// device can do are the same.
    pub fn set_guest_offloads(&mut self, features: u64)
        ensures
            *final(self) == (VirtioNetResources {
                guest_offloads: guest_offloads_of(features) as u32,
                guest_offloads_capable: guest_offloads_of(features) as u32,
                ..*old(self)
            }),
    {
        let offloads = guest_offloads_from_features(features);
        self.guest_offloads = offloads;
        self.guest_offloads_capable = self.guest_offloads;
    }
}


/// The steps of setting up a device's virtqueues, in order: allocating the
/// queues, finding the virtqueues, then setting their affinity. A failing
/// step ends the setup with its error.
#[derive(PartialEq, Eq, Structural, Clone, Copy, Debug)]
pub enum InitVqsStage {
    /// Allocate the send and receive queues (pending).
    AllocQueues,
    /// Find the device's virtqueues (pending).
    FindVqs,
    /// Set the virtqueues' interrupt affinity (pending).
    SetAffinity,
    /// Every step succeeded.
    Done,
    /// A step failed with this error.
    Failed(Error),
}

impl InitVqsStage {
    /// The stage after the pending step ends with `outcome`.
    pub open spec fn next_spec(self, outcome: Result<(), Error>) -> InitVqsStage {
        match self {
            InitVqsStage::Done => self,
            InitVqsStage::Failed(_) => self,
            _ => match outcome {
                Err(e) => InitVqsStage::Failed(e),
                Ok(_) => match self {
                    InitVqsStage::AllocQueues => InitVqsStage::FindVqs,
                    InitVqsStage::FindVqs => InitVqsStage::SetAffinity,
                    _ => InitVqsStage::Done,
                },
            },
        }
    }

    /// The result of the setup once it has ended.
    pub open spec fn result_spec(self) -> Option<Result<usize, Error>> {
        match self {
            InitVqsStage::Done => Some(Ok(0usize)),
            InitVqsStage::Failed(e) => Some(Err(e)),
            _ => None,
        }
    }

    /// The stage reached from `self` when the pending steps end with `outcomes` in turn.
    pub open spec fn run(self, outcomes: Seq<Result<(), Error>>) -> InitVqsStage
        decreases outcomes.len(),
    {
        if outcomes.len() == 0 {
            self
        } else {
            self.next_spec(outcomes[0]).run(outcomes.drop_first())
        }
    }

    /// The setup before any step has been taken.
    pub fn start() -> (s: Self)
        ensures
            s == InitVqsStage::AllocQueues,
    {
        InitVqsStage::AllocQueues
    }

    /// The stage after the pending step ends with `outcome`: an error ends the
    /// setup with that error, success moves to the next step; an ended setup
    /// stays as it is.
    pub fn next(self, outcome: Result<(), Error>) -> (s: Self)
        ensures
            s == self.next_spec(outcome),
    {
        match self {
            InitVqsStage::Done => self,
            InitVqsStage::Failed(_) => self,
            _ => match outcome {
                Err(e) => InitVqsStage::Failed(e),
                Ok(_) => match self {
                    InitVqsStage::AllocQueues => InitVqsStage::FindVqs,
                    InitVqsStage::FindVqs => InitVqsStage::SetAffinity,
                    _ => InitVqsStage::Done,
                },
            },
        }
    }

    /// The result of the setup: `Ok(0)` once every step succeeded, the error
    /// of the failed step, or `None` while a step is pending.
    pub fn result(&self) -> (r: Option<Result<usize, Error>>)
        ensures
            r == self.result_spec(),
    {
        match self {
            InitVqsStage::Done => Some(Ok(0)),
            InitVqsStage::Failed(e) => Some(Err(*e)),
            _ => None,
        }
    }
}

/// The first error among `outcomes`, or success when there is none.
pub open spec fn first_error(outcomes: Seq<Result<(), Error>>) -> Result<(), Error>
    decreases outcomes.len(),
{
    if outcomes.len() == 0 {
        Ok(())
    } else {
        match outcomes[0] {
            Err(e) => Err(e),
            Ok(_) => first_error(outcomes.drop_first()),
        }
    }
}

/// Setting up the virtqueues with three step outcomes ends with the first
/// error among them, or with `Ok(0)` when all three succeed.
pub proof fn lemma_init_vqs_first_error(outcomes: Seq<Result<(), Error>>)
    requires
        outcomes.len() == 3,
    ensures
        InitVqsStage::AllocQueues.run(outcomes).result_spec() == Some(
            match first_error(outcomes) {
                Ok(_) => Ok::<usize, Error>(0usize),
                Err(e) => Err(e),
            },
        ),
{
    reveal_with_fuel(InitVqsStage::run, 4);
    reveal_with_fuel(first_error, 4);
    let o1 = outcomes.drop_first();
    let o2 = o1.drop_first();
    let o3 = o2.drop_first();
    assert(o3.len() == 0);
    if let Err(e) = outcomes[0] {
        assert(InitVqsStage::Failed(e).run(o1) == InitVqsStage::Failed(e)) by {
            lemma_init_vqs_ended_stays(InitVqsStage::Failed(e), o1);
        }
    } else if let Err(e) = o1[0] {
        assert(InitVqsStage::Failed(e).run(o2) == InitVqsStage::Failed(e)) by {
            lemma_init_vqs_ended_stays(InitVqsStage::Failed(e), o2);
        }
    }
}

/// An ended setup stays as it is, whatever further outcomes come.
pub proof fn lemma_init_vqs_ended_stays(s: InitVqsStage, outcomes: Seq<Result<(), Error>>)
    requires
        s.result_spec() is Some,
    ensures
        s.run(outcomes) == s,
    decreases outcomes.len(),
{
    if outcomes.len() > 0 {
        lemma_init_vqs_ended_stays(s, outcomes.drop_first());
    }
}


/// The steps of probing a virtio network device, in order. The stage names
/// the step that is pending.
#[derive(PartialEq, Eq, Structural, Clone, Copy, Debug)]
pub enum ProbeStage {
    /// Create the network device registration.
    NewRegistration,
    /// Apply the network device settings and set up the virtqueues.
    InitVqs,
    /// Set the numbers of transmit and receive queues and register the network device.
    RegisterNetdev,
    /// Mark the virtio device ready.
    DeviceReady,
    /// Schedule the configuration work if asked, then create the device data.
    NewDeviceData,
    /// Register the device data.
    Register,
    /// The probe succeeded.
    Done,
    /// The probe failed with this error.
    Failed(Error),
}

/// The outside work that the pending probe step asks for.
#[derive(PartialEq, Eq, Structural, Clone, Copy, Debug)]
pub enum ProbeAction {
    /// Create the network device registration.
    NewRegistration,
    /// Give the network device these settings, then set up the virtqueues.
    InitVqs { settings: NetDeviceSettings },
    /// Set these numbers of transmit and receive queues, then register the
    /// network device.
    RegisterNetdev { real_num_tx_queues: u16, real_num_rx_queues: u16 },
    /// Mark the virtio device ready.
    DeviceReady,
    /// Schedule the configuration work when asked, then create the device data.
    NewDeviceData { schedule_config_work: bool },
    /// Register the device data.
    Register,
}

/// The probe of one virtio network device.
#[derive(PartialEq, Eq, Structural, Clone, Copy, Debug)]
pub struct VirtioNetProbe {
    /// The pending step, or how the probe ended.
    pub stage: ProbeStage,
    /// The virtio device's feature bits.
    pub device_features: u64,
    /// The network device's private flags before the probe.
    pub priv_flags: u32,
    /// The driver's state of the device.
    pub resources: VirtioNetResources,
}

impl VirtioNetProbe {
    /// The probe before any step has been taken.
    pub open spec fn initial(device_features: u64, priv_flags: u32) -> VirtioNetProbe {
        VirtioNetProbe {
            stage: ProbeStage::NewRegistration,
            device_features,
            priv_flags,
            resources: VirtioNetResources::zeroed(),
        }
    }

    /// The probe after the pending step ends with `outcome`.
    pub open spec fn next_spec(self, outcome: Result<(), Error>) -> VirtioNetProbe {
        match self.stage {
            ProbeStage::NewRegistration => match outcome {
                Err(e) => VirtioNetProbe { stage: ProbeStage::Failed(e), ..self },
                Ok(_) => VirtioNetProbe {
                    stage: ProbeStage::InitVqs,
                    resources: VirtioNetResources { max_queue_pairs: 1, curr_queue_pairs: 1, ..self.resources },
                    ..self
                },
            },
            ProbeStage::InitVqs => VirtioNetProbe {
                stage: ProbeStage::RegisterNetdev,
                resources: VirtioNetResources {
                    speed: SPEED_UNKNOWN,
                    duplex: DUPLEX_UNKNOWN,
                    ..self.resources
                },
                ..self
            },
            ProbeStage::RegisterNetdev => match outcome {
                Err(e) => VirtioNetProbe { stage: ProbeStage::Failed(e), ..self },
                Ok(_) => VirtioNetProbe { stage: ProbeStage::DeviceReady, ..self },
            },
            ProbeStage::DeviceReady => match outcome {
                Err(e) => VirtioNetProbe { stage: ProbeStage::Failed(e), ..self },
                Ok(_) => VirtioNetProbe {
                    stage: ProbeStage::NewDeviceData,
                    resources: VirtioNetResources {
                        guest_offloads: guest_offloads_of(self.device_features) as u32,
                        guest_offloads_capable: guest_offloads_of(self.device_features) as u32,
                        ..self.resources
                    },
                    ..self
                },
            },
            ProbeStage::NewDeviceData => match outcome {
                Err(e) => VirtioNetProbe { stage: ProbeStage::Failed(e), ..self },
                Ok(_) => VirtioNetProbe { stage: ProbeStage::Register, ..self },
            },
            ProbeStage::Register => VirtioNetProbe { stage: ProbeStage::Done, ..self },
            ProbeStage::Done => self,
            ProbeStage::Failed(_) => self,
        }
    }

    /// The outside work of the pending step, `None` once the probe has ended.
    pub open spec fn action_spec(self) -> Option<ProbeAction> {
        match self.stage {
            ProbeStage::NewRegistration => Some(ProbeAction::NewRegistration),
            ProbeStage::InitVqs => Some(ProbeAction::InitVqs { settings: netdev_settings(self.priv_flags) }),
            ProbeStage::RegisterNetdev => Some(
                ProbeAction::RegisterNetdev {
                    real_num_tx_queues: self.resources.curr_queue_pairs,
                    real_num_rx_queues: self.resources.curr_queue_pairs,
                },
            ),
            ProbeStage::DeviceReady => Some(ProbeAction::DeviceReady),
            ProbeStage::NewDeviceData => Some(
                ProbeAction::NewDeviceData {
                    schedule_config_work: has_feature(self.device_features, VIRTIO_NET_F_STATUS),
                },
            ),
            ProbeStage::Register => Some(ProbeAction::Register),
            ProbeStage::Done => None,
            ProbeStage::Failed(_) => None,
        }
    }

    /// The result of the probe once it has ended.
    pub open spec fn result_spec(self) -> Option<Result<(), Error>> {
        match self.stage {
            ProbeStage::Done => Some(Ok(())),
            ProbeStage::Failed(e) => Some(Err(e)),
            _ => None,
        }
    }

    /// The probe reached from `self` when the pending steps end with `outcomes` in turn.
    pub open spec fn run(self, outcomes: Seq<Result<(), Error>>) -> VirtioNetProbe
        decreases outcomes.len(),
    {
        if outcomes.len() == 0 {
            self
        } else {
            self.next_spec(outcomes[0]).run(outcomes.drop_first())
        }
    }

    /// The probe of a device with feature bits `device_features` whose network
    /// device has private flags `priv_flags`, before any step.
    pub fn new(device_features: u64, priv_flags: u32) -> (p: Self)
        ensures
            p == Self::initial(device_features, priv_flags),
    {
        VirtioNetProbe {
            stage: ProbeStage::NewRegistration,
            device_features,
            priv_flags,
            resources: VirtioNetResources::new(),
        }
    }

    /// The outside work the pending step asks for: creating the registration;
    /// applying the network device settings and setting up the virtqueues;
    /// setting the transmit and receive queues to the queue pairs in use and registering
    /// the network device; marking the virtio device ready; scheduling the
    /// configuration work when the device reports its link status, then
    /// creating the device data; registering the device data. `None` once
    /// the probe has ended.
    pub fn action(&self) -> (a: Option<ProbeAction>)
        ensures
            a == self.action_spec(),
    {
        match self.stage {
            ProbeStage::NewRegistration => Some(ProbeAction::NewRegistration),
            ProbeStage::InitVqs => Some(ProbeAction::InitVqs { settings: configure_netdev(self.priv_flags) }),
            ProbeStage::RegisterNetdev => Some(
                ProbeAction::RegisterNetdev {
                    real_num_tx_queues: self.resources.curr_queue_pairs,
                    real_num_rx_queues: self.resources.curr_queue_pairs,
                },
            ),
            ProbeStage::DeviceReady => Some(ProbeAction::DeviceReady),
            ProbeStage::NewDeviceData => Some(
                ProbeAction::NewDeviceData {
                    schedule_config_work: virtio_has_feature(self.device_features, VIRTIO_NET_F_STATUS),
                },
            ),
            ProbeStage::Register => Some(ProbeAction::Register),
            ProbeStage::Done => None,
            ProbeStage::Failed(_) => None,
        }
    }

    /// Hands back how the pending step ended. A failure of creating the
    /// registration, registering the network device, marking the device ready
    /// or creating the device data ends the probe with that error; how the
    /// virtqueue setup and the registration of the device data end does not
    /// stop the probe. On the way the driver takes one queue pair and uses it,
    /// reports speed and duplex as unknown, and takes the offloads from the
    /// device's features. An ended probe stays as it is.
    pub fn step(&mut self, outcome: Result<(), Error>)
        ensures
            *final(self) == old(self).next_spec(outcome),
    {
        match self.stage {
            ProbeStage::NewRegistration => match outcome {
                Err(e) => {
                    self.stage = ProbeStage::Failed(e);
                },
                Ok(_) => {
                    self.resources.set_max_queue_pairs(1);
                    self.resources.curr_queue_pairs = 1;
                    self.stage = ProbeStage::InitVqs;
                },
            },
            ProbeStage::InitVqs => {
                self.resources.set_speed(SPEED_UNKNOWN);
                self.resources.set_duplex(DUPLEX_UNKNOWN);
                self.stage = ProbeStage::RegisterNetdev;
            },
            ProbeStage::RegisterNetdev => match outcome {
                Err(e) => {
                    self.stage = ProbeStage::Failed(e);
                },
                Ok(_) => {
                    self.stage = ProbeStage::DeviceReady;
                },
            },
            ProbeStage::DeviceReady => match outcome {
                Err(e) => {
                    self.stage = ProbeStage::Failed(e);
                },
                Ok(_) => {
                    self.resources.set_guest_offloads(self.device_features);
                    self.stage = ProbeStage::NewDeviceData;
                },
            },
            ProbeStage::NewDeviceData => match outcome {
                Err(e) => {
                    self.stage = ProbeStage::Failed(e);
                },
                Ok(_) => {
                    self.stage = ProbeStage::Register;
                },
            },
            ProbeStage::Register => {
                self.stage = ProbeStage::Done;
            },
            ProbeStage::Done => {},
            ProbeStage::Failed(_) => {},
        }
    }

    /// The result of the probe: `Ok(())` once it succeeded, the error of the
    /// failed step, or `None` while a step is pending.
    pub fn result(&self) -> (r: Option<Result<(), Error>>)
        ensures
            r == self.result_spec(),
    {
        match self.stage {
            ProbeStage::Done => Some(Ok(())),
            ProbeStage::Failed(e) => Some(Err(e)),
            _ => None,
        }
    }
}


/// An ended probe stays as it is, whatever further outcomes come.
pub proof fn lemma_probe_ended_stays(p: VirtioNetProbe, outcomes: Seq<Result<(), Error>>)
    requires
        p.result_spec() is Some,
    ensures
        p.run(outcomes) == p,
    decreases outcomes.len(),
{
    if outcomes.len() > 0 {
        lemma_probe_ended_stays(p, outcomes.drop_first());
    }
}

/// The driver's state at the end of a successful probe of a device with
/// feature bits `features`.
pub open spec fn probed_resources(features: u64) -> VirtioNetResources {
    VirtioNetResources {
        max_queue_pairs: 1,
        curr_queue_pairs: 1,
        speed: SPEED_UNKNOWN,
        duplex: DUPLEX_UNKNOWN,
        guest_offloads: guest_offloads_of(features) as u32,
        guest_offloads_capable: guest_offloads_of(features) as u32,
        ..VirtioNetResources::zeroed()
    }
}

/// A probe whose six steps end with `outcomes` ends with the first error
/// among the steps that can fail it (creating the registration, registering
/// the network device, marking the device ready, creating the device data),
/// or succeeds when none of them fails; a successful probe leaves one queue
/// pair, unknown speed and duplex, and the device's offloads, both in use
/// and capable.
pub proof fn lemma_probe_outcome(features: u64, priv_flags: u32, outcomes: Seq<Result<(), Error>>)
    requires
        outcomes.len() == 6,
    ensures
        ({
            let end = VirtioNetProbe::initial(features, priv_flags).run(outcomes);
            &&& end.result_spec() == Some(
                first_error(seq![outcomes[0], outcomes[2], outcomes[3], outcomes[4]]),
            )
            &&& end.result_spec() == Some(Ok::<(), Error>(())) ==> end.resources == probed_resources(features)
        }),
{
    let p0 = VirtioNetProbe::initial(features, priv_flags);
    let gated = seq![outcomes[0], outcomes[2], outcomes[3], outcomes[4]];
    reveal_with_fuel(first_error, 5);
    let o1 = outcomes.drop_first();
    let o2 = o1.drop_first();
    let o3 = o2.drop_first();
    let o4 = o3.drop_first();
    let o5 = o4.drop_first();
    let o6 = o5.drop_first();
    assert(o1[0] == outcomes[1] && o2[0] == outcomes[2] && o3[0] == outcomes[3]);
    assert(o4[0] == outcomes[4] && o5[0] == outcomes[5] && o6.len() == 0);
    let p1 = p0.next_spec(outcomes[0]);
    let p2 = p1.next_spec(outcomes[1]);
    let p3 = p2.next_spec(outcomes[2]);
    let p4 = p3.next_spec(outcomes[3]);
    let p5 = p4.next_spec(outcomes[4]);
    let p6 = p5.next_spec(outcomes[5]);
    assert(p0.run(outcomes) == p1.run(o1));
    assert(gated.drop_first() =~= seq![outcomes[2], outcomes[3], outcomes[4]]);
    assert(gated.drop_first().drop_first() =~= seq![outcomes[3], outcomes[4]]);
    assert(gated.drop_first().drop_first().drop_first() =~= seq![outcomes[4]]);
    assert(gated.drop_first().drop_first().drop_first().drop_first() =~= Seq::<Result<(), Error>>::empty());
    if p1.result_spec() is Some {
        lemma_probe_ended_stays(p1, o1);
    } else {
        assert(p1.run(o1) == p2.run(o2));
        assert(p2.result_spec() is None);
        assert(p2.run(o2) == p3.run(o3));
        if p3.result_spec() is Some {
            lemma_probe_ended_stays(p3, o3);
        } else {
            assert(p3.run(o3) == p4.run(o4));
            if p4.result_spec() is Some {
                lemma_probe_ended_stays(p4, o4);
            } else {
                assert(p4.run(o4) == p5.run(o5));
                if p5.result_spec() is Some {
                    lemma_probe_ended_stays(p5, o5);
                } else {
                    assert(p5.run(o5) == p6.run(o6));
                    assert(p6.run(o6) == p6);
                    assert(p6.resources =~= probed_resources(features));
                }
            }
        }
    }
}

/// The settings given to the network device keep every private flag it had
/// and add unicast filtering (0x1000), live address change (0x8000) and
/// sending without a linear part (0x8000_0000); the device does DMA to high
/// memory (0x20), its VLAN devices get the same features, and its MTU ranges
/// from 68 to 65535.
pub proof fn lemma_netdev_settings(priv_flags: u32)
    ensures
        netdev_settings(priv_flags).priv_flags == priv_flags | 0x1000u32 | 0x8000u32 | 0x8000_0000u32,
        netdev_settings(priv_flags).priv_flags & priv_flags == priv_flags,
        netdev_settings(priv_flags).priv_flags & 0x8000_9000u32 == 0x8000_9000u32,
        netdev_settings(priv_flags).features == 0x20u64,
        netdev_settings(priv_flags).vlan_features == 0x20u64,
        netdev_settings(priv_flags).min_mtu == 68,
        netdev_settings(priv_flags).max_mtu == 65535,
{
    let f = netdev_settings(priv_flags).priv_flags;
    assert(f == priv_flags | 0x1000u32 | 0x8000u32 | 0x8000_0000u32);
    assert((priv_flags | 0x1000u32 | 0x8000u32 | 0x8000_0000u32) & priv_flags == priv_flags) by (bit_vector);
    assert((priv_flags | 0x1000u32 | 0x8000u32 | 0x8000_0000u32) & 0x8000_9000u32 == 0x8000_9000u32)
        by (bit_vector);
}

/// A new probe keeps the device's feature bits and the private flags it is
/// given, starts at creating the registration and holds a zeroed state.
pub proof fn lemma_new_probe(features: u64, priv_flags: u32)
    ensures
        VirtioNetProbe::initial(features, priv_flags).device_features == features,
        VirtioNetProbe::initial(features, priv_flags).priv_flags == priv_flags,
        VirtioNetProbe::initial(features, priv_flags).stage == ProbeStage::NewRegistration,
        VirtioNetProbe::initial(features, priv_flags).resources.curr_queue_pairs == 0,
        VirtioNetProbe::initial(features, priv_flags).resources.max_queue_pairs == 0,
        VirtioNetProbe::initial(features, priv_flags).resources.guest_offloads == 0,
{
}

/// When every step succeeds, a probe of a device with feature bits
/// `features` whose network device has private flags `priv_flags` asks, in
/// order: to create the registration; to give the network device its flags
/// plus 0x1000, 0x8000 and 0x8000_0000, DMA to high memory and the Ethernet
/// MTU range, then set up the virtqueues; to set one transmit and one receive
/// queue and register the network device; to mark the device ready; to
/// create the device data, scheduling the configuration work exactly when
/// the device has the link status feature (bit 16); to register the device
/// data. Then it has succeeded, with one queue pair, speed and duplex
/// unknown, and as offloads the device's feature bits 1, 7, 8, 9 and 10.
pub proof fn lemma_probe_actions_in_order(features: u64, priv_flags: u32)
    ensures
        ({
            let p0 = VirtioNetProbe::initial(features, priv_flags);
            let ok = Ok::<(), Error>(());
            &&& p0.action_spec() == Some(ProbeAction::NewRegistration)
            &&& p0.run(seq![ok]).action_spec() matches Some(ProbeAction::InitVqs { settings })
                && settings == (NetDeviceSettings {
                priv_flags: priv_flags | 0x1000u32 | 0x8000u32 | 0x8000_0000u32,
                features: 0x20u64,
                vlan_features: 0x20u64,
                min_mtu: 68u32,
                max_mtu: 65535u32,
            })
            &&& p0.run(seq![ok, ok]).action_spec() == Some(
                ProbeAction::RegisterNetdev { real_num_tx_queues: 1, real_num_rx_queues: 1 },
            )
            &&& p0.run(seq![ok, ok, ok]).action_spec() == Some(ProbeAction::DeviceReady)
            &&& p0.run(seq![ok, ok, ok, ok]).action_spec() == Some(
                ProbeAction::NewDeviceData { schedule_config_work: features & (1u64 << 16u64) != 0 },
            )
            &&& p0.run(seq![ok, ok, ok, ok, ok]).action_spec() == Some(ProbeAction::Register)
            &&& p0.run(seq![ok, ok, ok, ok, ok, ok]).action_spec() is None
            &&& p0.run(seq![ok, ok, ok, ok, ok, ok]).result_spec() == Some(ok)
            &&& p0.run(seq![ok, ok, ok, ok, ok, ok]).resources.max_queue_pairs == 1
            &&& p0.run(seq![ok, ok, ok, ok, ok, ok]).resources.curr_queue_pairs == 1
            &&& p0.run(seq![ok, ok, ok, ok, ok, ok]).resources.speed == 0xFFFF_FFFFu32
            &&& p0.run(seq![ok, ok, ok, ok, ok, ok]).resources.duplex == 0xFFu8
            &&& p0.run(seq![ok, ok, ok, ok, ok, ok]).resources.guest_offloads as u64 == features
                & 0x782u64
            &&& p0.run(seq![ok, ok, ok, ok, ok, ok]).resources.guest_offloads_capable as u64
                == features & 0x782u64
        }),
{
    let p0 = VirtioNetProbe::initial(features, priv_flags);
    let ok = Ok::<(), Error>(());
    let p1 = p0.next_spec(ok);
    let p2 = p1.next_spec(ok);
    let p3 = p2.next_spec(ok);
    let p4 = p3.next_spec(ok);
    let p5 = p4.next_spec(ok);
    let p6 = p5.next_spec(ok);
    lemma_probe_run_oks(p0, 1);
    lemma_probe_run_oks(p0, 2);
    lemma_probe_run_oks(p0, 3);
    lemma_probe_run_oks(p0, 4);
    lemma_probe_run_oks(p0, 5);
    lemma_probe_run_oks(p0, 6);
    assert(seq![ok] =~= Seq::new(1, |i: int| ok));
    assert(seq![ok, ok] =~= Seq::new(2, |i: int| ok));
    assert(seq![ok, ok, ok] =~= Seq::new(3, |i: int| ok));
    assert(seq![ok, ok, ok, ok] =~= Seq::new(4, |i: int| ok));
    assert(seq![ok, ok, ok, ok, ok] =~= Seq::new(5, |i: int| ok));
    assert(seq![ok, ok, ok, ok, ok, ok] =~= Seq::new(6, |i: int| ok));
    reveal_with_fuel(oks_after, 7);
    assert(oks_after(p0, 1) == p1);
    assert(oks_after(p0, 2) == p2);
    assert(oks_after(p0, 3) == p3);
    assert(oks_after(p0, 4) == p4);
    assert(oks_after(p0, 5) == p5);
    assert(oks_after(p0, 6) == p6);
    lemma_netdev_settings(priv_flags);
    assert(has_feature(features, VIRTIO_NET_F_STATUS) == (features & (1u64 << 16u64) != 0));
    assert((features & 0x782u64) <= 0x782u64) by (bit_vector);
}

/// The probe after `k` successful steps from `p`.
spec fn oks_after(p: VirtioNetProbe, k: nat) -> VirtioNetProbe
    decreases k,
{
    if k == 0 {
        p
    } else {
        oks_after(p, (k - 1) as nat).next_spec(Ok(()))
    }
}

proof fn lemma_probe_run_oks(p: VirtioNetProbe, k: nat)
    ensures
        p.run(Seq::new(k, |i: int| Ok::<(), Error>(()))) == oks_after(p, k),
    decreases k,
{
    if k > 0 {
        let all = Seq::new(k, |i: int| Ok::<(), Error>(()));
        let first = Seq::new((k - 1) as nat, |i: int| Ok::<(), Error>(()));
        lemma_probe_run_oks(p, (k - 1) as nat);
        lemma_probe_run_append_ok(p, first);
        assert(first.push(Ok(())) =~= all);
    }
}

proof fn lemma_probe_run_append_ok(p: VirtioNetProbe, outcomes: Seq<Result<(), Error>>)
    ensures
        p.run(outcomes.push(Ok(()))) == p.run(outcomes).next_spec(Ok(())),
    decreases outcomes.len(),
{
    reveal_with_fuel(VirtioNetProbe::run, 2);
    if outcomes.len() == 0 {
        assert(outcomes.push(Ok(())).drop_first() =~= Seq::<Result<(), Error>>::empty());
    } else {
        lemma_probe_run_append_ok(p.next_spec(outcomes[0]), outcomes.drop_first());
        assert(outcomes.push(Ok(())).drop_first() =~= outcomes.drop_first().push(Ok(())));
        assert(outcomes.push(Ok(()))[0] == outcomes[0]);
    }
}

} // verus!
