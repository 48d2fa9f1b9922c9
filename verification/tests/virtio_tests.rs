use lib::error::Error;
use std::sync::Mutex;
use lib::virtio::{
    declare_virtio_config_ops, DataBaseAdapter, DataVqAdapter, IrqAffinity, Registration,
    ToUseVirtioConfigOps, VirtioConfigOp, VirtioConfigOps, VirtioConfigOpsTable,
    VirtioConfigOpsVtable,
};

/// A driver that provides only `get` and `get_features`.
struct ConfigSpaceDriver;

impl VirtioConfigOps for ConfigSpaceDriver {
    type DataBase = u64;
    type DataVq = u32;

    const TO_USE: ToUseVirtioConfigOps = ToUseVirtioConfigOps {
        get: true,
        set: false,
        set_status: false,
        reset: false,
        find_vqs: false,
        get_features: true,
    };

    fn get(data: &u64, offset: u32, buffer: &mut [u8]) -> Result<(), Error> {
        for (i, b) in buffer.iter_mut().enumerate() {
            *b = (*data as u8).wrapping_add(offset as u8).wrapping_add(i as u8);
        }
        Ok(())
    }

    fn get_features(data: &u64) -> Result<u64, Error> {
        if *data == 0 {
            Err(Error::from_kernel_errno(-5))
        } else {
            Ok(*data)
        }
    }

    fn find_vqs(
        _data: &u32,
        _vqs: &mut [u8],
        _callbacks: &mut [u8],
        _names: &mut [u8],
        _wait: bool,
        _irq_affinity: IrqAffinity,
    ) -> Result<(), Error> {
        Err(Error::from_kernel_errno(-12))
    }
}

/// A driver that provides nothing.
struct NoOpsDriver;

impl VirtioConfigOps for NoOpsDriver {
    type DataBase = ();
    type DataVq = ();
    const TO_USE: ToUseVirtioConfigOps = ToUseVirtioConfigOps {
        get: false,
        set: false,
        set_status: false,
        reset: false,
        find_vqs: false,
        get_features: false,
    };
}

#[derive(Debug, PartialEq)]
enum Call {
    SetConfig(u32, Vec<u8>),
    SetStatus(u8),
    Reset,
}

/// A driver that records the calls it receives and finds its virtqueues.
struct RecordingDriver;

impl VirtioConfigOps for RecordingDriver {
    type DataBase = Mutex<Vec<Call>>;
    type DataVq = u8;

    const TO_USE: ToUseVirtioConfigOps = ToUseVirtioConfigOps {
        get: false,
        set: true,
        set_status: true,
        reset: true,
        find_vqs: true,
        get_features: false,
    };

    fn set(data: &Mutex<Vec<Call>>, offset: u32, buffer: &[u8]) -> Result<(), Error> {
        data.lock().unwrap().push(Call::SetConfig(offset, buffer.to_vec()));
        Ok(())
    }

    fn set_status(data: &Mutex<Vec<Call>>, status: u8) -> Result<(), Error> {
        data.lock().unwrap().push(Call::SetStatus(status));
        Ok(())
    }

    fn reset(data: &Mutex<Vec<Call>>) -> Result<(), Error> {
        data.lock().unwrap().push(Call::Reset);
        Ok(())
    }

    fn find_vqs(
        data: &u8,
        vqs: &mut [u8],
        callbacks: &mut [u8],
        names: &mut [u8],
        _wait: bool,
        _irq_affinity: IrqAffinity,
    ) -> Result<(), Error> {
        vqs.fill(*data);
        callbacks.fill(*data + 1);
        names.fill(*data + 2);
        Ok(())
    }
}

fn affinity() -> IrqAffinity {
    IrqAffinity { pre_vectors: 0, post_vectors: 0, nr_sets: 0 }
}

#[test]
fn declaring_nothing_uses_nothing() {
    assert_eq!(declare_virtio_config_ops(&[]), ToUseVirtioConfigOps::none());
    assert_eq!(NoOpsDriver::TO_USE, ToUseVirtioConfigOps::none());
}

#[test]
fn declaring_ops_sets_exactly_their_fields() {
    let t = declare_virtio_config_ops(&[VirtioConfigOp::Reset, VirtioConfigOp::GetConfig]);
    assert_eq!(
        t,
        ToUseVirtioConfigOps {
            get: true,
            set: false,
            set_status: false,
            reset: true,
            find_vqs: false,
            get_features: false,
        }
    );
    let all = declare_virtio_config_ops(&[
        VirtioConfigOp::GetConfig,
        VirtioConfigOp::SetConfig,
        VirtioConfigOp::SetStatus,
        VirtioConfigOp::Reset,
        VirtioConfigOp::FindVqs,
        VirtioConfigOp::GetFeatures,
        VirtioConfigOp::Reset,
    ]);
    assert!(all.get && all.set && all.set_status && all.reset && all.find_vqs && all.get_features);
}

#[test]
fn vtable_slots_follow_the_flags() {
    let t = declare_virtio_config_ops(&[VirtioConfigOp::SetStatus, VirtioConfigOp::FindVqs]);
    let vt = VirtioConfigOpsVtable::from_to_use(t);
    assert_eq!(vt.get, None);
    assert_eq!(vt.set, None);
    assert_eq!(vt.set_status, Some(VirtioConfigOp::SetStatus));
    assert_eq!(vt.reset, None);
    assert_eq!(vt.find_vqs, Some(VirtioConfigOp::FindVqs));
    assert_eq!(vt.get_features, None);
    assert_eq!(vt.generation, None);
    assert_eq!(vt.get_status, None);
    assert_eq!(vt.del_vqs, None);
    assert_eq!(vt.synchronize_cbs, None);
    assert_eq!(vt.finalize_features, None);
    assert_eq!(vt.bus_name, None);
    assert_eq!(vt.set_vq_affinity, None);
    assert_eq!(vt.get_vq_affinity, None);
    assert_eq!(vt.get_shm_region, None);
}

#[test]
fn build_uses_the_drivers_choice() {
    let vt = VirtioConfigOpsTable::<ConfigSpaceDriver>::build();
    assert_eq!(vt.get, Some(VirtioConfigOp::GetConfig));
    assert_eq!(vt.get_features, Some(VirtioConfigOp::GetFeatures));
    assert_eq!(vt.set, None);
    assert_eq!(vt.find_vqs, None);
    let empty = VirtioConfigOpsTable::<NoOpsDriver>::build();
    assert_eq!(empty, VirtioConfigOpsVtable::from_to_use(ToUseVirtioConfigOps::none()));
    assert_eq!(empty.get, None);
}

#[test]
fn operations_not_provided_fail_with_einval() {
    let mut buf = [0u8; 4];
    assert_eq!(NoOpsDriver::get(&(), 0, &mut buf), Err(Error::einval()));
    assert_eq!(NoOpsDriver::set(&(), 0, &buf), Err(Error::einval()));
    assert_eq!(NoOpsDriver::set_status(&(), 1), Err(Error::einval()));
    assert_eq!(NoOpsDriver::reset(&()), Err(Error::einval()));
    let (mut a, mut b, mut c) = ([0u8; 1], [0u8; 1], [0u8; 1]);
    assert_eq!(
        NoOpsDriver::find_vqs(&(), &mut a, &mut b, &mut c, false, affinity()),
        Err(Error::einval())
    );
    assert_eq!(NoOpsDriver::get_features(&()), Err(Error::einval()));
    assert_eq!(ConfigSpaceDriver::reset(&7), Err(Error::einval()));
}

#[test]
fn get_callback_hands_the_buffer_to_the_driver() {
    let mut buf = [0u8; 3];
    VirtioConfigOpsTable::<ConfigSpaceDriver>::get_callback(&10, 5, &mut buf);
    assert_eq!(buf, [15, 16, 17]);
}

#[test]
fn void_callbacks_swallow_failures() {
    let buf = [1u8, 2];
    // The driver's failures stay inside the callbacks, which return nothing.
    let () = VirtioConfigOpsTable::<NoOpsDriver>::set_callback(&(), 0, &buf);
    let () = VirtioConfigOpsTable::<NoOpsDriver>::set_status_callback(&(), 3);
    let () = VirtioConfigOpsTable::<NoOpsDriver>::reset_callback(&());
    assert_eq!(buf, [1, 2]);
}

#[test]
fn void_callbacks_hand_their_arguments_to_the_driver() {
    let log = Mutex::new(Vec::new());
    VirtioConfigOpsTable::<RecordingDriver>::set_callback(&log, 4, &[9, 8]);
    VirtioConfigOpsTable::<RecordingDriver>::set_status_callback(&log, 0x0f);
    VirtioConfigOpsTable::<RecordingDriver>::reset_callback(&log);
    assert_eq!(
        *log.lock().unwrap(),
        vec![
            Call::SetConfig(4, vec![9, 8]),
            Call::SetStatus(0x0f),
            Call::Reset,
        ]
    );
}

#[test]
fn default_operations_leave_the_buffers_unchanged() {
    let mut buf = [1u8, 2, 3];
    assert_eq!(NoOpsDriver::get(&(), 0, &mut buf), Err(Error::einval()));
    assert_eq!(buf, [1, 2, 3]);
    VirtioConfigOpsTable::<NoOpsDriver>::get_callback(&(), 0, &mut buf);
    assert_eq!(buf, [1, 2, 3]);
    let (mut a, mut b, mut c) = ([4u8; 2], [5u8; 3], [6u8; 1]);
    assert_eq!(
        NoOpsDriver::find_vqs(&(), &mut a, &mut b, &mut c, true, affinity()),
        Err(Error::einval())
    );
    assert_eq!((a, b, c), ([4u8; 2], [5u8; 3], [6u8; 1]));
}

#[test]
fn find_vqs_callback_reports_zero_or_the_drivers_error() {
    let (mut a, mut b, mut c) = ([0u8; 2], [0u8; 2], [0u8; 2]);
    assert_eq!(
        VirtioConfigOpsTable::<ConfigSpaceDriver>::find_vqs_callback(
            &0, &mut a, &mut b, &mut c, true, affinity()
        ),
        -12
    );
    assert_eq!(
        VirtioConfigOpsTable::<NoOpsDriver>::find_vqs_callback(&(), &mut a, &mut b, &mut c, false, affinity()),
        -22
    );
    assert_eq!(
        VirtioConfigOpsTable::<RecordingDriver>::find_vqs_callback(&3, &mut a, &mut b, &mut c, false, affinity()),
        0
    );
    assert_eq!((a, b, c), ([3u8; 2], [4u8; 2], [5u8; 2]));
}

#[test]
fn get_features_callback_gives_features_or_errno() {
    assert_eq!(VirtioConfigOpsTable::<ConfigSpaceDriver>::get_features_callback(&0x31), 0x31);
    assert_eq!(
        VirtioConfigOpsTable::<ConfigSpaceDriver>::get_features_callback(&0),
        (-5i64) as u64
    );
    assert_eq!(VirtioConfigOpsTable::<NoOpsDriver>::get_features_callback(&()), (-22i64) as u64);
}

#[test]
fn new_registration_holds_no_data() {
    let reg = Registration::<ConfigSpaceDriver>::new();
    assert_eq!(reg.base(), None);
    assert_eq!(reg.vq(), None);
    let reg: Registration<ConfigSpaceDriver> = Default::default();
    assert_eq!(reg.base(), None);
    assert_eq!(reg.vq(), None);
}

#[test]
fn registered_data_reaches_the_adapters() {
    let mut reg = Registration::<ConfigSpaceDriver>::new();
    assert_eq!(reg.register(0x1000, 0x200, 42, 7), Ok(()));
    assert_eq!(reg.base(), Some(&42));
    assert_eq!(reg.vq(), Some(&7));
}

#[test]
fn second_registration_is_refused() {
    let mut reg = Registration::<ConfigSpaceDriver>::new();
    assert_eq!(reg.register(0x1000, 0x200, 42, 7), Ok(()));
    assert_eq!(reg.register(0x2000, 0x10, 1, 2), Err(Error::einval()));
    assert_eq!(reg.base(), Some(&42));
    assert_eq!(reg.vq(), Some(&7));
}
