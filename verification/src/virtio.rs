//! Virtio configuration operations: which operations a driver provides, the
//! table of callbacks built from that choice, and the registration that
//! hands the driver's data to those callbacks.

use vstd::prelude::*;
use crate::error::{Error, EINVAL};
use core::marker::PhantomData;

verus! {

/// One of the configuration operations a virtio driver can provide.
#[derive(PartialEq, Eq, Structural, Clone, Copy, Debug)]
pub enum VirtioConfigOp {
    GetConfig,
    SetConfig,
    SetStatus,
    Reset,
    FindVqs,
    GetFeatures,
}

/// Which fields of `struct virtio_config_ops` are to be populated with callbacks.
#[derive(PartialEq, Eq, Structural, Clone, Copy, Debug)]
pub struct ToUseVirtioConfigOps {
    /// The `get` field of `struct virtio_config_ops`.
    pub get: bool,
    /// The `set` field of `struct virtio_config_ops`.
    pub set: bool,
    /// The `set_status` field of `struct virtio_config_ops`.
    pub set_status: bool,
    /// The `reset` field of `struct virtio_config_ops`.
    pub reset: bool,
    /// The `find_vqs` field of `struct virtio_config_ops`.
    pub find_vqs: bool,
    /// The `get_features` field of `struct virtio_config_ops`.
    pub get_features: bool,
}

impl ToUseVirtioConfigOps {
    /// Whether the field of operation `op` is to be populated.
    pub open spec fn uses(self, op: VirtioConfigOp) -> bool {
        match op {
            VirtioConfigOp::GetConfig => self.get,
            VirtioConfigOp::SetConfig => self.set,
            VirtioConfigOp::SetStatus => self.set_status,
            VirtioConfigOp::Reset => self.reset,
            VirtioConfigOp::FindVqs => self.find_vqs,
            VirtioConfigOp::GetFeatures => self.get_features,
        }
    }

    /// Marks the field of operation `op` as populated.
    fn enable(&mut self, op: VirtioConfigOp)
        ensures
            forall|o: VirtioConfigOp| #[trigger]
                final(self).uses(o) == (o == op || old(self).uses(o)),
    {
        match op {
            VirtioConfigOp::GetConfig => self.get = true,
            VirtioConfigOp::SetConfig => self.set = true,
            VirtioConfigOp::SetStatus => self.set_status = true,
            VirtioConfigOp::Reset => self.reset = true,
            VirtioConfigOp::FindVqs => self.find_vqs = true,
            VirtioConfigOp::GetFeatures => self.get_features = true,
        }
    }
}

impl ToUseVirtioConfigOps {
    /// All fields `false`: every supported field is left a null pointer.
    pub open spec fn none_spec() -> ToUseVirtioConfigOps {
        ToUseVirtioConfigOps {
            get: false,
            set: false,
            set_status: false,
            reset: false,
            find_vqs: false,
            get_features: false,
        }
    }

    /// All fields `false`: every supported field is left a null pointer.
    #[verifier::when_used_as_spec(none_spec)]
    pub fn none() -> (r: ToUseVirtioConfigOps)
        ensures
            r == Self::none_spec(),
            forall|op: VirtioConfigOp| !(#[trigger] r.uses(op)),
    {
        ToUseVirtioConfigOps {
            get: false,
            set: false,
            set_status: false,
            reset: false,
            find_vqs: false,
            get_features: false,
        }
    }
}

/// The choice in which exactly the operations listed in `ops` are populated.
pub open spec fn declared_ops(ops: Seq<VirtioConfigOp>) -> ToUseVirtioConfigOps {
    ToUseVirtioConfigOps {
        get: ops.contains(VirtioConfigOp::GetConfig),
        set: ops.contains(VirtioConfigOp::SetConfig),
        set_status: ops.contains(VirtioConfigOp::SetStatus),
        reset: ops.contains(VirtioConfigOp::Reset),
        find_vqs: ops.contains(VirtioConfigOp::FindVqs),
        get_features: ops.contains(VirtioConfigOp::GetFeatures),
    }
}

/// Builds the `TO_USE` value of a driver from the list of operations it
/// populates; every other field stays `false`.
pub fn declare_virtio_config_ops(ops: &[VirtioConfigOp]) -> (r: ToUseVirtioConfigOps)
    ensures
        r == declared_ops(ops@),
        forall|op: VirtioConfigOp| #[trigger] r.uses(op) == ops@.contains(op),
{
    let mut r = ToUseVirtioConfigOps::none();
    let mut i: usize = 0;
    while i < ops.len()
        invariant
            i <= ops.len(),
            forall|op: VirtioConfigOp| #[trigger]
                r.uses(op) == (exists|j: int| 0 <= j < i && ops@[j] == op),
        decreases ops.len() - i,
    {
        let op = ops[i];
        r.enable(op);
        proof {
            assert forall|o: VirtioConfigOp| #[trigger]
                r.uses(o) == (exists|j: int| 0 <= j < i + 1 && ops@[j] == o) by {
                if o == op {
                    assert(ops@[i as int] == o);
                }
            }
        }
        i = i + 1;
    }
    proof {
        assert forall|op: VirtioConfigOp| #[trigger] r.uses(op) == ops@.contains(op) by {
            if ops@.contains(op) {
                assert(exists|k: int| 0 <= k < i && ops@[k] == op);
            }
        }
        let d = declared_ops(ops@);
        assert(r.uses(VirtioConfigOp::Reset) == d.reset);
        assert(r.uses(VirtioConfigOp::FindVqs) == d.find_vqs);
        assert(r.uses(VirtioConfigOp::GetFeatures) == d.get_features);
        assert(r.uses(VirtioConfigOp::GetConfig) == d.get);
        assert(r.uses(VirtioConfigOp::SetConfig) == d.set);
        assert(r.uses(VirtioConfigOp::SetStatus) == d.set_status);
    }
    r
}

/// Declaring no operation leaves every field `false`.
pub proof fn lemma_declare_nothing_is_use_none()
    ensures
        declared_ops(Seq::<VirtioConfigOp>::empty()) == ToUseVirtioConfigOps::none_spec(),
{
}

/// The interrupt affinity requirements handed to `find_vqs` (the plain values
/// of `struct irq_affinity`).
#[derive(PartialEq, Eq, Structural, Clone, Copy, Debug)]
pub struct IrqAffinity {
    /// Interrupts to keep out of spreading at the start of the range.
    pub pre_vectors: u32,
    /// Interrupts to keep out of spreading at the end of the range.
    pub post_vectors: u32,
    /// Number of interrupt sets.
    pub nr_sets: u32,
}

/// Whether `r` is the failure `EINVAL`.
pub open spec fn is_einval<T>(r: Result<T, Error>) -> bool {
    r matches Err(e) && e.errno() == -EINVAL
}

/// The configuration operations of a virtio device (`struct virtio_config_ops`).
///
/// A driver implements this trait; an operation it does not provide fails
/// with `EINVAL`.
pub trait VirtioConfigOps {
    /// Context data handed to the device-wide operations.
    type DataBase: Sync + Send;

    /// Context data handed to the virtqueue operations.
    type DataVq: Sync + Send;

    /// The operations with which `struct virtio_config_ops` is populated.
    const TO_USE: ToUseVirtioConfigOps;

    /// Reads configuration space at `offset` into `buffer`.
    fn get(data: &Self::DataBase, offset: u32, buffer: &mut [u8]) -> (r: Result<(), Error>)
        default_ensures
            is_einval(r),
            final(buffer)@ == old(buffer)@,
    {
        Err(Error::einval())
    }

    /// Writes `buffer` into configuration space at `offset`.
    fn set(data: &Self::DataBase, offset: u32, buffer: &[u8]) -> (r: Result<(), Error>)
        default_ensures
            is_einval(r),
    {
        Err(Error::einval())
    }

    /// Writes the device status byte.
    fn set_status(data: &Self::DataBase, status: u8) -> (r: Result<(), Error>)
        default_ensures
            is_einval(r),
    {
        Err(Error::einval())
    }

    /// Resets the device.
    fn reset(data: &Self::DataBase) -> (r: Result<(), Error>)
        default_ensures
            is_einval(r),
    {
        Err(Error::einval())
    }

    /// Finds the device's virtqueues.
    fn find_vqs(
        data: &Self::DataVq,
        vqs_buffer: &mut [u8],
        callbacks_buffer: &mut [u8],
        names_buffer: &mut [u8],
        wait: bool,
        irq_affinity: IrqAffinity,
    ) -> (r: Result<(), Error>)
        default_ensures
            is_einval(r),
            final(vqs_buffer)@ == old(vqs_buffer)@,
            final(callbacks_buffer)@ == old(callbacks_buffer)@,
            final(names_buffer)@ == old(names_buffer)@,
    {
        Err(Error::einval())
    }

    /// Reads the device's feature bits.
    fn get_features(data: &Self::DataBase) -> (r: Result<u64, Error>)
        default_ensures
            is_einval(r),
    {
        Err(Error::einval())
    }
}

/// A `struct virtio_config_ops`: each slot holds the callback installed in
/// it, or `None` for a null pointer.
#[derive(PartialEq, Eq, Structural, Clone, Copy, Debug)]
pub struct VirtioConfigOpsVtable {
    pub get: Option<VirtioConfigOp>,
    pub set: Option<VirtioConfigOp>,
    pub generation: Option<VirtioConfigOp>,
    pub get_status: Option<VirtioConfigOp>,
    pub set_status: Option<VirtioConfigOp>,
    pub reset: Option<VirtioConfigOp>,
    pub find_vqs: Option<VirtioConfigOp>,
    pub del_vqs: Option<VirtioConfigOp>,
    pub synchronize_cbs: Option<VirtioConfigOp>,
    pub get_features: Option<VirtioConfigOp>,
    pub finalize_features: Option<VirtioConfigOp>,
    pub bus_name: Option<VirtioConfigOp>,
    pub set_vq_affinity: Option<VirtioConfigOp>,
    pub get_vq_affinity: Option<VirtioConfigOp>,
    pub get_shm_region: Option<VirtioConfigOp>,
}

/// The callback of operation `op` if `wanted`, else a null pointer.
pub open spec fn slot_for(wanted: bool, op: VirtioConfigOp) -> Option<VirtioConfigOp> {
    if wanted {
        Some(op)
    } else {
        None
    }
}

impl VirtioConfigOpsVtable {
    /// The slot of operation `op`.
    pub open spec fn slot(self, op: VirtioConfigOp) -> Option<VirtioConfigOp> {
        match op {
            VirtioConfigOp::GetConfig => self.get,
            VirtioConfigOp::SetConfig => self.set,
            VirtioConfigOp::SetStatus => self.set_status,
            VirtioConfigOp::Reset => self.reset,
            VirtioConfigOp::FindVqs => self.find_vqs,
            VirtioConfigOp::GetFeatures => self.get_features,
        }
    }

    /// The slots for which no driver operation exists are null pointers.
    pub open spec fn other_slots_null(self) -> bool {
        &&& self.generation is None
        &&& self.get_status is None
        &&& self.del_vqs is None
        &&& self.synchronize_cbs is None
        &&& self.finalize_features is None
        &&& self.bus_name is None
        &&& self.set_vq_affinity is None
        &&& self.get_vq_affinity is None
        &&& self.get_shm_region is None
    }

    /// The table populated according to `to_use`.
    pub open spec fn populated(to_use: ToUseVirtioConfigOps) -> VirtioConfigOpsVtable {
        VirtioConfigOpsVtable {
            get: slot_for(to_use.get, VirtioConfigOp::GetConfig),
            set: slot_for(to_use.set, VirtioConfigOp::SetConfig),
            generation: None,
            get_status: None,
            set_status: slot_for(to_use.set_status, VirtioConfigOp::SetStatus),
            reset: slot_for(to_use.reset, VirtioConfigOp::Reset),
            find_vqs: slot_for(to_use.find_vqs, VirtioConfigOp::FindVqs),
            del_vqs: None,
            synchronize_cbs: None,
            get_features: slot_for(to_use.get_features, VirtioConfigOp::GetFeatures),
            finalize_features: None,
            bus_name: None,
            set_vq_affinity: None,
            get_vq_affinity: None,
            get_shm_region: None,
        }
    }

    /// Builds the table populated according to `to_use`: the slot of each
    /// operation holds its callback exactly when `to_use` asks for it, and
    /// every other slot is a null pointer.
    pub fn from_to_use(to_use: ToUseVirtioConfigOps) -> (vt: VirtioConfigOpsVtable)
        ensures
            vt == Self::populated(to_use),
            forall|op: VirtioConfigOp| #[trigger]
                vt.slot(op) == slot_for(to_use.uses(op), op),
            vt.other_slots_null(),
    {
        let get = if to_use.get {
            Some(VirtioConfigOp::GetConfig)
        } else {
            None
        };
        let set = if to_use.set {
            Some(VirtioConfigOp::SetConfig)
        } else {
            None
        };
        let set_status = if to_use.set_status {
            Some(VirtioConfigOp::SetStatus)
        } else {
            None
        };
        let reset = if to_use.reset {
            Some(VirtioConfigOp::Reset)
        } else {
            None
        };
        let find_vqs = if to_use.find_vqs {
            Some(VirtioConfigOp::FindVqs)
        } else {
            None
        };
        let get_features = if to_use.get_features {
            Some(VirtioConfigOp::GetFeatures)
        } else {
            None
        };
        VirtioConfigOpsVtable {
            get,
            set,
            generation: None,
            get_status: None,
            set_status,
            reset,
            find_vqs,
            del_vqs: None,
            synchronize_cbs: None,
            get_features,
            finalize_features: None,
            bus_name: None,
            set_vq_affinity: None,
            get_vq_affinity: None,
            get_shm_region: None,
        }
    }
}

/// A table built from a declared list of operations holds a callback in the
/// slot of an operation exactly when that operation was declared, and in no
/// other slot.
pub proof fn lemma_declared_ops_populate_their_slots(ops: Seq<VirtioConfigOp>, op: VirtioConfigOp)
    ensures
        VirtioConfigOpsVtable::populated(declared_ops(ops)).slot(op) is Some <==> ops.contains(op),
        VirtioConfigOpsVtable::populated(declared_ops(ops)).slot(op) is Some ==>
            VirtioConfigOpsVtable::populated(declared_ops(ops)).slot(op) == Some(op),
        VirtioConfigOpsVtable::populated(declared_ops(ops)).other_slots_null(),
{
}

/// The callbacks through which C reaches the configuration operations of
/// driver `T`.
pub struct VirtioConfigOpsTable<T: VirtioConfigOps>(PhantomData<T>);

impl<T: VirtioConfigOps> VirtioConfigOpsTable<T> {
    /// Builds the `struct virtio_config_ops` of driver `T`, populated according
    /// to `T::TO_USE`.
    pub fn build() -> (vt: VirtioConfigOpsVtable)
        ensures
            vt == VirtioConfigOpsVtable::populated(T::TO_USE),
            forall|op: VirtioConfigOp| #[trigger]
                vt.slot(op) == slot_for(T::TO_USE.uses(op), op),
            vt.other_slots_null(),
    {
        VirtioConfigOpsVtable::from_to_use(T::TO_USE)
    }

    /// The `get` callback: reads configuration space through `T::get`; the
    /// buffer ends as one call of `T::get` on its contents leaves it.
    pub fn get_callback(data: &T::DataBase, offset: u32, buffer: &mut [u8])
        ensures
            exists|res: Result<(), Error>, b: &mut [u8]|
                {
                    &&& call_ensures(T::get, (data, offset, b), res)
                    &&& b@ == old(buffer)@
                    &&& final(b)@ == final(buffer)@
                },
    {
        let _ = T::get(data, offset, buffer);
    }

    /// The `set` callback: writes configuration space through `T::set`.
    pub fn set_callback(data: &T::DataBase, offset: u32, buffer: &[u8])
        ensures
            exists|res: Result<(), Error>| call_ensures(T::set, (data, offset, buffer), res),
    {
        let _ = T::set(data, offset, buffer);
    }

    /// The `set_status` callback: hands the status byte to `T::set_status`.
    pub fn set_status_callback(data: &T::DataBase, status: u8)
        ensures
            exists|res: Result<(), Error>| call_ensures(T::set_status, (data, status), res),
    {
        let _ = T::set_status(data, status);
    }

    /// The `reset` callback: resets the device through `T::reset`.
    pub fn reset_callback(data: &T::DataBase)
        ensures
            exists|res: Result<(), Error>| call_ensures(T::reset, (data,), res),
    {
        let _ = T::reset(data);
    }

    /// The `find_vqs` callback: hands the buffers to `T::find_vqs`, which
    /// leaves them as one call of it does, and reports to C 0 when it
    /// succeeded and its negative error number when it failed.
    pub fn find_vqs_callback(
        data: &T::DataVq,
        vqs_buffer: &mut [u8],
        callbacks_buffer: &mut [u8],
        names_buffer: &mut [u8],
        ctx: bool,
        irq_affinity: IrqAffinity,
    ) -> (r: i32)
        ensures
            exists|res: Result<(), Error>, v: &mut [u8], c: &mut [u8], n: &mut [u8]|
                {
                    &&& call_ensures(T::find_vqs, (data, v, c, n, ctx, irq_affinity), res)
                    &&& r == match res {
                        Ok(_) => 0,
                        Err(e) => e.errno(),
                    }
                    &&& res is Err ==> crate::error::is_valid_errno(r as int)
                    &&& v@ == old(vqs_buffer)@
                    &&& final(v)@ == final(vqs_buffer)@
                    &&& c@ == old(callbacks_buffer)@
                    &&& final(c)@ == final(callbacks_buffer)@
                    &&& n@ == old(names_buffer)@
                    &&& final(n)@ == final(names_buffer)@
                },
    {
        let res = T::find_vqs(data, vqs_buffer, callbacks_buffer, names_buffer, ctx, irq_affinity);
        let status = match res {
            Ok(()) => Ok(0),
            Err(e) => Err(e),
        };
        crate::error::from_kernel_result(status)
    }

    /// The `get_features` callback: the feature bits from `T::get_features`,
    /// or its error number as C sees it (one of the top `MAX_ERRNO` values).
    pub fn get_features_callback(data: &T::DataBase) -> (r: u64)
        ensures
            exists|res: Result<u64, Error>|
                {
                    &&& call_ensures(T::get_features, (data,), res)
                    &&& r == crate::error::kernel_u64_of(res)
                    &&& res is Err ==> r >= 0x1_0000_0000_0000_0000int - crate::error::MAX_ERRNO
                },
    {
        let features = T::get_features(data);
        crate::error::from_kernel_result_u64(features)
    }
}


/// Extracts the device-wide context data from a registration.
///
/// This is meant to be implemented by registration managers.
pub trait DataBaseAdapter<T: Sync> {
    /// The device-wide context data, once it has been registered.
    fn base(&self) -> Option<&T>;
}

/// Extracts the virtqueue context data from a registration.
///
/// This is meant to be implemented by registration managers.
pub trait DataVqAdapter<T: Sync> {
    /// The virtqueue context data, once it has been registered.
    fn vq(&self) -> Option<&T>;
}

/// The registration of a virtio device driven by `T`: the device's region
/// and the context data handed to `T`'s operations.
pub struct Registration<T: VirtioConfigOps> {
    base: u64,
    len: u64,
    data_base: Option<T::DataBase>,
    data_vq: Option<T::DataVq>,
}

impl<T: VirtioConfigOps> Registration<T> {
    /// Whether the device has been registered.
    pub closed spec fn is_registered(&self) -> bool {
        self.data_base is Some
    }

    /// The start of the registered region (0 before registration).
    pub closed spec fn region_base(&self) -> u64 {
        self.base
    }

    /// The length of the registered region (0 before registration).
    pub closed spec fn region_len(&self) -> u64 {
        self.len
    }

    /// The registered device-wide context data.
    pub closed spec fn registered_base(&self) -> Option<T::DataBase> {
        self.data_base
    }

    /// The registered virtqueue context data.
    pub closed spec fn registered_vq(&self) -> Option<T::DataVq> {
        self.data_vq
    }

    /// Holds for every `Registration`: both context data are present together.
    #[verifier::type_invariant]
    spec fn wf(self) -> bool {
        (self.data_base is Some) == (self.data_vq is Some)
    }

    /// This registration after registering `base`, `len`, `data_base` and `data_vq`.
    pub closed spec fn registered_with(
        self,
        base: u64,
        len: u64,
        data_base: T::DataBase,
        data_vq: T::DataVq,
    ) -> Self {
        Registration { base, len, data_base: Some(data_base), data_vq: Some(data_vq) }
    }

    /// A registration that has not registered anything yet.
    pub fn new() -> (r: Self)
        ensures
            !r.is_registered(),
            r.region_base() == 0,
            r.region_len() == 0,
            r.registered_base() is None,
            r.registered_vq() is None,
    {
        Registration { base: 0, len: 0, data_base: None, data_vq: None }
    }

    /// Registers the device with its region and context data. A device can
    /// be registered once; a second registration fails with `EINVAL` and
    /// changes nothing.
    pub fn register(
        &mut self,
        base: u64,
        len: u64,
        data_base: T::DataBase,
        data_vq: T::DataVq,
    ) -> (r: Result<(), Error>)
        ensures
            old(self).is_registered() ==> is_einval(r) && *final(self) == *old(self),
            !old(self).is_registered() ==> {
                &&& r is Ok
                &&& *final(self) == old(self).registered_with(base, len, data_base, data_vq)
                &&& final(self).is_registered()
                &&& final(self).region_base() == base
                &&& final(self).region_len() == len
                &&& final(self).registered_base() == Some(data_base)
                &&& final(self).registered_vq() == Some(data_vq)
            },
    {
        if self.data_base.is_some() {
            return Err(Error::einval());
        }
        *self = Registration { base, len, data_base: Some(data_base), data_vq: Some(data_vq) };
        Ok(())
    }
}

impl<T: VirtioConfigOps> Default for Registration<T> {
    fn default() -> (r: Self)
        ensures
            !r.is_registered(),
            r.region_base() == 0,
            r.region_len() == 0,
            r.registered_base() is None,
            r.registered_vq() is None,
    {
        Self::new()
    }
}

impl<T: VirtioConfigOps> DataBaseAdapter<T::DataBase> for Registration<T> {
    fn base(&self) -> (r: Option<&T::DataBase>)
        ensures
            r is Some <==> self.is_registered(),
            match r {
                Some(d) => self.registered_base() == Some(*d),
                None => self.registered_base() is None,
            },
    {
        self.data_base.as_ref()
    }
}

impl<T: VirtioConfigOps> DataVqAdapter<T::DataVq> for Registration<T> {
    fn vq(&self) -> (r: Option<&T::DataVq>)
        ensures
            r is Some <==> self.is_registered(),
            match r {
                Some(d) => self.registered_vq() == Some(*d),
                None => self.registered_vq() is None,
            },
    {
        proof {
            use_type_invariant(self);
        }
        self.data_vq.as_ref()
    }
}


/// Once a device is registered, the adapters hand out exactly the context
/// data it was registered with, the registered region is kept, and a further
/// registration is refused.
pub proof fn lemma_registered_data_reachable<T: VirtioConfigOps>(
    reg: Registration<T>,
    base: u64,
    len: u64,
    data_base: T::DataBase,
    data_vq: T::DataVq,
)
    requires
        !reg.is_registered(),
    ensures
        ({
            let after = reg.registered_with(base, len, data_base, data_vq);
            &&& after.is_registered()
            &&& after.registered_base() == Some(data_base)
            &&& after.registered_vq() == Some(data_vq)
            &&& after.region_base() == base
            &&& after.region_len() == len
        }),
{
}

} // verus!
