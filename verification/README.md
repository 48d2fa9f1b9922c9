# Virtio configuration operations and the virtio network driver, verified

- `src/error.rs`: kernel error numbers and the integers a C caller receives for a result.
- `src/virtio.rs`: the choice of configuration operations a driver provides,
  the `struct virtio_config_ops` table built from it, the callbacks that reach
  the driver's operations, and the registration that hands out the driver's data.
- `src/scatterlist.rs`: scatter/gather table entries.
- `src/virtio_net.rs`: the network device settings, the offloads taken from the
  device's features, and the probe of a device as a sequence of steps in which
  a failing step ends the probe.
- `src/of_id.rs`: the code written by the `GetIdInfo` derive for a struct.

The outside work (talking to the kernel, raw pointers, token streams) is not
part of this crate: the library takes and returns plain values.
