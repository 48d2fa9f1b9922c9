//! Virtio configuration operations, scatterlists and the decisions of the
//! virtio network driver, each with a proved contract.

pub mod error;
pub mod virtio;
pub mod scatterlist;
pub mod virtio_net;
pub mod of_id;
