//! Scatterlist entries (`struct scatterlist`).

use vstd::prelude::*;

verus! {

/// The `page_link` bit that marks an entry as a link to another table.
pub const SG_CHAIN: u64 = 0x01;

/// The `page_link` bit that marks an entry as the last of its table.
pub const SG_END: u64 = 0x02;

/// One entry of a scatter/gather table.
#[derive(PartialEq, Eq, Structural, Clone, Copy, Debug)]
pub struct Scatterlist {
    /// The page of the buffer, with the chain and end bits in its low bits.
    pub page_link: u64,
    /// Offset of the buffer within the page.
    pub offset: u32,
    /// Length of the buffer in bytes.
    pub length: u32,
    /// DMA address of the buffer.
    pub dma_address: u64,
    /// DMA length of the buffer.
    pub dma_length: u32,
}

impl Scatterlist {
    /// The entry whose fields are all zero.
    pub open spec fn zeroed() -> Scatterlist {
        Scatterlist { page_link: 0, offset: 0, length: 0, dma_address: 0, dma_length: 0 }
    }

    /// Whether the entry is the last of its table.
    pub open spec fn is_last(self) -> bool {
        self.page_link & SG_END != 0
    }

    /// Whether the entry links to another table.
    pub open spec fn is_chain(self) -> bool {
        self.page_link & SG_CHAIN != 0
    }

    /// An entry with every field zero.
    pub fn new() -> (sg: Self)
        ensures
            sg == Self::zeroed(),
    {
        Scatterlist { page_link: 0, offset: 0, length: 0, dma_address: 0, dma_length: 0 }
    }

    /// Initialises the entry as a table of one entry: every field is cleared,
    /// then the entry is marked as the end of the table.
    pub fn init(&mut self)
        ensures
            final(self).page_link == SG_END,
            final(self).offset == 0,
            final(self).length == 0,
            final(self).dma_address == 0,
            final(self).dma_length == 0,
            final(self).is_last(),
            !final(self).is_chain(),
    {
        *self = Scatterlist::new();
        self.page_link = (self.page_link | SG_END) & !SG_CHAIN;
        assert(((0u64 | 0x02u64) & !0x01u64) == 0x02u64) by (bit_vector);
        assert((0x02u64 & 0x02u64) != 0u64 && (0x02u64 & 0x01u64) == 0u64) by (bit_vector);
    }
}

} // verus!
