use lib::scatterlist::{Scatterlist, SG_CHAIN, SG_END};

#[test]
fn new_entry_is_zeroed() {
    let sg = Scatterlist::new();
    assert_eq!(sg.page_link, 0);
    assert_eq!(sg.offset, 0);
    assert_eq!(sg.length, 0);
    assert_eq!(sg.dma_address, 0);
    assert_eq!(sg.dma_length, 0);
}

#[test]
fn init_clears_and_marks_the_end() {
    let mut sg = Scatterlist {
        page_link: 0xdead_beef | SG_CHAIN,
        offset: 12,
        length: 4096,
        dma_address: 0x1000,
        dma_length: 4096,
    };
    sg.init();
    assert_eq!(sg.page_link, SG_END);
    assert_eq!(sg.page_link & SG_CHAIN, 0);
    assert_ne!(sg.page_link & SG_END, 0);
    assert_eq!(sg.offset, 0);
    assert_eq!(sg.length, 0);
    assert_eq!(sg.dma_address, 0);
    assert_eq!(sg.dma_length, 0);
}

#[test]
fn init_of_a_new_entry_is_a_one_entry_table() {
    let mut sg = Scatterlist::new();
    sg.init();
    assert_eq!(sg.page_link, 0x02);
}
