use disk_manager::page::{PageId, PAGE_SIZE};

#[test]
fn page_size_is_4096() {
    assert_eq!(PAGE_SIZE, 4096);
}

#[test]
fn invalid_page_id_is_the_greatest_index() {
    assert_eq!(PageId::INVALID_PAGE_ID, u64::MAX);
    assert_eq!(PageId(PageId::INVALID_PAGE_ID).to_u64(), u64::MAX);
}

#[test]
fn to_u64_gives_the_index() {
    assert_eq!(PageId(0).to_u64(), 0);
    assert_eq!(PageId(7).to_u64(), 7);
    assert_eq!(PageId(1 << 40).to_u64(), 1 << 40);
}

#[test]
fn page_ids_compare_by_index() {
    assert_eq!(PageId(3), PageId(3));
    assert_ne!(PageId(3), PageId(4));
}
