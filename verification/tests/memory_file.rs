use disk_manager::file::HeapFile;
use disk_manager::memory::{MemoryFault, MemoryFile};

#[test]
fn new_memory_file_is_empty() {
    let file = MemoryFile::new(100);
    assert_eq!(file.len(), Ok(0));
    assert_eq!(file.into_bytes(), Vec::<u8>::new());
}

#[test]
fn with_contents_keeps_the_bytes() {
    let file = MemoryFile::with_contents(vec![1, 2, 3], 100);
    assert_eq!(file.len(), Ok(3));
    assert_eq!(file.into_bytes(), vec![1, 2, 3]);
}

#[test]
fn read_exact_takes_bytes_at_the_cursor_and_moves_on() {
    let mut file = MemoryFile::with_contents(vec![10, 11, 12, 13, 14, 15], 100);
    let mut two = [0u8; 2];
    assert_eq!(file.seek(1), Ok(()));
    assert_eq!(file.read_exact(&mut two), Ok(()));
    assert_eq!(two, [11, 12]);
    assert_eq!(file.read_exact(&mut two), Ok(()));
    assert_eq!(two, [13, 14]);
}

#[test]
fn read_exact_up_to_the_last_byte_succeeds() {
    let mut file = MemoryFile::with_contents(vec![10, 11, 12], 100);
    let mut all = [0u8; 3];
    assert_eq!(file.read_exact(&mut all), Ok(()));
    assert_eq!(all, [10, 11, 12]);
}

#[test]
fn read_exact_past_the_end_fails_and_leaves_the_buffer() {
    let mut file = MemoryFile::with_contents(vec![10, 11, 12], 100);
    let mut two = [7u8; 2];
    assert_eq!(file.seek(2), Ok(()));
    assert_eq!(file.read_exact(&mut two), Err(MemoryFault::EndOfFile));
    assert_eq!(two, [7, 7]);
    // The cursor has not moved: one byte can still be read there.
    let mut one = [0u8; 1];
    assert_eq!(file.read_exact(&mut one), Ok(()));
    assert_eq!(one, [12]);
}

#[test]
fn read_exact_with_the_cursor_past_the_end_fails() {
    let mut file = MemoryFile::with_contents(vec![10, 11, 12], 100);
    let mut one = [7u8; 1];
    assert_eq!(file.seek(u64::MAX), Ok(()));
    assert_eq!(file.read_exact(&mut one), Err(MemoryFault::EndOfFile));
    assert_eq!(one, [7]);
}

#[test]
fn write_all_appends_at_the_end() {
    let mut file = MemoryFile::new(100);
    assert_eq!(file.write_all(&[1, 2]), Ok(()));
    assert_eq!(file.write_all(&[3]), Ok(()));
    assert_eq!(file.len(), Ok(3));
    assert_eq!(file.into_bytes(), vec![1, 2, 3]);
}

#[test]
fn write_all_overwrites_in_the_middle() {
    let mut file = MemoryFile::with_contents(vec![1, 2, 3, 4, 5], 100);
    assert_eq!(file.seek(1), Ok(()));
    assert_eq!(file.write_all(&[8, 9]), Ok(()));
    assert_eq!(file.into_bytes(), vec![1, 8, 9, 4, 5]);
}

#[test]
fn write_all_across_the_end_overwrites_and_extends() {
    let mut file = MemoryFile::with_contents(vec![1, 2, 3], 100);
    assert_eq!(file.seek(2), Ok(()));
    assert_eq!(file.write_all(&[8, 9]), Ok(()));
    assert_eq!(file.into_bytes(), vec![1, 2, 8, 9]);
}

#[test]
fn write_all_past_the_end_fills_the_gap_with_zeros() {
    let mut file = MemoryFile::with_contents(vec![1, 2], 100);
    assert_eq!(file.seek(5), Ok(()));
    assert_eq!(file.write_all(&[8, 9]), Ok(()));
    assert_eq!(file.into_bytes(), vec![1, 2, 0, 0, 0, 8, 9]);
}

#[test]
fn write_all_of_nothing_changes_nothing() {
    let mut file = MemoryFile::with_contents(vec![1, 2], 100);
    assert_eq!(file.seek(50), Ok(()));
    assert_eq!(file.write_all(&[]), Ok(()));
    assert_eq!(file.into_bytes(), vec![1, 2]);
}

#[test]
fn write_all_up_to_the_capacity_succeeds() {
    let mut file = MemoryFile::new(4);
    assert_eq!(file.seek(2), Ok(()));
    assert_eq!(file.write_all(&[8, 9]), Ok(()));
    assert_eq!(file.into_bytes(), vec![0, 0, 8, 9]);
}

#[test]
fn write_all_past_the_capacity_fails_and_changes_nothing() {
    let mut file = MemoryFile::with_contents(vec![1, 2, 3], 4);
    assert_eq!(file.seek(3), Ok(()));
    assert_eq!(file.write_all(&[8, 9]), Err(MemoryFault::NoSpace));
    assert_eq!(file.len(), Ok(3));
    // The cursor has not moved: one byte still fits there.
    assert_eq!(file.write_all(&[7]), Ok(()));
    assert_eq!(file.into_bytes(), vec![1, 2, 3, 7]);
}

#[test]
fn write_all_with_the_cursor_at_the_greatest_offset_fails() {
    let mut file = MemoryFile::new(usize::MAX);
    assert_eq!(file.seek(u64::MAX), Ok(()));
    assert_eq!(file.write_all(&[1]), Err(MemoryFault::NoSpace));
    assert_eq!(file.len(), Ok(0));
}

#[test]
fn bytes_past_the_capacity_can_be_read_but_not_written() {
    let mut file = MemoryFile::with_contents(vec![1, 2, 3, 4], 2);
    let mut one = [0u8; 1];
    assert_eq!(file.seek(3), Ok(()));
    assert_eq!(file.read_exact(&mut one), Ok(()));
    assert_eq!(one, [4]);
    assert_eq!(file.seek(3), Ok(()));
    assert_eq!(file.write_all(&[9]), Err(MemoryFault::NoSpace));
    assert_eq!(file.seek(1), Ok(()));
    assert_eq!(file.write_all(&[9]), Ok(()));
    assert_eq!(file.into_bytes(), vec![1, 9, 3, 4]);
}
