use pipeline_emulator::error::ExecutionError;
use pipeline_emulator::memory::{
    check_bounds, read_byte, read_half, read_word, write_byte, write_half, write_word,
};

#[test]
fn word_round_trip_is_big_endian() {
    let mut store = vec![0u8; 8];
    assert_eq!(write_word(&mut store, 4, 0x1234_5678), Ok(()));
    assert_eq!(read_word(&store, 4), Ok(0x1234_5678));
    assert_eq!(store, vec![0, 0, 0, 0, 0x12, 0x34, 0x56, 0x78]);
    assert_eq!(read_half(&store, 5), Ok(0x3456));
    assert_eq!(read_byte(&store, 7), Ok(0x78));
}

#[test]
fn half_and_byte_writes() {
    let mut store = vec![0u8; 4];
    assert_eq!(write_half(&mut store, 1, 0xABCD), Ok(()));
    assert_eq!(store, vec![0, 0xAB, 0xCD, 0]);
    assert_eq!(write_byte(&mut store, 3, 0xEF), Ok(()));
    assert_eq!(read_word(&store, 0), Ok(0x00AB_CDEF));
}

#[test]
fn accesses_past_the_end_fault_without_writing() {
    let mut store = vec![1u8, 2, 3, 4, 5, 6];
    let oob = |address| ExecutionError::AddressOutOfBounds { address, memory_size: 6 };
    assert_eq!(read_word(&store, 3), Err(oob(3)));
    assert_eq!(read_word(&store, 2), Ok(0x0304_0506));
    assert_eq!(read_byte(&store, 6), Err(oob(6)));
    assert_eq!(read_half(&store, 5), Err(oob(5)));
    assert_eq!(read_word(&store, u32::MAX), Err(oob(u32::MAX)));
    assert_eq!(write_word(&mut store, 4, 0xFFFF_FFFF), Err(oob(4)));
    assert_eq!(write_half(&mut store, 6, 0xFFFF), Err(oob(6)));
    assert_eq!(write_byte(&mut store, 100, 0xFF), Err(oob(100)));
    assert_eq!(store, vec![1u8, 2, 3, 4, 5, 6]);
    assert_eq!(check_bounds(&store, 5, 1), Ok(()));
    assert_eq!(check_bounds(&store, 5, 2), Err(oob(5)));
}
