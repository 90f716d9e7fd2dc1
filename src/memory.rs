use vstd::prelude::*;

use crate::error::ExecutionError;

verus! {

/// Whether the `width` bytes starting at `address` all lie in a store of
/// `len` bytes.
pub open spec fn in_bounds(len: nat, address: u32, width: nat) -> bool {
    address + width <= len
}

/// The fault reported for an access at `address` that leaves `store`.
pub open spec fn out_of_bounds(store: Seq<u8>, address: u32) -> ExecutionError {
    ExecutionError::AddressOutOfBounds { address, memory_size: store.len() as usize }
}

/// The big-endian half-word at `address`.
pub open spec fn be_half(store: Seq<u8>, address: int) -> int {
    store[address] * 0x100 + store[address + 1]
}

/// The big-endian word at `address`.
pub open spec fn be_word(store: Seq<u8>, address: int) -> int {
    store[address] * 0x100_0000 + store[address + 1] * 0x1_0000 + store[address + 2] * 0x100
        + store[address + 3]
}

/// `store` with the half-word `value` written big-endian at `address`.
pub open spec fn put_half(store: Seq<u8>, address: int, value: u16) -> Seq<u8> {
    store.update(address, (value / 0x100) as u8).update(address + 1, (value % 0x100) as u8)
}

/// `store` with the word `value` written big-endian at `address`.
pub open spec fn put_word(store: Seq<u8>, address: int, value: u32) -> Seq<u8> {
    store.update(address, (value / 0x100_0000) as u8).update(
        address + 1,
        ((value / 0x1_0000) % 0x100) as u8,
    ).update(address + 2, ((value / 0x100) % 0x100) as u8).update(
        address + 3,
        (value % 0x100) as u8,
    )
}

/// Checks that `width` bytes at `address` lie inside a store of `len` bytes.
fn fits(len: usize, address: u32, width: usize) -> (r: bool)
    requires
        1 <= width <= 4,
    ensures
        r == in_bounds(len as nat, address, width as nat),
{
    let a = address as usize;
    a < len && len - a >= width
}

/// Checks that the `width` bytes at `address` lie in `store`, without
/// touching it.
pub fn check_bounds(store: &Vec<u8>, address: u32, width: usize) -> (r: Result<(), ExecutionError>)
    requires
        1 <= width <= 4,
    ensures
        in_bounds(store@.len(), address, width as nat) ==> r is Ok,
        !in_bounds(store@.len(), address, width as nat) ==> r == Err::<(), ExecutionError>(
            out_of_bounds(store@, address),
        ),
{
    if fits(store.len(), address, width) {
        Ok(())
    } else {
        Err(ExecutionError::AddressOutOfBounds { address, memory_size: store.len() })
    }
}

pub fn read_byte(store: &Vec<u8>, address: u32) -> (r: Result<u8, ExecutionError>)
    ensures
        in_bounds(store@.len(), address, 1) ==> r == Ok::<u8, ExecutionError>(
            store@[address as int],
        ),
        !in_bounds(store@.len(), address, 1) ==> r == Err::<u8, ExecutionError>(
            out_of_bounds(store@, address),
        ),
{
    if !fits(store.len(), address, 1) {
        return Err(ExecutionError::AddressOutOfBounds { address, memory_size: store.len() });
    }
    Ok(store[address as usize])
}

pub fn read_half(store: &Vec<u8>, address: u32) -> (r: Result<u16, ExecutionError>)
    ensures
        in_bounds(store@.len(), address, 2) ==> r is Ok && r->Ok_0 as int == be_half(
            store@,
            address as int,
        ),
        !in_bounds(store@.len(), address, 2) ==> r == Err::<u16, ExecutionError>(
            out_of_bounds(store@, address),
        ),
{
    if !fits(store.len(), address, 2) {
        return Err(ExecutionError::AddressOutOfBounds { address, memory_size: store.len() });
    }
    let a = address as usize;
    Ok((store[a] as u16) * 0x100 + (store[a + 1] as u16))
}

pub fn read_word(store: &Vec<u8>, address: u32) -> (r: Result<u32, ExecutionError>)
    ensures
        in_bounds(store@.len(), address, 4) ==> r is Ok && r->Ok_0 as int == be_word(
            store@,
            address as int,
        ),
        !in_bounds(store@.len(), address, 4) ==> r == Err::<u32, ExecutionError>(
            out_of_bounds(store@, address),
        ),
{
    if !fits(store.len(), address, 4) {
        return Err(ExecutionError::AddressOutOfBounds { address, memory_size: store.len() });
    }
    let a = address as usize;
    Ok((store[a] as u32) * 0x100_0000 + (store[a + 1] as u32) * 0x1_0000 + (store[a + 2] as u32)
        * 0x100 + (store[a + 3] as u32))
}

/// Writes one byte; a fault leaves the store as it was.
pub fn write_byte(store: &mut Vec<u8>, address: u32, value: u8) -> (r: Result<(), ExecutionError>)
    ensures
        in_bounds(old(store)@.len(), address, 1) ==> r is Ok && final(store)@ == old(
            store,
        )@.update(address as int, value),
        !in_bounds(old(store)@.len(), address, 1) ==> r == Err::<(), ExecutionError>(
            out_of_bounds(old(store)@, address),
        ) && final(store)@ == old(store)@,
{
    if !fits(store.len(), address, 1) {
        return Err(ExecutionError::AddressOutOfBounds { address, memory_size: store.len() });
    }
    store.set(address as usize, value);
    Ok(())
}

/// Writes a big-endian half-word; a fault leaves the store as it was.
pub fn write_half(store: &mut Vec<u8>, address: u32, value: u16) -> (r: Result<(), ExecutionError>)
    ensures
        in_bounds(old(store)@.len(), address, 2) ==> r is Ok && final(store)@ == put_half(
            old(store)@,
            address as int,
            value,
        ),
        !in_bounds(old(store)@.len(), address, 2) ==> r == Err::<(), ExecutionError>(
            out_of_bounds(old(store)@, address),
        ) && final(store)@ == old(store)@,
{
    if !fits(store.len(), address, 2) {
        return Err(ExecutionError::AddressOutOfBounds { address, memory_size: store.len() });
    }
    let a = address as usize;
    store.set(a, (value / 0x100) as u8);
    store.set(a + 1, (value % 0x100) as u8);
    Ok(())
}

/// Writes a big-endian word; a fault leaves the store as it was.
pub fn write_word(store: &mut Vec<u8>, address: u32, value: u32) -> (r: Result<(), ExecutionError>)
    ensures
        in_bounds(old(store)@.len(), address, 4) ==> r is Ok && final(store)@ == put_word(
            old(store)@,
            address as int,
            value,
        ),
        !in_bounds(old(store)@.len(), address, 4) ==> r == Err::<(), ExecutionError>(
            out_of_bounds(old(store)@, address),
        ) && final(store)@ == old(store)@,
{
    if !fits(store.len(), address, 4) {
        return Err(ExecutionError::AddressOutOfBounds { address, memory_size: store.len() });
    }
    let a = address as usize;
    store.set(a, (value / 0x100_0000) as u8);
    store.set(a + 1, ((value / 0x1_0000) % 0x100) as u8);
    store.set(a + 2, ((value / 0x100) % 0x100) as u8);
    store.set(a + 3, (value % 0x100) as u8);
    Ok(())
}

proof fn lemma_word_bytes(v: u32)
    by (bit_vector)
    ensures
        ((v / 0x100_0000) as u8) as u32 * 0x100_0000 + (((v / 0x1_0000) % 0x100) as u8) as u32
            * 0x1_0000 + (((v / 0x100) % 0x100) as u8) as u32 * 0x100 + ((v % 0x100) as u8) as u32
            == v,
{
}

/// Writing a word and reading it back at the same address gives the value
/// written, and the store keeps its size.
pub proof fn lemma_word_round_trip(store: Seq<u8>, address: u32, value: u32)
    requires
        in_bounds(store.len(), address, 4),
    ensures
        put_word(store, address as int, value).len() == store.len(),
        be_word(put_word(store, address as int, value), address as int) == value,
{
    lemma_word_bytes(value);
}

} // verus!
