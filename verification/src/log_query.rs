//! A storage log query as the node records it.

use vstd::prelude::*;

verus! {

/// The VM timestamp.
#[derive(Clone, Copy, Debug, PartialEq, Eq, Hash, Structural)]
pub struct Timestamp(pub u32);

impl Timestamp {
    /// The timestamp with the given counter.
    pub fn new(value: u32) -> (timestamp: Self)
        ensures
            timestamp.0 == value,
    {
        Timestamp(value)
    }

    /// The counter of the timestamp.
    pub fn value(&self) -> (value: u32)
        ensures
            value == self.0,
    {
        self.0
    }
}

/// One read or write of a storage slot. The address is held as its 20 bytes,
/// each 256-bit word as four 64-bit limbs, least significant first.
#[derive(Clone, Copy, Debug, PartialEq, Eq, Hash)]
pub struct LogQuery {
    pub timestamp: Timestamp,
    pub tx_number_in_block: u16,
    pub aux_byte: u8,
    pub shard_id: u8,
    pub address: [u8; 20],
    pub key: [u64; 4],
    pub read_value: [u64; 4],
    pub written_value: [u64; 4],
    pub rw_flag: bool,
    pub rollback: bool,
    pub is_service: bool,
}

} // verus!
