//! The cursor of miniblock and L1 batch progress, computed from what storage
//! holds of sealed blocks and of an applied snapshot.

use vstd::prelude::*;

verus! {

/// What the cursor reads of the last sealed miniblock.
#[derive(Clone, Copy, Debug, PartialEq, Eq)]
pub struct MiniblockHeader {
    pub number: u32,
    pub hash: [u8; 32],
    pub timestamp: u64,
}

/// What the cursor reads of an applied snapshot.
#[derive(Clone, Copy, Debug, PartialEq, Eq)]
pub struct SnapshotRecoveryStatus {
    pub l1_batch_number: u32,
    pub miniblock_number: u32,
    pub miniblock_hash: [u8; 32],
    pub miniblock_timestamp: u64,
}

/// Why no cursor could be made.
#[derive(Clone, Copy, Debug, PartialEq, Eq, Structural)]
pub enum CursorError {
    /// Storage contains neither blocks nor snapshot recovery information.
    NoBlocksOrSnapshot,
}

/// Cursor of the miniblock / L1 batch progress.
#[derive(Clone, Copy, Debug, PartialEq, Eq)]
pub struct IoCursor {
    pub next_miniblock: u32,
    pub prev_miniblock_hash: [u8; 32],
    pub prev_miniblock_timestamp: u64,
    pub l1_batch: u32,
}

impl IoCursor {
    /// Whether the snapshot has to be consulted: it has, unless storage holds
    /// both a sealed L1 batch and a sealed miniblock.
    pub open spec fn spec_needs_snapshot(
        last_sealed_l1_batch_number: Option<u32>,
        last_miniblock_header: Option<MiniblockHeader>,
    ) -> bool {
        last_sealed_l1_batch_number is None || last_miniblock_header is None
    }

    /// The number of the last L1 batch that the cursor builds on.
    pub open spec fn base_l1_batch(
        last_sealed_l1_batch_number: Option<u32>,
        snapshot_recovery: Option<SnapshotRecoveryStatus>,
    ) -> Option<u32> {
        match (last_sealed_l1_batch_number, snapshot_recovery) {
            (Some(number), _) => Some(number),
            (None, Some(snapshot)) => Some(snapshot.l1_batch_number),
            (None, None) => None,
        }
    }

    /// The last miniblock that the cursor builds on.
    pub open spec fn base_miniblock(
        last_miniblock_header: Option<MiniblockHeader>,
        snapshot_recovery: Option<SnapshotRecoveryStatus>,
    ) -> Option<MiniblockHeader> {
        match (last_miniblock_header, snapshot_recovery) {
            (Some(header), _) => Some(header),
            (None, Some(snapshot)) => Some(
                MiniblockHeader {
                    number: snapshot.miniblock_number,
                    hash: snapshot.miniblock_hash,
                    timestamp: snapshot.miniblock_timestamp,
                },
            ),
            (None, None) => None,
        }
    }

    /// The cursor for the given storage contents: it follows the last sealed
    /// batch and miniblock, and where storage lacks one of them, the
    /// snapshot stands in for it.
    pub open spec fn spec_new(
        last_sealed_l1_batch_number: Option<u32>,
        last_miniblock_header: Option<MiniblockHeader>,
        snapshot_recovery: Option<SnapshotRecoveryStatus>,
    ) -> Result<IoCursor, CursorError> {
        if Self::spec_needs_snapshot(last_sealed_l1_batch_number, last_miniblock_header)
            && snapshot_recovery is None {
            Err(CursorError::NoBlocksOrSnapshot)
        } else {
            let batch = Self::base_l1_batch(last_sealed_l1_batch_number, snapshot_recovery).unwrap();
            let miniblock = Self::base_miniblock(last_miniblock_header, snapshot_recovery).unwrap();
            Ok(
                IoCursor {
                    next_miniblock: (miniblock.number + 1) as u32,
                    prev_miniblock_hash: miniblock.hash,
                    prev_miniblock_timestamp: miniblock.timestamp,
                    l1_batch: (batch + 1) as u32,
                },
            )
        }
    }

    /// Whether the snapshot has to be read before a cursor can be made.
    pub fn needs_snapshot(
        last_sealed_l1_batch_number: Option<u32>,
        last_miniblock_header: &Option<MiniblockHeader>,
    ) -> (needed: bool)
        ensures
            needed == Self::spec_needs_snapshot(last_sealed_l1_batch_number, *last_miniblock_header),
    {
        last_sealed_l1_batch_number.is_none() || last_miniblock_header.is_none()
    }

    /// Makes the cursor from what storage holds. The numbers it builds on
    /// must have a successor.
    pub fn new(
        last_sealed_l1_batch_number: Option<u32>,
        last_miniblock_header: Option<MiniblockHeader>,
        snapshot_recovery: Option<SnapshotRecoveryStatus>,
    ) -> (res: Result<IoCursor, CursorError>)
        requires
            Self::base_l1_batch(last_sealed_l1_batch_number, snapshot_recovery) is Some
                ==> Self::base_l1_batch(last_sealed_l1_batch_number, snapshot_recovery).unwrap()
                < u32::MAX,
            Self::base_miniblock(last_miniblock_header, snapshot_recovery) is Some
                ==> Self::base_miniblock(last_miniblock_header, snapshot_recovery).unwrap().number
                < u32::MAX,
        ensures
            res == Self::spec_new(
                last_sealed_l1_batch_number,
                last_miniblock_header,
                snapshot_recovery,
            ),
    {
        match (last_sealed_l1_batch_number, last_miniblock_header) {
            (Some(l1_batch_number), Some(miniblock_header)) => Ok(
                IoCursor {
                    next_miniblock: miniblock_header.number + 1,
                    prev_miniblock_hash: miniblock_header.hash,
                    prev_miniblock_timestamp: miniblock_header.timestamp,
                    l1_batch: l1_batch_number + 1,
                },
            ),
            (last_batch, last_header) => {
                let snapshot = match snapshot_recovery {
                    Some(snapshot) => snapshot,
                    None => {
                        return Err(CursorError::NoBlocksOrSnapshot);
                    },
                };
                let l1_batch: u32 = match last_batch {
                    Some(number) => number + 1,
                    None => snapshot.l1_batch_number + 1,
                };
                match last_header {
                    Some(miniblock_header) => Ok(
                        IoCursor {
                            next_miniblock: miniblock_header.number + 1,
                            prev_miniblock_hash: miniblock_header.hash,
                            prev_miniblock_timestamp: miniblock_header.timestamp,
                            l1_batch,
                        },
                    ),
                    None => Ok(
                        IoCursor {
                            next_miniblock: snapshot.miniblock_number + 1,
                            prev_miniblock_hash: snapshot.miniblock_hash,
                            prev_miniblock_timestamp: snapshot.miniblock_timestamp,
                            l1_batch,
                        },
                    ),
                }
            },
        }
    }
}

} // verus!
