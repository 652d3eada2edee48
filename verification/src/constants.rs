//! The byte layout of the two records and the size of the ring.

use vstd::prelude::*;

verus! {

/// Number of slots of the ring: the capacity that every index-state record states.
pub const SUM_OF_INFO_CELLS: u8 = 12;

/// Length of an index-state record: position, capacity.
pub const INDEX_STATE_CELL_DATA_LEN: usize = 2;

/// Length of an info record: position, kind, content.
pub const INFO_CELL_DATA_LEN: usize = 10;

/// Length of the part of an info record that precedes its content.
pub const INFO_CELL_META_LEN: usize = 2;

/// Length of the content of an info record, a big-endian `u64`.
pub const INFO_CELL_CONTENT_LEN: usize = 8;

/// Offset of the kind within an info record.
pub const INFO_CELL_META_TYPE_POS: usize = 1;

/// What the content of an info record means.
#[derive(Debug, PartialEq, Eq, Copy, Clone, Structural)]
pub enum DataType {
    /// An opaque payload, on which no rule bears.
    Arbitrage,
    /// Seconds since the epoch.
    Timestamp,
    /// A block height.
    BlockNumber,
}

impl DataType {
    /// The byte that stands for this kind in an info record.
    pub open spec fn spec_to_u8(self) -> u8 {
        match self {
            DataType::Arbitrage => 0,
            DataType::Timestamp => 1,
            DataType::BlockNumber => 2,
        }
    }

    /// The kind that a byte of an info record stands for, if any.
    pub open spec fn spec_from_u8(tag: u8) -> Option<DataType> {
        if tag == 0 {
            Some(DataType::Arbitrage)
        } else if tag == 1 {
            Some(DataType::Timestamp)
        } else if tag == 2 {
            Some(DataType::BlockNumber)
        } else {
            None
        }
    }

    /// Encodes a kind as the byte of an info record.
    #[verifier::when_used_as_spec(spec_to_u8)]
    pub fn to_u8(self) -> (tag: u8)
        ensures
            tag == self.spec_to_u8(),
    {
        match self {
            DataType::Arbitrage => 0,
            DataType::Timestamp => 1,
            DataType::BlockNumber => 2,
        }
    }

    /// Decodes the kind byte of an info record; `None` for a byte that names no kind.
    #[verifier::when_used_as_spec(spec_from_u8)]
    pub fn from_u8(tag: u8) -> (kind: Option<DataType>)
        ensures
            kind == DataType::spec_from_u8(tag),
    {
        if tag == 0 {
            Some(DataType::Arbitrage)
        } else if tag == 1 {
            Some(DataType::Timestamp)
        } else if tag == 2 {
            Some(DataType::BlockNumber)
        } else {
            None
        }
    }

    /// Decoding undoes encoding, and only three bytes name a kind.
    pub proof fn lemma_tag_round_trip(kind: DataType, tag: u8)
        ensures
            DataType::spec_from_u8(kind.spec_to_u8()) == Some(kind),
            DataType::spec_from_u8(tag) == Some(kind) <==> tag == kind.spec_to_u8(),
            DataType::spec_from_u8(tag) is Some <==> tag <= 2,
    {
    }
}

} // verus!
