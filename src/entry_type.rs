use vstd::prelude::*;

verus! {

/// Raw tag of a `Put` record, as the engine sends it.
pub const RAW_ENTRY_PUT: i32 = 0;
/// Raw tag of a `Delete` record.
pub const RAW_ENTRY_DELETE: i32 = 1;
/// Raw tag of a `SingleDelete` record.
pub const RAW_ENTRY_SINGLE_DELETE: i32 = 2;
/// Raw tag of a `Merge` record.
pub const RAW_ENTRY_MERGE: i32 = 3;
/// Raw tag of a `RangeDeletion` record.
pub const RAW_ENTRY_RANGE_DELETION: i32 = 4;
/// Raw tag of a `BlockIndex` record.
pub const RAW_ENTRY_BLOCK_INDEX: i32 = 5;
/// Raw tag of a `DeleteWithTimestamp` record.
pub const RAW_ENTRY_DELETE_WITH_TIMESTAMP: i32 = 6;
/// Raw tag of a `WideColumnEntity` record.
pub const RAW_ENTRY_WIDE_COLUMN_ENTITY: i32 = 7;
/// Raw tag of a `TimedPut` record.
pub const RAW_ENTRY_TIMED_PUT: i32 = 8;
/// Raw tag of any other record kind.
pub const RAW_ENTRY_OTHER: i32 = 9;

/// The kind of a record added to a table under construction.
#[derive(Debug, PartialEq, Eq, Structural, PartialOrd, Ord, Clone, Copy)]
pub enum EntryType {
    Put,
    Delete,
    SingleDelete,
    Merge,
    RangeDeletion,
    BlockIndex,
    DeleteWithTimestamp,
    WideColumnEntity,
    TimedPut,
    Other,
}

/// The raw tags the engine may send: exactly `0..=9`.
pub open spec fn is_valid_raw_entry_type(value: int) -> bool {
    0 <= value <= 9
}

/// The raw tag that stands for each record kind.
pub open spec fn raw_of(t: EntryType) -> int {
    match t {
        EntryType::Put => 0,
        EntryType::Delete => 1,
        EntryType::SingleDelete => 2,
        EntryType::Merge => 3,
        EntryType::RangeDeletion => 4,
        EntryType::BlockIndex => 5,
        EntryType::DeleteWithTimestamp => 6,
        EntryType::WideColumnEntity => 7,
        EntryType::TimedPut => 8,
        EntryType::Other => 9,
    }
}

/// The record kind that a valid raw tag decodes to.
pub open spec fn entry_type_of(value: int) -> EntryType
    recommends
        is_valid_raw_entry_type(value),
{
    if value == 0 {
        EntryType::Put
    } else if value == 1 {
        EntryType::Delete
    } else if value == 2 {
        EntryType::SingleDelete
    } else if value == 3 {
        EntryType::Merge
    } else if value == 4 {
        EntryType::RangeDeletion
    } else if value == 5 {
        EntryType::BlockIndex
    } else if value == 6 {
        EntryType::DeleteWithTimestamp
    } else if value == 7 {
        EntryType::WideColumnEntity
    } else if value == 8 {
        EntryType::TimedPut
    } else {
        EntryType::Other
    }
}

impl EntryType {
    /// Decodes a raw tag: `Some` of the matching kind for a tag in `0..=9`,
    /// `None` for a negative or unknown tag.
    pub fn from_raw(value: i32) -> (r: Option<EntryType>)
        ensures
            is_valid_raw_entry_type(value as int) <==> r.is_some(),
            is_valid_raw_entry_type(value as int) ==> r == Some(entry_type_of(value as int)),
    {
        if value < 0 {
            return None;
        }
        match value {
            RAW_ENTRY_PUT => Some(EntryType::Put),
            RAW_ENTRY_DELETE => Some(EntryType::Delete),
            RAW_ENTRY_SINGLE_DELETE => Some(EntryType::SingleDelete),
            RAW_ENTRY_MERGE => Some(EntryType::Merge),
            RAW_ENTRY_RANGE_DELETION => Some(EntryType::RangeDeletion),
            RAW_ENTRY_BLOCK_INDEX => Some(EntryType::BlockIndex),
            RAW_ENTRY_DELETE_WITH_TIMESTAMP => Some(EntryType::DeleteWithTimestamp),
            RAW_ENTRY_WIDE_COLUMN_ENTITY => Some(EntryType::WideColumnEntity),
            RAW_ENTRY_TIMED_PUT => Some(EntryType::TimedPut),
            RAW_ENTRY_OTHER => Some(EntryType::Other),
            _ => None,
        }
    }

    /// The raw tag of this kind.
    pub fn to_raw(&self) -> (r: i32)
        ensures
            r as int == raw_of(*self),
    {
        match self {
            EntryType::Put => RAW_ENTRY_PUT,
            EntryType::Delete => RAW_ENTRY_DELETE,
            EntryType::SingleDelete => RAW_ENTRY_SINGLE_DELETE,
            EntryType::Merge => RAW_ENTRY_MERGE,
            EntryType::RangeDeletion => RAW_ENTRY_RANGE_DELETION,
            EntryType::BlockIndex => RAW_ENTRY_BLOCK_INDEX,
            EntryType::DeleteWithTimestamp => RAW_ENTRY_DELETE_WITH_TIMESTAMP,
            EntryType::WideColumnEntity => RAW_ENTRY_WIDE_COLUMN_ENTITY,
            EntryType::TimedPut => RAW_ENTRY_TIMED_PUT,
            EntryType::Other => RAW_ENTRY_OTHER,
        }
    }
}

/// Every kind's raw tag is valid and decodes back to that kind, and every
/// valid tag is the raw tag of the kind it decodes to: the codec is a
/// bijection between the ten kinds and the tags `0..=9`.
pub proof fn lemma_entry_type_codec_bijective(t: EntryType, value: int)
    ensures
        is_valid_raw_entry_type(raw_of(t)),
        entry_type_of(raw_of(t)) == t,
        is_valid_raw_entry_type(value) ==> raw_of(entry_type_of(value)) == value,
{
}

} // verus!
