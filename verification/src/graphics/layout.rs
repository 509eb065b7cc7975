//! Byte layout of the particle buffer: records of one fixed stride, laid end
//! to end, each with its fields at fixed offsets.

use vstd::prelude::*;

verus! {

/// Bytes from the start of one record to the start of the next.
pub const STRIDE: u64 = 32;

/// Offset of the two position components within a record.
pub const POSITION_OFFSET: u64 = 0;

/// Bytes taken by the position.
pub const POSITION_BYTES: u64 = 8;

/// Offset of the three colour components within a record.
pub const COLOR_OFFSET: u64 = 16;

/// Bytes taken by the colour.
pub const COLOR_BYTES: u64 = 12;

/// Offset of the point size within a record.
pub const SIZE_OFFSET: u64 = 28;

/// Bytes taken by the point size.
pub const SIZE_BYTES: u64 = 4;

/// Length in bytes of a buffer of `count` records.
pub open spec fn buffer_len(count: nat) -> nat {
    count * (STRIDE as nat)
}

/// Offset in bytes of record `index`.
pub open spec fn record_start(index: nat) -> nat {
    index * (STRIDE as nat)
}

/// Length in bytes of a buffer that holds `count` records.
pub fn buffer_bytes(count: u32) -> (bytes: u64)
    ensures
        bytes == buffer_len(count as nat),
{
    (count as u64) * STRIDE
}

/// Offset in bytes at which record `index` starts.
pub fn record_offset(index: u32) -> (offset: u64)
    ensures
        offset == record_start(index as nat),
{
    (index as u64) * STRIDE
}

/// Records do not overlap and none reaches past the end of the buffer: an
/// earlier record ends where or before a later one starts, and every record
/// of a buffer of `count` records ends within it.
pub proof fn lemma_records_tile(count: nat, i: nat, j: nat)
    requires
        i < j < count,
    ensures
        record_start(i) + STRIDE <= record_start(j),
        record_start(j) + STRIDE <= buffer_len(count),
{
}

/// A buffer of fewer records is no longer than one of more records.
pub proof fn lemma_buffer_len_monotonic(fewer: nat, more: nat)
    requires
        fewer <= more,
    ensures
        buffer_len(fewer) <= buffer_len(more),
{
}

} // verus!
