use vstd::prelude::*;
use crate::state::Action;
use crate::LoadError;

verus! {

/// The number of entries of the value table: one per combination of grid
/// position and action, 50 * 50 * 3 * 3.
pub const VALUE_COUNT: usize = 22500;

/// The exact length of a value-table blob: eight bytes per entry.
pub const VALUE_BLOB_BYTES: usize = 180000;

/// The 64-bit pattern stored at `off` in little-endian byte order.
pub open spec fn le_u64_at(s: Seq<u8>, off: int) -> int {
    s[off] + 0x100 * s[off + 1] + 0x1_0000 * s[off + 2] + 0x100_0000 * s[off + 3] + 0x1_0000_0000
        * s[off + 4] + 0x100_0000_0000 * s[off + 5] + 0x1_0000_0000_0000 * s[off + 6]
        + 0x100_0000_0000_0000 * s[off + 7]
}

/// The flat table index of a (position, action) combination.  This layout
/// is a fixed contract with the producer of the blob: x varies fastest,
/// then y, then the x acceleration shifted into {0, 1, 2}, then the y
/// acceleration.
pub open spec fn value_index(p: (i32, i32), a: Action) -> int {
    p.0 + 50 * p.1 + 2500 * (a.xacc + 1) + 7500 * (a.yacc + 1)
}

/// Reads the 64-bit little-endian pattern stored at `off`.
fn read_u64_le(bytes: &Vec<u8>, off: usize) -> (r: u64)
    requires
        off + 8 <= bytes@.len(),
    ensures
        r == le_u64_at(bytes@, off as int),
{
    let n = bytes.len();
    assert(off + 8 <= n);
    let b0 = bytes[off] as u64;
    let b1 = bytes[off + 1] as u64;
    let b2 = bytes[off + 2] as u64;
    let b3 = bytes[off + 3] as u64;
    let b4 = bytes[off + 4] as u64;
    let b5 = bytes[off + 5] as u64;
    let b6 = bytes[off + 6] as u64;
    let b7 = bytes[off + 7] as u64;
    b0 + 0x100 * b1 + 0x1_0000 * b2 + 0x100_0000 * b3 + 0x1_0000_0000 * b4 + 0x100_0000_0000 * b5
        + 0x1_0000_0000_0000 * b6 + 0x100_0000_0000_0000 * b7
}

/// The immutable table of estimated returns, one 64-bit float pattern per
/// (position, action) combination.
pub struct ValueTable {
    values: Vec<u64>,
}

impl ValueTable {
    /// The stored float patterns, by flat table index.
    pub closed spec fn values(&self) -> Seq<u64> {
        self.values@
    }

    /// One entry per (position, action) combination.
    pub open spec fn wf(&self) -> bool {
        self.values().len() == VALUE_COUNT
    }

    /// Builds the table from a value blob.  Accepts exactly the blobs of
    /// the right length; every eight-byte group decodes, little-endian,
    /// to one stored pattern.
    pub fn load(bytes: &Vec<u8>) -> (r: Result<ValueTable, LoadError>)
        ensures
            r is Ok <==> bytes@.len() == VALUE_BLOB_BYTES,
            r is Err ==> r == Err::<ValueTable, LoadError>(LoadError::ValueLength),
            r is Ok ==> (r->Ok_0).wf(),
            r is Ok ==> forall|i: int|
                0 <= i < VALUE_COUNT ==> (r->Ok_0).values()[i] == le_u64_at(bytes@, 8 * i),
    {
        if bytes.len() != VALUE_BLOB_BYTES {
            return Err(LoadError::ValueLength);
        }
        let mut values: Vec<u64> = Vec::new();
        let mut i: usize = 0;
        while i < VALUE_COUNT
            invariant
                i <= VALUE_COUNT,
                bytes@.len() == VALUE_BLOB_BYTES,
                values@.len() == i,
                forall|j: int| 0 <= j < i ==> values@[j] == le_u64_at(bytes@, 8 * j),
            decreases VALUE_COUNT - i,
        {
            values.push(read_u64_le(bytes, 8 * i));
            i += 1;
        }
        Ok(ValueTable { values })
    }

    /// The stored pattern for one (position, action) combination.  Callers
    /// keep both in their documented ranges; the greedy selector does.
    pub fn get(&self, position: (i32, i32), action: Action) -> (r: u64)
        requires
            self.wf(),
            0 <= position.0 < 50,
            0 <= position.1 < 50,
            action.wf(),
        ensures
            r == self.values()[value_index(position, action)],
    {
        let idx = position.0 + 50 * position.1 + 2500 * (action.xacc + 1) + 7500 * (action.yacc
            + 1);
        self.values[idx as usize]
    }
}

} // verus!
