use vstd::prelude::*;
use vstd::arithmetic::div_mod::{lemma_fundamental_div_mod, lemma_fundamental_div_mod_converse};
use crate::LoadError;

verus! {

/// The classification of one grid cell.
#[derive(Copy, Clone, PartialEq, Eq, Structural, Debug)]
pub enum TrackPoint {
    Boundary,
    End,
    Beginning,
    Empty,
}

/// The number of cells of the whole 50x50 grid, and so the exact length
/// of a track blob.
pub const TRACK_BYTES: usize = 2500;

/// The cell classification a blob byte denotes.  Only bytes up to 3 occur
/// in a blob that `TrackMap::load` accepts.
pub open spec fn point_of_byte(b: u8) -> TrackPoint {
    if b == 0 {
        TrackPoint::Boundary
    } else if b == 1 {
        TrackPoint::End
    } else if b == 2 {
        TrackPoint::Beginning
    } else {
        TrackPoint::Empty
    }
}

/// The blob byte that denotes a cell classification; the inverse of
/// `point_of_byte` on the bytes 0 through 3.
pub open spec fn byte_of_point(p: TrackPoint) -> u8 {
    match p {
        TrackPoint::Boundary => 0,
        TrackPoint::End => 1,
        TrackPoint::Beginning => 2,
        TrackPoint::Empty => 3,
    }
}

/// A well-formed track blob: exactly one byte per cell, each denoting a
/// classification.
pub open spec fn track_bytes_ok(s: Seq<u8>) -> bool {
    &&& s.len() == TRACK_BYTES
    &&& forall|i: int| 0 <= i < s.len() ==> s[i] <= 3
}

/// The row-major cell index of a grid position: x within a row, rows
/// stacked by y.
pub open spec fn cell_index(p: (i32, i32)) -> int {
    p.0 + 50 * p.1
}

/// The grid position of a row-major cell index.
pub open spec fn pos_of_index(idx: int) -> (i32, i32) {
    ((idx % 50) as i32, (idx / 50) as i32)
}

/// The start positions collected from the first `n` cells of a row-major
/// scan: every cell classified Beginning contributes its position, in
/// scan order.
pub open spec fn starts_prefix(cells: Seq<TrackPoint>, n: int) -> Seq<(i32, i32)>
    decreases n,
{
    if n <= 0 {
        Seq::empty()
    } else if cells[n - 1] == TrackPoint::Beginning {
        starts_prefix(cells, n - 1).push(pos_of_index(n - 1))
    } else {
        starts_prefix(cells, n - 1)
    }
}

/// How often a position occurs in a list of positions.
pub open spec fn count_pos(s: Seq<(i32, i32)>, p: (i32, i32)) -> nat
    decreases s.len(),
{
    if s.len() == 0 {
        0
    } else {
        count_pos(s.drop_last(), p) + (if s.last() == p { 1nat } else { 0nat })
    }
}

/// The immutable 50x50 classification grid, together with the derived
/// list of start positions in row-major scan order.
pub struct TrackMap {
    cells: Vec<TrackPoint>,
    starts: Vec<(i32, i32)>,
}

impl TrackMap {
    /// The classification of every cell, by row-major index.
    pub closed spec fn cells(&self) -> Seq<TrackPoint> {
        self.cells@
    }

    /// The positions classified Beginning, in row-major scan order.
    pub closed spec fn starts(&self) -> Seq<(i32, i32)> {
        self.starts@
    }

    /// One cell per grid position, and the start list is exactly the
    /// row-major scan of the Beginning cells.
    pub open spec fn wf(&self) -> bool {
        &&& self.cells().len() == TRACK_BYTES
        &&& self.starts() == starts_prefix(self.cells(), TRACK_BYTES as int)
    }

    /// Builds the grid from a track blob.  Accepts exactly the well-formed
    /// blobs; rejects a wrong length before looking at any byte, and a bad
    /// byte otherwise.
    pub fn load(bytes: &Vec<u8>) -> (r: Result<TrackMap, LoadError>)
        ensures
            r is Ok <==> track_bytes_ok(bytes@),
            r is Ok ==> (r->Ok_0).wf(),
            r is Ok ==> forall|i: int|
                0 <= i < TRACK_BYTES ==> (r->Ok_0).cells()[i] == point_of_byte(bytes@[i]),
            bytes@.len() != TRACK_BYTES ==> r == Err::<TrackMap, LoadError>(LoadError::TrackLength),
            bytes@.len() == TRACK_BYTES && !track_bytes_ok(bytes@) ==> r == Err::<
                TrackMap,
                LoadError,
            >(LoadError::TrackByte),
    {
        if bytes.len() != TRACK_BYTES {
            return Err(LoadError::TrackLength);
        }
        let mut cells: Vec<TrackPoint> = Vec::new();
        let mut i: usize = 0;
        while i < TRACK_BYTES
            invariant
                i <= TRACK_BYTES,
                bytes@.len() == TRACK_BYTES,
                cells@.len() == i,
                forall|j: int| 0 <= j < i ==> bytes@[j] <= 3,
                forall|j: int| 0 <= j < i ==> cells@[j] == point_of_byte(bytes@[j]),
            decreases TRACK_BYTES - i,
        {
            let b = bytes[i];
            if b > 3 {
                return Err(LoadError::TrackByte);
            }
            let p = if b == 0 {
                TrackPoint::Boundary
            } else if b == 1 {
                TrackPoint::End
            } else if b == 2 {
                TrackPoint::Beginning
            } else {
                TrackPoint::Empty
            };
            cells.push(p);
            i += 1;
        }
        let mut starts: Vec<(i32, i32)> = Vec::new();
        let mut idx: usize = 0;
        while idx < TRACK_BYTES
            invariant
                idx <= TRACK_BYTES,
                cells@.len() == TRACK_BYTES,
                starts@ == starts_prefix(cells@, idx as int),
            decreases TRACK_BYTES - idx,
        {
            if cells[idx] == TrackPoint::Beginning {
                let x = (idx % 50) as i32;
                let y = (idx / 50) as i32;
                starts.push((x, y));
                assert(starts@ == starts_prefix(cells@, idx + 1));
            }
            idx += 1;
        }
        Ok(TrackMap { cells, starts })
    }

    /// The classification of one grid position.  Callers validate the
    /// bounds; the physics step does so before every call.
    pub fn classify(&self, position: (i32, i32)) -> (r: TrackPoint)
        requires
            self.wf(),
            0 <= position.0 < 50,
            0 <= position.1 < 50,
        ensures
            r == self.cells()[cell_index(position)],
    {
        self.cells[(position.0 + 50 * position.1) as usize]
    }

    /// Serializes the grid back to the blob byte codes, cell by cell.
    pub fn to_bytes(&self) -> (r: Vec<u8>)
        requires
            self.wf(),
        ensures
            r@.len() == TRACK_BYTES,
            forall|i: int| 0 <= i < TRACK_BYTES ==> r@[i] == byte_of_point(self.cells()[i]),
    {
        let mut out: Vec<u8> = Vec::new();
        let mut i: usize = 0;
        while i < TRACK_BYTES
            invariant
                i <= TRACK_BYTES,
                self.wf(),
                out@.len() == i,
                forall|j: int| 0 <= j < i ==> out@[j] == byte_of_point(self.cells()[j]),
            decreases TRACK_BYTES - i,
        {
            let b: u8 = match self.cells[i] {
                TrackPoint::Boundary => 0,
                TrackPoint::End => 1,
                TrackPoint::Beginning => 2,
                TrackPoint::Empty => 3,
            };
            out.push(b);
            i += 1;
        }
        out
    }

    /// How many start positions the grid has.
    pub fn start_count(&self) -> (n: usize)
        ensures
            n == self.starts().len(),
    {
        self.starts.len()
    }

    /// The start position at one index of the scan-ordered list.
    pub fn start_at(&self, i: usize) -> (p: (i32, i32))
        requires
            i < self.starts().len(),
        ensures
            p == self.starts()[i as int],
    {
        self.starts[i]
    }
}

/// For an in-bounds position, the row-major index and the position are
/// inverse to one another.
proof fn lemma_cell_index_inverse(p: (i32, i32))
    requires
        0 <= p.0 < 50,
        0 <= p.1 < 50,
    ensures
        0 <= cell_index(p) < 2500,
        pos_of_index(cell_index(p)) == p,
{
    lemma_fundamental_div_mod_converse(cell_index(p), 50, p.1 as int, p.0 as int);
}

/// Appending one element raises the count of exactly that element.
proof fn lemma_count_push(s: Seq<(i32, i32)>, e: (i32, i32), p: (i32, i32))
    ensures
        count_pos(s.push(e), p) == count_pos(s, p) + (if e == p { 1nat } else { 0nat }),
{
    assert(s.push(e).drop_last() =~= s);
    assert(s.push(e).last() == e);
}

/// Over the first `n` cells of the scan, an in-bounds position is
/// collected exactly once if its cell was scanned and is Beginning, and
/// never otherwise.
proof fn lemma_starts_prefix_count(cells: Seq<TrackPoint>, n: int, p: (i32, i32))
    requires
        cells.len() == 2500,
        0 <= n <= 2500,
        0 <= p.0 < 50,
        0 <= p.1 < 50,
    ensures
        count_pos(starts_prefix(cells, n), p) == (if cell_index(p) < n && cells[cell_index(p)]
            == TrackPoint::Beginning {
            1nat
        } else {
            0nat
        }),
    decreases n,
{
    lemma_cell_index_inverse(p);
    if n > 0 {
        lemma_starts_prefix_count(cells, n - 1, p);
        if cells[n - 1] == TrackPoint::Beginning {
            lemma_count_push(starts_prefix(cells, n - 1), pos_of_index(n - 1), p);
            lemma_fundamental_div_mod(n - 1, 50);
            if pos_of_index(n - 1) == p {
                assert(cell_index(p) == n - 1);
            } else {
                assert(cell_index(p) != n - 1);
            }
        }
    }
}

/// Every collected start position is in bounds and names a Beginning cell.
proof fn lemma_starts_prefix_elems(cells: Seq<TrackPoint>, n: int)
    requires
        cells.len() == 2500,
        0 <= n <= 2500,
    ensures
        forall|i: int|
            0 <= i < starts_prefix(cells, n).len() ==> {
                let p = #[trigger] starts_prefix(cells, n)[i];
                &&& 0 <= p.0 < 50
                &&& 0 <= p.1 < 50
                &&& cells[cell_index(p)] == TrackPoint::Beginning
            },
    decreases n,
{
    if n > 0 {
        lemma_starts_prefix_elems(cells, n - 1);
        if cells[n - 1] == TrackPoint::Beginning {
            lemma_fundamental_div_mod(n - 1, 50);
            let q = pos_of_index(n - 1);
            assert(cell_index(q) == n - 1);
            assert(0 <= q.0 < 50 && 0 <= q.1 < 50);
        }
    }
}

/// Law: a position is classified Beginning exactly when it occurs in the
/// start-position list exactly once.
pub proof fn lemma_beginning_iff_start_once(m: &TrackMap, p: (i32, i32))
    requires
        m.wf(),
        0 <= p.0 < 50,
        0 <= p.1 < 50,
    ensures
        (m.cells()[cell_index(p)] == TrackPoint::Beginning) <==> count_pos(m.starts(), p) == 1,
{
    lemma_starts_prefix_count(m.cells(), 2500, p);
    lemma_cell_index_inverse(p);
}

/// Every entry of the start-position list is an in-bounds position whose
/// cell is classified Beginning.
pub proof fn lemma_start_positions_valid(m: &TrackMap, i: int)
    requires
        m.wf(),
        0 <= i < m.starts().len(),
    ensures
        0 <= m.starts()[i].0 < 50,
        0 <= m.starts()[i].1 < 50,
        m.cells()[cell_index(m.starts()[i])] == TrackPoint::Beginning,
{
    lemma_starts_prefix_elems(m.cells(), 2500);
}

/// Law: loading a well-formed track blob and serializing the classified
/// grid back to byte codes reproduces the blob exactly.
pub proof fn lemma_track_round_trip(bytes: Seq<u8>, cells: Seq<TrackPoint>, out: Seq<u8>)
    requires
        track_bytes_ok(bytes),
        cells.len() == 2500,
        forall|i: int| 0 <= i < 2500 ==> cells[i] == point_of_byte(bytes[i]),
        out.len() == 2500,
        forall|i: int| 0 <= i < 2500 ==> out[i] == byte_of_point(cells[i]),
    ensures
        out == bytes,
{
    assert forall|i: int| 0 <= i < 2500 implies out[i] == bytes[i] by {
        assert(cells[i] == point_of_byte(bytes[i]));
        assert(bytes[i] <= 3);
    }
    assert(out =~= bytes);
}

} // verus!
