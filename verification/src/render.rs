use vstd::prelude::*;
use crate::track::{byte_of_point, TrackMap, TrackPoint};

verus! {

/// Pixels along each side of the frame: 50 cells of 10 pixels each, plus
/// a 3-pixel border on every side.
pub const FRAME_SIDE: usize = 506;

/// The code of a frame pixel outside the cell area.
pub const BACKGROUND_CODE: u8 = 4;

/// The display size of the frame.
pub fn dimensions() -> (r: (usize, usize))
    ensures
        r.0 == FRAME_SIDE,
        r.1 == FRAME_SIDE,
{
    (FRAME_SIDE, FRAME_SIDE)
}

/// The code shown at one frame pixel: inside the border, the byte code
/// of the cell under the pixel, with a cell the trajectory history has
/// visited drawn as a Boundary cell; outside the border, the background
/// code.
pub open spec fn frame_code(
    cells: Seq<TrackPoint>,
    history: Seq<(i32, i32)>,
    row: int,
    col: int,
) -> u8 {
    if 3 <= row < 503 && 3 <= col < 503 {
        let x = (col - 3) / 10;
        let y = (row - 3) / 10;
        if history.contains((x as i32, y as i32)) {
            byte_of_point(TrackPoint::Boundary)
        } else {
            byte_of_point(cells[x + 50 * y])
        }
    } else {
        BACKGROUND_CODE
    }
}

/// Whether the history visits one position.
fn history_contains(history: &Vec<(i32, i32)>, p: (i32, i32)) -> (r: bool)
    ensures
        r == history@.contains(p),
{
    let mut i: usize = 0;
    while i < history.len()
        invariant
            i <= history@.len(),
            forall|j: int| 0 <= j < i ==> history@[j] != p,
        decreases history@.len() - i,
    {
        let q = history[i];
        if q.0 == p.0 && q.1 == p.1 {
            assert(history@[i as int] == p);
            return true;
        }
        i += 1;
    }
    assert(!history@.contains(p));
    false
}

/// Fills one frame, row-major, with the code of every pixel: the track's
/// cells as 10x10 blocks inside the border, the history's cells drawn as
/// Boundary over them, the border as background.
pub fn render_codes(track: &TrackMap, history: &Vec<(i32, i32)>) -> (r: Vec<u8>)
    requires
        track.wf(),
    ensures
        r@.len() == FRAME_SIDE * FRAME_SIDE,
        forall|row: int, col: int|
            0 <= row < FRAME_SIDE && 0 <= col < FRAME_SIDE ==> #[trigger] r@[row * 506 + col]
                == frame_code(track.cells(), history@, row, col),
{
    let ghost cells = track.cells();
    let ghost hist = history@;
    let mut out: Vec<u8> = Vec::new();
    let mut row: usize = 0;
    while row < 506
        invariant
            row <= 506,
            track.wf(),
            cells == track.cells(),
            hist == history@,
            out@.len() == row * 506,
            forall|r0: int, c0: int|
                0 <= r0 < row && 0 <= c0 < 506 ==> #[trigger] out@[r0 * 506 + c0] == frame_code(
                    cells,
                    hist,
                    r0,
                    c0,
                ),
        decreases 506 - row,
    {
        let mut col: usize = 0;
        while col < 506
            invariant
                row < 506,
                col <= 506,
                track.wf(),
                cells == track.cells(),
                hist == history@,
                out@.len() == row * 506 + col,
                forall|r0: int, c0: int|
                    0 <= r0 < row && 0 <= c0 < 506 ==> #[trigger] out@[r0 * 506 + c0]
                        == frame_code(cells, hist, r0, c0),
                forall|c0: int|
                    0 <= c0 < col ==> #[trigger] out@[row * 506 + c0] == frame_code(
                        cells,
                        hist,
                        row as int,
                        c0,
                    ),
            decreases 506 - col,
        {
            let code: u8 = if row >= 3 && row < 503 && col >= 3 && col < 503 {
                let x = (col - 3) / 10;
                let y = (row - 3) / 10;
                if history_contains(history, (x as i32, y as i32)) {
                    0
                } else {
                    match track.classify((x as i32, y as i32)) {
                        TrackPoint::Boundary => 0,
                        TrackPoint::End => 1,
                        TrackPoint::Beginning => 2,
                        TrackPoint::Empty => 3,
                    }
                }
            } else {
                BACKGROUND_CODE
            };
            out.push(code);
            col += 1;
        }
        proof {
            assert forall|r0: int, c0: int|
                0 <= r0 < row + 1 && 0 <= c0 < 506 implies #[trigger] out@[r0 * 506 + c0]
                == frame_code(cells, hist, r0, c0) by {
                if r0 == row {
                    assert(out@[row as int * 506 + c0] == frame_code(cells, hist, row as int, c0));
                }
            }
        }
        row += 1;
    }
    out
}

} // verus!
