//! Frames of a sprite-sheet animation.
//!
//! A sprite sheet is a grid of cells, `rows` cells across and `cols` cells
//! down. An animation takes the cells `first .. last` of one horizontal strip
//! (the strip numbered `column`). Each cell is described by a [`Frame`], whose
//! texture (UV) rectangle, in the unit square of the whole sheet, is
//! `x = index / rows`, `y = column / cols`, `w = 1 / rows`, `h = 1 / cols`.

use vstd::prelude::*;

verus! {

/// One cell of a sprite sheet, given by whole numbers.
///
/// Its UV rectangle is `(index / rows, column / cols, 1 / rows, 1 / cols)`.
#[derive(Clone, Copy, Debug, PartialEq, Eq, Structural)]
pub struct Frame {
    /// Position of the cell along the strip.
    pub index: i32,
    /// Which strip of the sheet the cell lies in.
    pub column: i32,
    /// Number of cells across the sheet.
    pub rows: i32,
    /// Number of cells down the sheet.
    pub cols: i32,
}

/// The number of frames in the range `first .. last`: none when the range is empty.
pub open spec fn frame_count(first: i32, last: i32) -> nat {
    if first < last {
        (last - first) as nat
    } else {
        0
    }
}

/// The frames of an animation: for each index `f` in `first .. last`, in
/// increasing order, the cell `f` of strip `column` of a `rows` by `cols` sheet.
pub open spec fn animation_frames(rows: i32, cols: i32, first: i32, last: i32, column: i32) -> Seq<Frame> {
    Seq::new(
        frame_count(first, last),
        |i: int| Frame { index: (first + i) as i32, column, rows, cols },
    )
}

/// Returns the frames of the animation made of the cells `first_last.0 ..
/// first_last.1` of strip `col_indx` of a sheet of `rows` by `cols` cells.
///
/// The frames come in increasing order of index, one per cell; an empty range
/// gives no frame.
pub fn sprite_animation(rows: i32, cols: i32, first_last: (i32, i32), col_indx: i32) -> (out: Vec<Frame>)
    ensures
        out@ == animation_frames(rows, cols, first_last.0, first_last.1, col_indx),
        out@.len() == if first_last.0 < first_last.1 {
            first_last.1 - first_last.0
        } else {
            0
        },
        forall|i: int|
            0 <= i < out@.len() ==> #[trigger] out@[i] == (Frame {
                index: (first_last.0 + i) as i32,
                column: col_indx,
                rows,
                cols,
            }),
{
    let (first, last) = first_last;
    let mut out: Vec<Frame> = Vec::new();
    if first < last {
        let mut f: i32 = first;
        while f < last
            invariant
                first <= f <= last,
                out@.len() == f - first,
                forall|i: int|
                    0 <= i < out@.len() ==> #[trigger] out@[i] == (Frame {
                        index: (first + i) as i32,
                        column: col_indx,
                        rows,
                        cols,
                    }),
            decreases last - f,
        {
            out.push(Frame { index: f, column: col_indx, rows, cols });
            f = f + 1;
        }
    }
    assert(out@ == animation_frames(rows, cols, first, last, col_indx));
    proof {
        law_one_frame_per_cell(rows, cols, first, last, col_indx);
    }
    out
}

/// An animation has exactly one frame for each cell of its range `first ..
/// last`, none for an empty range; the frame at position `i` is the cell
/// `first + i` of the strip, so the cells come in strictly increasing order
/// and none comes twice.
pub proof fn law_one_frame_per_cell(rows: i32, cols: i32, first: i32, last: i32, column: i32)
    ensures
        animation_frames(rows, cols, first, last, column).len() == if first < last {
            last - first
        } else {
            0
        },
        forall|i: int|
            0 <= i < animation_frames(rows, cols, first, last, column).len() ==> {
                let f = #[trigger] animation_frames(rows, cols, first, last, column)[i];
                &&& f.index == first + i
                &&& f.column == column
                &&& f.rows == rows
                &&& f.cols == cols
            },
        forall|i: int, j: int|
            0 <= i < j < animation_frames(rows, cols, first, last, column).len() ==> (
            #[trigger] animation_frames(rows, cols, first, last, column)[i]).index
                < (#[trigger] animation_frames(rows, cols, first, last, column)[j]).index,
{
}

} // verus!
