use vstd::prelude::*;

verus! {

/// The movements of the process table's selection.
#[derive(Debug, Clone, Copy, PartialEq, Eq, Structural)]
pub enum ScrollOp {
    Down,
    Up,
    PageDown,
    PageUp,
    Top,
    Bottom,
}

/// The selection and the window's first row are consistent with a list of
/// `len` rows shown `rows` at a time: the selection is a row of the list
/// (0 for an empty list), lies in the window, and the window does not run
/// past the list's end.
pub open spec fn selection_ok(len: int, rows: int, sel: int, off: int) -> bool {
    if len == 0 {
        sel == 0 && off == 0
    } else {
        &&& 0 <= off <= sel < len
        &&& sel < off + rows
        &&& off <= if len > rows {
            len - rows
        } else {
            0
        }
    }
}

/// `x - y`, or 0 where that is negative.
pub open spec fn sat_sub(x: int, y: int) -> int {
    if x > y {
        x - y
    } else {
        0
    }
}

/// The smaller of two integers.
pub open spec fn min_int(x: int, y: int) -> int {
    if x < y {
        x
    } else {
        y
    }
}

/// Selection and first visible row after one movement, on a list of `len`
/// rows shown `rows` at a time. A step moves the window by at most one row;
/// a page moves both by `rows`, clamped to the list.
pub open spec fn scroll_step(len: int, rows: int, sel: int, off: int, op: ScrollOp) -> (int, int) {
    if len == 0 {
        (0, 0)
    } else {
        match op {
            ScrollOp::Down => if sel < len - 1 {
                (sel + 1, if sel + 1 >= off + rows {
                    off + 1
                } else {
                    off
                })
            } else {
                (sel, off)
            },
            ScrollOp::Up => if sel > 0 {
                (sel - 1, if sel - 1 < off {
                    sat_sub(off, 1)
                } else {
                    off
                })
            } else {
                (sel, off)
            },
            ScrollOp::PageDown => (
                min_int(sel + rows, len - 1),
                min_int(off + rows, sat_sub(len, rows)),
            ),
            ScrollOp::PageUp => (sat_sub(sel, rows), sat_sub(off, rows)),
            ScrollOp::Top => (0, 0),
            ScrollOp::Bottom => (len - 1, sat_sub(len, rows)),
        }
    }
}

/// Selection and first visible row after the movements `ops`, in order.
pub open spec fn scroll_run(len: int, rows: int, sel: int, off: int, ops: Seq<ScrollOp>) -> (
    int,
    int,
)
    decreases ops.len(),
{
    if ops.len() == 0 {
        (sel, off)
    } else {
        let prev = scroll_run(len, rows, sel, off, ops.drop_last());
        scroll_step(len, rows, prev.0, prev.1, ops.last())
    }
}

/// One movement keeps the selection consistent with the window.
pub proof fn lemma_scroll_step_keeps_bounds(len: int, rows: int, sel: int, off: int, op: ScrollOp)
    requires
        len >= 0,
        rows >= 1,
        selection_ok(len, rows, sel, off),
    ensures
        selection_ok(len, rows, scroll_step(len, rows, sel, off, op).0, scroll_step(len, rows, sel, off, op).1),
{
}

/// Any sequence of movements on a list of `len` rows shown `rows` at a
/// time keeps the selection in `[0, len - 1]`, the first visible row in
/// `[0, max(0, len - rows)]`, and the selection inside the window.
pub proof fn lemma_scrolling_keeps_bounds(len: int, rows: int, sel: int, off: int, ops: Seq<ScrollOp>)
    requires
        len >= 0,
        rows >= 1,
        selection_ok(len, rows, sel, off),
    ensures
        selection_ok(len, rows, scroll_run(len, rows, sel, off, ops).0, scroll_run(len, rows, sel, off, ops).1),
    decreases ops.len(),
{
    if ops.len() > 0 {
        lemma_scrolling_keeps_bounds(len, rows, sel, off, ops.drop_last());
        let prev = scroll_run(len, rows, sel, off, ops.drop_last());
        lemma_scroll_step_keeps_bounds(len, rows, prev.0, prev.1, ops.last());
    }
}

/// The selection and first visible row brought back into bounds after the
/// list changed length underneath them.
pub open spec fn clamp_selection(len: int, rows: int, sel: int, off: int) -> (int, int) {
    if len == 0 {
        (0, 0)
    } else {
        let s = min_int(sel, len - 1);
        let o = min_int(min_int(off, s), sat_sub(len, rows));
        (s, if o < s + 1 - rows {
            s + 1 - rows
        } else {
            o
        })
    }
}

/// Clamping yields a consistent selection whatever came before.
pub proof fn lemma_clamp_selection_ok(len: int, rows: int, sel: int, off: int)
    requires
        len >= 0,
        rows >= 1,
        sel >= 0,
        off >= 0,
    ensures
        selection_ok(len, rows, clamp_selection(len, rows, sel, off).0, clamp_selection(len, rows, sel, off).1),
        selection_ok(len, rows, sel, off) ==> clamp_selection(len, rows, sel, off) == (sel, off),
{
}

} // verus!
