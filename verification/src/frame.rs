//! A frame: the drawing operations that bring a strip up to date, in the
//! order in which the host replays them on the strip's offscreen surface.
use vstd::prelude::*;

verus! {

/// One drawing operation.
#[derive(Clone, Debug, PartialEq, Eq)]
pub enum DrawOp {
    /// Fill a rectangle of the offscreen surface with one colour.
    Fill { color: u32, x: i32, y: i32, width: u32, height: u32 },
    /// Draw a text onto the offscreen surface, its baseline starting at (`x`, `y`).
    Text { color: u32, x: i32, y: i32, text: String },
    /// Copy the offscreen surface, `width` by `height`, onto the visible window.
    Present { width: u32, height: u32 },
}

/// What a `DrawOp` stands for.
pub enum DrawOpView {
    Fill { color: u32, x: int, y: int, width: int, height: int },
    Text { color: u32, x: int, y: int, text: Seq<char> },
    Present { width: int, height: int },
}

impl View for DrawOp {
    type V = DrawOpView;

    open spec fn view(&self) -> DrawOpView {
        match *self {
            DrawOp::Fill { color, x, y, width, height } => DrawOpView::Fill {
                color,
                x: x as int,
                y: y as int,
                width: width as int,
                height: height as int,
            },
            DrawOp::Text { color, x, y, text } => DrawOpView::Text {
                color,
                x: x as int,
                y: y as int,
                text: text@,
            },
            DrawOp::Present { width, height } => DrawOpView::Present {
                width: width as int,
                height: height as int,
            },
        }
    }
}

/// What a list of operations stands for, one by one.
pub open spec fn frame_view(ops: Seq<DrawOp>) -> Seq<DrawOpView> {
    ops.map_values(|op: DrawOp| op@)
}

/// Appending one operation appends what it stands for.
pub proof fn lemma_frame_view_push(ops: Seq<DrawOp>, op: DrawOp)
    ensures
        frame_view(ops.push(op)) == frame_view(ops).push(op@),
{
}

/// Joining two lists joins what they stand for.
pub proof fn lemma_frame_view_add(a: Seq<DrawOp>, b: Seq<DrawOp>)
    ensures
        frame_view(a + b) == frame_view(a) + frame_view(b),
{
}

} // verus!
