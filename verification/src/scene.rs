//! What a frame shows, as rectangles of grid cells for a host to paint.

use vstd::prelude::*;
use crate::state::GameState;

verus! {

/// What a rectangle stands for; the host picks the colours.
#[derive(Clone, Copy, Debug, PartialEq, Eq, Structural)]
pub enum Paint {
    Snake,
    Food,
    Border,
    /// The veil over the board of a finished game.
    GameOver,
}

/// A rectangle of grid cells: its top left cell, and its size in cells.
#[derive(Clone, Copy, Debug, PartialEq, Eq, Structural)]
pub struct Rect {
    pub paint: Paint,
    pub x: i32,
    pub y: i32,
    pub width: i32,
    pub height: i32,
}

/// A rectangle as mathematical values.
pub struct Shape {
    pub paint: Paint,
    pub x: int,
    pub y: int,
    pub width: int,
    pub height: int,
}

impl View for Rect {
    type V = Shape;

    open spec fn view(&self) -> Shape {
        Shape {
            paint: self.paint,
            x: self.x as int,
            y: self.y as int,
            width: self.width as int,
            height: self.height as int,
        }
    }
}

/// The rectangles as mathematical values, in the same order.
pub open spec fn shapes(rects: Seq<Rect>) -> Seq<Shape> {
    rects.map_values(|r: Rect| r@)
}

/// The single cell `p`.
pub open spec fn block(paint: Paint, p: (int, int)) -> Shape {
    Shape { paint, x: p.0, y: p.1, width: 1, height: 1 }
}

/// The border: one cell thick along the top, the bottom, the left and the
/// right of the board.
pub open spec fn border(width: int, height: int) -> Seq<Shape> {
    seq![
        Shape { paint: Paint::Border, x: 0, y: 0, width, height: 1 },
        Shape { paint: Paint::Border, x: 0, y: height - 1, width, height: 1 },
        Shape { paint: Paint::Border, x: 0, y: 0, width: 1, height },
        Shape { paint: Paint::Border, x: width - 1, y: 0, width: 1, height },
    ]
}

/// A frame, back to front: the snake from head to tail, the food if there is
/// any, the border, and over a finished game a veil as large as the board.
pub open spec fn scene(s: GameState) -> Seq<Shape> {
    s.cells.map_values(|p: (int, int)| block(Paint::Snake, p)) + (match s.food {
        Some(p) => seq![block(Paint::Food, p)],
        None => Seq::<Shape>::empty(),
    }) + border(s.width, s.height) + (if s.game_over {
        seq![Shape { paint: Paint::GameOver, x: 0, y: 0, width: s.width, height: s.height }]
    } else {
        Seq::<Shape>::empty()
    })
}

} // verus!
