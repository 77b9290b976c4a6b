use vstd::prelude::*;

verus! {

use self::Offsets::{
    Center,
    East,
    EastBySouthEast,
    EastEast,
    North,
    NorthEast,
    NorthWest,
    South,
    SouthBySouthEast,
    SouthEast,
    SouthSouth,
    SouthWest,
    West,
};

/// The orientation of a piece with respect to the board.
/// `Up` is the default orientation, in which the pieces have their canonical shape.
#[derive(Clone, Copy, PartialEq, Eq, Structural, Debug)]
pub enum Orientation {
    Up,
    Right,
    Down,
    Left,
}

impl Orientation {
    /// The next orientation in the cycle `Up`, `Right`, `Down`, `Left`, `Up`.
    pub open spec fn next(self) -> Orientation {
        match self {
            Orientation::Up => Orientation::Right,
            Orientation::Right => Orientation::Down,
            Orientation::Down => Orientation::Left,
            Orientation::Left => Orientation::Up,
        }
    }

    /// The previous orientation in the cycle `Up`, `Right`, `Down`, `Left`, `Up`.
    pub open spec fn prev(self) -> Orientation {
        match self {
            Orientation::Up => Orientation::Left,
            Orientation::Right => Orientation::Up,
            Orientation::Down => Orientation::Right,
            Orientation::Left => Orientation::Down,
        }
    }
}

/// The colors of the pieces. `Wall`, `Empty` and `Tracer` are markers for the board
/// and its tracer piece; the other seven are the canonical colors of the pieces.
#[derive(Clone, Copy, PartialEq, Eq, Structural, Debug)]
pub enum PieceColor {
    Wall,
    Empty,
    Red,
    Green,
    Blue,
    Yellow,
    Cyan,
    Magenta,
    Orange,
    Tracer,
}

/// Named cells around the pivot `C` of a piece, limited to those that some piece uses.
/// ```text
///   NW  | N  | NE |
///   ----------------------
///   W   | C  | E  | EE
///   ----------------------
///   SW  | S  | SE | ESE
///   ----------------------
///       | SS | SBE|
/// ```
#[derive(Clone, Copy, PartialEq, Eq, Structural, Debug)]
pub enum Offsets {
    Center,
    North,
    NorthWest,
    West,
    SouthWest,
    South,
    SouthEast,
    East,
    NorthEast,
    EastEast,
    SouthSouth,
    SouthBySouthEast,
    EastBySouthEast,
}

/// The displacement `(dx, dy)` of an offset from the pivot: east is `+x`, south is `+y`.
pub open spec fn offset_xy(offset: Offsets) -> (int, int) {
    match offset {
        Offsets::Center => (0, 0),
        Offsets::North => (0, -1),
        Offsets::NorthWest => (-1, -1),
        Offsets::West => (-1, 0),
        Offsets::SouthWest => (-1, 1),
        Offsets::South => (0, 1),
        Offsets::SouthEast => (1, 1),
        Offsets::East => (1, 0),
        Offsets::NorthEast => (1, -1),
        Offsets::EastEast => (2, 0),
        Offsets::SouthSouth => (0, 2),
        Offsets::SouthBySouthEast => (1, 2),
        Offsets::EastBySouthEast => (2, 1),
    }
}

/// Maps an offset to its relative `(x, y)` coordinates.
/// North is up, so a smaller y; east is right, so a larger x.
pub fn xy(offset: &Offsets) -> (r: (i8, i8))
    ensures
        (r.0 as int, r.1 as int) == offset_xy(*offset),
{
    match offset {
        Offsets::Center => (0, 0),
        Offsets::North => (0, -1),
        Offsets::NorthWest => (-1, -1),
        Offsets::West => (-1, 0),
        Offsets::SouthWest => (-1, 1),
        Offsets::South => (0, 1),
        Offsets::SouthEast => (1, 1),
        Offsets::East => (1, 0),
        Offsets::NorthEast => (1, -1),
        Offsets::EastEast => (2, 0),
        Offsets::SouthSouth => (0, 2),
        Offsets::SouthBySouthEast => (1, 2),
        Offsets::EastBySouthEast => (2, 1),
    }
}

/// The cells that a piece occupies in one orientation, relative to its pivot.
pub type PieceView = [Offsets; 4];

/// What a piece is, as a value of the proofs: its color, its current orientation
/// and the four views it stores, one per orientation.
pub struct PieceModel {
    pub color: PieceColor,
    pub orientation: Orientation,
    pub up: Seq<Offsets>,
    pub right: Seq<Offsets>,
    pub down: Seq<Offsets>,
    pub left: Seq<Offsets>,
}

impl PieceModel {
    /// The view stored for orientation `o`.
    pub open spec fn view_at(self, o: Orientation) -> Seq<Offsets> {
        match o {
            Orientation::Up => self.up,
            Orientation::Right => self.right,
            Orientation::Down => self.down,
            Orientation::Left => self.left,
        }
    }

    /// The cells occupied in the current orientation.
    pub open spec fn current(self) -> Seq<Offsets> {
        self.view_at(self.orientation)
    }

    /// The same piece, with its orientation set to `o`.
    pub open spec fn turned(self, o: Orientation) -> PieceModel {
        PieceModel { orientation: o, ..self }
    }

    /// The same piece, one step forward in the orientation cycle.
    pub open spec fn turned_right(self) -> PieceModel {
        self.turned(self.orientation.next())
    }

    /// The same piece, one step back in the orientation cycle.
    pub open spec fn turned_left(self) -> PieceModel {
        self.turned(self.orientation.prev())
    }
}

/// A piece: its color, its current orientation, and one view per orientation.
/// Only the orientation changes after construction.
#[derive(Clone, Copy, PartialEq, Debug)]
pub struct Piece {
    pub color: PieceColor,
    pub orientation: Orientation,
    up: PieceView,
    right: PieceView,
    down: PieceView,
    left: PieceView,
}

impl Piece {
    /// The piece as the contracts see it: color, orientation and the four stored views.
    pub closed spec fn model(self) -> PieceModel {
        PieceModel {
            color: self.color,
            orientation: self.orientation,
            up: self.up@,
            right: self.right@,
            down: self.down@,
            left: self.left@,
        }
    }

    /// Returns the view of the piece in its current orientation.
    pub fn view(&self) -> (r: &PieceView)
        ensures
            r@ == self.model().current(),
    {
        match self.orientation {
            Orientation::Up => &self.up,
            Orientation::Right => &self.right,
            Orientation::Down => &self.down,
            Orientation::Left => &self.left,
        }
    }

    /// Steps the orientation back through the cycle `Up`, `Right`, `Down`, `Left`:
    /// `Up` becomes `Left`. Color and views are kept.
    pub fn rotate_left(&mut self)
        ensures
            final(self).model() == old(self).model().turned_left(),
    {
        self.orientation = match self.orientation {
            Orientation::Up => Orientation::Left,
            Orientation::Right => Orientation::Up,
            Orientation::Down => Orientation::Right,
            Orientation::Left => Orientation::Down,
        };
    }

    /// Steps the orientation forward through the cycle `Up`, `Right`, `Down`, `Left`:
    /// `Left` becomes `Up`. Color and views are kept.
    pub fn rotate_right(&mut self)
        ensures
            final(self).model() == old(self).model().turned_right(),
    {
        self.orientation = match self.orientation {
            Orientation::Up => Orientation::Right,
            Orientation::Right => Orientation::Down,
            Orientation::Down => Orientation::Left,
            Orientation::Left => Orientation::Up,
        };
    }
}

/// The number of canonical pieces.
pub const PIECE_COUNT: usize = 7;

/// The color of the canonical piece at `index`, in the order O, T, I, L, J, S, Z.
pub open spec fn canonical_color(index: int) -> PieceColor {
    if index == 0 {
        PieceColor::Yellow
    } else if index == 1 {
        PieceColor::Magenta
    } else if index == 2 {
        PieceColor::Cyan
    } else if index == 3 {
        PieceColor::Orange
    } else if index == 4 {
        PieceColor::Blue
    } else if index == 5 {
        PieceColor::Green
    } else {
        PieceColor::Red
    }
}

/// The cells of the canonical piece at `index` (order O, T, I, L, J, S, Z) in
/// orientation `o`.
pub open spec fn canonical_view(index: int, o: Orientation) -> Seq<Offsets> {
    if index == 0 {
        seq![North, NorthEast, Center, East]
    } else if index == 1 {
        match o {
            Orientation::Up => seq![Center, West, East, North],
            Orientation::Right => seq![Center, East, North, South],
            Orientation::Down => seq![Center, West, East, South],
            Orientation::Left => seq![Center, West, North, South],
        }
    } else if index == 2 {
        match o {
            Orientation::Up => seq![West, Center, East, EastEast],
            Orientation::Right => seq![NorthEast, East, SouthEast, SouthBySouthEast],
            Orientation::Down => seq![SouthWest, South, SouthEast, EastBySouthEast],
            Orientation::Left => seq![North, Center, South, SouthSouth],
        }
    } else if index == 3 {
        match o {
            Orientation::Up => seq![West, Center, East, NorthEast],
            Orientation::Right => seq![North, Center, South, SouthEast],
            Orientation::Down => seq![Center, East, West, SouthWest],
            Orientation::Left => seq![NorthWest, North, Center, South],
        }
    } else if index == 4 {
        match o {
            Orientation::Up => seq![Center, East, West, NorthWest],
            Orientation::Right => seq![NorthEast, North, Center, South],
            Orientation::Down => seq![West, Center, East, SouthEast],
            Orientation::Left => seq![North, Center, South, SouthWest],
        }
    } else if index == 5 {
        match o {
            Orientation::Up => seq![West, Center, North, NorthEast],
            Orientation::Right => seq![North, Center, East, SouthEast],
            Orientation::Down => seq![SouthWest, South, Center, East],
            Orientation::Left => seq![NorthWest, West, Center, South],
        }
    } else {
        match o {
            Orientation::Up => seq![NorthWest, North, Center, East],
            Orientation::Right => seq![South, Center, East, NorthEast],
            Orientation::Down => seq![West, Center, South, SouthEast],
            Orientation::Left => seq![SouthWest, West, Center, North],
        }
    }
}

/// The canonical piece at `index`, in the order O, T, I, L, J, S, Z, as it is
/// spawned: in orientation `Up`.
pub open spec fn canonical_piece(index: int) -> PieceModel {
    PieceModel {
        color: canonical_color(index),
        orientation: Orientation::Up,
        up: canonical_view(index, Orientation::Up),
        right: canonical_view(index, Orientation::Right),
        down: canonical_view(index, Orientation::Down),
        left: canonical_view(index, Orientation::Left),
    }
}

/// All of the canonical pieces, in the order O, T, I, L, J, S, Z, each in
/// orientation `Up`. Each is a copy: turning one leaves the others as they are.
pub fn pieces() -> (r: [Piece; PIECE_COUNT])
    ensures
        forall|i: int| 0 <= i < PIECE_COUNT ==> (#[trigger] r@[i]).model() == canonical_piece(i),
{
    let r = [
        Piece {
            color: PieceColor::Yellow,
            orientation: Orientation::Up,
            up: [North, NorthEast, Center, East],
            right: [North, NorthEast, Center, East],
            down: [North, NorthEast, Center, East],
            left: [North, NorthEast, Center, East],
        },
        Piece {
            color: PieceColor::Magenta,
            orientation: Orientation::Up,
            up: [Center, West, East, North],
            right: [Center, East, North, South],
            down: [Center, West, East, South],
            left: [Center, West, North, South],
        },
        Piece {
            color: PieceColor::Cyan,
            orientation: Orientation::Up,
            up: [West, Center, East, EastEast],
            right: [NorthEast, East, SouthEast, SouthBySouthEast],
            down: [SouthWest, South, SouthEast, EastBySouthEast],
            left: [North, Center, South, SouthSouth],
        },
        Piece {
            color: PieceColor::Orange,
            orientation: Orientation::Up,
            up: [West, Center, East, NorthEast],
            right: [North, Center, South, SouthEast],
            down: [Center, East, West, SouthWest],
            left: [NorthWest, North, Center, South],
        },
        Piece {
            color: PieceColor::Blue,
            orientation: Orientation::Up,
            up: [Center, East, West, NorthWest],
            right: [NorthEast, North, Center, South],
            down: [West, Center, East, SouthEast],
            left: [North, Center, South, SouthWest],
        },
        Piece {
            color: PieceColor::Green,
            orientation: Orientation::Up,
            up: [West, Center, North, NorthEast],
            right: [North, Center, East, SouthEast],
            down: [SouthWest, South, Center, East],
            left: [NorthWest, West, Center, South],
        },
        Piece {
            color: PieceColor::Red,
            orientation: Orientation::Up,
            up: [NorthWest, North, Center, East],
            right: [South, Center, East, NorthEast],
            down: [West, Center, South, SouthEast],
            left: [SouthWest, West, Center, North],
        },
    ];
    r
}

/// Four steps in the same direction bring a piece back to where it started:
/// right four times, or left four times.
pub proof fn lemma_four_turns_restore(p: Piece)
    ensures
        p.model().turned_right().turned_right().turned_right().turned_right() == p.model(),
        p.model().turned_left().turned_left().turned_left().turned_left() == p.model(),
{
}

/// A step right and a step left undo each other, in either order.
pub proof fn lemma_turns_cancel(p: Piece)
    ensures
        p.model().turned_right().turned_left() == p.model(),
        p.model().turned_left().turned_right() == p.model(),
{
}

/// A canonical piece, spawned in `Up` and then turned right zero to three times,
/// shows the table's view for `Up`, `Right`, `Down` and `Left` in turn.
pub proof fn lemma_views_follow_table(index: int)
    requires
        0 <= index < PIECE_COUNT,
    ensures
        canonical_piece(index).current() == canonical_view(index, Orientation::Up),
        canonical_piece(index).turned_right().current() == canonical_view(
            index,
            Orientation::Right,
        ),
        canonical_piece(index).turned_right().turned_right().current() == canonical_view(
            index,
            Orientation::Down,
        ),
        canonical_piece(index).turned_right().turned_right().turned_right().current()
            == canonical_view(index, Orientation::Left),
{
}

} // verus!
