use vstd::prelude::*;

verus! {

/// One of the two sides of a game.
#[derive(Clone, Copy, Debug, PartialEq, Eq, Structural)]
pub enum Color {
    White,
    Black,
}

impl Color {
    pub open spec fn opposite(self) -> Color {
        match self {
            Color::White => Color::Black,
            Color::Black => Color::White,
        }
    }

    /// The other side.
    pub fn other(self) -> (r: Color)
        ensures
            r == self.opposite(),
            r != self,
    {
        match self {
            Color::White => Color::Black,
            Color::Black => Color::White,
        }
    }

    /// The colour named by a wire flag that reads "white".
    pub fn from_is_white(is_white: bool) -> (r: Color)
        ensures
            r == Color::White <==> is_white,
    {
        if is_white {
            Color::White
        } else {
            Color::Black
        }
    }
}

/// A board square by file and rank, each in `0..8`.
#[derive(Clone, Copy, Debug, PartialEq, Eq, Structural)]
pub struct Square {
    pub file: u8,
    pub rank: u8,
}

impl Square {
    pub open spec fn wf(self) -> bool {
        self.file < 8 && self.rank < 8
    }

    /// The square's number in `0..64`: `file + rank * 8`.
    pub open spec fn spec_index(self) -> nat {
        self.file as nat + self.rank as nat * 8
    }

    /// Builds a square from file and rank.
    pub fn new(file: u8, rank: u8) -> (r: Square)
        requires
            file < 8,
            rank < 8,
        ensures
            r.file == file,
            r.rank == rank,
            r.wf(),
    {
        Square { file, rank }
    }

    /// The square's number, `file + rank * 8`.
    pub fn index(self) -> (r: usize)
        requires
            self.wf(),
        ensures
            r == self.spec_index(),
            r < 64,
    {
        self.file as usize + self.rank as usize * 8
    }

    /// The square with the given number in `0..64`.
    pub fn from_index(i: usize) -> (r: Square)
        requires
            i < 64,
        ensures
            r.wf(),
            r.spec_index() == i,
            r.file == i % 8,
            r.rank == i / 8,
    {
        Square { file: (i % 8) as u8, rank: (i / 8) as u8 }
    }
}

} // verus!
