//! The board-side data model: squares addressed by a linear index, piece
//! descriptions, and a read-only per-frame snapshot of the 64 cells that the
//! external board engine reported.

use vstd::prelude::*;

verus! {

/// One of the 64 addressable board positions, identified by a row-major
/// linear index counted from the visual top-left corner.
#[derive(Clone, Copy, Debug, PartialEq, Eq, Structural)]
pub struct Square {
    pub idx: u8,
}

impl Square {
    /// A square is well formed when its index addresses one of the 64 cells.
    pub open spec fn wf(self) -> bool {
        self.idx < 64
    }

    /// The linear index, row-major from the visual top-left.
    pub open spec fn spec_index(self) -> int {
        self.idx as int
    }

    /// The file (column), 0 at the left edge.
    pub open spec fn spec_file(self) -> int {
        self.spec_index() % 8
    }

    /// The row counted from the visual top, 0 at the top edge.
    pub open spec fn spec_row_from_top(self) -> int {
        self.spec_index() / 8
    }

    /// The rank as chess players label it: 0 at the bottom of the rendered
    /// board, so the top row carries the highest rank.
    pub open spec fn spec_rank(self) -> int {
        7 - self.spec_row_from_top()
    }

    pub fn new(idx: u8) -> (s: Square)
        requires
            idx < 64,
        ensures
            s.wf(),
            s.spec_index() == idx as int,
    {
        Square { idx }
    }

    /// Builds the square at a given file and row counted from the top;
    /// inverse of `file`/`row_from_top`.
    pub fn from_file_row(file: u8, row_from_top: u8) -> (s: Square)
        requires
            file < 8,
            row_from_top < 8,
        ensures
            s.wf(),
            s.spec_index() == row_from_top * 8 + file,
            s.spec_file() == file as int,
            s.spec_row_from_top() == row_from_top as int,
    {
        let s = Square { idx: row_from_top * 8 + file };
        proof {
            assert(s.spec_index() == row_from_top * 8 + file);
            assert(s.spec_index() % 8 == file as int) by (nonlinear_arith)
                requires
                    s.spec_index() == row_from_top * 8 + file,
                    0 <= file < 8,
                    0 <= row_from_top < 8,
            ;
            assert(s.spec_index() / 8 == row_from_top as int) by (nonlinear_arith)
                requires
                    s.spec_index() == row_from_top * 8 + file,
                    0 <= file < 8,
                    0 <= row_from_top < 8,
            ;
        }
        s
    }

    pub fn index(self) -> (i: u8)
        requires
            self.wf(),
        ensures
            i as int == self.spec_index(),
    {
        self.idx
    }

    pub fn file(self) -> (f: u8)
        requires
            self.wf(),
        ensures
            f as int == self.spec_file(),
            f < 8,
    {
        self.idx % 8
    }

    pub fn row_from_top(self) -> (r: u8)
        requires
            self.wf(),
        ensures
            r as int == self.spec_row_from_top(),
            r < 8,
    {
        self.idx / 8
    }

    pub fn rank(self) -> (r: u8)
        requires
            self.wf(),
        ensures
            r as int == self.spec_rank(),
            r < 8,
    {
        7 - self.idx / 8
    }

    /// The file label used by algebraic notation, `'a'` at the left edge.
    pub fn file_label(self) -> (c: char)
        requires
            self.wf(),
        ensures
            c == spec_file_label(self.spec_file()),
    {
        match self.idx % 8 {
            0 => 'a',
            1 => 'b',
            2 => 'c',
            3 => 'd',
            4 => 'e',
            5 => 'f',
            6 => 'g',
            _ => 'h',
        }
    }

    /// The rank label used by algebraic notation, `'1'` at the bottom of the
    /// rendered board.
    pub fn rank_label(self) -> (c: char)
        requires
            self.wf(),
        ensures
            c == spec_rank_label(self.spec_rank()),
    {
        match 7 - self.idx / 8 {
            0 => '1',
            1 => '2',
            2 => '3',
            3 => '4',
            4 => '5',
            5 => '6',
            6 => '7',
            _ => '8',
        }
    }
}

/// File label for a file in `[0, 8)`: `'a'` through `'h'`.
pub open spec fn spec_file_label(file: int) -> char {
    if file == 0 {
        'a'
    } else if file == 1 {
        'b'
    } else if file == 2 {
        'c'
    } else if file == 3 {
        'd'
    } else if file == 4 {
        'e'
    } else if file == 5 {
        'f'
    } else if file == 6 {
        'g'
    } else {
        'h'
    }
}

/// Rank label for a rank in `[0, 8)`: `'1'` through `'8'`.
pub open spec fn spec_rank_label(rank: int) -> char {
    if rank == 0 {
        '1'
    } else if rank == 1 {
        '2'
    } else if rank == 2 {
        '3'
    } else if rank == 3 {
        '4'
    } else if rank == 4 {
        '5'
    } else if rank == 5 {
        '6'
    } else if rank == 6 {
        '7'
    } else {
        '8'
    }
}

/// The kind of a chess piece, as far as the renderer needs to tell sprites
/// apart.
#[derive(Clone, Copy, Debug, PartialEq, Eq, Structural)]
pub enum PieceKind {
    King,
    Queen,
    Rook,
    Bishop,
    Knight,
    Pawn,
}

/// The side a piece belongs to.
#[derive(Clone, Copy, Debug, PartialEq, Eq, Structural)]
pub enum Side {
    White,
    Black,
}

/// What the renderer needs to know of a piece: its kind and its side,
/// together the key under which the texture lookup registers the sprite.
#[derive(Clone, Copy, Debug, PartialEq, Eq, Structural)]
pub struct Piece {
    pub kind: PieceKind,
    pub side: Side,
}

/// A read-only, per-frame copy of the 64 board cells as the external board
/// engine reported them. The renderer only reads it; mutation happens solely
/// through move requests handed back to the engine.
pub struct BoardSnapshot {
    cells: Vec<Option<Piece>>,
}

impl BoardSnapshot {
    /// The 64 cells in row-major order from the visual top-left.
    pub closed spec fn view(self) -> Seq<Option<Piece>> {
        self.cells@
    }

    /// A snapshot is well formed when it holds exactly one cell per square.
    pub open spec fn wf(self) -> bool {
        self@.len() == 64
    }

    /// An empty board: no piece on any square.
    pub fn empty() -> (s: BoardSnapshot)
        ensures
            s.wf(),
            forall|i: int| 0 <= i < 64 ==> s@[i] is None,
    {
        let mut cells: Vec<Option<Piece>> = Vec::new();
        let mut i: usize = 0;
        while i < 64
            invariant
                i <= 64,
                cells@.len() == i,
                forall|j: int| 0 <= j < i ==> cells@[j] is None,
            decreases 64 - i,
        {
            cells.push(None);
            i = i + 1;
        }
        BoardSnapshot { cells }
    }

    /// Builds a snapshot from the 64 cells the engine reported.
    pub fn from_cells(cells: Vec<Option<Piece>>) -> (s: BoardSnapshot)
        requires
            cells@.len() == 64,
        ensures
            s.wf(),
            s@ == cells@,
    {
        BoardSnapshot { cells }
    }

    /// Reads the cell of one square.
    pub fn get(&self, square: Square) -> (p: Option<Piece>)
        requires
            self.wf(),
            square.wf(),
        ensures
            p == self@[square.spec_index()],
    {
        self.cells[square.index() as usize]
    }

    /// Whether a piece stands on the square.
    pub fn occupied(&self, square: Square) -> (b: bool)
        requires
            self.wf(),
            square.wf(),
        ensures
            b == self@[square.spec_index()] is Some,
    {
        self.get(square).is_some()
    }
}

} // verus!
