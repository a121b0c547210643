use vstd::prelude::*;
use vstd::string::StringSliceAdditionalSpecFns;

verus! {

/// Board squares, rank 8 first and file a leftmost; `NoSquare` is the absent square.
#[allow(non_camel_case_types)]
#[derive(Clone, Copy, PartialEq, Eq, Structural, Debug)]
pub enum Square {
    a8,
    b8,
    c8,
    d8,
    e8,
    f8,
    g8,
    h8,
    a7,
    b7,
    c7,
    d7,
    e7,
    f7,
    g7,
    h7,
    a6,
    b6,
    c6,
    d6,
    e6,
    f6,
    g6,
    h6,
    a5,
    b5,
    c5,
    d5,
    e5,
    f5,
    g5,
    h5,
    a4,
    b4,
    c4,
    d4,
    e4,
    f4,
    g4,
    h4,
    a3,
    b3,
    c3,
    d3,
    e3,
    f3,
    g3,
    h3,
    a2,
    b2,
    c2,
    d2,
    e2,
    f2,
    g2,
    h2,
    a1,
    b1,
    c1,
    d1,
    e1,
    f1,
    g1,
    h1,
    NoSquare,
}

impl Square {
    pub open spec fn index(self) -> int {
        match self {
            Square::a8 => 0,
            Square::b8 => 1,
            Square::c8 => 2,
            Square::d8 => 3,
            Square::e8 => 4,
            Square::f8 => 5,
            Square::g8 => 6,
            Square::h8 => 7,
            Square::a7 => 8,
            Square::b7 => 9,
            Square::c7 => 10,
            Square::d7 => 11,
            Square::e7 => 12,
            Square::f7 => 13,
            Square::g7 => 14,
            Square::h7 => 15,
            Square::a6 => 16,
            Square::b6 => 17,
            Square::c6 => 18,
            Square::d6 => 19,
            Square::e6 => 20,
            Square::f6 => 21,
            Square::g6 => 22,
            Square::h6 => 23,
            Square::a5 => 24,
            Square::b5 => 25,
            Square::c5 => 26,
            Square::d5 => 27,
            Square::e5 => 28,
            Square::f5 => 29,
            Square::g5 => 30,
            Square::h5 => 31,
            Square::a4 => 32,
            Square::b4 => 33,
            Square::c4 => 34,
            Square::d4 => 35,
            Square::e4 => 36,
            Square::f4 => 37,
            Square::g4 => 38,
            Square::h4 => 39,
            Square::a3 => 40,
            Square::b3 => 41,
            Square::c3 => 42,
            Square::d3 => 43,
            Square::e3 => 44,
            Square::f3 => 45,
            Square::g3 => 46,
            Square::h3 => 47,
            Square::a2 => 48,
            Square::b2 => 49,
            Square::c2 => 50,
            Square::d2 => 51,
            Square::e2 => 52,
            Square::f2 => 53,
            Square::g2 => 54,
            Square::h2 => 55,
            Square::a1 => 56,
            Square::b1 => 57,
            Square::c1 => 58,
            Square::d1 => 59,
            Square::e1 => 60,
            Square::f1 => 61,
            Square::g1 => 62,
            Square::h1 => 63,
            Square::NoSquare => 64,
        }
    }

    pub fn to_u8(self) -> (r: u8)
        ensures
            r as int == self.index(),
            r <= 64,
    {
        match self {
            Square::a8 => 0,
            Square::b8 => 1,
            Square::c8 => 2,
            Square::d8 => 3,
            Square::e8 => 4,
            Square::f8 => 5,
            Square::g8 => 6,
            Square::h8 => 7,
            Square::a7 => 8,
            Square::b7 => 9,
            Square::c7 => 10,
            Square::d7 => 11,
            Square::e7 => 12,
            Square::f7 => 13,
            Square::g7 => 14,
            Square::h7 => 15,
            Square::a6 => 16,
            Square::b6 => 17,
            Square::c6 => 18,
            Square::d6 => 19,
            Square::e6 => 20,
            Square::f6 => 21,
            Square::g6 => 22,
            Square::h6 => 23,
            Square::a5 => 24,
            Square::b5 => 25,
            Square::c5 => 26,
            Square::d5 => 27,
            Square::e5 => 28,
            Square::f5 => 29,
            Square::g5 => 30,
            Square::h5 => 31,
            Square::a4 => 32,
            Square::b4 => 33,
            Square::c4 => 34,
            Square::d4 => 35,
            Square::e4 => 36,
            Square::f4 => 37,
            Square::g4 => 38,
            Square::h4 => 39,
            Square::a3 => 40,
            Square::b3 => 41,
            Square::c3 => 42,
            Square::d3 => 43,
            Square::e3 => 44,
            Square::f3 => 45,
            Square::g3 => 46,
            Square::h3 => 47,
            Square::a2 => 48,
            Square::b2 => 49,
            Square::c2 => 50,
            Square::d2 => 51,
            Square::e2 => 52,
            Square::f2 => 53,
            Square::g2 => 54,
            Square::h2 => 55,
            Square::a1 => 56,
            Square::b1 => 57,
            Square::c1 => 58,
            Square::d1 => 59,
            Square::e1 => 60,
            Square::f1 => 61,
            Square::g1 => 62,
            Square::h1 => 63,
            Square::NoSquare => 64,
        }
    }

    /// The square with the given index; indices from 64 on give `NoSquare`.
    pub fn from_u8(i: u8) -> (r: Square)
        ensures
            i < 64 ==> r.index() == i as int,
            i >= 64 ==> r == Square::NoSquare,
    {
        match i {
            0 => Square::a8,
            1 => Square::b8,
            2 => Square::c8,
            3 => Square::d8,
            4 => Square::e8,
            5 => Square::f8,
            6 => Square::g8,
            7 => Square::h8,
            8 => Square::a7,
            9 => Square::b7,
            10 => Square::c7,
            11 => Square::d7,
            12 => Square::e7,
            13 => Square::f7,
            14 => Square::g7,
            15 => Square::h7,
            16 => Square::a6,
            17 => Square::b6,
            18 => Square::c6,
            19 => Square::d6,
            20 => Square::e6,
            21 => Square::f6,
            22 => Square::g6,
            23 => Square::h6,
            24 => Square::a5,
            25 => Square::b5,
            26 => Square::c5,
            27 => Square::d5,
            28 => Square::e5,
            29 => Square::f5,
            30 => Square::g5,
            31 => Square::h5,
            32 => Square::a4,
            33 => Square::b4,
            34 => Square::c4,
            35 => Square::d4,
            36 => Square::e4,
            37 => Square::f4,
            38 => Square::g4,
            39 => Square::h4,
            40 => Square::a3,
            41 => Square::b3,
            42 => Square::c3,
            43 => Square::d3,
            44 => Square::e3,
            45 => Square::f3,
            46 => Square::g3,
            47 => Square::h3,
            48 => Square::a2,
            49 => Square::b2,
            50 => Square::c2,
            51 => Square::d2,
            52 => Square::e2,
            53 => Square::f2,
            54 => Square::g2,
            55 => Square::h2,
            56 => Square::a1,
            57 => Square::b1,
            58 => Square::c1,
            59 => Square::d1,
            60 => Square::e1,
            61 => Square::f1,
            62 => Square::g1,
            63 => Square::h1,
            _ => Square::NoSquare,
        }
    }
}

#[derive(Clone, Copy, PartialEq, Eq, Structural, Debug)]
pub enum Color {
    White,
    Black,
}

pub fn opposite_color(color: Color) -> (r: Color)
    ensures
        r != color,
{
    match color {
        Color::White => Color::Black,
        Color::Black => Color::White,
    }
}

/// The four castling rights, as the bits 1, 2, 4 and 8 of a rights mask.
#[derive(Clone, Copy, PartialEq, Eq, Structural, Debug)]
pub enum CastlingAbility {
    WhiteKingSide,
    WhiteQueenSide,
    BlackKingSide,
    BlackQueenSide,
}

impl CastlingAbility {
    pub open spec fn spec_mask(self) -> u8 {
        match self {
            CastlingAbility::WhiteKingSide => 1,
            CastlingAbility::WhiteQueenSide => 2,
            CastlingAbility::BlackKingSide => 4,
            CastlingAbility::BlackQueenSide => 8,
        }
    }

    pub fn mask(self) -> (r: u8)
        ensures
            r == self.spec_mask(),
    {
        match self {
            CastlingAbility::WhiteKingSide => 1,
            CastlingAbility::WhiteQueenSide => 2,
            CastlingAbility::BlackKingSide => 4,
            CastlingAbility::BlackQueenSide => 8,
        }
    }
}

#[derive(Clone, Copy, PartialEq, Eq, Structural, Debug)]
pub enum PieceType {
    Pawn,
    Knight,
    Bishop,
    Rook,
    Queen,
    King,
}

impl PieceType {
    pub open spec fn index(self) -> int {
        match self {
            PieceType::Pawn => 0,
            PieceType::Knight => 1,
            PieceType::Bishop => 2,
            PieceType::Rook => 3,
            PieceType::Queen => 4,
            PieceType::King => 5,
        }
    }
}

/// The twelve pieces, indexed 0 to 11 so that the color is `index / 6` and the
/// type `index % 6`; `NoPiece` (index 12) marks the absence of a piece.
#[derive(Clone, Copy, PartialEq, Eq, Structural, Debug)]
pub enum Piece {
    WhitePawn,
    WhiteKnight,
    WhiteBishop,
    WhiteRook,
    WhiteQueen,
    WhiteKing,
    BlackPawn,
    BlackKnight,
    BlackBishop,
    BlackRook,
    BlackQueen,
    BlackKing,
    NoPiece,
}

impl Piece {
    pub open spec fn index(self) -> int {
        match self {
            Piece::WhitePawn => 0,
            Piece::WhiteKnight => 1,
            Piece::WhiteBishop => 2,
            Piece::WhiteRook => 3,
            Piece::WhiteQueen => 4,
            Piece::WhiteKing => 5,
            Piece::BlackPawn => 6,
            Piece::BlackKnight => 7,
            Piece::BlackBishop => 8,
            Piece::BlackRook => 9,
            Piece::BlackQueen => 10,
            Piece::BlackKing => 11,
            Piece::NoPiece => 12,
        }
    }

    pub fn to_index(self) -> (r: u8)
        ensures
            r as int == self.index(),
            r <= 12,
    {
        match self {
            Piece::WhitePawn => 0,
            Piece::WhiteKnight => 1,
            Piece::WhiteBishop => 2,
            Piece::WhiteRook => 3,
            Piece::WhiteQueen => 4,
            Piece::WhiteKing => 5,
            Piece::BlackPawn => 6,
            Piece::BlackKnight => 7,
            Piece::BlackBishop => 8,
            Piece::BlackRook => 9,
            Piece::BlackQueen => 10,
            Piece::BlackKing => 11,
            Piece::NoPiece => 12,
        }
    }

    /// The piece with the given index; indices from 12 on give `NoPiece`.
    pub fn from_index(i: u8) -> (r: Piece)
        ensures
            i < 12 ==> r.index() == i as int,
            i >= 12 ==> r == Piece::NoPiece,
    {
        match i {
            0 => Piece::WhitePawn,
            1 => Piece::WhiteKnight,
            2 => Piece::WhiteBishop,
            3 => Piece::WhiteRook,
            4 => Piece::WhiteQueen,
            5 => Piece::WhiteKing,
            6 => Piece::BlackPawn,
            7 => Piece::BlackKnight,
            8 => Piece::BlackBishop,
            9 => Piece::BlackRook,
            10 => Piece::BlackQueen,
            11 => Piece::BlackKing,
            _ => Piece::NoPiece,
        }
    }

    /// Bishops, rooks and queens.
    pub fn is_slider(&self) -> (r: bool)
        ensures
            r == (self.index() < 12 && (self.index() % 6 == 2 || self.index() % 6 == 3
                || self.index() % 6 == 4)),
    {
        match self {
            Piece::WhiteBishop | Piece::WhiteRook | Piece::WhiteQueen | Piece::BlackBishop
            | Piece::BlackRook | Piece::BlackQueen => true,
            _ => false,
        }
    }

    pub fn piece_type(&self) -> (r: PieceType)
        requires
            self.index() < 12,
        ensures
            r.index() == self.index() % 6,
    {
        match self {
            Piece::WhitePawn => PieceType::Pawn,
            Piece::WhiteKnight => PieceType::Knight,
            Piece::WhiteBishop => PieceType::Bishop,
            Piece::WhiteRook => PieceType::Rook,
            Piece::WhiteQueen => PieceType::Queen,
            Piece::WhiteKing => PieceType::King,
            Piece::BlackPawn => PieceType::Pawn,
            Piece::BlackKnight => PieceType::Knight,
            Piece::BlackBishop => PieceType::Bishop,
            Piece::BlackRook => PieceType::Rook,
            Piece::BlackQueen => PieceType::Queen,
            Piece::BlackKing => PieceType::King,
            Piece::NoPiece => PieceType::King,
        }
    }
}

/// The piece index that a FEN letter names, or -1.
pub open spec fn piece_of_char(c: char) -> int {
    match c {
        'P' => 0,
        'N' => 1,
        'B' => 2,
        'R' => 3,
        'Q' => 4,
        'K' => 5,
        'p' => 6,
        'n' => 7,
        'b' => 8,
        'r' => 9,
        'q' => 10,
        'k' => 11,
        _ => -1,
    }
}

pub fn char_to_piece(c: char) -> (r: Option<Piece>)
    ensures
        piece_of_char(c) == -1 ==> r is None,
        piece_of_char(c) != -1 ==> r is Some && r->0.index() == piece_of_char(c),
{
    match c {
        'P' => Some(Piece::WhitePawn),
        'N' => Some(Piece::WhiteKnight),
        'B' => Some(Piece::WhiteBishop),
        'R' => Some(Piece::WhiteRook),
        'Q' => Some(Piece::WhiteQueen),
        'K' => Some(Piece::WhiteKing),
        'p' => Some(Piece::BlackPawn),
        'n' => Some(Piece::BlackKnight),
        'b' => Some(Piece::BlackBishop),
        'r' => Some(Piece::BlackRook),
        'q' => Some(Piece::BlackQueen),
        'k' => Some(Piece::BlackKing),
        _ => None,
    }
}

/// The index of the square that the two bytes `file rank` name (`e4`), or 64.
pub open spec fn square_of_bytes(b: Seq<u8>) -> int {
    if b.len() >= 2 && 97 <= b[0] <= 104 && 49 <= b[1] <= 56 {
        8 * (56 - b[1]) + (b[0] - 97)
    } else {
        64
    }
}

pub fn square_from_bytes(b: &[u8]) -> (r: Square)
    ensures
        r.index() == square_of_bytes(b@),
{
    if b.len() >= 2 && 97 <= b[0] && b[0] <= 104 && 49 <= b[1] && b[1] <= 56 {
        Square::from_u8(8 * (56 - b[1]) + (b[0] - 97))
    } else {
        Square::NoSquare
    }
}

/// Parses a square name such as `e4`; a malformed name gives `NoSquare`.
pub fn square_from_string(string: &str) -> (r: Square)
    ensures
        r.index() == square_of_bytes(string.spec_bytes()),
{
    square_from_bytes(string.as_bytes())
}

/// Whether a generator yields every move or only captures and promotions.
#[derive(Clone, Copy, PartialEq, Eq, Structural, Debug)]
pub enum MoveTypes {
    All,
    Quiescence,
}

/// The stage a lazy move generator has reached.
#[derive(Clone, Copy, PartialEq, Eq, Structural, Debug)]
pub enum GenPhase {
    Interesting,
    Quiet,
    Done,
}

pub struct Settings {
    pub threads: u8,
    pub transposition_table_mb: u16,
}

impl Default for Settings {
    fn default() -> (r: Settings)
        ensures
            r.threads == 1,
            r.transposition_table_mb == 128,
    {
        Settings { threads: 1, transposition_table_mb: 128 }
    }
}

/// A move: squares, moving piece, promotion piece (`NoPiece` when none), flags and an ordering score.
#[derive(Clone, Copy, PartialEq, Eq, Structural, Debug)]
pub struct Move {
    pub from_sq: u8,
    pub to_sq: u8,
    pub piece: Piece,
    pub promotion: Piece,
    pub is_capture: bool,
    pub is_double_push: bool,
    pub is_enpassant: bool,
    pub is_castling: bool,
    pub score: u16,
}

impl Move {
    pub fn new(
        from_sq: u8,
        to_sq: u8,
        piece: Piece,
        promotion: Piece,
        is_capture: bool,
        is_double_push: bool,
        is_enpassant: bool,
        is_castling: bool,
    ) -> (r: Move)
        ensures
            r == (Move {
                from_sq,
                to_sq,
                piece,
                promotion,
                is_capture,
                is_double_push,
                is_enpassant,
                is_castling,
                score: 0xffff,
            }),
    {
        Move {
            from_sq,
            to_sq,
            piece,
            promotion,
            is_capture,
            is_double_push,
            is_enpassant,
            is_castling,
            score: 0xffff,
        }
    }

    /// The move that stands for "no move": a8 to a8 with no piece.
    pub fn null() -> (r: Move)
        ensures
            r.is_null(),
            r == (Move {
                from_sq: 0,
                to_sq: 0,
                piece: Piece::NoPiece,
                promotion: Piece::NoPiece,
                is_capture: false,
                is_double_push: false,
                is_enpassant: false,
                is_castling: false,
                score: 0,
            }),
    {
        Move {
            from_sq: 0,
            to_sq: 0,
            piece: Piece::NoPiece,
            promotion: Piece::NoPiece,
            is_capture: false,
            is_double_push: false,
            is_enpassant: false,
            is_castling: false,
            score: 0,
        }
    }

    pub open spec fn is_null(self) -> bool {
        self.from_sq == 0 && self.to_sq == 0 && self.piece == Piece::NoPiece
    }

    pub fn is_null_move(&self) -> (r: bool)
        ensures
            r == self.is_null(),
    {
        self.from_sq == 0 && self.to_sq == 0 && self.piece == Piece::NoPiece
    }

    /// Same move, whatever the ordering scores.
    pub open spec fn same_move(self, o: Move) -> bool {
        self.from_sq == o.from_sq && self.to_sq == o.to_sq && self.piece == o.piece
            && self.promotion == o.promotion && self.is_capture == o.is_capture
            && self.is_double_push == o.is_double_push && self.is_enpassant == o.is_enpassant
            && self.is_castling == o.is_castling
    }

    pub fn equals(&self, o: &Move) -> (r: bool)
        ensures
            r == self.same_move(*o),
    {
        self.from_sq == o.from_sq && self.to_sq == o.to_sq && self.piece == o.piece
            && self.promotion == o.promotion && self.is_capture == o.is_capture
            && self.is_double_push == o.is_double_push && self.is_enpassant == o.is_enpassant
            && self.is_castling == o.is_castling
    }
}

pub const MAX_PLY: usize = 64;

/// Per-search move-ordering memory: two killer moves per ply (slot `2 * ply + k`) and a
/// history score per piece and target square (slot `64 * piece + square`).
pub struct SearchContext {
    pub killer_moves: Vec<Move>,
    pub history_moves: Vec<u32>,
}

impl SearchContext {
    pub open spec fn wf(&self) -> bool {
        self.killer_moves@.len() == 2 * MAX_PLY && self.history_moves@.len() == 768
    }

    pub fn new() -> (r: SearchContext)
        ensures
            r.wf(),
            forall|i: int| 0 <= i < 768 ==> r.history_moves@[i] == 0,
            forall|i: int| 0 <= i < 2 * MAX_PLY ==> r.killer_moves@[i].is_null(),
    {
        let mut killer_moves: Vec<Move> = Vec::new();
        let mut i: usize = 0;
        while i < 2 * MAX_PLY
            invariant
                i <= 2 * MAX_PLY,
                killer_moves@.len() == i,
                forall|j: int| 0 <= j < i ==> killer_moves@[j].is_null(),
            decreases 2 * MAX_PLY - i,
        {
            killer_moves.push(Move::null());
            i = i + 1;
        }
        let mut history_moves: Vec<u32> = Vec::new();
        let mut j: usize = 0;
        while j < 768
            invariant
                j <= 768,
                history_moves@.len() == j,
                forall|k: int| 0 <= k < j ==> history_moves@[k] == 0,
            decreases 768 - j,
        {
            history_moves.push(0);
            j = j + 1;
        }
        SearchContext { killer_moves, history_moves }
    }
}

} // verus!
