//! A 4x4 board of occupied and available squares.

use vstd::prelude::*;
use vstd::string::StringExecFns;

verus! {

/// A board, stored as a `u16` bit field with one bit per square.
///
/// Square `i` (numbered 0 to 15 in row-major order, four squares per row)
/// corresponds to bit `i`; a set bit marks the square occupied, a clear bit
/// marks it available. Since only one bit is stored per square, the squares
/// occupied by the two players are kept as separate instances.
#[derive(Debug, Copy, Clone, PartialEq, Eq, Structural)]
pub struct Board(pub u16);

/// True when square `square` is marked in the bit pattern `bits`.
pub open spec fn spec_occupied(bits: u16, square: u8) -> bool {
    bits & (1u16 << square) != 0
}

/// The bit pattern of the three-square window with index `line`.
///
/// The 24 windows are: each row and column of four decomposed into its two
/// overlapping windows of three, plus the equivalent windows along the two
/// diagonal directions.
pub open spec fn spec_line(line: int) -> u16 {
    if line == 0 {
        0b_0000_0000_0000_0111u16
    } else if line == 1 {
        0b_0000_0000_0000_1110u16
    } else if line == 2 {
        0b_0000_0000_0111_0000u16
    } else if line == 3 {
        0b_0000_0000_1110_0000u16
    } else if line == 4 {
        0b_0000_0111_0000_0000u16
    } else if line == 5 {
        0b_0000_1110_0000_0000u16
    } else if line == 6 {
        0b_0111_0000_0000_0000u16
    } else if line == 7 {
        0b_1110_0000_0000_0000u16
    } else if line == 8 {
        0b_0000_0001_0001_0001u16
    } else if line == 9 {
        0b_0000_0010_0010_0010u16
    } else if line == 10 {
        0b_0000_0100_0100_0100u16
    } else if line == 11 {
        0b_0000_1000_1000_1000u16
    } else if line == 12 {
        0b_0001_0001_0001_0000u16
    } else if line == 13 {
        0b_0010_0010_0010_0000u16
    } else if line == 14 {
        0b_0100_0100_0100_0000u16
    } else if line == 15 {
        0b_1000_1000_1000_0000u16
    } else if line == 16 {
        0b_0000_0100_0010_0001u16
    } else if line == 17 {
        0b_0000_1000_0100_0010u16
    } else if line == 18 {
        0b_0100_0010_0001_0000u16
    } else if line == 19 {
        0b_1000_0100_0010_0000u16
    } else if line == 20 {
        0b_0000_0001_0010_0100u16
    } else if line == 21 {
        0b_0000_0010_0100_1000u16
    } else if line == 22 {
        0b_0001_0010_0100_0000u16
    } else {
        0b_0010_0100_1000_0000u16
    }
}

/// Whether every square of `mask` is occupied in `bits`.
pub open spec fn spec_covers(bits: u16, mask: u16) -> bool {
    bits & mask == mask
}

/// The number of three-square windows with index below `n` that are fully
/// contained in `bits`.
pub open spec fn spec_score_upto(bits: u16, n: int) -> nat
    decreases n,
{
    if n <= 0 {
        0
    } else {
        spec_score_upto(bits, n - 1) + if spec_covers(bits, spec_line(n - 1)) {
            1nat
        } else {
            0nat
        }
    }
}

/// The score of a bit pattern: how many of the 24 three-square windows it
/// fully contains.
pub open spec fn spec_score(bits: u16) -> nat {
    spec_score_upto(bits, 24)
}

/// The bit pattern of the three-square window with index `line`.
fn line_mask(line: usize) -> (r: u16)
    requires
        line < 24,
    ensures
        r == spec_line(line as int),
{
    match line {
        0 => 0b_0000_0000_0000_0111,
        1 => 0b_0000_0000_0000_1110,
        2 => 0b_0000_0000_0111_0000,
        3 => 0b_0000_0000_1110_0000,
        4 => 0b_0000_0111_0000_0000,
        5 => 0b_0000_1110_0000_0000,
        6 => 0b_0111_0000_0000_0000,
        7 => 0b_1110_0000_0000_0000,
        8 => 0b_0000_0001_0001_0001,
        9 => 0b_0000_0010_0010_0010,
        10 => 0b_0000_0100_0100_0100,
        11 => 0b_0000_1000_1000_1000,
        12 => 0b_0001_0001_0001_0000,
        13 => 0b_0010_0010_0010_0000,
        14 => 0b_0100_0100_0100_0000,
        15 => 0b_1000_1000_1000_0000,
        16 => 0b_0000_0100_0010_0001,
        17 => 0b_0000_1000_0100_0010,
        18 => 0b_0100_0010_0001_0000,
        19 => 0b_1000_0100_0010_0000,
        20 => 0b_0000_0001_0010_0100,
        21 => 0b_0000_0010_0100_1000,
        22 => 0b_0001_0010_0100_0000,
        _ => 0b_0010_0100_1000_0000,
    }
}

impl Board {
    /// Whether every square of the board is marked.
    pub open spec fn spec_is_full(self) -> bool {
        self.0 == 0b_1111_1111_1111_1111u16
    }

    /// Whether `square` is clear on this board.
    pub open spec fn spec_is_available(self, square: u8) -> bool {
        !spec_occupied(self.0, square)
    }

    /// This board with `square` marked as occupied.
    pub open spec fn spec_with(self, square: u8) -> Board {
        Board(self.0 | (1u16 << square))
    }

    /// The union of two boards.
    pub open spec fn spec_merge(board_1: Board, board_2: Board) -> Board {
        Board(board_1.0 | board_2.0)
    }

    /// The union of three boards.
    pub open spec fn spec_merge_3(board_1: Board, board_2: Board, board_3: Board) -> Board {
        Board(board_1.0 | board_2.0 | board_3.0)
    }

    /// Returns the score for the board: the number of the 24 three-square
    /// windows whose squares are all occupied.
    pub fn get_score(&self) -> (r: u8)
        ensures
            r as nat == spec_score(self.0),
            r <= 24,
    {
        let mut score: u8 = 0;
        let mut line: usize = 0;
        while line < 24
            invariant
                line <= 24,
                score as nat == spec_score_upto(self.0, line as int),
                score <= line,
            decreases 24 - line,
        {
            let mask = line_mask(line);
            if self.0 & mask == mask {
                score = score + 1;
            }
            line = line + 1;
        }
        score
    }

    /// Returns whether all squares are occupied.
    pub fn is_full(&self) -> (r: bool)
        ensures
            r == self.spec_is_full(),
            r <==> (forall|square: u8| square < 16 ==> spec_occupied(self.0, square)),
    {
        proof {
            lemma_full_iff_all_occupied(*self);
        }
        self.0 == 0b_1111_1111_1111_1111
    }

    /// Returns whether the specified square is available.
    pub fn is_available(&self, square: u8) -> (r: bool)
        requires
            square < 16,
        ensures
            r == self.spec_is_available(square),
    {
        self.0 & (1u16 << square) == 0
    }

    /// Returns an instance with the specified square marked as occupied.
    pub fn with(&self, square: u8) -> (r: Board)
        requires
            square < 16,
        ensures
            r == self.spec_with(square),
    {
        Board(self.0 | (1u16 << square))
    }

    /// Returns an instance with each square marked as occupied if it is
    /// occupied in either of the specified boards.
    pub fn merge(board_1: Board, board_2: Board) -> (r: Board)
        ensures
            r == Board::spec_merge(board_1, board_2),
    {
        Board(board_1.0 | board_2.0)
    }

    /// Returns an instance with each square marked as occupied if it is
    /// occupied in any of the specified boards.
    pub fn merge_3(board_1: Board, board_2: Board, board_3: Board) -> (r: Board)
        ensures
            r == Board::spec_merge_3(board_1, board_2, board_3),
    {
        Board(board_1.0 | board_2.0 | board_3.0)
    }
}

/// The character drawn for a square: a filled box when occupied, an open
/// box when available.
pub open spec fn spec_cell(bits: u16, square: u8) -> char {
    if spec_occupied(bits, square) {
        '■'
    } else {
        '□'
    }
}

/// The character drawn before a square: a line break at the start of each
/// row, a space otherwise.
pub open spec fn spec_separator(square: u8) -> char {
    if square % 4 == 0 {
        '\n'
    } else {
        ' '
    }
}

/// The diagnostic rendering of the first `n` squares: one character per
/// square, spaces within a row and line breaks between rows.
pub open spec fn spec_render_upto(bits: u16, n: int) -> Seq<char>
    decreases n,
{
    if n <= 0 {
        Seq::empty()
    } else {
        let prefix = spec_render_upto(bits, n - 1);
        let separated = if n - 1 > 0 {
            prefix.push(spec_separator((n - 1) as u8))
        } else {
            prefix
        };
        separated.push(spec_cell(bits, (n - 1) as u8))
    }
}

/// The diagnostic rendering of a whole board, row by row.
pub open spec fn spec_render(bits: u16) -> Seq<char> {
    spec_render_upto(bits, 16)
}

/// Appends one character to the string.
fn push_char(s: &mut String, c: char, piece: &str)
    requires
        piece@.len() == 1,
        piece@[0] == c,
    ensures
        final(s)@ == old(s)@.push(c),
{
    s.append(piece);
    proof {
        assert(s@ =~= old(s)@.push(c));
    }
}

impl Board {
    /// Returns a diagnostic 4x4 rendering of the board, one character per
    /// square, with rows separated by line breaks. Not part of the solved
    /// semantics.
    pub fn render(&self) -> (r: String)
        ensures
            r@ == spec_render(self.0),
    {
        let mut s = String::new();
        let mut square: u8 = 0;
        while square < 16
            invariant
                square <= 16,
                s@ == spec_render_upto(self.0, square as int),
            decreases 16 - square,
        {
            proof {
                reveal_strlit("\n");
                reveal_strlit(" ");
                reveal_strlit("■");
                reveal_strlit("□");
            }
            if square > 0 {
                if square % 4 == 0 {
                    push_char(&mut s, '\n', "\n");
                } else {
                    push_char(&mut s, ' ', " ");
                }
            }
            if self.is_available(square) {
                push_char(&mut s, '□', "□");
            } else {
                push_char(&mut s, '■', "■");
            }
            square = square + 1;
        }
        s
    }
}

impl Default for Board {
    /// Returns the empty board, with every square available.
    fn default() -> (r: Board)
        ensures
            r == Board(0u16),
    {
        Board(0)
    }
}

impl From<u16> for Board {
    /// Returns the board whose bit pattern is `value`.
    fn from(value: u16) -> (r: Board)
        ensures
            r == Board(value),
    {
        Board(value)
    }
}

impl vstd::std_specs::convert::FromSpecImpl<u16> for Board {
    open spec fn obeys_from_spec() -> bool {
        true
    }

    open spec fn from_spec(value: u16) -> Board {
        Board(value)
    }
}

impl From<Board> for u16 {
    /// Returns the bit pattern of `value`.
    fn from(value: Board) -> (r: u16)
        ensures
            r == value.0,
    {
        value.0
    }
}

impl vstd::std_specs::convert::FromSpecImpl<Board> for u16 {
    open spec fn obeys_from_spec() -> bool {
        true
    }

    open spec fn from_spec(value: Board) -> u16 {
        value.0
    }
}

/// A board is full exactly when every one of the sixteen squares is
/// occupied; it is not full whenever at least one square is clear.
pub proof fn lemma_full_iff_all_occupied(board: Board)
    ensures
        board.spec_is_full() <==> (forall|square: u8|
            square < 16 ==> spec_occupied(board.0, square)),
{
    let bits = board.0;
    if bits == 0b_1111_1111_1111_1111u16 {
        assert forall|square: u8| square < 16 implies spec_occupied(bits, square) by {
            assert(bits & (1u16 << square) != 0) by (bit_vector)
                requires
                    square < 16,
                    bits == 0b_1111_1111_1111_1111u16,
            ;
        }
    }
    if forall|square: u8| square < 16 ==> spec_occupied(bits, square) {
        assert(spec_occupied(bits, 0u8));
        assert(spec_occupied(bits, 1u8));
        assert(spec_occupied(bits, 2u8));
        assert(spec_occupied(bits, 3u8));
        assert(spec_occupied(bits, 4u8));
        assert(spec_occupied(bits, 5u8));
        assert(spec_occupied(bits, 6u8));
        assert(spec_occupied(bits, 7u8));
        assert(spec_occupied(bits, 8u8));
        assert(spec_occupied(bits, 9u8));
        assert(spec_occupied(bits, 10u8));
        assert(spec_occupied(bits, 11u8));
        assert(spec_occupied(bits, 12u8));
        assert(spec_occupied(bits, 13u8));
        assert(spec_occupied(bits, 14u8));
        assert(spec_occupied(bits, 15u8));
        assert(bits == 0b_1111_1111_1111_1111u16) by (bit_vector)
            requires
                bits & (1u16 << 0u8) != 0,
                bits & (1u16 << 1u8) != 0,
                bits & (1u16 << 2u8) != 0,
                bits & (1u16 << 3u8) != 0,
                bits & (1u16 << 4u8) != 0,
                bits & (1u16 << 5u8) != 0,
                bits & (1u16 << 6u8) != 0,
                bits & (1u16 << 7u8) != 0,
                bits & (1u16 << 8u8) != 0,
                bits & (1u16 << 9u8) != 0,
                bits & (1u16 << 10u8) != 0,
                bits & (1u16 << 11u8) != 0,
                bits & (1u16 << 12u8) != 0,
                bits & (1u16 << 13u8) != 0,
                bits & (1u16 << 14u8) != 0,
                bits & (1u16 << 15u8) != 0,
        ;
    }
}

/// Marking a square leaves that square unavailable: `with` followed by
/// `is_available` on the same square always answers false.
pub proof fn lemma_with_occupies(board: Board, square: u8)
    requires
        square < 16,
    ensures
        !board.spec_with(square).spec_is_available(square),
        spec_occupied(board.spec_with(square).0, square),
{
    let bits = board.0;
    assert((bits | (1u16 << square)) & (1u16 << square) != 0) by (bit_vector)
        requires
            square < 16,
    ;
}

/// Marking a square changes no other square.
pub proof fn lemma_with_preserves_others(board: Board, square: u8, other: u8)
    requires
        square < 16,
        other < 16,
        other != square,
    ensures
        spec_occupied(board.spec_with(square).0, other) == spec_occupied(board.0, other),
{
    let bits = board.0;
    assert(((bits | (1u16 << square)) & (1u16 << other) != 0) == (bits & (1u16 << other)
        != 0)) by (bit_vector)
        requires
            square < 16,
            other < 16,
            other != square,
    ;
}

/// Marking two distinct squares on the empty board is order-independent, and
/// the result holds exactly those two squares and no others.
pub proof fn lemma_with_two_squares(square_1: u8, square_2: u8)
    requires
        square_1 < 16,
        square_2 < 16,
        square_1 != square_2,
    ensures
        Board(0u16).spec_with(square_1).spec_with(square_2) == Board(0u16).spec_with(
            square_2,
        ).spec_with(square_1),
        spec_occupied(Board(0u16).spec_with(square_1).spec_with(square_2).0, square_1),
        spec_occupied(Board(0u16).spec_with(square_1).spec_with(square_2).0, square_2),
        forall|other: u8|
            other < 16 && other != square_1 && other != square_2
                ==> !spec_occupied(Board(0u16).spec_with(square_1).spec_with(square_2).0, other),
{
    assert((0u16 | (1u16 << square_1)) | (1u16 << square_2) == (0u16 | (1u16 << square_2)) | (1u16
        << square_1)) by (bit_vector);
    assert(forall|other: u8|
        other < 16 && other != square_1 && other != square_2 ==> ((0u16 | (1u16 << square_1)) | (
        1u16 << square_2)) & (1u16 << other) == 0) by (bit_vector)
        requires
            square_1 < 16,
            square_2 < 16,
    ;
    lemma_with_occupies(Board(0u16).spec_with(square_1), square_2);
    lemma_with_occupies(Board(0u16), square_1);
    lemma_with_preserves_others(Board(0u16).spec_with(square_1), square_2, square_1);
}

/// Merging boards is commutative.
pub proof fn lemma_merge_commutative(board_1: Board, board_2: Board)
    ensures
        Board::spec_merge(board_1, board_2) == Board::spec_merge(board_2, board_1),
{
    let (a, b) = (board_1.0, board_2.0);
    assert(a | b == b | a) by (bit_vector);
}

/// Merging boards is associative, and merging a third board into a pairwise
/// merge is the same as the three-way merge.
pub proof fn lemma_merge_associative(board_1: Board, board_2: Board, board_3: Board)
    ensures
        Board::spec_merge(Board::spec_merge(board_1, board_2), board_3) == Board::spec_merge(
            board_1,
            Board::spec_merge(board_2, board_3),
        ),
        Board::spec_merge(Board::spec_merge(board_1, board_2), board_3) == Board::spec_merge_3(
            board_1,
            board_2,
            board_3,
        ),
{
    let (a, b, c) = (board_1.0, board_2.0, board_3.0);
    assert((a | b) | c == a | (b | c)) by (bit_vector);
}

/// The number of occupied squares in a bit pattern.
pub open spec fn spec_popcount(bits: u16) -> int {
    ((bits >> 0u16) & 1u16) + ((bits >> 1u16) & 1u16) + ((bits >> 2u16) & 1u16) + ((bits >> 3u16)
        & 1u16) + ((bits >> 4u16) & 1u16) + ((bits >> 5u16) & 1u16) + ((bits >> 6u16) & 1u16) + ((
    bits >> 7u16) & 1u16) + ((bits >> 8u16) & 1u16) + ((bits >> 9u16) & 1u16) + ((bits >> 10u16)
        & 1u16) + ((bits >> 11u16) & 1u16) + ((bits >> 12u16) & 1u16) + ((bits >> 13u16) & 1u16) + ((
    bits >> 14u16) & 1u16) + ((bits >> 15u16) & 1u16)
}

/// The empty pattern holds no occupied squares.
pub proof fn lemma_popcount_empty()
    ensures
        spec_popcount(0u16) == 0,
{
    assert(spec_popcount(0u16) == 0) by (bit_vector);
}

/// Marking a fresh square raises the occupied-square count by one.
pub proof fn lemma_popcount_with(bits: u16, square: u8)
    requires
        square < 16,
        !spec_occupied(bits, square),
    ensures
        spec_popcount(bits | (1u16 << square)) == spec_popcount(bits) + 1,
{
    assert(spec_popcount(bits | (1u16 << square)) == spec_popcount(bits) + 1) by (bit_vector)
        requires
            square < 16,
            bits & (1u16 << square) == 0,
    ;
}

/// Two disjoint patterns that jointly cover the whole board hold sixteen
/// occupied squares between them.
pub proof fn lemma_popcount_full(bits_1: u16, bits_2: u16)
    requires
        bits_1 & bits_2 == 0,
        bits_1 | bits_2 == 0b_1111_1111_1111_1111u16,
    ensures
        spec_popcount(bits_1) + spec_popcount(bits_2) == 16,
{
    assert(spec_popcount(bits_1) + spec_popcount(bits_2) == 16) by (bit_vector)
        requires
            bits_1 & bits_2 == 0,
            bits_1 | bits_2 == 0b_1111_1111_1111_1111u16,
    ;
}

} // verus!
