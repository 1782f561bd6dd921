//! The game state, seen from the player whose turn it is.

use vstd::prelude::*;
use crate::board::Board;
use crate::board::lemma_popcount_empty;
use crate::board::lemma_popcount_full;
use crate::board::lemma_popcount_with;
use crate::board::spec_covers;
use crate::board::spec_popcount;
use crate::board::spec_score;
use crate::hand::Hand;
use crate::hand::lemma_without_counts;
use crate::status::Status;
use crate::tile::Tile;
use crate::tile::lemma_unavailable_bits;
use crate::tile::spec_unavailable_bits;

verus! {

/// A bit field representing the initially unavailable squares.
///
/// All squares except one corner and one edge square are marked unavailable:
/// every other first move is a rotation or reflection of a move in one of
/// those two squares, so leaving them out shrinks the search without
/// changing the outcome.
pub const INITIAL_UNAVAILABLE: u16 = 0b_1111_1111_1111_1100;

/// The game state, holding only what the solver needs: the squares occupied
/// by each player, each player's hand, and the squares barred by the
/// previous player's move. Everything is read from the point of view of the
/// player about to move.
#[derive(Debug, Copy, Clone)]
pub struct Game {
    /// The board of squares occupied by the current player.
    pub board: Board,
    /// The current player's hand.
    pub hand: Hand,
    /// The board of squares occupied by the opposing player.
    pub opponent_board: Board,
    /// The opposing player's hand.
    pub opponent_hand: Hand,
    /// The board of squares unavailable to the current player, combining
    /// both players' occupied squares with the restriction left by the
    /// previous move.
    pub unavailable: Board,
}

impl Game {
    /// Well-formedness of a game state: the two players never share an
    /// occupied square, every occupied square is unavailable, and each
    /// player's occupied squares and remaining tiles together never exceed
    /// the eight tiles a player starts with.
    pub open spec fn spec_wf(self) -> bool {
        &&& self.board.0 & self.opponent_board.0 == 0
        &&& spec_covers(self.unavailable.0, self.board.0 | self.opponent_board.0)
        &&& spec_popcount(self.board.0) + self.hand.spec_total() <= 8
        &&& spec_popcount(self.opponent_board.0) + self.opponent_hand.spec_total() <= 8
    }

    /// The number of tiles left in both hands together.
    pub open spec fn spec_tiles(self) -> nat {
        self.hand.spec_total() + self.opponent_hand.spec_total()
    }

    /// The game ends when the player about to move holds no tiles.
    pub open spec fn spec_is_over(self) -> bool {
        self.hand.spec_total() == 0
    }

    /// The outcome by score comparison, for the player about to move.
    pub open spec fn spec_status(self) -> Status {
        if spec_score(self.board.0) > spec_score(self.opponent_board.0) {
            Status::Win
        } else if spec_score(self.board.0) < spec_score(self.opponent_board.0) {
            Status::Loss
        } else {
            Status::Draw
        }
    }

    /// The player must pass when every square is unavailable.
    pub open spec fn spec_must_pass(self) -> bool {
        self.unavailable.spec_is_full()
    }

    /// The state for the opponent after the current player passes: the two
    /// sides swap, and only the occupied squares stay barred.
    pub open spec fn spec_with_pass(self) -> Game {
        Game {
            board: self.opponent_board,
            hand: self.opponent_hand,
            opponent_board: self.board,
            opponent_hand: self.hand,
            unavailable: Board::spec_merge(self.board, self.opponent_board),
        }
    }

    /// The state for the opponent after the current player places a tile of
    /// type `tile` on `square`: the two sides swap, the mover's board gains
    /// the square, the mover's hand loses the tile, and the squares barred
    /// to the opponent are both occupied boards plus the placed tile's
    /// restriction.
    pub open spec fn spec_with_move(self, tile: Tile, square: u8) -> Game {
        Game {
            board: self.opponent_board,
            hand: self.opponent_hand,
            opponent_board: self.board.spec_with(square),
            opponent_hand: self.hand.spec_without(tile),
            unavailable: Board::spec_merge_3(
                self.board,
                self.opponent_board,
                Board(spec_unavailable_bits(tile, square)),
            ),
        }
    }

    /// Returns whether the game is over (because the current player's hand
    /// is empty).
    pub fn is_over(&self) -> (r: bool)
        ensures
            r == self.spec_is_over(),
    {
        self.hand.is_empty()
    }

    /// Returns the victory status, by comparing the two players' scores.
    /// Only meaningful once the game is over.
    pub fn get_status(&self) -> (r: Status)
        ensures
            r == self.spec_status(),
    {
        let score = self.board.get_score();
        let opponent_score = self.opponent_board.get_score();
        if score > opponent_score {
            Status::Win
        } else if score < opponent_score {
            Status::Loss
        } else {
            Status::Draw
        }
    }

    /// Returns whether the player must pass (because all squares are
    /// unavailable).
    pub fn player_must_pass(&self) -> (r: bool)
        ensures
            r == self.spec_must_pass(),
    {
        self.unavailable.is_full()
    }

    /// Returns whether the specified square is available.
    pub fn is_available(&self, square: u8) -> (r: bool)
        requires
            square < 16,
        ensures
            r == self.unavailable.spec_is_available(square),
    {
        self.unavailable.is_available(square)
    }

    /// Returns whether the current player's hand contains the specified
    /// tile.
    pub fn has(&self, tile: Tile) -> (r: bool)
        ensures
            r <==> self.hand.spec_count(tile) > 0,
    {
        self.hand.has(tile)
    }

    /// Returns an instance for the opponent after the current player has
    /// passed. Passing allows the opponent to play in any unoccupied
    /// square.
    pub fn with_pass(&self) -> (r: Game)
        ensures
            r == self.spec_with_pass(),
    {
        Game {
            board: self.opponent_board,
            hand: self.opponent_hand,
            opponent_board: self.board,
            opponent_hand: self.hand,
            unavailable: Board::merge(self.board, self.opponent_board),
        }
    }

    /// Returns an instance for the opponent after the specified move. The
    /// caller is responsible for only playing a tile it holds on a square
    /// that exists; whether the square is legally available is not checked
    /// here.
    pub fn with_move(&self, tile: Tile, square: u8) -> (r: Game)
        requires
            square < 16,
            self.hand.spec_count(tile) > 0,
        ensures
            r == self.spec_with_move(tile, square),
    {
        Game {
            board: self.opponent_board,
            hand: self.opponent_hand,
            opponent_board: self.board.with(square),
            opponent_hand: self.hand.without(tile),
            unavailable: Board::merge_3(
                self.board,
                self.opponent_board,
                tile.get_unavailable(square),
            ),
        }
    }
}

impl Default for Game {
    /// Returns the initial game state, with no squares occupied, each
    /// player holding a complete hand, and only the two representative
    /// first-move squares open.
    fn default() -> (r: Game)
        ensures
            r.board == Board(0u16),
            r.opponent_board == Board(0u16),
            forall|tile: Tile| r.hand.spec_count(tile) == 2,
            forall|tile: Tile| r.opponent_hand.spec_count(tile) == 2,
            r.hand.spec_total() == 8,
            r.opponent_hand.spec_total() == 8,
            r.unavailable == Board(INITIAL_UNAVAILABLE),
            r.spec_wf(),
    {
        let game = Game {
            board: Board::default(),
            hand: Hand::default(),
            opponent_board: Board::default(),
            opponent_hand: Hand::default(),
            unavailable: Board::from(INITIAL_UNAVAILABLE),
        };
        proof {
            lemma_popcount_empty();
            assert(0u16 & 0u16 == 0) by (bit_vector);
            assert(spec_covers(INITIAL_UNAVAILABLE, 0u16 | 0u16)) by (bit_vector);
        }
        game
    }
}

/// Passing preserves well-formedness and both hands; and as long as the
/// passing player still holds a tile, the position handed to the opponent is
/// never itself a forced pass.
pub proof fn lemma_with_pass_wf(game: Game)
    requires
        game.spec_wf(),
    ensures
        game.spec_with_pass().spec_wf(),
        game.spec_with_pass().spec_tiles() == game.spec_tiles(),
        !game.spec_is_over() ==> !game.spec_with_pass().spec_must_pass(),
{
    let own = game.board.0;
    let other = game.opponent_board.0;
    assert(other & own == 0 && (own | other) & (other | own) == (other | own)) by (bit_vector)
        requires
            own & other == 0,
    ;
    if !game.spec_is_over() && game.spec_with_pass().spec_must_pass() {
        lemma_popcount_full(own, other);
    }
}

/// Placing a held tile on an available square preserves well-formedness and
/// uses up exactly one tile.
pub proof fn lemma_with_move_wf(game: Game, tile: Tile, square: u8)
    requires
        game.spec_wf(),
        square < 16,
        game.hand.spec_count(tile) > 0,
        game.unavailable.spec_is_available(square),
    ensures
        game.spec_with_move(tile, square).spec_wf(),
        game.spec_with_move(tile, square).spec_tiles() == game.spec_tiles() - 1,
{
    let own = game.board.0;
    let other = game.opponent_board.0;
    let barred = game.unavailable.0;
    let mask = spec_unavailable_bits(tile, square);
    lemma_unavailable_bits(tile, square, square);
    assert(own & (1u16 << square) == 0 && other & (1u16 << square) == 0) by (bit_vector)
        requires
            barred & (own | other) == own | other,
            barred & (1u16 << square) == 0,
    ;
    assert(other & (own | (1u16 << square)) == 0) by (bit_vector)
        requires
            own & other == 0,
            other & (1u16 << square) == 0,
    ;
    assert((own | other | mask) & (other | (own | (1u16 << square))) == (other | (own | (1u16
        << square)))) by (bit_vector)
        requires
            square < 16u8,
            mask & (1u16 << square) != 0,
    ;
    lemma_popcount_with(own, square);
    lemma_without_counts(game.hand, tile);
}

} // verus!
