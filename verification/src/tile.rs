//! The four tile types and the squares each one bars to the opponent.

use vstd::prelude::*;
use crate::board::Board;
use crate::board::spec_occupied;

verus! {

/// One of the four placeable tile kinds. Each kind restricts, in its own
/// way, where the opponent may place a tile on their immediate next turn.
#[derive(Debug, Copy, Clone, PartialEq, Eq, Structural)]
pub enum Tile {
    Puller,
    Pusher,
    Straight,
    Diagonal,
}

/// The position of a tile type in a hand's counter array.
pub open spec fn spec_tile_index(tile: Tile) -> int {
    match tile {
        Tile::Puller => 0,
        Tile::Pusher => 1,
        Tile::Straight => 2,
        Tile::Diagonal => 3,
    }
}

/// The row of a square, counting rows of four from the top.
pub open spec fn spec_row(square: u8) -> int {
    square as int / 4
}

/// The column of a square.
pub open spec fn spec_col(square: u8) -> int {
    square as int % 4
}

/// Whether a tile of type `tile` placed on `from` leaves `to` open to the
/// opponent's next placement:
///
/// - a Puller pulls the opponent next to itself: `to` must touch `from`,
///   orthogonally or diagonally;
/// - a Pusher pushes the opponent away: `to` must not touch `from`;
/// - a Straight demands a square in line with `from`: same row or column;
/// - a Diagonal demands a square on a common diagonal with `from`.
///
/// No tile ever offers its own square.
pub open spec fn spec_allows(tile: Tile, from: u8, to: u8) -> bool {
    let row_delta = spec_row(to) - spec_row(from);
    let col_delta = spec_col(to) - spec_col(from);
    to != from && match tile {
        Tile::Puller => -1 <= row_delta && row_delta <= 1 && -1 <= col_delta && col_delta <= 1,
        Tile::Pusher => !(-1 <= row_delta && row_delta <= 1 && -1 <= col_delta && col_delta <= 1),
        Tile::Straight => row_delta == 0 || col_delta == 0,
        Tile::Diagonal => row_delta == col_delta || row_delta == -col_delta,
    }
}

/// The bit pattern whose set bits are the squares below `n` that `tile`
/// placed on `square` bars to the opponent.
pub open spec fn spec_mask_upto(tile: Tile, square: u8, n: int) -> u16
    decreases n,
{
    if n <= 0 {
        0u16
    } else if spec_allows(tile, square, (n - 1) as u8) {
        spec_mask_upto(tile, square, n - 1)
    } else {
        spec_mask_upto(tile, square, n - 1) | (1u16 << ((n - 1) as u8))
    }
}

/// The bit pattern of every square that `tile` placed on `square` bars to
/// the opponent's next placement, the tile's own square included.
pub open spec fn spec_unavailable_bits(tile: Tile, square: u8) -> u16 {
    spec_mask_upto(tile, square, 16)
}

proof fn lemma_mask_upto_bits(tile: Tile, square: u8, n: int, target: u8)
    requires
        square < 16,
        0 <= n <= 16,
        target < 16,
    ensures
        target < n ==> (spec_occupied(spec_mask_upto(tile, square, n), target) <==> !spec_allows(
            tile,
            square,
            target,
        )),
        target >= n ==> !spec_occupied(spec_mask_upto(tile, square, n), target),
    decreases n,
{
    if n <= 0 {
        assert(0u16 & (1u16 << target) == 0) by (bit_vector);
    } else {
        lemma_mask_upto_bits(tile, square, n - 1, target);
        let previous = spec_mask_upto(tile, square, n - 1);
        let latest = (n - 1) as u8;
        if !spec_allows(tile, square, latest) {
            assert(((previous | (1u16 << latest)) & (1u16 << target) != 0) == (previous & (1u16
                << target) != 0 || target == latest)) by (bit_vector)
                requires
                    latest < 16,
                    target < 16,
            ;
        }
    }
}

/// A square is barred by a placement exactly when the placed tile's
/// restriction does not allow it; in particular the placed tile's own square
/// is always barred.
pub proof fn lemma_unavailable_bits(tile: Tile, square: u8, target: u8)
    requires
        square < 16,
        target < 16,
    ensures
        spec_occupied(spec_unavailable_bits(tile, square), target) <==> !spec_allows(
            tile,
            square,
            target,
        ),
        spec_occupied(spec_unavailable_bits(tile, square), square),
{
    lemma_mask_upto_bits(tile, square, 16, target);
    lemma_mask_upto_bits(tile, square, 16, square);
}

/// Whether a tile of type `tile` placed on `from` leaves `to` open to the
/// opponent's next placement.
fn allows(tile: Tile, from: u8, to: u8) -> (r: bool)
    requires
        from < 16,
        to < 16,
    ensures
        r == spec_allows(tile, from, to),
{
    if to == from {
        return false;
    }
    let row_delta = (to / 4) as i32 - (from / 4) as i32;
    let col_delta = (to % 4) as i32 - (from % 4) as i32;
    match tile {
        Tile::Puller => -1 <= row_delta && row_delta <= 1 && -1 <= col_delta && col_delta <= 1,
        Tile::Pusher => !(-1 <= row_delta && row_delta <= 1 && -1 <= col_delta && col_delta <= 1),
        Tile::Straight => row_delta == 0 || col_delta == 0,
        Tile::Diagonal => row_delta == col_delta || row_delta == -col_delta,
    }
}

impl Tile {
    /// The position of this tile type in a hand's counter array.
    pub fn index(self) -> (r: usize)
        ensures
            r == spec_tile_index(self),
            r < 4,
    {
        match self {
            Tile::Puller => 0,
            Tile::Pusher => 1,
            Tile::Straight => 2,
            Tile::Diagonal => 3,
        }
    }

    /// Returns the board of squares that placing this tile on the specified
    /// square bars to the opponent's next placement.
    pub fn get_unavailable(self, square: u8) -> (r: Board)
        requires
            square < 16,
        ensures
            r == Board(spec_unavailable_bits(self, square)),
    {
        let mut bits: u16 = 0;
        let mut target: u8 = 0;
        while target < 16
            invariant
                square < 16,
                target <= 16,
                bits == spec_mask_upto(self, square, target as int),
            decreases 16 - target,
        {
            if !allows(self, square, target) {
                bits = bits | (1u16 << target);
            }
            target = target + 1;
        }
        Board(bits)
    }
}

} // verus!
