//! A player's remaining supply of tiles.

use vstd::prelude::*;
use crate::tile::Tile;
use crate::tile::spec_tile_index;

verus! {

/// A player's hand: four counters, one per tile type, in the order given by
/// `spec_tile_index`.
#[derive(Debug, Copy, Clone, Eq)]
#[verifier::ext_equal]
pub struct Hand(pub [u8; 4]);

impl Hand {
    /// How many tiles of type `tile` the hand still holds.
    pub open spec fn spec_count(self, tile: Tile) -> u8 {
        self.0[spec_tile_index(tile)]
    }

    /// The total number of tiles in the hand.
    pub open spec fn spec_total(self) -> nat {
        self.0[0] as nat + self.0[1] as nat + self.0[2] as nat + self.0[3] as nat
    }

    /// This hand with one tile of type `tile` removed.
    pub open spec fn spec_without(self, tile: Tile) -> Hand {
        Hand(
            vstd::array::spec_array_update(
                self.0,
                spec_tile_index(tile),
                (self.0[spec_tile_index(tile)] - 1) as u8,
            ),
        )
    }

    /// Returns whether the hand is empty.
    pub fn is_empty(&self) -> (r: bool)
        ensures
            r <==> self.spec_total() == 0,
    {
        self.0[0] == 0 && self.0[1] == 0 && self.0[2] == 0 && self.0[3] == 0
    }

    /// Returns whether the hand contains the specified tile.
    pub fn has(&self, tile: Tile) -> (r: bool)
        ensures
            r <==> self.spec_count(tile) > 0,
    {
        self.0[tile.index()] > 0
    }

    /// Returns a new hand with one of the specified tile having been
    /// removed.
    pub fn without(&self, tile: Tile) -> (r: Hand)
        requires
            self.spec_count(tile) > 0,
        ensures
            r == self.spec_without(tile),
            r.spec_count(tile) == self.spec_count(tile) - 1,
            forall|other: Tile| other != tile ==> r.spec_count(other) == self.spec_count(other),
            r.spec_total() == self.spec_total() - 1,
    {
        let mut hand = *self;
        let index = tile.index();
        hand.0[index] = hand.0[index] - 1;
        proof {
            assert(hand.0 =~= self.spec_without(tile).0);
            lemma_without_counts(*self, tile);
        }
        hand
    }
}

/// Removing one tile of a type lowers that type's counter by one, leaves
/// every other counter unchanged, and lowers the total by one.
pub proof fn lemma_without_counts(hand: Hand, tile: Tile)
    requires
        hand.spec_count(tile) > 0,
    ensures
        hand.spec_without(tile).spec_count(tile) == hand.spec_count(tile) - 1,
        forall|other: Tile|
            other != tile ==> hand.spec_without(tile).spec_count(other) == hand.spec_count(other),
        hand.spec_without(tile).spec_total() == hand.spec_total() - 1,
{
    let updated = hand.spec_without(tile);
    assert(updated.0@ == hand.0@.update(
        spec_tile_index(tile),
        (hand.0[spec_tile_index(tile)] - 1) as u8,
    ));
    assert forall|other: Tile| other != tile implies updated.spec_count(other) == hand.spec_count(
        other,
    ) by {
        assert(spec_tile_index(other) != spec_tile_index(tile));
    }
}

impl PartialEq for Hand {
    /// Returns whether two hands hold the same counts for every tile type.
    fn eq(&self, other: &Hand) -> bool {
        self.0[0] == other.0[0] && self.0[1] == other.0[1] && self.0[2] == other.0[2] && self.0[3]
            == other.0[3]
    }
}

impl vstd::std_specs::cmp::PartialEqSpecImpl for Hand {
    open spec fn obeys_eq_spec() -> bool {
        true
    }

    open spec fn eq_spec(&self, other: &Hand) -> bool {
        self.0[0] == other.0[0] && self.0[1] == other.0[1] && self.0[2] == other.0[2] && self.0[3]
            == other.0[3]
    }
}

impl Default for Hand {
    /// Returns the default hand containing two of each tile.
    fn default() -> (r: Hand)
        ensures
            forall|tile: Tile| r.spec_count(tile) == 2,
            r.spec_total() == 8,
    {
        Hand([2, 2, 2, 2])
    }
}

} // verus!
