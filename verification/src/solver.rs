//! Exhaustive recursive solving of Mijnlieff.

use core::ops::Not;
use vstd::prelude::*;
use crate::game::Game;
use crate::game::lemma_with_move_wf;
use crate::game::lemma_with_pass_wf;
use crate::hand::lemma_without_counts;
use crate::status::Status;
use crate::status::spec_negate;
use crate::tile::Tile;

verus! {

/// The order in which squares are analysed.
///
/// Central squares give the most scoring opportunities and hold the winning
/// reply to most first moves, so they are tried first; corners are tried
/// next, and the remaining squares in numeric order. This is purely a
/// search-efficiency heuristic: any order yields the same outcome.
pub open spec fn spec_square_preference(choice: int) -> u8 {
    if choice == 0 {
        5
    } else if choice == 1 {
        6
    } else if choice == 2 {
        9
    } else if choice == 3 {
        10
    } else if choice == 4 {
        3
    } else if choice == 5 {
        15
    } else if choice == 6 {
        12
    } else if choice == 7 {
        0
    } else if choice == 8 {
        1
    } else if choice == 9 {
        2
    } else if choice == 10 {
        4
    } else if choice == 11 {
        7
    } else if choice == 12 {
        8
    } else if choice == 13 {
        11
    } else if choice == 14 {
        13
    } else {
        14
    }
}

/// The order in which tiles are analysed: Pushers and Straights carry the
/// strongest replies, Pullers the weakest. A search-efficiency heuristic
/// only.
pub open spec fn spec_tile_preference(choice: int) -> Tile {
    if choice == 0 {
        Tile::Pusher
    } else if choice == 1 {
        Tile::Straight
    } else if choice == 2 {
        Tile::Diagonal
    } else {
        Tile::Puller
    }
}

/// The phase of a position, ordered so that the search only ever steps
/// downwards while the tile count stands still: a forced pass hands the
/// opponent a position that can be played or is over, and never another
/// forced pass.
pub open spec fn spec_phase(game: Game) -> int {
    if game.spec_is_over() {
        0
    } else if game.spec_must_pass() {
        2
    } else {
        1
    }
}

/// The outcome of perfect play from `game`, for the player about to move:
/// the status at a finished game; the negated outcome of the opponent's
/// position after a forced pass; and otherwise the best outcome any legal
/// placement can force.
pub open spec fn spec_solve(game: Game) -> Status
    decreases game.spec_tiles(), spec_phase(game), 65int,
        when game.spec_wf()
{
    if game.spec_is_over() {
        game.spec_status()
    } else if game.spec_must_pass() {
        proof {
            lemma_with_pass_wf(game);
        }
        spec_negate(spec_solve(game.spec_with_pass()))
    } else {
        spec_search(game, 0, Status::Loss)
    }
}

/// The outcome of the scan over the remaining (square, tile) choices, with
/// `best` the best outcome seen so far: a child the opponent loses makes
/// the mover's outcome a win outright; a drawn child raises `best` to a
/// draw; a child the opponent wins leaves `best` alone.
pub open spec fn spec_search(game: Game, choice: int, best: Status) -> Status
    decreases game.spec_tiles(), spec_phase(game), 64 - choice,
        when game.spec_wf() && 0 <= choice <= 64 && spec_phase(game) == 1
{
    if choice >= 64 {
        best
    } else {
        let square = spec_square_preference(choice / 4);
        let tile = spec_tile_preference(choice % 4);
        if game.unavailable.spec_is_available(square) && game.hand.spec_count(tile) > 0 {
            proof {
                lemma_without_counts(game.hand, tile);
            }
            match spec_solve(game.spec_with_move(tile, square)) {
                Status::Win => spec_search(game, choice + 1, best),
                Status::Draw => spec_search(game, choice + 1, Status::Draw),
                Status::Loss => Status::Win,
            }
        } else {
            spec_search(game, choice + 1, best)
        }
    }
}

/// The number of complete games below `game`: one for a finished game, and
/// otherwise the games below every child the search visits — all children
/// up to and including the first one whose opponent loses, where the scan
/// stops.
pub open spec fn spec_games(game: Game) -> nat
    decreases game.spec_tiles(), spec_phase(game), 65int,
        when game.spec_wf()
{
    if game.spec_is_over() {
        1
    } else if game.spec_must_pass() {
        proof {
            lemma_with_pass_wf(game);
        }
        spec_games(game.spec_with_pass())
    } else {
        spec_search_games(game, 0)
    }
}

/// The number of complete games the scan visits from choice index `choice`
/// onwards.
pub open spec fn spec_search_games(game: Game, choice: int) -> nat
    decreases game.spec_tiles(), spec_phase(game), 64 - choice,
        when game.spec_wf() && 0 <= choice <= 64 && spec_phase(game) == 1
{
    if choice >= 64 {
        0
    } else {
        let square = spec_square_preference(choice / 4);
        let tile = spec_tile_preference(choice % 4);
        if game.unavailable.spec_is_available(square) && game.hand.spec_count(tile) > 0 {
            proof {
                lemma_without_counts(game.hand, tile);
            }
            if spec_solve(game.spec_with_move(tile, square)) == Status::Loss {
                spec_games(game.spec_with_move(tile, square))
            } else {
                spec_games(game.spec_with_move(tile, square)) + spec_search_games(game, choice + 1)
            }
        } else {
            spec_search_games(game, choice + 1)
        }
    }
}

/// The order in which squares are analysed, as executable lookup.
fn square_preference(choice: usize) -> (r: u8)
    requires
        choice < 16,
    ensures
        r == spec_square_preference(choice as int),
        r < 16,
{
    match choice {
        0 => 5,
        1 => 6,
        2 => 9,
        3 => 10,
        4 => 3,
        5 => 15,
        6 => 12,
        7 => 0,
        8 => 1,
        9 => 2,
        10 => 4,
        11 => 7,
        12 => 8,
        13 => 11,
        14 => 13,
        _ => 14,
    }
}

/// The order in which tiles are analysed, as executable lookup.
fn tile_preference(choice: usize) -> (r: Tile)
    requires
        choice < 4,
    ensures
        r == spec_tile_preference(choice as int),
{
    match choice {
        0 => Tile::Pusher,
        1 => Tile::Straight,
        2 => Tile::Diagonal,
        _ => Tile::Puller,
    }
}

/// Recursively solves Mijnlieff from a specified game position, returning
/// the outcome for the player to move and adding to `games` the number of
/// complete games analysed.
///
/// Both the outcome and the count are functions of the position alone, so a
/// solve from any fixed position is reproducible across runs.
pub fn solve(game: Game, games: &mut u64) -> (r: Status)
    requires
        game.spec_wf(),
        *old(games) + spec_games(game) <= u64::MAX,
    ensures
        r == spec_solve(game),
        *final(games) == *old(games) + spec_games(game),
    decreases game.spec_tiles(), spec_phase(game), 65int,
{
    if game.is_over() {
        *games = *games + 1;
        return game.get_status();
    }

    if game.player_must_pass() {
        proof {
            lemma_with_pass_wf(game);
        }
        return solve(game.with_pass(), games).not();
    }

    // Assume a loss until the scan has found a better outcome.
    let mut status = Status::Loss;
    let mut choice: usize = 0;

    while choice < 64
        invariant
            game.spec_wf(),
            !game.spec_is_over(),
            !game.spec_must_pass(),
            choice <= 64,
            spec_search(game, choice as int, status) == spec_solve(game),
            *games + spec_search_games(game, choice as int) == *old(games) + spec_games(game),
            *old(games) + spec_games(game) <= u64::MAX,
        decreases 64 - choice,
    {
        let square = square_preference(choice / 4);
        let tile = tile_preference(choice % 4);
        if game.is_available(square) && game.has(tile) {
            proof {
                lemma_with_move_wf(game, tile, square);
            }
            match solve(game.with_move(tile, square), games) {
                Status::Win => (),
                Status::Draw => status = Status::Draw,
                // A win can't be improved upon, so the scan can stop here.
                Status::Loss => return Status::Win,
            }
        }
        choice = choice + 1;
    }

    status
}

} // verus!
