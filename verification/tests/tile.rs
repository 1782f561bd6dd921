use mijnlieff::tile::Tile::{Diagonal, Puller, Pusher, Straight};

#[test]
fn tile_masks() {
    // A Puller placed on the corner square 0 offers only the touching
    // squares 1, 4 and 5; everything else is barred.
    assert_eq!(
        0b_1111_1111_1100_1101,
        u16::from(Puller.get_unavailable(0))
    );

    // A Pusher placed on square 0 bars exactly its own square and the
    // touching squares 1, 4 and 5.
    assert_eq!(
        0b_0000_0000_0011_0011,
        u16::from(Pusher.get_unavailable(0))
    );

    // A Straight placed on square 10 offers only the rest of its row
    // (8, 9, 11) and column (2, 6, 14).
    assert_eq!(
        0b_1011_0100_1011_1011,
        u16::from(Straight.get_unavailable(10))
    );

    // A Diagonal placed on square 5 offers only the diagonal squares
    // 0, 2, 8, 10 and 15.
    assert_eq!(
        0b_0111_1010_1111_1010,
        u16::from(Diagonal.get_unavailable(5))
    );
}

#[test]
fn own_square_always_barred() {
    for square in 0..16 {
        for tile in [Puller, Pusher, Straight, Diagonal] {
            assert!(!tile.get_unavailable(square).is_available(square));
        }
    }
}
