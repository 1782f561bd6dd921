use mijnlieff::board::Board;

#[test]
fn from() {
    let bitfield = 0b_1000_0100_0010_0001;
    assert_eq!(bitfield, u16::from(Board::from(bitfield)));
}

#[test]
fn fmt() {
    assert_eq!(
        "■ □ □ □\n□ ■ ■ □\n□ ■ ■ □\n■ ■ ■ ■",
        Board::from(0b_1111_0110_0110_0001).render()
    );
}

#[test]
fn get_score() {
    assert_eq!(0, Board::from(0b_0000_0000_0000_0000).get_score());
    assert_eq!(1, Board::from(0b_0000_0000_0000_0111).get_score());
    assert_eq!(0, Board::from(0b_0110_1001_1001_0110).get_score());
    assert_eq!(6, Board::from(0b_0100_1110_0111_0010).get_score());
}

#[test]
fn is_full() {
    assert!(!Board::from(0b_0111_1111_1111_1111).is_full());
    assert!(Board::from(0b_1111_1111_1111_1111).is_full());
}

#[test]
fn board_is_available() {
    assert!(Board::from(0b_0000_0000_000_0000).is_available(0));
    assert!(!Board::from(0b_0000_0000_000_0001).is_available(0));
}

#[test]
fn with() {
    assert_eq!(
        0b_1000_0000_0000_0010,
        u16::from(Board::default().with(1).with(15))
    )
}

#[test]
fn merge() {
    assert_eq!(
        0b_0000_1111_1111_1111,
        u16::from(Board::merge(
            Board::from(0b_0000_0000_1111_1111),
            Board::from(0b_0000_1111_0000_1111)
        ))
    );
}

#[test]
fn merge_3() {
    assert_eq!(
        0b_0011_1111_1111_1111,
        u16::from(Board::merge_3(
            Board::from(0b_0000_0000_1111_1111),
            Board::from(0b_0000_1111_0000_1111),
            Board::from(0b_0011_0011_0011_0011)
        ))
    );
}

/// The 24 windows of three collinear squares, written out independently of
/// the library's own list.
const WINDOWS: [u16; 24] = [
    0b_0000_0000_0000_0111,
    0b_0000_0000_0000_1110,
    0b_0000_0000_0111_0000,
    0b_0000_0000_1110_0000,
    0b_0000_0111_0000_0000,
    0b_0000_1110_0000_0000,
    0b_0111_0000_0000_0000,
    0b_1110_0000_0000_0000,
    0b_0000_0001_0001_0001,
    0b_0000_0010_0010_0010,
    0b_0000_0100_0100_0100,
    0b_0000_1000_1000_1000,
    0b_0001_0001_0001_0000,
    0b_0010_0010_0010_0000,
    0b_0100_0100_0100_0000,
    0b_1000_1000_1000_0000,
    0b_0000_0100_0010_0001,
    0b_0000_1000_0100_0010,
    0b_0100_0010_0001_0000,
    0b_1000_0100_0010_0000,
    0b_0000_0001_0010_0100,
    0b_0000_0010_0100_1000,
    0b_0001_0010_0100_0000,
    0b_0010_0100_1000_0000,
];

#[test]
fn score_matches_window_enumeration() {
    for bits in 0..=u16::MAX {
        let mut expected = 0;
        for window in WINDOWS {
            if bits & window == window {
                expected += 1;
            }
        }
        assert_eq!(expected, Board::from(bits).get_score());
    }
}

#[test]
fn is_full_single_missing() {
    for square in 0..16 {
        assert!(!Board::from(0xFFFF & !(1 << square)).is_full());
    }
}

#[test]
fn with_order_independent() {
    let one_way = Board::default().with(3).with(9);
    let other_way = Board::default().with(9).with(3);
    assert_eq!(one_way, other_way);
    assert_eq!(u16::from(one_way), (1 << 3) | (1 << 9));
    assert!(!one_way.is_available(3));
    assert!(!one_way.is_available(9));
}

#[test]
fn merge_laws() {
    let a = Board::from(0b_0000_0000_1010_0101);
    let b = Board::from(0b_0101_1010_0000_0000);
    let c = Board::from(0b_0011_0000_0000_1100);
    assert_eq!(Board::merge(a, b), Board::merge(b, a));
    assert_eq!(Board::merge(Board::merge(a, b), c), Board::merge_3(a, b, c));
    assert_eq!(
        Board::merge(Board::merge(a, b), c),
        Board::merge(a, Board::merge(b, c))
    );
}
