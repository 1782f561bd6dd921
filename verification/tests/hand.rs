use mijnlieff::hand::Hand;
use mijnlieff::tile::Tile::{Diagonal, Puller, Pusher, Straight};

#[test]
fn is_empty() {
    assert!(Hand([0, 0, 0, 0]).is_empty());
    assert!(!Hand([1, 0, 0, 0]).is_empty());
    assert!(!Hand([0, 1, 0, 0]).is_empty());
    assert!(!Hand([0, 0, 1, 0]).is_empty());
    assert!(!Hand([0, 0, 0, 1]).is_empty());
}

#[test]
fn hand_has() {
    assert_has(Hand([1, 0, 0, 0]), true, false, false, false);
    assert_has(Hand([0, 1, 0, 0]), false, true, false, false);
    assert_has(Hand([0, 0, 1, 0]), false, false, true, false);
    assert_has(Hand([0, 0, 0, 1]), false, false, false, true);
}

#[test]
fn without() {
    let hand = Hand([1, 1, 1, 1]);
    assert_has(hand.without(Puller), false, true, true, true);
    assert_has(hand.without(Pusher), true, false, true, true);
    assert_has(hand.without(Straight), true, true, false, true);
    assert_has(hand.without(Diagonal), true, true, true, false);
}

#[test]
fn hand_lifecycle() {
    let hand = Hand::default();
    assert!(!hand.is_empty());
    assert_has(hand, true, true, true, true);

    let spent = hand.without(Straight).without(Straight);
    assert_has(spent, true, true, false, true);
    assert!(!spent.is_empty());
}

fn assert_has(hand: Hand, puller: bool, pusher: bool, straight: bool, diagonal: bool) {
    assert_eq!(hand.has(Puller), puller);
    assert_eq!(hand.has(Pusher), pusher);
    assert_eq!(hand.has(Straight), straight);
    assert_eq!(hand.has(Diagonal), diagonal);
}
