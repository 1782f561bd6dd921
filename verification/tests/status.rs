use mijnlieff::status::Status::{Draw, Loss, Win};

#[test]
fn not() {
    assert_eq!(Loss, !Win);
    assert_eq!(Draw, !Draw);
    assert_eq!(Win, !Loss);
}
