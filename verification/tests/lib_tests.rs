use gor::Gor;
use std::mem::size_of_val;

#[test]
fn gor_new_creates_instance() {
    let app = Gor::new();
    // Unit struct — verify it exists and has zero size.
    assert_eq!(size_of_val(&app), 0);
}
