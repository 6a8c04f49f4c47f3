use selfboot::machine::{word_add, word_sub};

#[test]
fn word_addition_wraps_at_the_register_width() {
    assert_eq!(word_add(u64::MAX, 2), 1);
    assert_eq!(word_add(3, 4), 7);
}

#[test]
fn word_subtraction_wraps_at_the_register_width() {
    assert_eq!(word_sub(0, 1), u64::MAX);
    assert_eq!(word_sub(10, 4), 6);
}
