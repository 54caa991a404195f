use std::collections::BTreeSet;

use rust8::input::{released_key, InputLatch};

fn keys(codes: &[u16]) -> BTreeSet<u16> {
    codes.iter().copied().collect()
}

#[test]
fn released_key_is_smallest_let_go() {
    assert_eq!(released_key(&keys(&[3, 5, 9]), &keys(&[5])), Some(3));
    assert_eq!(released_key(&keys(&[3, 5]), &keys(&[3, 5, 7])), None);
    assert_eq!(released_key(&keys(&[]), &keys(&[1])), None);
    assert_eq!(released_key(&keys(&[20]), &keys(&[])), None);
}

#[test]
fn latch_reports_a_release_once() {
    let mut latch = InputLatch::new();
    assert_eq!(latch.update(&keys(&[4, 6])), None);
    assert_eq!(latch.update(&keys(&[4, 6])), None);
    assert_eq!(latch.update(&keys(&[])), Some(4));
    assert_eq!(latch.update(&keys(&[])), None);
}
