use std::cmp::Ordering;
use taka_the_discord_bot_api::cursor::{compare, is_admitted, Cursor};

fn c(pri: u64, sec: u64, ter: u64) -> Cursor {
    Cursor { pri, sec, ter }
}

#[test]
fn cursor_triples_order_lexicographically() {
    let chain = [c(1, 0, 0), c(1, 0, 1), c(1, 1, 0), c(2, 0, 0)];
    for i in 0..chain.len() {
        for j in 0..chain.len() {
            assert_eq!(compare(&chain[i], &chain[j]), i.cmp(&j));
        }
    }
}

#[test]
fn equal_cursors_compare_equal() {
    assert_eq!(compare(&c(7, 8, 9), &c(7, 8, 9)), Ordering::Equal);
}

#[test]
fn no_bound_admits_everything() {
    assert!(is_admitted(&None, &c(0, 0, 0)));
}

#[test]
fn bound_admits_only_later_cursors() {
    let bound = Some(c(1, 1, 0));
    assert!(!is_admitted(&bound, &c(1, 0, 1)));
    assert!(!is_admitted(&bound, &c(1, 1, 0)));
    assert!(is_admitted(&bound, &c(1, 1, 1)));
    assert!(is_admitted(&bound, &c(2, 0, 0)));
}
