//! Keyset cursors: three order keys compared lexicographically.
//!
//! Upstream cursors are IEEE-754 doubles. Each component here is the
//! order-preserving 64-bit key of such a double, so the order of keys is the
//! order of the doubles as received, with no tolerance.

use vstd::prelude::*;

verus! {

/// A resume point: `(pri, sec, ter)` compared lexicographically.
#[derive(Clone, Copy, Debug, PartialEq, Eq, Structural)]
pub struct Cursor {
    pub pri: u64,
    pub sec: u64,
    pub ter: u64,
}

/// `a` comes strictly before `b`: primary first, then secondary, then tertiary.
pub open spec fn cursor_lt(a: Cursor, b: Cursor) -> bool {
    a.pri < b.pri || (a.pri == b.pri && (a.sec < b.sec || (a.sec == b.sec && a.ter < b.ter)))
}

/// A lower bound admits a cursor when there is no bound or the cursor lies
/// strictly after it.
pub open spec fn admits(bound: Option<Cursor>, c: Cursor) -> bool {
    match bound {
        None => true,
        Some(b) => cursor_lt(b, c),
    }
}

/// Three-way lexicographic comparison of two cursors.
pub fn compare(a: &Cursor, b: &Cursor) -> (r: core::cmp::Ordering)
    ensures
        (r == core::cmp::Ordering::Less) == cursor_lt(*a, *b),
        (r == core::cmp::Ordering::Equal) == (*a == *b),
        (r == core::cmp::Ordering::Greater) == cursor_lt(*b, *a),
{
    if a.pri < b.pri {
        core::cmp::Ordering::Less
    } else if a.pri > b.pri {
        core::cmp::Ordering::Greater
    } else if a.sec < b.sec {
        core::cmp::Ordering::Less
    } else if a.sec > b.sec {
        core::cmp::Ordering::Greater
    } else if a.ter < b.ter {
        core::cmp::Ordering::Less
    } else if a.ter > b.ter {
        core::cmp::Ordering::Greater
    } else {
        core::cmp::Ordering::Equal
    }
}

/// Whether a record at cursor `c` lies past the lower bound `bound`.
pub fn is_admitted(bound: &Option<Cursor>, c: &Cursor) -> (r: bool)
    ensures
        r == admits(*bound, *c),
{
    match bound {
        None => true,
        Some(b) => match compare(b, c) {
            core::cmp::Ordering::Less => true,
            _ => false,
        },
    }
}

/// The cursor order is a strict total order.
pub proof fn lemma_cursor_order_total(a: Cursor, b: Cursor, c: Cursor)
    ensures
        !cursor_lt(a, a),
        cursor_lt(a, b) ==> !cursor_lt(b, a),
        cursor_lt(a, b) && cursor_lt(b, c) ==> cursor_lt(a, c),
        cursor_lt(a, b) || a == b || cursor_lt(b, a),
{
}

} // verus!
