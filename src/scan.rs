//! Locating lines by marker, and pairing a label line with the line a fixed
//! number of places after it.
use vstd::prelude::*;
use crate::text::{contains, contains_exec, views};

verus! {

/// A line holds both markers `a` and `b`.
pub open spec fn holds_both(l: Seq<char>, a: Seq<char>, b: Seq<char>) -> bool {
    contains(l, a) && contains(l, b)
}

/// Line `i` is the first one below `limit` that holds both markers.
pub open spec fn is_first_match(
    ls: Seq<Seq<char>>,
    a: Seq<char>,
    b: Seq<char>,
    limit: int,
    i: int,
) -> bool {
    &&& 0 <= i < limit
    &&& i < ls.len()
    &&& holds_both(ls[i], a, b)
    &&& forall|j: int| 0 <= j < i ==> !holds_both(#[trigger] ls[j], a, b)
}

/// The index of the first line below `limit` that holds both markers, if there is one.
pub open spec fn first_match(ls: Seq<Seq<char>>, a: Seq<char>, b: Seq<char>, limit: int) -> Option<
    int,
> {
    if exists|i: int| is_first_match(ls, a, b, limit, i) {
        Some(choose|i: int| is_first_match(ls, a, b, limit, i))
    } else {
        None
    }
}

/// The first line with both markers among the first `limit` lines.
pub fn find_line(ls: &Vec<Vec<char>>, a: &[char], b: &[char], limit: usize) -> (r: Option<usize>)
    ensures
        match r {
            Some(i) => first_match(views(ls@), a@, b@, limit as int) == Some(i as int),
            None => first_match(views(ls@), a@, b@, limit as int) is None,
        },
{
    let ghost v = views(ls@);
    let mut i: usize = 0;
    while i < limit && i < ls.len()
        invariant
            i <= ls@.len(),
            v == views(ls@),
            forall|j: int| 0 <= j < i ==> !holds_both(#[trigger] v[j], a@, b@),
        decreases ls@.len() - i,
    {
        if contains_exec(ls[i].as_slice(), a) && contains_exec(ls[i].as_slice(), b) {
            assert(is_first_match(v, a@, b@, limit as int, i as int));
            let ghost k = choose|k: int| is_first_match(v, a@, b@, limit as int, k);
            assert(k == i) by {
                if k < i {
                    assert(!holds_both(v[k], a@, b@));
                } else if k > i {
                    assert(!holds_both(v[i as int], a@, b@));
                }
            }
            return Some(i);
        }
        i += 1;
    }
    assert(!exists|k: int| is_first_match(v, a@, b@, limit as int, k)) by {
        if exists|k: int| is_first_match(v, a@, b@, limit as int, k) {
            let k = choose|k: int| is_first_match(v, a@, b@, limit as int, k);
            assert(!holds_both(v[k], a@, b@));
        }
    }
    None
}

} // verus!
