//! Nearest-code suggestion for unknown currency codes.
//!
//! When an input is not a known currency code, the error message offers
//! the known code at the smallest edit distance from the input.  The
//! candidate list comes from the caller; the selection of the nearest
//! candidate is verified here.

use vstd::prelude::*;

verus! {

/// The edit distance between two byte strings.
pub uninterp spec fn edit_dist(a: Seq<u8>, b: Seq<u8>) -> nat;

/// Relies on levenshtein::levenshtein: the edit distance between two
/// strings, a function of the two arguments alone.
#[verifier::external_body]
fn edit_distance(a: &Vec<u8>, b: &Vec<u8>) -> (r: usize)
    ensures
        r == edit_dist(a@, b@),
{
    levenshtein::levenshtein(&String::from_utf8_lossy(a), &String::from_utf8_lossy(b))
}

/// Picks the candidate nearest to the query by edit distance: the index
/// of the first candidate whose distance to the query is minimal over the
/// whole list.  Only an empty list yields nothing.
pub fn nearest_code(query: &Vec<u8>, candidates: &Vec<Vec<u8>>) -> (r: Option<usize>)
    ensures
        r is Some <==> candidates@.len() > 0,
        r matches Some(i) ==> 0 <= i < candidates@.len() && (forall|j: int|
            0 <= j < candidates@.len() ==> edit_dist(query@, candidates@[i as int]@) <= edit_dist(
                query@,
                (#[trigger] candidates@[j])@,
            )) && (forall|j: int|
            0 <= j < i ==> edit_dist(query@, (#[trigger] candidates@[j])@) > edit_dist(
                query@,
                candidates@[i as int]@,
            )),
{
    if candidates.len() == 0 {
        return None;
    }
    let mut best: usize = 0;
    let mut best_dist: usize = edit_distance(query, &candidates[0]);
    let mut i: usize = 1;
    while i < candidates.len()
        invariant
            0 <= best < i <= candidates@.len(),
            best_dist == edit_dist(query@, candidates@[best as int]@),
            forall|j: int|
                0 <= j < i ==> best_dist <= edit_dist(query@, (#[trigger] candidates@[j])@),
            forall|j: int|
                0 <= j < best ==> edit_dist(query@, (#[trigger] candidates@[j])@) > best_dist,
        decreases candidates.len() - i,
    {
        let d = edit_distance(query, &candidates[i]);
        if d < best_dist {
            best = i;
            best_dist = d;
        }
        i = i + 1;
    }
    Some(best)
}

} // verus!
