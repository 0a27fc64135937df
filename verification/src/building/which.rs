//! Choosing the program to run among the files a search has found.

use vstd::prelude::*;
use crate::building::run::{path_at, rank_at, settles_on, Candidate};

verus! {

/// The place of the candidate that a search settles on: the one with the
/// greatest rank, and the last of these where several have it. Without
/// candidates there is none.
pub fn which_cmp(found: &[Candidate]) -> (chosen: Option<usize>)
    ensures
        found@.len() == 0 <==> chosen is None,
        chosen matches Some(at) ==> settles_on(found@, at),
{
    if found.len() == 0 {
        return None;
    }
    let mut best: usize = 0;
    let mut i: usize = 1;
    while i < found.len()
        invariant
            1 <= i <= found.len(),
            best < i,
            forall|j: int| 0 <= j < i ==> found@[j].rank <= rank_at(found@, best),
            forall|j: int| best < j < i ==> found@[j].rank < rank_at(found@, best),
        decreases found.len() - i,
    {
        if found[i].rank >= found[best].rank {
            best = i;
        }
        i += 1;
    }
    Some(best)
}

/// The program to run for the name `exe`: the file that the search
/// settles on, or the name itself where the search found nothing.
pub fn which(exe: &str, found: &[Candidate]) -> (path: String)
    ensures
        found@.len() == 0 ==> path@ == exe@,
        found@.len() > 0 ==> exists|at: usize| #[trigger]
            settles_on(found@, at) && path@ == path_at(found@, at),
{
    match which_cmp(found) {
        Some(at) => found[at].path.clone(),
        None => exe.to_owned(),
    }
}

} // verus!
