//! The presentation adapter: maps store query results into render-ready
//! view data for the greeting page and the task listing.

use vstd::prelude::*;
use crate::store::{Task, texts_of};

verus! {

/// The greeting view's one datum: the name from the request path, passed
/// through unchanged — no validation, no escaping.
pub fn greeting_name(name: String) -> (shown: String)
    ensures
        shown@ == name@,
{
    name
}

/// Projects each task to its text, producing the ordered sequence of
/// strings the listing view renders, in the order the store returned.
pub fn task_texts(tasks: &Vec<Task>) -> (texts: Vec<String>)
    ensures
        texts.deep_view() == texts_of(tasks@),
{
    let mut out: Vec<String> = Vec::new();
    let mut i: usize = 0;
    while i < tasks.len()
        invariant
            i <= tasks.len(),
            out@.len() == i,
            forall|j: int| 0 <= j < i ==> out@[j]@ == tasks@[j]@,
        decreases tasks.len() - i,
    {
        out.push(tasks[i].text.clone());
        i = i + 1;
    }
    proof {
        assert(out.deep_view() =~= texts_of(tasks@));
    }
    out
}

} // verus!
