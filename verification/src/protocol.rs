//! The task-update protocol: one form submission carries an optional delete
//! key and an optional new task text, and the protocol sequences the store
//! calls with a fixed order and no-op policy.
//!
//! The `id` field carries the *text* of the tasks to delete, not a stable
//! identifier; that naming mismatch is inherited behaviour, kept on purpose.

use vstd::prelude::*;
use crate::model::{after_update, opt_text};
use crate::store::TaskStore;

verus! {

/// One update request, as the form hands it over: either field may be
/// absent, and both may be present in the same request.
pub struct UpdateRequest {
    /// Text of the tasks to delete, if a delete is requested. May be the
    /// empty string, which deletes tasks whose text is exactly empty.
    pub id: Option<String>,
    /// Text of the task to insert, if an insert is requested. A present but
    /// empty text performs no insert.
    pub task: Option<String>,
}

/// The store actions one request calls for: first the delete, then the
/// insert, each optional and independent of the other.
pub struct UpdatePlan {
    /// Delete every task with exactly this text.
    pub delete_key: Option<String>,
    /// Append one task with this text; never the empty string.
    pub insert_text: Option<String>,
}

/// The insert a request calls for: its `task` text if that field is present
/// and non-empty, otherwise none.
pub open spec fn planned_insert(task: Option<String>) -> Option<String> {
    match task {
        Option::Some(t) => if t@.len() > 0 {
            Option::Some(t)
        } else {
            Option::None
        },
        Option::None => Option::None,
    }
}

/// Signal to the router once an update completes: send the client back to
/// the listing view, whichever steps fired.
#[derive(Debug, PartialEq, Eq, Structural)]
pub enum UpdateOutcome {
    RedirectToListing,
}

/// Decides which store actions one request calls for: a delete whenever
/// `id` is present (even empty), an insert only for a present, non-empty
/// `task`.
pub fn plan_update(request: UpdateRequest) -> (plan: UpdatePlan)
    ensures
        plan.delete_key == request.id,
        plan.insert_text == planned_insert(request.task),
{
    let insert_text = match request.task {
        Option::Some(t) => if t.as_str().is_empty() {
            Option::None
        } else {
            Option::Some(t)
        },
        Option::None => Option::None,
    };
    UpdatePlan { delete_key: request.id, insert_text }
}

/// Applies one update request to the store: deletes by `id` if present,
/// then inserts `task` if present and non-empty, and signals the redirect
/// to the listing view. The two steps are independent; a request with both
/// fields absent changes nothing.
pub fn apply_update(store: &mut TaskStore, request: UpdateRequest) -> (outcome: UpdateOutcome)
    ensures
        final(store)@ == after_update(old(store)@, opt_text(request.id), opt_text(request.task)),
        outcome == UpdateOutcome::RedirectToListing,
{
    let plan = plan_update(request);
    if let Option::Some(key) = &plan.delete_key {
        let _removed = store.delete_by_text(key);
    }
    if let Option::Some(text) = plan.insert_text {
        store.insert(text);
    }
    UpdateOutcome::RedirectToListing
}

} // verus!
