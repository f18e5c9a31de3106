//! The persistence store: an in-memory task table that lives for the
//! lifetime of the process. It owns the table exclusively; every request
//! round-trips through it and no other component holds task state.

use vstd::prelude::*;
use crate::model::{count_matching, remove_all};

verus! {

/// One persisted to-do item. Its text is both its display content and its
/// de facto identity: texts are not guaranteed unique, and a delete by text
/// removes every matching row.
pub struct Task {
    pub text: String,
}

impl View for Task {
    type V = Seq<char>;

    open spec fn view(&self) -> Seq<char> {
        self.text@
    }
}

/// The texts of a row of tasks, in order.
pub open spec fn texts_of(tasks: Seq<Task>) -> Seq<Seq<char>> {
    tasks.map_values(|t: Task| t@)
}

/// The task table. Rows are kept in insertion order, which is also the
/// iteration order that `list_all` returns.
pub struct TaskStore {
    tasks: Vec<Task>,
}

impl View for TaskStore {
    type V = Seq<Seq<char>>;

    closed spec fn view(&self) -> Seq<Seq<char>> {
        texts_of(self.tasks@)
    }
}

impl TaskStore {
    /// Creates the task table, empty.
    pub fn new() -> (store: TaskStore)
        ensures
            store@ == Seq::<Seq<char>>::empty(),
    {
        let store = TaskStore { tasks: Vec::new() };
        proof {
            assert(store@ =~= Seq::<Seq<char>>::empty());
        }
        store
    }

    /// Appends one task. The store accepts any text, the empty string
    /// included: rejecting empty text is the update protocol's policy, not
    /// the store's.
    pub fn insert(&mut self, value: String)
        ensures
            final(self)@ == old(self)@.push(value@),
    {
        self.tasks.push(Task { text: value });
        proof {
            assert(self@ =~= old(self)@.push(self.tasks@.last()@));
        }
    }

    /// Inserts the given initial tasks, in order; used once at startup.
    /// Seeding the freshly created, empty table stores exactly the seed
    /// texts, in the order given.
    pub fn seed(&mut self, texts: &Vec<String>)
        ensures
            final(self)@ == old(self)@ + texts.deep_view(),
            old(self)@.len() == 0 ==> final(self)@ == texts.deep_view(),
    {
        let ghost s0: Seq<Seq<char>> = self@;
        let mut i: usize = 0;
        while i < texts.len()
            invariant
                i <= texts.len(),
                self@ == s0 + texts.deep_view().take(i as int),
            decreases texts.len() - i,
        {
            self.insert(texts[i].clone());
            proof {
                assert(texts.deep_view().take(i as int + 1) =~= texts.deep_view().take(
                    i as int,
                ).push(texts@[i as int]@));
                assert(s0 + texts.deep_view().take(i as int + 1) =~= (s0 + texts.deep_view().take(
                    i as int,
                )).push(texts@[i as int]@));
            }
            i = i + 1;
        }
        proof {
            assert(texts.deep_view().take(texts@.len() as int) =~= texts.deep_view());
            assert(Seq::<Seq<char>>::empty() + texts.deep_view() =~= texts.deep_view());
        }
    }

    /// Removes every task whose text equals `value` and returns how many
    /// rows were removed; zero if no row matched, which is not an error.
    pub fn delete_by_text(&mut self, value: &String) -> (count_removed: usize)
        ensures
            final(self)@ == remove_all(old(self)@, value@),
            count_removed == count_matching(old(self)@, value@),
    {
        let ghost s0: Seq<Seq<char>> = self@;
        let mut kept: Vec<Task> = Vec::new();
        let mut removed: usize = 0;
        let mut i: usize = 0;
        while i < self.tasks.len()
            invariant
                i <= self.tasks.len(),
                self@ == s0,
                s0 == texts_of(self.tasks@),
                removed <= i,
                texts_of(kept@) == remove_all(s0.take(i as int), value@),
                removed == count_matching(s0.take(i as int), value@),
            decreases self.tasks.len() - i,
        {
            proof {
                assert(s0.take(i as int + 1).drop_last() =~= s0.take(i as int));
                assert(s0.take(i as int + 1).last() == self.tasks@[i as int]@);
            }
            if self.tasks[i].text == *value {
                removed = removed + 1;
            } else {
                kept.push(Task { text: self.tasks[i].text.clone() });
                proof {
                    assert(texts_of(kept@) =~= remove_all(s0.take(i as int), value@).push(
                        self.tasks@[i as int]@,
                    ));
                }
            }
            i = i + 1;
        }
        proof {
            assert(s0.take(self.tasks@.len() as int) =~= s0);
        }
        self.tasks = kept;
        removed
    }

    /// Returns all tasks in storage iteration order; side-effect free.
    pub fn list_all(&self) -> (tasks: &Vec<Task>)
        ensures
            texts_of(tasks@) == self@,
    {
        &self.tasks
    }
}

} // verus!
