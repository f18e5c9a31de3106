//! The mathematical model of the task table.
//!
//! A stored task is modelled by its text, a `Seq<char>`; the whole table by a
//! `Seq<Seq<char>>` in storage order. The spec functions here say what the
//! store operations and the update protocol do to that sequence, and the
//! proof functions state the laws the library guarantees.

use vstd::prelude::*;

verus! {

/// How many entries of `s` are exactly the text `t`.
pub open spec fn count_matching(s: Seq<Seq<char>>, t: Seq<char>) -> nat
    decreases s.len(),
{
    if s.len() == 0 {
        0
    } else {
        let rest = count_matching(s.drop_last(), t);
        if s.last() == t {
            rest + 1
        } else {
            rest
        }
    }
}

/// `s` with every entry equal to `t` removed, the rest kept in order.
pub open spec fn remove_all(s: Seq<Seq<char>>, t: Seq<char>) -> Seq<Seq<char>>
    decreases s.len(),
{
    if s.len() == 0 {
        Seq::empty()
    } else {
        let rest = remove_all(s.drop_last(), t);
        if s.last() == t {
            rest
        } else {
            rest.push(s.last())
        }
    }
}

/// The text carried by an optional form field, if the field is present.
pub open spec fn opt_text(o: Option<String>) -> Option<Seq<char>> {
    match o {
        Option::Some(s) => Option::Some(s@),
        Option::None => Option::None,
    }
}

/// The table after one update request: if `id` is present, every task whose
/// text equals it is deleted; then, if `task` is present and non-empty, one
/// task with that text is appended. Both steps are independent.
pub open spec fn after_update(
    s: Seq<Seq<char>>,
    id: Option<Seq<char>>,
    task: Option<Seq<char>>,
) -> Seq<Seq<char>> {
    let deleted = match id {
        Option::Some(key) => remove_all(s, key),
        Option::None => s,
    };
    match task {
        Option::Some(t) => if t.len() > 0 {
            deleted.push(t)
        } else {
            deleted
        },
        Option::None => deleted,
    }
}

/// Appending one task with text `u` raises the number of tasks whose text is
/// `u` by exactly one and leaves the count of every other text unchanged.
pub proof fn lemma_insert_count(s: Seq<Seq<char>>, u: Seq<char>, t: Seq<char>)
    ensures
        u == t ==> count_matching(s.push(u), t) == count_matching(s, t) + 1,
        u != t ==> count_matching(s.push(u), t) == count_matching(s, t),
{
    assert(s.push(u).drop_last() =~= s);
}

/// Deleting by text removes every matching entry: afterwards no entry with
/// that text remains.
pub proof fn lemma_delete_removes_all(s: Seq<Seq<char>>, t: Seq<char>)
    ensures
        count_matching(remove_all(s, t), t) == 0,
    decreases s.len(),
{
    if s.len() > 0 {
        lemma_delete_removes_all(s.drop_last(), t);
        if s.last() != t {
            lemma_insert_count(remove_all(s.drop_last(), t), s.last(), t);
        }
    }
}

/// Deleting by one text does not touch entries with any other text.
pub proof fn lemma_delete_keeps_others(s: Seq<Seq<char>>, t: Seq<char>, u: Seq<char>)
    requires
        u != t,
    ensures
        count_matching(remove_all(s, t), u) == count_matching(s, u),
    decreases s.len(),
{
    if s.len() > 0 {
        lemma_delete_keeps_others(s.drop_last(), t, u);
        if s.last() != t {
            lemma_insert_count(remove_all(s.drop_last(), t), s.last(), u);
        }
    }
}

/// Deleting a text that occurs nowhere in the table is a no-op.
pub proof fn lemma_delete_absent_no_op(s: Seq<Seq<char>>, t: Seq<char>)
    requires
        count_matching(s, t) == 0,
    ensures
        remove_all(s, t) == s,
    decreases s.len(),
{
    if s.len() == 0 {
        assert(remove_all(s, t) =~= s);
    } else {
        lemma_delete_absent_no_op(s.drop_last(), t);
        assert(remove_all(s, t) =~= s);
    }
}

/// Round trip: appending a text that the table does not contain and then
/// deleting by that same text restores the table exactly.
pub proof fn lemma_insert_then_delete_round_trip(s: Seq<Seq<char>>, t: Seq<char>)
    requires
        count_matching(s, t) == 0,
    ensures
        remove_all(s.push(t), t) == s,
{
    assert(s.push(t).drop_last() =~= s);
    lemma_delete_absent_no_op(s, t);
}

/// An update whose `task` field is present but empty, with no `id` field,
/// leaves the table unchanged.
pub proof fn lemma_empty_insert_no_op(s: Seq<Seq<char>>, t: Seq<char>)
    requires
        t.len() == 0,
    ensures
        after_update(s, Option::None, Option::Some(t)) == s,
{
}

/// An update with both fields absent leaves the table unchanged.
pub proof fn lemma_absent_fields_no_op(s: Seq<Seq<char>>)
    ensures
        after_update(s, Option::None, Option::None) == s,
{
}

/// A combined request that deletes text `a` and inserts text `b`, where `a`
/// occurs in the table and `b` does not: afterwards `a` is absent and `b` is
/// present exactly once.
pub proof fn lemma_combined_update(s: Seq<Seq<char>>, a: Seq<char>, b: Seq<char>)
    requires
        count_matching(s, a) > 0,
        count_matching(s, b) == 0,
        b.len() > 0,
    ensures
        count_matching(after_update(s, Option::Some(a), Option::Some(b)), a) == 0,
        count_matching(after_update(s, Option::Some(a), Option::Some(b)), b) == 1,
{
    assert(a != b);
    lemma_delete_removes_all(s, a);
    lemma_delete_keeps_others(s, a, b);
    lemma_insert_count(remove_all(s, a), b, a);
    lemma_insert_count(remove_all(s, a), b, b);
}

} // verus!
