//! Small operations on lists that the handlers share.

use vstd::prelude::*;

verus! {

/// Applies `show` to every row, in order.
pub fn map_all<R, T, F: Fn(&R) -> T>(rows: &Vec<R>, show: F) -> (shown: Vec<T>)
    requires
        forall|i: int| 0 <= i < rows@.len() ==> call_requires(show, (&#[trigger] rows@[i],)),
    ensures
        shown@.len() == rows@.len(),
        forall|i: int|
            0 <= i < shown@.len() ==> call_ensures(show, (&rows@[i],), #[trigger] shown@[i]),
{
    let mut shown: Vec<T> = Vec::new();
    let mut i: usize = 0;
    while i < rows.len()
        invariant
            i <= rows@.len(),
            shown@.len() == i,
            forall|j: int| 0 <= j < rows@.len() ==> call_requires(show, (&#[trigger] rows@[j],)),
            forall|j: int| 0 <= j < i ==> call_ensures(show, (&rows@[j],), #[trigger] shown@[j]),
        decreases rows@.len() - i,
    {
        shown.push(show(&rows[i]));
        i += 1;
    }
    shown
}

/// The same rows in the opposite order, so that taking from the end takes
/// them in their first order.
pub fn reversed<T>(rows: Vec<T>) -> (stack: Vec<T>)
    ensures
        stack@ == rows@.reverse(),
{
    let ghost all = rows@;
    let mut pending = rows;
    let mut stack: Vec<T> = Vec::new();
    while pending.len() > 0
        invariant
            pending@ + stack@.reverse() == all,
        decreases pending@.len(),
    {
        let ghost before = pending@;
        let ghost stacked = stack@;
        let last = pending.pop().unwrap();
        stack.push(last);
        assert(pending@ + stack@.reverse() =~= before + stacked.reverse());
    }
    assert(stack@.reverse() =~= all);
    assert(stack@.reverse().reverse() =~= stack@);
    stack
}

/// Taking the end off a stack that holds `all` from `at` on, in the opposite
/// order, takes `all[at]` and leaves what follows it.
pub proof fn lemma_take_next<T>(all: Seq<T>, at: int, stack: Seq<T>)
    requires
        0 <= at <= all.len(),
        stack.len() > 0,
        stack.reverse() == all.subrange(at, all.len() as int),
    ensures
        at < all.len(),
        stack.last() == all[at],
        stack.drop_last().reverse() == all.subrange(at + 1, all.len() as int),
{
    let rest = all.subrange(at, all.len() as int);
    assert(stack.reverse().len() == stack.len());
    assert(stack.last() == stack.reverse()[0]);
    assert(rest[0] == all[at]);
    assert(stack.drop_last().reverse() =~= rest.drop_first());
    assert(rest.drop_first() =~= all.subrange(at + 1, all.len() as int));
}

} // verus!
