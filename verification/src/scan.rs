//! Finding the first entry of a list that meets a condition.

use vstd::prelude::*;

verus! {

/// The first position at which `flags` holds `true`, if there is one.
pub open spec fn first_true(flags: Seq<bool>) -> Option<int>
    decreases flags.len(),
{
    if flags.len() == 0 {
        None
    } else {
        match first_true(flags.drop_last()) {
            Some(i) => Some(i),
            None => if flags.last() {
                Some(flags.len() - 1)
            } else {
                None
            },
        }
    }
}

/// `first_true` names a position that holds `true` with none before it
/// that does, and names none only where no position holds `true`.
pub proof fn lemma_first_true(flags: Seq<bool>)
    ensures
        (match first_true(flags) {
            Some(i) => 0 <= i < flags.len() && flags[i] && forall|j: int| 0 <= j < i ==> !flags[j],
            None => forall|j: int| 0 <= j < flags.len() ==> !flags[j],
        }),
    decreases flags.len(),
{
    if flags.len() > 0 {
        lemma_first_true(flags.drop_last());
        let front = flags.drop_last();
        assert(forall|j: int| 0 <= j < front.len() ==> front[j] == flags[j]);
    }
}

/// What `first_true` finds in the first `n` flags, it finds in all of
/// them.
pub proof fn lemma_first_true_extends(flags: Seq<bool>, n: int)
    requires
        0 <= n <= flags.len(),
        first_true(flags.take(n)) is Some,
    ensures
        first_true(flags) == first_true(flags.take(n)),
    decreases flags.len() - n,
{
    if n < flags.len() {
        assert(flags.take(n + 1).drop_last() =~= flags.take(n));
        lemma_first_true_extends(flags, n + 1);
    } else {
        assert(flags.take(n) =~= flags);
    }
}

/// What a filter keeps is what the list holds and the condition admits.
pub proof fn lemma_filter_member<A>(s: Seq<A>, pred: spec_fn(A) -> bool, x: A)
    ensures
        s.filter(pred).contains(x) <==> s.contains(x) && pred(x),
    decreases s.len(),
{
    reveal(Seq::filter);
    if s.len() > 0 {
        let front = s.drop_last();
        lemma_filter_member(front, pred, x);
        let kept = front.filter(pred);
        if s.filter(pred).contains(x) {
            let i = choose|i: int| 0 <= i < s.filter(pred).len() && s.filter(pred)[i] == x;
            if i < kept.len() {
                assert(kept[i] == x);
                assert(kept.contains(x));
                let j = choose|j: int| 0 <= j < front.len() && front[j] == x;
                assert(s[j] == x);
            } else {
                assert(s[s.len() - 1] == x);
            }
        }
        if s.contains(x) && pred(x) {
            let j = choose|j: int| 0 <= j < s.len() && s[j] == x;
            if j < front.len() {
                assert(front[j] == x);
                assert(front.contains(x));
                let i = choose|i: int| 0 <= i < kept.len() && kept[i] == x;
                assert(s.filter(pred)[i] == x);
            } else {
                assert(s.filter(pred)[s.filter(pred).len() - 1] == x);
            }
        }
    }
}

} // verus!
