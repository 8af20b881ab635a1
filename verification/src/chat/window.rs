//! The conversation window as a mathematical value.
//!
//! A window is a sequence of turns, oldest first, with a capacity. Appending
//! puts a turn at the end and then evicts: while the window is over capacity,
//! the oldest turn that is not a standing instruction leaves. Standing
//! instructions never leave, so a window of nothing else may stay over
//! capacity.

use vstd::prelude::*;
use crate::llm::message::Turn;

verus! {

/// The standing instructions among `turns`, in order.
pub open spec fn protected_turns(turns: Seq<Turn>) -> Seq<Turn> {
    turns.filter(|t: Turn| t.is_protected())
}

/// The turns among `turns` that eviction may take, in order.
pub open spec fn evictable_turns(turns: Seq<Turn>) -> Seq<Turn> {
    turns.filter(|t: Turn| !t.is_protected())
}

/// `turns` without its oldest `excess` evictable turns, or without any
/// evictable turn where it has fewer than `excess`. One sweep from the oldest
/// turn on: a protected turn stays where it is, an evictable one leaves while
/// something is still owed.
pub open spec fn evict_oldest(turns: Seq<Turn>, excess: nat) -> Seq<Turn>
    decreases turns.len(),
{
    if excess == 0 || turns.len() == 0 {
        turns
    } else if turns[0].is_protected() {
        seq![turns[0]] + evict_oldest(turns.drop_first(), excess)
    } else {
        evict_oldest(turns.drop_first(), (excess - 1) as nat)
    }
}

/// `turns` brought back to `capacity` as far as eviction can.
pub open spec fn pruned(turns: Seq<Turn>, capacity: nat) -> Seq<Turn> {
    if turns.len() > capacity {
        evict_oldest(turns, (turns.len() - capacity) as nat)
    } else {
        turns
    }
}

/// Whether `turns` is as short as eviction can make it: within `capacity`, or
/// made of standing instructions only.
pub open spec fn within_capacity(turns: Seq<Turn>, capacity: nat) -> bool {
    turns.len() <= capacity || evictable_turns(turns).len() == 0
}

/// The window after `turn` was appended to `turns`.
pub open spec fn appended(turns: Seq<Turn>, capacity: nat, turn: Turn) -> Seq<Turn> {
    pruned(turns.push(turn), capacity)
}

/// The window after each turn of `more` was appended to `turns`, one at a time.
pub open spec fn appended_all(turns: Seq<Turn>, capacity: nat, more: Seq<Turn>) -> Seq<Turn>
    decreases more.len(),
{
    if more.len() == 0 {
        turns
    } else {
        appended_all(appended(turns, capacity, more[0]), capacity, more.drop_first())
    }
}

/// Whether no turn of `turns` is a standing instruction.
pub open spec fn all_evictable(turns: Seq<Turn>) -> bool {
    forall|i: int| 0 <= i < turns.len() ==> !(#[trigger] turns[i]).is_protected()
}

/// How many turns an eviction of `excess` takes from `turns`: `excess`, or as
/// many as may be taken where those are fewer.
pub open spec fn taken(turns: Seq<Turn>, excess: nat) -> nat {
    if excess <= evictable_turns(turns).len() {
        excess
    } else {
        evictable_turns(turns).len()
    }
}

/// The newest `count` turns of `turns`, or all of them where there are fewer.
pub open spec fn most_recent(turns: Seq<Turn>, count: nat) -> Seq<Turn> {
    if turns.len() > count {
        turns.skip(turns.len() - count)
    } else {
        turns
    }
}

/// How many of the oldest turns of `turns` a sweep for `excess` evictable
/// turns looks at: up to and including the last turn it takes, or all of them
/// where it runs out of turns first.
pub open spec fn swept(turns: Seq<Turn>, excess: nat) -> nat
    decreases turns.len(),
{
    if excess == 0 || turns.len() == 0 {
        0
    } else if turns[0].is_protected() {
        1 + swept(turns.drop_first(), excess)
    } else {
        1 + swept(turns.drop_first(), (excess - 1) as nat)
    }
}

/// Eviction never takes a standing instruction: the protected turns are the
/// same before and after, in the same order.
pub proof fn lemma_evict_keeps_protected(turns: Seq<Turn>, excess: nat)
    ensures
        protected_turns(evict_oldest(turns, excess)) == protected_turns(turns),
    decreases turns.len(),
{
    if excess != 0 && turns.len() != 0 {
        let keep = |t: Turn| t.is_protected();
        let rest = turns.drop_first();
        assert(turns =~= seq![turns[0]] + rest);
        rest.lemma_filter_prepend(turns[0], keep);
        if turns[0].is_protected() {
            lemma_evict_keeps_protected(rest, excess);
            evict_oldest(rest, excess).lemma_filter_prepend(turns[0], keep);
        } else {
            lemma_evict_keeps_protected(rest, (excess - 1) as nat);
        }
    }
}

/// Eviction takes the oldest evictable turns and no others: what is left of
/// the evictable turns is what came after the first `excess` of them.
pub proof fn lemma_evict_takes_oldest(turns: Seq<Turn>, excess: nat)
    ensures
        evictable_turns(evict_oldest(turns, excess)) == evictable_turns(turns).skip(
            taken(turns, excess) as int,
        ),
        evict_oldest(turns, excess).len() == turns.len() - taken(turns, excess),
    decreases turns.len(),
{
    let free = |t: Turn| !t.is_protected();
    if excess != 0 && turns.len() != 0 {
        let rest = turns.drop_first();
        assert(turns =~= seq![turns[0]] + rest);
        rest.lemma_filter_prepend(turns[0], free);
        if turns[0].is_protected() {
            lemma_evict_takes_oldest(rest, excess);
            evict_oldest(rest, excess).lemma_filter_prepend(turns[0], free);
        } else {
            lemma_evict_takes_oldest(rest, (excess - 1) as nat);
        }
    } else {
        turns.lemma_filter_len(free);
    }
}

/// Eviction is one sweep from the oldest turn on. The sweep looks at as many
/// turns as it takes to meet the evictable ones that leave. Of the turns that
/// it looks at only the protected ones stay, each where it stood; the turns
/// behind it are untouched.
pub proof fn lemma_evict_is_one_sweep(turns: Seq<Turn>, excess: nat)
    ensures
        swept(turns, excess) <= turns.len(),
        evictable_turns(turns.take(swept(turns, excess) as int)).len() == taken(turns, excess),
        evict_oldest(turns, excess) == protected_turns(turns.take(swept(turns, excess) as int))
            + turns.skip(swept(turns, excess) as int),
    decreases turns.len(),
{
    let keep = |t: Turn| t.is_protected();
    let free = |t: Turn| !t.is_protected();
    if excess == 0 || turns.len() == 0 {
        Seq::<Turn>::empty().lemma_filter_len(keep);
        Seq::<Turn>::empty().lemma_filter_len(free);
        turns.lemma_filter_len(free);
    } else {
        let rest = turns.drop_first();
        let owed: nat = if turns[0].is_protected() {
            excess
        } else {
            (excess - 1) as nat
        };
        lemma_evict_is_one_sweep(rest, owed);
        let k = swept(rest, owed) as int;
        assert(turns.take(k + 1) =~= seq![turns[0]] + rest.take(k));
        rest.take(k).lemma_filter_prepend(turns[0], keep);
        rest.take(k).lemma_filter_prepend(turns[0], free);
        assert(turns =~= seq![turns[0]] + rest);
        rest.lemma_filter_prepend(turns[0], free);
    }
}

/// A window that was pruned is within its capacity, unless eviction ran out
/// of turns it may take: then only standing instructions are left.
pub proof fn lemma_pruned_is_bounded(turns: Seq<Turn>, capacity: nat)
    ensures
        within_capacity(pruned(turns, capacity), capacity),
        pruned(turns, capacity).len() <= turns.len(),
        pruned(pruned(turns, capacity), capacity) == pruned(turns, capacity),
{
    if turns.len() > capacity {
        let excess = (turns.len() - capacity) as nat;
        lemma_evict_takes_oldest(turns, excess);
        let after = pruned(turns, capacity);
        if after.len() > capacity {
            lemma_evict_without_evictable(after, (after.len() - capacity) as nat);
        }
    }
}

/// Where nothing may be taken, eviction changes nothing.
pub proof fn lemma_evict_without_evictable(turns: Seq<Turn>, excess: nat)
    requires
        evictable_turns(turns).len() == 0,
    ensures
        evict_oldest(turns, excess) == turns,
    decreases turns.len(),
{
    if excess != 0 && turns.len() != 0 {
        let free = |t: Turn| !t.is_protected();
        let rest = turns.drop_first();
        assert(turns =~= seq![turns[0]] + rest);
        rest.lemma_filter_prepend(turns[0], free);
        lemma_evict_without_evictable(rest, excess);
    }
}

/// Pruning a window that is over capacity and has enough evictable turns
/// brings it to exactly its capacity. It takes the oldest evictable turns, as
/// many as the window was over, and leaves every standing instruction and
/// every newer evictable turn.
pub proof fn lemma_pruned_takes_only_the_excess(turns: Seq<Turn>, capacity: nat)
    requires
        turns.len() > capacity,
        evictable_turns(turns).len() >= turns.len() - capacity,
    ensures
        pruned(turns, capacity).len() == capacity,
        protected_turns(pruned(turns, capacity)) == protected_turns(turns),
        evictable_turns(pruned(turns, capacity)) == evictable_turns(turns).skip(
            turns.len() - capacity,
        ),
{
    let excess = (turns.len() - capacity) as nat;
    lemma_evict_keeps_protected(turns, excess);
    lemma_evict_takes_oldest(turns, excess);
}

/// Pruning never takes a standing instruction.
pub proof fn lemma_pruned_keeps_protected(turns: Seq<Turn>, capacity: nat)
    ensures
        protected_turns(pruned(turns, capacity)) == protected_turns(turns),
{
    if turns.len() > capacity {
        lemma_evict_keeps_protected(turns, (turns.len() - capacity) as nat);
    }
}

/// However many turns are appended, no standing instruction is ever dropped:
/// the protected turns of the window are those it had, followed by those that
/// were appended.
pub proof fn lemma_appends_keep_protected(turns: Seq<Turn>, capacity: nat, more: Seq<Turn>)
    ensures
        protected_turns(appended_all(turns, capacity, more)) == protected_turns(turns)
            + protected_turns(more),
    decreases more.len(),
{
    let keep = |t: Turn| t.is_protected();
    if more.len() == 0 {
        more.lemma_filter_len(keep);
    } else {
        let rest = more.drop_first();
        let next = appended(turns, capacity, more[0]);
        lemma_pruned_keeps_protected(turns.push(more[0]), capacity);
        lemma_appends_keep_protected(next, capacity, rest);
        assert(turns.push(more[0]) =~= turns + seq![more[0]]);
        Seq::filter_distributes_over_add(turns, seq![more[0]], keep);
        assert(more =~= seq![more[0]] + rest);
        Seq::filter_distributes_over_add(seq![more[0]], rest, keep);
    }
}

/// Where nothing is protected, eviction takes the oldest turns one after the
/// other.
pub proof fn lemma_evict_all_evictable(turns: Seq<Turn>, excess: nat)
    requires
        all_evictable(turns),
    ensures
        evict_oldest(turns, excess) == if excess <= turns.len() {
            turns.skip(excess as int)
        } else {
            Seq::<Turn>::empty()
        },
    decreases turns.len(),
{
    if excess != 0 && turns.len() != 0 {
        let rest = turns.drop_first();
        assert(all_evictable(rest));
        lemma_evict_all_evictable(rest, (excess - 1) as nat);
    }
}

/// Without standing instructions the window holds the newest turns and
/// nothing else: after any run of appends it is the last `capacity` turns of
/// all that were ever in it, in the order in which they came, and its length
/// is exactly `capacity` once that many turns have come.
pub proof fn lemma_appends_keep_most_recent(turns: Seq<Turn>, capacity: nat, more: Seq<Turn>)
    requires
        all_evictable(turns),
        all_evictable(more),
        turns.len() <= capacity,
    ensures
        appended_all(turns, capacity, more) == most_recent(turns + more, capacity),
        turns.len() + more.len() >= capacity ==> appended_all(turns, capacity, more).len()
            == capacity,
        turns.len() + more.len() <= capacity ==> appended_all(turns, capacity, more) == turns
            + more,
    decreases more.len(),
{
    if more.len() > 0 {
        let rest = more.drop_first();
        let grown = turns.push(more[0]);
        let next = appended(turns, capacity, more[0]);
        if grown.len() > capacity {
            lemma_evict_all_evictable(grown, (grown.len() - capacity) as nat);
        }
        assert(next == most_recent(grown, capacity));
        assert(all_evictable(rest));
        lemma_appends_keep_most_recent(next, capacity, rest);
        assert(turns + more =~= grown + rest);
    }
}

} // verus!
