//! What holds of every quest tree, proved over the model.

use crate::quest::event::{QuestEventView, QuestStatus};
use crate::quest::model::{
    completed_count, counter_limit, reset_each, reset_each_index, step_each, step_each_index,
    AtomicModel, QuestModel,
};
use crate::quest::render::render;
use vstd::arithmetic::div_mod::{lemma_fundamental_div_mod, lemma_fundamental_div_mod_converse};
use vstd::arithmetic::div_mod::lemma_mod_bound;
use vstd::arithmetic::mul::{lemma_mul_inequality, lemma_mul_is_commutative};
use vstd::arithmetic::mul::lemma_mul_is_distributive_add;
use vstd::prelude::*;

verus! {

/// How many of `events` the objective `atomic` counts.
pub open spec fn matching_count(atomic: AtomicModel, events: Seq<QuestEventView>) -> nat
    decreases events.len(),
{
    if events.len() == 0 {
        0
    } else {
        matching_count(atomic, events.drop_last()) + if atomic.matches(events.last()) {
            1nat
        } else {
            0nat
        }
    }
}

/// The smaller of a count of finished cycles and the counter limit.
pub open spec fn capped(n: nat) -> nat {
    if n < counter_limit() {
        n
    } else {
        counter_limit()
    }
}

/// The indices of the complete quests among `children`.
pub open spec fn complete_indices(children: Seq<QuestModel>) -> Set<int> {
    Set::new(|i: int| 0 <= i < children.len() && children[i].status() == QuestStatus::Complete)
}

/// An objective that starts without progress and needs at least one event
/// per cycle holds, after any events, the matching events counted modulo the
/// threshold and the full cycles among them.
pub proof fn atomic_counts_matching_events(atomic: AtomicModel, events: Seq<QuestEventView>)
    requires
        atomic.threshold >= 1,
        atomic.count == 0,
        atomic.completed == 0,
    ensures
        QuestModel::Atomic(atomic).run(events) == QuestModel::Atomic(
            AtomicModel {
                count: matching_count(atomic, events) % atomic.threshold,
                completed: capped(matching_count(atomic, events) / atomic.threshold),
                ..atomic
            },
        ),
    decreases events.len(),
{
    let t = atomic.threshold as int;
    if events.len() == 0 {
        assert(0int % t == 0 && 0int / t == 0) by {
            lemma_fundamental_div_mod_converse(0, t, 0, 0);
        }
    } else {
        atomic_counts_matching_events(atomic, events.drop_last());
        let n0 = matching_count(atomic, events.drop_last()) as int;
        let q = n0 / t;
        let r = n0 % t;
        lemma_fundamental_div_mod(n0, t);
        lemma_mod_bound(n0, t);
        lemma_mul_is_commutative(t, q);
        if atomic.matches(events.last()) {
            if r + 1 >= t {
                assert((q + 1) * t == q * t + t) by {
                    lemma_mul_is_distributive_add(t, q, 1);
                    lemma_mul_is_commutative(t, q + 1);
                }
                lemma_fundamental_div_mod_converse(n0 + 1, t, q + 1, 0);
            } else {
                lemma_fundamental_div_mod_converse(n0 + 1, t, q, r + 1);
            }
        }
    }
}

/// An objective with threshold `T` and `C` cycles that starts without
/// progress is complete exactly when `T * C` or more matching events have
/// been registered, whatever other events came in between.
pub proof fn atomic_completes_after_threshold_times_cycles(
    atomic: AtomicModel,
    events: Seq<QuestEventView>,
)
    requires
        atomic.threshold >= 1,
        atomic.cycles <= counter_limit(),
        atomic.count == 0,
        atomic.completed == 0,
    ensures
        QuestModel::Atomic(atomic).run(events).status() == QuestStatus::Complete
            <==> matching_count(atomic, events) >= atomic.threshold * atomic.cycles,
{
    atomic_counts_matching_events(atomic, events);
    let t = atomic.threshold as int;
    let c = atomic.cycles as int;
    let n = matching_count(atomic, events) as int;
    let q = n / t;
    lemma_fundamental_div_mod(n, t);
    lemma_mod_bound(n, t);
    if q >= c {
        assert(t * c <= t * q) by {
            lemma_mul_inequality(c, q, t);
            lemma_mul_is_commutative(t, c);
            lemma_mul_is_commutative(t, q);
        }
    } else {
        assert(t * (q + 1) <= t * c) by {
            lemma_mul_inequality(q + 1, c, t);
            lemma_mul_is_commutative(t, c);
            lemma_mul_is_commutative(t, q + 1);
        }
        assert(t * (q + 1) == t * q + t) by {
            lemma_mul_is_distributive_add(t, q, 1);
        }
    }
}

/// An event leaves the counters of an objective as they are, counts one more
/// in the running cycle, or finishes the cycle: then the count of the cycle
/// starts over. The finished cycles never become fewer, and what the
/// objective asks for never changes.
pub proof fn atomic_counters_grow_or_start_over(atomic: AtomicModel, event: QuestEventView)
    ensures
        atomic.step(event).block == atomic.block,
        atomic.step(event).event_type == atomic.event_type,
        atomic.step(event).threshold == atomic.threshold,
        atomic.step(event).cycles == atomic.cycles,
        atomic.step(event).completed >= atomic.completed,
        atomic.step(event).count == atomic.count || atomic.step(event).count == atomic.count + 1
            || atomic.step(event).count == 0,
        !atomic.matches(event) ==> atomic.step(event) == atomic,
{
}

/// The number of complete quests among `children` is the number of indices
/// at which a complete quest stands.
pub proof fn completed_count_counts_indices(children: Seq<QuestModel>)
    ensures
        complete_indices(children).finite(),
        completed_count(children) == complete_indices(children).len(),
    decreases children.len(),
{
    if children.len() == 0 {
        assert(complete_indices(children) =~= Set::<int>::empty());
    } else {
        let shorter = children.drop_last();
        let last = children.len() - 1;
        completed_count_counts_indices(shorter);
        if children.last().status() == QuestStatus::Complete {
            assert(complete_indices(children) =~= complete_indices(shorter).insert(last));
        } else {
            assert(complete_indices(children) =~= complete_indices(shorter));
        }
    }
}

/// A complete quest stays complete under every event.
pub proof fn complete_stays_complete(quest: QuestModel, event: QuestEventView)
    requires
        quest.status() == QuestStatus::Complete,
    ensures
        quest.step(event).status() == QuestStatus::Complete,
    decreases quest,
{
    match quest {
        QuestModel::Atomic(_) => {},
        QuestModel::InOrder(_, _) => {},
        QuestModel::Choice(children, required) => {
            completed_count_never_shrinks(children, event);
        },
    }
}

/// No event lowers the number of complete quests among `children`.
pub proof fn completed_count_never_shrinks(children: Seq<QuestModel>, event: QuestEventView)
    ensures
        completed_count(step_each(children, event)) >= completed_count(children),
    decreases children,
{
    if children.len() > 0 {
        completed_count_never_shrinks(children.drop_last(), event);
        if children.last().status() == QuestStatus::Complete {
            complete_stays_complete(children.last(), event);
        }
        assert(step_each(children, event).drop_last() =~= step_each(
            children.drop_last(),
            event,
        ));
    }
}

/// A complete quest stays complete through every sequence of events.
pub proof fn complete_stays_complete_through(quest: QuestModel, events: Seq<QuestEventView>)
    requires
        quest.status() == QuestStatus::Complete,
    ensures
        quest.run(events).status() == QuestStatus::Complete,
    decreases events.len(),
{
    if events.len() > 0 {
        complete_stays_complete_through(quest, events.drop_last());
        complete_stays_complete(quest.run(events.drop_last()), events.last());
    }
}

/// An ordered composition keeps its length and never steps back, and events
/// reach neither the quests before the one it started at nor those behind the
/// one it has arrived at.
pub proof fn in_order_touches_only_quests_in_work(
    children: Seq<QuestModel>,
    current: nat,
    events: Seq<QuestEventView>,
)
    ensures
        QuestModel::InOrder(children, current).run(events) matches QuestModel::InOrder(
            after,
            arrived,
        ) && {
            &&& after.len() == children.len()
            &&& current <= arrived
            &&& forall|j: int|
                0 <= j < children.len() && (j < current || j > arrived) ==> after[j]
                    == children[j]
        },
    decreases events.len(),
{
    if events.len() > 0 {
        in_order_touches_only_quests_in_work(children, current, events.drop_last());
    }
}

/// A choice tells every one of its quests of every event: after any events
/// each quest is what it would be had it been told of them alone.
pub proof fn choice_runs_quests_side_by_side(
    children: Seq<QuestModel>,
    required: nat,
    events: Seq<QuestEventView>,
)
    ensures
        QuestModel::Choice(children, required).run(events) matches QuestModel::Choice(
            after,
            still_required,
        ) && {
            &&& still_required == required
            &&& after.len() == children.len()
            &&& forall|i: int| 0 <= i < children.len() ==> after[i] == children[i].run(events)
        },
    decreases events.len(),
{
    if events.len() > 0 {
        choice_runs_quests_side_by_side(children, required, events.drop_last());
        let before = QuestModel::Choice(children, required).run(events.drop_last());
        step_each_index(before->Choice_0, events.last());
    }
}

/// A choice of two among three quests is, after any events, complete exactly
/// when two or more of the three are complete after the same events, however
/// the events of one quest stand among those of the others.
pub proof fn two_of_three_complete_a_choice(
    x: QuestModel,
    y: QuestModel,
    z: QuestModel,
    events: Seq<QuestEventView>,
)
    ensures
        QuestModel::Choice(seq![x, y, z], 2).run(events).status() == QuestStatus::Complete <==> {
            ||| x.run(events).status() == QuestStatus::Complete && y.run(events).status()
                == QuestStatus::Complete
            ||| x.run(events).status() == QuestStatus::Complete && z.run(events).status()
                == QuestStatus::Complete
            ||| y.run(events).status() == QuestStatus::Complete && z.run(events).status()
                == QuestStatus::Complete
        },
{
    let children = seq![x, y, z];
    choice_runs_quests_side_by_side(children, 2, events);
    let after = QuestModel::Choice(children, 2).run(events)->Choice_0;
    let two = after.drop_last();
    let one = two.drop_last();
    assert(one.drop_last().len() == 0);
    assert(completed_count(one) == completed_count(one.drop_last()) + if one.last().status()
        == QuestStatus::Complete {
        1nat
    } else {
        0nat
    });
    assert(completed_count(two) == completed_count(one) + if two.last().status()
        == QuestStatus::Complete {
        1nat
    } else {
        0nat
    });
}

/// A choice is complete exactly when complete quests stand at `required` or
/// more of its indices.
pub proof fn choice_complete_iff_enough_quests_complete(children: Seq<QuestModel>, required: nat)
    ensures
        QuestModel::Choice(children, required).status() == QuestStatus::Complete
            <==> complete_indices(children).len() >= required,
{
    completed_count_counts_indices(children);
}

/// A quest that was reset holds no progress.
pub proof fn reset_is_fresh(quest: QuestModel)
    ensures
        quest.reset().is_fresh(),
    decreases quest,
{
    match quest {
        QuestModel::Atomic(_) => {},
        QuestModel::InOrder(children, _) => {
            reset_each_is_fresh(children);
        },
        QuestModel::Choice(children, _) => {
            reset_each_is_fresh(children);
        },
    }
}

/// Quests that were reset hold no progress.
pub proof fn reset_each_is_fresh(children: Seq<QuestModel>)
    ensures
        reset_each(reset_each(children)) == reset_each(children),
    decreases children,
{
    reset_each_index(children);
    reset_each_index(reset_each(children));
    assert forall|i: int| 0 <= i < children.len() implies reset_each(reset_each(children))[i]
        == reset_each(children)[i] by {
        reset_is_fresh(children[i]);
    }
    assert(reset_each(reset_each(children)) =~= reset_each(children));
}

/// A composition of quests without progress, in order from the first or by
/// choice, holds no progress.
pub proof fn composition_of_fresh_quests_is_fresh(children: Seq<QuestModel>, required: nat)
    requires
        forall|i: int| 0 <= i < children.len() ==> (#[trigger] children[i]).is_fresh(),
    ensures
        QuestModel::InOrder(children, 0).is_fresh(),
        QuestModel::Choice(children, required).is_fresh(),
{
    reset_each_index(children);
    assert(reset_each(children) =~= children);
}

/// Resetting forgets an event altogether.
pub proof fn reset_forgets_event(quest: QuestModel, event: QuestEventView)
    ensures
        quest.step(event).reset() == quest.reset(),
    decreases quest,
{
    match quest {
        QuestModel::Atomic(_) => {},
        QuestModel::InOrder(children, current) => {
            if current < children.len() {
                let stepped = children.update(current as int, children[current as int].step(event));
                reset_each_index(children);
                reset_each_index(stepped);
                reset_forgets_event(children[current as int], event);
                assert(reset_each(stepped) =~= reset_each(children));
            }
        },
        QuestModel::Choice(children, _) => {
            reset_each_forgets_event(children, event);
        },
    }
}

/// Resetting forgets an event that every one of `children` was told of.
pub proof fn reset_each_forgets_event(children: Seq<QuestModel>, event: QuestEventView)
    ensures
        reset_each(step_each(children, event)) == reset_each(children),
    decreases children,
{
    step_each_index(children, event);
    reset_each_index(children);
    reset_each_index(step_each(children, event));
    assert forall|i: int| 0 <= i < children.len() implies reset_each(
        step_each(children, event),
    )[i] == reset_each(children)[i] by {
        reset_forgets_event(children[i], event);
    }
    assert(reset_each(step_each(children, event)) =~= reset_each(children));
}

/// Resetting a quest after any events gives the quest as it was before it
/// made any progress, and so the same description.
pub proof fn reset_restores_fresh_quest(
    quest: QuestModel,
    events: Seq<QuestEventView>,
    prefix: Seq<char>,
)
    requires
        quest.is_fresh(),
    ensures
        quest.run(events).reset() == quest,
        render(quest.run(events).reset(), prefix) == render(quest, prefix),
    decreases events.len(),
{
    if events.len() > 0 {
        reset_restores_fresh_quest(quest, events.drop_last(), prefix);
        reset_forgets_event(quest.run(events.drop_last()), events.last());
    }
}

} // verus!
