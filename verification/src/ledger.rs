//! The order of waiting jobs as a mathematical sequence, and what holds of it.
//!
//! A ledger is the sequence of waiting ids from the head to the tail. The
//! functions here say what a position is and what taking an id out means;
//! the lemmas state how positions move when ids arrive and leave.

use crate::job::JobId;
use vstd::prelude::*;

verus! {

/// `i` is the position of `id` in `s`: `id` stands at index `i` and nowhere
/// before it.
pub open spec fn first_at(s: Seq<JobId>, id: JobId, i: int) -> bool {
    &&& 0 <= i < s.len()
    &&& s[i] == id
    &&& forall|j: int| 0 <= j < i ==> s[j] != id
}

/// Distance of `id` from the head of `s`, or `None` when `s` does not hold it.
pub open spec fn position_in(s: Seq<JobId>, id: JobId) -> Option<int> {
    if exists|i: int| first_at(s, id, i) {
        Some(choose|i: int| first_at(s, id, i))
    } else {
        None
    }
}

/// `s` with every occurrence of `id` taken out and all other ids kept in
/// their order.
pub open spec fn without(s: Seq<JobId>, id: JobId) -> Seq<JobId> {
    s.filter(other_than(id))
}

/// The test that every id but `id` passes.
pub open spec fn other_than(id: JobId) -> spec_fn(JobId) -> bool {
    |other: JobId| other != id
}

/// No id is waiting twice.
pub open spec fn distinct(s: Seq<JobId>) -> bool {
    s.no_duplicates()
}

/// An index that holds `id` is its position as soon as nothing before it does.
pub proof fn lemma_position_is(s: Seq<JobId>, id: JobId, i: int)
    requires
        first_at(s, id, i),
    ensures
        position_in(s, id) == Some(i),
{
    let k = choose|k: int| first_at(s, id, k);
    assert(first_at(s, id, k));
    if k < i {
        assert(s[k] != id);
    } else if i < k {
        assert(s[i] != id);
    }
}

/// What `position_in` answers: the first index that holds the id, and `None`
/// exactly when no index holds it.
pub proof fn lemma_position_in(s: Seq<JobId>, id: JobId)
    ensures
        position_in(s, id) is Some <==> s.contains(id),
        position_in(s, id) matches Some(i) ==> first_at(s, id, i),
{
    if s.contains(id) {
        let k = lemma_first_occurrence(s, id);
        lemma_position_is(s, id, k);
    } else {
        assert forall|i: int| !first_at(s, id, i) by {
            if 0 <= i < s.len() && s[i] == id {
                assert(s.contains(id));
            }
        }
    }
}

/// A sequence that holds `id` holds it at a first index.
proof fn lemma_first_occurrence(s: Seq<JobId>, id: JobId) -> (k: int)
    requires
        s.contains(id),
    ensures
        first_at(s, id, k),
    decreases s.len(),
{
    let i = choose|i: int| 0 <= i < s.len() && s[i] == id;
    let front = s.take(i);
    if front.contains(id) {
        let k = lemma_first_occurrence(front, id);
        assert(s[k] == front[k]);
        assert forall|j: int| 0 <= j < k implies s[j] != id by {
            assert(s[j] == front[j]);
        }
        k
    } else {
        assert forall|j: int| 0 <= j < i implies s[j] != id by {
            assert(front[j] == s[j]);
            assert(front.contains(front[j]));
        }
        i
    }
}

/// A sequence whose every id passes the test comes out of the filter
/// unchanged.
proof fn lemma_filter_keeps_all(s: Seq<JobId>, id: JobId)
    requires
        !s.contains(id),
    ensures
        without(s, id) == s,
    decreases s.len(),
{
    reveal(Seq::filter);
    if s.len() > 0 {
        let front = s.drop_last();
        assert forall|j: int| 0 <= j < front.len() implies front[j] != id by {
            assert(s[j] == front[j]);
            assert(s.contains(s[j]));
        }
        if front.contains(id) {
            let k = choose|k: int| 0 <= k < front.len() && front[k] == id;
            assert(front[k] != id);
        }
        lemma_filter_keeps_all(front, id);
        assert(s.contains(s.last()));
        assert(front.push(s.last()) =~= s);
    }
}

/// Taking out an id that is not waiting changes nothing: the ledger, and with
/// it every position, stays as it was.
pub proof fn lemma_remove_absent(s: Seq<JobId>, id: JobId)
    requires
        !s.contains(id),
    ensures
        without(s, id) == s,
        forall|other: JobId| position_in(without(s, id), other) == position_in(s, other),
{
    lemma_filter_keeps_all(s, id);
}

/// After an id was taken out it is gone, and exactly the other ids that were
/// waiting are still waiting.
pub proof fn lemma_remove_membership(s: Seq<JobId>, id: JobId)
    ensures
        !without(s, id).contains(id),
        forall|other: JobId| other != id ==> (without(s, id).contains(other) <==> s.contains(other)),
        without(s, id).len() <= s.len(),
{
    let kept = without(s, id);
    let keep = other_than(id);
    s.lemma_filter_len(keep);
    if kept.contains(id) {
        let k = choose|k: int| 0 <= k < kept.len() && kept[k] == id;
        s.lemma_filter_pred(keep, k);
    }
    assert forall|other: JobId| other != id implies (kept.contains(other) <==> s.contains(
        other,
    )) by {
        if s.contains(other) {
            let k = choose|k: int| 0 <= k < s.len() && s[k] == other;
            s.lemma_filter_contains(keep, k);
        }
        if kept.contains(other) {
            s.lemma_filter_contains_rev(keep, other);
        }
    }
}

/// Taking the same id out a second time changes nothing more.
pub proof fn lemma_remove_twice(s: Seq<JobId>, id: JobId)
    ensures
        without(without(s, id), id) == without(s, id),
{
    lemma_remove_membership(s, id);
    lemma_filter_keeps_all(without(s, id), id);
}

/// Where another id leaves, a waiting job `b` stays in the ledger and stands
/// behind exactly those ids in front of it that did not leave: it never
/// falls back.
pub proof fn lemma_remove_other(s: Seq<JobId>, a: JobId, b: JobId, i: int)
    requires
        a != b,
        position_in(s, b) == Some(i),
    ensures
        0 <= i < s.len(),
        position_in(without(s, a), b) == Some(without(s.take(i), a).len() as int),
        without(s.take(i), a).len() <= i,
{
    lemma_position_in(s, b);
    let front = s.take(i);
    let back = s.skip(i);
    let keep = other_than(a);
    assert(s =~= front + back);
    Seq::filter_distributes_over_add(front, back, keep);
    front.lemma_filter_len(keep);
    let kept_front = without(front, a);
    let kept_back = without(back, a);
    // the head of the back part is b, which stays
    assert(back =~= seq![b] + back.drop_first());
    Seq::filter_distributes_over_add(seq![b], back.drop_first(), keep);
    assert(without(seq![b], a) =~= seq![b]) by {
        reveal(Seq::filter);
        assert(seq![b].drop_last() =~= Seq::<JobId>::empty());
        assert(Seq::<JobId>::empty().push(b) =~= seq![b]);
    }
    assert(kept_back[0] == b);
    // nothing in the kept front is b
    assert forall|j: int| 0 <= j < kept_front.len() implies kept_front[j] != b by {
        if kept_front[j] == b {
            assert(kept_front.contains(b));
            front.lemma_filter_contains_rev(keep, b);
            let k = choose|k: int| 0 <= k < front.len() && front[k] == b;
            assert(s[k] == b);
        }
    }
    let kept = without(s, a);
    let n = kept_front.len() as int;
    assert(kept[n] == kept_back[0]);
    assert forall|j: int| 0 <= j < n implies kept[j] != b by {
        assert(kept[j] == kept_front[j]);
    }
    lemma_position_is(kept, b, n);
}

/// In a ledger without repeats, taking out a waiting id closes exactly its
/// slot: the ledger is one shorter, the id is gone, every job behind it
/// moves up by one and every job in front of it stays.
pub proof fn lemma_remove_waiting(s: Seq<JobId>, a: JobId, j: int)
    requires
        distinct(s),
        position_in(s, a) == Some(j),
    ensures
        0 <= j < s.len(),
        without(s, a) == s.remove(j),
        without(s, a).len() == s.len() - 1,
        !without(s, a).contains(a),
        forall|b: JobId|
            b != a && s.contains(b) ==> #[trigger] position_in(without(s, a), b) == Some(
                if j < position_in(s, b)->0 {
                    position_in(s, b)->0 - 1
                } else {
                    position_in(s, b)->0
                },
            ),
{
    lemma_position_in(s, a);
    lemma_remove_slot(s, a, j);
    lemma_remove_membership(s, a);
    assert forall|b: JobId| b != a && s.contains(b) implies #[trigger] position_in(
        without(s, a),
        b,
    ) == Some(
        if j < position_in(s, b)->0 {
            position_in(s, b)->0 - 1
        } else {
            position_in(s, b)->0
        },
    ) by {
        lemma_position_in(s, b);
        let i = position_in(s, b)->0;
        lemma_remove_other(s, a, b, i);
        let front = s.take(i);
        if j < i {
            assert(front[j] == a);
            assert(distinct(front));
            assert forall|k: int| 0 <= k < j implies front[k] != a by {}
            lemma_position_is(front, a, j);
            lemma_remove_slot(front, a, j);
        } else {
            if front.contains(a) {
                let k = choose|k: int| 0 <= k < front.len() && front[k] == a;
                assert(s[k] == a && s[j] == a);
            }
            lemma_filter_keeps_all(front, a);
        }
    }
}

/// Without repeats, taking out the id at index `j` is removing that index.
proof fn lemma_remove_slot(s: Seq<JobId>, a: JobId, j: int)
    requires
        distinct(s),
        0 <= j < s.len(),
        s[j] == a,
    ensures
        without(s, a) == s.remove(j),
    decreases s.len(),
{
    reveal(Seq::filter);
    let front = s.drop_last();
    let last = s.last();
    if j == s.len() - 1 {
        if front.contains(a) {
            let k = choose|k: int| 0 <= k < front.len() && front[k] == a;
            assert(s[k] == a);
        }
        lemma_filter_keeps_all(front, a);
        assert(s.remove(j) =~= front);
    } else {
        assert(last != a);
        assert(front[j] == a);
        lemma_remove_slot(front, a, j);
        assert(s.remove(j) =~= front.remove(j).push(last));
    }
}

/// An arriving id that was not waiting takes the slot behind the last one,
/// and nobody who was waiting moves.
pub proof fn lemma_push_position(s: Seq<JobId>, id: JobId)
    ensures
        !s.contains(id) ==> position_in(s.push(id), id) == Some(s.len() as int),
        forall|other: JobId|
            s.contains(other) ==> position_in(s.push(id), other) == position_in(s, other),
        distinct(s) && !s.contains(id) ==> distinct(s.push(id)),
{
    let t = s.push(id);
    if !s.contains(id) {
        assert forall|j: int| 0 <= j < s.len() implies t[j] != id by {
            assert(s.contains(s[j]));
        }
        lemma_position_is(t, id, s.len() as int);
    }
    assert forall|other: JobId| s.contains(other) implies position_in(t, other) == position_in(
        s,
        other,
    ) by {
        lemma_position_in(s, other);
        let i = position_in(s, other)->0;
        assert(t[i] == s[i]);
        assert forall|j: int| 0 <= j < i implies t[j] != other by {
            assert(t[j] == s[j]);
        }
        lemma_position_is(t, other, i);
    }
}

/// When the head leaves, every other waiting job moves up by exactly one.
pub proof fn lemma_pop_position(s: Seq<JobId>, b: JobId, i: int)
    requires
        s.len() > 0,
        s[0] != b,
        position_in(s, b) == Some(i),
    ensures
        i >= 1,
        position_in(s.drop_first(), b) == Some(i - 1),
{
    lemma_position_in(s, b);
    let t = s.drop_first();
    assert(t[i - 1] == s[i]);
    assert forall|j: int| 0 <= j < i - 1 implies t[j] != b by {
        assert(t[j] == s[j + 1]);
    }
    lemma_position_is(t, b, i - 1);
}

/// The ledger after the ids of `ids` were appended to `s` one after another.
pub open spec fn pushed_all(s: Seq<JobId>, ids: Seq<JobId>) -> Seq<JobId>
    decreases ids.len(),
{
    if ids.len() == 0 {
        s
    } else {
        pushed_all(s, ids.drop_last()).push(ids.last())
    }
}

/// Ids that arrived one after another on an empty queue, no id twice, wait
/// in arrival order: there are as many entries as arrivals, no id waits
/// twice, and the id that arrived as number `i` stands at position `i`.
pub proof fn lemma_arrival_order(ids: Seq<JobId>)
    requires
        distinct(ids),
    ensures
        pushed_all(Seq::empty(), ids) == ids,
        pushed_all(Seq::empty(), ids).len() == ids.len(),
        distinct(pushed_all(Seq::empty(), ids)),
        forall|i: int|
            0 <= i < ids.len() ==> position_in(pushed_all(Seq::empty(), ids), #[trigger] ids[i])
                == Some(i),
{
    lemma_pushed_all(ids);
    assert forall|i: int| 0 <= i < ids.len() implies position_in(ids, #[trigger] ids[i]) == Some(
        i,
    ) by {
        lemma_position_is(ids, ids[i], i);
    }
}

/// Appending to the empty ledger one by one builds the sequence itself.
proof fn lemma_pushed_all(ids: Seq<JobId>)
    ensures
        pushed_all(Seq::empty(), ids) == ids,
    decreases ids.len(),
{
    if ids.len() > 0 {
        lemma_pushed_all(ids.drop_last());
        assert(ids.drop_last().push(ids.last()) =~= ids);
    }
}

/// What others may do to the ledger while `b` waits in it: one of them
/// arrives, the head leaves, or one of them is taken out.
pub open spec fn others_moved(s: Seq<JobId>, t: Seq<JobId>, b: JobId) -> bool {
    ||| exists|x: JobId| t == s.push(x)
    ||| s.len() > 0 && s[0] != b && t == s.drop_first()
    ||| exists|a: JobId| a != b && t == without(s, a)
}

/// While a job waits, nothing that others do takes it out or moves it back:
/// the positions reported to its requester never grow.
pub proof fn lemma_position_never_grows(s: Seq<JobId>, t: Seq<JobId>, b: JobId)
    requires
        s.contains(b),
        others_moved(s, t, b),
    ensures
        t.contains(b),
        position_in(t, b)->0 <= position_in(s, b)->0,
{
    lemma_position_in(s, b);
    let i = position_in(s, b)->0;
    if exists|x: JobId| t == s.push(x) {
        let x = choose|x: JobId| t == s.push(x);
        lemma_push_position(s, x);
    } else if s.len() > 0 && s[0] != b && t == s.drop_first() {
        lemma_pop_position(s, b, i);
    } else {
        let a = choose|a: JobId| a != b && t == without(s, a);
        lemma_remove_other(s, a, b, i);
    }
    lemma_position_in(t, b);
}

/// Nobody waits in an empty queue.
pub proof fn lemma_empty_position(id: JobId)
    ensures
        position_in(Seq::<JobId>::empty(), id) is None,
{
    lemma_position_in(Seq::<JobId>::empty(), id);
}

/// Leaving never brings a repeat into a ledger that had none.
pub proof fn lemma_distinct_kept(s: Seq<JobId>, id: JobId)
    requires
        distinct(s),
    ensures
        distinct(without(s, id)),
        s.len() > 0 ==> distinct(s.drop_first()),
{
    lemma_position_in(s, id);
    if s.contains(id) {
        let j = position_in(s, id)->0;
        lemma_remove_slot(s, id, j);
        let t = s.remove(j);
        assert forall|x: int, y: int| 0 <= x < t.len() && 0 <= y < t.len() && x != y implies t[x]
            != t[y] by {
            let sx = if x < j { x } else { x + 1 };
            let sy = if y < j { y } else { y + 1 };
            assert(t[x] == s[sx] && t[y] == s[sy]);
        }
    } else {
        lemma_filter_keeps_all(s, id);
    }
    if s.len() > 0 {
        let t = s.drop_first();
        assert forall|x: int, y: int| 0 <= x < t.len() && 0 <= y < t.len() && x != y implies t[x]
            != t[y] by {
            assert(t[x] == s[x + 1] && t[y] == s[y + 1]);
        }
    }
}

} // verus!
