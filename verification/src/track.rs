//! Per-property instruction tracks.
//!
//! A track is the ordered list of scheduled changes of one visual property of
//! one atom. Tracks are kept sorted by start time with pairwise disjoint
//! active windows; querying a track means locating the last change that has
//! started at the query time.

use vstd::prelude::*;

verus! {

/// One scheduled change of a single visual property: it becomes active at
/// `start`, and if it interpolates it is in flight for `dur` ticks.
#[derive(Clone, Copy, Debug, PartialEq, Eq)]
pub struct TimedChange<T> {
    /// Tick at which the change begins.
    pub start: u64,
    /// Transition duration in ticks; zero means an instantaneous step.
    pub dur: u64,
    /// Whether the value is interpolated over the window rather than stepped.
    pub interpolate: bool,
    /// The value the property rests at once the change completes.
    pub target: T,
}

/// Exclusive end of the window a change occupies; an instantaneous change
/// occupies a single tick.
pub open spec fn tc_end<T>(c: TimedChange<T>) -> int {
    if c.dur > 0 {
        c.start + c.dur
    } else {
        c.start + 1
    }
}

/// The windows of two changes do not intersect.
pub open spec fn windows_disjoint<T, U>(a: TimedChange<T>, b: TimedChange<U>) -> bool {
    tc_end(a) <= b.start || tc_end(b) <= a.start
}

/// Every window on the track closes by time `d`.
pub open spec fn track_within<T>(s: Seq<TimedChange<T>>, d: int) -> bool {
    forall|k: int| 0 <= k < s.len() ==> (#[trigger] s[k]).start + s[k].dur <= d
}

/// Start times strictly increase along the track.
pub open spec fn sorted_strict<T>(s: Seq<TimedChange<T>>) -> bool {
    forall|i: int, j: int| 0 <= i < j < s.len() ==> s[i].start < s[j].start
}

/// Each change's window closes no later than the next change starts.
pub open spec fn wf_track<T>(s: Seq<TimedChange<T>>) -> bool {
    forall|i: int| 0 <= i && i + 1 < s.len() ==> tc_end(s[i]) <= s[i + 1].start
}

/// A track whose windows close in order is strictly sorted by start.
pub proof fn lemma_wf_track_sorted<T>(s: Seq<TimedChange<T>>)
    requires
        wf_track(s),
    ensures
        sorted_strict(s),
{
    assert forall|i: int, j: int| 0 <= i < j < s.len() implies s[i].start < s[j].start by {
        lemma_wf_track_start_lt(s, i, j);
    }
}

proof fn lemma_wf_track_start_lt<T>(s: Seq<TimedChange<T>>, i: int, j: int)
    requires
        wf_track(s),
        0 <= i < j < s.len(),
    ensures
        s[i].start < s[j].start,
    decreases j - i,
{
    if i + 1 == j {
        assert(tc_end(s[i]) <= s[j].start);
    } else {
        lemma_wf_track_start_lt(s, i, i + 1);
        lemma_wf_track_start_lt(s, i + 1, j);
    }
}

/// A sorted track with pairwise disjoint windows closes its windows in order.
pub proof fn lemma_disjoint_wf_track<T>(s: Seq<TimedChange<T>>)
    requires
        sorted_strict(s),
        forall|i: int, j: int|
            0 <= i < j < s.len() ==> windows_disjoint(#[trigger] s[i], #[trigger] s[j]),
    ensures
        wf_track(s),
{
    assert forall|i: int| 0 <= i && i + 1 < s.len() implies tc_end(s[i]) <= s[i + 1].start by {
        assert(windows_disjoint(s[i], s[i + 1]));
        assert(s[i].start < s[i + 1].start);
    }
}

/// Index of the last change that has started by time `t`, or `-1` when no
/// change has started yet.
pub open spec fn track_locate<T>(s: Seq<TimedChange<T>>, t: int) -> int
    decreases s.len(),
{
    if s.len() == 0 {
        -1
    } else if s.last().start <= t {
        s.len() - 1
    } else {
        track_locate(s.drop_last(), t)
    }
}

/// What `track_locate` finds: an index in range, whose change has started,
/// and after which no change has started.
pub proof fn lemma_track_locate_props<T>(s: Seq<TimedChange<T>>, t: int)
    ensures
        -1 <= track_locate(s, t) < s.len(),
        track_locate(s, t) >= 0 ==> s[track_locate(s, t)].start <= t,
        forall|i: int| track_locate(s, t) < i < s.len() ==> s[i].start > t,
    decreases s.len(),
{
    if s.len() == 0 {
    } else if s.last().start <= t {
    } else {
        lemma_track_locate_props(s.drop_last(), t);
        assert forall|i: int| track_locate(s, t) < i < s.len() implies s[i].start > t by {
            if i < s.len() - 1 {
                assert(s.drop_last()[i] == s[i]);
            }
        }
    }
}

/// When no change has started by `t`, nothing is located.
pub proof fn lemma_locate_none<T>(s: Seq<TimedChange<T>>, t: int)
    requires
        forall|k: int| 0 <= k < s.len() ==> (#[trigger] s[k]).start > t,
    ensures
        track_locate(s, t) == -1,
    decreases s.len(),
{
    if s.len() > 0 {
        lemma_locate_none(s.drop_last(), t);
    }
}

/// When every change has started by `t`, the last one is located.
pub proof fn lemma_locate_last<T>(s: Seq<TimedChange<T>>, t: int)
    requires
        s.len() > 0,
        forall|k: int| 0 <= k < s.len() ==> (#[trigger] s[k]).start <= t,
    ensures
        track_locate(s, t) == s.len() - 1,
{
}

/// A time inside one change's window locates exactly that change.
pub proof fn lemma_locate_in_window<T>(s: Seq<TimedChange<T>>, i: int, t: int)
    requires
        wf_track(s),
        0 <= i < s.len(),
        s[i].start <= t < tc_end(s[i]),
    ensures
        track_locate(s, t) == i,
{
    lemma_wf_track_sorted(s);
    lemma_track_locate_props(s, t);
    let r = track_locate(s, t);
    if r < i {
        assert(s[i].start > t);
    } else if r > i {
        assert(tc_end(s[i]) <= s[i + 1].start);
        if i + 1 < r {
            assert(s[i + 1].start < s[r].start);
        }
        assert(s[r].start <= t);
    }
}

/// Position at which a change starting at `st` belongs: the first index whose
/// change starts later.
pub open spec fn insert_pos<T>(s: Seq<TimedChange<T>>, st: int) -> int
    decreases s.len(),
{
    if s.len() == 0 {
        0
    } else if st < s[0].start {
        0
    } else {
        1 + insert_pos(s.drop_first(), st)
    }
}

/// What `insert_pos` finds: everything before it starts no later than `st`,
/// and the change at it (if any) starts later.
pub proof fn lemma_insert_pos_props<T>(s: Seq<TimedChange<T>>, st: int)
    ensures
        0 <= insert_pos(s, st) <= s.len(),
        forall|k: int| 0 <= k < insert_pos(s, st) ==> s[k].start <= st,
        insert_pos(s, st) < s.len() ==> st < s[insert_pos(s, st)].start,
    decreases s.len(),
{
    if s.len() == 0 {
    } else if st < s[0].start {
    } else {
        lemma_insert_pos_props(s.drop_first(), st);
        assert forall|k: int| 0 <= k < insert_pos(s, st) implies s[k].start <= st by {
            if k > 0 {
                assert(s.drop_first()[k - 1] == s[k]);
            }
        }
        if insert_pos(s, st) < s.len() {
            assert(s.drop_first()[insert_pos(s, st) - 1] == s[insert_pos(s, st)]);
        }
    }
}

/// Only one index can satisfy the characterization of `insert_pos`.
proof fn lemma_insert_pos_unique<T>(s: Seq<TimedChange<T>>, st: int, j: int)
    requires
        0 <= j <= s.len(),
        forall|k: int| 0 <= k < j ==> s[k].start <= st,
        j < s.len() ==> st < s[j].start,
    ensures
        j == insert_pos(s, st),
{
    lemma_insert_pos_props(s, st);
    let p = insert_pos(s, st);
    if p < j {
        assert(s[p].start <= st);
    } else if j < p {
        assert(s[j].start <= st);
    }
}

/// Inserting a change whose start differs from every present start keeps the
/// track strictly sorted.
pub proof fn lemma_insert_sorted<T>(s: Seq<TimedChange<T>>, item: TimedChange<T>)
    requires
        sorted_strict(s),
        forall|i: int| 0 <= i < s.len() ==> (#[trigger] s[i].start) != item.start,
    ensures
        sorted_strict(s.insert(insert_pos(s, item.start as int), item)),
{
    let st = item.start as int;
    let p = insert_pos(s, st);
    lemma_insert_pos_props(s, st);
    let s2 = s.insert(p, item);
    assert forall|i: int, j: int| 0 <= i < j < s2.len() implies s2[i].start < s2[j].start by {
        assert(forall|k: int| 0 <= k < p ==> s2[k] == s[k]);
        assert(forall|k: int| p < k < s2.len() ==> s2[k] == s[k - 1]);
        assert(forall|k: int| p <= k < s.len() ==> s[k].start > st) by {
            assert forall|k: int| p <= k < s.len() implies s[k].start > st by {
                if k > p {
                    assert(s[p].start < s[k].start);
                }
            }
        }
        assert(forall|k: int| 0 <= k < p ==> s[k].start < st);
    }
}

/// Finds the last change that has started by time `t`.
pub fn track_find<T>(items: &Vec<TimedChange<T>>, t: u64) -> (r: Option<usize>)
    ensures
        match r {
            Option::None => track_locate(items@, t as int) == -1,
            Option::Some(i) => i < items@.len() && i as int == track_locate(items@, t as int),
        },
{
    let ghost full = items@;
    let mut best: Option<usize> = None;
    let mut i: usize = 0;
    while i < items.len()
        invariant
            i <= items@.len(),
            items@ == full,
            match best {
                Option::None => track_locate(items@.take(i as int), t as int) == -1,
                Option::Some(b) => b < i && b as int == track_locate(
                    items@.take(i as int),
                    t as int,
                ),
            },
        decreases items@.len() - i,
    {
        proof {
            assert(items@.take(i as int + 1).drop_last() =~= items@.take(i as int));
            assert(items@.take(i as int + 1).last() == items@[i as int]);
        }
        if items[i].start <= t {
            best = Some(i);
        }
        i = i + 1;
    }
    proof {
        assert(items@.take(items@.len() as int) =~= items@);
    }
    best
}

/// Inserts a change at its sorted position.
pub fn track_insert<T>(items: &mut Vec<TimedChange<T>>, item: TimedChange<T>)
    ensures
        final(items)@ == old(items)@.insert(
            insert_pos(old(items)@, item.start as int),
            item,
        ),
{
    let ghost s = items@;
    let mut j: usize = 0;
    while j < items.len() && items[j].start <= item.start
        invariant
            j <= items@.len(),
            items@ == s,
            forall|k: int| 0 <= k < j ==> s[k].start <= item.start as int,
        decreases items@.len() - j,
    {
        proof {
            assert(s[j as int].start <= item.start as int);
        }
        j = j + 1;
    }
    proof {
        lemma_insert_pos_unique(s, item.start as int, j as int);
    }
    items.insert(j, item);
}

} // verus!
