//! Bringing the meetings of a calendar into the journal: which calendar events
//! become new meetings, which move an existing meeting, and which are already
//! there.
use vstd::prelude::*;
use crate::model::{CalendarEvent, Meeting};
use crate::text::str_eq;
use crate::time::UtcTime;

verus! {

/// What the synchronisation did to a meeting.
#[derive(Clone, Copy, Debug, PartialEq, Eq, Structural)]
pub enum SyncAction {
    Created,
    Updated,
}

/// A meeting the synchronisation created or moved, as stored afterwards.
#[derive(Clone, Debug)]
pub struct SyncResult {
    pub action: SyncAction,
    pub meeting: Meeting,
}

/// One write of the synchronisation.
#[derive(Clone, Debug)]
pub enum SyncStep {
    /// Move the existing meeting at this position of the list to the event's time.
    Update { index: usize, scheduled_at: UtcTime },
    /// Create a meeting with this name and time.
    Create { name: String, scheduled_at: UtcTime },
}

/// A sync step as plain values.
pub enum SyncStepView {
    Update { index: int, scheduled_at: UtcTime },
    Create { name: Seq<char>, scheduled_at: UtcTime },
}

impl View for SyncStep {
    type V = SyncStepView;

    open spec fn view(&self) -> SyncStepView {
        match self {
            SyncStep::Update { index, scheduled_at } => SyncStepView::Update {
                index: *index as int,
                scheduled_at: *scheduled_at,
            },
            SyncStep::Create { name, scheduled_at } => SyncStepView::Create {
                name: name@,
                scheduled_at: *scheduled_at,
            },
        }
    }
}

/// The position of the last meeting of `ms` named `name`: of several meetings
/// with one name, the one listed last stands for the name.
pub open spec fn spec_last_named(ms: Seq<Meeting>, name: Seq<char>) -> Option<int>
    decreases ms.len(),
{
    if ms.len() == 0 {
        None
    } else if ms.last().name@ == name {
        Some(ms.len() - 1)
    } else {
        spec_last_named(ms.drop_last(), name)
    }
}

/// The write an event asks for: none when a meeting of its name is already at
/// its time, a move when a meeting of its name is at another time, else a new
/// meeting.
pub open spec fn spec_event_step(existing: Seq<Meeting>, e: CalendarEvent) -> Option<SyncStepView> {
    match spec_last_named(existing, e.name@) {
        Some(i) => if existing[i].scheduled_at == e.scheduled_at {
            None
        } else {
            Some(SyncStepView::Update { index: i, scheduled_at: e.scheduled_at })
        },
        None => Some(SyncStepView::Create { name: e.name@, scheduled_at: e.scheduled_at }),
    }
}

/// The writes for the events, in the order of the events.
pub open spec fn spec_sync_plan(existing: Seq<Meeting>, events: Seq<CalendarEvent>) -> Seq<SyncStepView>
    decreases events.len(),
{
    if events.len() == 0 {
        Seq::empty()
    } else {
        let before = spec_sync_plan(existing, events.drop_last());
        match spec_event_step(existing, events.last()) {
            Some(s) => before.push(s),
            None => before,
        }
    }
}

proof fn lemma_last_named_bounds(ms: Seq<Meeting>, name: Seq<char>)
    ensures
        spec_last_named(ms, name) matches Some(i) ==> 0 <= i < ms.len() && ms[i].name@ == name,
    decreases ms.len(),
{
    if ms.len() > 0 && ms.last().name@ != name {
        lemma_last_named_bounds(ms.drop_last(), name);
    }
}

fn last_named(ms: &Vec<Meeting>, name: &str) -> (r: Option<usize>)
    ensures
        match r {
            Some(i) => spec_last_named(ms@, name@) == Some(i as int),
            None => spec_last_named(ms@, name@).is_none(),
        },
{
    let mut k = ms.len();
    assert(ms@.subrange(0, k as int) =~= ms@);
    while k > 0
        invariant
            k <= ms.len(),
            spec_last_named(ms@, name@) == spec_last_named(ms@.subrange(0, k as int), name@),
        decreases k,
    {
        let ghost pre = ms@.subrange(0, k as int);
        assert(pre.last() == ms@[k - 1]);
        assert(pre.drop_last() =~= ms@.subrange(0, k - 1));
        if str_eq(ms[k - 1].name.as_str(), name) {
            return Some(k - 1);
        }
        k = k - 1;
    }
    None
}

/// The writes that bring the calendar's events into the journal, given the
/// meetings already stored in the same time range.
pub fn plan_sync(existing: &Vec<Meeting>, events: &Vec<CalendarEvent>) -> (plan: Vec<SyncStep>)
    ensures
        plan@.map_values(|s: SyncStep| s@) == spec_sync_plan(existing@, events@),
        forall|i: int| 0 <= i < plan.len() ==> match #[trigger] plan@[i]@ {
            SyncStepView::Update { index, .. } => 0 <= index < existing.len(),
            _ => true,
        },
{
    assert(existing@.subrange(0, existing.len() as int) =~= existing@);
    let mut plan: Vec<SyncStep> = Vec::new();
    let mut j: usize = 0;
    while j < events.len()
        invariant
            j <= events.len(),
            plan@.map_values(|s: SyncStep| s@) == spec_sync_plan(existing@, events@.subrange(0, j as int)),
            forall|i: int| 0 <= i < plan.len() ==> match #[trigger] plan@[i]@ {
                SyncStepView::Update { index, .. } => 0 <= index < existing.len(),
                _ => true,
            },
        decreases events.len() - j,
    {
        let e = &events[j];
        let ghost evs = events@.subrange(0, j + 1);
        assert(evs.drop_last() =~= events@.subrange(0, j as int));
        assert(evs.last() == events@[j as int]);
        let ghost prev = plan@;
        proof {
            lemma_last_named_bounds(existing@, e.name@);
        }
        match last_named(existing, e.name.as_str()) {
            Some(i) => {
                if !existing[i].scheduled_at.same_instant(&e.scheduled_at) {
                    let step = SyncStep::Update { index: i, scheduled_at: e.scheduled_at };
                    plan.push(step);
                    assert(plan@ =~= prev.push(step));
                    assert(plan@.map_values(|s: SyncStep| s@) =~= prev.map_values(|s: SyncStep| s@).push(step@));
                }
            },
            None => {
                let step = SyncStep::Create { name: e.name.clone(), scheduled_at: e.scheduled_at };
                plan.push(step);
                assert(plan@ =~= prev.push(step));
                assert(plan@.map_values(|s: SyncStep| s@) =~= prev.map_values(|s: SyncStep| s@).push(step@));
            },
        }
        j = j + 1;
    }
    assert(events@.subrange(0, events.len() as int) =~= events@);
    plan
}

/// The names and times of meetings.
pub open spec fn spec_pairs(ms: Seq<Meeting>) -> Seq<(Seq<char>, UtcTime)> {
    ms.map_values(|m: Meeting| (m.name@, m.scheduled_at))
}

/// The meetings, as names and times, after the writes of `plan`: a move sets
/// the time of the meeting at its position, a creation adds a meeting at the end.
pub open spec fn spec_apply(pairs: Seq<(Seq<char>, UtcTime)>, plan: Seq<SyncStepView>) -> Seq<(Seq<char>, UtcTime)>
    decreases plan.len(),
{
    if plan.len() == 0 {
        pairs
    } else {
        let before = spec_apply(pairs, plan.drop_last());
        match plan.last() {
            SyncStepView::Update { index, scheduled_at } => if 0 <= index < before.len() {
                before.update(index, (before[index].0, scheduled_at))
            } else {
                before
            },
            SyncStepView::Create { name, scheduled_at } => before.push((name, scheduled_at)),
        }
    }
}

/// No two events share a name.
pub open spec fn spec_names_distinct(events: Seq<CalendarEvent>) -> bool {
    forall|i: int, j: int| 0 <= i < j < events.len() ==> (#[trigger] events[i]).name@ != (#[trigger] events[j]).name@
}

/// The position of the last pair named `name`.
pub open spec fn spec_last_named_pair(s: Seq<(Seq<char>, UtcTime)>, name: Seq<char>) -> Option<int>
    decreases s.len(),
{
    if s.len() == 0 {
        None
    } else if s.last().0 == name {
        Some(s.len() - 1)
    } else {
        spec_last_named_pair(s.drop_last(), name)
    }
}

proof fn lemma_last_named_pairs(ms: Seq<Meeting>, name: Seq<char>)
    ensures
        spec_last_named(ms, name) == spec_last_named_pair(spec_pairs(ms), name),
    decreases ms.len(),
{
    if ms.len() > 0 {
        assert(spec_pairs(ms).drop_last() =~= spec_pairs(ms.drop_last()));
        lemma_last_named_pairs(ms.drop_last(), name);
    }
}

proof fn lemma_last_named_pair_is(s: Seq<(Seq<char>, UtcTime)>, name: Seq<char>)
    ensures
        spec_last_named_pair(s, name) matches Some(i) ==> 0 <= i < s.len() && s[i].0 == name && forall|j: int|
            i < j < s.len() ==> (#[trigger] s[j]).0 != name,
        spec_last_named_pair(s, name) is None ==> forall|j: int| 0 <= j < s.len() ==> (#[trigger] s[j]).0 != name,
    decreases s.len(),
{
    if s.len() > 0 && s.last().0 != name {
        lemma_last_named_pair_is(s.drop_last(), name);
        assert forall|j: int| 0 <= j < s.len() - 1 implies s[j] == s.drop_last()[j] by {}
    }
}

proof fn lemma_last_named_pair_at(s: Seq<(Seq<char>, UtcTime)>, name: Seq<char>, i: int)
    requires
        0 <= i < s.len(),
        s[i].0 == name,
        forall|j: int| i < j < s.len() ==> (#[trigger] s[j]).0 != name,
    ensures
        spec_last_named_pair(s, name) == Some(i),
    decreases s.len(),
{
    if i < s.len() - 1 {
        assert(s.last() == s[s.len() - 1]);
        assert forall|j: int| i < j < s.len() - 1 implies (#[trigger] s.drop_last()[j]).0 != name by {
            assert(s.drop_last()[j] == s[j]);
        }
        lemma_last_named_pair_at(s.drop_last(), name, i);
    }
}

proof fn lemma_last_named_pair_none(s: Seq<(Seq<char>, UtcTime)>, name: Seq<char>)
    requires
        forall|j: int| 0 <= j < s.len() ==> (#[trigger] s[j]).0 != name,
    ensures
        spec_last_named_pair(s, name) is None,
    decreases s.len(),
{
    if s.len() > 0 {
        assert(s.last() == s[s.len() - 1]);
        assert forall|j: int| 0 <= j < s.len() - 1 implies (#[trigger] s.drop_last()[j]).0 != name by {
            assert(s.drop_last()[j] == s[j]);
        }
        lemma_last_named_pair_none(s.drop_last(), name);
    }
}

/// What holds of the meetings after the writes for the first `k` events.
pub open spec fn spec_applied_facts(existing: Seq<Meeting>, events: Seq<CalendarEvent>, k: int) -> bool {
    let a = spec_apply(spec_pairs(existing), spec_sync_plan(existing, events.subrange(0, k)));
    &&& a.len() >= existing.len()
    &&& forall|i: int| 0 <= i < existing.len() ==> (#[trigger] a[i]).0 == existing[i].name@
    &&& forall|i: int|
        0 <= i < existing.len() && (forall|j: int| 0 <= j < k ==> spec_last_named(existing, #[trigger] events[j].name@) != Some(i))
            ==> (#[trigger] a[i]).1 == existing[i].scheduled_at
    &&& forall|p: int|
        existing.len() <= p < a.len() ==> exists|j: int|
            0 <= j < k && (#[trigger] a[p]).0 == events[j].name@ && spec_last_named(existing, events[j].name@) is None
    &&& forall|j: int| 0 <= j < k ==> spec_settled(a, #[trigger] events[j])
}

/// The last meeting named as the event is at the event's time.
pub open spec fn spec_settled(a: Seq<(Seq<char>, UtcTime)>, e: CalendarEvent) -> bool {
    match spec_last_named_pair(a, e.name@) {
        Some(i) => a[i].1 == e.scheduled_at,
        None => false,
    }
}

proof fn lemma_applied_facts(existing: Seq<Meeting>, events: Seq<CalendarEvent>, k: int)
    requires
        spec_names_distinct(events),
        0 <= k <= events.len(),
    ensures
        spec_applied_facts(existing, events, k),
    decreases k,
{
    let pairs = spec_pairs(existing);
    if k == 0 {
        assert(events.subrange(0, 0) =~= Seq::<CalendarEvent>::empty());
        assert(spec_sync_plan(existing, events.subrange(0, 0)) =~= Seq::<SyncStepView>::empty());
        return;
    }
    lemma_applied_facts(existing, events, k - 1);
    let evs = events.subrange(0, k);
    assert(evs.drop_last() =~= events.subrange(0, k - 1));
    assert(evs.last() == events[k - 1]);
    let plan0 = spec_sync_plan(existing, events.subrange(0, k - 1));
    let a0 = spec_apply(pairs, plan0);
    let e = events[k - 1];
    let n = e.name@;
    let a = spec_apply(pairs, spec_sync_plan(existing, evs));
    lemma_last_named_bounds(existing, n);
    lemma_last_named_pairs(existing, n);
    // no earlier event shares the name of this one
    assert forall|j: int| 0 <= j < k - 1 implies events[j].name@ != n by {
        assert(events[j].name@ != events[k - 1].name@);
    }
    match spec_last_named(existing, n) {
        Some(i0) => {
            // the meeting at i0 has not been moved yet
            assert forall|j: int| 0 <= j < k - 1 implies spec_last_named(existing, #[trigger] events[j].name@)
                != Some(i0) by {
                lemma_last_named_bounds(existing, events[j].name@);
            }
            assert(a0[i0].1 == existing[i0].scheduled_at);
            if existing[i0].scheduled_at == e.scheduled_at {
                assert(spec_sync_plan(existing, evs) == plan0);
                assert(a == a0);
            } else {
                let step = SyncStepView::Update { index: i0, scheduled_at: e.scheduled_at };
                assert(spec_sync_plan(existing, evs) == plan0.push(step));
                assert(plan0.push(step).drop_last() =~= plan0);
                assert(a == a0.update(i0, (a0[i0].0, e.scheduled_at)));
            }
            assert(a.len() == a0.len());
            assert forall|i: int| 0 <= i < a.len() && i != i0 implies a[i] == a0[i] by {}
            assert(a[i0] == (n, e.scheduled_at));
            // the appended meetings bear no name of a stored meeting
            lemma_last_named_pair_is(pairs, n);
            assert forall|p: int| i0 < p < a.len() implies (#[trigger] a[p]).0 != n by {
                assert(a[p] == a0[p]);
                if p < existing.len() {
                    assert(a0[p].0 == existing[p].name@);
                    assert(pairs[p].0 == existing[p].name@);
                } else {
                    let j = choose|j: int|
                        0 <= j < k - 1 && (#[trigger] a0[p]).0 == events[j].name@ && spec_last_named(
                            existing,
                            events[j].name@,
                        ) is None;
                    assert(a0[p].0 == events[j].name@);
                }
            }
            lemma_last_named_pair_at(a, n, i0);
            assert forall|j: int| 0 <= j < k implies spec_settled(a, #[trigger] events[j]) by {
                if j < k - 1 {
                    let nj = events[j].name@;
                    assert(spec_settled(a0, events[j]));
                    let i1 = spec_last_named_pair(a0, nj).unwrap();
                    lemma_last_named_pair_is(a0, nj);
                    assert(i1 != i0);
                    assert forall|q: int| i1 < q < a.len() implies (#[trigger] a[q]).0 != nj by {
                        if q != i0 {
                            assert(a[q] == a0[q]);
                        }
                    }
                    lemma_last_named_pair_at(a, nj, i1);
                }
            }
            assert forall|i: int|
                0 <= i < existing.len() && (forall|j: int|
                    0 <= j < k ==> spec_last_named(existing, #[trigger] events[j].name@) != Some(i)) implies (
            #[trigger] a[i]).1 == existing[i].scheduled_at by {
                assert(spec_last_named(existing, events[k - 1].name@) != Some(i));
                assert(a[i] == a0[i]);
            }
            assert forall|p: int| existing.len() <= p < a.len() implies exists|j: int|
                0 <= j < k && (#[trigger] a[p]).0 == events[j].name@ && spec_last_named(existing, events[j].name@)
                    is None by {
                assert(a[p] == a0[p]);
            }
            assert forall|i: int| 0 <= i < existing.len() implies (#[trigger] a[i]).0 == existing[i].name@ by {
                if i != i0 {
                    assert(a[i] == a0[i]);
                }
            }
        },
        None => {
            let step = SyncStepView::Create { name: n, scheduled_at: e.scheduled_at };
            assert(spec_sync_plan(existing, evs) == plan0.push(step));
            assert(plan0.push(step).drop_last() =~= plan0);
            assert(a == a0.push((n, e.scheduled_at)));
            assert forall|j: int| 0 <= j < k implies spec_settled(a, #[trigger] events[j]) by {
                if j < k - 1 {
                    let nj = events[j].name@;
                    let i1 = spec_last_named_pair(a0, nj).unwrap();
                    lemma_last_named_pair_is(a0, nj);
                    assert forall|q: int| i1 < q < a.len() implies (#[trigger] a[q]).0 != nj by {
                        if q < a0.len() {
                            assert(a[q] == a0[q]);
                        }
                    }
                    lemma_last_named_pair_at(a, nj, i1);
                } else {
                    lemma_last_named_pair_at(a, n, a.len() - 1);
                }
            }
            assert forall|i: int|
                0 <= i < existing.len() && (forall|j: int|
                    0 <= j < k ==> spec_last_named(existing, #[trigger] events[j].name@) != Some(i)) implies (
            #[trigger] a[i]).1 == existing[i].scheduled_at by {
                assert(a[i] == a0[i]);
            }
            assert forall|p: int| existing.len() <= p < a.len() implies exists|j: int|
                0 <= j < k && (#[trigger] a[p]).0 == events[j].name@ && spec_last_named(existing, events[j].name@)
                    is None by {
                if p < a0.len() {
                    assert(a[p] == a0[p]);
                } else {
                    assert(a[p].0 == events[k - 1].name@);
                }
            }
            assert forall|i: int| 0 <= i < existing.len() implies (#[trigger] a[i]).0 == existing[i].name@ by {
                assert(a[i] == a0[i]);
            }
        },
    }
}

proof fn lemma_plan_empty(after: Seq<Meeting>, events: Seq<CalendarEvent>, k: int)
    requires
        0 <= k <= events.len(),
        forall|j: int| 0 <= j < k ==> spec_event_step(after, #[trigger] events[j]) is None,
    ensures
        spec_sync_plan(after, events.subrange(0, k)) == Seq::<SyncStepView>::empty(),
    decreases k,
{
    if k == 0 {
        assert(events.subrange(0, 0) =~= Seq::<CalendarEvent>::empty());
    } else {
        lemma_plan_empty(after, events, k - 1);
        let evs = events.subrange(0, k);
        assert(evs.drop_last() =~= events.subrange(0, k - 1));
        assert(evs.last() == events[k - 1]);
    }
}

/// Synchronising is idempotent: once the writes for a set of calendar events
/// with distinct names have been made, the same events ask for no further
/// writes. `after` is the stored meetings with those writes made, in the same
/// order, the new ones last.
pub proof fn law_sync_is_idempotent(existing: Seq<Meeting>, events: Seq<CalendarEvent>, after: Seq<Meeting>)
    requires
        spec_names_distinct(events),
        spec_pairs(after) == spec_apply(spec_pairs(existing), spec_sync_plan(existing, events)),
    ensures
        spec_sync_plan(after, events) == Seq::<SyncStepView>::empty(),
{
    let k = events.len() as int;
    lemma_applied_facts(existing, events, k);
    assert(events.subrange(0, k) =~= events);
    let a = spec_pairs(after);
    assert forall|j: int| 0 <= j < k implies spec_event_step(after, #[trigger] events[j]) is None by {
        let nj = events[j].name@;
        lemma_last_named_pairs(after, nj);
        assert(spec_settled(a, events[j]));
        let i = spec_last_named_pair(a, nj).unwrap();
        lemma_last_named_pair_is(a, nj);
        assert(a[i] == (after[i].name@, after[i].scheduled_at));
    }
    lemma_plan_empty(after, events, k);
}

/// No two pairs share a name.
pub open spec fn spec_pair_names_distinct(a: Seq<(Seq<char>, UtcTime)>) -> bool {
    forall|i: int, j: int| 0 <= i < j < a.len() ==> (#[trigger] a[i]).0 != (#[trigger] a[j]).0
}

proof fn lemma_applied_names_distinct(existing: Seq<Meeting>, events: Seq<CalendarEvent>, k: int)
    requires
        spec_names_distinct(events),
        spec_pair_names_distinct(spec_pairs(existing)),
        0 <= k <= events.len(),
    ensures
        spec_pair_names_distinct(spec_apply(spec_pairs(existing), spec_sync_plan(existing, events.subrange(0, k)))),
    decreases k,
{
    let pairs = spec_pairs(existing);
    if k == 0 {
        assert(events.subrange(0, 0) =~= Seq::<CalendarEvent>::empty());
        assert(spec_sync_plan(existing, events.subrange(0, 0)) =~= Seq::<SyncStepView>::empty());
        return;
    }
    lemma_applied_names_distinct(existing, events, k - 1);
    lemma_applied_facts(existing, events, k - 1);
    let evs = events.subrange(0, k);
    assert(evs.drop_last() =~= events.subrange(0, k - 1));
    assert(evs.last() == events[k - 1]);
    let plan0 = spec_sync_plan(existing, events.subrange(0, k - 1));
    let a0 = spec_apply(pairs, plan0);
    let e = events[k - 1];
    let n = e.name@;
    let a = spec_apply(pairs, spec_sync_plan(existing, evs));
    lemma_last_named_bounds(existing, n);
    lemma_last_named_pairs(existing, n);
    match spec_last_named(existing, n) {
        Some(i0) => {
            if existing[i0].scheduled_at == e.scheduled_at {
                assert(spec_sync_plan(existing, evs) == plan0);
                assert(a == a0);
            } else {
                let step = SyncStepView::Update { index: i0, scheduled_at: e.scheduled_at };
                assert(spec_sync_plan(existing, evs) == plan0.push(step));
                assert(plan0.push(step).drop_last() =~= plan0);
                assert(a == a0.update(i0, (a0[i0].0, e.scheduled_at)));
                assert forall|p: int, q: int| 0 <= p < q < a.len() implies (#[trigger] a[p]).0 != (#[trigger] a[q]).0 by {
                    assert(a[p].0 == a0[p].0);
                    assert(a[q].0 == a0[q].0);
                }
            }
        },
        None => {
            let step = SyncStepView::Create { name: n, scheduled_at: e.scheduled_at };
            assert(spec_sync_plan(existing, evs) == plan0.push(step));
            assert(plan0.push(step).drop_last() =~= plan0);
            assert(a == a0.push((n, e.scheduled_at)));
            lemma_last_named_pair_is(pairs, n);
            assert forall|p: int| 0 <= p < a0.len() implies (#[trigger] a0[p]).0 != n by {
                if p < existing.len() {
                    assert(pairs[p].0 == existing[p].name@);
                } else {
                    let j = choose|j: int|
                        0 <= j < k - 1 && (#[trigger] a0[p]).0 == events[j].name@ && spec_last_named(
                            existing,
                            events[j].name@,
                        ) is None;
                    assert(events[j].name@ != events[k - 1].name@);
                }
            }
            assert forall|p: int, q: int| 0 <= p < q < a.len() implies (#[trigger] a[p]).0 != (#[trigger] a[q]).0 by {
                assert(a[p] == a0[p]);
                if q < a0.len() {
                    assert(a[q] == a0[q]);
                }
            }
        },
    }
}

/// Synchronising is idempotent whatever order the store lists the meetings in:
/// when no two stored meetings share a name and the events' names are distinct,
/// the meetings the first writes leave, read back in any order (any list that
/// holds exactly those names and times), ask for no further writes.
pub proof fn law_sync_is_idempotent_in_any_order(
    existing: Seq<Meeting>,
    events: Seq<CalendarEvent>,
    after: Seq<Meeting>,
)
    requires
        spec_names_distinct(events),
        spec_pair_names_distinct(spec_pairs(existing)),
        forall|p: (Seq<char>, UtcTime)|
            spec_pairs(after).contains(p) <==> #[trigger] spec_apply(
                spec_pairs(existing),
                spec_sync_plan(existing, events),
            ).contains(p),
    ensures
        spec_sync_plan(after, events) == Seq::<SyncStepView>::empty(),
{
    let k = events.len() as int;
    lemma_applied_facts(existing, events, k);
    lemma_applied_names_distinct(existing, events, k);
    assert(events.subrange(0, k) =~= events);
    let a = spec_apply(spec_pairs(existing), spec_sync_plan(existing, events));
    let b = spec_pairs(after);
    assert forall|j: int| 0 <= j < k implies spec_event_step(after, #[trigger] events[j]) is None by {
        let nj = events[j].name@;
        assert(spec_settled(a, events[j]));
        let i = spec_last_named_pair(a, nj).unwrap();
        lemma_last_named_pair_is(a, nj);
        assert(a.contains(a[i]));
        assert(b.contains(a[i]));
        let w = choose|w: int| 0 <= w < b.len() && b[w] == a[i];
        lemma_last_named_pairs(after, nj);
        lemma_last_named_pair_is(b, nj);
        let q = spec_last_named_pair(b, nj).unwrap();
        assert(b.contains(b[q]));
        assert(a.contains(b[q]));
        let r = choose|r: int| 0 <= r < a.len() && a[r] == b[q];
        if r != i {
            if r < i {
                assert(a[r].0 != a[i].0);
            } else {
                assert(a[i].0 != a[r].0);
            }
        }
        assert(b[q] == (after[q].name@, after[q].scheduled_at));
    }
    lemma_plan_empty(after, events, k);
}

} // verus!
