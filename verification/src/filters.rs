//! Query filters of the store: each set field adds a condition, and the
//! conditions are joined into a `WHERE` clause with their parameters in order.
use vstd::prelude::*;
use crate::ids::{spec_uuid_text, uuid_string};
use crate::time::{db_time_text, format_db_time, UtcTime};

verus! {

/// The conditions joined by ` AND `.
pub open spec fn spec_join_and(conds: Seq<Seq<char>>) -> Seq<char>
    decreases conds.len(),
{
    if conds.len() == 0 {
        Seq::empty()
    } else if conds.len() == 1 {
        conds[0]
    } else {
        spec_join_and(conds.drop_last()) + " AND "@ + conds.last()
    }
}

/// Nothing for no condition, else ` WHERE ` and the conditions joined by ` AND `.
pub open spec fn spec_where_clause(conds: Seq<Seq<char>>) -> Seq<char> {
    if conds.len() == 0 {
        Seq::empty()
    } else {
        " WHERE "@ + spec_join_and(conds)
    }
}

pub open spec fn spec_views(v: Seq<String>) -> Seq<Seq<char>> {
    v.map_values(|s: String| s@)
}

/// The clause for the given conditions.
pub fn where_clause(conds: &Vec<String>) -> (clause: String)
    ensures
        clause@ == spec_where_clause(spec_views(conds@)),
{
    if conds.len() == 0 {
        return String::new();
    }
    let mut joined = String::new();
    let mut i: usize = 0;
    while i < conds.len()
        invariant
            i <= conds.len(),
            joined@ == spec_join_and(spec_views(conds@.subrange(0, i as int))),
        decreases conds.len() - i,
    {
        if i > 0 {
            joined.append(" AND ");
        }
        joined.append(conds[i].as_str());
        let ghost sub = spec_views(conds@.subrange(0, i + 1));
        assert(sub.drop_last() =~= spec_views(conds@.subrange(0, i as int)));
        assert(sub.last() == conds@[i as int]@);
        assert(joined@ =~= spec_join_and(sub));
        i = i + 1;
    }
    assert(conds@.subrange(0, conds.len() as int) =~= conds@);
    let mut clause = String::from_str(" WHERE ");
    clause.append(joined.as_str());
    clause
}

/// A condition and its parameter, pushed onto the lists.
fn add_condition(conds: &mut Vec<String>, params: &mut Vec<String>, cond: &str, param: String)
    ensures
        spec_views(final(conds)@) == spec_views(old(conds)@).push(cond@),
        spec_views(final(params)@) == spec_views(old(params)@).push(param@),
{
    let c = String::from_str(cond);
    conds.push(c);
    assert(spec_views(conds@) =~= spec_views(old(conds)@).push(cond@));
    let ghost p = param@;
    params.push(param);
    assert(spec_views(params@) =~= spec_views(old(params)@).push(p));
}

/// Which meetings to select.
pub struct MeetingFilter {
    pub id: Option<u128>,
    pub name: Option<String>,
    /// Scheduled at or after.
    pub start: Option<UtcTime>,
    /// Scheduled before.
    pub end: Option<UtcTime>,
}

/// The condition of one field and its parameter, when the field is set.
pub open spec fn spec_opt_pair(c: Seq<char>, p: Option<Seq<char>>) -> Seq<(Seq<char>, Seq<char>)> {
    match p {
        Some(v) => seq![(c, v)],
        None => Seq::empty(),
    }
}

pub open spec fn spec_firsts(ps: Seq<(Seq<char>, Seq<char>)>) -> Seq<Seq<char>> {
    ps.map_values(|p: (Seq<char>, Seq<char>)| p.0)
}

pub open spec fn spec_seconds(ps: Seq<(Seq<char>, Seq<char>)>) -> Seq<Seq<char>> {
    ps.map_values(|p: (Seq<char>, Seq<char>)| p.1)
}

/// The `WHERE` clause and parameters of a list of conditions with their parameters.
pub open spec fn spec_clause_of(ps: Seq<(Seq<char>, Seq<char>)>) -> (Seq<char>, Seq<Seq<char>>) {
    (spec_where_clause(spec_firsts(ps)), spec_seconds(ps))
}

impl MeetingFilter {
    pub fn new() -> (f: MeetingFilter)
        ensures
            f.id.is_none() && f.name.is_none() && f.start.is_none() && f.end.is_none(),
    {
        MeetingFilter { id: None, name: None, start: None, end: None }
    }

    pub fn id(self, id: u128) -> (f: MeetingFilter)
        ensures
            f.id == Some(id),
            f.name == self.name && f.start == self.start && f.end == self.end,
    {
        MeetingFilter { id: Some(id), ..self }
    }

    pub fn name(self, name: &str) -> (f: MeetingFilter)
        ensures
            f.name.is_some() && f.name.unwrap()@ == name@,
            f.id == self.id && f.start == self.start && f.end == self.end,
    {
        MeetingFilter { name: Some(String::from_str(name)), ..self }
    }

    pub fn start(self, start: UtcTime) -> (f: MeetingFilter)
        ensures
            f.start == Some(start),
            f.id == self.id && f.name == self.name && f.end == self.end,
    {
        MeetingFilter { start: Some(start), ..self }
    }

    pub fn end(self, end: UtcTime) -> (f: MeetingFilter)
        ensures
            f.end == Some(end),
            f.id == self.id && f.name == self.name && f.start == self.start,
    {
        MeetingFilter { end: Some(end), ..self }
    }

    /// Every time that is set can be written as stored text.
    pub open spec fn spec_times_writable(&self) -> bool {
        &&& self.start matches Some(t) ==> db_time_text(t.secs as int, t.nanos as int).is_some()
        &&& self.end matches Some(t) ==> db_time_text(t.secs as int, t.nanos as int).is_some()
    }

    pub open spec fn spec_id_part(&self) -> Seq<(Seq<char>, Seq<char>)> {
        spec_opt_pair(
            "meeting_id = ?"@,
            match self.id {
                Some(v) => Some(spec_uuid_text(v)),
                None => None,
            },
        )
    }

    pub open spec fn spec_name_part(&self) -> Seq<(Seq<char>, Seq<char>)> {
        spec_opt_pair(
            "name = ?"@,
            match self.name {
                Some(n) => Some(n@),
                None => None,
            },
        )
    }

    pub open spec fn spec_start_part(&self) -> Seq<(Seq<char>, Seq<char>)> {
        spec_opt_pair(
            "scheduled_at >= ?"@,
            match self.start {
                Some(t) => db_time_text(t.secs as int, t.nanos as int),
                None => None,
            },
        )
    }

    pub open spec fn spec_end_part(&self) -> Seq<(Seq<char>, Seq<char>)> {
        spec_opt_pair(
            "scheduled_at < ?"@,
            match self.end {
                Some(t) => db_time_text(t.secs as int, t.nanos as int),
                None => None,
            },
        )
    }

    /// The conditions with their parameters: by id, name, earliest and latest time.
    pub open spec fn spec_conditions(&self) -> Seq<(Seq<char>, Seq<char>)> {
        self.spec_id_part() + self.spec_name_part() + self.spec_start_part() + self.spec_end_part()
    }

    /// The `WHERE` clause and its parameters; `None` when a set time cannot be written.
    pub fn build_where_clause(&self) -> (r: Option<(String, Vec<String>)>)
        ensures
            r is Some <==> self.spec_times_writable(),
            r matches Some((clause, params)) ==> (clause@, spec_views(params@)) == spec_clause_of(
                self.spec_conditions(),
            ),
    {
        let mut conds: Vec<String> = Vec::new();
        let mut params: Vec<String> = Vec::new();
        let ghost mut ps: Seq<(Seq<char>, Seq<char>)> = Seq::empty();
        if let Some(id) = self.id {
            add_condition(&mut conds, &mut params, "meeting_id = ?", uuid_string(id));
        }
        proof {
            ps = self.spec_id_part();
            assert(spec_views(conds@) =~= spec_firsts(ps));
            assert(spec_views(params@) =~= spec_seconds(ps));
        }
        if let Some(name) = &self.name {
            add_condition(&mut conds, &mut params, "name = ?", name.clone());
        }
        proof {
            ps = ps + self.spec_name_part();
            assert(spec_views(conds@) =~= spec_firsts(ps));
            assert(spec_views(params@) =~= spec_seconds(ps));
        }
        if let Some(start) = self.start {
            match format_db_time(start) {
                Some(text) => add_condition(&mut conds, &mut params, "scheduled_at >= ?", text),
                None => {
                    return None;
                },
            }
        }
        proof {
            ps = ps + self.spec_start_part();
            assert(spec_views(conds@) =~= spec_firsts(ps));
            assert(spec_views(params@) =~= spec_seconds(ps));
        }
        if let Some(end) = self.end {
            match format_db_time(end) {
                Some(text) => add_condition(&mut conds, &mut params, "scheduled_at < ?", text),
                None => {
                    return None;
                },
            }
        }
        proof {
            ps = ps + self.spec_end_part();
            assert(spec_views(conds@) =~= spec_firsts(ps));
            assert(spec_views(params@) =~= spec_seconds(ps));
            assert(ps =~= self.spec_conditions());
        }
        let clause = where_clause(&conds);
        Some((clause, params))
    }
}

/// Which notes to select.
pub struct NoteFilter {
    pub id: Option<u128>,
    pub related_to_id: Option<u128>,
}

impl NoteFilter {
    pub fn new() -> (f: NoteFilter)
        ensures
            f.id.is_none() && f.related_to_id.is_none(),
    {
        NoteFilter { id: None, related_to_id: None }
    }

    pub fn id(self, id: u128) -> (f: NoteFilter)
        ensures
            f.id == Some(id) && f.related_to_id == self.related_to_id,
    {
        NoteFilter { id: Some(id), ..self }
    }

    pub fn related_to_id(self, related_to_id: u128) -> (f: NoteFilter)
        ensures
            f.related_to_id == Some(related_to_id) && f.id == self.id,
    {
        NoteFilter { related_to_id: Some(related_to_id), ..self }
    }

    /// The conditions with their parameters: by id, then by the entity noted on.
    pub open spec fn spec_conditions(&self) -> Seq<(Seq<char>, Seq<char>)> {
        spec_opt_pair(
            "note_id = ?"@,
            match self.id {
                Some(v) => Some(spec_uuid_text(v)),
                None => None,
            },
        ) + spec_opt_pair(
            "related_to_id = ?"@,
            match self.related_to_id {
                Some(v) => Some(spec_uuid_text(v)),
                None => None,
            },
        )
    }

    pub fn build_where_clause(&self) -> (r: (String, Vec<String>))
        ensures
            (r.0@, spec_views(r.1@)) == spec_clause_of(self.spec_conditions()),
    {
        let mut conds: Vec<String> = Vec::new();
        let mut params: Vec<String> = Vec::new();
        if let Some(id) = self.id {
            add_condition(&mut conds, &mut params, "note_id = ?", uuid_string(id));
        }
        if let Some(rid) = self.related_to_id {
            add_condition(&mut conds, &mut params, "related_to_id = ?", uuid_string(rid));
        }
        proof {
            let ps = self.spec_conditions();
            assert(spec_views(conds@) =~= spec_firsts(ps));
            assert(spec_views(params@) =~= spec_seconds(ps));
        }
        let clause = where_clause(&conds);
        (clause, params)
    }
}

/// Which summaries to select.
pub struct SummaryFilter {
    pub id: Option<u128>,
}

impl SummaryFilter {
    pub fn new() -> (f: SummaryFilter)
        ensures
            f.id.is_none(),
    {
        SummaryFilter { id: None }
    }

    pub fn id(self, id: u128) -> (f: SummaryFilter)
        ensures
            f.id == Some(id),
    {
        SummaryFilter { id: Some(id) }
    }

    pub open spec fn spec_conditions(&self) -> Seq<(Seq<char>, Seq<char>)> {
        spec_opt_pair(
            "summary_id = ?"@,
            match self.id {
                Some(v) => Some(spec_uuid_text(v)),
                None => None,
            },
        )
    }

    pub fn build_where_clause(&self) -> (r: (String, Vec<String>))
        ensures
            (r.0@, spec_views(r.1@)) == spec_clause_of(self.spec_conditions()),
    {
        let mut conds: Vec<String> = Vec::new();
        let mut params: Vec<String> = Vec::new();
        if let Some(id) = self.id {
            add_condition(&mut conds, &mut params, "summary_id = ?", uuid_string(id));
        }
        proof {
            let ps = self.spec_conditions();
            assert(spec_views(conds@) =~= spec_firsts(ps));
            assert(spec_views(params@) =~= spec_seconds(ps));
        }
        let clause = where_clause(&conds);
        (clause, params)
    }
}

/// The events of the given entities: ` WHERE entity_id IN (?, .., ?)` with one
/// parameter per id; nothing for no id.
pub open spec fn spec_entity_in_clause(n: nat) -> Seq<char>
    decreases n,
{
    if n == 0 {
        Seq::empty()
    } else {
        " WHERE entity_id IN ("@ + spec_question_marks(n) + ")"@
    }
}

/// `n` question marks joined by `, `.
pub open spec fn spec_question_marks(n: nat) -> Seq<char>
    decreases n,
{
    if n <= 1 {
        "?"@
    } else {
        spec_question_marks((n - 1) as nat) + ", ?"@
    }
}

pub fn entity_in_clause(ids: &Vec<u128>) -> (r: (String, Vec<String>))
    ensures
        r.0@ == spec_entity_in_clause(ids.len() as nat),
        spec_views(r.1@) == ids@.map_values(|v: u128| spec_uuid_text(v)),
{
    let mut params: Vec<String> = Vec::new();
    if ids.len() == 0 {
        assert(spec_views(params@) =~= ids@.map_values(|v: u128| spec_uuid_text(v)));
        return (String::new(), params);
    }
    let mut marks = String::from_str("?");
    let mut i: usize = 0;
    while i < ids.len()
        invariant
            i <= ids.len(),
            ids.len() > 0,
            marks@ == spec_question_marks(if i == 0 { 1nat } else { i as nat }),
            spec_views(params@) == ids@.subrange(0, i as int).map_values(|v: u128| spec_uuid_text(v)),
        decreases ids.len() - i,
    {
        if i > 0 {
            marks.append(", ?");
        }
        let ghost prev = spec_views(params@);
        params.push(uuid_string(ids[i]));
        assert(spec_views(params@) =~= prev.push(spec_uuid_text(ids@[i as int])));
        assert(ids@.subrange(0, i + 1).map_values(|v: u128| spec_uuid_text(v)) =~= ids@.subrange(0, i as int).map_values(
            |v: u128| spec_uuid_text(v),
        ).push(spec_uuid_text(ids@[i as int])));
        i = i + 1;
    }
    assert(ids@.subrange(0, ids.len() as int) =~= ids@);
    let mut clause = String::from_str(" WHERE entity_id IN (");
    clause.append(marks.as_str());
    clause.append(")");
    (clause, params)
}

proof fn lemma_clause_of_one(c: Seq<char>, p: Seq<char>)
    ensures
        spec_clause_of(seq![(c, p)]) == (" WHERE "@ + c, seq![p]),
{
    assert(spec_firsts(seq![(c, p)]) =~= seq![c]);
    assert(spec_seconds(seq![(c, p)]) =~= seq![p]);
}

proof fn lemma_clause_of_two(c1: Seq<char>, p1: Seq<char>, c2: Seq<char>, p2: Seq<char>)
    ensures
        spec_clause_of(seq![(c1, p1), (c2, p2)]) == (" WHERE "@ + c1 + " AND "@ + c2, seq![p1, p2]),
{
    let ps = seq![(c1, p1), (c2, p2)];
    assert(spec_firsts(ps) =~= seq![c1, c2]);
    assert(spec_seconds(ps) =~= seq![p1, p2]);
    assert(seq![c1, c2].drop_last() =~= seq![c1]);
    assert(spec_join_and(seq![c1]) == c1);
    assert(spec_join_and(seq![c1, c2]) == c1 + " AND "@ + c2);
    assert(spec_where_clause(seq![c1, c2]) == " WHERE "@ + (c1 + " AND "@ + c2));
    assert(" WHERE "@ + (c1 + " AND "@ + c2) =~= " WHERE "@ + c1 + " AND "@ + c2);
}

/// The notes filter selects by the note's own id (`note_id`) and by the entity
/// a note is about (`related_to_id`), each with its id's text as parameter:
/// nothing set selects everything.
pub proof fn law_note_filter_clause(f: NoteFilter)
    ensures
        f.id.is_none() && f.related_to_id.is_none() ==> spec_clause_of(f.spec_conditions()) == (
            Seq::<char>::empty(),
            Seq::<Seq<char>>::empty(),
        ),
        f.related_to_id matches Some(r) ==> (f.id.is_none() ==> spec_clause_of(f.spec_conditions()) == (
            " WHERE related_to_id = ?"@,
            seq![spec_uuid_text(r)],
        )),
        f.id matches Some(n) ==> (f.related_to_id.is_none() ==> spec_clause_of(f.spec_conditions()) == (
            " WHERE note_id = ?"@,
            seq![spec_uuid_text(n)],
        )),
        (f.id, f.related_to_id) matches (Some(n), Some(r)) ==> spec_clause_of(f.spec_conditions()) == (
            " WHERE note_id = ? AND related_to_id = ?"@,
            seq![spec_uuid_text(n), spec_uuid_text(r)],
        ),
{
    reveal_strlit(" WHERE ");
    reveal_strlit(" AND ");
    reveal_strlit("note_id = ?");
    reveal_strlit("related_to_id = ?");
    reveal_strlit(" WHERE related_to_id = ?");
    reveal_strlit(" WHERE note_id = ?");
    reveal_strlit(" WHERE note_id = ? AND related_to_id = ?");
    let ps = f.spec_conditions();
    match (f.id, f.related_to_id) {
        (None, None) => {
            assert(ps =~= Seq::<(Seq<char>, Seq<char>)>::empty());
            assert(spec_seconds(ps) =~= Seq::<Seq<char>>::empty());
        },
        (None, Some(r)) => {
            assert(ps =~= seq![("related_to_id = ?"@, spec_uuid_text(r))]);
            lemma_clause_of_one("related_to_id = ?"@, spec_uuid_text(r));
            assert(" WHERE "@ + "related_to_id = ?"@ =~= " WHERE related_to_id = ?"@);
        },
        (Some(n), None) => {
            assert(ps =~= seq![("note_id = ?"@, spec_uuid_text(n))]);
            lemma_clause_of_one("note_id = ?"@, spec_uuid_text(n));
            assert(" WHERE "@ + "note_id = ?"@ =~= " WHERE note_id = ?"@);
        },
        (Some(n), Some(r)) => {
            assert(ps =~= seq![("note_id = ?"@, spec_uuid_text(n)), ("related_to_id = ?"@, spec_uuid_text(r))]);
            lemma_clause_of_two("note_id = ?"@, spec_uuid_text(n), "related_to_id = ?"@, spec_uuid_text(r));
            assert(" WHERE "@ + "note_id = ?"@ + " AND "@ + "related_to_id = ?"@
                =~= " WHERE note_id = ? AND related_to_id = ?"@);
            assert(spec_clause_of(ps) == (
                " WHERE note_id = ? AND related_to_id = ?"@,
                seq![spec_uuid_text(n), spec_uuid_text(r)],
            ));
        },
    }
}

/// The summaries filter selects by the summary's id (`summary_id`), with the
/// id's text as parameter; unset, it selects everything.
pub proof fn law_summary_filter_clause(f: SummaryFilter)
    ensures
        f.id.is_none() ==> spec_clause_of(f.spec_conditions()) == (Seq::<char>::empty(), Seq::<Seq<char>>::empty()),
        f.id matches Some(n) ==> spec_clause_of(f.spec_conditions()) == (
            " WHERE summary_id = ?"@,
            seq![spec_uuid_text(n)],
        ),
{
    reveal_strlit(" WHERE ");
    reveal_strlit("summary_id = ?");
    reveal_strlit(" WHERE summary_id = ?");
    let ps = f.spec_conditions();
    match f.id {
        None => {
            assert(ps =~= Seq::<(Seq<char>, Seq<char>)>::empty());
            assert(spec_seconds(ps) =~= Seq::<Seq<char>>::empty());
        },
        Some(n) => {
            assert(ps =~= seq![("summary_id = ?"@, spec_uuid_text(n))]);
            lemma_clause_of_one("summary_id = ?"@, spec_uuid_text(n));
            assert(" WHERE "@ + "summary_id = ?"@ =~= " WHERE summary_id = ?"@);
        },
    }
}

/// The meetings filter: by id alone it selects `meeting_id`; by name alone,
/// `name`; by a time range (the day listed, or a sync's range) it selects the
/// meetings scheduled at or after the start and before the end, the two
/// times written as the store writes them.
pub proof fn law_meeting_filter_clause(f: MeetingFilter)
    ensures
        f.id matches Some(n) ==> (f.name.is_none() && f.start.is_none() && f.end.is_none() ==> spec_clause_of(
            f.spec_conditions(),
        ) == (" WHERE meeting_id = ?"@, seq![spec_uuid_text(n)])),
        f.name matches Some(nm) ==> (f.id.is_none() && f.start.is_none() && f.end.is_none() ==> spec_clause_of(
            f.spec_conditions(),
        ) == (" WHERE name = ?"@, seq![nm@])),
        (f.start, f.end) matches (Some(s), Some(e)) ==> (f.id.is_none() && f.name.is_none() && db_time_text(
            s.secs as int,
            s.nanos as int,
        ) is Some && db_time_text(e.secs as int, e.nanos as int) is Some ==> spec_clause_of(f.spec_conditions())
            == (
            " WHERE scheduled_at >= ? AND scheduled_at < ?"@,
            seq![
                db_time_text(s.secs as int, s.nanos as int).unwrap(),
                db_time_text(e.secs as int, e.nanos as int).unwrap(),
            ],
        )),
{
    reveal_strlit(" WHERE ");
    reveal_strlit(" AND ");
    reveal_strlit("meeting_id = ?");
    reveal_strlit("name = ?");
    reveal_strlit("scheduled_at >= ?");
    reveal_strlit("scheduled_at < ?");
    reveal_strlit(" WHERE meeting_id = ?");
    reveal_strlit(" WHERE name = ?");
    reveal_strlit(" WHERE scheduled_at >= ? AND scheduled_at < ?");
    let ps = f.spec_conditions();
    if f.name.is_none() && f.start.is_none() && f.end.is_none() && f.id is Some {
        let n = f.id.unwrap();
        assert(ps =~= seq![("meeting_id = ?"@, spec_uuid_text(n))]);
        lemma_clause_of_one("meeting_id = ?"@, spec_uuid_text(n));
        assert(" WHERE "@ + "meeting_id = ?"@ =~= " WHERE meeting_id = ?"@);
    }
    if f.id.is_none() && f.start.is_none() && f.end.is_none() && f.name is Some {
        let nm = f.name.unwrap();
        assert(ps =~= seq![("name = ?"@, nm@)]);
        lemma_clause_of_one("name = ?"@, nm@);
        assert(" WHERE "@ + "name = ?"@ =~= " WHERE name = ?"@);
    }
    if f.id.is_none() && f.name.is_none() && f.start is Some && f.end is Some {
        let s = f.start.unwrap();
        let e = f.end.unwrap();
        if db_time_text(s.secs as int, s.nanos as int) is Some && db_time_text(e.secs as int, e.nanos as int) is Some {
            let ts = db_time_text(s.secs as int, s.nanos as int).unwrap();
            let te = db_time_text(e.secs as int, e.nanos as int).unwrap();
            assert(ps =~= seq![("scheduled_at >= ?"@, ts), ("scheduled_at < ?"@, te)]);
            lemma_clause_of_two("scheduled_at >= ?"@, ts, "scheduled_at < ?"@, te);
            assert(" WHERE "@ + "scheduled_at >= ?"@ + " AND "@ + "scheduled_at < ?"@
                =~= " WHERE scheduled_at >= ? AND scheduled_at < ?"@);
        }
    }
}

} // verus!
