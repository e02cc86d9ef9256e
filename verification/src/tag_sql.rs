//! The statements that store the tags of an entity in one go: one row per new
//! tag, and one link per tag to the entity.
use vstd::prelude::*;
use crate::filters::spec_views;
use crate::ids::{spec_uuid_text, uuid_string};

verus! {

/// `n` copies of the row pattern `p`, joined by `, `.
pub open spec fn spec_placeholders(n: nat, p: Seq<char>) -> Seq<char>
    decreases n,
{
    if n == 0 {
        Seq::empty()
    } else if n == 1 {
        p
    } else {
        spec_placeholders((n - 1) as nat, p) + ", "@ + p
    }
}

/// The rows of new tags, with each tag's label kept once.
pub open spec fn spec_tag_batch_sql(n: nat) -> Seq<char> {
    "INSERT INTO tag (tag_id, label, created_at, updated_at) VALUES "@ + spec_placeholders(n, "(?, ?, ?, ?)"@)
        + "\n           ON CONFLICT(label) DO UPDATE SET updated_at = excluded.updated_at\n           RETURNING tag_id"@
}

/// The parameters of the tag rows: id, label, and `now` twice, per tag.
pub open spec fn spec_tag_batch_params(entries: Seq<(u128, Seq<char>)>, now: Seq<char>) -> Seq<Seq<char>>
    decreases entries.len(),
{
    if entries.len() == 0 {
        Seq::empty()
    } else {
        let e = entries.last();
        spec_tag_batch_params(entries.drop_last(), now) + seq![spec_uuid_text(e.0), e.1, now, now]
    }
}

/// The links of the tags to an entity; a link that exists is kept.
pub open spec fn spec_entity_tag_batch_sql(n: nat) -> Seq<char> {
    "INSERT OR IGNORE INTO entity_tag (entity_tag_id, tag_id, entity_id, created_at, updated_at) VALUES "@
        + spec_placeholders(n, "(?, ?, ?, ?, ?)"@)
}

/// The parameters of the links: link id, tag id, entity id, and `now` twice, per tag.
pub open spec fn spec_entity_tag_batch_params(links: Seq<(u128, u128)>, entity_id: u128, now: Seq<char>) -> Seq<
    Seq<char>,
>
    decreases links.len(),
{
    if links.len() == 0 {
        Seq::empty()
    } else {
        let l = links.last();
        spec_entity_tag_batch_params(links.drop_last(), entity_id, now) + seq![
            spec_uuid_text(l.0),
            spec_uuid_text(l.1),
            spec_uuid_text(entity_id),
            now,
            now,
        ]
    }
}

fn placeholders(n: usize, p: &str) -> (s: String)
    ensures
        s@ == spec_placeholders(n as nat, p@),
{
    let mut s = String::new();
    let mut i: usize = 0;
    while i < n
        invariant
            i <= n,
            s@ == spec_placeholders(i as nat, p@),
        decreases n - i,
    {
        if i > 0 {
            s.append(", ");
        }
        s.append(p);
        i = i + 1;
        proof {
            reveal_strlit(", ");
        }
        assert(s@ =~= spec_placeholders(i as nat, p@));
    }
    s
}

pub open spec fn spec_entry_views(entries: Seq<(u128, String)>) -> Seq<(u128, Seq<char>)> {
    entries.map_values(|e: (u128, String)| (e.0, e.1@))
}

/// The statement and parameters that store `entries` (new tag ids with their
/// labels) at the time `now`; nothing when there are no entries.
pub fn tag_batch_statement(entries: &Vec<(u128, String)>, now: &str) -> (r: Option<(String, Vec<String>)>)
    ensures
        entries.len() == 0 <==> r is None,
        r matches Some((sql, params)) ==> sql@ == spec_tag_batch_sql(entries.len() as nat) && spec_views(params@)
            == spec_tag_batch_params(spec_entry_views(entries@), now@),
        r matches Some((_, params)) ==> params.len() == 4 * entries.len() && forall|i: int|
            #![trigger entries@[i]]
            0 <= i < entries.len() ==> {
                &&& params@[4 * i]@ == spec_uuid_text(entries@[i].0)
                &&& params@[4 * i + 1]@ == entries@[i].1@
                &&& params@[4 * i + 2]@ == now@
                &&& params@[4 * i + 3]@ == now@
            },
{
    if entries.len() == 0 {
        return None;
    }
    let mut sql = String::from_str("INSERT INTO tag (tag_id, label, created_at, updated_at) VALUES ");
    let rows = placeholders(entries.len(), "(?, ?, ?, ?)");
    sql.append(rows.as_str());
    sql.append("\n           ON CONFLICT(label) DO UPDATE SET updated_at = excluded.updated_at\n           RETURNING tag_id");
    let mut params: Vec<String> = Vec::new();
    let mut i: usize = 0;
    while i < entries.len()
        invariant
            i <= entries.len(),
            spec_views(params@) == spec_tag_batch_params(spec_entry_views(entries@.subrange(0, i as int)), now@),
        decreases entries.len() - i,
    {
        let ghost prev = spec_views(params@);
        params.push(uuid_string(entries[i].0));
        params.push(entries[i].1.clone());
        params.push(String::from_str(now));
        params.push(String::from_str(now));
        let ghost sub = spec_entry_views(entries@.subrange(0, i + 1));
        assert(sub.drop_last() =~= spec_entry_views(entries@.subrange(0, i as int)));
        assert(sub.last() == (entries@[i as int].0, entries@[i as int].1@));
        assert(spec_views(params@) =~= prev + seq![
            spec_uuid_text(entries@[i as int].0),
            entries@[i as int].1@,
            now@,
            now@,
        ]);
        i = i + 1;
    }
    assert(entries@.subrange(0, entries.len() as int) =~= entries@);
    proof {
        let es = spec_entry_views(entries@);
        law_tag_params_per_tag(es, now@);
        assert(es.len() == entries.len());
        assert(spec_views(params@).len() == params.len());
        assert forall|i: int| #![trigger entries@[i]] 0 <= i < entries.len() implies {
            &&& params@[4 * i]@ == spec_uuid_text(entries@[i].0)
            &&& params@[4 * i + 1]@ == entries@[i].1@
            &&& params@[4 * i + 2]@ == now@
            &&& params@[4 * i + 3]@ == now@
        } by {
            assert(es[i] == (entries@[i].0, entries@[i].1@));
            assert(spec_views(params@)[4 * i] == params@[4 * i]@);
            assert(spec_views(params@)[4 * i + 1] == params@[4 * i + 1]@);
            assert(spec_views(params@)[4 * i + 2] == params@[4 * i + 2]@);
            assert(spec_views(params@)[4 * i + 3] == params@[4 * i + 3]@);
        }
    }
    Some((sql, params))
}

pub open spec fn spec_link_pairs(link_ids: Seq<u128>, tag_ids: Seq<u128>) -> Seq<(u128, u128)> {
    Seq::new(tag_ids.len(), |i: int| (link_ids[i], tag_ids[i]))
}

/// The statement and parameters that link `tag_ids` to `entity_id` at the time
/// `now`, the link of `tag_ids[i]` getting the id `link_ids[i]`; nothing when
/// there are no tags.
pub fn entity_tag_batch_statement(link_ids: &Vec<u128>, tag_ids: &Vec<u128>, entity_id: u128, now: &str) -> (r: Option<
    (String, Vec<String>),
>)
    requires
        link_ids.len() == tag_ids.len(),
    ensures
        tag_ids.len() == 0 <==> r is None,
        r matches Some((sql, params)) ==> sql@ == spec_entity_tag_batch_sql(tag_ids.len() as nat) && spec_views(
            params@,
        ) == spec_entity_tag_batch_params(spec_link_pairs(link_ids@, tag_ids@), entity_id, now@),
        r matches Some((_, params)) ==> params.len() == 5 * tag_ids.len() && forall|i: int|
            0 <= i < tag_ids.len() ==> spec_link_params_hold(params@, link_ids@, tag_ids@, entity_id, now@, i),
{
    if tag_ids.len() == 0 {
        return None;
    }
    let mut sql = String::from_str(
        "INSERT OR IGNORE INTO entity_tag (entity_tag_id, tag_id, entity_id, created_at, updated_at) VALUES ",
    );
    let rows = placeholders(tag_ids.len(), "(?, ?, ?, ?, ?)");
    sql.append(rows.as_str());
    let mut params: Vec<String> = Vec::new();
    let mut i: usize = 0;
    while i < tag_ids.len()
        invariant
            i <= tag_ids.len(),
            link_ids.len() == tag_ids.len(),
            spec_views(params@) == spec_entity_tag_batch_params(
                spec_link_pairs(link_ids@.subrange(0, i as int), tag_ids@.subrange(0, i as int)),
                entity_id,
                now@,
            ),
        decreases tag_ids.len() - i,
    {
        let ghost prev = spec_views(params@);
        params.push(uuid_string(link_ids[i]));
        params.push(uuid_string(tag_ids[i]));
        params.push(uuid_string(entity_id));
        params.push(String::from_str(now));
        params.push(String::from_str(now));
        let ghost sub = spec_link_pairs(link_ids@.subrange(0, i + 1), tag_ids@.subrange(0, i + 1));
        assert(sub.drop_last() =~= spec_link_pairs(link_ids@.subrange(0, i as int), tag_ids@.subrange(0, i as int)));
        assert(sub.last() == (link_ids@[i as int], tag_ids@[i as int]));
        assert(spec_views(params@) =~= prev + seq![
            spec_uuid_text(link_ids@[i as int]),
            spec_uuid_text(tag_ids@[i as int]),
            spec_uuid_text(entity_id),
            now@,
            now@,
        ]);
        i = i + 1;
    }
    assert(link_ids@.subrange(0, tag_ids.len() as int) =~= link_ids@);
    assert(tag_ids@.subrange(0, tag_ids.len() as int) =~= tag_ids@);
    proof {
        lemma_link_params_at(params@, link_ids@, tag_ids@, entity_id, now@);
    }
    Some((sql, params))
}

proof fn lemma_link_param_at(
    params: Seq<String>,
    link_ids: Seq<u128>,
    tag_ids: Seq<u128>,
    entity_id: u128,
    now: Seq<char>,
    i: int,
)
    requires
        link_ids.len() == tag_ids.len(),
        spec_views(params) == spec_entity_tag_batch_params(spec_link_pairs(link_ids, tag_ids), entity_id, now),
        0 <= i < tag_ids.len(),
    ensures
        params[5 * i]@ == spec_uuid_text(link_ids[i]),
        params[5 * i + 1]@ == spec_uuid_text(tag_ids[i]),
        params[5 * i + 2]@ == spec_uuid_text(entity_id),
        params[5 * i + 3]@ == now,
        params[5 * i + 4]@ == now,
{
    let links = spec_link_pairs(link_ids, tag_ids);
    law_link_params_per_tag(links, entity_id, now);
    assert(links[i] == (link_ids[i], tag_ids[i]));
    let ps = spec_entity_tag_batch_params(links, entity_id, now);
    assert(ps[5 * i] == spec_uuid_text(links[i].0));
    assert(spec_views(params)[5 * i] == params[5 * i]@);
    assert(spec_views(params)[5 * i + 1] == params[5 * i + 1]@);
    assert(spec_views(params)[5 * i + 2] == params[5 * i + 2]@);
    assert(spec_views(params)[5 * i + 3] == params[5 * i + 3]@);
    assert(spec_views(params)[5 * i + 4] == params[5 * i + 4]@);
}

proof fn lemma_link_params_at(
    params: Seq<String>,
    link_ids: Seq<u128>,
    tag_ids: Seq<u128>,
    entity_id: u128,
    now: Seq<char>,
)
    requires
        link_ids.len() == tag_ids.len(),
        spec_views(params) == spec_entity_tag_batch_params(spec_link_pairs(link_ids, tag_ids), entity_id, now),
    ensures
        params.len() == 5 * tag_ids.len(),
        forall|i: int| 0 <= i < tag_ids.len() ==> spec_link_params_hold(params, link_ids, tag_ids, entity_id, now, i),
{
    law_link_params_per_tag(spec_link_pairs(link_ids, tag_ids), entity_id, now);
    assert(spec_views(params).len() == params.len());
    assert forall|i: int| 0 <= i < tag_ids.len() implies spec_link_params_hold(params, link_ids, tag_ids, entity_id, now, i) by {
        lemma_link_param_at(params, link_ids, tag_ids, entity_id, now, i);
    }
}

/// The parameters of link `i` are its id, the tag's id, the entity's id and
/// `now` twice.
pub open spec fn spec_link_params_hold(
    params: Seq<String>,
    link_ids: Seq<u128>,
    tag_ids: Seq<u128>,
    entity_id: u128,
    now: Seq<char>,
    i: int,
) -> bool {
    &&& params[5 * i]@ == spec_uuid_text(link_ids[i])
    &&& params[5 * i + 1]@ == spec_uuid_text(tag_ids[i])
    &&& params[5 * i + 2]@ == spec_uuid_text(entity_id)
    &&& params[5 * i + 3]@ == now
    &&& params[5 * i + 4]@ == now
}

/// Each new tag fills four parameters in turn: its id's text, its label, and
/// `now` twice; tag `i` holds the parameters `4 * i` to `4 * i + 3`.
pub proof fn law_tag_params_per_tag(entries: Seq<(u128, Seq<char>)>, now: Seq<char>)
    ensures
        spec_tag_batch_params(entries, now).len() == 4 * entries.len(),
        forall|i: int|
            #![trigger entries[i]]
            0 <= i < entries.len() ==> {
                let ps = spec_tag_batch_params(entries, now);
                &&& ps[4 * i] == spec_uuid_text(entries[i].0)
                &&& ps[4 * i + 1] == entries[i].1
                &&& ps[4 * i + 2] == now
                &&& ps[4 * i + 3] == now
            },
    decreases entries.len(),
{
    if entries.len() > 0 {
        let prev = entries.drop_last();
        law_tag_params_per_tag(prev, now);
        assert forall|i: int| #![trigger entries[i]] 0 <= i < entries.len() implies {
            let ps = spec_tag_batch_params(entries, now);
            &&& ps[4 * i] == spec_uuid_text(entries[i].0)
            &&& ps[4 * i + 1] == entries[i].1
            &&& ps[4 * i + 2] == now
            &&& ps[4 * i + 3] == now
        } by {
            if i < prev.len() {
                assert(prev[i] == entries[i]);
            }
        }
    }
}

/// Each link fills five parameters in turn: the link's id, the tag's id and the
/// entity's id as texts, and `now` twice; link `i` holds the parameters `5 * i`
/// to `5 * i + 4`, so every tag is linked, to this entity, once.
pub proof fn law_link_params_per_tag(links: Seq<(u128, u128)>, entity_id: u128, now: Seq<char>)
    ensures
        spec_entity_tag_batch_params(links, entity_id, now).len() == 5 * links.len(),
        forall|i: int|
            #![trigger links[i]]
            0 <= i < links.len() ==> {
                let ps = spec_entity_tag_batch_params(links, entity_id, now);
                &&& ps[5 * i] == spec_uuid_text(links[i].0)
                &&& ps[5 * i + 1] == spec_uuid_text(links[i].1)
                &&& ps[5 * i + 2] == spec_uuid_text(entity_id)
                &&& ps[5 * i + 3] == now
                &&& ps[5 * i + 4] == now
            },
    decreases links.len(),
{
    if links.len() > 0 {
        let prev = links.drop_last();
        law_link_params_per_tag(prev, entity_id, now);
        assert forall|i: int| #![trigger links[i]] 0 <= i < links.len() implies {
            let ps = spec_entity_tag_batch_params(links, entity_id, now);
            &&& ps[5 * i] == spec_uuid_text(links[i].0)
            &&& ps[5 * i + 1] == spec_uuid_text(links[i].1)
            &&& ps[5 * i + 2] == spec_uuid_text(entity_id)
            &&& ps[5 * i + 3] == now
            &&& ps[5 * i + 4] == now
        } by {
            if i < prev.len() {
                assert(prev[i] == links[i]);
            }
        }
    }
}

} // verus!
