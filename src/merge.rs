use vstd::prelude::*;
use crate::yaml::{
    YamlNode, YamlValue, node_of, has_key, key_index, unique_keys, well_formed, yaml_eq,
};

verus! {

/// The entries of `incoming` whose keys `current` lacks, in their order.
pub open spec fn added_entries(
    current: Seq<(YamlNode, YamlNode)>,
    incoming: Seq<(YamlNode, YamlNode)>,
) -> Seq<(YamlNode, YamlNode)>
    decreases incoming.len(),
{
    if incoming.len() == 0 {
        Seq::empty()
    } else {
        let rest = added_entries(current, incoming.drop_last());
        if has_key(current, incoming.last().0) {
            rest
        } else {
            rest.push(incoming.last())
        }
    }
}

/// Deep merge of `incoming` into `current`. Where both are mappings, every
/// entry of `current` keeps its place, and where `incoming` has the same key
/// its value is merged into it; the entries of `incoming` with new keys follow
/// in their order. Otherwise `incoming` replaces `current` as a whole.
pub open spec fn merge(current: YamlNode, incoming: YamlNode) -> YamlNode
    decreases incoming,
{
    match incoming {
        YamlNode::Mapping(eb) => match current {
            YamlNode::Mapping(ea) => YamlNode::Mapping(
                Seq::new(
                    ea.len(),
                    |i: int|
                        {
                            let j = key_index(eb, ea[i].0);
                            if 0 <= j < eb.len() {
                                (ea[i].0, merge(ea[i].1, eb[j].1))
                            } else {
                                ea[i]
                            }
                        },
                ) + added_entries(ea, eb),
            ),
            _ => incoming,
        },
        _ => incoming,
    }
}

/// The entries of `current` after the first `t` entries of `incoming` have
/// been merged into them.
pub open spec fn merged_prefix(
    ea: Seq<(YamlNode, YamlNode)>,
    eb: Seq<(YamlNode, YamlNode)>,
    t: int,
) -> Seq<(YamlNode, YamlNode)> {
    Seq::new(
        ea.len(),
        |i: int|
            {
                let j = key_index(eb, ea[i].0);
                if 0 <= j < t {
                    (ea[i].0, merge(ea[i].1, eb[j].1))
                } else {
                    ea[i]
                }
            },
    ) + added_entries(ea, eb.subrange(0, t))
}

pub open spec fn entries_view(v: Seq<(YamlValue, YamlValue)>) -> Seq<(YamlNode, YamlNode)> {
    Seq::new(v.len(), |i: int| (node_of(&v[i].0), node_of(&v[i].1)))
}

proof fn lemma_mapping_view(v: Vec<(YamlValue, YamlValue)>)
    ensures
        node_of(&YamlValue::Mapping(v)) == YamlNode::Mapping(entries_view(v@)),
{
    assert(node_of(&YamlValue::Mapping(v))->Mapping_0 =~= entries_view(v@));
}

/// Every added entry is an entry of `incoming` whose key `current` lacks.
proof fn lemma_added_from(current: Seq<(YamlNode, YamlNode)>, incoming: Seq<(YamlNode, YamlNode)>)
    ensures
        forall|m: int|
            0 <= m < added_entries(current, incoming).len() ==> exists|j: int|
                0 <= j < incoming.len() && #[trigger] added_entries(current, incoming)[m]
                    == incoming[j] && !has_key(current, incoming[j].0),
    decreases incoming.len(),
{
    if incoming.len() > 0 {
        let rest = incoming.drop_last();
        lemma_added_from(current, rest);
        assert forall|m: int|
            0 <= m < added_entries(current, incoming).len() implies exists|j: int|
                0 <= j < incoming.len() && #[trigger] added_entries(current, incoming)[m]
                    == incoming[j] && !has_key(current, incoming[j].0) by {
            if m < added_entries(current, rest).len() {
                let j = choose|j: int|
                    0 <= j < rest.len() && #[trigger] added_entries(current, rest)[m] == rest[j]
                        && !has_key(current, rest[j].0);
                assert(incoming[j] == rest[j]);
            } else {
                assert(added_entries(current, incoming)[m] == incoming[incoming.len() - 1]);
            }
        }
    }
}

/// Where `current` has every key of `incoming`, nothing is added.
proof fn lemma_added_none(current: Seq<(YamlNode, YamlNode)>, incoming: Seq<(YamlNode, YamlNode)>)
    requires
        forall|j: int| 0 <= j < incoming.len() ==> has_key(current, #[trigger] incoming[j].0),
    ensures
        added_entries(current, incoming) == Seq::<(YamlNode, YamlNode)>::empty(),
    decreases incoming.len(),
{
    if incoming.len() > 0 {
        let rest = incoming.drop_last();
        assert forall|j: int| 0 <= j < rest.len() implies has_key(current, #[trigger] rest[j].0) by {
            assert(rest[j] == incoming[j]);
        }
        lemma_added_none(current, rest);
        assert(has_key(current, incoming[incoming.len() - 1].0));
    }
}

proof fn lemma_key_index(entries: Seq<(YamlNode, YamlNode)>, j: int)
    requires
        unique_keys(entries),
        0 <= j < entries.len(),
    ensures
        key_index(entries, entries[j].0) == j,
{
    assert(has_key(entries, entries[j].0));
}

/// Every entry of `incoming` whose key `current` lacks has its key among the added entries.
proof fn lemma_added_keys(current: Seq<(YamlNode, YamlNode)>, incoming: Seq<(YamlNode, YamlNode)>)
    ensures
        forall|j: int|
            0 <= j < incoming.len() && !has_key(current, #[trigger] incoming[j].0) ==> has_key(
                added_entries(current, incoming),
                incoming[j].0,
            ),
    decreases incoming.len(),
{
    if incoming.len() > 0 {
        let rest = incoming.drop_last();
        lemma_added_keys(current, rest);
        let added = added_entries(current, incoming);
        assert forall|j: int|
            0 <= j < incoming.len() && !has_key(current, #[trigger] incoming[j].0) implies has_key(
            added,
            incoming[j].0,
        ) by {
            if j < rest.len() {
                assert(rest[j] == incoming[j]);
                let m = choose|m: int|
                    0 <= m < added_entries(current, rest).len() && #[trigger] added_entries(
                        current,
                        rest,
                    )[m].0 == rest[j].0;
                assert(added[m] == added_entries(current, rest)[m]);
            } else {
                assert(added[added.len() - 1] == incoming[j]);
            }
        }
    }
}

/// Merging a well-formed document into itself gives it back.
pub proof fn lemma_merge_self(x: YamlNode)
    requires
        well_formed(x),
    ensures
        merge(x, x) == x,
    decreases x,
{
    if let YamlNode::Mapping(e) = x {
        assert forall|i: int| 0 <= i < e.len() implies merge(e[i].1, e[i].1) == e[i].1 by {
            lemma_merge_self(e[i].1);
        }
        assert forall|j: int| 0 <= j < e.len() implies has_key(e, #[trigger] e[j].0) by {}
        lemma_added_none(e, e);
        assert forall|i: int| 0 <= i < e.len() implies #[trigger] merge(x, x)->Mapping_0[i]
            == e[i] by {
            lemma_key_index(e, i);
        }
        assert(merge(x, x)->Mapping_0 =~= e);
    }
}

/// Applying the same override twice is the same as applying it once:
/// merge(merge(a, b), b) == merge(a, b) for well-formed documents.
pub proof fn lemma_merge_idempotent(a: YamlNode, b: YamlNode)
    requires
        well_formed(a),
        well_formed(b),
    ensures
        merge(merge(a, b), b) == merge(a, b),
    decreases b,
{
    match b {
        YamlNode::Mapping(eb) => match a {
            YamlNode::Mapping(ea) => {
                let m = merge(a, b);
                let em = m->Mapping_0;
                let added = added_entries(ea, eb);
                lemma_added_from(ea, eb);
                lemma_added_keys(ea, eb);
                assert(em.len() == ea.len() + added.len());
                assert forall|j: int| 0 <= j < eb.len() implies has_key(em, #[trigger] eb[j].0) by {
                    if has_key(ea, eb[j].0) {
                        let i = key_index(ea, eb[j].0);
                        assert(em[i].0 == ea[i].0);
                    } else {
                        let q = choose|q: int|
                            0 <= q < added.len() && #[trigger] added[q].0 == eb[j].0;
                        assert(em[ea.len() + q] == added[q]);
                    }
                }
                lemma_added_none(em, eb);
                let mm = merge(m, b)->Mapping_0;
                assert(mm.len() == em.len());
                assert forall|p: int| 0 <= p < em.len() implies #[trigger] mm[p] == em[p] by {
                    if p < ea.len() {
                        let j = key_index(eb, ea[p].0);
                        assert(em[p].0 == ea[p].0);
                        if 0 <= j < eb.len() {
                            lemma_merge_idempotent(ea[p].1, eb[j].1);
                        }
                    } else {
                        let q = p - ea.len();
                        assert(em[p] == added[q]);
                        let j0 = choose|j: int|
                            0 <= j < eb.len() && #[trigger] added[q] == eb[j] && !has_key(
                                ea,
                                eb[j].0,
                            );
                        lemma_key_index(eb, j0);
                        lemma_merge_self(eb[j0].1);
                    }
                }
                assert(mm =~= em);
            },
            _ => {
                lemma_merge_self(b);
            },
        },
        _ => {},
    }
}

/// Merging the entry `ti` of `eb`, whose key sits at `ii` in `ea`, updates that entry.
proof fn lemma_prefix_update(
    ea: Seq<(YamlNode, YamlNode)>,
    eb: Seq<(YamlNode, YamlNode)>,
    ti: int,
    ii: int,
)
    requires
        unique_keys(ea),
        unique_keys(eb),
        0 <= ti < eb.len(),
        0 <= ii < ea.len(),
        ea[ii].0 == eb[ti].0,
    ensures
        merged_prefix(ea, eb, ti + 1) == merged_prefix(ea, eb, ti).update(
            ii,
            (ea[ii].0, merge(ea[ii].1, eb[ti].1)),
        ),
{
    let before = merged_prefix(ea, eb, ti);
    let after = merged_prefix(ea, eb, ti + 1);
    lemma_key_index(eb, ti);
    assert(has_key(ea, eb[ti].0));
    assert(eb.subrange(0, ti + 1).drop_last() =~= eb.subrange(0, ti));
    assert(eb.subrange(0, ti + 1).last() == eb[ti]);
    assert(added_entries(ea, eb.subrange(0, ti + 1)) == added_entries(ea, eb.subrange(0, ti)));
    assert forall|p: int| 0 <= p < ea.len() && p != ii implies key_index(eb, ea[p].0) != ti by {
        if key_index(eb, ea[p].0) == ti {
            assert(has_key(eb, ea[p].0));
        }
    }
    assert(after =~= before.update(ii, (ea[ii].0, merge(ea[ii].1, eb[ti].1))));
}

/// Merging the entry `ti` of `eb`, whose key `ea` lacks, appends it.
proof fn lemma_prefix_insert(ea: Seq<(YamlNode, YamlNode)>, eb: Seq<(YamlNode, YamlNode)>, ti: int)
    requires
        unique_keys(eb),
        0 <= ti < eb.len(),
        !has_key(ea, eb[ti].0),
    ensures
        merged_prefix(ea, eb, ti + 1) == merged_prefix(ea, eb, ti).push(eb[ti]),
{
    let before = merged_prefix(ea, eb, ti);
    let after = merged_prefix(ea, eb, ti + 1);
    lemma_key_index(eb, ti);
    assert(eb.subrange(0, ti + 1).drop_last() =~= eb.subrange(0, ti));
    assert(eb.subrange(0, ti + 1).last() == eb[ti]);
    assert forall|p: int| 0 <= p < ea.len() implies key_index(eb, ea[p].0) != ti by {
        if key_index(eb, ea[p].0) == ti {
            assert(has_key(eb, ea[p].0));
        }
    }
    assert(after =~= before.push(eb[ti]));
}

fn find_key(entries: &Vec<(YamlValue, YamlValue)>, k: &YamlValue) -> (r: Option<usize>)
    ensures
        match r {
            Some(i) => i < entries.len() && node_of(&entries@[i as int].0) == k@,
            None => forall|j: int|
                0 <= j < entries.len() ==> node_of(&#[trigger] entries@[j].0) != k@,
        },
{
    let mut i: usize = 0;
    while i < entries.len()
        invariant
            0 <= i <= entries.len(),
            forall|j: int| 0 <= j < i ==> node_of(&#[trigger] entries@[j].0) != k@,
        decreases entries.len() - i,
    {
        if yaml_eq(&entries[i].0, k) {
            return Some(i);
        }
        i += 1;
    }
    None
}

/// Merges `incoming` into `current` and returns the result.
pub fn merged(current: YamlValue, incoming: YamlValue) -> (r: YamlValue)
    requires
        well_formed(current@),
        well_formed(incoming@),
    ensures
        r@ == merge(current@, incoming@),
    decreases incoming,
{
    let ghost b0 = incoming;
    match incoming {
        YamlValue::Mapping(eb_vec) => {
            match current {
                YamlValue::Mapping(ea_vec) => {
                    let ghost ea = entries_view(ea_vec@);
                    let ghost eb = entries_view(eb_vec@);
                    let ghost eb0 = eb_vec;
                    proof {
                        lemma_mapping_view(ea_vec);
                        lemma_mapping_view(eb_vec);
                    }
                    let mut cur = ea_vec;
                    let mut rest = eb_vec;
                    let ghost n = eb.len();
                    let mut t: usize = 0;
                    proof {
                        assert(entries_view(cur@) =~= merged_prefix(ea, eb, 0));
                    }
                    while rest.len() > 0
                        invariant
                            b0 == YamlValue::Mapping(eb0),
                            b0 == incoming,
                            eb == entries_view(eb0@),
                            n == eb.len(),
                            n == eb0.len(),
                            unique_keys(ea),
                            unique_keys(eb),
                            forall|i: int| 0 <= i < ea.len() ==> well_formed(#[trigger] ea[i].1),
                            forall|i: int| 0 <= i < eb.len() ==> well_formed(#[trigger] eb[i].1),
                            t + rest.len() == n,
                            forall|k: int| 0 <= k < rest.len() ==> rest@[k] == eb0@[t + k],
                            entries_view(cur@) == merged_prefix(ea, eb, t as int),
                        decreases rest.len(),
                    {
                        let (k, v) = rest.remove(0);
                        let ghost ti = t as int;
                        assert(v == eb0@[ti].1);
                        assert(node_of(&k) == eb[ti].0);
                        assert(node_of(&v) == eb[ti].1);
                        proof {
                            lemma_added_from(ea, eb.subrange(0, ti));
                        }
                        let ghost before = entries_view(cur@);
                        match find_key(&cur, &k) {
                            Some(i) => {
                                let ghost ii = i as int;
                                proof {
                                    if ii >= ea.len() {
                                        let m = ii - ea.len();
                                        let pre = eb.subrange(0, ti);
                                        assert(before.len() == cur@.len());
                                        assert(before[ii].0 == eb[ti].0);
                                        assert(before[ii] == added_entries(ea, pre)[m]);
                                        let j = choose|j: int|
                                            0 <= j < pre.len()
                                                && #[trigger] added_entries(ea, pre)[m] == pre[j]
                                                && !has_key(ea, pre[j].0);
                                        assert(pre[j] == eb[j]);
                                        assert(eb[j].0 == eb[ti].0);
                                        assert(false);
                                    }
                                }
                                assert(before[ii].0 == node_of(&cur@[ii].0));
                                assert(before[ii].0 == ea[ii].0);
                                let ghost cur_before = cur@;
                                let mut slot = (YamlValue::Null, YamlValue::Null);
                                cur.set_and_swap(i, &mut slot);
                                let (key, old_value) = slot;
                                proof {
                                    assert(decreases_to!(b0 => b0->Mapping_0));
                                    assert(decreases_to!(eb0 => eb0@[ti]));
                                    assert(decreases_to!(b0 => v));
                                }
                                let new_value = merged(old_value, v);
                                cur.set(i, (key, new_value));
                                proof {
                                    lemma_prefix_update(ea, eb, ti, ii);
                                    assert(entries_view(cur@) =~= before.update(
                                        ii,
                                        (ea[ii].0, merge(ea[ii].1, eb[ti].1)),
                                    ));
                                }
                            },
                            None => {
                                proof {
                                    assert(before.len() == cur@.len());
                                    assert(before.len() >= ea.len());
                                    assert forall|p: int| 0 <= p < ea.len() implies ea[p].0
                                        != eb[ti].0 by {
                                        assert(before[p].0 == ea[p].0);
                                        assert(node_of(&cur@[p].0) == before[p].0);
                                    }
                                    assert(!has_key(ea, eb[ti].0));
                                }
                                cur.push((k, v));
                                proof {
                                    lemma_prefix_insert(ea, eb, ti);
                                    assert(entries_view(cur@) =~= before.push(eb[ti]));
                                }
                            },
                        }
                        t = t + 1;
                    }
                    proof {
                        assert(eb.subrange(0, n as int) =~= eb);
                        lemma_mapping_view(cur);
                        assert(merged_prefix(ea, eb, n as int) =~= merge(
                            current@,
                            incoming@,
                        )->Mapping_0);
                    }
                    YamlValue::Mapping(cur)
                },
                _ => YamlValue::Mapping(eb_vec),
            }
        },
        other => other,
    }
}

/// Deep merge of `incoming` into the document `current`, in place.
pub fn merge_yaml(current: &mut YamlValue, incoming: YamlValue)
    requires
        well_formed(old(current)@),
        well_formed(incoming@),
    ensures
        final(current)@ == merge(old(current)@, incoming@),
{
    let mut before = YamlValue::Null;
    std::mem::swap(current, &mut before);
    *current = merged(before, incoming);
}

} // verus!
