use vstd::prelude::*;

verus! {

/// The mathematical model of a YAML document: a tree of scalar, sequence
/// and mapping nodes. A mapping is an ordered list of entries.
pub enum YamlNode {
    Null,
    Bool(bool),
    Number(Seq<char>),
    Str(Seq<char>),
    Sequence(Seq<YamlNode>),
    Mapping(Seq<(YamlNode, YamlNode)>),
    Tagged(Seq<char>, Box<YamlNode>),
}

/// A YAML document as the library holds it. Numbers keep their canonical
/// text, so that no floating-point value is needed to carry them.
#[derive(Debug, PartialEq)]
pub enum YamlValue {
    Null,
    Bool(bool),
    Number(String),
    Str(String),
    Sequence(Vec<YamlValue>),
    Mapping(Vec<(YamlValue, YamlValue)>),
    Tagged(String, Box<YamlValue>),
}

pub open spec fn node_of(v: &YamlValue) -> YamlNode
    decreases v,
{
    match v {
        YamlValue::Null => YamlNode::Null,
        YamlValue::Bool(b) => YamlNode::Bool(*b),
        YamlValue::Number(n) => YamlNode::Number(n@),
        YamlValue::Str(s) => YamlNode::Str(s@),
        YamlValue::Sequence(items) => YamlNode::Sequence(
            Seq::new(
                items.len() as nat,
                |i: int|
                    if 0 <= i < items.len() {
                        node_of(&items[i])
                    } else {
                        YamlNode::Null
                    },
            ),
        ),
        YamlValue::Mapping(entries) => YamlNode::Mapping(
            Seq::new(
                entries.len() as nat,
                |i: int|
                    if 0 <= i < entries.len() {
                        (node_of(&entries[i].0), node_of(&entries[i].1))
                    } else {
                        (YamlNode::Null, YamlNode::Null)
                    },
            ),
        ),
        YamlValue::Tagged(tag, inner) => YamlNode::Tagged(tag@, Box::new(node_of(inner))),
    }
}

impl View for YamlValue {
    type V = YamlNode;

    open spec fn view(&self) -> YamlNode {
        node_of(self)
    }
}


/// Whether some entry of a mapping has the key `k`.
pub open spec fn has_key(entries: Seq<(YamlNode, YamlNode)>, k: YamlNode) -> bool {
    exists|i: int| 0 <= i < entries.len() && #[trigger] entries[i].0 == k
}

/// The position of the entry with key `k`, or -1 where there is none.
pub open spec fn key_index(entries: Seq<(YamlNode, YamlNode)>, k: YamlNode) -> int {
    if has_key(entries, k) {
        choose|i: int| 0 <= i < entries.len() && #[trigger] entries[i].0 == k
    } else {
        -1
    }
}

pub open spec fn unique_keys(entries: Seq<(YamlNode, YamlNode)>) -> bool {
    forall|i: int, j: int|
        0 <= i < entries.len() && 0 <= j < entries.len() && i != j ==> #[trigger] entries[i].0
            != #[trigger] entries[j].0
}

/// A document is well formed when the keys of every mapping in it are unique.
pub open spec fn well_formed(n: YamlNode) -> bool
    decreases n,
{
    match n {
        YamlNode::Sequence(items) => forall|i: int|
            0 <= i < items.len() ==> well_formed(#[trigger] items[i]),
        YamlNode::Mapping(entries) => unique_keys(entries) && forall|i: int|
            0 <= i < entries.len() ==> well_formed(#[trigger] entries[i].1),
        YamlNode::Tagged(_, inner) => well_formed(*inner),
        _ => true,
    }
}

/// Structural equality of two documents.
pub fn yaml_eq(x: &YamlValue, y: &YamlValue) -> (r: bool)
    ensures
        r == (x@ == y@),
    decreases x,
{
    match (x, y) {
        (YamlValue::Null, YamlValue::Null) => true,
        (YamlValue::Bool(a), YamlValue::Bool(b)) => *a == *b,
        (YamlValue::Number(a), YamlValue::Number(b)) => a.eq(b),
        (YamlValue::Str(a), YamlValue::Str(b)) => a.eq(b),
        (YamlValue::Sequence(xs), YamlValue::Sequence(ys)) => {
            if xs.len() != ys.len() {
                assert(x@->Sequence_0.len() != y@->Sequence_0.len());
                return false;
            }
            let mut i: usize = 0;
            while i < xs.len()
                invariant
                    0 <= i <= xs.len(),
                    xs.len() == ys.len(),
                    *x == YamlValue::Sequence(*xs),
                    *y == YamlValue::Sequence(*ys),
                    forall|j: int| 0 <= j < i ==> node_of(&xs[j]) == node_of(&ys[j]),
                decreases xs.len() - i,
            {
                if !yaml_eq(&xs[i], &ys[i]) {
                    assert(x@->Sequence_0[i as int] != y@->Sequence_0[i as int]);
                    return false;
                }
                i += 1;
            }
            assert(x@->Sequence_0 =~= y@->Sequence_0);
            true
        },
        (YamlValue::Mapping(xs), YamlValue::Mapping(ys)) => {
            if xs.len() != ys.len() {
                assert(x@->Mapping_0.len() != y@->Mapping_0.len());
                return false;
            }
            let mut i: usize = 0;
            while i < xs.len()
                invariant
                    0 <= i <= xs.len(),
                    xs.len() == ys.len(),
                    *x == YamlValue::Mapping(*xs),
                    *y == YamlValue::Mapping(*ys),
                    forall|j: int|
                        0 <= j < i ==> node_of(&xs[j].0) == node_of(&ys[j].0) && node_of(&xs[j].1)
                            == node_of(&ys[j].1),
                decreases xs.len() - i,
            {
                if !yaml_eq(&xs[i].0, &ys[i].0) || !yaml_eq(&xs[i].1, &ys[i].1) {
                    assert(x@->Mapping_0[i as int] != y@->Mapping_0[i as int]);
                    return false;
                }
                i += 1;
            }
            assert(x@->Mapping_0 =~= y@->Mapping_0);
            true
        },
        (YamlValue::Tagged(t1, a), YamlValue::Tagged(t2, b)) => {
            let same_tag = t1.eq(t2);
            if !same_tag {
                return false;
            }
            yaml_eq(a, b)
        },
        _ => false,
    }
}

/// Checks that the keys of every mapping in the document are unique.
pub fn is_well_formed(v: &YamlValue) -> (r: bool)
    ensures
        r == well_formed(v@),
    decreases v,
{
    match v {
        YamlValue::Sequence(items) => {
            let mut i: usize = 0;
            while i < items.len()
                invariant
                    0 <= i <= items.len(),
                    *v == YamlValue::Sequence(*items),
                    forall|j: int| 0 <= j < i ==> well_formed(node_of(&items[j])),
                decreases items.len() - i,
            {
                if !is_well_formed(&items[i]) {
                    assert(!well_formed(v@->Sequence_0[i as int]));
                    return false;
                }
                i += 1;
            }
            assert(forall|j: int|
                0 <= j < v@->Sequence_0.len() ==> well_formed(#[trigger] v@->Sequence_0[j]));
            true
        },
        YamlValue::Mapping(entries) => {
            let ghost es = v@->Mapping_0;
            let mut i: usize = 0;
            while i < entries.len()
                invariant
                    0 <= i <= entries.len(),
                    es.len() == entries.len(),
                    es == v@->Mapping_0,
                    v@ == node_of(v),
                    *v == YamlValue::Mapping(*entries),
                    forall|a: int, b: int|
                        0 <= a < i && 0 <= b < es.len() && a != b ==> es[a].0 != es[b].0,
                    forall|j: int| 0 <= j < i ==> well_formed(#[trigger] es[j].1),
                decreases entries.len() - i,
            {
                if !is_well_formed(&entries[i].1) {
                    assert(!well_formed(es[i as int].1));
                    return false;
                }
                let mut j: usize = 0;
                while j < entries.len()
                    invariant
                        0 <= i < entries.len(),
                        0 <= j <= entries.len(),
                        es.len() == entries.len(),
                        es == v@->Mapping_0,
                        v@ == node_of(v),
                        *v == YamlValue::Mapping(*entries),
                        forall|b: int| 0 <= b < j && i != b ==> es[i as int].0 != es[b].0,
                    decreases entries.len() - j,
                {
                    if j != i && yaml_eq(&entries[i].0, &entries[j].0) {
                        assert(es[i as int].0 == es[j as int].0);
                        return false;
                    }
                    j += 1;
                }
                i += 1;
            }
            true
        },
        YamlValue::Tagged(_, inner) => is_well_formed(inner),
        _ => true,
    }
}

} // verus!
