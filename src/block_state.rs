use vstd::prelude::*;
use crate::text::{find_char, find_from};

verus! {

/// How a block is drawn: either a table of variants chosen by the block's
/// properties, or the multi-part form, which contributes no geometry.
#[derive(Debug)]
pub enum BlockRenderState {
    Variants(Variants),
    MultiPart,
}

/// The variants of a block: a plain list, or a list of
/// (state predicate, variant) entries kept in their declared order.
#[derive(Debug)]
pub enum Variants {
    Array(Vec<Variant>),
    Keyed(Vec<(String, Variant)>),
}

/// One variant, or several equally valid candidates for it.
#[derive(Debug)]
pub enum Variant {
    Single(VariantDesc),
    Array(Vec<VariantDesc>),
}

/// A concrete choice: a model name and its rotation in degrees.
#[derive(Debug)]
pub struct VariantDesc {
    pub model: String,
    pub y: i32,
    pub x: i32,
    pub uvlock: bool,
}

/// The value of the first property named `key`, searching from index `i`.
pub open spec fn lookup_prop(props: Seq<(String, String)>, key: Seq<char>, i: int) -> Option<Seq<char>>
    decreases props.len() - i,
{
    if i < 0 || i >= props.len() {
        None
    } else if props[i].0@ == key {
        Some(props[i].1@)
    } else {
        lookup_prop(props, key, i + 1)
    }
}

/// A `key=value` clause holds when the property `key` has that value; a
/// clause without `=` is malformed and is skipped.
pub open spec fn clause_holds(c: Seq<char>, props: Seq<(String, String)>) -> bool {
    let e = find_from(c, '=', 0);
    if e >= c.len() {
        true
    } else {
        match lookup_prop(props, c.subrange(0, e), 0) {
            Some(v) => v == c.subrange(e + 1, c.len() as int),
            None => false,
        }
    }
}

/// Scans `p` from `i` with the current clause starting at `start`: every
/// comma-separated clause must hold.
pub open spec fn clauses_hold(p: Seq<char>, props: Seq<(String, String)>, start: int, i: int) -> bool
    decreases p.len() - i,
{
    if i >= p.len() {
        clause_holds(p.subrange(start, p.len() as int), props)
    } else if p[i] == ',' {
        clause_holds(p.subrange(start, i), props) && clauses_hold(p, props, i + 1, i + 1)
    } else {
        clauses_hold(p, props, start, i + 1)
    }
}

/// Whether a state predicate such as `facing=north,lit=true` holds of a
/// block's property list. The empty predicate always holds.
pub open spec fn predicate_holds(p: Seq<char>, props: Seq<(String, String)>) -> bool {
    clauses_hold(p, props, 0, 0)
}

/// The value of property `key`, if the block has it.
pub fn lookup_property<'a>(props: &'a Vec<(String, String)>, key: &String) -> (r: Option<&'a String>)
    ensures
        match r {
            Some(v) => lookup_prop(props@, key@, 0) == Some(v@),
            None => lookup_prop(props@, key@, 0) is None,
        },
{
    let mut i: usize = 0;
    while i < props.len()
        invariant
            i <= props@.len(),
            lookup_prop(props@, key@, 0) == lookup_prop(props@, key@, i as int),
        decreases props@.len() - i,
    {
        if props[i].0 == *key {
            return Some(&props[i].1);
        }
        i = i + 1;
    }
    None
}

pub fn clause_matches(c: &str, props: &Vec<(String, String)>) -> (r: bool)
    ensures
        r == clause_holds(c@, props@),
{
    let n = c.unicode_len();
    let e = find_char(c, '=', 0);
    if e >= n {
        return true;
    }
    let key = c.substring_char(0, e).to_owned();
    let value = c.substring_char(e + 1, n).to_owned();
    match lookup_property(props, &key) {
        Some(v) => *v == value,
        None => false,
    }
}

/// Whether the state predicate `pred` holds of the property list `props`.
pub fn predicate_matches(pred: &str, props: &Vec<(String, String)>) -> (r: bool)
    ensures
        r == predicate_holds(pred@, props@),
{
    let n = pred.unicode_len();
    let mut start: usize = 0;
    let mut i: usize = 0;
    while i < n
        invariant
            n == pred@.len(),
            start <= i <= n,
            predicate_holds(pred@, props@) == clauses_hold(pred@, props@, start as int, i as int),
        decreases n - i,
    {
        if pred.get_char(i) == ',' {
            let clause = pred.substring_char(start, i);
            if !clause_matches(clause, props) {
                return false;
            }
            start = i + 1;
        }
        i = i + 1;
    }
    let last = pred.substring_char(start, n);
    clause_matches(last, props)
}

/// The candidate a variant stands for: itself, or the first of its list.
pub open spec fn first_desc(v: Variant) -> Option<VariantDesc> {
    match v {
        Variant::Single(d) => Some(d),
        Variant::Array(ds) => if ds@.len() > 0 {
            Some(ds@[0])
        } else {
            None
        },
    }
}

/// Index of the first entry at or after `i` whose predicate holds.
pub open spec fn first_match(entries: Seq<(String, Variant)>, props: Seq<(String, String)>, i: int) -> Option<int>
    decreases entries.len() - i,
{
    if i < 0 || i >= entries.len() {
        None
    } else if predicate_holds(entries[i].0@, props) {
        Some(i)
    } else {
        first_match(entries, props, i + 1)
    }
}

/// The variant drawn for a block with properties `props`: the first entry
/// whose predicate holds, else the first entry; none for the multi-part form
/// or an empty table.
pub open spec fn spec_select_variant(state: BlockRenderState, props: Seq<(String, String)>) -> Option<VariantDesc> {
    match state {
        BlockRenderState::MultiPart => None,
        BlockRenderState::Variants(Variants::Array(vs)) => if vs@.len() > 0 {
            first_desc(vs@[0])
        } else {
            None
        },
        BlockRenderState::Variants(Variants::Keyed(es)) => match first_match(es@, props, 0) {
            Some(i) => first_desc(es@[i].1),
            None => if es@.len() > 0 {
                first_desc(es@[0].1)
            } else {
                None
            },
        },
    }
}

pub fn variant_first_desc(v: &Variant) -> (r: Option<&VariantDesc>)
    ensures
        match r {
            Some(d) => first_desc(*v) == Some(*d),
            None => first_desc(*v) is None,
        },
{
    match v {
        Variant::Single(d) => Some(d),
        Variant::Array(ds) => if ds.len() > 0 {
            Some(&ds[0])
        } else {
            None
        },
    }
}

/// Chooses the variant to draw for a block with the given properties.
pub fn select_variant<'a>(state: &'a BlockRenderState, props: &Vec<(String, String)>) -> (r: Option<&'a VariantDesc>)
    ensures
        match r {
            Some(d) => spec_select_variant(*state, props@) == Some(*d),
            None => spec_select_variant(*state, props@) is None,
        },
{
    match state {
        BlockRenderState::MultiPart => None,
        BlockRenderState::Variants(Variants::Array(vs)) => if vs.len() > 0 {
            variant_first_desc(&vs[0])
        } else {
            None
        },
        BlockRenderState::Variants(Variants::Keyed(es)) => {
            let mut i: usize = 0;
            while i < es.len()
                invariant
                    *state == BlockRenderState::Variants(Variants::Keyed(*es)),
                    i <= es@.len(),
                    first_match(es@, props@, 0) == first_match(es@, props@, i as int),
                decreases es@.len() - i,
            {
                if predicate_matches(es[i].0.as_str(), props) {
                    assert(first_match(es@, props@, i as int) == Some(i as int));
                    return variant_first_desc(&es[i].1);
                }
                i = i + 1;
            }
            if es.len() > 0 {
                variant_first_desc(&es[0].1)
            } else {
                None
            }
        },
    }
}

/// The empty predicate holds of every property list.
pub proof fn lemma_empty_predicate_holds(props: Seq<(String, String)>)
    ensures
        predicate_holds(Seq::empty(), props),
{
    assert(find_from(Seq::<char>::empty(), '=', 0) == 0);
}

/// An entry with the empty predicate is chosen as soon as the search reaches
/// it, whatever the block's properties and whatever entries follow it.
pub proof fn lemma_empty_predicate_wins(
    es: Vec<(String, Variant)>,
    props: Seq<(String, String)>,
    i: int,
)
    requires
        0 <= i < es@.len(),
        es@[i].0@ == Seq::<char>::empty(),
        forall|j: int| 0 <= j < i ==> !predicate_holds(#[trigger] es@[j].0@, props),
    ensures
        spec_select_variant(BlockRenderState::Variants(Variants::Keyed(es)), props) == first_desc(es@[i].1),
{
    lemma_empty_predicate_holds(props);
    lemma_first_match_reaches(es@, props, 0, i);
}

proof fn lemma_first_match_reaches(
    es: Seq<(String, Variant)>,
    props: Seq<(String, String)>,
    k: int,
    i: int,
)
    requires
        0 <= k <= i < es.len(),
        predicate_holds(es[i].0@, props),
        forall|j: int| 0 <= j < i ==> !predicate_holds(#[trigger] es[j].0@, props),
    ensures
        first_match(es, props, k) == Some(i),
    decreases i - k,
{
    if k < i {
        lemma_first_match_reaches(es, props, k + 1, i);
    }
}

} // verus!
