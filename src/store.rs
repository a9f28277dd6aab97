use vstd::prelude::*;
use crate::mesher::SectionPos;

verus! {

/// The geometry the render thread holds, at most one per section.
#[derive(Debug)]
pub struct SectionStore<G> {
    pub entries: Vec<(SectionPos, G)>,
}

/// Index of the first entry at or after `i` for section `pos`.
pub open spec fn find_section<G>(entries: Seq<(SectionPos, G)>, pos: SectionPos, i: int) -> Option<int>
    decreases entries.len() - i,
{
    if i < 0 || i >= entries.len() {
        None
    } else if entries[i].0 == pos {
        Some(i)
    } else {
        find_section(entries, pos, i + 1)
    }
}

proof fn lemma_find_section_bounds<G>(entries: Seq<(SectionPos, G)>, pos: SectionPos, i: int)
    requires
        0 <= i,
    ensures
        find_section(entries, pos, i) matches Some(j) ==> i <= j < entries.len() && entries[j].0 == pos,
        find_section(entries, pos, i) is None ==> forall|j: int|
            i <= j < entries.len() ==> #[trigger] entries[j].0 != pos,
    decreases entries.len() - i,
{
    if i < entries.len() && entries[i].0 != pos {
        lemma_find_section_bounds(entries, pos, i + 1);
    }
}

/// Replacing the geometry at `j`, whose section is kept, changes no lookup.
proof fn lemma_find_section_update<G>(
    entries: Seq<(SectionPos, G)>,
    j: int,
    g: G,
    q: SectionPos,
    i: int,
)
    requires
        0 <= i,
        0 <= j < entries.len(),
    ensures
        find_section(entries.update(j, (entries[j].0, g)), q, i) == find_section(entries, q, i),
    decreases entries.len() - i,
{
    if i < entries.len() {
        lemma_find_section_update(entries, j, g, q, i + 1);
    }
}

/// Appending an entry for another section changes no lookup of `q`.
proof fn lemma_find_section_push<G>(entries: Seq<(SectionPos, G)>, e: (SectionPos, G), q: SectionPos, i: int)
    requires
        0 <= i <= entries.len(),
    ensures
        e.0 != q ==> find_section(entries.push(e), q, i) == find_section(entries, q, i),
        find_section(entries, q, i) is None && e.0 == q ==> find_section(entries.push(e), q, i) == Some(
            entries.len() as int,
        ),
    decreases entries.len() - i,
{
    if i < entries.len() {
        assert(entries.push(e)[i] == entries[i]);
        lemma_find_section_push(entries, e, q, i + 1);
    } else {
        assert(entries.push(e)[i] == e);
        assert(find_section(entries.push(e), q, i + 1) is None);
    }
}

impl<G> SectionStore<G> {
    /// No section has two entries.
    pub open spec fn wf(&self) -> bool {
        forall|i: int, j: int|
            0 <= i < j < self.entries@.len() ==> #[trigger] self.entries@[i].0 != #[trigger] self.entries@[j].0
    }

    /// The geometry stored for section `pos`.
    pub open spec fn spec_get(&self, pos: SectionPos) -> Option<G> {
        match find_section(self.entries@, pos, 0) {
            Some(j) => Some(self.entries@[j].1),
            None => None,
        }
    }

    pub fn new() -> (r: SectionStore<G>)
        ensures
            r.wf(),
            r.entries@.len() == 0,
            forall|p: SectionPos| r.spec_get(p) is None,
    {
        SectionStore { entries: Vec::new() }
    }

    /// Stores `g` as the geometry of `pos`, replacing what was stored for
    /// that section; other sections keep theirs.
    pub fn upsert(&mut self, pos: SectionPos, g: G)
        requires
            old(self).wf(),
        ensures
            final(self).wf(),
            match find_section(old(self).entries@, pos, 0) {
                Some(j) => final(self).entries@ == old(self).entries@.update(j, (pos, g)),
                None => final(self).entries@ == old(self).entries@.push((pos, g)),
            },
            final(self).spec_get(pos) == Some(g),
            forall|q: SectionPos| q != pos ==> final(self).spec_get(q) == old(self).spec_get(q),
            old(self).spec_get(pos) is Some ==> final(self).entries@.len() == old(self).entries@.len(),
    {
        proof {
            lemma_find_section_bounds(self.entries@, pos, 0);
        }
        let ghost before = self.entries@;
        let mut i: usize = 0;
        while i < self.entries.len()
            invariant
                self.entries@ == before,
                before == old(self).entries@,
                old(self).wf(),
                i <= before.len(),
                find_section(before, pos, 0) == find_section(before, pos, i as int),
            decreases before.len() - i,
        {
            if self.entries[i].0 == pos {
                self.entries[i] = (pos, g);
                proof {
                    assert(self.entries@ == before.update(i as int, (before[i as int].0, g)));
                    assert forall|q: SectionPos| q != pos implies self.spec_get(q) == old(self).spec_get(q) by {
                        lemma_find_section_update(before, i as int, g, q, 0);
                        lemma_find_section_bounds(before, q, 0);
                    }
                    lemma_find_section_update(before, i as int, g, pos, 0);
                    assert forall|a: int, b: int| 0 <= a < b < self.entries@.len() implies #[trigger] self.entries@[a].0
                        != #[trigger] self.entries@[b].0 by {
                        assert(before[a].0 != before[b].0);
                    }
                }
                return;
            }
            i = i + 1;
        }
        self.entries.push((pos, g));
        proof {
            lemma_find_section_bounds(before, pos, 0);
            assert forall|a: int, b: int| 0 <= a < b < self.entries@.len() implies #[trigger] self.entries@[a].0
                != #[trigger] self.entries@[b].0 by {
                if b < before.len() {
                    assert(before[a].0 != before[b].0);
                } else {
                    assert(before[a].0 != pos);
                }
            }
            lemma_find_section_push(before, (pos, g), pos, 0);
            assert forall|q: SectionPos| q != pos implies self.spec_get(q) == old(self).spec_get(q) by {
                lemma_find_section_push(before, (pos, g), q, 0);
                lemma_find_section_bounds(before, q, 0);
                lemma_find_section_bounds(self.entries@, q, 0);
            }
        }
    }

    /// The geometry stored for `pos`, if any.
    pub fn get(&self, pos: SectionPos) -> (r: Option<&G>)
        ensures
            match r {
                Some(g) => self.spec_get(pos) == Some(*g),
                None => self.spec_get(pos) is None,
            },
    {
        proof {
            lemma_find_section_bounds(self.entries@, pos, 0);
        }
        let mut i: usize = 0;
        while i < self.entries.len()
            invariant
                i <= self.entries@.len(),
                find_section(self.entries@, pos, 0) == find_section(self.entries@, pos, i as int),
            decreases self.entries@.len() - i,
        {
            if self.entries[i].0 == pos {
                return Some(&self.entries[i].1);
            }
            i = i + 1;
        }
        None
    }

    pub fn len(&self) -> (r: usize)
        ensures
            r == self.entries@.len(),
    {
        self.entries.len()
    }
}

} // verus!
