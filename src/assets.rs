use vstd::prelude::*;
use crate::block_state::{lookup_prop, lookup_property, BlockRenderState};
use crate::geom::{BlockPos, Direction, UvRect};
use crate::text::{ends_with, has_suffix, strip_namespace, without_namespace};

verus! {

/// One face of a cuboid element: its texture rectangle (the whole texture
/// when absent), the texture variable it shows, and the neighbour direction
/// that may hide it.
#[derive(Debug)]
pub struct FaceDesc {
    pub uv: Option<UvRect>,
    pub texture: String,
    pub cullface: Option<Direction>,
}

/// An axis-aligned box of a block model. Coordinates are in sixteenths of a
/// model pixel: one block spans 0..256 (the model files' 0..16), so half
/// and quarter pixels are kept. The box has up to one face per direction.
#[derive(Debug)]
pub struct Cube {
    pub from: BlockPos,
    pub to: BlockPos,
    pub down: Option<FaceDesc>,
    pub up: Option<FaceDesc>,
    pub north: Option<FaceDesc>,
    pub south: Option<FaceDesc>,
    pub west: Option<FaceDesc>,
    pub east: Option<FaceDesc>,
}

/// A block model: an optional parent, texture variables (a value is a
/// texture path or `#other`), the ambient-occlusion flag and the elements.
#[derive(Debug)]
pub struct BlockModel {
    pub parent: Option<String>,
    pub textures: Vec<(String, String)>,
    pub ambient_occlusion: bool,
    pub elements: Option<Vec<Cube>>,
}

pub open spec fn spec_face(c: Cube, d: Direction) -> Option<FaceDesc> {
    match d {
        Direction::Down => c.down,
        Direction::Up => c.up,
        Direction::North => c.north,
        Direction::South => c.south,
        Direction::West => c.west,
        Direction::East => c.east,
    }
}

impl Cube {
    pub fn face(&self, d: Direction) -> (r: Option<&FaceDesc>)
        ensures
            match r {
                Some(f) => spec_face(*self, d) == Some(*f),
                None => spec_face(*self, d) is None,
            },
    {
        let f = match d {
            Direction::Down => &self.down,
            Direction::Up => &self.up,
            Direction::North => &self.north,
            Direction::South => &self.south,
            Direction::West => &self.west,
            Direction::East => &self.east,
        };
        match f {
            Some(f) => Some(f),
            None => None,
        }
    }
}

pub open spec fn in_block_space(p: BlockPos) -> bool {
    0 <= p.x <= 256 && 0 <= p.y <= 256 && 0 <= p.z <= 256
}

pub open spec fn cube_wf(c: Cube) -> bool {
    in_block_space(c.from) && in_block_space(c.to)
}

/// Every element of the model lies within the space of one block.
pub open spec fn model_wf(m: BlockModel) -> bool {
    match m.elements {
        Some(es) => forall|i: int| 0 <= i < es@.len() ==> cube_wf(#[trigger] es@[i]),
        None => true,
    }
}

pub fn cube_in_bounds(c: &Cube) -> (r: bool)
    ensures
        r == cube_wf(*c),
{
    let f = c.from;
    let t = c.to;
    0 <= f.x && f.x <= 256 && 0 <= f.y && f.y <= 256 && 0 <= f.z && f.z <= 256 && 0 <= t.x && t.x
        <= 256 && 0 <= t.y && t.y <= 256 && 0 <= t.z && t.z <= 256
}

pub fn model_in_bounds(m: &BlockModel) -> (r: bool)
    ensures
        r == model_wf(*m),
{
    match &m.elements {
        None => true,
        Some(es) => {
            let mut i: usize = 0;
            while i < es.len()
                invariant
                    m.elements == Some(*es),
                    i <= es@.len(),
                    forall|j: int| 0 <= j < i ==> cube_wf(#[trigger] es@[j]),
                decreases es@.len() - i,
            {
                if !cube_in_bounds(&es[i]) {
                    assert(!cube_wf(es@[i as int]));
                    assert(m.elements->Some_0@[i as int] == es@[i as int]);
                    return false;
                }
                i = i + 1;
            }
            true
        },
    }
}

/// Index of the first entry at or after `i` whose key is `key`.
pub open spec fn find_key<V>(entries: Seq<(String, V)>, key: Seq<char>, i: int) -> Option<int>
    decreases entries.len() - i,
{
    if i < 0 || i >= entries.len() {
        None
    } else if entries[i].0@ == key {
        Some(i)
    } else {
        find_key(entries, key, i + 1)
    }
}

pub proof fn lemma_find_key_bounds<V>(entries: Seq<(String, V)>, key: Seq<char>, i: int)
    requires
        0 <= i,
    ensures
        find_key(entries, key, i) matches Some(j) ==> i <= j < entries.len() && entries[j].0@ == key,
        find_key(entries, key, i) is None ==> forall|j: int|
            i <= j < entries.len() ==> #[trigger] entries[j].0@ != key,
    decreases entries.len() - i,
{
    if i < entries.len() && entries[i].0@ != key {
        lemma_find_key_bounds(entries, key, i + 1);
    }
}

pub fn find_entry<V>(entries: &Vec<(String, V)>, key: &str) -> (r: Option<usize>)
    ensures
        match r {
            Some(j) => find_key(entries@, key@, 0) == Some(j as int),
            None => find_key(entries@, key@, 0) is None,
        },
{
    let owned = key.to_owned();
    let mut i: usize = 0;
    while i < entries.len()
        invariant
            owned@ == key@,
            i <= entries@.len(),
            find_key(entries@, key@, 0) == find_key(entries@, key@, i as int),
        decreases entries@.len() - i,
    {
        if entries[i].0 == owned {
            return Some(i);
        }
        i = i + 1;
    }
    None
}

/// The texture paths known to the renderer; a path's index is its position.
#[derive(Debug)]
pub struct TextureIdMap {
    pub names: Vec<String>,
}

/// Index of the first of `names` at or after `i` equal to `key`.
pub open spec fn find_name(names: Seq<String>, key: Seq<char>, i: int) -> Option<int>
    decreases names.len() - i,
{
    if i < 0 || i >= names.len() {
        None
    } else if names[i]@ == key {
        Some(i)
    } else {
        find_name(names, key, i + 1)
    }
}

pub proof fn lemma_find_name_bounds(names: Seq<String>, key: Seq<char>, i: int)
    requires
        0 <= i,
    ensures
        find_name(names, key, i) matches Some(j) ==> i <= j < names.len() && names[j]@ == key,
        find_name(names, key, i) is None ==> forall|j: int|
            i <= j < names.len() ==> #[trigger] names[j]@ != key,
    decreases names.len() - i,
{
    if i < names.len() && names[i]@ != key {
        lemma_find_name_bounds(names, key, i + 1);
    }
}

/// Largest number of textures, so that every index fits a `u32`.
pub const MAX_TEXTURES: usize = 0xffff_ffff;

impl TextureIdMap {
    /// Indices fit a `u32`, and no path is listed twice.
    pub open spec fn wf(&self) -> bool {
        &&& self.names@.len() <= MAX_TEXTURES
        &&& forall|i: int, j: int|
            0 <= i < j < self.names@.len() ==> #[trigger] self.names@[i]@ != #[trigger] self.names@[j]@
    }

    /// The index of `path`, if it is known.
    pub open spec fn spec_id(&self, path: Seq<char>) -> Option<u32> {
        match find_name(self.names@, path, 0) {
            Some(i) => Some(i as u32),
            None => None,
        }
    }

    pub fn new() -> (r: TextureIdMap)
        ensures
            r.wf(),
            r.names@.len() == 0,
    {
        TextureIdMap { names: Vec::new() }
    }

    fn find(&self, path: &str) -> (r: Option<usize>)
        ensures
            match r {
                Some(i) => find_name(self.names@, path@, 0) == Some(i as int),
                None => find_name(self.names@, path@, 0) is None,
            },
    {
        let owned = path.to_owned();
        let mut i: usize = 0;
        while i < self.names.len()
            invariant
                owned@ == path@,
                i <= self.names@.len(),
                find_name(self.names@, path@, 0) == find_name(self.names@, path@, i as int),
            decreases self.names@.len() - i,
        {
            if self.names[i] == owned {
                return Some(i);
            }
            i = i + 1;
        }
        None
    }

    /// The index of a texture path; an unknown path has none.
    pub fn texture_id(&self, path: &str) -> (r: Option<u32>)
        requires
            self.wf(),
        ensures
            r == self.spec_id(path@),
    {
        proof {
            lemma_find_name_bounds(self.names@, path@, 0);
        }
        match self.find(path) {
            Some(i) => Some(i as u32),
            None => None,
        }
    }

    /// Gives `path` an index: its own if it has one, else the next free one.
    pub fn add(&mut self, path: String) -> (r: u32)
        requires
            old(self).wf(),
            old(self).names@.len() < MAX_TEXTURES,
        ensures
            final(self).wf(),
            final(self).spec_id(path@) == Some(r),
            old(self).spec_id(path@) matches Some(i) ==> r == i && final(self).names@
                == old(self).names@,
            old(self).spec_id(path@) is None ==> r == old(self).names@.len() && final(self).names@
                == old(self).names@.push(path),
    {
        proof {
            lemma_find_name_bounds(self.names@, path@, 0);
        }
        match self.find(path.as_str()) {
            Some(i) => i as u32,
            None => {
                let n = self.names.len();
                let ghost before = self.names@;
                self.names.push(path);
                proof {
                    lemma_find_name_push(before, self.names@[n as int], 0);
                }
                n as u32
            },
        }
    }
}

proof fn lemma_find_name_push(names: Seq<String>, s: String, i: int)
    requires
        0 <= i <= names.len(),
        find_name(names, s@, i) is None,
    ensures
        find_name(names.push(s), s@, i) == Some(names.len() as int),
    decreases names.len() - i,
{
    if i < names.len() {
        assert(names.push(s)[i] == names[i]);
        lemma_find_name_push(names, s, i + 1);
    }
}

/// No key occurs in two entries.
pub open spec fn keys_unique<V>(entries: Seq<(String, V)>) -> bool {
    forall|i: int, j: int| 0 <= i < j < entries.len() ==> #[trigger] entries[i].0@ != #[trigger] entries[j].0@
}

/// Giving a key a value keeps keys unique.
proof fn lemma_insert_keeps_unique<V>(entries: Seq<(String, V)>, key: String, v: V)
    requires
        keys_unique(entries),
    ensures
        keys_unique(insert_entry(entries, key, v)),
{
    lemma_find_key_bounds(entries, key@, 0);
    let r = insert_entry(entries, key, v);
    match find_key(entries, key@, 0) {
        Some(j) => {
            assert forall|a: int, b: int| 0 <= a < b < r.len() implies #[trigger] r[a].0@ != #[trigger] r[b].0@ by {
                assert(entries[a].0@ != entries[b].0@);
            }
        },
        None => {
            assert forall|a: int, b: int| 0 <= a < b < r.len() implies #[trigger] r[a].0@ != #[trigger] r[b].0@ by {
                if b < entries.len() {
                    assert(entries[a].0@ != entries[b].0@);
                } else {
                    assert(entries[a].0@ != key@);
                }
            }
        },
    }
}

/// The entries after giving `key` the value `v`: the entry with that key is
/// replaced, or a new one is appended.
pub open spec fn insert_entry<V>(entries: Seq<(String, V)>, key: String, v: V) -> Seq<(String, V)> {
    match find_key(entries, key@, 0) {
        Some(j) => entries.update(j, (key, v)),
        None => entries.push((key, v)),
    }
}

/// The asset catalog: block models and block-state tables keyed by name, and
/// the texture indices. It is built once and then only read.
#[derive(Debug)]
pub struct LoadedAssets {
    pub block_models: Vec<(String, BlockModel)>,
    pub block_states: Vec<(String, BlockRenderState)>,
    pub textures: TextureIdMap,
}

/// Largest number of hops through `#variable` references that a texture
/// lookup follows; a longer chain is taken to be a cycle and fails.
pub const MAX_TEXTURE_HOPS: usize = 64;

/// `p` followed by the chain in `rest`, if there is one.
pub open spec fn prepend(p: Seq<usize>, rest: Option<Seq<usize>>) -> Option<Seq<usize>> {
    match rest {
        Some(c) => Some(p + c),
        None => None,
    }
}

/// The inheritance chain of the model `name`: the indices of the model and
/// of its ancestors, nearest first. It fails when a model on the way is
/// missing, or after `fuel` models (a cycle).
pub open spec fn model_chain(models: Seq<(String, BlockModel)>, name: Seq<char>, fuel: nat) -> Option<Seq<usize>>
    decreases fuel,
{
    if fuel == 0 {
        None
    } else {
        match find_key(models, without_namespace(name), 0) {
            None => None,
            Some(i) => match models[i].1.parent {
                None => Some(seq![i as usize]),
                Some(p) => prepend(seq![i as usize], model_chain(models, p@, (fuel - 1) as nat)),
            },
        }
    }
}

/// The elements of the nearest model of the chain, from position `k` on,
/// that declares any.
pub open spec fn chain_elements(models: Seq<(String, BlockModel)>, chain: Seq<usize>, k: int) -> Option<Vec<Cube>>
    decreases chain.len() - k,
{
    if k < 0 || k >= chain.len() {
        None
    } else {
        match models[chain[k] as int].1.elements {
            Some(es) => Some(es),
            None => chain_elements(models, chain, k + 1),
        }
    }
}

/// Resolution of the texture reference `name` at position `level` of the
/// chain. A `#variable` is looked up in that model's textures, then in its
/// ancestors'; a value found is resolved again from the originating model,
/// which spends one of `fuel` hops. Anything else is a texture path.
pub open spec fn texture_walk(
    models: Seq<(String, BlockModel)>,
    chain: Seq<usize>,
    level: int,
    name: Seq<char>,
    fuel: nat,
) -> Option<Seq<char>>
    decreases fuel, chain.len() - level,
{
    let n = without_namespace(name);
    if n.len() > 0 && n[0] == '#' {
        if level < 0 || level >= chain.len() {
            None
        } else {
            match lookup_prop(models[chain[level] as int].1.textures@, n.subrange(1, n.len() as int), 0) {
                Some(v) => if fuel == 0 {
                    None
                } else {
                    texture_walk(models, chain, 0, v, (fuel - 1) as nat)
                },
                None => texture_walk(models, chain, level + 1, n, fuel),
            }
        }
    } else {
        Some(n)
    }
}

/// A resolved model: the model and its ancestors in the catalog.
pub struct BlockModelRef<'a> {
    pub ambient_occlusion: bool,
    pub assets: &'a LoadedAssets,
    pub chain: Vec<usize>,
}

impl<'a> BlockModelRef<'a> {
    pub open spec fn wf(&self) -> bool {
        &&& self.chain@.len() > 0
        &&& forall|k: int| 0 <= k < self.chain@.len() ==> #[trigger] self.chain@[k] < self.assets.block_models@.len()
    }

    /// The elements of the nearest model of the chain that declares any.
    pub open spec fn spec_elements(&self) -> Option<Vec<Cube>> {
        chain_elements(self.assets.block_models@, self.chain@, 0)
    }

    /// What the texture reference `name` resolves to from this model.
    pub open spec fn spec_texture(&self, name: Seq<char>) -> Option<Seq<char>> {
        texture_walk(self.assets.block_models@, self.chain@, 0, name, MAX_TEXTURE_HOPS as nat)
    }

    /// The elements of the model, inherited from the nearest ancestor that
    /// declares them.
    pub fn elements(&self) -> (r: Option<&'a Vec<Cube>>)
        requires
            self.wf(),
        ensures
            match r {
                Some(es) => self.spec_elements() == Some(*es),
                None => self.spec_elements() is None,
            },
    {
        let models = &self.assets.block_models;
        let mut k: usize = 0;
        while k < self.chain.len()
            invariant
                self.wf(),
                models == &self.assets.block_models,
                k <= self.chain@.len(),
                self.spec_elements() == chain_elements(models@, self.chain@, k as int),
            decreases self.chain@.len() - k,
        {
            let i = self.chain[k];
            match &models[i].1.elements {
                Some(es) => {
                    return Some(es);
                },
                None => {},
            }
            k = k + 1;
        }
        None
    }

    /// Resolves a texture reference (`#variable` or a path) to a texture
    /// path without namespace; `None` when it cannot be resolved.
    pub fn get_texture(&self, name: &str) -> (r: Option<String>)
        requires
            self.wf(),
        ensures
            match r {
                Some(s) => self.spec_texture(name@) == Some(s@),
                None => self.spec_texture(name@) is None,
            },
    {
        let models = &self.assets.block_models;
        let mut level: usize = 0;
        let mut cur: &str = name;
        let mut fuel: usize = MAX_TEXTURE_HOPS;
        loop
            invariant
                self.wf(),
                models == &self.assets.block_models,
                level <= self.chain@.len(),
                fuel <= MAX_TEXTURE_HOPS,
                self.spec_texture(name@) == texture_walk(models@, self.chain@, level as int, cur@, fuel as nat),
            decreases fuel, self.chain@.len() - level,
        {
            let n = strip_namespace(cur);
            let len = n.unicode_len();
            if len == 0 || n.get_char(0) != '#' {
                return Some(n.to_owned());
            }
            if level >= self.chain.len() {
                return None;
            }
            let var = n.substring_char(1, len).to_owned();
            let i = self.chain[level];
            match lookup_property(&models[i].1.textures, &var) {
                Some(v) => {
                    if fuel == 0 {
                        return None;
                    }
                    fuel = fuel - 1;
                    level = 0;
                    cur = v.as_str();
                },
                None => {
                    level = level + 1;
                    cur = n;
                    proof {
                        assert(without_namespace(n@) == n@) by {
                            lemma_strip_idempotent(cur@);
                        }
                    }
                },
            }
        }
    }
}

/// A name whose leading `#` survived stripping keeps it on a second pass.
proof fn lemma_strip_idempotent(n: Seq<char>)
    requires
        n.len() > 0 && n[0] == '#',
    ensures
        without_namespace(n) == n,
{
    if crate::text::has_prefix(n, crate::text::namespace()) {
        assert(n.subrange(0, 10)[0] == n[0]);
    }
}

impl LoadedAssets {
    /// Every model lies in block space, no name is listed twice, and
    /// texture indices fit a `u32`.
    pub open spec fn wf(&self) -> bool {
        &&& self.textures.wf()
        &&& forall|i: int| 0 <= i < self.block_models@.len() ==> model_wf(#[trigger] self.block_models@[i].1)
        &&& keys_unique(self.block_models@)
        &&& keys_unique(self.block_states@)
    }

    pub open spec fn spec_block_state(&self, name: Seq<char>) -> Option<BlockRenderState> {
        match find_key(self.block_states@, name, 0) {
            Some(i) => Some(self.block_states@[i].1),
            None => None,
        }
    }

    pub open spec fn spec_model_chain(&self, name: Seq<char>) -> Option<Seq<usize>> {
        model_chain(self.block_models@, name, self.block_models@.len())
    }

    pub fn new() -> (r: LoadedAssets)
        ensures
            r.wf(),
            r.block_models@.len() == 0,
            r.block_states@.len() == 0,
            r.textures.names@.len() == 0,
    {
        LoadedAssets { block_models: Vec::new(), block_states: Vec::new(), textures: TextureIdMap::new() }
    }

    /// Adds (or replaces) the model `name`. A model with an element outside
    /// the space of one block is refused and the catalog is left unchanged.
    pub fn add_block_model(&mut self, name: String, model: BlockModel) -> (r: bool)
        requires
            old(self).wf(),
        ensures
            final(self).wf(),
            r == model_wf(model),
            r ==> final(self).block_models@ == insert_entry(old(self).block_models@, name, model),
            !r ==> final(self).block_models@ == old(self).block_models@,
            final(self).block_states@ == old(self).block_states@,
            final(self).textures == old(self).textures,
    {
        if !model_in_bounds(&model) {
            return false;
        }
        proof {
            lemma_find_key_bounds(self.block_models@, name@, 0);
            lemma_insert_keeps_unique(self.block_models@, name, model);
        }
        match find_entry(&self.block_models, name.as_str()) {
            Some(j) => {
                self.block_models[j] = (name, model);
            },
            None => {
                self.block_models.push((name, model));
            },
        }
        true
    }

    /// Adds (or replaces) the block-state table `name`.
    pub fn add_block_state(&mut self, name: String, state: BlockRenderState)
        requires
            old(self).wf(),
        ensures
            final(self).wf(),
            final(self).block_states@ == insert_entry(old(self).block_states@, name, state),
            final(self).block_models@ == old(self).block_models@,
            final(self).textures == old(self).textures,
    {
        proof {
            lemma_find_key_bounds(self.block_states@, name@, 0);
            lemma_insert_keeps_unique(self.block_states@, name, state);
        }
        match find_entry(&self.block_states, name.as_str()) {
            Some(j) => {
                self.block_states[j] = (name, state);
            },
            None => {
                self.block_states.push((name, state));
            },
        }
    }

    /// Gives the texture `path` an index, or returns the one it has.
    pub fn add_texture(&mut self, path: String) -> (r: u32)
        requires
            old(self).wf(),
            old(self).textures.names@.len() < MAX_TEXTURES,
        ensures
            final(self).wf(),
            final(self).textures.spec_id(path@) == Some(r),
            old(self).textures.spec_id(path@) matches Some(i) ==> r == i && final(self).textures.names@
                == old(self).textures.names@,
            old(self).textures.spec_id(path@) is None ==> r == old(self).textures.names@.len()
                && final(self).textures.names@ == old(self).textures.names@.push(path),
            final(self).block_models@ == old(self).block_models@,
            final(self).block_states@ == old(self).block_states@,
    {
        self.textures.add(path)
    }

    /// The block-state table of the block `name`.
    pub fn get_block_state(&self, name: &str) -> (r: Option<&BlockRenderState>)
        ensures
            match r {
                Some(s) => self.spec_block_state(name@) == Some(*s),
                None => self.spec_block_state(name@) is None,
            },
    {
        proof {
            lemma_find_key_bounds(self.block_states@, name@, 0);
        }
        match find_entry(&self.block_states, name) {
            Some(i) => Some(&self.block_states[i].1),
            None => None,
        }
    }

    /// The index of a texture path, if it is known.
    pub fn texture_id(&self, path: &str) -> (r: Option<u32>)
        requires
            self.wf(),
        ensures
            r == self.textures.spec_id(path@),
    {
        self.textures.texture_id(path)
    }

    /// Resolves the model `name` (namespace optional) with its chain of
    /// parents. It fails when the model or an ancestor is missing, or when
    /// the chain is longer than the catalog, which only a cycle can make it.
    pub fn get_block_model<'a>(&'a self, name: &str) -> (r: Option<BlockModelRef<'a>>)
        ensures
            match r {
                Some(m) => {
                    &&& self.spec_model_chain(name@) == Some(m.chain@)
                    &&& m.assets == self
                    &&& m.wf()
                    &&& m.ambient_occlusion == self.block_models@[m.chain@[0] as int].1.ambient_occlusion
                },
                None => self.spec_model_chain(name@) is None,
            },
    {
        let models = &self.block_models;
        let mut chain: Vec<usize> = Vec::new();
        let mut cur: &str = name;
        let mut fuel: usize = models.len();
        loop
            invariant
                models == &self.block_models,
                fuel <= models@.len(),
                chain@.len() + fuel == models@.len(),
                forall|k: int| 0 <= k < chain@.len() ==> #[trigger] chain@[k] < models@.len(),
                self.spec_model_chain(name@) == prepend(chain@, model_chain(models@, cur@, fuel as nat)),
            decreases fuel,
        {
            if fuel == 0 {
                return None;
            }
            let key = strip_namespace(cur);
            proof {
                lemma_find_key_bounds(models@, key@, 0);
            }
            let i = match find_entry(models, key) {
                Some(i) => i,
                None => {
                    return None;
                },
            };
            let ghost before = chain@;
            chain.push(i);
            match &models[i].1.parent {
                None => {
                    proof {
                        assert(before + seq![i] == chain@);
                    }
                    let ambient_occlusion = models[chain[0]].1.ambient_occlusion;
                    return Some(BlockModelRef { ambient_occlusion, assets: self, chain });
                },
                Some(p) => {
                    proof {
                        let rest = model_chain(models@, p@, (fuel - 1) as nat);
                        assert(prepend(before, prepend(seq![i], rest)) == prepend(chain@, rest)) by {
                            if let Some(c) = rest {
                                assert(before + (seq![i] + c) =~= chain@ + c);
                            }
                        }
                    }
                    cur = p.as_str();
                    fuel = fuel - 1;
                },
            }
        }
    }
}

/// The catalog key of an asset file, from its path relative to its folder:
/// `prefix` (such as `block/`) and the path without its extension `ext`
/// (such as `.json` or `.png`). Files with another extension, and a file
/// named only by the extension, are not assets.
pub open spec fn spec_asset_key(prefix: Seq<char>, rel: Seq<char>, ext: Seq<char>) -> Option<Seq<char>> {
    let n = rel.len() as int;
    let m = ext.len() as int;
    if has_suffix(rel, ext) && n > m && rel[n - m - 1] != '/' {
        Some(prefix + rel.subrange(0, n - m))
    } else {
        None
    }
}

pub fn asset_key(prefix: &str, rel: &str, ext: &str) -> (r: Option<String>)
    ensures
        match r {
            Some(k) => spec_asset_key(prefix@, rel@, ext@) == Some(k@),
            None => spec_asset_key(prefix@, rel@, ext@) is None,
        },
{
    let n = rel.unicode_len();
    let m = ext.unicode_len();
    if !ends_with(rel, ext) || n <= m || rel.get_char(n - m - 1) == '/' {
        return None;
    }
    let stem = rel.substring_char(0, n - m);
    let mut key = String::from_str(prefix);
    key.append(stem);
    Some(key)
}

} // verus!
