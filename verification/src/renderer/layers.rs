//! The renderer's layer registry.  It refines the scene registry with a
//! foreground kind between the generic and UI layers, and gives each
//! layer an identifier accessor.

use vstd::prelude::*;
use crate::helpers::ident::fresh_id;
use crate::helpers::strings::{lex_lt, str_cmp, str_eq, Cmp};

verus! {

#[derive(Clone, Debug, PartialEq, Eq)]
pub enum LayerKind {
    Background,
    Generic,
    Foreground,
    UI,
    Overlay,
}

impl Default for LayerKind {
    fn default() -> (r: LayerKind)
        ensures
            r == LayerKind::Generic,
    {
        LayerKind::Generic
    }
}

/// The position of a kind in the back-to-front drawing order.
pub open spec fn kind_rank(k: LayerKind) -> int {
    match k {
        LayerKind::Background => 0,
        LayerKind::Generic => 1,
        LayerKind::Foreground => 2,
        LayerKind::UI => 3,
        LayerKind::Overlay => 4,
    }
}

#[derive(Clone, Debug, PartialEq, Eq)]
pub struct Layer {
    pub kind: LayerKind,
    pub ordinal: i32,
    pub name: String,
    pub id: String,
}

impl Default for Layer {
    fn default() -> (r: Layer)
        ensures
            r.kind == LayerKind::Generic,
            r.ordinal == 0,
            r.name@ == Seq::<char>::empty(),
            r.id@ == Seq::<char>::empty(),
    {
        Layer { kind: LayerKind::Generic, ordinal: 0, name: String::new(), id: String::new() }
    }
}

/// The registry's ordering: by kind, then ordinal, then name, then
/// identifier, each lexicographically.
pub open spec fn layer_le(a: Layer, b: Layer) -> bool {
    if kind_rank(a.kind) != kind_rank(b.kind) {
        kind_rank(a.kind) < kind_rank(b.kind)
    } else if a.ordinal != b.ordinal {
        a.ordinal < b.ordinal
    } else if a.name@ != b.name@ {
        lex_lt(a.name@, b.name@)
    } else {
        lex_lt(a.id@, b.id@) || a.id@ == b.id@
    }
}

fn kind_rank_exec(k: &LayerKind) -> (r: u8)
    ensures
        r as int == kind_rank(*k),
{
    match k {
        LayerKind::Background => 0,
        LayerKind::Generic => 1,
        LayerKind::Foreground => 2,
        LayerKind::UI => 3,
        LayerKind::Overlay => 4,
    }
}

fn layer_le_exec(a: &Layer, b: &Layer) -> (r: bool)
    ensures
        r == layer_le(*a, *b),
{
    let ra = kind_rank_exec(&a.kind);
    let rb = kind_rank_exec(&b.kind);
    if ra != rb {
        return ra < rb;
    }
    if a.ordinal != b.ordinal {
        return a.ordinal < b.ordinal;
    }
    match str_cmp(a.name.as_str(), b.name.as_str()) {
        Cmp::Lt => true,
        Cmp::Gt => false,
        Cmp::Eq => !matches!(str_cmp(b.id.as_str(), a.id.as_str()), Cmp::Lt),
    }
}

impl Layer {
    /// A fresh layer; its identifier is a fresh random string, so two
    /// layers built from the same arguments still differ.
    pub fn new(name: &str, kind: LayerKind, ordinal: i32) -> (r: Layer)
        ensures
            r.name@ == name@,
            r.kind == kind,
            r.ordinal == ordinal,
    {
        Layer { id: fresh_id(), name: name.to_owned(), kind, ordinal }
    }

    pub fn get_id(&self) -> (r: String)
        ensures
            r@ == self.id@,
    {
        self.id.clone()
    }

    pub fn on_attach() {
    }

    pub fn on_detach() {
    }

    pub fn on_update() {
    }

    pub fn on_event() {
    }
}

/// Where a layer lands when inserted into an already ordered sequence:
/// it goes behind every layer that is `layer_le` it.
pub open spec fn insert_ordered_spec(s: Seq<Layer>, x: Layer) -> Seq<Layer>
    decreases s.len(),
{
    if s.len() > 0 && layer_le(s[0], x) {
        seq![s[0]] + insert_ordered_spec(s.drop_first(), x)
    } else {
        seq![x] + s
    }
}

/// The registry's ordering applied to a whole sequence: each element is
/// inserted in turn into the ordered rest.
pub open spec fn sort_spec(s: Seq<Layer>) -> Seq<Layer>
    decreases s.len(),
{
    if s.len() == 0 {
        Seq::empty()
    } else {
        insert_ordered_spec(sort_spec(s.drop_first()), s[0])
    }
}

/// The sequence with every layer of the given identifier taken out,
/// order otherwise kept.
pub open spec fn without_id(s: Seq<Layer>, id: Seq<char>) -> Seq<Layer>
    decreases s.len(),
{
    if s.len() == 0 {
        Seq::empty()
    } else if s[0].id@ == id {
        without_id(s.drop_first(), id)
    } else {
        seq![s[0]] + without_id(s.drop_first(), id)
    }
}

proof fn lemma_insert_ordered_at(s: Seq<Layer>, x: Layer, j: int)
    requires
        0 <= j <= s.len(),
        forall|k: int| 0 <= k < j ==> layer_le(#[trigger] s[k], x),
        j < s.len() ==> !layer_le(s[j], x),
    ensures
        insert_ordered_spec(s, x) =~= s.insert(j, x),
    decreases j,
{
    if j == 0 {
    } else {
        lemma_insert_ordered_at(s.drop_first(), x, j - 1);
        assert(s.drop_first().insert(j - 1, x) =~= s.insert(j, x).drop_first());
    }
}

fn insert_ordered(v: &mut Vec<Layer>, x: Layer)
    ensures
        final(v)@ == insert_ordered_spec(old(v)@, x),
{
    let ghost s = v@;
    let mut j: usize = 0;
    while j < v.len() && layer_le_exec(&v[j], &x)
        invariant
            v@ == s,
            j <= s.len(),
            forall|k: int| 0 <= k < j ==> layer_le(#[trigger] s[k], x),
        decreases s.len() - j,
    {
        j = j + 1;
    }
    proof {
        lemma_insert_ordered_at(s, x, j as int);
    }
    v.insert(j, x);
}

#[derive(Default)]
pub struct Layers {
    pub layers: Vec<Layer>,
}

impl Layers {
    pub fn new() -> (r: Layers)
        ensures
            r.layers@ == Seq::<Layer>::empty(),
    {
        Layers { layers: Vec::new() }
    }

    /// Adds the layer and restores the registry's order.
    pub fn add(&mut self, layer: Layer)
        ensures
            final(self).layers@ == sort_spec(old(self).layers@.push(layer)),
    {
        self.layers.push(layer);
        self.sort();
    }

    /// Drops every layer whose identifier matches.
    pub fn remove(&mut self, id: &str)
        ensures
            final(self).layers@ == without_id(old(self).layers@, id@),
    {
        let ghost orig = self.layers@;
        let mut kept: Vec<Layer> = Vec::new();
        while self.layers.len() > 0
            invariant
                without_id(orig, id@) =~= kept@ + without_id(self.layers@, id@),
            decreases self.layers@.len(),
        {
            let ghost rem = self.layers@;
            let x = self.layers.remove(0);
            proof {
                assert(rem.remove(0) =~= rem.drop_first());
            }
            if !str_eq(x.id.as_str(), id) {
                kept.push(x);
            }
        }
        self.layers = kept;
    }

    pub fn clear(&mut self)
        ensures
            final(self).layers@ == Seq::<Layer>::empty(),
    {
        self.layers.clear();
    }

    pub fn sort(&mut self)
        ensures
            final(self).layers@ == sort_spec(old(self).layers@),
    {
        let ghost orig = self.layers@;
        let mut out: Vec<Layer> = Vec::new();
        while self.layers.len() > 0
            invariant
                self.layers@.len() <= orig.len(),
                self.layers@ == orig.take(self.layers@.len() as int),
                out@ == sort_spec(orig.skip(self.layers@.len() as int)),
            decreases self.layers@.len(),
        {
            let ghost n = self.layers@.len() as int;
            let x = self.layers.pop().unwrap();
            proof {
                assert(orig.take(n).drop_last() =~= orig.take(n - 1));
                assert(orig.skip(n - 1).drop_first() =~= orig.skip(n));
                assert(orig.take(n).last() == orig.skip(n - 1)[0]);
            }
            insert_ordered(&mut out, x);
        }
        proof {
            assert(orig.skip(0) =~= orig);
        }
        self.layers = out;
    }
}

} // verus!
