//! Registry of the shaders the engine can draw, in registration order.
use vstd::prelude::*;

use crate::builtin_shaders::{
    ELECTRIC_WGSL, FRACTAL_WGSL, GEOMETRY_WGSL, HYPNOTIC_WGSL, KALEIDOSCOPE_WGSL, LIQUID_WGSL,
    NEBULA_WGSL, NEURAL_WGSL, STROBE_WGSL, VORONOI_WGSL,
};

verus! {

/// A registered shader.
#[derive(Debug, Clone)]
pub struct ShaderEntry {
    pub name: String,
    pub source: String,
    pub description: String,
    /// path relative to the working directory, for hot-reload.
    pub path: String,
}

/// A shader entry as text.
pub struct ShaderEntryView {
    pub name: Seq<char>,
    pub source: Seq<char>,
    pub description: Seq<char>,
    pub path: Seq<char>,
}

pub open spec fn entry_view(e: ShaderEntry) -> ShaderEntryView {
    ShaderEntryView { name: e.name@, source: e.source@, description: e.description@, path: e.path@ }
}

/// Some entry of `v` is named `name`.
pub open spec fn has_name(v: Seq<ShaderEntryView>, name: Seq<char>) -> bool {
    exists|i: int| 0 <= i < v.len() && (#[trigger] v[i]).name == name
}

/// No two entries of `v` share a name.
pub open spec fn names_unique(v: Seq<ShaderEntryView>) -> bool {
    forall|i: int, j: int|
        0 <= i < v.len() && 0 <= j < v.len() && i != j ==> (#[trigger] v[i]).name != (#[trigger] v[j]).name
}

/// The entry of `v` named `name`, where there is one.
pub open spec fn lookup(v: Seq<ShaderEntryView>, name: Seq<char>) -> ShaderEntryView {
    v[choose|i: int| 0 <= i < v.len() && (#[trigger] v[i]).name == name]
}

/// Registering `e`: an entry of the same name is replaced in place, keeping
/// its position; else `e` is appended.
pub open spec fn spec_register(v: Seq<ShaderEntryView>, e: ShaderEntryView) -> Seq<ShaderEntryView> {
    if has_name(v, e.name) {
        v.map_values(|x: ShaderEntryView| if x.name == e.name { e } else { x })
    } else {
        v.push(e)
    }
}

/// The names of `v`, in order.
pub open spec fn names_of(v: Seq<ShaderEntryView>) -> Seq<Seq<char>> {
    v.map_values(|x: ShaderEntryView| x.name)
}

/// A registered entry is found again under its name: the entry that was
/// registered last under a name is what a lookup of that name gives.
pub proof fn registry_lookup_after_register(v: Seq<ShaderEntryView>, e: ShaderEntryView)
    requires
        names_unique(v),
    ensures
        has_name(spec_register(v, e), e.name),
        lookup(spec_register(v, e), e.name) == e,
        names_unique(spec_register(v, e)),
{
    let r = spec_register(v, e);
    if has_name(v, e.name) {
        let k = choose|k: int| 0 <= k < v.len() && (#[trigger] v[k]).name == e.name;
        assert(r[k] == e);
        assert forall|i: int, j: int|
            0 <= i < r.len() && 0 <= j < r.len() && i != j implies (#[trigger] r[i]).name != (#[trigger] r[j]).name by {
            assert(v[i].name != v[j].name);
        }
    } else {
        assert(r[v.len() as int] == e);
        assert forall|i: int, j: int|
            0 <= i < r.len() && 0 <= j < r.len() && i != j implies (#[trigger] r[i]).name != (#[trigger] r[j]).name by {
            if i < v.len() && j < v.len() {
                assert(r[i] == v[i] && r[j] == v[j]);
            } else if i < v.len() {
                assert(r[i] == v[i]);
            } else {
                assert(r[j] == v[j]);
            }
        }
    }
    let j = choose|j: int| 0 <= j < r.len() && (#[trigger] r[j]).name == e.name;
    assert(r[j] == e);
}

/// Every name the registry lists resolves to the entry at that position.
pub proof fn registry_names_resolve(v: Seq<ShaderEntryView>, i: int)
    requires
        names_unique(v),
        0 <= i < v.len(),
    ensures
        has_name(v, names_of(v)[i]),
        lookup(v, names_of(v)[i]) == v[i],
{
    assert(names_of(v)[i] == v[i].name);
    let j = choose|j: int| 0 <= j < v.len() && (#[trigger] v[j]).name == v[i].name;
}

/// The built-in shaders, in the order in which they are registered.
pub open spec fn builtin_entries() -> Seq<ShaderEntryView> {
    seq![
        ShaderEntryView { name: "fractal"@, source: FRACTAL_WGSL@, description: "Infinite space-folding fractal cosmos"@, path: "assets/shaders/fractal.wgsl"@ },
        ShaderEntryView { name: "hypnotic"@, source: HYPNOTIC_WGSL@, description: "Concentric rings, spirals, Moire interference"@, path: "assets/shaders/warp_tunnel.wgsl"@ },
        ShaderEntryView { name: "voronoi"@, source: VORONOI_WGSL@, description: "Organic animated Voronoi cellular patterns"@, path: "assets/shaders/voronoi.wgsl"@ },
        ShaderEntryView { name: "kaleidoscope"@, source: KALEIDOSCOPE_WGSL@, description: "Mirror folds over smooth layered noise"@, path: "assets/shaders/kaleidoscope.wgsl"@ },
        ShaderEntryView { name: "neural"@, source: NEURAL_WGSL@, description: "Organic domain-warped flowing patterns"@, path: "assets/shaders/reaction_diffusion.wgsl"@ },
        ShaderEntryView { name: "strobe"@, source: STROBE_WGSL@, description: "EPILEPTIC WARNING - aggressive beat-synced geometric flash"@, path: "assets/shaders/strobe.wgsl"@ },
        ShaderEntryView { name: "geometry"@, source: GEOMETRY_WGSL@, description: "Raymarched sacred geometry SDF with iridescent sheen"@, path: "assets/shaders/sdf_geometry.wgsl"@ },
        ShaderEntryView { name: "nebula"@, source: NEBULA_WGSL@, description: "Deep space gas clouds with volumetric layering"@, path: "assets/shaders/nebula.wgsl"@ },
        ShaderEntryView { name: "electric"@, source: ELECTRIC_WGSL@, description: "Lightning bolts and plasma arcs"@, path: "assets/shaders/electric.wgsl"@ },
        ShaderEntryView { name: "liquid"@, source: LIQUID_WGSL@, description: "Flowing metallic fluid with domain warping"@, path: "assets/shaders/liquid.wgsl"@ },
    ]
}

/// Registers the entries of `es` one after the other.
pub open spec fn register_all(v: Seq<ShaderEntryView>, es: Seq<ShaderEntryView>) -> Seq<ShaderEntryView>
    decreases es.len(),
{
    if es.len() == 0 {
        v
    } else {
        spec_register(register_all(v, es.drop_last()), es.last())
    }
}

/// The built-in shader names are distinct.
pub proof fn builtin_names_unique()
    ensures
        names_unique(builtin_entries()),
{
    reveal_strlit("fractal");
    reveal_strlit("hypnotic");
    reveal_strlit("voronoi");
    reveal_strlit("kaleidoscope");
    reveal_strlit("neural");
    reveal_strlit("strobe");
    reveal_strlit("geometry");
    reveal_strlit("nebula");
    reveal_strlit("electric");
    reveal_strlit("liquid");
    let v = builtin_entries();
    assert forall|i: int, j: int|
        0 <= i < v.len() && 0 <= j < v.len() && i != j implies (#[trigger] v[i]).name != (#[trigger] v[j]).name by {
        if v[i].name == v[j].name {
            assert(v[i].name.len() == v[j].name.len());
            assert(v[i].name[0] == v[j].name[0]);
            assert(v[i].name[2] == v[j].name[2]);
        }
    }
}

/// Registering entries whose names are distinct and new appends them.
proof fn lemma_register_all_fresh(v: Seq<ShaderEntryView>, es: Seq<ShaderEntryView>)
    requires
        names_unique(es),
        forall|i: int| 0 <= i < es.len() ==> !has_name(v, (#[trigger] es[i]).name),
    ensures
        register_all(v, es) == v + es,
    decreases es.len(),
{
    if es.len() > 0 {
        let init = es.drop_last();
        assert forall|i: int, j: int|
            0 <= i < init.len() && 0 <= j < init.len() && i != j implies (#[trigger] init[i]).name != (#[trigger] init[j]).name by {
            assert(init[i] == es[i]);
            assert(init[j] == es[j]);
        }
        lemma_register_all_fresh(v, init);
        let e = es.last();
        if has_name(v + init, e.name) {
            let k = choose|k: int| 0 <= k < (v + init).len() && (#[trigger] (v + init)[k]).name == e.name;
            if k < v.len() {
                assert((v + init)[k] == v[k]);
            } else {
                assert((v + init)[k] == es[k - v.len()]);
                assert(es[es.len() - 1] == e);
            }
        }
        assert((v + init).push(e) =~= v + es);
    } else {
        assert(v + es =~= v);
    }
}

/// The distinct names of `ns`, in the order of their first occurrence.
pub open spec fn first_occurrences(ns: Seq<Seq<char>>) -> Seq<Seq<char>>
    decreases ns.len(),
{
    if ns.len() == 0 {
        Seq::empty()
    } else {
        let r = first_occurrences(ns.drop_last());
        if r.contains(ns.last()) {
            r
        } else {
            r.push(ns.last())
        }
    }
}

/// A name is registered exactly when the registry lists it.
pub proof fn lemma_has_name_listed(v: Seq<ShaderEntryView>, n: Seq<char>)
    ensures
        has_name(v, n) <==> names_of(v).contains(n),
{
    if has_name(v, n) {
        let i = choose|i: int| 0 <= i < v.len() && (#[trigger] v[i]).name == n;
        assert(names_of(v)[i] == n);
    }
    if names_of(v).contains(n) {
        let i = choose|i: int| 0 <= i < names_of(v).len() && names_of(v)[i] == n;
        assert(v[i].name == n);
    }
}

/// Registering keeps the listed names when the name is known, and appends it
/// otherwise.
proof fn lemma_names_after_register(v: Seq<ShaderEntryView>, e: ShaderEntryView)
    ensures
        names_of(spec_register(v, e)) == if has_name(v, e.name) {
            names_of(v)
        } else {
            names_of(v).push(e.name)
        },
{
    assert(names_of(spec_register(v, e)) =~= if has_name(v, e.name) {
        names_of(v)
    } else {
        names_of(v).push(e.name)
    });
}

/// Registering `a` and then `b` is registering `a` followed by `b`: a run of
/// `register` and `load_builtins` calls registers the concatenation of what
/// each call registers.
pub proof fn register_all_concat(v: Seq<ShaderEntryView>, a: Seq<ShaderEntryView>, b: Seq<ShaderEntryView>)
    ensures
        register_all(register_all(v, a), b) == register_all(v, a + b),
    decreases b.len(),
{
    if b.len() == 0 {
        assert(a + b =~= a);
    } else {
        register_all_concat(v, a, b.drop_last());
        assert((a + b).drop_last() =~= a + b.drop_last());
        assert((a + b).last() == b.last());
    }
}

/// `register` is `register_all` of the one entry.
pub proof fn register_is_register_all(v: Seq<ShaderEntryView>, e: ShaderEntryView)
    ensures
        spec_register(v, e) == register_all(v, seq![e]),
{
    let one = seq![e];
    assert(one.drop_last() =~= Seq::<ShaderEntryView>::empty());
    assert(one.last() == e);
    assert(register_all(v, one.drop_last()) == v);
}

/// The law of the registry's order: starting from an empty registry, after
/// registering the entries `es` (names may repeat), the registry lists each
/// distinct name once, in the order of its first registration; a name is
/// registered exactly when it is listed; and no two entries share a name.
pub proof fn registry_names_first_registered(es: Seq<ShaderEntryView>)
    ensures
        names_of(register_all(Seq::empty(), es)) == first_occurrences(names_of(es)),
        names_of(register_all(Seq::empty(), es)).no_duplicates(),
        names_unique(register_all(Seq::empty(), es)),
        forall|n: Seq<char>|
            has_name(register_all(Seq::empty(), es), n) <==> #[trigger] first_occurrences(
                names_of(es),
            ).contains(n),
    decreases es.len(),
{
    let v = register_all(Seq::<ShaderEntryView>::empty(), es);
    if es.len() == 0 {
        assert(names_of(v) =~= Seq::<Seq<char>>::empty());
        assert(names_of(es) =~= Seq::<Seq<char>>::empty());
    } else {
        let init = es.drop_last();
        let e = es.last();
        let w = register_all(Seq::<ShaderEntryView>::empty(), init);
        registry_names_first_registered(init);
        assert(names_of(es).drop_last() =~= names_of(init));
        assert(names_of(es).last() == e.name);
        lemma_has_name_listed(w, e.name);
        lemma_names_after_register(w, e);
        registry_lookup_after_register(w, e);
        assert forall|n: Seq<char>|
            has_name(v, n) <==> #[trigger] first_occurrences(names_of(es)).contains(n) by {
            lemma_has_name_listed(v, n);
        }
    }
    assert forall|i: int, j: int|
        0 <= i < names_of(v).len() && 0 <= j < names_of(v).len() && i != j implies names_of(v)[i]
        != names_of(v)[j] by {
        assert(v[i].name != v[j].name);
    }
}

/// Shaders by name, remembering the order in which they were first
/// registered.
pub struct ShaderRegistry {
    entries: Vec<ShaderEntry>,
    order: Vec<String>,
}

impl ShaderRegistry {
    /// The registered entries, in registration order.
    pub closed spec fn view(&self) -> Seq<ShaderEntryView> {
        self.entries@.map_values(|e: ShaderEntry| entry_view(e))
    }

    pub closed spec fn wf(&self) -> bool {
        &&& self.entries@.len() == self.order@.len()
        &&& forall|i: int| 0 <= i < self.order@.len() ==> (#[trigger] self.order@[i])@ == self.entries@[i].name@
        &&& names_unique(self.view())
    }

    /// A well-formed registry never holds two entries of one name.
    pub proof fn lemma_names_unique(&self)
        requires
            self.wf(),
        ensures
            names_unique(self.view()),
    {
    }

    pub fn new() -> (reg: Self)
        ensures
            reg.wf(),
            reg.view() == Seq::<ShaderEntryView>::empty(),
    {
        let reg = ShaderRegistry { entries: Vec::new(), order: Vec::new() };
        assert(reg.view() =~= Seq::<ShaderEntryView>::empty());
        reg
    }

    /// The position of `name` in registration order, if registered.
    fn position(&self, name: &String) -> (r: Option<usize>)
        requires
            self.wf(),
        ensures
            match r {
                Some(i) => i < self.view().len() && self.view()[i as int].name == name@,
                None => !has_name(self.view(), name@),
            },
    {
        let n = self.order.len();
        let mut i: usize = 0;
        while i < n
            invariant
                self.wf(),
                n == self.order@.len(),
                i <= n,
                forall|k: int| 0 <= k < i ==> self.view()[k].name != name@,
            decreases n - i,
        {
            if self.order[i] == *name {
                return Some(i);
            }
            i = i + 1;
        }
        assert forall|k: int| 0 <= k < self.view().len() implies (#[trigger] self.view()[k]).name != name@ by {}
        None
    }

    /// Registers a shader. Registering a name again replaces its entry and
    /// keeps its place in the order.
    pub fn register(&mut self, name: &str, source: &str, description: &str, path: &str)
        requires
            old(self).wf(),
        ensures
            final(self).wf(),
            final(self).view() == spec_register(
                old(self).view(),
                ShaderEntryView { name: name@, source: source@, description: description@, path: path@ },
            ),
    {
        let ghost e = ShaderEntryView { name: name@, source: source@, description: description@, path: path@ };
        let key = name.to_owned();
        let entry = ShaderEntry {
            name: name.to_owned(),
            source: source.to_owned(),
            description: description.to_owned(),
            path: path.to_owned(),
        };
        assert(entry_view(entry) == e);
        match self.position(&key) {
            Some(i) => {
                let ghost old_view = self.view();
                self.entries.set(i, entry);
                proof {
                    assert forall|k: int| 0 <= k < old_view.len() && k != i implies old_view[k].name != e.name by {
                        assert(names_unique(old_view));
                    }
                    assert(self.view() =~= spec_register(old_view, e));
                }
            },
            None => {
                let ghost old_view = self.view();
                self.entries.push(entry);
                self.order.push(key);
                proof {
                    assert(self.view() =~= old_view.push(e));
                    assert forall|a: int, b: int|
                        0 <= a < self.view().len() && 0 <= b < self.view().len() && a != b
                        implies (#[trigger] self.view()[a]).name != (#[trigger] self.view()[b]).name by {
                        if a < old_view.len() && b < old_view.len() {
                            assert(self.view()[a] == old_view[a]);
                            assert(self.view()[b] == old_view[b]);
                        } else if a < old_view.len() {
                            assert(self.view()[a] == old_view[a]);
                        } else {
                            assert(self.view()[b] == old_view[b]);
                        }
                    }
                }
            },
        }
    }

    /// Registers the built-in shaders.
    pub fn load_builtins(&mut self)
        requires
            old(self).wf(),
        ensures
            final(self).wf(),
            final(self).view() == register_all(old(self).view(), builtin_entries()),
    {
        let ghost v0 = self.view();
        self.register("fractal", FRACTAL_WGSL,
            "Infinite space-folding fractal cosmos", "assets/shaders/fractal.wgsl");
        self.register("hypnotic", HYPNOTIC_WGSL,
            "Concentric rings, spirals, Moire interference", "assets/shaders/warp_tunnel.wgsl");
        self.register("voronoi", VORONOI_WGSL,
            "Organic animated Voronoi cellular patterns", "assets/shaders/voronoi.wgsl");
        self.register("kaleidoscope", KALEIDOSCOPE_WGSL,
            "Mirror folds over smooth layered noise", "assets/shaders/kaleidoscope.wgsl");
        self.register("neural", NEURAL_WGSL,
            "Organic domain-warped flowing patterns", "assets/shaders/reaction_diffusion.wgsl");
        self.register("strobe", STROBE_WGSL,
            "EPILEPTIC WARNING - aggressive beat-synced geometric flash", "assets/shaders/strobe.wgsl");
        self.register("geometry", GEOMETRY_WGSL,
            "Raymarched sacred geometry SDF with iridescent sheen", "assets/shaders/sdf_geometry.wgsl");
        self.register("nebula", NEBULA_WGSL,
            "Deep space gas clouds with volumetric layering", "assets/shaders/nebula.wgsl");
        self.register("electric", ELECTRIC_WGSL,
            "Lightning bolts and plasma arcs", "assets/shaders/electric.wgsl");
        self.register("liquid", LIQUID_WGSL,
            "Flowing metallic fluid with domain warping", "assets/shaders/liquid.wgsl");
        proof {
            let es = builtin_entries();
            reveal_with_fuel(register_all, 11);
            assert(es =~= es.take(10));
            assert forall|k: int| 1 <= k <= 10 implies #[trigger] es.take(k).drop_last() =~= es.take(k - 1) by {}
            assert(es.take(0) =~= Seq::<ShaderEntryView>::empty());
        }
    }

    pub fn get(&self, name: &str) -> (r: Option<&ShaderEntry>)
        requires
            self.wf(),
        ensures
            r is Some <==> has_name(self.view(), name@),
            r matches Some(e) ==> entry_view(*e) == lookup(self.view(), name@),
    {
        let key = name.to_owned();
        match self.position(&key) {
            Some(i) => {
                proof {
                    let v = self.view();
                    let j = choose|j: int| 0 <= j < v.len() && (#[trigger] v[j]).name == name@;
                    assert(names_unique(v));
                    assert(j == i);
                }
                Some(&self.entries[i])
            },
            None => None,
        }
    }

    /// names in registration order.
    pub fn names(&self) -> (r: &[String])
        requires
            self.wf(),
        ensures
            r@.map_values(|s: String| s@) == names_of(self.view()),
    {
        assert(self.order@.map_values(|s: String| s@) =~= names_of(self.view()));
        self.order.as_slice()
    }

    pub fn len(&self) -> (n: usize)
        requires
            self.wf(),
        ensures
            n == self.view().len(),
    {
        self.entries.len()
    }

    pub fn is_empty(&self) -> (b: bool)
        requires
            self.wf(),
        ensures
            b == (self.view().len() == 0),
    {
        self.entries.len() == 0
    }
}

impl Default for ShaderRegistry {
    /// A registry holding the built-in shaders, in order.
    fn default() -> (reg: Self)
        ensures
            reg.wf(),
            reg.view() == builtin_entries(),
    {
        let mut reg = ShaderRegistry::new();
        reg.load_builtins();
        proof {
            builtin_names_unique();
            lemma_register_all_fresh(Seq::<ShaderEntryView>::empty(), builtin_entries());
            assert(Seq::<ShaderEntryView>::empty() + builtin_entries() =~= builtin_entries());
        }
        reg
    }
}

} // verus!
