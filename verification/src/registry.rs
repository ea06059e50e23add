//! Registry of registered engine drivers, addressable by engine id.
//!
//! The registry does not look into its drivers: it keeps what each says of
//! itself beside it.
use vstd::prelude::*;

use crate::keyed::KeyedMap;
use crate::text::split_on;
use crate::value::{Json, Value};

verus! {

/// Metadata describing a registered engine.
#[derive(Debug, Clone)]
pub struct EngineMetadata {
    /// Plugin package name, e.g. `dbgate-plugin-mysql`.
    pub name: String,
    /// Human-readable engine title, e.g. "MySQL".
    pub display_name: String,
    /// Dotted engine id, e.g. `mysql@dbgate-plugin-mysql`.
    pub engine: String,
    /// Default TCP port for the engine, if any.
    pub default_port: Option<u32>,
    /// Engine family (the part before `@`), e.g. `mysql`.
    pub database_engine: String,
    /// Reserved for driver icons; always an empty object.
    pub icons: Value,
}

/// What an [`EngineMetadata`] holds.
pub struct EngineMetadataView {
    pub name: Seq<char>,
    pub display_name: Seq<char>,
    pub engine: Seq<char>,
    pub default_port: Option<u32>,
    pub database_engine: Seq<char>,
    pub icons: Json,
}

impl DeepView for EngineMetadata {
    type V = EngineMetadataView;

    open spec fn deep_view(&self) -> EngineMetadataView {
        EngineMetadataView {
            name: self.name@,
            display_name: self.display_name@,
            engine: self.engine@,
            default_port: self.default_port,
            database_engine: self.database_engine@,
            icons: self.icons@,
        }
    }
}

/// The plugin package in an engine id: what stands behind the first `@`, up to
/// the next, or the whole id where there is no `@`.
pub open spec fn plugin_of(engine: Seq<char>) -> Seq<char> {
    let parts = crate::text::split(engine, '@');
    if parts.len() > 1 {
        parts[1]
    } else {
        engine
    }
}

/// The family in an engine id: what stands before the first `@`.
pub open spec fn family_of(engine: Seq<char>) -> Seq<char> {
    crate::text::split(engine, '@')[0]
}

/// The plugin package name from an engine id (`mysql@dbgate-plugin-mysql` ->
/// `dbgate-plugin-mysql`).
pub fn plugin_name(engine: &str) -> (r: String)
    ensures
        r@ == plugin_of(engine@),
{
    let parts = split_on(engine, '@');
    if parts.len() > 1 {
        assert(crate::text::texts(parts@)[1] == parts@[1]@);
        parts[1].clone()
    } else {
        engine.to_owned()
    }
}

/// The engine family from an engine id (`mysql@dbgate-plugin-mysql` -> `mysql`).
pub fn database_engine(engine: &str) -> (r: String)
    ensures
        r@ == family_of(engine@),
{
    let parts = split_on(engine, '@');
    assert(crate::text::texts(parts@)[0] == parts@[0]@);
    parts[0].clone()
}

/// An engine id is its family and its plugin with an `@` between them.
pub proof fn law_engine_id(family: Seq<char>, plugin: Seq<char>)
    requires
        !family.contains('@'),
        !plugin.contains('@'),
    ensures
        family_of(family + seq!['@'] + plugin) == family,
        plugin_of(family + seq!['@'] + plugin) == plugin,
{
    crate::text::law_split_two(family, plugin, '@');
}

/// A driver with what it says of itself.
pub struct RegisteredDriver<D> {
    pub title: String,
    pub default_port: Option<u32>,
    pub driver: D,
}

/// Registry of drivers.
pub struct DriverRegistry<D> {
    by_engine: KeyedMap<RegisteredDriver<D>>,
}

impl<D> View for DriverRegistry<D> {
    type V = Map<Seq<char>, RegisteredDriver<D>>;

    closed spec fn view(&self) -> Map<Seq<char>, RegisteredDriver<D>> {
        self.by_engine@
    }
}

/// The metadata of the engine with the given id.
pub open spec fn metadata_of<D>(engine: Seq<char>, d: RegisteredDriver<D>) -> EngineMetadataView {
    EngineMetadataView {
        name: plugin_of(engine),
        display_name: d.title@,
        engine,
        default_port: d.default_port,
        database_engine: family_of(engine),
        icons: Json::Object(Seq::empty()),
    }
}

/// The engine ids of some metadata.
pub open spec fn engines_in(list: Seq<EngineMetadataView>) -> Seq<Seq<char>> {
    Seq::new(list.len(), |i: int| list[i].engine)
}

impl<D> Default for DriverRegistry<D> {
    fn default() -> (r: Self)
        ensures
            r@ == Map::<Seq<char>, RegisteredDriver<D>>::empty(),
    {
        DriverRegistry::new()
    }
}

impl<D> DriverRegistry<D> {
    pub fn new() -> (r: Self)
        ensures
            r@ == Map::<Seq<char>, RegisteredDriver<D>>::empty(),
    {
        DriverRegistry { by_engine: KeyedMap::new() }
    }

    /// Registers a driver under its engine id, in place of one that had it.
    pub fn register(&mut self, engine: String, driver: RegisteredDriver<D>)
        ensures
            final(self)@ == old(self)@.insert(engine@, driver),
    {
        self.by_engine.insert(engine, driver);
    }

    pub fn get(&self, engine: &str) -> (r: Option<&D>)
        ensures
            match r {
                Some(d) => self@.dom().contains(engine@) && *d == self@[engine@].driver,
                None => !self@.dom().contains(engine@),
            },
    {
        match self.by_engine.get(engine) {
            Some(d) => Some(&d.driver),
            None => None,
        }
    }

    /// The registered ids, in ascending order.
    pub fn engine_ids(&self) -> (r: Vec<String>)
        ensures
            crate::keyed::ascending(r.deep_view()),
            forall|k: Seq<char>| #[trigger] self@.dom().contains(k) <==> r.deep_view().contains(k),
    {
        self.by_engine.keys()
    }

    pub fn len(&self) -> (r: usize)
        ensures
            self@.dom().finite(),
            r == self@.dom().len(),
    {
        self.by_engine.len()
    }

    pub fn is_empty(&self) -> (r: bool)
        ensures
            r == (self@.dom() == Set::<Seq<char>>::empty()),
    {
        self.by_engine.is_empty()
    }

    /// Metadata for every registered engine, sorted by engine id.
    pub fn list_metadata(&self) -> (r: Vec<EngineMetadata>)
        ensures
            crate::keyed::ascending(engines_in(r.deep_view())),
            forall|k: Seq<char>| #[trigger]
                self@.dom().contains(k) <==> engines_in(r.deep_view()).contains(k),
            forall|i: int|
                0 <= i < r@.len() ==> #[trigger] r.deep_view()[i] == metadata_of(
                    r.deep_view()[i].engine,
                    self@[r.deep_view()[i].engine],
                ),
    {
        let ids = self.by_engine.keys();
        let ghost names = ids.deep_view();
        let mut out: Vec<EngineMetadata> = Vec::new();
        let mut i: usize = 0;
        while i < ids.len()
            invariant
                i <= ids@.len(),
                names == ids.deep_view(),
                forall|k: Seq<char>| #[trigger] self@.dom().contains(k) <==> names.contains(k),
                out@.len() == i,
                forall|j: int|
                    0 <= j < i ==> (#[trigger] out@[j]).deep_view() == metadata_of(
                        names[j],
                        self@[names[j]],
                    ),
            decreases ids@.len() - i,
        {
            let engine = &ids[i];
            assert(names[i as int] == engine@);
            assert(names.contains(engine@));
            assert(self@.dom().contains(engine@));
            if let Some(d) = self.by_engine.get(engine.as_str()) {
                let none: Vec<(String, Value)> = Vec::new();
                let icons = Value::Object(none);
                proof {
                    crate::value::lemma_compound_views(icons);
                    assert(crate::value::entries(none@) =~= Seq::empty());
                }
                out.push(
                    EngineMetadata {
                        name: plugin_name(engine.as_str()),
                        display_name: d.title.clone(),
                        engine: engine.clone(),
                        default_port: d.default_port,
                        database_engine: database_engine(engine.as_str()),
                        icons,
                    },
                );
            }
            i = i + 1;
        }
        assert(engines_in(out.deep_view()) =~= names);
        out
    }
}

/// What is registered last under an id is what the id gives; every other id
/// gives what it gave before.
pub proof fn law_register<D>(
    registry: Map<Seq<char>, RegisteredDriver<D>>,
    engine: Seq<char>,
    driver: RegisteredDriver<D>,
    other: Seq<char>,
)
    ensures
        registry.insert(engine, driver)[engine] == driver,
        other != engine ==> registry.insert(engine, driver).dom().contains(other)
            == registry.dom().contains(other),
        other != engine && registry.dom().contains(other) ==> registry.insert(
            engine,
            driver,
        )[other] == registry[other],
{
}

// ---------------------------------------------------------------------------
// Laws
// ---------------------------------------------------------------------------

/// An engine is listed under its plugin and its family, with the title and the port of its
/// driver. An id without an `@` is its own plugin and its own family.
pub proof fn law_metadata<D>(family: Seq<char>, plugin: Seq<char>, d: RegisteredDriver<D>)
    requires
        !family.contains('@'),
        !plugin.contains('@'),
    ensures
        ({
            let m = metadata_of(family + seq!['@'] + plugin, d);
            &&& m.name == plugin
            &&& m.database_engine == family
            &&& m.engine == family + seq!['@'] + plugin
            &&& m.display_name == d.title@
            &&& m.default_port == d.default_port
            &&& m.icons == Json::Object(Seq::empty())
        }),
        plugin_of(family) == family,
        family_of(family) == family,
{
    law_engine_id(family, plugin);
    let none = Seq::<char>::empty();
    crate::text::law_split_append(none, family, '@');
    crate::text::law_split_join(none, '@');
    assert(none + family =~= family);
    assert(crate::text::split(none, '@') =~= seq![none]);
    assert(crate::text::split(family, '@') =~= seq![family]);
}

} // verus!
