use vstd::prelude::*;
use vstd::string::*;

use crate::document::{member, str_eq, Document, Value};
use crate::error::{ErrorKind, IslandError, IslandResult};
use crate::log::IslandLogger;
use crate::render::{field, str_of};

verus! {

/// How a texture is sampled.
#[derive(Clone, Copy, Debug, PartialEq, Eq, Structural)]
pub enum TextureFilter {
    Linear,
    Nearest,
}

/// The filter an asset descriptor names; an unknown name means `Nearest`.
pub open spec fn filter_named(name: Seq<char>) -> TextureFilter {
    if name == "linear"@ {
        TextureFilter::Linear
    } else {
        TextureFilter::Nearest
    }
}

/// One sprite an asset descriptor asks to load.
#[derive(Debug, PartialEq)]
pub struct SpriteRequest {
    pub name: String,
    pub path: String,
    pub filter: TextureFilter,
    /// Whether the descriptor named a filter this engine knows.
    pub filter_known: bool,
}

/// The model of a sprite request.
pub open spec fn request_model(r: SpriteRequest) -> (Seq<char>, Seq<char>, TextureFilter, bool) {
    (r.name@, r.path@, r.filter, r.filter_known)
}

/// The request a sprite descriptor makes: it needs a name, a path and a
/// filter, all text; otherwise it asks for nothing.
pub open spec fn request_of(d: Value) -> Option<(Seq<char>, Seq<char>, TextureFilter, bool)> {
    let d = Some(d);
    match (str_of(field(d, "name"@)), str_of(field(d, "path"@)), str_of(field(d, "filter"@))) {
        (Some(n), Some(p), Some(f)) => Some(
            (n, p, filter_named(f), f == "linear"@ || f == "nearest"@),
        ),
        _ => None,
    }
}

/// The requests of a list of sprite descriptors, in order.
pub open spec fn request_plan(ds: Seq<Value>) -> Seq<(Seq<char>, Seq<char>, TextureFilter, bool)>
    decreases ds.len(),
{
    if ds.len() == 0 {
        Seq::empty()
    } else {
        match request_of(ds.last()) {
            Some(r) => request_plan(ds.drop_last()).push(r),
            None => request_plan(ds.drop_last()),
        }
    }
}

fn text_member(d: &Document, key: &str) -> (r: Option<String>)
    ensures
        match r {
            Some(s) => str_of(member(d.model(), key@)) == Some(s@),
            None => str_of(member(d.model(), key@)) is None,
        },
{
    match d.get(key) {
        Some(Document::Text(s)) => Some(s.clone()),
        _ => None,
    }
}

/// The sprites an asset descriptor asks for, from its `sprites` list, in
/// order. Entries without a name, path and filter are skipped.
pub fn sprite_requests(descriptor: &Document) -> (r: Vec<SpriteRequest>)
    ensures
        r@.map_values(|q: SpriteRequest| request_model(q)) == match member(
            descriptor.model(),
            "sprites"@,
        ) {
            Some(Value::Arr(ds)) => request_plan(ds),
            _ => Seq::empty(),
        },
{
    let mut out: Vec<SpriteRequest> = Vec::new();
    proof {
        reveal_strlit("linear");
        reveal_strlit("nearest");
    }
    match descriptor.get("sprites") {
        Some(Document::Array(items)) => {
            let ghost ds = member(descriptor.model(), "sprites"@)->Some_0->Arr_0;
            let mut i: usize = 0;
            while i < items.len()
                invariant
                    ds.len() == items@.len(),
                    forall|j: int| 0 <= j < items@.len() ==> ds[j] == #[trigger] items@[j].model(),
                    i <= items.len(),
                    out@.map_values(|q: SpriteRequest| request_model(q)) == request_plan(
                        ds.subrange(0, i as int),
                    ),
                decreases items.len() - i,
            {
                assert(ds.subrange(0, i + 1).drop_last() =~= ds.subrange(0, i as int));
                assert(ds.subrange(0, i + 1).last() == items@[i as int].model());
                let d = &items[i];
                match (text_member(d, "name"), text_member(d, "path"), text_member(d, "filter")) {
                    (Some(name), Some(path), Some(filter)) => {
                        let linear = str_eq(filter.as_str(), "linear");
                        let nearest = str_eq(filter.as_str(), "nearest");
                        let q = SpriteRequest {
                            name,
                            path,
                            filter: if linear {
                                TextureFilter::Linear
                            } else {
                                TextureFilter::Nearest
                            },
                            filter_known: linear || nearest,
                        };
                        let ghost before = out@;
                        let ghost qm = request_model(q);
                        out.push(q);
                        assert(out@.map_values(|q: SpriteRequest| request_model(q)) =~= before.map_values(
                            |q: SpriteRequest| request_model(q),
                        ).push(qm));
                    },
                    _ => {},
                }
                i = i + 1;
            }
            assert(ds.subrange(0, items@.len() as int) =~= ds);
            out
        },
        _ => {
            assert(out@.map_values(|q: SpriteRequest| request_model(q)) =~= Seq::<
                (Seq<char>, Seq<char>, TextureFilter, bool),
            >::empty());
            out
        },
    }
}

/// The names a sprite map holds, each with its texture handle.
pub uninterp spec fn sprite_entries(m: SpriteMap) -> Map<Seq<char>, usize>;

/// Sprite names and their texture handles. Relies on
/// `hashbrown::HashMap<String, usize>`, hidden from Verus; what it holds is
/// `sprite_entries`.
#[verifier::external_body]
pub struct SpriteMap {
    map: hashbrown::HashMap<String, usize>,
}

impl SpriteMap {
    /// Relies on hashbrown's `HashMap::new`: the map starts empty.
    #[verifier::external_body]
    fn new() -> (empty: SpriteMap)
        ensures
            sprite_entries(empty).dom() == Set::<Seq<char>>::empty(),
    {
        SpriteMap { map: hashbrown::HashMap::new() }
    }

    /// Relies on hashbrown's `HashMap::insert`: the name maps to the handle
    /// afterwards, replacing what it held; other names are untouched.
    #[verifier::external_body]
    fn insert(&mut self, name: String, handle: usize)
        ensures
            sprite_entries(*final(self)) == sprite_entries(*old(self)).insert(name@, handle),
    {
        self.map.insert(name, handle);
    }

    /// Relies on hashbrown's `HashMap::get`: the handle stored under the
    /// name, if there is one.
    #[verifier::external_body]
    fn get(&self, name: &str) -> (r: Option<usize>)
        ensures
            r == (if sprite_entries(*self).contains_key(name@) {
                Some(sprite_entries(*self)[name@])
            } else {
                None
            }),
    {
        self.map.get(name).copied()
    }
}

/// The name of the sprite that stands in for any name not loaded.
pub open spec fn default_sprite_name() -> Seq<char> {
    "default_sprite"@
}

/// The entries of a store that starts with the default sprite and then
/// takes, in order, each name with its handle.
pub open spec fn loaded_entries(default: usize, names: Seq<Seq<char>>, handles: Seq<usize>) -> Map<
    Seq<char>,
    usize,
>
    decreases names.len(),
{
    if names.len() == 0 || handles.len() != names.len() {
        Map::empty().insert(default_sprite_name(), default)
    } else {
        loaded_entries(default, names.drop_last(), handles.drop_last()).insert(
            names.last(),
            handles.last(),
        )
    }
}

/// Named texture handles. A `default_sprite` entry is always there, and a
/// name that is not stands for it.
pub struct AssetStore {
    sprites: SpriteMap,
}

impl AssetStore {
    /// The names held, each with its handle.
    pub closed spec fn entries(&self) -> Map<Seq<char>, usize> {
        sprite_entries(self.sprites)
    }

    /// The store holds the default sprite.
    pub open spec fn wf(&self) -> bool {
        self.entries().contains_key(default_sprite_name())
    }

    /// A store holding only the default sprite, with the given handle.
    pub fn new(default: usize) -> (r: Self)
        ensures
            r.entries() == Map::<Seq<char>, usize>::empty().insert(default_sprite_name(), default),
            r.wf(),
    {
        let mut sprites = SpriteMap::new();
        sprites.insert(String::from_str("default_sprite"), default);
        let r = AssetStore { sprites };
        assert(r.entries() =~= Map::<Seq<char>, usize>::empty().insert(default_sprite_name(), default));
        r
    }

    /// Store a handle under a name, replacing what the name held.
    pub fn insert(&mut self, name: String, handle: usize)
        requires
            old(self).wf(),
        ensures
            final(self).entries() == old(self).entries().insert(name@, handle),
            final(self).wf(),
    {
        self.sprites.insert(name, handle);
    }

    /// The handle stored under a name. A name that is not there gives the
    /// default sprite's handle and logs an error.
    pub fn get(&self, name: &str, logger: &mut IslandLogger) -> (r: usize)
        requires
            self.wf(),
        ensures
            r == (if self.entries().contains_key(name@) {
                self.entries()[name@]
            } else {
                self.entries()[default_sprite_name()]
            }),
            final(logger).text() == old(logger).text() + (if self.entries().contains_key(name@) {
                Seq::<char>::empty()
            } else {
                "[ERROR]: "@ + ("No such sprite: "@ + name@) + "\n"@
            }),
    {
        match self.sprites.get(name) {
            Some(h) => {
                assert(logger.text() =~= old(logger).text() + Seq::<char>::empty());
                h
            },
            None => {
                let line = String::from_str("No such sprite: ").concat(name);
                logger.error(line.as_str());
                proof {
                    reveal_strlit("default_sprite");
                }
                match self.sprites.get("default_sprite") {
                    Some(h) => h,
                    None => 0,
                }
            },
        }
    }
}

impl AssetStore {
    /// The store for an asset descriptor's sprite requests, once loaded:
    /// `handles` gives each request's handle, in order. It holds the default
    /// sprite and every requested name; a later request of the same name
    /// replaces an earlier one. Fails when there is not one handle per
    /// request.
    pub fn from_requests(default: usize, requests: &Vec<SpriteRequest>, handles: &Vec<usize>) -> (r:
        IslandResult<AssetStore>)
        ensures
            r is Ok <==> requests@.len() == handles@.len(),
            r matches Ok(store) ==> store.wf() && store.entries() == loaded_entries(
                default,
                requests@.map_values(|q: SpriteRequest| q.name@),
                handles@,
            ),
    {
        if requests.len() != handles.len() {
            return Err(
                IslandError::new(ErrorKind::Validation, String::from_str("one handle is needed per sprite request")),
            );
        }
        let ghost names = requests@.map_values(|q: SpriteRequest| q.name@);
        let mut store = AssetStore::new(default);
        let n = requests.len();
        let mut i: usize = 0;
        assert(names.subrange(0, 0).len() == 0);
        while i < n
            invariant
                n == requests@.len(),
                n == handles@.len(),
                names == requests@.map_values(|q: SpriteRequest| q.name@),
                i <= n,
                store.wf(),
                store.entries() == loaded_entries(default, names.subrange(0, i as int), handles@.subrange(0, i as int)),
            decreases n - i,
        {
            proof {
                assert(names.subrange(0, i + 1).drop_last() =~= names.subrange(0, i as int));
                assert(handles@.subrange(0, i + 1).drop_last() =~= handles@.subrange(0, i as int));
            }
            store.insert(requests[i].name.clone(), handles[i]);
            i = i + 1;
        }
        assert(names.subrange(0, n as int) =~= names);
        assert(handles@.subrange(0, n as int) =~= handles@);
        Ok(store)
    }
}

} // verus!
