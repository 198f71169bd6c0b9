//! The registry of composed shaders: one generated program per distinct
//! (SDF shader, fill shader) pair, created on first use and kept for the
//! rest of the run.
use vstd::prelude::*;
use std::collections::HashMap;
use crate::shader_id::{ShaderId, ShaderKey};
use crate::extract::SmudShape;

verus! {

/// aHash's `RandomState`, the hasher of the registry's map; opaque here.
#[verifier::external_type_specification]
#[verifier::external_body]
pub struct ExRandomState(ahash::RandomState);

/// The module that every composed shader imports first.
pub const VERTEX_SHADER_IMPORT: &'static str = "bevy_smud::vertex";
/// The module that every composed shader imports last.
pub const FRAGMENT_SHADER_IMPORT: &'static str = "bevy_smud::fragment";
/// The start of the import paths given to shaders that declare none.
pub const GENERATED_IMPORT_PREFIX: &'static str = "bevy_smud::generated::";
/// The directive that imports a module.
pub const IMPORT_DIRECTIVE: &'static str = "#import ";
pub const NEWLINE: &'static str = "\n";

/// A lowercase hexadecimal digit.
pub open spec fn is_lower_hex(c: char) -> bool {
    ('0' <= c && c <= '9') || ('a' <= c && c <= 'f')
}

/// The hyphenated lowercase text of a uuid: 36 characters, hyphens at 8, 13,
/// 18 and 23, lowercase hex digits elsewhere.
pub open spec fn is_hyphenated_uuid(s: Seq<char>) -> bool {
    &&& s.len() == 36
    &&& forall|i: int|
        0 <= i < 36 ==> if i == 8 || i == 13 || i == 18 || i == 23 {
            #[trigger] s[i] == '-'
        } else {
            is_lower_hex(s[i])
        }
}

/// An import path made for a shader that declared none: the generated prefix
/// followed by a fresh uuid.
pub open spec fn is_generated_path(p: Seq<char>) -> bool {
    &&& p.len() == GENERATED_IMPORT_PREFIX@.len() + 36
    &&& p.take(GENERATED_IMPORT_PREFIX@.len() as int) == GENERATED_IMPORT_PREFIX@
    &&& is_hyphenated_uuid(p.skip(GENERATED_IMPORT_PREFIX@.len() as int))
}

/// The line that imports module `path`.
pub open spec fn import_line(path: Seq<char>) -> Seq<char> {
    IMPORT_DIRECTIVE@ + path + NEWLINE@
}

/// The text of a composed shader: after a blank line, imports of the vertex
/// preamble, the SDF module, the fill module and the fragment preamble, in
/// that order.
pub open spec fn composite_source(sdf: Seq<char>, fill: Seq<char>) -> Seq<char> {
    NEWLINE@ + import_line(VERTEX_SHADER_IMPORT@) + import_line(sdf) + import_line(fill)
        + import_line(FRAGMENT_SHADER_IMPORT@)
}

/// Relies on uuid's `Uuid::new_v4`, a random version-4 id (it panics only
/// where the system gives no random bytes), and on `Uuid`'s `Display`, which
/// writes the hyphenated lowercase form.
#[verifier::external_body]
fn random_uuid_text() -> (r: String)
    ensures
        is_hyphenated_uuid(r@),
{
    uuid::Uuid::new_v4().to_string()
}

/// A shader asset as the registry sees it.
pub enum ShaderAsset {
    /// Not loaded yet.
    Loading,
    /// Loaded, with the custom import path it declares, if any.
    Loaded(Option<String>),
}

/// The import path under which a composed shader reaches a module.
pub struct ImportPath {
    pub path: String,
    /// The path was made here and must be given to the asset before the
    /// composed shader is compiled.
    pub generated: bool,
}

/// The path an asset is imported by: its own custom path, or a fresh
/// generated one.
pub open spec fn resolves(asset: ShaderAsset, p: ImportPath) -> bool {
    match asset {
        ShaderAsset::Loading => false,
        ShaderAsset::Loaded(Some(own)) => p.path@ == own@ && !p.generated,
        ShaderAsset::Loaded(None) => p.generated && is_generated_path(p.path@),
    }
}

pub open spec fn is_loaded(asset: ShaderAsset) -> bool {
    asset is Loaded
}

/// The import path of a loaded asset: its own custom path, or else a fresh
/// generated one.
pub fn resolve_import_path(own: &Option<String>) -> (p: ImportPath)
    ensures
        resolves(ShaderAsset::Loaded(*own), p),
{
    match own {
        Some(path) => ImportPath { path: path.clone(), generated: false },
        None => {
            let id = random_uuid_text();
            let mut path = String::from_str(GENERATED_IMPORT_PREFIX);
            path.append(id.as_str());
            proof {
                let prefix_len = GENERATED_IMPORT_PREFIX@.len() as int;
                assert(path@.take(prefix_len) =~= GENERATED_IMPORT_PREFIX@);
                assert(path@.skip(prefix_len) =~= id@);
            }
            ImportPath { path, generated: true }
        },
    }
}

/// A shader program composed of an SDF module and a fill module.
pub struct CompositeShader {
    pub sdf: ImportPath,
    pub fill: ImportPath,
}

fn push_import_line(source: &mut String, path: &str)
    ensures
        final(source)@ == old(source)@ + import_line(path@),
{
    source.append(IMPORT_DIRECTIVE);
    source.append(path);
    source.append(NEWLINE);
    assert(source@ =~= old(source)@ + import_line(path@));
}

impl CompositeShader {
    /// The shader source that links the two modules between the fixed
    /// vertex and fragment preambles.
    pub fn source(&self) -> (s: String)
        ensures
            s@ == composite_source(self.sdf.path@, self.fill.path@),
    {
        let mut s = String::from_str(NEWLINE);
        push_import_line(&mut s, VERTEX_SHADER_IMPORT);
        push_import_line(&mut s, self.sdf.path.as_str());
        push_import_line(&mut s, self.fill.path.as_str());
        push_import_line(&mut s, FRAGMENT_SHADER_IMPORT);
        assert(s@ =~= composite_source(self.sdf.path@, self.fill.path@));
        s
    }
}

/// What the registry answers for a shader pair.
pub enum ShaderRequest {
    /// The composed shader exists.
    Ready(ShaderId),
    /// One of the two modules is still loading; ask again on a later frame.
    NotReady,
    /// Both modules are loaded and the pair is new: compile this shader and
    /// register its handle.
    Compose(CompositeShader),
}

/// The kind of answer, without the composed shader's text.
pub enum RequestKind {
    Ready(ShaderId),
    NotReady,
    Compose,
}

/// The answer the registry owes for `key`, given its entries and the two
/// modules' states.
pub open spec fn expected_request(
    entries: Map<ShaderKey, ShaderId>,
    key: ShaderKey,
    sdf: ShaderAsset,
    fill: ShaderAsset,
) -> RequestKind {
    if entries.contains_key(key) {
        RequestKind::Ready(entries[key])
    } else if is_loaded(sdf) && is_loaded(fill) {
        RequestKind::Compose
    } else {
        RequestKind::NotReady
    }
}

pub open spec fn kind_of(r: ShaderRequest) -> RequestKind {
    match r {
        ShaderRequest::Ready(h) => RequestKind::Ready(h),
        ShaderRequest::NotReady => RequestKind::NotReady,
        ShaderRequest::Compose(_) => RequestKind::Compose,
    }
}

/// Relies on `HashMap::get` of a map keyed by `ShaderKey`, whose derived
/// `Hash` and `Eq` agree, under aHash's `RandomState`.
#[verifier::external_body]
fn map_get(map: &HashMap<ShaderKey, ShaderId, ahash::RandomState>, key: &ShaderKey) -> (r: Option<ShaderId>)
    ensures
        r == (if map@.contains_key(*key) { Some(map@[*key]) } else { None::<ShaderId> }),
{
    map.get(key).copied()
}

/// Relies on `HashMap::insert` of a map keyed by `ShaderKey`, whose derived
/// `Hash` and `Eq` agree, under aHash's `RandomState`.
#[verifier::external_body]
fn map_insert(map: &mut HashMap<ShaderKey, ShaderId, ahash::RandomState>, key: ShaderKey, value: ShaderId)
    ensures
        final(map)@ == old(map)@.insert(key, value),
{
    map.insert(key, value);
}

/// The composed shader of each registered pair.
pub struct ShapeShaders(pub HashMap<ShaderKey, ShaderId, ahash::RandomState>);

impl View for ShapeShaders {
    type V = Map<ShaderKey, ShaderId>;

    open spec fn view(&self) -> Map<ShaderKey, ShaderId> {
        self.0@
    }
}

impl ShapeShaders {
    /// An empty registry.
    pub fn new() -> (r: ShapeShaders)
        ensures
            r@ == Map::<ShaderKey, ShaderId>::empty(),
    {
        ShapeShaders(HashMap::default())
    }

    /// The composed shader registered for `key`, if any.
    pub fn get(&self, key: &ShaderKey) -> (r: Option<ShaderId>)
        ensures
            r == (if self@.contains_key(*key) { Some(self@[*key]) } else { None::<ShaderId> }),
    {
        map_get(&self.0, key)
    }

    /// Looks `key` up; on a miss with both modules loaded, describes the
    /// shader to compose, giving a fresh import path to each module that has
    /// none. Nothing is registered here: the caller compiles the shader and
    /// calls `insert`.
    pub fn get_or_create(&self, key: &ShaderKey, sdf: &ShaderAsset, fill: &ShaderAsset) -> (r: ShaderRequest)
        ensures
            kind_of(r) == expected_request(self@, *key, *sdf, *fill),
            r matches ShaderRequest::Compose(c) ==> resolves(*sdf, c.sdf) && resolves(*fill, c.fill),
    {
        match map_get(&self.0, key) {
            Some(h) => ShaderRequest::Ready(h),
            None => match (sdf, fill) {
                (ShaderAsset::Loaded(sdf_own), ShaderAsset::Loaded(fill_own)) => {
                    let sdf_path = resolve_import_path(sdf_own);
                    let fill_path = resolve_import_path(fill_own);
                    ShaderRequest::Compose(CompositeShader { sdf: sdf_path, fill: fill_path })
                },
                _ => ShaderRequest::NotReady,
            },
        }
    }

    /// Registers the compiled shader of `key`.
    pub fn insert(&mut self, key: ShaderKey, handle: ShaderId)
        ensures
            final(self)@ == old(self)@.insert(key, handle),
    {
        map_insert(&mut self.0, key, handle);
    }
}

/// Asking twice for one pair compiles at most once: once the handle composed
/// on the first request is registered, any later request for the pair, with
/// the modules in any state, is served that handle; and a pair that was
/// served stays served with the same handle.
pub proof fn lemma_get_or_create_idempotent(
    entries: Map<ShaderKey, ShaderId>,
    key: ShaderKey,
    handle: ShaderId,
    sdf: ShaderAsset,
    fill: ShaderAsset,
    later_sdf: ShaderAsset,
    later_fill: ShaderAsset,
)
    ensures
        expected_request(entries, key, sdf, fill) == RequestKind::Compose ==> expected_request(
            entries.insert(key, handle),
            key,
            later_sdf,
            later_fill,
        ) == RequestKind::Ready(handle),
        expected_request(entries, key, sdf, fill) == RequestKind::Ready(handle) ==> expected_request(
            entries,
            key,
            later_sdf,
            later_fill,
        ) == RequestKind::Ready(handle),
{
}

/// The shader pair a shape declares.
pub open spec fn shape_key(s: SmudShape) -> ShaderKey {
    ShaderKey { sdf: s.sdf, fill: s.fill }
}

/// The unregistered pairs that `shapes` declare, each once, in order of
/// first appearance.
pub open spec fn pending_keys(entries: Map<ShaderKey, ShaderId>, shapes: Seq<SmudShape>) -> Seq<ShaderKey>
    decreases shapes.len(),
{
    if shapes.len() == 0 {
        Seq::empty()
    } else {
        let rest = pending_keys(entries, shapes.drop_last());
        let key = shape_key(shapes.last());
        if entries.contains_key(key) || rest.contains(key) {
            rest
        } else {
            rest.push(key)
        }
    }
}

fn contains_key(keys: &Vec<ShaderKey>, key: &ShaderKey) -> (r: bool)
    ensures
        r == keys@.contains(*key),
{
    let mut i: usize = 0;
    while i < keys.len()
        invariant
            i <= keys.len(),
            forall|j: int| 0 <= j < i ==> keys@[j] != *key,
        decreases keys.len() - i,
    {
        if keys[i] == *key {
            return true;
        }
        i = i + 1;
    }
    false
}

/// The pairs whose shaders must be composed this frame: those the live
/// shapes declare and the registry lacks, each once, in order of first
/// appearance. The caller asks `get_or_create` for each and registers what it
/// compiles.
pub fn extract_sdf_shaders(shaders: &ShapeShaders, shapes: &Vec<SmudShape>) -> (keys: Vec<ShaderKey>)
    ensures
        keys@ == pending_keys(shaders@, shapes@),
{
    let mut keys: Vec<ShaderKey> = Vec::new();
    let mut i: usize = 0;
    while i < shapes.len()
        invariant
            i <= shapes.len(),
            keys@ == pending_keys(shaders@, shapes@.take(i as int)),
        decreases shapes.len() - i,
    {
        let shape = shapes[i];
        let key = ShaderKey { sdf: shape.sdf, fill: shape.fill };
        proof {
            assert(shapes@.take(i + 1).drop_last() =~= shapes@.take(i as int));
        }
        if shaders.get(&key).is_none() && !contains_key(&keys, &key) {
            keys.push(key);
        }
        i = i + 1;
    }
    proof {
        assert(shapes@.take(i as int) =~= shapes@);
    }
    keys
}

} // verus!
