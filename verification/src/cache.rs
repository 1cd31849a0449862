//! Content-addressed resource caches: one per resource category, mapping a
//! descriptor value (by structural equality) to a shared compiled resource.
//! A lookup hit hands out the existing handle without recompiling; a miss
//! compiles and inserts; a failed compilation inserts nothing, so the next
//! lookup with the same key retries from scratch.

use vstd::prelude::*;

use crate::assets::AssetStore;
use crate::error::{CompileError, CompileErrorV};
use crate::pon::{deep_clone_pon, pon_eq, Pon, PonV};
use crate::pon_to_resource::{
    mesh_of, pon_to_mesh, pon_to_shader, pon_to_texture, shader_of, texture_of, Mesh, MeshV,
    ShaderSource, ShaderSourceV, Texture, TextureV,
};

verus! {

/// The handle of the entry whose key structurally equals `key`: the index of
/// the first such entry, if any.
pub open spec fn cache_lookup<R>(entries: Seq<(PonV, R)>, key: PonV) -> Option<int>
    decreases entries.len(),
{
    if entries.len() == 0 {
        None
    } else if entries[0].0 == key {
        Some(0)
    } else {
        match cache_lookup(entries.drop_first(), key) {
            Some(i) => Some(i + 1),
            None => None,
        }
    }
}

/// One cache access: a hit returns the existing handle and changes nothing;
/// a miss inserts the compiled resource under the key and returns the fresh
/// handle, or returns the compilation error and changes nothing.
pub open spec fn cache_step<R>(
    entries: Seq<(PonV, R)>,
    key: PonV,
    compiled: Result<R, CompileErrorV>,
) -> (Seq<(PonV, R)>, Result<int, CompileErrorV>) {
    match cache_lookup(entries, key) {
        Some(i) => (entries, Ok(i)),
        None => match compiled {
            Ok(r) => (entries.push((key, r)), Ok(entries.len() as int)),
            Err(e) => (entries, Err(e)),
        },
    }
}

pub proof fn lemma_cache_lookup_found<R>(entries: Seq<(PonV, R)>, key: PonV, i: int)
    requires
        0 <= i < entries.len(),
        entries[i].0 == key,
        forall|j: int| 0 <= j < i ==> entries[j].0 != key,
    ensures
        cache_lookup(entries, key) == Some(i),
    decreases i,
{
    if i > 0 {
        lemma_cache_lookup_found(entries.drop_first(), key, i - 1);
    }
}

pub proof fn lemma_cache_lookup_missing<R>(entries: Seq<(PonV, R)>, key: PonV)
    requires
        forall|j: int| 0 <= j < entries.len() ==> entries[j].0 != key,
    ensures
        cache_lookup(entries, key) is None,
    decreases entries.len(),
{
    if entries.len() > 0 {
        lemma_cache_lookup_missing(entries.drop_first(), key);
    }
}

/// What a successful lookup means: a handle in range whose entry carries the
/// key, with no earlier entry under the same key; a missing key means no
/// entry carries it.
pub proof fn lemma_cache_lookup_characterization<R>(entries: Seq<(PonV, R)>, key: PonV)
    ensures
        match cache_lookup(entries, key) {
            Some(i) => 0 <= i < entries.len() && entries[i].0 == key && forall|j: int|
                0 <= j < i ==> entries[j].0 != key,
            None => forall|j: int| 0 <= j < entries.len() ==> entries[j].0 != key,
        },
    decreases entries.len(),
{
    if entries.len() > 0 {
        lemma_cache_lookup_characterization(entries.drop_first(), key);
        if entries[0].0 != key {
            match cache_lookup(entries.drop_first(), key) {
                Some(i) => {
                    assert(entries.drop_first()[i] == entries[i + 1]);
                    assert forall|j: int| 0 <= j < i + 1 implies entries[j].0 != key by {
                        if j > 0 {
                            assert(entries.drop_first()[j - 1] == entries[j]);
                        }
                    }
                },
                None => {
                    assert forall|j: int|
                        0 <= j < entries.len() implies entries[j].0 != key by {
                        if j > 0 {
                            assert(entries.drop_first()[j - 1] == entries[j]);
                        }
                    }
                },
            }
        }
    }
}

/// Appending an entry under a different key does not change what a key finds.
pub proof fn lemma_cache_lookup_push_other<R>(
    entries: Seq<(PonV, R)>,
    key: PonV,
    other: PonV,
    r: R,
)
    requires
        other != key,
    ensures
        cache_lookup(entries.push((other, r)), key) == cache_lookup(entries, key),
    decreases entries.len(),
{
    let p = entries.push((other, r));
    if entries.len() == 0 {
        assert(p[0] == (other, r));
        assert(p.drop_first() =~= Seq::<(PonV, R)>::empty());
        assert(cache_lookup(p.drop_first(), key) is None);
        assert(cache_lookup(p, key) is None);
        assert(cache_lookup(entries, key) is None);
    } else {
        assert(p[0] == entries[0]);
        assert(p.drop_first() =~= entries.drop_first().push((other, r)));
        lemma_cache_lookup_push_other(entries.drop_first(), key, other, r);
        assert(cache_lookup(p.drop_first(), key) == cache_lookup(entries.drop_first(), key));
        if p[0].0 == key {
            assert(cache_lookup(p, key) == Some(0int));
            assert(cache_lookup(entries, key) == Some(0int));
        } else {
            assert(cache_lookup(p, key) == (match cache_lookup(p.drop_first(), key) {
                Some(i) => Some(i + 1),
                None => None,
            }));
            assert(cache_lookup(entries, key) == (match cache_lookup(
                entries.drop_first(),
                key,
            ) {
                Some(i) => Some(i + 1),
                None => None,
            }));
        }
    }
}

/// Appending an entry under a key that was missing makes that key find it.
pub proof fn lemma_cache_lookup_push_self<R>(entries: Seq<(PonV, R)>, key: PonV, r: R)
    requires
        cache_lookup(entries, key) is None,
    ensures
        cache_lookup(entries.push((key, r)), key) == Some(entries.len() as int),
    decreases entries.len(),
{
    lemma_cache_lookup_characterization(entries, key);
    lemma_cache_lookup_found(entries.push((key, r)), key, entries.len() as int);
}

/// A cache never holds two entries for structurally equal specifications.
pub open spec fn keys_unique<R>(entries: Seq<(PonV, R)>) -> bool {
    forall|i: int, j: int|
        0 <= i < j < entries.len() ==> (#[trigger] entries[i]).0 != (#[trigger] entries[j]).0
}

/// Law: at most one entry per fingerprint. An access inserts only a key
/// that no entry carries, so key uniqueness is preserved.
pub proof fn lemma_cache_step_keeps_keys_unique<R>(
    entries: Seq<(PonV, R)>,
    key: PonV,
    compiled: Result<R, CompileErrorV>,
)
    requires
        keys_unique(entries),
    ensures
        keys_unique(cache_step(entries, key, compiled).0),
{
    lemma_cache_lookup_characterization(entries, key);
    if cache_lookup(entries, key) is None && compiled is Ok {
        let e2 = entries.push((key, compiled->Ok_0));
        assert forall|i: int, j: int|
            0 <= i < j < e2.len() implies (#[trigger] e2[i]).0 != (#[trigger] e2[j]).0 by {
            if j < entries.len() {
                assert(e2[i] == entries[i] && e2[j] == entries[j]);
            } else {
                assert(e2[i] == entries[i] && e2[j].0 == key);
            }
        }
    }
}

/// Law: a cache only grows, and existing entries never move or change — a
/// handle, once given out, refers to the same resource for as long as the
/// cache lives, whatever is resolved later.
pub proof fn lemma_cache_entries_are_stable<R>(
    entries: Seq<(PonV, R)>,
    key: PonV,
    compiled: Result<R, CompileErrorV>,
)
    ensures
        ({
            let (e2, _) = cache_step(entries, key, compiled);
            &&& e2.len() >= entries.len()
            &&& forall|i: int| 0 <= i < entries.len() ==> e2[i] == entries[i]
        }),
{
}

// ---------------------------------------------------------------------------
// The sharing laws
// ---------------------------------------------------------------------------

/// Law: structurally equal keys share one compilation. After a successful
/// access with key `a`, an access with an equal key `b` is a hit: it returns
/// the same handle and leaves the cache unchanged, whatever its own
/// compilation would have yielded — no second compilation can be observed.
pub proof fn lemma_equal_keys_share<R>(
    entries: Seq<(PonV, R)>,
    a: PonV,
    b: PonV,
    ca: Result<R, CompileErrorV>,
    cb: Result<R, CompileErrorV>,
)
    requires
        a == b,
    ensures
        ({
            let (e1, r1) = cache_step(entries, a, ca);
            r1 is Ok ==> cache_step(e1, b, cb) == (e1, r1)
        }),
{
    let (e1, r1) = cache_step(entries, a, ca);
    lemma_cache_lookup_characterization(entries, a);
    if cache_lookup(entries, a) is None && ca is Ok {
        lemma_cache_lookup_push_self(entries, a, ca->Ok_0);
    }
}

/// Law: distinct keys are independent and never collide. An access with key
/// `a` does not change what key `b != a` finds, and two successful accesses
/// with distinct keys hand out distinct handles, each bound to its own key.
pub proof fn lemma_distinct_keys_independent<R>(
    entries: Seq<(PonV, R)>,
    a: PonV,
    b: PonV,
    ca: Result<R, CompileErrorV>,
    cb: Result<R, CompileErrorV>,
)
    requires
        a != b,
    ensures
        ({
            let (e1, r1) = cache_step(entries, a, ca);
            let (e2, r2) = cache_step(e1, b, cb);
            &&& cache_lookup(e1, b) == cache_lookup(entries, b)
            &&& (r1 is Ok && r2 is Ok ==> r1 != r2 && e2[r1->Ok_0].0 == a && e2[r2->Ok_0].0
                == b)
        }),
{
    let (e1, r1) = cache_step(entries, a, ca);
    let (e2, r2) = cache_step(e1, b, cb);
    lemma_cache_lookup_characterization(entries, a);
    if cache_lookup(entries, a) is None && ca is Ok {
        lemma_cache_lookup_push_other(entries, b, a, ca->Ok_0);
        lemma_cache_lookup_push_self(entries, a, ca->Ok_0);
    }
    lemma_cache_lookup_characterization(e1, b);
    if cache_lookup(e1, b) is None && cb is Ok {
        lemma_cache_lookup_push_self(e1, b, cb->Ok_0);
        if r1 is Ok {
            lemma_cache_lookup_characterization(e2, a);
        }
    }
}

/// Law: failure is not sticky. A failed compilation for a missing key
/// returns the error and inserts nothing, and a later access with the same
/// key and a successful compilation succeeds and populates the cache.
pub proof fn lemma_failure_not_sticky<R>(
    entries: Seq<(PonV, R)>,
    key: PonV,
    e: CompileErrorV,
    r: R,
)
    requires
        cache_lookup(entries, key) is None,
    ensures
        cache_step(entries, key, Err(e)) == (entries, Err::<int, CompileErrorV>(e)),
        ({
            let (e2, r2) = cache_step(entries, key, Ok(r));
            e2 == entries.push((key, r)) && r2 == Ok::<int, CompileErrorV>(entries.len() as int)
        }),
{
}

// ---------------------------------------------------------------------------
// The executable caches
// ---------------------------------------------------------------------------

/// The view of an executable cache's entries.
pub open spec fn entries_view<T: View>(v: Seq<(Pon, T)>) -> Seq<(PonV, T::V)> {
    Seq::new(
        v.len(),
        |i: int|
            if 0 <= i < v.len() {
                (v[i].0@, v[i].1@)
            } else {
                arbitrary()
            },
    )
}

/// The shader-program cache.
pub struct ShaderProgramCache {
    entries: Vec<(Pon, ShaderSource)>,
    /// How many compilations have been attempted; hits never raise it.
    compile_count: Ghost<nat>,
}

impl View for ShaderProgramCache {
    type V = Seq<(PonV, ShaderSourceV)>;

    closed spec fn view(&self) -> Seq<(PonV, ShaderSourceV)> {
        entries_view(self.entries@)
    }
}

impl ShaderProgramCache {
    /// How many compilations have been attempted so far; hits never raise
    /// it.
    pub closed spec fn compile_attempts(&self) -> nat {
        self.compile_count@
    }

    pub fn new() -> (c: Self)
        ensures
            c@ == Seq::<(PonV, ShaderSourceV)>::empty(),
            c.compile_attempts() == 0,
    {
        let c = ShaderProgramCache { entries: Vec::new(), compile_count: Ghost(0) };
        proof {
            assert(c@ =~= Seq::<(PonV, ShaderSourceV)>::empty());
        }
        c
    }

    /// Seeds the cache with an already-realized resource, as the host does
    /// for the baseline shader at start-up.
    pub fn set(&mut self, key: Pon, value: ShaderSource)
        requires
            cache_lookup(old(self)@, key@) is None,
        ensures
            final(self)@ == old(self)@.push((key@, value@)),
            final(self).compile_attempts() == old(self).compile_attempts(),
    {
        let ghost prev = self@;
        self.entries.push((key, value));
        proof {
            assert(self@ =~= prev.push(
                (self.entries@.last().0@, self.entries@.last().1@),
            ));
        }
    }

    pub fn len(&self) -> (n: usize)
        ensures
            n == self@.len(),
    {
        self.entries.len()
    }

    /// The resource a handle refers to, if the handle is current.
    pub fn resource(&self, handle: usize) -> (r: Option<&ShaderSource>)
        ensures
            match r {
                Some(s) => handle < self@.len() && s@ == self@[handle as int].1,
                None => handle >= self@.len(),
            },
    {
        if handle < self.entries.len() {
            Some(&self.entries[handle].1)
        } else {
            None
        }
    }

    /// Content-addressed access: a hit shares the existing resource, a miss
    /// compiles the specification and caches the result, and a failure
    /// caches nothing.
    #[verifier::loop_isolation(false)]
    pub fn get(&mut self, assets: &AssetStore, key: &Pon) -> (r: Result<usize, CompileError>)
        ensures
            ({
                let (e2, r2) = cache_step(old(self)@, key@, shader_of(assets@, key@));
                &&& final(self)@ == e2
                &&& match r {
                    Ok(h) => r2 == Ok::<int, CompileErrorV>(h as int),
                    Err(e) => r2 == Err::<int, CompileErrorV>(e@),
                }
                &&& final(self).compile_attempts() == old(self).compile_attempts() + (
                if cache_lookup(old(self)@, key@) is Some {
                    0int
                } else {
                    1int
                })
            }),
    {
        let n = self.entries.len();
        let mut i: usize = 0;
        while i < n
            invariant
                n == self.entries@.len(),
                i <= n,
                forall|j: int| 0 <= j < i ==> self@[j].0 != key@,
            decreases n - i,
        {
            if pon_eq(&self.entries[i].0, key) {
                proof {
                    lemma_cache_lookup_found(self@, key@, i as int);
                }
                return Ok(i);
            }
            i = i + 1;
        }
        proof {
            lemma_cache_lookup_missing(self@, key@);
        }
        self.compile_count = Ghost(self.compile_count@ + 1);
        match pon_to_shader(assets, key) {
            Ok(s) => {
                let ghost prev = self@;
                let h = self.entries.len();
                self.entries.push((deep_clone_pon(key), s));
                proof {
                    assert(self@ =~= prev.push(
                        (self.entries@.last().0@, self.entries@.last().1@),
                    ));
                }
                Ok(h)
            },
            Err(e) => Err(e),
        }
    }
}

/// The vertex-array (mesh binding) cache. Its key is composite: the array
/// [shader specification, mesh specification], because a binding depends on
/// which shader attributes it must satisfy; the compiled resource is the
/// mesh interpreted from the key's second element.
pub open spec fn binding_of(p: PonV) -> Result<MeshV, CompileErrorV> {
    match p {
        PonV::Array(es) => if es.len() == 2 {
            mesh_of(es[1])
        } else {
            Err(CompileErrorV::MalformedNestedValue)
        },
        _ => Err(CompileErrorV::MalformedNestedValue),
    }
}

pub struct VertexArrayCache {
    entries: Vec<(Pon, Mesh)>,
    /// How many compilations have been attempted; hits never raise it.
    compile_count: Ghost<nat>,
}

impl View for VertexArrayCache {
    type V = Seq<(PonV, MeshV)>;

    closed spec fn view(&self) -> Seq<(PonV, MeshV)> {
        entries_view(self.entries@)
    }
}

impl VertexArrayCache {
    /// How many compilations have been attempted so far; hits never raise
    /// it.
    pub closed spec fn compile_attempts(&self) -> nat {
        self.compile_count@
    }

    pub fn new() -> (c: Self)
        ensures
            c@ == Seq::<(PonV, MeshV)>::empty(),
            c.compile_attempts() == 0,
    {
        let c = VertexArrayCache { entries: Vec::new(), compile_count: Ghost(0) };
        proof {
            assert(c@ =~= Seq::<(PonV, MeshV)>::empty());
        }
        c
    }

    pub fn len(&self) -> (n: usize)
        ensures
            n == self@.len(),
    {
        self.entries.len()
    }

    /// The resource a handle refers to, if the handle is current.
    pub fn resource(&self, handle: usize) -> (r: Option<&Mesh>)
        ensures
            match r {
                Some(m) => handle < self@.len() && m@ == self@[handle as int].1,
                None => handle >= self@.len(),
            },
    {
        if handle < self.entries.len() {
            Some(&self.entries[handle].1)
        } else {
            None
        }
    }

    /// Content-addressed access, keyed on the (shader, mesh) pair.
    #[verifier::loop_isolation(false)]
    pub fn get(&mut self, key: &Pon) -> (r: Result<usize, CompileError>)
        ensures
            ({
                let (e2, r2) = cache_step(old(self)@, key@, binding_of(key@));
                &&& final(self)@ == e2
                &&& match r {
                    Ok(h) => r2 == Ok::<int, CompileErrorV>(h as int),
                    Err(e) => r2 == Err::<int, CompileErrorV>(e@),
                }
                &&& final(self).compile_attempts() == old(self).compile_attempts() + (
                if cache_lookup(old(self)@, key@) is Some {
                    0int
                } else {
                    1int
                })
            }),
    {
        let n = self.entries.len();
        let mut i: usize = 0;
        while i < n
            invariant
                n == self.entries@.len(),
                i <= n,
                forall|j: int| 0 <= j < i ==> self@[j].0 != key@,
            decreases n - i,
        {
            if pon_eq(&self.entries[i].0, key) {
                proof {
                    lemma_cache_lookup_found(self@, key@, i as int);
                }
                return Ok(i);
            }
            i = i + 1;
        }
        proof {
            lemma_cache_lookup_missing(self@, key@);
        }
        self.compile_count = Ghost(self.compile_count@ + 1);
        match key {
            Pon::Array(es) => {
                if es.len() == 2 {
                    proof {
                        assert(key@ == PonV::Array(crate::pon::elems_view(es@)));
                        assert(crate::pon::elems_view(es@)[1] == crate::pon::pon_view(es@[1]));
                        assert(binding_of(key@) == mesh_of(crate::pon::pon_view(es@[1])));
                    }
                    match pon_to_mesh(&es[1]) {
                        Ok(m) => {
                            let ghost prev = self@;
                            let h = self.entries.len();
                            self.entries.push((deep_clone_pon(key), m));
                            proof {
                                assert(self@ =~= prev.push(
                                    (self.entries@.last().0@, self.entries@.last().1@),
                                ));
                            }
                            Ok(h)
                        },
                        Err(e) => Err(e),
                    }
                } else {
                    Err(CompileError::MalformedNestedValue)
                }
            },
            _ => Err(CompileError::MalformedNestedValue),
        }
    }
}

/// The texture cache.
pub struct TextureCache {
    entries: Vec<(Pon, Texture)>,
    /// How many compilations have been attempted; hits never raise it.
    compile_count: Ghost<nat>,
}

impl View for TextureCache {
    type V = Seq<(PonV, TextureV)>;

    closed spec fn view(&self) -> Seq<(PonV, TextureV)> {
        entries_view(self.entries@)
    }
}

impl TextureCache {
    /// How many compilations have been attempted so far; hits never raise
    /// it.
    pub closed spec fn compile_attempts(&self) -> nat {
        self.compile_count@
    }

    pub fn new() -> (c: Self)
        ensures
            c@ == Seq::<(PonV, TextureV)>::empty(),
            c.compile_attempts() == 0,
    {
        let c = TextureCache { entries: Vec::new(), compile_count: Ghost(0) };
        proof {
            assert(c@ =~= Seq::<(PonV, TextureV)>::empty());
        }
        c
    }

    pub fn len(&self) -> (n: usize)
        ensures
            n == self@.len(),
    {
        self.entries.len()
    }

    /// The resource a handle refers to, if the handle is current.
    pub fn resource(&self, handle: usize) -> (r: Option<&Texture>)
        ensures
            match r {
                Some(t) => handle < self@.len() && t@ == self@[handle as int].1,
                None => handle >= self@.len(),
            },
    {
        if handle < self.entries.len() {
            Some(&self.entries[handle].1)
        } else {
            None
        }
    }

    /// Content-addressed access.
    #[verifier::loop_isolation(false)]
    pub fn get(&mut self, assets: &AssetStore, key: &Pon) -> (r: Result<usize, CompileError>)
        ensures
            ({
                let (e2, r2) = cache_step(old(self)@, key@, texture_of(assets@, key@));
                &&& final(self)@ == e2
                &&& match r {
                    Ok(h) => r2 == Ok::<int, CompileErrorV>(h as int),
                    Err(e) => r2 == Err::<int, CompileErrorV>(e@),
                }
                &&& final(self).compile_attempts() == old(self).compile_attempts() + (
                if cache_lookup(old(self)@, key@) is Some {
                    0int
                } else {
                    1int
                })
            }),
    {
        let n = self.entries.len();
        let mut i: usize = 0;
        while i < n
            invariant
                n == self.entries@.len(),
                i <= n,
                forall|j: int| 0 <= j < i ==> self@[j].0 != key@,
            decreases n - i,
        {
            if pon_eq(&self.entries[i].0, key) {
                proof {
                    lemma_cache_lookup_found(self@, key@, i as int);
                }
                return Ok(i);
            }
            i = i + 1;
        }
        proof {
            lemma_cache_lookup_missing(self@, key@);
        }
        self.compile_count = Ghost(self.compile_count@ + 1);
        match pon_to_texture(assets, key) {
            Ok(t) => {
                let ghost prev = self@;
                let h = self.entries.len();
                self.entries.push((deep_clone_pon(key), t));
                proof {
                    assert(self@ =~= prev.push(
                        (self.entries@.last().0@, self.entries@.last().1@),
                    ));
                }
                Ok(h)
            },
            Err(e) => Err(e),
        }
    }
}

} // verus!
