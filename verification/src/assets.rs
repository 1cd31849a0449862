//! Loaded asset contents, handed in by the host. The core never touches the
//! file system: the host reads each referenced file (relative to its root
//! path) and registers the content here, as text for shader sources and as
//! raw bytes for images and height maps.

use vstd::prelude::*;

verus! {

/// The content of one loaded asset.
pub enum AssetData {
    Text(String),
    Bytes(Vec<u8>),
}

/// Mathematical model of an asset's content.
#[verifier::ext_equal]
pub enum AssetV {
    Text(Seq<char>),
    Bytes(Seq<u8>),
}

impl View for AssetData {
    type V = AssetV;

    open spec fn view(&self) -> AssetV {
        match self {
            AssetData::Text(s) => AssetV::Text(s@),
            AssetData::Bytes(b) => AssetV::Bytes(b@),
        }
    }
}

/// What a lookup of `name` finds: the first entry registered under that
/// name, if any.
pub open spec fn asset_lookup(assets: Seq<(Seq<char>, AssetV)>, name: Seq<char>) -> Option<
    AssetV,
>
    decreases assets.len(),
{
    if assets.len() == 0 {
        None
    } else if assets[0].0 == name {
        Some(assets[0].1)
    } else {
        asset_lookup(assets.drop_first(), name)
    }
}

proof fn lemma_asset_lookup_found(assets: Seq<(Seq<char>, AssetV)>, name: Seq<char>, i: int)
    requires
        0 <= i < assets.len(),
        assets[i].0 == name,
        forall|j: int| 0 <= j < i ==> assets[j].0 != name,
    ensures
        asset_lookup(assets, name) == Some(assets[i].1),
    decreases i,
{
    if i > 0 {
        lemma_asset_lookup_found(assets.drop_first(), name, i - 1);
    }
}

proof fn lemma_asset_lookup_missing(assets: Seq<(Seq<char>, AssetV)>, name: Seq<char>)
    requires
        forall|j: int| 0 <= j < assets.len() ==> assets[j].0 != name,
    ensures
        asset_lookup(assets, name) is None,
    decreases assets.len(),
{
    if assets.len() > 0 {
        lemma_asset_lookup_missing(assets.drop_first(), name);
    }
}

/// The set of assets the host has loaded so far, keyed by the path string
/// that descriptors use to refer to them.
pub struct AssetStore {
    entries: Vec<(String, AssetData)>,
}

impl View for AssetStore {
    type V = Seq<(Seq<char>, AssetV)>;

    closed spec fn view(&self) -> Seq<(Seq<char>, AssetV)> {
        Seq::new(
            self.entries@.len(),
            |i: int|
                if 0 <= i < self.entries@.len() {
                    (self.entries@[i].0@, self.entries@[i].1@)
                } else {
                    (Seq::empty(), AssetV::Text(Seq::empty()))
                },
        )
    }
}

impl AssetStore {
    /// An empty store: no asset is loaded yet.
    pub fn new() -> (r: AssetStore)
        ensures
            r@ == Seq::<(Seq<char>, AssetV)>::empty(),
    {
        let r = AssetStore { entries: Vec::new() };
        proof {
            assert(r@ =~= Seq::<(Seq<char>, AssetV)>::empty());
        }
        r
    }

    /// Registers a loaded asset. An earlier entry under the same name keeps
    /// priority; hosts register each path once.
    pub fn add(&mut self, name: String, data: AssetData)
        ensures
            final(self)@ == old(self)@.push((name@, data@)),
    {
        let ghost prev = self@;
        self.entries.push((name, data));
        proof {
            assert(self@ =~= prev.push((self.entries@.last().0@, self.entries@.last().1@)));
        }
    }

    /// Finds the content registered under `name`.
    pub fn lookup(&self, name: &str) -> (r: Option<&AssetData>)
        ensures
            match r {
                Some(d) => asset_lookup(self@, name@) == Some(d@),
                None => asset_lookup(self@, name@) is None,
            },
    {
        let n = self.entries.len();
        let mut i: usize = 0;
        while i < n
            invariant
                n == self.entries@.len(),
                i <= n,
                forall|j: int| 0 <= j < i ==> self@[j].0 != name@,
            decreases n - i,
        {
            if crate::pon::str_eq(self.entries[i].0.as_str(), name) {
                proof {
                    lemma_asset_lookup_found(self@, name@, i as int);
                }
                return Some(&self.entries[i].1);
            }
            i = i + 1;
        }
        proof {
            lemma_asset_lookup_missing(self@, name@);
        }
        None
    }
}

} // verus!
