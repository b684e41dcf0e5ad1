//! The assets that a job produced, by file name.

use vstd::prelude::*;
use crate::text::same_text;

verus! {

/// One produced asset: its file name and its content.
#[derive(Clone, Debug, PartialEq, Eq)]
pub struct Asset {
    pub filename: String,
    pub bytes: Vec<u8>,
}

/// The assets of a job, each under its file name.
///
/// No file name occurs twice, and no asset is empty: an empty download is
/// dropped when it is offered, and a second asset under a name replaces the
/// first. The order of the assets carries no meaning.
#[derive(Clone, Debug, PartialEq, Eq)]
pub struct ResultMap {
    entries: Vec<Asset>,
}

impl ResultMap {
    /// Whether some entry has the name `filename`.
    spec fn names(&self, filename: Seq<char>) -> bool {
        exists|i: int| 0 <= i < self.entries@.len() && #[trigger] self.entries@[i].filename@ == filename
    }

    /// The position of an entry with the name `filename`.
    spec fn position(&self, filename: Seq<char>) -> int {
        choose|i: int| 0 <= i < self.entries@.len() && #[trigger] self.entries@[i].filename@ == filename
    }

    /// Whether the value is well formed: no two entries share a file name,
    /// and no entry is empty.
    pub closed spec fn wf(&self) -> bool {
        &&& forall|i: int, j: int|
            0 <= i < j < self.entries@.len() ==> #[trigger] self.entries@[i].filename@
                != #[trigger] self.entries@[j].filename@
        &&& forall|i: int| 0 <= i < self.entries@.len() ==> (#[trigger] self.entries@[i]).bytes@.len() > 0
    }
}

impl View for ResultMap {
    type V = Map<Seq<char>, Seq<u8>>;

    closed spec fn view(&self) -> Map<Seq<char>, Seq<u8>> {
        Map::new(
            |filename: Seq<char>| self.names(filename),
            |filename: Seq<char>| self.entries@[self.position(filename)].bytes@,
        )
    }
}

/// What a map of assets holds after `bytes` was offered under `filename`:
/// the same as before where `bytes` is empty, and else `bytes` under
/// `filename`, in place of what stood there.
pub open spec fn with_asset(
    assets: Map<Seq<char>, Seq<u8>>,
    filename: Seq<char>,
    bytes: Seq<u8>,
) -> Map<Seq<char>, Seq<u8>> {
    if bytes.len() == 0 {
        assets
    } else {
        assets.insert(filename, bytes)
    }
}

impl ResultMap {
    /// A map that holds no asset.
    pub fn new() -> (r: ResultMap)
        ensures
            r.wf(),
            r@ == Map::<Seq<char>, Seq<u8>>::empty(),
    {
        let r = ResultMap { entries: Vec::new() };
        assert(r@ =~= Map::<Seq<char>, Seq<u8>>::empty());
        r
    }

    /// The position of the entry named `filename`, if there is one.
    fn find(&self, filename: &str) -> (r: Option<usize>)
        requires
            self.wf(),
        ensures
            r matches Some(i) ==> i < self.entries@.len() && self.entries@[i as int].filename@
                == filename@ && self.position(filename@) == i,
            r is None <==> !self.names(filename@),
    {
        let mut i: usize = 0;
        while i < self.entries.len()
            invariant
                i <= self.entries@.len(),
                self.wf(),
                forall|k: int| 0 <= k < i ==> #[trigger] self.entries@[k].filename@ != filename@,
            decreases self.entries@.len() - i,
        {
            if same_text(self.entries[i].filename.as_str(), filename) {
                return Some(i);
            }
            i += 1;
        }
        None
    }

    /// Offers the asset `bytes` under the name `filename`.
    ///
    /// An empty asset is dropped and the map stays as it is. Any other asset
    /// is stored, and replaces the asset that the map held under that name.
    /// The result says whether the asset was stored.
    pub fn insert(&mut self, filename: String, bytes: Vec<u8>) -> (stored: bool)
        requires
            old(self).wf(),
        ensures
            final(self).wf(),
            final(self)@ == with_asset(old(self)@, filename@, bytes@),
            stored == (bytes@.len() > 0),
    {
        if bytes.len() == 0 {
            return false;
        }
        let ghost before = *self;
        match self.find(filename.as_str()) {
            Some(i) => {
                self.entries.set(i, Asset { filename, bytes });
                assert(forall|k: int|
                    0 <= k < self.entries@.len() ==> (#[trigger] self.entries@[k]).filename@
                        == before.entries@[k].filename@);
                assert forall|name: Seq<char>| self.names(name) == before.names(name) by {
                    if self.names(name) {
                        let k = self.position(name);
                        assert(before.entries@[k].filename@ == name);
                    }
                    if before.names(name) {
                        let k = before.position(name);
                        assert(self.entries@[k].filename@ == name);
                    }
                }
                assert(self@ =~= with_asset(before@, filename@, bytes@));
            },
            None => {
                self.entries.push(Asset { filename, bytes });
                let ghost last = self.entries@.len() - 1;
                assert(self.entries@[last].filename@ == filename@);
                assert forall|name: Seq<char>| self.names(name) == (before.names(name) || name
                    == filename@) by {
                    if self.names(name) {
                        let k = self.position(name);
                        if k < last {
                            assert(before.entries@[k].filename@ == name);
                        }
                    }
                    if before.names(name) {
                        let k = before.position(name);
                        assert(self.entries@[k].filename@ == name);
                    }
                }
                assert forall|name: Seq<char>| before.names(name) implies self.position(name)
                    == before.position(name) by {
                    let k = before.position(name);
                    assert(self.entries@[k].filename@ == name);
                }
                assert(self@ =~= with_asset(before@, filename@, bytes@));
            },
        }
        true
    }

    /// The asset stored under `filename`, if there is one.
    pub fn get(&self, filename: &str) -> (r: Option<&Vec<u8>>)
        requires
            self.wf(),
        ensures
            r matches Some(bytes) ==> self@.contains_key(filename@) && self@[filename@] == bytes@,
            r is None <==> !self@.contains_key(filename@),
    {
        match self.find(filename) {
            Some(i) => Some(&self.entries[i].bytes),
            None => None,
        }
    }

    /// Whether an asset is stored under `filename`.
    pub fn contains_key(&self, filename: &str) -> (r: bool)
        requires
            self.wf(),
        ensures
            r == self@.contains_key(filename@),
    {
        self.find(filename).is_some()
    }

    /// The number of assets.
    pub fn len(&self) -> (r: usize)
        requires
            self.wf(),
        ensures
            r == self@.len(),
            self@.dom().finite(),
    {
        proof {
            self.lemma_len();
        }
        self.entries.len()
    }

    /// Whether the map holds no asset.
    pub fn is_empty(&self) -> (r: bool)
        requires
            self.wf(),
        ensures
            r == (self@ == Map::<Seq<char>, Seq<u8>>::empty()),
    {
        proof {
            if self.entries@.len() > 0 {
                assert(self.entries@[0].filename@ == self.entries@[0].filename@);
                assert(self.names(self.entries@[0].filename@));
                assert(self@.contains_key(self.entries@[0].filename@));
            } else {
                assert(self@ =~= Map::<Seq<char>, Seq<u8>>::empty());
            }
        }
        self.entries.len() == 0
    }

    /// The assets, one entry for each, in no particular order.
    pub fn into_entries(self) -> (r: Vec<Asset>)
        requires
            self.wf(),
        ensures
            r@.len() == self@.len(),
            forall|i: int|
                0 <= i < r@.len() ==> self@.contains_key(#[trigger] r@[i].filename@) && self@[r@[i].filename@]
                    == r@[i].bytes@,
            forall|name: Seq<char>|
                self@.contains_key(name) ==> exists|i: int|
                    0 <= i < r@.len() && #[trigger] r@[i].filename@ == name,
            forall|i: int, j: int|
                0 <= i < j < r@.len() ==> #[trigger] r@[i].filename@ != #[trigger] r@[j].filename@,
    {
        proof {
            self.lemma_len();
            assert forall|i: int| 0 <= i < self.entries@.len() implies self@.contains_key(
                #[trigger] self.entries@[i].filename@,
            ) && self@[self.entries@[i].filename@] == self.entries@[i].bytes@ by {
                let name = self.entries@[i].filename@;
                assert(self.names(name));
                let k = self.position(name);
                assert(k == i);
            }
        }
        self.entries
    }

    /// The number of assets is the number of entries.
    proof fn lemma_len(&self)
        requires
            self.wf(),
        ensures
            self@.dom().finite(),
            self@.len() == self.entries@.len(),
    {
        Self::lemma_len_of(self.entries@);
        assert(self@.dom() =~= Self::names_of(self.entries@)) by {
            assert forall|name: Seq<char>| self.names(name) == Self::names_of(self.entries@).contains(
                name,
            ) by {
                if self.names(name) {
                    let k = self.position(name);
                    assert(self.entries@[k].filename@ == name);
                }
            }
        }
    }

    /// The set of the file names of `entries`.
    spec fn names_of(entries: Seq<Asset>) -> Set<Seq<char>> {
        Set::new(
            |name: Seq<char>|
                exists|i: int| 0 <= i < entries.len() && #[trigger] entries[i].filename@ == name,
        )
    }

    /// Entries with distinct names have as many names as there are entries.
    proof fn lemma_len_of(entries: Seq<Asset>)
        requires
            forall|i: int, j: int|
                0 <= i < j < entries.len() ==> #[trigger] entries[i].filename@
                    != #[trigger] entries[j].filename@,
        ensures
            Self::names_of(entries).finite(),
            Self::names_of(entries).len() == entries.len(),
        decreases entries.len(),
    {
        if entries.len() == 0 {
            assert(Self::names_of(entries) =~= Set::<Seq<char>>::empty());
        } else {
            let rest = entries.drop_last();
            let last = entries.last().filename@;
            Self::lemma_len_of(rest);
            assert(Self::names_of(entries) =~= Self::names_of(rest).insert(last)) by {
                assert forall|name: Seq<char>| Self::names_of(entries).contains(name) == (
                Self::names_of(rest).contains(name) || name == last) by {
                    if Self::names_of(entries).contains(name) {
                        let k = choose|i: int|
                            0 <= i < entries.len() && #[trigger] entries[i].filename@ == name;
                        if k < entries.len() - 1 {
                            assert(rest[k].filename@ == name);
                        }
                    }
                    if Self::names_of(rest).contains(name) {
                        let k = choose|i: int|
                            0 <= i < rest.len() && #[trigger] rest[i].filename@ == name;
                        assert(entries[k].filename@ == name);
                    }
                    if name == last {
                        assert(entries[entries.len() - 1].filename@ == name);
                    }
                }
            }
            assert(!Self::names_of(rest).contains(last)) by {
                if Self::names_of(rest).contains(last) {
                    let k = choose|i: int|
                        0 <= i < rest.len() && #[trigger] rest[i].filename@ == last;
                    assert(entries[k].filename@ != entries[entries.len() - 1].filename@);
                }
            }
        }
    }
}

/// No asset of a well-formed map is empty.
pub proof fn lemma_no_asset_is_empty(assets: ResultMap, filename: Seq<char>)
    requires
        assets.wf(),
        assets@.contains_key(filename),
    ensures
        assets@[filename].len() > 0,
{
    assert(assets.names(filename));
}

} // verus!
