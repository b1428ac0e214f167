//! The registry of the analyzer's built-in library files.
//!
//! Entries are only ever added. The text of an entry never changes, and its
//! navigation tree, once attached, is kept for the life of the registry.
use vstd::prelude::*;
use crate::host::BridgeError;
use crate::line_index::{LineIndex, MAX_TEXT_CHARS};
use crate::navigation::NavigationTree;
use crate::specifier::{ModuleSpecifier, url_serialization};
use crate::strings::{str_eq, concat, chars_of};

verus! {

/// A built-in library file held in memory.
pub struct AssetDocument {
    specifier: ModuleSpecifier,
    text: String,
    line_index: LineIndex,
    maybe_navigation_tree: Option<NavigationTree>,
}

impl AssetDocument {
    /// The specifier that names the file.
    pub closed spec fn key(&self) -> Seq<char> {
        self.specifier@
    }

    /// The file's text.
    pub closed spec fn body(&self) -> Seq<char> {
        self.text@
    }

    /// The navigation tree attached to the file, if any.
    pub closed spec fn tree(&self) -> Option<NavigationTree> {
        self.maybe_navigation_tree
    }

    /// The text is indexable and the index is that of the text.
    pub closed spec fn wf(&self) -> bool {
        &&& self.text@.len() <= MAX_TEXT_CHARS
        &&& self.line_index@ == self.text@
    }

    /// A document with no navigation tree.
    pub fn new(specifier: ModuleSpecifier, text: &str) -> (r: AssetDocument)
        requires
            text@.len() <= MAX_TEXT_CHARS,
        ensures
            r.wf(),
            r.key() == specifier@,
            r.body() == text@,
            r.tree() is None,
    {
        AssetDocument {
            specifier,
            text: text.to_owned(),
            line_index: LineIndex::new(text),
            maybe_navigation_tree: None,
        }
    }

    /// The specifier that names the file.
    pub fn specifier(&self) -> (r: &ModuleSpecifier)
        ensures
            r@ == self.key(),
    {
        &self.specifier
    }

    /// The file's text.
    pub fn text(&self) -> (r: &str)
        ensures
            r@ == self.body(),
    {
        self.text.as_str()
    }

    /// The index of the file's text.
    pub fn line_index(&self) -> (r: &LineIndex)
        requires
            self.wf(),
        ensures
            r@ == self.body(),
            r@.len() <= MAX_TEXT_CHARS,
    {
        &self.line_index
    }

    /// The navigation tree attached to the file, if any.
    pub fn maybe_navigation_tree(&self) -> (r: Option<&NavigationTree>)
        ensures
            r is Some <==> self.tree() is Some,
            r is Some ==> *r->0 == self.tree()->0,
    {
        match &self.maybe_navigation_tree {
            Some(t) => Some(t),
            None => None,
        }
    }

    /// The same document with `tree` attached.
    pub fn with_navigation_tree(self, tree: NavigationTree) -> (r: AssetDocument)
        ensures
            r.wf() == self.wf(),
            r.key() == self.key(),
            r.body() == self.body(),
            r.tree() == Some(tree),
    {
        AssetDocument { maybe_navigation_tree: Some(tree), ..self }
    }
}

/// The entries of `new` keep those of `old` in place: same specifier, same
/// text, and the same navigation tree wherever one was attached.
pub open spec fn keeps(old: Seq<AssetDocument>, new: Seq<AssetDocument>) -> bool {
    &&& old.len() <= new.len()
    &&& forall|i: int|
        0 <= i < old.len() ==> {
            &&& #[trigger] new[i].key() == old[i].key()
            &&& new[i].body() == old[i].body()
            &&& old[i].tree() is Some ==> new[i].tree() == old[i].tree()
        }
}

/// Whether `d` is among `docs`, and no earlier one has its specifier.
pub open spec fn first_with_key(docs: Seq<AssetDocument>, d: AssetDocument) -> bool {
    exists|i: int|
        0 <= i < docs.len() && docs[i] == d && forall|j: int| 0 <= j < i ==> (#[trigger] docs[j]).key() != d.key()
}

/// Whether an entry of `docs` has specifier `k`.
pub open spec fn has_key(docs: Seq<AssetDocument>, k: Seq<char>) -> bool {
    exists|i: int| 0 <= i < docs.len() && #[trigger] docs[i].key() == k
}

/// The registry: entries with distinct specifiers.
pub struct Assets {
    docs: Vec<AssetDocument>,
}

impl Assets {
    /// The entries, in order of arrival.
    pub closed spec fn entries(&self) -> Seq<AssetDocument> {
        self.docs@
    }

    /// Specifiers are distinct and every entry is well formed.
    pub open spec fn wf(&self) -> bool {
        &&& forall|i: int, j: int|
            0 <= i < j < self.entries().len() ==> #[trigger] self.entries()[i].key()
                != #[trigger] self.entries()[j].key()
        &&& forall|i: int| 0 <= i < self.entries().len() ==> #[trigger] self.entries()[i].wf()
    }

    /// An empty registry.
    pub fn new() -> (r: Assets)
        ensures
            r.wf(),
            r.entries().len() == 0,
    {
        Assets { docs: Vec::new() }
    }

    /// A registry seeded from a table of built-in files, each named
    /// `asset:///<name>`. An entry whose name does not make a URL, whose
    /// specifier is already taken, or whose text is too long to index is left
    /// out.
    pub fn from_table(table: &Vec<(String, String)>) -> (r: Assets)
        ensures
            r.wf(),
            r.entries().len() <= table@.len(),
            forall|j: int|
                0 <= j < table@.len() && (#[trigger] table@[j]).1@.len() <= MAX_TEXT_CHARS && url_serialization(
                    "asset:///"@ + table@[j].0@,
                ) is Some ==> has_key(r.entries(), url_serialization("asset:///"@ + table@[j].0@)->0),
    {
        let mut assets = Assets::new();
        for j in 0..table.len()
            invariant
                assets.wf(),
                assets.entries().len() <= j,
                forall|k: int|
                    0 <= k < j && (#[trigger] table@[k]).1@.len() <= MAX_TEXT_CHARS && url_serialization(
                        "asset:///"@ + table@[k].0@,
                    ) is Some ==> has_key(assets.entries(), url_serialization("asset:///"@ + table@[k].0@)->0),
        {
            let url = concat("asset:///", table[j].0.as_str());
            if let Some(specifier) = ModuleSpecifier::parse(url.as_str()) {
                if chars_of(table[j].1.as_str()).len() <= MAX_TEXT_CHARS {
                    proof {
                        reveal_strlit("asset:///");
                    }
                    let doc = AssetDocument::new(specifier, table[j].1.as_str());
                    let ghost before = assets.entries();
                    assets.insert_if_absent(doc);
                    proof {
                        assert forall|k: int|
                            0 <= k < j + 1 && (#[trigger] table@[k]).1@.len() <= MAX_TEXT_CHARS && url_serialization(
                                "asset:///"@ + table@[k].0@,
                            ) is Some implies has_key(assets.entries(), url_serialization("asset:///"@ + table@[k].0@)->0) by {
                            let key = url_serialization("asset:///"@ + table@[k].0@)->0;
                            if k < j {
                                let w = choose|w: int| 0 <= w < before.len() && #[trigger] before[w].key() == key;
                                assert(assets.entries()[w].key() == before[w].key());
                            } else if has_key(before, key) {
                                let w = choose|w: int| 0 <= w < before.len() && #[trigger] before[w].key() == key;
                                assert(assets.entries()[w].key() == before[w].key());
                            } else {
                                assert(assets.entries()[before.len() as int].key() == key);
                            }
                        }
                    }
                }
            }
        }
        assets
    }

    /// Whether an entry has specifier `k`.
    pub fn contains_key(&self, k: &ModuleSpecifier) -> (r: bool)
        ensures
            r == has_key(self.entries(), k@),
    {
        match self.find(k) {
            Some(_) => true,
            None => false,
        }
    }

    fn find(&self, k: &ModuleSpecifier) -> (r: Option<usize>)
        ensures
            r is Some ==> r->0 < self.entries().len() && self.entries()[r->0 as int].key() == k@,
            r is None ==> !has_key(self.entries(), k@),
    {
        let mut i: usize = 0;
        while i < self.docs.len()
            invariant
                i <= self.entries().len(),
                forall|j: int| 0 <= j < i ==> #[trigger] self.entries()[j].key() != k@,
            decreases self.entries().len() - i,
        {
            if str_eq(self.docs[i].specifier.as_str(), k.as_str()) {
                return Some(i);
            }
            i = i + 1;
        }
        None
    }

    /// The entry with specifier `k`, if any.
    pub fn get(&self, k: &ModuleSpecifier) -> (r: Option<&AssetDocument>)
        ensures
            r is Some <==> has_key(self.entries(), k@),
            r is Some ==> exists|i: int|
                0 <= i < self.entries().len() && self.entries()[i].key() == k@ && *r->0
                    == self.entries()[i],
    {
        match self.find(k) {
            Some(i) => Some(&self.docs[i]),
            None => None,
        }
    }

    /// Adds `doc` unless an entry with its specifier exists.
    pub fn insert_if_absent(&mut self, doc: AssetDocument)
        requires
            old(self).wf(),
            doc.wf(),
        ensures
            final(self).wf(),
            keeps(old(self).entries(), final(self).entries()),
            has_key(old(self).entries(), doc.key()) ==> final(self).entries() == old(self).entries(),
            !has_key(old(self).entries(), doc.key()) ==> final(self).entries() == old(
                self,
            ).entries().push(doc),
    {
        match self.find(&doc.specifier) {
            Some(_) => {},
            None => {
                self.docs.push(doc);
            },
        }
    }

    /// Merges the documents the analyzer reports: each one whose specifier is
    /// not yet taken is added, in order.
    pub fn initialize(&mut self, docs: Vec<AssetDocument>)
        requires
            old(self).wf(),
            forall|i: int| 0 <= i < docs@.len() ==> #[trigger] docs@[i].wf(),
        ensures
            final(self).wf(),
            keeps(old(self).entries(), final(self).entries()),
            forall|i: int| 0 <= i < docs@.len() ==> has_key(final(self).entries(), #[trigger] docs@[i].key()),
            forall|m: int|
                old(self).entries().len() <= m < final(self).entries().len() ==> first_with_key(
                    docs@,
                    #[trigger] final(self).entries()[m],
                ),
    {
        let ghost start = self.entries();
        let ghost all = docs@;
        for doc in it: docs
            invariant
                self.wf(),
                it.seq() == all,
                forall|i: int| 0 <= i < all.len() ==> #[trigger] all[i].wf(),
                keeps(start, self.entries()),
                forall|i: int| 0 <= i < it.index() ==> has_key(self.entries(), #[trigger] all[i].key()),
                forall|m: int| start.len() <= m < self.entries().len() ==> first_with_key(all, #[trigger] self.entries()[m]),
        {
            let ghost before = self.entries();
            let ghost idx = it.index();
            self.insert_if_absent(doc);
            proof {
                if !has_key(before, all[idx].key()) {
                    assert forall|j: int| 0 <= j < idx implies all[j].key() != all[idx].key() by {
                        assert(has_key(before, all[j].key()));
                    }
                    assert(first_with_key(all, self.entries()[before.len() as int])) by {
                        assert(self.entries()[before.len() as int] == all[idx]);
                    }
                }
                assert forall|m: int| start.len() <= m < self.entries().len() implies first_with_key(
                    all,
                    #[trigger] self.entries()[m],
                ) by {
                    if m < before.len() {
                        assert(self.entries()[m] == before[m]);
                    }
                }
                lemma_assets_monotone(start, before, self.entries());
                assert forall|i: int| 0 <= i < it.index() + 1 implies has_key(self.entries(), #[trigger] all[i].key()) by {
                    if i < it.index() {
                        let w = choose|w: int| 0 <= w < before.len() && #[trigger] before[w].key() == all[i].key();
                        assert(self.entries()[w].key() == before[w].key());
                    } else {
                        if !has_key(before, all[i].key()) {
                            assert(self.entries()[before.len() as int].key() == all[i].key());
                        } else {
                            let w = choose|w: int| 0 <= w < before.len() && #[trigger] before[w].key() == all[i].key();
                            assert(self.entries()[w].key() == before[w].key());
                        }
                    }
                }
            }
        }
    }

    /// Attaches `tree` to the entry with specifier `k`, unless one is
    /// attached already; `MissingAsset` where no entry has that specifier.
    pub fn cache_navigation_tree(&mut self, k: &ModuleSpecifier, tree: NavigationTree) -> (r: Result<(), BridgeError>)
        requires
            old(self).wf(),
        ensures
            final(self).wf(),
            keeps(old(self).entries(), final(self).entries()),
            final(self).entries().len() == old(self).entries().len(),
            r is Ok <==> has_key(old(self).entries(), k@),
            r is Err ==> r == Err::<(), BridgeError>(BridgeError::MissingAsset),
            r is Err ==> final(self).entries() == old(self).entries(),
            forall|i: int|
                0 <= i < final(self).entries().len() && #[trigger] final(self).entries()[i].key() != k@
                    ==> final(self).entries()[i] == old(self).entries()[i],
            r is Ok ==> forall|i: int|
                0 <= i < final(self).entries().len() && #[trigger] final(self).entries()[i].key() == k@
                    ==> final(self).entries()[i].tree() is Some && (old(self).entries()[i].tree() is None
                    ==> final(self).entries()[i].tree() == Some(tree)),
    {
        match self.find(k) {
            None => Err(BridgeError::MissingAsset),
            Some(i) => {
                if self.docs[i].maybe_navigation_tree.is_some() {
                    return Ok(());
                }
                let ghost before = self.entries();
                proof {
                    reveal_strlit("");
                }
                let mut slot = AssetDocument::new(ModuleSpecifier { href: String::new() }, "");
                self.docs.set_and_swap(i, &mut slot);
                let updated = slot.with_navigation_tree(tree);
                let mut put = updated;
                self.docs.set_and_swap(i, &mut put);
                assert(self.entries() == before.update(i as int, updated));
                Ok(())
            },
        }
    }
}

/// Once an entry exists, its text never changes, and a navigation tree once
/// attached to it never changes: keeping entries in place composes over any
/// run of registry updates.
pub proof fn lemma_assets_monotone(a: Seq<AssetDocument>, b: Seq<AssetDocument>, c: Seq<AssetDocument>)
    requires
        keeps(a, b),
        keeps(b, c),
    ensures
        keeps(a, c),
{
    assert forall|i: int| 0 <= i < a.len() implies {
        &&& #[trigger] c[i].key() == a[i].key()
        &&& c[i].body() == a[i].body()
        &&& a[i].tree() is Some ==> c[i].tree() == a[i].tree()
    } by {
        assert(b[i].key() == a[i].key());
        assert(c[i].key() == b[i].key());
    }
}

} // verus!
