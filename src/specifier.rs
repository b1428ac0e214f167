//! Module specifiers and their reversible normalization.
//!
//! The analyzer sometimes names a declaration file with a doubled extension
//! (`x.d.ts.d.ts`). Such names are collapsed before they are parsed as URLs,
//! and the original spelling is remembered so that it can be restored when the
//! specifier is sent back to the analyzer.
use vstd::prelude::*;
use crate::strings::{replaced, replace_all, str_eq, starts_with, has_prefix};

verus! {

/// What `url::Url::parse` followed by serialization gives for a text, or
/// `None` where the text is not an absolute URL.
pub uninterp spec fn url_serialization(s: Seq<char>) -> Option<Seq<char>>;

/// Relies on `url::Url::parse`: parses an absolute URL; the serialization of
/// the parsed value is returned.
#[verifier::external_body]
fn parse_url(s: &str) -> (r: Option<String>)
    ensures
        r is Some <==> url_serialization(s@) is Some,
        r is Some ==> url_serialization(s@) == Some(r->0@),
{
    url::Url::parse(s).ok().map(|u| u.to_string())
}

/// An absolute URI naming a source, held as its serialized form.
#[derive(Clone, Debug)]
pub struct ModuleSpecifier {
    pub href: String,
}

impl View for ModuleSpecifier {
    type V = Seq<char>;

    open spec fn view(&self) -> Seq<char> {
        self.href@
    }
}

impl ModuleSpecifier {
    /// Parses `s` as an absolute URL.
    pub fn parse(s: &str) -> (r: Option<ModuleSpecifier>)
        ensures
            r is Some <==> url_serialization(s@) is Some,
            r is Some ==> url_serialization(s@) == Some(r->0@),
    {
        match parse_url(s) {
            Some(href) => Some(ModuleSpecifier { href }),
            None => None,
        }
    }

    /// The serialized form.
    pub fn as_str(&self) -> (r: &str)
        ensures
            r@ == self@,
    {
        self.href.as_str()
    }

    /// Whether the scheme is `asset`.
    pub fn is_asset(&self) -> (r: bool)
        ensures
            r == is_asset_uri(self@),
    {
        starts_with(self.href.as_str(), "asset:")
    }
}

/// Whether a serialized URL has the `asset` scheme.
pub open spec fn is_asset_uri(s: Seq<char>) -> bool {
    has_prefix(s, "asset:"@)
}

/// The spelling of `s` with doubled declaration extensions collapsed.
pub open spec fn collapsed(s: Seq<char>) -> Seq<char> {
    replaced(s, ".d.ts.d.ts"@, ".d.ts"@)
}

/// The original spelling recorded for `k`, the most recent record first.
pub open spec fn lookup(es: Seq<(Seq<char>, Seq<char>)>, k: Seq<char>) -> Option<Seq<char>>
    decreases es.len(),
{
    if es.len() == 0 {
        None
    } else if es.last().0 == k {
        Some(es.last().1)
    } else {
        lookup(es.drop_last(), k)
    }
}

/// The records after normalizing `s`: one is added where collapsing changed it.
pub open spec fn after_normalize(es: Seq<(Seq<char>, Seq<char>)>, s: Seq<char>) -> Seq<(Seq<char>, Seq<char>)> {
    if collapsed(s) != s {
        es.push((collapsed(s), s))
    } else {
        es
    }
}

/// The text sent back to the analyzer for a specifier serialized as `k`.
pub open spec fn denormalized(es: Seq<(Seq<char>, Seq<char>)>, k: Seq<char>) -> Seq<char> {
    match lookup(es, k) {
        Some(orig) => orig,
        None => k,
    }
}

/// Why a specifier named by the analyzer could not be used.
#[derive(Clone, Copy, Debug, PartialEq, Eq)]
pub enum SpecifierError {
    /// The (collapsed) text is not an absolute URL.
    InvalidUrl,
}

/// Remembers the original spelling of every specifier whose normalization
/// changed it.
pub struct SpecifierMap {
    entries: Vec<(String, String)>,
}

impl View for SpecifierMap {
    type V = Seq<(Seq<char>, Seq<char>)>;

    closed spec fn view(&self) -> Seq<(Seq<char>, Seq<char>)> {
        self.entries@.map_values(|e: (String, String)| (e.0@, e.1@))
    }
}

impl SpecifierMap {
    /// A map with no records.
    pub fn new() -> (r: SpecifierMap)
        ensures
            r@ == Seq::<(Seq<char>, Seq<char>)>::empty(),
    {
        let r = SpecifierMap { entries: Vec::new() };
        assert(r@ =~= Seq::<(Seq<char>, Seq<char>)>::empty());
        r
    }

    /// The recorded original spelling of the normalized text `k`, if any.
    pub fn get(&self, k: &str) -> (r: Option<String>)
        ensures
            r is Some <==> lookup(self@, k@) is Some,
            r is Some ==> lookup(self@, k@) == Some(r->0@),
    {
        let mut i: usize = self.entries.len();
        assert(self@.take(i as int) =~= self@);
        while i > 0
            invariant
                i <= self.entries@.len(),
                lookup(self@, k@) == lookup(self@.take(i as int), k@),
            decreases i,
        {
            let ghost pre = self@.take(i as int);
            assert(pre.drop_last() =~= self@.take(i - 1));
            if str_eq(self.entries[i - 1].0.as_str(), k) {
                return Some(self.entries[i - 1].1.clone());
            }
            i = i - 1;
        }
        None
    }

    /// Collapses doubled declaration extensions in `s`, records the original
    /// spelling where that changed the text, and parses the result.
    pub fn normalize_specifier(&mut self, s: &str) -> (r: Result<ModuleSpecifier, SpecifierError>)
        ensures
            final(self)@ == after_normalize(old(self)@, s@),
            r is Ok <==> url_serialization(collapsed(s@)) is Some,
            r is Ok ==> url_serialization(collapsed(s@)) == Some(r->Ok_0@),
    {
        proof {
            reveal_strlit(".d.ts.d.ts");
        }
        let text = replace_all(s, ".d.ts.d.ts", ".d.ts");
        if !str_eq(text.as_str(), s) {
            let ghost before = self@;
            self.entries.push((text.clone(), s.to_owned()));
            assert(self@ =~= before.push((text@, s@)));
        }
        match ModuleSpecifier::parse(text.as_str()) {
            Some(m) => Ok(m),
            None => Err(SpecifierError::InvalidUrl),
        }
    }

    /// The recorded original spelling of `specifier`, or its serialized form.
    pub fn denormalize_specifier(&self, specifier: &ModuleSpecifier) -> (r: String)
        ensures
            r@ == denormalized(self@, specifier@),
    {
        match self.get(specifier.as_str()) {
            Some(orig) => orig,
            None => specifier.href.clone(),
        }
    }
}

/// Collapses doubled declaration extensions in `s` and parses the result,
/// without recording anything.
pub fn normalize_specifier(s: &str) -> (r: Result<ModuleSpecifier, SpecifierError>)
    ensures
        r is Ok <==> url_serialization(collapsed(s@)) is Some,
        r is Ok ==> url_serialization(collapsed(s@)) == Some(r->Ok_0@),
        r is Err ==> r == Err::<ModuleSpecifier, SpecifierError>(SpecifierError::InvalidUrl),
{
    proof {
        reveal_strlit(".d.ts.d.ts");
    }
    let text = replace_all(s, ".d.ts.d.ts", ".d.ts");
    match ModuleSpecifier::parse(text.as_str()) {
        Some(m) => Ok(m),
        None => Err(SpecifierError::InvalidUrl),
    }
}

/// Restoring a specifier right after normalizing it gives back the text the
/// analyzer sent, wherever the collapsed text is already in the serialized
/// form of a URL and, for a text that collapsing leaves alone, no earlier
/// record claims it.
pub proof fn lemma_denormalize_normalize(es: Seq<(Seq<char>, Seq<char>)>, s: Seq<char>)
    requires
        url_serialization(collapsed(s)) == Some(collapsed(s)),
        collapsed(s) == s ==> lookup(es, s) is None,
    ensures
        denormalized(after_normalize(es, s), url_serialization(collapsed(s))->0) == s,
{
    if collapsed(s) != s {
        let es2 = es.push((collapsed(s), s));
        assert(es2.last() == (collapsed(s), s));
    }
}

} // verus!
