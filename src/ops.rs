//! The decisions behind the callbacks the analyzer makes during a call.
use vstd::prelude::*;
use crate::assets::{Assets, has_key};
use crate::specifier::{ModuleSpecifier, is_asset_uri};
use crate::completion::opt_str;
use crate::strings::str_eq;

verus! {

/// The specifier of the injected node type declarations.
pub const NODE_TYPES_SPECIFIER: &'static str = "asset:///node_types.d.ts";

/// The script version of a document: `1` for a known asset, nothing for an
/// unknown one, and the document store's version for anything else.
pub open spec fn script_version_of(specifier: Seq<char>, assets: &Assets, doc_version: Option<Seq<char>>) -> Option<Seq<char>> {
    if is_asset_uri(specifier) {
        if has_key(assets.entries(), specifier) {
            Some("1"@)
        } else {
            None
        }
    } else {
        doc_version
    }
}

/// The script version of `specifier`; `doc_version` is what the document
/// store holds for it.
pub fn script_version(specifier: &ModuleSpecifier, assets: &Assets, doc_version: Option<String>) -> (r: Option<String>)
    ensures
        opt_str(r) == script_version_of(specifier@, assets, opt_str(doc_version)),
{
    if specifier.is_asset() {
        if assets.contains_key(specifier) {
            Some("1".to_owned())
        } else {
            None
        }
    } else {
        doc_version
    }
}

/// The program roots after offering the candidates `c[0..n]`: a candidate
/// `(name, resolved)` not seen before is marked seen, and its resolved form,
/// where there is one and it is not listed yet, is listed.
pub open spec fn roots_after(
    init: (Seq<Seq<char>>, Seq<Seq<char>>),
    c: Seq<(Seq<char>, Option<Seq<char>>)>,
    n: nat,
) -> (Seq<Seq<char>>, Seq<Seq<char>>)
    decreases n,
{
    if n == 0 || n > c.len() {
        init
    } else {
        let (seen, out) = roots_after(init, c, (n - 1) as nat);
        let (name, resolved) = c[n - 1];
        if seen.contains(name) {
            (seen, out)
        } else {
            (seen.push(name), match resolved {
                Some(r) => if out.contains(r) {
                    out
                } else {
                    out.push(r)
                },
                None => out,
            })
        }
    }
}

/// The candidates of the script names: the module graph's imports as they
/// are, then the documents' specifiers and dependencies as resolved.
pub open spec fn root_candidates(imports: Seq<String>, docs: Seq<(String, Option<String>)>) -> Seq<(Seq<char>, Option<Seq<char>>)> {
    Seq::new(imports.len(), |i: int| (imports[i]@, Some(imports[i]@))) + Seq::new(
        docs.len(),
        |i: int| (docs[i].0@, opt_str(docs[i].1)),
    )
}

/// The listed roots never repeat.
pub proof fn lemma_roots_distinct(init: (Seq<Seq<char>>, Seq<Seq<char>>), c: Seq<(Seq<char>, Option<Seq<char>>)>, n: nat)
    requires
        init.1.no_duplicates(),
    ensures
        roots_after(init, c, n).1.no_duplicates(),
    decreases n,
{
    if n > 0 && n <= c.len() {
        lemma_roots_distinct(init, c, (n - 1) as nat);
        let out = roots_after(init, c, (n - 1) as nat).1;
        let (seen, _) = roots_after(init, c, (n - 1) as nat);
        if !seen.contains(c[n - 1].0) {
            if let Some(r) = c[n - 1].1 {
                if !out.contains(r) {
                    let o2 = out.push(r);
                    assert forall|i: int, j: int| 0 <= i < o2.len() && 0 <= j < o2.len() && i != j implies o2[i] != o2[j] by {
                        if i == out.len() as int {
                            assert(out[j] == o2[j]);
                        } else if j == out.len() as int {
                            assert(out[i] == o2[i]);
                        }
                    }
                }
            }
        }
    }
}

/// The start of the roots: the node types first where they are injected.
pub open spec fn roots_start(node_types: bool) -> (Seq<Seq<char>>, Seq<Seq<char>>) {
    if node_types {
        (seq![NODE_TYPES_SPECIFIER@], seq![NODE_TYPES_SPECIFIER@])
    } else {
        (Seq::empty(), Seq::empty())
    }
}

fn seen_contains(seen: &Vec<String>, s: &str) -> (r: bool)
    ensures
        r == seen@.map_values(|x: String| x@).contains(s@),
{
    let ghost v = seen@.map_values(|x: String| x@);
    let mut i: usize = 0;
    while i < seen.len()
        invariant
            i <= seen@.len(),
            v == seen@.map_values(|x: String| x@),
            forall|k: int| 0 <= k < i ==> v[k] != s@,
        decreases seen@.len() - i,
    {
        if str_eq(seen[i].as_str(), s) {
            assert(v[i as int] == s@);
            return true;
        }
        i = i + 1;
    }
    false
}

/// The specifiers the analyzer treats as program roots, without repeats:
/// the injected node types first where `node_types` says so, then the module
/// graph's imports, then each diagnosable document and its dependencies.
/// `docs` lists those as `(specifier, resolved)`, where `resolved` is the
/// redirect target when that document exists. No root is listed twice.
pub fn script_names(node_types: bool, imports: &Vec<String>, docs: &Vec<(String, Option<String>)>) -> (r: Vec<String>)
    ensures
        r@.map_values(|x: String| x@) == roots_after(
            roots_start(node_types),
            root_candidates(imports@, docs@),
            root_candidates(imports@, docs@).len(),
        ).1,
        r@.map_values(|x: String| x@).no_duplicates(),
{
    let ghost cands = root_candidates(imports@, docs@);
    let mut seen: Vec<String> = Vec::new();
    let mut out: Vec<String> = Vec::new();
    if node_types {
        seen.push(NODE_TYPES_SPECIFIER.to_owned());
        out.push(NODE_TYPES_SPECIFIER.to_owned());
    }
    assert(seen@.map_values(|x: String| x@) =~= roots_start(node_types).0);
    assert(out@.map_values(|x: String| x@) =~= roots_start(node_types).1);
    let n = imports.len();
    for i in 0..n
        invariant
            n == imports@.len(),
            cands == root_candidates(imports@, docs@),
            (seen@.map_values(|x: String| x@), out@.map_values(|x: String| x@)) == roots_after(
                roots_start(node_types),
                cands,
                i as nat,
            ),
    {
        let name = &imports[i];
        assert(cands[i as int] == (imports@[i as int]@, Some(imports@[i as int]@)));
        if !seen_contains(&seen, name.as_str()) {
            seen.push(name.clone());
            if !seen_contains(&out, name.as_str()) {
                out.push(name.clone());
                assert(out@.map_values(|x: String| x@) =~= roots_after(roots_start(node_types), cands, i as nat).1.push(name@));
            }
            assert(seen@.map_values(|x: String| x@) =~= roots_after(roots_start(node_types), cands, i as nat).0.push(name@));
        }
    }
    for j in 0..docs.len()
        invariant
            n == imports@.len(),
            cands == root_candidates(imports@, docs@),
            (seen@.map_values(|x: String| x@), out@.map_values(|x: String| x@)) == roots_after(
                roots_start(node_types),
                cands,
                (n + j) as nat,
            ),
    {
        let (name, resolved) = &docs[j];
        assert(cands[n + j] == (docs@[j as int].0@, opt_str(docs@[j as int].1)));
        if !seen_contains(&seen, name.as_str()) {
            seen.push(name.clone());
            assert(seen@.map_values(|x: String| x@) =~= roots_after(roots_start(node_types), cands, (n + j) as nat).0.push(name@));
            if let Some(r) = resolved {
                if !seen_contains(&out, r.as_str()) {
                    out.push(r.clone());
                    assert(out@.map_values(|x: String| x@) =~= roots_after(roots_start(node_types), cands, (n + j) as nat).1.push(r@));
                }
            }
        }
    }
    proof {
        lemma_roots_distinct(roots_start(node_types), cands, cands.len());
    }
    out
}

} // verus!
