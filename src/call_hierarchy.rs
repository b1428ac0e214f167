//! Call hierarchy items of the analyzer turned into editor items.
use vstd::prelude::*;
use crate::kinds::{ScriptElementKind, SymbolKind, symbol_kind_of};
use crate::line_index::{LineIndex, Range, TextSpan, MAX_TEXT_CHARS};
use crate::completion::{parse_kind_modifier, contains_modifier, modifier_list, opt_str};
use crate::responses::{range_of, no_range, ResolvedDocument};
use crate::strings::{concat, str_eq, starts_with, ends_with, has_prefix, has_suffix, chars_of, string_of};
use crate::docs::slice_chars;

verus! {

/// The index of the last `c` in `s`.
pub open spec fn last_index_of(s: Seq<char>, c: char) -> Option<nat>
    decreases s.len(),
{
    if s.len() == 0 {
        None
    } else if s.last() == c {
        Some((s.len() - 1) as nat)
    } else {
        last_index_of(s.drop_last(), c)
    }
}

proof fn lemma_last_index_bound(s: Seq<char>, c: char)
    ensures
        last_index_of(s, c) is Some ==> last_index_of(s, c)->0 < s.len(),
    decreases s.len(),
{
    if s.len() > 0 && s.last() != c {
        lemma_last_index_bound(s.drop_last(), c);
    }
}

fn find_last(s: &Vec<char>, c: char) -> (r: Option<usize>)
    ensures
        match r {
            Some(i) => last_index_of(s@, c) == Some(i as nat),
            None => last_index_of(s@, c) is None,
        },
{
    let mut i = s.len();
    assert(s@.take(i as int) =~= s@);
    while i > 0
        invariant
            i <= s@.len(),
            last_index_of(s@, c) == last_index_of(s@.take(i as int), c),
        decreases i,
    {
        assert(s@.take(i as int).drop_last() =~= s@.take(i - 1));
        if s[i - 1] == c {
            return Some(i - 1);
        }
        i = i - 1;
    }
    assert(s@.take(0) =~= Seq::<char>::empty());
    None
}

/// The last component of a `/`-separated path.
pub open spec fn base_name(p: Seq<char>) -> Seq<char> {
    match last_index_of(p, '/') {
        Some(k) => p.skip(k + 1 as int),
        None => p,
    }
}

/// The directory of a `/`-separated path: the root stays `/`.
pub open spec fn parent_dir(p: Seq<char>) -> Seq<char> {
    match last_index_of(p, '/') {
        Some(k) => if k == 0 {
            "/"@
        } else {
            p.take(k as int)
        },
        None => ""@,
    }
}

/// `dir` relative to `root` where it lies inside it, else unchanged.
pub open spec fn relative_dir(dir: Seq<char>, root: Option<Seq<char>>) -> Seq<char> {
    match root {
        Some(r) => if dir == r {
            ""@
        } else if has_suffix(r, "/"@) && has_prefix(dir, r) {
            dir.skip(r.len() as int)
        } else if has_prefix(dir, r + "/"@) {
            dir.skip(r.len() + 1 as int)
        } else {
            dir
        },
        None => dir,
    }
}

/// A call hierarchy item, as the analyzer reports it.
#[derive(Clone, Debug)]
pub struct CallHierarchyItem {
    pub name: String,
    pub kind: ScriptElementKind,
    pub kind_modifiers: Option<String>,
    pub file: String,
    pub span: TextSpan,
    pub selection_span: TextSpan,
    pub container_name: Option<String>,
}

/// A call hierarchy item as the editor shows it.
#[derive(Clone, Debug)]
pub struct EditorCallHierarchyItem {
    pub name: String,
    pub kind: SymbolKind,
    pub deprecated: bool,
    pub uri: String,
    pub detail: String,
    pub range: Range,
    pub selection_range: Range,
}

/// Whether an item stands for a whole file.
pub open spec fn source_file_item(i: &CallHierarchyItem) -> bool {
    i.kind == ScriptElementKind::ScriptElement || (i.kind == ScriptElementKind::ModuleElement
        && i.selection_span.start == 0)
}

/// The local path shown for an item in the document at `uri`: only `file:`
/// URIs have one.
pub open spec fn shown_path(uri: Seq<char>, file_path: Option<Seq<char>>) -> Option<Seq<char>> {
    if has_prefix(uri, "file:"@) {
        file_path
    } else {
        None
    }
}

/// The name shown for an item.
pub open spec fn item_name(i: &CallHierarchyItem, uri: Seq<char>, file_path: Option<Seq<char>>) -> Seq<char> {
    if source_file_item(i) {
        match shown_path(uri, file_path) {
            Some(p) => base_name(p),
            None => uri,
        }
    } else {
        i.name@
    }
}

/// The detail shown for an item.
pub open spec fn item_detail(
    i: &CallHierarchyItem,
    uri: Seq<char>,
    file_path: Option<Seq<char>>,
    root: Option<Seq<char>>,
) -> Seq<char> {
    if source_file_item(i) {
        match shown_path(uri, file_path) {
            Some(p) => relative_dir(parent_dir(p), root),
            None => ""@,
        }
    } else {
        match opt_str(i.container_name) {
            Some(c) => c,
            None => ""@,
        }
    }
}

fn opt_view(o: Option<&str>) -> (r: Option<String>)
    ensures
        opt_str(r) == match o { Some(s) => Some(s@), None => None },
{
    match o {
        Some(s) => Some(s.to_owned()),
        None => None,
    }
}

fn base_name_of(p: &str) -> (r: String)
    ensures
        r@ == base_name(p@),
{
    let v = chars_of(p);
    match find_last(&v, '/') {
        Some(k) => {
            proof {
                lemma_last_index_bound(v@, '/');
            }
            assert(k < v.len());
            let w = slice_chars(&v, k + 1, v.len());
            assert(w@ =~= p@.skip(k + 1 as int));
            string_of(&w)
        },
        None => p.to_owned(),
    }
}

fn parent_dir_of(p: &str) -> (r: String)
    ensures
        r@ == parent_dir(p@),
{
    proof {
        reveal_strlit("/");
        reveal_strlit("");
    }
    let v = chars_of(p);
    match find_last(&v, '/') {
        Some(k) => {
            proof {
                lemma_last_index_bound(v@, '/');
            }
            if k == 0 {
                "/".to_owned()
            } else {
                let w = slice_chars(&v, 0, k);
                assert(w@ =~= p@.take(k as int));
                string_of(&w)
            }
        },
        None => String::new(),
    }
}

fn relative_dir_of(dir: &str, root: Option<&str>) -> (r: String)
    ensures
        r@ == relative_dir(dir@, match root { Some(s) => Some(s@), None => None }),
{
    proof {
        reveal_strlit("");
        reveal_strlit("/");
    }
    match root {
        None => dir.to_owned(),
        Some(r) => {
            let dv = chars_of(dir);
            let rv = chars_of(r);
            if str_eq(dir, r) {
                String::new()
            } else if ends_with(r, "/") && starts_with(dir, r) {
                let w = slice_chars(&dv, rv.len(), dv.len());
                assert(w@ =~= dir@.skip(r@.len() as int));
                string_of(&w)
            } else {
                let with_slash = concat(r, "/");
                if starts_with(dir, with_slash.as_str()) {
                    assert(rv.len() < dv.len());
                    let w = slice_chars(&dv, rv.len() + 1, dv.len());
                    assert(w@ =~= dir@.skip(r@.len() + 1 as int));
                    string_of(&w)
                } else {
                    dir.to_owned()
                }
            }
        },
    }
}

impl CallHierarchyItem {
    /// Whether this item stands for a whole file: a script, or a module
    /// selected from its very start.
    pub fn is_source_file_item(&self) -> (r: bool)
        ensures
            r == source_file_item(self),
    {
        self.kind == ScriptElementKind::ScriptElement || self.kind == ScriptElementKind::ModuleElement
            && self.selection_span.start == 0
    }

    /// The editor item in the document at `uri`, whose local path is
    /// `file_path` and whose workspace root is `root`: a file shows its base
    /// name, with its directory relative to the root as detail; anything
    /// else shows its name, with its container as detail.
    pub fn to_call_hierarchy_item(
        &self,
        line_index: &LineIndex,
        uri: &str,
        file_path: Option<&str>,
        root: Option<&str>,
    ) -> (r: Option<EditorCallHierarchyItem>)
        requires
            line_index@.len() <= MAX_TEXT_CHARS,
        ensures
            r is None <==> no_range(line_index@, self.span) || no_range(line_index@, self.selection_span),
            r is Some ==> {
                let it = r->0;
                let fp = match file_path { Some(s) => Some(s@), None => None };
                let rt = match root { Some(s) => Some(s@), None => None };
                &&& it.name@ == item_name(self, uri@, fp)
                &&& it.detail@ == item_detail(self, uri@, fp, rt)
                &&& it.kind == symbol_kind_of(self.kind)
                &&& it.deprecated == (self.kind_modifiers is Some && modifier_list(
                    self.kind_modifiers->0@,
                ).contains("deprecated"@))
                &&& it.uri@ == uri@
                &&& range_of(line_index@, self.span, it.range)
                &&& range_of(line_index@, self.selection_span, it.selection_range)
            },
    {
        let range = match self.span.to_range(line_index) {
            Some(r) => r,
            None => {
                return None;
            },
        };
        let selection_range = match self.selection_span.to_range(line_index) {
            Some(r) => r,
            None => {
                return None;
            },
        };
        let use_file_name = self.is_source_file_item();
        let maybe_file_path = if starts_with(uri, "file:") {
            opt_view(file_path)
        } else {
            None
        };
        proof {
            reveal_strlit("");
        }
        let name = if use_file_name {
            match &maybe_file_path {
                Some(p) => base_name_of(p.as_str()),
                None => uri.to_owned(),
            }
        } else {
            self.name.clone()
        };
        let detail = if use_file_name {
            match &maybe_file_path {
                Some(p) => {
                    let parent = parent_dir_of(p.as_str());
                    relative_dir_of(parent.as_str(), root)
                },
                None => String::new(),
            }
        } else {
            match &self.container_name {
                Some(c) => c.clone(),
                None => String::new(),
            }
        };
        let deprecated = match &self.kind_modifiers {
            Some(m) => {
                let mods = parse_kind_modifier(m.as_str());
                contains_modifier(&mods, "deprecated")
            },
            None => false,
        };
        Some(EditorCallHierarchyItem {
            name,
            kind: SymbolKind::from(self.kind),
            deprecated,
            uri: uri.to_owned(),
            detail,
            range,
            selection_range,
        })
    }
}

fn ranges_of(spans: &Vec<TextSpan>, line_index: &LineIndex) -> (r: Option<Vec<Range>>)
    requires
        line_index@.len() <= MAX_TEXT_CHARS,
    ensures
        r is None <==> exists|k: int| 0 <= k < spans@.len() && no_range(line_index@, #[trigger] spans@[k]),
        r is Some ==> r->0@.len() == spans@.len() && forall|k: int|
            0 <= k < spans@.len() ==> range_of(line_index@, spans@[k], #[trigger] r->0@[k]),
{
    let mut out: Vec<Range> = Vec::new();
    for i in 0..spans.len()
        invariant
            line_index@.len() <= MAX_TEXT_CHARS,
            out@.len() == i,
            forall|k: int| 0 <= k < i ==> !no_range(line_index@, #[trigger] spans@[k]),
            forall|k: int| 0 <= k < i ==> range_of(line_index@, spans@[k], #[trigger] out@[k]),
    {
        match spans[i].to_range(line_index) {
            Some(r) => {
                proof {
                    crate::line_index::lemma_position_unique(line_index@, spans@[i as int].start as nat, r.start@);
                    crate::line_index::lemma_position_unique(line_index@, spans@[i as int].end_spec(), r.end@);
                }
                out.push(r);
            },
            None => {
                return None;
            },
        }
    }
    Some(out)
}

/// A caller, as the analyzer reports it.
#[derive(Clone, Debug)]
pub struct CallHierarchyIncomingCall {
    pub from: CallHierarchyItem,
    pub from_spans: Vec<TextSpan>,
}

/// A caller as the editor shows it.
#[derive(Clone, Debug)]
pub struct EditorIncomingCall {
    pub from: EditorCallHierarchyItem,
    pub from_ranges: Vec<Range>,
}

impl CallHierarchyIncomingCall {
    /// The editor caller; `target` is the document the caller lies in, and
    /// the call sites are ranges of it.
    pub fn try_resolve_call_hierarchy_incoming_call(
        &self,
        target: &ResolvedDocument,
        file_path: Option<&str>,
        root: Option<&str>,
    ) -> (r: Option<EditorIncomingCall>)
        requires
            target.line_index@.len() <= MAX_TEXT_CHARS,
        ensures
            r is Some ==> r->0.from_ranges@.len() == self.from_spans@.len() && r->0.from.uri@ == target.uri@
                && forall|k: int|
                0 <= k < self.from_spans@.len() ==> range_of(
                    target.line_index@,
                    self.from_spans@[k],
                    #[trigger] r->0.from_ranges@[k],
                ),
    {
        let from = match self.from.to_call_hierarchy_item(&target.line_index, target.uri.as_str(), file_path, root) {
            Some(f) => f,
            None => {
                return None;
            },
        };
        match ranges_of(&self.from_spans, &target.line_index) {
            Some(from_ranges) => Some(EditorIncomingCall { from, from_ranges }),
            None => None,
        }
    }
}

/// A callee, as the analyzer reports it.
#[derive(Clone, Debug)]
pub struct CallHierarchyOutgoingCall {
    pub to: CallHierarchyItem,
    pub from_spans: Vec<TextSpan>,
}

/// A callee as the editor shows it.
#[derive(Clone, Debug)]
pub struct EditorOutgoingCall {
    pub to: EditorCallHierarchyItem,
    pub from_ranges: Vec<Range>,
}

impl CallHierarchyOutgoingCall {
    /// The editor callee; `target` is the document the callee lies in, and
    /// the call sites are ranges of the calling document, `line_index`.
    pub fn try_resolve_call_hierarchy_outgoing_call(
        &self,
        line_index: &LineIndex,
        target: &ResolvedDocument,
        file_path: Option<&str>,
        root: Option<&str>,
    ) -> (r: Option<EditorOutgoingCall>)
        requires
            line_index@.len() <= MAX_TEXT_CHARS,
            target.line_index@.len() <= MAX_TEXT_CHARS,
        ensures
            r is Some ==> r->0.from_ranges@.len() == self.from_spans@.len() && r->0.to.uri@ == target.uri@
                && forall|k: int|
                0 <= k < self.from_spans@.len() ==> range_of(line_index@, self.from_spans@[k], #[trigger] r->0.from_ranges@[k]),
    {
        let to = match self.to.to_call_hierarchy_item(&target.line_index, target.uri.as_str(), file_path, root) {
            Some(t) => t,
            None => {
                return None;
            },
        };
        match ranges_of(&self.from_spans, line_index) {
            Some(from_ranges) => Some(EditorOutgoingCall { to, from_ranges }),
            None => None,
        }
    }
}

} // verus!
