//! The analyzer's navigation trees and the document symbols built from them.
use vstd::prelude::*;
use crate::kinds::{ScriptElementKind, SymbolKind};
use crate::line_index::{LineIndex, Range, TextSpan, MAX_TEXT_CHARS};
use crate::completion::{parse_kind_modifier, contains_modifier, modifier_list};
use crate::strings::concat;
use crate::responses::{range_of, no_range};
use crate::kinds::symbol_kind_of;
use crate::strings::str_eq;


verus! {

/// One node of the analyzer's outline of a file.
#[derive(Debug)]
pub struct NavigationTree {
    pub text: String,
    pub kind: ScriptElementKind,
    pub kind_modifiers: String,
    pub spans: Vec<TextSpan>,
    pub name_span: Option<TextSpan>,
    pub child_items: Option<Vec<NavigationTree>>,
}

/// Whether a node is shown as a symbol of its own.
pub open spec fn includes_entry(t: &NavigationTree) -> bool {
    &&& t.kind != ScriptElementKind::Alias
    &&& t.text@ != ""@
    &&& t.text@ != "<function>"@
    &&& t.text@ != "<class>"@
}

/// Whether two spans share at least one offset, or touch where one is empty.
pub open spec fn spans_intersect(a: TextSpan, b: TextSpan) -> bool {
    &&& a.start <= b.end_spec()
    &&& b.start <= a.end_spec()
}

/// Whether span `outer` holds span `inner`.
pub open spec fn span_contains(outer: TextSpan, inner: TextSpan) -> bool {
    &&& outer.start <= inner.start
    &&& inner.end_spec() <= outer.end_spec()
}

/// Whether some span of `child` intersects `range`.
pub open spec fn child_touches(child: &NavigationTree, range: TextSpan) -> bool {
    exists|k: int| 0 <= k < child.spans@.len() && spans_intersect(child.spans@[k], range)
}

/// An outline entry as the editor shows it.
#[derive(Debug)]
pub struct DocumentSymbol {
    pub name: String,
    pub kind: SymbolKind,
    pub range: Range,
    pub selection_range: Range,
    pub deprecated: bool,
    pub children: Option<Vec<DocumentSymbol>>,
}

impl NavigationTree {
    /// Whether this node is shown as a symbol of its own: not an alias, and
    /// with a name that is neither empty nor a placeholder.
    pub fn should_include_entry(&self) -> (r: bool)
        ensures
            r == includes_entry(self),
    {
        if let ScriptElementKind::Alias = self.kind {
            return false;
        }
        !str_eq(self.text.as_str(), "") && !str_eq(self.text.as_str(), "<function>") && !str_eq(
            self.text.as_str(),
            "<class>",
        )
    }

    /// Calls `callback` on this node and then, depth first, on every node
    /// below it, each with its parent.
    pub fn walk<F>(&self, callback: &F)
        where
            F: Fn(&NavigationTree, Option<&NavigationTree>),
        requires
            forall|a: &NavigationTree, b: Option<&NavigationTree>| callback.requires((a, b)),
        decreases self,
    {
        callback(self, None);
        if let Some(child_items) = &self.child_items {
            let n = child_items.len();
            for i in 0..n
                invariant
                    n == child_items@.len(),
                    self.child_items == Some(*child_items),
                    forall|a: &NavigationTree, b: Option<&NavigationTree>| callback.requires((a, b)),
            {
                proof {
                    let items = self.child_items;
                    assert(decreases_to!(self => items));
                    assert(decreases_to!(items => items->0));
                    assert(decreases_to!(items->0 => items->0@));
                    assert(decreases_to!(items->0@ => items->0@[i as int]));
                    assert(decreases_to!(self => child_items@[i as int]));
                }
                child_items[i].walk_child(callback, self);
            }
        }
    }

    fn walk_child<F>(&self, callback: &F, parent: &NavigationTree)
        where
            F: Fn(&NavigationTree, Option<&NavigationTree>),
        requires
            forall|a: &NavigationTree, b: Option<&NavigationTree>| callback.requires((a, b)),
        decreases self,
    {
        callback(self, Some(parent));
        if let Some(child_items) = &self.child_items {
            let n = child_items.len();
            for i in 0..n
                invariant
                    n == child_items@.len(),
                    self.child_items == Some(*child_items),
                    forall|a: &NavigationTree, b: Option<&NavigationTree>| callback.requires((a, b)),
            {
                proof {
                    let items = self.child_items;
                    assert(decreases_to!(self => items));
                    assert(decreases_to!(items => items->0));
                    assert(decreases_to!(items->0 => items->0@));
                    assert(decreases_to!(items->0@ => items->0@[i as int]));
                    assert(decreases_to!(self => child_items@[i as int]));
                }
                child_items[i].walk_child(callback, self);
            }
        }
    }
}

/// The name a node is shown under: accessors are marked `(get)` or `(set)`.
pub open spec fn shown_name(t: &NavigationTree) -> Seq<char> {
    match t.kind {
        ScriptElementKind::MemberGetAccessorElement => "(get) "@ + t.text@,
        ScriptElementKind::MemberSetAccessorElement => "(set) "@ + t.text@,
        _ => t.text@,
    }
}

/// Whether `sym` shows node `t` itself.
pub open spec fn symbol_of_node(t: &NavigationTree, sym: &DocumentSymbol) -> bool {
    &&& sym.name@ == shown_name(t)
    &&& sym.kind == symbol_kind_of(t.kind)
    &&& sym.deprecated == modifier_list(t.kind_modifiers@).contains("deprecated"@)
}

/// The span whose range a symbol for span `k` of `t` selects: the name
/// span where span `k` holds it, else span `k`.
pub open spec fn selection_span_of(t: &NavigationTree, k: int) -> TextSpan {
    match t.name_span {
        Some(n) => if span_contains(t.spans@[k], n) {
            n
        } else {
            t.spans@[k]
        },
        None => t.spans@[k],
    }
}

/// Whether every span of `t`, and the span each selects, has a range in
/// the text.
pub open spec fn spans_have_ranges(text: Seq<char>, t: &NavigationTree) -> bool {
    forall|k: int|
        0 <= k < t.spans@.len() ==> !no_range(text, #[trigger] t.spans@[k]) && !no_range(
            text,
            selection_span_of(t, k),
        )
}

/// Whether `sym` is a symbol of one of `t`'s child items that touches
/// `span`.
pub open spec fn child_symbol(t: &NavigationTree, span: TextSpan, sym: &DocumentSymbol) -> bool {
    exists|c: int|
        0 <= c < t.child_items->0@.len() && t.child_items is Some && child_touches(
            &t.child_items->0@[c],
            span,
        ) && symbol_of_node(&t.child_items->0@[c], sym)
}

/// Whether `sym` is the symbol for span `k` of `t`: it shows `t`, has the
/// span's range and the selected span's range, and its children are symbols
/// of the child items touching the span.
pub open spec fn symbol_of_span(text: Seq<char>, t: &NavigationTree, k: int, sym: &DocumentSymbol) -> bool {
    &&& symbol_of_node(t, sym)
    &&& range_of(text, t.spans@[k], sym.range)
    &&& range_of(text, selection_span_of(t, k), sym.selection_range)
    &&& (sym.children is Some ==> forall|m: int|
        0 <= m < sym.children->0@.len() ==> child_symbol(t, t.spans@[k], #[trigger] &sym.children->0@[m]))
}

fn intersects(a: &TextSpan, b: &TextSpan) -> (r: bool)
    ensures
        r == spans_intersect(*a, *b),
{
    (a.start as u64) <= (b.start as u64) + (b.length as u64) && (b.start as u64) <= (a.start as u64)
        + (a.length as u64)
}

fn contains_span(outer: &TextSpan, inner: &TextSpan) -> (r: bool)
    ensures
        r == span_contains(*outer, *inner),
{
    outer.start <= inner.start && (inner.start as u64) + (inner.length as u64) <= (outer.start as u64)
        + (outer.length as u64)
}

impl NavigationTree {
    fn touches(&self, range: &TextSpan) -> (r: bool)
        ensures
            r == child_touches(self, *range),
    {
        let mut i: usize = 0;
        while i < self.spans.len()
            invariant
                i <= self.spans@.len(),
                forall|k: int| 0 <= k < i ==> !spans_intersect(self.spans@[k], *range),
            decreases self.spans@.len() - i,
        {
            if intersects(&self.spans[i], range) {
                return true;
            }
            i = i + 1;
        }
        false
    }

    /// Appends the document symbols of this node and the nodes below it to
    /// `document_symbols`. A shown node gives one symbol per span, in order:
    /// its range is the span's, its selection range the name span's where
    /// the span holds the name span (else the span's), and its children are
    /// the symbols of the child items touching the span. A node that is not
    /// shown gives symbols only for spans met once a child below it was
    /// shown. A span without a range in the text gives no symbol. Returns
    /// whether anything was shown.
    pub fn collect_document_symbols(&self, line_index: &LineIndex, document_symbols: &mut Vec<DocumentSymbol>) -> (r: bool)
        requires
            line_index@.len() <= MAX_TEXT_CHARS,
        ensures
            final(document_symbols)@.len() >= old(document_symbols)@.len(),
            final(document_symbols)@.take(old(document_symbols)@.len() as int) == old(document_symbols)@,
            includes_entry(self) ==> r,
            !r ==> final(document_symbols)@ == old(document_symbols)@,
            final(document_symbols)@.len() <= old(document_symbols)@.len() + self.spans@.len(),
            forall|k: int|
                old(document_symbols)@.len() <= k < final(document_symbols)@.len() ==> symbol_of_node(
                    self,
                    #[trigger] &final(document_symbols)@[k],
                ),
            includes_entry(self) && spans_have_ranges(line_index@, self) ==> final(document_symbols)@.len()
                == old(document_symbols)@.len() + self.spans@.len() && forall|k: int|
                0 <= k < self.spans@.len() ==> symbol_of_span(
                    line_index@,
                    self,
                    k,
                    #[trigger] &final(document_symbols)@[old(document_symbols)@.len() + k],
                ),
        decreases self,
    {
        let mut should_include = self.should_include_entry();
        let no_children = match &self.child_items {
            Some(v) => v.len() == 0,
            None => true,
        };
        if !should_include && no_children {
            return false;
        }
        let ghost start = document_symbols@;
        let name = match self.kind {
            ScriptElementKind::MemberGetAccessorElement => concat("(get) ", self.text.as_str()),
            ScriptElementKind::MemberSetAccessorElement => concat("(set) ", self.text.as_str()),
            _ => self.text.clone(),
        };
        let mods = parse_kind_modifier(self.kind_modifiers.as_str());
        let deprecated = contains_modifier(&mods, "deprecated");
        for s in 0..self.spans.len()
            invariant
                line_index@.len() <= MAX_TEXT_CHARS,
                includes_entry(self) ==> should_include,
                name@ == shown_name(self),
                deprecated == modifier_list(self.kind_modifiers@).contains("deprecated"@),
                document_symbols@.len() >= start.len(),
                document_symbols@.len() <= start.len() + s,
                document_symbols@.take(start.len() as int) == start,
                !should_include ==> document_symbols@ == start,
                forall|k: int|
                    start.len() <= k < document_symbols@.len() ==> symbol_of_node(self, #[trigger] &document_symbols@[k]),
                includes_entry(self) && spans_have_ranges(line_index@, self) ==> document_symbols@.len() == start.len() + s
                    && forall|k: int|
                    0 <= k < s ==> symbol_of_span(line_index@, self, k, #[trigger] &document_symbols@[start.len() + k]),
        {
            let span = self.spans[s];
            let ghost was = should_include;
            let mut symbol_children: Vec<DocumentSymbol> = Vec::new();
            if let Some(children) = &self.child_items {
                let n = children.len();
                for c in 0..n
                    invariant
                        line_index@.len() <= MAX_TEXT_CHARS,
                        n == children@.len(),
                        self.child_items == Some(*children),
                        span == self.spans@[s as int],
                        includes_entry(self) ==> should_include,
                        was ==> should_include,
                        forall|m: int|
                            0 <= m < symbol_children@.len() ==> child_symbol(self, span, #[trigger] &symbol_children@[m]),
                {
                    let child = &children[c];
                    if child.touches(&span) {
                        proof {
                            let items = self.child_items;
                            assert(decreases_to!(self => items));
                            assert(decreases_to!(items => items->0));
                            assert(decreases_to!(items->0 => items->0@));
                            assert(decreases_to!(items->0@ => items->0@[c as int]));
                        }
                        let ghost before = symbol_children@;
                        let included_child = child.collect_document_symbols(line_index, &mut symbol_children);
                        assert forall|m: int| 0 <= m < symbol_children@.len() implies child_symbol(
                            self,
                            span,
                            #[trigger] &symbol_children@[m],
                        ) by {
                            if m < before.len() {
                                assert(symbol_children@[m] == symbol_children@.take(before.len() as int)[m]);
                            } else {
                                assert(symbol_of_node(&children@[c as int], &symbol_children@[m]));
                            }
                        }
                        should_include = should_include || included_child;
                    }
                }
            }
            if should_include {
                let mut selection_span = span;
                if let Some(name_span) = &self.name_span {
                    if contains_span(&span, name_span) {
                        selection_span = *name_span;
                    }
                }
                assert(selection_span == selection_span_of(self, s as int));
                let range = span.to_range(line_index);
                let selection_range = selection_span.to_range(line_index);
                if let (Some(range), Some(selection_range)) = (range, selection_range) {
                    let children = if symbol_children.len() > 0 {
                        Some(symbol_children)
                    } else {
                        None
                    };
                    let ghost before = document_symbols@;
                    let sym = DocumentSymbol {
                        name: name.clone(),
                        kind: SymbolKind::from(self.kind),
                        range,
                        selection_range,
                        deprecated,
                        children,
                    };
                    assert(symbol_of_span(line_index@, self, s as int, &sym));
                    document_symbols.push(sym);
                    assert(document_symbols@.take(start.len() as int) =~= before.take(start.len() as int));
                    assert forall|k: int|
                        0 <= k < s + 1 && includes_entry(self) && spans_have_ranges(line_index@, self) implies symbol_of_span(
                        line_index@,
                        self,
                        k,
                        #[trigger] &document_symbols@[start.len() + k],
                    ) by {
                        if k < s {
                            assert(document_symbols@[start.len() + k] == before[start.len() + k]);
                        }
                    }
                } else {
                    assert(!spans_have_ranges(line_index@, self));
                }
            }
        }
        should_include
    }

    /// The spans of a code lens for this node: its name span, else its first
    /// span, else none.
    pub fn code_lens_span(&self) -> (r: Option<TextSpan>)
        ensures
            r == if self.name_span is Some {
                self.name_span
            } else if self.spans@.len() > 0 {
                Some(self.spans@[0])
            } else {
                None
            },
    {
        if let Some(name_span) = &self.name_span {
            Some(*name_span)
        } else if self.spans.len() > 0 {
            Some(self.spans[0])
        } else {
            None
        }
    }
}

} // verus!
