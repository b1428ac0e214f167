//! The analyzer's responses and their editor-protocol translations.
//!
//! Where a translation needs what only the language server knows (the
//! editor URI of a file, its version, its text), the caller hands it in.
use vstd::prelude::*;
use crate::kinds::{ScriptElementKind, SymbolKind};
use crate::line_index::{LineIndex, Position, Range, TextSpan, MAX_TEXT_CHARS, position_result};
use crate::docs::{DocumentSpan, SymbolDisplayPart, JsDocTagInfo, display_parts_to_string, display_string, get_tag_documentation, tag_documentation};
use crate::completion::{parse_kind_modifier, contains_modifier, modifier_list, opt_str};
use crate::strings::{concat, join, joined};

verus! {

/// One value or a list of them.
#[derive(Clone, Debug)]
pub enum OneOrMany<T> {
    One(T),
    Many(Vec<T>),
}

/// Whether `r` is the editor range of `span` in text `t`.
pub open spec fn range_of(t: Seq<char>, span: TextSpan, r: Range) -> bool {
    &&& position_result(t, span.start as nat, Some(r.start@))
    &&& position_result(t, span.end_spec(), Some(r.end@))
}

/// Whether `span` has no editor range in text `t`.
pub open spec fn no_range(t: Seq<char>, span: TextSpan) -> bool {
    position_result(t, span.start as nat, None) || position_result(t, span.end_spec(), None)
}

/// A place in a document the editor can open.
#[derive(Clone, Debug)]
pub struct Location {
    pub uri: String,
    pub range: Range,
}

/// A replacement of the text over a range.
#[derive(Clone, Debug)]
pub struct TextEdit {
    pub range: Range,
    pub new_text: String,
}

/// Edits to one document at a given version.
#[derive(Clone, Debug)]
pub struct TextDocumentEdit {
    pub uri: String,
    pub version: Option<i32>,
    pub edits: Vec<TextEdit>,
}

/// A step of a workspace edit.
#[derive(Clone, Debug)]
pub enum DocumentChangeOperation {
    /// Create a file, leaving an existing one alone.
    CreateFile(String),
    /// Edit a document.
    Edit(TextDocumentEdit),
}

/// What the language server knows of the document a response names.
#[derive(Debug)]
pub struct ResolvedDocument {
    pub uri: String,
    pub version: Option<i32>,
    pub line_index: LineIndex,
}

/// The editor range of `span`, with the facts callers need.
fn range_in(span: &TextSpan, line_index: &LineIndex) -> (r: Option<Range>)
    requires
        line_index@.len() <= MAX_TEXT_CHARS,
    ensures
        r is Some ==> range_of(line_index@, *span, r->0),
        r is None ==> no_range(line_index@, *span),
{
    span.to_range(line_index)
}

/// How an item matched a workspace symbol search.
#[derive(Clone, Copy, Debug, PartialEq, Eq, Structural)]
pub enum MatchKind {
    Exact,
    Prefix,
    Substring,
    CamelCase,
}

/// A workspace symbol as the editor shows it.
#[derive(Clone, Debug)]
pub struct SymbolInformation {
    pub name: String,
    pub kind: SymbolKind,
    pub deprecated: bool,
    pub location: Location,
    pub container_name: Option<String>,
}

/// A workspace symbol search result, as the analyzer reports it.
#[derive(Clone, Debug)]
pub struct NavigateToItem {
    pub name: String,
    pub kind: ScriptElementKind,
    pub kind_modifiers: String,
    pub file_name: String,
    pub text_span: TextSpan,
    pub container_name: Option<String>,
}

impl NavigateToItem {
    /// The editor symbol for this item in the document at `uri`.
    pub fn to_symbol_information(&self, uri: &str, line_index: &LineIndex) -> (r: Option<SymbolInformation>)
        requires
            line_index@.len() <= MAX_TEXT_CHARS,
        ensures
            r is None <==> no_range(line_index@, self.text_span),
            r is Some ==> {
                let s = r->0;
                &&& s.name@ == self.name@
                &&& s.kind == crate::kinds::symbol_kind_of(self.kind)
                &&& s.deprecated == modifier_list(self.kind_modifiers@).contains("deprecated"@)
                &&& s.location.uri@ == uri@
                &&& range_of(line_index@, self.text_span, s.location.range)
                &&& opt_str(s.container_name) == opt_str(self.container_name)
            },
    {
        let range = match range_in(&self.text_span, line_index) {
            Some(r) => r,
            None => {
                return None;
            },
        };
        let mods = parse_kind_modifier(self.kind_modifiers.as_str());
        let deprecated = contains_modifier(&mods, "deprecated");
        Some(SymbolInformation {
            name: self.name.clone(),
            kind: SymbolKind::from(self.kind),
            deprecated,
            location: Location { uri: uri.to_owned(), range },
            container_name: crate::completion::clone_opt(&self.container_name),
        })
    }
}

/// The kind of an inlay hint, as the analyzer reports it.
#[derive(Clone, Copy, Debug, PartialEq, Eq, Structural)]
pub enum InlayHintKind {
    Type,
    Parameter,
    Enum,
}

/// The kind of an inlay hint, as the editor takes it.
#[derive(Clone, Copy, Debug, PartialEq, Eq, Structural)]
pub enum EditorInlayHintKind {
    Type,
    Parameter,
}

impl InlayHintKind {
    /// The editor kind; enum member values have none.
    pub fn to_lsp(&self) -> (r: Option<EditorInlayHintKind>)
        ensures
            r == match *self {
                InlayHintKind::Enum => None,
                InlayHintKind::Parameter => Some(EditorInlayHintKind::Parameter),
                InlayHintKind::Type => Some(EditorInlayHintKind::Type),
            },
    {
        match self {
            InlayHintKind::Enum => None,
            InlayHintKind::Parameter => Some(EditorInlayHintKind::Parameter),
            InlayHintKind::Type => Some(EditorInlayHintKind::Type),
        }
    }
}

/// An inlay hint, as the analyzer reports it.
#[derive(Clone, Debug)]
pub struct InlayHint {
    pub text: String,
    pub position: u32,
    pub kind: InlayHintKind,
    pub whitespace_before: Option<bool>,
    pub whitespace_after: Option<bool>,
}

/// An inlay hint as the editor shows it.
#[derive(Clone, Debug)]
pub struct EditorInlayHint {
    pub position: Position,
    pub label: String,
    pub kind: Option<EditorInlayHintKind>,
    pub padding_left: Option<bool>,
    pub padding_right: Option<bool>,
}

impl InlayHint {
    /// The editor hint; nothing where the offset is not a character boundary.
    pub fn to_lsp(&self, line_index: &LineIndex) -> (r: Option<EditorInlayHint>)
        requires
            line_index@.len() <= MAX_TEXT_CHARS,
        ensures
            r is None <==> position_result(line_index@, self.position as nat, None),
            r is Some ==> {
                let h = r->0;
                &&& position_result(line_index@, self.position as nat, Some(h.position@))
                &&& h.label@ == self.text@
                &&& h.kind == match self.kind {
                    InlayHintKind::Enum => None,
                    InlayHintKind::Parameter => Some(EditorInlayHintKind::Parameter),
                    InlayHintKind::Type => Some(EditorInlayHintKind::Type),
                }
                &&& h.padding_left == self.whitespace_before
                &&& h.padding_right == self.whitespace_after
            },
    {
        match line_index.position_of(self.position) {
            None => None,
            Some(position) => Some(EditorInlayHint {
                position,
                label: self.text.clone(),
                kind: self.kind.to_lsp(),
                padding_left: self.whitespace_before,
                padding_right: self.whitespace_after,
            }),
        }
    }
}

/// Where an implementation is.
#[derive(Clone, Debug)]
pub struct ImplementationLocation {
    pub document_span: DocumentSpan,
}

impl ImplementationLocation {
    /// The location in the document at `uri`.
    pub fn to_location(&self, uri: &str, line_index: &LineIndex) -> (r: Option<Location>)
        requires
            line_index@.len() <= MAX_TEXT_CHARS,
        ensures
            r is None <==> no_range(line_index@, self.document_span.text_span),
            r is Some ==> r->0.uri@ == uri@ && range_of(line_index@, self.document_span.text_span, r->0.range),
    {
        match range_in(&self.document_span.text_span, line_index) {
            Some(range) => Some(Location { uri: uri.to_owned(), range }),
            None => None,
        }
    }
}

/// A reference to a symbol.
#[derive(Clone, Debug)]
pub struct ReferenceEntry {
    pub document_span: DocumentSpan,
}

impl ReferenceEntry {
    /// The location in the document at `uri`.
    pub fn to_location(&self, uri: &str, line_index: &LineIndex) -> (r: Option<Location>)
        requires
            line_index@.len() <= MAX_TEXT_CHARS,
        ensures
            r is None <==> no_range(line_index@, self.document_span.text_span),
            r is Some ==> r->0.uri@ == uri@ && range_of(line_index@, self.document_span.text_span, r->0.range),
    {
        match range_in(&self.document_span.text_span, line_index) {
            Some(range) => Some(Location { uri: uri.to_owned(), range }),
            None => None,
        }
    }
}

/// A definition.
#[derive(Clone, Debug)]
pub struct DefinitionInfo {
    pub document_span: DocumentSpan,
}

/// The definitions of a symbol.
#[derive(Clone, Debug)]
pub struct DefinitionInfoAndBoundSpan {
    pub definitions: Option<Vec<DefinitionInfo>>,
}

/// The definition of a referenced symbol.
#[derive(Clone, Debug)]
pub struct ReferencedSymbolDefinitionInfo {
    pub definition_info: DefinitionInfo,
}

/// One reference to a symbol.
#[derive(Clone, Debug)]
pub struct ReferencedSymbolEntry {
    pub is_definition: bool,
    pub entry: ReferenceEntry,
}

/// A symbol with its references.
#[derive(Clone, Debug)]
pub struct ReferencedSymbol {
    pub definition: ReferencedSymbolDefinitionInfo,
    pub references: Vec<ReferencedSymbolEntry>,
}

/// A place to rename.
#[derive(Clone, Debug)]
pub struct RenameLocation {
    pub document_span: DocumentSpan,
}

/// All places to rename.
#[derive(Clone, Debug)]
pub struct RenameLocations {
    pub locations: Vec<RenameLocation>,
}

/// Whether `edits` gathers, per distinct URI in order of first appearance,
/// the edits of the locations `0..n`.
pub open spec fn grouped(uris: Seq<Seq<char>>, edits: Seq<TextDocumentEdit>, n: nat) -> bool {
    &&& forall|i: int, j: int| 0 <= i < j < edits.len() ==> edits[i].uri@ != edits[j].uri@
    &&& forall|k: int|
        #![trigger uris[k]]
        0 <= k < n ==> exists|g: int| #![trigger edits[g]] 0 <= g < edits.len() && edits[g].uri@ == uris[k]
    &&& forall|g: int|
        #![trigger edits[g]]
        0 <= g < edits.len() ==> exists|k: int| #![trigger uris[k]] 0 <= k < n && uris[k] == edits[g].uri@
}

fn find_uri(out: &Vec<TextDocumentEdit>, uri: &str) -> (r: Option<usize>)
    ensures
        r is Some ==> r->0 < out@.len() && out@[r->0 as int].uri@ == uri@,
        r is None ==> forall|h: int| 0 <= h < out@.len() ==> out@[h].uri@ != uri@,
{
    let mut g: usize = 0;
    while g < out.len()
        invariant
            g <= out@.len(),
            forall|h: int| 0 <= h < g ==> out@[h].uri@ != uri@,
        decreases out@.len() - g,
    {
        if crate::strings::str_eq(out[g].uri.as_str(), uri) {
            return Some(g);
        }
        g = g + 1;
    }
    None
}

proof fn lemma_grouped_extend(uris: Seq<Seq<char>>, before: Seq<TextDocumentEdit>, after: Seq<TextDocumentEdit>, i: nat, g: int)
    requires
        grouped(uris, before, i),
        i < uris.len(),
        0 <= g < before.len(),
        before[g].uri@ == uris[i as int],
        after.len() == before.len(),
        forall|h: int| 0 <= h < after.len() && h != g ==> after[h] == before[h],
        after[g].uri@ == before[g].uri@,
    ensures
        grouped(uris, after, i + 1),
{
    assert forall|h: int| 0 <= h < after.len() implies #[trigger] after[h].uri@ == before[h].uri@ by {}
    assert forall|k: int| #![trigger uris[k]] 0 <= k < i + 1 implies exists|g2: int|
        #![trigger after[g2]] 0 <= g2 < after.len() && after[g2].uri@ == uris[k] by {
        if k < i {
            let g3 = choose|g3: int| #![trigger before[g3]] 0 <= g3 < before.len() && before[g3].uri@ == uris[k];
            assert(after[g3].uri@ == before[g3].uri@);
        } else {
            assert(after[g].uri@ == uris[k]);
        }
    }
    assert forall|g2: int| #![trigger after[g2]] 0 <= g2 < after.len() implies exists|k: int|
        #![trigger uris[k]] 0 <= k < i + 1 && uris[k] == after[g2].uri@ by {
        assert(after[g2].uri@ == before[g2].uri@);
        assert(before[g2] == before[g2]);
    }
}

proof fn lemma_grouped_push(uris: Seq<Seq<char>>, before: Seq<TextDocumentEdit>, after: Seq<TextDocumentEdit>, i: nat)
    requires
        grouped(uris, before, i),
        i < uris.len(),
        forall|h: int| 0 <= h < before.len() ==> before[h].uri@ != uris[i as int],
        after.len() == before.len() + 1,
        forall|h: int| 0 <= h < before.len() ==> after[h] == before[h],
        after[before.len() as int].uri@ == uris[i as int],
    ensures
        grouped(uris, after, i + 1),
{
    assert forall|k: int| #![trigger uris[k]] 0 <= k < i + 1 implies exists|g2: int|
        #![trigger after[g2]] 0 <= g2 < after.len() && after[g2].uri@ == uris[k] by {
        if k < i {
            let g3 = choose|g3: int| #![trigger before[g3]] 0 <= g3 < before.len() && before[g3].uri@ == uris[k];
            assert(after[g3] == before[g3]);
        } else {
            assert(after[before.len() as int].uri@ == uris[k]);
        }
    }
    assert forall|g2: int| #![trigger after[g2]] 0 <= g2 < after.len() implies exists|k: int|
        #![trigger uris[k]] 0 <= k < i + 1 && uris[k] == after[g2].uri@ by {
        if g2 < before.len() {
            assert(after[g2] == before[g2]);
            assert(before[g2] == before[g2]);
        } else {
            assert(uris[i as int] == after[g2].uri@);
        }
    }
}

/// Whether the document edit `g` fits the first `n` locations: its version
/// is that of a document with its URI, and each edit has the range of a
/// location in a document with its URI.
pub open spec fn group_fits(locs: Seq<RenameLocation>, docs: Seq<ResolvedDocument>, n: nat, g: TextDocumentEdit) -> bool {
    &&& exists|k: int| 0 <= k < n && (#[trigger] docs[k]).uri@ == g.uri@ && g.version == docs[k].version
    &&& forall|e: int|
        0 <= e < g.edits@.len() ==> exists|k: int|
            0 <= k < n && (#[trigger] docs[k]).uri@ == g.uri@ && range_of(
                docs[k].line_index@,
                locs[k].document_span.text_span,
                #[trigger] g.edits@[e].range,
            )
}

impl RenameLocations {
    /// The edits renaming each location to `new_name`, one document edit per
    /// URI carrying that document's version. `docs[i]` is what the language
    /// server knows of the document of location `i`. Nothing where a
    /// location has no document or no range in it.
    #[verifier::rlimit(100)]
    pub fn into_workspace_edit(&self, new_name: &str, docs: &Vec<ResolvedDocument>) -> (r: Option<Vec<TextDocumentEdit>>)
        requires
            forall|i: int| 0 <= i < docs@.len() ==> (#[trigger] docs@[i]).line_index@.len() <= MAX_TEXT_CHARS,
        ensures
            r is Some ==> docs@.len() >= self.locations@.len() && grouped(
                Seq::new(self.locations@.len(), |k: int| docs@[k].uri@),
                r->0@,
                self.locations@.len() as nat,
            ),
            r is Some ==> forall|g: int, e: int|
                0 <= g < r->0@.len() && 0 <= e < r->0@[g].edits@.len() ==> (#[trigger] r->0@[g].edits@[e]).new_text@
                    == new_name@,
            r is Some ==> forall|g: int|
                0 <= g < r->0@.len() ==> group_fits(self.locations@, docs@, self.locations@.len() as nat, #[trigger] r->0@[g]),
            r is None ==> docs@.len() < self.locations@.len() || exists|k: int|
                0 <= k < self.locations@.len() && no_range(docs@[k].line_index@, self.locations@[k].document_span.text_span),
    {
        if docs.len() < self.locations.len() {
            return None;
        }
        let ghost uris = Seq::new(self.locations@.len(), |k: int| docs@[k].uri@);
        let mut out: Vec<TextDocumentEdit> = Vec::new();
        for i in 0..self.locations.len()
            invariant
                docs@.len() >= self.locations@.len(),
                forall|j: int| 0 <= j < docs@.len() ==> (#[trigger] docs@[j]).line_index@.len() <= MAX_TEXT_CHARS,
                uris == Seq::new(self.locations@.len(), |k: int| docs@[k].uri@),
                grouped(uris, out@, i as nat),
                forall|g: int, e: int|
                    0 <= g < out@.len() && 0 <= e < out@[g].edits@.len() ==> (#[trigger] out@[g].edits@[e]).new_text@
                        == new_name@,
                forall|g: int| 0 <= g < out@.len() ==> group_fits(self.locations@, docs@, i as nat, #[trigger] out@[g]),
        {
            let doc = &docs[i];
            let range = match range_in(&self.locations[i].document_span.text_span, &doc.line_index) {
                Some(r) => r,
                None => {
                    return None;
                },
            };
            let edit = TextEdit { range, new_text: new_name.to_owned() };
            let ghost before = out@;
            match find_uri(&out, doc.uri.as_str()) {
                Some(g) => {
                    let mut slot = TextDocumentEdit { uri: String::new(), version: None, edits: Vec::new() };
                    out.set_and_swap(g, &mut slot);
                    slot.edits.push(edit);
                    out.set_and_swap(g, &mut slot);
                    proof {
                        lemma_grouped_extend(uris, before, out@, i as nat, g as int);
                        assert forall|h: int| 0 <= h < out@.len() implies group_fits(
                            self.locations@,
                            docs@,
                            (i + 1) as nat,
                            #[trigger] out@[h],
                        ) by {
                            let old_g = before[h];
                            assert(group_fits(self.locations@, docs@, i as nat, old_g));
                            let k0 = choose|k: int| 0 <= k < i && (#[trigger] docs@[k]).uri@ == old_g.uri@ && old_g.version == docs@[k].version;
                            assert(docs@[k0].uri@ == out@[h].uri@);
                            assert forall|e: int| 0 <= e < out@[h].edits@.len() implies exists|k: int|
                                0 <= k < i + 1 && (#[trigger] docs@[k]).uri@ == out@[h].uri@ && range_of(
                                    docs@[k].line_index@,
                                    self.locations@[k].document_span.text_span,
                                    #[trigger] out@[h].edits@[e].range,
                                ) by {
                                if h == g && e == old_g.edits@.len() {
                                    assert(docs@[i as int].uri@ == out@[h].uri@);
                                } else {
                                    assert(out@[h].edits@[e] == old_g.edits@[e]);
                                    let k1 = choose|k: int| 0 <= k < i && (#[trigger] docs@[k]).uri@ == old_g.uri@ && range_of(
                                        docs@[k].line_index@,
                                        self.locations@[k].document_span.text_span,
                                        #[trigger] old_g.edits@[e].range,
                                    );
                                    assert(docs@[k1].uri@ == out@[h].uri@);
                                }
                            }
                        }
                    }
                },
                None => {
                    let mut edits: Vec<TextEdit> = Vec::new();
                    edits.push(edit);
                    out.push(TextDocumentEdit { uri: doc.uri.clone(), version: doc.version, edits });
                    proof {
                        lemma_grouped_push(uris, before, out@, i as nat);
                        assert forall|h: int| 0 <= h < out@.len() implies group_fits(
                            self.locations@,
                            docs@,
                            (i + 1) as nat,
                            #[trigger] out@[h],
                        ) by {
                            if h < before.len() {
                                assert(out@[h] == before[h]);
                                let old_g = before[h];
                                assert(group_fits(self.locations@, docs@, i as nat, old_g));
                                let k0 = choose|k: int| 0 <= k < i && (#[trigger] docs@[k]).uri@ == old_g.uri@ && old_g.version == docs@[k].version;
                                assert(docs@[k0].uri@ == out@[h].uri@);
                                assert forall|e: int| 0 <= e < out@[h].edits@.len() implies exists|k: int|
                                    0 <= k < i + 1 && (#[trigger] docs@[k]).uri@ == out@[h].uri@ && range_of(
                                        docs@[k].line_index@,
                                        self.locations@[k].document_span.text_span,
                                        #[trigger] out@[h].edits@[e].range,
                                    ) by {
                                    let k1 = choose|k: int| 0 <= k < i && (#[trigger] docs@[k]).uri@ == old_g.uri@ && range_of(
                                        docs@[k].line_index@,
                                        self.locations@[k].document_span.text_span,
                                        #[trigger] old_g.edits@[e].range,
                                    );
                                    assert(docs@[k1].uri@ == out@[h].uri@);
                                }
                            } else {
                                assert(docs@[i as int].uri@ == out@[h].uri@);
                                assert forall|e: int| 0 <= e < out@[h].edits@.len() implies exists|k: int|
                                    0 <= k < i + 1 && (#[trigger] docs@[k]).uri@ == out@[h].uri@ && range_of(
                                        docs@[k].line_index@,
                                        self.locations@[k].document_span.text_span,
                                        #[trigger] out@[h].edits@[e].range,
                                    ) by {
                                    assert(docs@[i as int].uri@ == out@[h].uri@);
                                }
                            }
                        }
                    }
                },
            }
        }
        Some(out)
    }
}

/// How a highlighted span is used.
#[derive(Clone, Copy, Debug, PartialEq, Eq, Structural)]
pub enum HighlightSpanKind {
    Plain,
    Definition,
    Reference,
    WrittenReference,
}

/// A highlighted span.
#[derive(Clone, Copy, Debug)]
pub struct HighlightSpan {
    pub text_span: TextSpan,
    pub kind: HighlightSpanKind,
}

/// How the editor shows a highlight.
#[derive(Clone, Copy, Debug, PartialEq, Eq, Structural)]
pub enum DocumentHighlightKind {
    Read,
    Write,
}

/// A highlight as the editor shows it.
#[derive(Clone, Copy, Debug)]
pub struct DocumentHighlight {
    pub range: Range,
    pub kind: DocumentHighlightKind,
}

/// The highlights in one document.
#[derive(Clone, Debug)]
pub struct DocumentHighlights {
    pub highlight_spans: Vec<HighlightSpan>,
}

impl DocumentHighlights {
    /// The editor highlights: written references are writes, the rest reads.
    /// Nothing where a span has no range.
    pub fn to_highlight(&self, line_index: &LineIndex) -> (r: Option<Vec<DocumentHighlight>>)
        requires
            line_index@.len() <= MAX_TEXT_CHARS,
        ensures
            r is None <==> exists|k: int|
                0 <= k < self.highlight_spans@.len() && no_range(line_index@, #[trigger] self.highlight_spans@[k].text_span),
            r is Some ==> r->0@.len() == self.highlight_spans@.len() && forall|k: int|
                0 <= k < r->0@.len() ==> range_of(line_index@, self.highlight_spans@[k].text_span, (#[trigger] r->0@[k]).range)
                    && r->0@[k].kind == if self.highlight_spans@[k].kind == HighlightSpanKind::WrittenReference {
                    DocumentHighlightKind::Write
                } else {
                    DocumentHighlightKind::Read
                },
    {
        let mut out: Vec<DocumentHighlight> = Vec::new();
        for i in 0..self.highlight_spans.len()
            invariant
                line_index@.len() <= MAX_TEXT_CHARS,
                out@.len() == i,
                forall|k: int| 0 <= k < i ==> !no_range(line_index@, #[trigger] self.highlight_spans@[k].text_span),
                forall|k: int|
                    0 <= k < i ==> range_of(line_index@, self.highlight_spans@[k].text_span, (#[trigger] out@[k]).range)
                        && out@[k].kind == if self.highlight_spans@[k].kind == HighlightSpanKind::WrittenReference {
                        DocumentHighlightKind::Write
                    } else {
                        DocumentHighlightKind::Read
                    },
        {
            let hs = self.highlight_spans[i];
            let range = match range_in(&hs.text_span, line_index) {
                Some(r) => r,
                None => {
                    return None;
                },
            };
            proof {
                crate::line_index::lemma_position_unique(line_index@, hs.text_span.start as nat, range.start@);
                crate::line_index::lemma_position_unique(line_index@, hs.text_span.end_spec(), range.end@);
            }
            let kind = match hs.kind {
                HighlightSpanKind::WrittenReference => DocumentHighlightKind::Write,
                _ => DocumentHighlightKind::Read,
            };
            out.push(DocumentHighlight { range, kind });
        }
        Some(out)
    }
}

/// A replacement the analyzer proposes.
#[derive(Clone, Debug)]
pub struct TextChange {
    pub span: TextSpan,
    pub new_text: String,
}

impl TextChange {
    /// The editor edit; nothing where the span has no range.
    pub fn as_text_edit(&self, line_index: &LineIndex) -> (r: Option<TextEdit>)
        requires
            line_index@.len() <= MAX_TEXT_CHARS,
        ensures
            r is None <==> no_range(line_index@, self.span),
            r is Some ==> range_of(line_index@, self.span, r->0.range) && r->0.new_text@ == self.new_text@,
    {
        match range_in(&self.span, line_index) {
            Some(range) => Some(TextEdit { range, new_text: self.new_text.clone() }),
            None => None,
        }
    }
}

/// Whether `edits` are the editor edits of `changes` in order.
pub open spec fn edits_of(t: Seq<char>, changes: Seq<TextChange>, edits: Seq<TextEdit>) -> bool {
    &&& edits.len() == changes.len()
    &&& forall|k: int|
        0 <= k < edits.len() ==> range_of(t, changes[k].span, (#[trigger] edits[k]).range) && edits[k].new_text@
            == changes[k].new_text@
}

/// The replacements in one file.
#[derive(Clone, Debug)]
pub struct FileTextChanges {
    pub file_name: String,
    pub text_changes: Vec<TextChange>,
    pub is_new_file: Option<bool>,
}

impl FileTextChanges {
    fn edits(&self, line_index: &LineIndex) -> (r: Option<Vec<TextEdit>>)
        requires
            line_index@.len() <= MAX_TEXT_CHARS,
        ensures
            r is None <==> exists|k: int|
                0 <= k < self.text_changes@.len() && no_range(line_index@, #[trigger] self.text_changes@[k].span),
            r is Some ==> edits_of(line_index@, self.text_changes@, r->0@),
    {
        let mut out: Vec<TextEdit> = Vec::new();
        for i in 0..self.text_changes.len()
            invariant
                line_index@.len() <= MAX_TEXT_CHARS,
                out@.len() == i,
                forall|k: int| 0 <= k < i ==> !no_range(line_index@, #[trigger] self.text_changes@[k].span),
                forall|k: int|
                    0 <= k < i ==> range_of(line_index@, self.text_changes@[k].span, (#[trigger] out@[k]).range)
                        && out@[k].new_text@ == self.text_changes@[k].new_text@,
        {
            match self.text_changes[i].as_text_edit(line_index) {
                Some(e) => {
                    proof {
                        crate::line_index::lemma_position_unique(line_index@, self.text_changes@[i as int].span.start as nat, e.range.start@);
                        crate::line_index::lemma_position_unique(line_index@, self.text_changes@[i as int].span.end_spec(), e.range.end@);
                    }
                    out.push(e);
                },
                None => {
                    return None;
                },
            }
        }
        Some(out)
    }

    /// The document edit for the document at `uri` with `version`.
    pub fn to_text_document_edit(&self, uri: &str, version: Option<i32>, line_index: &LineIndex) -> (r: Option<TextDocumentEdit>)
        requires
            line_index@.len() <= MAX_TEXT_CHARS,
        ensures
            r is None <==> exists|k: int|
                0 <= k < self.text_changes@.len() && no_range(line_index@, #[trigger] self.text_changes@[k].span),
            r is Some ==> r->0.uri@ == uri@ && r->0.version == version && edits_of(
                line_index@,
                self.text_changes@,
                r->0.edits@,
            ),
    {
        match self.edits(line_index) {
            Some(edits) => Some(TextDocumentEdit { uri: uri.to_owned(), version, edits }),
            None => None,
        }
    }

    /// The workspace steps for these changes: a new file is created first
    /// (its edits are against an empty text, with no version); an existing
    /// one is edited at `version`.
    pub fn to_text_document_change_ops(&self, uri: &str, version: Option<i32>, line_index: &LineIndex) -> (r: Option<Vec<DocumentChangeOperation>>)
        requires
            line_index@.len() <= MAX_TEXT_CHARS,
        ensures
            r is Some ==> {
                let ops = r->0@;
                let new_file = self.is_new_file == Some(true);
                &&& ops.len() == if new_file { 2int } else { 1int }
                &&& new_file ==> (ops[0] matches DocumentChangeOperation::CreateFile(u) && u@ == uri@)
                &&& ops.last() matches DocumentChangeOperation::Edit(e) && e.uri@ == uri@ && e.version == (if new_file {
                    None
                } else {
                    version
                }) && edits_of(if new_file { Seq::empty() } else { line_index@ }, self.text_changes@, e.edits@)
            },
            r is None ==> exists|k: int|
                0 <= k < self.text_changes@.len() && no_range(
                    if self.is_new_file == Some(true) { Seq::empty() } else { line_index@ },
                    #[trigger] self.text_changes@[k].span,
                ),
    {
        let mut ops: Vec<DocumentChangeOperation> = Vec::new();
        let new_file = match self.is_new_file {
            Some(b) => b,
            None => false,
        };
        proof {
            reveal_strlit("");
        }
        let empty = LineIndex::new("");
        let index = if new_file { &empty } else { line_index };
        assert(index@ == if self.is_new_file == Some(true) { Seq::<char>::empty() } else { line_index@ });
        if new_file {
            ops.push(DocumentChangeOperation::CreateFile(uri.to_owned()));
        }
        let edits = match self.edits(index) {
            Some(e) => e,
            None => {
                return None;
            },
        };
        ops.push(DocumentChangeOperation::Edit(TextDocumentEdit {
            uri: uri.to_owned(),
            version: if new_file { None } else { version },
            edits,
        }));
        Some(ops)
    }
}

/// The edits of a refactor.
#[derive(Clone, Debug)]
pub struct RefactorEditInfo {
    pub edits: Vec<FileTextChanges>,
    pub rename_location: Option<u32>,
}

/// Whether the changes of a file can be turned into edits against `t`
/// (an empty text for a new file).
pub open spec fn changes_resolve(ch: FileTextChanges, t: Seq<char>) -> bool {
    forall|k: int|
        0 <= k < ch.text_changes@.len() ==> !no_range(
            if ch.is_new_file == Some(true) { Seq::empty() } else { t },
            #[trigger] ch.text_changes@[k].span,
        )
}

/// How many workspace steps the first `n` file changes make.
pub open spec fn steps_count(edits: Seq<FileTextChanges>, n: nat) -> nat
    decreases n,
{
    if n == 0 || n > edits.len() {
        0
    } else {
        steps_count(edits, (n - 1) as nat) + if edits[n - 1].is_new_file == Some(true) { 2nat } else { 1nat }
    }
}

impl RefactorEditInfo {
    /// The workspace steps of all file changes, in order. `docs[i]` is what
    /// the language server knows of the document of change `i`.
    pub fn to_workspace_edit(&self, docs: &Vec<ResolvedDocument>) -> (r: Option<Vec<DocumentChangeOperation>>)
        requires
            forall|i: int| 0 <= i < docs@.len() ==> (#[trigger] docs@[i]).line_index@.len() <= MAX_TEXT_CHARS,
        ensures
            r is Some <==> docs@.len() >= self.edits@.len() && forall|i: int|
                0 <= i < self.edits@.len() ==> changes_resolve(#[trigger] self.edits@[i], docs@[i].line_index@),
            r is Some ==> r->0@.len() == steps_count(self.edits@, self.edits@.len()),
    {
        if docs.len() < self.edits.len() {
            return None;
        }
        let mut all_ops: Vec<DocumentChangeOperation> = Vec::new();
        for i in 0..self.edits.len()
            invariant
                docs@.len() >= self.edits@.len(),
                forall|j: int| 0 <= j < docs@.len() ==> (#[trigger] docs@[j]).line_index@.len() <= MAX_TEXT_CHARS,
                forall|j: int| 0 <= j < i ==> changes_resolve(#[trigger] self.edits@[j], docs@[j].line_index@),
                all_ops@.len() == steps_count(self.edits@, i as nat),
        {
            let doc = &docs[i];
            match self.edits[i].to_text_document_change_ops(doc.uri.as_str(), doc.version, &doc.line_index) {
                Some(mut ops) => {
                    proof {
                        let ch = self.edits@[i as int];
                        assert forall|k: int| 0 <= k < ch.text_changes@.len() implies !no_range(
                            if ch.is_new_file == Some(true) { Seq::empty() } else { docs@[i as int].line_index@ },
                            #[trigger] ch.text_changes@[k].span,
                        ) by {
                            let e = match ops@.last() {
                                DocumentChangeOperation::Edit(e) => e,
                                _ => arbitrary(),
                            };
                            let t = if ch.is_new_file == Some(true) { Seq::<char>::empty() } else { docs@[i as int].line_index@ };
                            assert(crate::responses::range_of(t, ch.text_changes@[k].span, e.edits@[k].range));
                            crate::line_index::lemma_position_unique(t, ch.text_changes@[k].span.start as nat, e.edits@[k].range.start@);
                            crate::line_index::lemma_position_unique(t, ch.text_changes@[k].span.end_spec(), e.edits@[k].range.end@);
                        }
                    }
                    all_ops.append(&mut ops);
                },
                None => {
                    return None;
                },
            }
        }
        Some(all_ops)
    }
}

/// The markdown or code pieces of a hover.
#[derive(Clone, Debug)]
pub enum MarkedString {
    /// Code in the given language.
    Code(String, String),
    /// Markdown text.
    Markdown(String),
}

/// A hover as the editor shows it.
#[derive(Clone, Debug)]
pub struct Hover {
    pub contents: Vec<MarkedString>,
    pub range: Option<Range>,
}

/// What the analyzer knows of the symbol under the cursor.
#[derive(Clone, Debug)]
pub struct QuickInfo {
    pub text_span: TextSpan,
    pub display_parts: Option<Vec<SymbolDisplayPart>>,
    pub documentation: Option<Vec<SymbolDisplayPart>>,
    pub tags: Option<Vec<JsDocTagInfo>>,
}

/// The view of a hover piece: whether it is code, its language, its text.
pub open spec fn marked_view(m: MarkedString) -> (bool, Seq<char>, Seq<char>) {
    match m {
        MarkedString::Code(lang, text) => (true, lang@, text@),
        MarkedString::Markdown(text) => (false, ""@, text@),
    }
}

/// The pieces of the hover for `q`.
pub open spec fn hover_contents(q: &QuickInfo) -> Seq<(bool, Seq<char>, Seq<char>)> {
    let a: Seq<(bool, Seq<char>, Seq<char>)> = match q.display_parts {
        Some(dp) => seq![(true, "typescript"@, display_string(dp@))],
        None => Seq::empty(),
    };
    let b: Seq<(bool, Seq<char>, Seq<char>)> = match q.documentation {
        Some(doc) => seq![(false, ""@, display_string(doc@))],
        None => Seq::empty(),
    };
    let c: Seq<(bool, Seq<char>, Seq<char>)> = match q.tags {
        Some(tags) => if tags_preview(tags@).len() > 0 {
            seq![(false, ""@, "\n\n"@ + tags_preview(tags@))]
        } else {
            Seq::empty()
        },
        None => Seq::empty(),
    };
    a + b + c
}

/// The documentation of the tags, joined by blank lines.
pub open spec fn tags_preview(tags: Seq<JsDocTagInfo>) -> Seq<char> {
    joined(Seq::new(tags.len(), |i: int| tag_documentation(&tags[i])), "  \n\n"@)
}

impl QuickInfo {
    /// The hover: the signature as TypeScript code, the documentation, and
    /// the tags' documentation, with the range of the symbol.
    pub fn to_hover(&self, line_index: &LineIndex) -> (r: Hover)
        requires
            line_index@.len() <= MAX_TEXT_CHARS,
        ensures
            r.range is None <==> no_range(line_index@, self.text_span),
            r.range is Some ==> range_of(line_index@, self.text_span, r.range->0),
            r.contents@.map_values(|m: MarkedString| marked_view(m)) == hover_contents(self),
    {
        proof {
            reveal_strlit("");
        }
        let mut parts: Vec<MarkedString> = Vec::new();
        if let Some(dp) = &self.display_parts {
            parts.push(MarkedString::Code("typescript".to_owned(), display_parts_to_string(dp)));
        }
        if let Some(doc) = &self.documentation {
            parts.push(MarkedString::Markdown(display_parts_to_string(doc)));
        }
        let ghost ab = parts@.map_values(|m: MarkedString| marked_view(m));
        if let Some(tags) = &self.tags {
            let mut docs: Vec<String> = Vec::new();
            for i in 0..tags.len()
                invariant
                    docs@.len() == i,
                    forall|k: int| 0 <= k < i ==> (#[trigger] docs@[k])@ == tag_documentation(&tags@[k]),
            {
                docs.push(get_tag_documentation(&tags[i]));
            }
            assert(docs@.map_values(|s: String| s@) =~= Seq::new(tags@.len(), |i: int| tag_documentation(&tags@[i])));
            let preview = join(&docs, "  \n\n");
            if crate::strings::chars_of(preview.as_str()).len() > 0 {
                parts.push(MarkedString::Markdown(concat("\n\n", preview.as_str())));
                assert(parts@.map_values(|m: MarkedString| marked_view(m)) =~= ab.push((false, ""@, "\n\n"@ + tags_preview(tags@))));
            }
        }
        assert(parts@.map_values(|m: MarkedString| marked_view(m)) =~= hover_contents(self));
        Hover { contents: parts, range: range_in(&self.text_span, line_index) }
    }
}

/// A selection range and the ranges around it.
#[derive(Debug)]
pub struct SelectionRange {
    pub text_span: TextSpan,
    pub parent: Option<Box<SelectionRange>>,
}

/// A selection range as the editor takes it.
#[derive(Debug)]
pub struct EditorSelectionRange {
    pub range: Range,
    pub parent: Option<Box<EditorSelectionRange>>,
}

impl SelectionRange {
    /// The editor selection range, with its parents; nothing where a span
    /// has no range.
    pub fn to_selection_range(&self, line_index: &LineIndex) -> (r: Option<EditorSelectionRange>)
        requires
            line_index@.len() <= MAX_TEXT_CHARS,
        ensures
            r is Some ==> range_of(line_index@, self.text_span, r->0.range) && (r->0.parent is Some
                <==> self.parent is Some),
            r is None ==> no_range(line_index@, self.text_span) || self.parent is Some,
        decreases self,
    {
        let range = match range_in(&self.text_span, line_index) {
            Some(r) => r,
            None => {
                return None;
            },
        };
        let parent = match &self.parent {
            Some(p) => {
                let inner: &SelectionRange = &**p;
                assert(decreases_to!(self => self.parent));
                match inner.to_selection_range(line_index) {
                    Some(pr) => Some(Box::new(pr)),
                    None => {
                        return None;
                    },
                }
            },
            None => None,
        };
        Some(EditorSelectionRange { range, parent })
    }
}

/// A parameter of a signature, as the analyzer reports it.
#[derive(Clone, Debug)]
pub struct SignatureHelpParameter {
    pub documentation: Vec<SymbolDisplayPart>,
    pub display_parts: Vec<SymbolDisplayPart>,
}

/// A parameter as the editor shows it.
#[derive(Clone, Debug)]
pub struct ParameterInformation {
    pub label: String,
    pub documentation: String,
}

impl SignatureHelpParameter {
    /// The editor parameter: its display text and markdown documentation.
    pub fn into_parameter_information(&self) -> (r: ParameterInformation)
        ensures
            r.label@ == display_string(self.display_parts@),
            r.documentation@ == display_string(self.documentation@),
    {
        ParameterInformation {
            label: display_parts_to_string(&self.display_parts),
            documentation: display_parts_to_string(&self.documentation),
        }
    }
}

/// A signature, as the analyzer reports it.
#[derive(Clone, Debug)]
pub struct SignatureHelpItem {
    pub prefix_display_parts: Vec<SymbolDisplayPart>,
    pub suffix_display_parts: Vec<SymbolDisplayPart>,
    pub parameters: Vec<SignatureHelpParameter>,
    pub documentation: Vec<SymbolDisplayPart>,
}

/// A signature as the editor shows it.
#[derive(Clone, Debug)]
pub struct SignatureInformation {
    pub label: String,
    pub documentation: String,
    pub parameters: Vec<ParameterInformation>,
}

impl SignatureHelpItem {
    /// The editor signature: prefix, parameters joined by commas, suffix.
    pub fn into_signature_information(&self) -> (r: SignatureInformation)
        ensures
            r.label@ == display_string(self.prefix_display_parts@) + joined(
                Seq::new(self.parameters@.len(), |i: int| display_string(self.parameters@[i].display_parts@)),
                ", "@,
            ) + display_string(self.suffix_display_parts@),
            r.documentation@ == display_string(self.documentation@),
            r.parameters@.len() == self.parameters@.len(),
            forall|i: int|
                0 <= i < r.parameters@.len() ==> (#[trigger] r.parameters@[i]).label@ == display_string(
                    self.parameters@[i].display_parts@,
                ) && r.parameters@[i].documentation@ == display_string(self.parameters@[i].documentation@),
    {
        let prefix = display_parts_to_string(&self.prefix_display_parts);
        let mut texts: Vec<String> = Vec::new();
        let mut params: Vec<ParameterInformation> = Vec::new();
        for i in 0..self.parameters.len()
            invariant
                texts@.len() == i,
                params@.len() == i,
                forall|k: int| 0 <= k < i ==> (#[trigger] texts@[k])@ == display_string(self.parameters@[k].display_parts@),
                forall|k: int|
                    0 <= k < i ==> (#[trigger] params@[k]).label@ == display_string(self.parameters@[k].display_parts@)
                        && params@[k].documentation@ == display_string(self.parameters@[k].documentation@),
        {
            texts.push(display_parts_to_string(&self.parameters[i].display_parts));
            params.push(self.parameters[i].into_parameter_information());
        }
        assert(texts@.map_values(|s: String| s@) =~= Seq::new(
            self.parameters@.len(),
            |i: int| display_string(self.parameters@[i].display_parts@),
        ));
        let params_text = join(&texts, ", ");
        let suffix = display_parts_to_string(&self.suffix_display_parts);
        let a = concat(prefix.as_str(), params_text.as_str());
        SignatureInformation {
            label: concat(a.as_str(), suffix.as_str()),
            documentation: display_parts_to_string(&self.documentation),
            parameters: params,
        }
    }
}

/// The signatures at a call, as the analyzer reports them.
#[derive(Clone, Debug)]
pub struct SignatureHelpItems {
    pub items: Vec<SignatureHelpItem>,
    pub selected_item_index: u32,
    pub argument_index: u32,
}

/// Signature help as the editor shows it.
#[derive(Clone, Debug)]
pub struct SignatureHelp {
    pub signatures: Vec<SignatureInformation>,
    pub active_signature: Option<u32>,
    pub active_parameter: Option<u32>,
}

impl SignatureHelpItems {
    /// The editor signature help, with the selected signature and argument.
    pub fn into_signature_help(&self) -> (r: SignatureHelp)
        ensures
            r.signatures@.len() == self.items@.len(),
            r.active_signature == Some(self.selected_item_index),
            r.active_parameter == Some(self.argument_index),
            forall|i: int|
                0 <= i < r.signatures@.len() ==> (#[trigger] r.signatures@[i]).documentation@ == display_string(
                    self.items@[i].documentation@,
                ),
    {
        let mut signatures: Vec<SignatureInformation> = Vec::new();
        for i in 0..self.items.len()
            invariant
                signatures@.len() == i,
                forall|k: int|
                    0 <= k < i ==> (#[trigger] signatures@[k]).documentation@ == display_string(self.items@[k].documentation@),
        {
            signatures.push(self.items[i].into_signature_information());
        }
        SignatureHelp {
            signatures,
            active_signature: Some(self.selected_item_index),
            active_parameter: Some(self.argument_index),
        }
    }
}

/// A link from a range of one document to a range of another.
#[derive(Clone, Debug)]
pub struct LocationLink {
    pub origin_selection_range: Option<Range>,
    pub target_uri: String,
    pub target_range: Range,
    pub target_selection_range: Range,
}

/// Whether `l` links the span `d`, seen from the document with text `origin`,
/// to the document `target`.
pub open spec fn link_of(d: &DocumentSpan, origin: Seq<char>, target: &ResolvedDocument, l: LocationLink) -> bool {
    &&& l.target_uri@ == target.uri@
    &&& range_of(target.line_index@, d.text_span, l.target_selection_range)
    &&& match d.context_span {
        Some(c) => range_of(target.line_index@, c, l.target_range),
        None => range_of(target.line_index@, d.text_span, l.target_range),
    }
    &&& match (d.original_context_span, d.original_text_span) {
        (Some(c), _) => l.origin_selection_range is Some && range_of(origin, c, l.origin_selection_range->0),
        (None, Some(t)) => l.origin_selection_range is Some && range_of(origin, t, l.origin_selection_range->0),
        (None, None) => l.origin_selection_range is None,
    }
}

impl DocumentSpan {
    /// The link to this span in `target`, with its origin in the document
    /// indexed by `line_index`; nothing where a span has no range.
    pub fn to_link(&self, line_index: &LineIndex, target: &ResolvedDocument) -> (r: Option<LocationLink>)
        requires
            line_index@.len() <= MAX_TEXT_CHARS,
            target.line_index@.len() <= MAX_TEXT_CHARS,
        ensures
            r is Some ==> link_of(self, line_index@, target, r->0),
            r is None ==> no_range(target.line_index@, self.text_span) || (self.context_span is Some && no_range(
                target.line_index@,
                self.context_span->0,
            )) || (self.original_context_span is Some && no_range(line_index@, self.original_context_span->0))
                || (self.original_context_span is None && self.original_text_span is Some && no_range(
                line_index@,
                self.original_text_span->0,
            )),
    {
        let target_selection_range = match range_in(&self.text_span, &target.line_index) {
            Some(r) => r,
            None => {
                return None;
            },
        };
        let target_range = match &self.context_span {
            Some(c) => match range_in(c, &target.line_index) {
                Some(r) => r,
                None => {
                    return None;
                },
            },
            None => target_selection_range,
        };
        let origin_selection_range = match (&self.original_context_span, &self.original_text_span) {
            (Some(c), _) => match range_in(c, line_index) {
                Some(r) => Some(r),
                None => {
                    return None;
                },
            },
            (None, Some(t)) => match range_in(t, line_index) {
                Some(r) => Some(r),
                None => {
                    return None;
                },
            },
            (None, None) => None,
        };
        Some(LocationLink {
            origin_selection_range,
            target_uri: target.uri.clone(),
            target_range,
            target_selection_range,
        })
    }
}

impl ImplementationLocation {
    /// The link to this implementation in `target`.
    pub fn to_link(&self, line_index: &LineIndex, target: &ResolvedDocument) -> (r: Option<LocationLink>)
        requires
            line_index@.len() <= MAX_TEXT_CHARS,
            target.line_index@.len() <= MAX_TEXT_CHARS,
        ensures
            r is Some ==> link_of(&self.document_span, line_index@, target, r->0),
    {
        self.document_span.to_link(line_index, target)
    }
}

impl DefinitionInfoAndBoundSpan {
    /// The links to the definitions; `targets[i]` is the document of
    /// definition `i`, where the language server knows it. Definitions whose
    /// document is unknown or whose spans have no range are left out.
    pub fn to_definition(&self, line_index: &LineIndex, targets: &Vec<Option<ResolvedDocument>>) -> (r: Option<Vec<LocationLink>>)
        requires
            line_index@.len() <= MAX_TEXT_CHARS,
            forall|i: int|
                0 <= i < targets@.len() && (#[trigger] targets@[i]) is Some ==> targets@[i]->0.line_index@.len()
                    <= MAX_TEXT_CHARS,
        ensures
            r is Some <==> self.definitions is Some,
            r is Some ==> r->0@.len() <= self.definitions->0@.len(),
    {
        match &self.definitions {
            None => None,
            Some(definitions) => {
                let mut links: Vec<LocationLink> = Vec::new();
                let n = if targets.len() < definitions.len() { targets.len() } else { definitions.len() };
                for i in 0..n
                    invariant
                        line_index@.len() <= MAX_TEXT_CHARS,
                        n <= targets@.len(),
                        n <= definitions@.len(),
                        links@.len() <= i,
                        forall|j: int|
                            0 <= j < targets@.len() && (#[trigger] targets@[j]) is Some ==> targets@[j]->0.line_index@.len()
                                <= MAX_TEXT_CHARS,
                {
                    if let Some(target) = &targets[i] {
                        if let Some(link) = definitions[i].document_span.to_link(line_index, target) {
                            links.push(link);
                        }
                    }
                }
                Some(links)
            },
        }
    }
}

} // verus!
