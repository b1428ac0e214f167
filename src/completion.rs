//! Completion entries of the analyzer turned into editor completion items.
use vstd::prelude::*;
use crate::kinds::{ScriptElementKind, CompletionItemKind, completion_kind_of};
use crate::line_index::{LineIndex, Range, TextSpan, MAX_TEXT_CHARS, position_result};
use crate::patterns::{first_match, split, regex_first_match, regex_split};
use crate::specifier::ModuleSpecifier;
use crate::strings::{str_eq, concat, starts_with, ends_with, replace_all, replaced, has_prefix, has_suffix};
use crate::docs::group_text;

verus! {

/// The separators between kind modifiers: commas and runs of blanks.
pub const KIND_MODIFIER_PATTERN: &'static str = ",|\\s+";

/// A bracket accessor such as `['name']`, capturing the name.
pub const BRACKET_ACCESSOR_PATTERN: &'static str = "^\\[['\"](.+)[\\['\"]\\]$";

/// The extension modifiers that script elements may carry, in the order
/// they are tried.
pub open spec fn extension_modifiers() -> Seq<Seq<char>> {
    seq![".d.ts"@, ".ts"@, ".tsx"@, ".js"@, ".jsx"@, ".json"@]
}

/// The modifiers listed in a kind-modifier text.
pub open spec fn modifier_list(s: Seq<char>) -> Seq<Seq<char>> {
    match regex_split(KIND_MODIFIER_PATTERN@, s) {
        Some(v) => v,
        None => Seq::empty(),
    }
}

/// Whether a kind-modifier text lists `m`.
pub open spec fn has_modifier(s: Seq<char>, m: Seq<char>) -> bool {
    modifier_list(s).contains(m)
}

/// Splits a kind-modifier text into its modifiers.
pub fn parse_kind_modifier(kind_modifiers: &str) -> (r: Vec<String>)
    ensures
        r@.map_values(|s: String| s@) == modifier_list(kind_modifiers@),
{
    match split(KIND_MODIFIER_PATTERN, kind_modifiers) {
        Some(v) => v,
        None => {
            let v: Vec<String> = Vec::new();
            assert(v@.map_values(|s: String| s@) =~= Seq::<Seq<char>>::empty());
            v
        },
    }
}

/// Whether `mods` holds `m`.
pub fn contains_modifier(mods: &Vec<String>, m: &str) -> (r: bool)
    ensures
        r == mods@.map_values(|s: String| s@).contains(m@),
{
    let ghost view = mods@.map_values(|s: String| s@);
    let mut i: usize = 0;
    while i < mods.len()
        invariant
            i <= mods@.len(),
            view == mods@.map_values(|s: String| s@),
            forall|j: int| 0 <= j < i ==> view[j] != m@,
        decreases mods@.len() - i,
    {
        if str_eq(mods[i].as_str(), m) {
            assert(view[i as int] == m@);
            return true;
        }
        i = i + 1;
    }
    false
}

/// What `str::to_lowercase` gives for a text.
pub uninterp spec fn lowercased(s: Seq<char>) -> Seq<char>;

/// Relies on `str::to_lowercase`: the lower-case form of the text.
#[verifier::external_body]
fn to_lowercase(s: &str) -> (r: String)
    ensures
        r@ == lowercased(s@),
{
    s.to_lowercase()
}

/// The editor's completion settings that shape items.
#[derive(Clone, Copy, Debug)]
pub struct CompletionSettings {
    pub complete_function_calls: bool,
}

/// One completion entry, as the analyzer reports it. `data` is the entry's
/// opaque data as JSON text.
#[derive(Clone, Debug, Default)]
pub struct CompletionEntry {
    pub name: String,
    pub kind: ScriptElementKind,
    pub kind_modifiers: Option<String>,
    pub sort_text: String,
    pub insert_text: Option<String>,
    pub is_snippet: Option<bool>,
    pub replacement_span: Option<TextSpan>,
    pub has_action: Option<bool>,
    pub source: Option<String>,
    pub is_recommended: Option<bool>,
    pub data: Option<String>,
}

/// A completion list, as the analyzer reports it; `is_incomplete` is the
/// flag of the same name in its metadata.
#[derive(Clone, Debug)]
pub struct CompletionInfo {
    pub entries: Vec<CompletionEntry>,
    pub is_global_completion: bool,
    pub is_member_completion: bool,
    pub is_new_identifier_location: bool,
    pub is_incomplete: Option<bool>,
    pub optional_replacement_span: Option<TextSpan>,
}

/// What a completion item carries for resolving its details later.
#[derive(Clone, Debug)]
pub struct CompletionItemData {
    pub specifier: ModuleSpecifier,
    pub position: u32,
    pub name: String,
    pub source: Option<String>,
    pub data: Option<String>,
    pub use_code_snippet: bool,
}

/// An edit that inserts or replaces text over a range.
#[derive(Clone, Debug)]
pub struct InsertReplaceEdit {
    pub new_text: String,
    pub insert: Range,
    pub replace: Range,
}

/// A completion item as the editor shows it.
#[derive(Clone, Debug)]
pub struct CompletionItem {
    pub label: String,
    pub kind: CompletionItemKind,
    pub sort_text: String,
    pub preselect: Option<bool>,
    pub text_edit: Option<InsertReplaceEdit>,
    pub filter_text: Option<String>,
    pub insert_text: Option<String>,
    pub is_snippet: bool,
    pub detail: Option<String>,
    pub deprecated: bool,
    pub commit_characters: Option<Vec<String>>,
    pub data: CompletionItemData,
}

/// A list of completion items.
#[derive(Clone, Debug)]
pub struct CompletionList {
    pub is_incomplete: bool,
    pub items: Vec<CompletionItem>,
}

/// The characters that accept a completion of kind `k`.
pub open spec fn commit_characters_of(k: ScriptElementKind, new_identifier: bool, complete_calls: bool) -> Option<Seq<Seq<char>>> {
    if new_identifier {
        None
    } else {
        match k {
            ScriptElementKind::MemberGetAccessorElement | ScriptElementKind::MemberSetAccessorElement
            | ScriptElementKind::ConstructSignatureElement | ScriptElementKind::CallSignatureElement
            | ScriptElementKind::IndexSignatureElement | ScriptElementKind::EnumElement
            | ScriptElementKind::InterfaceElement => Some(seq!["."@, ";"@]),
            ScriptElementKind::ModuleElement | ScriptElementKind::Alias | ScriptElementKind::ConstElement
            | ScriptElementKind::LetElement | ScriptElementKind::VariableElement
            | ScriptElementKind::LocalVariableElement | ScriptElementKind::MemberVariableElement
            | ScriptElementKind::ClassElement | ScriptElementKind::FunctionElement
            | ScriptElementKind::MemberFunctionElement | ScriptElementKind::Keyword
            | ScriptElementKind::ParameterElement => if complete_calls {
                Some(seq!["."@, ","@, ";"@])
            } else {
                Some(seq!["."@, ","@, ";"@, "("@])
            },
            _ => None,
        }
    }
}

/// The view of an optional string.
pub open spec fn opt_str(o: Option<String>) -> Option<Seq<char>> {
    match o {
        Some(s) => Some(s@),
        None => None,
    }
}

/// The view of an optional list of strings.
pub open spec fn opt_strs(o: Option<Vec<String>>) -> Option<Seq<Seq<char>>> {
    match o {
        Some(v) => Some(v@.map_values(|s: String| s@)),
        None => None,
    }
}

/// The filter text of an entry named `name` with insert text `insert`.
pub open spec fn filter_text_of(name: Seq<char>, insert: Option<Seq<char>>) -> Option<Seq<char>> {
    if has_prefix(name, "#"@) {
        match insert {
            Some(t) => if has_prefix(t, "this.#"@) {
                Some(replaced(t, "this.#"@, ""@))
            } else {
                Some(t)
            },
            None => None,
        }
    } else {
        match insert {
            Some(t) => if has_prefix(t, "this."@) {
                None
            } else if has_prefix(t, "["@) {
                match regex_first_match(BRACKET_ACCESSOR_PATTERN@, t) {
                    Some(h) => Some(h.0 + "."@ + group_text(h, 1) + h.3),
                    None => Some(t),
                }
            } else {
                Some(t)
            },
            None => None,
        }
    }
}

fn strings_of(v: Vec<&'static str>) -> (r: Vec<String>)
    ensures
        r@.map_values(|s: String| s@) == v@.map_values(|s: &str| s@),
{
    let mut out: Vec<String> = Vec::new();
    for i in 0..v.len()
        invariant
            out@.len() == i,
            forall|j: int| 0 <= j < i ==> out@[j]@ == v@[j]@,
    {
        let s = v[i].to_owned();
        out.push(s);
    }
    assert(out@.map_values(|s: String| s@) =~= v@.map_values(|s: &str| s@));
    out
}

impl CompletionEntry {
    /// The characters that accept this entry; none at a new identifier.
    pub fn get_commit_characters(&self, info: &CompletionInfo, settings: &CompletionSettings) -> (r: Option<Vec<String>>)
        ensures
            opt_strs(r) == commit_characters_of(self.kind, info.is_new_identifier_location, settings.complete_function_calls),
    {
        if info.is_new_identifier_location {
            return None;
        }
        let chars: Vec<&'static str> = match self.kind {
            ScriptElementKind::MemberGetAccessorElement | ScriptElementKind::MemberSetAccessorElement
            | ScriptElementKind::ConstructSignatureElement | ScriptElementKind::CallSignatureElement
            | ScriptElementKind::IndexSignatureElement | ScriptElementKind::EnumElement
            | ScriptElementKind::InterfaceElement => vec![".", ";"],
            ScriptElementKind::ModuleElement | ScriptElementKind::Alias | ScriptElementKind::ConstElement
            | ScriptElementKind::LetElement | ScriptElementKind::VariableElement
            | ScriptElementKind::LocalVariableElement | ScriptElementKind::MemberVariableElement
            | ScriptElementKind::ClassElement | ScriptElementKind::FunctionElement
            | ScriptElementKind::MemberFunctionElement | ScriptElementKind::Keyword
            | ScriptElementKind::ParameterElement => if settings.complete_function_calls {
                vec![".", ",", ";"]
            } else {
                vec![".", ",", ";", "("]
            },
            _ => Vec::new(),
        };
        if chars.len() == 0 {
            assert(commit_characters_of(self.kind, false, settings.complete_function_calls) is None);
            return None;
        }
        let r = strings_of(chars);
        assert(r@.map_values(|s: String| s@) =~= commit_characters_of(self.kind, false, settings.complete_function_calls)->0);
        Some(r)
    }

    /// The text the editor filters this entry by: private names lose their
    /// `this.#` prefix, bracket accessors filter as `.name`, and
    /// `this.`-prefixed inserts have none.
    pub fn get_filter_text(&self) -> (r: Option<String>)
        ensures
            opt_str(r) == filter_text_of(self.name@, opt_str(self.insert_text)),
    {
        proof {
            reveal_strlit("");
        }
        if starts_with(self.name.as_str(), "#") {
            match &self.insert_text {
                Some(insert_text) => {
                    if starts_with(insert_text.as_str(), "this.#") {
                        proof {
                            reveal_strlit("this.#");
                        }
                        return Some(replace_all(insert_text.as_str(), "this.#", ""));
                    } else {
                        return Some(insert_text.clone());
                    }
                },
                None => {
                    return None;
                },
            }
        }
        if let Some(insert_text) = &self.insert_text {
            if starts_with(insert_text.as_str(), "this.") {
                return None;
            }
            if starts_with(insert_text.as_str(), "[") {
                return match first_match(BRACKET_ACCESSOR_PATTERN, insert_text.as_str()) {
                    Some(hit) => {
                        let g = if hit.groups.len() > 1 {
                            match &hit.groups[1] {
                                Some(g) => g.clone(),
                                None => String::new(),
                            }
                        } else {
                            String::new()
                        };
                        assert(g@ == group_text(hit@, 1));
                        let a = concat(hit.before.as_str(), ".");
                        let b = concat(a.as_str(), g.as_str());
                        Some(concat(b.as_str(), hit.after.as_str()))
                    },
                    None => Some(insert_text.clone()),
                };
            }
        }
        match &self.insert_text {
            Some(t) => Some(t.clone()),
            None => None,
        }
    }
}

/// A copy of an optional string.
pub fn clone_opt(o: &Option<String>) -> (r: Option<String>)
    ensures
        opt_str(r) == opt_str(*o),
{
    match o {
        Some(s) => Some(s.clone()),
        None => None,
    }
}

/// The modifiers an entry lists.
pub open spec fn entry_modifiers(e: &CompletionEntry) -> Seq<Seq<char>> {
    match e.kind_modifiers {
        Some(m) => modifier_list(m@),
        None => Seq::empty(),
    }
}

/// The first extension modifier, from index `i` on, that `mods` lists.
pub open spec fn first_extension(mods: Seq<Seq<char>>, i: nat) -> Option<Seq<char>>
    decreases 6 - i,
{
    if i >= 6 {
        None
    } else if mods.contains(extension_modifiers()[i as int]) {
        Some(extension_modifiers()[i as int])
    } else {
        first_extension(mods, i + 1)
    }
}

/// The detail shown for a script element: its name with the extension its
/// modifiers give, unless the name ends with it already.
pub open spec fn detail_of(e: &CompletionEntry) -> Option<Seq<char>> {
    if e.kind == ScriptElementKind::ScriptElement && e.kind_modifiers is Some {
        match first_extension(entry_modifiers(e), 0) {
            Some(x) => Some(if has_suffix(lowercased(e.name@), x) {
                e.name@
            } else {
                e.name@ + x
            }),
            None => None,
        }
    } else {
        None
    }
}

/// Whether an entry is marked optional.
pub open spec fn is_optional(e: &CompletionEntry) -> bool {
    entry_modifiers(e).contains("optional"@)
}

/// The insert text of the item made from an entry.
pub open spec fn item_insert_text(e: &CompletionEntry) -> Option<Seq<char>> {
    if is_optional(e) && e.insert_text is None {
        Some(e.name@)
    } else {
        opt_str(e.insert_text)
    }
}

/// The filter text of the item made from an entry.
pub open spec fn item_filter_text(e: &CompletionEntry) -> Option<Seq<char>> {
    let f = filter_text_of(e.name@, opt_str(e.insert_text));
    if is_optional(e) && f is None {
        Some(e.name@)
    } else {
        f
    }
}

/// Whether the item made from an entry of kind `k` inserts a call snippet.
pub open spec fn uses_code_snippet(k: ScriptElementKind, complete_calls: bool) -> bool {
    complete_calls && (completion_kind_of(k) == CompletionItemKind::Function || completion_kind_of(k)
        == CompletionItemKind::Method)
}

/// The editor item made from an entry.
pub open spec fn completion_item_matches(
    e: &CompletionEntry,
    t: Seq<char>,
    info: &CompletionInfo,
    settings: &CompletionSettings,
    specifier: Seq<char>,
    position: u32,
    r: &CompletionItem,
) -> bool {
    &&& r.label@ == if is_optional(e) { e.name@ + "?"@ } else { e.name@ }
    &&& r.kind == if entry_modifiers(e).contains("color"@) {
        CompletionItemKind::Color
    } else {
        completion_kind_of(e.kind)
    }
    &&& r.sort_text@ == if e.source is Some && e.source->0@.len() > 0 {
        seq!['\u{ffff}'] + e.sort_text@
    } else {
        e.sort_text@
    }
    &&& r.preselect == e.is_recommended
    &&& opt_str(r.insert_text) == item_insert_text(e)
    &&& opt_str(r.filter_text) == item_filter_text(e)
    &&& r.is_snippet == (e.is_snippet == Some(true))
    &&& opt_str(r.detail) == detail_of(e)
    &&& r.deprecated == entry_modifiers(e).contains("deprecated"@)
    &&& opt_strs(r.commit_characters) == commit_characters_of(
        e.kind,
        info.is_new_identifier_location,
        settings.complete_function_calls,
    )
    &&& (r.text_edit is Some ==> e.replacement_span is Some && item_insert_text(e) is Some
        && r.text_edit->0.new_text@ == item_insert_text(e)->0 && r.text_edit->0.insert
        == r.text_edit->0.replace && position_result(
        t,
        e.replacement_span->0.start as nat,
        Some(r.text_edit->0.insert.start@),
    ) && position_result(t, e.replacement_span->0.end_spec(), Some(r.text_edit->0.insert.end@)))
    &&& (r.text_edit is None ==> e.replacement_span is None || item_insert_text(e) is None
        || position_result(t, e.replacement_span->0.start as nat, None) || position_result(
        t,
        e.replacement_span->0.end_spec(),
        None,
    ))
    &&& r.data.specifier@ == specifier
    &&& r.data.position == position
    &&& r.data.name@ == e.name@
    &&& opt_str(r.data.source) == opt_str(e.source)
    &&& opt_str(r.data.data) == opt_str(e.data)
    &&& r.data.use_code_snippet == uses_code_snippet(e.kind, settings.complete_function_calls)
}

impl CompletionEntry {
    fn extension_detail(&self, mods: &Vec<String>) -> (r: Option<String>)
        requires
            self.kind == ScriptElementKind::ScriptElement,
            self.kind_modifiers is Some,
            mods@.map_values(|s: String| s@) == entry_modifiers(self),
        ensures
            opt_str(r) == detail_of(self),
    {
        let exts: Vec<&'static str> = vec![".d.ts", ".ts", ".tsx", ".js", ".jsx", ".json"];
        assert(exts@.map_values(|s: &str| s@) =~= extension_modifiers());
        let mut i: usize = 0;
        while i < exts.len()
            invariant
                exts@.len() == 6,
                self.kind == ScriptElementKind::ScriptElement,
                self.kind_modifiers is Some,
                mods@.map_values(|s: String| s@) == entry_modifiers(self),
                exts@.map_values(|s: &str| s@) == extension_modifiers(),
                i <= 6,
                first_extension(entry_modifiers(self), 0) == first_extension(entry_modifiers(self), i as nat),
            decreases 6 - i,
        {
            let ext = exts[i];
            assert(ext@ == extension_modifiers()[i as int]);
            if contains_modifier(mods, ext) {
                assert(entry_modifiers(self).contains(extension_modifiers()[i as int]));
                assert(first_extension(entry_modifiers(self), i as nat) == Some(extension_modifiers()[i as int]));
                let lower = to_lowercase(self.name.as_str());
                if ends_with(lower.as_str(), ext) {
                    return Some(self.name.clone());
                } else {
                    return Some(concat(self.name.as_str(), ext));
                }
            }
            i = i + 1;
        }
        None
    }

    /// The editor item for this entry: auto-imports sort after locals,
    /// optional members show a `?`, deprecated ones a tag, script elements
    /// their extension, and a replacement span becomes an insert-and-replace
    /// edit.
    pub fn as_completion_item(
        &self,
        line_index: &LineIndex,
        info: &CompletionInfo,
        settings: &CompletionSettings,
        specifier: &ModuleSpecifier,
        position: u32,
    ) -> (r: CompletionItem)
        requires
            line_index@.len() <= MAX_TEXT_CHARS,
        ensures
            completion_item_matches(self, line_index@, info, settings, specifier@, position, &r),
    {
        let mut label = self.name.clone();
        let base_kind = CompletionItemKind::from(self.kind);
        let mut kind = base_kind;
        let has_source = match &self.source {
            Some(src) => crate::strings::chars_of(src.as_str()).len() > 0,
            None => false,
        };
        let sort_text = if has_source {
            let mut v: Vec<char> = Vec::new();
            v.push('\u{ffff}');
            let lead = crate::strings::string_of(&v);
            concat(lead.as_str(), self.sort_text.as_str())
        } else {
            self.sort_text.clone()
        };
        let preselect = self.is_recommended;
        let use_code_snippet = settings.complete_function_calls && (base_kind == CompletionItemKind::Function
            || base_kind == CompletionItemKind::Method);
        let commit_characters = self.get_commit_characters(info, settings);
        let mut insert_text = clone_opt(&self.insert_text);
        let is_snippet = match self.is_snippet {
            Some(true) => true,
            _ => false,
        };
        let mut filter_text = self.get_filter_text();
        let mut deprecated = false;
        let mut detail: Option<String> = None;
        let empty: Vec<String> = Vec::new();
        let mods = match &self.kind_modifiers {
            Some(m) => parse_kind_modifier(m.as_str()),
            None => empty,
        };
        assert(mods@.map_values(|s: String| s@) =~= entry_modifiers(self));
        if contains_modifier(&mods, "optional") {
            if insert_text.is_none() {
                insert_text = Some(label.clone());
            }
            if filter_text.is_none() {
                filter_text = Some(label.clone());
            }
            label = concat(label.as_str(), "?");
        }
        if contains_modifier(&mods, "deprecated") {
            deprecated = true;
        }
        if contains_modifier(&mods, "color") {
            kind = CompletionItemKind::Color;
        }
        if self.kind_modifiers.is_some() {
            if let ScriptElementKind::ScriptElement = self.kind {
                detail = self.extension_detail(&mods);
            }
        }
        let text_edit = match (&self.replacement_span, &insert_text) {
            (Some(span), Some(new_text)) => match span.to_range(line_index) {
                Some(range) => Some(InsertReplaceEdit { new_text: new_text.clone(), insert: range, replace: range }),
                None => None,
            },
            _ => None,
        };
        let data = CompletionItemData {
            specifier: ModuleSpecifier { href: specifier.href.clone() },
            position,
            name: self.name.clone(),
            source: clone_opt(&self.source),
            data: clone_opt(&self.data),
            use_code_snippet,
        };
        CompletionItem {
            label,
            kind,
            sort_text,
            preselect,
            text_edit,
            filter_text,
            insert_text,
            is_snippet,
            detail,
            deprecated,
            commit_characters,
            data,
        }
    }
}

impl CompletionInfo {
    /// The editor list for these entries, incomplete where the analyzer's
    /// metadata says so.
    pub fn as_completion_response(
        &self,
        line_index: &LineIndex,
        settings: &CompletionSettings,
        specifier: &ModuleSpecifier,
        position: u32,
    ) -> (r: CompletionList)
        requires
            line_index@.len() <= MAX_TEXT_CHARS,
        ensures
            r.is_incomplete == (self.is_incomplete == Some(true)),
            r.items@.len() == self.entries@.len(),
            forall|i: int|
                0 <= i < r.items@.len() ==> completion_item_matches(
                    &self.entries@[i],
                    line_index@,
                    self,
                    settings,
                    specifier@,
                    position,
                    &r.items@[i],
                ),
    {
        let mut items: Vec<CompletionItem> = Vec::new();
        for i in 0..self.entries.len()
            invariant
                line_index@.len() <= MAX_TEXT_CHARS,
                items@.len() == i,
                forall|j: int|
                    0 <= j < i ==> completion_item_matches(
                        &self.entries@[j],
                        line_index@,
                        self,
                        settings,
                        specifier@,
                        position,
                        &items@[j],
                    ),
        {
            let item = self.entries[i].as_completion_item(line_index, self, settings, specifier, position);
            items.push(item);
        }
        let is_incomplete = match self.is_incomplete {
            Some(true) => true,
            _ => false,
        };
        CompletionList { is_incomplete, items }
    }
}

} // verus!
