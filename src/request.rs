//! The requests sent to the analyzer and the fields each one carries.
//!
//! Every request is sent as an object whose first two fields are `id` and
//! `method`, followed by the fields of its kind. Specifiers are sent in the
//! spelling the analyzer first used for them, and ranges as `{pos, end}`.
use vstd::prelude::*;
use crate::host::{RequestKind, wire_method};
use crate::line_index::TextSpan;
use crate::preferences::{FormatCodeSettings, SemicolonPreference};
use crate::specifier::{ModuleSpecifier, SpecifierMap, denormalized};

verus! {

/// A JSON value to be sent; `Raw` holds JSON text made elsewhere.
#[derive(Debug)]
pub enum WireValue {
    Null,
    Bool(bool),
    Num(u64),
    Str(String),
    Raw(String),
    Arr(Vec<WireValue>),
    Obj(Vec<(String, WireValue)>),
}

/// A request to the analyzer with what its kind carries. Settings that the
/// analyzer takes whole (`Raw`) are JSON text.
#[derive(Debug)]
pub enum RequestMethod {
    Configure { compiler_options: String },
    FindRenameLocations { specifier: ModuleSpecifier, position: u32, find_in_strings: bool, find_in_comments: bool, provide_prefix_and_suffix_text_for_rename: bool },
    GetAssets,
    GetApplicableRefactors { specifier: ModuleSpecifier, range: TextSpan, kind: String },
    GetEditsForRefactor { specifier: ModuleSpecifier, format_code_settings: FormatCodeSettings, range: TextSpan, refactor_name: String, action_name: String },
    GetCodeFixes { specifier: ModuleSpecifier, start_position: u32, end_position: u32, error_codes: Vec<String>, format_code_settings: FormatCodeSettings },
    GetCombinedCodeFix { specifier: ModuleSpecifier, fix_id: String, format_code_settings: FormatCodeSettings },
    GetCompletionDetails { args: String },
    GetCompletions { specifier: ModuleSpecifier, position: u32, preferences: String, format_code_settings: FormatCodeSettings },
    GetDefinition { specifier: ModuleSpecifier, position: u32 },
    GetDiagnostics { specifiers: Vec<ModuleSpecifier> },
    GetDocumentHighlights { specifier: ModuleSpecifier, position: u32, files_to_search: Vec<ModuleSpecifier> },
    GetEncodedSemanticClassifications { specifier: ModuleSpecifier, span: TextSpan },
    GetImplementation { specifier: ModuleSpecifier, position: u32 },
    GetNavigateToItems { search: String, max_result_count: Option<u32>, file: Option<String> },
    GetNavigationTree { specifier: ModuleSpecifier },
    GetOutliningSpans { specifier: ModuleSpecifier },
    GetQuickInfo { specifier: ModuleSpecifier, position: u32 },
    FindReferences { specifier: ModuleSpecifier, position: u32 },
    GetSignatureHelpItems { specifier: ModuleSpecifier, position: u32, options: String },
    GetSmartSelectionRange { specifier: ModuleSpecifier, position: u32 },
    GetSupportedCodeFixes,
    GetTypeDefinition { specifier: ModuleSpecifier, position: u32 },
    PrepareCallHierarchy { specifier: ModuleSpecifier, position: u32 },
    ProvideCallHierarchyIncomingCalls { specifier: ModuleSpecifier, position: u32 },
    ProvideCallHierarchyOutgoingCalls { specifier: ModuleSpecifier, position: u32 },
    ProvideInlayHints { specifier: ModuleSpecifier, span: TextSpan, preferences: String },
    Restart,
}

/// The kind of a request.
pub open spec fn method_kind(m: &RequestMethod) -> RequestKind {
    match m {
        RequestMethod::Configure { .. } => RequestKind::Configure,
        RequestMethod::FindRenameLocations { .. } => RequestKind::FindRenameLocations,
        RequestMethod::GetAssets => RequestKind::GetAssets,
        RequestMethod::GetApplicableRefactors { .. } => RequestKind::GetApplicableRefactors,
        RequestMethod::GetEditsForRefactor { .. } => RequestKind::GetEditsForRefactor,
        RequestMethod::GetCodeFixes { .. } => RequestKind::GetCodeFixes,
        RequestMethod::GetCombinedCodeFix { .. } => RequestKind::GetCombinedCodeFix,
        RequestMethod::GetCompletionDetails { .. } => RequestKind::GetCompletionDetails,
        RequestMethod::GetCompletions { .. } => RequestKind::GetCompletions,
        RequestMethod::GetDefinition { .. } => RequestKind::GetDefinition,
        RequestMethod::GetDiagnostics { .. } => RequestKind::GetDiagnostics,
        RequestMethod::GetDocumentHighlights { .. } => RequestKind::GetDocumentHighlights,
        RequestMethod::GetEncodedSemanticClassifications { .. } => RequestKind::GetEncodedSemanticClassifications,
        RequestMethod::GetImplementation { .. } => RequestKind::GetImplementation,
        RequestMethod::GetNavigateToItems { .. } => RequestKind::GetNavigateToItems,
        RequestMethod::GetNavigationTree { .. } => RequestKind::GetNavigationTree,
        RequestMethod::GetOutliningSpans { .. } => RequestKind::GetOutliningSpans,
        RequestMethod::GetQuickInfo { .. } => RequestKind::GetQuickInfo,
        RequestMethod::FindReferences { .. } => RequestKind::FindReferences,
        RequestMethod::GetSignatureHelpItems { .. } => RequestKind::GetSignatureHelpItems,
        RequestMethod::GetSmartSelectionRange { .. } => RequestKind::GetSmartSelectionRange,
        RequestMethod::GetSupportedCodeFixes => RequestKind::GetSupportedCodeFixes,
        RequestMethod::GetTypeDefinition { .. } => RequestKind::GetTypeDefinition,
        RequestMethod::PrepareCallHierarchy { .. } => RequestKind::PrepareCallHierarchy,
        RequestMethod::ProvideCallHierarchyIncomingCalls { .. } => RequestKind::ProvideCallHierarchyIncomingCalls,
        RequestMethod::ProvideCallHierarchyOutgoingCalls { .. } => RequestKind::ProvideCallHierarchyOutgoingCalls,
        RequestMethod::ProvideInlayHints { .. } => RequestKind::ProvideInlayHints,
        RequestMethod::Restart => RequestKind::Restart,
    }
}

/// Whether `f` is the field `key` holding the text `s`.
pub open spec fn str_field(f: (String, WireValue), key: Seq<char>, s: Seq<char>) -> bool {
    f.0@ == key && (f.1 matches WireValue::Str(x) && x@ == s)
}

/// Whether `f` is the field `key` holding the JSON text `s`.
pub open spec fn raw_field(f: (String, WireValue), key: Seq<char>, s: Seq<char>) -> bool {
    f.0@ == key && (f.1 matches WireValue::Raw(x) && x@ == s)
}

/// Whether `f` is the field `key` holding the number `n`.
pub open spec fn num_field(f: (String, WireValue), key: Seq<char>, n: nat) -> bool {
    f.0@ == key && (f.1 matches WireValue::Num(x) && x as nat == n)
}

/// Whether `v` is the specifier `s` as the analyzer spells it.
pub open spec fn spec_value_is(map: &SpecifierMap, v: WireValue, s: &ModuleSpecifier) -> bool {
    v matches WireValue::Str(x) && x@ == denormalized(map@, s@)
}

/// Whether `f` is the field `key` holding the specifier `s`.
pub open spec fn spec_field(map: &SpecifierMap, f: (String, WireValue), key: Seq<char>, s: &ModuleSpecifier) -> bool {
    f.0@ == key && spec_value_is(map, f.1, s)
}

/// Whether `f` is the field `key` holding the specifiers `ss`, in order.
pub open spec fn specs_field(map: &SpecifierMap, f: (String, WireValue), key: Seq<char>, ss: Seq<ModuleSpecifier>) -> bool {
    f.0@ == key && (f.1 matches WireValue::Arr(v) && v@.len() == ss.len() && forall|k: int|
        0 <= k < ss.len() ==> spec_value_is(map, #[trigger] v@[k], &ss[k]))
}

/// Whether `f` is the field `key` holding the texts `ts`, in order.
pub open spec fn strs_field(f: (String, WireValue), key: Seq<char>, ts: Seq<String>) -> bool {
    f.0@ == key && (f.1 matches WireValue::Arr(v) && v@.len() == ts.len() && forall|k: int|
        0 <= k < ts.len() ==> (#[trigger] v@[k] matches WireValue::Str(x) && x@ == ts[k]@))
}

/// Whether `v` is the object `{pos, end}` of `span`.
pub open spec fn range_value_is(v: WireValue, span: TextSpan) -> bool {
    v matches WireValue::Obj(o) && o@.len() == 2 && num_field(o@[0], "pos"@, span.start as nat) && num_field(
        o@[1],
        "end"@,
        span.end_spec(),
    )
}

/// Whether `f` is the field `key` holding `span` as `{pos, end}`.
pub open spec fn range_field(f: (String, WireValue), key: Seq<char>, span: TextSpan) -> bool {
    f.0@ == key && range_value_is(f.1, span)
}

/// Whether `f` is the field `key` holding `span` as `{start, length}`.
pub open spec fn span_field(f: (String, WireValue), key: Seq<char>, span: TextSpan) -> bool {
    f.0@ == key && (f.1 matches WireValue::Obj(o) && o@.len() == 2 && num_field(o@[0], "start"@, span.start as nat)
        && num_field(o@[1], "length"@, span.length as nat))
}

/// Whether `f` is the field `key` holding an optional number.
pub open spec fn opt_num_field(f: (String, WireValue), key: Seq<char>, n: Option<u32>) -> bool {
    f.0@ == key && match n {
        Some(x) => f.1 == WireValue::Num(x as u64),
        None => f.1 matches WireValue::Null,
    }
}

/// Whether `f` is the field `key` holding an optional text.
pub open spec fn opt_str_field(f: (String, WireValue), key: Seq<char>, s: Option<String>) -> bool {
    f.0@ == key && match s {
        Some(x) => f.1 matches WireValue::Str(y) && y@ == x@,
        None => f.1 matches WireValue::Null,
    }
}

/// Whether `f` is the field `key` holding the formatting settings: the
/// spaces flag, the indent size and the semicolon preference, each null
/// where unset.
pub open spec fn fmt_field(f: (String, WireValue), key: Seq<char>, s: FormatCodeSettings) -> bool {
    f.0@ == key && fmt_value_is(f.1, s)
}

/// Whether `v` is the object of the formatting settings.
pub open spec fn fmt_value_is(v: WireValue, s: FormatCodeSettings) -> bool {
    v matches WireValue::Obj(o) && o@.len() == 3 && o@[0].0@ == "convertTabsToSpaces"@ && match s.convert_tabs_to_spaces {
        Some(b) => o@[0].1 == WireValue::Bool(b),
        None => o@[0].1 matches WireValue::Null,
    } && opt_num_field(o@[1], "indentSize"@, match s.indent_size { Some(x) => Some(x as u32), None => None }) && o@[2].0@ == "semicolons"@ && match s.semicolons {
        Some(SemicolonPreference::Insert) => o@[2].1 matches WireValue::Str(y) && y@ == "insert"@,
        Some(SemicolonPreference::Remove) => o@[2].1 matches WireValue::Str(y) && y@ == "remove"@,
        None => o@[2].1 matches WireValue::Null,
    }
}

/// Whether `r` holds, after `id` and `method`, exactly the fields of `m`.
pub open spec fn fields_of(map: &SpecifierMap, m: &RequestMethod, r: Seq<(String, WireValue)>) -> bool {
    match m {
        RequestMethod::Configure { compiler_options } => r.len() == 3 && (raw_field(r[2], "compilerOptions"@, compiler_options@)),
        RequestMethod::FindRenameLocations { specifier, position, find_in_strings, find_in_comments, provide_prefix_and_suffix_text_for_rename } => r.len() == 7 && (spec_field(map, r[2], "specifier"@, specifier)) && (num_field(r[3], "position"@, *position as nat)) && (r[4].0@ == "findInStrings"@ && r[4].1 == WireValue::Bool(*find_in_strings)) && (r[5].0@ == "findInComments"@ && r[5].1 == WireValue::Bool(*find_in_comments)) && (r[6].0@ == "providePrefixAndSuffixTextForRename"@ && r[6].1 == WireValue::Bool(*provide_prefix_and_suffix_text_for_rename)),
        RequestMethod::GetAssets => r.len() == 2,
        RequestMethod::GetApplicableRefactors { specifier, range, kind } => r.len() == 5 && (spec_field(map, r[2], "specifier"@, specifier)) && (range_field(r[3], "range"@, *range)) && (str_field(r[4], "kind"@, kind@)),
        RequestMethod::GetEditsForRefactor { specifier, format_code_settings, range, refactor_name, action_name } => r.len() == 7 && (spec_field(map, r[2], "specifier"@, specifier)) && (fmt_field(r[3], "formatCodeSettings"@, *format_code_settings)) && (range_field(r[4], "range"@, *range)) && (str_field(r[5], "refactorName"@, refactor_name@)) && (str_field(r[6], "actionName"@, action_name@)),
        RequestMethod::GetCodeFixes { specifier, start_position, end_position, error_codes, format_code_settings } => r.len() == 7 && (spec_field(map, r[2], "specifier"@, specifier)) && (num_field(r[3], "startPosition"@, *start_position as nat)) && (num_field(r[4], "endPosition"@, *end_position as nat)) && (strs_field(r[5], "errorCodes"@, error_codes@)) && (fmt_field(r[6], "formatCodeSettings"@, *format_code_settings)),
        RequestMethod::GetCombinedCodeFix { specifier, fix_id, format_code_settings } => r.len() == 5 && (spec_field(map, r[2], "specifier"@, specifier)) && (raw_field(r[3], "fixId"@, fix_id@)) && (fmt_field(r[4], "formatCodeSettings"@, *format_code_settings)),
        RequestMethod::GetCompletionDetails { args } => r.len() == 3 && (raw_field(r[2], "args"@, args@)),
        RequestMethod::GetCompletions { specifier, position, preferences, format_code_settings } => r.len() == 6 && (spec_field(map, r[2], "specifier"@, specifier)) && (num_field(r[3], "position"@, *position as nat)) && (raw_field(r[4], "preferences"@, preferences@)) && (fmt_field(r[5], "formatCodeSettings"@, *format_code_settings)),
        RequestMethod::GetDefinition { specifier, position } => r.len() == 4 && (spec_field(map, r[2], "specifier"@, specifier)) && (num_field(r[3], "position"@, *position as nat)),
        RequestMethod::GetDiagnostics { specifiers } => r.len() == 3 && (specs_field(map, r[2], "specifiers"@, specifiers@)),
        RequestMethod::GetDocumentHighlights { specifier, position, files_to_search } => r.len() == 5 && (spec_field(map, r[2], "specifier"@, specifier)) && (num_field(r[3], "position"@, *position as nat)) && (specs_field(map, r[4], "filesToSearch"@, files_to_search@)),
        RequestMethod::GetEncodedSemanticClassifications { specifier, span } => r.len() == 4 && (spec_field(map, r[2], "specifier"@, specifier)) && (span_field(r[3], "span"@, *span)),
        RequestMethod::GetImplementation { specifier, position } => r.len() == 4 && (spec_field(map, r[2], "specifier"@, specifier)) && (num_field(r[3], "position"@, *position as nat)),
        RequestMethod::GetNavigateToItems { search, max_result_count, file } => r.len() == 5 && (str_field(r[2], "search"@, search@)) && (opt_num_field(r[3], "maxResultCount"@, *max_result_count)) && (opt_str_field(r[4], "file"@, *file)),
        RequestMethod::GetNavigationTree { specifier } => r.len() == 3 && (spec_field(map, r[2], "specifier"@, specifier)),
        RequestMethod::GetOutliningSpans { specifier } => r.len() == 3 && (spec_field(map, r[2], "specifier"@, specifier)),
        RequestMethod::GetQuickInfo { specifier, position } => r.len() == 4 && (spec_field(map, r[2], "specifier"@, specifier)) && (num_field(r[3], "position"@, *position as nat)),
        RequestMethod::FindReferences { specifier, position } => r.len() == 4 && (spec_field(map, r[2], "specifier"@, specifier)) && (num_field(r[3], "position"@, *position as nat)),
        RequestMethod::GetSignatureHelpItems { specifier, position, options } => r.len() == 5 && (spec_field(map, r[2], "specifier"@, specifier)) && (num_field(r[3], "position"@, *position as nat)) && (raw_field(r[4], "options"@, options@)),
        RequestMethod::GetSmartSelectionRange { specifier, position } => r.len() == 4 && (spec_field(map, r[2], "specifier"@, specifier)) && (num_field(r[3], "position"@, *position as nat)),
        RequestMethod::GetSupportedCodeFixes => r.len() == 2,
        RequestMethod::GetTypeDefinition { specifier, position } => r.len() == 4 && (spec_field(map, r[2], "specifier"@, specifier)) && (num_field(r[3], "position"@, *position as nat)),
        RequestMethod::PrepareCallHierarchy { specifier, position } => r.len() == 4 && (spec_field(map, r[2], "specifier"@, specifier)) && (num_field(r[3], "position"@, *position as nat)),
        RequestMethod::ProvideCallHierarchyIncomingCalls { specifier, position } => r.len() == 4 && (spec_field(map, r[2], "specifier"@, specifier)) && (num_field(r[3], "position"@, *position as nat)),
        RequestMethod::ProvideCallHierarchyOutgoingCalls { specifier, position } => r.len() == 4 && (spec_field(map, r[2], "specifier"@, specifier)) && (num_field(r[3], "position"@, *position as nat)),
        RequestMethod::ProvideInlayHints { specifier, span, preferences } => r.len() == 5 && (spec_field(map, r[2], "specifier"@, specifier)) && (span_field(r[3], "span"@, *span)) && (raw_field(r[4], "preferences"@, preferences@)),
        RequestMethod::Restart => r.len() == 2,
    }
}

fn key(k: &str) -> (r: String)
    ensures
        r@ == k@,
{
    k.to_owned()
}

fn spec_value(map: &SpecifierMap, s: &ModuleSpecifier) -> (r: WireValue)
    ensures
        spec_value_is(map, r, s),
{
    WireValue::Str(map.denormalize_specifier(s))
}

fn specs_value(map: &SpecifierMap, ss: &Vec<ModuleSpecifier>) -> (r: WireValue)
    ensures
        r matches WireValue::Arr(v) && v@.len() == ss@.len() && forall|k: int|
            0 <= k < ss@.len() ==> spec_value_is(map, #[trigger] v@[k], &ss@[k]),
{
    let mut v: Vec<WireValue> = Vec::new();
    for i in 0..ss.len()
        invariant
            v@.len() == i,
            forall|k: int| 0 <= k < i ==> spec_value_is(map, #[trigger] v@[k], &ss@[k]),
    {
        v.push(spec_value(map, &ss[i]));
    }
    WireValue::Arr(v)
}

fn strs_value(ts: &Vec<String>) -> (r: WireValue)
    ensures
        r matches WireValue::Arr(v) && v@.len() == ts@.len() && forall|k: int|
            0 <= k < ts@.len() ==> (#[trigger] v@[k] matches WireValue::Str(x) && x@ == ts@[k]@),
{
    let mut v: Vec<WireValue> = Vec::new();
    for i in 0..ts.len()
        invariant
            v@.len() == i,
            forall|k: int| 0 <= k < i ==> (#[trigger] v@[k] matches WireValue::Str(x) && x@ == ts@[k]@),
    {
        v.push(WireValue::Str(ts[i].clone()));
    }
    WireValue::Arr(v)
}

fn range_value(span: &TextSpan) -> (r: WireValue)
    ensures
        range_value_is(r, *span),
{
    let mut o: Vec<(String, WireValue)> = Vec::new();
    o.push((key("pos"), WireValue::Num(span.start as u64)));
    o.push((key("end"), WireValue::Num(span.start as u64 + span.length as u64)));
    WireValue::Obj(o)
}

fn span_value(span: &TextSpan) -> (r: WireValue)
    ensures
        r matches WireValue::Obj(o) && o@.len() == 2 && num_field(o@[0], "start"@, span.start as nat) && num_field(
            o@[1],
            "length"@,
            span.length as nat,
        ),
{
    let mut o: Vec<(String, WireValue)> = Vec::new();
    o.push((key("start"), WireValue::Num(span.start as u64)));
    o.push((key("length"), WireValue::Num(span.length as u64)));
    WireValue::Obj(o)
}

fn opt_num_value(n: &Option<u32>) -> (r: WireValue)
    ensures
        match *n {
            Some(x) => r == WireValue::Num(x as u64),
            None => r matches WireValue::Null,
        },
{
    match n {
        Some(x) => WireValue::Num(*x as u64),
        None => WireValue::Null,
    }
}

fn opt_str_value(s: &Option<String>) -> (r: WireValue)
    ensures
        match *s {
            Some(x) => r matches WireValue::Str(y) && y@ == x@,
            None => r matches WireValue::Null,
        },
{
    match s {
        Some(x) => WireValue::Str(x.clone()),
        None => WireValue::Null,
    }
}

fn fmt_value(s: &FormatCodeSettings) -> (r: WireValue)
    ensures
        fmt_value_is(r, *s),
{
    let mut o: Vec<(String, WireValue)> = Vec::new();
    o.push((key("convertTabsToSpaces"), match s.convert_tabs_to_spaces {
        Some(b) => WireValue::Bool(b),
        None => WireValue::Null,
    }));
    o.push((key("indentSize"), match s.indent_size {
        Some(x) => WireValue::Num(x as u64),
        None => WireValue::Null,
    }));
    o.push((key("semicolons"), match s.semicolons {
        Some(SemicolonPreference::Insert) => WireValue::Str(key("insert")),
        Some(SemicolonPreference::Remove) => WireValue::Str(key("remove")),
        None => WireValue::Null,
    }));
    WireValue::Obj(o)
}

impl RequestMethod {
    /// The kind of this request.
    pub fn kind(&self) -> (r: RequestKind)
        ensures
            r == method_kind(self),
    {
        match self {
            RequestMethod::Configure { .. } => RequestKind::Configure,
            RequestMethod::FindRenameLocations { .. } => RequestKind::FindRenameLocations,
            RequestMethod::GetAssets => RequestKind::GetAssets,
            RequestMethod::GetApplicableRefactors { .. } => RequestKind::GetApplicableRefactors,
            RequestMethod::GetEditsForRefactor { .. } => RequestKind::GetEditsForRefactor,
            RequestMethod::GetCodeFixes { .. } => RequestKind::GetCodeFixes,
            RequestMethod::GetCombinedCodeFix { .. } => RequestKind::GetCombinedCodeFix,
            RequestMethod::GetCompletionDetails { .. } => RequestKind::GetCompletionDetails,
            RequestMethod::GetCompletions { .. } => RequestKind::GetCompletions,
            RequestMethod::GetDefinition { .. } => RequestKind::GetDefinition,
            RequestMethod::GetDiagnostics { .. } => RequestKind::GetDiagnostics,
            RequestMethod::GetDocumentHighlights { .. } => RequestKind::GetDocumentHighlights,
            RequestMethod::GetEncodedSemanticClassifications { .. } => RequestKind::GetEncodedSemanticClassifications,
            RequestMethod::GetImplementation { .. } => RequestKind::GetImplementation,
            RequestMethod::GetNavigateToItems { .. } => RequestKind::GetNavigateToItems,
            RequestMethod::GetNavigationTree { .. } => RequestKind::GetNavigationTree,
            RequestMethod::GetOutliningSpans { .. } => RequestKind::GetOutliningSpans,
            RequestMethod::GetQuickInfo { .. } => RequestKind::GetQuickInfo,
            RequestMethod::FindReferences { .. } => RequestKind::FindReferences,
            RequestMethod::GetSignatureHelpItems { .. } => RequestKind::GetSignatureHelpItems,
            RequestMethod::GetSmartSelectionRange { .. } => RequestKind::GetSmartSelectionRange,
            RequestMethod::GetSupportedCodeFixes => RequestKind::GetSupportedCodeFixes,
            RequestMethod::GetTypeDefinition { .. } => RequestKind::GetTypeDefinition,
            RequestMethod::PrepareCallHierarchy { .. } => RequestKind::PrepareCallHierarchy,
            RequestMethod::ProvideCallHierarchyIncomingCalls { .. } => RequestKind::ProvideCallHierarchyIncomingCalls,
            RequestMethod::ProvideCallHierarchyOutgoingCalls { .. } => RequestKind::ProvideCallHierarchyOutgoingCalls,
            RequestMethod::ProvideInlayHints { .. } => RequestKind::ProvideInlayHints,
            RequestMethod::Restart => RequestKind::Restart,
        }
    }

    /// The fields of the message for this request under `id`: `id`, then
    /// `method`, then the fields of its kind, with specifiers spelled as the
    /// analyzer first spelled them.
    pub fn to_wire(&self, map: &SpecifierMap, id: u64) -> (r: Vec<(String, WireValue)>)
        ensures
            r@.len() >= 2,
            num_field(r@[0], "id"@, id as nat),
            str_field(r@[1], "method"@, wire_method(method_kind(self))),
            fields_of(map, self, r@),
    {
        let mut r: Vec<(String, WireValue)> = Vec::new();
        r.push((key("id"), WireValue::Num(id)));
        r.push((key("method"), WireValue::Str(key(self.kind().method_name()))));
        match self {
            RequestMethod::Configure { compiler_options } => {
                r.push((key("compilerOptions"), WireValue::Raw(compiler_options.clone())));
            },
            RequestMethod::FindRenameLocations { specifier, position, find_in_strings, find_in_comments, provide_prefix_and_suffix_text_for_rename } => {
                r.push((key("specifier"), spec_value(map, specifier)));
                r.push((key("position"), WireValue::Num(*position as u64)));
                r.push((key("findInStrings"), WireValue::Bool(*find_in_strings)));
                r.push((key("findInComments"), WireValue::Bool(*find_in_comments)));
                r.push((key("providePrefixAndSuffixTextForRename"), WireValue::Bool(*provide_prefix_and_suffix_text_for_rename)));
            },
            RequestMethod::GetAssets => {},
            RequestMethod::GetApplicableRefactors { specifier, range, kind } => {
                r.push((key("specifier"), spec_value(map, specifier)));
                r.push((key("range"), range_value(range)));
                r.push((key("kind"), WireValue::Str(kind.clone())));
            },
            RequestMethod::GetEditsForRefactor { specifier, format_code_settings, range, refactor_name, action_name } => {
                r.push((key("specifier"), spec_value(map, specifier)));
                r.push((key("formatCodeSettings"), fmt_value(format_code_settings)));
                r.push((key("range"), range_value(range)));
                r.push((key("refactorName"), WireValue::Str(refactor_name.clone())));
                r.push((key("actionName"), WireValue::Str(action_name.clone())));
            },
            RequestMethod::GetCodeFixes { specifier, start_position, end_position, error_codes, format_code_settings } => {
                r.push((key("specifier"), spec_value(map, specifier)));
                r.push((key("startPosition"), WireValue::Num(*start_position as u64)));
                r.push((key("endPosition"), WireValue::Num(*end_position as u64)));
                r.push((key("errorCodes"), strs_value(error_codes)));
                r.push((key("formatCodeSettings"), fmt_value(format_code_settings)));
            },
            RequestMethod::GetCombinedCodeFix { specifier, fix_id, format_code_settings } => {
                r.push((key("specifier"), spec_value(map, specifier)));
                r.push((key("fixId"), WireValue::Raw(fix_id.clone())));
                r.push((key("formatCodeSettings"), fmt_value(format_code_settings)));
            },
            RequestMethod::GetCompletionDetails { args } => {
                r.push((key("args"), WireValue::Raw(args.clone())));
            },
            RequestMethod::GetCompletions { specifier, position, preferences, format_code_settings } => {
                r.push((key("specifier"), spec_value(map, specifier)));
                r.push((key("position"), WireValue::Num(*position as u64)));
                r.push((key("preferences"), WireValue::Raw(preferences.clone())));
                r.push((key("formatCodeSettings"), fmt_value(format_code_settings)));
            },
            RequestMethod::GetDefinition { specifier, position } => {
                r.push((key("specifier"), spec_value(map, specifier)));
                r.push((key("position"), WireValue::Num(*position as u64)));
            },
            RequestMethod::GetDiagnostics { specifiers } => {
                r.push((key("specifiers"), specs_value(map, specifiers)));
            },
            RequestMethod::GetDocumentHighlights { specifier, position, files_to_search } => {
                r.push((key("specifier"), spec_value(map, specifier)));
                r.push((key("position"), WireValue::Num(*position as u64)));
                r.push((key("filesToSearch"), specs_value(map, files_to_search)));
            },
            RequestMethod::GetEncodedSemanticClassifications { specifier, span } => {
                r.push((key("specifier"), spec_value(map, specifier)));
                r.push((key("span"), span_value(span)));
            },
            RequestMethod::GetImplementation { specifier, position } => {
                r.push((key("specifier"), spec_value(map, specifier)));
                r.push((key("position"), WireValue::Num(*position as u64)));
            },
            RequestMethod::GetNavigateToItems { search, max_result_count, file } => {
                r.push((key("search"), WireValue::Str(search.clone())));
                r.push((key("maxResultCount"), opt_num_value(max_result_count)));
                r.push((key("file"), opt_str_value(file)));
            },
            RequestMethod::GetNavigationTree { specifier } => {
                r.push((key("specifier"), spec_value(map, specifier)));
            },
            RequestMethod::GetOutliningSpans { specifier } => {
                r.push((key("specifier"), spec_value(map, specifier)));
            },
            RequestMethod::GetQuickInfo { specifier, position } => {
                r.push((key("specifier"), spec_value(map, specifier)));
                r.push((key("position"), WireValue::Num(*position as u64)));
            },
            RequestMethod::FindReferences { specifier, position } => {
                r.push((key("specifier"), spec_value(map, specifier)));
                r.push((key("position"), WireValue::Num(*position as u64)));
            },
            RequestMethod::GetSignatureHelpItems { specifier, position, options } => {
                r.push((key("specifier"), spec_value(map, specifier)));
                r.push((key("position"), WireValue::Num(*position as u64)));
                r.push((key("options"), WireValue::Raw(options.clone())));
            },
            RequestMethod::GetSmartSelectionRange { specifier, position } => {
                r.push((key("specifier"), spec_value(map, specifier)));
                r.push((key("position"), WireValue::Num(*position as u64)));
            },
            RequestMethod::GetSupportedCodeFixes => {},
            RequestMethod::GetTypeDefinition { specifier, position } => {
                r.push((key("specifier"), spec_value(map, specifier)));
                r.push((key("position"), WireValue::Num(*position as u64)));
            },
            RequestMethod::PrepareCallHierarchy { specifier, position } => {
                r.push((key("specifier"), spec_value(map, specifier)));
                r.push((key("position"), WireValue::Num(*position as u64)));
            },
            RequestMethod::ProvideCallHierarchyIncomingCalls { specifier, position } => {
                r.push((key("specifier"), spec_value(map, specifier)));
                r.push((key("position"), WireValue::Num(*position as u64)));
            },
            RequestMethod::ProvideCallHierarchyOutgoingCalls { specifier, position } => {
                r.push((key("specifier"), spec_value(map, specifier)));
                r.push((key("position"), WireValue::Num(*position as u64)));
            },
            RequestMethod::ProvideInlayHints { specifier, span, preferences } => {
                r.push((key("specifier"), spec_value(map, specifier)));
                r.push((key("span"), span_value(span)));
                r.push((key("preferences"), WireValue::Raw(preferences.clone())));
            },
            RequestMethod::Restart => {},
        }
        r
    }
}

} // verus!
