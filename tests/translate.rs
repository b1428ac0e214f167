use tsc_bridge::call_hierarchy::CallHierarchyItem;
use tsc_bridge::completion::{
    parse_kind_modifier, CompletionEntry, CompletionInfo, CompletionItemData, CompletionSettings,
};
use tsc_bridge::details::{parse_code_actions, CodeAction};
use tsc_bridge::docs::{display_parts_to_string, get_tag_documentation, make_codeblock, DocumentSpan, JsDocTagInfo, SymbolDisplayPart};
use tsc_bridge::folding::{FoldingRangeKind, OutliningSpan, OutliningSpanKind};
use tsc_bridge::host::BridgeError;
use tsc_bridge::imports::relative_specifier;
use tsc_bridge::kinds::{CompletionItemKind, ScriptElementKind, SymbolKind};
use tsc_bridge::line_index::{LineIndex, Position, Range, TextSpan};
use tsc_bridge::navigation::{DocumentSymbol, NavigationTree};
use tsc_bridge::ops::script_names;
use tsc_bridge::refactor::{parse_u32, ApplicableRefactorInfo, RefactorActionInfo};
use tsc_bridge::responses::{
    DocumentHighlightKind, DocumentHighlights, FileTextChanges, HighlightSpan, HighlightSpanKind, RenameLocation,
    RenameLocations, ResolvedDocument, TextChange,
};
use tsc_bridge::specifier::ModuleSpecifier;
use tsc_bridge::tokens::{encode_semantic_tokens, Classifications, SemanticToken};
use tsc_bridge::responses::{MarkedString, QuickInfo};

fn entry(name: &str, kind: ScriptElementKind) -> CompletionEntry {
    CompletionEntry { name: name.to_string(), kind, sort_text: "1".to_string(), ..Default::default() }
}

fn info(new_identifier: bool) -> CompletionInfo {
    CompletionInfo {
        entries: Vec::new(),
        is_global_completion: false,
        is_member_completion: false,
        is_new_identifier_location: new_identifier,
        is_incomplete: None,
        optional_replacement_span: None,
    }
}

fn spec(s: &str) -> ModuleSpecifier {
    ModuleSpecifier::parse(s).unwrap()
}

fn part(text: &str, kind: &str) -> SymbolDisplayPart {
    SymbolDisplayPart { text: text.to_string(), kind: kind.to_string(), target: None, resolved_target: None }
}

#[test]
fn auto_import_sorts_last_and_optional_gets_question_mark() {
    let index = LineIndex::new("a.b");
    let mut e = entry("foo", ScriptElementKind::MemberVariableElement);
    e.source = Some("./mod.ts".to_string());
    e.kind_modifiers = Some("optional,deprecated".to_string());
    let item = e.as_completion_item(&index, &info(false), &CompletionSettings { complete_function_calls: false }, &spec("file:///a.ts"), 2);
    assert_eq!(item.sort_text, "\u{ffff}1");
    assert_eq!(item.label, "foo?");
    assert_eq!(item.insert_text, Some("foo".to_string()));
    assert_eq!(item.filter_text, Some("foo".to_string()));
    assert!(item.deprecated);
    assert_eq!(item.kind, CompletionItemKind::Field);
    assert_eq!(item.data.position, 2);
    assert_eq!(item.data.source, Some("./mod.ts".to_string()));
}

#[test]
fn commit_characters_depend_on_kind_and_settings() {
    let e = entry("f", ScriptElementKind::FunctionElement);
    let off = CompletionSettings { complete_function_calls: false };
    let on = CompletionSettings { complete_function_calls: true };
    assert_eq!(e.get_commit_characters(&info(false), &off), Some(vec![".".to_string(), ",".to_string(), ";".to_string(), "(".to_string()]));
    assert_eq!(e.get_commit_characters(&info(false), &on), Some(vec![".".to_string(), ",".to_string(), ";".to_string()]));
    assert_eq!(e.get_commit_characters(&info(true), &off), None);
    let i = entry("I", ScriptElementKind::InterfaceElement);
    assert_eq!(i.get_commit_characters(&info(false), &off), Some(vec![".".to_string(), ";".to_string()]));
    assert_eq!(entry("s", ScriptElementKind::String).get_commit_characters(&info(false), &off), None);
}

#[test]
fn script_element_detail_gets_extension() {
    let index = LineIndex::new("");
    let mut e = entry("mod", ScriptElementKind::ScriptElement);
    e.kind_modifiers = Some(".ts".to_string());
    let settings = CompletionSettings { complete_function_calls: false };
    let item = e.as_completion_item(&index, &info(false), &settings, &spec("file:///a.ts"), 0);
    assert_eq!(item.detail, Some("mod.ts".to_string()));
    let mut e = entry("MOD.TS", ScriptElementKind::ScriptElement);
    e.kind_modifiers = Some(".ts".to_string());
    let item = e.as_completion_item(&index, &info(false), &settings, &spec("file:///a.ts"), 0);
    assert_eq!(item.detail, Some("MOD.TS".to_string()));
}

#[test]
fn replacement_span_becomes_insert_replace_edit() {
    let index = LineIndex::new("obj.fo");
    let mut e = entry("foo", ScriptElementKind::MemberFunctionElement);
    e.insert_text = Some("foo".to_string());
    e.replacement_span = Some(TextSpan { start: 4, length: 2 });
    let settings = CompletionSettings { complete_function_calls: true };
    let item = e.as_completion_item(&index, &info(false), &settings, &spec("file:///a.ts"), 6);
    let edit = item.text_edit.unwrap();
    assert_eq!(edit.new_text, "foo");
    assert_eq!(edit.insert, Range { start: Position { line: 0, character: 4 }, end: Position { line: 0, character: 6 } });
    assert!(item.data.use_code_snippet);
}

#[test]
fn completion_list_is_incomplete_from_metadata() {
    let index = LineIndex::new("");
    let mut i = info(false);
    i.entries.push(entry("a", ScriptElementKind::VariableElement));
    i.is_incomplete = Some(true);
    let list = i.as_completion_response(&index, &CompletionSettings { complete_function_calls: false }, &spec("file:///a.ts"), 0);
    assert!(list.is_incomplete);
    assert_eq!(list.items.len(), 1);
    assert_eq!(list.items[0].label, "a");
}

#[test]
fn kind_modifiers_split_on_commas_and_blanks() {
    assert_eq!(parse_kind_modifier("export, declare  optional"), vec!["export", "", "declare", "optional"]);
}

#[test]
fn codeblock_fences_unless_fenced() {
    assert_eq!(make_codeblock("let a = 1;"), "```\nlet a = 1;\n```");
    assert_eq!(make_codeblock("```ts\nx\n```"), "```ts\nx\n```");
}

#[test]
fn display_parts_render_links() {
    let parts = vec![
        part("see ", "text"),
        part("{@link ", "link"),
        part("https://deno.land docs", "linkText"),
        part("}", "link"),
    ];
    assert_eq!(display_parts_to_string(&parts), "see [docs](https://deno.land)");
    let mut name = part("Foo", "linkName");
    name.target = Some(DocumentSpan {
        text_span: TextSpan { start: 0, length: 3 },
        file_name: "file:///a.ts".to_string(),
        original_text_span: None,
        context_span: None,
        original_context_span: None,
    });
    name.resolved_target = Some("file:///a.ts#L1,1".to_string());
    let parts = vec![part("{@linkcode ", "link"), name, part("}", "link")];
    assert_eq!(display_parts_to_string(&parts), "[`Foo`](file:///a.ts#L1,1)");
}

#[test]
fn document_span_target_has_line_fragment() {
    let index = LineIndex::new("a\nbc");
    let span = DocumentSpan {
        text_span: TextSpan { start: 3, length: 1 },
        file_name: "file:///a.ts".to_string(),
        original_text_span: None,
        context_span: None,
        original_context_span: None,
    };
    assert_eq!(span.to_target("file:///a.ts", &index), Some("file:///a.ts#L2,2".to_string()));
}

#[test]
fn tag_documentation_labels() {
    let tag = JsDocTagInfo { name: "returns".to_string(), text: Some(vec![part("the value", "text")]) };
    assert_eq!(get_tag_documentation(&tag), "*@returns* - the value");
    let tag = JsDocTagInfo { name: "deprecated".to_string(), text: None };
    assert_eq!(get_tag_documentation(&tag), "*@deprecated*");
    let tag = JsDocTagInfo { name: "example".to_string(), text: Some(vec![part("f()", "text")]) };
    assert_eq!(get_tag_documentation(&tag), "*@example*  \n```\nf()\n```");
    let tag = JsDocTagInfo { name: "author".to_string(), text: Some(vec![part("Jane <jane@example.com>", "text")]) };
    assert_eq!(get_tag_documentation(&tag), "*@author* - Jane jane@example.com");
}

fn action(name: &str) -> RefactorActionInfo {
    RefactorActionInfo { name: name.to_string(), description: name.to_string(), not_applicable_reason: None, kind: None }
}

#[test]
fn extract_constant_prefers_smallest_scope() {
    let all = vec![action("constant_scope_0"), action("constant_scope_1")];
    assert!(all[0].is_preferred(&all));
    assert!(!all[1].is_preferred(&all));
    assert!(action("Extract to interface").is_preferred(&all));
    assert!(!action("function_scope_0").is_preferred(&all));
}

#[test]
fn refactor_kinds_and_code_actions() {
    assert_eq!(action("function_scope_0").get_action_kind(), "refactor.extract.function");
    assert_eq!(action("Convert named imports").get_action_kind(), "refactor.rewrite.import");
    assert_eq!(action("something else").get_action_kind(), "refactor");
    let mut disabled = action("constant_scope_0");
    disabled.not_applicable_reason = Some("no".to_string());
    let info = ApplicableRefactorInfo { name: "Extract Symbol".to_string(), actions: vec![disabled, action("constant_scope_1")] };
    let range = Range { start: Position { line: 0, character: 0 }, end: Position { line: 0, character: 1 } };
    let actions = info.to_code_actions(&spec("file:///a.ts"), &range);
    assert_eq!(actions.len(), 2);
    assert_eq!(actions[0].disabled, Some("no".to_string()));
    assert!(actions[0].is_preferred);
    assert_eq!(actions[1].data.refactor_name, "Extract Symbol");
    assert_eq!(actions[1].kind, "refactor.extract.constant");
}

#[test]
fn parse_u32_like_std() {
    assert_eq!(parse_u32("7"), Some(7));
    assert_eq!(parse_u32("+12"), Some(12));
    assert_eq!(parse_u32("4294967295"), Some(u32::MAX));
    assert_eq!(parse_u32("4294967296"), None);
    assert_eq!(parse_u32(""), None);
    assert_eq!(parse_u32("1a"), None);
}

#[test]
fn semantic_tokens_split_classification() {
    let index = LineIndex::new("let x = 1;\nx;");
    let c = Classifications { spans: vec![4, 1, (8 << 8) | 3, 11, 1, (8 << 8)] };
    let tokens = c.to_semantic_tokens(&index).unwrap();
    assert_eq!(tokens.len(), 2);
    assert_eq!((tokens[0].line, tokens[0].start, tokens[0].length, tokens[0].token_type, tokens[0].modifiers), (0, 4, 1, 7, 3));
    assert_eq!((tokens[1].line, tokens[1].start), (1, 0));
    assert_eq!(Classifications::get_token_type_from_classification(0x0203), 1);
    assert_eq!(Classifications::get_token_modifier_from_classification(0x0203), 3);
}

#[test]
fn semantic_token_errors() {
    let index = LineIndex::new("ab\ncd");
    let crossing = Classifications { spans: vec![1, 3, 256] };
    assert_eq!(crossing.to_semantic_tokens(&index).unwrap_err(), BridgeError::InvariantViolation);
    let untyped = Classifications { spans: vec![0, 1, 255] };
    assert_eq!(untyped.to_semantic_tokens(&index).unwrap_err(), BridgeError::InvariantViolation);
}

#[test]
fn folding_moves_end_above_closing_bracket() {
    let index = LineIndex::new("f() {\n  x;\n}");
    let span = OutliningSpan { text_span: TextSpan { start: 4, length: 8 }, kind: OutliningSpanKind::Code };
    let fold = span.to_folding_range(&index, true).unwrap();
    assert_eq!((fold.start_line, fold.end_line, fold.start_character, fold.kind), (0, 1, None, None));
    let fold = span.to_folding_range(&index, false).unwrap();
    assert_eq!((fold.end_line, fold.start_character, fold.end_character), (2, Some(4), Some(1)));
    let comment = OutliningSpan { text_span: TextSpan { start: 0, length: 1 }, kind: OutliningSpanKind::Comment };
    assert_eq!(comment.to_folding_range(&index, false).unwrap().kind, Some(FoldingRangeKind::Comment));
}

fn nav(text: &str, kind: ScriptElementKind, start: u32, length: u32, children: Option<Vec<NavigationTree>>) -> NavigationTree {
    NavigationTree {
        text: text.to_string(),
        kind,
        kind_modifiers: String::new(),
        spans: vec![TextSpan { start, length }],
        name_span: None,
        child_items: children,
    }
}

#[test]
fn document_symbols_skip_placeholders_and_mark_accessors() {
    let index = LineIndex::new("class A { get x() { return 1; } }");
    let getter = nav("x", ScriptElementKind::MemberGetAccessorElement, 10, 21, None);
    let class = nav("A", ScriptElementKind::ClassElement, 0, 33, Some(vec![getter]));
    let root = nav("<global>", ScriptElementKind::ScriptElement, 0, 33, Some(vec![class]));
    assert!(!nav("<function>", ScriptElementKind::FunctionElement, 0, 1, None).should_include_entry());
    assert!(!nav("a", ScriptElementKind::Alias, 0, 1, None).should_include_entry());
    let mut symbols: Vec<DocumentSymbol> = Vec::new();
    assert!(root.collect_document_symbols(&index, &mut symbols));
    assert_eq!(symbols.len(), 1);
    let class_symbol = &symbols[0].children.as_ref().unwrap()[0];
    assert_eq!(class_symbol.name, "A");
    assert_eq!(class_symbol.kind, SymbolKind::Class);
    assert_eq!(class_symbol.children.as_ref().unwrap()[0].name, "(get) x");
}

#[test]
fn source_file_items_show_file_name() {
    let index = LineIndex::new("export {};");
    let item = CallHierarchyItem {
        name: "mod".to_string(),
        kind: ScriptElementKind::ScriptElement,
        kind_modifiers: Some("deprecated".to_string()),
        file: "file:///root/src/mod.ts".to_string(),
        span: TextSpan { start: 0, length: 10 },
        selection_span: TextSpan { start: 0, length: 0 },
        container_name: None,
    };
    assert!(item.is_source_file_item());
    let out = item
        .to_call_hierarchy_item(&index, "file:///root/src/mod.ts", Some("/root/src/mod.ts"), Some("/root"))
        .unwrap();
    assert_eq!(out.name, "mod.ts");
    assert_eq!(out.detail, "src");
    assert!(out.deprecated);
    let method = CallHierarchyItem { kind: ScriptElementKind::MemberFunctionElement, container_name: Some("C".to_string()), ..item };
    let out = method.to_call_hierarchy_item(&index, "file:///root/src/mod.ts", None, None).unwrap();
    assert_eq!((out.name.as_str(), out.detail.as_str()), ("mod", "C"));
}

fn doc_span(file: &str, start: u32, length: u32) -> DocumentSpan {
    DocumentSpan {
        text_span: TextSpan { start, length },
        file_name: file.to_string(),
        original_text_span: None,
        context_span: None,
        original_context_span: None,
    }
}

#[test]
fn rename_groups_edits_by_document() {
    let locations = RenameLocations {
        locations: vec![
            RenameLocation { document_span: doc_span("file:///a.ts", 0, 1) },
            RenameLocation { document_span: doc_span("file:///b.ts", 0, 1) },
            RenameLocation { document_span: doc_span("file:///a.ts", 2, 1) },
        ],
    };
    let docs = vec![
        ResolvedDocument { uri: "file:///a.ts".to_string(), version: Some(3), line_index: LineIndex::new("a a") },
        ResolvedDocument { uri: "file:///b.ts".to_string(), version: None, line_index: LineIndex::new("a") },
        ResolvedDocument { uri: "file:///a.ts".to_string(), version: Some(3), line_index: LineIndex::new("a a") },
    ];
    let edits = locations.into_workspace_edit("b", &docs).unwrap();
    assert_eq!(edits.len(), 2);
    assert_eq!(edits[0].uri, "file:///a.ts");
    assert_eq!(edits[0].version, Some(3));
    assert_eq!(edits[0].edits.len(), 2);
    assert_eq!(edits[1].edits[0].new_text, "b");
}

#[test]
fn highlights_mark_writes() {
    let index = LineIndex::new("x = x");
    let h = DocumentHighlights {
        highlight_spans: vec![
            HighlightSpan { text_span: TextSpan { start: 0, length: 1 }, kind: HighlightSpanKind::WrittenReference },
            HighlightSpan { text_span: TextSpan { start: 4, length: 1 }, kind: HighlightSpanKind::Reference },
        ],
    };
    let out = h.to_highlight(&index).unwrap();
    assert_eq!(out[0].kind, DocumentHighlightKind::Write);
    assert_eq!(out[1].kind, DocumentHighlightKind::Read);
}

#[test]
fn script_names_are_deduplicated_in_order() {
    let imports = vec!["file:///g.ts".to_string(), "file:///g.ts".to_string()];
    let docs = vec![
        ("file:///a.ts".to_string(), Some("file:///a.ts".to_string())),
        ("file:///g.ts".to_string(), Some("file:///g.ts".to_string())),
        ("https://x/y".to_string(), None),
    ];
    assert_eq!(
        script_names(true, &imports, &docs),
        vec!["asset:///node_types.d.ts".to_string(), "file:///g.ts".to_string(), "file:///a.ts".to_string()]
    );
}

#[test]
fn relative_specifiers() {
    assert_eq!(relative_specifier(&spec("file:///a/a.ts"), &spec("file:///a/b.ts")), Some("./b.ts".to_string()));
    assert_eq!(relative_specifier(&spec("file:///a/a.ts"), &spec("file:///b/b.ts")), Some("../b/b.ts".to_string()));
    assert_eq!(relative_specifier(&spec("file:///a/a.ts"), &spec("https://x/b.ts")), None);
}

#[test]
fn code_actions_split_local_edits_from_commands() {
    let index = LineIndex::new("x");
    let data = CompletionItemData {
        specifier: spec("file:///a.ts"),
        position: 0,
        name: "b".to_string(),
        source: None,
        data: None,
        use_code_snippet: false,
    };
    let local = FileTextChanges {
        file_name: "file:///a.ts".to_string(),
        text_changes: vec![TextChange { span: TextSpan { start: 0, length: 0 }, new_text: "import { b } from \"./b.ts\";\n".to_string() }],
        is_new_file: None,
    };
    let other = FileTextChanges { file_name: "file:///b.ts".to_string(), text_changes: Vec::new(), is_new_file: None };
    let actions = vec![CodeAction { description: "Add import".to_string(), changes: vec![local], commands: None }];
    let (needs_command, edits) = parse_code_actions(Some(&actions), &data, &index, None, None).unwrap();
    assert!(!needs_command);
    assert_eq!(edits.unwrap().len(), 1);
    let actions = vec![CodeAction { description: "Other".to_string(), changes: vec![other], commands: None }];
    let (needs_command, edits) = parse_code_actions(Some(&actions), &data, &index, None, None).unwrap();
    assert!(needs_command);
    assert!(edits.is_none());
    let bad = FileTextChanges { file_name: "not a url".to_string(), text_changes: Vec::new(), is_new_file: None };
    let actions = vec![CodeAction { description: "Bad".to_string(), changes: vec![bad], commands: None }];
    assert_eq!(parse_code_actions(Some(&actions), &data, &index, None, None).unwrap_err(), BridgeError::UnknownSpecifier);
    assert!(matches!(parse_code_actions(None, &data, &index, None, None), Ok((false, None))));
}

#[test]
fn element_kinds_map_to_editor_kinds() {
    assert_eq!(ScriptElementKind::from_wire_name("local var"), ScriptElementKind::LocalVariableElement);
    assert_eq!(ScriptElementKind::from_wire_name("nonsense"), ScriptElementKind::Unknown);
    assert_eq!(ScriptElementKind::Keyword.wire_name(), "keyword");
    assert_eq!(CompletionItemKind::from(ScriptElementKind::ConstElement), CompletionItemKind::Variable);
    assert_eq!(SymbolKind::from(ScriptElementKind::ConstructorImplementationElement), SymbolKind::Constructor);
}

#[test]
fn tokens_encode_relative_to_previous() {
    let t = |line, start| SemanticToken { line, start, length: 1, token_type: 0, modifiers: 0 };
    let encoded = encode_semantic_tokens(&vec![t(0, 2), t(0, 5), t(2, 1)]).unwrap();
    let pairs: Vec<(u32, u32)> = encoded.iter().map(|e| (e.delta_line, e.delta_start)).collect();
    assert_eq!(pairs, vec![(0, 2), (0, 3), (2, 1)]);
    assert!(encode_semantic_tokens(&vec![t(1, 0), t(0, 0)]).is_none());
}

#[test]
fn hover_has_code_docs_and_tags() {
    let index = LineIndex::new("const a = 1;");
    let q = QuickInfo {
        text_span: TextSpan { start: 6, length: 1 },
        display_parts: Some(vec![part("const a: 1", "text")]),
        documentation: Some(vec![part("The answer.", "text")]),
        tags: Some(vec![JsDocTagInfo { name: "since".to_string(), text: Some(vec![part("1.0", "text")]) }]),
    };
    let hover = q.to_hover(&index);
    assert_eq!(hover.contents.len(), 3);
    assert!(matches!(&hover.contents[0], MarkedString::Code(lang, text) if lang == "typescript" && text == "const a: 1"));
    assert!(matches!(&hover.contents[1], MarkedString::Markdown(text) if text == "The answer."));
    assert!(matches!(&hover.contents[2], MarkedString::Markdown(text) if text == "\n\n*@since* - 1.0"));
    assert_eq!(hover.range.unwrap().start, Position { line: 0, character: 6 });
}

#[test]
fn empty_source_does_not_sort_last() {
    let index = LineIndex::new("");
    let mut e = entry("foo", ScriptElementKind::VariableElement);
    e.source = Some(String::new());
    let item = e.as_completion_item(&index, &info(false), &CompletionSettings { complete_function_calls: false }, &spec("file:///a.ts"), 0);
    assert_eq!(item.sort_text, "1");
}
