use tsc_bridge::completion::CompletionEntry;
use tsc_bridge::docs::replace_links;
use tsc_bridge::imports::{update_import_statement, CompletionEntryDataImport};
use tsc_bridge::kinds::ScriptElementKind;
use tsc_bridge::line_index::{Position, Range};
use tsc_bridge::preferences::{IncludeInlayParameterNameHints, InlayHintsSettings, UserPreferences};
use tsc_bridge::responses::TextEdit;
use tsc_bridge::specifier::ModuleSpecifier;

#[test]
fn test_replace_links() {
    let actual = replace_links(r"test {@link http://deno.land/x/mod.ts} test");
    assert_eq!(
        actual,
        r"test [http://deno.land/x/mod.ts](http://deno.land/x/mod.ts) test"
    );
    let actual = replace_links(r"test {@link http://deno.land/x/mod.ts a link} test");
    assert_eq!(actual, r"test [a link](http://deno.land/x/mod.ts) test");
    let actual = replace_links(r"test {@linkcode http://deno.land/x/mod.ts a link} test");
    assert_eq!(actual, r"test [`a link`](http://deno.land/x/mod.ts) test");
}

#[test]
fn test_completion_entry_filter_text() {
    let fixture = CompletionEntry {
        kind: ScriptElementKind::MemberVariableElement,
        name: "['foo']".to_string(),
        insert_text: Some("['foo']".to_string()),
        ..Default::default()
    };
    let actual = fixture.get_filter_text();
    assert_eq!(actual, Some(".foo".to_string()));

    let fixture = CompletionEntry {
        kind: ScriptElementKind::MemberVariableElement,
        name: "#abc".to_string(),
        ..Default::default()
    };
    let actual = fixture.get_filter_text();
    assert_eq!(actual, None);

    let fixture = CompletionEntry {
        kind: ScriptElementKind::MemberVariableElement,
        name: "#abc".to_string(),
        insert_text: Some("this.#abc".to_string()),
        ..Default::default()
    };
    let actual = fixture.get_filter_text();
    assert_eq!(actual, Some("abc".to_string()));
}

fn zero_range() -> Range {
    Range {
        start: Position { line: 0, character: 0 },
        end: Position { line: 0, character: 0 },
    }
}

#[test]
fn test_update_import_statement() {
    let fixtures = vec![
        (
            "file:///a/a.ts",
            "./b",
            "file:///a/b.ts",
            "import { b } from \"./b\";\n\n",
            "import { b } from \"./b.ts\";\n\n",
        ),
        (
            "file:///a/a.ts",
            "../b/b",
            "file:///b/b.ts",
            "import { b } from \"../b/b\";\n\n",
            "import { b } from \"../b/b.ts\";\n\n",
        ),
        ("file:///a/a.ts", "./b", "file:///a/b.ts", ", b", ", b"),
    ];

    for (specifier_text, module_specifier, file_name, orig_text, expected_text) in fixtures {
        let specifier = ModuleSpecifier::parse(specifier_text).unwrap();
        let import = CompletionEntryDataImport {
            module_specifier: module_specifier.to_string(),
            file_name: file_name.to_string(),
        };
        let actual = update_import_statement(
            TextEdit { range: zero_range(), new_text: orig_text.to_string() },
            &specifier,
            Some(&import),
            None,
        );
        assert_eq!(actual.range, zero_range());
        assert_eq!(actual.new_text, expected_text.to_string());
    }
}

#[test]
fn include_suppress_inlay_hit_settings() {
    let settings = InlayHintsSettings {
        parameter_names: IncludeInlayParameterNameHints::Disabled,
        parameter_names_suppress_when_argument_matches_name: true,
        parameter_types: false,
        variable_types: false,
        variable_types_suppress_when_type_matches_name: true,
        property_declaration_types: false,
        function_like_return_types: false,
        enum_member_values: false,
    };
    let user_preferences = UserPreferences::from_inlay_hints(&settings);
    assert_eq!(
        user_preferences.include_inlay_variable_type_hints_when_type_matches_name,
        Some(false)
    );
    assert_eq!(
        user_preferences.include_inlay_parameter_name_hints_when_argument_matches_name,
        Some(false)
    );
}

#[test]
fn link_text_is_trimmed() {
    assert_eq!(
        replace_links("{@link https://x.dev   spaced text  }"),
        "[spaced text](https://x.dev)"
    );
    assert_eq!(replace_links("no links here"), "no links here");
    assert_eq!(
        replace_links("{@link https://a.dev} and {@linkplain https://b.dev b}"),
        "[https://a.dev](https://a.dev) and [b](https://b.dev)"
    );
}
