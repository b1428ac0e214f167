//! Settings and preferences sent to the analyzer with requests.
use vstd::prelude::*;
use crate::specifier::ModuleSpecifier;
use crate::completion::{CompletionItemData, clone_opt, opt_str};

verus! {

/// Where the formatter puts semicolons.
#[derive(Clone, Copy, Debug, PartialEq, Eq, Structural)]
pub enum SemicolonPreference {
    Insert,
    Remove,
}

/// Formatting settings for edits the analyzer proposes.
#[derive(Clone, Copy, Debug, PartialEq, Eq, Structural)]
pub struct FormatCodeSettings {
    pub convert_tabs_to_spaces: Option<bool>,
    pub indent_size: Option<u8>,
    pub semicolons: Option<SemicolonPreference>,
}

impl Default for FormatCodeSettings {
    fn default() -> (r: FormatCodeSettings)
        ensures
            r == (FormatCodeSettings { convert_tabs_to_spaces: None, indent_size: None, semicolons: None }),
    {
        FormatCodeSettings { convert_tabs_to_spaces: None, indent_size: None, semicolons: None }
    }
}

impl FormatCodeSettings {
    /// The analyzer's settings for the formatter options `use_tabs`,
    /// `indent_width` and `semi_colons`: spaces unless tabs are asked for,
    /// an indent of two unless given, and semicolons inserted unless
    /// explicitly turned off.
    pub fn from_fmt_options(use_tabs: Option<bool>, indent_width: Option<u8>, semi_colons: Option<bool>) -> (r: FormatCodeSettings)
        ensures
            r.convert_tabs_to_spaces == Some(use_tabs != Some(true)),
            r.indent_size == Some(match indent_width { Some(w) => w, None => 2u8 }),
            r.semicolons == Some(if semi_colons == Some(false) {
                SemicolonPreference::Remove
            } else {
                SemicolonPreference::Insert
            }),
    {
        FormatCodeSettings {
            convert_tabs_to_spaces: Some(!match use_tabs {
                Some(t) => t,
                None => false,
            }),
            indent_size: Some(match indent_width {
                Some(w) => w,
                None => 2,
            }),
            semicolons: match semi_colons {
                Some(false) => Some(SemicolonPreference::Remove),
                _ => Some(SemicolonPreference::Insert),
            },
        }
    }
}

/// How a completion request was triggered.
#[derive(Clone, Copy, Debug, PartialEq, Eq, Structural)]
pub enum CompletionTriggerKind {
    Invoked,
    TriggerCharacter,
    TriggerForIncompleteCompletions,
}

impl CompletionTriggerKind {
    /// The kind for the editor's trigger code: 2 for a trigger character,
    /// 3 for incomplete completions, anything else invoked.
    pub fn from_code(code: i32) -> (r: CompletionTriggerKind)
        ensures
            r == if code == 2 {
                CompletionTriggerKind::TriggerCharacter
            } else if code == 3 {
                CompletionTriggerKind::TriggerForIncompleteCompletions
            } else {
                CompletionTriggerKind::Invoked
            },
    {
        if code == 2 {
            CompletionTriggerKind::TriggerCharacter
        } else if code == 3 {
            CompletionTriggerKind::TriggerForIncompleteCompletions
        } else {
            CompletionTriggerKind::Invoked
        }
    }

    /// The analyzer's code for the kind.
    pub fn code(&self) -> (r: u8)
        ensures
            r == match *self {
                CompletionTriggerKind::Invoked => 1u8,
                CompletionTriggerKind::TriggerCharacter => 2u8,
                CompletionTriggerKind::TriggerForIncompleteCompletions => 3u8,
            },
    {
        match self {
            CompletionTriggerKind::Invoked => 1,
            CompletionTriggerKind::TriggerCharacter => 2,
            CompletionTriggerKind::TriggerForIncompleteCompletions => 3,
        }
    }
}

/// Which quotes edits use.
#[derive(Clone, Copy, Debug, PartialEq, Eq, Structural)]
pub enum QuotePreference {
    Auto,
    Double,
    Single,
}

/// How auto-imports spell module specifiers.
#[derive(Clone, Copy, Debug, PartialEq, Eq, Structural)]
pub enum ImportModuleSpecifierPreference {
    Auto,
    Relative,
    NonRelative,
}

/// How auto-imports end module specifiers.
#[derive(Clone, Copy, Debug, PartialEq, Eq, Structural)]
pub enum ImportModuleSpecifierEnding {
    Auto,
    Minimal,
    Index,
    Js,
}

/// Which arguments get parameter-name hints.
#[derive(Clone, Copy, Debug, PartialEq, Eq, Structural)]
pub enum IncludeInlayParameterNameHints {
    Disabled,
    Literals,
    All,
}

/// Whether auto-imports look into package manifests.
#[derive(Clone, Copy, Debug, PartialEq, Eq, Structural)]
pub enum IncludePackageJsonAutoImports {
    Auto,
    On,
    Off,
}

/// How JSX attribute completions are inserted.
#[derive(Clone, Copy, Debug, PartialEq, Eq, Structural)]
pub enum JsxAttributeCompletionStyle {
    Auto,
    Braces,
    Unbraced,
}

/// The editor's inlay hint settings.
#[derive(Clone, Copy, Debug, PartialEq, Eq, Structural)]
pub struct InlayHintsSettings {
    pub parameter_names: IncludeInlayParameterNameHints,
    pub parameter_names_suppress_when_argument_matches_name: bool,
    pub parameter_types: bool,
    pub variable_types: bool,
    pub variable_types_suppress_when_type_matches_name: bool,
    pub property_declaration_types: bool,
    pub function_like_return_types: bool,
    pub enum_member_values: bool,
}

/// The analyzer's user preferences.
#[derive(Clone, Debug)]
pub struct UserPreferences {
    pub disable_suggestions: Option<bool>,
    pub quote_preference: Option<QuotePreference>,
    pub include_completions_for_module_exports: Option<bool>,
    pub include_completions_for_import_statements: Option<bool>,
    pub include_completions_with_snippet_text: Option<bool>,
    pub include_automatic_optional_chain_completions: Option<bool>,
    pub include_completions_with_insert_text: Option<bool>,
    pub include_completions_with_class_member_snippets: Option<bool>,
    pub include_completions_with_object_literal_method_snippets: Option<bool>,
    pub use_label_details_in_completion_entries: Option<bool>,
    pub allow_incomplete_completions: Option<bool>,
    pub import_module_specifier_preference: Option<ImportModuleSpecifierPreference>,
    pub import_module_specifier_ending: Option<ImportModuleSpecifierEnding>,
    pub allow_text_changes_in_new_files: Option<bool>,
    pub provide_prefix_and_suffix_text_for_rename: Option<bool>,
    pub include_package_json_auto_imports: Option<IncludePackageJsonAutoImports>,
    pub provide_refactor_not_applicable_reason: Option<bool>,
    pub jsx_attribute_completion_style: Option<JsxAttributeCompletionStyle>,
    pub include_inlay_parameter_name_hints: Option<IncludeInlayParameterNameHints>,
    pub include_inlay_parameter_name_hints_when_argument_matches_name: Option<bool>,
    pub include_inlay_function_parameter_type_hints: Option<bool>,
    pub include_inlay_variable_type_hints: Option<bool>,
    pub include_inlay_variable_type_hints_when_type_matches_name: Option<bool>,
    pub include_inlay_property_declaration_type_hints: Option<bool>,
    pub include_inlay_function_like_return_type_hints: Option<bool>,
    pub include_inlay_enum_member_value_hints: Option<bool>,
    pub allow_rename_of_import_path: Option<bool>,
    pub auto_import_file_exclude_patterns: Option<Vec<String>>,
}

impl Default for UserPreferences {
    fn default() -> (r: UserPreferences)
        ensures
            r.disable_suggestions is None,
            r.quote_preference is None,
            r.include_completions_for_module_exports is None,
            r.include_completions_for_import_statements is None,
            r.include_completions_with_snippet_text is None,
            r.include_automatic_optional_chain_completions is None,
            r.include_completions_with_insert_text is None,
            r.include_completions_with_class_member_snippets is None,
            r.include_completions_with_object_literal_method_snippets is None,
            r.use_label_details_in_completion_entries is None,
            r.allow_incomplete_completions is None,
            r.import_module_specifier_preference is None,
            r.import_module_specifier_ending is None,
            r.allow_text_changes_in_new_files is None,
            r.provide_prefix_and_suffix_text_for_rename is None,
            r.include_package_json_auto_imports is None,
            r.provide_refactor_not_applicable_reason is None,
            r.jsx_attribute_completion_style is None,
            r.include_inlay_parameter_name_hints is None,
            r.include_inlay_parameter_name_hints_when_argument_matches_name is None,
            r.include_inlay_function_parameter_type_hints is None,
            r.include_inlay_variable_type_hints is None,
            r.include_inlay_variable_type_hints_when_type_matches_name is None,
            r.include_inlay_property_declaration_type_hints is None,
            r.include_inlay_function_like_return_type_hints is None,
            r.include_inlay_enum_member_value_hints is None,
            r.allow_rename_of_import_path is None,
            r.auto_import_file_exclude_patterns is None,
    {
        UserPreferences {
            disable_suggestions: None,
            quote_preference: None,
            include_completions_for_module_exports: None,
            include_completions_for_import_statements: None,
            include_completions_with_snippet_text: None,
            include_automatic_optional_chain_completions: None,
            include_completions_with_insert_text: None,
            include_completions_with_class_member_snippets: None,
            include_completions_with_object_literal_method_snippets: None,
            use_label_details_in_completion_entries: None,
            allow_incomplete_completions: None,
            import_module_specifier_preference: None,
            import_module_specifier_ending: None,
            allow_text_changes_in_new_files: None,
            provide_prefix_and_suffix_text_for_rename: None,
            include_package_json_auto_imports: None,
            provide_refactor_not_applicable_reason: None,
            jsx_attribute_completion_style: None,
            include_inlay_parameter_name_hints: None,
            include_inlay_parameter_name_hints_when_argument_matches_name: None,
            include_inlay_function_parameter_type_hints: None,
            include_inlay_variable_type_hints: None,
            include_inlay_variable_type_hints_when_type_matches_name: None,
            include_inlay_property_declaration_type_hints: None,
            include_inlay_function_like_return_type_hints: None,
            include_inlay_enum_member_value_hints: None,
            allow_rename_of_import_path: None,
            auto_import_file_exclude_patterns: None,
        }
    }
}

impl UserPreferences {
    /// The preferences that carry the editor's inlay hint settings; a
    /// suppression setting is sent as its negation. Everything else is unset.
    pub fn from_inlay_hints(s: &InlayHintsSettings) -> (r: UserPreferences)
        ensures
            r.include_inlay_parameter_name_hints == Some(s.parameter_names),
            r.include_inlay_parameter_name_hints_when_argument_matches_name == Some(
                !s.parameter_names_suppress_when_argument_matches_name,
            ),
            r.include_inlay_function_parameter_type_hints == Some(s.parameter_types),
            r.include_inlay_variable_type_hints == Some(s.variable_types),
            r.include_inlay_variable_type_hints_when_type_matches_name == Some(
                !s.variable_types_suppress_when_type_matches_name,
            ),
            r.include_inlay_property_declaration_type_hints == Some(s.property_declaration_types),
            r.include_inlay_function_like_return_type_hints == Some(s.function_like_return_types),
            r.include_inlay_enum_member_value_hints == Some(s.enum_member_values),
            r.disable_suggestions is None,
            r.quote_preference is None,
            r.include_completions_for_module_exports is None,
            r.include_completions_for_import_statements is None,
            r.include_completions_with_snippet_text is None,
            r.include_automatic_optional_chain_completions is None,
            r.include_completions_with_insert_text is None,
            r.include_completions_with_class_member_snippets is None,
            r.include_completions_with_object_literal_method_snippets is None,
            r.use_label_details_in_completion_entries is None,
            r.allow_incomplete_completions is None,
            r.import_module_specifier_preference is None,
            r.import_module_specifier_ending is None,
            r.allow_text_changes_in_new_files is None,
            r.provide_prefix_and_suffix_text_for_rename is None,
            r.include_package_json_auto_imports is None,
            r.provide_refactor_not_applicable_reason is None,
            r.jsx_attribute_completion_style is None,
            r.allow_rename_of_import_path is None,
            r.auto_import_file_exclude_patterns is None,
    {
        let mut p = UserPreferences::default();
        p.include_inlay_parameter_name_hints = Some(s.parameter_names);
        p.include_inlay_parameter_name_hints_when_argument_matches_name = Some(
            !s.parameter_names_suppress_when_argument_matches_name,
        );
        p.include_inlay_function_parameter_type_hints = Some(s.parameter_types);
        p.include_inlay_variable_type_hints = Some(s.variable_types);
        p.include_inlay_variable_type_hints_when_type_matches_name = Some(
            !s.variable_types_suppress_when_type_matches_name,
        );
        p.include_inlay_property_declaration_type_hints = Some(s.property_declaration_types);
        p.include_inlay_function_like_return_type_hints = Some(s.function_like_return_types);
        p.include_inlay_enum_member_value_hints = Some(s.enum_member_values);
        p
    }
}

/// The options of a completion request.
#[derive(Clone, Debug)]
pub struct GetCompletionsAtPositionOptions {
    pub user_preferences: UserPreferences,
    pub trigger_character: Option<String>,
    pub trigger_kind: Option<CompletionTriggerKind>,
}

/// Why signature help was asked for.
#[derive(Clone, Copy, Debug, PartialEq, Eq, Structural)]
pub enum SignatureHelpTriggerKind {
    CharacterTyped,
    Invoked,
    Retrigger,
    Unknown,
}

impl SignatureHelpTriggerKind {
    /// The kind for the editor's trigger code: 1 invoked, 2 a trigger
    /// character, 3 a content change; anything else unknown.
    pub fn from_code(code: i32) -> (r: SignatureHelpTriggerKind)
        ensures
            r == if code == 1 {
                SignatureHelpTriggerKind::Invoked
            } else if code == 2 {
                SignatureHelpTriggerKind::CharacterTyped
            } else if code == 3 {
                SignatureHelpTriggerKind::Retrigger
            } else {
                SignatureHelpTriggerKind::Unknown
            },
    {
        if code == 1 {
            SignatureHelpTriggerKind::Invoked
        } else if code == 2 {
            SignatureHelpTriggerKind::CharacterTyped
        } else if code == 3 {
            SignatureHelpTriggerKind::Retrigger
        } else {
            SignatureHelpTriggerKind::Unknown
        }
    }
}

/// The trigger of a signature help request.
#[derive(Clone, Debug)]
pub struct SignatureHelpTriggerReason {
    pub kind: SignatureHelpTriggerKind,
    pub trigger_character: Option<String>,
}

/// The options of a signature help request.
#[derive(Clone, Debug)]
pub struct SignatureHelpItemsOptions {
    pub trigger_reason: Option<SignatureHelpTriggerReason>,
}

/// The arguments of a workspace symbol search.
#[derive(Clone, Debug)]
pub struct GetNavigateToItemsArgs {
    pub search: String,
    pub max_result_count: Option<u32>,
    pub file: Option<String>,
}

/// The arguments of a completion details request; `data` is JSON text.
#[derive(Clone, Debug)]
pub struct GetCompletionDetailsArgs {
    pub specifier: ModuleSpecifier,
    pub position: u32,
    pub name: String,
    pub format_code_settings: Option<FormatCodeSettings>,
    pub source: Option<String>,
    pub preferences: Option<UserPreferences>,
    pub data: Option<String>,
}

impl GetCompletionDetailsArgs {
    /// The details request for a completion item, with no formatting
    /// settings or preferences.
    pub fn from_item_data(item_data: &CompletionItemData) -> (r: GetCompletionDetailsArgs)
        ensures
            r.specifier@ == item_data.specifier@,
            r.position == item_data.position,
            r.name@ == item_data.name@,
            opt_str(r.source) == opt_str(item_data.source),
            opt_str(r.data) == opt_str(item_data.data),
            r.format_code_settings is None,
            r.preferences is None,
    {
        GetCompletionDetailsArgs {
            specifier: ModuleSpecifier { href: item_data.specifier.href.clone() },
            position: item_data.position,
            name: item_data.name.clone(),
            format_code_settings: None,
            source: clone_opt(&item_data.source),
            preferences: None,
            data: clone_opt(&item_data.data),
        }
    }
}

} // verus!
