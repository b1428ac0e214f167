//! The analyzer's element kinds and the editor kinds they map to.
use vstd::prelude::*;
use crate::strings::str_eq;

verus! {

/// The kind of a script element, as the analyzer names it.
#[derive(Clone, Copy, Debug, PartialEq, Eq, Structural)]
pub enum ScriptElementKind {
    Unknown,
    Warning,
    Keyword,
    ScriptElement,
    ModuleElement,
    ClassElement,
    LocalClassElement,
    InterfaceElement,
    TypeElement,
    EnumElement,
    EnumMemberElement,
    VariableElement,
    LocalVariableElement,
    FunctionElement,
    LocalFunctionElement,
    MemberFunctionElement,
    MemberGetAccessorElement,
    MemberSetAccessorElement,
    MemberVariableElement,
    ConstructorImplementationElement,
    CallSignatureElement,
    IndexSignatureElement,
    ConstructSignatureElement,
    ParameterElement,
    TypeParameterElement,
    PrimitiveType,
    Label,
    Alias,
    ConstElement,
    LetElement,
    Directory,
    ExternalModuleName,
    JsxAttribute,
    String,
    Link,
    LinkName,
    LinkText,
}

/// The name the analyzer uses for an element kind.
pub open spec fn kind_wire_name(k: ScriptElementKind) -> Seq<char> {
    match k {
        ScriptElementKind::Unknown => ""@,
        ScriptElementKind::Warning => "warning"@,
        ScriptElementKind::Keyword => "keyword"@,
        ScriptElementKind::ScriptElement => "script"@,
        ScriptElementKind::ModuleElement => "module"@,
        ScriptElementKind::ClassElement => "class"@,
        ScriptElementKind::LocalClassElement => "local class"@,
        ScriptElementKind::InterfaceElement => "interface"@,
        ScriptElementKind::TypeElement => "type"@,
        ScriptElementKind::EnumElement => "enum"@,
        ScriptElementKind::EnumMemberElement => "enum member"@,
        ScriptElementKind::VariableElement => "var"@,
        ScriptElementKind::LocalVariableElement => "local var"@,
        ScriptElementKind::FunctionElement => "function"@,
        ScriptElementKind::LocalFunctionElement => "local function"@,
        ScriptElementKind::MemberFunctionElement => "method"@,
        ScriptElementKind::MemberGetAccessorElement => "getter"@,
        ScriptElementKind::MemberSetAccessorElement => "setter"@,
        ScriptElementKind::MemberVariableElement => "property"@,
        ScriptElementKind::ConstructorImplementationElement => "constructor"@,
        ScriptElementKind::CallSignatureElement => "call"@,
        ScriptElementKind::IndexSignatureElement => "index"@,
        ScriptElementKind::ConstructSignatureElement => "construct"@,
        ScriptElementKind::ParameterElement => "parameter"@,
        ScriptElementKind::TypeParameterElement => "type parameter"@,
        ScriptElementKind::PrimitiveType => "primitive type"@,
        ScriptElementKind::Label => "label"@,
        ScriptElementKind::Alias => "alias"@,
        ScriptElementKind::ConstElement => "const"@,
        ScriptElementKind::LetElement => "let"@,
        ScriptElementKind::Directory => "directory"@,
        ScriptElementKind::ExternalModuleName => "external module name"@,
        ScriptElementKind::JsxAttribute => "JSX attribute"@,
        ScriptElementKind::String => "string"@,
        ScriptElementKind::Link => "link"@,
        ScriptElementKind::LinkName => "link name"@,
        ScriptElementKind::LinkText => "link text"@,
    }
}

impl ScriptElementKind {
    /// The name the analyzer uses for this kind.
    pub fn wire_name(&self) -> (r: &'static str)
        ensures
            r@ == kind_wire_name(*self),
    {
        match self {
            ScriptElementKind::Unknown => "",
            ScriptElementKind::Warning => "warning",
            ScriptElementKind::Keyword => "keyword",
            ScriptElementKind::ScriptElement => "script",
            ScriptElementKind::ModuleElement => "module",
            ScriptElementKind::ClassElement => "class",
            ScriptElementKind::LocalClassElement => "local class",
            ScriptElementKind::InterfaceElement => "interface",
            ScriptElementKind::TypeElement => "type",
            ScriptElementKind::EnumElement => "enum",
            ScriptElementKind::EnumMemberElement => "enum member",
            ScriptElementKind::VariableElement => "var",
            ScriptElementKind::LocalVariableElement => "local var",
            ScriptElementKind::FunctionElement => "function",
            ScriptElementKind::LocalFunctionElement => "local function",
            ScriptElementKind::MemberFunctionElement => "method",
            ScriptElementKind::MemberGetAccessorElement => "getter",
            ScriptElementKind::MemberSetAccessorElement => "setter",
            ScriptElementKind::MemberVariableElement => "property",
            ScriptElementKind::ConstructorImplementationElement => "constructor",
            ScriptElementKind::CallSignatureElement => "call",
            ScriptElementKind::IndexSignatureElement => "index",
            ScriptElementKind::ConstructSignatureElement => "construct",
            ScriptElementKind::ParameterElement => "parameter",
            ScriptElementKind::TypeParameterElement => "type parameter",
            ScriptElementKind::PrimitiveType => "primitive type",
            ScriptElementKind::Label => "label",
            ScriptElementKind::Alias => "alias",
            ScriptElementKind::ConstElement => "const",
            ScriptElementKind::LetElement => "let",
            ScriptElementKind::Directory => "directory",
            ScriptElementKind::ExternalModuleName => "external module name",
            ScriptElementKind::JsxAttribute => "JSX attribute",
            ScriptElementKind::String => "string",
            ScriptElementKind::Link => "link",
            ScriptElementKind::LinkName => "link name",
            ScriptElementKind::LinkText => "link text",
        }
    }

    /// The kind the analyzer names `s`; an unknown name is `Unknown`.
    pub fn from_wire_name(s: &str) -> (r: ScriptElementKind)
        ensures
            kind_wire_name(r) == s@ || (r == ScriptElementKind::Unknown && forall|k: ScriptElementKind|
                kind_wire_name(k) != s@),
    {
        if str_eq(s, "warning") {
            return ScriptElementKind::Warning;
        }
        if str_eq(s, "keyword") {
            return ScriptElementKind::Keyword;
        }
        if str_eq(s, "script") {
            return ScriptElementKind::ScriptElement;
        }
        if str_eq(s, "module") {
            return ScriptElementKind::ModuleElement;
        }
        if str_eq(s, "class") {
            return ScriptElementKind::ClassElement;
        }
        if str_eq(s, "local class") {
            return ScriptElementKind::LocalClassElement;
        }
        if str_eq(s, "interface") {
            return ScriptElementKind::InterfaceElement;
        }
        if str_eq(s, "type") {
            return ScriptElementKind::TypeElement;
        }
        if str_eq(s, "enum") {
            return ScriptElementKind::EnumElement;
        }
        if str_eq(s, "enum member") {
            return ScriptElementKind::EnumMemberElement;
        }
        if str_eq(s, "var") {
            return ScriptElementKind::VariableElement;
        }
        if str_eq(s, "local var") {
            return ScriptElementKind::LocalVariableElement;
        }
        if str_eq(s, "function") {
            return ScriptElementKind::FunctionElement;
        }
        if str_eq(s, "local function") {
            return ScriptElementKind::LocalFunctionElement;
        }
        if str_eq(s, "method") {
            return ScriptElementKind::MemberFunctionElement;
        }
        if str_eq(s, "getter") {
            return ScriptElementKind::MemberGetAccessorElement;
        }
        if str_eq(s, "setter") {
            return ScriptElementKind::MemberSetAccessorElement;
        }
        if str_eq(s, "property") {
            return ScriptElementKind::MemberVariableElement;
        }
        if str_eq(s, "constructor") {
            return ScriptElementKind::ConstructorImplementationElement;
        }
        if str_eq(s, "call") {
            return ScriptElementKind::CallSignatureElement;
        }
        if str_eq(s, "index") {
            return ScriptElementKind::IndexSignatureElement;
        }
        if str_eq(s, "construct") {
            return ScriptElementKind::ConstructSignatureElement;
        }
        if str_eq(s, "parameter") {
            return ScriptElementKind::ParameterElement;
        }
        if str_eq(s, "type parameter") {
            return ScriptElementKind::TypeParameterElement;
        }
        if str_eq(s, "primitive type") {
            return ScriptElementKind::PrimitiveType;
        }
        if str_eq(s, "label") {
            return ScriptElementKind::Label;
        }
        if str_eq(s, "alias") {
            return ScriptElementKind::Alias;
        }
        if str_eq(s, "const") {
            return ScriptElementKind::ConstElement;
        }
        if str_eq(s, "let") {
            return ScriptElementKind::LetElement;
        }
        if str_eq(s, "directory") {
            return ScriptElementKind::Directory;
        }
        if str_eq(s, "external module name") {
            return ScriptElementKind::ExternalModuleName;
        }
        if str_eq(s, "JSX attribute") {
            return ScriptElementKind::JsxAttribute;
        }
        if str_eq(s, "string") {
            return ScriptElementKind::String;
        }
        if str_eq(s, "link") {
            return ScriptElementKind::Link;
        }
        if str_eq(s, "link name") {
            return ScriptElementKind::LinkName;
        }
        if str_eq(s, "link text") {
            return ScriptElementKind::LinkText;
        }
        proof {
            reveal_strlit("");
            reveal_strlit("warning");
            reveal_strlit("keyword");
            reveal_strlit("script");
            reveal_strlit("module");
            reveal_strlit("class");
            reveal_strlit("local class");
            reveal_strlit("interface");
            reveal_strlit("type");
            reveal_strlit("enum");
            reveal_strlit("enum member");
            reveal_strlit("var");
            reveal_strlit("local var");
            reveal_strlit("function");
            reveal_strlit("local function");
            reveal_strlit("method");
            reveal_strlit("getter");
            reveal_strlit("setter");
            reveal_strlit("property");
            reveal_strlit("constructor");
            reveal_strlit("call");
            reveal_strlit("index");
            reveal_strlit("construct");
            reveal_strlit("parameter");
            reveal_strlit("type parameter");
            reveal_strlit("primitive type");
            reveal_strlit("label");
            reveal_strlit("alias");
            reveal_strlit("const");
            reveal_strlit("let");
            reveal_strlit("directory");
            reveal_strlit("external module name");
            reveal_strlit("JSX attribute");
            reveal_strlit("string");
            reveal_strlit("link");
            reveal_strlit("link name");
            reveal_strlit("link text");
        }
        assert forall|k: ScriptElementKind| kind_wire_name(k) != s@ || k == ScriptElementKind::Unknown by {}
        ScriptElementKind::Unknown
    }
}

impl Default for ScriptElementKind {
    fn default() -> (r: ScriptElementKind)
        ensures
            r == ScriptElementKind::Unknown,
    {
        ScriptElementKind::Unknown
    }
}

/// The editor's completion item kinds that element kinds map to.
#[derive(Clone, Copy, Debug, PartialEq, Eq, Structural)]
pub enum CompletionItemKind {
    Text,
    Method,
    Function,
    Field,
    Variable,
    Class,
    Interface,
    Module,
    Property,
    Enum,
    Keyword,
    Color,
    File,
    Folder,
    EnumMember,
    Constant,
}

/// The completion item kind shown for an element kind.
pub open spec fn completion_kind_of(k: ScriptElementKind) -> CompletionItemKind {
    match k {
        ScriptElementKind::Unknown => CompletionItemKind::Property,
        ScriptElementKind::Warning => CompletionItemKind::Text,
        ScriptElementKind::Keyword => CompletionItemKind::Keyword,
        ScriptElementKind::ScriptElement => CompletionItemKind::File,
        ScriptElementKind::ModuleElement => CompletionItemKind::Module,
        ScriptElementKind::ClassElement => CompletionItemKind::Class,
        ScriptElementKind::LocalClassElement => CompletionItemKind::Property,
        ScriptElementKind::InterfaceElement => CompletionItemKind::Interface,
        ScriptElementKind::TypeElement => CompletionItemKind::Class,
        ScriptElementKind::EnumElement => CompletionItemKind::Enum,
        ScriptElementKind::EnumMemberElement => CompletionItemKind::EnumMember,
        ScriptElementKind::VariableElement => CompletionItemKind::Variable,
        ScriptElementKind::LocalVariableElement => CompletionItemKind::Variable,
        ScriptElementKind::FunctionElement => CompletionItemKind::Function,
        ScriptElementKind::LocalFunctionElement => CompletionItemKind::Function,
        ScriptElementKind::MemberFunctionElement => CompletionItemKind::Method,
        ScriptElementKind::MemberGetAccessorElement => CompletionItemKind::Field,
        ScriptElementKind::MemberSetAccessorElement => CompletionItemKind::Field,
        ScriptElementKind::MemberVariableElement => CompletionItemKind::Field,
        ScriptElementKind::ConstructorImplementationElement => CompletionItemKind::Property,
        ScriptElementKind::CallSignatureElement => CompletionItemKind::Method,
        ScriptElementKind::IndexSignatureElement => CompletionItemKind::Method,
        ScriptElementKind::ConstructSignatureElement => CompletionItemKind::Method,
        ScriptElementKind::ParameterElement => CompletionItemKind::Variable,
        ScriptElementKind::TypeParameterElement => CompletionItemKind::Property,
        ScriptElementKind::PrimitiveType => CompletionItemKind::Keyword,
        ScriptElementKind::Label => CompletionItemKind::Property,
        ScriptElementKind::Alias => CompletionItemKind::Variable,
        ScriptElementKind::ConstElement => CompletionItemKind::Variable,
        ScriptElementKind::LetElement => CompletionItemKind::Variable,
        ScriptElementKind::Directory => CompletionItemKind::Folder,
        ScriptElementKind::ExternalModuleName => CompletionItemKind::Module,
        ScriptElementKind::JsxAttribute => CompletionItemKind::Property,
        ScriptElementKind::String => CompletionItemKind::Constant,
        ScriptElementKind::Link => CompletionItemKind::Property,
        ScriptElementKind::LinkName => CompletionItemKind::Property,
        ScriptElementKind::LinkText => CompletionItemKind::Property,
    }
}

impl From<ScriptElementKind> for CompletionItemKind {
    fn from(kind: ScriptElementKind) -> (r: CompletionItemKind) {
        match kind {
            ScriptElementKind::Unknown => CompletionItemKind::Property,
            ScriptElementKind::Warning => CompletionItemKind::Text,
            ScriptElementKind::Keyword => CompletionItemKind::Keyword,
            ScriptElementKind::ScriptElement => CompletionItemKind::File,
            ScriptElementKind::ModuleElement => CompletionItemKind::Module,
            ScriptElementKind::ClassElement => CompletionItemKind::Class,
            ScriptElementKind::LocalClassElement => CompletionItemKind::Property,
            ScriptElementKind::InterfaceElement => CompletionItemKind::Interface,
            ScriptElementKind::TypeElement => CompletionItemKind::Class,
            ScriptElementKind::EnumElement => CompletionItemKind::Enum,
            ScriptElementKind::EnumMemberElement => CompletionItemKind::EnumMember,
            ScriptElementKind::VariableElement => CompletionItemKind::Variable,
            ScriptElementKind::LocalVariableElement => CompletionItemKind::Variable,
            ScriptElementKind::FunctionElement => CompletionItemKind::Function,
            ScriptElementKind::LocalFunctionElement => CompletionItemKind::Function,
            ScriptElementKind::MemberFunctionElement => CompletionItemKind::Method,
            ScriptElementKind::MemberGetAccessorElement => CompletionItemKind::Field,
            ScriptElementKind::MemberSetAccessorElement => CompletionItemKind::Field,
            ScriptElementKind::MemberVariableElement => CompletionItemKind::Field,
            ScriptElementKind::ConstructorImplementationElement => CompletionItemKind::Property,
            ScriptElementKind::CallSignatureElement => CompletionItemKind::Method,
            ScriptElementKind::IndexSignatureElement => CompletionItemKind::Method,
            ScriptElementKind::ConstructSignatureElement => CompletionItemKind::Method,
            ScriptElementKind::ParameterElement => CompletionItemKind::Variable,
            ScriptElementKind::TypeParameterElement => CompletionItemKind::Property,
            ScriptElementKind::PrimitiveType => CompletionItemKind::Keyword,
            ScriptElementKind::Label => CompletionItemKind::Property,
            ScriptElementKind::Alias => CompletionItemKind::Variable,
            ScriptElementKind::ConstElement => CompletionItemKind::Variable,
            ScriptElementKind::LetElement => CompletionItemKind::Variable,
            ScriptElementKind::Directory => CompletionItemKind::Folder,
            ScriptElementKind::ExternalModuleName => CompletionItemKind::Module,
            ScriptElementKind::JsxAttribute => CompletionItemKind::Property,
            ScriptElementKind::String => CompletionItemKind::Constant,
            ScriptElementKind::Link => CompletionItemKind::Property,
            ScriptElementKind::LinkName => CompletionItemKind::Property,
            ScriptElementKind::LinkText => CompletionItemKind::Property,
        }
    }
}

impl vstd::std_specs::convert::FromSpecImpl<ScriptElementKind> for CompletionItemKind {
    open spec fn obeys_from_spec() -> bool {
        true
    }

    open spec fn from_spec(kind: ScriptElementKind) -> CompletionItemKind {
        completion_kind_of(kind)
    }
}

/// The editor's symbol kinds that element kinds map to.
#[derive(Clone, Copy, Debug, PartialEq, Eq, Structural)]
pub enum SymbolKind {
    Module,
    Class,
    Method,
    Field,
    Constructor,
    Enum,
    Interface,
    Function,
    Variable,
    String,
    EnumMember,
    TypeParameter,
}

/// The symbol kind shown for an element kind.
pub open spec fn symbol_kind_of(k: ScriptElementKind) -> SymbolKind {
    match k {
        ScriptElementKind::Unknown => SymbolKind::Variable,
        ScriptElementKind::Warning => SymbolKind::Variable,
        ScriptElementKind::Keyword => SymbolKind::Variable,
        ScriptElementKind::ScriptElement => SymbolKind::Variable,
        ScriptElementKind::ModuleElement => SymbolKind::Module,
        ScriptElementKind::ClassElement => SymbolKind::Class,
        ScriptElementKind::LocalClassElement => SymbolKind::Variable,
        ScriptElementKind::InterfaceElement => SymbolKind::Interface,
        ScriptElementKind::TypeElement => SymbolKind::Class,
        ScriptElementKind::EnumElement => SymbolKind::Enum,
        ScriptElementKind::EnumMemberElement => SymbolKind::EnumMember,
        ScriptElementKind::VariableElement => SymbolKind::Variable,
        ScriptElementKind::LocalVariableElement => SymbolKind::Variable,
        ScriptElementKind::FunctionElement => SymbolKind::Function,
        ScriptElementKind::LocalFunctionElement => SymbolKind::Function,
        ScriptElementKind::MemberFunctionElement => SymbolKind::Method,
        ScriptElementKind::MemberGetAccessorElement => SymbolKind::Field,
        ScriptElementKind::MemberSetAccessorElement => SymbolKind::Field,
        ScriptElementKind::MemberVariableElement => SymbolKind::Field,
        ScriptElementKind::ConstructorImplementationElement => SymbolKind::Constructor,
        ScriptElementKind::CallSignatureElement => SymbolKind::Method,
        ScriptElementKind::IndexSignatureElement => SymbolKind::Method,
        ScriptElementKind::ConstructSignatureElement => SymbolKind::Constructor,
        ScriptElementKind::ParameterElement => SymbolKind::Variable,
        ScriptElementKind::TypeParameterElement => SymbolKind::TypeParameter,
        ScriptElementKind::PrimitiveType => SymbolKind::Variable,
        ScriptElementKind::Label => SymbolKind::Variable,
        ScriptElementKind::Alias => SymbolKind::Variable,
        ScriptElementKind::ConstElement => SymbolKind::Variable,
        ScriptElementKind::LetElement => SymbolKind::Variable,
        ScriptElementKind::Directory => SymbolKind::Variable,
        ScriptElementKind::ExternalModuleName => SymbolKind::Variable,
        ScriptElementKind::JsxAttribute => SymbolKind::Variable,
        ScriptElementKind::String => SymbolKind::String,
        ScriptElementKind::Link => SymbolKind::Variable,
        ScriptElementKind::LinkName => SymbolKind::Variable,
        ScriptElementKind::LinkText => SymbolKind::Variable,
    }
}

impl From<ScriptElementKind> for SymbolKind {
    fn from(kind: ScriptElementKind) -> (r: SymbolKind) {
        match kind {
            ScriptElementKind::Unknown => SymbolKind::Variable,
            ScriptElementKind::Warning => SymbolKind::Variable,
            ScriptElementKind::Keyword => SymbolKind::Variable,
            ScriptElementKind::ScriptElement => SymbolKind::Variable,
            ScriptElementKind::ModuleElement => SymbolKind::Module,
            ScriptElementKind::ClassElement => SymbolKind::Class,
            ScriptElementKind::LocalClassElement => SymbolKind::Variable,
            ScriptElementKind::InterfaceElement => SymbolKind::Interface,
            ScriptElementKind::TypeElement => SymbolKind::Class,
            ScriptElementKind::EnumElement => SymbolKind::Enum,
            ScriptElementKind::EnumMemberElement => SymbolKind::EnumMember,
            ScriptElementKind::VariableElement => SymbolKind::Variable,
            ScriptElementKind::LocalVariableElement => SymbolKind::Variable,
            ScriptElementKind::FunctionElement => SymbolKind::Function,
            ScriptElementKind::LocalFunctionElement => SymbolKind::Function,
            ScriptElementKind::MemberFunctionElement => SymbolKind::Method,
            ScriptElementKind::MemberGetAccessorElement => SymbolKind::Field,
            ScriptElementKind::MemberSetAccessorElement => SymbolKind::Field,
            ScriptElementKind::MemberVariableElement => SymbolKind::Field,
            ScriptElementKind::ConstructorImplementationElement => SymbolKind::Constructor,
            ScriptElementKind::CallSignatureElement => SymbolKind::Method,
            ScriptElementKind::IndexSignatureElement => SymbolKind::Method,
            ScriptElementKind::ConstructSignatureElement => SymbolKind::Constructor,
            ScriptElementKind::ParameterElement => SymbolKind::Variable,
            ScriptElementKind::TypeParameterElement => SymbolKind::TypeParameter,
            ScriptElementKind::PrimitiveType => SymbolKind::Variable,
            ScriptElementKind::Label => SymbolKind::Variable,
            ScriptElementKind::Alias => SymbolKind::Variable,
            ScriptElementKind::ConstElement => SymbolKind::Variable,
            ScriptElementKind::LetElement => SymbolKind::Variable,
            ScriptElementKind::Directory => SymbolKind::Variable,
            ScriptElementKind::ExternalModuleName => SymbolKind::Variable,
            ScriptElementKind::JsxAttribute => SymbolKind::Variable,
            ScriptElementKind::String => SymbolKind::String,
            ScriptElementKind::Link => SymbolKind::Variable,
            ScriptElementKind::LinkName => SymbolKind::Variable,
            ScriptElementKind::LinkText => SymbolKind::Variable,
        }
    }
}

impl vstd::std_specs::convert::FromSpecImpl<ScriptElementKind> for SymbolKind {
    open spec fn obeys_from_spec() -> bool {
        true
    }

    open spec fn from_spec(kind: ScriptElementKind) -> SymbolKind {
        symbol_kind_of(kind)
    }
}

} // verus!
