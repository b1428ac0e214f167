//! Rewriting of the module specifiers in auto-import edits.
use vstd::prelude::*;
use crate::specifier::{ModuleSpecifier, normalize_specifier, url_serialization, collapsed};
use crate::responses::TextEdit;
use crate::strings::{concat, replace_all, replaced, starts_with, has_prefix, chars_of};

verus! {

/// What `url::Url::make_relative` gives for the URLs serialized as `from`
/// and `to`: nothing where either does not parse or no relative form exists.
pub uninterp spec fn url_relative(from: Seq<char>, to: Seq<char>) -> Option<Seq<char>>;

/// Relies on `url::Url::parse` and `url::Url::make_relative`: the path of
/// `to` relative to `from`, where both share a scheme, host and port.
#[verifier::external_body]
fn make_relative(from: &str, to: &str) -> (r: Option<String>)
    ensures
        r is Some <==> url_relative(from@, to@) is Some,
        r is Some ==> url_relative(from@, to@) == Some(r->0@),
{
    let from = url::Url::parse(from).ok()?;
    let to = url::Url::parse(to).ok()?;
    from.make_relative(&to)
}

/// The relative specifier from `from` to `to`: the relative path, marked
/// `./` unless it climbs with `../` or is marked already.
pub open spec fn relative_specifier_of(from: Seq<char>, to: Seq<char>) -> Option<Seq<char>> {
    match url_relative(from, to) {
        Some(rel) => if has_prefix(rel, "../"@) || has_prefix(rel, "./"@) {
            Some(rel)
        } else {
            Some("./"@ + rel)
        },
        None => None,
    }
}

/// The specifier of `to` relative to `from`.
pub fn relative_specifier(from: &ModuleSpecifier, to: &ModuleSpecifier) -> (r: Option<String>)
    ensures
        match r {
            Some(s) => relative_specifier_of(from@, to@) == Some(s@),
            None => relative_specifier_of(from@, to@) is None,
        },
{
    match make_relative(from.as_str(), to.as_str()) {
        Some(rel) => {
            if starts_with(rel.as_str(), "../") || starts_with(rel.as_str(), "./") {
                Some(rel)
            } else {
                Some(concat("./", rel.as_str()))
            }
        },
        None => None,
    }
}

/// What an auto-import completion says of the module it imports from: the
/// specifier the analyzer wrote and the file it names.
#[derive(Clone, Debug)]
pub struct CompletionEntryDataImport {
    pub module_specifier: String,
    pub file_name: String,
}

/// The specifier an auto-import of `file_name` into `document` should use:
/// the mapped one where given, else a relative one.
pub open spec fn chosen_specifier(document: Seq<char>, file_name: Seq<char>, mapped: Option<Seq<char>>) -> Option<Seq<char>> {
    match url_serialization(collapsed(file_name)) {
        Some(target) => match mapped {
            Some(m) => Some(m),
            None => relative_specifier_of(document, target),
        },
        None => None,
    }
}

/// The new text of an auto-import edit.
pub open spec fn rewritten_import(
    text: Seq<char>,
    document: Seq<char>,
    import: Option<(Seq<char>, Seq<char>)>,
    mapped: Option<Seq<char>>,
) -> Seq<char> {
    match import {
        Some(d) => if d.0.len() > 0 {
            match chosen_specifier(document, d.1, mapped) {
                Some(new_spec) => replaced(text, d.0, new_spec),
                None => text,
            }
        } else {
            text
        },
        None => text,
    }
}

/// Rewrites the module specifier in an auto-import edit into `document`:
/// the analyzer's specifier is replaced by `mapped` (what the import mapper
/// chose for the normalized `file_name`, if anything) or else by the path
/// relative to the document. Edits without import data, with an empty
/// specifier or with a file name that is no URL are kept.
pub fn update_import_statement(
    text_edit: TextEdit,
    document: &ModuleSpecifier,
    import_data: Option<&CompletionEntryDataImport>,
    mapped: Option<&str>,
) -> (r: TextEdit)
    ensures
        r.range == text_edit.range,
        r.new_text@ == rewritten_import(
            text_edit.new_text@,
            document@,
            match import_data { Some(d) => Some((d.module_specifier@, d.file_name@)), None => None },
            match mapped { Some(m) => Some(m@), None => None },
        ),
{
    let mut text_edit = text_edit;
    if let Some(data) = import_data {
        if chars_of(data.module_specifier.as_str()).len() > 0 {
            if let Ok(import_specifier) = normalize_specifier(data.file_name.as_str()) {
                let new_spec = match mapped {
                    Some(m) => Some(m.to_owned()),
                    None => relative_specifier(document, &import_specifier),
                };
                if let Some(new_spec) = new_spec {
                    text_edit.new_text = replace_all(
                        text_edit.new_text.as_str(),
                        data.module_specifier.as_str(),
                        new_spec.as_str(),
                    );
                }
            }
        }
    }
    text_edit
}

} // verus!
