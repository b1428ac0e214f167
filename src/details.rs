//! Completion details: the second step of completion, which resolves an
//! item's documentation and the edits of its code actions.
use vstd::prelude::*;
use crate::host::BridgeError;
use crate::kinds::ScriptElementKind;
use crate::line_index::{LineIndex, MAX_TEXT_CHARS};
use crate::docs::{SymbolDisplayPart, JsDocTagInfo, display_parts_to_string, display_string, get_tag_documentation, tag_documentation, replace_links, links_replaced};
use crate::responses::{FileTextChanges, TextEdit, no_range};
use crate::completion::{CompletionItemData, opt_str};
use crate::imports::{update_import_statement, CompletionEntryDataImport};
use crate::specifier::{normalize_specifier, url_serialization, collapsed};
use crate::strings::{concat, str_eq, join, joined};

verus! {

/// A code action attached to a completion, as the analyzer reports it;
/// `commands` are JSON texts.
#[derive(Clone, Debug)]
pub struct CodeAction {
    pub description: String,
    pub changes: Vec<FileTextChanges>,
    pub commands: Option<Vec<String>>,
}

/// A quick fix, as the analyzer reports it; `commands` are JSON texts.
#[derive(Clone, Debug)]
pub struct CodeFixAction {
    pub description: String,
    pub changes: Vec<FileTextChanges>,
    pub commands: Option<Vec<String>>,
    pub fix_name: String,
    pub fix_id: Option<String>,
    pub fix_all_description: Option<String>,
}

/// The changes of a fix applied everywhere, as the analyzer reports them.
#[derive(Clone, Debug)]
pub struct CombinedCodeActions {
    pub changes: Vec<FileTextChanges>,
    pub commands: Option<Vec<String>>,
}

/// Whether the changes name the document serialized as `doc`.
pub open spec fn change_here(ch: FileTextChanges, doc: Seq<char>) -> bool {
    url_serialization(collapsed(ch.file_name@)) == Some(doc)
}

/// Whether the file the changes name is a URL.
pub open spec fn change_resolves(ch: FileTextChanges) -> bool {
    url_serialization(collapsed(ch.file_name@)) is Some
}

/// The text changes of action `a` to the document `doc`, from its first
/// `j` file changes, in order.
pub open spec fn action_local_changes(a: CodeAction, doc: Seq<char>, j: nat) -> Seq<crate::responses::TextChange>
    decreases j,
{
    if j == 0 || j > a.changes@.len() {
        Seq::empty()
    } else {
        action_local_changes(a, doc, (j - 1) as nat) + if change_here(a.changes@[j - 1], doc) {
            a.changes@[j - 1].text_changes@
        } else {
            Seq::empty()
        }
    }
}

/// The text changes to `doc` of the first `i` actions, in order.
pub open spec fn local_changes(acts: Seq<CodeAction>, doc: Seq<char>, i: nat) -> Seq<crate::responses::TextChange>
    decreases i,
{
    if i == 0 || i > acts.len() {
        Seq::empty()
    } else {
        local_changes(acts, doc, (i - 1) as nat) + action_local_changes(acts[i - 1], doc, acts[i - 1].changes@.len())
    }
}

/// Whether `e` is the edit for change `c`: the change's range, its text
/// with the auto-import specifier rewritten.
pub open spec fn edit_for(
    t: Seq<char>,
    doc: Seq<char>,
    import: Option<(Seq<char>, Seq<char>)>,
    mapped: Option<Seq<char>>,
    c: crate::responses::TextChange,
    e: TextEdit,
) -> bool {
    &&& crate::responses::range_of(t, c.span, e.range)
    &&& e.new_text@ == crate::imports::rewritten_import(c.new_text@, doc, import, mapped)
}

/// Whether `edits` are the edits of the code actions to `doc`: none where
/// they change nothing in it, else one per text change, in order.
pub open spec fn edits_for_actions(
    acts: Seq<CodeAction>,
    doc: Seq<char>,
    t: Seq<char>,
    import: Option<(Seq<char>, Seq<char>)>,
    mapped: Option<Seq<char>>,
    edits: Option<Vec<TextEdit>>,
) -> bool {
    let l = local_changes(acts, doc, acts.len());
    let es = match edits {
        Some(v) => v@,
        None => Seq::empty(),
    };
    &&& (edits is None <==> l.len() == 0)
    &&& es.len() == l.len()
    &&& forall|k: int| 0 <= k < l.len() ==> edit_for(t, doc, import, mapped, l[k], #[trigger] es[k])
}

/// Whether the code actions can be turned into edits of `doc`: every file
/// they name is a URL, and every change to `doc` has a range in its text.
pub open spec fn actions_resolve(actions: Seq<CodeAction>, doc: Seq<char>, t: Seq<char>) -> bool {
    forall|i: int, j: int|
        0 <= i < actions.len() && 0 <= j < actions[i].changes@.len() ==> change_resolves(
            #[trigger] actions[i].changes@[j],
        ) && (change_here(actions[i].changes@[j], doc) ==> forall|k: int|
            0 <= k < actions[i].changes@[j].text_changes@.len() ==> !no_range(
                t,
                #[trigger] actions[i].changes@[j].text_changes@[k].span,
            ))
}

/// Whether applying the code actions needs a command besides the edits of
/// `doc`: some action has commands, or changes another file.
pub open spec fn needs_command(actions: Seq<CodeAction>, doc: Seq<char>) -> bool {
    exists|i: int|
        0 <= i < actions.len() && ((#[trigger] actions[i]).commands is Some || exists|j: int|
            0 <= j < actions[i].changes@.len() && !change_here(#[trigger] actions[i].changes@[j], doc))
}

/// The edits of the code actions of a completion in its own document,
/// with auto-import specifiers rewritten, and whether a command must apply
/// the rest. `line_index` is the document's index; `import_data` and
/// `mapped` are as for `update_import_statement`.
pub fn parse_code_actions(
    maybe_code_actions: Option<&Vec<CodeAction>>,
    data: &CompletionItemData,
    line_index: &LineIndex,
    import_data: Option<&CompletionEntryDataImport>,
    mapped: Option<&str>,
) -> (r: Result<(bool, Option<Vec<TextEdit>>), BridgeError>)
    requires
        line_index@.len() <= MAX_TEXT_CHARS,
    ensures
        maybe_code_actions is None ==> r == Ok::<(bool, Option<Vec<TextEdit>>), BridgeError>((false, None)),
        maybe_code_actions is Some ==> (r is Ok <==> actions_resolve(maybe_code_actions->0@, data.specifier@, line_index@)),
        maybe_code_actions is Some && r is Ok ==> r->Ok_0.0 == needs_command(maybe_code_actions->0@, data.specifier@),
        r is Ok && r->Ok_0.1 is Some ==> r->Ok_0.1->0@.len() > 0,
        maybe_code_actions is Some && r is Ok ==> edits_for_actions(
            maybe_code_actions->0@,
            data.specifier@,
            line_index@,
            match import_data { Some(d) => Some((d.module_specifier@, d.file_name@)), None => None },
            match mapped { Some(m) => Some(m@), None => None },
            r->Ok_0.1,
        ),
        r is Err ==> r == Err::<(bool, Option<Vec<TextEdit>>), BridgeError>(BridgeError::UnknownSpecifier)
            || r == Err::<(bool, Option<Vec<TextEdit>>), BridgeError>(BridgeError::InvariantViolation),
{
    let code_actions = match maybe_code_actions {
        None => {
            return Ok((false, None));
        },
        Some(c) => c,
    };
    let ghost acts = code_actions@;
    let ghost doc = data.specifier@;
    let ghost t = line_index@;
    let ghost imp = match import_data { Some(d) => Some((d.module_specifier@, d.file_name@)), None => None };
    let ghost mp = match mapped { Some(m) => Some(m@), None => None };
    let mut edits: Vec<TextEdit> = Vec::new();
    let mut remaining = false;
    for i in 0..code_actions.len()
        invariant
            maybe_code_actions == Some(code_actions),
            acts == code_actions@,
            doc == data.specifier@,
            t == line_index@,
            line_index@.len() <= MAX_TEXT_CHARS,
            imp == match import_data { Some(d) => Some((d.module_specifier@, d.file_name@)), None => None },
            mp == match mapped { Some(m) => Some(m@), None => None },
            edits@.len() == local_changes(acts, doc, i as nat).len(),
            forall|m: int|
                0 <= m < edits@.len() ==> edit_for(t, doc, imp, mp, local_changes(acts, doc, i as nat)[m], #[trigger] edits@[m]),
            remaining == exists|a: int|
                0 <= a < i && ((#[trigger] acts[a]).commands is Some || exists|j: int|
                    0 <= j < acts[a].changes@.len() && !change_here(#[trigger] acts[a].changes@[j], doc)),
            forall|a: int, j: int|
                0 <= a < i && 0 <= j < acts[a].changes@.len() ==> change_resolves(#[trigger] acts[a].changes@[j])
                    && (change_here(acts[a].changes@[j], doc) ==> forall|k: int|
                    0 <= k < acts[a].changes@[j].text_changes@.len() ==> !no_range(
                        t,
                        #[trigger] acts[a].changes@[j].text_changes@[k].span,
                    )),
    {
        let action = &code_actions[i];
        let mut here_remaining = action.commands.is_some();
        assert(action_local_changes(acts[i as int], doc, 0) =~= Seq::<crate::responses::TextChange>::empty());
        assert(local_changes(acts, doc, i as nat) + action_local_changes(acts[i as int], doc, 0) =~= local_changes(acts, doc, i as nat));
        for j in 0..action.changes.len()
            invariant
                maybe_code_actions == Some(code_actions),
                i < acts.len(),
                acts == code_actions@,
                doc == data.specifier@,
                t == line_index@,
                line_index@.len() <= MAX_TEXT_CHARS,
                *action == acts[i as int],
                imp == match import_data { Some(d) => Some((d.module_specifier@, d.file_name@)), None => None },
                mp == match mapped { Some(m) => Some(m@), None => None },
                edits@.len() == (local_changes(acts, doc, i as nat) + action_local_changes(acts[i as int], doc, j as nat)).len(),
                forall|m: int|
                    0 <= m < edits@.len() ==> edit_for(
                        t,
                        doc,
                        imp,
                        mp,
                        (local_changes(acts, doc, i as nat) + action_local_changes(acts[i as int], doc, j as nat))[m],
                        #[trigger] edits@[m],
                    ),
                here_remaining == ((acts[i as int].commands is Some) || exists|b: int|
                    0 <= b < j && !change_here(#[trigger] acts[i as int].changes@[b], doc)),
                forall|b: int|
                    0 <= b < j ==> change_resolves(#[trigger] acts[i as int].changes@[b]) && (change_here(
                        acts[i as int].changes@[b],
                        doc,
                    ) ==> forall|k: int|
                        0 <= k < acts[i as int].changes@[b].text_changes@.len() ==> !no_range(
                            t,
                            #[trigger] acts[i as int].changes@[b].text_changes@[k].span,
                        )),
        {
            let change = &action.changes[j];
            let change_specifier = match normalize_specifier(change.file_name.as_str()) {
                Ok(s) => s,
                Err(_) => {
                    assert(!change_resolves(acts[i as int].changes@[j as int]));
                    assert(!actions_resolve(acts, doc, t));
                    return Err(BridgeError::UnknownSpecifier);
                },
            };
            let ghost pre_j = local_changes(acts, doc, i as nat) + action_local_changes(acts[i as int], doc, j as nat);
            assert(action_local_changes(acts[i as int], doc, (j + 1) as nat) == action_local_changes(acts[i as int], doc, j as nat)
                + if change_here(acts[i as int].changes@[j as int], doc) {
                acts[i as int].changes@[j as int].text_changes@
            } else {
                Seq::empty()
            });
            if str_eq(change_specifier.as_str(), data.specifier.as_str()) {
                assert(change.text_changes@.take(0) =~= Seq::<crate::responses::TextChange>::empty());
                assert(pre_j + change.text_changes@.take(0) =~= pre_j);
                for k in 0..change.text_changes.len()
                    invariant
                        maybe_code_actions == Some(code_actions),
                        acts == code_actions@,
                        doc == data.specifier@,
                        i < acts.len(),
                        j < acts[i as int].changes@.len(),
                        *change == acts[i as int].changes@[j as int],
                        change_here(acts[i as int].changes@[j as int], doc),
                        t == line_index@,
                        imp == match import_data { Some(d) => Some((d.module_specifier@, d.file_name@)), None => None },
                        mp == match mapped { Some(m) => Some(m@), None => None },
                        edits@.len() == (local_changes(acts, doc, i as nat) + action_local_changes(acts[i as int], doc, j as nat)
                            + change.text_changes@.take(k as int)).len(),
                        forall|m: int|
                            0 <= m < edits@.len() ==> edit_for(
                                t,
                                doc,
                                imp,
                                mp,
                                (local_changes(acts, doc, i as nat) + action_local_changes(acts[i as int], doc, j as nat)
                                    + change.text_changes@.take(k as int))[m],
                                #[trigger] edits@[m],
                            ),
                        line_index@.len() <= MAX_TEXT_CHARS,
                        forall|m: int| 0 <= m < k ==> !no_range(t, #[trigger] change.text_changes@[m].span),
                {
                    match change.text_changes[k].as_text_edit(line_index) {
                        Some(e) => {
                            let ghost before = edits@;
                            let ghost pre = local_changes(acts, doc, i as nat) + action_local_changes(acts[i as int], doc, j as nat);
                            let u = update_import_statement(e, &data.specifier, import_data, mapped);
                            edits.push(u);
                            assert(pre + change.text_changes@.take(k + 1) =~= (pre + change.text_changes@.take(k as int)).push(change.text_changes@[k as int]));
                            assert forall|m: int| 0 <= m < edits@.len() implies edit_for(
                                t,
                                doc,
                                imp,
                                mp,
                                (pre + change.text_changes@.take(k + 1))[m],
                                #[trigger] edits@[m],
                            ) by {
                                if m < before.len() {
                                    assert(edits@[m] == before[m]);
                                }
                            }
                        },
                        None => {
                            assert(no_range(t, acts[i as int].changes@[j as int].text_changes@[k as int].span));
                            assert(!actions_resolve(acts, doc, t));
                            return Err(BridgeError::InvariantViolation);
                        },
                    }
                }
                assert(change.text_changes@.take(change.text_changes@.len() as int) =~= change.text_changes@);
                assert(local_changes(acts, doc, i as nat) + action_local_changes(acts[i as int], doc, (j + 1) as nat)
                    =~= pre_j + change.text_changes@);
            } else {
                here_remaining = true;
                assert(local_changes(acts, doc, i as nat) + action_local_changes(acts[i as int], doc, (j + 1) as nat)
                    =~= pre_j);
            }
        }
        assert(local_changes(acts, doc, (i + 1) as nat) =~= local_changes(acts, doc, i as nat) + action_local_changes(
            acts[i as int],
            doc,
            acts[i as int].changes@.len(),
        ));
        remaining = remaining || here_remaining;
    }
    if edits.len() == 0 {
        assert(edits@ =~= Seq::<TextEdit>::empty());
        Ok((remaining, None))
    } else {
        Ok((remaining, Some(edits)))
    }
}

/// The details of a completion entry, as the analyzer reports them.
#[derive(Clone, Debug)]
pub struct CompletionEntryDetails {
    pub display_parts: Vec<SymbolDisplayPart>,
    pub documentation: Option<Vec<SymbolDisplayPart>>,
    pub tags: Option<Vec<JsDocTagInfo>>,
    pub name: String,
    pub kind: ScriptElementKind,
    pub kind_modifiers: String,
    pub code_actions: Option<Vec<CodeAction>>,
    pub source_display: Option<Vec<SymbolDisplayPart>>,
}

/// What resolving a completion item adds to it.
#[derive(Clone, Debug)]
pub struct CompletionDetails {
    pub detail: Option<String>,
    pub documentation: Option<String>,
    pub additional_text_edits: Option<Vec<TextEdit>>,
    pub needs_command: bool,
}

/// The markdown documentation of completion details.
pub open spec fn details_documentation(d: &CompletionEntryDetails) -> Option<Seq<char>> {
    match d.documentation {
        Some(parts) => Some(match d.tags {
            Some(tags) => display_string(parts@) + "\n\n"@ + joined(
                Seq::new(tags@.len(), |i: int| tag_documentation(&tags@[i])),
                ""@,
            ),
            None => display_string(parts@),
        }),
        None => None,
    }
}

impl CompletionEntryDetails {
    /// What resolving an item adds: the item's detail where it had one, else
    /// the rendered display parts; the documentation with the tags'; and the
    /// edits of the code actions in the item's document.
    pub fn as_completion_item(
        &self,
        original_detail: Option<&str>,
        data: &CompletionItemData,
        line_index: &LineIndex,
        import_data: Option<&CompletionEntryDataImport>,
        mapped: Option<&str>,
    ) -> (r: Result<CompletionDetails, BridgeError>)
        requires
            line_index@.len() <= MAX_TEXT_CHARS,
        ensures
            r is Ok ==> opt_str(r->Ok_0.detail) == match original_detail {
                Some(d) => Some(d@),
                None => if self.display_parts@.len() > 0 {
                    Some(links_replaced(display_string(self.display_parts@)))
                } else {
                    None
                },
            },
            r is Ok ==> opt_str(r->Ok_0.documentation) == details_documentation(self),
            self.code_actions is None ==> r is Ok && r->Ok_0.additional_text_edits is None && !r->Ok_0.needs_command,
            self.code_actions is Some ==> (r is Ok <==> actions_resolve(self.code_actions->0@, data.specifier@, line_index@)),
            self.code_actions is Some && r is Ok ==> r->Ok_0.needs_command == needs_command(
                self.code_actions->0@,
                data.specifier@,
            ),
            self.code_actions is Some && r is Ok ==> edits_for_actions(
                self.code_actions->0@,
                data.specifier@,
                line_index@,
                match import_data { Some(d) => Some((d.module_specifier@, d.file_name@)), None => None },
                match mapped { Some(m) => Some(m@), None => None },
                r->Ok_0.additional_text_edits,
            ),
    {
        let detail = match original_detail {
            Some(d) => Some(d.to_owned()),
            None => if self.display_parts.len() > 0 {
                let text = display_parts_to_string(&self.display_parts);
                Some(replace_links(text.as_str()))
            } else {
                None
            },
        };
        let documentation = match &self.documentation {
            Some(parts) => {
                let value = display_parts_to_string(parts);
                match &self.tags {
                    Some(tags) => {
                        let mut docs: Vec<String> = Vec::new();
                        for i in 0..tags.len()
                            invariant
                                docs@.len() == i,
                                forall|k: int| 0 <= k < i ==> (#[trigger] docs@[k])@ == tag_documentation(&tags@[k]),
                        {
                            docs.push(get_tag_documentation(&tags[i]));
                        }
                        assert(docs@.map_values(|s: String| s@) =~= Seq::new(
                            tags@.len(),
                            |i: int| tag_documentation(&tags@[i]),
                        ));
                        let joined_docs = join(&docs, "");
                        let a = concat(value.as_str(), "\n\n");
                        Some(concat(a.as_str(), joined_docs.as_str()))
                    },
                    None => Some(value),
                }
            },
            None => None,
        };
        let actions = match &self.code_actions {
            Some(a) => Some(a),
            None => None,
        };
        match parse_code_actions(actions, data, line_index, import_data, mapped) {
            Ok((needs_command, additional_text_edits)) => {
                assert(self.code_actions is Some ==> actions == Some(&self.code_actions->0));
                Ok(CompletionDetails {
                detail,
                documentation,
                additional_text_edits,
                needs_command,
            })
            },
            Err(e) => Err(e),
        }
    }
}

} // verus!
