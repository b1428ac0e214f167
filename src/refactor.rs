//! Refactor actions offered by the analyzer.
use vstd::prelude::*;
use crate::patterns::{capture, first_groups};
use crate::strings::{starts_with, str_eq, has_prefix, chars_of};
use crate::line_index::Range;
use crate::specifier::ModuleSpecifier;
use crate::completion::{clone_opt, opt_str};

verus! {

/// The scope number in the name of an extract-constant action.
pub const SCOPE_PATTERN: &'static str = "scope_(\\d)";

/// Whether an action name extracts a constant.
pub open spec fn is_extract_constant(name: Seq<char>) -> bool {
    has_prefix(name, "constant_"@)
}

/// Whether an action name extracts a type alias or an interface.
pub open spec fn is_extract_type(name: Seq<char>) -> bool {
    has_prefix(name, "Extract to type alias"@) || has_prefix(name, "Extract to interface"@)
}

/// The value of a text of ASCII digits, read as a decimal number.
pub open spec fn digits_value(s: Seq<char>) -> nat
    decreases s.len(),
{
    if s.len() == 0 {
        0
    } else {
        digits_value(s.drop_last()) * 10 + (s.last() as u32 - '0' as u32) as nat
    }
}

/// Whether a text is made of ASCII digits only.
pub open spec fn all_digits(s: Seq<char>) -> bool {
    forall|i: int| 0 <= i < s.len() ==> '0' <= #[trigger] s[i] <= '9'
}

/// What parsing a text as a `u32` gives: an optional `+` and then at least
/// one ASCII digit, with a value that fits.
pub open spec fn parsed_u32(s: Seq<char>) -> Option<u32> {
    let t = if has_prefix(s, "+"@) { s.skip(1) } else { s };
    if t.len() > 0 && all_digits(t) && digits_value(t) <= u32::MAX {
        Some(digits_value(t) as u32)
    } else {
        None
    }
}

/// Parses a decimal `u32` the way `str::parse` does.
pub fn parse_u32(s: &str) -> (r: Option<u32>)
    ensures
        r == parsed_u32(s@),
{
    let v = chars_of(s);
    let plus = starts_with(s, "+");
    let start: usize = if plus { 1 } else { 0 };
    proof {
        reveal_strlit("+");
    }
    let ghost t = if has_prefix(s@, "+"@) { s@.skip(1) } else { s@ };
    assert(t =~= v@.skip(start as int));
    if start >= v.len() {
        return None;
    }
    let mut value: u64 = 0;
    let mut i = start;
    while i < v.len()
        invariant
            start <= i <= v@.len(),
            v@ == s@,
            t == (if has_prefix(s@, "+"@) { s@.skip(1) } else { s@ }),
            t =~= v@.skip(start as int),
            all_digits(v@.subrange(start as int, i as int)),
            value == digits_value(v@.subrange(start as int, i as int)),
            value <= u32::MAX,
        decreases v@.len() - i,
    {
        let c = v[i];
        if c < '0' || c > '9' {
            assert(t[i - start] == c);
            assert(!all_digits(t));
            return None;
        }
        let d = (c as u32 - '0' as u32) as u64;
        assert(v@.subrange(start as int, i + 1).drop_last() =~= v@.subrange(start as int, i as int));
        let next = value * 10 + d;
        if next > u32::MAX as u64 {
            proof {
                if all_digits(t) {
                    lemma_digits_grow(t, (i + 1 - start) as nat);
                    assert(t.take((i + 1 - start) as int) =~= v@.subrange(start as int, i + 1));
                }
            }
            return None;
        }
        value = next;
        i = i + 1;
    }
    assert(v@.subrange(start as int, v@.len() as int) =~= t);
    Some(value as u32)
}

/// A longer run of digits never has a smaller value.
proof fn lemma_digits_grow(t: Seq<char>, k: nat)
    requires
        k <= t.len(),
        all_digits(t),
    ensures
        digits_value(t.take(k as int)) <= digits_value(t),
    decreases t.len() - k,
{
    if k < t.len() {
        lemma_digits_grow(t, k + 1);
        assert(t.take(k + 1 as int).drop_last() =~= t.take(k as int));
    } else {
        assert(t.take(k as int) =~= t);
    }
}

/// The scope number of an action name, where it has one.
pub open spec fn scope_of(name: Seq<char>) -> Option<u32> {
    match first_groups(SCOPE_PATTERN@, name) {
        Some(g) => if g.len() > 1 && g[1] is Some {
            parsed_u32(g[1]->0)
        } else {
            None
        },
        None => None,
    }
}

/// One refactor action, as the analyzer reports it.
#[derive(Clone, Debug)]
pub struct RefactorActionInfo {
    pub name: String,
    pub description: String,
    pub not_applicable_reason: Option<String>,
    pub kind: Option<String>,
}

/// Whether an action is the preferred one among `all`.
pub open spec fn preferred(a: &RefactorActionInfo, all: Seq<RefactorActionInfo>) -> bool {
    if is_extract_constant(a.name@) {
        match scope_of(a.name@) {
            Some(scope) => forall|i: int|
                0 <= i < all.len() && is_extract_constant(#[trigger] all[i].name@) && all[i].name@ != a.name@
                    && scope_of(all[i].name@) is Some ==> scope < scope_of(all[i].name@)->0,
            None => false,
        }
    } else {
        is_extract_type(a.name@)
    }
}

fn get_scope(name: &str) -> (r: Option<u32>)
    ensures
        r == scope_of(name@),
{
    match capture(SCOPE_PATTERN, name, 1) {
        Some(digits) => parse_u32(digits.as_str()),
        None => None,
    }
}

impl RefactorActionInfo {
    /// Whether this action is preferred: an extract-constant action whose
    /// scope is smaller than that of every other extract-constant action,
    /// or any extract-type or extract-interface action.
    pub fn is_preferred(&self, all_actions: &[RefactorActionInfo]) -> (r: bool)
        ensures
            r == preferred(self, all_actions@),
    {
        if starts_with(self.name.as_str(), "constant_") {
            return match get_scope(self.name.as_str()) {
                Some(scope) => {
                    let mut i: usize = 0;
                    while i < all_actions.len()
                        invariant
                            i <= all_actions@.len(),
                            is_extract_constant(self.name@),
                            scope_of(self.name@) == Some(scope),
                            forall|j: int|
                                0 <= j < i && is_extract_constant(#[trigger] all_actions@[j].name@)
                                    && all_actions@[j].name@ != self.name@ && scope_of(all_actions@[j].name@) is Some
                                    ==> scope < scope_of(all_actions@[j].name@)->0,
                        decreases all_actions@.len() - i,
                    {
                        let other = &all_actions[i];
                        if starts_with(other.name.as_str(), "constant_") && !str_eq(
                            other.name.as_str(),
                            self.name.as_str(),
                        ) {
                            if let Some(other_scope) = get_scope(other.name.as_str()) {
                                if scope >= other_scope {
                                    return false;
                                }
                            }
                        }
                        i = i + 1;
                    }
                    true
                },
                None => false,
            };
        }
        starts_with(self.name.as_str(), "Extract to type alias") || starts_with(
            self.name.as_str(),
            "Extract to interface",
        )
    }
}

/// The known refactor kinds, each with a prefix of the action names it
/// covers, in the order they are tried.
pub open spec fn known_refactor_kinds() -> Seq<(Seq<char>, Seq<char>)> {
    seq![
        ("function_"@, "refactor.extract.function"@),
        ("constant_"@, "refactor.extract.constant"@),
        ("Extract to type alias"@, "refactor.extract.type"@),
        ("Extract to interface"@, "refactor.extract.interface"@),
        ("Move to a new file"@, "refactor.move.newFile"@),
        ("Convert namespace import"@, "refactor.rewrite.import"@),
        ("Convert named imports"@, "refactor.rewrite.import"@),
        ("Convert default export"@, "refactor.rewrite.export"@),
        ("Convert named export"@, "refactor.rewrite.export"@),
        ("Add or remove braces in an arrow function"@, "refactor.rewrite.arrow.braces"@),
        ("Convert parameters to destructured object"@, "refactor.rewrite.parameters.toDestructured"@),
        ("Generate 'get' and 'set' accessors"@, "refactor.rewrite.property.generateAccessors"@),
    ]
}

/// The kind of the first known refactor, from index `i` on, whose prefix
/// starts `name`.
pub open spec fn known_kind_from(name: Seq<char>, i: nat) -> Option<Seq<char>>
    decreases 12 - i,
{
    if i >= 12 {
        None
    } else if has_prefix(name, known_refactor_kinds()[i as int].0) {
        Some(known_refactor_kinds()[i as int].1)
    } else {
        known_kind_from(name, i + 1)
    }
}

/// The code action kind of an action: its own, else that of the known
/// refactor its name belongs to, else plain `refactor`.
pub open spec fn action_kind(a: &RefactorActionInfo) -> Seq<char> {
    match a.kind {
        Some(k) => k@,
        None => match known_kind_from(a.name@, 0) {
            Some(k) => k,
            None => "refactor"@,
        },
    }
}

/// What a refactor code action carries for resolving its edits later.
#[derive(Clone, Debug)]
pub struct RefactorCodeActionData {
    pub specifier: ModuleSpecifier,
    pub range: Range,
    pub refactor_name: String,
    pub action_name: String,
}

/// A code action as the editor shows it.
#[derive(Clone, Debug)]
pub struct EditorCodeAction {
    pub title: String,
    pub kind: String,
    pub is_preferred: bool,
    pub disabled: Option<String>,
    pub data: RefactorCodeActionData,
}

impl RefactorActionInfo {
    /// The code action kind of this action.
    pub fn get_action_kind(&self) -> (r: String)
        ensures
            r@ == action_kind(self),
    {
        if let Some(kind) = &self.kind {
            return kind.clone();
        }
        let table: Vec<(&'static str, &'static str)> = vec![
            ("function_", "refactor.extract.function"),
            ("constant_", "refactor.extract.constant"),
            ("Extract to type alias", "refactor.extract.type"),
            ("Extract to interface", "refactor.extract.interface"),
            ("Move to a new file", "refactor.move.newFile"),
            ("Convert namespace import", "refactor.rewrite.import"),
            ("Convert named imports", "refactor.rewrite.import"),
            ("Convert default export", "refactor.rewrite.export"),
            ("Convert named export", "refactor.rewrite.export"),
            ("Add or remove braces in an arrow function", "refactor.rewrite.arrow.braces"),
            ("Convert parameters to destructured object", "refactor.rewrite.parameters.toDestructured"),
            ("Generate 'get' and 'set' accessors", "refactor.rewrite.property.generateAccessors"),
        ];
        assert(table@.map_values(|e: (&str, &str)| (e.0@, e.1@)) =~= known_refactor_kinds());
        let mut i: usize = 0;
        while i < table.len()
            invariant
                table@.len() == 12,
                table@.map_values(|e: (&str, &str)| (e.0@, e.1@)) == known_refactor_kinds(),
                i <= 12,
                self.kind is None,
                known_kind_from(self.name@, 0) == known_kind_from(self.name@, i as nat),
            decreases 12 - i,
        {
            let (prefix, kind) = table[i];
            assert(prefix@ == known_refactor_kinds()[i as int].0);
            assert(kind@ == known_refactor_kinds()[i as int].1);
            if starts_with(self.name.as_str(), prefix) {
                return kind.to_owned();
            }
            i = i + 1;
        }
        "refactor".to_owned()
    }
}

/// The refactors applicable at a range, as the analyzer reports them.
#[derive(Clone, Debug)]
pub struct ApplicableRefactorInfo {
    pub name: String,
    pub actions: Vec<RefactorActionInfo>,
}

impl ApplicableRefactorInfo {
    /// One code action per action of this refactor, in order.
    pub fn to_code_actions(&self, specifier: &ModuleSpecifier, range: &Range) -> (r: Vec<EditorCodeAction>)
        ensures
            r@.len() == self.actions@.len(),
            forall|i: int|
                0 <= i < r@.len() ==> code_action_for(
                    &self.actions@[i],
                    self.actions@,
                    self.name@,
                    specifier@,
                    *range,
                    #[trigger] r@[i],
                ),
    {
        let mut out: Vec<EditorCodeAction> = Vec::new();
        for i in 0..self.actions.len()
            invariant
                out@.len() == i,
                forall|k: int|
                    0 <= k < i ==> code_action_for(
                        &self.actions@[k],
                        self.actions@,
                        self.name@,
                        specifier@,
                        *range,
                        #[trigger] out@[k],
                    ),
        {
            out.push(self.as_inline_code_action(&self.actions[i], specifier, range, self.name.as_str()));
        }
        out
    }

    fn as_inline_code_action(
        &self,
        action: &RefactorActionInfo,
        specifier: &ModuleSpecifier,
        range: &Range,
        refactor_name: &str,
    ) -> (r: EditorCodeAction)
        ensures
            code_action_for(action, self.actions@, refactor_name@, specifier@, *range, r),
    {
        EditorCodeAction {
            title: action.description.clone(),
            kind: action.get_action_kind(),
            is_preferred: action.is_preferred(self.actions.as_slice()),
            disabled: clone_opt(&action.not_applicable_reason),
            data: RefactorCodeActionData {
                specifier: ModuleSpecifier { href: specifier.href.clone() },
                range: *range,
                refactor_name: refactor_name.to_owned(),
                action_name: action.name.clone(),
            },
        }
    }
}

/// Whether `c` is the code action for `a` among `all` of the refactor named
/// `refactor_name`, at `range` of the document `specifier`.
pub open spec fn code_action_for(
    a: &RefactorActionInfo,
    all: Seq<RefactorActionInfo>,
    refactor_name: Seq<char>,
    specifier: Seq<char>,
    range: Range,
    c: EditorCodeAction,
) -> bool {
    &&& c.title@ == a.description@
    &&& c.kind@ == action_kind(a)
    &&& c.is_preferred == preferred(a, all)
    &&& opt_str(c.disabled) == opt_str(a.not_applicable_reason)
    &&& c.data.specifier@ == specifier
    &&& c.data.range == range
    &&& c.data.refactor_name@ == refactor_name
    &&& c.data.action_name@ == a.name@
}

} // verus!
