//! Rendering of the analyzer's documentation into markdown.
use vstd::prelude::*;
use crate::patterns::{first_match, is_match, split, regex_first_match, regex_split, hit_groups, HitView};
use crate::strings::{str_eq, concat, contains_char, replace_all, replaced, chars_of, find_char, index_of, decimal, decimal_of};
use crate::line_index::{LineIndex, MAX_TEXT_CHARS, position_result};
use crate::line_index::TextSpan;
use crate::completion::clone_opt;

verus! {

/// A fence at the start of a text: three backticks or tildes after blanks.
pub const CODEBLOCK_PATTERN: &'static str = "^\\s*[~`]{3}";

/// A JSDoc link to a web address, with an optional link text.
pub const JSDOC_LINKS_PATTERN: &'static str = "(?i)\\{@(link|linkplain|linkcode) (https?://[^ |}]+?)(?:[| ]([^{}\\n]+?))?\\}";

/// A web address at the start of a text.
pub const HTTP_PATTERN: &'static str = "(?i)^https?:";

/// A caption of an example.
pub const CAPTION_PATTERN: &'static str = "<caption>(.*?)</caption>\\s*\\r?\\n((?:\\s|\\S)*)";

/// A name followed by an e-mail address in angle brackets.
pub const EMAIL_MATCH_PATTERN: &'static str = "(.+)\\s<([-.\\w]+@[-.\\w]+)>";

/// The name of a documented parameter and the dash after it.
pub const PART_PATTERN: &'static str = "^(\\S+)\\s*-?\\s*";

/// What `str::trim` gives: the text without leading and trailing white space.
pub uninterp spec fn trimmed(s: Seq<char>) -> Seq<char>;

/// Relies on `str::trim`: the text without leading and trailing white space.
#[verifier::external_body]
fn trim(s: &str) -> (r: String)
    ensures
        r@ == trimmed(s@),
{
    s.trim().to_string()
}

/// `text` fenced as a code block unless it starts with a fence already.
pub open spec fn codeblock_of(text: Seq<char>) -> Seq<char> {
    if regex_first_match(CODEBLOCK_PATTERN@, text) is Some {
        text
    } else {
        "```\n"@ + text + "\n```"@
    }
}

/// Fences `text` as a code block unless it starts with a fence already.
pub fn make_codeblock(text: &str) -> (r: String)
    ensures
        r@ == codeblock_of(text@),
{
    if is_match(CODEBLOCK_PATTERN, text) {
        text.to_owned()
    } else {
        let a = concat("```\n", text);
        concat(a.as_str(), "\n```")
    }
}

/// The markdown for a link of kind `kind` (`link`, `linkplain` or
/// `linkcode`) to `target`, shown as the trimmed `text` or else as the target.
pub open spec fn link_markdown(kind: Seq<char>, target: Seq<char>, text: Option<Seq<char>>) -> Seq<char> {
    let label = match text {
        Some(t) => trimmed(t),
        None => target,
    };
    if kind == "linkcode"@ {
        "[`"@ + label + "`]("@ + target + ")"@
    } else {
        "["@ + label + "]("@ + target + ")"@
    }
}

/// The replacement of one JSDoc link match.
pub open spec fn hit_markdown(h: HitView) -> Seq<char> {
    let g = hit_groups(h);
    if g.len() >= 3 && g[1] is Some && g[2] is Some {
        link_markdown(g[1]->0, g[2]->0, if g.len() >= 4 { g[3] } else { None })
    } else {
        h.1
    }
}

/// `text` with each JSDoc link to a web address, found leftmost first in
/// what follows the previous one, replaced by a markdown link.
pub open spec fn links_replaced(text: Seq<char>) -> Seq<char>
    decreases text.len(),
{
    match regex_first_match(JSDOC_LINKS_PATTERN@, text) {
        None => text,
        Some(h) => if h.3.len() < text.len() {
            h.0 + hit_markdown(h) + links_replaced(h.3)
        } else {
            h.0 + hit_markdown(h) + h.3
        },
    }
}

/// The markdown for a link of kind `kind` to `target`, shown as the trimmed
/// `text` or else as the target.
pub fn render_link(kind: &str, target: &str, text: Option<&str>) -> (r: String)
    ensures
        r@ == link_markdown(kind@, target@, match text { Some(t) => Some(t@), None => None }),
{
    let label = match text {
        Some(t) => trim(t),
        None => target.to_owned(),
    };
    let (open, close) = if str_eq(kind, "linkcode") {
        ("[`", "`](")
    } else {
        ("[", "](")
    };
    let a = concat(open, label.as_str());
    let b = concat(a.as_str(), close);
    let c = concat(b.as_str(), target);
    concat(c.as_str(), ")")
}

/// Replaces JSDoc links to web addresses (`{@link https://x text}`) with
/// markdown links.
pub fn replace_links(text: &str) -> (r: String)
    ensures
        r@ == links_replaced(text@),
{
    let mut out = String::new();
    let mut rest = text.to_owned();
    loop
        invariant
            out@ + links_replaced(rest@) == links_replaced(text@),
        decreases rest@.len(),
    {
        match first_match(JSDOC_LINKS_PATTERN, rest.as_str()) {
            None => {
                let done = concat(out.as_str(), rest.as_str());
                return done;
            },
            Some(hit) => {
                let md = if hit.groups.len() >= 3 && hit.groups[1].is_some() && hit.groups[2].is_some() {
                    let kind = hit.groups[1].as_ref().unwrap();
                    let target = hit.groups[2].as_ref().unwrap();
                    let label: Option<&str> = if hit.groups.len() >= 4 {
                        match &hit.groups[3] {
                            Some(t) => Some(t.as_str()),
                            None => None,
                        }
                    } else {
                        None
                    };
                    render_link(kind.as_str(), target.as_str(), label)
                } else {
                    hit.whole.clone()
                };
                assert(md@ == hit_markdown(hit@));
                let a = concat(out.as_str(), hit.before.as_str());
                let b = concat(a.as_str(), md.as_str());
                if chars_of(hit.after.as_str()).len() < chars_of(rest.as_str()).len() {
                    out = b;
                    rest = hit.after;
                } else {
                    let done = concat(b.as_str(), hit.after.as_str());
                    return done;
                }
            },
        }
    }
}

/// A location in a file, as the analyzer reports it.
#[derive(Clone, Debug)]
pub struct DocumentSpan {
    pub text_span: TextSpan,
    pub file_name: String,
    pub original_text_span: Option<TextSpan>,
    pub context_span: Option<TextSpan>,
    pub original_context_span: Option<TextSpan>,
}

impl DocumentSpan {
    /// The link target for this span inside the document at `uri`: the URI
    /// with a `L<line>,<column>` fragment, both counted from one; nothing
    /// where the span does not start at a character boundary of the text.
    pub fn to_target(&self, uri: &str, line_index: &LineIndex) -> (r: Option<String>)
        requires
            line_index@.len() <= MAX_TEXT_CHARS,
        ensures
            r is Some <==> exists|q: (nat, nat)|
                position_result(line_index@, self.text_span.start as nat, Some(q)),
            r is Some ==> exists|q: (nat, nat)|
                position_result(line_index@, self.text_span.start as nat, Some(q)) && r->0@ == uri@
                    + "#L"@ + decimal_of(q.0 + 1) + ","@ + decimal_of(q.1 + 1),
    {
        match line_index.position_of(self.text_span.start) {
            None => None,
            Some(p) => {
                let a = concat(uri, "#L");
                let b = concat(a.as_str(), decimal(p.line as u64 + 1).as_str());
                let c = concat(b.as_str(), ",");
                Some(concat(c.as_str(), decimal(p.character as u64 + 1).as_str()))
            },
        }
    }
}

/// A piece of display text, as the analyzer reports it. Where the part
/// names a symbol (`target`), `resolved_target` is the link to it, when the
/// document it lies in is known (see `DocumentSpan::to_target`).
#[derive(Clone, Debug)]
pub struct SymbolDisplayPart {
    pub text: String,
    pub kind: String,
    pub target: Option<DocumentSpan>,
    pub resolved_target: Option<String>,
}

/// A JSDoc tag, as the analyzer reports it.
#[derive(Clone, Debug)]
pub struct JsDocTagInfo {
    pub name: String,
    pub text: Option<Vec<SymbolDisplayPart>>,
}

/// A link being read from display parts: whether it is a `linkcode`, its
/// name, and, where it names a symbol, the resolved target.
pub type OpenLink = (bool, Option<Seq<char>>, Option<Option<Seq<char>>>);

/// `s` with its backticks escaped.
pub open spec fn escaped(s: Seq<char>) -> Seq<char> {
    replaced(s, "`"@, "\\`"@)
}

/// A markdown link showing `label`, in code style for a `linkcode`.
pub open spec fn markdown_link(code: bool, label: Seq<char>, url: Seq<char>) -> Seq<char> {
    if code {
        "[`"@ + label + "`]("@ + url + ")"@
    } else {
        "["@ + label + "]("@ + url + ")"@
    }
}

/// The text a closed link contributes.
pub open spec fn closed_link(l: OpenLink) -> Seq<char> {
    match l.2 {
        Some(resolved) => match resolved {
            Some(url) => markdown_link(
                l.0,
                match l.1 {
                    Some(n) => escaped(n),
                    None => ""@,
                },
                url,
            ),
            None => ""@,
        },
        None => match l.1 {
            Some(text) => if regex_first_match(HTTP_PATTERN@, text) is Some {
                match index_of(text, ' ') {
                    None => text,
                    Some(k) => markdown_link(l.0, escaped(text.skip(k + 1 as int)), text.take(k as int)),
                }
            } else {
                escaped(text)
            },
            None => ""@,
        },
    }
}

/// The resolved target of a part.
pub open spec fn resolved_of(part: SymbolDisplayPart) -> Option<Seq<char>> {
    match part.resolved_target {
        Some(t) => Some(t@),
        None => None,
    }
}

/// The text and the open link after reading the first `n` parts.
pub open spec fn render_parts(parts: Seq<SymbolDisplayPart>, n: nat) -> (Seq<char>, Option<OpenLink>)
    decreases n,
{
    if n == 0 || n > parts.len() {
        (Seq::empty(), None)
    } else {
        let (out, link) = render_parts(parts, (n - 1) as nat);
        let part = parts[n - 1];
        if part.kind@ == "link"@ {
            match link {
                Some(l) => (out + closed_link(l), None),
                None => (out, Some((part.text@ == "{@linkcode "@, None, None))),
            }
        } else if part.kind@ == "linkName"@ {
            match link {
                Some(l) => (out, Some((l.0, Some(part.text@), if part.target is Some {
                    Some(resolved_of(part))
                } else {
                    None
                }))),
                None => (out, None),
            }
        } else if part.kind@ == "linkText"@ {
            match link {
                Some(l) => (out, Some((l.0, Some(part.text@), l.2))),
                None => (out, None),
            }
        } else {
            (out + part.text@, link)
        }
    }
}

/// The markdown for display parts.
pub open spec fn display_string(parts: Seq<SymbolDisplayPart>) -> Seq<char> {
    links_replaced(render_parts(parts, parts.len()).0)
}

fn escape_backticks(s: &str) -> (r: String)
    ensures
        r@ == escaped(s@),
{
    proof {
        reveal_strlit("`");
    }
    replace_all(s, "`", "\\`")
}

fn render_closed_link(code: bool, name: &Option<String>, resolved: &Option<Option<String>>) -> (r: String)
    ensures
        r@ == closed_link((code, match name { Some(n) => Some(n@), None => None }, match resolved {
            Some(t) => Some(match t { Some(u) => Some(u@), None => None }),
            None => None,
        })),
{
    proof {
        reveal_strlit("");
    }
    let (open, close) = if code {
        ("[`", "`](")
    } else {
        ("[", "](")
    };
    match resolved {
        Some(res) => match res {
            Some(url) => {
                let label = match name {
                    Some(n) => escape_backticks(n.as_str()),
                    None => String::new(),
                };
                let a = concat(open, label.as_str());
                let b = concat(a.as_str(), close);
                let c = concat(b.as_str(), url.as_str());
                concat(c.as_str(), ")")
            },
            None => String::new(),
        },
        None => match name {
            Some(text) => {
                if is_match(HTTP_PATTERN, text.as_str()) {
                    match find_char(text.as_str(), ' ') {
                        None => text.clone(),
                        Some(k) => {
                            let tv = chars_of(text.as_str());
                            proof {
                                lemma_index_of_bound(text@, ' ');
                            }
                            assert(k < tv.len());
                            let url = crate::strings::string_of(&slice_chars(&tv, 0, k));
                            let rest = crate::strings::string_of(&slice_chars(&tv, k + 1, tv.len()));
                            assert(url@ =~= text@.take(k as int));
                            assert(rest@ =~= text@.skip(k + 1 as int));
                            let label = escape_backticks(rest.as_str());
                            let a = concat(open, label.as_str());
                            let b = concat(a.as_str(), close);
                            let c = concat(b.as_str(), url.as_str());
                            concat(c.as_str(), ")")
                        },
                    }
                } else {
                    escape_backticks(text.as_str())
                }
            },
            None => String::new(),
        },
    }
}

proof fn lemma_index_of_bound(s: Seq<char>, c: char)
    ensures
        index_of(s, c) is Some ==> index_of(s, c)->0 < s.len(),
    decreases s.len(),
{
    if s.len() > 0 && s[0] != c {
        lemma_index_of_bound(s.skip(1), c);
    }
}

/// The characters of `v` from `lo` up to `hi`.
pub fn slice_chars(v: &Vec<char>, lo: usize, hi: usize) -> (r: Vec<char>)
    requires
        lo <= hi <= v@.len(),
    ensures
        r@ == v@.subrange(lo as int, hi as int),
{
    let mut out: Vec<char> = Vec::new();
    let mut i = lo;
    while i < hi
        invariant
            lo <= i <= hi <= v@.len(),
            out@ == v@.subrange(lo as int, i as int),
        decreases hi - i,
    {
        out.push(v[i]);
        i = i + 1;
    }
    out
}

/// Turns display parts into markdown: JSDoc links read from `link`,
/// `linkName` and `linkText` parts become markdown links, and links to web
/// addresses inside the text are rewritten.
pub fn display_parts_to_string(parts: &Vec<SymbolDisplayPart>) -> (r: String)
    ensures
        r@ == display_string(parts@),
{
    let mut out = String::new();
    let mut link: Option<(bool, Option<String>, Option<Option<String>>)> = None;
    proof {
        reveal_strlit("link");
        reveal_strlit("linkName");
        reveal_strlit("linkText");
    }
    for i in 0..parts.len()
        invariant
            ({
                let (o, l) = render_parts(parts@, i as nat);
                &&& out@ == o
                &&& l == match link {
                    Some(x) => Some((x.0, match x.1 { Some(n) => Some(n@), None => None }, match x.2 {
                        Some(t) => Some(match t { Some(u) => Some(u@), None => None }),
                        None => None,
                    })),
                    None => None,
                }
            }),
    {
        let part = &parts[i];
        if str_eq(part.kind.as_str(), "link") {
            match link {
                Some((code, name, resolved)) => {
                    let piece = render_closed_link(code, &name, &resolved);
                    out = concat(out.as_str(), piece.as_str());
                    link = None;
                },
                None => {
                    link = Some((str_eq(part.text.as_str(), "{@linkcode "), None, None));
                },
            }
        } else if str_eq(part.kind.as_str(), "linkName") {
            match link {
                Some((code, _name, _resolved)) => {
                    let resolved = if part.target.is_some() {
                        Some(clone_opt(&part.resolved_target))
                    } else {
                        None
                    };
                    link = Some((code, Some(part.text.clone()), resolved));
                },
                None => {},
            }
        } else if str_eq(part.kind.as_str(), "linkText") {
            match link {
                Some((code, _name, resolved)) => {
                    link = Some((code, Some(part.text.clone()), resolved));
                },
                None => {},
            }
        } else {
            out = concat(out.as_str(), part.text.as_str());
        }
    }
    replace_links(out.as_str())
}

/// The text of capture group `i` of a hit, empty where it took no part.
pub open spec fn group_text(h: HitView, i: int) -> Seq<char> {
    if 0 <= i < hit_groups(h).len() && hit_groups(h)[i] is Some {
        hit_groups(h)[i]->0
    } else {
        ""@
    }
}

fn group_string(hit: &crate::patterns::RegexHit, i: usize) -> (r: String)
    ensures
        r@ == group_text(hit@, i as int),
{
    proof {
        reveal_strlit("");
    }
    if i < hit.groups.len() {
        match &hit.groups[i] {
            Some(g) => g.clone(),
            None => String::new(),
        }
    } else {
        String::new()
    }
}

/// The body of a tag named `name` whose display text is `text`: examples
/// fenced as code (a caption kept above the code), authors with their
/// address unbracketed, defaults fenced as code, anything else with its web
/// links rewritten.
pub open spec fn tag_body(name: Seq<char>, text: Seq<char>) -> Seq<char> {
    if name == "example"@ {
        match regex_first_match(CAPTION_PATTERN@, text) {
            Some(h) => h.0 + group_text(h, 1) + "\n\n"@ + codeblock_of(group_text(h, 2)) + h.3,
            None => codeblock_of(text),
        }
    } else if name == "author"@ {
        match regex_first_match(EMAIL_MATCH_PATTERN@, text) {
            Some(h) => h.0 + group_text(h, 1) + " "@ + group_text(h, 2) + h.3,
            None => text,
        }
    } else if name == "default"@ {
        codeblock_of(text)
    } else {
        links_replaced(text)
    }
}

/// The markdown body of a tag, where it has display parts.
pub fn get_tag_body_text(tag: &JsDocTagInfo) -> (r: Option<String>)
    ensures
        r is Some <==> tag.text is Some,
        r is Some ==> r->0@ == tag_body(tag.name@, display_string(tag.text->0@)),
{
    match &tag.text {
        None => None,
        Some(parts) => {
            let text = display_parts_to_string(parts);
            let name = tag.name.as_str();
            if str_eq(name, "example") {
                match first_match(CAPTION_PATTERN, text.as_str()) {
                    Some(hit) => {
                        let a = concat(hit.before.as_str(), group_string(&hit, 1).as_str());
                        let b = concat(a.as_str(), "\n\n");
                        let c = concat(b.as_str(), make_codeblock(group_string(&hit, 2).as_str()).as_str());
                        Some(concat(c.as_str(), hit.after.as_str()))
                    },
                    None => Some(make_codeblock(text.as_str())),
                }
            } else if str_eq(name, "author") {
                match first_match(EMAIL_MATCH_PATTERN, text.as_str()) {
                    Some(hit) => {
                        let a = concat(hit.before.as_str(), group_string(&hit, 1).as_str());
                        let b = concat(a.as_str(), " ");
                        let c = concat(b.as_str(), group_string(&hit, 2).as_str());
                        Some(concat(c.as_str(), hit.after.as_str()))
                    },
                    None => Some(text),
                }
            } else if str_eq(name, "default") {
                Some(make_codeblock(text.as_str()))
            } else {
                Some(replace_links(text.as_str()))
            }
        },
    }
}

/// Whether a tag documents a parameter-like name first.
pub open spec fn names_parameter(name: Seq<char>) -> bool {
    name == "augments"@ || name == "extends"@ || name == "param"@ || name == "template"@
}

/// `label` followed by `text`, on a new line where `text` spans lines.
pub open spec fn labelled(label: Seq<char>, text: Seq<char>) -> Seq<char> {
    if text.contains('\n') {
        label + "  \n"@ + text
    } else {
        label + " - "@ + text
    }
}

/// The pieces of a parameter-like tag's text, where it splits in three.
pub open spec fn parameter_pieces(tag: &JsDocTagInfo) -> Option<Seq<Seq<char>>> {
    if names_parameter(tag.name@) && tag.text is Some {
        match regex_split(PART_PATTERN@, display_string(tag.text->0@)) {
            Some(body) => if body.len() == 3 {
                Some(body)
            } else {
                None
            },
            None => None,
        }
    } else {
        None
    }
}

/// The markdown for one JSDoc tag.
pub open spec fn tag_documentation(tag: &JsDocTagInfo) -> Seq<char> {
    match parameter_pieces(tag) {
        Some(body) => {
            let label = "*@"@ + tag.name@ + "* `"@ + body[1] + "`"@;
            if body[2].len() == 0 {
                label
            } else {
                labelled(label, links_replaced(body[2]))
            }
        },
        None => {
            let label = "*@"@ + tag.name@ + "*"@;
            match tag.text {
                Some(parts) => labelled(label, tag_body(tag.name@, display_string(parts@))),
                None => label,
            }
        },
    }
}

fn labelled_string(label: &str, text: &str) -> (r: String)
    ensures
        r@ == labelled(label@, text@),
{
    let sep = if contains_char(text, '\n') {
        "  \n"
    } else {
        " - "
    };
    let a = concat(label, sep);
    concat(a.as_str(), text)
}

/// The markdown for one JSDoc tag: its name in italics, then its text.
/// Parameter-like tags show the documented name in code style first.
pub fn get_tag_documentation(tag: &JsDocTagInfo) -> (r: String)
    ensures
        r@ == tag_documentation(tag),
{
    let name = tag.name.as_str();
    if str_eq(name, "augments") || str_eq(name, "extends") || str_eq(name, "param") || str_eq(name, "template") {
        if let Some(parts) = &tag.text {
            let text = display_parts_to_string(parts);
            if let Some(body) = split(PART_PATTERN, text.as_str()) {
                if body.len() == 3 {
                    let a = concat("*@", name);
                    let b = concat(a.as_str(), "* `");
                    let c = concat(b.as_str(), body[1].as_str());
                    let label = concat(c.as_str(), "`");
                    if chars_of(body[2].as_str()).len() == 0 {
                        return label;
                    }
                    let doc = replace_links(body[2].as_str());
                    return labelled_string(label.as_str(), doc.as_str());
                }
            }
        }
    }
    let a = concat("*@", name);
    let label = concat(a.as_str(), "*");
    match get_tag_body_text(tag) {
        Some(text) => labelled_string(label.as_str(), text.as_str()),
        None => label,
    }
}

} // verus!
