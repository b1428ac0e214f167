//! Regular-expression searches, through the `regex` crate.
use vstd::prelude::*;

verus! {

/// The first (leftmost) match of a pattern in a text: the text before it,
/// the matched text, each capture group (group 0 being the whole match), and
/// the text after it.
pub struct RegexHit {
    pub before: String,
    pub whole: String,
    pub groups: Vec<Option<String>>,
    pub after: String,
}

/// The abstract value of a hit.
pub type HitView = (Seq<char>, Seq<char>, Seq<Option<Seq<char>>>, Seq<char>);

/// The view of an optional capture.
pub open spec fn opt_view(g: Option<String>) -> Option<Seq<char>> {
    match g {
        Some(s) => Some(s@),
        None => None,
    }
}

impl View for RegexHit {
    type V = HitView;

    open spec fn view(&self) -> HitView {
        (self.before@, self.whole@, self.groups@.map_values(|g: Option<String>| opt_view(g)), self.after@)
    }
}

/// The capture groups of a hit.
pub open spec fn hit_groups(h: HitView) -> Seq<Option<Seq<char>>> {
    h.2
}

/// The captures of the first match of `pattern` in `text`, if it matches.
pub open spec fn first_groups(pattern: Seq<char>, text: Seq<char>) -> Option<Seq<Option<Seq<char>>>> {
    match regex_first_match(pattern, text) {
        Some(h) => Some(hit_groups(h)),
        None => None,
    }
}

/// What `regex::Regex::captures` finds for `pattern` in `text`: nothing where
/// the pattern does not compile or does not match.
pub uninterp spec fn regex_first_match(pattern: Seq<char>, text: Seq<char>) -> Option<HitView>;

/// What `regex::Regex::split` yields for `pattern` on `text`: the pieces
/// between successive matches; nothing where the pattern does not compile.
pub uninterp spec fn regex_split(pattern: Seq<char>, text: Seq<char>) -> Option<Seq<Seq<char>>>;

/// Relies on `regex::Regex::new` and `regex::Regex::captures`: the leftmost
/// match, whose byte range cuts the text into before, match and after.
#[verifier::external_body]
pub(crate) fn first_match(pattern: &str, text: &str) -> (r: Option<RegexHit>)
    ensures
        r is Some <==> regex_first_match(pattern@, text@) is Some,
        r is Some ==> regex_first_match(pattern@, text@) == Some(r->0@),
        r is Some ==> r->0.before@ + r->0.whole@ + r->0.after@ == text@,
{
    let re = regex::Regex::new(pattern).ok()?;
    let caps = re.captures(text)?;
    let m = caps.get(0)?;
    Some(RegexHit {
        before: text[..m.start()].to_string(),
        whole: m.as_str().to_string(),
        groups: caps.iter().map(|g| g.map(|x| x.as_str().to_string())).collect(),
        after: text[m.end()..].to_string(),
    })
}

/// Relies on `regex::Regex::new` and `regex::Regex::split`: the pieces of the
/// text between the pattern's successive matches.
#[verifier::external_body]
pub(crate) fn split(pattern: &str, text: &str) -> (r: Option<Vec<String>>)
    ensures
        r is Some <==> regex_split(pattern@, text@) is Some,
        r is Some ==> regex_split(pattern@, text@) == Some(r->0@.map_values(|s: String| s@)),
{
    let re = regex::Regex::new(pattern).ok()?;
    Some(re.split(text).map(|s| s.to_string()).collect())
}

/// Whether `pattern` matches somewhere in `text`.
pub fn is_match(pattern: &str, text: &str) -> (r: bool)
    ensures
        r == regex_first_match(pattern@, text@) is Some,
{
    first_match(pattern, text).is_some()
}

/// The capture group `i` of the first match of `pattern` in `text`.
pub fn capture(pattern: &str, text: &str, i: usize) -> (r: Option<String>)
    ensures
        r is Some <==> first_groups(pattern@, text@) is Some && i < first_groups(
            pattern@,
            text@,
        )->0.len() && first_groups(pattern@, text@)->0[i as int] is Some,
        r is Some ==> first_groups(pattern@, text@)->0[i as int] == Some(r->0@),
{
    match first_match(pattern, text) {
        None => None,
        Some(hit) => {
            if i < hit.groups.len() {
                let g = &hit.groups[i];
                match g {
                    Some(s) => Some(s.clone()),
                    None => None,
                }
            } else {
                None
            }
        },
    }
}

} // verus!
