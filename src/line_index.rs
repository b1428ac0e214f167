//! Translation between editor positions and analyzer offsets.
//!
//! An editor position is a line and a character counted in UTF-16 code
//! units from the start of the line; an analyzer offset counts UTF-8 bytes
//! from the start of the text.
use vstd::prelude::*;
use crate::strings::chars_of;

verus! {

/// The largest number of characters a line index accepts: every offset,
/// line and column then fits in a `u32`.
pub const MAX_TEXT_CHARS: usize = 0x3fff_ffff;

/// UTF-8 bytes in the encoding of `c`.
pub open spec fn utf8_width(c: char) -> nat {
    if (c as u32) < 0x80 {
        1
    } else if (c as u32) < 0x800 {
        2
    } else if (c as u32) < 0x10000 {
        3
    } else {
        4
    }
}

/// UTF-16 code units in the encoding of `c`.
pub open spec fn utf16_width(c: char) -> nat {
    if (c as u32) < 0x10000 {
        1
    } else {
        2
    }
}

/// The byte offset of the character at index `i` of `t`.
pub open spec fn offset_at(t: Seq<char>, i: nat) -> nat
    decreases i,
{
    if i == 0 {
        0
    } else {
        offset_at(t, (i - 1) as nat) + utf8_width(t[i - 1])
    }
}

/// The editor position (line, UTF-16 column) of the character at index `i`.
pub open spec fn position_at(t: Seq<char>, i: nat) -> (nat, nat)
    decreases i,
{
    if i == 0 {
        (0, 0)
    } else {
        let p = position_at(t, (i - 1) as nat);
        if t[i - 1] == '\n' {
            (p.0 + 1, 0)
        } else {
            (p.0, p.1 + utf16_width(t[i - 1]))
        }
    }
}

/// Whether position `p` names a character boundary of `t`.
pub open spec fn in_bounds(t: Seq<char>, p: (nat, nat)) -> bool {
    exists|i: nat| i <= t.len() && position_at(t, i) == p
}

/// Whether index `i` ends the line of a position `p` that lies past it on
/// that line.
pub open spec fn clamps_at(t: Seq<char>, p: (nat, nat), i: nat) -> bool {
    &&& i <= t.len()
    &&& (i == t.len() || t[i as int] == '\n')
    &&& position_at(t, i).0 == p.0
    &&& position_at(t, i).1 < p.1
}

/// What translating position `p` may give: the offset of the character
/// boundary it names; where it names none, the end of its line when it lies
/// past it; else nothing.
pub open spec fn offset_result(t: Seq<char>, p: (nat, nat), r: Option<nat>) -> bool {
    match r {
        Some(o) => (exists|i: nat| i <= t.len() && position_at(t, i) == p && offset_at(t, i) == o)
            || (!in_bounds(t, p) && exists|i: nat| clamps_at(t, p, i) && offset_at(t, i) == o),
        None => !in_bounds(t, p) && forall|i: nat| !clamps_at(t, p, i),
    }
}

/// What translating offset `o` may give: the position of the character
/// boundary at that offset, or nothing where there is none.
pub open spec fn position_result(t: Seq<char>, o: nat, r: Option<(nat, nat)>) -> bool {
    match r {
        Some(q) => exists|i: nat| i <= t.len() && offset_at(t, i) == o && position_at(t, i) == q,
        None => forall|i: nat| i <= t.len() ==> offset_at(t, i) != o,
    }
}

/// Offsets, lines and columns grow no faster than the character count.
pub proof fn lemma_bounds(t: Seq<char>, i: nat)
    ensures
        offset_at(t, i) <= 4 * i,
        position_at(t, i).0 <= i,
        position_at(t, i).1 <= 2 * i,
    decreases i,
{
    if i > 0 {
        lemma_bounds(t, (i - 1) as nat);
    }
}

/// Offsets and positions strictly increase along the text; a line break
/// moves every later position to a later line.
pub proof fn lemma_monotone(t: Seq<char>, i: nat, j: nat)
    requires
        i < j,
    ensures
        offset_at(t, i) < offset_at(t, j),
        position_at(t, i).0 <= position_at(t, j).0,
        position_at(t, i).0 == position_at(t, j).0 ==> position_at(t, i).1 < position_at(t, j).1,
        i < t.len() && t[i as int] == '\n' ==> position_at(t, i).0 < position_at(t, j).0,
    decreases j,
{
    if j > i + 1 {
        lemma_monotone(t, i, (j - 1) as nat);
        let k = (j - 1) as nat;
        if t[k as int] == '\n' {
            lemma_same_line(t, i, k);
        }
    }
}

proof fn lemma_same_line(t: Seq<char>, i: nat, k: nat)
    requires
        i < k,
        t[k as int] == '\n',
        position_at(t, i).0 <= position_at(t, k).0,
    ensures
        position_at(t, i).0 < position_at(t, k + 1).0,
{
}

/// An editor position.
#[derive(Clone, Copy, Debug, PartialEq, Eq)]
pub struct Position {
    pub line: u32,
    pub character: u32,
}

impl View for Position {
    type V = (nat, nat);

    open spec fn view(&self) -> (nat, nat) {
        (self.line as nat, self.character as nat)
    }
}

/// An editor range.
#[derive(Clone, Copy, Debug, PartialEq, Eq)]
pub struct Range {
    pub start: Position,
    pub end: Position,
}

/// The map between editor positions and analyzer offsets of one text.
#[derive(Debug)]
pub struct LineIndex {
    chars: Vec<char>,
}

impl View for LineIndex {
    type V = Seq<char>;

    closed spec fn view(&self) -> Seq<char> {
        self.chars@
    }
}

impl LineIndex {
    /// The index of `text`.
    pub fn new(text: &str) -> (r: LineIndex)
        requires
            text@.len() <= MAX_TEXT_CHARS,
        ensures
            r@ == text@,
    {
        LineIndex { chars: chars_of(text) }
    }

    /// The text this index was made from.
    pub closed spec fn text(&self) -> Seq<char> {
        self.chars@
    }

    /// The analyzer offset of an editor position, clamped to the end of its
    /// line where the position lies past it.
    pub fn offset_of(&self, p: Position) -> (r: Option<u32>)
        requires
            self@.len() <= MAX_TEXT_CHARS,
        ensures
            offset_result(self@, p@, match r { Some(o) => Some(o as nat), None => None }),
    {
        let n = self.chars.len();
        let ghost t = self@;
        let mut i: usize = 0;
        let mut line: u32 = 0;
        let mut col: u32 = 0;
        let mut off: u32 = 0;
        loop
            invariant
                t == self@,
                n == t.len(),
                n <= MAX_TEXT_CHARS,
                i <= n,
                position_at(t, i as nat) == (line as nat, col as nat),
                offset_at(t, i as nat) == off as nat,
                forall|j: nat| j < i ==> position_at(t, j) != p@ && !clamps_at(t, p@, j),
            decreases n - i,
        {
            if line == p.line && col == p.character {
                assert(position_at(t, i as nat) == p@);
                return Some(off);
            }
            if line == p.line && col < p.character && (i == n || self.chars[i] == '\n') {
                assert(clamps_at(t, p@, i as nat));
                assert forall|j: nat| j <= t.len() implies position_at(t, j) != p@ by {
                    if j > i {
                        lemma_monotone(t, i as nat, j);
                    }
                }
                return Some(off);
            }
            if i == n {
                assert forall|j: nat| j <= t.len() implies position_at(t, j) != p@ by {}
                assert forall|j: nat| !clamps_at(t, p@, j) by {}
                return None;
            }
            let c = self.chars[i];
            proof {
                lemma_bounds(t, (i + 1) as nat);
            }
            let cp = c as u32;
            let w8: u32 = if cp < 0x80 { 1 } else if cp < 0x800 { 2 } else if cp < 0x10000 { 3 } else { 4 };
            let w16: u32 = if cp < 0x10000 { 1 } else { 2 };
            off = off + w8;
            if c == '\n' {
                line = line + 1;
                col = 0;
            } else {
                col = col + w16;
            }
            i = i + 1;
        }
    }

    /// The editor position at an analyzer offset, where a character boundary
    /// lies there.
    pub fn position_of(&self, offset: u32) -> (r: Option<Position>)
        requires
            self@.len() <= MAX_TEXT_CHARS,
        ensures
            position_result(self@, offset as nat, match r { Some(q) => Some(q@), None => None }),
    {
        let n = self.chars.len();
        let ghost t = self@;
        let mut i: usize = 0;
        let mut line: u32 = 0;
        let mut col: u32 = 0;
        let mut off: u32 = 0;
        loop
            invariant
                t == self@,
                n == t.len(),
                n <= MAX_TEXT_CHARS,
                i <= n,
                position_at(t, i as nat) == (line as nat, col as nat),
                offset_at(t, i as nat) == off as nat,
                forall|j: nat| j < i ==> offset_at(t, j) != offset as nat,
            decreases n - i,
        {
            if off == offset {
                return Some(Position { line, character: col });
            }
            if off > offset || i == n {
                assert forall|j: nat| j <= t.len() implies offset_at(t, j) != offset as nat by {
                    if j > i {
                        lemma_monotone(t, i as nat, j);
                    }
                }
                return None;
            }
            let c = self.chars[i];
            proof {
                lemma_bounds(t, (i + 1) as nat);
            }
            let cp = c as u32;
            let w8: u32 = if cp < 0x80 { 1 } else if cp < 0x800 { 2 } else if cp < 0x10000 { 3 } else { 4 };
            let w16: u32 = if cp < 0x10000 { 1 } else { 2 };
            off = off + w8;
            if c == '\n' {
                line = line + 1;
                col = 0;
            } else {
                col = col + w16;
            }
            i = i + 1;
        }
    }
}

impl LineIndex {
    /// The character that ends just before offset `offset`, where a
    /// character boundary lies there after at least one character.
    pub fn char_before(&self, offset: u32) -> (r: Option<char>)
        requires
            self@.len() <= MAX_TEXT_CHARS,
        ensures
            r is Some ==> exists|i: nat|
                0 < i <= self@.len() && offset_at(self@, i) == offset && self@[i - 1] == r->0,
            r is None ==> forall|i: nat| 0 < i <= self@.len() ==> offset_at(self@, i) != offset,
    {
        let n = self.chars.len();
        let ghost t = self@;
        let mut i: usize = 0;
        let mut off: u32 = 0;
        loop
            invariant
                t == self@,
                n == t.len(),
                n <= MAX_TEXT_CHARS,
                i <= n,
                offset_at(t, i as nat) == off as nat,
                forall|j: nat| 0 < j <= i ==> offset_at(t, j) != offset as nat,
            decreases n - i,
        {
            if i == n || off > offset {
                assert forall|j: nat| 0 < j <= t.len() implies offset_at(t, j) != offset as nat by {
                    if j > i {
                        lemma_monotone(t, i as nat, j);
                    }
                }
                return None;
            }
            let c = self.chars[i];
            proof {
                lemma_bounds(t, (i + 1) as nat);
            }
            let cp = c as u32;
            let w8: u32 = if cp < 0x80 { 1 } else if cp < 0x800 { 2 } else if cp < 0x10000 { 3 } else { 4 };
            off = off + w8;
            i = i + 1;
            if off == offset {
                return Some(c);
            }
        }
    }
}

/// An offset names at most one position.
pub proof fn lemma_position_unique(t: Seq<char>, o: nat, q: (nat, nat))
    requires
        position_result(t, o, Some(q)),
    ensures
        forall|q2: (nat, nat)| position_result(t, o, Some(q2)) ==> q2 == q,
{
    assert forall|q2: (nat, nat)| position_result(t, o, Some(q2)) implies q2 == q by {
        let i = choose|i: nat| i <= t.len() && offset_at(t, i) == o && position_at(t, i) == q;
        let j = choose|j: nat| j <= t.len() && offset_at(t, j) == o && position_at(t, j) == q2;
        if i < j {
            lemma_monotone(t, i, j);
        } else if j < i {
            lemma_monotone(t, j, i);
        }
    }
}

/// Translating an in-bounds position to an offset and back gives the
/// position again.
pub proof fn lemma_position_round_trip(t: Seq<char>, p: (nat, nat), o: nat, q: (nat, nat))
    requires
        in_bounds(t, p),
        offset_result(t, p, Some(o)),
        position_result(t, o, Some(q)),
    ensures
        q == p,
{
    let i = choose|i: nat| i <= t.len() && position_at(t, i) == p && offset_at(t, i) == o;
    let j = choose|j: nat| j <= t.len() && offset_at(t, j) == o && position_at(t, j) == q;
    if i < j {
        lemma_monotone(t, i, j);
    } else if j < i {
        lemma_monotone(t, j, i);
    }
}

/// A span of the analyzer's text, in byte offsets.
#[derive(Clone, Copy, Debug, PartialEq, Eq, Structural)]
pub struct TextSpan {
    pub start: u32,
    pub length: u32,
}

impl TextSpan {
    /// The offset just past the span.
    pub open spec fn end_spec(&self) -> nat {
        self.start as nat + self.length as nat
    }

    /// The span between the offsets of the ends of `range`; nothing where an
    /// end is not a position of the text or the range runs backwards.
    pub fn from_range(range: &Range, line_index: &LineIndex) -> (r: Option<TextSpan>)
        requires
            line_index@.len() <= MAX_TEXT_CHARS,
        ensures
            r is Some ==> exists|s: nat, e: nat|
                offset_result(line_index@, range.start@, Some(s)) && offset_result(
                    line_index@,
                    range.end@,
                    Some(e),
                ) && s == r->0.start && e == r->0.end_spec(),
            r is None ==> offset_result(line_index@, range.start@, None) || offset_result(
                line_index@,
                range.end@,
                None,
            ) || exists|s: nat, e: nat|
                offset_result(line_index@, range.start@, Some(s)) && offset_result(
                    line_index@,
                    range.end@,
                    Some(e),
                ) && e < s,
    {
        let start = line_index.offset_of(range.start);
        let end = line_index.offset_of(range.end);
        match (start, end) {
            (Some(s), Some(e)) => {
                if e < s {
                    None
                } else {
                    Some(TextSpan { start: s, length: e - s })
                }
            },
            _ => None,
        }
    }

    /// The editor range of the span; nothing where an end of the span is not
    /// a character boundary of the text.
    pub fn to_range(&self, line_index: &LineIndex) -> (r: Option<Range>)
        requires
            line_index@.len() <= MAX_TEXT_CHARS,
        ensures
            r is Some ==> position_result(line_index@, self.start as nat, Some(r->0.start@))
                && position_result(line_index@, self.end_spec(), Some(r->0.end@)),
            r is None ==> position_result(line_index@, self.start as nat, None)
                || position_result(line_index@, self.end_spec(), None),
    {
        let start = line_index.position_of(self.start);
        if self.length > u32::MAX - self.start {
            assert forall|i: nat| i <= line_index@.len() implies offset_at(line_index@, i)
                != self.end_spec() by {
                lemma_bounds(line_index@, i);
            }
            return None;
        }
        let end = line_index.position_of(self.start + self.length);
        match (start, end) {
            (Some(s), Some(e)) => Some(Range { start: s, end: e }),
            _ => None,
        }
    }
}

} // verus!
