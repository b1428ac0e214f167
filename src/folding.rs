//! Outlining spans of the analyzer turned into editor folding ranges.
use vstd::prelude::*;
use crate::line_index::{LineIndex, TextSpan, MAX_TEXT_CHARS, position_result, offset_at};

verus! {

/// The kind of an outlining span, as the analyzer reports it.
#[derive(Clone, Copy, Debug, PartialEq, Eq, Structural)]
pub enum OutliningSpanKind {
    Comment,
    Region,
    Code,
    Imports,
}

/// The kind of an editor folding range.
#[derive(Clone, Copy, Debug, PartialEq, Eq, Structural)]
pub enum FoldingRangeKind {
    Comment,
    Imports,
    Region,
}

/// An outlining span, as the analyzer reports it.
#[derive(Clone, Copy, Debug)]
pub struct OutliningSpan {
    pub text_span: TextSpan,
    pub kind: OutliningSpanKind,
}

/// A folding range as the editor takes it.
#[derive(Clone, Copy, Debug, PartialEq, Eq)]
pub struct FoldingRange {
    pub start_line: u32,
    pub start_character: Option<u32>,
    pub end_line: u32,
    pub end_character: Option<u32>,
    pub kind: Option<FoldingRangeKind>,
}

/// The folding kind shown for a span kind.
pub open spec fn folding_kind_of(k: OutliningSpanKind) -> Option<FoldingRangeKind> {
    match k {
        OutliningSpanKind::Comment => Some(FoldingRangeKind::Comment),
        OutliningSpanKind::Region => Some(FoldingRangeKind::Region),
        OutliningSpanKind::Imports => Some(FoldingRangeKind::Imports),
        OutliningSpanKind::Code => None,
    }
}

/// Whether a character closes a bracketed or quoted construct.
pub open spec fn is_fold_end_pair(c: char) -> bool {
    c == '}' || c == ']' || c == ')' || c == '`'
}

/// Whether the text has character `c` just before offset `o`.
pub open spec fn char_before_is(t: Seq<char>, o: nat, c: char) -> bool {
    exists|i: nat| 0 < i <= t.len() && offset_at(t, i) == o && t[i - 1] == c
}

/// The end line of a fold over `(start_line, end)` where `end` is the
/// position at offset `end_offset`: with line folding only, a fold ending
/// just after a closing bracket or backtick ends a line earlier, but not
/// before its start.
pub open spec fn folding_end_line(
    t: Seq<char>,
    start_line: nat,
    end: (nat, nat),
    end_offset: nat,
    line_folding_only: bool,
) -> nat {
    if line_folding_only && end.0 > 0 && end.1 > 0 && exists|c: char|
        is_fold_end_pair(c) && char_before_is(t, end_offset, c) {
        if end.0 - 1 >= start_line {
            (end.0 - 1) as nat
        } else {
            start_line
        }
    } else {
        end.0
    }
}

impl OutliningSpan {
    /// The editor folding range for this span; nothing where an end of the
    /// span is not a character boundary of the text.
    pub fn to_folding_range(&self, line_index: &LineIndex, line_folding_only: bool) -> (r: Option<FoldingRange>)
        requires
            line_index@.len() <= MAX_TEXT_CHARS,
        ensures
            r is None ==> position_result(line_index@, self.text_span.start as nat, None)
                || position_result(line_index@, self.text_span.end_spec(), None),
            r is Some ==> exists|s: (nat, nat), e: (nat, nat)|
                position_result(line_index@, self.text_span.start as nat, Some(s)) && position_result(
                    line_index@,
                    self.text_span.end_spec(),
                    Some(e),
                ) && r->0.start_line == s.0 && r->0.start_character == (if line_folding_only {
                    None
                } else {
                    Some(s.1 as u32)
                }) && r->0.end_character == (if line_folding_only {
                    None
                } else {
                    Some(e.1 as u32)
                }) && r->0.end_line == folding_end_line(
                    line_index@,
                    s.0,
                    e,
                    self.text_span.end_spec(),
                    line_folding_only,
                ) && r->0.kind == folding_kind_of(self.kind),
    {
        let range = match self.text_span.to_range(line_index) {
            Some(range) => range,
            None => {
                return None;
            },
        };
        let end_line = self.adjust_folding_end_line(range.start.line, range.end.line, range.end.character, line_index, line_folding_only);
        let r = FoldingRange {
            start_line: range.start.line,
            start_character: if line_folding_only {
                None
            } else {
                Some(range.start.character)
            },
            end_line,
            end_character: if line_folding_only {
                None
            } else {
                Some(range.end.character)
            },
            kind: self.get_folding_range_kind(),
        };
        let ghost sp = range.start@;
        let ghost ep = range.end@;
        assert(position_result(line_index@, self.text_span.start as nat, Some(sp)) && position_result(
            line_index@,
            self.text_span.end_spec(),
            Some(ep),
        ) && r.start_line == sp.0 && r.start_character == (if line_folding_only {
            None
        } else {
            Some(sp.1 as u32)
        }) && r.end_character == (if line_folding_only {
            None
        } else {
            Some(ep.1 as u32)
        }) && r.end_line == folding_end_line(
            line_index@,
            sp.0,
            ep,
            self.text_span.end_spec(),
            line_folding_only,
        ) && r.kind == folding_kind_of(self.kind));
        Some(r)
    }

    fn adjust_folding_end_line(
        &self,
        start_line: u32,
        end_line: u32,
        end_character: u32,
        line_index: &LineIndex,
        line_folding_only: bool,
    ) -> (r: u32)
        requires
            line_index@.len() <= MAX_TEXT_CHARS,
        ensures
            r == folding_end_line(
                line_index@,
                start_line as nat,
                (end_line as nat, end_character as nat),
                self.text_span.end_spec(),
                line_folding_only,
            ),
    {
        if line_folding_only && end_line > 0 && end_character > 0 {
            let end_offset = self.text_span.start as u64 + self.text_span.length as u64;
            if end_offset <= u32::MAX as u64 {
                match line_index.char_before(end_offset as u32) {
                    Some(c) => {
                        if c == '}' || c == ']' || c == ')' || c == '`' {
                            assert(is_fold_end_pair(c) && char_before_is(line_index@, self.text_span.end_spec(), c));
                            return if end_line - 1 >= start_line {
                                end_line - 1
                            } else {
                                start_line
                            };
                        }
                        assert forall|d: char| is_fold_end_pair(d) implies !char_before_is(
                            line_index@,
                            self.text_span.end_spec(),
                            d,
                        ) by {
                            if char_before_is(line_index@, self.text_span.end_spec(), d) {
                                let i = choose|i: nat|
                                    0 < i <= line_index@.len() && offset_at(line_index@, i)
                                        == self.text_span.end_spec() && line_index@[i - 1] == d;
                                let j = choose|j: nat|
                                    0 < j <= line_index@.len() && offset_at(line_index@, j)
                                        == self.text_span.end_spec() && line_index@[j - 1] == c;
                                if i < j {
                                    crate::line_index::lemma_monotone(line_index@, i, j);
                                } else if j < i {
                                    crate::line_index::lemma_monotone(line_index@, j, i);
                                }
                            }
                        }
                    },
                    None => {},
                }
            } else {
                assert forall|i: nat| 0 < i <= line_index@.len() implies offset_at(line_index@, i)
                    != self.text_span.end_spec() by {
                    crate::line_index::lemma_bounds(line_index@, i);
                }
            }
        }
        end_line
    }

    fn get_folding_range_kind(&self) -> (r: Option<FoldingRangeKind>)
        ensures
            r == folding_kind_of(self.kind),
    {
        match self.kind {
            OutliningSpanKind::Comment => Some(FoldingRangeKind::Comment),
            OutliningSpanKind::Region => Some(FoldingRangeKind::Region),
            OutliningSpanKind::Imports => Some(FoldingRangeKind::Imports),
            OutliningSpanKind::Code => None,
        }
    }
}

} // verus!
