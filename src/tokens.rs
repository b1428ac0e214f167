//! Semantic classifications of the analyzer turned into editor tokens.
use vstd::prelude::*;
use crate::host::BridgeError;
use crate::line_index::{LineIndex, MAX_TEXT_CHARS, position_result};

verus! {

/// The number of modifier bits below the token type in a classification.
pub const TYPE_OFFSET: u32 = 8;

/// The modifier bits of a classification.
pub const MODIFIER_MASK: u32 = 255;

/// The encoded classifications of a file: `(offset, length, classification)`
/// triples, flattened.
#[derive(Clone, Debug)]
pub struct Classifications {
    pub spans: Vec<u32>,
}

/// One semantic token: its line, start column, length in UTF-16 units,
/// type and modifier bits.
#[derive(Clone, Copy, Debug, PartialEq, Eq)]
pub struct SemanticToken {
    pub line: u32,
    pub start: u32,
    pub length: u32,
    pub token_type: u32,
    pub modifiers: u32,
}

/// Whether triple `k` of `spans` gives a token: a classification with a
/// type, and ends at character boundaries of one line, in order.
pub open spec fn triple_ok(t: Seq<char>, spans: Seq<u32>, k: int) -> bool {
    let off = spans[3 * k] as nat;
    let len = spans[3 * k + 1] as nat;
    &&& spans[3 * k + 2] > MODIFIER_MASK
    &&& exists|s: (nat, nat), e: (nat, nat)|
        position_result(t, off, Some(s)) && position_result(t, off + len, Some(e)) && s.0 == e.0 && s.1 <= e.1
}

/// Whether `tok` is the token that triple `k` of `spans` gives.
pub open spec fn token_of_triple(t: Seq<char>, spans: Seq<u32>, k: int, tok: SemanticToken) -> bool {
    let off = spans[3 * k] as nat;
    let len = spans[3 * k + 1] as nat;
    let c = spans[3 * k + 2];
    &&& position_result(t, off, Some((tok.line as nat, tok.start as nat)))
    &&& position_result(t, off + len, Some((tok.line as nat, (tok.start + tok.length) as nat)))
    &&& tok.token_type == c / 256 - 1
    &&& tok.modifiers == c % 256
}

impl Classifications {
    /// The token type of a classification.
    pub fn get_token_type_from_classification(ts_classification: u32) -> (r: u32)
        requires
            ts_classification > MODIFIER_MASK,
        ensures
            r == ts_classification / 256 - 1,
    {
        assert(ts_classification >> 8u32 == ts_classification / 256) by (bit_vector);
        (ts_classification >> TYPE_OFFSET) - 1
    }

    /// The modifier bits of a classification.
    pub fn get_token_modifier_from_classification(ts_classification: u32) -> (r: u32)
        ensures
            r == ts_classification % 256,
    {
        assert(ts_classification & 255u32 == ts_classification % 256) by (bit_vector);
        ts_classification & MODIFIER_MASK
    }

    /// The tokens of the complete triples, in order; `InvariantViolation`
    /// where a classification has no type or a span does not lie on one line.
    pub fn to_semantic_tokens(&self, line_index: &LineIndex) -> (r: Result<Vec<SemanticToken>, BridgeError>)
        requires
            line_index@.len() <= MAX_TEXT_CHARS,
        ensures
            r is Ok <==> forall|k: int| 0 <= k < self.spans@.len() / 3 ==> triple_ok(line_index@, self.spans@, k),
            r is Err ==> r == Err::<Vec<SemanticToken>, BridgeError>(BridgeError::InvariantViolation),
            r is Ok ==> r->Ok_0@.len() == self.spans@.len() / 3 && forall|k: int|
                0 <= k < self.spans@.len() / 3 ==> token_of_triple(line_index@, self.spans@, k, r->Ok_0@[k]),
    {
        let token_count = self.spans.len() / 3;
        let mut tokens: Vec<SemanticToken> = Vec::new();
        for i in 0..token_count
            invariant
                line_index@.len() <= MAX_TEXT_CHARS,
                token_count == self.spans@.len() / 3,
                tokens@.len() == i,
                forall|k: int| 0 <= k < i ==> triple_ok(line_index@, self.spans@, k),
                forall|k: int| 0 <= k < i ==> token_of_triple(line_index@, self.spans@, k, tokens@[k]),
        {
            let n = self.spans.len();
            assert(3 * i + 2 < n) by (nonlinear_arith)
                requires
                    i < token_count,
                    token_count == n / 3,
            ;
            let src_offset = 3 * i;
            let offset = self.spans[src_offset];
            let length = self.spans[src_offset + 1];
            let ts_classification = self.spans[src_offset + 2];
            assert(self.spans@[3 * i] == offset && self.spans@[3 * i + 1] == length);
            if ts_classification <= MODIFIER_MASK {
                assert(self.spans@[3 * i + 2] == ts_classification);
                assert(!triple_ok(line_index@, self.spans@, i as int));
                return Err(BridgeError::InvariantViolation);
            }
            let token_type = Classifications::get_token_type_from_classification(ts_classification);
            let token_modifiers = Classifications::get_token_modifier_from_classification(ts_classification);
            let start_pos = line_index.position_of(offset);
            let end_offset = offset as u64 + length as u64;
            if end_offset > u32::MAX as u64 {
                assert forall|s: (nat, nat), e: (nat, nat)|
                    !(position_result(line_index@, offset as nat, Some(s)) && position_result(
                        line_index@,
                        (offset + length) as nat,
                        Some(e),
                    ) && s.0 == e.0 && s.1 <= e.1) by {
                    if position_result(line_index@, (offset + length) as nat, Some(e)) {
                        let j = choose|j: nat|
                            j <= line_index@.len() && crate::line_index::offset_at(line_index@, j)
                                == (offset + length) as nat && crate::line_index::position_at(line_index@, j) == e;
                        crate::line_index::lemma_bounds(line_index@, j);
                    }
                }
                assert(self.spans@[3 * i] == offset && self.spans@[3 * i + 1] == length);
                assert(!triple_ok(line_index@, self.spans@, i as int));
                return Err(BridgeError::InvariantViolation);
            }
            let end_pos = line_index.position_of(end_offset as u32);
            match (start_pos, end_pos) {
                (Some(s), Some(e)) => {
                    if s.line == e.line && s.character <= e.character {
                        let tok = SemanticToken {
                            line: s.line,
                            start: s.character,
                            length: e.character - s.character,
                            token_type,
                            modifiers: token_modifiers,
                        };
                        assert(position_result(line_index@, offset as nat, Some(s@)) && position_result(
                            line_index@,
                            (offset + length) as nat,
                            Some(e@),
                        ) && s@.0 == e@.0 && s@.1 <= e@.1);
                        tokens.push(tok);
                    } else {
                        proof {
                            crate::line_index::lemma_position_unique(line_index@, offset as nat, s@);
                            crate::line_index::lemma_position_unique(line_index@, (offset + length) as nat, e@);
                        }
                        assert(!triple_ok(line_index@, self.spans@, i as int));
                        return Err(BridgeError::InvariantViolation);
                    }
                },
                _ => {
                    assert(!triple_ok(line_index@, self.spans@, i as int));
                    return Err(BridgeError::InvariantViolation);
                },
            }
        }
        Ok(tokens)
    }
}

/// Whether token `b` does not come before token `a`.
pub open spec fn in_order(a: SemanticToken, b: SemanticToken) -> bool {
    a.line < b.line || (a.line == b.line && a.start <= b.start)
}

/// A token encoded relative to the one before it.
#[derive(Clone, Copy, Debug, PartialEq, Eq, Structural)]
pub struct EncodedToken {
    pub delta_line: u32,
    pub delta_start: u32,
    pub length: u32,
    pub token_type: u32,
    pub modifiers: u32,
}

/// The encoding of token `k` relative to the token before it: the line
/// delta, the start (relative on the same line), the length, the type and
/// the modifiers.
pub open spec fn encoded_token(toks: Seq<SemanticToken>, k: int) -> EncodedToken {
    let t = toks[k];
    if k == 0 {
        EncodedToken { delta_line: t.line, delta_start: t.start, length: t.length, token_type: t.token_type, modifiers: t.modifiers }
    } else {
        let p = toks[k - 1];
        EncodedToken {
            delta_line: (t.line - p.line) as u32,
            delta_start: if t.line == p.line { (t.start - p.start) as u32 } else { t.start },
            length: t.length,
            token_type: t.token_type,
            modifiers: t.modifiers,
        }
    }
}

/// Encodes tokens in the editor's relative form; nothing where a token
/// comes before the one preceding it.
pub fn encode_semantic_tokens(tokens: &Vec<SemanticToken>) -> (r: Option<Vec<EncodedToken>>)
    ensures
        r is Some <==> forall|k: int| 0 < k < tokens@.len() ==> in_order(tokens@[k - 1], #[trigger] tokens@[k]),
        r is Some ==> r->0@.len() == tokens@.len() && forall|k: int|
            0 <= k < tokens@.len() ==> r->0@[k] == #[trigger] encoded_token(tokens@, k),
{
    let mut data: Vec<EncodedToken> = Vec::new();
    for i in 0..tokens.len()
        invariant
            data@.len() == i,
            forall|k: int| 0 < k < i ==> in_order(tokens@[k - 1], #[trigger] tokens@[k]),
            forall|k: int| 0 <= k < i ==> data@[k] == #[trigger] encoded_token(tokens@, k),
    {
        let t = tokens[i];
        let (dl, ds) = if i == 0 {
            (t.line, t.start)
        } else {
            let p = tokens[i - 1];
            if t.line < p.line || (t.line == p.line && t.start < p.start) {
                assert(!in_order(tokens@[i - 1], tokens@[i as int]));
                return None;
            }
            if t.line == p.line {
                (0u32, t.start - p.start)
            } else {
                (t.line - p.line, t.start)
            }
        };
        data.push(EncodedToken { delta_line: dl, delta_start: ds, length: t.length, token_type: t.token_type, modifiers: t.modifiers });
    }
    Some(data)
}

} // verus!
