use tsc_bridge::line_index::{LineIndex, Position, Range, TextSpan};

#[test]
fn position_round_trip_ascii() {
    let index = LineIndex::new("ab\ncd");
    let p = Position { line: 1, character: 1 };
    let off = index.offset_of(p).unwrap();
    assert_eq!(off, 4);
    assert_eq!(index.position_of(off), Some(p));
}

#[test]
fn position_round_trip_multibyte() {
    // 'é' is two bytes and one UTF-16 unit; '😀' is four bytes and two units.
    let index = LineIndex::new("é😀x\ny");
    let p = Position { line: 0, character: 3 };
    assert_eq!(index.offset_of(p), Some(6));
    assert_eq!(index.position_of(6), Some(p));
    let q = Position { line: 1, character: 1 };
    assert_eq!(index.offset_of(q), Some(9));
    assert_eq!(index.position_of(9), Some(q));
}

#[test]
fn offset_past_line_end_is_clamped() {
    let index = LineIndex::new("ab\ncd");
    assert_eq!(index.offset_of(Position { line: 0, character: 9 }), Some(2));
    assert_eq!(index.offset_of(Position { line: 1, character: 9 }), Some(5));
}

#[test]
fn offset_of_missing_line_is_none() {
    let index = LineIndex::new("ab\ncd");
    assert_eq!(index.offset_of(Position { line: 5, character: 0 }), None);
}

#[test]
fn offset_inside_surrogate_pair_is_none() {
    let index = LineIndex::new("😀");
    assert_eq!(index.offset_of(Position { line: 0, character: 1 }), None);
}

#[test]
fn position_inside_multibyte_char_is_none() {
    let index = LineIndex::new("é");
    assert_eq!(index.position_of(1), None);
    assert_eq!(index.position_of(2), Some(Position { line: 0, character: 1 }));
    assert_eq!(index.position_of(3), None);
}

#[test]
fn empty_text_has_one_position() {
    let index = LineIndex::new("");
    assert_eq!(index.position_of(0), Some(Position { line: 0, character: 0 }));
    assert_eq!(index.offset_of(Position { line: 0, character: 0 }), Some(0));
}

#[test]
fn text_span_round_trip() {
    let index = LineIndex::new("let a = 1;\nlet b = 2;\n");
    let span = TextSpan { start: 15, length: 1 };
    let range = span.to_range(&index).unwrap();
    assert_eq!(
        range,
        Range {
            start: Position { line: 1, character: 4 },
            end: Position { line: 1, character: 5 },
        }
    );
    assert_eq!(TextSpan::from_range(&range, &index), Some(span));
}

#[test]
fn text_span_past_end_has_no_range() {
    let index = LineIndex::new("abc");
    assert_eq!(TextSpan { start: 2, length: 5 }.to_range(&index), None);
    assert_eq!(TextSpan { start: u32::MAX, length: 1 }.to_range(&index), None);
}

#[test]
fn char_before_offsets() {
    let index = LineIndex::new("a}é");
    assert_eq!(index.char_before(2), Some('}'));
    assert_eq!(index.char_before(4), Some('é'));
    assert_eq!(index.char_before(0), None);
    assert_eq!(index.char_before(3), None);
}
