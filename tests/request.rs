use tsc_bridge::line_index::TextSpan;
use tsc_bridge::ops::script_names;
use tsc_bridge::request::{RequestMethod, WireValue};
use tsc_bridge::specifier::{ModuleSpecifier, SpecifierMap};

fn text(v: &WireValue) -> Option<&str> {
    match v {
        WireValue::Str(s) => Some(s.as_str()),
        _ => None,
    }
}

fn num(v: &WireValue) -> Option<u64> {
    match v {
        WireValue::Num(n) => Some(*n),
        _ => None,
    }
}

#[test]
fn request_fields_start_with_id_and_method() {
    let map = SpecifierMap::new();
    let m = RequestMethod::GetQuickInfo { specifier: ModuleSpecifier::parse("file:///a.ts").unwrap(), position: 7 };
    let fields = m.to_wire(&map, 3);
    let keys: Vec<&str> = fields.iter().map(|(k, _)| k.as_str()).collect();
    assert_eq!(keys, vec!["id", "method", "specifier", "position"]);
    assert_eq!(num(&fields[0].1), Some(3));
    assert_eq!(text(&fields[1].1), Some("getQuickInfo"));
    assert_eq!(text(&fields[2].1), Some("file:///a.ts"));
    assert_eq!(num(&fields[3].1), Some(7));
}

#[test]
fn specifiers_are_sent_in_their_first_spelling() {
    let mut map = SpecifierMap::new();
    let spec = map.normalize_specifier("file:///lib.d.ts.d.ts").unwrap();
    let m = RequestMethod::GetDiagnostics { specifiers: vec![spec] };
    let fields = m.to_wire(&map, 1);
    match &fields[2].1 {
        WireValue::Arr(items) => assert_eq!(text(&items[0]), Some("file:///lib.d.ts.d.ts")),
        _ => panic!("specifiers should be a list"),
    }
}

#[test]
fn ranges_are_sent_as_pos_and_end() {
    let map = SpecifierMap::new();
    let m = RequestMethod::GetApplicableRefactors {
        specifier: ModuleSpecifier::parse("file:///a.ts").unwrap(),
        range: TextSpan { start: 4, length: 6 },
        kind: "refactor".to_string(),
    };
    let fields = m.to_wire(&map, 9);
    assert_eq!(text(&fields[1].1), Some("getApplicableRefactors"));
    match &fields[3].1 {
        WireValue::Obj(o) => {
            assert_eq!((o[0].0.as_str(), num(&o[0].1)), ("pos", Some(4)));
            assert_eq!((o[1].0.as_str(), num(&o[1].1)), ("end", Some(10)));
        },
        _ => panic!("range should be an object"),
    }
    assert_eq!(RequestMethod::Restart.to_wire(&map, 2).len(), 2);
}

#[test]
fn redirect_targets_are_listed_once() {
    let docs = vec![
        ("file:///a.ts".to_string(), Some("file:///t.ts".to_string())),
        ("file:///b.ts".to_string(), Some("file:///t.ts".to_string())),
    ];
    assert_eq!(script_names(false, &Vec::new(), &docs), vec!["file:///t.ts".to_string()]);
}
