use tsc_bridge::specifier::{normalize_specifier, ModuleSpecifier, SpecifierError, SpecifierMap};

#[test]
fn doubled_declaration_extension_is_collapsed_and_restored() {
    let mut map = SpecifierMap::new();
    let s = "file:///a/lib.d.ts.d.ts";
    let spec = map.normalize_specifier(s).unwrap();
    assert_eq!(spec.as_str(), "file:///a/lib.d.ts");
    assert_eq!(map.denormalize_specifier(&spec), s);
}

#[test]
fn plain_specifier_round_trips() {
    let mut map = SpecifierMap::new();
    let s = "https://deno.land/x/mod.ts";
    let spec = map.normalize_specifier(s).unwrap();
    assert_eq!(spec.as_str(), s);
    assert_eq!(map.denormalize_specifier(&spec), s);
    assert_eq!(map.get(s), None);
}

#[test]
fn invalid_specifier_is_rejected() {
    let mut map = SpecifierMap::new();
    assert!(matches!(map.normalize_specifier("not a url"), Err(SpecifierError::InvalidUrl)));
    assert!(matches!(normalize_specifier("./relative.ts"), Err(SpecifierError::InvalidUrl)));
}

#[test]
fn free_normalize_does_not_record() {
    let spec = normalize_specifier("file:///x.d.ts.d.ts").unwrap();
    assert_eq!(spec.as_str(), "file:///x.d.ts");
    let map = SpecifierMap::new();
    assert_eq!(map.denormalize_specifier(&spec), "file:///x.d.ts");
}

#[test]
fn asset_scheme_is_recognised() {
    assert!(ModuleSpecifier::parse("asset:///lib.d.ts").unwrap().is_asset());
    assert!(!ModuleSpecifier::parse("file:///lib.d.ts").unwrap().is_asset());
}

#[test]
fn parsing_serializes_the_url() {
    let spec = ModuleSpecifier::parse("HTTPS://Deno.Land/x/../mod.ts").unwrap();
    assert_eq!(spec.as_str(), "https://deno.land/mod.ts");
}
