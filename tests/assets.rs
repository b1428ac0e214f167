use tsc_bridge::assets::{AssetDocument, Assets};
use tsc_bridge::host::BridgeError;
use tsc_bridge::kinds::ScriptElementKind;
use tsc_bridge::navigation::NavigationTree;
use tsc_bridge::specifier::ModuleSpecifier;

fn tree(text: &str) -> NavigationTree {
    NavigationTree {
        text: text.to_string(),
        kind: ScriptElementKind::ScriptElement,
        kind_modifiers: String::new(),
        spans: Vec::new(),
        name_span: None,
        child_items: None,
    }
}

fn spec(s: &str) -> ModuleSpecifier {
    ModuleSpecifier::parse(s).unwrap()
}

#[test]
fn table_seeds_asset_uris() {
    let table = vec![("lib.d.ts".to_string(), "declare var x: number;".to_string())];
    let assets = Assets::from_table(&table);
    let doc = assets.get(&spec("asset:///lib.d.ts")).unwrap();
    assert_eq!(doc.text(), "declare var x: number;");
    assert!(doc.maybe_navigation_tree().is_none());
}

#[test]
fn initialize_keeps_existing_entries() {
    let mut assets = Assets::new();
    assets.insert_if_absent(AssetDocument::new(spec("asset:///a.d.ts"), "old"));
    assets.initialize(vec![
        AssetDocument::new(spec("asset:///a.d.ts"), "new"),
        AssetDocument::new(spec("asset:///b.d.ts"), "b"),
    ]);
    assert_eq!(assets.get(&spec("asset:///a.d.ts")).unwrap().text(), "old");
    assert_eq!(assets.get(&spec("asset:///b.d.ts")).unwrap().text(), "b");
}

#[test]
fn navigation_tree_is_attached_once() {
    let mut assets = Assets::new();
    assets.insert_if_absent(AssetDocument::new(spec("asset:///a.d.ts"), "text"));
    assert_eq!(assets.cache_navigation_tree(&spec("asset:///a.d.ts"), tree("first")), Ok(()));
    assert_eq!(assets.cache_navigation_tree(&spec("asset:///a.d.ts"), tree("second")), Ok(()));
    let doc = assets.get(&spec("asset:///a.d.ts")).unwrap();
    assert_eq!(doc.maybe_navigation_tree().unwrap().text, "first");
    assert_eq!(doc.text(), "text");
}

#[test]
fn missing_asset_is_reported() {
    let mut assets = Assets::new();
    assert_eq!(
        assets.cache_navigation_tree(&spec("asset:///none.d.ts"), tree("t")),
        Err(BridgeError::MissingAsset)
    );
    assert!(!assets.contains_key(&spec("asset:///none.d.ts")));
}
