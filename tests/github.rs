use ciso::github::{level_allows, repo_selected, search_query, AssetLevel, CustomProperty, CustomPropertyValue};
use ciso::publish::{at_most_one, page_step, publish_step, PageStep, PublishStep};

fn prop(name: &str, value: Option<CustomPropertyValue>) -> CustomProperty {
    CustomProperty { property_name: name.to_string(), value }
}

#[test]
fn level_from_props() {
    let props = vec![
        prop("team", Some(CustomPropertyValue::Array(vec!["a".to_string()]))),
        prop("repository-level", Some(CustomPropertyValue::String("Research & Development".to_string()))),
    ];
    assert_eq!(AssetLevel::get_from_props(&props), Some(AssetLevel::ResearchNDevelopment));
}

#[test]
fn level_missing_or_unknown() {
    assert_eq!(AssetLevel::get_from_props(&[]), None);
    assert_eq!(AssetLevel::get_from_props(&[prop("repository-level", None)]), None);
    let props = vec![prop("repository-level", Some(CustomPropertyValue::String("Other".to_string())))];
    assert_eq!(AssetLevel::get_from_props(&props), None);
}

#[test]
fn first_level_property_counts() {
    let props = vec![
        prop("repository-level", Some(CustomPropertyValue::String("Playground".to_string()))),
        prop("repository-level", Some(CustomPropertyValue::String("Production".to_string()))),
    ];
    assert_eq!(AssetLevel::get_from_props(&props), Some(AssetLevel::Playground));
}

#[test]
fn level_names() {
    assert_eq!(AssetLevel::NonEssentialProduction.to_string(), "Non-essential Production");
    assert_eq!(AssetLevel::from_name(&"Corporate".to_string()), Some(AssetLevel::Corporate));
}

#[test]
fn playground_and_unclassified_are_skipped() {
    assert!(!level_allows(None));
    assert!(!level_allows(Some(AssetLevel::Playground)));
    assert!(level_allows(Some(AssetLevel::Production)));
}

#[test]
fn repo_selection() {
    let none: Vec<String> = vec![];
    assert!(repo_selected(None, &"a".to_string(), &none));
    assert!(!repo_selected(Some(true), &"a".to_string(), &none));
    let only = vec!["b".to_string()];
    assert!(!repo_selected(Some(false), &"a".to_string(), &only));
    assert!(repo_selected(Some(false), &"b".to_string(), &only));
}

#[test]
fn queries() {
    assert_eq!(search_query("go.mod", None), "org:KittyCAD filename:go.mod");
    assert_eq!(
        search_query("Cargo.toml", Some("[workspace]")),
        "org:KittyCAD filename:Cargo.toml \"[workspace]\""
    );
}

#[test]
fn publish_steps() {
    let c = "x".to_string();
    assert_eq!(publish_step(&None, &c), PublishStep::CreateFile);
    assert_eq!(publish_step(&Some(Some("x".to_string())), &c), PublishStep::Unchanged);
    assert_eq!(publish_step(&Some(Some("y".to_string())), &c), PublishStep::UpdateFile);
    assert_eq!(publish_step(&Some(None), &c), PublishStep::UpdateFile);
}

#[test]
fn paging() {
    assert_eq!(page_step(1, true), PageStep::Done);
    assert_eq!(page_step(1, false), PageStep::Next(2));
    assert_eq!(page_step(4, false), PageStep::Next(5));
    assert_eq!(page_step(5, false), PageStep::LimitReached);
}

#[test]
fn single_listing_item() {
    assert_eq!(at_most_one::<u8>(vec![]), Ok(None));
    assert_eq!(at_most_one(vec![3u8]), Ok(Some(3)));
    assert_eq!(at_most_one(vec![3u8, 4]), Err(2));
}

#[test]
fn level_names_round_trip() {
    for l in [
        AssetLevel::Production,
        AssetLevel::Playground,
        AssetLevel::ResearchNDevelopment,
        AssetLevel::Corporate,
        AssetLevel::NonEssentialProduction,
    ] {
        assert_eq!(AssetLevel::from_name(&l.to_string()), Some(l));
    }
}
