use dns_bootstrap::catalog::to_lower;
use dns_bootstrap::catalog::Catalog;
use dns_bootstrap::config::ZoneDeclaration;
use dns_bootstrap::zones::build;
use dns_bootstrap::zones::ZoneCatalogBuilder;
use dns_bootstrap::zones::ZoneLoadError;

fn zone(name: &str) -> ZoneDeclaration {
    ZoneDeclaration {
        name: name.to_string(),
        file: format!("{name}zone"),
    }
}

#[test]
fn same_zone_twice_keeps_the_second_authority() {
    let zones = vec![zone("example.com."), zone("example.com.")];
    let catalog = build(zones, vec![Ok("first"), Ok("second")]).unwrap();
    assert_eq!(catalog.len(), 1);
    assert_eq!(catalog.find("example.com."), Some(&"second"));
}

#[test]
fn zone_names_ignore_case() {
    let mut catalog: Catalog<u32> = Catalog::new();
    assert!(catalog.is_empty());
    catalog.upsert("Example.COM.", 1);
    catalog.upsert("example.com.", 2);
    catalog.upsert("example.org.", 3);
    assert!(!catalog.is_empty());
    assert_eq!(catalog.len(), 2);
    assert_eq!(catalog.find("EXAMPLE.com."), Some(&2));
    assert_eq!(catalog.find("example.ORG."), Some(&3));
    assert_eq!(catalog.find("example.net."), None);
    assert!(catalog.contains("EXAMPLE.ORG."));
    assert!(!catalog.contains("example.org"));
    assert_eq!(catalog.names, vec!["example.com.", "example.org."]);
}

#[test]
fn only_ascii_letters_are_lowered() {
    assert_eq!(to_lower("AZ az@[`{ÀÉ09-_."), "az az@[`{ÀÉ09-_.");
    assert_eq!(to_lower(""), "");
}

#[test]
fn first_failed_zone_ends_the_build() {
    let zones = vec![zone("a."), zone("b."), zone("c.")];
    let built = build(
        zones,
        vec![
            Ok(1),
            Err("file not found".to_string()),
            Err("never reached".to_string()),
        ],
    );
    assert_eq!(
        built.unwrap_err(),
        ZoneLoadError {
            zone: "b.".to_string(),
            detail: "file not found".to_string(),
        }
    );
}

#[test]
fn zone_without_outcome_is_an_error() {
    let built = build(vec![zone("a."), zone("b.")], vec![Ok(1)]);
    let error = built.unwrap_err();
    assert_eq!(error.zone, "b.");
    assert_eq!(error.detail, "zone was not loaded");
    assert_eq!(error.message(), "could not load zone b.: zone was not loaded");
}

#[test]
fn no_zone_gives_an_empty_catalog() {
    let catalog = build::<u8>(vec![], vec![]).unwrap();
    assert!(catalog.is_empty());
    assert_eq!(catalog.len(), 0);
    let catalog = build(vec![], vec![Ok(1u8)]).unwrap();
    assert!(catalog.is_empty());
}

#[test]
fn builder_hands_out_zones_in_order() {
    let mut builder: ZoneCatalogBuilder<&str> =
        ZoneCatalogBuilder::new(vec![zone("b."), zone("a."), zone("B.")]);
    assert_eq!(builder.next().map(|zone| zone.name.as_str()), Some("b."));
    builder.loaded("one");
    assert_eq!(builder.next().map(|zone| zone.name.as_str()), Some("a."));
    builder.loaded("two");
    assert_eq!(builder.next().map(|zone| zone.name.as_str()), Some("B."));
    builder.loaded("three");
    assert!(builder.next().is_none());
    builder.loaded("four");
    let catalog = builder.finish().unwrap();
    assert_eq!(catalog.len(), 2);
    assert_eq!(catalog.find("b."), Some(&"three"));
    assert_eq!(catalog.find("a."), Some(&"two"));
}

#[test]
fn builder_stops_at_failure() {
    let mut builder: ZoneCatalogBuilder<u8> = ZoneCatalogBuilder::new(vec![zone("a."), zone("b.")]);
    builder.failed("bad zone".to_string());
    assert!(builder.next().is_none());
    builder.loaded(9);
    builder.failed("later".to_string());
    assert_eq!(builder.loaded, 0);
    assert_eq!(
        builder.finish().unwrap_err(),
        ZoneLoadError {
            zone: "a.".to_string(),
            detail: "bad zone".to_string(),
        }
    );
}
