use surgeist_css::{
    conformance_exclusion, conformance_exclusions, feature_catalog, feature_metadata,
    property_metadata, specification_source, specification_sources, CssExclusionReason,
    CssFeatureKind, CssKnownProperty, CssSpecificationTier, CssSupportStatus,
};

#[test]
fn exact_lookup_exposes_named_status_metadata() {
    let importance =
        feature_metadata("foundation.declaration.importance").expect("importance metadata");
    assert_eq!(importance.status(), CssSupportStatus::Complete);
    assert_eq!(importance.supported_subset(), None);
    assert_eq!(importance.unsupported_remainder(), None);
    assert_eq!(importance.recognized_unsupported_code(), None);

    let import = feature_metadata("baseline.rule.import").expect("import metadata");
    assert_eq!(import.status(), CssSupportStatus::Complete);
    assert_eq!(import.supported_subset(), None);
    assert_eq!(import.unsupported_remainder(), None);
    assert_eq!(import.recognized_unsupported_code(), None);

    let namespace = feature_metadata("later.rule.namespace").expect("namespace metadata");
    assert_eq!(namespace.status(), CssSupportStatus::Complete);
    assert_eq!(namespace.supported_subset(), None);
    assert_eq!(namespace.unsupported_remainder(), None);
    assert_eq!(namespace.recognized_unsupported_code(), None);
}

#[test]
fn feature_lookup_is_exact_and_case_sensitive() {
    assert!(feature_metadata("baseline.rule.import").is_some());
    assert!(feature_metadata("BASELINE.RULE.IMPORT").is_none());
    assert!(feature_metadata(" baseline.rule.import").is_none());
    assert!(feature_metadata("").is_none());
    let import = feature_metadata("baseline.rule.import").unwrap();
    assert_eq!(import.id().as_str(), "baseline.rule.import");
}

#[test]
fn every_catalog_record_is_found_by_its_own_id() {
    let catalog = feature_catalog();
    assert!(!catalog.is_empty());
    for feature in &catalog {
        let found = feature_metadata(feature.id().as_str()).expect("catalog id resolves");
        assert_eq!(found.id().as_str(), feature.id().as_str());
    }
}

#[test]
fn catalog_records_state_subsets_exactly_for_partial_records() {
    for feature in feature_catalog() {
        let partial = feature.status() == CssSupportStatus::Partial;
        assert_eq!(feature.supported_subset().is_some(), partial);
        assert_eq!(feature.unsupported_remainder().is_some(), partial);
        let unsupported = feature.status() == CssSupportStatus::RecognizedUnsupported;
        assert_eq!(feature.recognized_unsupported_code().is_some(), unsupported);
    }
}

#[test]
fn property_lookup_ignores_ascii_case() {
    let lower = property_metadata("width").expect("width metadata");
    let upper = property_metadata("WIDTH").expect("WIDTH metadata");
    let mixed = property_metadata("WiDtH").expect("WiDtH metadata");
    assert_eq!(lower.canonical_name(), "width");
    assert_eq!(upper.canonical_name(), "width");
    assert_eq!(mixed.canonical_name(), "width");
    assert_eq!(lower.property(), CssKnownProperty::Width);
    assert_eq!(upper.property(), CssKnownProperty::Width);
    assert_eq!(lower.feature().kind(), CssFeatureKind::Property);
}

#[test]
fn property_lookup_rejects_custom_and_unknown_names() {
    assert!(property_metadata("--theme").is_none());
    assert!(property_metadata("not-a-property").is_none());
    assert!(property_metadata("").is_none());
    assert!(property_metadata(" width").is_none());
}

#[test]
fn source_registry_lookup_is_exact() {
    let sources = specification_sources();
    assert!(!sources.is_empty());
    for source in &sources {
        let found = specification_source(source.id().as_str()).expect("source id resolves");
        assert_eq!(found.id().as_str(), source.id().as_str());
        assert!(source.url().is_some() != source.repository_provenance().is_some());
    }
    let syntax = specification_source("O-SYNTAX3").expect("syntax source");
    assert_eq!(syntax.module(), "CSS Syntax");
    assert_eq!(syntax.tier(), CssSpecificationTier::Snapshot2026Official);
    assert_eq!(
        syntax.url(),
        Some("https://www.w3.org/TR/2021/CRD-css-syntax-3-20211224/")
    );
    assert!(specification_source("o-syntax3").is_none());
}

#[test]
fn exclusion_registry_lookup_is_exact() {
    let exclusions = conformance_exclusions();
    assert!(!exclusions.is_empty());
    for exclusion in &exclusions {
        let found = conformance_exclusion(exclusion.id().as_str()).expect("exclusion id resolves");
        assert_eq!(found.id().as_str(), exclusion.id().as_str());
    }
    let glyph = conformance_exclusion("excluded.O-WRITING3.property.glyph-orientation-horizontal")
        .expect("glyph orientation exclusion");
    assert_eq!(
        glyph.reason(),
        CssExclusionReason::SupersededWithoutCurrentProduction
    );
    let ids = glyph.superseding_ids().expect("superseding ids");
    assert_eq!(ids.len(), 1);
    assert_eq!(ids[0].as_str(), "official.property.text-orientation");
    assert!(conformance_exclusion("excluded.unknown").is_none());
}

#[test]
fn property_lookup_returns_only_records_with_a_property() {
    assert!(property_metadata("font-weight numeric range").is_none());
    let display = property_metadata("DiSpLaY").expect("display metadata");
    assert_eq!(display.feature().id().as_str(), "baseline.property.display");
    assert_eq!(display.property(), CssKnownProperty::Display);
    assert!(property_metadata("--display").is_none());
    assert!(property_metadata("displayx").is_none());
    assert!(feature_metadata("ext.property.font-weight-range").is_some());
}

#[test]
fn catalog_registries_have_their_documented_sizes() {
    let catalog = feature_catalog();
    assert_eq!(catalog.len(), 463);
    assert_eq!(catalog[0].id().as_str(), "baseline.rule.import");
    assert_eq!(catalog[462].id().as_str(), "ext.media.display-mode");
    assert_eq!(specification_sources().len(), 68);
    assert_eq!(conformance_exclusions().len(), 131);
}

#[test]
fn registry_identities_are_unique_and_resolve_to_their_records() {
    let catalog = feature_catalog();
    let ids: std::collections::BTreeSet<&str> = catalog.iter().map(|f| f.id().as_str()).collect();
    assert_eq!(ids.len(), catalog.len());
    for (i, feature) in catalog.iter().enumerate() {
        let found = feature_metadata(feature.id().as_str()).unwrap();
        let position = catalog.iter().position(|f| f.id().as_str() == found.id().as_str());
        assert_eq!(position, Some(i));
        assert_eq!(found.production(), feature.production());
    }

    let sources = specification_sources();
    let ids: std::collections::BTreeSet<&str> = sources.iter().map(|s| s.id().as_str()).collect();
    assert_eq!(ids.len(), sources.len());
    for source in &sources {
        let found = specification_source(source.id().as_str()).unwrap();
        assert_eq!(found.url(), source.url());
        assert_eq!(found.module(), source.module());
    }

    let exclusions = conformance_exclusions();
    let ids: std::collections::BTreeSet<&str> = exclusions.iter().map(|e| e.id().as_str()).collect();
    assert_eq!(ids.len(), exclusions.len());
    for exclusion in &exclusions {
        let found = conformance_exclusion(exclusion.id().as_str()).unwrap();
        assert_eq!(found.production(), exclusion.production());
    }
}
