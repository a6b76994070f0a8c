use surgeist_css::{
    conformance_exclusion, conformance_exclusions, feature_catalog, feature_metadata,
    specification_sources, CssExclusionReason, CssFeatureKind, CssSpecificationTier,
};

#[test]
fn exclusions_cite_registered_official_sources_named_in_their_ids() {
    let sources = specification_sources();
    for exclusion in conformance_exclusions() {
        let source = exclusion.source();
        assert_eq!(source.tier(), CssSpecificationTier::Snapshot2026Official);
        assert!(sources.iter().any(|s| s.id().as_str() == source.id().as_str()));
        let prefix = format!("excluded.{}.", source.id().as_str());
        assert!(exclusion.id().as_str().starts_with(&prefix), "{}", exclusion.id().as_str());
    }
}

#[test]
fn superseding_ids_come_only_with_supersession() {
    for exclusion in conformance_exclusions() {
        if let Some(ids) = exclusion.superseding_ids() {
            assert!(!ids.is_empty());
            assert_eq!(exclusion.reason(), CssExclusionReason::SupersededWithoutCurrentProduction);
        }
    }
    let media = conformance_exclusion("excluded.O-CSS2.superseded-media").unwrap();
    let ids: Vec<&str> = media.superseding_ids().unwrap().iter().map(|s| s.as_str()).collect();
    assert_eq!(ids, vec!["O-MEDIA3", "O-CONDITIONAL3"]);
    assert_eq!(conformance_exclusion("excluded.O-CSS2.informative-property.azimuth").unwrap().superseding_ids(), None);
}

#[test]
fn catalog_records_cite_registered_sources_and_describe_their_boundaries() {
    let sources = specification_sources();
    for feature in feature_catalog() {
        let source = feature.source();
        assert!(sources.iter().any(|s| s.id().as_str() == source.id().as_str()));
        if let Some(subset) = feature.supported_subset() {
            assert!(!subset.is_empty());
        }
        if let Some(remainder) = feature.unsupported_remainder() {
            assert!(!remainder.is_empty());
        }
        let id = feature.id().as_str();
        assert!(id.as_bytes()[0].is_ascii_lowercase());
        assert!(!id.starts_with("excluded."));
    }
}

#[test]
fn no_exclusion_carries_a_catalog_identity() {
    for exclusion in conformance_exclusions() {
        assert!(feature_metadata(exclusion.id().as_str()).is_none());
    }
    assert!(feature_metadata("excluded.O-CSS2.property.margin").is_none());
}

#[test]
fn exactly_four_alias_records_name_atomic_records() {
    let catalog = feature_catalog();
    let aliases: Vec<usize> = catalog
        .iter()
        .enumerate()
        .filter(|(_, f)| !f.baseline_alias_targets().is_empty())
        .map(|(i, _)| i)
        .collect();
    assert_eq!(aliases, vec![173, 175, 177, 178]);
    for i in aliases {
        for target in catalog[i].baseline_alias_targets() {
            let record = feature_metadata(target.as_str()).unwrap();
            assert!(record.baseline_alias_targets().is_empty());
        }
    }
}

#[test]
fn superseded_css2_properties_are_cited_from_later_official_modules() {
    let margin = conformance_exclusion("excluded.O-CSS2.property.margin").unwrap();
    let target = margin.superseding_ids().unwrap()[0];
    let record = feature_metadata(target.as_str()).unwrap();
    assert_eq!(record.kind(), CssFeatureKind::Property);
    assert_eq!(record.source().id().as_str(), "O-BOX3");
    let mut checked = 0;
    for exclusion in conformance_exclusions() {
        if exclusion.source().id().as_str() != "O-CSS2" {
            continue;
        }
        for id in exclusion.superseding_ids().unwrap_or(&[]) {
            if let Some(record) = feature_metadata(id.as_str()) {
                if record.kind() == CssFeatureKind::Property {
                    assert_ne!(record.source().id().as_str(), "O-CSS2");
                    assert_eq!(record.source().tier(), CssSpecificationTier::Snapshot2026Official);
                    checked += 1;
                }
            }
        }
    }
    assert_eq!(checked, 50);
}

#[test]
fn css2_properties_cite_their_chapter_and_others_their_default() {
    assert_eq!(
        feature_metadata("baseline.property.display").unwrap().production(),
        "visuren.html#propdef-display"
    );
    assert_eq!(feature_metadata("baseline.property.margin").unwrap().production(), "#propdef-margin");
    let mut properties = 0;
    for feature in feature_catalog() {
        if feature.kind() != CssFeatureKind::Property {
            continue;
        }
        let Some(metadata) = surgeist_css::property_metadata(feature.spelling()) else { continue };
        let fragment = format!("#propdef-{}", metadata.canonical_name());
        let production = feature.production();
        assert!(production.ends_with(&fragment), "{production}");
        let has_chapter = production.len() > fragment.len();
        assert_eq!(has_chapter, feature.source().id().as_str() == "O-CSS2", "{production}");
        properties += 1;
    }
    assert!(properties > 200);
}
