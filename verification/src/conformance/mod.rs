//! The immutable CSS support catalog: specification sources, official conformance exclusions,
//! and the feature records that describe which authored syntax the parser supports.
//!
//! Records describe authored syntax only. They do not dispatch the parser, validate source,
//! perform selector/query matching, or resolve authored values.
use vstd::prelude::*;

use crate::error::{CssErrorCode, CssFeatureId};
use crate::properties::CssKnownProperty;
use crate::search::{first_match, is_first_match, lemma_first_match_at, lemma_first_match_none};
use crate::text::{
    eq_ignore_ascii_case, lemma_chars_ascii_case_eq_symmetric, lemma_chars_ascii_case_eq_transfer,
    str_ascii_case_eq, str_eq,
};

pub mod catalog_1;
pub mod catalog_2;
pub mod catalog_3;
pub mod catalog_4;
pub mod catalog_5;
pub mod catalog_6;
pub mod catalog_7;
pub mod catalog_8;
pub mod catalog_laws;
pub mod exclusions;
pub mod exclusion_ids;
pub mod exclusion_laws;
pub mod feature_ids;
pub mod source_ids;
pub mod identities;
pub mod property_laws;
pub mod property_sources;
pub mod sources;
pub mod supersession_laws;
pub mod texts;

pub use exclusion_ids::{exclusion_id_literal, lemma_exclusion_ids_spelled, lemma_exclusion_ids_unique, lemma_exclusion_lookup_finds_record};
pub use feature_ids::{feature_id_literal, lemma_feature_ids_spelled, lemma_feature_ids_unique, lemma_feature_lookup_finds_record};
pub use property_sources::{spec_property_source, spec_property_production, lemma_production_follows_css2_source};
pub use exclusion_laws::{exclusion_id_prefix, exclusion_cites_registered_official_source, superseding_ids_well_formed, exclusion_record_laws, lemma_exclusion_records_lawful, lemma_exclusion_ids_outside_catalog};
pub use supersession_laws::{css2_supersession_cites_later_official, lemma_css2_supersessions_cite_later_official};
pub use catalog_laws::{feature_cites_registered_source, boundary_descriptions_non_empty, feature_id_unmarked, feature_id_starts_lowercase, feature_id_dotted, feature_lists_no_aliases, property_production_names_spelling, feature_record_laws, lemma_property_sources_registered, lemma_feature_records_lawful};
pub use property_laws::{lemma_catalog_lacks_undotted_ids, lemma_property_aliases_round_trip, cites_chapter_fragment, lemma_css2_production_form};
pub use source_ids::{source_id_literal, lemma_source_ids_spelled, lemma_source_ids_unique, lemma_source_lookup_finds_record};

verus! {

/// The grammar-family role of one support-catalog feature.
///
/// This classification identifies authored syntax; it does not enable parsing, perform
/// contextual resolution, or imply support for sibling productions.
#[non_exhaustive]
#[derive(Clone, Copy, Debug, PartialEq, Eq, Hash, Structural)]
pub enum CssFeatureKind {
    /// An at-rule, qualified rule, or syntax-owned rule metadata production.
    Rule,
    /// A declaration or declaration-list production.
    Declaration,
    /// A descriptor within an owning at-rule.
    Descriptor,
    /// A shared authored-value production.
    Value,
    /// A recognized non-custom authored property production.
    Property,
    /// An explicitly parsed authored property alias with its own grammar and mapping.
    PropertyAlias,
    /// A selector production or finite selector spelling group.
    Selector,
    /// A media-query production or finite media-query spelling group.
    MediaQuery,
    /// A container-query production or finite container-query spelling group.
    ContainerQuery,
}

/// The bounded implementation state of one exact catalog production.
///
/// Callers can distinguish a complete production, a documented supported subset, and a
/// recognized spelling that is never retained as that production.
#[derive(Clone, Copy, Debug, PartialEq, Eq, Hash, Structural)]
pub enum CssSupportStatus {
    /// The complete identified production is implemented.
    Complete,
    /// Only the record's documented supported subset is implemented.
    Partial,
    /// The spelling is recognized but the production is not implemented.
    RecognizedUnsupported,
}

/// A stable identity for one immutable conformance source.
///
/// Source identities are registry-owned and cannot be forged by downstream callers.
#[derive(Clone, Copy, Debug, PartialEq, Eq, Hash)]
pub struct CssSpecificationSourceId(pub(crate) &'static str);

impl View for CssSpecificationSourceId {
    type V = Seq<char>;

    closed spec fn view(&self) -> Seq<char> {
        self.0@
    }
}

impl CssSpecificationSourceId {
    #[verifier::allow_in_spec]
    pub(crate) fn new(value: &'static str) -> Self
        returns
            CssSpecificationSourceId(value),
    {
        CssSpecificationSourceId(value)
    }

    /// Returns the exact stable source identity.
    pub fn as_str(self) -> (value: &'static str)
        ensures
            value@ == self@,
    {
        self.0
    }
}

/// The selected conformance-profile tier of a specification source.
///
/// A tier classifies provenance only. It never implies parser support.
#[non_exhaustive]
#[derive(Clone, Copy, Debug, PartialEq, Eq, Hash, Structural)]
pub enum CssSpecificationTier {
    /// An official dated source in the Snapshot 2026 profile.
    Snapshot2026Official,
    /// A reliable dated source preserved by the Snapshot 2026 profile.
    Snapshot2026Reliable,
    /// A stable dated source preserved by the Snapshot 2026 profile.
    Snapshot2026Stable,
    /// An interoperability source preserved by the Snapshot 2026 profile.
    Snapshot2026Interop,
    /// A deliberately selected Surgeist extension or repository baseline.
    SurgeistExtension,
    /// A standards-track source outside the selected profile.
    LaterStandard,
}

/// Immutable provenance for one support-catalog record.
///
/// Exactly one of [`Self::url`] and [`Self::repository_provenance`] is present. Values are
/// catalog-owned and cannot be constructed by downstream callers.
#[derive(Clone, Copy, Debug, PartialEq, Eq, Hash)]
pub struct CssSpecificationSource {
    pub(crate) id: CssSpecificationSourceId,
    pub(crate) module: &'static str,
    pub(crate) level: &'static str,
    pub(crate) tier: CssSpecificationTier,
    pub(crate) url: Option<&'static str>,
    pub(crate) repository_provenance: Option<&'static str>,
}

impl CssSpecificationSource {
    /// The stable source identity.
    pub closed spec fn spec_id(self) -> CssSpecificationSourceId {
        self.id
    }

    /// The specification module name.
    pub closed spec fn spec_module(self) -> &'static str {
        self.module
    }

    /// The module level or selected baseline slice.
    pub closed spec fn spec_level(self) -> &'static str {
        self.level
    }

    /// The conformance-profile tier.
    pub closed spec fn spec_tier(self) -> CssSpecificationTier {
        self.tier
    }

    /// The cited specification URL, when the record cites a specification.
    pub closed spec fn spec_url(self) -> Option<&'static str> {
        self.url
    }

    /// The cited baseline revision and path, when the record cites repository source.
    pub closed spec fn spec_repository_provenance(self) -> Option<&'static str> {
        self.repository_provenance
    }

    /// A well-formed source cites exactly one of a URL and a repository provenance, and only
    /// repository provenance belongs to the Surgeist extension tier.
    pub open spec fn wf(self) -> bool {
        &&& self.spec_url().is_some() != self.spec_repository_provenance().is_some()
        &&& self.spec_repository_provenance().is_some() ==> self.spec_tier()
            == CssSpecificationTier::SurgeistExtension
    }

    /// The record that [`Self::from_url`] builds from its parts.
    pub closed spec fn spec_from_url(id: &'static str, module: &'static str, level: &'static str, tier: CssSpecificationTier, value: &'static str) -> Self {
        CssSpecificationSource {
            id: CssSpecificationSourceId::new(id),
            module,
            level,
            tier,
            url: Some(value),
            repository_provenance: None,
        }
    }

    /// The parts of the record that [`Self::from_url`] builds.
    pub broadcast proof fn lemma_from_url_parts(id: &'static str, module: &'static str, level: &'static str, tier: CssSpecificationTier, value: &'static str)
        ensures
            #![trigger Self::spec_from_url(id, module, level, tier, value)]
            ({
                let r = Self::spec_from_url(id, module, level, tier, value);
                &&& r.spec_id()@ == id@
                &&& r.spec_module() == module
                &&& r.spec_level() == level
                &&& r.spec_tier() == tier
                &&& r.spec_url() == Some(value)
                &&& r.spec_repository_provenance() is None
            }),
    {
    }

    #[verifier::allow_in_spec]
    pub(crate) fn from_url(
        id: &'static str,
        module: &'static str,
        level: &'static str,
        tier: CssSpecificationTier,
        value: &'static str,
    ) -> Self
        returns
            Self::spec_from_url(id, module, level, tier, value),
    {
        CssSpecificationSource {
            id: CssSpecificationSourceId::new(id),
            module,
            level,
            tier,
            url: Some(value),
            repository_provenance: None,
        }
    }

    /// The record that [`Self::from_repository`] builds from its parts.
    pub closed spec fn spec_from_repository(id: &'static str, module: &'static str, level: &'static str, value: &'static str) -> Self {
        CssSpecificationSource {
            id: CssSpecificationSourceId::new(id),
            module,
            level,
            tier: CssSpecificationTier::SurgeistExtension,
            url: None,
            repository_provenance: Some(value),
        }
    }

    /// The parts of the record that [`Self::from_repository`] builds.
    pub broadcast proof fn lemma_from_repository_parts(id: &'static str, module: &'static str, level: &'static str, value: &'static str)
        ensures
            #![trigger Self::spec_from_repository(id, module, level, value)]
            ({
                let r = Self::spec_from_repository(id, module, level, value);
                &&& r.spec_id()@ == id@
                &&& r.spec_module() == module
                &&& r.spec_level() == level
                &&& r.spec_tier() == CssSpecificationTier::SurgeistExtension
                &&& r.spec_url() is None
                &&& r.spec_repository_provenance() == Some(value)
            }),
    {
    }

    #[verifier::allow_in_spec]
    pub(crate) fn from_repository(
        id: &'static str,
        module: &'static str,
        level: &'static str,
        value: &'static str,
    ) -> Self
        returns
            Self::spec_from_repository(id, module, level, value),
    {
        CssSpecificationSource {
            id: CssSpecificationSourceId::new(id),
            module,
            level,
            tier: CssSpecificationTier::SurgeistExtension,
            url: None,
            repository_provenance: Some(value),
        }
    }

    /// Returns the exact stable source identity.
    pub fn id(self) -> (id: CssSpecificationSourceId)
        ensures
            id == self.spec_id(),
    {
        self.id
    }

    /// Returns the specification module name.
    pub fn module(self) -> (module: &'static str)
        ensures
            module == self.spec_module(),
    {
        self.module
    }

    /// Returns the module level or exact selected baseline slice.
    pub fn level(self) -> (level: &'static str)
        ensures
            level == self.spec_level(),
    {
        self.level
    }

    /// Returns the source's conformance-profile tier.
    pub fn tier(self) -> (tier: CssSpecificationTier)
        ensures
            tier == self.spec_tier(),
    {
        self.tier
    }

    /// Returns the immutable specification URL, when this record cites a specification.
    pub fn url(self) -> (url: Option<&'static str>)
        ensures
            url == self.spec_url(),
    {
        self.url
    }

    /// Returns the exact baseline revision and path, when this record cites repository source.
    pub fn repository_provenance(self) -> (provenance: Option<&'static str>)
        ensures
            provenance == self.spec_repository_provenance(),
    {
        self.repository_provenance
    }
}

/// A stable identity for one official conformance exclusion.
#[derive(Clone, Copy, Debug, PartialEq, Eq, Hash)]
pub struct CssConformanceExclusionId(pub(crate) &'static str);

impl View for CssConformanceExclusionId {
    type V = Seq<char>;

    closed spec fn view(&self) -> Seq<char> {
        self.0@
    }
}

impl CssConformanceExclusionId {
    #[verifier::allow_in_spec]
    pub(crate) fn new(value: &'static str) -> Self
        returns
            CssConformanceExclusionId(value),
    {
        CssConformanceExclusionId(value)
    }

    /// Returns the exact stable exclusion identity.
    pub fn as_str(self) -> (value: &'static str)
        ensures
            value@ == self@,
    {
        self.0
    }
}

/// Why an official source item is not an authored parser-facing production.
#[non_exhaustive]
#[derive(Clone, Copy, Debug, PartialEq, Eq, Hash, Structural)]
pub enum CssExclusionReason {
    /// The source item is informative rather than a normative production.
    InformativeOnly,
    /// A selected source replaced the item without leaving a current production.
    SupersededWithoutCurrentProduction,
    /// The item specifies semantics outside strict authored CSS syntax.
    OutsideAuthoredSyntaxBoundary,
}

/// A stable identity for a source or production that supersedes an exclusion.
///
/// This semantic identity can name an active feature, a planned official feature, or a selected
/// source when the exclusion covers a broader source area.
#[derive(Clone, Copy, Debug, PartialEq, Eq, Hash)]
pub struct CssConformanceSupersedingId(pub(crate) &'static str);

impl View for CssConformanceSupersedingId {
    type V = Seq<char>;

    closed spec fn view(&self) -> Seq<char> {
        self.0@
    }
}

impl CssConformanceSupersedingId {
    /// The identity whose stable spelling is `value`.
    pub closed spec fn spec_new(value: &'static str) -> Self {
        CssConformanceSupersedingId(value)
    }

    /// The identity of a spelling and its view.
    pub broadcast proof fn lemma_spec_new_parts(value: &'static str)
        ensures
            #[trigger] Self::spec_new(value)@ == value@,
    {
    }

    /// The identity of a spelling is the record that holds it.
    pub(crate) broadcast proof fn lemma_spec_new_literal(value: &'static str)
        ensures
            #[trigger] Self::spec_new(value) == CssConformanceSupersedingId(value),
    {
    }

    /// Returns the exact stable superseding identity.
    pub fn as_str(self) -> (value: &'static str)
        ensures
            value@ == self@,
    {
        self.0
    }
}

/// Immutable metadata for one official conformance exclusion.
///
/// Exclusions are audit facts. They do not dispatch the parser, carry a support status, or
/// change how authored input is diagnosed.
#[derive(Clone, Copy, Debug, PartialEq, Eq, Hash)]
pub struct CssExclusionMetadata {
    pub(crate) id: CssConformanceExclusionId,
    pub(crate) source: CssSpecificationSource,
    pub(crate) production: &'static str,
    pub(crate) reason: CssExclusionReason,
    pub(crate) superseding_ids: Option<&'static [CssConformanceSupersedingId]>,
}

impl CssExclusionMetadata {
    /// The globally unique stable exclusion identity.
    pub closed spec fn spec_id(self) -> CssConformanceExclusionId {
        self.id
    }

    /// The official source containing the excluded item.
    pub closed spec fn spec_source(self) -> CssSpecificationSource {
        self.source
    }

    /// The excluded source area, production, or fragment.
    pub closed spec fn spec_production(self) -> &'static str {
        self.production
    }

    /// Why the item is excluded.
    pub closed spec fn spec_reason(self) -> CssExclusionReason {
        self.reason
    }

    /// The identities that supersede the item, when named.
    pub closed spec fn spec_superseding_ids(self) -> Option<&'static [CssConformanceSupersedingId]> {
        self.superseding_ids
    }

    /// A well-formed exclusion cites a well-formed source.
    pub open spec fn wf(self) -> bool {
        self.spec_source().wf()
    }

    /// The record that [`Self::new`] builds from its parts.
    pub closed spec fn spec_new(id: &'static str, source: CssSpecificationSource, production: &'static str, reason: CssExclusionReason, superseding_ids: Option<&'static [CssConformanceSupersedingId]>) -> Self {
        CssExclusionMetadata {
            id: CssConformanceExclusionId::new(id),
            source,
            production,
            reason,
            superseding_ids,
        }
    }

    /// The parts of the record that [`Self::new`] builds.
    pub broadcast proof fn lemma_new_parts(id: &'static str, source: CssSpecificationSource, production: &'static str, reason: CssExclusionReason, superseding_ids: Option<&'static [CssConformanceSupersedingId]>)
        ensures
            #![trigger Self::spec_new(id, source, production, reason, superseding_ids)]
            ({
                let r = Self::spec_new(id, source, production, reason, superseding_ids);
                &&& r.spec_id()@ == id@
                &&& r.spec_source() == source
                &&& r.spec_production() == production
                &&& r.spec_reason() == reason
                &&& r.spec_superseding_ids() == superseding_ids
            }),
    {
    }

    #[verifier::allow_in_spec]
    pub(crate) fn new(
        id: &'static str,
        source: CssSpecificationSource,
        production: &'static str,
        reason: CssExclusionReason,
        superseding_ids: Option<&'static [CssConformanceSupersedingId]>,
    ) -> Self
        returns
            Self::spec_new(id, source, production, reason, superseding_ids),
    {
        CssExclusionMetadata {
            id: CssConformanceExclusionId::new(id),
            source,
            production,
            reason,
            superseding_ids,
        }
    }

    /// Returns the globally unique stable exclusion identity.
    pub fn id(&self) -> (id: CssConformanceExclusionId)
        ensures
            id == self.spec_id(),
    {
        self.id
    }

    /// Returns the immutable official source containing the excluded item.
    pub fn source(&self) -> (source: CssSpecificationSource)
        ensures
            source == self.spec_source(),
    {
        self.source
    }

    /// Returns the exact source area, production, or fragment.
    pub fn production(&self) -> (production: &'static str)
        ensures
            production == self.spec_production(),
    {
        self.production
    }

    /// Returns why the item is excluded from authored syntax coverage.
    pub fn reason(&self) -> (reason: CssExclusionReason)
        ensures
            reason == self.spec_reason(),
    {
        self.reason
    }

    /// Returns stable IDs that supersede the item, when the contract names them.
    pub fn superseding_ids(&self) -> (ids: Option<&'static [CssConformanceSupersedingId]>)
        ensures
            ids == self.spec_superseding_ids(),
    {
        self.superseding_ids
    }
}

/// Whether a record is atomic or a preserved aggregate alias with immutable atomic targets.
#[derive(Clone, Copy, Debug, PartialEq, Eq, Hash)]
pub(crate) enum CssConformanceDisposition {
    Atomic,
    BaselineAlias(&'static [CssFeatureId]),
}

/// Immutable support metadata for one CSS production or preserved baseline alias.
///
/// Records describe authored syntax only. They do not dispatch the parser, validate source,
/// perform selector/query matching, or resolve authored values. The four aggregate aliases expose
/// immutable atomic targets and do not own parser dispatch. Fields and construction are
/// catalog-owned so stable identity and status invariants cannot be forged by downstream callers.
#[derive(Clone, Copy, Debug, PartialEq, Eq, Hash)]
pub struct CssFeatureMetadata {
    pub(crate) id: CssFeatureId,
    pub(crate) kind: CssFeatureKind,
    pub(crate) spelling: &'static str,
    pub(crate) source: CssSpecificationSource,
    pub(crate) production: &'static str,
    pub(crate) status: CssSupportStatus,
    pub(crate) supported_subset: Option<&'static str>,
    pub(crate) unsupported_remainder: Option<&'static str>,
    pub(crate) recognized_unsupported_code: Option<CssErrorCode>,
    pub(crate) disposition: CssConformanceDisposition,
    pub(crate) property: Option<CssKnownProperty>,
    pub(crate) property_aliases: &'static [&'static str],
}

impl CssFeatureMetadata {
    /// The globally unique stable feature identity.
    pub closed spec fn spec_id(self) -> CssFeatureId {
        self.id
    }

    /// The authored grammar-family role.
    pub closed spec fn spec_kind(self) -> CssFeatureKind {
        self.kind
    }

    /// The exact authored spelling or named grammar production.
    pub closed spec fn spec_spelling(self) -> &'static str {
        self.spelling
    }

    /// The specification or repository provenance.
    pub closed spec fn spec_source(self) -> CssSpecificationSource {
        self.source
    }

    /// The cited production or section name.
    pub closed spec fn spec_production(self) -> &'static str {
        self.production
    }

    /// The bounded implementation state.
    pub closed spec fn spec_status(self) -> CssSupportStatus {
        self.status
    }

    /// The implemented-subset description.
    pub closed spec fn spec_supported_subset(self) -> Option<&'static str> {
        self.supported_subset
    }

    /// The valid-but-unsupported description.
    pub closed spec fn spec_unsupported_remainder(self) -> Option<&'static str> {
        self.unsupported_remainder
    }

    /// The emitted root diagnostic code of a recognized-unsupported record.
    pub closed spec fn spec_recognized_unsupported_code(self) -> Option<CssErrorCode> {
        self.recognized_unsupported_code
    }

    /// The atomic targets of a preserved aggregate alias; empty for atomic records.
    pub closed spec fn spec_baseline_alias_targets(self) -> Seq<CssFeatureId> {
        match self.disposition {
            CssConformanceDisposition::Atomic => Seq::empty(),
            CssConformanceDisposition::BaselineAlias(targets) => targets@,
        }
    }

    /// Whether the record is a preserved aggregate alias.
    pub closed spec fn spec_is_baseline_alias(self) -> bool {
        self.disposition is BaselineAlias
    }

    /// The canonical property a property record describes.
    pub closed spec fn spec_property(self) -> Option<CssKnownProperty> {
        self.property
    }

    /// The reviewed authored aliases that normalize to the record's property.
    pub closed spec fn spec_property_aliases(self) -> Seq<&'static str> {
        self.property_aliases@
    }

    /// A well-formed record: descriptions are present exactly for partial records, a diagnostic
    /// code exactly for recognized-unsupported records, aliases are partial, only property records
    /// carry a property, only records with a property carry property aliases, and the source is
    /// well formed.
    pub open spec fn wf(self) -> bool {
        &&& (self.spec_status() == CssSupportStatus::Partial) == self.spec_supported_subset().is_some()
        &&& (self.spec_status() == CssSupportStatus::Partial) == self.spec_unsupported_remainder().is_some()
        &&& (self.spec_status() == CssSupportStatus::RecognizedUnsupported)
            == self.spec_recognized_unsupported_code().is_some()
        &&& self.spec_is_baseline_alias() ==> self.spec_status() == CssSupportStatus::Partial
        &&& !self.spec_is_baseline_alias() ==> self.spec_baseline_alias_targets().len() == 0
        &&& self.spec_property().is_some() ==> self.spec_kind() == CssFeatureKind::Property
        &&& self.spec_property_aliases().len() != 0 ==> self.spec_property().is_some()
        &&& self.spec_source().wf()
    }

    /// The record that [`Self::complete`] builds from its parts.
    pub closed spec fn spec_complete(id: &'static str, kind: CssFeatureKind, spelling: &'static str, source: CssSpecificationSource, production: &'static str) -> Self {
        CssFeatureMetadata {
            id: CssFeatureId::new(id),
            kind,
            spelling,
            source,
            production,
            status: CssSupportStatus::Complete,
            supported_subset: None,
            unsupported_remainder: None,
            recognized_unsupported_code: None,
            disposition: CssConformanceDisposition::Atomic,
            property: None,
            property_aliases: &[],
        }
    }

    /// The parts of the record that [`Self::complete`] builds.
    pub broadcast proof fn lemma_complete_parts(id: &'static str, kind: CssFeatureKind, spelling: &'static str, source: CssSpecificationSource, production: &'static str)
        ensures
            #![trigger Self::spec_complete(id, kind, spelling, source, production)]
            ({
                let r = Self::spec_complete(id, kind, spelling, source, production);
                &&& r.spec_id() == CssFeatureId::new(id)
                &&& r.spec_kind() == kind
                &&& r.spec_spelling() == spelling
                &&& r.spec_source() == source
                &&& r.spec_production() == production
                &&& r.spec_status() == CssSupportStatus::Complete
                &&& r.spec_supported_subset() is None
                &&& r.spec_unsupported_remainder() is None
                &&& r.spec_recognized_unsupported_code() is None
                &&& !r.spec_is_baseline_alias()
                &&& r.spec_baseline_alias_targets().len() == 0
                &&& r.spec_property() is None
                &&& r.spec_property_aliases().len() == 0
            }),
    {
    }

    #[verifier::allow_in_spec]
    pub(crate) fn complete(
        id: &'static str,
        kind: CssFeatureKind,
        spelling: &'static str,
        source: CssSpecificationSource,
        production: &'static str,
    ) -> Self
        returns
            Self::spec_complete(id, kind, spelling, source, production),
    {
        CssFeatureMetadata {
            id: CssFeatureId::new(id),
            kind,
            spelling,
            source,
            production,
            status: CssSupportStatus::Complete,
            supported_subset: None,
            unsupported_remainder: None,
            recognized_unsupported_code: None,
            disposition: CssConformanceDisposition::Atomic,
            property: None,
            property_aliases: &[],
        }
    }

    /// The record that [`Self::partial`] builds from its parts.
    pub closed spec fn spec_partial(id: &'static str, kind: CssFeatureKind, spelling: &'static str, source: CssSpecificationSource, production: &'static str, supported_subset: &'static str, unsupported_remainder: &'static str) -> Self {
        CssFeatureMetadata {
            id: CssFeatureId::new(id),
            kind,
            spelling,
            source,
            production,
            status: CssSupportStatus::Partial,
            supported_subset: Some(supported_subset),
            unsupported_remainder: Some(unsupported_remainder),
            recognized_unsupported_code: None,
            disposition: CssConformanceDisposition::Atomic,
            property: None,
            property_aliases: &[],
        }
    }

    /// The parts of the record that [`Self::partial`] builds.
    pub broadcast proof fn lemma_partial_parts(id: &'static str, kind: CssFeatureKind, spelling: &'static str, source: CssSpecificationSource, production: &'static str, supported_subset: &'static str, unsupported_remainder: &'static str)
        ensures
            #![trigger Self::spec_partial(id, kind, spelling, source, production, supported_subset, unsupported_remainder)]
            ({
                let r = Self::spec_partial(id, kind, spelling, source, production, supported_subset, unsupported_remainder);
                &&& r.spec_id() == CssFeatureId::new(id)
                &&& r.spec_kind() == kind
                &&& r.spec_spelling() == spelling
                &&& r.spec_source() == source
                &&& r.spec_production() == production
                &&& r.spec_status() == CssSupportStatus::Partial
                &&& r.spec_supported_subset() == Some(supported_subset)
                &&& r.spec_unsupported_remainder() == Some(unsupported_remainder)
                &&& r.spec_recognized_unsupported_code() is None
                &&& !r.spec_is_baseline_alias()
                &&& r.spec_baseline_alias_targets().len() == 0
                &&& r.spec_property() is None
                &&& r.spec_property_aliases().len() == 0
            }),
    {
    }

    #[verifier::allow_in_spec]
    pub(crate) fn partial(
        id: &'static str,
        kind: CssFeatureKind,
        spelling: &'static str,
        source: CssSpecificationSource,
        production: &'static str,
        supported_subset: &'static str,
        unsupported_remainder: &'static str,
    ) -> Self
        returns
            Self::spec_partial(id, kind, spelling, source, production, supported_subset, unsupported_remainder),
    {
        CssFeatureMetadata {
            id: CssFeatureId::new(id),
            kind,
            spelling,
            source,
            production,
            status: CssSupportStatus::Partial,
            supported_subset: Some(supported_subset),
            unsupported_remainder: Some(unsupported_remainder),
            recognized_unsupported_code: None,
            disposition: CssConformanceDisposition::Atomic,
            property: None,
            property_aliases: &[],
        }
    }

    /// The record that [`Self::baseline_alias`] builds from its parts.
    pub closed spec fn spec_baseline_alias(id: &'static str, kind: CssFeatureKind, spelling: &'static str, source: CssSpecificationSource, production: &'static str, boundary: (&'static str, &'static str), targets: &'static [CssFeatureId]) -> Self {
        CssFeatureMetadata {
            id: CssFeatureId::new(id),
            kind,
            spelling,
            source,
            production,
            status: CssSupportStatus::Partial,
            supported_subset: Some(boundary.0),
            unsupported_remainder: Some(boundary.1),
            recognized_unsupported_code: None,
            disposition: CssConformanceDisposition::BaselineAlias(targets),
            property: None,
            property_aliases: &[],
        }
    }

    /// The parts of the record that [`Self::baseline_alias`] builds.
    pub broadcast proof fn lemma_baseline_alias_parts(id: &'static str, kind: CssFeatureKind, spelling: &'static str, source: CssSpecificationSource, production: &'static str, boundary: (&'static str, &'static str), targets: &'static [CssFeatureId])
        ensures
            #![trigger Self::spec_baseline_alias(id, kind, spelling, source, production, boundary, targets)]
            ({
                let r = Self::spec_baseline_alias(id, kind, spelling, source, production, boundary, targets);
                &&& r.spec_id() == CssFeatureId::new(id)
                &&& r.spec_kind() == kind
                &&& r.spec_spelling() == spelling
                &&& r.spec_source() == source
                &&& r.spec_production() == production
                &&& r.spec_status() == CssSupportStatus::Partial
                &&& r.spec_supported_subset() == Some(boundary.0)
                &&& r.spec_unsupported_remainder() == Some(boundary.1)
                &&& r.spec_recognized_unsupported_code() is None
                &&& r.spec_is_baseline_alias()
                &&& r.spec_baseline_alias_targets() == targets@
                &&& r.spec_property() is None
                &&& r.spec_property_aliases().len() == 0
            }),
    {
    }

    #[verifier::allow_in_spec]
    pub(crate) fn baseline_alias(
        id: &'static str,
        kind: CssFeatureKind,
        spelling: &'static str,
        source: CssSpecificationSource,
        production: &'static str,
        boundary: (&'static str, &'static str),
        targets: &'static [CssFeatureId],
    ) -> Self
        returns
            Self::spec_baseline_alias(id, kind, spelling, source, production, boundary, targets),
    {
        CssFeatureMetadata {
            id: CssFeatureId::new(id),
            kind,
            spelling,
            source,
            production,
            status: CssSupportStatus::Partial,
            supported_subset: Some(boundary.0),
            unsupported_remainder: Some(boundary.1),
            recognized_unsupported_code: None,
            disposition: CssConformanceDisposition::BaselineAlias(targets),
            property: None,
            property_aliases: &[],
        }
    }

    /// The record that [`Self::recognized_unsupported`] builds from its parts.
    pub closed spec fn spec_recognized_unsupported(id: &'static str, kind: CssFeatureKind, spelling: &'static str, source: CssSpecificationSource, production: &'static str, code: CssErrorCode) -> Self {
        CssFeatureMetadata {
            id: CssFeatureId::new(id),
            kind,
            spelling,
            source,
            production,
            status: CssSupportStatus::RecognizedUnsupported,
            supported_subset: None,
            unsupported_remainder: None,
            recognized_unsupported_code: Some(code),
            disposition: CssConformanceDisposition::Atomic,
            property: None,
            property_aliases: &[],
        }
    }

    /// The parts of the record that [`Self::recognized_unsupported`] builds.
    pub broadcast proof fn lemma_recognized_unsupported_parts(id: &'static str, kind: CssFeatureKind, spelling: &'static str, source: CssSpecificationSource, production: &'static str, code: CssErrorCode)
        ensures
            #![trigger Self::spec_recognized_unsupported(id, kind, spelling, source, production, code)]
            ({
                let r = Self::spec_recognized_unsupported(id, kind, spelling, source, production, code);
                &&& r.spec_id() == CssFeatureId::new(id)
                &&& r.spec_kind() == kind
                &&& r.spec_spelling() == spelling
                &&& r.spec_source() == source
                &&& r.spec_production() == production
                &&& r.spec_status() == CssSupportStatus::RecognizedUnsupported
                &&& r.spec_supported_subset() is None
                &&& r.spec_unsupported_remainder() is None
                &&& r.spec_recognized_unsupported_code() == Some(code)
                &&& !r.spec_is_baseline_alias()
                &&& r.spec_baseline_alias_targets().len() == 0
                &&& r.spec_property() is None
                &&& r.spec_property_aliases().len() == 0
            }),
    {
    }

    #[verifier::allow_in_spec]
    pub(crate) fn recognized_unsupported(
        id: &'static str,
        kind: CssFeatureKind,
        spelling: &'static str,
        source: CssSpecificationSource,
        production: &'static str,
        code: CssErrorCode,
    ) -> Self
        returns
            Self::spec_recognized_unsupported(id, kind, spelling, source, production, code),
    {
        CssFeatureMetadata {
            id: CssFeatureId::new(id),
            kind,
            spelling,
            source,
            production,
            status: CssSupportStatus::RecognizedUnsupported,
            supported_subset: None,
            unsupported_remainder: None,
            recognized_unsupported_code: Some(code),
            disposition: CssConformanceDisposition::Atomic,
            property: None,
            property_aliases: &[],
        }
    }

    /// The record that [`Self::partial_property`] builds from its parts.
    pub closed spec fn spec_partial_property(id: &'static str, property: CssKnownProperty, canonical_name: &'static str, production: &'static str, aliases: &'static [&'static str]) -> Self {
        CssFeatureMetadata {
            id: CssFeatureId::new(id),
            kind: CssFeatureKind::Property,
            spelling: canonical_name,
            source: property_sources::spec_property_source(property),
            production: property_sources::spec_property_production(property, production),
            status: CssSupportStatus::Partial,
            supported_subset: Some(texts::property_subset()),
            unsupported_remainder: Some(texts::property_remainder()),
            recognized_unsupported_code: None,
            disposition: CssConformanceDisposition::Atomic,
            property: Some(property),
            property_aliases: aliases,
        }
    }

    /// The parts of the record that [`Self::partial_property`] builds.
    pub broadcast proof fn lemma_partial_property_parts(id: &'static str, property: CssKnownProperty, canonical_name: &'static str, production: &'static str, aliases: &'static [&'static str])
        ensures
            #![trigger Self::spec_partial_property(id, property, canonical_name, production, aliases)]
            ({
                let r = Self::spec_partial_property(id, property, canonical_name, production, aliases);
                &&& r.spec_id() == CssFeatureId::new(id)
                &&& r.spec_kind() == CssFeatureKind::Property
                &&& r.spec_spelling() == canonical_name
                &&& r.spec_source() == property_sources::spec_property_source(property)
                &&& r.spec_production() == property_sources::spec_property_production(property, production)
                &&& r.spec_status() == CssSupportStatus::Partial
                &&& r.spec_supported_subset() == Some(texts::property_subset())
                &&& r.spec_unsupported_remainder() == Some(texts::property_remainder())
                &&& r.spec_recognized_unsupported_code() is None
                &&& !r.spec_is_baseline_alias()
                &&& r.spec_baseline_alias_targets().len() == 0
                &&& r.spec_property() == Some(property)
                &&& r.spec_property_aliases() == aliases@
            }),
    {
    }

    #[verifier::allow_in_spec]
    pub(crate) fn partial_property(
        id: &'static str,
        property: CssKnownProperty,
        canonical_name: &'static str,
        production: &'static str,
        aliases: &'static [&'static str],
    ) -> Self
        returns
            Self::spec_partial_property(id, property, canonical_name, production, aliases),
    {
        CssFeatureMetadata {
            id: CssFeatureId::new(id),
            kind: CssFeatureKind::Property,
            spelling: canonical_name,
            source: property_sources::property_source(property),
            production: property_sources::property_production(property, production),
            status: CssSupportStatus::Partial,
            supported_subset: Some(texts::property_subset()),
            unsupported_remainder: Some(texts::property_remainder()),
            recognized_unsupported_code: None,
            disposition: CssConformanceDisposition::Atomic,
            property: Some(property),
            property_aliases: aliases,
        }
    }

    /// The record that [`Self::complete_property`] builds from its parts.
    pub closed spec fn spec_complete_property(id: &'static str, property: CssKnownProperty, canonical_name: &'static str, production: &'static str, aliases: &'static [&'static str]) -> Self {
        CssFeatureMetadata {
            id: CssFeatureId::new(id),
            kind: CssFeatureKind::Property,
            spelling: canonical_name,
            source: property_sources::spec_property_source(property),
            production: property_sources::spec_property_production(property, production),
            status: CssSupportStatus::Complete,
            supported_subset: None,
            unsupported_remainder: None,
            recognized_unsupported_code: None,
            disposition: CssConformanceDisposition::Atomic,
            property: Some(property),
            property_aliases: aliases,
        }
    }

    /// The parts of the record that [`Self::complete_property`] builds.
    pub broadcast proof fn lemma_complete_property_parts(id: &'static str, property: CssKnownProperty, canonical_name: &'static str, production: &'static str, aliases: &'static [&'static str])
        ensures
            #![trigger Self::spec_complete_property(id, property, canonical_name, production, aliases)]
            ({
                let r = Self::spec_complete_property(id, property, canonical_name, production, aliases);
                &&& r.spec_id() == CssFeatureId::new(id)
                &&& r.spec_kind() == CssFeatureKind::Property
                &&& r.spec_spelling() == canonical_name
                &&& r.spec_source() == property_sources::spec_property_source(property)
                &&& r.spec_production() == property_sources::spec_property_production(property, production)
                &&& r.spec_status() == CssSupportStatus::Complete
                &&& r.spec_supported_subset() is None
                &&& r.spec_unsupported_remainder() is None
                &&& r.spec_recognized_unsupported_code() is None
                &&& !r.spec_is_baseline_alias()
                &&& r.spec_baseline_alias_targets().len() == 0
                &&& r.spec_property() == Some(property)
                &&& r.spec_property_aliases() == aliases@
            }),
    {
    }

    #[verifier::allow_in_spec]
    pub(crate) fn complete_property(
        id: &'static str,
        property: CssKnownProperty,
        canonical_name: &'static str,
        production: &'static str,
        aliases: &'static [&'static str],
    ) -> Self
        returns
            Self::spec_complete_property(id, property, canonical_name, production, aliases),
    {
        CssFeatureMetadata {
            id: CssFeatureId::new(id),
            kind: CssFeatureKind::Property,
            spelling: canonical_name,
            source: property_sources::property_source(property),
            production: property_sources::property_production(property, production),
            status: CssSupportStatus::Complete,
            supported_subset: None,
            unsupported_remainder: None,
            recognized_unsupported_code: None,
            disposition: CssConformanceDisposition::Atomic,
            property: Some(property),
            property_aliases: aliases,
        }
    }

    /// The record that [`Self::partial_property_with_boundary`] builds from its parts.
    pub closed spec fn spec_partial_property_with_boundary(id: &'static str, property: CssKnownProperty, canonical_name: &'static str, production: &'static str, aliases: &'static [&'static str], supported_subset: &'static str, unsupported_remainder: &'static str) -> Self {
        CssFeatureMetadata {
            id: CssFeatureId::new(id),
            kind: CssFeatureKind::Property,
            spelling: canonical_name,
            source: property_sources::spec_property_source(property),
            production: property_sources::spec_property_production(property, production),
            status: CssSupportStatus::Partial,
            supported_subset: Some(supported_subset),
            unsupported_remainder: Some(unsupported_remainder),
            recognized_unsupported_code: None,
            disposition: CssConformanceDisposition::Atomic,
            property: Some(property),
            property_aliases: aliases,
        }
    }

    /// The parts of the record that [`Self::partial_property_with_boundary`] builds.
    pub broadcast proof fn lemma_partial_property_with_boundary_parts(id: &'static str, property: CssKnownProperty, canonical_name: &'static str, production: &'static str, aliases: &'static [&'static str], supported_subset: &'static str, unsupported_remainder: &'static str)
        ensures
            #![trigger Self::spec_partial_property_with_boundary(id, property, canonical_name, production, aliases, supported_subset, unsupported_remainder)]
            ({
                let r = Self::spec_partial_property_with_boundary(id, property, canonical_name, production, aliases, supported_subset, unsupported_remainder);
                &&& r.spec_id() == CssFeatureId::new(id)
                &&& r.spec_kind() == CssFeatureKind::Property
                &&& r.spec_spelling() == canonical_name
                &&& r.spec_source() == property_sources::spec_property_source(property)
                &&& r.spec_production() == property_sources::spec_property_production(property, production)
                &&& r.spec_status() == CssSupportStatus::Partial
                &&& r.spec_supported_subset() == Some(supported_subset)
                &&& r.spec_unsupported_remainder() == Some(unsupported_remainder)
                &&& r.spec_recognized_unsupported_code() is None
                &&& !r.spec_is_baseline_alias()
                &&& r.spec_baseline_alias_targets().len() == 0
                &&& r.spec_property() == Some(property)
                &&& r.spec_property_aliases() == aliases@
            }),
    {
    }

    #[verifier::allow_in_spec]
    pub(crate) fn partial_property_with_boundary(
        id: &'static str,
        property: CssKnownProperty,
        canonical_name: &'static str,
        production: &'static str,
        aliases: &'static [&'static str],
        supported_subset: &'static str,
        unsupported_remainder: &'static str,
    ) -> Self
        returns
            Self::spec_partial_property_with_boundary(id, property, canonical_name, production, aliases, supported_subset, unsupported_remainder),
    {
        CssFeatureMetadata {
            id: CssFeatureId::new(id),
            kind: CssFeatureKind::Property,
            spelling: canonical_name,
            source: property_sources::property_source(property),
            production: property_sources::property_production(property, production),
            status: CssSupportStatus::Partial,
            supported_subset: Some(supported_subset),
            unsupported_remainder: Some(unsupported_remainder),
            recognized_unsupported_code: None,
            disposition: CssConformanceDisposition::Atomic,
            property: Some(property),
            property_aliases: aliases,
        }
    }

    /// Returns the globally unique stable feature identity.
    pub fn id(&self) -> (id: CssFeatureId)
        ensures
            id == self.spec_id(),
    {
        self.id
    }

    /// Returns the authored grammar-family role.
    pub fn kind(&self) -> (kind: CssFeatureKind)
        ensures
            kind == self.spec_kind(),
    {
        self.kind
    }

    /// Returns the exact authored spelling or named grammar production.
    pub fn spelling(&self) -> (spelling: &'static str)
        ensures
            spelling == self.spec_spelling(),
    {
        self.spelling
    }

    /// Returns the immutable specification or repository provenance.
    pub fn source(&self) -> (source: CssSpecificationSource)
        ensures
            source == self.spec_source(),
    {
        self.source
    }

    /// Returns the exact cited production or section name.
    pub fn production(&self) -> (production: &'static str)
        ensures
            production == self.spec_production(),
    {
        self.production
    }

    /// Returns the bounded implementation state.
    pub fn status(&self) -> (status: CssSupportStatus)
        ensures
            status == self.spec_status(),
    {
        self.status
    }

    /// Returns the non-empty implemented-subset description exactly for partial records.
    pub fn supported_subset(&self) -> (subset: Option<&'static str>)
        ensures
            subset == self.spec_supported_subset(),
    {
        self.supported_subset
    }

    /// Returns the non-empty valid-but-unsupported description exactly for partial records.
    pub fn unsupported_remainder(&self) -> (remainder: Option<&'static str>)
        ensures
            remainder == self.spec_unsupported_remainder(),
    {
        self.unsupported_remainder
    }

    /// Returns the emitted root diagnostic code exactly for recognized-unsupported records.
    ///
    /// The complete diagnostic identity is this code together with [`Self::id`].
    pub fn recognized_unsupported_code(&self) -> (code: Option<CssErrorCode>)
        ensures
            code == self.spec_recognized_unsupported_code(),
    {
        self.recognized_unsupported_code
    }

    /// Returns the immutable atomic targets of a preserved aggregate alias.
    ///
    /// Atomic parser-facing records return an empty slice.
    pub fn baseline_alias_targets(&self) -> (targets: &'static [CssFeatureId])
        ensures
            targets@ == self.spec_baseline_alias_targets(),
    {
        match self.disposition {
            CssConformanceDisposition::Atomic => &[],
            CssConformanceDisposition::BaselineAlias(targets) => targets,
        }
    }
}

/// Immutable catalog metadata for one recognized non-custom authored CSS property.
///
/// The metadata reports parser support; it does not apply cascade, substitute variables, resolve
/// values, or dispatch property parsing. Construction is catalog-owned so callers cannot forge a
/// property-to-feature association.
#[derive(Clone, Copy, Debug, PartialEq, Eq, Hash)]
pub struct CssPropertyMetadata {
    pub(crate) feature: CssFeatureMetadata,
}

impl CssPropertyMetadata {
    /// The underlying support-catalog record.
    pub closed spec fn spec_feature(self) -> CssFeatureMetadata {
        self.feature
    }

    /// Returns the underlying support-catalog record.
    pub fn feature(&self) -> (feature: &CssFeatureMetadata)
        ensures
            *feature == self.spec_feature(),
    {
        &self.feature
    }

    /// Every property metadata wraps a catalog record that describes a property.
    #[verifier::type_invariant]
    spec fn wraps_property(self) -> bool {
        self.feature.spec_property().is_some()
    }

    /// Returns the canonical authored property identity.
    pub fn property(&self) -> (property: CssKnownProperty)
        ensures
            Some(property) == self.spec_feature().spec_property(),
    {
        proof {
            use_type_invariant(self);
        }
        self.feature.property.unwrap()
    }

    /// Returns the canonical lowercase authored property spelling.
    pub fn canonical_name(&self) -> (name: &'static str)
        ensures
            name == self.spec_feature().spec_spelling(),
    {
        self.feature.spelling
    }

    /// Returns reviewed authored aliases that normalize to this property.
    pub fn aliases(&self) -> (aliases: &'static [&'static str])
        ensures
            aliases@ == self.spec_feature().spec_property_aliases(),
    {
        self.feature.property_aliases
    }
}


/// Appends one well-formed record to a list of well-formed records.
pub(crate) fn push_feature(records: &mut Vec<CssFeatureMetadata>, feature: CssFeatureMetadata)
    requires
        feature.wf(),
        forall|i: int| 0 <= i < old(records)@.len() ==> (#[trigger] old(records)@[i]).wf(),
    ensures
        final(records)@ == old(records)@.push(feature),
        forall|i: int| 0 <= i < final(records)@.len() ==> (#[trigger] final(records)@[i]).wf(),
{
    records.push(feature);
}

/// Appends one well-formed exclusion to a list of well-formed exclusions.
pub(crate) fn push_exclusion(exclusions: &mut Vec<CssExclusionMetadata>, exclusion: CssExclusionMetadata)
    requires
        exclusion.wf(),
        forall|i: int| 0 <= i < old(exclusions)@.len() ==> (#[trigger] old(exclusions)@[i]).wf(),
    ensures
        final(exclusions)@ == old(exclusions)@.push(exclusion),
        forall|i: int| 0 <= i < final(exclusions)@.len() ==> (#[trigger] final(exclusions)@[i]).wf(),
{
    exclusions.push(exclusion);
}

/// The immutable support catalog in stable inventory order.
#[verifier::opaque]
pub open spec fn spec_feature_catalog() -> Seq<CssFeatureMetadata> {
    catalog_1::features() + catalog_2::features() + catalog_3::features() + catalog_4::features()
        + catalog_5::features() + catalog_6::features() + catalog_7::features()
        + catalog_8::features()
}

/// The immutable specification-source registry in stable declaration order.
#[verifier::opaque]
pub open spec fn spec_specification_sources() -> Seq<CssSpecificationSource> {
    sources::source_list()
}

/// The immutable official conformance-exclusion registry in stable declaration order.
#[verifier::opaque]
pub open spec fn spec_conformance_exclusions() -> Seq<CssExclusionMetadata> {
    exclusions::exclusion_list()
}

/// Whether a feature record carries the stable identity spelled `id`.
pub open spec fn feature_has_id(feature: CssFeatureMetadata, id: Seq<char>) -> bool {
    feature.spec_id()@ == id
}

/// Whether a source record carries the stable identity spelled `id`.
pub open spec fn source_has_id(source: CssSpecificationSource, id: Seq<char>) -> bool {
    source.spec_id()@ == id
}

/// Whether an exclusion record carries the stable identity spelled `id`.
pub open spec fn exclusion_has_id(exclusion: CssExclusionMetadata, id: Seq<char>) -> bool {
    exclusion.spec_id()@ == id
}

/// Whether a catalog record describes an authored property named `name`: a property record
/// that carries a property identity and whose canonical spelling or one of whose aliases equals
/// `name` ignoring ASCII case.
pub open spec fn feature_names_property(feature: CssFeatureMetadata, name: &str) -> bool {
    &&& feature.spec_kind() == CssFeatureKind::Property
    &&& feature.spec_property().is_some()
    &&& {
        ||| str_ascii_case_eq(feature.spec_spelling(), name)
        ||| exists|k: int|
            0 <= k < feature.spec_property_aliases().len() && str_ascii_case_eq(
                #[trigger] feature.spec_property_aliases()[k],
                name,
            )
    }
}

/// Returns the immutable support catalog in stable inventory order.
///
/// Preserved records retain their exact lookup identities, and later atomic records retain
/// their source-specific identities. Every record is well formed.
pub fn feature_catalog() -> (catalog: Vec<CssFeatureMetadata>)
    ensures
        catalog@ == spec_feature_catalog(),
        forall|i: int| 0 <= i < catalog@.len() ==> (#[trigger] catalog@[i]).wf(),
{
    proof {
        reveal(spec_feature_catalog);
    }
    let mut catalog = catalog_1::feature_records();
    let mut part = catalog_2::feature_records();
    catalog.append(&mut part);
    let mut part = catalog_3::feature_records();
    catalog.append(&mut part);
    let mut part = catalog_4::feature_records();
    catalog.append(&mut part);
    let mut part = catalog_5::feature_records();
    catalog.append(&mut part);
    let mut part = catalog_6::feature_records();
    catalog.append(&mut part);
    let mut part = catalog_7::feature_records();
    catalog.append(&mut part);
    let mut part = catalog_8::feature_records();
    catalog.append(&mut part);
    catalog
}

/// Returns the immutable specification-source registry in stable declaration order.
///
/// Every source cites exactly one of a URL and a repository provenance.
pub fn specification_sources() -> (sources: Vec<CssSpecificationSource>)
    ensures
        sources@ == spec_specification_sources(),
        forall|i: int| 0 <= i < sources@.len() ==> (#[trigger] sources@[i]).wf(),
{
    proof {
        reveal(spec_specification_sources);
    }
    sources::source_registry()
}

/// Returns the specification source for an exact stable source ID.
///
/// Lookup is case-sensitive and performs no trimming or aliasing.
pub fn specification_source(id: &str) -> (source: Option<CssSpecificationSource>)
    ensures
        source == first_match(spec_specification_sources(), |s: CssSpecificationSource| source_has_id(s, id@)),
        source matches Some(s) ==> source_has_id(s, id@) && spec_specification_sources().contains(s),
        source is None <==> forall|i: int|
            0 <= i < spec_specification_sources().len() ==> !source_has_id(
                #[trigger] spec_specification_sources()[i],
                id@,
            ),
{
    let sources = specification_sources();
    let ghost wanted = |s: CssSpecificationSource| source_has_id(s, id@);
    let mut i: usize = 0;
    while i < sources.len()
        invariant
            wanted == (|s: CssSpecificationSource| source_has_id(s, id@)),
            sources@ == spec_specification_sources(),
            0 <= i <= sources@.len(),
            forall|j: int| 0 <= j < i ==> !wanted(#[trigger] sources@[j]),
        decreases sources@.len() - i,
    {
        if str_eq(sources[i].id.as_str(), id) {
            proof {
                lemma_first_match_at(sources@, wanted, i as int);
                assert(sources@.contains(sources@[i as int]));
            }
            return Some(sources[i]);
        }
        i = i + 1;
    }
    proof {
        lemma_first_match_none(sources@, wanted);
    }
    None
}

/// Returns the immutable official conformance-exclusion registry.
pub fn conformance_exclusions() -> (exclusions: Vec<CssExclusionMetadata>)
    ensures
        exclusions@ == spec_conformance_exclusions(),
        forall|i: int| 0 <= i < exclusions@.len() ==> (#[trigger] exclusions@[i]).wf(),
{
    proof {
        reveal(spec_conformance_exclusions);
    }
    exclusions::exclusion_registry()
}

/// Returns exclusion metadata for an exact stable exclusion ID.
///
/// Lookup is case-sensitive and performs no trimming or aliasing.
pub fn conformance_exclusion(id: &str) -> (exclusion: Option<CssExclusionMetadata>)
    ensures
        exclusion == first_match(spec_conformance_exclusions(), |e: CssExclusionMetadata| exclusion_has_id(e, id@)),
        exclusion matches Some(e) ==> exclusion_has_id(e, id@) && spec_conformance_exclusions().contains(e),
        exclusion is None <==> forall|i: int|
            0 <= i < spec_conformance_exclusions().len() ==> !exclusion_has_id(
                #[trigger] spec_conformance_exclusions()[i],
                id@,
            ),
{
    let exclusions = conformance_exclusions();
    let ghost wanted = |e: CssExclusionMetadata| exclusion_has_id(e, id@);
    let mut i: usize = 0;
    while i < exclusions.len()
        invariant
            wanted == (|e: CssExclusionMetadata| exclusion_has_id(e, id@)),
            exclusions@ == spec_conformance_exclusions(),
            0 <= i <= exclusions@.len(),
            forall|j: int| 0 <= j < i ==> !wanted(#[trigger] exclusions@[j]),
        decreases exclusions@.len() - i,
    {
        if str_eq(exclusions[i].id.as_str(), id) {
            proof {
                lemma_first_match_at(exclusions@, wanted, i as int);
                assert(exclusions@.contains(exclusions@[i as int]));
            }
            return Some(exclusions[i]);
        }
        i = i + 1;
    }
    proof {
        lemma_first_match_none(exclusions@, wanted);
    }
    None
}

/// Returns metadata for an exact stable feature ID.
///
/// Lookup is case-sensitive and performs no trimming, aliasing, parser dispatch, or
/// property-name classification.
pub fn feature_metadata(id: &str) -> (feature: Option<CssFeatureMetadata>)
    ensures
        feature == first_match(spec_feature_catalog(), |f: CssFeatureMetadata| feature_has_id(f, id@)),
        feature matches Some(f) ==> feature_has_id(f, id@) && spec_feature_catalog().contains(f),
        feature is None <==> forall|i: int|
            0 <= i < spec_feature_catalog().len() ==> !feature_has_id(
                #[trigger] spec_feature_catalog()[i],
                id@,
            ),
{
    let catalog = feature_catalog();
    let ghost wanted = |f: CssFeatureMetadata| feature_has_id(f, id@);
    let mut i: usize = 0;
    while i < catalog.len()
        invariant
            wanted == (|f: CssFeatureMetadata| feature_has_id(f, id@)),
            catalog@ == spec_feature_catalog(),
            0 <= i <= catalog@.len(),
            forall|j: int| 0 <= j < i ==> !wanted(#[trigger] catalog@[j]),
        decreases catalog@.len() - i,
    {
        if str_eq(catalog[i].id.as_str(), id) {
            proof {
                lemma_first_match_at(catalog@, wanted, i as int);
                assert(catalog@.contains(catalog@[i as int]));
            }
            return Some(catalog[i]);
        }
        i = i + 1;
    }
    proof {
        lemma_first_match_none(catalog@, wanted);
    }
    None
}

/// Returns whether any alias in `aliases` equals `name` ignoring ASCII case.
fn any_alias_matches(aliases: &[&'static str], name: &str) -> (found: bool)
    ensures
        found == exists|k: int| 0 <= k < aliases@.len() && str_ascii_case_eq(#[trigger] aliases@[k], name),
{
    let mut k: usize = 0;
    while k < aliases.len()
        invariant
            0 <= k <= aliases@.len(),
            forall|j: int| 0 <= j < k ==> !str_ascii_case_eq(#[trigger] aliases@[j], name),
        decreases aliases@.len() - k,
    {
        if eq_ignore_ascii_case(aliases[k], name) {
            return true;
        }
        k = k + 1;
    }
    false
}

/// Returns metadata for a recognized non-custom authored property name.
///
/// Canonical names and reviewed aliases use ASCII-case-insensitive matching. Custom-property
/// names and unknown spellings return `None`; this lookup does not parse a declaration or classify
/// its diagnostics.
pub fn property_metadata(name: &str) -> (metadata: Option<CssPropertyMetadata>)
    ensures
        metadata matches Some(m) ==> Some(m.spec_feature()) == first_match(
            spec_feature_catalog(),
            |f: CssFeatureMetadata| feature_names_property(f, name),
        ),
        metadata is None ==> first_match(
            spec_feature_catalog(),
            |f: CssFeatureMetadata| feature_names_property(f, name),
        ) is None,
        metadata matches Some(m) ==> m.spec_feature().spec_kind() == CssFeatureKind::Property,
        metadata matches Some(m) ==> m.spec_feature().spec_property().is_some(),
        metadata matches Some(m) ==> spec_feature_catalog().contains(m.spec_feature()),
{
    let catalog = feature_catalog();
    let ghost wanted = |f: CssFeatureMetadata| feature_names_property(f, name);
    let mut i: usize = 0;
    while i < catalog.len()
        invariant
            wanted == (|f: CssFeatureMetadata| feature_names_property(f, name)),
            catalog@ == spec_feature_catalog(),
            0 <= i <= catalog@.len(),
            forall|j: int| 0 <= j < i ==> !wanted(#[trigger] catalog@[j]),
        decreases catalog@.len() - i,
    {
        let feature = catalog[i];
        let is_property = feature.kind == CssFeatureKind::Property && feature.property.is_some();
        if is_property && (eq_ignore_ascii_case(feature.spelling, name) || any_alias_matches(
            feature.property_aliases,
            name,
        )) {
            proof {
                if !str_ascii_case_eq(feature.spelling, name) {
                    let k = choose|k: int|
                        0 <= k < feature.property_aliases@.len() && str_ascii_case_eq(
                            #[trigger] feature.property_aliases@[k],
                            name,
                        );
                    assert(str_ascii_case_eq(feature.spec_property_aliases()[k], name));
                }
                assert(wanted(catalog@[i as int]));
                lemma_first_match_at(catalog@, wanted, i as int);
                assert(catalog@.contains(catalog@[i as int]));
            }
            return Some(CssPropertyMetadata { feature });
        }
        proof {
            if is_property && exists|k: int|
                0 <= k < feature.spec_property_aliases().len() && str_ascii_case_eq(
                    #[trigger] feature.spec_property_aliases()[k],
                    name,
                ) {
                let k = choose|k: int|
                    0 <= k < feature.spec_property_aliases().len() && str_ascii_case_eq(
                        #[trigger] feature.spec_property_aliases()[k],
                        name,
                    );
                assert(str_ascii_case_eq(feature.property_aliases@[k], name));
            }
        }
        i = i + 1;
    }
    proof {
        lemma_first_match_none(catalog@, wanted);
    }
    None
}

/// Property lookup ignores ASCII case: names equal ignoring ASCII case find the same catalog
/// record, or none alike.
pub proof fn lemma_property_lookup_ignores_ascii_case(a: &str, b: &str)
    requires
        str_ascii_case_eq(a, b),
    ensures
        first_match(spec_feature_catalog(), |f: CssFeatureMetadata| feature_names_property(f, a))
            == first_match(spec_feature_catalog(), |f: CssFeatureMetadata| feature_names_property(f, b)),
{
    let wanted_a = |f: CssFeatureMetadata| feature_names_property(f, a);
    let wanted_b = |f: CssFeatureMetadata| feature_names_property(f, b);
    assert forall|f: CssFeatureMetadata| #[trigger] wanted_a(f) == wanted_b(f) by {
        let spelling = f.spec_spelling();
        lemma_chars_ascii_case_eq_symmetric(spelling@, a@);
        lemma_chars_ascii_case_eq_symmetric(spelling@, b@);
        lemma_chars_ascii_case_eq_transfer(a@, b@, spelling@);
        if exists|k: int| 0 <= k < f.spec_property_aliases().len() && str_ascii_case_eq(#[trigger] f.spec_property_aliases()[k], a) {
            let k = choose|k: int| 0 <= k < f.spec_property_aliases().len() && str_ascii_case_eq(#[trigger] f.spec_property_aliases()[k], a);
            let alias = f.spec_property_aliases()[k];
            lemma_chars_ascii_case_eq_symmetric(alias@, a@);
            lemma_chars_ascii_case_eq_symmetric(alias@, b@);
            lemma_chars_ascii_case_eq_transfer(a@, b@, alias@);
            assert(str_ascii_case_eq(f.spec_property_aliases()[k], b));
        }
        if exists|k: int| 0 <= k < f.spec_property_aliases().len() && str_ascii_case_eq(#[trigger] f.spec_property_aliases()[k], b) {
            let k = choose|k: int| 0 <= k < f.spec_property_aliases().len() && str_ascii_case_eq(#[trigger] f.spec_property_aliases()[k], b);
            let alias = f.spec_property_aliases()[k];
            lemma_chars_ascii_case_eq_symmetric(alias@, a@);
            lemma_chars_ascii_case_eq_symmetric(alias@, b@);
            lemma_chars_ascii_case_eq_transfer(a@, b@, alias@);
            assert(str_ascii_case_eq(f.spec_property_aliases()[k], a));
        }
    }
    assert(wanted_a =~= wanted_b);
}

/// Whether `id` starts with `prefix`.
pub open spec fn has_prefix(id: Seq<char>, prefix: Seq<char>) -> bool {
    &&& id.len() >= prefix.len()
    &&& forall|k: int| 0 <= k < prefix.len() ==> id[k] == prefix[k]
}

/// The tier a source identity prefix names: `O-` official, `R-` reliable, `S-` stable, `I-`
/// interoperability, and `X-` or `I01-` the Surgeist extension.
pub open spec fn tier_of_prefix(id: Seq<char>) -> Option<CssSpecificationTier> {
    if has_prefix(id, "O-"@) {
        Some(CssSpecificationTier::Snapshot2026Official)
    } else if has_prefix(id, "R-"@) {
        Some(CssSpecificationTier::Snapshot2026Reliable)
    } else if has_prefix(id, "S-"@) {
        Some(CssSpecificationTier::Snapshot2026Stable)
    } else if has_prefix(id, "I-"@) {
        Some(CssSpecificationTier::Snapshot2026Interop)
    } else if has_prefix(id, "X-"@) || has_prefix(id, "I01-"@) {
        Some(CssSpecificationTier::SurgeistExtension)
    } else {
        None
    }
}

/// Whether a source follows the conformance profile: its tier is the one its identity prefix
/// names, and a cited URL is a W3C Technical Report URL.
pub open spec fn source_follows_profile(source: CssSpecificationSource) -> bool {
    &&& tier_of_prefix(source.spec_id()@) == Some(source.spec_tier())
    &&& source.spec_url() matches Some(url) ==> has_prefix(url@, "https://www.w3.org/TR/"@)
}

/// Every registered source follows the conformance profile.
pub proof fn lemma_registered_sources_follow_profile()
    ensures
        forall|i: int|
            0 <= i < spec_specification_sources().len() ==> #[trigger] source_follows_profile(
                spec_specification_sources()[i],
            ),
{
    reveal(spec_specification_sources);
    sources::lemma_sources_follow_profile();
}

/// The registries hold 463 catalog records, 68 specification sources, and 131 exclusions.
pub proof fn lemma_registry_sizes()
    ensures
        spec_feature_catalog().len() == 463,
        spec_specification_sources().len() == 68,
        spec_conformance_exclusions().len() == 131,
{
    reveal(spec_feature_catalog);
    reveal(spec_specification_sources);
    reveal(spec_conformance_exclusions);
    reveal(exclusions::exclusion_list);
    catalog_1::lemma_features_len();
    catalog_2::lemma_features_len();
    catalog_3::lemma_features_len();
    catalog_4::lemma_features_len();
    catalog_5::lemma_features_len();
    catalog_6::lemma_features_len();
    catalog_7::lemma_features_len();
    catalog_8::lemma_features_len();
    sources::lemma_source_list_len();
    exclusions::lemma_exclusions_1_len();
    exclusions::lemma_exclusions_2_len();
    exclusions::lemma_exclusions_3_len();
}

/// Whether every atomic target of an alias record names a record of the catalog.
pub open spec fn alias_targets_resolve(feature: CssFeatureMetadata) -> bool {
    forall|t: int|
        0 <= t < feature.spec_baseline_alias_targets().len() ==> exists|j: int|
            0 <= j < spec_feature_catalog().len() && #[trigger] spec_feature_catalog()[j].spec_id()
                == #[trigger] feature.spec_baseline_alias_targets()[t]
}

/// The atomic targets of every alias record name records of the catalog.
#[verifier::rlimit(100)]
pub proof fn lemma_alias_targets_resolve()
    ensures
        forall|i: int|
            0 <= i < spec_feature_catalog().len() ==> alias_targets_resolve(
                #[trigger] spec_feature_catalog()[i],
            ),
{
    lemma_registry_sizes();
    reveal(spec_feature_catalog);

    catalog_1::lemma_features_len();
    catalog_1::lemma_alias_facts();
    catalog_2::lemma_features_len();
    catalog_2::lemma_alias_facts();
    catalog_3::lemma_features_len();
    catalog_3::lemma_alias_facts();
    catalog_4::lemma_features_len();
    catalog_4::lemma_alias_facts();
    catalog_5::lemma_features_len();
    catalog_5::lemma_alias_facts();
    catalog_6::lemma_features_len();
    catalog_6::lemma_alias_facts();
    catalog_7::lemma_features_len();
    catalog_7::lemma_alias_facts();
    catalog_8::lemma_features_len();
    catalog_8::lemma_alias_facts();
    let c = spec_feature_catalog();
    assert forall|i: int| 0 <= i < 60 implies c[i] == catalog_1::features()[i - 0] by {}
    assert forall|i: int| 60 <= i < 120 implies c[i] == catalog_2::features()[i - 60] by {}
    assert forall|i: int| 120 <= i < 180 implies c[i] == catalog_3::features()[i - 120] by {}
    assert forall|i: int| 180 <= i < 240 implies c[i] == catalog_4::features()[i - 180] by {}
    assert forall|i: int| 240 <= i < 300 implies c[i] == catalog_5::features()[i - 240] by {}
    assert forall|i: int| 300 <= i < 360 implies c[i] == catalog_6::features()[i - 300] by {}
    assert forall|i: int| 360 <= i < 420 implies c[i] == catalog_7::features()[i - 360] by {}
    assert forall|i: int| 420 <= i < 463 implies c[i] == catalog_8::features()[i - 420] by {}
    assert(c[419].spec_id() == CssFeatureId::new("official.selector.generated"));
    assert(c[425].spec_id() == CssFeatureId::new("ext.pseudo-element.marker"));
    assert(c[426].spec_id() == CssFeatureId::new("ext.pseudo-element.selection"));
    assert(c[427].spec_id() == CssFeatureId::new("ext.pseudo-element.backdrop"));
    assert(c[428].spec_id() == CssFeatureId::new("ext.pseudo-element.generated-marker"));
    assert(alias_targets_resolve(c[173]));
    assert(c[429].spec_id() == CssFeatureId::new("official.media.query-list-core"));
    assert(c[430].spec_id() == CssFeatureId::new("ext.media.condition-syntax"));
    assert(c[431].spec_id() == CssFeatureId::new("ext.media.malformed-member-never"));
    assert(alias_targets_resolve(c[175]));
    assert(c[432].spec_id() == CssFeatureId::new("official.media.feature.width"));
    assert(c[433].spec_id() == CssFeatureId::new("official.media.feature.height"));
    assert(c[438].spec_id() == CssFeatureId::new("official.media.feature.resolution"));
    assert(c[439].spec_id() == CssFeatureId::new("official.media.feature.color"));
    assert(c[441].spec_id() == CssFeatureId::new("official.media.feature.monochrome"));
    assert(c[444].spec_id() == CssFeatureId::new("ext.media.resolution.dppx"));
    assert(c[447].spec_id() == CssFeatureId::new("ext.media.range.width"));
    assert(c[448].spec_id() == CssFeatureId::new("ext.media.range.height"));
    assert(c[449].spec_id() == CssFeatureId::new("ext.media.range.resolution"));
    assert(c[450].spec_id() == CssFeatureId::new("ext.media.range.color"));
    assert(c[451].spec_id() == CssFeatureId::new("ext.media.range.monochrome"));
    assert(alias_targets_resolve(c[177]));
    assert(c[452].spec_id() == CssFeatureId::new("official.media.feature.orientation"));
    assert(c[453].spec_id() == CssFeatureId::new("ext.media.hover"));
    assert(c[454].spec_id() == CssFeatureId::new("ext.media.any-hover"));
    assert(c[455].spec_id() == CssFeatureId::new("ext.media.pointer"));
    assert(c[456].spec_id() == CssFeatureId::new("ext.media.any-pointer"));
    assert(c[457].spec_id() == CssFeatureId::new("ext.media.prefers-color-scheme"));
    assert(c[458].spec_id() == CssFeatureId::new("ext.media.prefers-reduced-motion"));
    assert(c[459].spec_id() == CssFeatureId::new("ext.media.prefers-reduced-transparency"));
    assert(c[460].spec_id() == CssFeatureId::new("ext.media.prefers-contrast"));
    assert(c[461].spec_id() == CssFeatureId::new("ext.media.forced-colors"));
    assert(c[462].spec_id() == CssFeatureId::new("ext.media.display-mode"));
    assert(alias_targets_resolve(c[178]));
    assert forall|i: int| 0 <= i < c.len() implies alias_targets_resolve(#[trigger] c[i]) by {
        if !(i == 173 || i == 175 || i == 177 || i == 178) {
            assert(c[i].spec_baseline_alias_targets().len() == 0);
        }
    }
}


/// Whether the record is an alias record: one that names atomic targets.
pub open spec fn is_alias_record(feature: CssFeatureMetadata) -> bool {
    feature.spec_baseline_alias_targets().len() > 0
}

/// Whether every target the record names is the identity of a catalog record that names no
/// targets itself.
pub open spec fn alias_targets_atomic(feature: CssFeatureMetadata) -> bool {
    forall|t: int|
        0 <= t < feature.spec_baseline_alias_targets().len() ==> exists|j: int|
            0 <= j < spec_feature_catalog().len() && #[trigger] spec_feature_catalog()[j].spec_id()
                == #[trigger] feature.spec_baseline_alias_targets()[t]
                && spec_feature_catalog()[j].spec_baseline_alias_targets().len() == 0
}

/// Exactly four records of the catalog are alias records, and every target each names is an
/// atomic record of the catalog: one that names no targets itself.
#[verifier::rlimit(100)]
pub proof fn lemma_alias_records_name_atomic_records()
    ensures
        forall|i: int|
            0 <= i < spec_feature_catalog().len() ==> (is_alias_record(#[trigger] spec_feature_catalog()[i])
                <==> (i == 173 || i == 175 || i == 177 || i == 178)),
        forall|i: int|
            0 <= i < spec_feature_catalog().len() ==> alias_targets_atomic(
                #[trigger] spec_feature_catalog()[i],
            ),
{
    lemma_registry_sizes();
    reveal(spec_feature_catalog);

    catalog_1::lemma_features_len();
    catalog_1::lemma_alias_facts();
    catalog_2::lemma_features_len();
    catalog_2::lemma_alias_facts();
    catalog_3::lemma_features_len();
    catalog_3::lemma_alias_facts();
    catalog_4::lemma_features_len();
    catalog_4::lemma_alias_facts();
    catalog_5::lemma_features_len();
    catalog_5::lemma_alias_facts();
    catalog_6::lemma_features_len();
    catalog_6::lemma_alias_facts();
    catalog_7::lemma_features_len();
    catalog_7::lemma_alias_facts();
    catalog_8::lemma_features_len();
    catalog_8::lemma_alias_facts();
    let c = spec_feature_catalog();
    assert forall|i: int| 0 <= i < 60 implies c[i] == catalog_1::features()[i - 0] by {}
    assert forall|i: int| 60 <= i < 120 implies c[i] == catalog_2::features()[i - 60] by {}
    assert forall|i: int| 120 <= i < 180 implies c[i] == catalog_3::features()[i - 120] by {}
    assert forall|i: int| 180 <= i < 240 implies c[i] == catalog_4::features()[i - 180] by {}
    assert forall|i: int| 240 <= i < 300 implies c[i] == catalog_5::features()[i - 240] by {}
    assert forall|i: int| 300 <= i < 360 implies c[i] == catalog_6::features()[i - 300] by {}
    assert forall|i: int| 360 <= i < 420 implies c[i] == catalog_7::features()[i - 360] by {}
    assert forall|i: int| 420 <= i < 463 implies c[i] == catalog_8::features()[i - 420] by {}
    assert(c[419].spec_id() == CssFeatureId::new("official.selector.generated"));
    assert(c[425].spec_id() == CssFeatureId::new("ext.pseudo-element.marker"));
    assert(c[426].spec_id() == CssFeatureId::new("ext.pseudo-element.selection"));
    assert(c[427].spec_id() == CssFeatureId::new("ext.pseudo-element.backdrop"));
    assert(c[428].spec_id() == CssFeatureId::new("ext.pseudo-element.generated-marker"));
    assert(alias_targets_atomic(c[173]));
    assert(c[429].spec_id() == CssFeatureId::new("official.media.query-list-core"));
    assert(c[430].spec_id() == CssFeatureId::new("ext.media.condition-syntax"));
    assert(c[431].spec_id() == CssFeatureId::new("ext.media.malformed-member-never"));
    assert(alias_targets_atomic(c[175]));
    assert(c[432].spec_id() == CssFeatureId::new("official.media.feature.width"));
    assert(c[433].spec_id() == CssFeatureId::new("official.media.feature.height"));
    assert(c[438].spec_id() == CssFeatureId::new("official.media.feature.resolution"));
    assert(c[439].spec_id() == CssFeatureId::new("official.media.feature.color"));
    assert(c[441].spec_id() == CssFeatureId::new("official.media.feature.monochrome"));
    assert(c[444].spec_id() == CssFeatureId::new("ext.media.resolution.dppx"));
    assert(c[447].spec_id() == CssFeatureId::new("ext.media.range.width"));
    assert(c[448].spec_id() == CssFeatureId::new("ext.media.range.height"));
    assert(c[449].spec_id() == CssFeatureId::new("ext.media.range.resolution"));
    assert(c[450].spec_id() == CssFeatureId::new("ext.media.range.color"));
    assert(c[451].spec_id() == CssFeatureId::new("ext.media.range.monochrome"));
    assert(alias_targets_atomic(c[177]));
    assert(c[452].spec_id() == CssFeatureId::new("official.media.feature.orientation"));
    assert(c[453].spec_id() == CssFeatureId::new("ext.media.hover"));
    assert(c[454].spec_id() == CssFeatureId::new("ext.media.any-hover"));
    assert(c[455].spec_id() == CssFeatureId::new("ext.media.pointer"));
    assert(c[456].spec_id() == CssFeatureId::new("ext.media.any-pointer"));
    assert(c[457].spec_id() == CssFeatureId::new("ext.media.prefers-color-scheme"));
    assert(c[458].spec_id() == CssFeatureId::new("ext.media.prefers-reduced-motion"));
    assert(c[459].spec_id() == CssFeatureId::new("ext.media.prefers-reduced-transparency"));
    assert(c[460].spec_id() == CssFeatureId::new("ext.media.prefers-contrast"));
    assert(c[461].spec_id() == CssFeatureId::new("ext.media.forced-colors"));
    assert(c[462].spec_id() == CssFeatureId::new("ext.media.display-mode"));
    assert(alias_targets_atomic(c[178]));
    assert forall|i: int| 0 <= i < c.len() implies alias_targets_atomic(#[trigger] c[i]) && (is_alias_record(c[i])
        <==> (i == 173 || i == 175 || i == 177 || i == 178)) by {
        if !(i == 173 || i == 175 || i == 177 || i == 178) {
            assert(c[i].spec_baseline_alias_targets().len() == 0);
        }
    }
}

/// A spelling that does not begin with a lowercase ASCII letter is the identity of no catalog
/// record, so its exact lookup finds nothing.
pub proof fn lemma_catalog_lacks_unlowercase_ids(id: Seq<char>)
    requires
        !(id.len() > 0 && 'a' <= id[0] <= 'z'),
    ensures
        forall|i: int|
            0 <= i < spec_feature_catalog().len() ==> !feature_has_id(#[trigger] spec_feature_catalog()[i], id),
{
    catalog_laws::lemma_feature_records_lawful();
    assert forall|i: int| 0 <= i < spec_feature_catalog().len() implies !feature_has_id(
        #[trigger] spec_feature_catalog()[i],
        id,
    ) by {
        assert(catalog_laws::feature_record_laws(spec_feature_catalog()[i]));
    }
}

/// A spelling that does not begin with `excluded.` is the identity of no exclusion, so its exact
/// lookup finds nothing.
pub proof fn lemma_exclusions_lack_unmarked_ids(id: Seq<char>)
    requires
        !has_prefix(id, "excluded."@),
    ensures
        forall|i: int|
            0 <= i < spec_conformance_exclusions().len() ==> !exclusion_has_id(
                #[trigger] spec_conformance_exclusions()[i],
                id,
            ),
{
    exclusion_laws::lemma_exclusion_records_lawful();
    assert forall|i: int| 0 <= i < spec_conformance_exclusions().len() implies !exclusion_has_id(
        #[trigger] spec_conformance_exclusions()[i],
        id,
    ) by {
        let e = spec_conformance_exclusions()[i];
        assert(exclusion_laws::exclusion_record_laws(e));
        let whole = exclusion_laws::exclusion_id_prefix(e.spec_source().spec_id()@);
        assert forall|k: int| 0 <= k < "excluded."@.len() implies whole[k] == "excluded."@[k] by {}
        if exclusion_has_id(e, id) {
            assert(has_prefix(id, "excluded."@));
        }
    }
}

} // verus!
