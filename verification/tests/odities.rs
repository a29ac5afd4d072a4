use onto2shacl::{
    convert, convert_properties, Config, ConvertError, ListCollectionMethod, OdityHandling,
    PropertyRecord, PropertyType, RDProperty, ShapeStore, Term, UsedConventions, Warning,
};

const SH: &str = "http://www.w3.org/ns/shacl#";

fn iri(s: &str) -> Term {
    Term::Iri(String::from(s))
}

fn property(subject: &str) -> PropertyRecord {
    PropertyRecord {
        subject: iri(subject),
        prop_type: PropertyType::ObjectProperty,
        label: None,
        description: None,
        cardinality: None,
        min_cardinality: None,
        max_cardinality: None,
        range_and_list: String::new(),
        range_includes_list: String::new(),
        range_ored_list: String::new(),
        domain_and_list: String::new(),
        domain_includes_list: String::new(),
        domain_ored_list: String::new(),
    }
}

fn two_valued_range_property() -> PropertyRecord {
    let mut p = property("http://example.org/p");
    p.range_and_list = String::from("http://example.org/A,http://example.org/B");
    p
}

#[test]
fn and_list_error_aborts_with_the_values() {
    let mut config = Config::default();
    config.and_list_detected.range = OdityHandling::Error;
    let err = convert(&vec![], &vec![two_valued_range_property()], &config).unwrap_err();
    assert_eq!(
        err,
        ConvertError::AndListDetected {
            role: RDProperty::Range,
            subject: String::from("http://example.org/p"),
            values: vec![
                String::from("http://example.org/A"),
                String::from("http://example.org/B"),
            ],
        },
    );
}

#[test]
fn and_list_error_emits_no_range_triples() {
    let mut config = Config::default();
    config.and_list_detected.range = OdityHandling::Error;
    let mut store = ShapeStore::new();
    let mut warnings: Vec<Warning> = Vec::new();
    let r = convert_properties(
        &vec![two_valued_range_property()],
        &config,
        &mut store,
        &mut warnings,
    );
    assert!(r.is_err());
    // only the property shape scaffolding stands, nothing of the range
    assert_eq!(store.triples().len(), 2);
    assert!(warnings.is_empty());
}

#[test]
fn and_list_ignore_drops_the_values_but_keeps_the_shape() {
    let mut config = Config::default();
    config.and_list_detected.range = OdityHandling::Ignore;
    let conv = convert(&vec![], &vec![two_valued_range_property()], &config).unwrap();
    let triples = conv.store.triples();
    assert_eq!(triples.len(), 2);
    assert_eq!(triples[0].subject, "http://example.org/pShape");
    assert_eq!(triples[1].predicate, format!("{SH}path"));
    assert!(conv.warnings.is_empty());
}

#[test]
fn and_list_warn_emits_each_value_and_records_one_warning() {
    let config = Config::default();
    let conv = convert(&vec![], &vec![two_valued_range_property()], &config).unwrap();
    let triples = conv.store.triples();
    assert_eq!(triples.len(), 4);
    assert_eq!(triples[2].predicate, format!("{SH}class"));
    assert_eq!(triples[2].object, iri("http://example.org/AShape"));
    assert_eq!(triples[3].predicate, format!("{SH}class"));
    assert_eq!(triples[3].object, iri("http://example.org/BShape"));
    assert_eq!(
        conv.warnings,
        vec![Warning::AndListDetected {
            role: RDProperty::Range,
            subject: String::from("http://example.org/p"),
            values: vec![
                String::from("http://example.org/A"),
                String::from("http://example.org/B"),
            ],
        }],
    );
}

#[test]
fn style_mix_within_property_warn_emits_both_kinds_independently() {
    let mut p = property("http://example.org/p");
    p.domain_and_list = String::from("http://example.org/A");
    p.domain_includes_list = String::from("http://example.org/A");
    let conv = convert(&vec![], &vec![p], &Config::default()).unwrap();
    let triples = conv.store.triples();
    // the duplicate value yields one domain triple per kind; the core does
    // not de-duplicate
    assert_eq!(triples.len(), 4);
    assert_eq!(triples[2].subject, "http://example.org/AShape");
    assert_eq!(triples[2].predicate, format!("{SH}property"));
    assert_eq!(triples[2].object, iri("http://example.org/pShape"));
    assert_eq!(triples[3], triples[2]);
    // the within-property warning comes first; the same mixed use then also
    // surfaces once at ontology scope
    assert_eq!(
        conv.warnings,
        vec![
            Warning::StyleMixWithinProperty {
                role: RDProperty::Domain,
                subject: String::from("http://example.org/p"),
                used: UsedConventions { and_list: true, includes: true, ored: false },
            },
            Warning::StyleMixAcrossOntology {
                role: RDProperty::Domain,
                used: UsedConventions { and_list: true, includes: true, ored: false },
            },
        ],
    );
}

#[test]
fn style_mix_within_property_error_aborts() {
    let mut p = property("http://example.org/p");
    p.range_and_list = String::from("http://example.org/A");
    p.range_includes_list = String::from("http://example.org/B");
    let mut config = Config::default();
    config.style_mix_property.range = OdityHandling::Error;
    let err = convert(&vec![], &vec![p], &config).unwrap_err();
    assert_eq!(
        err,
        ConvertError::StyleMixWithinProperty {
            role: RDProperty::Range,
            subject: String::from("http://example.org/p"),
            used: UsedConventions { and_list: true, includes: true, ored: false },
        },
    );
}

#[test]
fn style_mix_within_property_ignore_is_silent() {
    let mut p = property("http://example.org/p");
    p.range_and_list = String::from("http://example.org/A");
    p.range_includes_list = String::from("http://example.org/B");
    let mut config = Config::default();
    config.style_mix_property.range = OdityHandling::Ignore;
    config.style_mix_ontology.range = OdityHandling::Ignore;
    let conv = convert(&vec![], &vec![p], &config).unwrap();
    assert_eq!(conv.store.triples().len(), 4);
    assert!(conv.warnings.is_empty());
}

#[test]
fn style_mix_across_ontology_error_aborts_after_the_full_scan() {
    let mut p1 = property("http://example.org/p1");
    p1.range_and_list = String::from("http://example.org/A");
    let mut p2 = property("http://example.org/p2");
    p2.range_includes_list = String::from("http://example.org/B");
    let mut config = Config::default();
    config.style_mix_ontology.range = OdityHandling::Error;
    let mut store = ShapeStore::new();
    let mut warnings: Vec<Warning> = Vec::new();
    let r = convert_properties(&vec![p1, p2], &config, &mut store, &mut warnings);
    assert_eq!(
        r.unwrap_err(),
        ConvertError::StyleMixAcrossOntology {
            role: RDProperty::Range,
            used: UsedConventions { and_list: true, includes: true, ored: false },
        },
    );
    // both properties were fully processed before the abort: two shapes of
    // two triples each, plus one range triple each
    assert_eq!(store.triples().len(), 6);
}

#[test]
fn style_mix_across_ontology_warn_records_the_set() {
    let mut p1 = property("http://example.org/p1");
    p1.range_and_list = String::from("http://example.org/A");
    let mut p2 = property("http://example.org/p2");
    p2.range_includes_list = String::from("http://example.org/B");
    let conv = convert(&vec![], &vec![p1, p2], &Config::default()).unwrap();
    assert_eq!(
        conv.warnings,
        vec![Warning::StyleMixAcrossOntology {
            role: RDProperty::Range,
            used: UsedConventions { and_list: true, includes: true, ored: false },
        }],
    );
}

#[test]
fn style_mix_across_ontology_ignore_is_silent() {
    let mut p1 = property("http://example.org/p1");
    p1.range_and_list = String::from("http://example.org/A");
    let mut p2 = property("http://example.org/p2");
    p2.range_includes_list = String::from("http://example.org/B");
    let mut config = Config::default();
    config.style_mix_ontology.range = OdityHandling::Ignore;
    let conv = convert(&vec![], &vec![p1, p2], &config).unwrap();
    assert!(conv.warnings.is_empty());
}

#[test]
fn one_convention_per_property_same_everywhere_is_no_odity() {
    let mut p1 = property("http://example.org/p1");
    p1.range_and_list = String::from("http://example.org/A");
    let mut p2 = property("http://example.org/p2");
    p2.range_and_list = String::from("http://example.org/B");
    let mut config = Config::default();
    config.style_mix_ontology.range = OdityHandling::Error;
    let conv = convert(&vec![], &vec![p1, p2], &config).unwrap();
    assert!(conv.warnings.is_empty());
    assert_eq!(conv.store.triples().len(), 6);
}

#[test]
fn error_odity_kinds_are_reported() {
    let err = ConvertError::AndListDetected {
        role: RDProperty::Range,
        subject: String::from("http://example.org/p"),
        values: vec![],
    };
    assert_eq!(err.odity_kind(), Some(onto2shacl::OdityKind::AndListOnSingleConvention));
    let err = ConvertError::MalformedTerm { term: Term::Blank(String::from("b")) };
    assert_eq!(err.odity_kind(), None);
}

#[test]
fn invalid_value_shape_iri_is_malformed() {
    let mut p = property("http://example.org/p");
    p.range_and_list = String::from("not an iri");
    let err = convert(&vec![], &vec![p], &Config::default()).unwrap_err();
    assert_eq!(
        err,
        ConvertError::MalformedTerm { term: Term::Iri(String::from("not an iriShape")) },
    );
}

#[test]
fn non_iri_property_subject_is_malformed() {
    let mut p = property("ignored");
    p.subject = Term::Blank(String::from("b0"));
    let err = convert(&vec![], &vec![p], &Config::default()).unwrap_err();
    assert_eq!(err, ConvertError::MalformedTerm { term: Term::Blank(String::from("b0")) });
}

#[test]
fn used_conventions_membership() {
    let used = UsedConventions { and_list: true, includes: false, ored: true };
    assert!(used.contains(ListCollectionMethod::And));
    assert!(!used.contains(ListCollectionMethod::Includes));
    assert!(used.contains(ListCollectionMethod::Ored));
    assert_eq!(used.count(), 2);
    assert_eq!(UsedConventions::none().count(), 0);
}

#[test]
fn list_collection_method_names() {
    assert_eq!(ListCollectionMethod::And.to_var_postfix(), "AndList");
    assert_eq!(ListCollectionMethod::Includes.to_var_postfix(), "IncludesList");
    assert_eq!(ListCollectionMethod::Ored.to_var_postfix(), "OredList");
    assert!(ListCollectionMethod::And.is_and());
    assert!(!ListCollectionMethod::Includes.is_and());
    assert!(!ListCollectionMethod::Ored.is_and());
}

#[test]
fn odity_handling_ignore_predicate() {
    assert!(OdityHandling::Ignore.ignore());
    assert!(!OdityHandling::Warn.ignore());
    assert!(!OdityHandling::Error.ignore());
    assert_eq!(OdityHandling::default(), OdityHandling::Warn);
}

#[test]
fn rd_property_names() {
    assert_eq!(RDProperty::Range.to_str(), "range");
    assert_eq!(RDProperty::Domain.to_str(), "domain");
}
