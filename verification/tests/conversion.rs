use onto2shacl::{
    convert, convert_properties, ClassRecord, Config, ConvertError, OdityHandling, PropertyRecord,
    PropertyType, ShapeStore, Term, Triple, Warning,
};

const SH: &str = "http://www.w3.org/ns/shacl#";
const RDF_TYPE: &str = "http://www.w3.org/1999/02/22-rdf-syntax-ns#type";
const XSD_BOOLEAN: &str = "http://www.w3.org/2001/XMLSchema#boolean";

fn iri(s: &str) -> Term {
    Term::Iri(String::from(s))
}

fn class(subject: &str) -> ClassRecord {
    ClassRecord { subject: iri(subject) }
}

fn property(subject: &str) -> PropertyRecord {
    PropertyRecord {
        subject: iri(subject),
        prop_type: PropertyType::ObjectProperty,
        label: None,
        description: None,
        cardinality: None,
        min_cardinality: None,
        max_cardinality: None,
        range_and_list: String::new(),
        range_includes_list: String::new(),
        range_ored_list: String::new(),
        domain_and_list: String::new(),
        domain_includes_list: String::new(),
        domain_ored_list: String::new(),
    }
}

fn triple(s: &str, p: &str, o: Term) -> Triple {
    Triple { subject: String::from(s), predicate: String::from(p), object: o }
}

fn bool_false() -> Term {
    Term::Literal { value: String::from("false"), datatype: Some(String::from(XSD_BOOLEAN)) }
}

#[test]
fn empty_inputs_yield_empty_graph() {
    let conv = convert(&vec![], &vec![], &Config::default()).unwrap();
    assert_eq!(conv.store.triples().len(), 0);
    assert_eq!(conv.warnings.len(), 0);
}

#[test]
fn classes_emit_three_triples_each() {
    let classes = vec![class("http://example.org/A"), class("http://example.org/B")];
    let conv = convert(&classes, &vec![], &Config::default()).unwrap();
    assert_eq!(conv.store.triples().len(), 6);
    assert_eq!(conv.warnings.len(), 0);
}

#[test]
fn class_shape_triples_are_exact() {
    let classes = vec![class("http://example.org/A")];
    let conv = convert(&classes, &vec![], &Config::default()).unwrap();
    let expected = vec![
        triple(
            "http://example.org/AShape",
            &format!("{RDF_TYPE}"),
            iri(&format!("{SH}NodeShape")),
        ),
        triple(
            "http://example.org/AShape",
            &format!("{SH}targetClass"),
            iri("http://example.org/A"),
        ),
        triple("http://example.org/AShape", &format!("{SH}closed"), bool_false()),
    ];
    assert_eq!(conv.store.triples(), &expected);
}

#[test]
fn class_shape_iris_are_unique_per_subject() {
    let classes = vec![
        class("http://example.org/A"),
        class("http://example.org/B"),
        class("http://example.org/C"),
    ];
    let conv = convert(&classes, &vec![], &Config::default()).unwrap();
    let mut shapes: Vec<String> = conv
        .store
        .triples()
        .iter()
        .filter(|t| t.predicate == format!("{SH}targetClass"))
        .map(|t| t.subject.clone())
        .collect();
    shapes.sort();
    shapes.dedup();
    assert_eq!(shapes.len(), 3);
}

#[test]
fn conversion_twice_yields_identical_output() {
    let classes = vec![class("http://example.org/A"), class("http://example.org/B")];
    let mut prop = property("http://example.org/p");
    prop.range_and_list = String::from("http://example.org/A");
    prop.domain_includes_list = String::from("http://example.org/B");
    let props = vec![prop];
    let config = Config::default();
    let first = convert(&classes, &props, &config).unwrap();
    let second = convert(&classes, &props, &config).unwrap();
    assert_eq!(first.store.triples(), second.store.triples());
    assert_eq!(first.warnings, second.warnings);
}

#[test]
fn non_iri_class_subject_is_malformed() {
    let classes = vec![ClassRecord { subject: Term::Blank(String::from("b0")) }];
    let err = convert(&classes, &vec![], &Config::default()).unwrap_err();
    assert_eq!(err, ConvertError::MalformedTerm { term: Term::Blank(String::from("b0")) });
}

#[test]
fn invalid_derived_class_shape_iri_is_malformed() {
    let classes = vec![class("not an iri")];
    let err = convert(&classes, &vec![], &Config::default()).unwrap_err();
    assert_eq!(err, ConvertError::MalformedTerm { term: Term::Iri(String::from("not an iriShape")) });
}

#[test]
fn class_failure_keeps_earlier_triples_only() {
    let classes = vec![class("http://example.org/A"), class("not an iri")];
    let err = convert(&classes, &vec![], &Config::default());
    assert!(err.is_err());
}

#[test]
fn properties_after_classes_in_emission_order() {
    let classes = vec![class("http://example.org/A")];
    let props = vec![property("http://example.org/p")];
    let conv = convert(&classes, &props, &Config::default()).unwrap();
    let triples = conv.store.triples();
    assert_eq!(triples.len(), 5);
    assert_eq!(triples[0].subject, "http://example.org/AShape");
    assert_eq!(triples[3].subject, "http://example.org/pShape");
    assert_eq!(triples[3].predicate, format!("{RDF_TYPE}"));
    assert_eq!(triples[3].object, iri(&format!("{SH}PropertyShape")));
    assert_eq!(triples[4].predicate, format!("{SH}path"));
    assert_eq!(triples[4].object, iri("http://example.org/p"));
}

#[test]
fn property_failure_keeps_triples_emitted_before_it() {
    let mut bad = property("http://example.org/p");
    bad.range_and_list = String::from("not an iri");
    let mut store = ShapeStore::new();
    let mut warnings: Vec<Warning> = Vec::new();
    let r = convert_properties(&vec![bad], &Config::default(), &mut store, &mut warnings);
    assert_eq!(
        r.unwrap_err(),
        ConvertError::MalformedTerm { term: Term::Iri(String::from("not an iriShape")) },
    );
    // the property shape scaffolding was already emitted when the bad value was hit
    assert_eq!(store.triples().len(), 2);
    assert_eq!(store.triples()[0].subject, "http://example.org/pShape");
}

#[test]
fn warn_is_the_default_mode_everywhere() {
    let config = Config::default();
    assert_eq!(config.and_list_detected.range, OdityHandling::Warn);
    assert_eq!(config.and_list_detected.domain, OdityHandling::Warn);
    assert_eq!(config.style_mix_property.range, OdityHandling::Warn);
    assert_eq!(config.style_mix_property.domain, OdityHandling::Warn);
    assert_eq!(config.style_mix_ontology.range, OdityHandling::Warn);
    assert_eq!(config.style_mix_ontology.domain, OdityHandling::Warn);
}
