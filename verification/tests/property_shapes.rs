use onto2shacl::{convert, Config, PropertyRecord, PropertyType, Term, Triple};

const SH: &str = "http://www.w3.org/ns/shacl#";
const XSD_INTEGER: &str = "http://www.w3.org/2001/XMLSchema#integer";

fn iri(s: &str) -> Term {
    Term::Iri(String::from(s))
}

fn int_lit(s: &str) -> Term {
    Term::Literal { value: String::from(s), datatype: Some(String::from(XSD_INTEGER)) }
}

fn str_lit(s: &str) -> Term {
    Term::Literal { value: String::from(s), datatype: None }
}

fn property(subject: &str) -> PropertyRecord {
    PropertyRecord {
        subject: iri(subject),
        prop_type: PropertyType::ObjectProperty,
        label: None,
        description: None,
        cardinality: None,
        min_cardinality: None,
        max_cardinality: None,
        range_and_list: String::new(),
        range_includes_list: String::new(),
        range_ored_list: String::new(),
        domain_and_list: String::new(),
        domain_includes_list: String::new(),
        domain_ored_list: String::new(),
    }
}

fn run(prop: PropertyRecord) -> Vec<Triple> {
    let conv = convert(&vec![], &vec![prop], &Config::default()).unwrap();
    conv.store.triples().clone()
}

#[test]
fn label_becomes_name_and_comment_becomes_description() {
    let mut p = property("http://example.org/p");
    p.label = Some(str_lit("a label"));
    p.description = Some(str_lit("a description"));
    let triples = run(p);
    assert_eq!(triples.len(), 4);
    assert_eq!(triples[2].predicate, format!("{SH}name"));
    assert_eq!(triples[2].object, str_lit("a label"));
    assert_eq!(triples[3].predicate, format!("{SH}description"));
    assert_eq!(triples[3].object, str_lit("a description"));
}

#[test]
fn min_and_max_cardinality_map_directly() {
    let mut p = property("http://example.org/p");
    p.min_cardinality = Some(int_lit("1"));
    p.max_cardinality = Some(int_lit("4"));
    let triples = run(p);
    assert_eq!(triples.len(), 4);
    assert_eq!(triples[2].predicate, format!("{SH}minCount"));
    assert_eq!(triples[2].object, int_lit("1"));
    assert_eq!(triples[3].predicate, format!("{SH}maxCount"));
    assert_eq!(triples[3].object, int_lit("4"));
}

#[test]
fn exact_cardinality_yields_both_min_and_max() {
    let mut p = property("http://example.org/p");
    p.cardinality = Some(int_lit("2"));
    let triples = run(p);
    assert_eq!(triples.len(), 4);
    assert_eq!(triples[2].predicate, format!("{SH}minCount"));
    assert_eq!(triples[2].object, int_lit("2"));
    assert_eq!(triples[3].predicate, format!("{SH}maxCount"));
    assert_eq!(triples[3].object, int_lit("2"));
}

#[test]
fn all_cardinality_sources_emit_without_precedence() {
    let mut p = property("http://example.org/p");
    p.cardinality = Some(int_lit("2"));
    p.min_cardinality = Some(int_lit("1"));
    p.max_cardinality = Some(int_lit("4"));
    let triples = run(p);
    // type, path, minCount 1, maxCount 4, minCount 2, maxCount 2
    assert_eq!(triples.len(), 6);
    assert_eq!(triples[2].object, int_lit("1"));
    assert_eq!(triples[3].object, int_lit("4"));
    assert_eq!(triples[4].predicate, format!("{SH}minCount"));
    assert_eq!(triples[4].object, int_lit("2"));
    assert_eq!(triples[5].predicate, format!("{SH}maxCount"));
    assert_eq!(triples[5].object, int_lit("2"));
}

#[test]
fn single_direct_range_emits_one_class_triple() {
    let mut p = property("http://example.org/p");
    p.range_and_list = String::from("http://example.org/A");
    let triples = run(p);
    assert_eq!(triples.len(), 3);
    assert_eq!(triples[2].subject, "http://example.org/pShape");
    assert_eq!(triples[2].predicate, format!("{SH}class"));
    assert_eq!(triples[2].object, iri("http://example.org/AShape"));
}

#[test]
fn datatype_property_range_uses_datatype_predicate() {
    let mut p = property("http://example.org/p");
    p.prop_type = PropertyType::DatatypeProperty;
    p.range_and_list = String::from("http://www.w3.org/2001/XMLSchema#string");
    let triples = run(p);
    assert_eq!(triples.len(), 3);
    assert_eq!(triples[2].predicate, format!("{SH}datatype"));
    assert_eq!(triples[2].object, iri("http://www.w3.org/2001/XMLSchema#stringShape"));
}

#[test]
fn domain_constraint_inverts_the_edge() {
    let mut p = property("http://example.org/p");
    p.domain_and_list = String::from("http://example.org/A");
    let triples = run(p);
    assert_eq!(triples.len(), 3);
    assert_eq!(triples[2].subject, "http://example.org/AShape");
    assert_eq!(triples[2].predicate, format!("{SH}property"));
    assert_eq!(triples[2].object, iri("http://example.org/pShape"));
}

#[test]
fn includes_range_values_all_emit() {
    let mut p = property("http://example.org/p");
    p.range_includes_list = String::from("http://example.org/A,http://example.org/B");
    let triples = run(p);
    // the Includes convention is inherently multi-valued: no odity, two triples
    assert_eq!(triples.len(), 4);
    assert_eq!(triples[2].object, iri("http://example.org/AShape"));
    assert_eq!(triples[3].object, iri("http://example.org/BShape"));
}

#[test]
fn union_list_range_values_all_emit() {
    let mut p = property("http://example.org/p");
    p.range_ored_list = String::from("http://example.org/A,http://example.org/B");
    let triples = run(p);
    assert_eq!(triples.len(), 4);
    assert_eq!(triples[2].object, iri("http://example.org/AShape"));
    assert_eq!(triples[3].object, iri("http://example.org/BShape"));
}

#[test]
fn annotation_property_range_uses_class_predicate() {
    let mut p = property("http://example.org/p");
    p.prop_type = PropertyType::AnnotationProperty;
    p.range_and_list = String::from("http://example.org/A");
    let triples = run(p);
    assert_eq!(triples[2].predicate, format!("{SH}class"));
}
