use vstd::prelude::*;

use crate::config::{Config, OdityKind, RDProperty};
use crate::convert::{
    spec_class_triples, spec_base_triples, spec_convert, spec_convert_classes,
    spec_convert_properties, spec_convert_property, spec_emit_parts, spec_part_triple,
    spec_props_fold, spec_resolve_kind, spec_resolve_role, ConvertErrorView, ListCollectionMethod,
    PropPassState, UsedConventions, WarningView,
};
use crate::iri::is_valid_iri;
use crate::model::{ClassRecordView, PropertyRecordView, TermView, TripleView};
use crate::text::{lemma_shape_iri_injective, lemma_split_csv_no_comma, spec_shape_iri,
    spec_split_csv};
use crate::vocab;

verus! {

/// The class pass over records with well-formed subjects never fails, emits
/// exactly three triples per record, and the three triples of each record are
/// derived deterministically from that record's subject.
pub proof fn lemma_class_pass_exact(recs: Seq<ClassRecordView>)
    requires
        forall|i: int| 0 <= i < recs.len() ==> (#[trigger] recs[i].subject) is Iri,
        forall|i: int|
            0 <= i < recs.len() ==> is_valid_iri(
                spec_shape_iri((#[trigger] recs[i].subject).text()),
            ),
    ensures
        spec_convert_classes(recs).error is None,
        spec_convert_classes(recs).triples.len() == 3 * recs.len(),
        forall|i: int|
            0 <= i < recs.len() ==> #[trigger] spec_convert_classes(recs).triples.subrange(
                3 * i,
                3 * i + 3,
            ) =~= spec_class_triples(recs[i].subject.text()),
    decreases recs.len(),
{
    if recs.len() > 0 {
        let prefix = recs.drop_last();
        assert(forall|i: int| 0 <= i < prefix.len() ==> prefix[i] == recs[i]);
        lemma_class_pass_exact(prefix);
        let st = spec_convert_classes(prefix);
        let full = spec_convert_classes(recs);
        let n = prefix.len() as int;
        assert(full.triples == st.triples + spec_class_triples(recs[n].subject.text()));
        assert forall|i: int| 0 <= i < recs.len() implies #[trigger] full.triples.subrange(
            3 * i,
            3 * i + 3,
        ) =~= spec_class_triples(recs[i].subject.text()) by {
            if i < n {
                assert(st.triples.subrange(3 * i, 3 * i + 3) =~= spec_class_triples(
                    prefix[i].subject.text(),
                ));
                assert(full.triples.subrange(3 * i, 3 * i + 3) =~= st.triples.subrange(
                    3 * i,
                    3 * i + 3,
                ));
            } else {
                assert(full.triples.subrange(3 * i, 3 * i + 3) =~= spec_class_triples(
                    recs[n].subject.text(),
                ));
            }
        }
    }
}

/// Distinct class subjects always get distinct shape IRIs: the shape IRI
/// derivation is injective.
pub proof fn lemma_class_shape_iris_unique(a: ClassRecordView, b: ClassRecordView)
    requires
        a.subject is Iri,
        b.subject is Iri,
        a.subject != b.subject,
    ensures
        spec_shape_iri(a.subject.text()) != spec_shape_iri(b.subject.text()),
{
    if spec_shape_iri(a.subject.text()) == spec_shape_iri(b.subject.text()) {
        lemma_shape_iri_injective(a.subject.text(), b.subject.text());
    }
}

/// Conversion is deterministic: running it twice over the same class
/// records, property records and configuration yields identical output —
/// the same triples in the same order, the same warnings, the same outcome.
pub proof fn lemma_convert_idempotent(
    classes1: Seq<ClassRecordView>,
    props1: Seq<PropertyRecordView>,
    config1: Config,
    classes2: Seq<ClassRecordView>,
    props2: Seq<PropertyRecordView>,
    config2: Config,
)
    requires
        classes1 == classes2,
        props1 == props2,
        config1 == config2,
    ensures
        spec_convert(classes1, props1, config1) == spec_convert(classes2, props2, config2),
{
}

/// Emitting a list of values all of whose derived shape IRIs are valid never
/// fails and yields exactly one constraint triple per value, in value order.
pub proof fn lemma_emit_parts_all_valid(
    parts: Seq<Seq<char>>,
    shape: Seq<char>,
    is_datatype: bool,
    role: RDProperty,
)
    requires
        forall|k: int| 0 <= k < parts.len() ==> is_valid_iri(spec_shape_iri(#[trigger] parts[k])),
    ensures
        spec_emit_parts(parts, shape, is_datatype, role).error is None,
        spec_emit_parts(parts, shape, is_datatype, role).triples.len() == parts.len(),
        forall|k: int|
            0 <= k < parts.len() ==> #[trigger] spec_emit_parts(
                parts,
                shape,
                is_datatype,
                role,
            ).triples[k] == spec_part_triple(shape, parts[k], is_datatype, role),
    decreases parts.len(),
{
    if parts.len() > 0 {
        let prefix = parts.drop_last();
        assert(forall|k: int| 0 <= k < prefix.len() ==> prefix[k] == parts[k]);
        lemma_emit_parts_all_valid(prefix, shape, is_datatype, role);
    }
}

/// A property that declares its range through a single `rdfs:range` value
/// only (no `*Includes`, no `owl:unionOf` list), on a non-datatype property:
/// exactly one `(shape, sh:class, valueShape)` triple is emitted, and no
/// odity is raised — no warning, no error, whatever the configuration.
pub proof fn lemma_single_direct_range(rec: PropertyRecordView, config: Config)
    requires
        rec.subject is Iri,
        !(rec.prop_type is DatatypeProperty),
        rec.range_and_list.len() > 0,
        forall|j: int| 0 <= j < rec.range_and_list.len() ==> rec.range_and_list[j] != ',',
        rec.range_includes_list.len() == 0,
        rec.range_ored_list.len() == 0,
        is_valid_iri(spec_shape_iri(rec.range_and_list)),
    ensures
        ({
            let o = spec_resolve_role(rec, config, RDProperty::Range);
            &&& o.error is None
            &&& o.warnings =~= Seq::<WarningView>::empty()
            &&& o.used == (UsedConventions { and_list: true, includes: false, ored: false })
            &&& o.triples =~= seq![
                TripleView {
                    subject: spec_shape_iri(rec.subject.text()),
                    predicate: vocab::spec_sh_class(),
                    object: TermView::Iri(spec_shape_iri(rec.range_and_list)),
                },
            ]
        }),
{
    reveal(spec_resolve_kind);
    lemma_split_csv_no_comma(rec.range_and_list);
    let parts = spec_split_csv(rec.range_and_list);
    let shape = spec_shape_iri(rec.subject.text());
    lemma_emit_parts_all_valid(parts, shape, false, RDProperty::Range);
    assert(spec_emit_parts(parts, shape, false, RDProperty::Range).triples =~= seq![
        spec_part_triple(shape, rec.range_and_list, false, RDProperty::Range),
    ]);
}

/// A property whose `rdfs:range` lists more than one value, with the
/// and-list mode set to Error: the run aborts with an error naming the
/// property, the role and the offending values, and zero range triples are
/// emitted for that property.
pub proof fn lemma_direct_range_list_error(rec: PropertyRecordView, config: Config)
    requires
        rec.subject is Iri,
        rec.range_and_list.len() > 0,
        spec_split_csv(rec.range_and_list).len() > 1,
        config.spec_mode(OdityKind::AndListOnSingleConvention, RDProperty::Range) is Error,
    ensures
        ({
            let o = spec_resolve_role(rec, config, RDProperty::Range);
            &&& o.error == Some(
                ConvertErrorView::AndListDetected {
                    role: RDProperty::Range,
                    subject: rec.subject.text(),
                    values: spec_split_csv(rec.range_and_list),
                },
            )
            &&& o.triples =~= Seq::<TripleView>::empty()
            &&& o.warnings =~= Seq::<WarningView>::empty()
        }),
{
    reveal(spec_resolve_kind);
}

/// The same multi-valued `rdfs:range` with the and-list mode set to Ignore:
/// the whole instance is dropped silently — no range triples, no warning, no
/// error — but the property shape itself, with its path and annotations,
/// still exists: the record's emission is exactly its scaffolding triples.
pub proof fn lemma_direct_range_list_ignore(rec: PropertyRecordView, config: Config)
    requires
        rec.subject is Iri,
        is_valid_iri(spec_shape_iri(rec.subject.text())),
        rec.range_and_list.len() > 0,
        spec_split_csv(rec.range_and_list).len() > 1,
        config.spec_mode(OdityKind::AndListOnSingleConvention, RDProperty::Range) is Ignore,
        rec.range_includes_list.len() == 0,
        rec.range_ored_list.len() == 0,
        rec.domain_and_list.len() == 0,
        rec.domain_includes_list.len() == 0,
        rec.domain_ored_list.len() == 0,
    ensures
        ({
            let o = spec_convert_property(rec, config);
            &&& o.error is None
            &&& o.warnings =~= Seq::<WarningView>::empty()
            &&& o.triples =~= spec_base_triples(rec)
            &&& o.used_range == (UsedConventions { and_list: true, includes: false, ored: false })
        }),
{
    reveal(spec_convert_property);
    reveal(spec_resolve_kind);
    let o = spec_convert_property(rec, config);
    let rr = spec_resolve_role(rec, config, RDProperty::Range);
    let rd = spec_resolve_role(rec, config, RDProperty::Domain);
    assert(rr.triples =~= Seq::<TripleView>::empty());
    assert(rd.triples =~= Seq::<TripleView>::empty());
    assert(o.triples =~= spec_base_triples(rec));
    assert(o.warnings =~= Seq::<WarningView>::empty());
}

/// The same multi-valued `rdfs:range` with the and-list mode set to Warn:
/// every value is emitted independently, exactly as in the single-value
/// case — one `sh:class` triple per value on a non-datatype property — and
/// one warning is recorded.
pub proof fn lemma_direct_range_list_warn(rec: PropertyRecordView, config: Config)
    requires
        rec.subject is Iri,
        !(rec.prop_type is DatatypeProperty),
        rec.range_and_list.len() > 0,
        spec_split_csv(rec.range_and_list).len() > 1,
        config.spec_mode(OdityKind::AndListOnSingleConvention, RDProperty::Range) is Warn,
        rec.range_includes_list.len() == 0,
        rec.range_ored_list.len() == 0,
        forall|k: int|
            0 <= k < spec_split_csv(rec.range_and_list).len() ==> is_valid_iri(
                spec_shape_iri(#[trigger] spec_split_csv(rec.range_and_list)[k]),
            ),
    ensures
        ({
            let o = spec_resolve_role(rec, config, RDProperty::Range);
            let parts = spec_split_csv(rec.range_and_list);
            let shape = spec_shape_iri(rec.subject.text());
            &&& o.error is None
            &&& o.warnings =~= seq![
                WarningView::AndListDetected {
                    role: RDProperty::Range,
                    subject: rec.subject.text(),
                    values: parts,
                },
            ]
            &&& o.triples.len() == parts.len()
            &&& forall|k: int|
                0 <= k < parts.len() ==> #[trigger] o.triples[k] == spec_part_triple(
                    shape,
                    parts[k],
                    false,
                    RDProperty::Range,
                )
        }),
{
    reveal(spec_resolve_kind);
    let parts = spec_split_csv(rec.range_and_list);
    let shape = spec_shape_iri(rec.subject.text());
    lemma_emit_parts_all_valid(parts, shape, false, RDProperty::Range);
    let o = spec_resolve_role(rec, config, RDProperty::Range);
    assert(o.triples =~= spec_emit_parts(parts, shape, false, RDProperty::Range).triples);
    assert(o.warnings =~= seq![
        WarningView::AndListDetected {
            role: RDProperty::Range,
            subject: rec.subject.text(),
            values: parts,
        },
    ]);
}

/// When different properties of the ontology declared the same role through
/// different conventions and the across-ontology style-mix mode is Error,
/// the run aborts only after every property was processed: all triples and
/// warnings of the whole pass stand, and the error names the set of
/// conventions involved.
pub proof fn lemma_ontology_style_mix_error(recs: Seq<PropertyRecordView>, config: Config)
    requires
        spec_props_fold(recs, config).error is None,
        spec_props_fold(recs, config).used_range.spec_count() > 1,
        config.spec_mode(OdityKind::StyleMixAcrossOntology, RDProperty::Range) is Error,
    ensures
        ({
            let st = spec_props_fold(recs, config);
            let o = spec_convert_properties(recs, config);
            &&& o.error == Some(
                ConvertErrorView::StyleMixAcrossOntology {
                    role: RDProperty::Range,
                    used: st.used_range,
                },
            )
            &&& o.triples == st.triples
            &&& o.warnings == st.warnings
        }),
{
}

/// A property declaring its domain through both `rdfs:domain` and a
/// `*domainIncludes` predicate with the same single value, with the
/// within-property style-mix mode set to Warn: both conventions are recorded
/// as used, one style-mix warning is recorded, and each convention emits its
/// own `(valueShape, sh:property, shape)` triple independently — the
/// duplicate is not collapsed by the core.
pub proof fn lemma_domain_two_conventions_warn(rec: PropertyRecordView, config: Config)
    requires
        rec.subject is Iri,
        rec.domain_and_list.len() > 0,
        forall|j: int| 0 <= j < rec.domain_and_list.len() ==> rec.domain_and_list[j] != ',',
        rec.domain_includes_list == rec.domain_and_list,
        rec.domain_ored_list.len() == 0,
        is_valid_iri(spec_shape_iri(rec.domain_and_list)),
        config.spec_mode(OdityKind::StyleMixWithinProperty, RDProperty::Domain) is Warn,
    ensures
        ({
            let o = spec_resolve_role(rec, config, RDProperty::Domain);
            let used = UsedConventions { and_list: true, includes: true, ored: false };
            let t = TripleView {
                subject: spec_shape_iri(rec.domain_and_list),
                predicate: vocab::spec_sh_property(),
                object: TermView::Iri(spec_shape_iri(rec.subject.text())),
            };
            &&& o.error is None
            &&& o.used == used
            &&& o.triples =~= seq![t, t]
            &&& o.warnings =~= seq![
                WarningView::StyleMixWithinProperty {
                    role: RDProperty::Domain,
                    subject: rec.subject.text(),
                    used,
                },
            ]
        }),
{
    reveal(spec_resolve_kind);
    lemma_split_csv_no_comma(rec.domain_and_list);
    let parts = spec_split_csv(rec.domain_and_list);
    let shape = spec_shape_iri(rec.subject.text());
    let is_dt = rec.prop_type is DatatypeProperty;
    lemma_emit_parts_all_valid(parts, shape, is_dt, RDProperty::Domain);
    assert(spec_emit_parts(parts, shape, is_dt, RDProperty::Domain).triples =~= seq![
        spec_part_triple(shape, rec.domain_and_list, is_dt, RDProperty::Domain),
    ]);
}

} // verus!
