use vstd::prelude::*;
use vstd::string::StringExecFns;

use crate::config::{Config, OdityHandling, OdityKind, RDProperty};
use crate::iri::{check_iri, is_valid_iri};
use crate::model::{
    ClassRecord, ClassRecordView, PropertyRecord, PropertyRecordView, ShapeStore, Term, TermView,
    TripleView,
};
use crate::text::{shape_iri, spec_shape_iri, spec_split_csv, split_csv};
use crate::vocab;

verus! {

/// The three conventions under which a property's range or domain may be
/// declared: plain `rdfs:range`/`rdfs:domain` (an "and" list under OWL
/// semantics), schema.org-style `*Includes` predicates, and `owl:unionOf`
/// lists ("or"-ed values).
#[derive(Clone, Copy, Debug, PartialEq, Eq, Structural)]
pub enum ListCollectionMethod {
    And,
    Includes,
    Ored,
}

impl ListCollectionMethod {
    pub open spec fn spec_var_postfix(self) -> Seq<char> {
        match self {
            ListCollectionMethod::And => "AndList"@,
            ListCollectionMethod::Includes => "IncludesList"@,
            ListCollectionMethod::Ored => "OredList"@,
        }
    }

    /// The suffix of the query variable that carries this convention's values.
    pub fn to_var_postfix(self) -> (r: &'static str)
        ensures
            r@ == self.spec_var_postfix(),
    {
        match self {
            Self::And => "AndList",
            Self::Includes => "IncludesList",
            Self::Ored => "OredList",
        }
    }

    /// True iff multiple values under this convention mean "all of these at
    /// once" rather than "any of these".
    pub fn is_and(self) -> (r: bool)
        ensures
            r == (self is And),
    {
        match self {
            Self::And => true,
            Self::Includes | Self::Ored => false,
        }
    }
}

/// Which conventions were seen in use, either for one property and role, or
/// accumulated over the whole ontology for one role.
#[derive(Clone, Copy, Debug, PartialEq, Eq, Structural)]
pub struct UsedConventions {
    pub and_list: bool,
    pub includes: bool,
    pub ored: bool,
}

impl UsedConventions {
    pub open spec fn spec_contains(self, m: ListCollectionMethod) -> bool {
        match m {
            ListCollectionMethod::And => self.and_list,
            ListCollectionMethod::Includes => self.includes,
            ListCollectionMethod::Ored => self.ored,
        }
    }

    pub open spec fn spec_count(self) -> int {
        (if self.and_list {
            1int
        } else {
            0int
        }) + (if self.includes {
            1int
        } else {
            0int
        }) + (if self.ored {
            1int
        } else {
            0int
        })
    }

    pub open spec fn spec_union(self, other: Self) -> Self {
        UsedConventions {
            and_list: self.and_list || other.and_list,
            includes: self.includes || other.includes,
            ored: self.ored || other.ored,
        }
    }

    pub fn none() -> (r: Self)
        ensures
            r == (UsedConventions { and_list: false, includes: false, ored: false }),
    {
        UsedConventions { and_list: false, includes: false, ored: false }
    }

    pub fn contains(self, m: ListCollectionMethod) -> (r: bool)
        ensures
            r == self.spec_contains(m),
    {
        match m {
            ListCollectionMethod::And => self.and_list,
            ListCollectionMethod::Includes => self.includes,
            ListCollectionMethod::Ored => self.ored,
        }
    }

    /// How many distinct conventions are in the set.
    pub fn count(self) -> (r: usize)
        ensures
            r == self.spec_count(),
    {
        let mut n: usize = 0;
        if self.and_list {
            n = n + 1;
        }
        if self.includes {
            n = n + 1;
        }
        if self.ored {
            n = n + 1;
        }
        n
    }

    pub fn union(self, other: Self) -> (r: Self)
        ensures
            r == self.spec_union(other),
    {
        UsedConventions {
            and_list: self.and_list || other.and_list,
            includes: self.includes || other.includes,
            ored: self.ored || other.ored,
        }
    }
}

/// A non-fatal report: an odity whose resolution mode is Warn. The run
/// records it and continues with a best-effort, explicitly lossy emission.
#[derive(Clone, Debug, PartialEq, Eq)]
pub enum Warning {
    /// `rdfs:range`/`rdfs:domain` listed more than one value for this property.
    AndListDetected { role: RDProperty, subject: String, values: Vec<String> },
    /// This property declared the same role through more than one convention.
    StyleMixWithinProperty { role: RDProperty, subject: String, used: UsedConventions },
    /// Different properties of the ontology used different conventions for this role.
    StyleMixAcrossOntology { role: RDProperty, used: UsedConventions },
}

/// The mathematical value of a [`Warning`].
pub enum WarningView {
    AndListDetected { role: RDProperty, subject: Seq<char>, values: Seq<Seq<char>> },
    StyleMixWithinProperty { role: RDProperty, subject: Seq<char>, used: UsedConventions },
    StyleMixAcrossOntology { role: RDProperty, used: UsedConventions },
}

impl View for Warning {
    type V = WarningView;

    open spec fn view(&self) -> WarningView {
        match self {
            Warning::AndListDetected { role, subject, values } => WarningView::AndListDetected {
                role: *role,
                subject: subject@,
                values: values.deep_view(),
            },
            Warning::StyleMixWithinProperty { role, subject, used } =>
                WarningView::StyleMixWithinProperty {
                role: *role,
                subject: subject@,
                used: *used,
            },
            Warning::StyleMixAcrossOntology { role, used } => WarningView::StyleMixAcrossOntology {
                role: *role,
                used: *used,
            },
        }
    }
}

impl DeepView for Warning {
    type V = WarningView;

    open spec fn deep_view(&self) -> WarningView {
        self.view()
    }
}

/// A fatal condition: the run aborts at the first one, and nothing further is
/// emitted by the core.
#[derive(Clone, Debug, PartialEq, Eq)]
pub enum ConvertError {
    /// A term expected to serve as an IRI is no valid IRI: a non-IRI subject,
    /// or a derived shape IRI that does not parse.
    MalformedTerm { term: Term },
    /// `rdfs:range`/`rdfs:domain` listed more than one value for this
    /// property, and the configured mode is Error.
    AndListDetected { role: RDProperty, subject: String, values: Vec<String> },
    /// This property declared the same role through more than one convention,
    /// and the configured mode is Error.
    StyleMixWithinProperty { role: RDProperty, subject: String, used: UsedConventions },
    /// Different properties of the ontology used different conventions for
    /// this role, and the configured mode is Error.
    StyleMixAcrossOntology { role: RDProperty, used: UsedConventions },
}

/// The mathematical value of a [`ConvertError`].
pub enum ConvertErrorView {
    MalformedTerm { term: TermView },
    AndListDetected { role: RDProperty, subject: Seq<char>, values: Seq<Seq<char>> },
    StyleMixWithinProperty { role: RDProperty, subject: Seq<char>, used: UsedConventions },
    StyleMixAcrossOntology { role: RDProperty, used: UsedConventions },
}

impl View for ConvertError {
    type V = ConvertErrorView;

    open spec fn view(&self) -> ConvertErrorView {
        match self {
            ConvertError::MalformedTerm { term } => ConvertErrorView::MalformedTerm {
                term: term@,
            },
            ConvertError::AndListDetected { role, subject, values } =>
                ConvertErrorView::AndListDetected {
                role: *role,
                subject: subject@,
                values: values.deep_view(),
            },
            ConvertError::StyleMixWithinProperty { role, subject, used } =>
                ConvertErrorView::StyleMixWithinProperty {
                role: *role,
                subject: subject@,
                used: *used,
            },
            ConvertError::StyleMixAcrossOntology { role, used } =>
                ConvertErrorView::StyleMixAcrossOntology {
                role: *role,
                used: *used,
            },
        }
    }
}

impl DeepView for ConvertError {
    type V = ConvertErrorView;

    open spec fn deep_view(&self) -> ConvertErrorView {
        self.view()
    }
}

impl ConvertError {
    /// Which odity, if any, this error reports.
    pub fn odity_kind(&self) -> (r: Option<OdityKind>)
        ensures
            r == match self@ {
                ConvertErrorView::MalformedTerm { .. } => None::<OdityKind>,
                ConvertErrorView::AndListDetected { .. } => Some(
                    OdityKind::AndListOnSingleConvention,
                ),
                ConvertErrorView::StyleMixWithinProperty { .. } => Some(
                    OdityKind::StyleMixWithinProperty,
                ),
                ConvertErrorView::StyleMixAcrossOntology { .. } => Some(
                    OdityKind::StyleMixAcrossOntology,
                ),
            },
    {
        match self {
            ConvertError::MalformedTerm { .. } => None,
            ConvertError::AndListDetected { .. } => Some(OdityKind::AndListOnSingleConvention),
            ConvertError::StyleMixWithinProperty { .. } => Some(OdityKind::StyleMixWithinProperty),
            ConvertError::StyleMixAcrossOntology { .. } => Some(OdityKind::StyleMixAcrossOntology),
        }
    }
}

/// Copy a term; the copy has the same mathematical value.
fn clone_term(t: &Term) -> (r: Term)
    ensures
        r@ == t@,
{
    match t {
        Term::Iri(s) => Term::Iri(s.clone()),
        Term::Blank(s) => Term::Blank(s.clone()),
        Term::Literal { value, datatype } => Term::Literal {
            value: value.clone(),
            datatype: match datatype {
                Some(dt) => Some(dt.clone()),
                None => None,
            },
        },
    }
}

/// Copy a list of strings; the copy has the same mathematical value.
fn clone_string_vec(v: &Vec<String>) -> (r: Vec<String>)
    ensures
        r.deep_view() == v.deep_view(),
{
    let mut r: Vec<String> = Vec::new();
    let mut i: usize = 0;
    while i < v.len()
        invariant
            i <= v.len(),
            r.deep_view() =~= v.deep_view().take(i as int),
        decreases v.len() - i,
    {
        r.push(v[i].clone());
        proof {
            assert(v.deep_view().take(i + 1) =~= v.deep_view().take(i as int).push(
                v@[i as int].deep_view(),
            ));
        }
        i = i + 1;
    }
    proof {
        assert(v.deep_view().take(v.len() as int) =~= v.deep_view());
    }
    r
}

/// The comma-separated value list that a record declares for one role under
/// one convention.
pub open spec fn spec_list_of(
    rec: PropertyRecordView,
    role: RDProperty,
    method: ListCollectionMethod,
) -> Seq<char> {
    match (role, method) {
        (RDProperty::Range, ListCollectionMethod::And) => rec.range_and_list,
        (RDProperty::Range, ListCollectionMethod::Includes) => rec.range_includes_list,
        (RDProperty::Range, ListCollectionMethod::Ored) => rec.range_ored_list,
        (RDProperty::Domain, ListCollectionMethod::And) => rec.domain_and_list,
        (RDProperty::Domain, ListCollectionMethod::Includes) => rec.domain_includes_list,
        (RDProperty::Domain, ListCollectionMethod::Ored) => rec.domain_ored_list,
    }
}

/// The constraint triple emitted for one retained value of a role:
/// for the range of a datatype property `(shape, sh:datatype, valueShape)`,
/// for any other range `(shape, sh:class, valueShape)`, and for a domain the
/// inverted edge `(valueShape, sh:property, shape)`.
pub open spec fn spec_part_triple(
    shape: Seq<char>,
    part: Seq<char>,
    is_datatype: bool,
    role: RDProperty,
) -> TripleView {
    let part_shape = spec_shape_iri(part);
    match role {
        RDProperty::Range => TripleView {
            subject: shape,
            predicate: if is_datatype {
                vocab::spec_sh_datatype()
            } else {
                vocab::spec_sh_class()
            },
            object: TermView::Iri(part_shape),
        },
        RDProperty::Domain => TripleView {
            subject: part_shape,
            predicate: vocab::spec_sh_property(),
            object: TermView::Iri(shape),
        },
    }
}

/// What emitting a list of retained values produces: the constraint triples
/// in value order, stopping at the first value whose derived shape IRI is no
/// valid IRI.
pub struct EmitOutcome {
    pub triples: Seq<TripleView>,
    pub error: Option<ConvertErrorView>,
}

pub open spec fn spec_emit_parts(
    parts: Seq<Seq<char>>,
    shape: Seq<char>,
    is_datatype: bool,
    role: RDProperty,
) -> EmitOutcome
    decreases parts.len(),
{
    if parts.len() == 0 {
        EmitOutcome { triples: Seq::empty(), error: None }
    } else {
        let prev = spec_emit_parts(parts.drop_last(), shape, is_datatype, role);
        if prev.error is Some {
            prev
        } else {
            let part_shape = spec_shape_iri(parts.last());
            if !is_valid_iri(part_shape) {
                EmitOutcome {
                    triples: prev.triples,
                    error: Some(
                        ConvertErrorView::MalformedTerm { term: TermView::Iri(part_shape) },
                    ),
                }
            } else {
                EmitOutcome {
                    triples: prev.triples.push(
                        spec_part_triple(shape, parts.last(), is_datatype, role),
                    ),
                    error: None,
                }
            }
        }
    }
}

/// Once a prefix of the values has failed, the remaining values change nothing.
proof fn lemma_emit_parts_error_stable(
    parts: Seq<Seq<char>>,
    shape: Seq<char>,
    is_datatype: bool,
    role: RDProperty,
    i: int,
)
    requires
        0 <= i <= parts.len(),
        spec_emit_parts(parts.take(i), shape, is_datatype, role).error is Some,
    ensures
        spec_emit_parts(parts, shape, is_datatype, role) == spec_emit_parts(
            parts.take(i),
            shape,
            is_datatype,
            role,
        ),
    decreases parts.len() - i,
{
    if i < parts.len() {
        assert(parts.take(i + 1).drop_last() =~= parts.take(i));
        lemma_emit_parts_error_stable(parts, shape, is_datatype, role, i + 1);
    } else {
        assert(parts.take(parts.len() as int) =~= parts);
    }
}

/// Emit one constraint triple per retained value, in order; abort at the
/// first value whose derived shape IRI does not parse.
fn emit_parts(
    store: &mut ShapeStore,
    shape: &String,
    is_datatype: bool,
    role: RDProperty,
    parts: &Vec<String>,
) -> (r: Result<(), ConvertError>)
    ensures
        ({
            let o = spec_emit_parts(parts.deep_view(), shape@, is_datatype, role);
            &&& final(store)@ == old(store)@ + o.triples
            &&& match r {
                Ok(u) => o.error is None,
                Err(e) => o.error == Some(e@),
            }
        }),
{
    let ghost pv = parts.deep_view();
    proof {
        assert(pv.take(0) =~= Seq::<Seq<char>>::empty());
        assert(old(store)@ + Seq::<TripleView>::empty() =~= old(store)@);
    }
    let mut j: usize = 0;
    while j < parts.len()
        invariant
            j <= parts.len(),
            pv == parts.deep_view(),
            spec_emit_parts(pv.take(j as int), shape@, is_datatype, role).error is None,
            store@ == old(store)@ + spec_emit_parts(pv.take(j as int), shape@, is_datatype, role).triples,
        decreases parts.len() - j,
    {
        proof {
            assert(pv.take(j + 1).drop_last() =~= pv.take(j as int));
            assert(pv.take(j + 1).last() == pv[j as int]);
        }
        let part_shape = shape_iri(parts[j].as_str());
        if !check_iri(part_shape.as_str()) {
            let e = ConvertError::MalformedTerm { term: Term::Iri(part_shape) };
            proof {
                lemma_emit_parts_error_stable(pv, shape@, is_datatype, role, j + 1);
            }
            return Err(e);
        }
        match role {
            RDProperty::Range => {
                if is_datatype {
                    store.insert(
                        shape.clone(),
                        String::from_str(vocab::sh_datatype()),
                        Term::Iri(part_shape),
                    );
                } else {
                    store.insert(
                        shape.clone(),
                        String::from_str(vocab::sh_class()),
                        Term::Iri(part_shape),
                    );
                }
            },
            RDProperty::Domain => {
                store.insert(
                    part_shape,
                    String::from_str(vocab::sh_property()),
                    Term::Iri(shape.clone()),
                );
            },
        }
        j = j + 1;
    }
    proof {
        assert(pv.take(parts.len() as int) =~= pv);
    }
    Ok(())
}

/// What resolving one convention for one role of one property produces.
pub struct KindOutcome {
    pub used: bool,
    pub triples: Seq<TripleView>,
    pub warnings: Seq<WarningView>,
    pub error: Option<ConvertErrorView>,
}

/// Resolve one convention: an empty list means the convention is unused;
/// otherwise the values are split at commas and each is emitted
/// independently, except that a multi-valued `rdfs:range`/`rdfs:domain` list
/// is an odity resolved via the configured mode: Ignore drops all values of
/// the instance, Warn records a warning and emits every value as in the
/// single-value case, Error aborts the run.
#[verifier::opaque]
pub open spec fn spec_resolve_kind(
    subject: Seq<char>,
    is_datatype: bool,
    role: RDProperty,
    method: ListCollectionMethod,
    list: Seq<char>,
    mode: OdityHandling,
) -> KindOutcome {
    if list.len() == 0 {
        KindOutcome { used: false, triples: Seq::empty(), warnings: Seq::empty(), error: None }
    } else {
        let parts = spec_split_csv(list);
        let shape = spec_shape_iri(subject);
        if method is And && parts.len() > 1 {
            match mode {
                OdityHandling::Ignore => KindOutcome {
                    used: true,
                    triples: Seq::empty(),
                    warnings: Seq::empty(),
                    error: None,
                },
                OdityHandling::Error => KindOutcome {
                    used: true,
                    triples: Seq::empty(),
                    warnings: Seq::empty(),
                    error: Some(
                        ConvertErrorView::AndListDetected { role, subject, values: parts },
                    ),
                },
                OdityHandling::Warn => {
                    let e = spec_emit_parts(parts, shape, is_datatype, role);
                    KindOutcome {
                        used: true,
                        triples: e.triples,
                        warnings: seq![
                            WarningView::AndListDetected { role, subject, values: parts },
                        ],
                        error: e.error,
                    }
                },
            }
        } else {
            let e = spec_emit_parts(parts, shape, is_datatype, role);
            KindOutcome { used: true, triples: e.triples, warnings: Seq::empty(), error: e.error }
        }
    }
}

/// Resolve one convention of one role for the property `subject`, whose shape
/// IRI is `shape`, emitting into `store` and `warnings`.
fn convert_kind(
    store: &mut ShapeStore,
    warnings: &mut Vec<Warning>,
    subject: &String,
    shape: &String,
    is_datatype: bool,
    role: RDProperty,
    method: ListCollectionMethod,
    list: &String,
    mode: OdityHandling,
) -> (r: Result<bool, ConvertError>)
    requires
        shape@ == spec_shape_iri(subject@),
    ensures
        ({
            let o = spec_resolve_kind(subject@, is_datatype, role, method, list@, mode);
            &&& final(store)@ == old(store)@ + o.triples
            &&& final(warnings).deep_view() == old(warnings).deep_view() + o.warnings
            &&& match r {
                Ok(u) => o.error is None && u == o.used,
                Err(e) => o.error == Some(e@),
            }
        }),
{
    proof {
        reveal(spec_resolve_kind);
        assert(old(store)@ + Seq::<TripleView>::empty() =~= old(store)@);
        assert(old(warnings).deep_view() + Seq::<WarningView>::empty() =~= old(
            warnings,
        ).deep_view());
    }
    if list.as_str().is_empty() {
        return Ok(false);
    }
    let parts = split_csv(list.as_str());
    if method.is_and() && parts.len() > 1 {
        let action = mode;
        match action {
            OdityHandling::Ignore => {
                return Ok(true);
            },
            OdityHandling::Error => {
                return Err(
                    ConvertError::AndListDetected {
                        role,
                        subject: subject.clone(),
                        values: parts,
                    },
                );
            },
            OdityHandling::Warn => {
                warnings.push(
                    Warning::AndListDetected {
                        role,
                        subject: subject.clone(),
                        values: clone_string_vec(&parts),
                    },
                );
                proof {
                    assert(warnings.deep_view() =~= old(warnings).deep_view() + seq![
                        WarningView::AndListDetected {
                            role,
                            subject: subject@,
                            values: parts.deep_view(),
                        },
                    ]);
                }
            },
        }
    }
    match emit_parts(store, shape, is_datatype, role, &parts) {
        Ok(_) => Ok(true),
        Err(e) => Err(e),
    }
}

/// What resolving one whole role (range or domain) of one property produces.
pub struct RoleOutcome {
    pub used: UsedConventions,
    pub triples: Seq<TripleView>,
    pub warnings: Seq<WarningView>,
    pub error: Option<ConvertErrorView>,
}

/// Resolve one role of one property record: the three conventions are tried
/// in the fixed order `rdfs:*` list, `*Includes`, `owl:unionOf` list, each
/// emitting its constraint triples; afterwards, if more than one convention
/// was in use, that odity is resolved via the configured
/// within-property style-mix mode.
pub open spec fn spec_resolve_role(
    rec: PropertyRecordView,
    config: Config,
    role: RDProperty,
) -> RoleOutcome {
    let subject = rec.subject.text();
    let is_datatype = rec.prop_type is DatatypeProperty;
    let and_mode = config.spec_mode(OdityKind::AndListOnSingleConvention, role);
    let k_and = spec_resolve_kind(
        subject,
        is_datatype,
        role,
        ListCollectionMethod::And,
        spec_list_of(rec, role, ListCollectionMethod::And),
        and_mode,
    );
    if k_and.error is Some {
        RoleOutcome {
            used: UsedConventions { and_list: k_and.used, includes: false, ored: false },
            triples: k_and.triples,
            warnings: k_and.warnings,
            error: k_and.error,
        }
    } else {
        let k_inc = spec_resolve_kind(
            subject,
            is_datatype,
            role,
            ListCollectionMethod::Includes,
            spec_list_of(rec, role, ListCollectionMethod::Includes),
            and_mode,
        );
        if k_inc.error is Some {
            RoleOutcome {
                used: UsedConventions { and_list: k_and.used, includes: k_inc.used, ored: false },
                triples: k_and.triples + k_inc.triples,
                warnings: k_and.warnings + k_inc.warnings,
                error: k_inc.error,
            }
        } else {
            let k_ored = spec_resolve_kind(
                subject,
                is_datatype,
                role,
                ListCollectionMethod::Ored,
                spec_list_of(rec, role, ListCollectionMethod::Ored),
                and_mode,
            );
            let used = UsedConventions {
                and_list: k_and.used,
                includes: k_inc.used,
                ored: k_ored.used,
            };
            let triples = k_and.triples + k_inc.triples + k_ored.triples;
            let warnings = k_and.warnings + k_inc.warnings + k_ored.warnings;
            if k_ored.error is Some {
                RoleOutcome { used, triples, warnings, error: k_ored.error }
            } else {
                let mix_mode = config.spec_mode(OdityKind::StyleMixWithinProperty, role);
                if mix_mode is Ignore || used.spec_count() <= 1 {
                    RoleOutcome { used, triples, warnings, error: None }
                } else if mix_mode is Error {
                    RoleOutcome {
                        used,
                        triples,
                        warnings,
                        error: Some(
                            ConvertErrorView::StyleMixWithinProperty { role, subject, used },
                        ),
                    }
                } else {
                    RoleOutcome {
                        used,
                        triples,
                        warnings: warnings.push(
                            WarningView::StyleMixWithinProperty { role, subject, used },
                        ),
                        error: None,
                    }
                }
            }
        }
    }
}

/// The record field that carries one convention's values for one role.
fn list_field<'a>(
    rec: &'a PropertyRecord,
    role: RDProperty,
    method: ListCollectionMethod,
) -> (r: &'a String)
    ensures
        r@ == spec_list_of(rec@, role, method),
{
    match (role, method) {
        (RDProperty::Range, ListCollectionMethod::And) => &rec.range_and_list,
        (RDProperty::Range, ListCollectionMethod::Includes) => &rec.range_includes_list,
        (RDProperty::Range, ListCollectionMethod::Ored) => &rec.range_ored_list,
        (RDProperty::Domain, ListCollectionMethod::And) => &rec.domain_and_list,
        (RDProperty::Domain, ListCollectionMethod::Includes) => &rec.domain_includes_list,
        (RDProperty::Domain, ListCollectionMethod::Ored) => &rec.domain_ored_list,
    }
}

/// Resolve one role (range or domain) of one property record, emitting the
/// role's constraint triples into `store` and any warnings into `warnings`.
/// Returns the set of conventions found in use for this role on this
/// property, for the caller to accumulate at ontology scope.
#[verifier::rlimit(100)]
pub fn convert_property_range_or_domain(
    store: &mut ShapeStore,
    warnings: &mut Vec<Warning>,
    config: &Config,
    rec: &PropertyRecord,
    prop: RDProperty,
) -> (r: Result<UsedConventions, ConvertError>)
    requires
        rec.subject@ is Iri,
    ensures
        ({
            let o = spec_resolve_role(rec@, *config, prop);
            &&& final(store)@ == old(store)@ + o.triples
            &&& final(warnings).deep_view() == old(warnings).deep_view() + o.warnings
            &&& match r {
                Ok(u) => o.error is None && u == o.used,
                Err(e) => o.error == Some(e@),
            }
        }),
{
    let subject: &String = match &rec.subject {
        Term::Iri(s) => s,
        Term::Blank(s) => s,
        Term::Literal { value, .. } => value,
    };
    let shape = shape_iri(subject.as_str());
    let is_datatype = rec.prop_type.is_datatype();
    let and_mode = config.mode(OdityKind::AndListOnSingleConvention, prop);
    let ghost rv = rec@;
    let ghost subj = rv.subject.text();
    let ghost o_and = spec_resolve_kind(
        subj,
        is_datatype,
        prop,
        ListCollectionMethod::And,
        spec_list_of(rv, prop, ListCollectionMethod::And),
        and_mode,
    );
    let ghost o_inc = spec_resolve_kind(
        subj,
        is_datatype,
        prop,
        ListCollectionMethod::Includes,
        spec_list_of(rv, prop, ListCollectionMethod::Includes),
        and_mode,
    );
    let ghost o_ored = spec_resolve_kind(
        subj,
        is_datatype,
        prop,
        ListCollectionMethod::Ored,
        spec_list_of(rv, prop, ListCollectionMethod::Ored),
        and_mode,
    );
    let ghost o = spec_resolve_role(rv, *config, prop);
    proof {
        assert(subject@ == subj);
    }

    let used_and = match convert_kind(
        store,
        warnings,
        subject,
        &shape,
        is_datatype,
        prop,
        ListCollectionMethod::And,
        list_field(rec, prop, ListCollectionMethod::And),
        and_mode,
    ) {
        Ok(u) => u,
        Err(e) => {
            return Err(e);
        },
    };
    let used_inc = match convert_kind(
        store,
        warnings,
        subject,
        &shape,
        is_datatype,
        prop,
        ListCollectionMethod::Includes,
        list_field(rec, prop, ListCollectionMethod::Includes),
        and_mode,
    ) {
        Ok(u) => u,
        Err(e) => {
            proof {
                assert(old(store)@ + (o_and.triples + o_inc.triples) =~= old(store)@
                    + o_and.triples + o_inc.triples);
                assert(old(warnings).deep_view() + (o_and.warnings + o_inc.warnings) =~= old(
                    warnings,
                ).deep_view() + o_and.warnings + o_inc.warnings);
            }
            return Err(e);
        },
    };
    let used_ored = match convert_kind(
        store,
        warnings,
        subject,
        &shape,
        is_datatype,
        prop,
        ListCollectionMethod::Ored,
        list_field(rec, prop, ListCollectionMethod::Ored),
        and_mode,
    ) {
        Ok(u) => u,
        Err(e) => {
            proof {
                assert(old(store)@ + (o_and.triples + o_inc.triples + o_ored.triples) =~= old(
                    store,
                )@ + o_and.triples + o_inc.triples + o_ored.triples);
                assert(old(warnings).deep_view() + (o_and.warnings + o_inc.warnings
                    + o_ored.warnings) =~= old(warnings).deep_view() + o_and.warnings
                    + o_inc.warnings + o_ored.warnings);
            }
            return Err(e);
        },
    };
    let used = UsedConventions { and_list: used_and, includes: used_inc, ored: used_ored };
    proof {
        assert(old(store)@ + (o_and.triples + o_inc.triples + o_ored.triples) =~= old(store)@
            + o_and.triples + o_inc.triples + o_ored.triples);
        assert(old(warnings).deep_view() + (o_and.warnings + o_inc.warnings + o_ored.warnings)
            =~= old(warnings).deep_view() + o_and.warnings + o_inc.warnings + o_ored.warnings);
    }

    let action = config.mode(OdityKind::StyleMixWithinProperty, prop);
    if !action.ignore() && used.count() > 1 {
        match action {
            OdityHandling::Error => {
                return Err(
                    ConvertError::StyleMixWithinProperty {
                        role: prop,
                        subject: subject.clone(),
                        used,
                    },
                );
            },
            OdityHandling::Warn => {
                let ghost wpre = warnings.deep_view();
                let ghost w = WarningView::StyleMixWithinProperty {
                    role: prop,
                    subject: subj,
                    used,
                };
                warnings.push(
                    Warning::StyleMixWithinProperty {
                        role: prop,
                        subject: subject.clone(),
                        used,
                    },
                );
                proof {
                    assert(warnings.deep_view() =~= wpre.push(w));
                    assert(wpre == old(warnings).deep_view() + (o_and.warnings + o_inc.warnings
                        + o_ored.warnings));
                    assert(old(warnings).deep_view() + (o_and.warnings + o_inc.warnings
                        + o_ored.warnings).push(w) =~= wpre.push(w));
                }
            },
            OdityHandling::Ignore => {
                proof {
                    assert(false);
                }
            },
        }
    }
    Ok(used)
}

/// The empty set of conventions.
pub open spec fn spec_no_conventions() -> UsedConventions {
    UsedConventions { and_list: false, includes: false, ored: false }
}

/// The three node-shape triples emitted for one class `subj`:
/// the shape's type, its target class, and `sh:closed false`.
pub open spec fn spec_class_triples(subj: Seq<char>) -> Seq<TripleView> {
    let shape = spec_shape_iri(subj);
    seq![
        TripleView {
            subject: shape,
            predicate: vocab::spec_rdf_type(),
            object: TermView::Iri(vocab::spec_sh_node_shape()),
        },
        TripleView {
            subject: shape,
            predicate: vocab::spec_sh_target_class(),
            object: TermView::Iri(subj),
        },
        TripleView {
            subject: shape,
            predicate: vocab::spec_sh_closed(),
            object: TermView::Literal {
                value: "false"@,
                datatype: Some(vocab::spec_xsd_boolean()),
            },
        },
    ]
}

/// The state of the class pass: the triples emitted so far, and the error
/// that stopped it, if any.
pub struct ClassPassState {
    pub triples: Seq<TripleView>,
    pub error: Option<ConvertErrorView>,
}

/// Process one class record: a non-IRI subject or an invalid derived shape
/// IRI aborts the run, otherwise the three node-shape triples are appended.
pub open spec fn spec_class_step(st: ClassPassState, rec: ClassRecordView) -> ClassPassState {
    if st.error is Some {
        st
    } else {
        match rec.subject {
            TermView::Iri(subj) => {
                let shape = spec_shape_iri(subj);
                if !is_valid_iri(shape) {
                    ClassPassState {
                        triples: st.triples,
                        error: Some(
                            ConvertErrorView::MalformedTerm { term: TermView::Iri(shape) },
                        ),
                    }
                } else {
                    ClassPassState { triples: st.triples + spec_class_triples(subj), error: None }
                }
            },
            _ => ClassPassState {
                triples: st.triples,
                error: Some(ConvertErrorView::MalformedTerm { term: rec.subject }),
            },
        }
    }
}

/// Process the class records in order, stopping at the first fatal record.
pub open spec fn spec_convert_classes(recs: Seq<ClassRecordView>) -> ClassPassState
    decreases recs.len(),
{
    if recs.len() == 0 {
        ClassPassState { triples: Seq::empty(), error: None }
    } else {
        spec_class_step(spec_convert_classes(recs.drop_last()), recs.last())
    }
}

/// Once a prefix of the class records has failed, the rest changes nothing.
proof fn lemma_convert_classes_error_stable(recs: Seq<ClassRecordView>, i: int)
    requires
        0 <= i <= recs.len(),
        spec_convert_classes(recs.take(i)).error is Some,
    ensures
        spec_convert_classes(recs) == spec_convert_classes(recs.take(i)),
    decreases recs.len() - i,
{
    if i < recs.len() {
        assert(recs.take(i + 1).drop_last() =~= recs.take(i));
        lemma_convert_classes_error_stable(recs, i + 1);
    } else {
        assert(recs.take(recs.len() as int) =~= recs);
    }
}

/// Turn each class record into one closed-by-default SHACL node shape,
/// appending three triples per class to `store`.
pub fn convert_classes(classes: &Vec<ClassRecord>, store: &mut ShapeStore) -> (r: Result<
    (),
    ConvertError,
>)
    ensures
        ({
            let o = spec_convert_classes(classes.deep_view());
            &&& final(store)@ == old(store)@ + o.triples
            &&& match r {
                Ok(u) => o.error is None,
                Err(e) => o.error == Some(e@),
            }
        }),
{
    let ghost cv = classes.deep_view();
    proof {
        assert(cv.take(0) =~= Seq::<ClassRecordView>::empty());
        assert(old(store)@ + Seq::<TripleView>::empty() =~= old(store)@);
    }
    let mut i: usize = 0;
    while i < classes.len()
        invariant
            i <= classes.len(),
            cv == classes.deep_view(),
            spec_convert_classes(cv.take(i as int)).error is None,
            store@ == old(store)@ + spec_convert_classes(cv.take(i as int)).triples,
        decreases classes.len() - i,
    {
        let ghost stpre = spec_convert_classes(cv.take(i as int));
        proof {
            assert(cv.take(i + 1).drop_last() =~= cv.take(i as int));
            assert(cv.take(i + 1).last() == cv[i as int]);
        }
        let rec = &classes[i];
        let subject: &String = match &rec.subject {
            Term::Iri(s) => s,
            _ => {
                let e = ConvertError::MalformedTerm { term: clone_term(&rec.subject) };
                proof {
                    lemma_convert_classes_error_stable(cv, i + 1);
                }
                return Err(e);
            },
        };
        let shape = shape_iri(subject.as_str());
        if !check_iri(shape.as_str()) {
            let e = ConvertError::MalformedTerm { term: Term::Iri(shape) };
            proof {
                lemma_convert_classes_error_stable(cv, i + 1);
            }
            return Err(e);
        }
        store.insert(
            shape.clone(),
            String::from_str(vocab::rdf_type()),
            Term::Iri(String::from_str(vocab::sh_node_shape())),
        );
        store.insert(
            shape.clone(),
            String::from_str(vocab::sh_target_class()),
            clone_term(&rec.subject),
        );
        store.insert(
            shape,
            String::from_str(vocab::sh_closed()),
            Term::Literal {
                value: String::from_str("false"),
                datatype: Some(String::from_str(vocab::xsd_boolean())),
            },
        );
        proof {
            assert(store@ =~= old(store)@ + spec_convert_classes(cv.take(i + 1)).triples);
        }
        i = i + 1;
    }
    proof {
        assert(cv.take(classes.len() as int) =~= cv);
    }
    Ok(())
}

/// The scaffolding triples of one property shape: its type and path, then,
/// when present, its name (from the label), its description, and the count
/// constraints mapped from the cardinality annotations. An exact cardinality
/// yields both `sh:minCount` and `sh:maxCount`; when several cardinality
/// sources are present simultaneously, all of them emit.
pub open spec fn spec_base_triples(rec: PropertyRecordView) -> Seq<TripleView> {
    let subj = rec.subject.text();
    let shape = spec_shape_iri(subj);
    seq![
        TripleView {
            subject: shape,
            predicate: vocab::spec_rdf_type(),
            object: TermView::Iri(vocab::spec_sh_property_shape()),
        },
        TripleView {
            subject: shape,
            predicate: vocab::spec_sh_path(),
            object: rec.subject,
        },
    ] + (match rec.label {
        Some(l) => seq![
            TripleView { subject: shape, predicate: vocab::spec_sh_name(), object: l },
        ],
        None => Seq::empty(),
    }) + (match rec.description {
        Some(d) => seq![
            TripleView { subject: shape, predicate: vocab::spec_sh_description(), object: d },
        ],
        None => Seq::empty(),
    }) + (match rec.min_cardinality {
        Some(v) => seq![
            TripleView { subject: shape, predicate: vocab::spec_sh_min_count(), object: v },
        ],
        None => Seq::empty(),
    }) + (match rec.max_cardinality {
        Some(v) => seq![
            TripleView { subject: shape, predicate: vocab::spec_sh_max_count(), object: v },
        ],
        None => Seq::empty(),
    }) + (match rec.cardinality {
        Some(v) => seq![
            TripleView { subject: shape, predicate: vocab::spec_sh_min_count(), object: v },
            TripleView { subject: shape, predicate: vocab::spec_sh_max_count(), object: v },
        ],
        None => Seq::empty(),
    })
}

/// Emit the scaffolding triples of one property shape.
fn emit_property_shape_triples(store: &mut ShapeStore, rec: &PropertyRecord, shape: &String)
    requires
        shape@ == spec_shape_iri(rec.subject@.text()),
    ensures
        final(store)@ == old(store)@ + spec_base_triples(rec@),
{
    store.insert(
        shape.clone(),
        String::from_str(vocab::rdf_type()),
        Term::Iri(String::from_str(vocab::sh_property_shape())),
    );
    store.insert(shape.clone(), String::from_str(vocab::sh_path()), clone_term(&rec.subject));
    if let Some(l) = &rec.label {
        store.insert(shape.clone(), String::from_str(vocab::sh_name()), clone_term(l));
    }
    if let Some(d) = &rec.description {
        store.insert(shape.clone(), String::from_str(vocab::sh_description()), clone_term(d));
    }
    if let Some(v) = &rec.min_cardinality {
        store.insert(shape.clone(), String::from_str(vocab::sh_min_count()), clone_term(v));
    }
    if let Some(v) = &rec.max_cardinality {
        store.insert(shape.clone(), String::from_str(vocab::sh_max_count()), clone_term(v));
    }
    if let Some(v) = &rec.cardinality {
        store.insert(shape.clone(), String::from_str(vocab::sh_min_count()), clone_term(v));
        store.insert(shape.clone(), String::from_str(vocab::sh_max_count()), clone_term(v));
    }
    proof {
        assert(store@ =~= old(store)@ + spec_base_triples(rec@));
    }
}

/// What processing one property record produces.
pub struct RecordOutcome {
    pub triples: Seq<TripleView>,
    pub warnings: Seq<WarningView>,
    pub used_range: UsedConventions,
    pub used_domain: UsedConventions,
    pub error: Option<ConvertErrorView>,
}

/// Process one property record: derive and validate its shape IRI, emit the
/// property shape's scaffolding triples, then resolve the range role and the
/// domain role in that order, stopping at the first fatal condition.
#[verifier::opaque]
pub open spec fn spec_convert_property(rec: PropertyRecordView, config: Config) -> RecordOutcome {
    if !(rec.subject is Iri) {
        RecordOutcome {
            triples: Seq::empty(),
            warnings: Seq::empty(),
            used_range: spec_no_conventions(),
            used_domain: spec_no_conventions(),
            error: Some(ConvertErrorView::MalformedTerm { term: rec.subject }),
        }
    } else {
        let subj = rec.subject.text();
        let shape = spec_shape_iri(subj);
        if !is_valid_iri(shape) {
            RecordOutcome {
                triples: Seq::empty(),
                warnings: Seq::empty(),
                used_range: spec_no_conventions(),
                used_domain: spec_no_conventions(),
                error: Some(ConvertErrorView::MalformedTerm { term: TermView::Iri(shape) }),
            }
        } else {
            let base = spec_base_triples(rec);
            let r_range = spec_resolve_role(rec, config, RDProperty::Range);
            if r_range.error is Some {
                RecordOutcome {
                    triples: base + r_range.triples,
                    warnings: r_range.warnings,
                    used_range: r_range.used,
                    used_domain: spec_no_conventions(),
                    error: r_range.error,
                }
            } else {
                let r_dom = spec_resolve_role(rec, config, RDProperty::Domain);
                RecordOutcome {
                    triples: base + r_range.triples + r_dom.triples,
                    warnings: r_range.warnings + r_dom.warnings,
                    used_range: r_range.used,
                    used_domain: r_dom.used,
                    error: r_dom.error,
                }
            }
        }
    }
}

/// The state of the property pass: emitted triples, recorded warnings, the
/// conventions seen in use per role over the whole ontology, and the error
/// that stopped the pass, if any.
pub struct PropPassState {
    pub triples: Seq<TripleView>,
    pub warnings: Seq<WarningView>,
    pub used_range: UsedConventions,
    pub used_domain: UsedConventions,
    pub error: Option<ConvertErrorView>,
}

pub open spec fn spec_props_init() -> PropPassState {
    PropPassState {
        triples: Seq::empty(),
        warnings: Seq::empty(),
        used_range: spec_no_conventions(),
        used_domain: spec_no_conventions(),
        error: None,
    }
}

/// Fold one property record into the pass state; after a fatal record the
/// state no longer changes.
pub open spec fn spec_prop_step(
    st: PropPassState,
    rec: PropertyRecordView,
    config: Config,
) -> PropPassState {
    if st.error is Some {
        st
    } else {
        let o = spec_convert_property(rec, config);
        PropPassState {
            triples: st.triples + o.triples,
            warnings: st.warnings + o.warnings,
            used_range: st.used_range.spec_union(o.used_range),
            used_domain: st.used_domain.spec_union(o.used_domain),
            error: o.error,
        }
    }
}

/// Process the property records in order, stopping at the first fatal record.
pub open spec fn spec_props_fold(recs: Seq<PropertyRecordView>, config: Config) -> PropPassState
    decreases recs.len(),
{
    if recs.len() == 0 {
        spec_props_init()
    } else {
        spec_prop_step(spec_props_fold(recs.drop_last(), config), recs.last(), config)
    }
}

/// Once a prefix of the property records has failed, the rest changes nothing.
proof fn lemma_props_fold_error_stable(recs: Seq<PropertyRecordView>, config: Config, i: int)
    requires
        0 <= i <= recs.len(),
        spec_props_fold(recs.take(i), config).error is Some,
    ensures
        spec_props_fold(recs, config) == spec_props_fold(recs.take(i), config),
    decreases recs.len() - i,
{
    if i < recs.len() {
        assert(recs.take(i + 1).drop_last() =~= recs.take(i));
        lemma_props_fold_error_stable(recs, config, i + 1);
    } else {
        assert(recs.take(recs.len() as int) =~= recs);
    }
}

/// After the property loop, audit one role at ontology scope: if more than
/// one convention was in use across all properties, that odity is resolved
/// via the configured across-ontology style-mix mode.
pub open spec fn spec_ontology_style_check(
    st: PropPassState,
    config: Config,
    role: RDProperty,
) -> PropPassState {
    let used = match role {
        RDProperty::Range => st.used_range,
        RDProperty::Domain => st.used_domain,
    };
    let mode = config.spec_mode(OdityKind::StyleMixAcrossOntology, role);
    if mode is Ignore || used.spec_count() <= 1 {
        st
    } else if mode is Error {
        PropPassState {
            triples: st.triples,
            warnings: st.warnings,
            used_range: st.used_range,
            used_domain: st.used_domain,
            error: Some(ConvertErrorView::StyleMixAcrossOntology { role, used }),
        }
    } else {
        PropPassState {
            triples: st.triples,
            warnings: st.warnings.push(WarningView::StyleMixAcrossOntology { role, used }),
            used_range: st.used_range,
            used_domain: st.used_domain,
            error: None,
        }
    }
}

/// The whole property pass: the per-record fold, then — only if no record
/// was fatal — the ontology-scope style audit of the range role, then of the
/// domain role.
pub open spec fn spec_convert_properties(
    recs: Seq<PropertyRecordView>,
    config: Config,
) -> PropPassState {
    let st = spec_props_fold(recs, config);
    if st.error is Some {
        st
    } else {
        let st1 = spec_ontology_style_check(st, config, RDProperty::Range);
        if st1.error is Some {
            st1
        } else {
            spec_ontology_style_check(st1, config, RDProperty::Domain)
        }
    }
}

/// Turn each property record into one SHACL property shape with its
/// range and domain constraint triples, accumulating which conventions each
/// role used anywhere in the ontology; after the loop, audit that
/// accumulated use once per role. No property record is skipped: a record
/// with no convention in use for a role still gets its property shape.
#[verifier::rlimit(100)]
pub fn convert_properties(
    properties: &Vec<PropertyRecord>,
    config: &Config,
    store: &mut ShapeStore,
    warnings: &mut Vec<Warning>,
) -> (r: Result<(), ConvertError>)
    ensures
        ({
            let o = spec_convert_properties(properties.deep_view(), *config);
            &&& final(store)@ == old(store)@ + o.triples
            &&& final(warnings).deep_view() == old(warnings).deep_view() + o.warnings
            &&& match r {
                Ok(u) => o.error is None,
                Err(e) => o.error == Some(e@),
            }
        }),
{
    let ghost pv = properties.deep_view();
    proof {
        assert(pv.take(0) =~= Seq::<PropertyRecordView>::empty());
        assert(old(store)@ + Seq::<TripleView>::empty() =~= old(store)@);
        assert(old(warnings).deep_view() + Seq::<WarningView>::empty() =~= old(
            warnings,
        ).deep_view());
    }
    let mut used_range = UsedConventions::none();
    let mut used_domain = UsedConventions::none();
    let mut i: usize = 0;
    while i < properties.len()
        invariant
            i <= properties.len(),
            pv == properties.deep_view(),
            spec_props_fold(pv.take(i as int), *config).error is None,
            store@ == old(store)@ + spec_props_fold(pv.take(i as int), *config).triples,
            warnings.deep_view() == old(warnings).deep_view() + spec_props_fold(
                pv.take(i as int),
                *config,
            ).warnings,
            used_range == spec_props_fold(pv.take(i as int), *config).used_range,
            used_domain == spec_props_fold(pv.take(i as int), *config).used_domain,
        decreases properties.len() - i,
    {
        let ghost stpre = spec_props_fold(pv.take(i as int), *config);
        let rec = &properties[i];
        let ghost o = spec_convert_property(rec@, *config);
        proof {
            assert(pv.take(i + 1).drop_last() =~= pv.take(i as int));
            assert(pv.take(i + 1).last() == pv[i as int]);
            assert(pv[i as int] == rec@);
            reveal(spec_convert_property);
        }
        let subject: &String = match &rec.subject {
            Term::Iri(s) => s,
            _ => {
                let e = ConvertError::MalformedTerm { term: clone_term(&rec.subject) };
                proof {
                    assert(stpre.triples + o.triples =~= stpre.triples);
                    assert(stpre.warnings + o.warnings =~= stpre.warnings);
                    lemma_props_fold_error_stable(pv, *config, i + 1);
                }
                return Err(e);
            },
        };
        let shape = shape_iri(subject.as_str());
        if !check_iri(shape.as_str()) {
            let e = ConvertError::MalformedTerm { term: Term::Iri(shape) };
            proof {
                assert(stpre.triples + o.triples =~= stpre.triples);
                assert(stpre.warnings + o.warnings =~= stpre.warnings);
                lemma_props_fold_error_stable(pv, *config, i + 1);
            }
            return Err(e);
        }
        let ghost base = spec_base_triples(rec@);
        let ghost rr = spec_resolve_role(rec@, *config, RDProperty::Range);
        let ghost rd = spec_resolve_role(rec@, *config, RDProperty::Domain);
        emit_property_shape_triples(store, rec, &shape);
        let u_r = match convert_property_range_or_domain(
            store,
            warnings,
            config,
            rec,
            RDProperty::Range,
        ) {
            Ok(u) => u,
            Err(e) => {
                proof {
                    assert(old(store)@ + (stpre.triples + (base + rr.triples)) =~= old(store)@
                        + stpre.triples + base + rr.triples);
                    assert(old(warnings).deep_view() + (stpre.warnings + rr.warnings) =~= old(
                        warnings,
                    ).deep_view() + stpre.warnings + rr.warnings);
                    lemma_props_fold_error_stable(pv, *config, i + 1);
                }
                return Err(e);
            },
        };
        used_range = used_range.union(u_r);
        let u_d = match convert_property_range_or_domain(
            store,
            warnings,
            config,
            rec,
            RDProperty::Domain,
        ) {
            Ok(u) => u,
            Err(e) => {
                proof {
                    assert(old(store)@ + (stpre.triples + (base + rr.triples + rd.triples))
                        =~= old(store)@ + stpre.triples + base + rr.triples + rd.triples);
                    assert(old(warnings).deep_view() + (stpre.warnings + (rr.warnings
                        + rd.warnings)) =~= old(warnings).deep_view() + stpre.warnings
                        + rr.warnings + rd.warnings);
                    lemma_props_fold_error_stable(pv, *config, i + 1);
                }
                return Err(e);
            },
        };
        used_domain = used_domain.union(u_d);
        proof {
            assert(old(store)@ + (stpre.triples + (base + rr.triples + rd.triples)) =~= old(
                store,
            )@ + stpre.triples + base + rr.triples + rd.triples);
            assert(old(warnings).deep_view() + (stpre.warnings + (rr.warnings + rd.warnings))
                =~= old(warnings).deep_view() + stpre.warnings + rr.warnings + rd.warnings);
        }
        i = i + 1;
    }
    proof {
        assert(pv.take(properties.len() as int) =~= pv);
    }
    let ghost st = spec_props_fold(pv, *config);
    let ghost st1 = spec_ontology_style_check(st, *config, RDProperty::Range);
    let ghost st2 = spec_ontology_style_check(st1, *config, RDProperty::Domain);

    let action_range = config.mode(OdityKind::StyleMixAcrossOntology, RDProperty::Range);
    if !action_range.ignore() && used_range.count() > 1 {
        match action_range {
            OdityHandling::Error => {
                return Err(
                    ConvertError::StyleMixAcrossOntology {
                        role: RDProperty::Range,
                        used: used_range,
                    },
                );
            },
            OdityHandling::Warn => {
                let ghost w = WarningView::StyleMixAcrossOntology {
                    role: RDProperty::Range,
                    used: used_range,
                };
                warnings.push(
                    Warning::StyleMixAcrossOntology { role: RDProperty::Range, used: used_range },
                );
                proof {
                    assert((old(warnings).deep_view() + st.warnings).push(w) =~= old(
                        warnings,
                    ).deep_view() + st.warnings.push(w));
                }
            },
            OdityHandling::Ignore => {
                proof {
                    assert(false);
                }
            },
        }
    }
    let action_domain = config.mode(OdityKind::StyleMixAcrossOntology, RDProperty::Domain);
    if !action_domain.ignore() && used_domain.count() > 1 {
        match action_domain {
            OdityHandling::Error => {
                return Err(
                    ConvertError::StyleMixAcrossOntology {
                        role: RDProperty::Domain,
                        used: used_domain,
                    },
                );
            },
            OdityHandling::Warn => {
                let ghost w = WarningView::StyleMixAcrossOntology {
                    role: RDProperty::Domain,
                    used: used_domain,
                };
                warnings.push(
                    Warning::StyleMixAcrossOntology { role: RDProperty::Domain, used: used_domain },
                );
                proof {
                    assert((old(warnings).deep_view() + st1.warnings).push(w) =~= old(
                        warnings,
                    ).deep_view() + st1.warnings.push(w));
                }
            },
            OdityHandling::Ignore => {
                proof {
                    assert(false);
                }
            },
        }
    }
    Ok(())
}

/// What one whole conversion run produces.
pub struct ConversionOutcome {
    pub triples: Seq<TripleView>,
    pub warnings: Seq<WarningView>,
    pub error: Option<ConvertErrorView>,
}

/// The whole conversion: the class pass over all class records, then the
/// property pass over all property records.
pub open spec fn spec_convert(
    classes: Seq<ClassRecordView>,
    props: Seq<PropertyRecordView>,
    config: Config,
) -> ConversionOutcome {
    let c = spec_convert_classes(classes);
    if c.error is Some {
        ConversionOutcome { triples: c.triples, warnings: Seq::empty(), error: c.error }
    } else {
        let p = spec_convert_properties(props, config);
        ConversionOutcome { triples: c.triples + p.triples, warnings: p.warnings, error: p.error }
    }
}

/// The result of a successful conversion run: the complete SHACL shapes
/// graph, and the warnings recorded along the way.
#[derive(Debug)]
pub struct Conversion {
    pub store: ShapeStore,
    pub warnings: Vec<Warning>,
}

/// Convert an ontology, given as its class records and property records in
/// subject order, into a SHACL shapes graph, resolving every odity via the
/// configuration. On success the returned store holds the complete graph; on
/// failure nothing is returned beyond the error, and the run emitted nothing
/// after the fatal condition.
pub fn convert(
    classes: &Vec<ClassRecord>,
    properties: &Vec<PropertyRecord>,
    config: &Config,
) -> (r: Result<Conversion, ConvertError>)
    ensures
        ({
            let o = spec_convert(classes.deep_view(), properties.deep_view(), *config);
            match r {
                Ok(c) => {
                    &&& o.error is None
                    &&& c.store@ == o.triples
                    &&& c.warnings.deep_view() == o.warnings
                },
                Err(e) => o.error == Some(e@),
            }
        }),
{
    let mut store = ShapeStore::new();
    let mut warnings: Vec<Warning> = Vec::new();
    let ghost c = spec_convert_classes(classes.deep_view());
    match convert_classes(classes, &mut store) {
        Ok(_) => {},
        Err(e) => {
            return Err(e);
        },
    }
    proof {
        assert(Seq::<TripleView>::empty() + c.triples =~= c.triples);
    }
    let ghost p = spec_convert_properties(properties.deep_view(), *config);
    match convert_properties(properties, config, &mut store, &mut warnings) {
        Ok(_) => {},
        Err(e) => {
            return Err(e);
        },
    }
    proof {
        assert(Seq::<WarningView>::empty() + p.warnings =~= p.warnings);
    }
    Ok(Conversion { store, warnings })
}

} // verus!
