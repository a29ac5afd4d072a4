use vstd::prelude::*;

verus! {

/// An RDF value: an IRI, a blank node, or a literal
/// (a string with an optional datatype IRI).
/// Identity is structural equality.
#[derive(Clone, Debug, PartialEq, Eq)]
pub enum Term {
    Iri(String),
    Blank(String),
    Literal { value: String, datatype: Option<String> },
}

/// The mathematical value of a [`Term`].
pub enum TermView {
    Iri(Seq<char>),
    Blank(Seq<char>),
    Literal { value: Seq<char>, datatype: Option<Seq<char>> },
}

impl TermView {
    /// The character content of the term: the IRI, the blank node label, or
    /// the literal's lexical value.
    pub open spec fn text(self) -> Seq<char> {
        match self {
            TermView::Iri(s) => s,
            TermView::Blank(s) => s,
            TermView::Literal { value, .. } => value,
        }
    }
}

impl View for Term {
    type V = TermView;

    open spec fn view(&self) -> TermView {
        match self {
            Term::Iri(s) => TermView::Iri(s@),
            Term::Blank(s) => TermView::Blank(s@),
            Term::Literal { value, datatype } => TermView::Literal {
                value: value@,
                datatype: match datatype {
                    Some(dt) => Some(dt@),
                    None => None,
                },
            },
        }
    }
}

impl DeepView for Term {
    type V = TermView;

    open spec fn deep_view(&self) -> TermView {
        self.view()
    }
}

/// The `rdf:type` under which a property is declared in the source ontology.
#[derive(Clone, Copy, Debug, PartialEq, Eq, Structural)]
pub enum PropertyType {
    Property,
    ObjectProperty,
    DatatypeProperty,
    AnnotationProperty,
}

impl PropertyType {
    /// Datatype properties constrain their range with `sh:datatype`,
    /// all others with `sh:class`.
    pub fn is_datatype(self) -> (r: bool)
        ensures
            r == (self is DatatypeProperty),
    {
        matches!(self, Self::DatatypeProperty)
    }
}

/// One row of the class query: a single declared class of the source ontology.
#[derive(Clone, Debug, PartialEq, Eq)]
pub struct ClassRecord {
    pub subject: Term,
}

/// The mathematical value of a [`ClassRecord`].
pub struct ClassRecordView {
    pub subject: TermView,
}

impl View for ClassRecord {
    type V = ClassRecordView;

    open spec fn view(&self) -> ClassRecordView {
        ClassRecordView { subject: self.subject@ }
    }
}

impl DeepView for ClassRecord {
    type V = ClassRecordView;

    open spec fn deep_view(&self) -> ClassRecordView {
        self.view()
    }
}

/// One row of the property query, with the range/domain declarations already
/// aggregated per convention: each `*_list` field is a comma-separated,
/// duplicate-free list of the declared values, the empty string meaning
/// "this convention is not used".
#[derive(Clone, Debug, PartialEq, Eq)]
pub struct PropertyRecord {
    pub subject: Term,
    pub prop_type: PropertyType,
    pub label: Option<Term>,
    pub description: Option<Term>,
    pub cardinality: Option<Term>,
    pub min_cardinality: Option<Term>,
    pub max_cardinality: Option<Term>,
    pub range_and_list: String,
    pub range_includes_list: String,
    pub range_ored_list: String,
    pub domain_and_list: String,
    pub domain_includes_list: String,
    pub domain_ored_list: String,
}

/// The mathematical value of a [`PropertyRecord`].
pub struct PropertyRecordView {
    pub subject: TermView,
    pub prop_type: PropertyType,
    pub label: Option<TermView>,
    pub description: Option<TermView>,
    pub cardinality: Option<TermView>,
    pub min_cardinality: Option<TermView>,
    pub max_cardinality: Option<TermView>,
    pub range_and_list: Seq<char>,
    pub range_includes_list: Seq<char>,
    pub range_ored_list: Seq<char>,
    pub domain_and_list: Seq<char>,
    pub domain_includes_list: Seq<char>,
    pub domain_ored_list: Seq<char>,
}

impl View for PropertyRecord {
    type V = PropertyRecordView;

    open spec fn view(&self) -> PropertyRecordView {
        PropertyRecordView {
            subject: self.subject@,
            prop_type: self.prop_type,
            label: self.label.deep_view(),
            description: self.description.deep_view(),
            cardinality: self.cardinality.deep_view(),
            min_cardinality: self.min_cardinality.deep_view(),
            max_cardinality: self.max_cardinality.deep_view(),
            range_and_list: self.range_and_list@,
            range_includes_list: self.range_includes_list@,
            range_ored_list: self.range_ored_list@,
            domain_and_list: self.domain_and_list@,
            domain_includes_list: self.domain_includes_list@,
            domain_ored_list: self.domain_ored_list@,
        }
    }
}

impl DeepView for PropertyRecord {
    type V = PropertyRecordView;

    open spec fn deep_view(&self) -> PropertyRecordView {
        self.view()
    }
}

/// One SHACL triple of the output graph. The subject and the predicate are
/// always IRIs; the object may be any term.
#[derive(Clone, Debug, PartialEq, Eq)]
pub struct Triple {
    pub subject: String,
    pub predicate: String,
    pub object: Term,
}

/// The mathematical value of a [`Triple`].
pub struct TripleView {
    pub subject: Seq<char>,
    pub predicate: Seq<char>,
    pub object: TermView,
}

impl View for Triple {
    type V = TripleView;

    open spec fn view(&self) -> TripleView {
        TripleView { subject: self.subject@, predicate: self.predicate@, object: self.object@ }
    }
}

impl DeepView for Triple {
    type V = TripleView;

    open spec fn deep_view(&self) -> TripleView {
        self.view()
    }
}

/// The accumulating output graph: a write-only, append-only sequence of
/// emitted triples. No triple is ever retracted or mutated once emitted;
/// de-duplication, if any, is a downstream concern.
#[derive(Clone, Debug, PartialEq, Eq)]
pub struct ShapeStore {
    pub triples: Vec<Triple>,
}

impl View for ShapeStore {
    type V = Seq<TripleView>;

    open spec fn view(&self) -> Seq<TripleView> {
        self.triples.deep_view()
    }
}

impl ShapeStore {
    pub fn new() -> (r: Self)
        ensures
            r@ == Seq::<TripleView>::empty(),
    {
        ShapeStore { triples: Vec::new() }
    }

    /// Append one triple to the output graph.
    pub fn insert(&mut self, subject: String, predicate: String, object: Term)
        ensures
            final(self)@ == old(self)@.push(
                TripleView { subject: subject@, predicate: predicate@, object: object@ },
            ),
    {
        self.triples.push(Triple { subject, predicate, object });
    }

    pub fn len(&self) -> (r: usize)
        ensures
            r == self@.len(),
    {
        self.triples.len()
    }

    /// The emitted triples, in emission order.
    pub fn triples(&self) -> (r: &Vec<Triple>)
        ensures
            r.deep_view() == self@,
    {
        &self.triples
    }
}

} // verus!
