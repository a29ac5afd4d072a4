use vstd::prelude::*;

verus! {

/// How to behave when an odity is detected in the source ontology.
#[derive(Clone, Copy, Debug, PartialEq, Eq, Structural)]
pub enum OdityHandling {
    Ignore,
    Warn,
    Error,
}

impl OdityHandling {
    /// True iff this mode suppresses the check altogether.
    pub fn ignore(self) -> (r: bool)
        ensures
            r == (self is Ignore),
    {
        matches!(self, Self::Ignore)
    }
}

impl Default for OdityHandling {
    fn default() -> (r: Self)
        ensures
            r is Warn,
    {
        Self::Warn
    }
}

/// Which axis of a property is being resolved:
/// its range (valid object values) or its domain (valid subject types).
#[derive(Clone, Copy, Debug, PartialEq, Eq, Structural)]
pub enum RDProperty {
    Range,
    Domain,
}

impl RDProperty {
    pub open spec fn spec_str(self) -> Seq<char> {
        match self {
            RDProperty::Range => "range"@,
            RDProperty::Domain => "domain"@,
        }
    }

    pub fn to_str(self) -> (r: &'static str)
        ensures
            r@ == self.spec_str(),
    {
        match self {
            Self::Range => "range",
            Self::Domain => "domain",
        }
    }
}

/// The detectable odd patterns in how an ontology declares ranges and domains.
#[derive(Clone, Copy, Debug, PartialEq, Eq, Structural)]
pub enum OdityKind {
    /// `rdfs:range`/`rdfs:domain` lists more than one value for one property,
    /// which under OWL semantics means "all of these at once".
    AndListOnSingleConvention,
    /// A single property declares the same role through more than one convention.
    StyleMixWithinProperty,
    /// Different properties of the ontology use different conventions for the same role.
    StyleMixAcrossOntology,
}

/// One resolution mode per property role.
#[derive(Clone, Copy, Debug, PartialEq, Eq, Structural)]
pub struct RoleModes {
    pub range: OdityHandling,
    pub domain: OdityHandling,
}

impl RoleModes {
    pub open spec fn spec_get(self, role: RDProperty) -> OdityHandling {
        match role {
            RDProperty::Range => self.range,
            RDProperty::Domain => self.domain,
        }
    }

    pub fn get(self, role: RDProperty) -> (r: OdityHandling)
        ensures
            r == self.spec_get(role),
    {
        match role {
            RDProperty::Range => self.range,
            RDProperty::Domain => self.domain,
        }
    }
}

impl Default for RoleModes {
    fn default() -> (r: Self)
        ensures
            r.range is Warn,
            r.domain is Warn,
    {
        RoleModes { range: OdityHandling::Warn, domain: OdityHandling::Warn }
    }
}

/// The resolution mode for every (property role, odity kind) pair,
/// immutable for the duration of one conversion run.
#[derive(Clone, Copy, Debug, PartialEq, Eq, Structural)]
pub struct Config {
    /// What to do if the source ontology contains properties with
    /// `rdfs:range`/`rdfs:domain` that specifies a list of classes, which means
    /// that possible values have to satisfy _all_ of these classes, which is
    /// often not what was intended.
    pub and_list_detected: RoleModes,
    /// What to do if the source ontology contains properties using both
    /// `rdfs:range` and `*:rangeIncludes` (respectively `rdfs:domain` and
    /// `*:domainIncludes`), which is somewhat ill-defined.
    pub style_mix_property: RoleModes,
    /// What to do if the source ontology contains both properties using
    /// `rdfs:range` and others using `*:rangeIncludes` (respectively for
    /// domain), which is technically ok, but might be confusing.
    pub style_mix_ontology: RoleModes,
}

impl Config {
    /// The mapping from (property role, odity kind) to resolution mode.
    pub open spec fn spec_mode(self, kind: OdityKind, role: RDProperty) -> OdityHandling {
        match kind {
            OdityKind::AndListOnSingleConvention => self.and_list_detected.spec_get(role),
            OdityKind::StyleMixWithinProperty => self.style_mix_property.spec_get(role),
            OdityKind::StyleMixAcrossOntology => self.style_mix_ontology.spec_get(role),
        }
    }

    pub fn mode(self, kind: OdityKind, role: RDProperty) -> (r: OdityHandling)
        ensures
            r == self.spec_mode(kind, role),
    {
        match kind {
            OdityKind::AndListOnSingleConvention => self.and_list_detected.get(role),
            OdityKind::StyleMixWithinProperty => self.style_mix_property.get(role),
            OdityKind::StyleMixAcrossOntology => self.style_mix_ontology.get(role),
        }
    }
}

impl Default for Config {
    fn default() -> (r: Self)
        ensures
            forall|kind: OdityKind, role: RDProperty| r.spec_mode(kind, role) is Warn,
    {
        Config {
            and_list_detected: RoleModes { range: OdityHandling::Warn, domain: OdityHandling::Warn },
            style_mix_property: RoleModes { range: OdityHandling::Warn, domain: OdityHandling::Warn },
            style_mix_ontology: RoleModes { range: OdityHandling::Warn, domain: OdityHandling::Warn },
        }
    }
}

} // verus!
