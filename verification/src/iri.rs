use vstd::prelude::*;

verus! {

/// Whether a character sequence is a valid RDF IRI, as decided by the IRI
/// grammar of RFC 3987. The grammar takes pages to state, so the predicate is
/// left uninterpreted; [`check_iri`] is the one way to decide it.
pub uninterp spec fn is_valid_iri(s: Seq<char>) -> bool;

/// Relies on `oxigraph::model::NamedNode::new`: it returns `Ok` iff its
/// argument parses as a valid IRI, and the outcome depends on the characters
/// of the argument alone.
#[verifier::external_body]
pub(crate) fn check_iri(s: &str) -> (r: bool)
    ensures
        r == is_valid_iri(s@),
{
    oxigraph::model::NamedNode::new(s).is_ok()
}

} // verus!
