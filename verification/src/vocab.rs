use vstd::prelude::*;

verus! {

// The fixed output vocabulary: the RDF, SHACL and XSD terms that shapes are
// written with. Each term has a spec function giving its IRI as a character
// sequence, and an executable twin returning the same IRI.

pub open spec fn spec_rdf_type() -> Seq<char> {
    "http://www.w3.org/1999/02/22-rdf-syntax-ns#type"@
}

pub fn rdf_type() -> (r: &'static str)
    ensures
        r@ == spec_rdf_type(),
{
    "http://www.w3.org/1999/02/22-rdf-syntax-ns#type"
}

pub open spec fn spec_sh_node_shape() -> Seq<char> {
    "http://www.w3.org/ns/shacl#NodeShape"@
}

pub fn sh_node_shape() -> (r: &'static str)
    ensures
        r@ == spec_sh_node_shape(),
{
    "http://www.w3.org/ns/shacl#NodeShape"
}

pub open spec fn spec_sh_property_shape() -> Seq<char> {
    "http://www.w3.org/ns/shacl#PropertyShape"@
}

pub fn sh_property_shape() -> (r: &'static str)
    ensures
        r@ == spec_sh_property_shape(),
{
    "http://www.w3.org/ns/shacl#PropertyShape"
}

pub open spec fn spec_sh_target_class() -> Seq<char> {
    "http://www.w3.org/ns/shacl#targetClass"@
}

pub fn sh_target_class() -> (r: &'static str)
    ensures
        r@ == spec_sh_target_class(),
{
    "http://www.w3.org/ns/shacl#targetClass"
}

pub open spec fn spec_sh_closed() -> Seq<char> {
    "http://www.w3.org/ns/shacl#closed"@
}

pub fn sh_closed() -> (r: &'static str)
    ensures
        r@ == spec_sh_closed(),
{
    "http://www.w3.org/ns/shacl#closed"
}

pub open spec fn spec_sh_path() -> Seq<char> {
    "http://www.w3.org/ns/shacl#path"@
}

pub fn sh_path() -> (r: &'static str)
    ensures
        r@ == spec_sh_path(),
{
    "http://www.w3.org/ns/shacl#path"
}

pub open spec fn spec_sh_name() -> Seq<char> {
    "http://www.w3.org/ns/shacl#name"@
}

pub fn sh_name() -> (r: &'static str)
    ensures
        r@ == spec_sh_name(),
{
    "http://www.w3.org/ns/shacl#name"
}

pub open spec fn spec_sh_description() -> Seq<char> {
    "http://www.w3.org/ns/shacl#description"@
}

pub fn sh_description() -> (r: &'static str)
    ensures
        r@ == spec_sh_description(),
{
    "http://www.w3.org/ns/shacl#description"
}

pub open spec fn spec_sh_min_count() -> Seq<char> {
    "http://www.w3.org/ns/shacl#minCount"@
}

pub fn sh_min_count() -> (r: &'static str)
    ensures
        r@ == spec_sh_min_count(),
{
    "http://www.w3.org/ns/shacl#minCount"
}

pub open spec fn spec_sh_max_count() -> Seq<char> {
    "http://www.w3.org/ns/shacl#maxCount"@
}

pub fn sh_max_count() -> (r: &'static str)
    ensures
        r@ == spec_sh_max_count(),
{
    "http://www.w3.org/ns/shacl#maxCount"
}

pub open spec fn spec_sh_class() -> Seq<char> {
    "http://www.w3.org/ns/shacl#class"@
}

pub fn sh_class() -> (r: &'static str)
    ensures
        r@ == spec_sh_class(),
{
    "http://www.w3.org/ns/shacl#class"
}

pub open spec fn spec_sh_datatype() -> Seq<char> {
    "http://www.w3.org/ns/shacl#datatype"@
}

pub fn sh_datatype() -> (r: &'static str)
    ensures
        r@ == spec_sh_datatype(),
{
    "http://www.w3.org/ns/shacl#datatype"
}

pub open spec fn spec_sh_property() -> Seq<char> {
    "http://www.w3.org/ns/shacl#property"@
}

pub fn sh_property() -> (r: &'static str)
    ensures
        r@ == spec_sh_property(),
{
    "http://www.w3.org/ns/shacl#property"
}

pub open spec fn spec_xsd_boolean() -> Seq<char> {
    "http://www.w3.org/2001/XMLSchema#boolean"@
}

pub fn xsd_boolean() -> (r: &'static str)
    ensures
        r@ == spec_xsd_boolean(),
{
    "http://www.w3.org/2001/XMLSchema#boolean"
}

} // verus!
