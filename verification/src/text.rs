use vstd::prelude::*;
use vstd::string::StringExecFns;

verus! {

/// A shape's IRI is derived from the IRI of its source class, property or
/// value by appending the fixed suffix `Shape`; the same source IRI always
/// yields the same shape IRI.
pub open spec fn spec_shape_iri(s: Seq<char>) -> Seq<char> {
    s + "Shape"@
}

pub fn shape_iri(s: &str) -> (r: String)
    ensures
        r@ == spec_shape_iri(s@),
{
    let mut r = String::from_str(s);
    r.append("Shape");
    r
}

/// The derivation is injective: distinct source IRIs yield distinct shape IRIs.
pub proof fn lemma_shape_iri_injective(a: Seq<char>, b: Seq<char>)
    requires
        spec_shape_iri(a) == spec_shape_iri(b),
    ensures
        a == b,
{
    assert(a.len() + "Shape"@.len() == b.len() + "Shape"@.len()) by {
        assert((a + "Shape"@).len() == (b + "Shape"@).len());
    }
    assert(a =~= (a + "Shape"@).take(a.len() as int));
    assert(b =~= (b + "Shape"@).take(b.len() as int));
}

/// Splitting a character sequence at every comma, as `str::split(',')` does:
/// the empty sequence yields one empty segment, and every comma separates two
/// (possibly empty) segments.
pub open spec fn spec_split_csv(s: Seq<char>) -> Seq<Seq<char>>
    decreases s.len(),
{
    if s.len() == 0 {
        seq![Seq::<char>::empty()]
    } else if s[0] == ',' {
        seq![Seq::<char>::empty()] + spec_split_csv(s.drop_first())
    } else {
        let rest = spec_split_csv(s.drop_first());
        seq![seq![s[0]] + rest[0]] + rest.drop_first()
    }
}

pub proof fn lemma_split_csv_len(s: Seq<char>)
    ensures
        spec_split_csv(s).len() >= 1,
    decreases s.len(),
{
    if s.len() == 0 {
    } else {
        lemma_split_csv_len(s.drop_first());
    }
}

/// A sequence without commas is one single segment.
pub proof fn lemma_split_csv_no_comma(s: Seq<char>)
    requires
        forall|j: int| 0 <= j < s.len() ==> s[j] != ',',
    ensures
        spec_split_csv(s) =~= seq![s],
    decreases s.len(),
{
    if s.len() == 0 {
        assert(s =~= Seq::<char>::empty());
    } else {
        lemma_split_csv_no_comma(s.drop_first());
        assert(seq![s[0]] + s.drop_first() =~= s);
    }
}

/// Splitting at the first comma: everything before it is the first segment,
/// and the rest splits on its own.
pub proof fn lemma_split_csv_first_comma(s: Seq<char>, k: int)
    requires
        0 <= k < s.len(),
        s[k] == ',',
        forall|j: int| 0 <= j < k ==> s[j] != ',',
    ensures
        spec_split_csv(s) =~= seq![s.take(k)] + spec_split_csv(s.skip(k + 1)),
    decreases k,
{
    if k == 0 {
        assert(s.take(0) =~= Seq::<char>::empty());
        assert(s.drop_first() =~= s.skip(1));
    } else {
        let t = s.drop_first();
        lemma_split_csv_first_comma(t, k - 1);
        lemma_split_csv_len(t.skip(k));
        assert(seq![s[0]] + t.take(k - 1) =~= s.take(k));
        assert(t.skip(k) =~= s.skip(k + 1));
        assert(spec_split_csv(t) =~= seq![t.take(k - 1)] + spec_split_csv(t.skip(k)));
        assert(spec_split_csv(s) =~= seq![s.take(k)] + spec_split_csv(s.skip(k + 1)));
    }
}

/// Split a comma-separated list into its segments.
pub fn split_csv(s: &str) -> (r: Vec<String>)
    ensures
        r.deep_view() == spec_split_csv(s@),
{
    let len = s.unicode_len();
    let mut parts: Vec<String> = Vec::new();
    let mut start: usize = 0;
    let mut i: usize = 0;
    proof {
        assert(s@.subrange(0, len as int) =~= s@);
        assert(parts.deep_view() =~= Seq::<Seq<char>>::empty());
        assert(parts.deep_view() + spec_split_csv(s@) =~= spec_split_csv(s@));
    }
    while i < len
        invariant
            start <= i <= len,
            len == s@.len(),
            spec_split_csv(s@) =~= parts.deep_view() + spec_split_csv(
                s@.subrange(start as int, len as int),
            ),
            forall|j: int| start <= j < i ==> s@[j] != ',',
        decreases len - i,
    {
        let c = s.get_char(i);
        if c == ',' {
            let seg = s.substring_char(start, i);
            let ghost t = s@.subrange(start as int, len as int);
            proof {
                lemma_split_csv_first_comma(t, i - start);
                assert(t.take(i - start) =~= s@.subrange(start as int, i as int));
                assert(t.skip(i - start + 1) =~= s@.subrange(i + 1, len as int));
            }
            parts.push(String::from_str(seg));
            proof {
                assert(parts.deep_view() + spec_split_csv(s@.subrange(i + 1, len as int))
                    =~= spec_split_csv(s@));
            }
            start = i + 1;
        }
        i = i + 1;
    }
    let seg = s.substring_char(start, len);
    proof {
        lemma_split_csv_no_comma(s@.subrange(start as int, len as int));
    }
    parts.push(String::from_str(seg));
    proof {
        assert(parts.deep_view() =~= spec_split_csv(s@));
    }
    parts
}

} // verus!
