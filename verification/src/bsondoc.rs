//! The driver-native filter and response documents.  A `bson::Document` is
//! an ordered map; the library fills one through the two wrappers below and
//! reasons about its contents as a sequence of key/value pairs of
//! characters, since every entry the gateway itself writes holds a string.

use vstd::prelude::*;

verus! {

#[verifier::external_type_specification]
#[verifier::external_body]
pub struct ExDocument(bson::Document);

/// The entries of a driver document, in document order: each pair a key and
/// the characters of its string value.
pub uninterp spec fn doc_pairs(d: bson::Document) -> Seq<(Seq<char>, Seq<char>)>;

/// `pairs` with `(key, value)` set: the value replaced in place at the
/// first entry holding `key`, the pair appended at the end otherwise.
pub open spec fn spec_pairs_insert(
    pairs: Seq<(Seq<char>, Seq<char>)>,
    key: Seq<char>,
    value: Seq<char>,
) -> Seq<(Seq<char>, Seq<char>)>
    decreases pairs.len(),
{
    if pairs.len() == 0 {
        seq![(key, value)]
    } else if pairs[0].0 == key {
        seq![(key, value)] + pairs.drop_first()
    } else {
        seq![pairs[0]] + spec_pairs_insert(pairs.drop_first(), key, value)
    }
}

/// Inserting a key that `pairs` does not hold appends the pair at the end.
pub(crate) proof fn lemma_pairs_insert_fresh(
    pairs: Seq<(Seq<char>, Seq<char>)>,
    key: Seq<char>,
    value: Seq<char>,
)
    requires
        forall|i: int| 0 <= i < pairs.len() ==> pairs[i].0 != key,
    ensures
        spec_pairs_insert(pairs, key, value) == pairs.push((key, value)),
    decreases pairs.len(),
{
    if pairs.len() == 0 {
        assert(spec_pairs_insert(pairs, key, value) =~= pairs.push((key, value)));
    } else {
        lemma_pairs_insert_fresh(pairs.drop_first(), key, value);
        assert(seq![pairs[0]] + pairs.drop_first().push((key, value)) =~= pairs.push(
            (key, value),
        ));
    }
}

/// Relies on `bson::Document::new`: a fresh document has no entries.
#[verifier::external_body]
pub(crate) fn doc_new() -> (d: bson::Document)
    ensures
        doc_pairs(d) == Seq::<(Seq<char>, Seq<char>)>::empty(),
{
    bson::Document::new()
}

/// Relies on `bson::Document::insert`, an index map underneath: a new key
/// is appended at the end, an existing key keeps its place and has its
/// value replaced.  A `&str` value is stored as a BSON string.
#[verifier::external_body]
pub(crate) fn doc_insert_str(d: &mut bson::Document, key: &str, value: &str)
    ensures
        doc_pairs(*final(d)) == spec_pairs_insert(doc_pairs(*old(d)), key@, value@),
{
    d.insert(key, value);
}

/// The contents of the filter document built from `params`: each pair
/// inserted in order, later values replacing earlier ones under equal keys.
pub open spec fn spec_filter_pairs(params: Seq<(String, String)>) -> Seq<(Seq<char>, Seq<char>)>
    decreases params.len(),
{
    if params.len() == 0 {
        Seq::empty()
    } else {
        spec_pairs_insert(
            spec_filter_pairs(params.drop_last()),
            params.last().0@,
            params.last().1@,
        )
    }
}

/// Builds the driver filter document from the query parameters: every
/// parameter becomes an equality condition on its field, unmodified.
pub fn build_filter(params: &Vec<(String, String)>) -> (d: bson::Document)
    ensures
        doc_pairs(d) == spec_filter_pairs(params@),
{
    let mut d: bson::Document = doc_new();
    let n: usize = params.len();
    let mut i: usize = 0;
    while i < n
        invariant
            n == params@.len(),
            i <= n,
            doc_pairs(d) == spec_filter_pairs(params@.take(i as int)),
        decreases n - i,
    {
        let pair: &(String, String) = &params[i];
        doc_insert_str(&mut d, pair.0.as_str(), pair.1.as_str());
        proof {
            assert(params@.take(i + 1 as int).drop_last() =~= params@.take(i as int));
            assert(params@.take(i + 1 as int).last() == params@[i as int]);
        }
        i = i + 1;
    }
    proof {
        assert(params@.take(n as int) =~= params@);
    }
    d
}

} // verus!
