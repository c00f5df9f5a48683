//! Bodies in the `application/x-www-form-urlencoded` format, read as a
//! sequence of key and value pairs.

use vstd::prelude::*;

verus! {

/// The key and value pairs that a form-encoded body holds, in the order in
/// which the body gives them. The format's own rules (how the body is split
/// at `&` and `=`, how `+` and percent escapes are decoded, what becomes of
/// bytes that are not UTF-8) are those of the `form_urlencoded` crate and are
/// not restated here.
pub uninterp spec fn urlencoded_pairs(body: Seq<u8>) -> Seq<(Seq<char>, Seq<char>)>;

/// Splits a form-encoded body into its decoded pairs.
///
/// Trusted: calls `form_urlencoded::parse` and collects what its iterator
/// yields, each pair as two owned strings. The contract claims only that the
/// pairs are a function of the body's bytes, which it names
/// [`urlencoded_pairs`]. The parser accepts every byte string and does not
/// fail.
#[verifier::external_body]
pub(crate) fn parse_pairs(body: &[u8]) -> (pairs: Vec<(String, String)>)
    ensures
        pairs.deep_view() == urlencoded_pairs(body@),
{
    form_urlencoded::parse(body).into_owned().collect()
}

/// Whether one of the first `upto` pairs has the key `key`.
pub open spec fn has_key_before(
    pairs: Seq<(Seq<char>, Seq<char>)>,
    key: Seq<char>,
    upto: int,
) -> bool {
    exists|i: int| 0 <= i < upto && i < pairs.len() && (#[trigger] pairs[i]).0 == key
}

/// Whether some pair has the key `key`.
pub open spec fn has_key(pairs: Seq<(Seq<char>, Seq<char>)>, key: Seq<char>) -> bool {
    has_key_before(pairs, key, pairs.len() as int)
}

/// Whether pair `i` is the first one with the key `key`.
pub open spec fn is_first_with_key(
    pairs: Seq<(Seq<char>, Seq<char>)>,
    key: Seq<char>,
    i: int,
) -> bool {
    &&& 0 <= i < pairs.len()
    &&& pairs[i].0 == key
    &&& !has_key_before(pairs, key, i)
}

/// The value of the first pair with the key `key`.
pub open spec fn first_value(pairs: Seq<(Seq<char>, Seq<char>)>, key: Seq<char>) -> Seq<char> {
    pairs[choose|i: int| is_first_with_key(pairs, key, i)].1
}

/// Whether pair `i` has the key `key` and no other pair has it.
pub open spec fn is_only_with_key(
    pairs: Seq<(Seq<char>, Seq<char>)>,
    key: Seq<char>,
    i: int,
) -> bool {
    &&& 0 <= i < pairs.len()
    &&& pairs[i].0 == key
    &&& forall|k: int| 0 <= k < pairs.len() && k != i ==> (#[trigger] pairs[k]).0 != key
}

/// At most one pair is the first with a given key.
pub proof fn lemma_first_with_key_is_unique(
    pairs: Seq<(Seq<char>, Seq<char>)>,
    key: Seq<char>,
    i: int,
)
    requires
        is_first_with_key(pairs, key, i),
    ensures
        (choose|k: int| is_first_with_key(pairs, key, k)) == i,
        first_value(pairs, key) == pairs[i].1,
{
    let k = choose|k: int| is_first_with_key(pairs, key, k);
    assert(is_first_with_key(pairs, key, k));
    if k < i {
        assert(pairs[k].0 == key);
    } else if i < k {
        assert(pairs[i].0 == key);
    }
}

} // verus!
