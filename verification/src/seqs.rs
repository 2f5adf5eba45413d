//! Facts about byte sequences that the codec's proofs use throughout.
use vstd::prelude::*;

verus! {

/// `after` is what is left of `before` once some of its first bytes are read.
pub open spec fn is_suffix(after: Seq<u8>, before: Seq<u8>) -> bool {
    after.len() <= before.len() && after == before.skip(before.len() - after.len())
}

/// Skipping bytes leaves a suffix.
pub broadcast proof fn lemma_suffix_skip(s: Seq<u8>, n: int)
    ensures
        0 <= n <= s.len() ==> #[trigger] is_suffix(s.skip(n), s),
{
    if 0 <= n <= s.len() {
        assert(s.skip(n) =~= s.skip(s.len() - s.skip(n).len()));
    }
}

/// Every sequence is a suffix of itself.
pub broadcast proof fn lemma_suffix_refl(s: Seq<u8>)
    ensures
        #[trigger] is_suffix(s, s),
{
    assert(s =~= s.skip(0));
}

/// A suffix of a suffix is a suffix.
pub broadcast proof fn lemma_suffix_trans(a: Seq<u8>, b: Seq<u8>, c: Seq<u8>)
    ensures
        #![trigger is_suffix(a, b), is_suffix(b, c)]
        is_suffix(a, b) && is_suffix(b, c) ==> is_suffix(a, c),
{
    if is_suffix(a, b) && is_suffix(b, c) {
        assert(a =~= c.skip(c.len() - a.len()));
    }
}

pub broadcast group group_codec {
    lemma_suffix_skip,
    lemma_suffix_refl,
    lemma_suffix_trans,
    vstd::seq_lib::lemma_seq_skip_of_skip,
    vstd::seq_lib::lemma_seq_skip_nothing,
    vstd::seq_lib::lemma_seq_append_take_skip,
}

/// Whether two byte slices hold the same bytes.
pub fn bytes_eq(a: &[u8], b: &[u8]) -> (res: bool)
    ensures
        res == (a@ == b@),
{
    if a.len() != b.len() {
        return false;
    }
    let mut i: usize = 0;
    while i < a.len()
        invariant
            a@.len() == b@.len(),
            0 <= i <= a@.len(),
            a@.take(i as int) == b@.take(i as int),
        decreases a@.len() - i,
    {
        if a[i] != b[i] {
            assert(a@[i as int] != b@[i as int]);
            return false;
        }
        assert(a@.take(i + 1) =~= a@.take(i as int).push(a@[i as int]));
        assert(b@.take(i + 1) =~= b@.take(i as int).push(b@[i as int]));
        i = i + 1;
    }
    assert(a@ =~= a@.take(a@.len() as int));
    assert(b@ =~= b@.take(b@.len() as int));
    true
}

} // verus!
