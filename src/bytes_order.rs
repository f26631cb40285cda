use vstd::prelude::*;

verus! {

/// `a` and `b` agree on their first `n` bytes, and both have at least `n`.
pub open spec fn shares_prefix(a: Seq<u8>, b: Seq<u8>, n: int) -> bool {
    &&& 0 <= n <= a.len()
    &&& n <= b.len()
    &&& forall|j: int| 0 <= j < n ==> a[j] == b[j]
}

/// Byte-lexicographic order: after a common prefix of length `n`, either `a`
/// ends while `b` goes on, or `a`'s next byte is the smaller one.
pub open spec fn bytes_lt(a: Seq<u8>, b: Seq<u8>) -> bool {
    exists|n: int|
        #![trigger shares_prefix(a, b, n)]
        shares_prefix(a, b, n) && ((n == a.len() && n < b.len()) || (n < a.len() && n < b.len()
            && a[n] < b[n]))
}

pub proof fn lemma_bytes_lt_irreflexive(a: Seq<u8>)
    ensures
        !bytes_lt(a, a),
{
}

pub proof fn lemma_bytes_lt_transitive(a: Seq<u8>, b: Seq<u8>, c: Seq<u8>)
    requires
        bytes_lt(a, b),
        bytes_lt(b, c),
    ensures
        bytes_lt(a, c),
{
    let i = choose|n: int|
        #![trigger shares_prefix(a, b, n)]
        shares_prefix(a, b, n) && ((n == a.len() && n < b.len()) || (n < a.len() && n < b.len()
            && a[n] < b[n]));
    let j = choose|n: int|
        #![trigger shares_prefix(b, c, n)]
        shares_prefix(b, c, n) && ((n == b.len() && n < c.len()) || (n < b.len() && n < c.len()
            && b[n] < c[n]));
    let m = if i <= j {
        i
    } else {
        j
    };
    assert(shares_prefix(a, c, m));
}

pub proof fn lemma_bytes_lt_asymmetric(a: Seq<u8>, b: Seq<u8>)
    ensures
        bytes_lt(a, b) ==> !bytes_lt(b, a),
        bytes_lt(a, b) ==> a != b,
{
    if bytes_lt(a, b) && bytes_lt(b, a) {
        lemma_bytes_lt_transitive(a, b, a);
        lemma_bytes_lt_irreflexive(a);
    }
    lemma_bytes_lt_irreflexive(a);
}

/// Three-way byte-lexicographic comparison: `-1`, `0` or `1` as `a` sorts
/// before, equal to, or after `b`.
pub fn compare_bytes(a: &[u8], b: &[u8]) -> (r: i8)
    ensures
        r == -1 || r == 0 || r == 1,
        r == -1 <==> bytes_lt(a@, b@),
        r == 0 <==> a@ == b@,
        r == 1 <==> bytes_lt(b@, a@),
{
    let mut i: usize = 0;
    while i < a.len() && i < b.len() && a[i] == b[i]
        invariant
            shares_prefix(a@, b@, i as int),
        decreases a.len() - i,
    {
        i = i + 1;
    }
    proof {
        lemma_bytes_lt_asymmetric(a@, b@);
        lemma_bytes_lt_asymmetric(b@, a@);
        lemma_bytes_lt_irreflexive(a@);
        assert(shares_prefix(b@, a@, i as int));
    }
    if i < a.len() && i < b.len() {
        if a[i] < b[i] {
            -1
        } else {
            1
        }
    } else if i == a.len() && i == b.len() {
        assert(a@ =~= b@);
        0
    } else if i == a.len() {
        -1
    } else {
        1
    }
}

} // verus!
