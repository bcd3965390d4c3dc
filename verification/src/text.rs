//! The order of texts: lexicographic by the bytes of their UTF-8 encoding,
//! which is also the order of their code points.

use core::cmp::Ordering;
use vstd::prelude::*;
use vstd::utf8::{encode_utf8, encode_utf8_decode_utf8};

verus! {

/// The first `k` bytes of `a` and of `b` are the same.
pub open spec fn agree(a: Seq<u8>, b: Seq<u8>, k: int) -> bool {
    &&& 0 <= k <= a.len()
    &&& k <= b.len()
    &&& forall|j: int| 0 <= j < k ==> a[j] == b[j]
}

/// `a` and `b` part ways at `k` with `a` first: up to there they are the
/// same, and there `a` ends while `b` goes on, or holds the smaller byte.
pub open spec fn parts_at(a: Seq<u8>, b: Seq<u8>, k: int) -> bool {
    &&& agree(a, b, k)
    &&& k < b.len()
    &&& (k == a.len() || a[k] < b[k])
}

/// `a` comes before `b` in lexicographic order.
pub open spec fn bytes_before(a: Seq<u8>, b: Seq<u8>) -> bool {
    exists|k: int| parts_at(a, b, k)
}

/// The text `a` comes before the text `b`.
pub open spec fn before(a: Seq<char>, b: Seq<char>) -> bool {
    bytes_before(encode_utf8(a), encode_utf8(b))
}

/// How the text `a` stands to the text `b`.
pub open spec fn order(a: Seq<char>, b: Seq<char>) -> Ordering {
    if a == b {
        Ordering::Equal
    } else if before(a, b) {
        Ordering::Less
    } else {
        Ordering::Greater
    }
}

/// No byte string comes before another that comes before it, nor before
/// itself.
pub proof fn lemma_bytes_asymmetric(a: Seq<u8>, b: Seq<u8>)
    ensures
        !(bytes_before(a, b) && bytes_before(b, a)),
{
    if bytes_before(a, b) && bytes_before(b, a) {
        let k1 = choose|k: int| parts_at(a, b, k);
        let k2 = choose|k: int| parts_at(b, a, k);
        if k1 < k2 {
            assert(b[k1] == a[k1]);
        } else if k2 < k1 {
            assert(a[k2] == b[k2]);
        }
    }
}

/// Lexicographic order is transitive.
pub proof fn lemma_bytes_transitive(a: Seq<u8>, b: Seq<u8>, c: Seq<u8>)
    requires
        bytes_before(a, b),
        bytes_before(b, c),
    ensures
        bytes_before(a, c),
{
    let k1 = choose|k: int| parts_at(a, b, k);
    let k2 = choose|k: int| parts_at(b, c, k);
    let k = if k1 <= k2 { k1 } else { k2 };
    assert(agree(a, c, k)) by {
        assert forall|j: int| 0 <= j < k implies a[j] == c[j] by {
            assert(a[j] == b[j]);
            assert(b[j] == c[j]);
        }
    }
    if k1 < k2 {
        assert(b[k1] == c[k1]);
    } else if k2 < k1 {
        assert(a[k2] == b[k2]);
    }
    assert(parts_at(a, c, k));
}

/// Two byte strings that agree on their first `i` bytes are equal, or one of
/// them comes before the other.
pub proof fn lemma_bytes_total_from(a: Seq<u8>, b: Seq<u8>, i: int)
    requires
        agree(a, b, i),
    ensures
        a == b || bytes_before(a, b) || bytes_before(b, a),
    decreases a.len() - i,
{
    if i == a.len() {
        if i == b.len() {
            assert(a =~= b);
        } else {
            assert(parts_at(a, b, i));
        }
    } else if i == b.len() {
        assert(agree(b, a, i));
        assert(parts_at(b, a, i));
    } else if a[i] < b[i] {
        assert(parts_at(a, b, i));
    } else if b[i] < a[i] {
        assert(agree(b, a, i));
        assert(parts_at(b, a, i));
    } else {
        lemma_bytes_total_from(a, b, i + 1);
    }
}

/// No text comes before itself, nor before one that comes before it.
pub proof fn lemma_asymmetric(a: Seq<char>, b: Seq<char>)
    ensures
        !(before(a, b) && before(b, a)),
        !before(a, a),
{
    lemma_bytes_asymmetric(encode_utf8(a), encode_utf8(b));
    lemma_bytes_asymmetric(encode_utf8(a), encode_utf8(a));
}

/// The order of texts is transitive.
pub proof fn lemma_transitive(a: Seq<char>, b: Seq<char>, c: Seq<char>)
    requires
        before(a, b),
        before(b, c),
    ensures
        before(a, c),
{
    lemma_bytes_transitive(encode_utf8(a), encode_utf8(b), encode_utf8(c));
}

/// Two texts with the same encoding are the same text.
pub proof fn lemma_encoding_injective(a: Seq<char>, b: Seq<char>)
    requires
        encode_utf8(a) == encode_utf8(b),
    ensures
        a == b,
{
    encode_utf8_decode_utf8(a);
    encode_utf8_decode_utf8(b);
}

/// Of two different texts, one comes before the other.
pub proof fn lemma_total(a: Seq<char>, b: Seq<char>)
    ensures
        a == b || before(a, b) || before(b, a),
{
    let x = encode_utf8(a);
    let y = encode_utf8(b);
    assert(agree(x, y, 0));
    lemma_bytes_total_from(x, y, 0);
    if x == y {
        lemma_encoding_injective(a, b);
    }
}

/// The position at which two byte strings part ways: the length of their
/// longest common prefix.
fn common_prefix(a: &[u8], b: &[u8]) -> (k: usize)
    ensures
        agree(a@, b@, k as int),
        k == a@.len() || k == b@.len() || a@[k as int] != b@[k as int],
{
    let mut i: usize = 0;
    while i < a.len() && i < b.len() && a[i] == b[i]
        invariant
            agree(a@, b@, i as int),
        decreases a@.len() - i,
    {
        i += 1;
    }
    i
}

/// How `a` stands to `b`, as a sign: negative where `a` comes first, zero
/// where the two are the same text, positive where `b` comes first.
pub fn standing(a: &str, b: &str) -> (r: i8)
    ensures
        r < 0 <==> before(a@, b@),
        r == 0 <==> a@ == b@,
        r > 0 <==> before(b@, a@),
{
    let x = a.as_bytes();
    let y = b.as_bytes();
    let k = common_prefix(x, y);
    proof {
        lemma_asymmetric(a@, b@);
        lemma_asymmetric(b@, a@);
    }
    if k == x.len() {
        if k == y.len() {
            proof {
                assert(x@ =~= y@);
                lemma_encoding_injective(a@, b@);
            }
            0
        } else {
            proof {
                assert(parts_at(x@, y@, k as int));
            }
            -1
        }
    } else if k == y.len() || y[k] < x[k] {
        proof {
            assert(agree(y@, x@, k as int));
            assert(parts_at(y@, x@, k as int));
        }
        1
    } else {
        proof {
            assert(parts_at(x@, y@, k as int));
        }
        -1
    }
}

/// Compares two texts.
pub fn compare(a: &str, b: &str) -> (r: Ordering)
    ensures
        r == order(a@, b@),
{
    let sign = standing(a, b);
    if sign < 0 {
        Ordering::Less
    } else if sign == 0 {
        Ordering::Equal
    } else {
        Ordering::Greater
    }
}

} // verus!
