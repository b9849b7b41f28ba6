//! The order of keys: lexicographic over the bytes of their UTF-8 text.

use vstd::prelude::*;
use vstd::string::*;
use vstd::utf8::*;

verus! {

/// `a` and `b` hold the same bytes at every position below `i`.
pub open spec fn agree_below(a: Seq<u8>, b: Seq<u8>, i: int) -> bool {
    &&& 0 <= i <= a.len()
    &&& i <= b.len()
    &&& forall|j: int| 0 <= j < i ==> a[j] == b[j]
}

/// `a` sorts strictly before `b`: at the first position where they part, `a`
/// has ended or holds the smaller byte.
pub open spec fn lex_lt(a: Seq<u8>, b: Seq<u8>) -> bool {
    exists|i: int| #[trigger]
        agree_below(a, b, i) && i < b.len() && (i == a.len() || a[i] < b[i])
}

/// The bytes by which a key is ordered.
pub open spec fn key_bytes(key: Seq<char>) -> Seq<u8> {
    encode_utf8(key)
}

/// Key `a` sorts strictly before key `b`.
pub open spec fn key_lt(a: Seq<char>, b: Seq<char>) -> bool {
    lex_lt(key_bytes(a), key_bytes(b))
}

/// Key `a` sorts before key `b` or equals it.
pub open spec fn key_le(a: Seq<char>, b: Seq<char>) -> bool {
    !key_lt(b, a)
}

/// The bytes of `prefix` begin the bytes of `key`.
pub open spec fn key_has_prefix(key: Seq<char>, prefix: Seq<char>) -> bool {
    key_bytes(prefix).is_prefix_of(key_bytes(key))
}

/// Two positions up to which `a` and `b` agree and then part are the same
/// position.
pub proof fn lemma_parting_is_unique(a: Seq<u8>, b: Seq<u8>, i: int, j: int)
    requires
        agree_below(a, b, i),
        agree_below(a, b, j),
        i == a.len() || i == b.len() || a[i] != b[i],
        j == a.len() || j == b.len() || a[j] != b[j],
    ensures
        i == j,
{
    if i < j {
        assert(a[i] == b[i]);
    }
    if j < i {
        assert(a[j] == b[j]);
    }
}

/// No sequence sorts before itself, and of two sequences at most one sorts
/// before the other.
pub proof fn lemma_lex_lt_asymmetric(a: Seq<u8>, b: Seq<u8>)
    ensures
        !(lex_lt(a, b) && lex_lt(b, a)),
{
    if lex_lt(a, b) && lex_lt(b, a) {
        let i = choose|i: int| #[trigger]
            agree_below(a, b, i) && i < b.len() && (i == a.len() || a[i] < b[i]);
        let j = choose|j: int| #[trigger]
            agree_below(b, a, j) && j < a.len() && (j == b.len() || b[j] < a[j]);
        assert(agree_below(a, b, j));
        lemma_parting_is_unique(a, b, i, j);
    }
}

/// The order is transitive.
pub proof fn lemma_lex_lt_transitive(a: Seq<u8>, b: Seq<u8>, c: Seq<u8>)
    requires
        lex_lt(a, b),
        lex_lt(b, c),
    ensures
        lex_lt(a, c),
{
    let i = choose|i: int| #[trigger]
        agree_below(a, b, i) && i < b.len() && (i == a.len() || a[i] < b[i]);
    let j = choose|j: int| #[trigger]
        agree_below(b, c, j) && j < c.len() && (j == b.len() || b[j] < c[j]);
    let k = if i <= j { i } else { j };
    assert(agree_below(a, c, k));
    assert(k < c.len());
    assert(k == a.len() || a[k] < c[k]);
}

/// Of two different sequences one sorts before the other.
pub proof fn lemma_lex_lt_total(a: Seq<u8>, b: Seq<u8>)
    ensures
        lex_lt(a, b) || lex_lt(b, a) || a == b,
{
    if a != b {
        lemma_parting_exists(a, b, 0);
        let i = choose|i: int| #[trigger]
            agree_below(a, b, i) && (i == a.len() || i == b.len() || a[i] != b[i]);
        assert(agree_below(b, a, i));
        if i == a.len() && i == b.len() {
            assert(a =~= b);
        }
    }
}

/// From any position up to which `a` and `b` agree, a position can be reached
/// at which they part or one of them ends.
pub proof fn lemma_parting_exists(a: Seq<u8>, b: Seq<u8>, from: int)
    requires
        agree_below(a, b, from),
    ensures
        exists|i: int| #[trigger]
            agree_below(a, b, i) && (i == a.len() || i == b.len() || a[i] != b[i]),
    decreases a.len() - from,
{
    if from == a.len() || from == b.len() || a[from] != b[from] {
    } else {
        assert(agree_below(a, b, from + 1));
        lemma_parting_exists(a, b, from + 1);
    }
}

/// A sequence that begins with `p` sorts before every sequence that sorts
/// after `p` without beginning with it.
pub proof fn lemma_prefixed_sorts_before_passed(p: Seq<u8>, passed: Seq<u8>, k: Seq<u8>)
    requires
        lex_lt(p, passed),
        !p.is_prefix_of(passed),
        p.is_prefix_of(k),
    ensures
        lex_lt(k, passed),
{
    let i = choose|i: int| #[trigger]
        agree_below(p, passed, i) && i < passed.len() && (i == p.len() || p[i] < passed[i]);
    if i == p.len() {
        assert(p =~= passed.subrange(0, p.len() as int));
    }
    assert(p =~= k.subrange(0, p.len() as int));
    assert forall|j: int| 0 <= j <= i implies k[j] == p[j] by {
        assert(k.subrange(0, p.len() as int)[j] == k[j]);
    }
    assert(agree_below(k, passed, i));
}

/// Whether `a` sorts strictly before `b`.
pub fn bytes_lt(a: &[u8], b: &[u8]) -> (r: bool)
    ensures
        r == lex_lt(a@, b@),
{
    let mut i: usize = 0;
    while i < a.len() && i < b.len() && a[i] == b[i]
        invariant
            agree_below(a@, b@, i as int),
        decreases a.len() - i,
    {
        i += 1;
    }
    let r = i < b.len() && (i == a.len() || a[i] < b[i]);
    proof {
        if !r && lex_lt(a@, b@) {
            let w = choose|w: int| #[trigger]
                agree_below(a@, b@, w) && w < b@.len() && (w == a@.len() || a@[w] < b@[w]);
            lemma_parting_is_unique(a@, b@, i as int, w);
        }
    }
    r
}

/// Whether `a` begins with `p`.
pub fn bytes_start_with(a: &[u8], p: &[u8]) -> (r: bool)
    ensures
        r == p@.is_prefix_of(a@),
{
    if p.len() > a.len() {
        return false;
    }
    let mut i: usize = 0;
    while i < p.len()
        invariant
            i <= p.len() <= a.len(),
            forall|j: int| 0 <= j < i ==> a@[j] == p@[j],
        decreases p.len() - i,
    {
        if a[i] != p[i] {
            proof {
                if p@.is_prefix_of(a@) {
                    assert(a@.subrange(0, p@.len() as int)[i as int] == p@[i as int]);
                }
            }
            return false;
        }
        i += 1;
    }
    assert(p@ =~= a@.subrange(0, p@.len() as int));
    true
}

/// Whether key `a` sorts strictly before key `b`.
pub fn key_before(a: &str, b: &str) -> (r: bool)
    ensures
        r == key_lt(a@, b@),
{
    bytes_lt(a.as_bytes(), b.as_bytes())
}

/// Whether `key` starts with `prefix`.
pub fn key_starts_with(key: &str, prefix: &str) -> (r: bool)
    ensures
        r == key_has_prefix(key@, prefix@),
{
    bytes_start_with(key.as_bytes(), prefix.as_bytes())
}

} // verus!
