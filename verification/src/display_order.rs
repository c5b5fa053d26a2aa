//! Ordering the items of a list control by their displayed text. The text of each item is
//! given as its UTF-8 bytes, and texts are compared byte by byte, which is how strings
//! are ordered.
use vstd::prelude::*;

verus! {

broadcast use vstd::seq_lib::group_to_multiset_ensures;

/// `a` comes before `b` or equals it, comparing from byte `i` on
pub open spec fn bytes_le_from(a: Seq<u8>, b: Seq<u8>, i: int) -> bool
    decreases a.len() - i,
{
    if i < 0 || i >= a.len() {
        true
    } else if i >= b.len() {
        false
    } else if a[i] < b[i] {
        true
    } else if a[i] > b[i] {
        false
    } else {
        bytes_le_from(a, b, i + 1)
    }
}

/// `a` comes before `b` or equals it in the lexicographic order of byte strings
pub open spec fn bytes_le(a: Seq<u8>, b: Seq<u8>) -> bool {
    bytes_le_from(a, b, 0)
}

/// The keys come in order
pub open spec fn keys_sorted(keys: Seq<Vec<u8>>) -> bool {
    forall|i: int, j: int| 0 <= i < j < keys.len() ==> bytes_le(#[trigger] keys[i]@, #[trigger] keys[j]@)
}

/// Each item with its key
pub open spec fn keyed<D>(keys: Seq<Vec<u8>>, items: Seq<D>) -> Seq<(Seq<u8>, D)> {
    Seq::new(items.len(), |i: int| (keys[i]@, items[i]))
}

/// The order of byte strings is transitive.
pub proof fn lemma_bytes_le_transitive(a: Seq<u8>, b: Seq<u8>, c: Seq<u8>, i: int)
    requires
        0 <= i,
        bytes_le_from(a, b, i),
        bytes_le_from(b, c, i),
    ensures
        bytes_le_from(a, c, i),
    decreases a.len() - i,
{
    if i < a.len() && i < b.len() && i < c.len() && a[i] == b[i] && b[i] == c[i] {
        lemma_bytes_le_transitive(a, b, c, i + 1);
    }
}

/// Any two byte strings are ordered one way or the other.
pub proof fn lemma_bytes_le_total(a: Seq<u8>, b: Seq<u8>, i: int)
    requires
        0 <= i,
    ensures
        bytes_le_from(a, b, i) || bytes_le_from(b, a, i),
    decreases a.len() - i,
{
    if i < a.len() && i < b.len() && a[i] == b[i] {
        lemma_bytes_le_total(a, b, i + 1);
    }
}

/// Whether `a` comes before `b` or equals it
pub fn bytes_le_exec(a: &Vec<u8>, b: &Vec<u8>) -> (r: bool)
    ensures
        r == bytes_le(a@, b@),
{
    let mut i: usize = 0;
    while i < a.len()
        invariant
            0 <= i <= a@.len(),
            bytes_le_from(a@, b@, 0) == bytes_le_from(a@, b@, i as int),
        decreases a@.len() - i,
    {
        if i >= b.len() {
            return false;
        }
        if a[i] < b[i] {
            return true;
        }
        if a[i] > b[i] {
            return false;
        }
        i = i + 1;
    }
    true
}

/// Whether the keys come in order
pub fn keys_sorted_exec(keys: &Vec<Vec<u8>>) -> (r: bool)
    ensures
        r == keys_sorted(keys@),
{
    let n = keys.len();
    if n == 0 {
        return true;
    }
    let mut k: usize = 1;
    while k < n
        invariant
            1 <= k <= n,
            n == keys@.len(),
            forall|i: int, j: int| 0 <= i < j < k ==> bytes_le(#[trigger] keys@[i]@, #[trigger] keys@[j]@),
        decreases n - k,
    {
        if !bytes_le_exec(&keys[k - 1], &keys[k]) {
            return false;
        }
        proof {
            assert forall|i: int, j: int| 0 <= i < j < k + 1 implies
                bytes_le(#[trigger] keys@[i]@, #[trigger] keys@[j]@) by {
                if j == k && i < k - 1 {
                    assert(bytes_le(keys@[i]@, keys@[k - 1]@));
                    lemma_bytes_le_transitive(keys@[i]@, keys@[k - 1]@, keys@[j]@, 0);
                }
            }
        }
        k = k + 1;
    }
    true
}

/// Inserting an element adds it to the multiset of a sequence.
pub proof fn lemma_insert_to_multiset<A>(s: Seq<A>, p: int, x: A)
    requires
        0 <= p <= s.len(),
    ensures
        s.insert(p, x).to_multiset() =~= s.to_multiset().insert(x),
{
    let t = s.insert(p, x);
    assert(t.remove(p) =~= s);
    assert(t.contains(x)) by {
        assert(t[p] == x);
    }
    assert(t.remove(p).to_multiset() == t.to_multiset().remove(t[p]));
}

/// A key put where `upper_bound` places it leaves the keys in order.
pub proof fn lemma_insert_keeps_sorted(keys: Seq<Vec<u8>>, p: int, key: Vec<u8>)
    requires
        keys_sorted(keys),
        0 <= p <= keys.len(),
        forall|q: int| 0 <= q < p ==> bytes_le(#[trigger] keys[q]@, key@),
        forall|q: int| p <= q < keys.len() ==> bytes_le(key@, #[trigger] keys[q]@),
    ensures
        keys_sorted(keys.insert(p, key)),
{
    let out = keys.insert(p, key);
    assert forall|i: int, j: int| 0 <= i < j < out.len() implies
        bytes_le(#[trigger] out[i]@, #[trigger] out[j]@) by {
        if j < p {
        } else if i < p && j == p {
        } else if i < p && j > p {
            assert(out[i] == keys[i]);
            assert(out[j] == keys[j - 1]);
            lemma_bytes_le_transitive(out[i]@, key@, out[j]@, 0);
        } else if i == p {
            assert(out[j] == keys[j - 1]);
        } else {
            assert(out[i] == keys[i - 1]);
            assert(out[j] == keys[j - 1]);
        }
    }
}

/// The position where `key` goes in the sorted keys `keys`: after every key that comes
/// before it or equals it
pub fn upper_bound(keys: &Vec<Vec<u8>>, key: &Vec<u8>) -> (p: usize)
    requires
        keys_sorted(keys@),
    ensures
        p <= keys@.len(),
        forall|q: int| 0 <= q < p ==> bytes_le(#[trigger] keys@[q]@, key@),
        forall|q: int| p <= q < keys@.len() ==> bytes_le(key@, #[trigger] keys@[q]@),
{
    let mut p: usize = 0;
    while p < keys.len()
        invariant
            p <= keys@.len(),
            keys_sorted(keys@),
            forall|q: int| 0 <= q < p ==> bytes_le(#[trigger] keys@[q]@, key@),
        decreases keys@.len() - p,
    {
        if !bytes_le_exec(&keys[p], key) {
            proof {
                lemma_bytes_le_total(keys@[p as int]@, key@, 0);
                assert forall|q: int| p <= q < keys@.len() implies bytes_le(key@, #[trigger] keys@[q]@) by {
                    if q > p {
                        assert(bytes_le(keys@[p as int]@, keys@[q]@));
                        lemma_bytes_le_transitive(key@, keys@[p as int]@, keys@[q]@, 0);
                    }
                }
            }
            return p;
        }
        p = p + 1;
    }
    p
}

/// The items ordered by their keys, with their keys in the same order. Each item keeps
/// its key; items with equal keys may come in any order.
pub fn sort_by_keys<D>(items: Vec<D>, keys: Vec<Vec<u8>>) -> (r: (Vec<D>, Vec<Vec<u8>>))
    requires
        items@.len() == keys@.len(),
    ensures
        r.0@.len() == items@.len(),
        r.1@.len() == items@.len(),
        keys_sorted(r.1@),
        keyed(r.1@, r.0@).to_multiset() =~= keyed(keys@, items@).to_multiset(),
{
    let ghost whole = keyed(keys@, items@).to_multiset();
    let ghost n = items@.len();
    let mut src = items;
    let mut src_keys = keys;
    let mut out: Vec<D> = Vec::new();
    let mut out_keys: Vec<Vec<u8>> = Vec::new();
    proof {
        assert(keyed(out_keys@, out@) =~= Seq::<(Seq<u8>, D)>::empty());
    }
    while src.len() > 0
        invariant
            src@.len() == src_keys@.len(),
            out@.len() == out_keys@.len(),
            out@.len() + src@.len() == n,
            keys_sorted(out_keys@),
            keyed(out_keys@, out@).to_multiset().add(keyed(src_keys@, src@).to_multiset()) =~= whole,
        decreases src@.len(),
    {
        let ghost old_src = src@;
        let ghost old_src_keys = src_keys@;
        let ghost old_out = out@;
        let ghost old_out_keys = out_keys@;
        let item = match src.pop() {
            Some(x) => x,
            None => { return (out, out_keys); },
        };
        let key = match src_keys.pop() {
            Some(k) => k,
            None => { return (out, out_keys); },
        };
        let p = upper_bound(&out_keys, &key);
        out.insert(p, item);
        out_keys.insert(p, key);
        proof {
            let pair = (key@, item);
            assert(keyed(old_src_keys, old_src) =~= keyed(src_keys@, src@).push(pair));
            assert(keyed(out_keys@, out@) =~= keyed(old_out_keys, old_out).insert(p as int, pair));
            lemma_insert_to_multiset(keyed(old_out_keys, old_out), p as int, pair);
            lemma_insert_keeps_sorted(old_out_keys, p as int, key);
            assert(out_keys@ =~= old_out_keys.insert(p as int, key));
        }
    }
    proof {
        assert(keyed(src_keys@, src@) =~= Seq::<(Seq<u8>, D)>::empty());
    }
    (out, out_keys)
}

} // verus!
