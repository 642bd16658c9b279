//! The order in which the report lists repositories: most updates first,
//! and repositories with as many updates in the order they were found.
use vstd::prelude::*;

verus! {

/// `s` (already in order) with index `x` placed after every entry whose key
/// is at least `x`'s.
pub open spec fn insert_desc(keys: Seq<usize>, s: Seq<usize>, x: usize) -> Seq<usize>
    decreases s.len(),
{
    if s.len() == 0 {
        seq![x]
    } else if keys[s[0] as int] < keys[x as int] {
        seq![x] + s
    } else {
        seq![s[0]] + insert_desc(keys, s.drop_first(), x)
    }
}

/// The first `n` indices, stably ordered by decreasing key.
pub open spec fn order_prefix(keys: Seq<usize>, n: nat) -> Seq<usize>
    decreases n,
{
    if n == 0 {
        seq![]
    } else {
        insert_desc(keys, order_prefix(keys, (n - 1) as nat), (n - 1) as usize)
    }
}

/// All indices of `keys`, stably ordered by decreasing key: the order of a
/// stable sort by key, largest first.
pub open spec fn order_desc(keys: Seq<usize>) -> Seq<usize> {
    order_prefix(keys, keys.len())
}

/// `s` is ordered by decreasing key.
pub open spec fn sorted_desc(keys: Seq<usize>, s: Seq<usize>) -> bool {
    forall|i: int, j: int|
        #![trigger s[i], s[j]]
        0 <= i < j < s.len() ==> keys[s[i] as int] >= keys[s[j] as int]
}

/// Entries of `s` with equal keys keep the order of their indices.
pub open spec fn stable(keys: Seq<usize>, s: Seq<usize>) -> bool {
    forall|i: int, j: int|
        #![trigger s[i], s[j]]
        0 <= i < j < s.len() && keys[s[i] as int] == keys[s[j] as int] ==> s[i] < s[j]
}

/// `s` holds no index twice.
pub open spec fn distinct(s: Seq<usize>) -> bool {
    forall|i: int, j: int| #![trigger s[i], s[j]] 0 <= i < j < s.len() ==> s[i] != s[j]
}

/// Every index below `n` occurs in `s`.
pub open spec fn covers(s: Seq<usize>, n: int) -> bool {
    forall|x: usize| x < n ==> s.contains(x)
}

/// Every entry of `s` is below `n`.
pub open spec fn below(s: Seq<usize>, n: int) -> bool {
    forall|i: int| 0 <= i < s.len() ==> #[trigger] s[i] < n
}

/// Where `insert_desc` puts `x`: after the entries whose key is at least
/// `x`'s, which come first in an ordered `s`.
proof fn lemma_insert_position(keys: Seq<usize>, s: Seq<usize>, x: usize) -> (p: int)
    requires
        x < keys.len(),
        below(s, keys.len() as int),
    ensures
        0 <= p <= s.len(),
        forall|q: int| 0 <= q < p ==> keys[s[q] as int] >= keys[x as int],
        p < s.len() ==> keys[s[p] as int] < keys[x as int],
        insert_desc(keys, s, x) == s.take(p) + seq![x] + s.skip(p),
    decreases s.len(),
{
    if s.len() == 0 {
        assert(s.take(0) + seq![x] + s.skip(0) =~= seq![x]);
        0
    } else if keys[s[0] as int] < keys[x as int] {
        assert(s.take(0) + seq![x] + s.skip(0) =~= seq![x] + s);
        0
    } else {
        let t = s.drop_first();
        let p0 = lemma_insert_position(keys, t, x);
        assert(s.take(p0 + 1) + seq![x] + s.skip(p0 + 1) =~= seq![s[0]] + (t.take(p0) + seq![x]
            + t.skip(p0)));
        assert forall|q: int| 0 <= q < p0 + 1 implies keys[s[q] as int] >= keys[x as int] by {
            if q > 0 {
                assert(s[q] == t[q - 1]);
            }
        }
        p0 + 1
    }
}

/// Inserting a larger index into an ordered, stable, duplicate-free sequence
/// keeps it so.
proof fn lemma_insert_keeps_order(keys: Seq<usize>, s: Seq<usize>, x: usize)
    requires
        x < keys.len(),
        below(s, x as int),
        sorted_desc(keys, s),
        stable(keys, s),
        distinct(s),
    ensures
        sorted_desc(keys, insert_desc(keys, s, x)),
        stable(keys, insert_desc(keys, s, x)),
        distinct(insert_desc(keys, s, x)),
        below(insert_desc(keys, s, x), x + 1),
        insert_desc(keys, s, x).len() == s.len() + 1,
        covers(s, x as int) ==> covers(insert_desc(keys, s, x), x + 1),
{
    let p = lemma_insert_position(keys, s, x);
    let r = insert_desc(keys, s, x);
    assert forall|i: int| 0 <= i < r.len() implies r[i] == (if i < p {
        s[i]
    } else if i == p {
        x
    } else {
        s[i - 1]
    }) by {}
    assert forall|q: int| p <= q < s.len() implies keys[s[q] as int] < keys[x as int] by {
        if q > p {
            assert(keys[s[p] as int] >= keys[s[q] as int]);
        }
    }
    assert forall|i: int, j: int|
        #![trigger r[i], r[j]]
        0 <= i < j < r.len() implies keys[r[i] as int] >= keys[r[j] as int] by {
        if i < p && j > p {
            assert(keys[s[i] as int] >= keys[s[j - 1] as int]);
        } else if i > p {
            assert(keys[s[i - 1] as int] >= keys[s[j - 1] as int]);
        } else if j < p {
            assert(keys[s[i] as int] >= keys[s[j] as int]);
        }
    }
    assert forall|i: int, j: int|
        #![trigger r[i], r[j]]
        0 <= i < j < r.len() && keys[r[i] as int] == keys[r[j] as int] implies r[i] < r[j] by {
        if i < p && j > p {
            assert(keys[s[i] as int] >= keys[s[j - 1] as int]);
        } else if i > p {
            assert(s[i - 1] < s[j - 1]);
        } else if j < p {
            assert(s[i] < s[j]);
        } else if i == p {
        }
    }
    assert forall|i: int, j: int| #![trigger r[i], r[j]] 0 <= i < j < r.len() implies r[i] != r[j] by {
        if i < p && j > p {
            assert(s[i] != s[j - 1]);
        } else if i > p {
            assert(s[i - 1] != s[j - 1]);
        } else if j < p {
            assert(s[i] != s[j]);
        }
    }
    if covers(s, x as int) {
        assert forall|y: usize| y < x + 1 implies r.contains(y) by {
            if y == x {
                assert(r[p] == x);
            } else {
                assert(s.contains(y));
                let q = choose|q: int| 0 <= q < s.len() && s[q] == y;
                if q < p {
                    assert(r[q] == y);
                } else {
                    assert(r[q + 1] == y);
                }
            }
        }
    }
}

proof fn lemma_order_prefix(keys: Seq<usize>, n: nat)
    requires
        n <= keys.len() <= usize::MAX,
    ensures
        order_prefix(keys, n).len() == n,
        below(order_prefix(keys, n), n as int),
        sorted_desc(keys, order_prefix(keys, n)),
        stable(keys, order_prefix(keys, n)),
        distinct(order_prefix(keys, n)),
        covers(order_prefix(keys, n), n as int),
    decreases n,
{
    if n > 0 {
        lemma_order_prefix(keys, (n - 1) as nat);
        lemma_insert_keeps_order(keys, order_prefix(keys, (n - 1) as nat), (n - 1) as usize);
    }
}

/// The order lists every index exactly once, by decreasing key, and indices
/// with equal keys in increasing order: it is what a stable sort by key,
/// largest first, gives.
pub proof fn law_order_is_stable_sort(keys: Seq<usize>)
    requires
        keys.len() <= usize::MAX,
    ensures
        order_desc(keys).len() == keys.len(),
        below(order_desc(keys), keys.len() as int),
        covers(order_desc(keys), keys.len() as int),
        distinct(order_desc(keys)),
        sorted_desc(keys, order_desc(keys)),
        stable(keys, order_desc(keys)),
{
    lemma_order_prefix(keys, keys.len());
}

/// The indices of `keys`, stably ordered by decreasing key.
pub fn order_by_key_desc(keys: &Vec<usize>) -> (r: Vec<usize>)
    ensures
        r@ == order_desc(keys@),
{
    let n = keys.len();
    let mut out: Vec<usize> = Vec::new();
    let mut i: usize = 0;
    while i < n
        invariant
            n == keys@.len(),
            i <= n,
            out@ == order_prefix(keys@, i as nat),
        decreases n - i,
    {
        proof {
            lemma_order_prefix(keys@, i as nat);
        }
        let k = keys[i];
        let mut p: usize = 0;
        while p < out.len() && keys[out[p]] >= k
            invariant
                n == keys@.len(),
                i < n,
                k == keys@[i as int],
                out@ == order_prefix(keys@, i as nat),
                below(out@, i as int),
                p <= out@.len(),
                forall|q: int| 0 <= q < p ==> keys@[out@[q] as int] >= k,
            decreases out@.len() - p,
        {
            p = p + 1;
        }
        proof {
            let ghost q = lemma_insert_position(keys@, out@, i);
            assert(q == p) by {
                if q < p {
                    assert(keys@[out@[q] as int] >= k);
                } else if q > p {
                    assert(keys@[out@[p as int] as int] >= k);
                }
            }
        }
        out.insert(p, i);
        assert(out@ == order_prefix(keys@, (i + 1) as nat));
        i = i + 1;
    }
    out
}

} // verus!
