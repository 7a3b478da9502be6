use vstd::prelude::*;

verus! {

/// A related row: the value of its ordering column, and the id it links to.
pub type Keyed = (i32, i32);

/// `x` placed after every leading item whose key is not greater than its own.
pub open spec fn insert_by_key(s: Seq<Keyed>, x: Keyed) -> Seq<Keyed>
    decreases s.len(),
{
    if s.len() == 0 {
        seq![x]
    } else if x.0 < s[0].0 {
        seq![x] + s
    } else {
        seq![s[0]] + insert_by_key(s.drop_first(), x)
    }
}

/// The rows in ascending order of key; rows with equal keys keep their order.
pub open spec fn sort_by_key(s: Seq<Keyed>) -> Seq<Keyed>
    decreases s.len(),
{
    if s.len() == 0 {
        s
    } else {
        insert_by_key(sort_by_key(s.drop_last()), s.last())
    }
}

/// The ids of the rows, in their order.
pub open spec fn ids_of(s: Seq<Keyed>) -> Seq<i32> {
    s.map_values(|k: Keyed| k.1)
}

/// The keys never decrease along the rows.
pub open spec fn keys_ascending(s: Seq<Keyed>) -> bool {
    forall|i: int, j: int| 0 <= i < j < s.len() ==> s[i].0 <= s[j].0
}

/// Where `insert_by_key` places `x`: before the first row whose key is greater.
pub open spec fn insert_pos(s: Seq<Keyed>, x: Keyed) -> int
    decreases s.len(),
{
    if s.len() == 0 || x.0 < s[0].0 {
        0
    } else {
        1 + insert_pos(s.drop_first(), x)
    }
}

proof fn lemma_insert_pos(s: Seq<Keyed>, x: Keyed)
    ensures
        0 <= insert_pos(s, x) <= s.len(),
        forall|k: int| 0 <= k < insert_pos(s, x) ==> s[k].0 <= x.0,
        insert_pos(s, x) == s.len() || x.0 < s[insert_pos(s, x)].0,
    decreases s.len(),
{
    if s.len() > 0 && !(x.0 < s[0].0) {
        let t = s.drop_first();
        lemma_insert_pos(t, x);
        assert forall|k: int| 0 <= k < insert_pos(s, x) implies s[k].0 <= x.0 by {
            if k > 0 {
                assert(s[k] == t[k - 1]);
            }
        }
    }
}

/// Sorting by key yields rows in ascending key order, and the same rows.
pub proof fn lemma_sort_by_key(s: Seq<Keyed>)
    ensures
        keys_ascending(sort_by_key(s)),
        sort_by_key(s).to_multiset() == s.to_multiset(),
    decreases s.len(),
{
    broadcast use vstd::seq_lib::group_to_multiset_ensures;

    if s.len() > 0 {
        let t = sort_by_key(s.drop_last());
        let x = s.last();
        lemma_sort_by_key(s.drop_last());
        lemma_insert_pos(t, x);
        let p = insert_pos(t, x);
        lemma_insert_at(t, x, p);
        let u = t.insert(p, x);
        assert(s =~= s.drop_last().push(x));
        assert forall|i: int, j: int| 0 <= i < j < u.len() implies u[i].0 <= u[j].0 by {
            if j < p {
            } else if j == p {
            } else if i < p {
                assert(t[i].0 <= x.0);
                assert(x.0 < t[p].0);
                assert(t[p].0 <= t[j - 1].0);
            } else if i == p {
                assert(t[p].0 <= t[j - 1].0);
            } else {
            }
        }
    }
}

/// The ids of the rows, ordered by key.
pub open spec fn ordered_ids(s: Seq<Keyed>) -> Seq<i32> {
    ids_of(sort_by_key(s))
}

proof fn lemma_insert_at(s: Seq<Keyed>, x: Keyed, p: int)
    requires
        0 <= p <= s.len(),
        forall|k: int| 0 <= k < p ==> s[k].0 <= x.0,
        p == s.len() || x.0 < s[p].0,
    ensures
        insert_by_key(s, x) == s.insert(p, x),
    decreases s.len(),
{
    if s.len() == 0 {
        assert(s.insert(p, x) =~= seq![x]);
    } else if p == 0 {
        assert(s.insert(p, x) =~= seq![x] + s);
    } else {
        let t = s.drop_first();
        assert forall|k: int| 0 <= k < p - 1 implies t[k].0 <= x.0 by {
            assert(t[k] == s[k + 1]);
        }
        lemma_insert_at(t, x, p - 1);
        assert(s.insert(p, x) =~= seq![s[0]] + t.insert(p - 1, x));
    }
}

/// The ids of `rows` in ascending order of their key; rows with equal keys keep
/// the order in which they are given.
pub fn ids_ordered_by_key(rows: &Vec<Keyed>) -> (r: Vec<i32>)
    ensures
        r@ == ordered_ids(rows@),
{
    let mut sorted: Vec<Keyed> = Vec::new();
    let n = rows.len();
    let mut i: usize = 0;
    while i < n
        invariant
            n == rows.len(),
            0 <= i <= n,
            sorted@ == sort_by_key(rows@.subrange(0, i as int)),
        decreases n - i,
    {
        let x = rows[i];
        let mut p: usize = 0;
        while p < sorted.len() && sorted[p].0 <= x.0
            invariant
                0 <= p <= sorted.len(),
                forall|k: int| 0 <= k < p ==> sorted@[k].0 <= x.0,
            decreases sorted.len() - p,
        {
            p = p + 1;
        }
        proof {
            let pre = rows@.subrange(0, i as int + 1);
            assert(pre.drop_last() =~= rows@.subrange(0, i as int));
            assert(pre.last() == x);
            lemma_insert_at(sorted@, x, p as int);
        }
        sorted.insert(p, x);
        i = i + 1;
    }
    assert(rows@.subrange(0, n as int) =~= rows@);
    let mut r: Vec<i32> = Vec::new();
    let mut j: usize = 0;
    while j < sorted.len()
        invariant
            0 <= j <= sorted.len(),
            r@.len() == j,
            forall|k: int| 0 <= k < j ==> r@[k] == sorted@[k].1,
        decreases sorted.len() - j,
    {
        r.push(sorted[j].1);
        j = j + 1;
    }
    assert(r@ =~= ids_of(sorted@));
    r
}

} // verus!
