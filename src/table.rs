use crate::address::Pubkey;
use vstd::prelude::*;

verus! {

/// No two entries of the table share an address.
pub open spec fn unique_keys<T>(s: Seq<(Pubkey, T)>) -> bool {
    forall|i: int, j: int|
        0 <= i < s.len() && 0 <= j < s.len() && i != j ==> (#[trigger] s[i]).0@ != (#[trigger] s[j]).0@
}

pub open spec fn has_key<T>(s: Seq<(Pubkey, T)>, k: Seq<u8>) -> bool {
    exists|i: int| 0 <= i < s.len() && (#[trigger] s[i]).0@ == k
}

/// The table as a map from each address to its entry.
pub open spec fn table_view<T>(s: Seq<(Pubkey, T)>) -> Map<Seq<u8>, T> {
    Map::new(
        |k: Seq<u8>| has_key(s, k),
        |k: Seq<u8>| s[choose|i: int| 0 <= i < s.len() && (#[trigger] s[i]).0@ == k].1,
    )
}

/// The entry at `k`, if there is one.
pub open spec fn lookup<T>(m: Map<Seq<u8>, T>, k: Seq<u8>) -> Option<T> {
    if m.contains_key(k) {
        Some(m[k])
    } else {
        None
    }
}

pub proof fn lemma_view_at<T>(s: Seq<(Pubkey, T)>, i: int)
    requires
        unique_keys(s),
        0 <= i < s.len(),
    ensures
        table_view(s).contains_key(s[i].0@),
        table_view(s)[s[i].0@] == s[i].1,
{
    let k = s[i].0@;
    assert(has_key(s, k));
    let j = choose|j: int| 0 <= j < s.len() && (#[trigger] s[j]).0@ == k;
    assert(j == i);
}

pub proof fn lemma_view_update<T>(s: Seq<(Pubkey, T)>, i: int, v: T)
    requires
        unique_keys(s),
        0 <= i < s.len(),
    ensures
        unique_keys(s.update(i, (s[i].0, v))),
        table_view(s.update(i, (s[i].0, v))) == table_view(s).insert(s[i].0@, v),
{
    let t = s.update(i, (s[i].0, v));
    assert(unique_keys(t)) by {
        assert forall|a: int, b: int|
            0 <= a < t.len() && 0 <= b < t.len() && a != b implies (#[trigger] t[a]).0@ != (#[trigger] t[b]).0@ by {
            assert(t[a].0 == s[a].0 && t[b].0 == s[b].0);
        }
    }
    assert forall|k: Seq<u8>| has_key(t, k) == (has_key(s, k) || k == s[i].0@) by {
        if has_key(s, k) {
            let a = choose|a: int| 0 <= a < s.len() && (#[trigger] s[a]).0@ == k;
            assert(t[a].0 == s[a].0);
        }
        if has_key(t, k) {
            let a = choose|a: int| 0 <= a < t.len() && (#[trigger] t[a]).0@ == k;
            assert(t[a].0 == s[a].0);
        }
        if k == s[i].0@ {
            assert(t[i].0@ == k);
        }
    }
    assert forall|k: Seq<u8>| #[trigger] table_view(t).contains_key(k) implies table_view(t)[k] == table_view(s).insert(s[i].0@, v)[k] by {
        let a = choose|a: int| 0 <= a < t.len() && (#[trigger] t[a]).0@ == k;
        lemma_view_at(t, a);
        if a != i {
            assert(t[a] == s[a]);
            lemma_view_at(s, a);
        }
    }
    assert(table_view(t) =~= table_view(s).insert(s[i].0@, v));
}

pub proof fn lemma_view_push<T>(s: Seq<(Pubkey, T)>, k: Pubkey, v: T)
    requires
        unique_keys(s),
        !table_view(s).contains_key(k@),
    ensures
        unique_keys(s.push((k, v))),
        table_view(s.push((k, v))) == table_view(s).insert(k@, v),
{
    let t = s.push((k, v));
    assert(unique_keys(t)) by {
        assert forall|a: int, b: int|
            0 <= a < t.len() && 0 <= b < t.len() && a != b implies (#[trigger] t[a]).0@ != (#[trigger] t[b]).0@ by {
            if a < s.len() && b < s.len() {
                assert(t[a] == s[a] && t[b] == s[b]);
            } else if a < s.len() {
                assert(t[a] == s[a]);
                assert(!has_key(s, k@));
            } else if b < s.len() {
                assert(t[b] == s[b]);
                assert(!has_key(s, k@));
            }
        }
    }
    assert forall|x: Seq<u8>| has_key(t, x) == (has_key(s, x) || x == k@) by {
        if has_key(s, x) {
            let a = choose|a: int| 0 <= a < s.len() && (#[trigger] s[a]).0@ == x;
            assert(t[a] == s[a]);
        }
        if has_key(t, x) {
            let a = choose|a: int| 0 <= a < t.len() && (#[trigger] t[a]).0@ == x;
            if a < s.len() {
                assert(t[a] == s[a]);
            }
        }
        if x == k@ {
            assert(t[s.len() as int].0@ == x);
        }
    }
    assert forall|x: Seq<u8>| #[trigger] table_view(t).contains_key(x) implies table_view(t)[x] == table_view(s).insert(k@, v)[x] by {
        let a = choose|a: int| 0 <= a < t.len() && (#[trigger] t[a]).0@ == x;
        lemma_view_at(t, a);
        if a < s.len() {
            assert(t[a] == s[a]);
            lemma_view_at(s, a);
        }
    }
    assert(table_view(t) =~= table_view(s).insert(k@, v));
}

pub proof fn lemma_view_remove<T>(s: Seq<(Pubkey, T)>, i: int)
    requires
        unique_keys(s),
        0 <= i < s.len(),
    ensures
        unique_keys(s.remove(i)),
        table_view(s.remove(i)) == table_view(s).remove(s[i].0@),
{
    let t = s.remove(i);
    assert forall|a: int| 0 <= a < t.len() implies #[trigger] t[a] == (if a < i { s[a] } else { s[a + 1] }) by {}
    assert(unique_keys(t)) by {
        assert forall|a: int, b: int|
            0 <= a < t.len() && 0 <= b < t.len() && a != b implies (#[trigger] t[a]).0@ != (#[trigger] t[b]).0@ by {
            let sa = if a < i { a } else { a + 1 };
            let sb = if b < i { b } else { b + 1 };
            assert(t[a] == s[sa] && t[b] == s[sb]);
        }
    }
    assert forall|x: Seq<u8>| has_key(t, x) == (has_key(s, x) && x != s[i].0@) by {
        if has_key(s, x) && x != s[i].0@ {
            let a = choose|a: int| 0 <= a < s.len() && (#[trigger] s[a]).0@ == x;
            if a < i {
                assert(t[a] == s[a]);
            } else {
                assert(a != i);
                assert(t[a - 1] == s[a]);
            }
        }
        if has_key(t, x) {
            let a = choose|a: int| 0 <= a < t.len() && (#[trigger] t[a]).0@ == x;
            let sa = if a < i { a } else { a + 1 };
            assert(t[a] == s[sa]);
            assert(sa != i);
        }
    }
    assert forall|x: Seq<u8>| #[trigger] table_view(t).contains_key(x) implies table_view(t)[x] == table_view(s)[x] by {
        let a = choose|a: int| 0 <= a < t.len() && (#[trigger] t[a]).0@ == x;
        lemma_view_at(t, a);
        let sa = if a < i { a } else { a + 1 };
        assert(t[a] == s[sa]);
        lemma_view_at(s, sa);
    }
    assert(table_view(t) =~= table_view(s).remove(s[i].0@));
}

/// The position of the entry at `k`, if there is one.
pub fn find_key<T>(v: &Vec<(Pubkey, T)>, k: &Pubkey) -> (r: Option<usize>)
    requires
        unique_keys(v@),
    ensures
        match r {
            Some(i) => i < v@.len() && v@[i as int].0@ == k@,
            None => !table_view(v@).contains_key(k@),
        },
{
    let mut i: usize = 0;
    while i < v.len()
        invariant
            i <= v@.len(),
            forall|j: int| 0 <= j < i ==> (#[trigger] v@[j]).0@ != k@,
        decreases v@.len() - i,
    {
        if v[i].0.key_eq(k) {
            return Some(i);
        }
        i = i + 1;
    }
    None
}

} // verus!
