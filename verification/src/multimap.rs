//! Grouping of the key/value pairs of a CEF string multimap, where one key can
//! carry several values.

use vstd::prelude::*;

verus! {

/// The text of each key/value pair.
pub open spec fn pairs_view(pairs: Seq<(String, String)>) -> Seq<(Seq<char>, Seq<char>)> {
    pairs.map_values(|p: (String, String)| (p.0@, p.1@))
}

/// The values paired with `key`, in the order of the pairs.
pub open spec fn values_of_key(pairs: Seq<(Seq<char>, Seq<char>)>, key: Seq<char>) -> Seq<Seq<char>>
    decreases pairs.len(),
{
    if pairs.len() == 0 {
        Seq::empty()
    } else if pairs.last().0 == key {
        values_of_key(pairs.drop_last(), key).push(pairs.last().1)
    } else {
        values_of_key(pairs.drop_last(), key)
    }
}

/// The distinct keys of the pairs, in the order of their first appearance.
pub open spec fn distinct_keys(pairs: Seq<(Seq<char>, Seq<char>)>) -> Seq<Seq<char>>
    decreases pairs.len(),
{
    if pairs.len() == 0 {
        Seq::empty()
    } else if distinct_keys(pairs.drop_last()).contains(pairs.last().0) {
        distinct_keys(pairs.drop_last())
    } else {
        distinct_keys(pairs.drop_last()).push(pairs.last().0)
    }
}

/// The text of each group: its key and its values.
pub open spec fn groups_view(groups: Seq<(String, Vec<String>)>) -> Seq<(Seq<char>, Seq<Seq<char>>)> {
    groups.map_values(|g: (String, Vec<String>)| (g.0@, g.1@.map_values(|v: String| v@)))
}

/// `groups` groups `pairs` by key: one group per distinct key, in the order of
/// the keys' first appearance, each holding the values of its key in order.
pub open spec fn groups_pairs(groups: Seq<(Seq<char>, Seq<Seq<char>>)>, pairs: Seq<(Seq<char>, Seq<char>)>) -> bool {
    &&& groups.map_values(|g: (Seq<char>, Seq<Seq<char>>)| g.0) == distinct_keys(pairs)
    &&& forall|i: int| 0 <= i < groups.len() ==> #[trigger] groups[i].1 == values_of_key(pairs, groups[i].0)
}

proof fn lemma_push_contains(s: Seq<Seq<char>>, x: Seq<char>, k: Seq<char>)
    ensures
        s.push(x).contains(k) <==> (s.contains(k) || x == k),
{
    if s.contains(k) {
        let i = choose|i: int| 0 <= i < s.len() && s[i] == k;
        assert(s.push(x)[i] == k);
    }
    if x == k {
        assert(s.push(x)[s.len() as int] == k);
    }
    if s.push(x).contains(k) {
        let i = choose|i: int| 0 <= i < s.len() + 1 && s.push(x)[i] == k;
        if i < s.len() {
            assert(s[i] == k);
        }
    }
}

/// The grouping keys are the keys of the pairs, each exactly once.
pub proof fn lemma_distinct_keys_no_duplicates(pairs: Seq<(Seq<char>, Seq<char>)>)
    ensures
        distinct_keys(pairs).no_duplicates(),
        forall|k: Seq<char>| distinct_keys(pairs).contains(k) <==> exists|j: int| 0 <= j < pairs.len() && #[trigger] pairs[j].0 == k,
    decreases pairs.len(),
{
    if pairs.len() > 0 {
        let init = pairs.drop_last();
        let last = pairs.last();
        lemma_distinct_keys_no_duplicates(init);
        assert forall|k: Seq<char>| distinct_keys(pairs).contains(k) <==> (distinct_keys(init).contains(k) || last.0 == k) by {
            if !distinct_keys(init).contains(last.0) {
                lemma_push_contains(distinct_keys(init), last.0, k);
            }
        }
        assert forall|k: Seq<char>| distinct_keys(pairs).contains(k) <==> exists|j: int| 0 <= j < pairs.len() && #[trigger] pairs[j].0 == k by {
            if distinct_keys(init).contains(k) {
                let j = choose|j: int| 0 <= j < init.len() && #[trigger] init[j].0 == k;
                assert(pairs[j].0 == k);
            }
            if last.0 == k {
                assert(pairs[pairs.len() - 1].0 == k);
            }
            if exists|j: int| 0 <= j < pairs.len() && #[trigger] pairs[j].0 == k {
                let j = choose|j: int| 0 <= j < pairs.len() && #[trigger] pairs[j].0 == k;
                if j < pairs.len() - 1 {
                    assert(init[j].0 == k);
                }
            }
        }
        if !distinct_keys(init).contains(last.0) {
            let d = distinct_keys(init);
            assert forall|a: int, b: int| 0 <= a < d.push(last.0).len() && 0 <= b < d.push(last.0).len() && a != b
                implies d.push(last.0)[a] != d.push(last.0)[b] by {
                if a < d.len() && b < d.len() {
                } else if a == d.len() {
                    assert(d[b] == d.push(last.0)[b]);
                } else {
                    assert(d[a] == d.push(last.0)[a]);
                }
            }
        }
    }
}

/// Groups key/value pairs by key: one group per distinct key, in the order of
/// the keys' first appearance, each holding the values of its key in the
/// order of the pairs.
pub fn group_values(pairs: &Vec<(String, String)>) -> (groups: Vec<(String, Vec<String>)>)
    ensures
        groups_pairs(groups_view(groups@), pairs_view(pairs@)),
{
    let mut groups: Vec<(String, Vec<String>)> = Vec::new();
    let ghost pv = pairs_view(pairs@);
    let mut i: usize = 0;
    assert(pv.take(0) =~= Seq::<(Seq<char>, Seq<char>)>::empty());
    assert(groups_view(groups@).map_values(|g: (Seq<char>, Seq<Seq<char>>)| g.0) =~= Seq::<Seq<char>>::empty());
    while i < pairs.len()
        invariant
            i <= pairs.len(),
            pv == pairs_view(pairs@),
            pv.len() == pairs@.len(),
            groups_pairs(groups_view(groups@), pv.take(i as int)),
        decreases pairs.len() - i,
    {
        let key = &pairs[i].0;
        let value = &pairs[i].1;
        let ghost before = groups_view(groups@);
        let ghost prefix = pv.take(i as int);
        let ghost next = pv.take(i + 1);
        assert(next.drop_last() =~= prefix);
        assert(next.last() == (key@, value@));
        proof {
            lemma_distinct_keys_no_duplicates(prefix);
        }
        let mut j: usize = 0;
        let mut found = false;
        while j < groups.len()
            invariant_except_break
                j <= groups.len(),
                groups_view(groups@) == before,
                forall|k: int| 0 <= k < j ==> before[k].0 != key@,
                !found,
            ensures
                groups_view(groups@) == before,
                found ==> j < groups.len() && before[j as int].0 == key@,
                !found ==> forall|k: int| 0 <= k < groups.len() ==> before[k].0 != key@,
            decreases groups.len() - j,
        {
            if groups[j].0 == *key {
                found = true;
                break;
            }
            j = j + 1;
        }
        if found {
            assert(before[j as int].0 == key@);
            let mut values: Vec<String> = Vec::new();
            std::mem::swap(&mut values, &mut groups[j].1);
            values.push(value.clone());
            groups.set(j, (key.clone(), values));
            let ghost after = groups_view(groups@);
            assert(after.map_values(|g: (Seq<char>, Seq<Seq<char>>)| g.0) =~= before.map_values(|g: (Seq<char>, Seq<Seq<char>>)| g.0));
            assert(before.map_values(|g: (Seq<char>, Seq<Seq<char>>)| g.0)[j as int] == key@);
            assert(distinct_keys(prefix).contains(key@));
            assert forall|m: int| 0 <= m < after.len() implies #[trigger] after[m].1 == values_of_key(next, after[m].0) by {
                assert(before[m].1 == values_of_key(prefix, before[m].0));
                if m == j {
                    assert(after[m].1 =~= before[m].1.push(value@));
                } else {
                    assert(after[m] == before[m]);
                    assert(before.map_values(|g: (Seq<char>, Seq<Seq<char>>)| g.0)[m] != key@);
                }
            }
        } else {
            let mut values: Vec<String> = Vec::new();
            values.push(value.clone());
            groups.push((key.clone(), values));
            let ghost after = groups_view(groups@);
            assert(!distinct_keys(prefix).contains(key@)) by {
                if distinct_keys(prefix).contains(key@) {
                    let k = choose|k: int| 0 <= k < distinct_keys(prefix).len() && distinct_keys(prefix)[k] == key@;
                    assert(before.map_values(|g: (Seq<char>, Seq<Seq<char>>)| g.0)[k] == key@);
                    assert(before[k].0 == key@);
                }
            }
            assert(after.map_values(|g: (Seq<char>, Seq<Seq<char>>)| g.0) =~= before.map_values(|g: (Seq<char>, Seq<Seq<char>>)| g.0).push(key@));
            assert forall|m: int| 0 <= m < after.len() implies #[trigger] after[m].1 == values_of_key(next, after[m].0) by {
                if m < before.len() {
                    assert(after[m] == before[m]);
                    assert(before[m].1 == values_of_key(prefix, before[m].0));
                    assert(before.map_values(|g: (Seq<char>, Seq<Seq<char>>)| g.0)[m] == before[m].0);
                    assert(distinct_keys(prefix).contains(before[m].0));
                } else {
                    assert(after[m].0 == key@);
                    assert(after[m].1 =~= seq![value@]);
                    lemma_values_of_absent_key(prefix, key@);
                    assert(values_of_key(prefix, key@) =~= Seq::<Seq<char>>::empty());
                }
            }
        }
        i = i + 1;
    }
    assert(pv.take(pairs.len() as int) =~= pv);
    groups
}

proof fn lemma_values_of_absent_key(pairs: Seq<(Seq<char>, Seq<char>)>, key: Seq<char>)
    requires
        !distinct_keys(pairs).contains(key),
    ensures
        values_of_key(pairs, key) == Seq::<Seq<char>>::empty(),
    decreases pairs.len(),
{
    if pairs.len() > 0 {
        let init = pairs.drop_last();
        if distinct_keys(init).contains(key) {
            assert(distinct_keys(pairs).contains(key)) by {
                lemma_distinct_keys_grow(init, pairs.last());
                assert(pairs =~= init.push(pairs.last()));
            }
        }
        assert(pairs.last().0 != key) by {
            if pairs.last().0 == key {
                lemma_distinct_keys_no_duplicates(pairs);
                assert(pairs[pairs.len() - 1].0 == key);
            }
        }
        lemma_values_of_absent_key(init, key);
    }
}

proof fn lemma_distinct_keys_grow(pairs: Seq<(Seq<char>, Seq<char>)>, p: (Seq<char>, Seq<char>))
    ensures
        forall|k: Seq<char>| distinct_keys(pairs).contains(k) ==> #[trigger] distinct_keys(pairs.push(p)).contains(k),
{
    assert(pairs.push(p).drop_last() =~= pairs);
    assert forall|k: Seq<char>| distinct_keys(pairs).contains(k) implies #[trigger] distinct_keys(pairs.push(p)).contains(k) by {
        if !distinct_keys(pairs).contains(p.0) {
            let i = choose|i: int| 0 <= i < distinct_keys(pairs).len() && distinct_keys(pairs)[i] == k;
            assert(distinct_keys(pairs.push(p))[i] == k);
        }
    }
}

} // verus!
