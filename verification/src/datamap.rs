use vstd::prelude::*;
use crate::json::JsonModel;
use crate::numbers::{parse_u64, dec_digits, lemma_parse_dec_digits};

verus! {

/// Entries sorted by strictly ascending key.
pub open spec fn sorted_strict<V>(s: Seq<(u64, V)>) -> bool {
    forall|i: int, j: int| 0 <= i < j < s.len() ==> s[i].0 < s[j].0
}

/// Insertion into a key-sorted entry list; an entry carrying the same key is
/// replaced.
pub open spec fn insert_entry<V>(s: Seq<(u64, V)>, k: u64, v: V) -> Seq<(u64, V)>
    decreases s.len(),
{
    if s.len() == 0 {
        seq![(k, v)]
    } else if k < s[0].0 {
        seq![(k, v)] + s
    } else if k == s[0].0 {
        seq![(k, v)] + s.subrange(1, s.len() as int)
    } else {
        seq![s[0]] + insert_entry(s.subrange(1, s.len() as int), k, v)
    }
}

/// Insertion keeps the entries sorted, and adds no entry beyond the given one.
pub proof fn lemma_insert_entry_props<V>(s: Seq<(u64, V)>, k: u64, v: V)
    requires
        sorted_strict(s),
    ensures
        sorted_strict(insert_entry(s, k, v)),
        forall|i: int| 0 <= i < insert_entry(s, k, v).len()
            ==> (#[trigger] insert_entry(s, k, v)[i]) == (k, v)
                || (exists|j: int| 0 <= j < s.len() && s[j] == insert_entry(s, k, v)[i]),
    decreases s.len(),
{
    let r = insert_entry(s, k, v);
    if s.len() == 0 {
        assert(r =~= seq![(k, v)]);
    } else if k < s[0].0 {
        assert forall|i: int| 0 <= i < r.len() implies (#[trigger] r[i]) == (k, v)
            || (exists|j: int| 0 <= j < s.len() && s[j] == r[i]) by {
            if i > 0 {
                assert(s[i - 1] == r[i]);
            }
        }
        assert forall|i: int, j: int| 0 <= i < j < r.len() implies r[i].0 < r[j].0 by {
            if i > 0 {
                assert(r[i] == s[i - 1] && r[j] == s[j - 1]);
            } else {
                assert(r[j] == s[j - 1]);
                if j > 1 {
                    assert(s[0].0 < s[j - 1].0);
                }
            }
        }
    } else if k == s[0].0 {
        let tail = s.subrange(1, s.len() as int);
        assert forall|i: int| 0 <= i < r.len() implies (#[trigger] r[i]) == (k, v)
            || (exists|j: int| 0 <= j < s.len() && s[j] == r[i]) by {
            if i > 0 {
                assert(s[i] == r[i]);
            }
        }
        assert forall|i: int, j: int| 0 <= i < j < r.len() implies r[i].0 < r[j].0 by {
            if i > 0 {
                assert(r[i] == s[i] && r[j] == s[j]);
            } else {
                assert(r[j] == s[j]);
            }
        }
    } else {
        let tail = s.subrange(1, s.len() as int);
        assert(sorted_strict(tail));
        lemma_insert_entry_props(tail, k, v);
        let ri = insert_entry(tail, k, v);
        assert forall|i: int| 0 <= i < r.len() implies (#[trigger] r[i]) == (k, v)
            || (exists|j: int| 0 <= j < s.len() && s[j] == r[i]) by {
            if i == 0 {
                assert(r[0] == s[0]);
            } else {
                assert(r[i] == ri[i - 1]);
                if ri[i - 1] != (k, v) {
                    let j = choose|j: int| 0 <= j < tail.len() && tail[j] == ri[i - 1];
                    assert(s[j + 1] == ri[i - 1]);
                }
            }
        }
        assert forall|i: int, j: int| 0 <= i < j < r.len() implies r[i].0 < r[j].0 by {
            if i > 0 {
                assert(r[i] == ri[i - 1] && r[j] == ri[j - 1]);
            } else {
                assert(r[j] == ri[j - 1]);
                if ri[j - 1] == (k, v) {
                    assert(r[j].0 == k);
                } else {
                    let m = choose|m: int| 0 <= m < tail.len() && tail[m] == ri[j - 1];
                    assert(s[m + 1] == ri[j - 1]);
                }
            }
        }
    }
}

/// Inserting a key above every present key appends the entry.
pub proof fn lemma_insert_entry_append<V>(s: Seq<(u64, V)>, k: u64, v: V)
    requires
        forall|i: int| 0 <= i < s.len() ==> (#[trigger] s[i]).0 < k,
    ensures
        insert_entry(s, k, v) == s.push((k, v)),
    decreases s.len(),
{
    if s.len() == 0 {
        assert(seq![(k, v)] =~= s.push((k, v)));
    } else {
        let tail = s.subrange(1, s.len() as int);
        assert(forall|i: int| 0 <= i < tail.len() ==> (#[trigger] tail[i]).0 < k);
        lemma_insert_entry_append(tail, k, v);
        assert(seq![s[0]] + tail.push((k, v)) =~= s.push((k, v)));
    }
}

/// The decoded form of a JSON object read as a map from item id to `V`:
/// every key must be a decimal item id and every value must decode through
/// `f`; entries come out sorted by ascending id, a repeated id keeping the
/// later entry.
pub open spec fn data_model<V>(
    entries: Seq<(Seq<char>, JsonModel)>,
    f: spec_fn(JsonModel) -> Option<V>,
) -> Option<Seq<(u64, V)>>
    decreases entries.len(),
{
    if entries.len() == 0 {
        Some(Seq::empty())
    } else {
        match data_model(entries.drop_last(), f) {
            None => None,
            Some(acc) => match (parse_u64(entries.last().0), f(entries.last().1)) {
                (Some(k), Some(v)) => Some(insert_entry(acc, k, v)),
                _ => None,
            },
        }
    }
}

/// A failure on a prefix is a failure of the whole.
pub proof fn lemma_data_model_extend_none<V>(
    entries: Seq<(Seq<char>, JsonModel)>,
    f: spec_fn(JsonModel) -> Option<V>,
    i: int,
)
    requires
        0 <= i <= entries.len(),
        data_model(entries.take(i), f) is None,
    ensures
        data_model(entries, f) is None,
    decreases entries.len() - i,
{
    if i == entries.len() {
        assert(entries.take(i) =~= entries);
    } else {
        assert(entries.take(i + 1).drop_last() =~= entries.take(i));
        lemma_data_model_extend_none(entries, f, i + 1);
    }
}

/// Whatever the key order of the source object, the decoded entries are
/// sorted by strictly ascending id.
pub proof fn lemma_data_model_sorted<V>(
    entries: Seq<(Seq<char>, JsonModel)>,
    f: spec_fn(JsonModel) -> Option<V>,
)
    ensures
        data_model(entries, f) matches Some(s) ==> sorted_strict(s),
    decreases entries.len(),
{
    if entries.len() > 0 {
        lemma_data_model_sorted(entries.drop_last(), f);
        match data_model(entries.drop_last(), f) {
            Some(acc) => match (parse_u64(entries.last().0), f(entries.last().1)) {
                (Some(k), Some(v)) => lemma_insert_entry_props(acc, k, v),
                _ => (),
            },
            None => (),
        }
    }
}

/// Encoding a sorted map and decoding the object back returns the map.
pub proof fn lemma_data_model_round_trip<V>(
    data: Seq<(u64, V)>,
    entries: Seq<(Seq<char>, JsonModel)>,
    f: spec_fn(JsonModel) -> Option<V>,
)
    requires
        sorted_strict(data),
        entries.len() == data.len(),
        forall|i: int| 0 <= i < data.len()
            ==> (#[trigger] entries[i]).0 == dec_digits(data[i].0 as nat)
                && f(entries[i].1) == Some(data[i].1),
    ensures
        data_model(entries, f) == Some(data),
    decreases data.len(),
{
    if data.len() == 0 {
        assert(entries.len() == 0);
        assert(data_model(entries, f) == Some(Seq::<(u64, V)>::empty()));
        assert(Seq::<(u64, V)>::empty() =~= data);
    } else {
        let dd = data.drop_last();
        let ed = entries.drop_last();
        assert(sorted_strict(dd));
        assert forall|i: int| 0 <= i < dd.len() implies (#[trigger] ed[i]).0 == dec_digits(
            dd[i].0 as nat,
        ) && f(ed[i].1) == Some(dd[i].1) by {
            assert(ed[i] == entries[i] && dd[i] == data[i]);
        }
        lemma_data_model_round_trip(dd, ed, f);
        let k = data.last().0;
        let v = data.last().1;
        assert(entries.last().0 == dec_digits(k as nat) && f(entries.last().1) == Some(v));
        lemma_parse_dec_digits(k);
        assert(forall|i: int| 0 <= i < dd.len() ==> (#[trigger] dd[i]).0 < k);
        lemma_insert_entry_append(dd, k, v);
        assert(dd.push((k, v)) =~= data);
    }
}

/// Sorted insertion into a vector of entries; mirrors `insert_entry`.
pub fn vec_insert_entry<V>(entries: Vec<(u64, V)>, k: u64, v: V) -> (r: Vec<(u64, V)>)
    ensures
        r@ == insert_entry(entries@, k, v),
    decreases entries.len(),
{
    let ghost s = entries@;
    if entries.len() == 0 {
        let mut r: Vec<(u64, V)> = Vec::new();
        r.push((k, v));
        proof {
            assert(r@ =~= seq![(k, v)]);
        }
        r
    } else if k < entries[0].0 {
        let mut r = entries;
        r.insert(0, (k, v));
        proof {
            assert(r@ =~= seq![(k, v)] + s);
        }
        r
    } else if k == entries[0].0 {
        let mut r = entries;
        r.remove(0);
        r.insert(0, (k, v));
        proof {
            assert(r@ =~= seq![(k, v)] + s.subrange(1, s.len() as int));
        }
        r
    } else {
        let mut rest = entries;
        let head = rest.remove(0);
        proof {
            assert(rest@ =~= s.subrange(1, s.len() as int));
        }
        let sub = vec_insert_entry(rest, k, v);
        let mut r = sub;
        r.insert(0, head);
        proof {
            assert(r@ =~= seq![head] + insert_entry(s.subrange(1, s.len() as int), k, v));
        }
        r
    }
}

} // verus!
