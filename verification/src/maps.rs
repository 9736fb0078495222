//! Walking string-keyed maps in key order.
//!
//! A `BTreeMap<String, V>` visits its entries in increasing key order, and a
//! validator over such a map reports the first entry that fails. The spec
//! function `first_failure` states that outcome over the map's view, and the
//! two lemmas below connect it to a loop over the listed entries.
use vstd::prelude::*;
use crate::checks::Outcome;
use crate::text::{str_less, str_less_asymmetric, str_less_irreflexive, str_less_transitive};

verus! {

/// `entry` is an entry of `m`: its key has the characters of a key of `m`,
/// and its value is that key's value.
pub open spec fn is_map_entry<V>(m: Map<String, V>, entry: (&String, &V)) -> bool {
    exists|key: String| m.contains_key(key) && key@ == entry.0@ && m[key] == *entry.1
}

/// `entries` holds an entry with key `key` and value `value`.
pub open spec fn lists_entry<V>(entries: Seq<(&String, &V)>, key: Seq<char>, value: V) -> bool {
    exists|i: int| 0 <= i < entries.len() && #[trigger] entries[i].0@ == key && *entries[i].1 == value
}

/// `entries` lists the entries of `m` in strictly increasing key order.
pub open spec fn lists_entries_in_order<V>(m: Map<String, V>, entries: Seq<(&String, &V)>) -> bool {
    &&& forall|i: int| 0 <= i < entries.len() ==> #[trigger] is_map_entry(m, entries[i])
    &&& forall|key: String| #[trigger] m.contains_key(key) ==> lists_entry(entries, key@, m[key])
    &&& forall|i: int, j: int|
        0 <= i < j < entries.len() ==> str_less(#[trigger] entries[i].0@, #[trigger] entries[j].0@)
}

/// Lists the entries of `m` with `BTreeMap::iter`, which visits them in
/// increasing key order; `String` keys order as their characters do. The
/// contract claims that every listed pair is an entry of the map, that every
/// entry is listed, and that the keys strictly increase. It relies on two keys
/// of a map never having the same characters, which holds because `String`
/// keys compare equal exactly when their characters do.
#[verifier::external_body]
pub(crate) fn entries_in_order<V>(m: &std::collections::BTreeMap<String, V>) -> (r: Vec<(&String, &V)>)
    ensures
        lists_entries_in_order(m@, r@),
{
    m.iter().collect()
}

/// The entry of `m` under `key` fails `check`.
pub open spec fn fails<V>(m: Map<String, V>, check: spec_fn(Seq<char>, V) -> Outcome, key: String) -> bool {
    m.contains_key(key) && check(key@, m[key]) is Err
}

/// `key` fails `check` and no failing key sorts before it.
pub open spec fn fails_first<V>(m: Map<String, V>, check: spec_fn(Seq<char>, V) -> Outcome, key: String) -> bool {
    &&& fails(m, check, key)
    &&& forall|other: String| #[trigger] fails(m, check, other) ==> !str_less(other@, key@)
}

/// The outcome of checking every entry of `m` in key order: the failure of
/// the first failing entry, or success.
pub open spec fn first_failure<V>(m: Map<String, V>, check: spec_fn(Seq<char>, V) -> Outcome) -> Outcome {
    if exists|key: String| fails_first(m, check, key) {
        let key = choose|key: String| fails_first(m, check, key);
        check(key@, m[key])
    } else {
        Ok(())
    }
}

/// When the entries before position `i` of the ordered listing pass and entry
/// `i` fails, the map's first failure is entry `i`'s.
pub proof fn first_failure_at<V>(
    m: Map<String, V>,
    check: spec_fn(Seq<char>, V) -> Outcome,
    entries: Seq<(&String, &V)>,
    i: int,
)
    requires
        lists_entries_in_order(m, entries),
        0 <= i < entries.len(),
        check(entries[i].0@, *entries[i].1) is Err,
        forall|j: int| 0 <= j < i ==> check(#[trigger] entries[j].0@, *entries[j].1) is Ok,
    ensures
        first_failure(m, check) == check(entries[i].0@, *entries[i].1),
{
    let e = entries[i];
    assert(is_map_entry(m, e));
    let k = choose|key: String| m.contains_key(key) && key@ == e.0@ && m[key] == *e.1;
    assert forall|other: String| #[trigger] fails(m, check, other) implies !str_less(other@, k@) by {
        assert(lists_entry(entries, other@, m[other]));
        let j = choose|j: int| 0 <= j < entries.len() && entries[j].0@ == other@ && *entries[j].1 == m[other];
        if j > i {
            str_less_asymmetric(entries[i].0@, entries[j].0@);
        } else if j == i {
            str_less_irreflexive(k@);
        } else {
            assert(check(entries[j].0@, *entries[j].1) is Ok);
        }
    }
    assert(fails_first(m, check, k));
    let c = choose|key: String| fails_first(m, check, key);
    assert(lists_entry(entries, c@, m[c]));
    let jc = choose|j: int| 0 <= j < entries.len() && entries[j].0@ == c@ && *entries[j].1 == m[c];
    if jc > i {
        assert(str_less(entries[i].0@, entries[jc].0@));
        assert(fails(m, check, k));
        assert(false);
    } else if jc < i {
        assert(check(entries[jc].0@, *entries[jc].1) is Ok);
        assert(false);
    }
}

/// When every listed entry passes, the map has no failure.
pub proof fn first_failure_none<V>(
    m: Map<String, V>,
    check: spec_fn(Seq<char>, V) -> Outcome,
    entries: Seq<(&String, &V)>,
)
    requires
        lists_entries_in_order(m, entries),
        forall|j: int| 0 <= j < entries.len() ==> check(#[trigger] entries[j].0@, *entries[j].1) is Ok,
    ensures
        first_failure(m, check) == Ok::<(), Seq<char>>(()),
{
    assert forall|key: String| !fails_first(m, check, key) by {
        if m.contains_key(key) {
            assert(lists_entry(entries, key@, m[key]));
            let j = choose|j: int| 0 <= j < entries.len() && entries[j].0@ == key@ && *entries[j].1 == m[key];
            assert(check(entries[j].0@, *entries[j].1) is Ok);
        }
    }
}

/// The failing keys of `m` that sort before `key`.
pub open spec fn failing_before<V>(
    m: Map<String, V>,
    check: spec_fn(Seq<char>, V) -> Outcome,
    key: String,
) -> Set<String> {
    Set::new(|other: String| fails(m, check, other) && str_less(other@, key@))
}

/// Among finitely many keys, a failing one has a first failing key at or
/// before it.
proof fn some_failure_is_first<V>(
    m: Map<String, V>,
    check: spec_fn(Seq<char>, V) -> Outcome,
    key: String,
)
    requires
        m.dom().finite(),
        fails(m, check, key),
    ensures
        exists|first: String| fails_first(m, check, first),
    decreases failing_before(m, check, key).len(),
{
    let below = failing_before(m, check, key);
    assert(below.subset_of(m.dom()));
    vstd::set_lib::lemma_len_subset(below, m.dom());
    if below.len() == 0 {
        assert forall|other: String| #[trigger] fails(m, check, other) implies !str_less(other@, key@) by {
            if str_less(other@, key@) {
                assert(below.contains(other));
            }
        }
        assert(fails_first(m, check, key));
    } else {
        let other = below.choose();
        assert(below.contains(other));
        let nearer = failing_before(m, check, other);
        assert(nearer.subset_of(below.remove(other))) by {
            assert forall|x: String| nearer.contains(x) implies below.remove(other).contains(x) by {
                str_less_transitive(x@, other@, key@);
                str_less_irreflexive(other@);
            }
        }
        vstd::set_lib::lemma_len_subset(nearer, below.remove(other));
        some_failure_is_first(m, check, other);
    }
}

/// A map with finitely many keys passes the check of its entries in key order
/// exactly when every entry passes; when it fails, it fails with the message
/// of a failing entry before which no failing entry sorts.
pub proof fn first_failure_passes_iff_all_pass<V>(
    m: Map<String, V>,
    check: spec_fn(Seq<char>, V) -> Outcome,
)
    requires
        m.dom().finite(),
    ensures
        first_failure(m, check) is Ok <==> forall|key: String| #[trigger] m.contains_key(key) ==> check(key@, m[key]) is Ok,
        first_failure(m, check) is Err ==> exists|key: String|
            #[trigger] fails_first(m, check, key) && first_failure(m, check) == check(key@, m[key]),
{
    if exists|key: String| #[trigger] m.contains_key(key) && check(key@, m[key]) is Err {
        let key = choose|key: String| #[trigger] m.contains_key(key) && check(key@, m[key]) is Err;
        assert(fails(m, check, key));
        some_failure_is_first(m, check, key);
    }
}

} // verus!
