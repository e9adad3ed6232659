//! Merging power breakdown metrics that describe the same component.
use crate::model::metrics::PowerStatusBreakdownMetric;
use crate::model::types::{Measurement, PowerStatusBreakdownMetricCategory};
use vstd::prelude::*;

verus! {

/// What identifies a breakdown metric when merging by measurement, category and name.
pub open spec fn breakdown_key(m: PowerStatusBreakdownMetric) -> (
    Measurement,
    PowerStatusBreakdownMetricCategory,
    Seq<char>,
) {
    (m.measurement, m.category, m.name@)
}

/// The sum of the values of the metrics in `s` whose key is `k`.
pub open spec fn sum_for_key(
    s: Seq<PowerStatusBreakdownMetric>,
    k: (Measurement, PowerStatusBreakdownMetricCategory, Seq<char>),
) -> int
    decreases s.len(),
{
    if s.len() == 0 {
        0
    } else {
        sum_for_key(s.drop_last(), k) + if breakdown_key(s.last()) == k {
            s.last().value as int
        } else {
            0
        }
    }
}

/// The sum of the values of the metrics in `s` named `name`.
pub open spec fn sum_for_name(s: Seq<PowerStatusBreakdownMetric>, name: Seq<char>) -> int
    decreases s.len(),
{
    if s.len() == 0 {
        0
    } else {
        sum_for_name(s.drop_last(), name) + if s.last().name@ == name {
            s.last().value as int
        } else {
            0
        }
    }
}

/// Every running sum per key, taken in input order, fits in an `i64`.
pub open spec fn key_sums_fit(s: Seq<PowerStatusBreakdownMetric>) -> bool {
    forall|i: int, k: (Measurement, PowerStatusBreakdownMetricCategory, Seq<char>)|
        0 <= i <= s.len() ==> i64::MIN <= #[trigger] sum_for_key(s.take(i), k) <= i64::MAX
}

/// Every running sum per name, taken in input order, fits in an `i64`.
pub open spec fn name_sums_fit(s: Seq<PowerStatusBreakdownMetric>) -> bool {
    forall|i: int, name: Seq<char>|
        0 <= i <= s.len() ==> i64::MIN <= #[trigger] sum_for_name(s.take(i), name) <= i64::MAX
}

/// The keys of a sequence of breakdown metrics, in order.
pub open spec fn keys_of(s: Seq<PowerStatusBreakdownMetric>) -> Seq<(Measurement, PowerStatusBreakdownMetricCategory, Seq<char>)> {
    s.map_values(|m: PowerStatusBreakdownMetric| breakdown_key(m))
}

/// The names of a sequence of breakdown metrics, in order.
pub open spec fn names_of(s: Seq<PowerStatusBreakdownMetric>) -> Seq<Seq<char>> {
    s.map_values(|m: PowerStatusBreakdownMetric| m.name@)
}

/// `r` is the merge of `s` by key: one entry per key that occurs in `s`, holding the sum of
/// the values of the entries of `s` with that key.
pub open spec fn is_merge_by_key(s: Seq<PowerStatusBreakdownMetric>, r: Seq<PowerStatusBreakdownMetric>) -> bool {
    &&& keys_of(r).no_duplicates()
    &&& keys_of(r).to_set() == keys_of(s).to_set()
    &&& forall|j: int| 0 <= j < r.len() ==> (#[trigger] r[j]).value == sum_for_key(s, breakdown_key(r[j]))
}

/// `r` is the merge of `s` by name: one entry per name that occurs in `s`, carrying the
/// measurement and category of the first entry of `s` with that name and the sum of the
/// values of all entries of `s` with that name.
pub open spec fn is_merge_by_name(s: Seq<PowerStatusBreakdownMetric>, r: Seq<PowerStatusBreakdownMetric>) -> bool {
    &&& names_of(r).no_duplicates()
    &&& names_of(r).to_set() == names_of(s).to_set()
    &&& forall|j: int|
        0 <= j < r.len() ==> {
            &&& (#[trigger] r[j]).value == sum_for_name(s, r[j].name@)
            &&& names_of(s).index_of_first(r[j].name@) matches Some(i) && s[i].measurement == r[j].measurement
                && s[i].category == r[j].category
        }
}

/// A merge by key has exactly one entry per distinct key of its input; in particular, when the
/// input keys are all distinct, nothing is merged away.
pub proof fn lemma_merge_by_key_length(s: Seq<PowerStatusBreakdownMetric>, r: Seq<PowerStatusBreakdownMetric>)
    requires
        is_merge_by_key(s, r),
    ensures
        r.len() == keys_of(s).to_set().len(),
        keys_of(s).no_duplicates() ==> r.len() == s.len(),
{
    keys_of(r).unique_seq_to_set();
    if keys_of(s).no_duplicates() {
        keys_of(s).unique_seq_to_set();
    }
}

/// A merge by name has exactly one entry per distinct name of its input; in particular, when the
/// input names are all distinct, nothing is merged away.
pub proof fn lemma_merge_by_name_length(s: Seq<PowerStatusBreakdownMetric>, r: Seq<PowerStatusBreakdownMetric>)
    requires
        is_merge_by_name(s, r),
    ensures
        r.len() == names_of(s).to_set().len(),
        names_of(s).no_duplicates() ==> r.len() == s.len(),
{
    names_of(r).unique_seq_to_set();
    if names_of(s).no_duplicates() {
        names_of(s).unique_seq_to_set();
    }
}

/// The sum of the values of all the metrics.
pub open spec fn total_value(s: Seq<PowerStatusBreakdownMetric>) -> int
    decreases s.len(),
{
    if s.len() == 0 {
        0
    } else {
        total_value(s.drop_last()) + s.last().value
    }
}

/// The sum, over the names in `names`, of the values in `s` under each name.
spec fn sum_over_names(s: Seq<PowerStatusBreakdownMetric>, names: Seq<Seq<char>>) -> int
    decreases names.len(),
{
    if names.len() == 0 {
        0
    } else {
        sum_over_names(s, names.drop_last()) + sum_for_name(s, names.last())
    }
}

/// `v` counted once for each occurrence of `x` in `names`.
spec fn occurrence_sum<K>(names: Seq<K>, x: K, v: int) -> int
    decreases names.len(),
{
    if names.len() == 0 {
        0
    } else {
        occurrence_sum(names.drop_last(), x, v) + if names.last() == x {
            v
        } else {
            0
        }
    }
}

proof fn lemma_occurrence_absent<K>(names: Seq<K>, x: K, v: int)
    requires
        !names.contains(x),
    ensures
        occurrence_sum(names, x, v) == 0,
    decreases names.len(),
{
    if names.len() > 0 {
        assert(!names.drop_last().contains(x)) by {
            if names.drop_last().contains(x) {
                let i = choose|i: int| 0 <= i < names.drop_last().len() && names.drop_last()[i] == x;
                assert(names[i] == x);
            }
        }
        lemma_occurrence_absent(names.drop_last(), x, v);
        assert(names.last() != x) by {
            if names.last() == x {
                assert(names[names.len() - 1] == x);
            }
        }
    }
}

proof fn lemma_occurrence_once<K>(names: Seq<K>, x: K, v: int)
    requires
        names.no_duplicates(),
        names.contains(x),
    ensures
        occurrence_sum(names, x, v) == v,
    decreases names.len(),
{
    let rest = names.drop_last();
    if names.last() == x {
        assert(!rest.contains(x)) by {
            if rest.contains(x) {
                let i = choose|i: int| 0 <= i < rest.len() && rest[i] == x;
                assert(names[i] == names[names.len() - 1]);
            }
        }
        lemma_occurrence_absent(rest, x, v);
    } else {
        let i = choose|i: int| 0 <= i < names.len() && names[i] == x;
        assert(i != names.len() - 1);
        assert(rest[i] == x);
        assert(rest.no_duplicates()) by {
            assert forall|a: int, b: int| 0 <= a < rest.len() && 0 <= b < rest.len() && a != b implies rest[a]
                != rest[b] by {
                assert(names[a] != names[b]);
            }
        }
        lemma_occurrence_once(rest, x, v);
    }
}

proof fn lemma_sum_over_names_push(s: Seq<PowerStatusBreakdownMetric>, m: PowerStatusBreakdownMetric, names: Seq<Seq<char>>)
    ensures
        sum_over_names(s.push(m), names) == sum_over_names(s, names) + occurrence_sum(names, m.name@, m.value as int),
    decreases names.len(),
{
    if names.len() > 0 {
        lemma_sum_over_names_push(s, m, names.drop_last());
        assert(s.push(m).drop_last() =~= s);
    }
}

proof fn lemma_sum_over_names_empty(names: Seq<Seq<char>>)
    ensures
        sum_over_names(Seq::<PowerStatusBreakdownMetric>::empty(), names) == 0,
    decreases names.len(),
{
    if names.len() > 0 {
        lemma_sum_over_names_empty(names.drop_last());
    }
}

proof fn lemma_sum_over_names_total(s: Seq<PowerStatusBreakdownMetric>, names: Seq<Seq<char>>)
    requires
        names.no_duplicates(),
        forall|i: int| 0 <= i < s.len() ==> names.contains(#[trigger] s[i].name@),
    ensures
        sum_over_names(s, names) == total_value(s),
    decreases s.len(),
{
    if s.len() == 0 {
        assert(s =~= Seq::<PowerStatusBreakdownMetric>::empty());
        lemma_sum_over_names_empty(names);
    } else {
        let rest = s.drop_last();
        let m = s.last();
        assert(rest.push(m) =~= s);
        assert forall|i: int| 0 <= i < rest.len() implies names.contains(#[trigger] rest[i].name@) by {
            assert(rest[i] == s[i]);
        }
        lemma_sum_over_names_total(rest, names);
        lemma_sum_over_names_push(rest, m, names);
        assert(names.contains(s[s.len() - 1].name@));
        lemma_occurrence_once(names, m.name@, m.value as int);
    }
}

proof fn lemma_total_of_named_sums(s: Seq<PowerStatusBreakdownMetric>, r: Seq<PowerStatusBreakdownMetric>)
    requires
        forall|j: int| 0 <= j < r.len() ==> (#[trigger] r[j]).value == sum_for_name(s, r[j].name@),
    ensures
        total_value(r) == sum_over_names(s, names_of(r)),
    decreases r.len(),
{
    if r.len() > 0 {
        let rest = r.drop_last();
        assert forall|j: int| 0 <= j < rest.len() implies (#[trigger] rest[j]).value == sum_for_name(s, rest[j].name@) by {
            assert(rest[j] == r[j]);
        }
        lemma_total_of_named_sums(s, rest);
        assert(names_of(r).drop_last() =~= names_of(rest));
        assert(r.last() == r[r.len() - 1]);
    }
}

/// Merging by name keeps the total: the values of the merge add up to the values of the input.
pub proof fn lemma_merge_by_name_keeps_total(s: Seq<PowerStatusBreakdownMetric>, r: Seq<PowerStatusBreakdownMetric>)
    requires
        is_merge_by_name(s, r),
    ensures
        total_value(r) == total_value(s),
{
    lemma_total_of_named_sums(s, r);
    assert forall|i: int| 0 <= i < s.len() implies names_of(r).contains(#[trigger] s[i].name@) by {
        assert(names_of(s)[i] == s[i].name@);
        assert(names_of(s).to_set().contains(s[i].name@));
        assert(names_of(r).to_set().contains(s[i].name@));
    }
    lemma_sum_over_names_total(s, names_of(r));
}

/// A key of a breakdown metric.
type BreakdownKey = (Measurement, PowerStatusBreakdownMetricCategory, Seq<char>);

/// The sum, over the keys in `keys`, of the values in `s` under each key.
spec fn sum_over_keys(s: Seq<PowerStatusBreakdownMetric>, keys: Seq<BreakdownKey>) -> int
    decreases keys.len(),
{
    if keys.len() == 0 {
        0
    } else {
        sum_over_keys(s, keys.drop_last()) + sum_for_key(s, keys.last())
    }
}

proof fn lemma_sum_over_keys_push(s: Seq<PowerStatusBreakdownMetric>, m: PowerStatusBreakdownMetric, keys: Seq<BreakdownKey>)
    ensures
        sum_over_keys(s.push(m), keys) == sum_over_keys(s, keys) + occurrence_sum(keys, breakdown_key(m), m.value as int),
    decreases keys.len(),
{
    if keys.len() > 0 {
        lemma_sum_over_keys_push(s, m, keys.drop_last());
        assert(s.push(m).drop_last() =~= s);
    }
}

proof fn lemma_sum_over_keys_empty(keys: Seq<BreakdownKey>)
    ensures
        sum_over_keys(Seq::<PowerStatusBreakdownMetric>::empty(), keys) == 0,
    decreases keys.len(),
{
    if keys.len() > 0 {
        lemma_sum_over_keys_empty(keys.drop_last());
    }
}

proof fn lemma_sum_over_keys_total(s: Seq<PowerStatusBreakdownMetric>, keys: Seq<BreakdownKey>)
    requires
        keys.no_duplicates(),
        forall|i: int| 0 <= i < s.len() ==> keys.contains(breakdown_key(#[trigger] s[i])),
    ensures
        sum_over_keys(s, keys) == total_value(s),
    decreases s.len(),
{
    if s.len() == 0 {
        assert(s =~= Seq::<PowerStatusBreakdownMetric>::empty());
        lemma_sum_over_keys_empty(keys);
    } else {
        let rest = s.drop_last();
        let m = s.last();
        assert(rest.push(m) =~= s);
        assert forall|i: int| 0 <= i < rest.len() implies keys.contains(breakdown_key(#[trigger] rest[i])) by {
            assert(rest[i] == s[i]);
        }
        lemma_sum_over_keys_total(rest, keys);
        lemma_sum_over_keys_push(rest, m, keys);
        assert(keys.contains(breakdown_key(s[s.len() - 1])));
        lemma_occurrence_once(keys, breakdown_key(m), m.value as int);
    }
}

proof fn lemma_total_of_keyed_sums(s: Seq<PowerStatusBreakdownMetric>, r: Seq<PowerStatusBreakdownMetric>)
    requires
        forall|j: int| 0 <= j < r.len() ==> (#[trigger] r[j]).value == sum_for_key(s, breakdown_key(r[j])),
    ensures
        total_value(r) == sum_over_keys(s, keys_of(r)),
    decreases r.len(),
{
    if r.len() > 0 {
        let rest = r.drop_last();
        assert forall|j: int| 0 <= j < rest.len() implies (#[trigger] rest[j]).value == sum_for_key(
            s,
            breakdown_key(rest[j]),
        ) by {
            assert(rest[j] == r[j]);
        }
        lemma_total_of_keyed_sums(s, rest);
        assert(keys_of(r).drop_last() =~= keys_of(rest));
        assert(r.last() == r[r.len() - 1]);
    }
}

/// Merging by key keeps the total: the values of the merge add up to the values of the input.
pub proof fn lemma_merge_by_key_keeps_total(s: Seq<PowerStatusBreakdownMetric>, r: Seq<PowerStatusBreakdownMetric>)
    requires
        is_merge_by_key(s, r),
    ensures
        total_value(r) == total_value(s),
{
    lemma_total_of_keyed_sums(s, r);
    assert forall|i: int| 0 <= i < s.len() implies keys_of(r).contains(breakdown_key(#[trigger] s[i])) by {
        assert(keys_of(s)[i] == breakdown_key(s[i]));
        assert(keys_of(s).to_set().contains(breakdown_key(s[i])));
        assert(keys_of(r).to_set().contains(breakdown_key(s[i])));
    }
    lemma_sum_over_keys_total(s, keys_of(r));
}

/// The share of `m` in the sum for key `k`.
spec fn key_share(m: PowerStatusBreakdownMetric, k: BreakdownKey) -> int {
    if breakdown_key(m) == k {
        m.value as int
    } else {
        0
    }
}

proof fn lemma_sum_for_key_remove(s: Seq<PowerStatusBreakdownMetric>, i: int, k: BreakdownKey)
    requires
        0 <= i < s.len(),
    ensures
        sum_for_key(s, k) == sum_for_key(s.remove(i), k) + key_share(s[i], k),
    decreases s.len(),
{
    if i == s.len() - 1 {
        assert(s.remove(i) =~= s.drop_last());
    } else {
        let q = s.drop_last();
        lemma_sum_for_key_remove(q, i, k);
        assert(s.remove(i).drop_last() =~= q.remove(i));
        assert(s.remove(i).last() == s.last());
        assert(q[i] == s[i]);
    }
}

proof fn lemma_sum_for_key_reordered(s: Seq<PowerStatusBreakdownMetric>, p: Seq<PowerStatusBreakdownMetric>, k: BreakdownKey)
    requires
        s.to_multiset() == p.to_multiset(),
    ensures
        sum_for_key(s, k) == sum_for_key(p, k),
    decreases s.len(),
{
    broadcast use vstd::seq_lib::group_to_multiset_ensures, vstd::multiset::group_multiset_axioms;

    if s.len() == 0 {
        assert(p.to_multiset().len() == 0);
        assert(p.len() == 0);
    } else {
        let m = s.last();
        let rest = s.drop_last();
        assert(rest.push(m) =~= s);
        assert(s.to_multiset() =~= rest.to_multiset().insert(m));
        assert(p.to_multiset().count(m) > 0);
        assert(p.contains(m));
        let i = choose|i: int| 0 <= i < p.len() && p[i] == m;
        assert(p.remove(i).to_multiset() == p.to_multiset().remove(m));
        assert(rest.to_multiset().insert(m).remove(m) =~= rest.to_multiset());
        lemma_sum_for_key_reordered(rest, p.remove(i), k);
        lemma_sum_for_key_remove(p, i, k);
    }
}

proof fn lemma_sum_for_key_absent(s: Seq<PowerStatusBreakdownMetric>, k: BreakdownKey)
    requires
        forall|i: int| 0 <= i < s.len() ==> breakdown_key(#[trigger] s[i]) != k,
    ensures
        sum_for_key(s, k) == 0,
    decreases s.len(),
{
    if s.len() > 0 {
        let rest = s.drop_last();
        assert forall|i: int| 0 <= i < rest.len() implies breakdown_key(#[trigger] rest[i]) != k by {
            assert(rest[i] == s[i]);
        }
        lemma_sum_for_key_absent(rest, k);
        assert(s.last() == s[s.len() - 1]);
    }
}

proof fn lemma_sum_for_key_unique(s: Seq<PowerStatusBreakdownMetric>, i: int)
    requires
        keys_of(s).no_duplicates(),
        0 <= i < s.len(),
    ensures
        sum_for_key(s, breakdown_key(s[i])) == s[i].value,
    decreases s.len(),
{
    let k = breakdown_key(s[i]);
    let rest = s.drop_last();
    if i == s.len() - 1 {
        assert forall|j: int| 0 <= j < rest.len() implies breakdown_key(#[trigger] rest[j]) != k by {
            assert(rest[j] == s[j]);
            assert(keys_of(s)[j] != keys_of(s)[i]);
        }
        lemma_sum_for_key_absent(rest, k);
    } else {
        assert(keys_of(rest).no_duplicates()) by {
            assert forall|a: int, b: int| 0 <= a < keys_of(rest).len() && 0 <= b < keys_of(rest).len() && a != b implies keys_of(rest)[a]
                != keys_of(rest)[b] by {
                assert(keys_of(s)[a] != keys_of(s)[b]);
            }
        }
        assert(rest[i] == s[i]);
        lemma_sum_for_key_unique(rest, i);
        assert(keys_of(s)[s.len() - 1] != keys_of(s)[i]);
    }
}

/// Whether `a` and `b` hold the same entries, taken by key and value: as many of them, and each
/// entry of one has an entry of the other with the same key and value.
pub open spec fn same_entries(a: Seq<PowerStatusBreakdownMetric>, b: Seq<PowerStatusBreakdownMetric>) -> bool {
    &&& a.len() == b.len()
    &&& forall|j: int|
        0 <= j < b.len() ==> exists|i: int|
            0 <= i < a.len() && breakdown_key(#[trigger] a[i]) == breakdown_key(#[trigger] b[j]) && a[i].value == b[j].value
    &&& forall|i: int|
        0 <= i < a.len() ==> exists|j: int|
            0 <= j < b.len() && breakdown_key(#[trigger] a[i]) == breakdown_key(#[trigger] b[j]) && a[i].value == b[j].value
}

/// Two merges by key whose values agree key by key, over the same keys, hold the same entries.
proof fn lemma_merges_match(
    r: Seq<PowerStatusBreakdownMetric>,
    q: Seq<PowerStatusBreakdownMetric>,
)
    requires
        keys_of(r).no_duplicates(),
        keys_of(q).no_duplicates(),
        keys_of(r).to_set() == keys_of(q).to_set(),
        forall|i: int, j: int|
            0 <= i < r.len() && 0 <= j < q.len() && breakdown_key(r[i]) == breakdown_key(q[j]) ==> #[trigger] r[i].value
                == #[trigger] q[j].value,
    ensures
        same_entries(r, q),
{
    keys_of(r).unique_seq_to_set();
    keys_of(q).unique_seq_to_set();
    assert forall|j: int| 0 <= j < q.len() implies exists|i: int|
        0 <= i < r.len() && breakdown_key(#[trigger] r[i]) == breakdown_key(#[trigger] q[j]) && r[i].value == q[j].value by {
        assert(keys_of(q)[j] == breakdown_key(q[j]));
        assert(keys_of(q).to_set().contains(breakdown_key(q[j])));
        assert(keys_of(r).contains(breakdown_key(q[j])));
        let i = choose|i: int| 0 <= i < keys_of(r).len() && keys_of(r)[i] == breakdown_key(q[j]);
        assert(breakdown_key(r[i]) == breakdown_key(q[j]));
    }
    assert forall|i: int| 0 <= i < r.len() implies exists|j: int|
        0 <= j < q.len() && breakdown_key(#[trigger] r[i]) == breakdown_key(#[trigger] q[j]) && r[i].value == q[j].value by {
        assert(keys_of(r)[i] == breakdown_key(r[i]));
        assert(keys_of(r).to_set().contains(breakdown_key(r[i])));
        assert(keys_of(q).contains(breakdown_key(r[i])));
        let j = choose|j: int| 0 <= j < keys_of(q).len() && keys_of(q)[j] == breakdown_key(r[i]);
        assert(breakdown_key(q[j]) == breakdown_key(r[i]));
    }
}

/// Merging by key twice gives what merging once gives: the second merge holds the same entries,
/// by key and value, as the first.
pub proof fn lemma_merge_by_key_idempotent(
    s: Seq<PowerStatusBreakdownMetric>,
    r: Seq<PowerStatusBreakdownMetric>,
    r2: Seq<PowerStatusBreakdownMetric>,
)
    requires
        is_merge_by_key(s, r),
        is_merge_by_key(r, r2),
    ensures
        same_entries(r, r2),
{
    assert forall|i: int, j: int|
        0 <= i < r.len() && 0 <= j < r2.len() && breakdown_key(r[i]) == breakdown_key(r2[j]) implies #[trigger] r[i].value
            == #[trigger] r2[j].value by {
        lemma_sum_for_key_unique(r, i);
    }
    lemma_merges_match(r, r2);
}

/// The order of the input does not matter: merging any reordering of `s` gives the same entries,
/// by key and value, as merging `s`.
pub proof fn lemma_merge_by_key_ignores_order(
    s: Seq<PowerStatusBreakdownMetric>,
    p: Seq<PowerStatusBreakdownMetric>,
    r: Seq<PowerStatusBreakdownMetric>,
    rp: Seq<PowerStatusBreakdownMetric>,
)
    requires
        s.to_multiset() == p.to_multiset(),
        is_merge_by_key(s, r),
        is_merge_by_key(p, rp),
    ensures
        same_entries(r, rp),
{
    broadcast use vstd::seq_lib::group_to_multiset_ensures;

    assert(keys_of(s).to_set() =~= keys_of(p).to_set()) by {
        assert forall|k: BreakdownKey| keys_of(s).to_set().contains(k) implies keys_of(p).to_set().contains(k) by {
            let i = choose|i: int| 0 <= i < keys_of(s).len() && keys_of(s)[i] == k;
            assert(s.contains(s[i]));
            assert(s.to_multiset().count(s[i]) > 0);
            assert(p.contains(s[i]));
            let j = choose|j: int| 0 <= j < p.len() && p[j] == s[i];
            assert(keys_of(p)[j] == k);
        }
        assert forall|k: BreakdownKey| keys_of(p).to_set().contains(k) implies keys_of(s).to_set().contains(k) by {
            let j = choose|j: int| 0 <= j < keys_of(p).len() && keys_of(p)[j] == k;
            assert(p.contains(p[j]));
            assert(p.to_multiset().count(p[j]) > 0);
            assert(s.contains(p[j]));
            let i = choose|i: int| 0 <= i < s.len() && s[i] == p[j];
            assert(keys_of(s)[i] == k);
        }
    }
    assert forall|i: int, j: int|
        0 <= i < r.len() && 0 <= j < rp.len() && breakdown_key(r[i]) == breakdown_key(rp[j]) implies #[trigger] r[i].value
            == #[trigger] rp[j].value by {
        lemma_sum_for_key_reordered(s, p, breakdown_key(r[i]));
    }
    lemma_merges_match(r, rp);
}

proof fn lemma_sum_for_key_step(s: Seq<PowerStatusBreakdownMetric>, i: int, k: (Measurement, PowerStatusBreakdownMetricCategory, Seq<char>))
    requires
        0 <= i < s.len(),
    ensures
        sum_for_key(s.take(i + 1), k) == sum_for_key(s.take(i), k) + if breakdown_key(s[i]) == k {
            s[i].value as int
        } else {
            0
        },
{
    assert(s.take(i + 1).drop_last() =~= s.take(i));
}

proof fn lemma_sum_for_name_step(s: Seq<PowerStatusBreakdownMetric>, i: int, name: Seq<char>)
    requires
        0 <= i < s.len(),
    ensures
        sum_for_name(s.take(i + 1), name) == sum_for_name(s.take(i), name) + if s[i].name@ == name {
            s[i].value as int
        } else {
            0
        },
{
    assert(s.take(i + 1).drop_last() =~= s.take(i));
}

/// The state of merging by key after the first `idx` entries of `s` have been folded into `out`;
/// `first[j]` is the index in `s` of an entry with the key of `out[j]`.
#[verifier::opaque]
spec fn merged_by_key_upto(
    s: Seq<PowerStatusBreakdownMetric>,
    idx: int,
    out: Seq<PowerStatusBreakdownMetric>,
    first: Seq<int>,
) -> bool {
    &&& 0 <= idx <= s.len()
    &&& first.len() == out.len()
    &&& forall|i: int, j: int|
        0 <= i < j < out.len() ==> breakdown_key(#[trigger] out[i]) != breakdown_key(#[trigger] out[j])
    &&& forall|j: int|
        0 <= j < out.len() ==> 0 <= #[trigger] first[j] < idx && breakdown_key(s[first[j]]) == breakdown_key(out[j])
    &&& forall|j: int| 0 <= j < out.len() ==> (#[trigger] out[j]).value == sum_for_key(s.take(idx), breakdown_key(out[j]))
    &&& forall|k: (Measurement, PowerStatusBreakdownMetricCategory, Seq<char>)|
        (forall|j: int| 0 <= j < out.len() ==> breakdown_key(#[trigger] out[j]) != k) ==> (#[trigger] sum_for_key(s.take(idx), k)
            == 0 && forall|i: int| 0 <= i < idx ==> breakdown_key(#[trigger] s[i]) != k)
}

proof fn lemma_key_merge_start(s: Seq<PowerStatusBreakdownMetric>)
    ensures
        merged_by_key_upto(s, 0, Seq::empty(), Seq::empty()),
{
    reveal(merged_by_key_upto);
    assert forall|k: (Measurement, PowerStatusBreakdownMetricCategory, Seq<char>)| #[trigger] sum_for_key(s.take(0), k) == 0 by {
        assert(s.take(0).len() == 0);
    }
}

proof fn lemma_key_merge_value(
    s: Seq<PowerStatusBreakdownMetric>,
    idx: int,
    out: Seq<PowerStatusBreakdownMetric>,
    first: Seq<int>,
    j: int,
)
    requires
        merged_by_key_upto(s, idx, out, first),
        0 <= j < out.len(),
        idx < s.len(),
        breakdown_key(out[j]) == breakdown_key(s[idx]),
    ensures
        out[j].value + s[idx].value == sum_for_key(s.take(idx + 1), breakdown_key(s[idx])),
{
    reveal(merged_by_key_upto);
    lemma_sum_for_key_step(s, idx, breakdown_key(s[idx]));
}

proof fn lemma_key_merge_absent(s: Seq<PowerStatusBreakdownMetric>, idx: int, out: Seq<PowerStatusBreakdownMetric>, first: Seq<int>)
    requires
        merged_by_key_upto(s, idx, out, first),
        idx < s.len(),
        forall|j: int| 0 <= j < out.len() ==> breakdown_key(#[trigger] out[j]) != breakdown_key(s[idx]),
    ensures
        s[idx].value == sum_for_key(s.take(idx + 1), breakdown_key(s[idx])),
{
    reveal(merged_by_key_upto);
    lemma_sum_for_key_step(s, idx, breakdown_key(s[idx]));
}

#[verifier::spinoff_prover]
#[verifier::rlimit(60)]
proof fn lemma_key_merge_found(
    s: Seq<PowerStatusBreakdownMetric>,
    idx: int,
    out: Seq<PowerStatusBreakdownMetric>,
    first: Seq<int>,
    j: int,
    entry: PowerStatusBreakdownMetric,
)
    requires
        merged_by_key_upto(s, idx, out, first),
        idx < s.len(),
        0 <= j < out.len(),
        breakdown_key(out[j]) == breakdown_key(s[idx]),
        breakdown_key(entry) == breakdown_key(s[idx]),
        entry.value == out[j].value + s[idx].value,
    ensures
        merged_by_key_upto(s, idx + 1, out.update(j, entry), first),
{
    reveal(merged_by_key_upto);
    let new_out = out.update(j, entry);
    assert forall|k: (Measurement, PowerStatusBreakdownMetricCategory, Seq<char>)| true implies #[trigger] sum_for_key(s.take(idx + 1), k)
        == sum_for_key(s.take(idx), k) + if breakdown_key(s[idx]) == k {
        s[idx].value as int
    } else {
        0
    } by {
        lemma_sum_for_key_step(s, idx, k);
    }
    assert forall|j2: int| 0 <= j2 < new_out.len() implies breakdown_key(#[trigger] new_out[j2]) == breakdown_key(out[j2]) by {}
    assert forall|i: int, j2: int| 0 <= i < j2 < new_out.len() implies breakdown_key(#[trigger] new_out[i])
        != breakdown_key(#[trigger] new_out[j2]) by {
        assert(breakdown_key(new_out[i]) == breakdown_key(out[i]));
        assert(breakdown_key(new_out[j2]) == breakdown_key(out[j2]));
    }
    assert forall|j2: int| 0 <= j2 < new_out.len() implies (#[trigger] new_out[j2]).value == sum_for_key(
        s.take(idx + 1),
        breakdown_key(new_out[j2]),
    ) by {
        assert(breakdown_key(new_out[j2]) == breakdown_key(out[j2]));
        if j2 != j {
            assert(breakdown_key(out[j2]) != breakdown_key(out[j]));
        }
    }
    assert forall|k2: (Measurement, PowerStatusBreakdownMetricCategory, Seq<char>)|
        (forall|j2: int| 0 <= j2 < new_out.len() ==> breakdown_key(#[trigger] new_out[j2]) != k2) implies (#[trigger] sum_for_key(
        s.take(idx + 1),
        k2,
    ) == 0 && forall|i: int| 0 <= i < idx + 1 ==> breakdown_key(#[trigger] s[i]) != k2) by {
        assert forall|j2: int| 0 <= j2 < out.len() implies breakdown_key(#[trigger] out[j2]) != k2 by {
            assert(breakdown_key(new_out[j2]) == breakdown_key(out[j2]));
        }
        assert(breakdown_key(new_out[j]) != k2);
        assert(breakdown_key(s[idx]) != k2);
        assert(sum_for_key(s.take(idx), k2) == 0);
    }
}

#[verifier::spinoff_prover]
#[verifier::rlimit(60)]
proof fn lemma_key_merge_new(
    s: Seq<PowerStatusBreakdownMetric>,
    idx: int,
    out: Seq<PowerStatusBreakdownMetric>,
    first: Seq<int>,
    entry: PowerStatusBreakdownMetric,
)
    requires
        merged_by_key_upto(s, idx, out, first),
        idx < s.len(),
        forall|j: int| 0 <= j < out.len() ==> breakdown_key(#[trigger] out[j]) != breakdown_key(s[idx]),
        breakdown_key(entry) == breakdown_key(s[idx]),
        entry.value == s[idx].value,
    ensures
        merged_by_key_upto(s, idx + 1, out.push(entry), first.push(idx)),
{
    reveal(merged_by_key_upto);
    let new_out = out.push(entry);
    let new_first = first.push(idx);
    assert forall|k: (Measurement, PowerStatusBreakdownMetricCategory, Seq<char>)| true implies #[trigger] sum_for_key(s.take(idx + 1), k)
        == sum_for_key(s.take(idx), k) + if breakdown_key(s[idx]) == k {
        s[idx].value as int
    } else {
        0
    } by {
        lemma_sum_for_key_step(s, idx, k);
    }
    assert forall|j2: int| 0 <= j2 < new_out.len() implies 0 <= #[trigger] new_first[j2] < idx + 1 && breakdown_key(
        s[new_first[j2]],
    ) == breakdown_key(new_out[j2]) by {
        if j2 < out.len() {
            assert(new_out[j2] == out[j2]);
        }
    }
    assert forall|j2: int| 0 <= j2 < new_out.len() implies (#[trigger] new_out[j2]).value == sum_for_key(
        s.take(idx + 1),
        breakdown_key(new_out[j2]),
    ) by {
        if j2 < out.len() {
            assert(new_out[j2] == out[j2]);
        }
    }
    assert forall|k2: (Measurement, PowerStatusBreakdownMetricCategory, Seq<char>)|
        (forall|j2: int| 0 <= j2 < new_out.len() ==> breakdown_key(#[trigger] new_out[j2]) != k2) implies (#[trigger] sum_for_key(
        s.take(idx + 1),
        k2,
    ) == 0 && forall|i: int| 0 <= i < idx + 1 ==> breakdown_key(#[trigger] s[i]) != k2) by {
        assert forall|j2: int| 0 <= j2 < out.len() implies breakdown_key(#[trigger] out[j2]) != k2 by {
            assert(new_out[j2] == out[j2]);
        }
        assert(breakdown_key(new_out[out.len() as int]) != k2);
    }
}

proof fn lemma_key_merge_done(s: Seq<PowerStatusBreakdownMetric>, out: Seq<PowerStatusBreakdownMetric>, first: Seq<int>)
    requires
        merged_by_key_upto(s, s.len() as int, out, first),
    ensures
        is_merge_by_key(s, out),
{
    reveal(merged_by_key_upto);
    assert(s.take(s.len() as int) =~= s);
    let ks = keys_of(s);
    let kr = keys_of(out);
    assert forall|a: int, b: int| 0 <= a < kr.len() && 0 <= b < kr.len() && a != b implies kr[a] != kr[b] by {
        if a < b {
            assert(breakdown_key(out[a]) != breakdown_key(out[b]));
        } else {
            assert(breakdown_key(out[b]) != breakdown_key(out[a]));
        }
    }
    assert forall|k: (Measurement, PowerStatusBreakdownMetricCategory, Seq<char>)| kr.contains(k) <==> ks.contains(k) by {
        if kr.contains(k) {
            let j = choose|j: int| 0 <= j < kr.len() && kr[j] == k;
            assert(ks[first[j]] == k);
        }
        if ks.contains(k) {
            let i = choose|i: int| 0 <= i < ks.len() && ks[i] == k;
            if !kr.contains(k) {
                assert forall|j: int| 0 <= j < out.len() implies breakdown_key(#[trigger] out[j]) != k by {
                    assert(kr[j] == breakdown_key(out[j]));
                }
                assert(sum_for_key(s.take(s.len() as int), k) == 0);
                assert(breakdown_key(s[i]) != k);
            }
        }
    }
    assert(kr.to_set() =~= ks.to_set());
}

/// The state of merging by name after the first `idx` entries of `s` have been folded into `out`;
/// `first[j]` is the index in `s` of the first entry named like `out[j]`.
#[verifier::opaque]
spec fn merged_by_name_upto(
    s: Seq<PowerStatusBreakdownMetric>,
    idx: int,
    out: Seq<PowerStatusBreakdownMetric>,
    first: Seq<int>,
) -> bool {
    &&& 0 <= idx <= s.len()
    &&& first.len() == out.len()
    &&& forall|i: int, j: int| 0 <= i < j < out.len() ==> (#[trigger] out[i]).name@ != (#[trigger] out[j]).name@
    &&& forall|j: int|
        0 <= j < out.len() ==> {
            &&& 0 <= #[trigger] first[j] < idx
            &&& s[first[j]].name@ == out[j].name@
            &&& s[first[j]].measurement == out[j].measurement
            &&& s[first[j]].category == out[j].category
            &&& forall|i2: int| 0 <= i2 < first[j] ==> (#[trigger] s[i2]).name@ != out[j].name@
        }
    &&& forall|j: int| 0 <= j < out.len() ==> (#[trigger] out[j]).value == sum_for_name(s.take(idx), out[j].name@)
    &&& forall|name: Seq<char>|
        (forall|j: int| 0 <= j < out.len() ==> (#[trigger] out[j]).name@ != name) ==> (#[trigger] sum_for_name(s.take(idx), name)
            == 0 && forall|i: int| 0 <= i < idx ==> (#[trigger] s[i]).name@ != name)
}

proof fn lemma_name_merge_start(s: Seq<PowerStatusBreakdownMetric>)
    ensures
        merged_by_name_upto(s, 0, Seq::empty(), Seq::empty()),
{
    reveal(merged_by_name_upto);
    assert forall|name: Seq<char>| #[trigger] sum_for_name(s.take(0), name) == 0 by {
        assert(s.take(0).len() == 0);
    }
}

proof fn lemma_name_merge_value(
    s: Seq<PowerStatusBreakdownMetric>,
    idx: int,
    out: Seq<PowerStatusBreakdownMetric>,
    first: Seq<int>,
    j: int,
)
    requires
        merged_by_name_upto(s, idx, out, first),
        0 <= j < out.len(),
        idx < s.len(),
        out[j].name@ == s[idx].name@,
    ensures
        out[j].value + s[idx].value == sum_for_name(s.take(idx + 1), s[idx].name@),
{
    reveal(merged_by_name_upto);
    lemma_sum_for_name_step(s, idx, s[idx].name@);
}

proof fn lemma_name_merge_absent(s: Seq<PowerStatusBreakdownMetric>, idx: int, out: Seq<PowerStatusBreakdownMetric>, first: Seq<int>)
    requires
        merged_by_name_upto(s, idx, out, first),
        idx < s.len(),
        forall|j: int| 0 <= j < out.len() ==> (#[trigger] out[j]).name@ != s[idx].name@,
    ensures
        s[idx].value == sum_for_name(s.take(idx + 1), s[idx].name@),
{
    reveal(merged_by_name_upto);
    lemma_sum_for_name_step(s, idx, s[idx].name@);
}

#[verifier::spinoff_prover]
#[verifier::rlimit(60)]
proof fn lemma_name_merge_found(
    s: Seq<PowerStatusBreakdownMetric>,
    idx: int,
    out: Seq<PowerStatusBreakdownMetric>,
    first: Seq<int>,
    j: int,
    entry: PowerStatusBreakdownMetric,
)
    requires
        merged_by_name_upto(s, idx, out, first),
        idx < s.len(),
        0 <= j < out.len(),
        out[j].name@ == s[idx].name@,
        entry.name@ == out[j].name@,
        entry.measurement == out[j].measurement,
        entry.category == out[j].category,
        entry.value == out[j].value + s[idx].value,
    ensures
        merged_by_name_upto(s, idx + 1, out.update(j, entry), first),
{
    reveal(merged_by_name_upto);
    let new_out = out.update(j, entry);
    assert forall|name: Seq<char>| true implies #[trigger] sum_for_name(s.take(idx + 1), name) == sum_for_name(s.take(idx), name)
        + if s[idx].name@ == name {
        s[idx].value as int
    } else {
        0
    } by {
        lemma_sum_for_name_step(s, idx, name);
    }
    assert forall|j2: int| 0 <= j2 < new_out.len() implies (#[trigger] new_out[j2]).name@ == out[j2].name@
        && new_out[j2].measurement == out[j2].measurement && new_out[j2].category == out[j2].category by {}
    assert forall|i: int, j2: int| 0 <= i < j2 < new_out.len() implies (#[trigger] new_out[i]).name@
        != (#[trigger] new_out[j2]).name@ by {
        assert(new_out[i].name@ == out[i].name@);
        assert(new_out[j2].name@ == out[j2].name@);
    }
    assert forall|j2: int| 0 <= j2 < new_out.len() implies (#[trigger] new_out[j2]).value == sum_for_name(
        s.take(idx + 1),
        new_out[j2].name@,
    ) by {
        if j2 != j {
            assert(out[j2].name@ != out[j].name@);
        }
    }
    assert forall|name: Seq<char>|
        (forall|j2: int| 0 <= j2 < new_out.len() ==> (#[trigger] new_out[j2]).name@ != name) implies (#[trigger] sum_for_name(
        s.take(idx + 1),
        name,
    ) == 0 && forall|i: int| 0 <= i < idx + 1 ==> (#[trigger] s[i]).name@ != name) by {
        assert forall|j2: int| 0 <= j2 < out.len() implies (#[trigger] out[j2]).name@ != name by {
            assert(new_out[j2].name@ == out[j2].name@);
        }
        assert(new_out[j].name@ != name);
        assert(s[idx].name@ != name);
        assert(sum_for_name(s.take(idx), name) == 0);
    }
}

#[verifier::spinoff_prover]
#[verifier::rlimit(60)]
proof fn lemma_name_merge_new(
    s: Seq<PowerStatusBreakdownMetric>,
    idx: int,
    out: Seq<PowerStatusBreakdownMetric>,
    first: Seq<int>,
    entry: PowerStatusBreakdownMetric,
)
    requires
        merged_by_name_upto(s, idx, out, first),
        idx < s.len(),
        forall|j: int| 0 <= j < out.len() ==> (#[trigger] out[j]).name@ != s[idx].name@,
        entry.name@ == s[idx].name@,
        entry.measurement == s[idx].measurement,
        entry.category == s[idx].category,
        entry.value == s[idx].value,
    ensures
        merged_by_name_upto(s, idx + 1, out.push(entry), first.push(idx)),
{
    reveal(merged_by_name_upto);
    let new_out = out.push(entry);
    let new_first = first.push(idx);
    assert forall|name: Seq<char>| true implies #[trigger] sum_for_name(s.take(idx + 1), name) == sum_for_name(s.take(idx), name)
        + if s[idx].name@ == name {
        s[idx].value as int
    } else {
        0
    } by {
        lemma_sum_for_name_step(s, idx, name);
    }
    assert(sum_for_name(s.take(idx), s[idx].name@) == 0);
    assert(forall|i: int| 0 <= i < idx ==> (#[trigger] s[i]).name@ != s[idx].name@);
    assert forall|j2: int| 0 <= j2 < new_out.len() implies {
        &&& 0 <= #[trigger] new_first[j2] < idx + 1
        &&& s[new_first[j2]].name@ == new_out[j2].name@
        &&& s[new_first[j2]].measurement == new_out[j2].measurement
        &&& s[new_first[j2]].category == new_out[j2].category
        &&& forall|i2: int| 0 <= i2 < new_first[j2] ==> (#[trigger] s[i2]).name@ != new_out[j2].name@
    } by {
        if j2 < out.len() {
            assert(new_out[j2] == out[j2]);
        }
    }
    assert forall|j2: int| 0 <= j2 < new_out.len() implies (#[trigger] new_out[j2]).value == sum_for_name(
        s.take(idx + 1),
        new_out[j2].name@,
    ) by {
        if j2 < out.len() {
            assert(new_out[j2] == out[j2]);
        }
    }
    assert forall|name: Seq<char>|
        (forall|j2: int| 0 <= j2 < new_out.len() ==> (#[trigger] new_out[j2]).name@ != name) implies (#[trigger] sum_for_name(
        s.take(idx + 1),
        name,
    ) == 0 && forall|i: int| 0 <= i < idx + 1 ==> (#[trigger] s[i]).name@ != name) by {
        assert forall|j2: int| 0 <= j2 < out.len() implies (#[trigger] out[j2]).name@ != name by {
            assert(new_out[j2] == out[j2]);
        }
        assert(new_out[out.len() as int].name@ != name);
    }
}

proof fn lemma_name_merge_done(s: Seq<PowerStatusBreakdownMetric>, out: Seq<PowerStatusBreakdownMetric>, first: Seq<int>)
    requires
        merged_by_name_upto(s, s.len() as int, out, first),
    ensures
        is_merge_by_name(s, out),
{
    reveal(merged_by_name_upto);
    assert(s.take(s.len() as int) =~= s);
    let ns = names_of(s);
    let nr = names_of(out);
    assert forall|a: int, b: int| 0 <= a < nr.len() && 0 <= b < nr.len() && a != b implies nr[a] != nr[b] by {
        if a < b {
            assert(out[a].name@ != out[b].name@);
        } else {
            assert(out[b].name@ != out[a].name@);
        }
    }
    assert forall|name: Seq<char>| nr.contains(name) <==> ns.contains(name) by {
        if nr.contains(name) {
            let j = choose|j: int| 0 <= j < nr.len() && nr[j] == name;
            assert(ns[first[j]] == name);
        }
        if ns.contains(name) {
            let i = choose|i: int| 0 <= i < ns.len() && ns[i] == name;
            if !nr.contains(name) {
                assert forall|j: int| 0 <= j < out.len() implies (#[trigger] out[j]).name@ != name by {
                    assert(nr[j] == out[j].name@);
                }
                assert(sum_for_name(s.take(s.len() as int), name) == 0);
                assert(s[i].name@ != name);
            }
        }
    }
    assert(nr.to_set() =~= ns.to_set());
    assert forall|j: int| 0 <= j < out.len() implies names_of(s).index_of_first((#[trigger] out[j]).name@) matches Some(i)
        && s[i].measurement == out[j].measurement && s[i].category == out[j].category by {
        let f = first[j];
        ns.index_of_first_ensures(out[j].name@);
        assert(ns[f] == out[j].name@);
        match ns.index_of_first(out[j].name@) {
            Some(i) => {
                if i < f {
                    assert(s[i].name@ != out[j].name@);
                } else if f < i {
                    assert(ns[f] != out[j].name@);
                }
            },
            None => {
                assert(ns.contains(out[j].name@));
            },
        }
    }
}

/// Index of the merged entry carrying the key of `m`, if any.
fn find_key(out: &Vec<PowerStatusBreakdownMetric>, m: &PowerStatusBreakdownMetric) -> (r: Option<usize>)
    ensures
        match r {
            Some(j) => j < out@.len() && breakdown_key(out@[j as int]) == breakdown_key(*m),
            None => forall|j: int| 0 <= j < out@.len() ==> breakdown_key(#[trigger] out@[j]) != breakdown_key(*m),
        },
{
    let mut j: usize = 0;
    while j < out.len()
        invariant
            j <= out@.len(),
            forall|j2: int| 0 <= j2 < j ==> breakdown_key(#[trigger] out@[j2]) != breakdown_key(*m),
        decreases out@.len() - j,
    {
        let e = &out[j];
        if e.measurement == m.measurement && e.category == m.category && e.name == m.name {
            return Some(j);
        }
        j += 1;
    }
    None
}

/// Index of the merged entry named like `m`, if any.
fn find_name(out: &Vec<PowerStatusBreakdownMetric>, m: &PowerStatusBreakdownMetric) -> (r: Option<usize>)
    ensures
        match r {
            Some(j) => j < out@.len() && out@[j as int].name@ == m.name@,
            None => forall|j: int| 0 <= j < out@.len() ==> (#[trigger] out@[j]).name@ != m.name@,
        },
{
    let mut j: usize = 0;
    while j < out.len()
        invariant
            j <= out@.len(),
            forall|j2: int| 0 <= j2 < j ==> (#[trigger] out@[j2]).name@ != m.name@,
        decreases out@.len() - j,
    {
        if out[j].name == m.name {
            return Some(j);
        }
        j += 1;
    }
    None
}

/// Merges breakdown metrics that share measurement, category and name, summing their values.
/// Entries come out in the order in which their key first occurs.
pub fn merge_same_name_power_status_breakdown_metrics(metrics: Vec<PowerStatusBreakdownMetric>) -> (r: Vec<
    PowerStatusBreakdownMetric,
>)
    requires
        key_sums_fit(metrics@),
    ensures
        is_merge_by_key(metrics@, r@),
{
    let ghost s = metrics@;
    let mut out: Vec<PowerStatusBreakdownMetric> = Vec::new();
    let mut idx: usize = 0;
    let ghost mut first: Seq<int> = Seq::empty();
    proof {
        lemma_key_merge_start(s);
    }
    while idx < metrics.len()
        invariant
            s == metrics@,
            key_sums_fit(s),
            idx <= s.len(),
            merged_by_key_upto(s, idx as int, out@, first),
        decreases s.len() - idx,
    {
        let m = &metrics[idx];
        let ghost k = breakdown_key(*m);
        assert(i64::MIN <= sum_for_key(s.take(idx + 1), k) <= i64::MAX);
        match find_key(&out, m) {
            Some(j) => {
                proof {
                    lemma_key_merge_value(s, idx as int, out@, first, j as int);
                }
                let merged = PowerStatusBreakdownMetric {
                    measurement: out[j].measurement,
                    category: out[j].category,
                    name: out[j].name.clone(),
                    value: out[j].value + m.value,
                };
                proof {
                    lemma_key_merge_found(s, idx as int, out@, first, j as int, merged);
                }
                out.set(j, merged);
            },
            None => {
                proof {
                    lemma_key_merge_absent(s, idx as int, out@, first);
                }
                let fresh = PowerStatusBreakdownMetric {
                    measurement: m.measurement,
                    category: m.category,
                    name: m.name.clone(),
                    value: m.value,
                };
                proof {
                    lemma_key_merge_new(s, idx as int, out@, first, fresh);
                    first = first.push(idx as int);
                }
                out.push(fresh);
            },
        }
        idx += 1;
    }
    proof {
        lemma_key_merge_done(s, out@, first);
    }
    out
}

/// Merges breakdown metrics with the same name by summing their values; each merged entry keeps
/// the measurement and category of the first entry with its name. Entries come out in the order
/// in which their name first occurs.
pub fn merge_power_breakdown_metrics(metrics: Vec<PowerStatusBreakdownMetric>) -> (r: Vec<PowerStatusBreakdownMetric>)
    requires
        name_sums_fit(metrics@),
    ensures
        is_merge_by_name(metrics@, r@),
{
    let ghost s = metrics@;
    let mut out: Vec<PowerStatusBreakdownMetric> = Vec::new();
    let mut idx: usize = 0;
    let ghost mut first: Seq<int> = Seq::empty();
    proof {
        lemma_name_merge_start(s);
    }
    while idx < metrics.len()
        invariant
            s == metrics@,
            name_sums_fit(s),
            idx <= s.len(),
            merged_by_name_upto(s, idx as int, out@, first),
        decreases s.len() - idx,
    {
        let m = &metrics[idx];
        assert(i64::MIN <= sum_for_name(s.take(idx + 1), m.name@) <= i64::MAX);
        match find_name(&out, m) {
            Some(j) => {
                proof {
                    lemma_name_merge_value(s, idx as int, out@, first, j as int);
                }
                let merged = PowerStatusBreakdownMetric {
                    measurement: out[j].measurement,
                    category: out[j].category,
                    name: out[j].name.clone(),
                    value: out[j].value + m.value,
                };
                proof {
                    lemma_name_merge_found(s, idx as int, out@, first, j as int, merged);
                }
                out.set(j, merged);
            },
            None => {
                proof {
                    lemma_name_merge_absent(s, idx as int, out@, first);
                }
                let fresh = PowerStatusBreakdownMetric {
                    measurement: m.measurement,
                    category: m.category,
                    name: m.name.clone(),
                    value: m.value,
                };
                proof {
                    lemma_name_merge_new(s, idx as int, out@, first, fresh);
                    first = first.push(idx as int);
                }
                out.push(fresh);
            },
        }
        idx += 1;
    }
    proof {
        lemma_name_merge_done(s, out@, first);
    }
    out
}

} // verus!
