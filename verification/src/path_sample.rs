//! The shape of the diverse path sample: how many paths it holds, and that
//! it repeats none.
use vstd::multiset::Multiset;
use vstd::prelude::*;

use crate::digest::group_members;
use crate::digest::grouped_paths;
use crate::digest::important_paths;
use crate::digest::insert_key;
use crate::digest::other_paths;
use crate::digest::round;
use crate::digest::rounds;
use crate::digest::spec_path_group;
use crate::digest::tally;
use crate::text::chars_lt;

verus! {

/// The keys of a tally, strictly increasing.
pub open spec fn keys_sorted(es: Seq<(Seq<char>, nat)>) -> bool {
    forall|i: int, j: int| 0 <= i < j < es.len() ==> chars_lt(#[trigger] es[i].0, #[trigger] es[j].0)
}

/// Whether a tally has an entry for `k`.
pub open spec fn has_key(es: Seq<(Seq<char>, nat)>, k: Seq<char>) -> bool {
    exists|i: int| 0 <= i < es.len() && #[trigger] es[i].0 == k
}

proof fn lemma_insert_key(es: Seq<(Seq<char>, nat)>, k: Seq<char>)
    requires
        keys_sorted(es),
    ensures
        keys_sorted(insert_key(es, k)),
        forall|j: Seq<char>| #[trigger] has_key(insert_key(es, k), j) <==> (j == k || has_key(es, j)),
    decreases es.len(),
{
    let r = insert_key(es, k);
    if es.len() == 0 {
        assert forall|j: Seq<char>| has_key(r, j) <==> (j == k || has_key(es, j)) by {
            if j == k {
                assert(r[0].0 == k);
            }
        }
    } else if es[0].0 == k {
        assert forall|i: int, j: int| 0 <= i < j < r.len() implies chars_lt(#[trigger] r[i].0, #[trigger] r[j].0) by {
            assert(r[i].0 == es[i].0);
            assert(r[j].0 == es[j].0);
        }
        assert forall|j: Seq<char>| has_key(r, j) <==> (j == k || has_key(es, j)) by {
            if has_key(r, j) {
                let i = choose|i: int| 0 <= i < r.len() && #[trigger] r[i].0 == j;
                assert(r[i].0 == es[i].0);
            }
            if has_key(es, j) {
                let i = choose|i: int| 0 <= i < es.len() && #[trigger] es[i].0 == j;
                assert(r[i].0 == es[i].0);
            }
            if j == k {
                assert(r[0].0 == k);
            }
        }
    } else if chars_lt(k, es[0].0) {
        assert forall|i: int, j: int| 0 <= i < j < r.len() implies chars_lt(#[trigger] r[i].0, #[trigger] r[j].0) by {
            if i == 0 {
                if j > 1 {
                    assert(chars_lt(es[0].0, es[j - 1].0));
                    crate::text::lemma_chars_lt_trans(k, es[0].0, es[j - 1].0);
                }
            } else {
                assert(r[i].0 == es[i - 1].0);
                assert(r[j].0 == es[j - 1].0);
            }
        }
        assert forall|j: Seq<char>| has_key(r, j) <==> (j == k || has_key(es, j)) by {
            if has_key(r, j) {
                let i = choose|i: int| 0 <= i < r.len() && #[trigger] r[i].0 == j;
                if i > 0 {
                    assert(r[i].0 == es[i - 1].0);
                }
            }
            if has_key(es, j) {
                let i = choose|i: int| 0 <= i < es.len() && #[trigger] es[i].0 == j;
                assert(r[i + 1].0 == es[i].0);
            }
            if j == k {
                assert(r[0].0 == k);
            }
        }
    } else {
        let rest = es.drop_first();
        assert(keys_sorted(rest)) by {
            assert forall|i: int, j: int| 0 <= i < j < rest.len() implies chars_lt(#[trigger] rest[i].0, #[trigger] rest[j].0) by {
                assert(rest[i] == es[i + 1]);
                assert(rest[j] == es[j + 1]);
            }
        }
        lemma_insert_key(rest, k);
        let t = insert_key(rest, k);
        assert(r =~= seq![es[0]] + t);
        crate::text::lemma_chars_lt_total(k, es[0].0);
        assert forall|j: Seq<char>| has_key(r, j) <==> (j == k || has_key(es, j)) by {
            if has_key(r, j) {
                let i = choose|i: int| 0 <= i < r.len() && #[trigger] r[i].0 == j;
                if i > 0 {
                    assert(r[i] == t[i - 1]);
                    assert(has_key(t, j));
                    if has_key(rest, j) {
                        let m = choose|m: int| 0 <= m < rest.len() && #[trigger] rest[m].0 == j;
                        assert(es[m + 1].0 == j);
                    }
                } else {
                    assert(es[0].0 == j);
                }
            }
            if has_key(es, j) {
                let i = choose|i: int| 0 <= i < es.len() && #[trigger] es[i].0 == j;
                if i > 0 {
                    assert(rest[i - 1].0 == j);
                    assert(has_key(rest, j));
                    assert(has_key(t, j));
                    let m = choose|m: int| 0 <= m < t.len() && #[trigger] t[m].0 == j;
                    assert(r[m + 1].0 == j);
                } else {
                    assert(r[0].0 == j);
                }
            }
            if j == k {
                assert(has_key(t, j));
                let m = choose|m: int| 0 <= m < t.len() && #[trigger] t[m].0 == j;
                assert(r[m + 1].0 == j);
            }
        }
        assert forall|i: int, j: int| 0 <= i < j < r.len() implies chars_lt(#[trigger] r[i].0, #[trigger] r[j].0) by {
            if i == 0 {
                assert(r[j] == t[j - 1]);
                assert(has_key(t, t[j - 1].0));
                if t[j - 1].0 == k {
                } else {
                    assert(has_key(rest, t[j - 1].0));
                    let m = choose|m: int| 0 <= m < rest.len() && #[trigger] rest[m].0 == t[j - 1].0;
                    assert(es[m + 1].0 == t[j - 1].0);
                    assert(chars_lt(es[0].0, es[m + 1].0));
                }
            } else {
                assert(r[i] == t[i - 1]);
                assert(r[j] == t[j - 1]);
            }
        }
    }
}

/// A tally's keys are strictly increasing, and are exactly the keys counted.
pub proof fn lemma_tally_keys(ks: Seq<Seq<char>>)
    ensures
        keys_sorted(tally(ks)),
        forall|j: Seq<char>| #[trigger] has_key(tally(ks), j) <==> ks.contains(j),
    decreases ks.len(),
{
    if ks.len() > 0 {
        let init = ks.drop_last();
        lemma_tally_keys(init);
        lemma_insert_key(tally(init), ks.last());
        assert forall|j: Seq<char>| has_key(tally(ks), j) <==> ks.contains(j) by {
            if ks.contains(j) && j != ks.last() {
                let i = choose|i: int| 0 <= i < ks.len() && ks[i] == j;
                assert(i < ks.len() - 1);
                assert(init[i] == j);
            }
            if init.contains(j) {
                let i = choose|i: int| 0 <= i < init.len() && init[i] == j;
                assert(ks[i] == j);
            }
            if j == ks.last() {
                assert(ks[ks.len() - 1] == j);
            }
        }
    }
}

proof fn lemma_group_members_count(o: Seq<Seq<char>>, k: Seq<char>, x: Seq<char>)
    ensures
        group_members(o, k).to_multiset().count(x) == if spec_path_group(x) == k {
            o.to_multiset().count(x)
        } else {
            0
        },
        group_members(o, k).len() <= o.len(),
    decreases o.len(),
{
    broadcast use vstd::seq_lib::group_to_multiset_ensures, vstd::multiset::group_multiset_axioms;

    if o.len() == 0 {
        assert(group_members(o, k) =~= Seq::<Seq<char>>::empty());
    } else {
        let init = o.drop_last();
        lemma_group_members_count(init, k, x);
        assert(init.push(o.last()) =~= o);
    }
}

/// The paths of the groups of a tally's keys, as one multiset.
pub open spec fn keyed_ms(o: Seq<Seq<char>>, es: Seq<(Seq<char>, nat)>) -> Multiset<Seq<char>>
    decreases es.len(),
{
    if es.len() == 0 {
        Multiset::empty()
    } else {
        keyed_ms(o, es.drop_last()).add(group_members(o, es.last().0).to_multiset())
    }
}

proof fn lemma_keyed_ms_count(o: Seq<Seq<char>>, es: Seq<(Seq<char>, nat)>, x: Seq<char>)
    requires
        keys_sorted(es),
    ensures
        keyed_ms(o, es).count(x) == if has_key(es, spec_path_group(x)) {
            o.to_multiset().count(x)
        } else {
            0
        },
    decreases es.len(),
{
    broadcast use vstd::multiset::group_multiset_axioms;

    if es.len() > 0 {
        let init = es.drop_last();
        assert(keys_sorted(init)) by {
            assert forall|i: int, j: int| 0 <= i < j < init.len() implies chars_lt(#[trigger] init[i].0, #[trigger] init[j].0) by {
                assert(init[i] == es[i]);
                assert(init[j] == es[j]);
            }
        }
        lemma_keyed_ms_count(o, init, x);
        lemma_group_members_count(o, es.last().0, x);
        let g = spec_path_group(x);
        if has_key(init, g) {
            let i = choose|i: int| 0 <= i < init.len() && #[trigger] init[i].0 == g;
            assert(es[i].0 == g);
            if es.last().0 == g {
                assert(chars_lt(es[i].0, es[es.len() - 1].0));
                crate::text::lemma_chars_lt_irreflexive(g);
            }
            assert(has_key(es, g));
        } else {
            if has_key(es, g) {
                let i = choose|i: int| 0 <= i < es.len() && #[trigger] es[i].0 == g;
                if i < es.len() - 1 {
                    assert(init[i].0 == g);
                }
            }
            if es.last().0 == g {
                assert(es[es.len() - 1].0 == g);
            }
        }
    }
}

/// The first `n` paths of each group, as one multiset.
pub open spec fn groups_ms(groups: Seq<Seq<Seq<char>>>, n: nat) -> Multiset<Seq<char>>
    decreases groups.len(),
{
    if groups.len() == 0 {
        Multiset::empty()
    } else {
        groups_ms(groups.drop_last(), n).add(
            groups.last().take(if groups.last().len() < n { groups.last().len() as int } else { n as int }).to_multiset(),
        )
    }
}

proof fn lemma_groups_ms_zero(groups: Seq<Seq<Seq<char>>>)
    ensures
        groups_ms(groups, 0) =~= Multiset::<Seq<char>>::empty(),
    decreases groups.len(),
{
    broadcast use vstd::seq_lib::group_to_multiset_ensures, vstd::multiset::group_multiset_axioms;

    if groups.len() > 0 {
        lemma_groups_ms_zero(groups.drop_last());
        assert(groups.last().take(0) =~= Seq::<Seq<char>>::empty());
    }
}

proof fn lemma_groups_ms_step(groups: Seq<Seq<Seq<char>>>, n: nat)
    ensures
        groups_ms(groups, n + 1) =~= groups_ms(groups, n).add(round(groups, n).to_multiset()),
    decreases groups.len(),
{
    broadcast use vstd::seq_lib::group_to_multiset_ensures, vstd::multiset::group_multiset_axioms;

    if groups.len() == 0 {
        assert(round(groups, n) =~= Seq::<Seq<char>>::empty());
    } else {
        let init = groups.drop_last();
        let g = groups.last();
        lemma_groups_ms_step(init, n);
        if n < g.len() {
            assert(g.take(n + 1 as int) =~= g.take(n as int).push(g[n as int]));
        } else {
            assert(g.take(g.len() as int) =~= g);
        }
    }
}

proof fn lemma_rounds_ms(groups: Seq<Seq<Seq<char>>>, n: nat)
    ensures
        rounds(groups, n).to_multiset() =~= groups_ms(groups, n),
    decreases n,
{
    broadcast use vstd::seq_lib::group_to_multiset_ensures, vstd::multiset::group_multiset_axioms;

    if n == 0 {
        lemma_groups_ms_zero(groups);
        assert(rounds(groups, 0) =~= Seq::<Seq<char>>::empty());
    } else {
        lemma_rounds_ms(groups, (n - 1) as nat);
        lemma_groups_ms_step(groups, (n - 1) as nat);
        vstd::seq_lib::lemma_multiset_commutative(rounds(groups, (n - 1) as nat), round(groups, (n - 1) as nat));
    }
}

proof fn lemma_groups_ms_keyed(o: Seq<Seq<char>>, es: Seq<(Seq<char>, nat)>, n: nat)
    requires
        n >= o.len(),
    ensures
        groups_ms(es.map_values(|e: (Seq<char>, nat)| group_members(o, e.0)), n) =~= keyed_ms(o, es),
    decreases es.len(),
{
    broadcast use vstd::multiset::group_multiset_axioms;

    let gs = es.map_values(|e: (Seq<char>, nat)| group_members(o, e.0));
    if es.len() == 0 {
    } else {
        lemma_groups_ms_keyed(o, es.drop_last(), n);
        assert(gs.drop_last() =~= es.drop_last().map_values(|e: (Seq<char>, nat)| group_members(o, e.0)));
        let g = gs.last();
        assert(g == group_members(o, es.last().0));
        lemma_group_members_count(o, es.last().0, Seq::<char>::empty());
        assert(g.take(g.len() as int) =~= g);
    }
}

/// Taking the other paths group by group, round after round, gives every one
/// of them exactly as often as it occurs.
pub proof fn lemma_spread_is_a_permutation(o: Seq<Seq<char>>)
    ensures
        rounds(grouped_paths(o), o.len()).to_multiset() =~= o.to_multiset(),
{
    broadcast use vstd::seq_lib::group_to_multiset_ensures, vstd::multiset::group_multiset_axioms;

    let ks = o.map_values(|p: Seq<char>| spec_path_group(p));
    let es = tally(ks);
    lemma_tally_keys(ks);
    lemma_rounds_ms(grouped_paths(o), o.len());
    lemma_groups_ms_keyed(o, es, o.len());
    assert forall|x: Seq<char>| keyed_ms(o, es).count(x) == o.to_multiset().count(x) by {
        lemma_keyed_ms_count(o, es, x);
        if o.to_multiset().count(x) > 0 {
            assert(o.contains(x));
            let i = choose|i: int| 0 <= i < o.len() && o[i] == x;
            assert(ks[i] == spec_path_group(x));
            assert(ks.contains(spec_path_group(x)));
            assert(has_key(es, spec_path_group(x)));
        }
    }
    assert(keyed_ms(o, es) =~= o.to_multiset());
}

proof fn lemma_split_counts(paths: Seq<Seq<char>>)
    ensures
        important_paths(paths).len() + other_paths(paths).len() == paths.len(),
        paths.no_duplicates() ==> important_paths(paths).no_duplicates() && other_paths(paths).no_duplicates(),
        forall|x: Seq<char>| other_paths(paths).contains(x) ==> !crate::digest::spec_important_repo_file(x),
    decreases paths.len(),
{
    if paths.len() > 0 {
        let init = paths.drop_last();
        lemma_split_counts(init);
        crate::digest::lemma_important_paths_from(init);
        if paths.no_duplicates() {
            assert(init.no_duplicates()) by {
                assert forall|i: int, j: int| 0 <= i < init.len() && 0 <= j < init.len() && i != j implies init[i] != init[j] by {
                    assert(paths[i] == init[i]);
                    assert(paths[j] == init[j]);
                }
            }
            assert(!init.contains(paths.last())) by {
                if init.contains(paths.last()) {
                    let i = choose|i: int| 0 <= i < init.len() && init[i] == paths.last();
                    assert(paths[i] == paths[paths.len() - 1]);
                }
            }
            let a = important_paths(init);
            let o = other_paths(init);
            assert forall|i: int| 0 <= i < a.len() implies a[i] != paths.last() by {
                assert(a.contains(a[i]));
            }
            assert forall|i: int| 0 <= i < o.len() implies o[i] != paths.last() by {
                assert(o.contains(o[i]));
            }
        }
        let o = other_paths(init);
        assert forall|x: Seq<char>| other_paths(paths).contains(x) implies !crate::digest::spec_important_repo_file(x) by {
            if !crate::digest::spec_important_repo_file(paths.last()) && x == paths.last() {
            } else {
                let i = choose|i: int| 0 <= i < other_paths(paths).len() && other_paths(paths)[i] == x;
                if i < o.len() {
                    assert(o[i] == x);
                    assert(o.contains(x));
                }
            }
        }
    }
}

/// Given paths without repeats, the diverse sample holds exactly as many paths
/// as the limit allows (`min(limit, number of paths)`) and repeats none.
pub proof fn law_diverse_sample_size_and_no_repeats(paths: Seq<Seq<char>>, limit: nat)
    requires
        paths.no_duplicates(),
    ensures
        crate::digest::spec_diverse_sample(paths, limit).len() == if limit < paths.len() {
            limit
        } else {
            paths.len()
        },
        crate::digest::spec_diverse_sample(paths, limit).no_duplicates(),
{
    broadcast use vstd::seq_lib::group_to_multiset_ensures, vstd::multiset::group_multiset_axioms;

    let imp = important_paths(paths);
    let oth = other_paths(paths);
    lemma_split_counts(paths);
    crate::digest::lemma_important_paths_from(paths);
    let spread = rounds(grouped_paths(oth), oth.len());
    lemma_spread_is_a_permutation(oth);
    assert(spread.len() == oth.len()) by {
        assert(spread.to_multiset().len() == oth.to_multiset().len());
    }
    oth.lemma_multiset_has_no_duplicates();
    assert forall|x: Seq<char>| spread.to_multiset().contains(x) implies spread.to_multiset().count(x) == 1 by {
        assert(oth.to_multiset().contains(x));
    }
    spread.lemma_multiset_has_no_duplicates_conv();
    let r = crate::digest::spec_diverse_sample(paths, limit);
    if limit == 0 {
    } else if imp.len() >= limit {
        assert forall|i: int, j: int| 0 <= i < r.len() && 0 <= j < r.len() && i != j implies r[i] != r[j] by {
            assert(r[i] == imp[i]);
            assert(r[j] == imp[j]);
        }
    } else {
        let m = crate::digest::min_nat(spread.len(), (limit - imp.len()) as nat) as int;
        let t = spread.take(m);
        assert(r =~= imp + t);
        assert forall|i: int, j: int| 0 <= i < r.len() && 0 <= j < r.len() && i != j implies r[i] != r[j] by {
            if i < imp.len() && j < imp.len() {
                assert(r[i] == imp[i]);
                assert(r[j] == imp[j]);
            } else if i >= imp.len() && j >= imp.len() {
                assert(r[i] == spread[i - imp.len()]);
                assert(r[j] == spread[j - imp.len()]);
            } else {
                let (a, b) = if i < imp.len() { (i, j) } else { (j, i) };
                assert(imp.contains(r[a]));
                assert(r[b] == spread[b - imp.len()]);
                assert(spread.to_multiset().count(r[b]) > 0);
                assert(oth.contains(r[b]));
                assert(r[a] == imp[a]);
                assert(crate::digest::spec_important_repo_file(r[a]));
                assert(!crate::digest::spec_important_repo_file(r[b]));
            }
        }
    }
}

} // verus!
