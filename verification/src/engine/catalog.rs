//! The groups of a set of checks, and the checks of one group.
use vstd::prelude::*;

use crate::engine::checks::{models, Check, CheckModel};
use crate::engine::command::views;
use crate::text::{is_sorted_listing, lemma_seq_lt_total, lemma_seq_lt_transitive, seq_lt, str_eq, str_lt};

verus! {

/// The groups (`from` values) that some check names.
pub open spec fn group_set(checks: Seq<CheckModel>) -> Set<Seq<char>> {
    Set::new(|g: Seq<char>| exists|k: int| 0 <= k < checks.len() && (#[trigger] checks[k]).from == g)
}

/// The checks of group `g`, in order.
pub open spec fn of_group(checks: Seq<CheckModel>, g: Seq<char>) -> Seq<CheckModel>
    decreases checks.len(),
{
    if checks.len() == 0 {
        Seq::empty()
    } else {
        let rest = of_group(checks.drop_last(), g);
        if checks.last().from == g {
            rest.push(checks.last())
        } else {
            rest
        }
    }
}

/// Each text comes before the next.
pub open spec fn increasing(s: Seq<Seq<char>>) -> bool {
    forall|i: int, j: int| 0 <= i < j < s.len() ==> seq_lt(#[trigger] s[i], #[trigger] s[j])
}

/// Adds `s` to an increasing list of texts, unless it is there already.
fn insert_text(v: &mut Vec<String>, s: &str)
    requires
        increasing(views(old(v)@)),
    ensures
        increasing(views(final(v)@)),
        forall|t: Seq<char>| views(final(v)@).contains(t) <==> (views(old(v)@).contains(t) || t == s@),
{
    let ghost old_v = views(v@);
    let n = v.len();
    let mut i: usize = 0;
    while i < n && str_lt(v[i].as_str(), s)
        invariant
            i <= n,
            n == v@.len(),
            old_v == views(v@),
            forall|k: int| 0 <= k < i ==> seq_lt(#[trigger] old_v[k], s@),
        decreases n - i,
    {
        proof {
            assert(old_v[i as int] == v@[i as int]@);
        }
        i = i + 1;
    }
    if i < n && str_eq(v[i].as_str(), s) {
        proof {
            assert(old_v[i as int] == s@);
        }
        return;
    }
    proof {
        if i < n {
            assert(old_v[i as int] == v@[i as int]@);
            lemma_seq_lt_total(old_v[i as int], s@);
        }
    }
    v.insert(i, s.to_string());
    proof {
        let nv = views(v@);
        assert(nv.len() == old_v.len() + 1);
        assert forall|a: int| 0 <= a < nv.len() implies #[trigger] nv[a] == (if a < i {
            old_v[a]
        } else if a == i {
            s@
        } else {
            old_v[a - 1]
        }) by {
            assert(nv[a] == v@[a]@);
        }
        assert forall|a: int, b: int| 0 <= a < b < nv.len() implies seq_lt(
            #[trigger] nv[a],
            #[trigger] nv[b],
        ) by {
            if a == i && b > i + 1 {
                lemma_seq_lt_transitive(s@, old_v[i as int], old_v[b - 1]);
            } else if a < i && b > i {
                assert(seq_lt(old_v[a], s@));
            }
        }
        assert forall|t: Seq<char>| nv.contains(t) <==> (old_v.contains(t) || t == s@) by {
            if nv.contains(t) {
                let q = choose|q: int| 0 <= q < nv.len() && nv[q] == t;
                if q < i {
                    assert(old_v[q] == t);
                } else if q > i {
                    assert(old_v[q - 1] == t);
                }
            }
            if old_v.contains(t) {
                let q = choose|q: int| 0 <= q < old_v.len() && old_v[q] == t;
                if q < i {
                    assert(nv[q] == t);
                } else {
                    assert(nv[q + 1] == t);
                }
            }
            if t == s@ {
                assert(nv[i as int] == t);
            }
        }
    }
}

/// The groups of `checks`, each once, in increasing order.
pub fn pattern_groups(checks: &[Check]) -> (r: Vec<String>)
    ensures
        is_sorted_listing(views(r@), group_set(models(checks@))),
{
    let ghost ms = models(checks@);
    let mut r: Vec<String> = Vec::new();
    let mut i: usize = 0;
    while i < checks.len()
        invariant
            i <= checks@.len(),
            ms == models(checks@),
            increasing(views(r@)),
            forall|t: Seq<char>|
                views(r@).contains(t) <==> exists|q: int| 0 <= q < i && (#[trigger] ms[q]).from == t,
        decreases checks@.len() - i,
    {
        let ghost before = views(r@);
        insert_text(&mut r, checks[i].from.as_str());
        proof {
            assert(ms[i as int] == checks@[i as int]@);
            assert forall|t: Seq<char>|
                views(r@).contains(t) <==> exists|q: int| 0 <= q < i + 1 && (#[trigger] ms[q]).from == t by {
                if views(r@).contains(t) && !before.contains(t) {
                    assert(ms[i as int].from == t);
                }
                if exists|q: int| 0 <= q < i + 1 && (#[trigger] ms[q]).from == t {
                    let q = choose|q: int| 0 <= q < i + 1 && (#[trigger] ms[q]).from == t;
                    if q < i {
                        assert(before.contains(t));
                    }
                }
            }
        }
        i = i + 1;
    }
    proof {
        assert forall|t: Seq<char>| group_set(ms).contains(t) <==> views(r@).contains(t) by {
            if group_set(ms).contains(t) {
                let q = choose|q: int| 0 <= q < ms.len() && (#[trigger] ms[q]).from == t;
                assert(0 <= q < i && ms[q].from == t);
            }
        }
    }
    r
}

/// The checks of group `group` (those whose `from` is it), in order.
pub fn patterns_for_group(checks: &[Check], group: &str) -> (r: Vec<Check>)
    ensures
        models(r@) == of_group(models(checks@), group@),
{
    let ghost ms = models(checks@);
    let mut r: Vec<Check> = Vec::new();
    let mut i: usize = 0;
    while i < checks.len()
        invariant
            i <= checks@.len(),
            ms == models(checks@),
            models(r@) == of_group(ms.take(i as int), group@),
        decreases checks@.len() - i,
    {
        proof {
            assert(ms.take(i + 1).drop_last() =~= ms.take(i as int));
            assert(ms.take(i + 1).last() == checks@[i as int]@);
        }
        if str_eq(checks[i].from.as_str(), group) {
            let ghost before = r@;
            r.push(checks[i].clone());
            proof {
                assert(models(r@) =~= models(before).push(checks@[i as int]@));
            }
        }
        i = i + 1;
    }
    proof {
        assert(ms.take(checks@.len() as int) =~= ms);
    }
    r
}

} // verus!
