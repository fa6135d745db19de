//! Laws of candidate selection.

use vstd::prelude::*;
use crate::net::{Candidate, Credential, known, eligible, group, ranked_between, ranking};

verus! {

/// Candidate `a` comes before candidate `b`: it is stronger, or as strong and
/// earlier in the scan.
pub open spec fn ranks_before(s: Seq<Candidate>, a: usize, b: usize) -> bool {
    ||| s[a as int].signal_strength > s[b as int].signal_strength
    ||| (s[a as int].signal_strength == s[b as int].signal_strength && a < b)
}

proof fn lemma_group(s: Seq<Candidate>, table: Seq<Credential>, k: int, n: nat)
    requires
        n <= s.len() <= usize::MAX,
    ensures
        forall|p: int| 0 <= p < group(s, table, k, n).len() ==> {
            let i = #[trigger] group(s, table, k, n)[p];
            i < n && eligible(s, table, i as int, k)
        },
        forall|p: int, q: int| 0 <= p < q < group(s, table, k, n).len()
            ==> group(s, table, k, n)[p] < group(s, table, k, n)[q],
        forall|i: int| 0 <= i < n && eligible(s, table, i, k)
            ==> #[trigger] group(s, table, k, n).contains(i as usize),
    decreases n,
{
    if n > 0 {
        let m = (n - 1) as nat;
        lemma_group(s, table, k, m);
        let g0 = group(s, table, k, m);
        let g = group(s, table, k, n);
        if eligible(s, table, m as int, k) {
            assert(g == g0.push(m as usize));
            assert forall|p: int, q: int| 0 <= p < q < g.len() implies g[p] < g[q] by {
                if q == g.len() - 1 {
                    assert(g[p] == g0[p]);
                } else {
                    assert(g[p] == g0[p] && g[q] == g0[q]);
                }
            }
            assert forall|i: int| 0 <= i < n && eligible(s, table, i, k) implies #[trigger] g.contains(i as usize) by {
                if i < m {
                    assert(g0.contains(i as usize));
                    let p = choose|p: int| 0 <= p < g0.len() && g0[p] == i as usize;
                    assert(g[p] == i as usize);
                } else {
                    assert(g[g.len() - 1] == i as usize);
                }
            }
        } else {
            assert(g == g0);
        }
    }
}

proof fn lemma_ranked(s: Seq<Candidate>, table: Seq<Credential>, top: int, floor: int)
    requires
        floor <= top + 1,
        s.len() <= usize::MAX,
    ensures
        forall|p: int| 0 <= p < ranked_between(s, table, top, floor).len() ==> {
            let i = #[trigger] ranked_between(s, table, top, floor)[p];
            &&& i < s.len()
            &&& known(s[i as int].ssid@, table)
            &&& floor <= s[i as int].signal_strength <= top
        },
        forall|p: int, q: int| 0 <= p < q < ranked_between(s, table, top, floor).len()
            ==> ranks_before(s, ranked_between(s, table, top, floor)[p], ranked_between(s, table, top, floor)[q]),
        forall|i: int| 0 <= i < s.len() && known(s[i].ssid@, table) && floor <= s[i].signal_strength <= top
            ==> #[trigger] ranked_between(s, table, top, floor).contains(i as usize),
    decreases top + 1 - floor,
{
    if floor <= top {
        lemma_ranked(s, table, top, floor + 1);
        lemma_group(s, table, floor, s.len());
        let a = ranked_between(s, table, top, floor + 1);
        let g = group(s, table, floor, s.len());
        let r = ranked_between(s, table, top, floor);
        assert(r == a + g);
        assert forall|p: int| 0 <= p < r.len() implies {
            let i = #[trigger] r[p];
            &&& i < s.len()
            &&& known(s[i as int].ssid@, table)
            &&& floor <= s[i as int].signal_strength <= top
        } by {
            if p < a.len() {
                assert(r[p] == a[p]);
            } else {
                assert(r[p] == g[p - a.len()]);
            }
        }
        assert forall|p: int, q: int| 0 <= p < q < r.len() implies ranks_before(s, r[p], r[q]) by {
            if q < a.len() {
                assert(r[p] == a[p] && r[q] == a[q]);
            } else if p < a.len() {
                assert(r[p] == a[p] && r[q] == g[q - a.len()]);
                let ip = a[p];
                let iq = g[q - a.len()];
                assert(floor + 1 <= s[ip as int].signal_strength);
                assert(eligible(s, table, iq as int, floor));
            } else {
                assert(r[p] == g[p - a.len()] && r[q] == g[q - a.len()]);
                let ip = g[p - a.len()];
                let iq = g[q - a.len()];
                assert(eligible(s, table, ip as int, floor));
                assert(eligible(s, table, iq as int, floor));
            }
        }
        assert forall|i: int| 0 <= i < s.len() && known(s[i].ssid@, table) && floor <= s[i].signal_strength <= top
            implies #[trigger] r.contains(i as usize) by {
            if s[i].signal_strength == floor {
                assert(eligible(s, table, i, floor));
                assert(g.contains(i as usize));
                let p = choose|p: int| 0 <= p < g.len() && g[p] == i as usize;
                assert(r[a.len() + p] == i as usize);
            } else {
                assert(a.contains(i as usize));
                let p = choose|p: int| 0 <= p < a.len() && a[p] == i as usize;
                assert(r[p] == i as usize);
            }
        }
    }
}

/// The ranking of a scan is a stable sort by descending signal strength of
/// the candidates that are in the credential table and not weaker than the
/// threshold: it holds each such candidate, and only those, each once,
/// stronger before weaker and equals in scan order.
pub proof fn lemma_ranking_is_stable_sort(s: Seq<Candidate>, table: Seq<Credential>, threshold: i8)
    requires
        s.len() <= usize::MAX,
    ensures
        forall|p: int| 0 <= p < ranking(s, table, threshold).len() ==> {
            let i = #[trigger] ranking(s, table, threshold)[p];
            &&& i < s.len()
            &&& known(s[i as int].ssid@, table)
            &&& s[i as int].signal_strength >= threshold
        },
        forall|p: int, q: int| 0 <= p < q < ranking(s, table, threshold).len()
            ==> ranks_before(s, ranking(s, table, threshold)[p], ranking(s, table, threshold)[q]),
        forall|i: int| 0 <= i < s.len() && known(s[i].ssid@, table) && s[i].signal_strength >= threshold
            ==> #[trigger] ranking(s, table, threshold).contains(i as usize),
{
    lemma_ranked(s, table, i8::MAX as int, threshold as int);
}

} // verus!
