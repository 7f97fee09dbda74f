//! Totals of a token over all accounts.
use crate::ledger::accounts_of;
use crate::types::{AccountView, LedgerState};
use vstd::prelude::*;

verus! {

/// The WORK held by the accounts listed in `keys`, read from `m`.
pub open spec fn work_sum(keys: Seq<Seq<char>>, m: Map<Seq<char>, AccountView>) -> int
    decreases keys.len(),
{
    if keys.len() == 0 {
        0
    } else {
        work_sum(keys.drop_last(), m) + m[keys.last()].work
    }
}

/// `keys` lists every account of `m` exactly once.
pub open spec fn lists_accounts(keys: Seq<Seq<char>>, m: Map<Seq<char>, AccountView>) -> bool {
    &&& keys.no_duplicates()
    &&& forall|k: Seq<char>| #[trigger] keys.contains(k) <==> m.contains_key(k)
}

/// The WORK held by all accounts of a state.
pub open spec fn total_work(st: LedgerState) -> int {
    work_sum(st.accounts.key_seq(), accounts_of(st))
}

/// The WORK an account map holds under `k` (none when it has no such account).
pub open spec fn work_at(m: Map<Seq<char>, AccountView>, k: Seq<char>) -> int {
    if m.contains_key(k) {
        m[k].work as int
    } else {
        0
    }
}

/// Changing an account that is not listed leaves the sum unchanged.
proof fn lemma_sum_unlisted(keys: Seq<Seq<char>>, m: Map<Seq<char>, AccountView>, k: Seq<char>, v: AccountView)
    requires
        !keys.contains(k),
    ensures
        work_sum(keys, m.insert(k, v)) == work_sum(keys, m),
    decreases keys.len(),
{
    if keys.len() > 0 {
        assert(!keys.drop_last().contains(k)) by {
            if keys.drop_last().contains(k) {
                let j = keys.drop_last().index_of(k);
                assert(keys[j] == k);
            }
        }
        lemma_sum_unlisted(keys.drop_last(), m, k, v);
        assert(keys.last() != k) by {
            assert(keys[keys.len() - 1] == keys.last());
        }
    }
}

/// Changing a listed account changes the sum by the change of its WORK.
proof fn lemma_sum_listed(keys: Seq<Seq<char>>, m: Map<Seq<char>, AccountView>, k: Seq<char>, v: AccountView)
    requires
        keys.no_duplicates(),
        keys.contains(k),
    ensures
        work_sum(keys, m.insert(k, v)) == work_sum(keys, m) - m[k].work + v.work,
    decreases keys.len(),
{
    let init = keys.drop_last();
    assert(init.no_duplicates()) by {
        assert forall|i: int, j: int| 0 <= i < init.len() && 0 <= j < init.len() && i != j implies init[i]
            != init[j] by {
            assert(init[i] == keys[i] && init[j] == keys[j]);
        }
    }
    if keys.last() == k {
        assert(!init.contains(k)) by {
            if init.contains(k) {
                let j = init.index_of(k);
                assert(keys[j] == k && keys[keys.len() - 1] == k);
            }
        }
        lemma_sum_unlisted(init, m, k, v);
    } else {
        assert(init.contains(k)) by {
            let j = keys.index_of(k);
            assert(j != keys.len() - 1);
            assert(init[j] == k);
        }
        lemma_sum_listed(init, m, k, v);
    }
}

/// The sum without the account at position `i`, plus that account's WORK.
proof fn lemma_sum_remove(keys: Seq<Seq<char>>, m: Map<Seq<char>, AccountView>, i: int)
    requires
        0 <= i < keys.len(),
    ensures
        work_sum(keys, m) == work_sum(keys.remove(i), m) + m[keys[i]].work,
    decreases keys.len(),
{
    if i < keys.len() - 1 {
        lemma_sum_remove(keys.drop_last(), m, i);
        assert(keys.remove(i).drop_last() =~= keys.drop_last().remove(i));
        assert(keys.remove(i).last() == keys.last());
    } else {
        assert(keys.remove(i) =~= keys.drop_last());
    }
}

/// Two lists of the same accounts give the same sum.
pub proof fn lemma_sum_any_listing(a: Seq<Seq<char>>, b: Seq<Seq<char>>, m: Map<Seq<char>, AccountView>)
    requires
        a.no_duplicates(),
        b.no_duplicates(),
        forall|k: Seq<char>| #[trigger] a.contains(k) <==> b.contains(k),
    ensures
        work_sum(a, m) == work_sum(b, m),
    decreases a.len(),
{
    if a.len() == 0 {
        if b.len() > 0 {
            assert(b.contains(b[0]));
            assert(a.contains(b[0]));
        }
        assert(work_sum(b, m) == 0);
    } else {
        let x = a.last();
        assert(a.contains(x)) by {
            assert(a[a.len() - 1] == x);
        }
        let i = b.index_of(x);
        let a2 = a.drop_last();
        let b2 = b.remove(i);
        assert(a2.no_duplicates()) by {
            assert forall|p: int, q: int| 0 <= p < a2.len() && 0 <= q < a2.len() && p != q implies a2[p]
                != a2[q] by {
                assert(a2[p] == a[p] && a2[q] == a[q]);
            }
        }
        assert(b2.no_duplicates()) by {
            assert forall|p: int, q: int| 0 <= p < b2.len() && 0 <= q < b2.len() && p != q implies b2[p]
                != b2[q] by {
                let pp = if p < i { p } else { p + 1 };
                let qq = if q < i { q } else { q + 1 };
                assert(b2[p] == b[pp] && b2[q] == b[qq]);
            }
        }
        assert forall|k: Seq<char>| #[trigger] a2.contains(k) <==> b2.contains(k) by {
            if a2.contains(k) {
                let j = a2.index_of(k);
                assert(a[j] == k);
                assert(a.contains(k));
                assert(k != x) by {
                    assert(a[a.len() - 1] == x);
                }
                assert(b.contains(k));
                let jb = b.index_of(k);
                assert(jb != i);
                let jj = if jb < i { jb } else { jb - 1 };
                assert(b2[jj] == k);
            }
            if b2.contains(k) {
                let j = b2.index_of(k);
                let jj = if j < i { j } else { j + 1 };
                assert(b[jj] == k);
                assert(jj != i);
                assert(k != x);
                assert(a.contains(k));
                let ja = a.index_of(k);
                assert(ja != a.len() - 1);
                assert(a2[ja] == k);
            }
        }
        assert(b.contains(x));
        assert(b[i] == x);
        lemma_sum_any_listing(a2, b2, m);
        lemma_sum_remove(b, m, i);
        assert(work_sum(a, m) == work_sum(a2, m) + m[x].work);
        assert(work_sum(b, m) == work_sum(b2, m) + m[x].work);
    }
}

/// Setting the account `k` of `m` to `v`: a listing of the new map whose
/// sum differs by the change of WORK under `k`.
pub proof fn lemma_sum_insert(
    keys: Seq<Seq<char>>,
    m: Map<Seq<char>, AccountView>,
    k: Seq<char>,
    v: AccountView,
) -> (keys2: Seq<Seq<char>>)
    requires
        lists_accounts(keys, m),
    ensures
        lists_accounts(keys2, m.insert(k, v)),
        work_sum(keys2, m.insert(k, v)) == work_sum(keys, m) - work_at(m, k) + v.work,
{
    if m.contains_key(k) {
        lemma_sum_listed(keys, m, k, v);
        keys
    } else {
        let keys2 = keys.push(k);
        assert(keys2.drop_last() =~= keys);
        lemma_sum_unlisted(keys, m, k, v);
        assert(keys2.no_duplicates()) by {
            assert forall|p: int, q: int| 0 <= p < keys2.len() && 0 <= q < keys2.len() && p != q implies keys2[p]
                != keys2[q] by {
                if p < keys.len() && q < keys.len() {
                    assert(keys2[p] == keys[p] && keys2[q] == keys[q]);
                } else if p < keys.len() {
                    assert(keys.contains(keys[p]));
                    assert(keys2[p] == keys[p]);
                } else if q < keys.len() {
                    assert(keys.contains(keys[q]));
                    assert(keys2[q] == keys[q]);
                }
            }
        }
        assert forall|x: Seq<char>| #[trigger] keys2.contains(x) <==> m.insert(k, v).contains_key(x) by {
            if keys2.contains(x) {
                let j = keys2.index_of(x);
                if j < keys.len() {
                    assert(keys[j] == x);
                    assert(keys.contains(x));
                    assert(m.contains_key(x));
                } else {
                    assert(x == k);
                }
            }
            if m.insert(k, v).contains_key(x) {
                if x == k {
                    assert(keys2[keys.len() as int] == x);
                } else {
                    assert(m.contains_key(x));
                    assert(keys.contains(x));
                    let j = keys.index_of(x);
                    assert(keys2[j] == x);
                }
            }
        }
        keys2
    }
}

/// The accounts table of a well-formed state lists every account once.
pub proof fn lemma_state_listing(st: LedgerState)
    requires
        st.wf(),
    ensures
        lists_accounts(st.accounts.key_seq(), accounts_of(st)),
{
    st.accounts.lemma_lengths();
}

/// Any listing of a state's accounts gives its total WORK.
pub proof fn lemma_total_work_listing(st: LedgerState, keys: Seq<Seq<char>>)
    requires
        st.wf(),
        lists_accounts(keys, accounts_of(st)),
    ensures
        total_work(st) == work_sum(keys, accounts_of(st)),
{
    lemma_state_listing(st);
    lemma_sum_any_listing(st.accounts.key_seq(), keys, accounts_of(st));
}

} // verus!
