//! The reconciliation engine: the anti-join of two transaction snapshots
//! keyed by transaction id. A record of the newer snapshot is new exactly
//! when no record of the older snapshot carries its id; the output keeps the
//! newer snapshot's order. A duplicate id inside one snapshot breaks the
//! snapshot invariant, and the engine fails fast on it rather than guessing
//! which record to keep.
use vstd::prelude::*;
use crate::model::TransactionRecord;

verus! {

/// Why a batch run is aborted.
#[derive(Clone, Copy, Debug, PartialEq, Eq, Structural)]
pub enum ReconcileError {
    /// One snapshot holds the same transaction id twice.
    DuplicateKey,
}

/// Whether some record in `s` carries the id `id`.
pub open spec fn has_id(s: Seq<TransactionRecord>, id: Seq<char>) -> bool {
    exists|k: int| 0 <= k < s.len() && s[k].id@ == id
}

/// The snapshot invariant: ids are pairwise distinct.
pub open spec fn unique_ids(s: Seq<TransactionRecord>) -> bool {
    forall|i: int, j: int| 0 <= i < j < s.len() ==> s[i].id@ != s[j].id@
}

/// The anti-join: the records of `cur` whose id does not occur in `prev`,
/// in `cur`'s order.
pub open spec fn new_records(
    prev: Seq<TransactionRecord>,
    cur: Seq<TransactionRecord>,
) -> Seq<TransactionRecord> {
    cur.filter(|t: TransactionRecord| !has_id(prev, t.id@))
}

/// Law: an id is in the reconciled set exactly when it is in the newer
/// snapshot and not in the older one.
pub proof fn lemma_new_records_ids(
    prev: Seq<TransactionRecord>,
    cur: Seq<TransactionRecord>,
    id: Seq<char>,
)
    ensures
        has_id(new_records(prev, cur), id) <==> (has_id(cur, id) && !has_id(prev, id)),
    decreases cur.len(),
{
    reveal(Seq::filter);
    let out = new_records(prev, cur);
    if cur.len() == 0 {
        assert(!has_id(out, id));
        assert(!has_id(cur, id));
    } else {
        lemma_new_records_ids(prev, cur.drop_last(), id);
        let sub = new_records(prev, cur.drop_last());
        let dl = cur.drop_last();
        let last = cur.last();
        assert(has_id(cur, id) <==> (has_id(dl, id) || last.id@ == id)) by {
            if has_id(dl, id) {
                let k = choose|k: int| 0 <= k < dl.len() && dl[k].id@ == id;
                assert(cur[k].id@ == id);
            }
            if last.id@ == id {
                assert(cur[cur.len() - 1].id@ == id);
            }
            if has_id(cur, id) {
                let k = choose|k: int| 0 <= k < cur.len() && cur[k].id@ == id;
                if k < cur.len() - 1 {
                    assert(dl[k].id@ == id);
                }
            }
        };
        if !has_id(prev, last.id@) {
            assert(out == sub.push(last));
            assert(has_id(out, id) <==> (has_id(sub, id) || last.id@ == id)) by {
                if has_id(sub, id) {
                    let k = choose|k: int| 0 <= k < sub.len() && sub[k].id@ == id;
                    assert(out[k].id@ == id);
                }
                if last.id@ == id {
                    assert(out[out.len() - 1].id@ == id);
                }
                if has_id(out, id) {
                    let k = choose|k: int| 0 <= k < out.len() && out[k].id@ == id;
                    if k < out.len() - 1 {
                        assert(sub[k].id@ == id);
                    }
                }
            };
        } else {
            assert(out == sub);
        }
    }
}

/// Law: against an empty older snapshot, every record of the newer snapshot
/// is new.
pub proof fn lemma_new_records_empty_prev(cur: Seq<TransactionRecord>)
    ensures
        new_records(Seq::empty(), cur) == cur,
    decreases cur.len(),
{
    reveal(Seq::filter);
    if cur.len() > 0 {
        lemma_new_records_empty_prev(cur.drop_last());
        assert(new_records(Seq::empty(), cur) =~= cur);
    }
}

/// Law: an empty newer snapshot reconciles to nothing.
pub proof fn lemma_new_records_empty_cur(prev: Seq<TransactionRecord>)
    ensures
        new_records(prev, Seq::empty()) == Seq::<TransactionRecord>::empty(),
{
    reveal(Seq::filter);
}

/// Why snapshot selection failed.
#[derive(Clone, Copy, Debug, PartialEq, Eq, Structural)]
pub enum SelectError {
    /// No snapshot name was found at all.
    NoSnapshots,
    /// Only one snapshot name was found; a diff needs two.
    OnlyOneSnapshot,
}

/// Lexicographic comparison by Unicode scalar values from position `i` on:
/// whether `a` is at most `b`. On names that share a prefix the shorter one
/// comes first.
pub open spec fn str_le_from(a: Seq<char>, b: Seq<char>, i: int) -> bool
    decreases a.len() - i,
{
    if i < 0 || i >= a.len() {
        true
    } else if i >= b.len() {
        false
    } else if (a[i] as u32) < (b[i] as u32) {
        true
    } else if (a[i] as u32) > (b[i] as u32) {
        false
    } else {
        str_le_from(a, b, i + 1)
    }
}

/// The total order snapshot names are ranked by: lexicographic on
/// characters, so names that embed a timestamp rank chronologically.
pub open spec fn str_le(a: Seq<char>, b: Seq<char>) -> bool {
    str_le_from(a, b, 0)
}

pub proof fn lemma_str_le_refl(a: Seq<char>, i: int)
    ensures
        str_le_from(a, a, i),
    decreases a.len() - i,
{
    if 0 <= i < a.len() {
        lemma_str_le_refl(a, i + 1);
    }
}

pub proof fn lemma_str_le_total(a: Seq<char>, b: Seq<char>, i: int)
    ensures
        str_le_from(a, b, i) || str_le_from(b, a, i),
    decreases a.len() - i,
{
    if 0 <= i < a.len() && i < b.len() && (a[i] as u32) == (b[i] as u32) {
        lemma_str_le_total(a, b, i + 1);
    }
}

pub proof fn lemma_str_le_trans(a: Seq<char>, b: Seq<char>, c: Seq<char>, i: int)
    requires
        str_le_from(a, b, i),
        str_le_from(b, c, i),
    ensures
        str_le_from(a, c, i),
    decreases a.len() - i,
{
    if 0 <= i < a.len() && i < b.len() && i < c.len() && (a[i] as u32) == (b[i] as u32) && (
    b[i] as u32) == (c[i] as u32) {
        lemma_str_le_trans(a, b, c, i + 1);
    }
}

/// Whether `a` ranks at most `b` in the snapshot order.
pub fn str_le_exec(a: &str, b: &str) -> (r: bool)
    ensures
        r == str_le(a@, b@),
{
    let na = a.unicode_len();
    let nb = b.unicode_len();
    let mut i: usize = 0;
    loop
        invariant
            i <= na,
            i <= nb,
            na == a@.len(),
            nb == b@.len(),
            str_le(a@, b@) == str_le_from(a@, b@, i as int),
        decreases na - i,
    {
        if i == na {
            return true;
        }
        if i == nb {
            return false;
        }
        let ca = a.get_char(i) as u32;
        let cb = b.get_char(i) as u32;
        if ca < cb {
            return true;
        }
        if ca > cb {
            return false;
        }
        i = i + 1;
    }
}

/// Picks the two most recent snapshots of a listing by the lexicographic
/// order of their names: `Ok((prev, cur))` where `cur` ranks highest and
/// `prev` ranks highest among the rest.
pub fn select_snapshots(names: &Vec<String>) -> (r: Result<(String, String), SelectError>)
    ensures
        names@.len() == 0 ==> r == Err::<(String, String), SelectError>(SelectError::NoSnapshots),
        names@.len() == 1 ==> r == Err::<(String, String), SelectError>(
            SelectError::OnlyOneSnapshot,
        ),
        names@.len() >= 2 ==> (r matches Ok(p) && exists|i: int|
            {
                &&& 0 <= i < names@.len()
                &&& names@[i]@ == p.1@
                &&& forall|k: int| 0 <= k < names@.len() ==> str_le(#[trigger] names@[k]@, p.1@)
                &&& forall|k: int|
                    0 <= k < names@.len() && k != i ==> str_le(#[trigger] names@[k]@, p.0@)
                &&& exists|j: int| 0 <= j < names@.len() && j != i && names@[j]@ == p.0@
            }),
{
    if names.len() == 0 {
        return Err(SelectError::NoSnapshots);
    }
    if names.len() == 1 {
        return Err(SelectError::OnlyOneSnapshot);
    }
    let mut best: usize = 0;
    let mut k: usize = 1;
    proof {
        lemma_str_le_refl(names@[0]@, 0);
    }
    while k < names.len()
        invariant
            best < k <= names@.len(),
            forall|t: int| 0 <= t < k ==> str_le(#[trigger] names@[t]@, names@[best as int]@),
        decreases names@.len() - k,
    {
        if str_le_exec(names[best].as_str(), names[k].as_str()) {
            proof {
                assert forall|t: int| 0 <= t < k + 1 implies str_le(
                    #[trigger] names@[t]@,
                    names@[k as int]@,
                ) by {
                    if t < k {
                        lemma_str_le_trans(names@[t]@, names@[best as int]@, names@[k as int]@, 0);
                    } else {
                        lemma_str_le_refl(names@[k as int]@, 0);
                    }
                }
            }
            best = k;
        } else {
            proof {
                lemma_str_le_total(names@[best as int]@, names@[k as int]@, 0);
            }
        }
        k = k + 1;
    }
    let mut second: usize = if best == 0 {
        1
    } else {
        0
    };
    let mut m: usize = 0;
    while m < names.len()
        invariant
            second < names@.len(),
            second != best,
            best < names@.len(),
            m <= names@.len(),
            names@.len() >= 2,
            forall|t: int|
                0 <= t < m && t != best ==> str_le(#[trigger] names@[t]@, names@[second as int]@),
        decreases names@.len() - m,
    {
        if m != best {
            if str_le_exec(names[second].as_str(), names[m].as_str()) {
                proof {
                    assert forall|t: int| 0 <= t < m + 1 && t != best implies str_le(
                        #[trigger] names@[t]@,
                        names@[m as int]@,
                    ) by {
                        if t < m {
                            lemma_str_le_trans(
                                names@[t]@,
                                names@[second as int]@,
                                names@[m as int]@,
                                0,
                            );
                        } else {
                            lemma_str_le_refl(names@[m as int]@, 0);
                        }
                    }
                }
                second = m;
            } else {
                proof {
                    lemma_str_le_total(names@[second as int]@, names@[m as int]@, 0);
                }
            }
        }
        m = m + 1;
    }
    let cur = names[best].clone();
    let prev = names[second].clone();
    proof {
        let i = best as int;
        assert(0 <= i < names@.len() && names@[i]@ == cur@);
        assert(forall|t: int| 0 <= t < names@.len() ==> str_le(#[trigger] names@[t]@, cur@));
        assert(forall|t: int|
            0 <= t < names@.len() && t != i ==> str_le(#[trigger] names@[t]@, prev@));
        let j = second as int;
        assert(0 <= j < names@.len() && j != i && names@[j]@ == prev@);
    }
    Ok((prev, cur))
}

/// Whether the id of some record of `list` equals `id`.
fn vec_has_id(list: &Vec<TransactionRecord>, id: &String) -> (r: bool)
    ensures
        r == has_id(list@, id@),
{
    let mut i: usize = 0;
    while i < list.len()
        invariant
            i <= list@.len(),
            forall|k: int| 0 <= k < i ==> list@[k].id@ != id@,
        decreases list@.len() - i,
    {
        if list[i].id == *id {
            return true;
        }
        i = i + 1;
    }
    false
}

/// Whether the first `upto` records of `list` are pairwise distinct by id.
fn unique_check(list: &Vec<TransactionRecord>) -> (r: bool)
    ensures
        r == unique_ids(list@),
{
    let mut i: usize = 0;
    while i < list.len()
        invariant
            i <= list@.len(),
            forall|p: int, q: int| 0 <= p < q < i ==> list@[p].id@ != list@[q].id@,
        decreases list@.len() - i,
    {
        let mut j: usize = 0;
        while j < i
            invariant
                j <= i < list@.len(),
                forall|p: int| 0 <= p < j ==> list@[p].id@ != list@[i as int].id@,
            decreases i - j,
        {
            if list[j].id == list[i].id {
                proof {
                    assert(0 <= j < i < list@.len() && list@[j as int].id@ == list@[
                        i as int
                    ].id@);
                }
                return false;
            }
            j = j + 1;
        }
        i = i + 1;
    }
    true
}

/// Computes the anti-join of the two snapshots, `cur` keyed against `prev`.
/// Fails fast when either snapshot breaks the unique-id invariant.
pub fn reconcile(
    prev: &Vec<TransactionRecord>,
    cur: &Vec<TransactionRecord>,
) -> (r: Result<Vec<TransactionRecord>, ReconcileError>)
    ensures
        unique_ids(prev@) && unique_ids(cur@) ==> (r matches Ok(out) && out@ == new_records(
            prev@,
            cur@,
        )),
        !(unique_ids(prev@) && unique_ids(cur@)) ==> r == Err::<
            Vec<TransactionRecord>,
            ReconcileError,
        >(ReconcileError::DuplicateKey),
{
    if !unique_check(prev) || !unique_check(cur) {
        return Err(ReconcileError::DuplicateKey);
    }
    let mut out: Vec<TransactionRecord> = Vec::new();
    let mut i: usize = 0;
    while i < cur.len()
        invariant
            i <= cur@.len(),
            out@ == new_records(prev@, cur@.subrange(0, i as int)),
        decreases cur@.len() - i,
    {
        let ghost pre = cur@.subrange(0, i as int);
        if !vec_has_id(prev, &cur[i].id) {
            out.push(cur[i].clone());
        }
        proof {
            reveal(Seq::filter);
            let post = cur@.subrange(0, i + 1 as int);
            assert(post.drop_last() =~= pre);
            assert(post.last() == cur@[i as int]);
        }
        i = i + 1;
    }
    proof {
        assert(cur@.subrange(0, cur@.len() as int) =~= cur@);
    }
    Ok(out)
}

} // verus!
