use vstd::prelude::*;

use crate::codec::lemma_increasing_unique;
use crate::collections::{has_key, increasing, key_position, keys_of, lemma_lookup_at, lookup, IdSet, Table};
use crate::ini::map_of;
use crate::ids::{Id, Shaft, Treadle, Weft};

verus! {

/// The shafts raised on a row whose pressed treadles are `treadles`: every
/// shaft tied to one of them. A treadle without a tie-up raises nothing.
pub open spec fn row_shafts(treadles: Seq<u32>, tieup: Seq<(u32, Seq<u32>)>) -> Set<u32> {
    Set::new(
        |s: u32|
            exists|t: u32|
                treadles.contains(t) && has_key(tieup, t) && (#[trigger] lookup(tieup, t)).unwrap().contains(s),
    )
}

/// `plan` lifts, on each row of `treadling`, exactly the shafts tied to that
/// row's treadles, and has no other rows.
pub open spec fn composes(
    plan: Seq<(u32, Seq<u32>)>,
    treadling: Seq<(u32, Seq<u32>)>,
    tieup: Seq<(u32, Seq<u32>)>,
) -> bool {
    &&& increasing(keys_of(plan))
    &&& forall|i: int| 0 <= i < plan.len() ==> increasing(#[trigger] plan[i].1)
    &&& forall|w: u32| has_key(plan, w) == has_key(treadling, w)
    &&& forall|w: u32|
        has_key(treadling, w) ==> (#[trigger] lookup(plan, w)).unwrap().to_set() == row_shafts(
            lookup(treadling, w).unwrap(),
            tieup,
        )
}

/// Whether `rows` holds only well-formed sets.
pub open spec fn sets_wf(rows: Seq<(u32, Seq<u32>)>) -> bool {
    forall|i: int| 0 <= i < rows.len() ==> increasing(#[trigger] rows[i].1)
}

/// Adds to `acc` every shaft tied to treadle `t`.
fn add_tied(acc: &mut IdSet<Shaft>, tieup: &Table<Treadle, IdSet<Shaft>>, t: u32)
    requires
        old(acc).wf(),
        tieup.wf(),
    ensures
        final(acc).wf(),
        final(acc)@.to_set() == if has_key(tieup@, t) {
            old(acc)@.to_set() + lookup(tieup@, t).unwrap().to_set()
        } else {
            old(acc)@.to_set()
        },
{
    match tieup.get(t) {
        None => {},
        Some(tie) => {
            let ghost start = acc@.to_set();
            let mut i: usize = 0;
            while i < tie.len()
                invariant
                    i <= tie@.len(),
                    acc.wf(),
                    acc@.to_set() == start + tie@.subrange(0, i as int).to_set(),
                decreases tie@.len() - i,
            {
                let s = tie.get(i);
                acc.insert(s);
                proof {
                    assert(tie@.subrange(0, i + 1) =~= tie@.subrange(0, i as int).push(tie@[i as int]));
                    crate::collections::lemma_push_to_set(tie@.subrange(0, i as int), tie@[i as int]);
                }
                assert(acc@.to_set() =~= start + tie@.subrange(0, i + 1).to_set());
                i = i + 1;
            }
            assert(tie@.subrange(0, i as int) =~= tie@);
        },
    }
}

/// The shafts raised on a row that presses `treadles`.
fn shafts_of_row(treadles: &IdSet<Treadle>, tieup: &Table<Treadle, IdSet<Shaft>>) -> (r: IdSet<
    Shaft,
>)
    requires
        tieup.wf(),
    ensures
        r.wf(),
        r@.to_set() == row_shafts(treadles@, tieup@),
{
    let mut acc: IdSet<Shaft> = IdSet::new();
    let mut i: usize = 0;
    while i < treadles.len()
        invariant
            i <= treadles@.len(),
            tieup.wf(),
            acc.wf(),
            acc@.to_set() == row_shafts(treadles@.subrange(0, i as int), tieup@),
        decreases treadles@.len() - i,
    {
        let t = treadles.get(i);
        let ghost before = acc@.to_set();
        add_tied(&mut acc, tieup, t.index());
        proof {
            let pre = treadles@.subrange(0, i as int);
            let post = treadles@.subrange(0, i + 1);
            assert(post =~= pre.push(t.id()));
            assert forall|s: u32| acc@.to_set().contains(s) == row_shafts(post, tieup@).contains(s) by {
                if row_shafts(post, tieup@).contains(s) {
                    let u = choose|u: u32|
                        post.contains(u) && has_key(tieup@, u) && (#[trigger] lookup(tieup@, u)).unwrap().contains(s);
                    if u != t.id() {
                        let j = choose|j: int| 0 <= j < post.len() && post[j] == u;
                        assert(pre[j] == u);
                        assert(row_shafts(pre, tieup@).contains(s));
                    }
                }
                if acc@.to_set().contains(s) && !before.contains(s) {
                    assert(post[i as int] == t.id());
                    assert(post.contains(t.id()));
                }
                if before.contains(s) {
                    let u = choose|u: u32|
                        pre.contains(u) && has_key(tieup@, u) && (#[trigger] lookup(tieup@, u)).unwrap().contains(s);
                    let j = choose|j: int| 0 <= j < pre.len() && pre[j] == u;
                    assert(post[j] == u);
                }
            }
            assert(acc@.to_set() =~= row_shafts(post, tieup@));
        }
        i = i + 1;
    }
    assert(treadles@.subrange(0, i as int) =~= treadles@);
    acc
}

/// Composes a treadling with a tie-up into the lift plan that they describe;
/// without both there is none.
pub fn liftplan_from_threading_and_treadle(
    treadling: Option<&Table<Weft, IdSet<Treadle>>>,
    tieup: Option<&Table<Treadle, IdSet<Shaft>>>,
) -> (r: Option<Table<Weft, IdSet<Shaft>>>)
    requires
        treadling matches Some(t) ==> t.wf(),
        tieup matches Some(u) ==> u.wf(),
    ensures
        r is Some <==> (treadling is Some && tieup is Some),
        r matches Some(plan) ==> plan.wf() && composes(
            plan@,
            treadling.unwrap()@,
            tieup.unwrap()@,
        ),
{
    let rows = match treadling {
        Some(t) => t,
        None => return None,
    };
    let ties = match tieup {
        Some(u) => u,
        None => return None,
    };
    let mut plan: Table<Weft, IdSet<Shaft>> = Table::new();
    let mut i: usize = 0;
    while i < rows.len()
        invariant
            i <= rows@.len(),
            rows.wf(),
            ties.wf(),
            plan.wf(),
            sets_wf(plan@),
            forall|w: u32| has_key(plan@, w) == has_key(rows@.subrange(0, i as int), w),
            forall|w: u32|
                has_key(plan@, w) ==> (#[trigger] lookup(plan@, w)).unwrap().to_set() == row_shafts(
                    lookup(rows@, w).unwrap(),
                    ties@,
                ),
        decreases rows@.len() - i,
    {
        let (weft, row) = rows.entry(i);
        let shafts = shafts_of_row(row, ties);
        let ghost old_plan = plan@;
        let ghost sv = shafts@;
        plan.insert(*weft, shafts);
        proof {
            crate::collections::lemma_lookup_at(rows@, i as int);
            let pre = rows@.subrange(0, i as int);
            let post = rows@.subrange(0, i + 1);
            assert forall|w: u32| has_key(plan@, w) == has_key(post, w) by {
                if w == weft.id() {
                    assert(post[i as int].0 == w);
                    assert(has_key(post, w));
                    assert(lookup(plan@, w) is Some);
                } else {
                    assert(lookup(plan@, w) == lookup(old_plan, w));
                    if has_key(post, w) {
                        let j = choose|j: int| 0 <= j < post.len() && post[j].0 == w;
                        assert(pre[j].0 == w);
                    }
                    if has_key(pre, w) {
                        let j = choose|j: int| 0 <= j < pre.len() && pre[j].0 == w;
                        assert(post[j].0 == w);
                    }
                }
            }
            assert forall|j: int| 0 <= j < plan@.len() implies increasing(#[trigger] plan@[j].1) by {
                if plan@[j] != (weft.id(), sv) {
                    let k = choose|k: int| 0 <= k < old_plan.len() && old_plan[k] == plan@[j];
                    assert(increasing(old_plan[k].1));
                }
            }
        }
        i = i + 1;
    }
    assert(rows@.subrange(0, i as int) =~= rows@);
    proof {
        assert forall|j: int| 0 <= j < plan@.len() implies increasing(#[trigger] plan@[j].1) by {
        }
    }
    Some(plan)
}

/// Tables in ascending key order with the same entries are the same table.
pub proof fn lemma_table_unique<W>(a: Seq<(u32, W)>, b: Seq<(u32, W)>)
    requires
        increasing(keys_of(a)),
        increasing(keys_of(b)),
        map_of(a) == map_of(b),
    ensures
        a == b,
{
    assert forall|x: u32| keys_of(a).to_set().contains(x) == keys_of(b).to_set().contains(x) by {
        assert(keys_of(a).to_set().contains(x) == keys_of(a).contains(x));
        assert(keys_of(b).to_set().contains(x) == keys_of(b).contains(x));
        assert(map_of(a).dom().contains(x) == has_key(a, x));
        assert(map_of(b).dom().contains(x) == has_key(b, x));
        if keys_of(a).contains(x) {
            let i = choose|i: int| 0 <= i < keys_of(a).len() && keys_of(a)[i] == x;
            assert(a[i].0 == x);
            assert(has_key(b, x));
            let j = key_position(b, x);
            assert(keys_of(b)[j] == x);
        }
        if keys_of(b).contains(x) {
            let i = choose|i: int| 0 <= i < keys_of(b).len() && keys_of(b)[i] == x;
            assert(b[i].0 == x);
            assert(has_key(a, x));
            let j = key_position(a, x);
            assert(keys_of(a)[j] == x);
        }
    }
    assert(keys_of(a).to_set() =~= keys_of(b).to_set());
    lemma_increasing_unique(keys_of(a), keys_of(b));
    assert(a.len() == keys_of(a).len());
    assert forall|i: int| 0 <= i < a.len() implies a[i] == b[i] by {
        assert(keys_of(a)[i] == keys_of(b)[i]);
        lemma_lookup_at(a, i);
        lemma_lookup_at(b, i);
        assert(map_of(a)[a[i].0] == map_of(b)[b[i].0]);
    }
    assert(a =~= b);
}

/// A treadling and a tie-up describe one lift plan at most.
pub proof fn lemma_composes_unique(
    p: Seq<(u32, Seq<u32>)>,
    q: Seq<(u32, Seq<u32>)>,
    treadling: Seq<(u32, Seq<u32>)>,
    tieup: Seq<(u32, Seq<u32>)>,
)
    requires
        composes(p, treadling, tieup),
        composes(q, treadling, tieup),
    ensures
        p == q,
{
    assert forall|w: u32| has_key(p, w) implies lookup(p, w).unwrap() == lookup(q, w).unwrap() by {
        let i = key_position(p, w);
        let j = key_position(q, w);
        assert(has_key(q, w));
        assert(increasing(p[i].1));
        assert(increasing(q[j].1));
        lemma_increasing_unique(p[i].1, q[j].1);
    }
    assert(map_of(p) =~= map_of(q));
    lemma_table_unique(p, q);
}

/// Whether two lift plans are the same.
pub fn same_plan(a: &Table<Weft, IdSet<Shaft>>, b: &Table<Weft, IdSet<Shaft>>) -> (r: bool)
    ensures
        r == (a@ == b@),
{
    if a.len() != b.len() {
        return false;
    }
    let mut i: usize = 0;
    while i < a.len()
        invariant
            i <= a@.len(),
            a@.len() == b@.len(),
            forall|j: int| 0 <= j < i ==> a@[j] == b@[j],
        decreases a@.len() - i,
    {
        let (ka, sa) = a.entry(i);
        let (kb, sb) = b.entry(i);
        if ka.index() != kb.index() || sa.len() != sb.len() {
            assert(a@[i as int] != b@[i as int]);
            return false;
        }
        let mut j: usize = 0;
        while j < sa.len()
            invariant
                j <= sa@.len(),
                i < a@.len(),
                a@.len() == b@.len(),
                sa@ == a@[i as int].1,
                sb@ == b@[i as int].1,
                ka.id() == a@[i as int].0,
                kb.id() == b@[i as int].0,
                ka.id() == kb.id(),
                forall|m: int| 0 <= m < i ==> a@[m] == b@[m],
                sa@.len() == sb@.len(),
                forall|m: int| 0 <= m < j ==> sa@[m] == sb@[m],
            decreases sa@.len() - j,
        {
            if sa.get(j).index() != sb.get(j).index() {
                assert(sa@[j as int] != sb@[j as int]);
                assert(a@[i as int].1 != b@[i as int].1);
                return false;
            }
            j = j + 1;
        }
        assert(sa@ =~= sb@);
        i = i + 1;
    }
    assert(a@ =~= b@);
    true
}

} // verus!
