use vstd::prelude::*;

verus! {

/// Filtering one row more either appends that row or changes nothing.
pub proof fn lemma_filter_next<T>(rows: Seq<T>, keep: spec_fn(T) -> bool, seen: int)
    requires
        0 <= seen < rows.len(),
    ensures
        rows.take(seen + 1).filter(keep) == if keep(rows[seen]) {
            rows.take(seen).filter(keep).push(rows[seen])
        } else {
            rows.take(seen).filter(keep)
        },
{
    reveal(Seq::filter);
    assert(rows.take(seen + 1).drop_last() =~= rows.take(seen));
}

/// Of no rows, none is kept.
pub proof fn lemma_filter_nothing<T>(rows: Seq<T>, keep: spec_fn(T) -> bool)
    ensures
        rows.take(0).filter(keep) == Seq::<T>::empty(),
{
    reveal(Seq::filter);
    assert(rows.take(0).filter(keep) =~= Seq::<T>::empty());
}

/// Two tests that agree on every row of the run keep the same rows.
pub proof fn lemma_filter_agrees<T>(rows: Seq<T>, keep: spec_fn(T) -> bool, other: spec_fn(T) -> bool)
    requires
        forall|i: int| 0 <= i < rows.len() ==> keep(#[trigger] rows[i]) == other(rows[i]),
    ensures
        rows.filter(keep) == rows.filter(other),
    decreases rows.len(),
{
    reveal(Seq::filter);
    if rows.len() > 0 {
        lemma_filter_agrees(rows.drop_last(), keep, other);
    }
}

/// The first row that passes the test is the first row that is kept.
pub proof fn lemma_filter_first<T>(rows: Seq<T>, keep: spec_fn(T) -> bool, position: int)
    requires
        0 <= position < rows.len(),
        keep(rows[position]),
        forall|i: int| 0 <= i < position ==> !keep(#[trigger] rows[i]),
    ensures
        rows.filter(keep).len() > 0,
        rows.filter(keep)[0] == rows[position],
    decreases rows.len(),
{
    reveal(Seq::filter);
    let shorter = rows.drop_last();
    if position == rows.len() - 1 {
        lemma_filter_none(shorter, keep);
    } else {
        lemma_filter_first(shorter, keep, position);
    }
}

/// If no row passes the test, none is kept; and if none is kept, no row
/// passes.
pub proof fn lemma_filter_none<T>(rows: Seq<T>, keep: spec_fn(T) -> bool)
    ensures
        (forall|i: int| 0 <= i < rows.len() ==> !keep(#[trigger] rows[i])) <==> rows.filter(
            keep,
        ).len() == 0,
    decreases rows.len(),
{
    reveal(Seq::filter);
    if rows.len() > 0 {
        let shorter = rows.drop_last();
        lemma_filter_none(shorter, keep);
        if rows.filter(keep).len() == 0 {
            assert forall|i: int| 0 <= i < rows.len() implies !keep(#[trigger] rows[i]) by {
                if i < rows.len() - 1 {
                    assert(shorter[i] == rows[i]);
                }
            }
        } else {
            if forall|i: int| 0 <= i < rows.len() ==> !keep(#[trigger] rows[i]) {
                assert forall|i: int| 0 <= i < shorter.len() implies !keep(
                    #[trigger] shorter[i],
                ) by {
                    assert(shorter[i] == rows[i]);
                }
                assert(!keep(rows[rows.len() - 1]));
            }
        }
    }
}

/// Every row that is kept is a row of the run that passes the test, and
/// the rows that are kept stand in the order in which the run has them.
pub proof fn lemma_filter_positions<T>(rows: Seq<T>, keep: spec_fn(T) -> bool) -> (positions: Seq<
    int,
>)
    ensures
        positions.len() == rows.filter(keep).len(),
        forall|k: int|
            0 <= k < positions.len() ==> 0 <= #[trigger] positions[k] < rows.len()
                && rows.filter(keep)[k] == rows[positions[k]] && keep(rows[positions[k]]),
        forall|k: int, m: int|
            0 <= k < m < positions.len() ==> #[trigger] positions[k] < #[trigger] positions[m],
        forall|i: int|
            0 <= i < rows.len() && keep(rows[i]) ==> exists|k: int|
                0 <= k < positions.len() && #[trigger] positions[k] == i,
    decreases rows.len(),
{
    reveal(Seq::filter);
    if rows.len() == 0 {
        Seq::empty()
    } else {
        let shorter = rows.drop_last();
        let before = lemma_filter_positions(shorter, keep);
        let last = rows.len() - 1;
        let positions = if keep(rows[last]) {
            before.push(last)
        } else {
            before
        };
        assert forall|i: int| 0 <= i < rows.len() && keep(rows[i]) implies exists|k: int|
            0 <= k < positions.len() && #[trigger] positions[k] == i by {
            if i < last {
                assert(shorter[i] == rows[i]);
                let k = choose|k: int| 0 <= k < before.len() && #[trigger] before[k] == i;
                assert(positions[k] == i);
            } else {
                assert(positions[positions.len() - 1] == i);
            }
        }
        positions
    }
}

/// Filtering by a wide test first does not change what a narrower test
/// keeps.
pub proof fn lemma_filter_refines<T>(
    rows: Seq<T>,
    wide: spec_fn(T) -> bool,
    narrow: spec_fn(T) -> bool,
)
    requires
        forall|i: int| 0 <= i < rows.len() && narrow(#[trigger] rows[i]) ==> wide(rows[i]),
    ensures
        rows.filter(wide).filter(narrow) == rows.filter(narrow),
    decreases rows.len(),
{
    reveal(Seq::filter);
    if rows.len() > 0 {
        let shorter = rows.drop_last();
        let last = rows.last();
        assert forall|i: int| 0 <= i < shorter.len() && narrow(#[trigger] shorter[i]) implies wide(
            shorter[i],
        ) by {
            assert(shorter[i] == rows[i]);
        }
        lemma_filter_refines(shorter, wide, narrow);
        if wide(last) {
            let kept = shorter.filter(wide);
            assert(kept.push(last).drop_last() =~= kept);
            assert(kept.push(last).last() == last);
        } else {
            assert(rows[rows.len() - 1] == last);
        }
    }
}

/// If every row passes the test, every row is kept.
pub proof fn lemma_filter_all<T>(rows: Seq<T>, keep: spec_fn(T) -> bool)
    requires
        forall|i: int| 0 <= i < rows.len() ==> keep(#[trigger] rows[i]),
    ensures
        rows.filter(keep) == rows,
    decreases rows.len(),
{
    reveal(Seq::filter);
    if rows.len() > 0 {
        let shorter = rows.drop_last();
        assert forall|i: int| 0 <= i < shorter.len() implies keep(#[trigger] shorter[i]) by {
            assert(shorter[i] == rows[i]);
        }
        lemma_filter_all(shorter, keep);
        assert(keep(rows[rows.len() - 1]));
        assert(shorter.push(rows.last()) =~= rows);
    }
}

} // verus!
