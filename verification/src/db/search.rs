//! Searching a table: the first row that meets a condition, and the rows that
//! meet one, in the order in which the table holds them.

use vstd::prelude::*;

verus! {

/// The position of the first row at or after `from` that meets `p`, or the length
/// of the table where no such row is left.
pub open spec fn first_from<T>(rows: Seq<T>, p: spec_fn(T) -> bool, from: int) -> int
    decreases rows.len() - from,
{
    if from >= rows.len() {
        rows.len() as int
    } else if p(rows[from]) {
        from
    } else {
        first_from(rows, p, from + 1)
    }
}

/// The position of the first row that meets `p`, or the length of the table.
pub open spec fn first_index<T>(rows: Seq<T>, p: spec_fn(T) -> bool) -> int {
    first_from(rows, p, 0)
}

/// Whether some row meets `p`.
pub open spec fn any_row<T>(rows: Seq<T>, p: spec_fn(T) -> bool) -> bool {
    first_index(rows, p) < rows.len()
}

/// `first_from` finds a row that meets `p` and passes over none that does.
pub proof fn lemma_first_from<T>(rows: Seq<T>, p: spec_fn(T) -> bool, from: int)
    requires
        0 <= from <= rows.len(),
    ensures
        from <= first_from(rows, p, from) <= rows.len(),
        first_from(rows, p, from) < rows.len() ==> p(rows[first_from(rows, p, from)]),
        forall|i: int| from <= i < first_from(rows, p, from) ==> !p(#[trigger] rows[i]),
    decreases rows.len() - from,
{
    if from < rows.len() && !p(rows[from]) {
        lemma_first_from(rows, p, from + 1);
    }
}

/// A position whose row meets `p`, with no earlier row that does, is the first
/// index.
pub proof fn lemma_first_index_is<T>(rows: Seq<T>, p: spec_fn(T) -> bool, at: int)
    requires
        0 <= at <= rows.len(),
        at < rows.len() ==> p(rows[at]),
        forall|i: int| 0 <= i < at ==> !p(#[trigger] rows[i]),
    ensures
        first_index(rows, p) == at,
{
    lemma_first_from(rows, p, 0);
    let found = first_index(rows, p);
    if found < at {
        assert(!p(rows[found]));
    }
}

/// What `f` makes of the rows at or after `from` that meet `p`, in table order.
pub open spec fn selected_from<T, U>(
    rows: Seq<T>,
    p: spec_fn(T) -> bool,
    f: spec_fn(T) -> U,
    from: int,
) -> Seq<U>
    decreases rows.len() - from,
{
    if from >= rows.len() {
        Seq::empty()
    } else if p(rows[from]) {
        seq![f(rows[from])] + selected_from(rows, p, f, from + 1)
    } else {
        selected_from(rows, p, f, from + 1)
    }
}

/// What `f` makes of the rows that meet `p`, in table order.
pub open spec fn selected<T, U>(rows: Seq<T>, p: spec_fn(T) -> bool, f: spec_fn(T) -> U) -> Seq<U> {
    selected_from(rows, p, f, 0)
}

/// The function that hands a row back as it is.
pub open spec fn whole_row<T>() -> spec_fn(T) -> T {
    |row: T| row
}

/// The rows that meet `p`, in table order.
pub open spec fn kept<T>(rows: Seq<T>, p: spec_fn(T) -> bool) -> Seq<T> {
    selected_from(rows, p, whole_row(), 0)
}

/// Whether `f` makes `value` of some row at or after `from` that meets `p`.
pub open spec fn made_of<T, U>(
    rows: Seq<T>,
    p: spec_fn(T) -> bool,
    f: spec_fn(T) -> U,
    from: int,
    value: U,
) -> bool {
    exists|j: int| from <= j < rows.len() && p(#[trigger] rows[j]) && value == f(rows[j])
}

/// Every selected value was made of a row that meets `p`.
pub proof fn lemma_selected_from_source<T, U>(
    rows: Seq<T>,
    p: spec_fn(T) -> bool,
    f: spec_fn(T) -> U,
    from: int,
)
    requires
        0 <= from <= rows.len(),
    ensures
        forall|k: int|
            0 <= k < selected_from(rows, p, f, from).len() ==> made_of(
                rows,
                p,
                f,
                from,
                #[trigger] selected_from(rows, p, f, from)[k],
            ),
    decreases rows.len() - from,
{
    if from < rows.len() {
        lemma_selected_from_source(rows, p, f, from + 1);
        let rest = selected_from(rows, p, f, from + 1);
        let all = selected_from(rows, p, f, from);
        assert forall|k: int| 0 <= k < all.len() implies made_of(rows, p, f, from, #[trigger] all[k]) by {
            if p(rows[from]) && k == 0 {
                assert(all[0] == f(rows[from]));
            } else {
                let below = if p(rows[from]) {
                    k - 1
                } else {
                    k
                };
                assert(all[k] == rest[below]);
                assert(made_of(rows, p, f, from + 1, rest[below]));
                let j = choose|j: int|
                    from + 1 <= j < rows.len() && p(#[trigger] rows[j]) && rest[below] == f(rows[j]);
                assert(from <= j < rows.len() && p(rows[j]) && all[k] == f(rows[j]));
            }
        }
    }
}

/// What `f` makes of a row that meets `p` is among the selected values.
pub proof fn lemma_selected_from_covers<T, U>(
    rows: Seq<T>,
    p: spec_fn(T) -> bool,
    f: spec_fn(T) -> U,
    from: int,
    at: int,
)
    requires
        0 <= from <= at < rows.len(),
        p(rows[at]),
    ensures
        selected_from(rows, p, f, from).contains(f(rows[at])),
    decreases rows.len() - from,
{
    let all = selected_from(rows, p, f, from);
    if from == at {
        assert(all[0] == f(rows[at]));
    } else {
        lemma_selected_from_covers(rows, p, f, from + 1, at);
        let rest = selected_from(rows, p, f, from + 1);
        let k = choose|k: int| 0 <= k < rest.len() && rest[k] == f(rows[at]);
        if p(rows[from]) {
            assert(all[k + 1] == rest[k]);
        } else {
            assert(all[k] == rest[k]);
        }
    }
}

/// Where no row at or after `from` meets `p`, nothing is selected.
pub proof fn lemma_selected_from_none<T, U>(
    rows: Seq<T>,
    p: spec_fn(T) -> bool,
    f: spec_fn(T) -> U,
    from: int,
)
    requires
        0 <= from <= rows.len(),
        forall|j: int| from <= j < rows.len() ==> !p(#[trigger] rows[j]),
    ensures
        selected_from(rows, p, f, from) == Seq::<U>::empty(),
    decreases rows.len() - from,
{
    if from < rows.len() {
        lemma_selected_from_none(rows, p, f, from + 1);
    }
}

} // verus!
