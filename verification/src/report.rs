//! The figures behind the sales chart: for every series the books sold on each
//! day, with a zero on the days on which others sold and it did not, counted from
//! the earliest day and in the order of the days.

use std::collections::HashSet;
use vstd::multiset::Multiset;
use vstd::prelude::*;
use crate::calendar::{is_calendar_date, Date};
use crate::db::search::{
    lemma_selected_from_covers,
    lemma_selected_from_source,
    made_of,
    selected,
    selected_from,
};

verus! {

/// Whether some point of the data lies on the given day.
pub open spec fn has_day(data: Seq<(i64, i64)>, day: i64) -> bool {
    exists|i: int| 0 <= i < data.len() && (#[trigger] data[i]).0 == day
}

/// The condition "no point of the data lies on this day".
pub open spec fn is_missing_in(data: Seq<(i64, i64)>) -> spec_fn(i64) -> bool {
    |day: i64| !has_day(data, day)
}

/// A day without a sale.
pub open spec fn zero_point() -> spec_fn(i64) -> (i64, i64) {
    |day: i64| (day, 0i64)
}

/// The days on which points lie: each day once, in the order in which it first
/// occurs.
pub open spec fn days_of(points: Seq<(i64, i64)>) -> Seq<i64>
    decreases points.len(),
{
    if points.len() == 0 {
        Seq::empty()
    } else {
        let before = days_of(points.drop_last());
        if before.contains(points.last().0) {
            before
        } else {
            before.push(points.last().0)
        }
    }
}

/// The earliest day on which a point lies, or zero where there is no point.
pub open spec fn least_day(points: Seq<(i64, i64)>) -> i64
    decreases points.len(),
{
    if points.len() == 0 {
        0
    } else if points.len() == 1 {
        points[0].0
    } else {
        let before = least_day(points.drop_last());
        if points.last().0 < before {
            points.last().0
        } else {
            before
        }
    }
}

/// The points of every series, one series after the other.
pub open spec fn flat(series: Seq<Vec<(i64, i64)>>) -> Seq<(i64, i64)>
    decreases series.len(),
{
    if series.len() == 0 {
        Seq::empty()
    } else {
        flat(series.drop_last()) + series.last()@
    }
}

/// The data with a zero behind it for every listed day on which it has no point.
pub open spec fn filled(data: Seq<(i64, i64)>, days: Seq<i64>) -> Seq<(i64, i64)> {
    data + selected(days, is_missing_in(data), zero_point())
}

/// The data with every day counted from `earliest`.
pub open spec fn shifted(data: Seq<(i64, i64)>, earliest: i64) -> Seq<(i128, i128)> {
    Seq::new(data.len(), |i: int| ((data[i].0 - earliest) as i128, data[i].1 as i128))
}

/// What the chart shows of one series among all: its points, a zero on every day
/// on which only other series have points, and every day counted from the
/// earliest day of all.
pub open spec fn charted(data: Seq<(i64, i64)>, all: Seq<(i64, i64)>) -> Seq<(i128, i128)> {
    shifted(filled(data, days_of(all)), least_day(all))
}

/// Whether some point lies on the given day.
pub open spec fn on_day(points: Seq<(i128, i128)>, day: int) -> bool {
    exists|i: int| 0 <= i < points.len() && (#[trigger] points[i]).0 == day
}

/// Whether some point lies the given number of days after `earliest`.
pub open spec fn has_day_since(all: Seq<(i64, i64)>, earliest: i64, day: int) -> bool {
    exists|i: int| 0 <= i < all.len() && (#[trigger] all[i]).0 - earliest == day
}

/// Whether the points are in the order of their days.
pub open spec fn in_day_order(data: Seq<(i128, i128)>) -> bool {
    forall|i: int, j: int| 0 <= i <= j < data.len() ==> (#[trigger] data[i]).0 <= (#[trigger] data[j]).0
}

/// How many days lie between two days of the calendar, from the first to the
/// second; negative where the second is the earlier one.
pub uninterp spec fn days_between(from: (int, int, int), to: (int, int, int)) -> int;

/// Builds two `chrono::NaiveDate`s with `from_ymd_opt` and takes the whole days of
/// `to.signed_duration_since(from)` with `TimeDelta::num_days`. The contract names
/// the difference; chrono's range of years keeps it far within 64 bits. Where
/// chrono accepts both dates, which it does for every day of the calendar, the
/// result is `Some`.
#[verifier::external_body]
fn naive_days_between(from: (i32, u32, u32), to: (i32, u32, u32)) -> (r: Option<i64>)
    ensures
        is_calendar_date(from.0 as int, from.1 as int, from.2 as int) && is_calendar_date(
            to.0 as int,
            to.1 as int,
            to.2 as int,
        ) ==> r is Some,
        r matches Some(days) ==> days == days_between(
            (from.0 as int, from.1 as int, from.2 as int),
            (to.0 as int, to.1 as int, to.2 as int),
        ),
{
    match (
        chrono::NaiveDate::from_ymd_opt(from.0, from.1, from.2),
        chrono::NaiveDate::from_ymd_opt(to.0, to.1, to.2),
    ) {
        (Some(start), Some(end)) => Some(end.signed_duration_since(start).num_days()),
        _ => None,
    }
}

/// The days from `from` to `to`.
pub open spec fn days_from_to(from: Date, to: Date) -> int {
    days_between(
        (from.spec_year() as int, from.spec_month() as int, from.spec_day() as int),
        (to.spec_year() as int, to.spec_month() as int, to.spec_day() as int),
    )
}

/// How many days after `from` the day `to` lies; negative where it lies before.
pub fn days_after(from: &Date, to: &Date) -> (days: i64)
    ensures
        days == days_from_to(*from, *to),
{
    let start = (from.year(), from.month(), from.day());
    let end = (to.year(), to.month(), to.day());
    match naive_days_between(start, end) {
        Some(days) => days,
        None => {
            proof {
                assert(false);
            }
            0
        },
    }
}

/// The days on which the points lie: each day once, in the order in which it first
/// occurs.
pub fn distinct_days(points: &Vec<(i64, i64)>) -> (days: Vec<i64>)
    ensures
        days@ == days_of(points@),
        days@.no_duplicates(),
        forall|day: i64| days@.contains(day) <==> has_day(points@, day),
{
    broadcast use vstd::std_specs::hash::group_hash_axioms;

    let mut seen: HashSet<i64> = HashSet::new();
    let mut days: Vec<i64> = Vec::new();
    let mut i: usize = 0;
    while i < points.len()
        invariant
            i <= points.len(),
            days@ == days_of(points@.take(i as int)),
            forall|day: i64| seen@.contains(day) <==> days@.contains(day),
        decreases points.len() - i,
    {
        let day = points[i].0;
        let ghost before = days@;
        if !seen.contains(&day) {
            seen.insert(day);
            days.push(day);
            proof {
                assert forall|d: i64| seen@.contains(d) <==> days@.contains(d) by {
                    if before.contains(d) {
                        let at = choose|at: int| 0 <= at < before.len() && before[at] == d;
                        assert(days@[at] == d);
                    }
                    if d == day {
                        assert(days@[before.len() as int] == d);
                    }
                }
            }
        }
        proof {
            let next = points@.take(i as int + 1);
            assert(next.drop_last() =~= points@.take(i as int));
            assert(next.last().0 == day);
        }
        i = i + 1;
    }
    proof {
        assert(points@.take(points@.len() as int) =~= points@);
        lemma_days_of(points@);
    }
    days
}

/// The data with a zero for every listed day on which it has no point, the zeros
/// behind the data and in the order of the list.
pub fn with_missing_days(data: Vec<(i64, i64)>, days: &Vec<i64>) -> (r: Vec<(i64, i64)>)
    ensures
        r@ == data@ + selected(days@, is_missing_in(data@), zero_point()),
{
    let ghost given = data@;
    let count = data.len();
    let mut filled = data;
    let mut i: usize = 0;
    proof {
        assert(filled@.take(count as int) =~= given);
    }
    while i < days.len()
        invariant
            i <= days.len(),
            count == given.len(),
            count <= filled@.len(),
            filled@.take(count as int) == given,
            filled@ + selected_from(days@, is_missing_in(given), zero_point(), i as int)
                == given + selected(days@, is_missing_in(given), zero_point()),
        decreases days.len() - i,
    {
        let day = days[i];
        let ghost before = filled@;
        let missing = !has_point_on(&filled, count, day, Ghost(given));
        if missing {
            filled.push((day, 0));
        }
        proof {
            let rest = selected_from(days@, is_missing_in(given), zero_point(), i as int + 1);
            assert(is_missing_in(given)(day) == missing);
            if missing {
                assert(filled@ + rest =~= before + (seq![zero_point()(day)] + rest));
            }
            assert(filled@.take(count as int) =~= given);
        }
        i = i + 1;
    }
    proof {
        assert(filled@ + Seq::<(i64, i64)>::empty() =~= filled@);
    }
    filled
}

fn has_point_on(data: &Vec<(i64, i64)>, upto: usize, day: i64, Ghost(given): Ghost<Seq<(i64, i64)>>) -> (r:
    bool)
    requires
        upto <= data@.len(),
        data@.take(upto as int) == given,
    ensures
        r == has_day(given, day),
{
    let mut k: usize = 0;
    while k < upto
        invariant
            k <= upto <= data@.len(),
            data@.take(upto as int) == given,
            forall|j: int| 0 <= j < k ==> (#[trigger] given[j]).0 != day,
        decreases upto - k,
    {
        proof {
            assert(given[k as int] == data@[k as int]);
        }
        if data[k].0 == day {
            return true;
        }
        k = k + 1;
    }
    false
}

/// The earliest day on which a point lies, or zero where there is no point.
pub fn earliest_day(points: &Vec<(i64, i64)>) -> (r: i64)
    ensures
        r == least_day(points@),
        points@.len() == 0 ==> r == 0,
        points@.len() > 0 ==> has_day(points@, r),
        forall|i: int| 0 <= i < points@.len() ==> r <= (#[trigger] points@[i]).0,
{
    if points.len() == 0 {
        return 0;
    }
    let mut earliest = points[0].0;
    let mut i: usize = 1;
    while i < points.len()
        invariant
            1 <= i <= points.len(),
            earliest == least_day(points@.take(i as int)),
            exists|j: int| 0 <= j < i && (#[trigger] points@[j]).0 == earliest,
            forall|j: int| 0 <= j < i ==> earliest <= (#[trigger] points@[j]).0,
        decreases points.len() - i,
    {
        proof {
            assert(points@.take(i as int + 1).drop_last() =~= points@.take(i as int));
        }
        if points[i].0 < earliest {
            earliest = points[i].0;
        }
        i = i + 1;
    }
    proof {
        assert(points@.take(points@.len() as int) =~= points@);
    }
    earliest
}

/// The data with every day counted from `earliest`.
pub fn since_earliest(data: &Vec<(i64, i64)>, earliest: i64) -> (r: Vec<(i128, i128)>)
    ensures
        r@.len() == data@.len(),
        forall|i: int|
            0 <= i < r@.len() ==> #[trigger] r@[i] == (
                (data@[i].0 - earliest) as i128,
                data@[i].1 as i128,
            ),
{
    let mut out: Vec<(i128, i128)> = Vec::new();
    let mut i: usize = 0;
    while i < data.len()
        invariant
            i <= data.len(),
            out@.len() == i,
            forall|j: int|
                0 <= j < i ==> #[trigger] out@[j] == (
                    (data@[j].0 - earliest) as i128,
                    data@[j].1 as i128,
                ),
        decreases data.len() - i,
    {
        out.push((data[i].0 as i128 - earliest as i128, data[i].1 as i128));
        i = i + 1;
    }
    out
}

/// Inserting into a sequence adds one occurrence of what is inserted.
proof fn lemma_insert_to_multiset(s: Seq<(i128, i128)>, at: int, x: (i128, i128))
    requires
        0 <= at <= s.len(),
    ensures
        s.insert(at, x).to_multiset() == s.to_multiset().insert(x),
{
    broadcast use vstd::seq_lib::group_to_multiset_ensures;

    let t = s.insert(at, x);
    assert(t.remove(at) =~= s);
    assert(t[at] == x);
    vstd::seq_lib::to_multiset_remove(t, at);
    assert(t.contains(x));
    assert(t.to_multiset().count(x) > 0);
    assert(t.to_multiset() =~= s.to_multiset().insert(x));
}

/// The points in the order of their days. Points of one day keep the order in
/// which they came.
pub fn sort_by_day(data: Vec<(i128, i128)>) -> (r: Vec<(i128, i128)>)
    ensures
        in_day_order(r@),
        r@.to_multiset() == data@.to_multiset(),
{
    let mut sorted: Vec<(i128, i128)> = Vec::new();
    let mut i: usize = 0;
    proof {
        assert(data@.take(0) =~= Seq::<(i128, i128)>::empty());
    }
    while i < data.len()
        invariant
            i <= data.len(),
            in_day_order(sorted@),
            sorted@.to_multiset() == data@.take(i as int).to_multiset(),
        decreases data.len() - i,
    {
        let point = data[i];
        let mut at: usize = sorted.len();
        while at > 0 && sorted[at - 1].0 > point.0
            invariant
                at <= sorted.len(),
                in_day_order(sorted@),
                forall|j: int| at <= j < sorted@.len() ==> (#[trigger] sorted@[j]).0 > point.0,
            decreases at,
        {
            at = at - 1;
        }
        let ghost before = sorted@;
        proof {
            lemma_insert_to_multiset(before, at as int, point);
            vstd::seq_lib::to_multiset_build(data@.take(i as int), point);
            assert(data@.take(i as int + 1) =~= data@.take(i as int).push(point));
            if at > 0 {
                assert(before[at - 1].0 <= point.0);
            }
        }
        sorted.insert(at, point);
        proof {
            let after = sorted@;
            assert forall|a: int, b: int| 0 <= a <= b < after.len() implies (#[trigger] after[a]).0 <= (
            #[trigger] after[b]).0 by {
                let low = if a < at {
                    before[a]
                } else if a == at {
                    point
                } else {
                    before[a - 1]
                };
                let high = if b < at {
                    before[b]
                } else if b == at {
                    point
                } else {
                    before[b - 1]
                };
                assert(after[a] == low && after[b] == high);
                if a < at && b == at {
                    assert(before[a].0 <= before[at - 1].0);
                }
            }
        }
        i = i + 1;
    }
    proof {
        assert(data@.take(data@.len() as int) =~= data@);
    }
    sorted
}

/// The list of days holds no day twice, and holds a day exactly if a point lies on
/// it.
pub proof fn lemma_days_of(points: Seq<(i64, i64)>)
    ensures
        days_of(points).no_duplicates(),
        forall|day: i64|
            #![trigger days_of(points).contains(day)]
            #![trigger has_day(points, day)]
            days_of(points).contains(day) <==> has_day(points, day),
    decreases points.len(),
{
    if points.len() > 0 {
        let seen = points.drop_last();
        let before = days_of(seen);
        let days = days_of(points);
        let last = points.last().0;
        lemma_days_of(seen);
        assert forall|day: i64| days.contains(day) <==> has_day(points, day) by {
            if days.contains(day) {
                if before.contains(day) {
                    assert(days_of(seen).contains(day));
                    assert(has_day(seen, day));
                    let j = choose|j: int| 0 <= j < seen.len() && (#[trigger] seen[j]).0 == day;
                    assert(points[j] == seen[j]);
                } else {
                    let at = choose|at: int| 0 <= at < days.len() && days[at] == day;
                    if at < before.len() {
                        assert(before[at] == day);
                    }
                    assert(points[points.len() - 1].0 == day);
                }
            }
            if has_day(points, day) {
                let j = choose|j: int| 0 <= j < points.len() && (#[trigger] points[j]).0 == day;
                if j < seen.len() {
                    assert(seen[j] == points[j]);
                    assert(has_day(seen, day));
                    assert(days_of(seen).contains(day));
                    let at = choose|at: int| 0 <= at < before.len() && before[at] == day;
                    assert(days[at] == day);
                } else if before.contains(last) {
                } else {
                    assert(days[before.len() as int] == day);
                }
            }
        }
    }
}

/// The figures of a sales chart.
pub struct SalesChart {
    /// The earliest day on which anything was sold, from which the days of every
    /// series are counted.
    pub earliest: i64,
    /// The points of each series, in the order in which the series came.
    pub series: Vec<Vec<(i128, i128)>>,
}

/// The points of a series are among the points of all series.
proof fn lemma_flat_covers(series: Seq<Vec<(i64, i64)>>, k: int)
    requires
        0 <= k < series.len(),
    ensures
        forall|day: i64| has_day(series[k]@, day) ==> has_day(flat(series), day),
    decreases series.len(),
{
    let all = flat(series);
    let head = flat(series.drop_last());
    assert forall|day: i64| has_day(series[k]@, day) implies has_day(all, day) by {
        if k == series.len() - 1 {
            let i = choose|i: int| 0 <= i < series[k]@.len() && (#[trigger] series[k]@[i]).0 == day;
            assert(all[head.len() + i] == series[k]@[i]);
        } else {
            lemma_flat_covers(series.drop_last(), k);
            assert(series.drop_last()[k] == series[k]);
            assert(has_day(series.drop_last()[k]@, day));
            assert(has_day(head, day));
            let i = choose|i: int| 0 <= i < head.len() && (#[trigger] head[i]).0 == day;
            assert(all[i] == head[i]);
        }
    }
}

/// A series that is filled up with zeros has a point on exactly the days on which
/// any series has one.
proof fn lemma_filled_covers(data: Seq<(i64, i64)>, days: Seq<i64>, all: Seq<(i64, i64)>)
    requires
        forall|day: i64| days.contains(day) <==> has_day(all, day),
        forall|day: i64| has_day(data, day) ==> has_day(all, day),
    ensures
        forall|day: i64| has_day(filled(data, days), day) <==> has_day(all, day),
{
    let zeros = selected(days, is_missing_in(data), zero_point());
    let full = filled(data, days);
    lemma_selected_from_source(days, is_missing_in(data), zero_point(), 0);
    assert forall|day: i64| has_day(full, day) <==> has_day(all, day) by {
        if has_day(full, day) {
            let i = choose|i: int| 0 <= i < full.len() && (#[trigger] full[i]).0 == day;
            if i < data.len() {
                assert(full[i] == data[i]);
                assert(has_day(data, day));
            } else {
                assert(full[i] == zeros[i - data.len()]);
                assert(made_of(days, is_missing_in(data), zero_point(), 0, zeros[i - data.len()]));
                let j = choose|j: int|
                    0 <= j < days.len() && is_missing_in(data)(#[trigger] days[j]) && zeros[i
                        - data.len()] == zero_point()(days[j]);
                assert(days.contains(days[j]));
            }
        }
        if has_day(all, day) {
            if has_day(data, day) {
                let i = choose|i: int| 0 <= i < data.len() && (#[trigger] data[i]).0 == day;
                assert(full[i] == data[i]);
            } else {
                let j = choose|j: int| 0 <= j < days.len() && days[j] == day;
                lemma_selected_from_covers(days, is_missing_in(data), zero_point(), 0, j);
                let k = choose|k: int| 0 <= k < zeros.len() && zeros[k] == zero_point()(days[j]);
                assert(full[data.len() + k] == zeros[k]);
            }
        }
    }
}

/// What follows for points that are what the chart shows of a series, put in the
/// order of their days: they lie on exactly the days on which any series has a
/// point, counted from the earliest, and where anything was sold at all the first
/// of them lies on day 0.
proof fn lemma_chart_shape(
    out: Seq<(i128, i128)>,
    full: Seq<(i64, i64)>,
    all: Seq<(i64, i64)>,
    earliest: i64,
)
    requires
        in_day_order(out),
        out.to_multiset() == shifted(full, earliest).to_multiset(),
        forall|day: i64| has_day(full, day) <==> has_day(all, day),
        all.len() > 0 ==> has_day(all, earliest),
        forall|i: int| 0 <= i < all.len() ==> earliest <= (#[trigger] all[i]).0,
    ensures
        forall|day: int| on_day(out, day) <==> has_day_since(all, earliest, day),
        all.len() > 0 ==> out.len() > 0 && out[0].0 == 0,
{
    let moved = shifted(full, earliest);
    out.to_multiset_ensures();
    moved.to_multiset_ensures();
    assert forall|day: int| on_day(out, day) <==> has_day_since(all, earliest, day) by {
        if on_day(out, day) {
            let i = choose|i: int| 0 <= i < out.len() && (#[trigger] out[i]).0 == day;
            assert(out.contains(out[i]));
            assert(moved.to_multiset().count(out[i]) > 0);
            assert(moved.contains(out[i]));
            let j = choose|j: int| 0 <= j < moved.len() && moved[j] == out[i];
            assert(full[j].0 - earliest == day);
            assert(has_day(full, full[j].0));
            let m = choose|m: int| 0 <= m < all.len() && (#[trigger] all[m]).0 == full[j].0;
            assert(all[m].0 - earliest == day);
        }
        if has_day_since(all, earliest, day) {
            let m = choose|m: int| 0 <= m < all.len() && (#[trigger] all[m]).0 - earliest == day;
            assert(has_day(all, all[m].0));
            let j = choose|j: int| 0 <= j < full.len() && (#[trigger] full[j]).0 == all[m].0;
            assert(moved[j].0 == day);
            assert(moved.contains(moved[j]));
            assert(out.to_multiset().count(moved[j]) > 0);
            assert(out.contains(moved[j]));
            let i = choose|i: int| 0 <= i < out.len() && out[i] == moved[j];
            assert(out[i].0 == day);
        }
    }
    if all.len() > 0 {
        let m = choose|m: int| 0 <= m < all.len() && (#[trigger] all[m]).0 == earliest;
        assert(all[m].0 - earliest == 0);
        assert(has_day_since(all, earliest, 0));
        assert(on_day(out, 0));
        let i = choose|i: int| 0 <= i < out.len() && (#[trigger] out[i]).0 == 0;
        assert(out[0].0 <= out[i].0);
        assert(on_day(out, out[0].0 as int));
        assert(has_day_since(all, earliest, out[0].0 as int));
    }
}

fn flatten(series: &Vec<Vec<(i64, i64)>>) -> (all: Vec<(i64, i64)>)
    ensures
        all@ == flat(series@),
{
    let mut all: Vec<(i64, i64)> = Vec::new();
    let mut k: usize = 0;
    while k < series.len()
        invariant
            k <= series.len(),
            all@ == flat(series@.take(k as int)),
        decreases series.len() - k,
    {
        let ghost head = all@;
        let mut i: usize = 0;
        while i < series[k].len()
            invariant
                k < series.len(),
                i <= series@[k as int]@.len(),
                all@ == head + series@[k as int]@.take(i as int),
            decreases series@[k as int]@.len() - i,
        {
            all.push(series[k][i]);
            proof {
                assert(all@ =~= head + series@[k as int]@.take(i as int + 1));
            }
            i = i + 1;
        }
        proof {
            let next = series@.take(k as int + 1);
            assert(next.drop_last() =~= series@.take(k as int));
            assert(next.last() == series@[k as int]);
            assert(series@[k as int]@.take(series@[k as int]@.len() as int) =~= series@[k as int]@);
        }
        k = k + 1;
    }
    proof {
        assert(series@.take(series@.len() as int) =~= series@);
    }
    all
}

fn copy_points(data: &Vec<(i64, i64)>) -> (r: Vec<(i64, i64)>)
    ensures
        r@ == data@,
{
    let mut r: Vec<(i64, i64)> = Vec::new();
    let mut i: usize = 0;
    while i < data.len()
        invariant
            i <= data.len(),
            r@ == data@.take(i as int),
        decreases data.len() - i,
    {
        r.push(data[i]);
        proof {
            assert(r@ =~= data@.take(i as int + 1));
        }
        i = i + 1;
    }
    proof {
        assert(data@.take(data@.len() as int) =~= data@);
    }
    r
}

/// The figures of the sales chart for the given series, each a list of days and
/// the books sold on them.
///
/// Every series comes back with what the chart shows of it, in the order of the
/// days. So every series has a point on exactly the days on which any series has
/// one, the days are counted from the earliest of them, and where anything was
/// sold at all every series starts on day 0.
pub fn chart_points(series: &Vec<Vec<(i64, i64)>>) -> (chart: SalesChart)
    ensures
        chart.earliest == least_day(flat(series@)),
        chart.series@.len() == series@.len(),
        forall|k: int|
            0 <= k < series@.len() ==> in_day_order((#[trigger] chart.series@[k])@)
                && chart.series@[k]@.to_multiset() == charted(
                series@[k]@,
                flat(series@),
            ).to_multiset(),
        forall|k: int, day: int|
            0 <= k < series@.len() ==> (on_day((#[trigger] chart.series@[k])@, day) <==> #[trigger] has_day_since(
                flat(series@),
                chart.earliest,
                day,
            )),
        forall|k: int|
            0 <= k < series@.len() && flat(series@).len() > 0 ==> (#[trigger] chart.series@[k])@.len()
                > 0 && chart.series@[k]@[0].0 == 0,
{
    let all = flatten(series);
    let days = distinct_days(&all);
    let earliest = earliest_day(&all);
    let mut out: Vec<Vec<(i128, i128)>> = Vec::new();
    let mut k: usize = 0;
    while k < series.len()
        invariant
            k <= series.len(),
            out@.len() == k,
            all@ == flat(series@),
            days@ == days_of(all@),
            forall|day: i64| days@.contains(day) <==> has_day(all@, day),
            earliest == least_day(all@),
            all@.len() > 0 ==> has_day(all@, earliest),
            forall|i: int| 0 <= i < all@.len() ==> earliest <= (#[trigger] all@[i]).0,
            forall|j: int|
                0 <= j < k ==> in_day_order((#[trigger] out@[j])@) && out@[j]@.to_multiset()
                    == charted(series@[j]@, all@).to_multiset(),
            forall|j: int, day: int|
                0 <= j < k ==> (on_day((#[trigger] out@[j])@, day) <==> #[trigger] has_day_since(
                    all@,
                    earliest,
                    day,
                )),
            forall|j: int|
                0 <= j < k && all@.len() > 0 ==> (#[trigger] out@[j])@.len() > 0 && out@[j]@[0].0
                    == 0,
        decreases series.len() - k,
    {
        let full = with_missing_days(copy_points(&series[k]), &days);
        let moved = since_earliest(&full, earliest);
        let sorted = sort_by_day(moved);
        proof {
            assert(full@ == filled(series@[k as int]@, days@));
            assert(moved@ =~= shifted(full@, earliest));
            lemma_flat_covers(series@, k as int);
            lemma_filled_covers(series@[k as int]@, days@, all@);
            lemma_chart_shape(sorted@, full@, all@, earliest);
        }
        out.push(sorted);
        k = k + 1;
    }
    SalesChart { earliest, series: out }
}

} // verus!
