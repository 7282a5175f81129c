//! Properties of the aggregation engine, proved once and for all over the
//! functional specification that [`crate::engine::compute_statistics`] is
//! verified against.

use vstd::prelude::*;

use crate::aggregation::buy_value;
use crate::aggregation::buy_volume;
use crate::aggregation::compute_stats_spec;
use crate::aggregation::insert_by_volume;
use crate::aggregation::keep_active;
use crate::aggregation::lemma_push_contains;
use crate::aggregation::lemma_push_pop;
use crate::aggregation::lemma_raw_ops_valid;
use crate::aggregation::lemma_sort_by_ts_sums;
use crate::aggregation::lemma_sums_bounds;
use crate::aggregation::lemma_sums_concat;
use crate::aggregation::lemma_sums_empty;
use crate::aggregation::ops_of_transfer;
use crate::aggregation::raw_ops;
use crate::aggregation::sell_value;
use crate::aggregation::sell_volume;
use crate::aggregation::sort_by_volume;
use crate::aggregation::stat_for;
use crate::aggregation::stats_of;
use crate::aggregation::total_volume;
use crate::aggregation::valid_ops;
use crate::aggregation::Op;
use crate::transfer::valid_batch;
use crate::transfer::Transfer;
use crate::user_stats::StatView;

verus! {

/// Every kept summary has positive total volume, and comes from the
/// unfiltered sequence.
proof fn lemma_keep_active_elems(s: Seq<StatView>)
    ensures
        forall|i: int|
            0 <= i < keep_active(s).len() ==> keep_active(s)[i].total_volume > 0 && s.contains(
                keep_active(s)[i],
            ),
    decreases s.len(),
{
    if s.len() != 0 {
        lemma_keep_active_elems(s.drop_last());
        assert forall|i: int| 0 <= i < keep_active(s).len() implies keep_active(s)[
            i
        ].total_volume > 0 && s.contains(keep_active(s)[i]) by {
            let r = keep_active(s.drop_last());
            if s.last().total_volume > 0 && i == r.len() {
                assert(keep_active(s)[i] == s.last());
                assert(s[s.len() - 1] == s.last());
            } else {
                assert(keep_active(s)[i] == r[i]);
                let k = choose|k: int| 0 <= k < s.drop_last().len() && s.drop_last()[k] == r[i];
                assert(s[k] == r[i]);
            }
        }
    }
}

/// Sorted insertion neither adds nor drops elements.
proof fn lemma_insert_by_volume_contains(s: Seq<StatView>, x: StatView, y: StatView)
    ensures
        insert_by_volume(s, x).contains(y) <==> (s.contains(y) || y == x),
    decreases s.len(),
{
    if s.len() == 0 {
        assert(insert_by_volume(s, x)[0] == x);
        if insert_by_volume(s, x).contains(y) {
            let i = choose|i: int|
                0 <= i < insert_by_volume(s, x).len() && insert_by_volume(s, x)[i] == y;
        }
    } else if s.last().total_volume < x.total_volume {
        lemma_insert_by_volume_contains(s.drop_last(), x, y);
        lemma_push_contains(insert_by_volume(s.drop_last(), x), s.last(), y);
        lemma_push_contains(s.drop_last(), s.last(), y);
        assert(s.drop_last().push(s.last()) =~= s);
    } else {
        lemma_push_contains(s, x, y);
    }
}

/// Sorting by volume neither adds nor drops elements.
proof fn lemma_sort_by_volume_contains(s: Seq<StatView>, y: StatView)
    ensures
        sort_by_volume(s).contains(y) <==> s.contains(y),
    decreases s.len(),
{
    if s.len() != 0 {
        lemma_sort_by_volume_contains(s.drop_last(), y);
        lemma_insert_by_volume_contains(sort_by_volume(s.drop_last()), s.last(), y);
        lemma_push_contains(s.drop_last(), s.last(), y);
        assert(s.drop_last().push(s.last()) =~= s);
    }
}

/// `stats_of` maps each address to its summary, position by position.
proof fn lemma_stats_of_index(ts: Seq<Transfer>, addrs: Seq<Seq<char>>)
    ensures
        stats_of(ts, addrs).len() == addrs.len(),
        forall|j: int| 0 <= j < addrs.len() ==> stats_of(ts, addrs)[j] == stat_for(ts, addrs[j]),
    decreases addrs.len(),
{
    if addrs.len() != 0 {
        lemma_stats_of_index(ts, addrs.drop_last());
        lemma_push_pop(stats_of(ts, addrs.drop_last()), stat_for(ts, addrs.last()));
        assert forall|j: int| 0 <= j < addrs.len() implies stats_of(ts, addrs)[j] == stat_for(
            ts,
            addrs[j],
        ) by {
            if j < addrs.len() - 1 {
                assert(addrs.drop_last()[j] == addrs[j]);
                assert(stats_of(ts, addrs)[j] == stats_of(ts, addrs.drop_last())[j]);
            } else {
                assert(addrs.last() == addrs[j]);
            }
        }
    }
}

/// Every element of the engine's output is the summary of some address.
proof fn lemma_output_elem_is_stat(ts: Seq<Transfer>, i: int) -> (a: Seq<char>)
    requires
        0 <= i < compute_stats_spec(ts).len(),
    ensures
        compute_stats_spec(ts)[i] == stat_for(ts, a),
        compute_stats_spec(ts)[i].address == a,
        compute_stats_spec(ts)[i].total_volume > 0,
{
    let addrs = crate::aggregation::dedup_first(crate::aggregation::address_seq(ts));
    let filtered = keep_active(stats_of(ts, addrs));
    let out = compute_stats_spec(ts);
    assert(out.contains(out[i]));
    lemma_sort_by_volume_contains(filtered, out[i]);
    let k = choose|k: int| 0 <= k < filtered.len() && filtered[k] == out[i];
    lemma_keep_active_elems(stats_of(ts, addrs));
    let j = choose|j: int| 0 <= j < stats_of(ts, addrs).len() && stats_of(ts, addrs)[j] == filtered[
        k
    ];
    lemma_stats_of_index(ts, addrs);
    addrs[j]
}

/// Every emitted summary has positive total volume, and a peak balance
/// that is never negative.
pub proof fn lemma_emitted_stats_sound(ts: Seq<Transfer>)
    ensures
        forall|i: int|
            0 <= i < compute_stats_spec(ts).len() ==> compute_stats_spec(ts)[i].total_volume > 0
                && compute_stats_spec(ts)[i].max_balance >= 0,
{
    assert forall|i: int| 0 <= i < compute_stats_spec(ts).len() implies compute_stats_spec(ts)[
        i
    ].total_volume > 0 && compute_stats_spec(ts)[i].max_balance >= 0 by {
        let a = lemma_output_elem_is_stat(ts, i);
        lemma_sums_bounds(crate::aggregation::sort_by_ts(raw_ops(ts, a)));
    }
}

/// Appending one operation adds exactly its own contribution to every
/// aggregate sum.
proof fn lemma_sums_push(s: Seq<Op>, op: Op)
    ensures
        total_volume(s.push(op)) == total_volume(s) + op.amount,
        buy_volume(s.push(op)) == buy_volume(s) + if op.is_buy {
            op.amount as int
        } else {
            0
        },
        buy_value(s.push(op)) == buy_value(s) + if op.is_buy {
            op.amount * op.usd_price
        } else {
            0
        },
        sell_volume(s.push(op)) == sell_volume(s) + if op.is_buy {
            0
        } else {
            op.amount as int
        },
        sell_value(s.push(op)) == sell_value(s) + if op.is_buy {
            0
        } else {
            op.amount * op.usd_price
        },
{
    lemma_push_pop(s, op);
}

/// What one transfer's expansion contributes to each aggregate sum of an
/// address.
proof fn lemma_ops_of_transfer_sums(t: Transfer, a: Seq<char>)
    ensures
        buy_volume(ops_of_transfer(t, a)) == if t.to@ == a {
            t.amount as int
        } else {
            0
        },
        buy_value(ops_of_transfer(t, a)) == if t.to@ == a {
            t.amount * t.usd_price
        } else {
            0
        },
        sell_volume(ops_of_transfer(t, a)) == if t.from@ == a {
            t.amount as int
        } else {
            0
        },
        sell_value(ops_of_transfer(t, a)) == if t.from@ == a {
            t.amount * t.usd_price
        } else {
            0
        },
{
    let e = Seq::<Op>::empty();
    let sell = Op { ts: t.ts, amount: t.amount, usd_price: t.usd_price, is_buy: false };
    let buy = Op { ts: t.ts, amount: t.amount, usd_price: t.usd_price, is_buy: true };
    lemma_sums_empty();
    if t.from@ == a && t.to@ == a {
        assert(ops_of_transfer(t, a) =~= e.push(sell).push(buy));
        lemma_sums_push(e, sell);
        lemma_sums_push(e.push(sell), buy);
    } else if t.from@ == a {
        assert(ops_of_transfer(t, a) =~= e.push(sell));
        lemma_sums_push(e, sell);
    } else if t.to@ == a {
        assert(ops_of_transfer(t, a) =~= e.push(buy));
        lemma_sums_push(e, buy);
    } else {
        assert(ops_of_transfer(t, a) =~= e);
    }
}

/// An address has bought something exactly when some transfer goes to it,
/// and sold something exactly when some transfer comes from it.
proof fn lemma_volume_positive_iff(ts: Seq<Transfer>, a: Seq<char>)
    requires
        valid_batch(ts),
    ensures
        buy_volume(raw_ops(ts, a)) > 0 <==> exists|i: int| 0 <= i < ts.len() && ts[i].to@ == a,
        sell_volume(raw_ops(ts, a)) > 0 <==> exists|i: int|
            0 <= i < ts.len() && ts[i].from@ == a,
    decreases ts.len(),
{
    if ts.len() != 0 {
        let dl = ts.drop_last();
        assert(valid_batch(dl)) by {
            assert(forall|i: int| 0 <= i < dl.len() ==> dl[i] == ts[i]);
        }
        lemma_volume_positive_iff(dl, a);
        lemma_sums_concat(raw_ops(dl, a), ops_of_transfer(ts.last(), a));
        lemma_ops_of_transfer_sums(ts.last(), a);
        lemma_sums_bounds(raw_ops(dl, a));
        assert(ts.last() == ts[ts.len() - 1]);
        assert(ts[ts.len() - 1].amount >= 1);
        if buy_volume(raw_ops(ts, a)) > 0 {
            if buy_volume(raw_ops(dl, a)) > 0 {
                let i = choose|i: int| 0 <= i < dl.len() && dl[i].to@ == a;
                assert(ts[i].to@ == a);
            }
        }
        if exists|i: int| 0 <= i < ts.len() && ts[i].to@ == a {
            let i = choose|i: int| 0 <= i < ts.len() && ts[i].to@ == a;
            if i < ts.len() - 1 {
                assert(dl[i].to@ == a);
                assert(buy_volume(raw_ops(dl, a)) > 0);
            }
        }
        if sell_volume(raw_ops(ts, a)) > 0 {
            if sell_volume(raw_ops(dl, a)) > 0 {
                let i = choose|i: int| 0 <= i < dl.len() && dl[i].from@ == a;
                assert(ts[i].from@ == a);
            }
        }
        if exists|i: int| 0 <= i < ts.len() && ts[i].from@ == a {
            let i = choose|i: int| 0 <= i < ts.len() && ts[i].from@ == a;
            if i < ts.len() - 1 {
                assert(dl[i].from@ == a);
                assert(sell_volume(raw_ops(dl, a)) > 0);
            }
        }
    }
}

/// Over valid operations, a direction with positive volume has positive
/// value: each contributing operation carries a positive price.
proof fn lemma_value_positive(s: Seq<Op>)
    requires
        valid_ops(s),
    ensures
        buy_volume(s) > 0 ==> buy_value(s) > 0,
        sell_volume(s) > 0 ==> sell_value(s) > 0,
    decreases s.len(),
{
    if s.len() != 0 {
        let dl = s.drop_last();
        assert(valid_ops(dl)) by {
            assert(forall|i: int| 0 <= i < dl.len() ==> dl[i] == s[i]);
        }
        lemma_value_positive(dl);
        lemma_sums_bounds(dl);
        let op = s.last();
        assert(op == s[s.len() - 1]);
        assert(op.amount * op.usd_price >= 1) by (nonlinear_arith)
            requires
                op.amount >= 1,
                op.usd_price >= 1,
        ;
    }
}

/// The average buy price of an address is the zero fallback exactly when
/// no transfer goes to it; the average sell price is the zero fallback
/// exactly when no transfer comes from it.
pub proof fn lemma_avg_price_zero_iff(ts: Seq<Transfer>, a: Seq<char>)
    requires
        valid_batch(ts),
    ensures
        stat_for(ts, a).avg_buy_num == 0 <==> (forall|i: int|
            0 <= i < ts.len() ==> ts[i].to@ != a),
        stat_for(ts, a).avg_sell_num == 0 <==> (forall|i: int|
            0 <= i < ts.len() ==> ts[i].from@ != a),
{
    let raw = raw_ops(ts, a);
    lemma_sort_by_ts_sums(raw);
    lemma_volume_positive_iff(ts, a);
    lemma_raw_ops_valid(ts, a);
    lemma_value_positive(raw);
    lemma_sums_bounds(raw);
}

/// Over every emitted summary: the average buy price is the zero
/// fallback exactly when no transfer goes to that address, and the
/// average sell price exactly when no transfer comes from it.
pub proof fn lemma_output_avg_price_zero_iff(ts: Seq<Transfer>)
    requires
        valid_batch(ts),
    ensures
        forall|i: int|
            0 <= i < compute_stats_spec(ts).len() ==> ((#[trigger] compute_stats_spec(
                ts,
            )[i]).avg_buy_num == 0 <==> (forall|j: int|
                0 <= j < ts.len() ==> (#[trigger] ts[j].to@) != compute_stats_spec(
                    ts,
                )[i].address)),
        forall|i: int|
            0 <= i < compute_stats_spec(ts).len() ==> ((#[trigger] compute_stats_spec(
                ts,
            )[i]).avg_sell_num == 0 <==> (forall|j: int|
                0 <= j < ts.len() ==> (#[trigger] ts[j].from@) != compute_stats_spec(
                    ts,
                )[i].address)),
{
    assert forall|i: int| 0 <= i < compute_stats_spec(ts).len() implies ((#[trigger]
    compute_stats_spec(ts)[i]).avg_buy_num == 0 <==> (forall|j: int|
        0 <= j < ts.len() ==> (#[trigger] ts[j].to@) != compute_stats_spec(ts)[i].address))
        && (compute_stats_spec(ts)[i].avg_sell_num == 0 <==> (forall|j: int|
        0 <= j < ts.len() ==> (#[trigger] ts[j].from@) != compute_stats_spec(
            ts,
        )[i].address)) by {
        let a = lemma_output_elem_is_stat(ts, i);
        lemma_avg_price_zero_iff(ts, a);
    }
}

/// Whether a summary sequence is ordered by total volume descending.
pub open spec fn volume_sorted_desc(s: Seq<StatView>) -> bool {
    forall|i: int, j: int| 0 <= i <= j < s.len() ==> s[i].total_volume >= s[j].total_volume
}

/// Sorted insertion keeps the descending order.
proof fn lemma_insert_by_volume_sorted(s: Seq<StatView>, x: StatView)
    requires
        volume_sorted_desc(s),
    ensures
        volume_sorted_desc(insert_by_volume(s, x)),
    decreases s.len(),
{
    if s.len() == 0 {
    } else if s.last().total_volume < x.total_volume {
        let dl = s.drop_last();
        assert(volume_sorted_desc(dl)) by {
            assert(forall|i: int| 0 <= i < dl.len() ==> dl[i] == s[i]);
        }
        lemma_insert_by_volume_sorted(dl, x);
        let r0 = insert_by_volume(dl, x);
        assert forall|k: int| 0 <= k < r0.len() implies r0[k].total_volume
            >= s.last().total_volume by {
            assert(r0.contains(r0[k]));
            lemma_insert_by_volume_contains(dl, x, r0[k]);
            if dl.contains(r0[k]) {
                let m = choose|m: int| 0 <= m < dl.len() && dl[m] == r0[k];
                assert(s[m] == r0[k]);
                assert(s[m].total_volume >= s[s.len() - 1].total_volume);
            }
        }
        let r = r0.push(s.last());
        assert forall|i: int, j: int| 0 <= i <= j < r.len() implies r[i].total_volume
            >= r[j].total_volume by {
            if j < r0.len() {
                assert(r[i] == r0[i] && r[j] == r0[j]);
            } else if i < r0.len() {
                assert(r[i] == r0[i] && r[j] == s.last());
            }
        }
    } else {
        let r = s.push(x);
        assert forall|i: int, j: int| 0 <= i <= j < r.len() implies r[i].total_volume
            >= r[j].total_volume by {
            if j < s.len() {
                assert(r[i] == s[i] && r[j] == s[j]);
            } else if i < s.len() {
                assert(r[i] == s[i] && r[j] == x);
                assert(s[i].total_volume >= s[s.len() - 1].total_volume);
            }
        }
    }
}

/// The engine's final sort leaves the sequence ordered by total volume
/// descending.
proof fn lemma_sort_by_volume_sorted(s: Seq<StatView>)
    ensures
        volume_sorted_desc(sort_by_volume(s)),
    decreases s.len(),
{
    if s.len() != 0 {
        lemma_sort_by_volume_sorted(s.drop_last());
        lemma_insert_by_volume_sorted(sort_by_volume(s.drop_last()), s.last());
    }
}

/// The engine's output is non-increasing in total volume, whatever the
/// input.
pub proof fn lemma_output_volume_ordered(ts: Seq<Transfer>)
    ensures
        volume_sorted_desc(compute_stats_spec(ts)),
{
    lemma_sort_by_volume_sorted(
        keep_active(
            stats_of(ts, crate::aggregation::dedup_first(crate::aggregation::address_seq(ts))),
        ),
    );
}

/// An empty transfer set yields an empty output.
pub proof fn lemma_empty_input()
    ensures
        compute_stats_spec(Seq::<Transfer>::empty()) == Seq::<StatView>::empty(),
{
}

/// Recomputing over an unchanged transfer sequence yields an identical
/// output: the engine's contract pins the result as a function of the
/// store contents alone, so two results of the same contents are one
/// value — same records, same values, same order.
pub proof fn lemma_recompute_identical(ts: Seq<Transfer>, r1: Seq<StatView>, r2: Seq<StatView>)
    requires
        r1 == compute_stats_spec(ts),
        r2 == compute_stats_spec(ts),
    ensures
        r1 == r2,
{
}

/// The same, at the service's records: two record sequences that each
/// satisfy the service's success contract over unchanged store contents
/// agree record for record — same addresses, same values, same order.
/// (That both calls succeed is the store's to decide and cannot be
/// promised here.)
pub proof fn lemma_recompute_identical_records(
    contents: Seq<Transfer>,
    v1: Seq<crate::user_stats::UserStats>,
    v2: Seq<crate::user_stats::UserStats>,
)
    requires
        crate::user_stats::stat_views(v1) == compute_stats_spec(contents),
        crate::user_stats::stat_views(v2) == compute_stats_spec(contents),
    ensures
        v1.len() == v2.len(),
        forall|i: int| 0 <= i < v1.len() ==> v1[i]@ == v2[i]@,
{
    assert(crate::user_stats::stat_views(v1).len() == v1.len());
    assert forall|i: int| 0 <= i < v1.len() implies v1[i]@ == v2[i]@ by {
        assert(crate::user_stats::stat_views(v1)[i] == v1[i]@);
        assert(crate::user_stats::stat_views(v2)[i] == v2[i]@);
    }
}

} // verus!
