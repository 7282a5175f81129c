//! The functional specification of the aggregation engine.
//!
//! Each transfer is expanded into at most two signed operations: a sell at
//! the sending address and a buy at the receiving address (a self-transfer
//! contributes both to the same address). Per address, operations are
//! ordered by timestamp with a deterministic tie-break — operations with
//! equal timestamps keep expansion order, which is the input order of the
//! transfers, the sell before the buy within a single transfer — and folded
//! into the aggregates of [`StatView`]. Addresses appear once each, are
//! dropped when their total volume is zero, and the result is ordered by
//! total volume descending; ties keep first-appearance order.

use vstd::prelude::*;

use crate::transfer::Transfer;
use crate::user_stats::StatView;

verus! {

/// One signed operation at an address: a buy of `amount` at `usd_price`
/// (incoming transfer) or a sell of the same shape (outgoing transfer).
#[derive(Debug, Clone, Copy, PartialEq, Eq, Structural)]
pub struct Op {
    pub ts: u64,
    pub amount: u32,
    pub usd_price: u32,
    pub is_buy: bool,
}

/// The operations one transfer contributes at address `a`: the sell at
/// `from` first, then the buy at `to`.
pub open spec fn ops_of_transfer(t: Transfer, a: Seq<char>) -> Seq<Op> {
    let sell: Seq<Op> = if t.from@ == a {
        seq![Op { ts: t.ts, amount: t.amount, usd_price: t.usd_price, is_buy: false }]
    } else {
        Seq::empty()
    };
    let buy: Seq<Op> = if t.to@ == a {
        seq![Op { ts: t.ts, amount: t.amount, usd_price: t.usd_price, is_buy: true }]
    } else {
        Seq::empty()
    };
    sell + buy
}

/// All operations of address `a`, in expansion order (transfers in input
/// order, the sell before the buy of each transfer).
pub open spec fn raw_ops(ts: Seq<Transfer>, a: Seq<char>) -> Seq<Op>
    decreases ts.len(),
{
    if ts.len() == 0 {
        Seq::empty()
    } else {
        raw_ops(ts.drop_last(), a) + ops_of_transfer(ts.last(), a)
    }
}

/// Insert `op` behind every element whose timestamp is at most `op.ts`:
/// the insertion step of a stable sort by timestamp.
pub open spec fn insert_by_ts(s: Seq<Op>, op: Op) -> Seq<Op>
    decreases s.len(),
{
    if s.len() == 0 {
        seq![op]
    } else if s.last().ts > op.ts {
        insert_by_ts(s.drop_last(), op).push(s.last())
    } else {
        s.push(op)
    }
}

/// Stable sort by timestamp: elements with equal timestamps keep their
/// original relative order.
pub open spec fn sort_by_ts(s: Seq<Op>) -> Seq<Op>
    decreases s.len(),
{
    if s.len() == 0 {
        Seq::empty()
    } else {
        insert_by_ts(sort_by_ts(s.drop_last()), s.last())
    }
}

/// Sum of the quantity moved over every operation, both directions.
pub open spec fn total_volume(s: Seq<Op>) -> int
    decreases s.len(),
{
    if s.len() == 0 {
        0
    } else {
        total_volume(s.drop_last()) + s.last().amount
    }
}

/// Sum of the quantity bought.
pub open spec fn buy_volume(s: Seq<Op>) -> int
    decreases s.len(),
{
    if s.len() == 0 {
        0
    } else {
        buy_volume(s.drop_last()) + if s.last().is_buy {
            s.last().amount as int
        } else {
            0
        }
    }
}

/// Sum of quantity times unit price over the buys.
pub open spec fn buy_value(s: Seq<Op>) -> int
    decreases s.len(),
{
    if s.len() == 0 {
        0
    } else {
        buy_value(s.drop_last()) + if s.last().is_buy {
            s.last().amount * s.last().usd_price
        } else {
            0
        }
    }
}

/// Sum of the quantity sold.
pub open spec fn sell_volume(s: Seq<Op>) -> int
    decreases s.len(),
{
    if s.len() == 0 {
        0
    } else {
        sell_volume(s.drop_last()) + if s.last().is_buy {
            0
        } else {
            s.last().amount as int
        }
    }
}

/// Sum of quantity times unit price over the sells.
pub open spec fn sell_value(s: Seq<Op>) -> int
    decreases s.len(),
{
    if s.len() == 0 {
        0
    } else {
        sell_value(s.drop_last()) + if s.last().is_buy {
            0
        } else {
            s.last().amount * s.last().usd_price
        }
    }
}

/// The signed contribution of one operation to the running balance.
pub open spec fn signed_amount(op: Op) -> int {
    if op.is_buy {
        op.amount as int
    } else {
        -(op.amount as int)
    }
}

/// The running balance after the whole sequence: the prefix sum of signed
/// amounts. It may be negative; negative intermediate states are valid.
pub open spec fn balance(s: Seq<Op>) -> int
    decreases s.len(),
{
    if s.len() == 0 {
        0
    } else {
        balance(s.drop_last()) + signed_amount(s.last())
    }
}

/// The highest running balance over every prefix of `s`, floored at zero
/// (the empty prefix has balance zero, so the peak is never negative).
pub open spec fn peak_balance(s: Seq<Op>) -> int
    decreases s.len(),
{
    if s.len() == 0 {
        0
    } else {
        let p = peak_balance(s.drop_last());
        let b = balance(s);
        if b > p {
            b
        } else {
            p
        }
    }
}

/// The summary of an address from its time-ordered operations: the
/// aggregate sums, with each average price as the exact fraction
/// value / volume and the fallback `0 / 1` when the direction has no
/// operations.
pub open spec fn stat_of_ops(a: Seq<char>, ops: Seq<Op>) -> StatView {
    StatView {
        address: a,
        total_volume: total_volume(ops),
        avg_buy_num: if buy_volume(ops) > 0 {
            buy_value(ops)
        } else {
            0
        },
        avg_buy_den: if buy_volume(ops) > 0 {
            buy_volume(ops)
        } else {
            1
        },
        avg_sell_num: if sell_volume(ops) > 0 {
            sell_value(ops)
        } else {
            0
        },
        avg_sell_den: if sell_volume(ops) > 0 {
            sell_volume(ops)
        } else {
            1
        },
        max_balance: peak_balance(ops),
    }
}

/// The summary of address `a` over the transfer sequence `ts`.
pub open spec fn stat_for(ts: Seq<Transfer>, a: Seq<char>) -> StatView {
    stat_of_ops(a, sort_by_ts(raw_ops(ts, a)))
}

/// Every address mention in `ts`, in input order, `from` before `to` for
/// each transfer.
pub open spec fn address_seq(ts: Seq<Transfer>) -> Seq<Seq<char>>
    decreases ts.len(),
{
    if ts.len() == 0 {
        Seq::empty()
    } else {
        address_seq(ts.drop_last()) + seq![ts.last().from@, ts.last().to@]
    }
}

/// Distinct elements of `s` in order of first appearance.
pub open spec fn dedup_first(s: Seq<Seq<char>>) -> Seq<Seq<char>>
    decreases s.len(),
{
    if s.len() == 0 {
        Seq::empty()
    } else {
        let d = dedup_first(s.drop_last());
        if d.contains(s.last()) {
            d
        } else {
            d.push(s.last())
        }
    }
}

/// One summary per address, in the order of `addrs`.
pub open spec fn stats_of(ts: Seq<Transfer>, addrs: Seq<Seq<char>>) -> Seq<StatView>
    decreases addrs.len(),
{
    if addrs.len() == 0 {
        Seq::empty()
    } else {
        stats_of(ts, addrs.drop_last()).push(stat_for(ts, addrs.last()))
    }
}

/// Drop the summaries with zero total volume.
pub open spec fn keep_active(s: Seq<StatView>) -> Seq<StatView>
    decreases s.len(),
{
    if s.len() == 0 {
        Seq::empty()
    } else {
        let r = keep_active(s.drop_last());
        if s.last().total_volume > 0 {
            r.push(s.last())
        } else {
            r
        }
    }
}

/// Insert `st` behind every element with total volume at least
/// `st.total_volume`: the insertion step of a stable sort by total volume
/// descending.
pub open spec fn insert_by_volume(s: Seq<StatView>, st: StatView) -> Seq<StatView>
    decreases s.len(),
{
    if s.len() == 0 {
        seq![st]
    } else if s.last().total_volume < st.total_volume {
        insert_by_volume(s.drop_last(), st).push(s.last())
    } else {
        s.push(st)
    }
}

/// Stable sort by total volume descending: equal volumes keep their
/// original relative order.
pub open spec fn sort_by_volume(s: Seq<StatView>) -> Seq<StatView>
    decreases s.len(),
{
    if s.len() == 0 {
        Seq::empty()
    } else {
        insert_by_volume(sort_by_volume(s.drop_last()), s.last())
    }
}

/// What the aggregation engine returns for the transfer sequence `ts`: one
/// summary per distinct address with nonzero total volume, ordered by total
/// volume descending.
pub open spec fn compute_stats_spec(ts: Seq<Transfer>) -> Seq<StatView> {
    sort_by_volume(keep_active(stats_of(ts, dedup_first(address_seq(ts)))))
}

/// Every operation carries a positive quantity and a positive unit price,
/// as operations expanded from valid transfers do.
pub open spec fn valid_ops(s: Seq<Op>) -> bool {
    forall|i: int| 0 <= i < s.len() ==> s[i].amount >= 1 && s[i].usd_price >= 1
}

/// Every aggregate sum of the empty sequence is zero.
pub proof fn lemma_sums_empty()
    ensures
        total_volume(Seq::<Op>::empty()) == 0,
        buy_volume(Seq::<Op>::empty()) == 0,
        buy_value(Seq::<Op>::empty()) == 0,
        sell_volume(Seq::<Op>::empty()) == 0,
        sell_value(Seq::<Op>::empty()) == 0,
        balance(Seq::<Op>::empty()) == 0,
        peak_balance(Seq::<Op>::empty()) == 0,
{
}

/// Pushing then dropping the last element is the identity; the recursive
/// definitions above unfold over `push` through this fact.
pub proof fn lemma_push_pop<A>(s: Seq<A>, x: A)
    ensures
        s.push(x).drop_last() == s,
        s.push(x).last() == x,
{
    assert(s.push(x).drop_last() =~= s);
}

/// One more element of a prefix: the recursive definitions above unfold
/// over `take` through this fact.
pub proof fn lemma_take_one_more<A>(s: Seq<A>, i: int)
    requires
        0 <= i < s.len(),
    ensures
        s.take(i + 1).drop_last() == s.take(i),
        s.take(i + 1).last() == s[i],
{
    assert(s.take(i + 1).drop_last() =~= s.take(i));
}

/// Every aggregate sum distributes over concatenation.
pub proof fn lemma_sums_concat(a: Seq<Op>, b: Seq<Op>)
    ensures
        total_volume(a + b) == total_volume(a) + total_volume(b),
        buy_volume(a + b) == buy_volume(a) + buy_volume(b),
        buy_value(a + b) == buy_value(a) + buy_value(b),
        sell_volume(a + b) == sell_volume(a) + sell_volume(b),
        sell_value(a + b) == sell_value(a) + sell_value(b),
        balance(a + b) == balance(a) + balance(b),
    decreases b.len(),
{
    if b.len() == 0 {
        assert(a + b =~= a);
    } else {
        assert((a + b).drop_last() =~= a + b.drop_last());
        assert((a + b).last() == b.last());
        lemma_sums_concat(a, b.drop_last());
    }
}

/// Inserting one operation grows the sequence by one element.
pub proof fn lemma_insert_by_ts_len(s: Seq<Op>, op: Op)
    ensures
        insert_by_ts(s, op).len() == s.len() + 1,
    decreases s.len(),
{
    if s.len() != 0 && s.last().ts > op.ts {
        lemma_insert_by_ts_len(s.drop_last(), op);
    }
}

/// Sorting keeps the length.
pub proof fn lemma_sort_by_ts_len(s: Seq<Op>)
    ensures
        sort_by_ts(s).len() == s.len(),
    decreases s.len(),
{
    if s.len() != 0 {
        lemma_sort_by_ts_len(s.drop_last());
        lemma_insert_by_ts_len(sort_by_ts(s.drop_last()), s.last());
    }
}

/// Inserting one operation adds exactly its own contribution to every
/// aggregate sum, wherever it lands.
pub proof fn lemma_insert_by_ts_sums(s: Seq<Op>, op: Op)
    ensures
        total_volume(insert_by_ts(s, op)) == total_volume(s) + op.amount,
        buy_volume(insert_by_ts(s, op)) == buy_volume(s) + if op.is_buy {
            op.amount as int
        } else {
            0
        },
        buy_value(insert_by_ts(s, op)) == buy_value(s) + if op.is_buy {
            op.amount * op.usd_price
        } else {
            0
        },
        sell_volume(insert_by_ts(s, op)) == sell_volume(s) + if op.is_buy {
            0
        } else {
            op.amount as int
        },
        sell_value(insert_by_ts(s, op)) == sell_value(s) + if op.is_buy {
            0
        } else {
            op.amount * op.usd_price
        },
        balance(insert_by_ts(s, op)) == balance(s) + signed_amount(op),
    decreases s.len(),
{
    if s.len() == 0 {
        lemma_sums_empty();
        assert(seq![op].drop_last() =~= Seq::<Op>::empty());
        assert(seq![op].last() == op);
    } else if s.last().ts > op.ts {
        lemma_insert_by_ts_sums(s.drop_last(), op);
        lemma_push_pop(insert_by_ts(s.drop_last(), op), s.last());
    } else {
        lemma_push_pop(s, op);
    }
}

/// Sorting permutes the operations, so every aggregate sum is unchanged.
pub proof fn lemma_sort_by_ts_sums(s: Seq<Op>)
    ensures
        total_volume(sort_by_ts(s)) == total_volume(s),
        buy_volume(sort_by_ts(s)) == buy_volume(s),
        buy_value(sort_by_ts(s)) == buy_value(s),
        sell_volume(sort_by_ts(s)) == sell_volume(s),
        sell_value(sort_by_ts(s)) == sell_value(s),
        balance(sort_by_ts(s)) == balance(s),
    decreases s.len(),
{
    if s.len() != 0 {
        lemma_sort_by_ts_sums(s.drop_last());
        lemma_insert_by_ts_sums(sort_by_ts(s.drop_last()), s.last());
    }
}

/// Range and sign facts about the aggregate sums: each is bounded by the
/// length times the largest per-operation contribution, the volumes split
/// the total, and the balance is the difference of the two volumes. The
/// peak balance is never negative.
pub proof fn lemma_sums_bounds(s: Seq<Op>)
    ensures
        total_volume(s) == buy_volume(s) + sell_volume(s),
        balance(s) == buy_volume(s) - sell_volume(s),
        0 <= buy_volume(s) <= s.len() * 0xFFFF_FFFF,
        0 <= sell_volume(s) <= s.len() * 0xFFFF_FFFF,
        0 <= buy_value(s) <= s.len() * (0xFFFF_FFFF * 0xFFFF_FFFF),
        0 <= sell_value(s) <= s.len() * (0xFFFF_FFFF * 0xFFFF_FFFF),
        0 <= peak_balance(s) <= s.len() * 0xFFFF_FFFF,
    decreases s.len(),
{
    if s.len() != 0 {
        lemma_sums_bounds(s.drop_last());
        let op = s.last();
        assert(op.amount * op.usd_price <= 0xFFFF_FFFF * 0xFFFF_FFFF) by (nonlinear_arith)
            requires
                op.amount <= 0xFFFF_FFFF,
                op.usd_price <= 0xFFFF_FFFF,
        ;
        assert(op.amount * op.usd_price >= 0) by (nonlinear_arith);
        assert((s.len() - 1) * 0xFFFF_FFFF + 0xFFFF_FFFF == s.len() * 0xFFFF_FFFF) by (nonlinear_arith);
        assert((s.len() - 1) * (0xFFFF_FFFF * 0xFFFF_FFFF) + 0xFFFF_FFFF * 0xFFFF_FFFF == s.len() * (
        0xFFFF_FFFF * 0xFFFF_FFFF)) by (nonlinear_arith);
    }
}

/// Whether a sequence of operations is ordered by timestamp ascending.
pub open spec fn ts_sorted(s: Seq<Op>) -> bool {
    forall|i: int, j: int| 0 <= i <= j < s.len() ==> s[i].ts <= s[j].ts
}

/// The insertion step keeps the timestamp order.
proof fn lemma_insert_by_ts_sorted(s: Seq<Op>, op: Op)
    requires
        ts_sorted(s),
    ensures
        ts_sorted(insert_by_ts(s, op)),
    decreases s.len(),
{
    if s.len() == 0 {
    } else if s.last().ts > op.ts {
        let dl = s.drop_last();
        assert(ts_sorted(dl)) by {
            assert(forall|i: int| 0 <= i < dl.len() ==> dl[i] == s[i]);
        }
        lemma_insert_by_ts_sorted(dl, op);
        let r0 = insert_by_ts(dl, op);
        lemma_insert_by_ts_len(dl, op);
        assert forall|k: int| 0 <= k < r0.len() implies r0[k].ts <= s.last().ts by {
            assert(r0.contains(r0[k]));
            lemma_insert_by_ts_contains(dl, op, r0[k]);
            if dl.contains(r0[k]) {
                let m = choose|m: int| 0 <= m < dl.len() && dl[m] == r0[k];
                assert(s[m] == r0[k]);
                assert(s[m].ts <= s[s.len() - 1].ts);
            }
        }
        let r = r0.push(s.last());
        assert forall|i: int, j: int| 0 <= i <= j < r.len() implies r[i].ts <= r[j].ts by {
            if j < r0.len() {
                assert(r[i] == r0[i] && r[j] == r0[j]);
            } else if i < r0.len() {
                assert(r[i] == r0[i] && r[j] == s.last());
            }
        }
    } else {
        let r = s.push(op);
        assert forall|i: int, j: int| 0 <= i <= j < r.len() implies r[i].ts <= r[j].ts by {
            if j < s.len() {
                assert(r[i] == s[i] && r[j] == s[j]);
            } else if i < s.len() {
                assert(r[i] == s[i] && r[j] == op);
                assert(s[i].ts <= s[s.len() - 1].ts);
            }
        }
    }
}

/// Sorted insertion neither adds nor drops operations.
proof fn lemma_insert_by_ts_contains(s: Seq<Op>, x: Op, y: Op)
    ensures
        insert_by_ts(s, x).contains(y) <==> (s.contains(y) || y == x),
    decreases s.len(),
{
    if s.len() == 0 {
        assert(insert_by_ts(s, x)[0] == x);
        if insert_by_ts(s, x).contains(y) {
            let i = choose|i: int| 0 <= i < insert_by_ts(s, x).len() && insert_by_ts(s, x)[i]
                == y;
        }
    } else if s.last().ts > x.ts {
        lemma_insert_by_ts_contains(s.drop_last(), x, y);
        lemma_push_contains(insert_by_ts(s.drop_last(), x), s.last(), y);
        lemma_push_contains(s.drop_last(), s.last(), y);
        assert(s.drop_last().push(s.last()) =~= s);
    } else {
        lemma_push_contains(s, x, y);
    }
}

/// Whether an element is kept by `push` exactly when it was there or is
/// the pushed one.
pub proof fn lemma_push_contains<A>(s: Seq<A>, x: A, y: A)
    ensures
        s.push(x).contains(y) <==> (s.contains(y) || y == x),
{
    if s.contains(y) {
        let i = choose|i: int| 0 <= i < s.len() && s[i] == y;
        assert(s.push(x)[i] == y);
    }
    assert(s.push(x)[s.len() as int] == x);
    if s.push(x).contains(y) && y != x {
        let i = choose|i: int| 0 <= i < s.push(x).len() && s.push(x)[i] == y;
        assert(s[i] == y);
    }
}

/// What the engine folds over really is time-ordered: the stable sort
/// leaves every address's operations ascending by timestamp.
pub proof fn lemma_sort_by_ts_sorted(s: Seq<Op>)
    ensures
        ts_sorted(sort_by_ts(s)),
    decreases s.len(),
{
    if s.len() != 0 {
        lemma_sort_by_ts_sorted(s.drop_last());
        lemma_insert_by_ts_sorted(sort_by_ts(s.drop_last()), s.last());
    }
}

/// A transfer contributes at most two operations, so an address has at most
/// twice as many operations as there are transfers.
pub proof fn lemma_raw_ops_len(ts: Seq<Transfer>, a: Seq<char>)
    ensures
        raw_ops(ts, a).len() <= 2 * ts.len(),
    decreases ts.len(),
{
    if ts.len() != 0 {
        lemma_raw_ops_len(ts.drop_last(), a);
    }
}

/// Operations expanded from valid transfers are valid.
pub proof fn lemma_raw_ops_valid(ts: Seq<Transfer>, a: Seq<char>)
    requires
        crate::transfer::valid_batch(ts),
    ensures
        valid_ops(raw_ops(ts, a)),
    decreases ts.len(),
{
    if ts.len() != 0 {
        assert(crate::transfer::valid_batch(ts.drop_last())) by {
            assert(forall|i: int|
                0 <= i < ts.drop_last().len() ==> ts.drop_last()[i] == ts[i]);
        }
        lemma_raw_ops_valid(ts.drop_last(), a);
        assert(ts.last() == ts[ts.len() - 1]);
    }
}

} // verus!
