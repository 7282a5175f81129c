//! The aggregation engine: executable code verified against the functional
//! specification in [`crate::aggregation`].

use vstd::prelude::*;

use crate::aggregation::address_seq;
use crate::aggregation::compute_stats_spec;
use crate::aggregation::dedup_first;
use crate::aggregation::insert_by_ts;
use crate::aggregation::ops_of_transfer;
use crate::aggregation::raw_ops;
use crate::aggregation::sort_by_ts;
use crate::aggregation::balance;
use crate::aggregation::buy_value;
use crate::aggregation::buy_volume;
use crate::aggregation::sell_value;
use crate::aggregation::sell_volume;
use crate::aggregation::total_volume;
use crate::aggregation::peak_balance;
use crate::aggregation::stat_of_ops;
use crate::aggregation::stat_for;
use crate::aggregation::stats_of;
use crate::aggregation::keep_active;
use crate::aggregation::insert_by_volume;
use crate::aggregation::sort_by_volume;
use crate::aggregation::lemma_sums_bounds;
use crate::aggregation::Op;
use crate::user_stats::AvgPrice;
use crate::user_stats::StatView;
use crate::user_stats::UserStats;
use crate::user_stats::stat_views;
use crate::aggregation::lemma_push_pop;
use crate::aggregation::lemma_take_one_more;
use crate::transfer::Transfer;

verus! {

/// The engine holds and sorts the full transfer set in memory; this bound
/// (2^62 events) keeps every aggregate far inside its accumulator type and
/// is unreachable for any set that fits in an address space.
pub const MAX_TRANSFERS: u64 = 0x4000_0000_0000_0000;

/// The views of a sequence of owned address strings, element by element.
pub open spec fn addr_views(s: Seq<String>) -> Seq<Seq<char>> {
    Seq::new(s.len(), |i: int| s[i]@)
}

/// Whether `a` names the same address as some element of `addrs`.
fn contains_addr(addrs: &Vec<String>, a: &String) -> (b: bool)
    ensures
        b == addr_views(addrs@).contains(a@),
{
    let mut i: usize = 0;
    while i < addrs.len()
        invariant
            i <= addrs@.len(),
            forall|k: int| 0 <= k < i ==> addrs@[k]@ != a@,
        decreases addrs@.len() - i,
    {
        if a.eq(&addrs[i]) {
            assert(addr_views(addrs@)[i as int] == a@);
            return true;
        }
        i += 1;
    }
    assert(forall|k: int| 0 <= k < addr_views(addrs@).len() ==> addr_views(addrs@)[k] != a@);
    false
}

/// Every distinct address mentioned by some transfer, in order of first
/// appearance (`from` before `to` within one transfer).
fn collect_addresses(transfers: &Vec<Transfer>) -> (addrs: Vec<String>)
    ensures
        addr_views(addrs@) == dedup_first(address_seq(transfers@)),
{
    let mut addrs: Vec<String> = Vec::new();
    proof {
        assert(transfers@.take(0) =~= Seq::<Transfer>::empty());
        assert(addr_views(addrs@) =~= dedup_first(address_seq(transfers@.take(0))));
    }
    let mut i: usize = 0;
    while i < transfers.len()
        invariant
            i <= transfers@.len(),
            addr_views(addrs@) == dedup_first(address_seq(transfers@.take(i as int))),
        decreases transfers@.len() - i,
    {
        let ghost pre = transfers@.take(i as int);
        let ghost post = transfers@.take(i + 1);
        let ghost f = transfers@[i as int].from@;
        let ghost tt = transfers@[i as int].to@;
        let ghost d0 = dedup_first(address_seq(pre));
        let ghost d1 = if d0.contains(f) {
            d0
        } else {
            d0.push(f)
        };
        proof {
            lemma_take_one_more(transfers@, i as int);
            assert(address_seq(post) == address_seq(pre) + seq![f, tt]);
            assert((address_seq(pre) + seq![f, tt]).drop_last() =~= address_seq(pre).push(f));
            assert((address_seq(pre) + seq![f, tt]).last() == tt);
            lemma_push_pop(address_seq(pre), f);
            assert(dedup_first(address_seq(pre).push(f)) == d1);
            assert(dedup_first(address_seq(post)) == if d1.contains(tt) {
                d1
            } else {
                d1.push(tt)
            });
        }
        let t = &transfers[i];
        if !contains_addr(&addrs, &t.from) {
            let ghost before = addrs@;
            addrs.push(t.from.clone());
            proof {
                assert(addr_views(addrs@) =~= addr_views(before).push(t.from@));
            }
        }
        if !contains_addr(&addrs, &t.to) {
            let ghost before = addrs@;
            addrs.push(t.to.clone());
            proof {
                assert(addr_views(addrs@) =~= addr_views(before).push(t.to@));
            }
        }
        proof {
            assert(addr_views(addrs@) == dedup_first(address_seq(post)));
        }
        i += 1;
    }
    proof {
        assert(transfers@.take(transfers@.len() as int) =~= transfers@);
    }
    addrs
}

/// The operations of address `a`, in expansion order.
fn build_ops(transfers: &Vec<Transfer>, a: &String) -> (ops: Vec<Op>)
    ensures
        ops@ == raw_ops(transfers@, a@),
{
    let mut ops: Vec<Op> = Vec::new();
    proof {
        assert(transfers@.take(0) =~= Seq::<Transfer>::empty());
        assert(ops@ =~= raw_ops(transfers@.take(0), a@));
    }
    let mut i: usize = 0;
    while i < transfers.len()
        invariant
            i <= transfers@.len(),
            ops@ == raw_ops(transfers@.take(i as int), a@),
        decreases transfers@.len() - i,
    {
        let ghost pre = transfers@.take(i as int);
        let ghost post = transfers@.take(i + 1);
        proof {
            lemma_take_one_more(transfers@, i as int);
            assert(raw_ops(post, a@) == raw_ops(pre, a@) + ops_of_transfer(
                transfers@[i as int],
                a@,
            ));
        }
        let t = &transfers[i];
        let ghost before = ops@;
        if a.eq(&t.from) {
            ops.push(Op { ts: t.ts, amount: t.amount, usd_price: t.usd_price, is_buy: false });
        }
        if a.eq(&t.to) {
            ops.push(Op { ts: t.ts, amount: t.amount, usd_price: t.usd_price, is_buy: true });
        }
        proof {
            assert(ops@ =~= before + ops_of_transfer(transfers@[i as int], a@));
        }
        i += 1;
    }
    proof {
        assert(transfers@.take(transfers@.len() as int) =~= transfers@);
    }
    ops
}

/// Insert `op` into the timestamp-sorted `v`, behind every element whose
/// timestamp is at most `op.ts`.
fn insert_op_by_ts(v: &mut Vec<Op>, op: Op)
    ensures
        final(v)@ == insert_by_ts(old(v)@, op),
{
    let mut pos: usize = v.len();
    proof {
        assert(v@.take(pos as int) =~= v@);
        assert(insert_by_ts(v@, op) =~= insert_by_ts(v@.take(pos as int), op) + v@.skip(
            pos as int,
        ));
    }
    while pos > 0 && v[pos - 1].ts > op.ts
        invariant
            pos <= v@.len(),
            v@ == old(v)@,
            insert_by_ts(v@, op) == insert_by_ts(v@.take(pos as int), op) + v@.skip(pos as int),
        decreases pos,
    {
        let ghost p = pos as int;
        proof {
            lemma_take_one_more(v@, p - 1);
            assert(insert_by_ts(v@.take(p), op) == insert_by_ts(v@.take(p - 1), op).push(
                v@[p - 1],
            ));
            assert(v@.skip(p - 1) =~= seq![v@[p - 1]] + v@.skip(p));
            assert(insert_by_ts(v@.take(p - 1), op).push(v@[p - 1]) + v@.skip(p)
                =~= insert_by_ts(v@.take(p - 1), op) + v@.skip(p - 1));
        }
        pos -= 1;
    }
    let ghost p = pos as int;
    proof {
        if p == 0 {
            assert(v@.take(0) =~= Seq::<Op>::empty());
            assert(insert_by_ts(v@.take(0), op) =~= v@.take(0).push(op));
        } else {
            lemma_take_one_more(v@, p - 1);
            assert(v@.take(p).last().ts <= op.ts);
            assert(insert_by_ts(v@.take(p), op) == v@.take(p).push(op));
        }
    }
    v.insert(pos, op);
    proof {
        assert(old(v)@.insert(p, op) =~= old(v)@.take(p).push(op) + old(v)@.skip(p));
    }
}

/// Fold the time-ordered operations of one address into its summary
/// record: one pass accumulating the volumes, the values, and the running
/// balance with its peak.
fn aggregate(ops: &Vec<Op>, address: String) -> (st: UserStats)
    requires
        ops@.len() <= 0x8000_0000_0000_0000,
    ensures
        st@ == stat_of_ops(address@, ops@),
{
    let mut vol: u128 = 0;
    let mut bvol: u128 = 0;
    let mut bval: u128 = 0;
    let mut svol: u128 = 0;
    let mut sval: u128 = 0;
    let mut bal: i128 = 0;
    let mut peak: i128 = 0;
    proof {
        assert(ops@.take(0) =~= Seq::<Op>::empty());
        crate::aggregation::lemma_sums_empty();
    }
    let mut i: usize = 0;
    while i < ops.len()
        invariant
            i <= ops@.len(),
            ops@.len() <= 0x8000_0000_0000_0000,
            vol == total_volume(ops@.take(i as int)),
            bvol == buy_volume(ops@.take(i as int)),
            bval == buy_value(ops@.take(i as int)),
            svol == sell_volume(ops@.take(i as int)),
            sval == sell_value(ops@.take(i as int)),
            bal == balance(ops@.take(i as int)),
            peak == peak_balance(ops@.take(i as int)),
        decreases ops@.len() - i,
    {
        let ghost pre = ops@.take(i as int);
        let ghost post = ops@.take(i + 1);
        let op = ops[i];
        proof {
            lemma_take_one_more(ops@, i as int);
            lemma_sums_bounds(post);
            assert((i + 1) * 0xFFFF_FFFF <= 0x8000_0000_0000_0000 * 0xFFFF_FFFF)
                by (nonlinear_arith)
                requires
                    0 <= i,
                    i + 1 <= 0x8000_0000_0000_0000,
            ;
            assert((i + 1) * (0xFFFF_FFFF * 0xFFFF_FFFF) <= 0x8000_0000_0000_0000 * (0xFFFF_FFFF
                * 0xFFFF_FFFF)) by (nonlinear_arith)
                requires
                    0 <= i,
                    i + 1 <= 0x8000_0000_0000_0000,
            ;
            assert(-((i + 1) * 0xFFFF_FFFF) >= -(0x8000_0000_0000_0000 * 0xFFFF_FFFF))
                by (nonlinear_arith)
                requires
                    0 <= i,
                    i + 1 <= 0x8000_0000_0000_0000,
            ;
            assert((op.amount as u64) * (op.usd_price as u64) <= 0xFFFF_FFFF * 0xFFFF_FFFF)
                by (nonlinear_arith)
                requires
                    op.amount <= 0xFFFF_FFFF,
                    op.usd_price <= 0xFFFF_FFFF,
            ;
        }
        let pv: u64 = (op.amount as u64) * (op.usd_price as u64);
        vol = vol + op.amount as u128;
        if op.is_buy {
            bvol = bvol + op.amount as u128;
            bval = bval + pv as u128;
            bal = bal + op.amount as i128;
        } else {
            svol = svol + op.amount as u128;
            sval = sval + pv as u128;
            bal = bal - op.amount as i128;
        }
        if bal > peak {
            peak = bal;
        }
        i += 1;
    }
    proof {
        assert(ops@.take(ops@.len() as int) =~= ops@);
        lemma_sums_bounds(ops@);
    }
    let avg_buy = if bvol > 0 {
        AvgPrice { num: bval, den: bvol }
    } else {
        AvgPrice { num: 0, den: 1 }
    };
    let avg_sell = if svol > 0 {
        AvgPrice { num: sval, den: svol }
    } else {
        AvgPrice { num: 0, den: 1 }
    };
    UserStats::new(address, vol, avg_buy, avg_sell, peak as u128)
}

/// Stable sort by timestamp.
fn sort_ops(v: &Vec<Op>) -> (r: Vec<Op>)
    ensures
        r@ == sort_by_ts(v@),
{
    let mut r: Vec<Op> = Vec::new();
    proof {
        assert(v@.take(0) =~= Seq::<Op>::empty());
        assert(r@ =~= sort_by_ts(v@.take(0)));
    }
    let mut i: usize = 0;
    while i < v.len()
        invariant
            i <= v@.len(),
            r@ == sort_by_ts(v@.take(i as int)),
        decreases v@.len() - i,
    {
        proof {
            lemma_take_one_more(v@, i as int);
        }
        insert_op_by_ts(&mut r, v[i]);
        i += 1;
    }
    proof {
        assert(v@.take(v@.len() as int) =~= v@);
    }
    r
}

/// The verified summary of one address: expand, sort by time, fold.
fn stats_for_address(transfers: &Vec<Transfer>, a: &String) -> (st: UserStats)
    requires
        transfers@.len() <= MAX_TRANSFERS,
    ensures
        st@ == stat_for(transfers@, a@),
{
    let raw = build_ops(transfers, a);
    proof {
        crate::aggregation::lemma_raw_ops_len(transfers@, a@);
        crate::aggregation::lemma_sort_by_ts_len(raw@);
    }
    let sorted = sort_ops(&raw);
    aggregate(&sorted, a.clone())
}

/// Insert `st` into `v`, which is sorted by total volume descending,
/// behind every element with total volume at least `st.total_volume`.
fn insert_stat_by_volume(v: &mut Vec<UserStats>, st: UserStats)
    ensures
        stat_views(final(v)@) == insert_by_volume(stat_views(old(v)@), st@),
{
    let ghost sv = stat_views(v@);
    let mut pos: usize = v.len();
    proof {
        assert(sv.take(pos as int) =~= sv);
        assert(insert_by_volume(sv, st@) =~= insert_by_volume(sv.take(pos as int), st@) + sv.skip(
            pos as int,
        ));
    }
    while pos > 0 && v[pos - 1].total_volume < st.total_volume
        invariant
            pos <= v@.len(),
            v@ == old(v)@,
            sv == stat_views(v@),
            insert_by_volume(sv, st@) == insert_by_volume(sv.take(pos as int), st@) + sv.skip(
                pos as int,
            ),
        decreases pos,
    {
        let ghost p = pos as int;
        proof {
            lemma_take_one_more(sv, p - 1);
            assert(sv[p - 1] == v@[p - 1]@);
            assert(insert_by_volume(sv.take(p), st@) == insert_by_volume(sv.take(p - 1), st@).push(
                sv[p - 1],
            ));
            assert(sv.skip(p - 1) =~= seq![sv[p - 1]] + sv.skip(p));
            assert(insert_by_volume(sv.take(p - 1), st@).push(sv[p - 1]) + sv.skip(p)
                =~= insert_by_volume(sv.take(p - 1), st@) + sv.skip(p - 1));
        }
        pos -= 1;
    }
    let ghost p = pos as int;
    proof {
        if p == 0 {
            assert(sv.take(0) =~= Seq::<StatView>::empty());
            assert(insert_by_volume(sv.take(0), st@) =~= sv.take(0).push(st@));
        } else {
            lemma_take_one_more(sv, p - 1);
            assert(sv.take(p).last().total_volume >= st@.total_volume);
            assert(insert_by_volume(sv.take(p), st@) == sv.take(p).push(st@));
        }
    }
    v.insert(pos, st);
    proof {
        assert(stat_views(old(v)@.insert(p, st)) =~= sv.take(p).push(st@) + sv.skip(p));
    }
}

/// THE CORE OPERATION of the engine: every per-address summary with
/// nonzero total volume, computed from the full transfer set and ordered
/// by total volume descending (ties keep first-appearance order). Pure
/// computation: the result is a function of `transfers` alone, pinned
/// exactly by [`compute_stats_spec`].
pub fn compute_statistics(transfers: &Vec<Transfer>) -> (r: Vec<UserStats>)
    requires
        transfers@.len() <= MAX_TRANSFERS,
    ensures
        stat_views(r@) == compute_stats_spec(transfers@),
{
    let addrs = collect_addresses(transfers);
    let ghost av = addr_views(addrs@);
    let mut kept: Vec<UserStats> = Vec::new();
    proof {
        assert(av.take(0) =~= Seq::<Seq<char>>::empty());
        assert(stat_views(kept@) =~= keep_active(stats_of(transfers@, av.take(0))));
    }
    let mut j: usize = 0;
    while j < addrs.len()
        invariant
            j <= addrs@.len(),
            transfers@.len() <= MAX_TRANSFERS,
            av == addr_views(addrs@),
            stat_views(kept@) == keep_active(stats_of(transfers@, av.take(j as int))),
        decreases addrs@.len() - j,
    {
        let ghost pre = av.take(j as int);
        let ghost post = av.take(j + 1);
        proof {
            lemma_take_one_more(av, j as int);
            assert(stats_of(transfers@, post) == stats_of(transfers@, pre).push(stat_for(
                transfers@,
                av[j as int],
            )));
            lemma_push_pop(stats_of(transfers@, pre), stat_for(transfers@, av[j as int]));
        }
        let st = stats_for_address(transfers, &addrs[j]);
        if st.total_volume > 0 {
            let ghost before = kept@;
            kept.push(st);
            proof {
                assert(stat_views(kept@) =~= stat_views(before).push(kept@.last()@));
            }
        }
        j += 1;
    }
    proof {
        assert(av.take(av.len() as int) =~= av);
    }
    let ghost kv = stat_views(kept@);
    let mut out: Vec<UserStats> = Vec::new();
    proof {
        assert(kv.take(0) =~= Seq::<StatView>::empty());
        assert(stat_views(out@) =~= sort_by_volume(kv.take(0)));
    }
    let mut k: usize = 0;
    while k < kept.len()
        invariant
            k <= kept@.len(),
            kv == stat_views(kept@),
            stat_views(out@) == sort_by_volume(kv.take(k as int)),
        decreases kept@.len() - k,
    {
        proof {
            lemma_take_one_more(kv, k as int);
            assert(kv[k as int] == kept@[k as int]@);
        }
        let st = kept[k].duplicate();
        insert_stat_by_volume(&mut out, st);
        k += 1;
    }
    proof {
        assert(kv.take(kv.len() as int) =~= kv);
    }
    out
}

/// [`compute_statistics`] behind a run-time check of its machine-limit
/// bound: `None` exactly when the set is larger than the engine's bound
/// (which no set that fits in memory is), the summaries otherwise.
pub fn compute_statistics_checked(transfers: &Vec<Transfer>) -> (r: Option<Vec<UserStats>>)
    ensures
        transfers@.len() <= MAX_TRANSFERS ==> (r matches Some(v) && stat_views(v@)
            == compute_stats_spec(transfers@)),
        transfers@.len() > MAX_TRANSFERS ==> r is None,
{
    if transfers.len() as u64 <= MAX_TRANSFERS {
        Some(compute_statistics(transfers))
    } else {
        None
    }
}

} // verus!
