//! Synthetic transfer generation, used only to seed demo and test data.
//! The random draws go through trusted wrappers; everything around them —
//! pool construction, pair selection, range, shape and invariant
//! guarantees — is verified.

use vstd::prelude::*;

use crate::engine::addr_views;
use crate::transfer::valid_batch;
use crate::transfer::Transfer;

verus! {

/// Why generation failed.
#[derive(Debug, PartialEq, Eq, Structural)]
pub enum GeneratorError {
    /// The system clock reports a time before the epoch, so no timestamp
    /// can be derived.
    ClockUnavailable,
    /// Every address in the random pool came out as one and the same
    /// string, so no transfer with two distinct ends can be formed.
    /// (With ten random characters per address this does not happen in
    /// practice; the error keeps the guarantee honest.)
    AddressPoolCollapsed,
}

/// An ASCII alphanumeric character: a digit or a letter of either case.
pub open spec fn is_ascii_alphanumeric_char(c: char) -> bool {
    (48 <= c as u32 && c as u32 <= 57) || (65 <= c as u32 && c as u32 <= 90) || (97 <= c as u32
        && c as u32 <= 122)
}

/// Relies on rand's `Rng::gen_range` over the uniform integer
/// distribution: a draw from a nonempty `lo..hi` lies in `[lo, hi)`.
#[verifier::external_body]
fn rand_u32_in(lo: u32, hi: u32) -> (r: u32)
    requires
        lo < hi,
    ensures
        lo <= r < hi,
{
    rand::Rng::gen_range(&mut rand::thread_rng(), lo..hi)
}

/// Relies on rand's `Rng::gen_range` over the uniform integer
/// distribution: a draw from a nonempty `lo..hi` lies in `[lo, hi)`.
#[verifier::external_body]
fn rand_u64_in(lo: u64, hi: u64) -> (r: u64)
    requires
        lo < hi,
    ensures
        lo <= r < hi,
{
    rand::Rng::gen_range(&mut rand::thread_rng(), lo..hi)
}

/// Relies on rand's `Rng::gen_range` over the uniform integer
/// distribution: a draw from a nonempty `lo..hi` lies in `[lo, hi)`.
#[verifier::external_body]
fn rand_usize_in(lo: usize, hi: usize) -> (r: usize)
    requires
        lo < hi,
    ensures
        lo <= r < hi,
{
    rand::Rng::gen_range(&mut rand::thread_rng(), lo..hi)
}

/// Relies on rand's `Alphanumeric` distribution: each sample is one byte
/// from the 62-character set of ASCII digits and letters, so taking
/// `len` of them yields a string of exactly `len` alphanumeric
/// characters.
#[verifier::external_body]
fn rand_alphanumeric_suffix(len: usize) -> (r: String)
    ensures
        r@.len() == len,
        forall|i: int| 0 <= i < r@.len() ==> is_ascii_alphanumeric_char(#[trigger] r@[i]),
{
    rand::Rng::sample_iter(rand::thread_rng(), &rand::distributions::Alphanumeric)
        .take(len)
        .map(char::from)
        .collect()
}

/// Relies on `std::time::SystemTime::now` and `duration_since`: the
/// seconds since the epoch, or `None` when the clock reads before the
/// epoch. Nothing more can be promised of a clock.
#[verifier::external_body]
fn unix_time_now() -> (r: Option<u64>) {
    std::time::SystemTime::now()
        .duration_since(std::time::UNIX_EPOCH)
        .ok()
        .map(|d| d.as_secs())
}

/// A pool address: `0x` followed by ten ASCII alphanumeric characters,
/// twelve characters in all.
pub open spec fn well_formed_address(a: Seq<char>) -> bool {
    &&& a.len() == 12
    &&& a.take(2) == "0x"@
    &&& forall|k: int| 2 <= k < 12 ==> is_ascii_alphanumeric_char(#[trigger] a[k])
}

/// A fresh pseudo-address: `0x` followed by ten random ASCII
/// alphanumeric characters, twelve characters in all.
pub fn rand_address() -> (r: String)
    ensures
        well_formed_address(r@),
{
    let suffix = rand_alphanumeric_suffix(10);
    let mut s = String::new();
    s.append("0x");
    s.append(suffix.as_str());
    proof {
        reveal_strlit("0x");
        assert(s@.take(2) =~= "0x"@);
        assert(forall|i: int| 2 <= i < 12 ==> s@[i] == suffix@[i - 2]);
    }
    s
}

/// A generator of synthetic transfers.
pub trait TransferGenerator: Sized {
    /// Whether the configuration can produce conforming transfers.
    spec fn wf(&self) -> bool;

    /// Produce `count` transfers; every one satisfies the transfer
    /// data-model invariant.
    fn generate(&self, count: usize) -> (r: Result<Vec<Transfer>, GeneratorError>)
        requires
            self.wf(),
        ensures
            r matches Ok(v) ==> v@.len() == count && valid_batch(v@),
    ;
}

/// The ranges synthetic transfers are drawn from: amounts and unit prices
/// in the engine's fixed-point units, uniform over `[min, max)`;
/// timestamps within the last `max_age_secs` seconds; both ends of each
/// transfer from a fixed pool of `address_pool_size` fresh addresses,
/// always two distinct ones.
#[derive(Debug, Clone)]
pub struct TransferGenConfig {
    pub min_amount: u32,
    pub max_amount: u32,
    pub min_price: u32,
    pub max_price: u32,
    pub max_age_secs: u64,
    pub address_pool_size: usize,
}

/// Whether every address of `v`, either end, appears in `pool`.
pub open spec fn drawn_from(pool: Seq<Seq<char>>, v: Seq<Transfer>) -> bool {
    forall|i: int|
        0 <= i < v.len() ==> pool.contains((#[trigger] v[i]).from@) && pool.contains(v[i].to@)
}

impl TransferGenConfig {
    /// A usable configuration: nonempty ranges that only produce positive
    /// quantities and prices, a nonzero age window, and a pool large
    /// enough to give every transfer two distinct ends (its size bounded
    /// so that index arithmetic cannot wrap).
    pub open spec fn wf_config(self) -> bool {
        &&& self.min_amount >= 1
        &&& self.min_amount < self.max_amount
        &&& self.min_price >= 1
        &&& self.min_price < self.max_price
        &&& self.max_age_secs >= 1
        &&& 2 <= self.address_pool_size <= 0x1000_0000
    }

    /// Everything `generate_at` promises of its output for the clock
    /// reading `now`: `count` transfers satisfying the data-model
    /// invariant; amounts and prices inside the configured ranges; both
    /// ends twelve-character `0x` alphanumeric addresses, distinct
    /// within each transfer, all drawn from one pool of
    /// `address_pool_size` strings;
    /// timestamps within the configured age window ending at `now` (an
    /// age reaching past the epoch is clamped to timestamp zero, which
    /// still lies in the window).
    pub open spec fn well_formed_output(
        self,
        count: int,
        now: u64,
        v: Seq<Transfer>,
    ) -> bool {
        &&& v.len() == count
        &&& valid_batch(v)
        &&& (forall|i: int|
            #![trigger v[i]]
            0 <= i < v.len() ==> {
                &&& self.min_amount <= v[i].amount < self.max_amount
                &&& self.min_price <= v[i].usd_price < self.max_price
                &&& well_formed_address(v[i].from@)
                &&& well_formed_address(v[i].to@)
                &&& v[i].from@ != v[i].to@
                &&& now - self.max_age_secs < v[i].ts <= now
            })
        &&& (exists|pool: Seq<Seq<char>>|
            #![trigger drawn_from(pool, v)]
            pool.len() == self.address_pool_size && drawn_from(pool, v))
    }

    /// Produce `count` transfers dated against the clock reading `now`:
    /// each draws a sending address, a distinct receiving address, an
    /// amount, a price and an age from the configured ranges. The
    /// receiving index is the sending one plus a nonzero offset modulo
    /// the pool size — the same distribution as redrawing until the
    /// indices differ, without the unbounded loop; if the two entries
    /// still hold the same string, a differing pool entry stands in, and
    /// only a pool collapsed to a single string is an error.
    pub fn generate_at(&self, count: usize, now: u64) -> (r: Result<
        Vec<Transfer>,
        GeneratorError,
    >)
        requires
            self.wf_config(),
        ensures
            r matches Ok(v) ==> self.well_formed_output(count as int, now, v@),
            r is Err ==> r == Err::<Vec<Transfer>, GeneratorError>(
                GeneratorError::AddressPoolCollapsed,
            ),
    {
        let mut pool: Vec<String> = Vec::new();
        let mut k: usize = 0;
        while k < self.address_pool_size
            invariant
                pool@.len() == k,
                k <= self.address_pool_size,
                forall|j: int| 0 <= j < k ==> well_formed_address((#[trigger] pool@[j])@),
            decreases self.address_pool_size - k,
        {
            pool.push(rand_address());
            k += 1;
        }
        let ghost pv = addr_views(pool@);
        let mut data: Vec<Transfer> = Vec::new();
        let mut n: usize = 0;
        while n < count
            invariant
                self.wf_config(),
                pool@.len() == self.address_pool_size,
                pv == addr_views(pool@),
                forall|j: int| 0 <= j < pool@.len() ==> well_formed_address((#[trigger] pool@[j])@),
                data@.len() == n,
                n <= count,
                valid_batch(data@),
                drawn_from(pv, data@),
                forall|i: int|
                    #![trigger data@[i]]
                    0 <= i < n ==> {
                        &&& self.min_amount <= data@[i].amount < self.max_amount
                        &&& self.min_price <= data@[i].usd_price < self.max_price
                        &&& well_formed_address(data@[i].from@)
                        &&& well_formed_address(data@[i].to@)
                        &&& data@[i].from@ != data@[i].to@
                        &&& now - self.max_age_secs < data@[i].ts <= now
                    },
            decreases count - n,
        {
            let from_idx = rand_usize_in(0, pool.len());
            let offset = rand_usize_in(0, pool.len() - 1);
            let mut to_idx = from_idx + 1 + offset;
            if to_idx >= pool.len() {
                to_idx = to_idx - pool.len();
            }
            let from = pool[from_idx].clone();
            let mut to = pool[to_idx].clone();
            proof {
                assert(pv[from_idx as int] == from@);
                assert(pv.contains(from@));
                assert(pv[to_idx as int] == to@);
                assert(pv.contains(to@));
            }
            if to.eq(&from) {
                // The two slots hold the same string; fall back to any
                // entry that differs, erring only if none does.
                match pick_differing(&pool, &from) {
                    Some(j) => {
                        to = pool[j].clone();
                        proof {
                            assert(pv[j as int] == to@);
                            assert(pv.contains(to@));
                        }
                    },
                    None => {
                        return Err(GeneratorError::AddressPoolCollapsed);
                    },
                }
            }
            let amount = rand_u32_in(self.min_amount, self.max_amount);
            let usd_price = rand_u32_in(self.min_price, self.max_price);
            let age = rand_u64_in(0, self.max_age_secs);
            let ts = if age <= now {
                now - age
            } else {
                0
            };
            let ghost before = data@;
            data.push(Transfer { ts, from, to, amount, usd_price });
            proof {
                assert(data@.drop_last() =~= before);
                assert(forall|i: int| 0 <= i < n ==> data@[i] == before[i]);
            }
            n += 1;
        }
        proof {
            assert(pv.len() == self.address_pool_size);
            assert(self.well_formed_output(count as int, now, data@));
        }
        Ok(data)
    }

    /// Produce `count` transfers dated against the clock: a clock read
    /// followed by [`TransferGenConfig::generate_at`], whose guarantees
    /// hold for the value that was read.
    pub fn generate(&self, count: usize) -> (r: Result<Vec<Transfer>, GeneratorError>)
        requires
            self.wf_config(),
        ensures
            r matches Ok(v) ==> exists|now: u64|
                self.well_formed_output(count as int, now, v@),
            r is Err ==> (r == Err::<Vec<Transfer>, GeneratorError>(
                GeneratorError::ClockUnavailable,
            ) || r == Err::<Vec<Transfer>, GeneratorError>(GeneratorError::AddressPoolCollapsed)),
    {
        let now = match unix_time_now() {
            Some(n) => n,
            None => {
                return Err(GeneratorError::ClockUnavailable);
            },
        };
        let r = self.generate_at(count, now);
        proof {
            if r is Ok {
                assert(self.well_formed_output(count as int, now, r->Ok_0@));
            }
        }
        r
    }
}

/// The index of some pool entry whose string differs from `a`, or `None`
/// when every entry equals `a`.
fn pick_differing(pool: &Vec<String>, a: &String) -> (r: Option<usize>)
    ensures
        r matches Some(j) ==> j < pool@.len() && pool@[j as int]@ != a@,
        r is None ==> forall|k: int| 0 <= k < pool@.len() ==> (#[trigger] pool@[k])@ == a@,
{
    let mut i: usize = 0;
    while i < pool.len()
        invariant
            i <= pool@.len(),
            forall|k: int| 0 <= k < i ==> (#[trigger] pool@[k])@ == a@,
        decreases pool@.len() - i,
    {
        if !a.eq(&pool[i]) {
            return Some(i);
        }
        i += 1;
    }
    None
}

impl TransferGenerator for TransferGenConfig {
    open spec fn wf(&self) -> bool {
        self.wf_config()
    }

    fn generate(&self, count: usize) -> (r: Result<Vec<Transfer>, GeneratorError>) {
        let r = TransferGenConfig::generate(self, count);
        proof {
            if r is Ok {
                let v = r->Ok_0;
                let now = choose|now: u64| self.well_formed_output(count as int, now, v@);
                assert(self.well_formed_output(count as int, now, v@));
            }
        }
        r
    }
}

/// The demo configuration's value, for contracts that speak of it.
pub open spec fn default_gen_config() -> TransferGenConfig {
    TransferGenConfig {
        min_amount: 1000,
        max_amount: 1_000_000,
        min_price: 100,
        max_price: 2000,
        max_age_secs: 2_592_000,
        address_pool_size: 40,
    }
}

impl Default for TransferGenConfig {
    /// The demo ranges: amounts of 1 to 1000 units and prices of 0.1 to
    /// 2 units, both in thousandths; a thirty-day age window; a pool of
    /// forty addresses.
    fn default() -> (r: Self)
        ensures
            r == default_gen_config(),
            r.wf_config(),
    {
        Self {
            min_amount: 1000,
            max_amount: 1_000_000,
            min_price: 100,
            max_price: 2000,
            max_age_secs: 2_592_000,
            address_pool_size: 40,
        }
    }
}

} // verus!
