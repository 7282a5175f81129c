//! The statistics service: reads the whole store and hands the set to the
//! verified aggregation engine.

use vstd::prelude::*;

use crate::aggregation::compute_stats_spec;
use crate::engine::compute_statistics;
use crate::engine::MAX_TRANSFERS;
use crate::errors::TransferError;
use crate::errors::TransferRepoError;
use crate::transfer::Transfer;
use crate::transfer_repo::TransferRepoAbstract;
use crate::user_stats::stat_views;
use crate::user_stats::UserStats;

verus! {

/// The service that computes per-address statistics on demand, written
/// against the store capability alone so that any store — in-memory or a
/// database adapter — can stand behind it.
pub struct StatsService<T: TransferRepoAbstract> {
    transfer_repo: T,
}

impl<T: TransferRepoAbstract> StatsService<T> {
    /// The transfers of the underlying store, in insertion order.
    pub closed spec fn contents(&self) -> Seq<Transfer> {
        self.transfer_repo.contents()
    }

    pub fn new(transfer_repo: T) -> (r: Self)
        ensures
            r.contents() == transfer_repo.contents(),
    {
        Self { transfer_repo }
    }

    /// Read every transfer and aggregate: on a successful scan the result
    /// is exactly the engine's output over the store contents; a store
    /// failure aborts the whole aggregation and is passed through
    /// unchanged — verbatim, as [`aggregate_scan`] pins for each scan
    /// outcome — attributed to the computation. No partial result is
    /// ever returned. (The bound on the store size is the engine's
    /// machine limit; no store that fits in memory reaches it.)
    pub fn calculate_user_stats(&self) -> (r: Result<Vec<UserStats>, TransferError>)
        requires
            self.contents().len() <= MAX_TRANSFERS,
        ensures
            r matches Ok(stats) ==> stat_views(stats@) == compute_stats_spec(self.contents()),
            r is Err ==> r matches Err(TransferError::RepositoryError(_)),
    {
        aggregate_scan(self.transfer_repo.scan_all())
    }
}

/// What the service returns for each outcome of a scan: the engine's
/// output over a scanned set, or the scan's own error unchanged behind
/// the one attributing wrapper — no retry, no partial result.
pub fn aggregate_scan(scan: Result<Vec<Transfer>, TransferRepoError>) -> (r: Result<
    Vec<UserStats>,
    TransferError,
>)
    requires
        scan matches Ok(v) ==> v@.len() <= MAX_TRANSFERS,
    ensures
        match scan {
            Ok(v) => r matches Ok(stats) && stat_views(stats@) == compute_stats_spec(v@),
            Err(e) => r == Err::<Vec<UserStats>, TransferError>(
                TransferError::RepositoryError(e),
            ),
        },
{
    match scan {
        Ok(transfers) => Ok(compute_statistics(&transfers)),
        Err(e) => Err(TransferError::RepositoryError(e)),
    }
}

} // verus!
