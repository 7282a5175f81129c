//! The transfer store: the capability interface the engine reads through,
//! and an in-memory implementation.

use vstd::prelude::*;

use crate::errors::TransferRepoError;
use crate::transfer::Transfer;

verus! {

/// The capability the statistics service needs from a transfer store:
/// append a batch and read everything back. `contents` is the store's
/// abstract state — the transfers it holds, in insertion order. A scan
/// returns that order, which makes the engine's equal-timestamp tie-break,
/// and so the whole aggregation, reproducible over an unchanged store.
/// Transfers are immutable once appended: there is no update or delete.
pub trait TransferRepoAbstract: Sized {
    /// The transfers the store holds, in insertion order.
    spec fn contents(&self) -> Seq<Transfer>;

    /// Append a batch, atomically or not at all: a failed append leaves
    /// the contents unchanged, and no partial batch ever becomes
    /// visible. An empty batch is a no-op that succeeds trivially. An
    /// append looks nothing up, so a failure is a connection or query
    /// error, never a missing transfer.
    fn save_all(&mut self, transfers: &Vec<Transfer>) -> (r: Result<(), TransferRepoError>)
        ensures
            r is Ok ==> final(self).contents() == old(self).contents() + transfers@,
            r is Err ==> final(self).contents() == old(self).contents(),
            r matches Err(e) ==> !(e is TransferNotFound),
            transfers@.len() == 0 ==> r is Ok,
    ;

    /// Every transfer currently stored, in insertion order.
    fn scan_all(&self) -> (r: Result<Vec<Transfer>, TransferRepoError>)
        ensures
            r matches Ok(v) ==> v@ == self.contents(),
    ;
}

/// An in-memory transfer store: the substitution point for tests and for
/// callers that need no database. Its operations never fail.
pub struct InMemoryTransferRepo {
    transfers: Vec<Transfer>,
}

impl InMemoryTransferRepo {
    /// An empty store.
    pub fn new() -> (r: Self)
        ensures
            r.contents() == Seq::<Transfer>::empty(),
    {
        InMemoryTransferRepo { transfers: Vec::new() }
    }
}

impl TransferRepoAbstract for InMemoryTransferRepo {
    closed spec fn contents(&self) -> Seq<Transfer> {
        self.transfers@
    }

    fn save_all(&mut self, transfers: &Vec<Transfer>) -> (r: Result<(), TransferRepoError>)
        ensures
            r is Ok,
    {
        let mut i: usize = 0;
        proof {
            assert(self.transfers@ =~= old(self).transfers@ + transfers@.take(0));
        }
        while i < transfers.len()
            invariant
                i <= transfers@.len(),
                self.transfers@ == old(self).transfers@ + transfers@.take(i as int),
            decreases transfers@.len() - i,
        {
            self.transfers.push(transfers[i].duplicate());
            proof {
                assert(old(self).transfers@ + transfers@.take(i + 1) =~= (old(self).transfers@
                    + transfers@.take(i as int)).push(transfers@[i as int]));
            }
            i += 1;
        }
        proof {
            assert(transfers@.take(transfers@.len() as int) =~= transfers@);
        }
        Ok(())
    }

    fn scan_all(&self) -> (r: Result<Vec<Transfer>, TransferRepoError>)
        ensures
            r is Ok,
    {
        let mut out: Vec<Transfer> = Vec::new();
        let mut i: usize = 0;
        proof {
            assert(out@ =~= self.transfers@.take(0));
        }
        while i < self.transfers.len()
            invariant
                i <= self.transfers@.len(),
                out@ == self.transfers@.take(i as int),
            decreases self.transfers@.len() - i,
        {
            out.push(self.transfers[i].duplicate());
            proof {
                assert(self.transfers@.take(i + 1) =~= self.transfers@.take(i as int).push(
                    self.transfers@[i as int],
                ));
            }
            i += 1;
        }
        proof {
            assert(self.transfers@.take(self.transfers@.len() as int) =~= self.transfers@);
        }
        Ok(out)
    }
}

} // verus!
