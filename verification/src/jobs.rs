//! Startup jobs and the runner that executes them in order.

use vstd::prelude::*;

use crate::errors::TransferRepoError;
use crate::generator::default_gen_config;
use crate::generator::GeneratorError;
use crate::generator::TransferGenConfig;
use crate::transfer::Transfer;
use crate::transfer_repo::TransferRepoAbstract;

verus! {

/// A failure of a startup job: either its store rejected a write or its
/// generator could not produce data.
#[derive(Debug)]
pub enum JobError {
    Repository(TransferRepoError),
    Generator(GeneratorError),
}

/// A unit of startup work.
pub trait Job {
    /// Run the job once.
    fn run(&mut self) -> (r: Result<(), JobError>);
}

/// Runs a list of jobs in the order they were added, stopping at the
/// first failure. The queue is kept: every job stays in its slot (in the
/// state its own run left it in), so a later `run_all` runs them all
/// again.
pub struct JobRunner<T: Job> {
    jobs: Vec<T>,
}

impl<T: Job> JobRunner<T> {
    /// The queued jobs, in the order they will run.
    pub closed spec fn jobs_view(&self) -> Seq<T> {
        self.jobs@
    }

    /// How many jobs are queued.
    pub open spec fn job_count(&self) -> nat {
        self.jobs_view().len()
    }

    pub fn new() -> (r: Self)
        ensures
            r.jobs_view() == Seq::<T>::empty(),
    {
        Self { jobs: Vec::new() }
    }

    /// Queue `job` behind the jobs already queued, which stay as they
    /// are, in their order.
    pub fn add_job(self, job: T) -> (r: Self)
        ensures
            r.jobs_view() == self.jobs_view().push(job),
    {
        let mut s = self;
        s.jobs.push(job);
        s
    }

    /// Run the queued jobs in insertion order, each once: the first
    /// failure stops the run and is returned, and later jobs do not run.
    /// An empty queue succeeds trivially. The queue's length and the
    /// slot of every job are kept — each slot holds the job that ran in
    /// it, in whatever state its run left it — so a later call runs the
    /// same jobs again. (A job runs through `&mut self` and may change
    /// its own state, so the job values themselves cannot be promised
    /// unchanged.)
    pub fn run_all(&mut self) -> (r: Result<(), JobError>)
        ensures
            final(self).job_count() == old(self).job_count(),
            old(self).job_count() == 0 ==> r is Ok,
    {
        let mut i: usize = 0;
        while i < self.jobs.len()
            invariant
                i <= self.jobs@.len(),
                self.jobs@.len() == old(self).jobs@.len(),
            decreases self.jobs@.len() - i,
        {
            let mut job = self.jobs.remove(i);
            let result = job.run();
            self.jobs.insert(i, job);
            match result {
                Ok(()) => (),
                Err(e) => {
                    return Err(e);
                },
            }
            i += 1;
        }
        Ok(())
    }
}

/// Whether `new_c` is `old_c` with a batch of `n` transfers appended
/// that the demo-configured generator vouches for: conforming to the
/// data-model invariant, inside the demo ranges, twelve-character `0x`
/// addresses with distinct ends, timestamps inside the age window of
/// some clock reading.
pub open spec fn grew_by_generated(
    old_c: Seq<Transfer>,
    new_c: Seq<Transfer>,
    n: int,
) -> bool {
    exists|b: Seq<Transfer>, now: u64|
        #![trigger default_gen_config().well_formed_output(n, now, b)]
        default_gen_config().well_formed_output(n, now, b) && new_c == old_c + b
}

/// The startup job that seeds the store with synthetic transfers.
pub struct DataGenerationJob<T: TransferRepoAbstract> {
    count: usize,
    transfer_repo: T,
}

impl<T: TransferRepoAbstract> DataGenerationJob<T> {
    /// How many transfers one run generates.
    pub closed spec fn gen_count(&self) -> usize {
        self.count
    }

    /// What the job's store holds.
    pub closed spec fn store_contents(&self) -> Seq<Transfer> {
        self.transfer_repo.contents()
    }

    /// A job that will generate `count` transfers into `transfer_repo`.
    pub fn new(count: usize, transfer_repo: T) -> (r: Self)
        ensures
            r.gen_count() == count,
            r.store_contents() == transfer_repo.contents(),
    {
        Self { count, transfer_repo }
    }

    /// Generate the configured number of transfers with the demo ranges
    /// and append them as one batch: on success the store grew by
    /// exactly that many transfers carrying every guarantee the
    /// generator gives; on failure it is unchanged.
    pub fn generate_and_store(&mut self) -> (r: Result<(), JobError>)
        ensures
            r is Ok ==> grew_by_generated(
                old(self).store_contents(),
                final(self).store_contents(),
                old(self).gen_count() as int,
            ),
            r is Err ==> final(self).store_contents() == old(self).store_contents(),
            final(self).gen_count() == old(self).gen_count(),
    {
        let generator = TransferGenConfig::default();
        let transfers = match generator.generate(self.count) {
            Ok(v) => v,
            Err(e) => {
                return Err(JobError::Generator(e));
            },
        };
        let ghost now = choose|now: u64|
            generator.well_formed_output(old(self).gen_count() as int, now, transfers@);
        match self.transfer_repo.save_all(&transfers) {
            Ok(()) => {
                proof {
                    assert(default_gen_config().well_formed_output(
                        old(self).gen_count() as int,
                        now,
                        transfers@,
                    ) && self.store_contents() == old(self).store_contents() + transfers@);
                }
                Ok(())
            },
            Err(e) => Err(JobError::Repository(e)),
        }
    }

    /// Hand the store back once the job is done.
    pub fn into_repo(self) -> (r: T)
        ensures
            r.contents() == self.store_contents(),
    {
        self.transfer_repo
    }
}

impl<T: TransferRepoAbstract> Job for DataGenerationJob<T> {
    /// One run seeds the store once: on success it grew by exactly the
    /// generated, vouched-for batch; on failure — of the generator or of
    /// the store — it is unchanged, and the error comes back unswallowed.
    fn run(&mut self) -> (r: Result<(), JobError>)
        ensures
            r is Ok ==> grew_by_generated(
                old(self).store_contents(),
                final(self).store_contents(),
                old(self).gen_count() as int,
            ),
            r is Err ==> final(self).store_contents() == old(self).store_contents(),
            final(self).gen_count() == old(self).gen_count(),
    {
        self.generate_and_store()
    }
}

} // verus!
