//! The persisted state model: the access configuration, the job records,
//! and the registry that owns identifier allocation and job storage.

use vstd::prelude::*;

use crate::addr::valid_addr;
use crate::error::ContractError;

verus! {

/// The privileged identities, set once at initialization and immutable
/// thereafter.
#[derive(Debug)]
pub struct Config {
    /// The identity of the deployer.
    pub owner: String,
    /// The address of the collaborator component that tokenizes agents.
    pub agent_nft_address: String,
    /// The address of the collaborator component that mints result records.
    pub lore_nft_address: String,
    /// The sole identity authorized to report job results.
    pub trusted_worker: String,
}

impl Config {
    /// The three collaborator identities are well-formed addresses.
    pub open spec fn wf(self) -> bool {
        &&& valid_addr(self.agent_nft_address@)
        &&& valid_addr(self.lore_nft_address@)
        &&& valid_addr(self.trusted_worker@)
    }
}

/// Where a job stands in its lifecycle.
#[derive(Clone, Copy, Debug, PartialEq, Eq, Structural)]
pub enum JobStatus {
    /// Created, awaiting a result from the trusted worker.
    Pending,
    /// The result was reported and the settlement mint was requested.
    Complete,
    /// A declared terminal state; no operation currently produces it.
    Failed,
}

/// One rental-and-fulfillment workflow instance. Created by `RentAgent`,
/// mutated by `PostResult` and `RateJob`, never deleted.
#[derive(Debug)]
pub struct Job {
    /// Unique, assigned by the registry's counter; immutable once set.
    pub job_id: u64,
    /// The identity of the renter; immutable.
    pub client: String,
    /// The rented agent's token; immutable.
    pub agent_token_id: String,
    /// The origin record's component address; immutable.
    pub parent_nft_address: String,
    /// The origin record's token; immutable.
    pub parent_nft_token_id: String,
    /// Lifecycle position.
    pub status: JobStatus,
    /// Content address of the produced result; set exactly once, when the
    /// status turns `Complete`.
    pub result_uri: Option<String>,
    /// Client rating, 1 to 5; set at most once, only once `Complete`.
    pub rating: Option<u8>,
}

impl Job {
    /// The record invariant: `result_uri` is absent exactly while the job
    /// is pending, and a rating exists only on a completed job and lies
    /// in 1 to 5.
    pub open spec fn wf(self) -> bool {
        &&& (self.result_uri is None <==> self.status is Pending)
        &&& (self.rating is Some ==> self.status is Complete)
        &&& (self.rating matches Some(r) ==> 1 <= r <= 5)
    }
}

impl Clone for Job {
    fn clone(&self) -> (res: Self)
        ensures
            res == *self,
    {
        Job {
            job_id: self.job_id,
            client: self.client.clone(),
            agent_token_id: self.agent_token_id.clone(),
            parent_nft_address: self.parent_nft_address.clone(),
            parent_nft_token_id: self.parent_nft_token_id.clone(),
            status: self.status,
            result_uri: match &self.result_uri {
                Some(u) => Some(u.clone()),
                None => None,
            },
            rating: self.rating,
        }
    }
}

/// Owns identifier allocation and job storage. Has no authorization
/// logic; that lives in the engine.
#[derive(Debug)]
pub struct JobRegistry {
    /// The next identifier to allocate; monotonically increasing, never
    /// reused even if a job later fails.
    pub counter: u64,
    /// Every job ever created, stored at its own identifier.
    pub jobs: Vec<Job>,
}

impl JobRegistry {
    /// The registry invariant: every stored job sits at the index equal
    /// to its identifier, is well formed, and was issued by the counter
    /// before it was stored.
    pub open spec fn wf(self) -> bool {
        &&& self.jobs@.len() <= self.counter
        &&& forall|i: int|
            0 <= i < self.jobs@.len() ==> (#[trigger] self.jobs@[i]).job_id == i
                && self.jobs@[i].wf()
    }

    /// No identifier is reserved but unfilled: the counter equals the
    /// number of stored jobs. Holds between operations.
    pub open spec fn settled(self) -> bool {
        self.counter == self.jobs@.len()
    }

    /// A job exists at `job_id`.
    pub open spec fn contains(self, job_id: u64) -> bool {
        job_id < self.jobs@.len()
    }

    /// The job stored at `job_id`.
    pub open spec fn spec_job(self, job_id: u64) -> Job {
        self.jobs@[job_id as int]
    }

    /// An empty registry whose counter starts at zero.
    pub fn new() -> (r: Self)
        ensures
            r.wf(),
            r.settled(),
            r.counter == 0,
            r.jobs@.len() == 0,
    {
        JobRegistry { counter: 0, jobs: Vec::new() }
    }

    /// Returns the current counter value and increments it in the same
    /// step, so no two reservations ever observe the same identifier.
    pub fn next_id(&mut self) -> (id: u64)
        requires
            old(self).wf(),
            old(self).settled(),
            old(self).counter < u64::MAX,
        ensures
            id == old(self).counter,
            final(self).counter == old(self).counter + 1,
            final(self).jobs == old(self).jobs,
            final(self).wf(),
    {
        let id = self.counter;
        self.counter = self.counter + 1;
        id
    }

    /// Stores a new job at its identifier. The caller must already have
    /// reserved that identifier via `next_id`.
    pub fn create(&mut self, job: Job)
        requires
            old(self).wf(),
            job.wf(),
            job.job_id as int == old(self).jobs@.len(),
            old(self).counter == job.job_id + 1,
        ensures
            final(self).wf(),
            final(self).settled(),
            final(self).counter == old(self).counter,
            final(self).jobs@ == old(self).jobs@.push(job),
    {
        self.jobs.push(job);
    }

    /// Returns a copy of the job at `job_id`, or `NotFound` if no job
    /// exists there.
    pub fn get(&self, job_id: u64) -> (r: Result<Job, ContractError>)
        ensures
            self.contains(job_id) ==> (r matches Ok(j) && j == self.spec_job(job_id)),
            !self.contains(job_id) ==> r == Err::<Job, ContractError>(ContractError::NotFound),
    {
        if job_id < self.jobs.len() as u64 {
            Ok(self.jobs[job_id as usize].clone())
        } else {
            Err(ContractError::NotFound)
        }
    }

    /// Overwrites the job at `job.job_id`. Fails with `NotFound` if no
    /// prior record exists: mutation is load-then-store, never
    /// blind-create.
    pub fn put(&mut self, job: Job) -> (r: Result<(), ContractError>)
        requires
            old(self).wf(),
            job.wf(),
        ensures
            final(self).counter == old(self).counter,
            final(self).wf(),
            old(self).contains(job.job_id) ==> (r matches Ok(u) && final(self).jobs@ == old(
                self,
            ).jobs@.update(job.job_id as int, job)),
            !old(self).contains(job.job_id) ==> (r == Err::<(), ContractError>(
                ContractError::NotFound,
            ) && *final(self) == *old(self)),
    {
        if job.job_id < self.jobs.len() as u64 {
            let i = job.job_id as usize;
            self.jobs.set(i, job);
            Ok(())
        } else {
            Err(ContractError::NotFound)
        }
    }
}

/// The whole persisted state of the escrow component: the immutable
/// configuration and the job registry.
#[derive(Debug)]
pub struct EscrowState {
    /// The privileged identities.
    pub config: Config,
    /// Identifier allocation and job storage.
    pub registry: JobRegistry,
}

impl EscrowState {
    /// The state invariant that every operation preserves.
    pub open spec fn wf(self) -> bool {
        &&& self.config.wf()
        &&& self.registry.wf()
        &&& self.registry.settled()
    }
}

/// Metadata carried by a tokenized agent record in the agent collaborator
/// component.
#[derive(Debug)]
pub struct AgentMetadata {
    /// Human-readable description of the agent.
    pub description: String,
    /// Content address of the agent's image.
    pub image_uri: String,
    /// The agent's advertised capabilities.
    pub capabilities: Vec<String>,
}

} // verus!
