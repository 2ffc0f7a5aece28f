//! The operation surface: initialization parameters, the mutating
//! operations, the query, and the values an operation returns — the
//! observable attributes and the settlement mint request that the host
//! dispatches atomically with the state mutation.

use vstd::prelude::*;

verus! {

/// Parameters of initialization: the collaborator addresses and the sole
/// identity allowed to report results. All three are validated.
#[derive(Debug)]
pub struct InstantiateMsg {
    /// Address of the agent tokenization component.
    pub agent_nft_address: String,
    /// Address of the result-record minting component.
    pub lore_nft_address: String,
    /// The off-chain worker identity.
    pub trusted_worker: String,
}

/// The three mutating operations.
#[derive(Debug)]
pub enum ExecuteMsg {
    /// A client rents an agent; allocates a fresh pending job.
    RentAgent {
        /// The rented agent's token.
        agent_token_id: String,
        /// The origin record's component address; validated.
        parent_nft_address: String,
        /// The origin record's token.
        parent_nft_token_id: String,
    },
    /// The trusted worker reports a result; completes the job and
    /// requests the settlement mint.
    PostResult {
        /// The job being completed.
        job_id: u64,
        /// Content address of the produced result.
        result_ipfs_uri: String,
    },
    /// The client rates a completed job, once.
    RateJob {
        /// The job being rated.
        job_id: u64,
        /// A rating from 1 to 5.
        rating: u8,
    },
}

/// The read-only queries.
#[derive(Debug)]
pub enum QueryMsg {
    /// Returns the job at `job_id`.
    GetJob {
        /// The job asked for.
        job_id: u64,
    },
}

/// A key-value pair emitted for off-chain indexing.
#[derive(Debug)]
pub struct Attribute {
    /// The attribute's name.
    pub key: String,
    /// The attribute's value.
    pub value: String,
}

impl Attribute {
    /// Builds an attribute from a literal key and an owned value.
    pub fn new(key: &str, value: String) -> (a: Attribute)
        ensures
            a.key@ == key@,
            a.value@ == value@,
    {
        Attribute { key: String::from_str(key), value }
    }
}

/// The settlement request addressed to the minting collaborator: mint a
/// record `token_id` owned by `owner` pointing at `token_uri`. The host
/// executes it in the same atomic unit as the state mutation.
#[derive(Debug)]
pub struct MintMsg {
    /// The new record's token, derived from the job id.
    pub token_id: String,
    /// The identity that will own the record: the job's client.
    pub owner: String,
    /// The content address of the result.
    pub token_uri: Option<String>,
}

/// What an operation returns besides its state mutation: attributes for
/// indexing and at most one cross-component mint request.
#[derive(Debug)]
pub struct Response {
    /// Observable key-value pairs.
    pub attributes: Vec<Attribute>,
    /// The settlement mint request, if the operation settles a job.
    pub mint: Option<MintMsg>,
}

/// `a` carries exactly the key `key` and the value `value`.
pub open spec fn attr_is(a: Attribute, key: Seq<char>, value: Seq<char>) -> bool {
    a.key@ == key && a.value@ == value
}

} // verus!
