//! The task description the harness consumes: the two aggregator roles, the
//! aggregation function selector and the task parameters handed over by the
//! test driver.

use vstd::prelude::*;
use crate::hpke::{HpkeConfig, HpkeKeypair};

verus! {

/// The two aggregator roles of a two-party deployment. The leader
/// additionally serves collection requests.
#[derive(Clone, Copy, Debug, PartialEq, Eq, Structural)]
pub enum Role {
    Leader,
    Helper,
}

impl Role {
    /// The lowercase wire name of the role.
    pub fn as_str(&self) -> (r: &'static str)
        ensures
            r@ == self.spec_str(),
    {
        match self {
            Role::Leader => "leader",
            Role::Helper => "helper",
        }
    }

    pub open spec fn spec_str(self) -> Seq<char> {
        match self {
            Role::Leader => "leader"@,
            Role::Helper => "helper"@,
        }
    }
}

/// The aggregation function selector of a task. The reference implementation
/// supports the counting, histogram and summation aggregators; the last
/// variant stands for the selectors outside that subset.
#[derive(Clone, Debug, PartialEq, Eq)]
pub enum VdafInstance {
    /// A counting aggregator with no parameters.
    Count,
    /// A histogram aggregator parameterized by its bucket boundaries.
    Histogram { buckets: Vec<u64> },
    /// A summation aggregator parameterized by its bit width.
    Sum { bits: u32 },
    /// A heavy-hitters aggregator, outside the supported subset.
    Poplar1 { bits: u32 },
}

/// A task description: role, endpoint URLs, batch parameters, aggregation
/// function, verification keys, HPKE keypairs and rotation-ordered
/// authentication token lists. Immutable once handed to the harness.
#[derive(Clone, Debug)]
pub struct Task {
    /// The task identifier bytes.
    pub id: Vec<u8>,
    /// The role the instance plays.
    pub role: Role,
    /// Endpoint URL of the leader aggregator.
    pub leader_url: String,
    /// Endpoint URL of the helper aggregator.
    pub helper_url: String,
    /// Minimum batch duration, in seconds.
    pub min_batch_duration: u64,
    /// Minimum number of reports in a batch.
    pub min_batch_size: u64,
    /// The aggregation function the task runs.
    pub vdaf: VdafInstance,
    /// Verification keys, the first of which is forwarded.
    pub vdaf_verify_keys: Vec<Vec<u8>>,
    /// The HPKE keypairs, in rotation order, with pairwise distinct ids.
    pub hpke_keys: Vec<HpkeKeypair>,
    /// The HPKE configuration reports to the collector are encrypted under.
    pub collector_hpke_config: HpkeConfig,
    /// Aggregator-to-aggregator bearer tokens, in rotation order; the first
    /// is the primary one.
    pub aggregator_auth_tokens: Vec<String>,
    /// Collector-to-leader bearer tokens, in rotation order; the first is
    /// the primary one.
    pub collector_auth_tokens: Vec<String>,
}

impl Task {
    /// Well-formedness: a task carries at least one verification key, at
    /// least one HPKE keypair with pairwise distinct ids, and at least one
    /// token in each rotation-ordered list.
    pub open spec fn wf(self) -> bool {
        &&& self.vdaf_verify_keys.len() >= 1
        &&& self.hpke_keys.len() >= 1
        &&& forall|i: int, j: int|
            0 <= i < j < self.hpke_keys.len() ==> self.hpke_keys[i].config.id
                != self.hpke_keys[j].config.id
        &&& self.aggregator_auth_tokens.len() >= 1
        &&& self.collector_auth_tokens.len() >= 1
    }

    /// The endpoint URL of the aggregator playing `role`.
    pub fn aggregator_url(&self, role: Role) -> (r: &String)
        ensures
            r@ == self.spec_aggregator_url(role),
    {
        match role {
            Role::Leader => &self.leader_url,
            Role::Helper => &self.helper_url,
        }
    }

    pub open spec fn spec_aggregator_url(self, role: Role) -> Seq<char> {
        match role {
            Role::Leader => self.leader_url@,
            Role::Helper => self.helper_url@,
        }
    }

    /// The primary aggregator-to-aggregator token: the first of the
    /// rotation-ordered list.
    pub fn primary_aggregator_auth_token(&self) -> (r: &String)
        requires
            self.aggregator_auth_tokens.len() >= 1,
        ensures
            r@ == self.aggregator_auth_tokens[0]@,
    {
        &self.aggregator_auth_tokens[0]
    }

    /// The primary collector-to-leader token: the first of the
    /// rotation-ordered list.
    pub fn primary_collector_auth_token(&self) -> (r: &String)
        requires
            self.collector_auth_tokens.len() >= 1,
        ensures
            r@ == self.collector_auth_tokens[0]@,
    {
        &self.collector_auth_tokens[0]
    }
}

} // verus!
