//! Cluster configuration: the shard scheme, the builder and resumable
//! session snapshots.

use vstd::prelude::*;
use vstd::string::StringExecFns;
use vstd::hash_map::HashMapWithView;
use crate::identify::UpdateStatusInfo;
use crate::processor::ShardConfig;
use crate::queue::IdentifyQueue;

verus! {

/// Starting a cluster failed: the shard range is not valid.
#[derive(Clone, Copy, Debug, PartialEq, Eq, Structural)]
pub enum ShardSchemeRangeError {
    /// Start of the shard range was greater than the end, or the end was
    /// not under the total.
    IdTooLarge {
        /// Last shard in the range to manage.
        end: u64,
        /// First shard in the range to manage.
        start: u64,
        /// Total number of shards used by the bot.
        total: u64,
    },
}

impl ShardSchemeRangeError {
    /// A short description of the error.
    pub fn message(&self) -> (r: &'static str)
        ensures
            true,
    {
        match self {
            ShardSchemeRangeError::IdTooLarge { .. } => {
                "the shard id range is larger than the total"
            },
        }
    }
}

/// The method of sharding to use.
#[derive(Clone, Copy, Debug, PartialEq, Eq, Structural, Hash)]
pub enum ShardScheme {
    /// Ask the platform for its recommended shard count and run all of
    /// those shards.
    Auto,
    /// Run the shards `from..=to` of `total`.
    Range { from: u64, to: u64, total: u64 },
}

impl ShardScheme {
    /// A range scheme names only shards that exist: `from <= to < total`.
    pub open spec fn spec_wf(self) -> bool {
        match self {
            ShardScheme::Auto => true,
            ShardScheme::Range { from, to, total } => from <= to < total,
        }
    }

    /// Build a range scheme over the inclusive range `from..=to` of
    /// `total` shards.  Exactly the ranges with `from <= to < total` are
    /// accepted; anything else is `IdTooLarge`.
    pub fn try_from(from: u64, to: u64, total: u64) -> (r: Result<
        ShardScheme,
        ShardSchemeRangeError,
    >)
        ensures
            match r {
                Ok(s) => from <= to < total && s == (ShardScheme::Range { from, to, total })
                    && s.spec_wf(),
                Err(e) => !(from <= to < total) && e == (ShardSchemeRangeError::IdTooLarge {
                    end: to,
                    start: from,
                    total,
                }),
            },
    {
        if from > to || to >= total {
            return Err(ShardSchemeRangeError::IdTooLarge { end: to, start: from, total });
        }
        Ok(ShardScheme::Range { from, to, total })
    }

    /// The total number of shards the scheme runs against, when it names
    /// one itself.
    pub fn total(&self) -> (r: Option<u64>)
        ensures
            match *self {
                ShardScheme::Auto => r is None,
                ShardScheme::Range { from, to, total } => r == Some(total),
            },
    {
        match self {
            ShardScheme::Auto => None,
            ShardScheme::Range { total, .. } => Some(*total),
        }
    }

    /// The ids of the shards this scheme manages.  Every id lies under
    /// the scheme's total; `Auto` cannot list them before the platform
    /// has been asked for the count.
    pub fn shard_ids(&self) -> (r: Option<Vec<u64>>)
        requires
            self.spec_wf(),
        ensures
            match *self {
                ShardScheme::Auto => r is None,
                ShardScheme::Range { from, to, total } => r matches Some(ids) && ids@.len() == to
                    - from + 1 && (forall|i: int| 0 <= i < ids@.len() ==> ids@[i] == from + i) && (
                forall|i: int| 0 <= i < ids@.len() ==> ids@[i] < total),
            },
    {
        match self {
            ShardScheme::Auto => None,
            ShardScheme::Range { from, to, .. } => {
                let mut ids: Vec<u64> = Vec::new();
                let mut next: u64 = *from;
                while next <= *to
                    invariant
                        *from <= next <= *to + 1,
                        *to < u64::MAX,
                        ids@.len() == next - *from,
                        forall|i: int| 0 <= i < ids@.len() ==> ids@[i] == *from + i,
                    decreases *to + 1 - next,
                {
                    ids.push(next);
                    next = next + 1;
                }
                Some(ids)
            },
        }
    }

    /// The default scheme asks the platform for the shard count.
    pub fn default() -> (r: ShardScheme)
        ensures
            r == (ShardScheme::Auto),
    {
        ShardScheme::Auto
    }
}

/// Every shard id a well-formed scheme manages lies under the scheme's
/// shard total.
pub proof fn law_shard_ids_under_total(scheme: ShardScheme, ids: Seq<u64>, total: u64, i: int)
    requires
        scheme == (ShardScheme::Range { from: scheme->from, to: scheme->to, total }),
        scheme.spec_wf(),
        ids.len() == scheme->to - scheme->from + 1,
        forall|k: int| 0 <= k < ids.len() ==> ids[k] == scheme->from + k,
        0 <= i < ids.len(),
    ensures
        ids[i] < total,
{
}

/// A session snapshot a later cluster can resume from.
#[derive(Clone, Debug, PartialEq, Eq)]
pub struct ResumeSession {
    /// The id of the session to resume.
    pub session_id: String,
    /// The sequence the session last saw.
    pub sequence: u64,
}

/// Configuring the large threshold failed.
#[derive(Clone, Copy, Debug, PartialEq, Eq, Structural)]
pub enum LargeThresholdError {
    /// The provided value is below 50.
    TooFew { value: u64 },
    /// The provided value is above 250.
    TooMany { value: u64 },
}

/// Builder to configure and construct a cluster.
pub struct ClusterBuilder {
    pub token: String,
    pub shard_scheme: ShardScheme,
    pub queue: IdentifyQueue,
    pub resume_sessions: HashMapWithView<u64, ResumeSession>,
    pub intents: Option<u64>,
    pub large_threshold: Option<u64>,
    pub presence: Option<UpdateStatusInfo>,
}

impl ClusterBuilder {
    /// Create a new builder to construct and configure a cluster: the
    /// automatic shard scheme, the local identify queue, no resume
    /// sessions.
    pub fn new(token: &str) -> (r: ClusterBuilder)
        ensures
            r.token@ == token@,
            r.shard_scheme == (ShardScheme::Auto),
            r.queue.waiting@.len() == 0,
            r.resume_sessions@ == Map::<u64, ResumeSession>::empty(),
            r.intents is None,
            r.large_threshold is None,
            r.presence is None,
    {
        ClusterBuilder {
            token: String::from_str(token),
            shard_scheme: ShardScheme::Auto,
            queue: IdentifyQueue::new_default(),
            resume_sessions: HashMapWithView::new(),
            intents: None,
            large_threshold: None,
            presence: None,
        }
    }

    /// Set the "large threshold" of shards.  Exactly the values from 50
    /// through 250 are accepted.
    pub fn large_threshold(self, large_threshold: u64) -> (r: Result<
        ClusterBuilder,
        LargeThresholdError,
    >)
        ensures
            match r {
                Ok(b) => 50 <= large_threshold <= 250 && b == (ClusterBuilder {
                    large_threshold: Some(large_threshold),
                    ..self
                }),
                Err(e) => match e {
                    LargeThresholdError::TooFew { value } => large_threshold < 50 && value
                        == large_threshold,
                    LargeThresholdError::TooMany { value } => large_threshold > 250 && value
                        == large_threshold,
                },
            },
    {
        if large_threshold < 50 {
            return Err(LargeThresholdError::TooFew { value: large_threshold });
        }
        if large_threshold > 250 {
            return Err(LargeThresholdError::TooMany { value: large_threshold });
        }
        Ok(ClusterBuilder { large_threshold: Some(large_threshold), ..self })
    }

    /// Set the intents to use when identifying with the gateway.
    pub fn intents(self, intents: Option<u64>) -> (r: ClusterBuilder)
        ensures
            r == (ClusterBuilder { intents, ..self }),
    {
        ClusterBuilder { intents, ..self }
    }

    /// Set the presence to use when identifying with the gateway.
    pub fn presence(self, presence: UpdateStatusInfo) -> (r: ClusterBuilder)
        ensures
            r == (ClusterBuilder { presence: Some(presence), ..self }),
    {
        ClusterBuilder { presence: Some(presence), ..self }
    }

    /// Set the scheme to use for shard managing.
    pub fn shard_scheme(self, scheme: ShardScheme) -> (r: ClusterBuilder)
        ensures
            r == (ClusterBuilder { shard_scheme: scheme, ..self }),
    {
        ClusterBuilder { shard_scheme: scheme, ..self }
    }

    /// Set the queue to use for pacing shard identifies.
    pub fn queue(self, queue: IdentifyQueue) -> (r: ClusterBuilder)
        ensures
            r == (ClusterBuilder { queue, ..self }),
    {
        ClusterBuilder { queue, ..self }
    }

    /// Set the session information to resume shards with, as recovered
    /// from a resumable shutdown.
    pub fn resume_sessions(self, resume_sessions: HashMapWithView<u64, ResumeSession>) -> (r:
        ClusterBuilder)
        ensures
            r == (ClusterBuilder { resume_sessions, ..self }),
    {
        ClusterBuilder { resume_sessions, ..self }
    }

    /// The configuration the shard `shard_id` of `total` starts with:
    /// the cluster's token, intents and presence, and this shard's
    /// resume snapshot when one is held.
    pub fn shard_config(&self, shard_id: u64, total: u64, gateway_url: &str) -> (r: ShardConfig)
        requires
            shard_id < total,
        ensures
            r.spec_wf(),
            r.shard_id == shard_id,
            r.shard_total == total,
            r.token@ == self.token@,
            r.intents == (match self.intents {
                Some(i) => i,
                None => 0u64,
            }),
            r.large_threshold == self.large_threshold,
            r.gateway_url@ == gateway_url@,
            self.resume_sessions@.contains_key(shard_id) ==> r.session_id is Some && r.sequence
                == Some(self.resume_sessions@[shard_id].sequence),
            !self.resume_sessions@.contains_key(shard_id) ==> r.session_id is None && r.sequence
                is None,
    {
        let (session_id, sequence) = match self.resume_sessions.get(&shard_id) {
            Some(rs) => {
                let id_bytes = rs.session_id.as_str().as_bytes_vec();
                (Some(id_bytes), Some(rs.sequence))
            },
            None => (None, None),
        };
        ShardConfig {
            token: self.token.clone(),
            shard_id,
            shard_total: total,
            intents: match self.intents {
                Some(i) => i,
                None => 0,
            },
            large_threshold: self.large_threshold,
            presence: self.presence.clone(),
            gateway_url: String::from_str(gateway_url),
            session_id,
            sequence,
        }
    }
}

} // verus!
