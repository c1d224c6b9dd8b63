//! The identify queue: paces `IDENTIFY` admissions across shards.
//!
//! Shards wait in arrival order; at most one admission leaves the queue
//! per pacing window.  The runtime drives [`IdentifyQueue::tick`] with its
//! clock and wakes the admitted shard.

use vstd::prelude::*;

verus! {

/// The default pacing window between admissions, in milliseconds.
pub const DEFAULT_IDENTIFY_INTERVAL_MS: u64 = 5000;

/// State of the identify pacing queue.
#[derive(Clone, Debug, PartialEq, Eq)]
pub struct IdentifyQueue {
    /// Shards waiting for an admission, oldest first.
    pub waiting: Vec<u64>,
    /// When the last admission was granted.
    pub last_admission: Option<u64>,
    /// The pacing window, in milliseconds.
    pub interval_ms: u64,
}

impl IdentifyQueue {
    /// An empty queue with the given pacing window.
    pub fn new(interval_ms: u64) -> (r: IdentifyQueue)
        ensures
            r.waiting@.len() == 0,
            r.last_admission is None,
            r.interval_ms == interval_ms,
    {
        IdentifyQueue { waiting: Vec::new(), last_admission: None, interval_ms }
    }

    /// An empty queue with the platform's default window.
    pub fn new_default() -> (r: IdentifyQueue)
        ensures
            r.waiting@.len() == 0,
            r.last_admission is None,
            r.interval_ms == DEFAULT_IDENTIFY_INTERVAL_MS,
    {
        IdentifyQueue::new(DEFAULT_IDENTIFY_INTERVAL_MS)
    }

    /// A shard asks for an admission: it joins the back of the line.
    pub fn request(&mut self, shard_id: u64)
        ensures
            final(self).waiting@ == old(self).waiting@.push(shard_id),
            final(self).last_admission == old(self).last_admission,
            final(self).interval_ms == old(self).interval_ms,
    {
        self.waiting.push(shard_id);
    }

    /// A waiting shard dropped its wait: its earliest entry leaves the
    /// line, the others keep their order and their places.
    pub fn cancel(&mut self, shard_id: u64)
        ensures
            final(self).last_admission == old(self).last_admission,
            final(self).interval_ms == old(self).interval_ms,
            match spec_first_index(old(self).waiting@, shard_id) {
                Some(i) => final(self).waiting@ == old(self).waiting@.remove(i),
                None => final(self).waiting@ == old(self).waiting@,
            },
    {
        let mut k: usize = 0;
        while k < self.waiting.len()
            invariant
                k <= self.waiting@.len(),
                *self == *old(self),
                forall|q: int| 0 <= q < k ==> old(self).waiting@[q] != shard_id,
            decreases self.waiting@.len() - k,
        {
            if self.waiting[k] == shard_id {
                proof {
                    lemma_first_index_found(self.waiting@, shard_id, k as int);
                }
                self.waiting.remove(k);
                return ;
            }
            k += 1;
        }
        proof {
            lemma_first_index_none(self.waiting@, shard_id);
        }
    }

    /// May an admission be granted at `now`?  Only when a full pacing
    /// window has passed since the last one.
    pub open spec fn spec_window_open(&self, now: u64) -> bool {
        match self.last_admission {
            Some(t) => now >= t + self.interval_ms,
            None => true,
        }
    }

    /// One tick of the pacer: admit the shard at the head of the line
    /// when the window is open.  At most one shard leaves per call, and
    /// never before the window since the previous admission has passed.
    pub fn tick(&mut self, now: u64) -> (r: Option<u64>)
        ensures
            final(self).interval_ms == old(self).interval_ms,
            match r {
                Some(id) => old(self).spec_window_open(now) && old(self).waiting@.len() > 0 && id
                    == old(self).waiting@[0] && final(self).waiting@ == old(self).waiting@.subrange(
                    1,
                    old(self).waiting@.len() as int,
                ) && final(self).last_admission == Some(now),
                None => (!old(self).spec_window_open(now) || old(self).waiting@.len() == 0)
                    && *final(self) == *old(self),
            },
    {
        if self.waiting.len() == 0 {
            return None;
        }
        let open = match self.last_admission {
            Some(t) => {
                if t > u64::MAX - self.interval_ms {
                    false
                } else {
                    now >= t + self.interval_ms
                }
            },
            None => true,
        };
        if !open {
            return None;
        }
        let id = self.waiting.remove(0);
        self.last_admission = Some(now);
        Some(id)
    }
}

/// The position of the earliest entry equal to `id`, if one waits.
pub open spec fn spec_first_index(s: Seq<u64>, id: u64) -> Option<int>
    decreases s.len(),
{
    if s.len() == 0 {
        None
    } else if s[0] == id {
        Some(0)
    } else {
        match spec_first_index(s.subrange(1, s.len() as int), id) {
            Some(i) => Some(i + 1),
            None => None,
        }
    }
}

/// When everything before `i` misses `id` and `s[i]` is `id`, the first
/// index is `i`.
proof fn lemma_first_index_found(s: Seq<u64>, id: u64, i: int)
    requires
        0 <= i < s.len(),
        forall|q: int| 0 <= q < i ==> s[q] != id,
        s[i] == id,
    ensures
        spec_first_index(s, id) == Some(i),
    decreases i,
{
    if i > 0 {
        let st = s.subrange(1, s.len() as int);
        lemma_first_index_found(st, id, i - 1);
    }
}

/// When every entry misses `id` there is no first index.
proof fn lemma_first_index_none(s: Seq<u64>, id: u64)
    requires
        forall|q: int| 0 <= q < s.len() ==> s[q] != id,
    ensures
        spec_first_index(s, id) is None,
    decreases s.len(),
{
    if s.len() > 0 {
        lemma_first_index_none(s.subrange(1, s.len() as int), id);
    }
}

/// The queue admits at most one caller per pacing window: two successive
/// admissions, at `t1` and then at `t2`, lie at least one window apart.
pub proof fn law_one_admission_per_window(q: IdentifyQueue, t1: u64, t2: u64)
    requires
        // an admission was granted at `t1` ...
        q.last_admission == Some(t1),
        // ... and the state then opens its window again at `t2`
        q.spec_window_open(t2),
    ensures
        t2 >= t1 + q.interval_ms,
{
}

} // verus!
