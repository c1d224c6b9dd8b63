//! The REST rate limiter: per-route buckets learned from response
//! headers, per-bucket FIFO serialization, and the global block.
//!
//! The limiter is a clock-free model: `acquire_delay` says until when a
//! caller must wait, the runtime sleeps.  Tickets queue per bucket in
//! arrival order and leave in that order.

use vstd::prelude::*;
use vstd::string::StrSliceExecFns;
use vstd::string::StringSliceAdditionalSpecFns;
use crate::codec;

verus! {

/// The rate-limit headers of one response, parsed.
#[derive(Clone, Debug, PartialEq, Eq)]
pub struct RatelimitHeaders {
    /// `x-ratelimit-bucket`: the server-assigned bucket key.
    pub bucket: Option<Vec<u8>>,
    /// `x-ratelimit-limit`.
    pub limit: Option<u64>,
    /// `x-ratelimit-remaining`.
    pub remaining: Option<u64>,
    /// `x-ratelimit-reset`, in milliseconds.
    pub reset_at_ms: Option<u64>,
    /// `retry-after`, in seconds, converted to milliseconds.
    pub retry_after_ms: Option<u64>,
    /// `x-ratelimit-global`.
    pub global: bool,
}

/// The value of the first header named `name`, if any.
pub open spec fn spec_header_lookup(
    hs: Seq<(Vec<u8>, Vec<u8>)>,
    name: Seq<u8>,
) -> Option<Seq<u8>>
    decreases hs.len(),
{
    if hs.len() == 0 {
        None
    } else if hs[0].0@ == name {
        Some(hs[0].1@)
    } else {
        spec_header_lookup(hs.subrange(1, hs.len() as int), name)
    }
}

/// A whole byte string read as a decimal number.
pub open spec fn spec_decimal(v: Seq<u8>) -> Option<u64> {
    codec::spec_u64_value(v, 0, v.len() as int)
}

/// First position of a dot in `v` at or after `i`.
pub open spec fn spec_find_dot(v: Seq<u8>, i: int) -> Option<int>
    decreases v.len() - i,
{
    if i < 0 || i >= v.len() {
        None
    } else if v[i] == 46 {
        Some(i)
    } else {
        spec_find_dot(v, i + 1)
    }
}

/// A reset timestamp in seconds with up to three fractional digits, read
/// as milliseconds.
pub open spec fn spec_reset_ms(v: Seq<u8>) -> Option<u64> {
    match spec_find_dot(v, 0) {
        None => match spec_decimal(v) {
            Some(secs) => if secs * 1000 <= u64::MAX {
                Some((secs * 1000) as u64)
            } else {
                None
            },
            None => None,
        },
        Some(d) => {
            let frac_len = v.len() - d - 1;
            if 1 <= frac_len <= 3 {
                match (
                    codec::spec_u64_value(v, 0, d),
                    codec::spec_u64_value(v, d + 1, v.len() as int),
                ) {
                    (Some(secs), Some(frac)) => {
                        let scale: int = if frac_len == 1 {
                            100
                        } else if frac_len == 2 {
                            10
                        } else {
                            1
                        };
                        if secs * 1000 + frac * scale <= u64::MAX {
                            Some((secs * 1000 + frac * scale) as u64)
                        } else {
                            None
                        }
                    },
                    _ => None,
                }
            } else {
                None
            }
        },
    }
}

/// Executable twin of [`spec_decimal`].
pub fn decimal(v: &Vec<u8>) -> (r: Option<u64>)
    ensures
        r == spec_decimal(v@),
{
    codec::u64_value(v, 0, v.len())
}

/// Executable twin of [`spec_find_dot`].
pub fn find_dot(v: &Vec<u8>, i: usize) -> (r: Option<usize>)
    requires
        i <= v@.len(),
    ensures
        match r {
            Some(d) => spec_find_dot(v@, i as int) == Some(d as int) && i <= d < v@.len(),
            None => spec_find_dot(v@, i as int) is None,
        },
    decreases v@.len() - i,
{
    if i >= v.len() {
        None
    } else if v[i] == 46 {
        Some(i)
    } else {
        find_dot(v, i + 1)
    }
}

/// Executable twin of [`spec_reset_ms`].
pub fn reset_ms(v: &Vec<u8>) -> (r: Option<u64>)
    ensures
        r == spec_reset_ms(v@),
{
    match find_dot(v, 0) {
        None => {
            match decimal(v) {
                Some(secs) => {
                    if secs <= u64::MAX / 1000 {
                        Some(secs * 1000)
                    } else {
                        None
                    }
                },
                None => None,
            }
        },
        Some(d) => {
            let frac_len = v.len() - d - 1;
            if 1 <= frac_len && frac_len <= 3 {
                let secs = match codec::u64_value(v, 0, d) {
                    Some(s) => s,
                    None => {
                        return None;
                    },
                };
                let frac = match codec::u64_value(v, d + 1, v.len()) {
                    Some(f) => f,
                    None => {
                        return None;
                    },
                };
                let scale: u64 = if frac_len == 1 {
                    100
                } else if frac_len == 2 {
                    10
                } else {
                    1
                };
                if secs <= (u64::MAX / 1000) && frac <= (u64::MAX - secs * 1000) / scale {
                    Some(secs * 1000 + frac * scale)
                } else {
                    None
                }
            } else {
                None
            }
        },
    }
}

/// Does the value spell the literal `true`?
pub open spec fn spec_is_true(v: Seq<u8>) -> bool {
    codec::spec_bool_value(v, 0, v.len() as int) == Some(true)
}

/// What each header field of a response parses to.
pub open spec fn spec_opt_decimal(o: Option<Seq<u8>>) -> Option<u64> {
    match o {
        Some(v) => spec_decimal(v),
        None => None,
    }
}

pub open spec fn spec_opt_reset_ms(o: Option<Seq<u8>>) -> Option<u64> {
    match o {
        Some(v) => spec_reset_ms(v),
        None => None,
    }
}

/// Retry-after seconds as milliseconds.
pub open spec fn spec_opt_retry_ms(o: Option<Seq<u8>>) -> Option<u64> {
    match o {
        Some(v) => match spec_decimal(v) {
            Some(secs) => if secs * 1000 <= u64::MAX {
                Some((secs * 1000) as u64)
            } else {
                None
            },
            None => None,
        },
        None => None,
    }
}

impl RatelimitHeaders {
    /// Parse the rate-limit headers out of lowercase header name/value
    /// byte pairs.
    pub fn from_pairs(headers: &Vec<(Vec<u8>, Vec<u8>)>) -> (r: RatelimitHeaders)
        ensures
            match r.bucket {
                Some(b) => spec_header_lookup(headers@, ("x-ratelimit-bucket").spec_bytes())
                    == Some(b@),
                None => spec_header_lookup(headers@, ("x-ratelimit-bucket").spec_bytes()) is None,
            },
            r.limit == spec_opt_decimal(
                spec_header_lookup(headers@, ("x-ratelimit-limit").spec_bytes()),
            ),
            r.remaining == spec_opt_decimal(
                spec_header_lookup(headers@, ("x-ratelimit-remaining").spec_bytes()),
            ),
            r.reset_at_ms == spec_opt_reset_ms(
                spec_header_lookup(headers@, ("x-ratelimit-reset").spec_bytes()),
            ),
            r.retry_after_ms == spec_opt_retry_ms(
                spec_header_lookup(headers@, ("retry-after").spec_bytes()),
            ),
            r.global == (match spec_header_lookup(
                headers@,
                ("x-ratelimit-global").spec_bytes(),
            ) {
                Some(v) => spec_is_true(v),
                None => false,
            }),
    {
        let bucket = match find_header(headers, "x-ratelimit-bucket") {
            Some(v) => Some(codec::copy_range(v, 0, v.len())),
            None => None,
        };
        let limit = match find_header(headers, "x-ratelimit-limit") {
            Some(v) => decimal(v),
            None => None,
        };
        let remaining = match find_header(headers, "x-ratelimit-remaining") {
            Some(v) => decimal(v),
            None => None,
        };
        let reset_at_ms = match find_header(headers, "x-ratelimit-reset") {
            Some(v) => reset_ms(v),
            None => None,
        };
        let retry_after_ms = match find_header(headers, "retry-after") {
            Some(v) => match decimal(v) {
                Some(secs) => {
                    if secs <= u64::MAX / 1000 {
                        Some(secs * 1000)
                    } else {
                        None
                    }
                },
                None => None,
            },
            None => None,
        };
        let global = match find_header(headers, "x-ratelimit-global") {
            Some(v) => {
                match codec::bool_value(v, 0, v.len()) {
                    Some(true) => true,
                    _ => false,
                }
            },
            None => false,
        };
        RatelimitHeaders { bucket, limit, remaining, reset_at_ms, retry_after_ms, global }
    }
}

/// The value of the first header named `name`, if any.
fn find_header<'a>(headers: &'a Vec<(Vec<u8>, Vec<u8>)>, name: &str) -> (r: Option<&'a Vec<u8>>)
    ensures
        match r {
            Some(v) => spec_header_lookup(headers@, name.spec_bytes()) == Some(v@),
            None => spec_header_lookup(headers@, name.spec_bytes()) is None,
        },
{
    let name_bytes = name.as_bytes_vec();
    let mut k: usize = 0;
    proof {
        assert(headers@.subrange(0, headers@.len() as int) =~= headers@);
    }
    while k < headers.len()
        invariant
            k <= headers@.len(),
            name_bytes@ == name.spec_bytes(),
            spec_header_lookup(headers@, name.spec_bytes()) == spec_header_lookup(
                headers@.subrange(k as int, headers@.len() as int),
                name.spec_bytes(),
            ),
        decreases headers@.len() - k,
    {
        proof {
            let rest = headers@.subrange(k as int, headers@.len() as int);
            assert(rest[0] == headers@[k as int]);
            assert(rest.subrange(1, rest.len() as int) =~= headers@.subrange(
                (k + 1) as int,
                headers@.len() as int,
            ));
        }
        let (hname, hvalue) = &headers[k];
        if crate::event::bytes_is(hname, name) {
            return Some(hvalue);
        }
        k += 1;
    }
    proof {
        assert(headers@.subrange(headers@.len() as int, headers@.len() as int).len() == 0);
    }
    None
}


/// One rate-limit bucket: the server-assigned budget and the tickets
/// serialized through it, in arrival order.
#[derive(Clone, Debug, PartialEq, Eq)]
pub struct RateBucket {
    pub limit: u64,
    pub remaining: u64,
    pub reset_at_ms: u64,
    /// Tickets waiting on this bucket, oldest first.
    pub queue: Vec<u64>,
}

/// A bucket stored under its key.
#[derive(Clone, Debug, PartialEq, Eq)]
pub struct BucketEntry {
    pub key: Vec<u8>,
    pub bucket: RateBucket,
}

/// The bucket stored under `key`, if any (first occurrence wins).
pub open spec fn spec_bucket_lookup(s: Seq<BucketEntry>, key: Seq<u8>) -> Option<RateBucket>
    decreases s.len(),
{
    if s.len() == 0 {
        None
    } else if s[0].key@ == key {
        Some(s[0].bucket)
    } else {
        spec_bucket_lookup(s.subrange(1, s.len() as int), key)
    }
}

/// Copy a vector of ticket ids.
fn copy_ids(v: &Vec<u64>) -> (r: Vec<u64>)
    ensures
        r@ == v@,
{
    let mut out: Vec<u64> = Vec::new();
    let mut k: usize = 0;
    while k < v.len()
        invariant
            k <= v@.len(),
            out@ == v@.subrange(0, k as int),
        decreases v@.len() - k,
    {
        out.push(v[k]);
        proof {
            assert(out@ =~= v@.subrange(0, (k + 1) as int));
        }
        k += 1;
    }
    proof {
        assert(out@ =~= v@);
    }
    out
}

impl RateBucket {
    /// A copy of this bucket.
    pub fn duplicate(&self) -> (r: RateBucket)
        ensures
            r.limit == self.limit,
            r.remaining == self.remaining,
            r.reset_at_ms == self.reset_at_ms,
            r.queue@ == self.queue@,
    {
        RateBucket {
            limit: self.limit,
            remaining: self.remaining,
            reset_at_ms: self.reset_at_ms,
            queue: copy_ids(&self.queue),
        }
    }
}

/// The in-process rate limiter: buckets by key, the learned route-to-
/// bucket mapping, and the global block.
#[derive(Debug)]
pub struct RateLimiter {
    buckets: Vec<BucketEntry>,
    /// `route key -> bucket key`, learned from `x-ratelimit-bucket`.
    routes: Vec<(Vec<u8>, Vec<u8>)>,
    /// While set and in the future, every acquisition waits.
    global_until_ms: Option<u64>,
}

impl RateLimiter {
    /// The stored buckets.
    pub closed spec fn spec_buckets(&self) -> Seq<BucketEntry> {
        self.buckets@
    }

    /// The learned route-to-bucket mapping.
    pub closed spec fn spec_routes(&self) -> Seq<(Vec<u8>, Vec<u8>)> {
        self.routes@
    }

    /// The global block, when one is set.
    pub closed spec fn spec_global_until(&self) -> Option<u64> {
        self.global_until_ms
    }

    /// The global block, when one is set.
    pub fn global_until(&self) -> (r: Option<u64>)
        ensures
            r == self.spec_global_until(),
    {
        self.global_until_ms
    }

    /// The key of the bucket the route goes through: the learned one, or
    /// the route itself before the mapping is learned.
    pub open spec fn spec_bucket_key(&self, route: Seq<u8>) -> Seq<u8> {
        match spec_header_lookup(self.spec_routes(), route) {
            Some(b) => b,
            None => route,
        }
    }

    /// A limiter with no buckets, no mappings and no global block.
    pub fn new() -> (r: RateLimiter)
        ensures
            r.spec_buckets().len() == 0,
            r.spec_routes().len() == 0,
            r.spec_global_until() is None,
    {
        RateLimiter { buckets: Vec::new(), routes: Vec::new(), global_until_ms: None }
    }

    /// The key of the bucket the route goes through, as bytes.
    pub fn bucket_key(&self, route: &Vec<u8>) -> (r: Vec<u8>)
        ensures
            r@ == self.spec_bucket_key(route@),
    {
        let mut k: usize = 0;
        proof {
            assert(self.routes@.subrange(0, self.routes@.len() as int) =~= self.routes@);
        }
        while k < self.routes.len()
            invariant
                k <= self.routes@.len(),
                spec_header_lookup(self.routes@, route@) == spec_header_lookup(
                    self.routes@.subrange(k as int, self.routes@.len() as int),
                    route@,
                ),
            decreases self.routes@.len() - k,
        {
            proof {
                let rest = self.routes@.subrange(k as int, self.routes@.len() as int);
                assert(rest[0] == self.routes@[k as int]);
                assert(rest.subrange(1, rest.len() as int) =~= self.routes@.subrange(
                    (k + 1) as int,
                    self.routes@.len() as int,
                ));
            }
            let (rkey, bkey) = &self.routes[k];
            if codec::range_eq(rkey, 0, rkey.len(), route) {
                proof {
                    assert(rkey@.subrange(0, rkey@.len() as int) =~= rkey@);
                }
                return codec::copy_range(bkey, 0, bkey.len());
            }
            proof {
                assert(self.routes@[k as int].0@.subrange(
                    0,
                    self.routes@[k as int].0@.len() as int,
                ) =~= self.routes@[k as int].0@);
            }
            k += 1;
        }
        proof {
            assert(self.routes@.subrange(self.routes@.len() as int, self.routes@.len() as int).len()
                == 0);
        }
        codec::copy_range(route, 0, route.len())
    }

    /// The bucket stored under `key`, copied out.
    fn bucket_of(&self, key: &Vec<u8>) -> (r: Option<RateBucket>)
        ensures
            match r {
                Some(b) => spec_bucket_lookup(self.spec_buckets(), key@) matches Some(sb) && b.limit
                    == sb.limit && b.remaining == sb.remaining && b.reset_at_ms == sb.reset_at_ms
                    && b.queue@ == sb.queue@,
                None => spec_bucket_lookup(self.spec_buckets(), key@) is None,
            },
    {
        let mut k: usize = 0;
        proof {
            assert(self.buckets@.subrange(0, self.buckets@.len() as int) =~= self.buckets@);
        }
        while k < self.buckets.len()
            invariant
                k <= self.buckets@.len(),
                spec_bucket_lookup(self.buckets@, key@) == spec_bucket_lookup(
                    self.buckets@.subrange(k as int, self.buckets@.len() as int),
                    key@,
                ),
            decreases self.buckets@.len() - k,
        {
            proof {
                let rest = self.buckets@.subrange(k as int, self.buckets@.len() as int);
                assert(rest[0] == self.buckets@[k as int]);
                assert(rest.subrange(1, rest.len() as int) =~= self.buckets@.subrange(
                    (k + 1) as int,
                    self.buckets@.len() as int,
                ));
            }
            let entry = &self.buckets[k];
            if codec::range_eq(&entry.key, 0, entry.key.len(), key) {
                proof {
                    assert(entry.key@.subrange(0, entry.key@.len() as int) =~= entry.key@);
                }
                return Some(entry.bucket.duplicate());
            }
            proof {
                assert(self.buckets@[k as int].key@.subrange(
                    0,
                    self.buckets@[k as int].key@.len() as int,
                ) =~= self.buckets@[k as int].key@);
            }
            k += 1;
        }
        proof {
            assert(self.buckets@.subrange(
                self.buckets@.len() as int,
                self.buckets@.len() as int,
            ).len() == 0);
        }
        None
    }

    /// Store `b` under `key`, replacing what was there.
    fn set_bucket(&mut self, key: &Vec<u8>, b: RateBucket)
        ensures
            final(self).spec_routes() == old(self).spec_routes(),
            final(self).spec_global_until() == old(self).spec_global_until(),
            spec_bucket_lookup(final(self).spec_buckets(), key@) == Some(b),
            forall|k2: Seq<u8>| k2 != key@ ==> spec_bucket_lookup(
                final(self).spec_buckets(),
                k2,
            ) == spec_bucket_lookup(old(self).spec_buckets(), k2),
    {
        let mut k: usize = 0;
        let ghost orig = self.buckets@;
        while k < self.buckets.len()
            invariant
                k <= self.buckets@.len(),
                self.buckets@ == orig,
                orig == old(self).spec_buckets(),
                self.routes == old(self).routes,
                self.global_until_ms == old(self).global_until_ms,
                forall|q: int| 0 <= q < k ==> orig[q].key@ != key@,
            decreases self.buckets@.len() - k,
        {
            let matched = {
                let entry = &self.buckets[k];
                codec::range_eq(&entry.key, 0, entry.key.len(), key)
            };
            proof {
                assert(orig[k as int].key@.subrange(0, orig[k as int].key@.len() as int)
                    =~= orig[k as int].key@);
            }
            if matched {
                let key_copy = codec::copy_range(key, 0, key.len());
                proof {
                    assert(key_copy@ =~= key@);
                }
                self.buckets.set(k, BucketEntry { key: key_copy, bucket: b });
                proof {
                    let e = self.buckets@[k as int];
                    assert(e.key@ == key@);
                    assert(e.bucket == b);
                    assert(self.buckets@ == orig.update(k as int, e));
                    lemma_set_is_update(orig, k as int, key@, e);
                    assert(orig == old(self).spec_buckets());
                    assert forall|k2: Seq<u8>| k2 != key@ implies spec_bucket_lookup(
                        self.spec_buckets(),
                        k2,
                    ) == spec_bucket_lookup(old(self).spec_buckets(), k2) by {
                        assert(spec_bucket_lookup(orig.update(k as int, e), k2)
                            == spec_bucket_lookup(orig, k2));
                        assert(self.spec_buckets() == orig.update(k as int, e));
                    }
                }
                return ;
            }
            k += 1;
        }
        let key_copy = codec::copy_range(key, 0, key.len());
        proof {
            assert(key_copy@ =~= key@);
        }
        self.buckets.push(BucketEntry { key: key_copy, bucket: b });
        proof {
            let e = self.buckets@.last();
            assert(e.key@ == key@);
            assert(e.bucket == b);
            assert(self.buckets@ == orig.push(e));
            lemma_lookup_none_when_all_miss(orig, key@);
            lemma_append_lookup(orig, e, key@);
            assert(orig == old(self).spec_buckets());
            assert forall|k2: Seq<u8>| k2 != key@ implies spec_bucket_lookup(
                self.spec_buckets(),
                k2,
            ) == spec_bucket_lookup(old(self).spec_buckets(), k2) by {
                assert(spec_bucket_lookup(orig.push(e), k2) == spec_bucket_lookup(orig, k2));
                assert(self.spec_buckets() == orig.push(e));
            }
        }
    }
}

/// When every entry's key misses `key`, the lookup finds nothing.
proof fn lemma_lookup_none_when_all_miss(s: Seq<BucketEntry>, key: Seq<u8>)
    requires
        forall|q: int| 0 <= q < s.len() ==> s[q].key@ != key,
    ensures
        spec_bucket_lookup(s, key) is None,
    decreases s.len(),
{
    if s.len() > 0 {
        lemma_lookup_none_when_all_miss(s.subrange(1, s.len() as int), key);
    }
}

/// Setting the entry at a position whose earlier entries all miss `key`,
/// to an entry keyed `key`, makes lookups of `key` find it and leaves
/// every other key alone.
proof fn lemma_set_is_update(s: Seq<BucketEntry>, i: int, key: Seq<u8>, e: BucketEntry)
    requires
        0 <= i < s.len(),
        forall|q: int| 0 <= q < i ==> s[q].key@ != key,
        s[i].key@ == key,
        e.key@ == key,
    ensures
        spec_bucket_lookup(s.update(i, e), key) == Some(e.bucket),
        forall|k2: Seq<u8>| k2 != key ==> spec_bucket_lookup(s.update(i, e), k2)
            == spec_bucket_lookup(s, k2),
    decreases i,
{
    let u = s.update(i, e);
    if i == 0 {
        assert(u[0] == e);
        assert(u.subrange(1, u.len() as int) =~= s.subrange(1, s.len() as int));
        assert(spec_bucket_lookup(u, key) == Some(e.bucket));
        assert forall|k2: Seq<u8>| k2 != key implies spec_bucket_lookup(u, k2)
            == spec_bucket_lookup(s, k2) by {
            assert(spec_bucket_lookup(u, k2) == spec_bucket_lookup(
                u.subrange(1, u.len() as int),
                k2,
            ));
            assert(spec_bucket_lookup(s, k2) == spec_bucket_lookup(
                s.subrange(1, s.len() as int),
                k2,
            ));
        }
    } else {
        let st = s.subrange(1, s.len() as int);
        lemma_set_is_update(st, i - 1, key, e);
        assert(u[0] == s[0]);
        assert(u.subrange(1, u.len() as int) =~= st.update(i - 1, e));
        assert(s[0].key@ != key);
        assert(spec_bucket_lookup(u, key) == spec_bucket_lookup(st.update(i - 1, e), key));
        assert forall|k2: Seq<u8>| k2 != key implies spec_bucket_lookup(u, k2)
            == spec_bucket_lookup(s, k2) by {
            if s[0].key@ == k2 {
                assert(spec_bucket_lookup(u, k2) == Some(u[0].bucket));
                assert(spec_bucket_lookup(s, k2) == Some(s[0].bucket));
            } else {
                assert(spec_bucket_lookup(u, k2) == spec_bucket_lookup(
                    st.update(i - 1, e),
                    k2,
                ));
                assert(spec_bucket_lookup(s, k2) == spec_bucket_lookup(st, k2));
            }
        }
    }
}

/// Appending an entry keyed `key` to a sequence makes lookups of `key`
/// find it when it was absent, and leaves every other key alone.
proof fn lemma_append_lookup(s: Seq<BucketEntry>, e: BucketEntry, key: Seq<u8>)
    requires
        e.key@ == key,
    ensures
        spec_bucket_lookup(s, key) is None ==> spec_bucket_lookup(s.push(e), key) == Some(
            e.bucket,
        ),
        forall|k2: Seq<u8>| k2 != key ==> spec_bucket_lookup(s.push(e), k2) == spec_bucket_lookup(
            s,
            k2,
        ),
    decreases s.len(),
{
    let p = s.push(e);
    if s.len() == 0 {
        assert(p[0] == e);
        assert(p.subrange(1, 1) =~= Seq::<BucketEntry>::empty());
        assert(spec_bucket_lookup(p, key) == Some(e.bucket));
        assert forall|k2: Seq<u8>| k2 != key implies spec_bucket_lookup(p, k2)
            == spec_bucket_lookup(s, k2) by {
            assert(spec_bucket_lookup(p, k2) == spec_bucket_lookup(p.subrange(1, 1), k2));
            assert(spec_bucket_lookup(p.subrange(1, 1), k2) is None);
            assert(spec_bucket_lookup(s, k2) is None);
        }
    } else {
        let st = s.subrange(1, s.len() as int);
        lemma_append_lookup(st, e, key);
        assert(p[0] == s[0]);
        assert(p.subrange(1, p.len() as int) =~= st.push(e));
        assert forall|k2: Seq<u8>| k2 != key implies spec_bucket_lookup(p, k2)
            == spec_bucket_lookup(s, k2) by {
            if s[0].key@ == k2 {
                assert(spec_bucket_lookup(p, k2) == Some(p[0].bucket));
            } else {
                assert(spec_bucket_lookup(p, k2) == spec_bucket_lookup(st.push(e), k2));
                assert(spec_bucket_lookup(s, k2) == spec_bucket_lookup(st, k2));
            }
        }
        if spec_bucket_lookup(s, key) is None {
            assert(s[0].key@ != key);
            assert(spec_bucket_lookup(p, key) == spec_bucket_lookup(st.push(e), key));
            assert(spec_bucket_lookup(st, key) is None);
        }
    }
}


/// `a + b`, pinned at the top of the range.
pub open spec fn spec_sat_add(a: u64, b: u64) -> u64 {
    if a + b > u64::MAX {
        u64::MAX
    } else {
        (a + b) as u64
    }
}

/// Executable twin of [`spec_sat_add`].
pub fn sat_add(a: u64, b: u64) -> (r: u64)
    ensures
        r == spec_sat_add(a, b),
{
    if a > u64::MAX - b {
        u64::MAX
    } else {
        a + b
    }
}

impl RateLimiter {
    /// Until when an acquisition on `route` must wait at `now_ms`: the
    /// global block while it is in the future; else the bucket's reset
    /// instant while its budget is spent; else `0`, proceed at once.
    pub fn acquire_delay(&self, route: &Vec<u8>, now_ms: u64) -> (r: u64)
        ensures
            match self.spec_global_until() {
                Some(g) => g > now_ms ==> r == g,
                None => true,
            },
            (match self.spec_global_until() {
                Some(g) => g <= now_ms,
                None => true,
            }) ==> (match spec_bucket_lookup(
                self.spec_buckets(),
                self.spec_bucket_key(route@),
            ) {
                Some(b) => if b.remaining == 0 && now_ms < b.reset_at_ms {
                    r == b.reset_at_ms
                } else {
                    r == 0
                },
                None => r == 0,
            }),
    {
        match self.global_until_ms {
            Some(g) => {
                if g > now_ms {
                    return g;
                }
            },
            None => {},
        }
        let key = self.bucket_key(route);
        match self.bucket_of(&key) {
            Some(b) => {
                if b.remaining == 0 && now_ms < b.reset_at_ms {
                    b.reset_at_ms
                } else {
                    0
                }
            },
            None => 0,
        }
    }

    /// A caller joins the bucket's line for `route`: its ticket goes to
    /// the back of the queue; a route without a bucket yet gets a fresh
    /// provisional one.
    pub fn enqueue(&mut self, route: &Vec<u8>, ticket: u64)
        ensures
            final(self).spec_routes() == old(self).spec_routes(),
            final(self).spec_global_until() == old(self).spec_global_until(),
            spec_bucket_lookup(
                final(self).spec_buckets(),
                old(self).spec_bucket_key(route@),
            ) matches Some(b2) && b2.queue@ == (
            match spec_bucket_lookup(old(self).spec_buckets(), old(self).spec_bucket_key(route@)) {
                Some(b) => b.queue@.push(ticket),
                None => seq![ticket],
            }),
            forall|k2: Seq<u8>| k2 != old(self).spec_bucket_key(route@)
                ==> spec_bucket_lookup(final(self).spec_buckets(), k2) == spec_bucket_lookup(
                old(self).spec_buckets(),
                k2,
            ),
    {
        let key = self.bucket_key(route);
        match self.bucket_of(&key) {
            Some(b) => {
                let mut queue = b.queue;
                queue.push(ticket);
                self.set_bucket(
                    &key,
                    RateBucket {
                        limit: b.limit,
                        remaining: b.remaining,
                        reset_at_ms: b.reset_at_ms,
                        queue,
                    },
                );
            },
            None => {
                let mut queue: Vec<u64> = Vec::new();
                queue.push(ticket);
                self.set_bucket(
                    &key,
                    RateBucket { limit: 1, remaining: 1, reset_at_ms: 0, queue },
                );
                proof {
                    assert(seq![ticket] =~= Seq::<u64>::empty().push(ticket));
                }
            },
        }
    }

    /// The ticket at the head of the line for `route`, the only one that
    /// may proceed: tickets leave in arrival order.
    pub fn front(&self, route: &Vec<u8>) -> (r: Option<u64>)
        ensures
            r == (match spec_bucket_lookup(self.spec_buckets(), self.spec_bucket_key(route@)) {
                Some(b) => if b.queue@.len() > 0 {
                    Some(b.queue@[0])
                } else {
                    None::<u64>
                },
                None => None::<u64>,
            }),
    {
        let key = self.bucket_key(route);
        match self.bucket_of(&key) {
            Some(b) => {
                if b.queue.len() > 0 {
                    Some(b.queue[0])
                } else {
                    None
                }
            },
            None => None,
        }
    }

    /// A response for `route` came back: the head ticket leaves the
    /// queue, the bucket takes the response's budget, the mapping learns
    /// the server's bucket key and moves the waiters there, and a `429`
    /// blocks the bucket or, with the global flag, everything.
    pub fn release(&mut self, route: &Vec<u8>, headers: &RatelimitHeaders, status: u16, now_ms: u64)
        ensures
            // the global block: set exactly by a global 429 with a retry
            match headers.retry_after_ms {
                Some(ra) => if status == 429 && headers.global {
                    final(self).spec_global_until() == Some(spec_sat_add(now_ms, ra))
                } else {
                    final(self).spec_global_until() == old(self).spec_global_until()
                },
                None => final(self).spec_global_until() == old(self).spec_global_until(),
            },
            // the mapping learns the server's bucket key
            (match headers.bucket {
                Some(nb) => spec_header_lookup(final(self).spec_routes(), route@) == Some(nb@),
                None => final(self).spec_routes() == old(self).spec_routes(),
            }),
            // the bucket the route now goes through holds the response's
            // budget, a bucket-local 429 spends it until the retry, and
            // the head ticket has left the line
            spec_bucket_lookup(
                final(self).spec_buckets(),
                final(self).spec_bucket_key(route@),
            ) matches Some(b2) && spec_release_budget(headers, status, now_ms, old(self), route@, b2)
                && b2.queue@ == spec_release_queue(old(self), route@, headers),
    {
        let pkey = self.bucket_key(route);
        let (limit0, remaining0, reset0, q_rest) = match self.bucket_of(&pkey) {
            Some(b) => {
                let mut q = b.queue;
                if q.len() > 0 {
                    q.remove(0);
                    proof {
                        assert(q@ =~= b.queue@.subrange(1, b.queue@.len() as int));
                    }
                }
                (b.limit, b.remaining, b.reset_at_ms, q)
            },
            None => (1u64, 1u64, 0u64, Vec::new()),
        };
        let limit = match headers.limit {
            Some(l) => l,
            None => limit0,
        };
        let mut remaining = match headers.remaining {
            Some(rm) => rm,
            None => remaining0,
        };
        let mut reset_at_ms = match headers.reset_at_ms {
            Some(rs) => rs,
            None => reset0,
        };
        if status == 429 {
            if headers.global {
                match headers.retry_after_ms {
                    Some(ra) => {
                        self.global_until_ms = Some(sat_add(now_ms, ra));
                    },
                    None => {},
                }
            } else {
                match headers.retry_after_ms {
                    Some(ra) => {
                        remaining = 0;
                        reset_at_ms = sat_add(now_ms, ra);
                    },
                    None => {},
                }
            }
        }
        match &headers.bucket {
            Some(nb) => {
                let same = codec::range_eq(nb, 0, nb.len(), &pkey);
                proof {
                    assert(nb@.subrange(0, nb@.len() as int) =~= nb@);
                }
                self.set_route(route, nb);
                if same {
                    self.set_bucket(
                        &pkey,
                        RateBucket { limit, remaining, reset_at_ms, queue: q_rest },
                    );
                } else {
                    let merged = match self.bucket_of(nb) {
                        Some(tb) => {
                            let mut q = tb.queue;
                            let ghost head = q@;
                            push_ids(&mut q, &q_rest);
                            q
                        },
                        None => q_rest,
                    };
                    self.set_bucket(
                        nb,
                        RateBucket { limit, remaining, reset_at_ms, queue: merged },
                    );
                }
            },
            None => {
                self.set_bucket(
                    &pkey,
                    RateBucket { limit, remaining, reset_at_ms, queue: q_rest },
                );
            },
        }
    }
}

/// The budget a released bucket must hold: the response's headers where
/// they spoke, the old bucket's where they did not, and an empty budget
/// until the retry instant after a bucket-local 429.
pub open spec fn spec_release_budget(
    headers: &RatelimitHeaders,
    status: u16,
    now_ms: u64,
    limiter: &RateLimiter,
    route: Seq<u8>,
    b2: RateBucket,
) -> bool {
    let old_b = spec_bucket_lookup(limiter.spec_buckets(), limiter.spec_bucket_key(route));
    let limit0 = match old_b {
        Some(b) => b.limit,
        None => 1u64,
    };
    let remaining0 = match old_b {
        Some(b) => b.remaining,
        None => 1u64,
    };
    let reset0 = match old_b {
        Some(b) => b.reset_at_ms,
        None => 0u64,
    };
    let limit1 = match headers.limit {
        Some(l) => l,
        None => limit0,
    };
    let remaining1 = match headers.remaining {
        Some(rm) => rm,
        None => remaining0,
    };
    let reset1 = match headers.reset_at_ms {
        Some(rs) => rs,
        None => reset0,
    };
    let local_429 = status == 429 && !headers.global && headers.retry_after_ms is Some;
    b2.limit == limit1 && (local_429 ==> b2.remaining == 0 && b2.reset_at_ms == spec_sat_add(
        now_ms,
        match headers.retry_after_ms {
            Some(ra) => ra,
            None => 0u64,
        },
    )) && (!local_429 ==> b2.remaining == remaining1 && b2.reset_at_ms == reset1)
}

/// The line a released route's bucket must hold: the head ticket gone,
/// and on a migration the canonical bucket's waiters first.
pub open spec fn spec_release_queue(
    limiter: &RateLimiter,
    route: Seq<u8>,
    headers: &RatelimitHeaders,
) -> Seq<u64> {
    let pkey = limiter.spec_bucket_key(route);
    let rest = match spec_bucket_lookup(limiter.spec_buckets(), pkey) {
        Some(b) => if b.queue@.len() > 0 {
            b.queue@.subrange(1, b.queue@.len() as int)
        } else {
            b.queue@
        },
        None => Seq::<u64>::empty(),
    };
    match headers.bucket {
        Some(nb) => if nb@ == pkey {
            rest
        } else {
            match spec_bucket_lookup(limiter.spec_buckets(), nb@) {
                Some(tb) => tb.queue@ + rest,
                None => rest,
            }
        },
        None => rest,
    }
}

/// Serving strictly from the front means arrival order is service order:
/// after `k` head-removals the head is the ticket that arrived `k`-th.
pub proof fn law_fifo_order(q: Seq<u64>, k: int)
    requires
        0 <= k < q.len(),
    ensures
        spec_drop_fronts(q, k)[0] == q[k],
    decreases k,
{
    if k > 0 {
        law_fifo_order(q.subrange(1, q.len() as int), k - 1);
    }
}

/// `q` after `k` head-removals.
pub open spec fn spec_drop_fronts(q: Seq<u64>, k: int) -> Seq<u64>
    decreases k,
{
    if k <= 0 || q.len() == 0 {
        q
    } else {
        spec_drop_fronts(q.subrange(1, q.len() as int), k - 1)
    }
}


/// Append ticket ids to a queue.
fn push_ids(dst: &mut Vec<u64>, src: &Vec<u64>)
    ensures
        final(dst)@ == old(dst)@ + src@,
{
    let ghost base = dst@;
    let mut k: usize = 0;
    while k < src.len()
        invariant
            k <= src@.len(),
            dst@ == base + src@.subrange(0, k as int),
        decreases src@.len() - k,
    {
        dst.push(src[k]);
        proof {
            assert(dst@ =~= base + src@.subrange(0, (k + 1) as int));
        }
        k += 1;
    }
    proof {
        assert(dst@ =~= base + src@);
    }
}

/// Setting the pair at a position whose earlier pairs all miss `key`, to
/// a pair keyed `key`, makes lookups of `key` find it and leaves every
/// other key alone.
proof fn lemma_pair_set_is_update(
    s: Seq<(Vec<u8>, Vec<u8>)>,
    i: int,
    key: Seq<u8>,
    e: (Vec<u8>, Vec<u8>),
)
    requires
        0 <= i < s.len(),
        forall|q: int| 0 <= q < i ==> s[q].0@ != key,
        s[i].0@ == key,
        e.0@ == key,
    ensures
        spec_header_lookup(s.update(i, e), key) == Some(e.1@),
        forall|k2: Seq<u8>| k2 != key ==> spec_header_lookup(s.update(i, e), k2)
            == spec_header_lookup(s, k2),
    decreases i,
{
    let u = s.update(i, e);
    if i == 0 {
        assert(u[0] == e);
        assert(u.subrange(1, u.len() as int) =~= s.subrange(1, s.len() as int));
        assert(spec_header_lookup(u, key) == Some(e.1@));
        assert forall|k2: Seq<u8>| k2 != key implies spec_header_lookup(u, k2)
            == spec_header_lookup(s, k2) by {
            assert(spec_header_lookup(u, k2) == spec_header_lookup(
                u.subrange(1, u.len() as int),
                k2,
            ));
            assert(spec_header_lookup(s, k2) == spec_header_lookup(
                s.subrange(1, s.len() as int),
                k2,
            ));
        }
    } else {
        let st = s.subrange(1, s.len() as int);
        lemma_pair_set_is_update(st, i - 1, key, e);
        assert(u[0] == s[0]);
        assert(u.subrange(1, u.len() as int) =~= st.update(i - 1, e));
        assert(s[0].0@ != key);
        assert(spec_header_lookup(u, key) == spec_header_lookup(st.update(i - 1, e), key));
        assert forall|k2: Seq<u8>| k2 != key implies spec_header_lookup(u, k2)
            == spec_header_lookup(s, k2) by {
            if s[0].0@ == k2 {
                assert(spec_header_lookup(u, k2) == Some(u[0].1@));
                assert(spec_header_lookup(s, k2) == Some(s[0].1@));
            } else {
                assert(spec_header_lookup(u, k2) == spec_header_lookup(st.update(i - 1, e), k2));
                assert(spec_header_lookup(s, k2) == spec_header_lookup(st, k2));
            }
        }
    }
}

/// Appending a pair keyed `key` makes lookups of `key` find it when it
/// was absent, and leaves every other key alone.
proof fn lemma_pair_append_lookup(s: Seq<(Vec<u8>, Vec<u8>)>, e: (Vec<u8>, Vec<u8>), key: Seq<u8>)
    requires
        e.0@ == key,
    ensures
        spec_header_lookup(s, key) is None ==> spec_header_lookup(s.push(e), key) == Some(e.1@),
        forall|k2: Seq<u8>| k2 != key ==> spec_header_lookup(s.push(e), k2) == spec_header_lookup(
            s,
            k2,
        ),
    decreases s.len(),
{
    let p = s.push(e);
    if s.len() == 0 {
        assert(p[0] == e);
        assert(p.subrange(1, 1) =~= Seq::<(Vec<u8>, Vec<u8>)>::empty());
        assert(spec_header_lookup(p, key) == Some(e.1@));
        assert forall|k2: Seq<u8>| k2 != key implies spec_header_lookup(p, k2)
            == spec_header_lookup(s, k2) by {
            assert(spec_header_lookup(p, k2) == spec_header_lookup(p.subrange(1, 1), k2));
            assert(spec_header_lookup(p.subrange(1, 1), k2) is None);
            assert(spec_header_lookup(s, k2) is None);
        }
    } else {
        let st = s.subrange(1, s.len() as int);
        lemma_pair_append_lookup(st, e, key);
        assert(p[0] == s[0]);
        assert(p.subrange(1, p.len() as int) =~= st.push(e));
        assert forall|k2: Seq<u8>| k2 != key implies spec_header_lookup(p, k2)
            == spec_header_lookup(s, k2) by {
            if s[0].0@ == k2 {
                assert(spec_header_lookup(p, k2) == Some(p[0].1@));
            } else {
                assert(spec_header_lookup(p, k2) == spec_header_lookup(st.push(e), k2));
                assert(spec_header_lookup(s, k2) == spec_header_lookup(st, k2));
            }
        }
        if spec_header_lookup(s, key) is None {
            assert(s[0].0@ != key);
            assert(spec_header_lookup(p, key) == spec_header_lookup(st.push(e), key));
            assert(spec_header_lookup(st, key) is None);
        }
    }
}

/// When every pair's key misses `key`, the lookup finds nothing.
proof fn lemma_pair_lookup_none_when_all_miss(s: Seq<(Vec<u8>, Vec<u8>)>, key: Seq<u8>)
    requires
        forall|q: int| 0 <= q < s.len() ==> s[q].0@ != key,
    ensures
        spec_header_lookup(s, key) is None,
    decreases s.len(),
{
    if s.len() > 0 {
        lemma_pair_lookup_none_when_all_miss(s.subrange(1, s.len() as int), key);
    }
}

impl RateLimiter {
    /// Map `route` to the server-assigned `bucket` key, replacing any
    /// earlier mapping.
    fn set_route(&mut self, route: &Vec<u8>, bucket: &Vec<u8>)
        ensures
            final(self).spec_buckets() == old(self).spec_buckets(),
            final(self).spec_global_until() == old(self).spec_global_until(),
            spec_header_lookup(final(self).spec_routes(), route@) == Some(bucket@),
            forall|k2: Seq<u8>| k2 != route@ ==> spec_header_lookup(final(self).spec_routes(), k2)
                == spec_header_lookup(old(self).spec_routes(), k2),
    {
        let mut k: usize = 0;
        let ghost orig = self.routes@;
        while k < self.routes.len()
            invariant
                k <= self.routes@.len(),
                self.routes@ == orig,
                orig == old(self).spec_routes(),
                self.buckets == old(self).buckets,
                self.global_until_ms == old(self).global_until_ms,
                forall|q: int| 0 <= q < k ==> orig[q].0@ != route@,
            decreases self.routes@.len() - k,
        {
            let matched = {
                let entry = &self.routes[k];
                codec::range_eq(&entry.0, 0, entry.0.len(), route)
            };
            proof {
                assert(orig[k as int].0@.subrange(0, orig[k as int].0@.len() as int)
                    =~= orig[k as int].0@);
            }
            if matched {
                let route_copy = codec::copy_range(route, 0, route.len());
                let bucket_copy = codec::copy_range(bucket, 0, bucket.len());
                proof {
                    assert(route_copy@ =~= route@);
                    assert(bucket_copy@ =~= bucket@);
                }
                self.routes.set(k, (route_copy, bucket_copy));
                proof {
                    let e = self.routes@[k as int];
                    assert(e.0@ == route@);
                    assert(e.1@ == bucket@);
                    assert(self.routes@ == orig.update(k as int, e));
                    lemma_pair_set_is_update(orig, k as int, route@, e);
                    assert forall|k2: Seq<u8>| k2 != route@ implies spec_header_lookup(
                        self.spec_routes(),
                        k2,
                    ) == spec_header_lookup(old(self).spec_routes(), k2) by {
                        assert(spec_header_lookup(orig.update(k as int, e), k2)
                            == spec_header_lookup(orig, k2));
                        assert(self.spec_routes() == orig.update(k as int, e));
                    }
                }
                return ;
            }
            k += 1;
        }
        let route_copy = codec::copy_range(route, 0, route.len());
        let bucket_copy = codec::copy_range(bucket, 0, bucket.len());
        proof {
            assert(route_copy@ =~= route@);
            assert(bucket_copy@ =~= bucket@);
        }
        self.routes.push((route_copy, bucket_copy));
        proof {
            let e = self.routes@.last();
            assert(e.0@ == route@);
            assert(e.1@ == bucket@);
            assert(self.routes@ == orig.push(e));
            lemma_pair_lookup_none_when_all_miss(orig, route@);
            lemma_pair_append_lookup(orig, e, route@);
            assert forall|k2: Seq<u8>| k2 != route@ implies spec_header_lookup(
                self.spec_routes(),
                k2,
            ) == spec_header_lookup(old(self).spec_routes(), k2) by {
                assert(spec_header_lookup(orig.push(e), k2) == spec_header_lookup(orig, k2));
                assert(self.spec_routes() == orig.push(e));
            }
        }
    }
}

} // verus!
