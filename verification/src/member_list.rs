//! Member-list update payloads, and the member-list id derived from a
//! channel's permission overwrites.
//!
//! The id of a non-public channel's member list is a hash over the
//! overwrites that touch the view permission, rendered as `allow:<id>` /
//! `deny:<id>` entries, sorted, and joined with commas.

use vstd::prelude::*;
use vstd::relations::{sorted_by, total_ordering};
use vstd::seq_lib::lemma_sorted_unique;
use crate::codec;
use crate::identify::Status;
use crate::ids::{GuildId, RoleId, UserId};

verus! {

/// A permission set, as a bit mask.
#[derive(Clone, Copy, Debug, PartialEq, Eq, Structural, Hash)]
pub struct Permissions(pub u64);

/// The permission to view a channel.
pub const VIEW_CHANNEL: u64 = 1024;

impl Permissions {
    /// Does this set hold all of `other`?
    pub open spec fn spec_contains(self, other: Permissions) -> bool {
        self.0 & other.0 == other.0
    }

    /// Executable twin of [`Permissions::spec_contains`].
    pub fn contains(self, other: Permissions) -> (r: bool)
        ensures
            r == self.spec_contains(other),
    {
        self.0 & other.0 == other.0
    }

    /// The set holding only the view permission.
    pub fn view_channel() -> (r: Permissions)
        ensures
            r == (Permissions(VIEW_CHANNEL)),
    {
        Permissions(VIEW_CHANNEL)
    }
}

/// Whom a permission overwrite applies to.
#[derive(Clone, Copy, Debug, PartialEq, Eq, Structural, Hash)]
pub enum PermissionOverwriteType {
    Member(UserId),
    Role(RoleId),
}

/// One permission overwrite of a channel.
#[derive(Clone, Copy, Debug, PartialEq, Eq, Structural, Hash)]
pub struct PermissionOverwrite {
    pub allow: Permissions,
    pub deny: Permissions,
    pub kind: PermissionOverwriteType,
}

/// A presence as the member list reports one.
#[derive(Clone, Copy, Debug, PartialEq, Eq, Structural)]
pub struct Presence {
    pub status: Status,
}

/// A user as the member list reports one.
#[derive(Clone, Debug, PartialEq, Eq)]
pub struct PartialUser {
    pub avatar: Option<String>,
    pub discriminator: String,
    pub id: UserId,
    pub username: String,
}

/// A member entry of the list.
#[derive(Clone, Debug, PartialEq, Eq)]
pub struct MemberListMember {
    pub user: PartialUser,
    pub roles: Vec<RoleId>,
    pub presence: Presence,
    pub mute: bool,
    pub joined_at: String,
    pub hoisted_role: Option<RoleId>,
    pub deaf: bool,
}

/// The id of a group of members.
#[derive(Clone, Copy, Debug, PartialEq, Eq, Structural, Hash)]
pub enum GroupId {
    Online,
    Offline,
    RoleId(RoleId),
}

/// A group header of the list.
#[derive(Clone, Copy, Debug, PartialEq, Eq, Structural)]
pub struct MemberListGroup {
    pub id: GroupId,
    pub count: u32,
}

/// An item of the list: a group header or a member.
#[derive(Clone, Debug, PartialEq, Eq)]
pub enum MemberListItem {
    Group(MemberListGroup),
    Member(Box<MemberListMember>),
}

/// One operation of a member-list update.
#[derive(Clone, Debug, PartialEq, Eq)]
pub enum MemberListUpdateOp {
    Sync { range: Vec<u32>, items: Vec<MemberListItem> },
    Invalidate { range: Vec<u32> },
    Update { item: MemberListItem, index: u32 },
    Delete { index: u32 },
    Insert { item: MemberListItem, index: u32 },
    Unknown,
}

/// The hash identifying a restricted member list.
#[derive(Clone, Copy, Debug, PartialEq, Eq, Structural, Hash)]
pub struct PermissionsHash(pub u32);

impl PermissionsHash {
    pub fn from(id: u32) -> (r: PermissionsHash)
        ensures
            r == (PermissionsHash(id)),
    {
        PermissionsHash(id)
    }
}

/// The id of a member list: the public list, or one keyed by the hash of
/// its visibility overwrites.
#[derive(Clone, Copy, Debug, PartialEq, Eq, Structural, Hash)]
pub enum MemberListId {
    Everyone,
    MemberListId(PermissionsHash),
}

/// A member-list update event.
#[derive(Clone, Debug, PartialEq, Eq)]
pub struct MemberListUpdate {
    pub ops: Vec<MemberListUpdateOp>,
    pub online_count: u32,
    pub member_count: u32,
    pub id: MemberListId,
    pub guild_id: GuildId,
    pub groups: Vec<MemberListGroup>,
}

/// Byte-wise lexicographic order.
pub open spec fn spec_lex_le(a: Seq<u8>, b: Seq<u8>) -> bool
    decreases a.len(),
{
    if a.len() == 0 {
        true
    } else if b.len() == 0 {
        false
    } else if a[0] < b[0] {
        true
    } else if a[0] > b[0] {
        false
    } else {
        spec_lex_le(a.subrange(1, a.len() as int), b.subrange(1, b.len() as int))
    }
}

/// The lexicographic order as a relation value.
pub open spec fn spec_lex_leq() -> spec_fn(Seq<u8>, Seq<u8>) -> bool {
    (|a: Seq<u8>, b: Seq<u8>| spec_lex_le(a, b))
}

pub proof fn lemma_lex_total(a: Seq<u8>, b: Seq<u8>)
    ensures
        spec_lex_le(a, b) || spec_lex_le(b, a),
    decreases a.len(),
{
    if a.len() > 0 && b.len() > 0 && a[0] == b[0] {
        lemma_lex_total(a.subrange(1, a.len() as int), b.subrange(1, b.len() as int));
    }
}

pub proof fn lemma_lex_antisymmetric(a: Seq<u8>, b: Seq<u8>)
    requires
        spec_lex_le(a, b),
        spec_lex_le(b, a),
    ensures
        a == b,
    decreases a.len(),
{
    if a.len() == 0 {
        assert(b.len() == 0);
        assert(a =~= b);
    } else {
        assert(b.len() > 0);
        assert(a[0] == b[0]);
        let ta = a.subrange(1, a.len() as int);
        let tb = b.subrange(1, b.len() as int);
        lemma_lex_antisymmetric(ta, tb);
        assert(a.len() == b.len());
        assert forall|i: int| 0 <= i < a.len() implies a[i] == b[i] by {
            if i > 0 {
                assert(a[i] == ta[i - 1]);
                assert(b[i] == tb[i - 1]);
            }
        }
        assert(a =~= b);
    }
}

pub proof fn lemma_lex_transitive(a: Seq<u8>, b: Seq<u8>, c: Seq<u8>)
    requires
        spec_lex_le(a, b),
        spec_lex_le(b, c),
    ensures
        spec_lex_le(a, c),
    decreases a.len(),
{
    if a.len() > 0 && b.len() > 0 && c.len() > 0 && a[0] == b[0] && b[0] == c[0] {
        lemma_lex_transitive(
            a.subrange(1, a.len() as int),
            b.subrange(1, b.len() as int),
            c.subrange(1, c.len() as int),
        );
    }
}

/// The lexicographic order is a total order.
pub proof fn lemma_lex_total_ordering()
    ensures
        total_ordering(spec_lex_leq()),
{
    let leq = spec_lex_leq();
    assert forall|a: Seq<u8>| #[trigger] leq(a, a) by {
        lemma_lex_total(a, a);
    }
    assert forall|a: Seq<u8>, b: Seq<u8>| #[trigger] leq(a, b) && #[trigger] leq(b, a)
        implies a == b by {
        lemma_lex_antisymmetric(a, b);
    }
    assert forall|a: Seq<u8>, b: Seq<u8>, c: Seq<u8>| #[trigger] leq(a, b) && #[trigger] leq(b, c)
        implies leq(a, c) by {
        lemma_lex_transitive(a, b, c);
    }
    assert forall|a: Seq<u8>, b: Seq<u8>| !(#[trigger] leq(a, b)) implies leq(b, a) by {
        lemma_lex_total(a, b);
    }
}

/// Executable twin of [`spec_lex_le`].
pub fn lex_le(a: &Vec<u8>, b: &Vec<u8>) -> (r: bool)
    ensures
        r == spec_lex_le(a@, b@),
{
    let r = lex_le_from(a, b, 0);
    proof {
        assert(a@.subrange(0, a@.len() as int) =~= a@);
        assert(b@.subrange(0, b@.len() as int) =~= b@);
    }
    r
}

fn lex_le_from(a: &Vec<u8>, b: &Vec<u8>, i: usize) -> (r: bool)
    requires
        i <= a@.len(),
        i <= b@.len(),
    ensures
        r == spec_lex_le(
            a@.subrange(i as int, a@.len() as int),
            b@.subrange(i as int, b@.len() as int),
        ),
    decreases a@.len() - i,
{
    let ghost sa = a@.subrange(i as int, a@.len() as int);
    let ghost sb = b@.subrange(i as int, b@.len() as int);
    if i == a.len() {
        true
    } else if i == b.len() {
        false
    } else if a[i] < b[i] {
        true
    } else if a[i] > b[i] {
        false
    } else {
        let r = lex_le_from(a, b, i + 1);
        proof {
            assert(sa.subrange(1, sa.len() as int) =~= a@.subrange(
                (i + 1) as int,
                a@.len() as int,
            ));
            assert(sb.subrange(1, sb.len() as int) =~= b@.subrange(
                (i + 1) as int,
                b@.len() as int,
            ));
        }
        r
    }
}

/// The views of a sequence of byte vectors.
pub open spec fn spec_views(s: Seq<Vec<u8>>) -> Seq<Seq<u8>> {
    s.map_values(|v: Vec<u8>| v@)
}

/// The entries sorted lexicographically.
pub open spec fn spec_sorted_keys(s: Seq<Seq<u8>>) -> Seq<Seq<u8>> {
    s.sort_by(spec_lex_leq())
}

/// Sort byte-string entries lexicographically.
fn sort_keys(v: Vec<Vec<u8>>) -> (r: Vec<Vec<u8>>)
    ensures
        spec_views(r@) == spec_sorted_keys(spec_views(v@)),
{
    broadcast use vstd::seq_lib::group_to_multiset_ensures;
    broadcast use vstd::multiset::group_multiset_axioms;

    let ghost leq = spec_lex_leq();
    let ghost all = spec_views(v@);
    let mut work = v;
    let mut out: Vec<Vec<u8>> = Vec::new();
    proof {
        assert(spec_views(out@) =~= Seq::<Seq<u8>>::empty());
        assert(spec_views(out@).to_multiset().add(spec_views(work@).to_multiset()) =~= spec_views(
            work@,
        ).to_multiset());
    }
    while work.len() > 0
        invariant
            spec_views(out@).to_multiset().add(spec_views(work@).to_multiset())
                == all.to_multiset(),
            forall|i: int, j: int| 0 <= i < j < out@.len() ==> spec_lex_le(
                #[trigger] out@[i]@,
                #[trigger] out@[j]@,
            ),
            forall|i: int, j: int| 0 <= i < out@.len() && 0 <= j < work@.len() ==> spec_lex_le(
                #[trigger] out@[i]@,
                #[trigger] work@[j]@,
            ),
        decreases work@.len(),
    {
        // select the least remaining entry
        let mut m: usize = 0;
        let mut k: usize = 1;
        proof {
            lemma_lex_total(work@[0]@, work@[0]@);
        }
        while k < work.len()
            invariant
                m < k <= work@.len(),
                work@.len() > 0,
                forall|j: int| 0 <= j < k ==> spec_lex_le(work@[m as int]@, #[trigger] work@[j]@),
            decreases work@.len() - k,
        {
            if !lex_le(&work[m], &work[k]) {
                proof {
                    lemma_lex_total(work@[m as int]@, work@[k as int]@);
                    assert forall|j: int| 0 <= j < k + 1 implies spec_lex_le(
                        work@[k as int]@,
                        #[trigger] work@[j]@,
                    ) by {
                        if j < k {
                            lemma_lex_transitive(work@[k as int]@, work@[m as int]@, work@[j]@);
                        } else {
                            lemma_lex_total(work@[k as int]@, work@[k as int]@);
                        }
                    }
                }
                m = k;
            }
            k += 1;
        }
        let ghost pre_work = work@;
        let ghost pre_out = out@;
        let e = work.remove(m);
        out.push(e);
        proof {
            assert(spec_views(work@) =~= spec_views(pre_work).remove(m as int));
            assert(spec_views(out@) =~= spec_views(pre_out).push(e@));
            assert(spec_views(pre_work)[m as int] == e@);
            spec_views(pre_work).to_multiset_ensures();
            spec_views(pre_out).to_multiset_ensures();
            assert(spec_views(pre_work).remove(m as int).to_multiset() =~= spec_views(
                pre_work,
            ).to_multiset().remove(e@));
            assert(spec_views(pre_out).push(e@).to_multiset() =~= spec_views(
                pre_out,
            ).to_multiset().insert(e@));
            assert(spec_views(pre_work).contains(e@));
            assert(spec_views(pre_work).to_multiset().contains(e@));
            assert(spec_views(out@).to_multiset().add(spec_views(work@).to_multiset())
                =~= all.to_multiset());
            assert forall|i: int, j: int|
                0 <= i < out@.len() && 0 <= j < work@.len() implies spec_lex_le(
                #[trigger] out@[i]@,
                #[trigger] work@[j]@,
            ) by {
                if i < out@.len() - 1 {
                    // an old entry of `out` is below everything that was
                    // in `work`, and `work` only shrank
                    if j < m {
                        assert(work@[j] == pre_work[j]);
                    } else {
                        assert(work@[j] == pre_work[j + 1]);
                    }
                } else {
                    // the entry just moved is the least of `pre_work`
                    if j < m {
                        assert(work@[j] == pre_work[j]);
                    } else {
                        assert(work@[j] == pre_work[j + 1]);
                    }
                }
            }
        }
    }
    proof {
        assert(spec_views(work@).to_multiset() =~= Seq::<Seq<u8>>::empty().to_multiset());
        assert(spec_views(out@).to_multiset() =~= all.to_multiset());
        lemma_lex_total_ordering();
        all.lemma_sort_by_ensures(leq);
        assert(sorted_by(spec_views(out@), leq));
        lemma_sorted_unique(spec_views(out@), all.sort_by(leq), leq);
        assert(spec_views(out@) =~= spec_sorted_keys(all));
    }
    out
}

/// What a single overwrite contributes to the hash input: `allow:<id>`
/// when it allows viewing, `deny:<id>` when it denies it, nothing
/// otherwise.
pub open spec fn spec_entry(o: PermissionOverwrite) -> Option<Seq<u8>> {
    let id = match o.kind {
        PermissionOverwriteType::Member(u) => u.0,
        PermissionOverwriteType::Role(r) => r.0,
    };
    if o.allow.spec_contains(Permissions(VIEW_CHANNEL)) {
        Some(seq![97u8, 108u8, 108u8, 111u8, 119u8, 58u8] + codec::spec_u64_digits(id))
    } else if o.deny.spec_contains(Permissions(VIEW_CHANNEL)) {
        Some(seq![100u8, 101u8, 110u8, 121u8, 58u8] + codec::spec_u64_digits(id))
    } else {
        None
    }
}

/// The hash-input entries of a run of overwrites, in order.
pub open spec fn spec_entries(s: Seq<PermissionOverwrite>) -> Seq<Seq<u8>>
    decreases s.len(),
{
    if s.len() == 0 {
        Seq::<Seq<u8>>::empty()
    } else {
        let rest = spec_entries(s.drop_last());
        match spec_entry(s.last()) {
            Some(e) => rest.push(e),
            None => rest,
        }
    }
}

/// Does any overwrite deny viewing?
pub open spec fn spec_any_denies(s: Seq<PermissionOverwrite>) -> bool {
    exists|i: int| 0 <= i < s.len() && (#[trigger] s[i].deny).spec_contains(
        Permissions(VIEW_CHANNEL),
    )
}

/// The entries joined with commas.
pub open spec fn spec_join_comma(s: Seq<Seq<u8>>) -> Seq<u8>
    decreases s.len(),
{
    if s.len() == 0 {
        Seq::<u8>::empty()
    } else if s.len() == 1 {
        s[0]
    } else {
        spec_join_comma(s.drop_last()) + seq![44u8] + s.last()
    }
}

/// Join byte-string entries with commas.
fn join_comma(v: &Vec<Vec<u8>>) -> (r: Vec<u8>)
    ensures
        r@ == spec_join_comma(spec_views(v@)),
{
    let mut out: Vec<u8> = Vec::new();
    let mut k: usize = 0;
    proof {
        assert(spec_views(v@.subrange(0, 0)) =~= Seq::<Seq<u8>>::empty());
    }
    while k < v.len()
        invariant
            k <= v@.len(),
            out@ == spec_join_comma(spec_views(v@.subrange(0, k as int))),
        decreases v@.len() - k,
    {
        if k > 0 {
            out.push(44);
        }
        codec::push_bytes(&mut out, &v[k]);
        proof {
            let pre = spec_views(v@.subrange(0, (k + 1) as int));
            assert(pre.drop_last() =~= spec_views(v@.subrange(0, k as int)));
            assert(pre.last() == v@[k as int]@);
        }
        k += 1;
    }
    proof {
        assert(v@.subrange(0, v@.len() as int) =~= v@);
    }
    out
}

/// The 32-bit murmur3 hash of a byte string, seeded with zero.  The
/// result depends on the bytes alone.
pub uninterp spec fn murmur3_32_of(data: Seq<u8>) -> u32;

/// Relies on murmur3::murmur3_32: hashing an in-memory cursor reads the
/// whole byte string and cannot fail, and the result is a function of the
/// bytes and the seed alone.  The crate counts the length in 32 bits, so
/// the digest wraps the length past 4 GiB; the joined entries here stay
/// far below that.
#[verifier::external_body]
fn murmur3_32(data: &Vec<u8>) -> (r: u32)
    ensures
        r == murmur3_32_of(data@),
{
    murmur3::murmur3_32(&mut std::io::Cursor::new(data.as_slice()), 0)
        .expect("reading from an in-memory cursor cannot fail")
}

impl MemberListId {
    /// The id of the member list a channel's overwrites produce: the
    /// public list when everyone may view the channel, else the hash of
    /// the sorted visibility entries.
    pub fn from_overwrites(
        everyone_perms: Permissions,
        overwrites: &Vec<PermissionOverwrite>,
    ) -> (r: MemberListId)
        ensures
            r == (
            if everyone_perms.spec_contains(Permissions(VIEW_CHANNEL)) && !spec_any_denies(
                overwrites@,
            ) {
                MemberListId::Everyone
            } else if spec_entries(overwrites@).len() == 0 {
                MemberListId::Everyone
            } else {
                MemberListId::MemberListId(
                    PermissionsHash(
                        murmur3_32_of(
                            spec_join_comma(spec_sorted_keys(spec_entries(overwrites@))),
                        ),
                    ),
                )
            }),
    {
        let view = Permissions::view_channel();
        let mut any_deny = false;
        let mut entries: Vec<Vec<u8>> = Vec::new();
        let mut k: usize = 0;
        proof {
            assert(spec_views(entries@) =~= spec_entries(overwrites@.subrange(0, 0)));
        }
        while k < overwrites.len()
            invariant
                k <= overwrites@.len(),
                view == (Permissions(VIEW_CHANNEL)),
                any_deny == spec_any_denies(overwrites@.subrange(0, k as int)),
                spec_views(entries@) == spec_entries(overwrites@.subrange(0, k as int)),
            decreases overwrites@.len() - k,
        {
            let ghost pre = overwrites@.subrange(0, k as int);
            let ghost cur = overwrites@.subrange(0, (k + 1) as int);
            let o = overwrites[k];
            if o.deny.contains(view) {
                any_deny = true;
            }
            proof {
                assert(cur.drop_last() =~= pre);
                assert(cur.last() == overwrites@[k as int]);
                assert forall|i: int|
                    0 <= i < cur.len() && (#[trigger] cur[i].deny).spec_contains(
                        Permissions(VIEW_CHANNEL),
                    ) implies spec_any_denies(cur) by {}
                if spec_any_denies(pre) {
                    let i = choose|i: int|
                        0 <= i < pre.len() && (#[trigger] pre[i].deny).spec_contains(
                            Permissions(VIEW_CHANNEL),
                        );
                    assert(cur[i].deny.spec_contains(Permissions(VIEW_CHANNEL)));
                }
            }
            let id = match o.kind {
                PermissionOverwriteType::Member(u) => u.0,
                PermissionOverwriteType::Role(r) => r.0,
            };
            if o.allow.contains(view) {
                let mut e: Vec<u8> = Vec::new();
                e.push(97);
                e.push(108);
                e.push(108);
                e.push(111);
                e.push(119);
                e.push(58);
                let digits = codec::u64_to_digits(id);
                codec::push_bytes(&mut e, &digits);
                proof {
                    assert(e@ =~= seq![97u8, 108u8, 108u8, 111u8, 119u8, 58u8]
                        + codec::spec_u64_digits(id));
                }
                let ghost pre_entries = entries@;
                let ghost ev = e@;
                entries.push(e);
                proof {
                    assert(cur.last() == o);
                    assert(o.allow.spec_contains(Permissions(VIEW_CHANNEL)));
                    let sid = (match o.kind {
                        PermissionOverwriteType::Member(u) => u.0,
                        PermissionOverwriteType::Role(role) => role.0,
                    });
                    assert(sid == id);
                    assert(spec_entry(o) == Some(
                        seq![97u8, 108u8, 108u8, 111u8, 119u8, 58u8] + codec::spec_u64_digits(sid),
                    ));
                    assert(spec_entry(cur.last()) == Some(ev));
                    assert(spec_entries(cur) == spec_entries(pre).push(ev));
                    assert(spec_views(entries@) =~= spec_views(pre_entries).push(ev));
                    assert(spec_views(entries@) =~= spec_entries(cur));
                }
            } else if o.deny.contains(view) {
                let mut e: Vec<u8> = Vec::new();
                e.push(100);
                e.push(101);
                e.push(110);
                e.push(121);
                e.push(58);
                let digits = codec::u64_to_digits(id);
                codec::push_bytes(&mut e, &digits);
                proof {
                    assert(e@ =~= seq![100u8, 101u8, 110u8, 121u8, 58u8]
                        + codec::spec_u64_digits(id));
                }
                let ghost pre_entries = entries@;
                let ghost ev = e@;
                entries.push(e);
                proof {
                    assert(cur.last() == o);
                    assert(!o.allow.spec_contains(Permissions(VIEW_CHANNEL)));
                    assert(o.deny.spec_contains(Permissions(VIEW_CHANNEL)));
                    let sid = (match o.kind {
                        PermissionOverwriteType::Member(u) => u.0,
                        PermissionOverwriteType::Role(role) => role.0,
                    });
                    assert(sid == id);
                    assert(spec_entry(o) == Some(
                        seq![100u8, 101u8, 110u8, 121u8, 58u8] + codec::spec_u64_digits(sid),
                    ));
                    assert(spec_entry(cur.last()) == Some(ev));
                    assert(spec_entries(cur) == spec_entries(pre).push(ev));
                    assert(spec_views(entries@) =~= spec_views(pre_entries).push(ev));
                    assert(spec_views(entries@) =~= spec_entries(cur));
                }
            } else {
                proof {
                    assert(cur.last() == o);
                    assert(spec_entry(o) is None);
                    assert(spec_entries(cur) == spec_entries(pre));
                    assert(spec_views(entries@) =~= spec_entries(cur));
                }
            }
            k += 1;
        }
        proof {
            assert(overwrites@.subrange(0, overwrites@.len() as int) =~= overwrites@);
        }
        if everyone_perms.contains(view) && !any_deny {
            return MemberListId::Everyone;
        }
        if entries.len() == 0 {
            proof {
                assert(spec_entries(overwrites@).len() == spec_views(entries@).len());
            }
            return MemberListId::Everyone;
        }
        let sorted = sort_keys(entries);
        let joined = join_comma(&sorted);
        let hash = murmur3_32(&joined);
        proof {
            assert(spec_views(sorted@) == spec_sorted_keys(spec_entries(overwrites@)));
        }
        MemberListId::MemberListId(PermissionsHash(hash))
    }
}

} // verus!
