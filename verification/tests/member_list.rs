use chat_gateway::ids::{RoleId, UserId};
use chat_gateway::member_list::{
    MemberListId, PermissionOverwrite, PermissionOverwriteType, Permissions, PermissionsHash,
    VIEW_CHANNEL,
};
use std::io::Cursor;

fn overwrite(allow: u64, deny: u64, kind: PermissionOverwriteType) -> PermissionOverwrite {
    PermissionOverwrite {
        allow: Permissions(allow),
        deny: Permissions(deny),
        kind,
    }
}

#[test]
fn public_channel_is_everyone() {
    let id = MemberListId::from_overwrites(Permissions(VIEW_CHANNEL), &vec![]);
    assert_eq!(id, MemberListId::Everyone);
}

#[test]
fn irrelevant_overwrites_stay_everyone() {
    // nobody's view permission is touched
    let overwrites = vec![overwrite(1, 2, PermissionOverwriteType::Member(UserId(9)))];
    let id = MemberListId::from_overwrites(Permissions(VIEW_CHANNEL), &overwrites);
    assert_eq!(id, MemberListId::Everyone);
}

#[test]
fn no_visible_entries_is_everyone() {
    // everyone may not view, but no overwrite touches viewing either
    let overwrites = vec![overwrite(1, 2, PermissionOverwriteType::Member(UserId(9)))];
    let id = MemberListId::from_overwrites(Permissions(0), &overwrites);
    assert_eq!(id, MemberListId::Everyone);
}

#[test]
fn restricted_channel_hashes_sorted_entries() {
    // a denied role and an allowed member: entries sort to
    // `allow:1,deny:2` whatever order the overwrites came in
    let overwrites = vec![
        overwrite(0, VIEW_CHANNEL, PermissionOverwriteType::Role(RoleId(2))),
        overwrite(VIEW_CHANNEL, 0, PermissionOverwriteType::Member(UserId(1))),
    ];
    let id = MemberListId::from_overwrites(Permissions(VIEW_CHANNEL), &overwrites);

    let expected = murmur3::murmur3_32(&mut Cursor::new("allow:1,deny:2"), 0).unwrap();
    assert_eq!(id, MemberListId::MemberListId(PermissionsHash(expected)));

    // the overwrite order must not matter
    let swapped = vec![
        overwrite(VIEW_CHANNEL, 0, PermissionOverwriteType::Member(UserId(1))),
        overwrite(0, VIEW_CHANNEL, PermissionOverwriteType::Role(RoleId(2))),
    ];
    let id2 = MemberListId::from_overwrites(Permissions(VIEW_CHANNEL), &swapped);
    assert_eq!(id, id2);
}

#[test]
fn deny_beats_everyone_visibility() {
    let overwrites = vec![overwrite(
        0,
        VIEW_CHANNEL,
        PermissionOverwriteType::Member(UserId(77)),
    )];
    let id = MemberListId::from_overwrites(Permissions(VIEW_CHANNEL), &overwrites);
    let expected = murmur3::murmur3_32(&mut Cursor::new("deny:77"), 0).unwrap();
    assert_eq!(id, MemberListId::MemberListId(PermissionsHash(expected)));
}
