use chat_gateway::cluster::{ClusterBuilder, LargeThresholdError, ShardScheme, ShardSchemeRangeError};

#[test]
fn test_shard_scheme() {
    assert_eq!(
        ShardScheme::Range {
            from: 0,
            to: 9,
            total: 10,
        },
        ShardScheme::try_from(0, 9, 10).unwrap()
    );
}

#[test]
fn shard_scheme_range_accepted() {
    assert_eq!(
        ShardScheme::try_from(10, 19, 100).unwrap(),
        ShardScheme::Range {
            from: 10,
            to: 19,
            total: 100,
        }
    );
}

#[test]
fn shard_scheme_inverted_range_rejected() {
    assert_eq!(
        ShardScheme::try_from(50, 40, 100).unwrap_err(),
        ShardSchemeRangeError::IdTooLarge {
            end: 40,
            start: 50,
            total: 100,
        }
    );
}

#[test]
fn shard_scheme_end_must_be_under_total() {
    assert!(ShardScheme::try_from(0, 5, 5).is_err());
    assert!(ShardScheme::try_from(5, 5, 6).is_ok());
}

#[test]
fn shard_ids_all_under_total() {
    let scheme = ShardScheme::try_from(3, 7, 10).unwrap();
    let ids = scheme.shard_ids().unwrap();
    assert_eq!(ids, vec![3, 4, 5, 6, 7]);
    for id in ids {
        assert!(id < 10);
    }
    assert!(ShardScheme::Auto.shard_ids().is_none());
}

#[test]
fn large_threshold_bounds() {
    let b = ClusterBuilder::new("token");
    match b.large_threshold(49) {
        Err(LargeThresholdError::TooFew { value }) => assert_eq!(value, 49),
        _ => panic!("49 must be too few"),
    }
    let b = ClusterBuilder::new("token");
    match b.large_threshold(251) {
        Err(LargeThresholdError::TooMany { value }) => assert_eq!(value, 251),
        _ => panic!("251 must be too many"),
    }
    let b = ClusterBuilder::new("token");
    let b = b.large_threshold(100).unwrap();
    assert_eq!(b.large_threshold, Some(100));
}

#[test]
fn builder_defaults() {
    let b = ClusterBuilder::new("secret");
    assert_eq!(b.shard_scheme, ShardScheme::Auto);
    assert_eq!(b.shard_scheme, ShardScheme::default());
    assert!(b.intents.is_none());
    assert!(b.large_threshold.is_none());
    assert!(b.presence.is_none());
}

#[test]
fn shard_config_seeds_resume() {
    let b = ClusterBuilder::new("secret");
    let cfg = b.shard_config(2, 4, "wss://gateway.example");
    assert_eq!(cfg.shard_id, 2);
    assert_eq!(cfg.shard_total, 4);
    assert!(cfg.session_id.is_none());
    assert!(cfg.sequence.is_none());
}
