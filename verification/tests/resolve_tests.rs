use rdsq::data::{ClusterDescriptor, Error, SecretDescriptor};
use rdsq::resolve::{cluster_ids, get_arns, my_cluster, my_secret, secrets_for_db, user_id_from_secret, user_names};

fn cluster(id: &str, rid: &str, arn: &str) -> ClusterDescriptor {
    ClusterDescriptor {
        db_cluster_identifier: Some(id.to_string()),
        db_cluster_resource_id: Some(rid.to_string()),
        db_cluster_arn: Some(arn.to_string()),
    }
}

fn secret(name: &str, arn: &str) -> SecretDescriptor {
    SecretDescriptor { name: Some(name.to_string()), arn: Some(arn.to_string()) }
}

#[test]
fn single_cluster_resolves_without_hint() {
    let listing = vec![cluster("only", "res-1", "arn-1")];
    let r = my_cluster(&None, &listing);
    assert_eq!(r, Ok(cluster("only", "res-1", "arn-1")));
}

#[test]
fn empty_cluster_listing_is_none_available() {
    let listing: Vec<ClusterDescriptor> = vec![];
    let r = my_cluster(&None, &listing);
    assert_eq!(r, Err(Error::DBClusterEmpty {}));
}

#[test]
fn empty_cluster_listing_with_hint_reports_no_match() {
    let listing: Vec<ClusterDescriptor> = vec![];
    let r = my_cluster(&Some("wanted".to_string()), &listing);
    assert_eq!(
        r,
        Err(Error::DBClusterNoMatch {
            db_cluster_identifier: "wanted".to_string(),
            available_ids: vec![],
        })
    );
}

#[test]
fn multiple_clusters_are_ambiguous_without_hint() {
    let listing = vec![
        cluster("a", "res-a", "arn-a"),
        cluster("b", "res-b", "arn-b"),
        cluster("c", "res-c", "arn-c"),
    ];
    let r = my_cluster(&None, &listing);
    assert_eq!(
        r,
        Err(Error::DBClusterMultiple {
            available_ids: vec!["a".to_string(), "b".to_string(), "c".to_string()],
        })
    );
}

#[test]
fn requested_cluster_exact_match_wins() {
    let listing = vec![
        cluster("x", "res-x", "arn-x"),
        cluster("y", "res-y", "arn-y"),
        cluster("z", "res-z", "arn-z"),
    ];
    let r = my_cluster(&Some("y".to_string()), &listing);
    assert_eq!(r, Ok(cluster("y", "res-y", "arn-y")));
}

#[test]
fn requested_cluster_match_is_case_sensitive() {
    let listing = vec![cluster("x", "res-x", "arn-x")];
    let r = my_cluster(&Some("X".to_string()), &listing);
    assert_eq!(
        r,
        Err(Error::DBClusterNoMatch {
            db_cluster_identifier: "X".to_string(),
            available_ids: vec!["x".to_string()],
        })
    );
}

#[test]
fn requested_cluster_no_match_lists_all_in_order() {
    let listing = vec![
        cluster("x", "res-x", "arn-x"),
        cluster("y", "res-y", "arn-y"),
        cluster("z", "res-z", "arn-z"),
    ];
    let r = my_cluster(&Some("q".to_string()), &listing);
    assert_eq!(
        r,
        Err(Error::DBClusterNoMatch {
            db_cluster_identifier: "q".to_string(),
            available_ids: vec!["x".to_string(), "y".to_string(), "z".to_string()],
        })
    );
}

#[test]
fn cluster_without_identifier_reads_as_empty_in_candidates() {
    let listing = vec![
        ClusterDescriptor {
            db_cluster_identifier: None,
            db_cluster_resource_id: Some("res-n".to_string()),
            db_cluster_arn: Some("arn-n".to_string()),
        },
        cluster("b", "res-b", "arn-b"),
    ];
    assert_eq!(cluster_ids(&listing), vec!["".to_string(), "b".to_string()]);
    let r = my_cluster(&None, &listing);
    assert_eq!(
        r,
        Err(Error::DBClusterMultiple {
            available_ids: vec!["".to_string(), "b".to_string()],
        })
    );
}

#[test]
fn single_secret_resolves_without_hint() {
    let listing = vec![
        secret("rds-db-credentials/res-1/alice", "sa"),
        secret("rds-db-credentials/res-2/bob", "sb"),
    ];
    let r = my_secret("res-1", &None, &listing);
    assert_eq!(r, Ok(secret("rds-db-credentials/res-1/alice", "sa")));
}

#[test]
fn no_secrets_for_cluster_is_none_available() {
    let listing = vec![secret("rds-db-credentials/res-2/bob", "sb")];
    let r = my_secret("res-1", &None, &listing);
    assert_eq!(r, Err(Error::SecretsUsersEmpty {}));
}

#[test]
fn two_secrets_for_cluster_are_ambiguous() {
    let listing = vec![
        secret("rds-db-credentials/res-1/alice", "sa"),
        secret("rds-db-credentials/res-1/bob", "sb"),
    ];
    let r = my_secret("res-1", &None, &listing);
    assert_eq!(
        r,
        Err(Error::SecretsUsersMultiple {
            available_ids: vec!["alice".to_string(), "bob".to_string()],
        })
    );
}

#[test]
fn requested_user_suffix_match_wins() {
    let listing = vec![
        secret("rds-db-credentials/res-1/alice", "sa"),
        secret("rds-db-credentials/res-1/bob", "sb"),
    ];
    let r = my_secret("res-1", &Some("bob".to_string()), &listing);
    assert_eq!(r, Ok(secret("rds-db-credentials/res-1/bob", "sb")));
}

#[test]
fn requested_user_no_match_lists_users_in_order() {
    let listing = vec![
        secret("rds-db-credentials/res-1/alice", "sa"),
        secret("rds-db-credentials/res-1/bob", "sb"),
    ];
    let r = my_secret("res-1", &Some("carol".to_string()), &listing);
    assert_eq!(
        r,
        Err(Error::SecretsUsersNoMatch {
            db_user_id: "carol".to_string(),
            available_ids: vec!["alice".to_string(), "bob".to_string()],
        })
    );
}

#[test]
fn secrets_are_scoped_by_resource_id_prefix() {
    let listing = vec![
        secret("rds-db-credentials/res-1/alice", "sa"),
        secret("rds-db-credentials/res-10/eve", "se"),
        secret("unrelated-name", "su"),
        SecretDescriptor { name: None, arn: Some("sn".to_string()) },
        secret("rds-db-credentials/res-1/bob", "sb"),
    ];
    let narrowed = secrets_for_db("res-1", &listing);
    assert_eq!(
        narrowed,
        vec![
            secret("rds-db-credentials/res-1/alice", "sa"),
            secret("rds-db-credentials/res-1/bob", "sb"),
        ]
    );
    assert_eq!(user_names(&narrowed), vec!["alice".to_string(), "bob".to_string()]);
}

#[test]
fn user_id_is_third_slash_segment() {
    assert_eq!(user_id_from_secret(&secret("rds-db-credentials/res-1/alice", "s")), "alice");
    assert_eq!(user_id_from_secret(&secret("a/b/c/d", "s")), "c/d");
    assert_eq!(user_id_from_secret(&secret("alice", "s")), "alice");
    assert_eq!(user_id_from_secret(&secret("a/b", "s")), "b");
    assert_eq!(user_id_from_secret(&SecretDescriptor { name: None, arn: None }), "");
}

#[test]
fn get_arns_resolves_both_halves() {
    let clusters = Some(vec![cluster("only", "res-1", "cluster-arn")]);
    let secrets = Some(vec![secret("rds-db-credentials/res-1/alice", "secret-arn")]);
    let r = get_arns(&clusters, &secrets, &None, &None).unwrap();
    assert_eq!(r.aws_secret_store_arn, "secret-arn");
    assert_eq!(r.db_cluster_or_instance_arn, "cluster-arn");
}

#[test]
fn get_arns_with_hints_resolves_both_halves() {
    let clusters = Some(vec![
        cluster("one", "res-1", "arn-1"),
        cluster("two", "res-2", "arn-2"),
    ]);
    let secrets = Some(vec![
        secret("rds-db-credentials/res-2/alice", "sa"),
        secret("rds-db-credentials/res-2/bob", "sb"),
    ]);
    let r = get_arns(&clusters, &secrets, &Some("two".to_string()), &Some("alice".to_string()))
        .unwrap();
    assert_eq!(r.aws_secret_store_arn, "sa");
    assert_eq!(r.db_cluster_or_instance_arn, "arn-2");
}

#[test]
fn get_arns_absent_cluster_listing_field_is_its_own_error() {
    let r = get_arns(&None, &Some(vec![]), &None, &None);
    assert_eq!(r, Err(Error::DBClusterLookupEmpty {}));
}

#[test]
fn get_arns_absent_secret_listing_field_is_its_own_error() {
    let clusters = Some(vec![cluster("only", "res-1", "arn-1")]);
    let r = get_arns(&clusters, &None, &None, &None);
    assert_eq!(r, Err(Error::SecretNotFound {}));
}

#[test]
fn get_arns_propagates_secret_ambiguity() {
    let clusters = Some(vec![cluster("only", "res-1", "arn-1")]);
    let secrets = Some(vec![
        secret("rds-db-credentials/res-1/alice", "sa"),
        secret("rds-db-credentials/res-1/bob", "sb"),
    ]);
    let r = get_arns(&clusters, &secrets, &None, &None);
    assert_eq!(
        r,
        Err(Error::SecretsUsersMultiple {
            available_ids: vec!["alice".to_string(), "bob".to_string()],
        })
    );
}

#[test]
fn get_arns_absent_resource_id_reads_as_empty() {
    let clusters = Some(vec![ClusterDescriptor {
        db_cluster_identifier: Some("only".to_string()),
        db_cluster_resource_id: None,
        db_cluster_arn: Some("arn-1".to_string()),
    }]);
    let secrets = Some(vec![secret("rds-db-credentials//alice", "sa")]);
    let r = get_arns(&clusters, &secrets, &None, &None).unwrap();
    assert_eq!(r.aws_secret_store_arn, "sa");
}
