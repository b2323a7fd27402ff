//! Pure selection of exactly one cluster and one credential secret from
//! possibly ambiguous listing snapshots. Resolution never guesses: zero
//! candidates, several candidates without a hint, or a hint that matches
//! nothing each produce a precise error carrying every valid alternative.

use vstd::prelude::*;

use crate::data::{ClusterDescriptor, Error, MyArns, SecretDescriptor, opt_view, text_or_empty};
use crate::text::{
    ends_with_spec, starts_with_spec, str_ends_with, str_starts_with, tail_after_slash,
    third_segment,
};
use crate::data::{dup_cluster, dup_secret};

verus! {

/// The identifier of a listed cluster, an absent one reading as empty; used
/// for the candidate lists carried by errors.
pub open spec fn cluster_id_text(c: ClusterDescriptor) -> Seq<char> {
    text_or_empty(c.db_cluster_identifier)
}

/// The identifiers of a listing, in listing order.
pub open spec fn cluster_ids_spec(l: Seq<ClusterDescriptor>) -> Seq<Seq<char>> {
    l.map_values(|c: ClusterDescriptor| cluster_id_text(c))
}

/// The candidate list of an ambiguity or no-match error mirrors the listing
/// exactly: one identifier per listed cluster, in listing order.
pub proof fn lemma_cluster_ids_shape(l: Seq<ClusterDescriptor>)
    ensures
        cluster_ids_spec(l).len() == l.len(),
        forall|i: int| 0 <= i < l.len() ==> cluster_ids_spec(l)[i] == cluster_id_text(l[i]),
{
}

/// Whether a listed cluster carries exactly the requested identifier.
pub open spec fn cluster_matches(c: ClusterDescriptor, req: Seq<char>) -> bool {
    c.db_cluster_identifier matches Some(id) && id@ == req
}

/// Whether any listed cluster carries the requested identifier.
pub open spec fn has_cluster_match(l: Seq<ClusterDescriptor>, req: Seq<char>) -> bool {
    exists|i: int| 0 <= i < l.len() && cluster_matches(l[i], req)
}

/// The index of the first cluster carrying the requested identifier
/// (meaningful only when one exists).
pub open spec fn first_cluster_match(l: Seq<ClusterDescriptor>, req: Seq<char>) -> int
    decreases l.len(),
{
    if l.len() == 0 {
        0
    } else if cluster_matches(l[0], req) {
        0
    } else {
        1 + first_cluster_match(l.drop_first(), req)
    }
}

/// Whether cluster resolution is owed a success: an exact match exists for a
/// requested identifier, or the listing has exactly one entry when none was
/// requested.
pub open spec fn cluster_choice_exists(l: Seq<ClusterDescriptor>, req: Option<Seq<char>>) -> bool {
    match req {
        Some(q) => has_cluster_match(l, q),
        None => l.len() == 1,
    }
}

/// The cluster that a successful resolution selects: the first exact match
/// for a requested identifier, else the single listed entry.
pub open spec fn chosen_cluster(l: Seq<ClusterDescriptor>, req: Option<Seq<char>>) -> ClusterDescriptor {
    match req {
        Some(q) => l[first_cluster_match(l, q)],
        None => l[0],
    }
}

/// The one error that cluster resolution owes when no choice exists.
pub open spec fn cluster_error_for(l: Seq<ClusterDescriptor>, req: Option<Seq<char>>, e: Error) -> bool {
    match req {
        Some(q) => {
            &&& e matches Error::DBClusterNoMatch { db_cluster_identifier, available_ids }
            &&& db_cluster_identifier@ == q
            &&& available_ids.deep_view() == cluster_ids_spec(l)
        },
        None => {
            if l.len() == 0 {
                e == Error::DBClusterEmpty {}
            } else {
                &&& e matches Error::DBClusterMultiple { available_ids }
                &&& available_ids.deep_view() == cluster_ids_spec(l)
            }
        },
    }
}

/// A listing of exactly one cluster resolves without a requested identifier,
/// to that single entry.
pub proof fn lemma_single_cluster_resolves(l: Seq<ClusterDescriptor>)
    requires
        l.len() == 1,
    ensures
        cluster_choice_exists(l, None),
        chosen_cluster(l, None) == l[0],
{
}

/// An empty cluster listing never resolves, whatever was requested; without
/// a requested identifier, the one error owed is the none-available error.
pub proof fn lemma_empty_cluster_listing(l: Seq<ClusterDescriptor>, req: Option<Seq<char>>, e: Error)
    requires
        l.len() == 0,
    ensures
        !cluster_choice_exists(l, req),
        cluster_error_for(l, None, e) <==> e == (Error::DBClusterEmpty {}),
{
}

/// A listing of two or more clusters never resolves without a requested
/// identifier, and the one error owed is the ambiguity error, whose
/// candidate list mirrors the whole listing in order.
pub proof fn lemma_multiple_clusters_ambiguous(l: Seq<ClusterDescriptor>, e: Error)
    requires
        l.len() >= 2,
    ensures
        !cluster_choice_exists(l, None),
        cluster_error_for(l, None, e) <==> (e matches Error::DBClusterMultiple { available_ids }
            && available_ids.deep_view() == cluster_ids_spec(l)),
{
}

proof fn lemma_first_cluster_match_props(l: Seq<ClusterDescriptor>, req: Seq<char>)
    requires
        has_cluster_match(l, req),
    ensures
        0 <= first_cluster_match(l, req) < l.len(),
        cluster_matches(l[first_cluster_match(l, req)], req),
        forall|j: int| 0 <= j < first_cluster_match(l, req) ==> !cluster_matches(l[j], req),
    decreases l.len(),
{
    if !cluster_matches(l[0], req) {
        let i = choose|i: int| 0 <= i < l.len() && cluster_matches(l[i], req);
        assert(cluster_matches(l.drop_first()[i - 1], req));
        lemma_first_cluster_match_props(l.drop_first(), req);
        assert forall|j: int|
            0 <= j < first_cluster_match(l, req) implies !cluster_matches(l[j], req) by {
            if j > 0 {
                assert(l.drop_first()[j - 1] == l[j]);
            }
        }
    }
}

/// An exactly matching requested identifier resolves to a cluster carrying
/// it — the first such entry — even when other entries exist; with no match
/// anywhere, the one error owed is the no-match error, whose candidate list
/// mirrors the whole listing in order.
pub proof fn lemma_requested_cluster_exact(l: Seq<ClusterDescriptor>, q: Seq<char>, e: Error)
    ensures
        cluster_choice_exists(l, Some(q)) <==> has_cluster_match(l, q),
        has_cluster_match(l, q) ==> cluster_matches(chosen_cluster(l, Some(q)), q),
        has_cluster_match(l, q) ==> l.contains(chosen_cluster(l, Some(q))),
        cluster_error_for(l, Some(q), e) <==> (e matches Error::DBClusterNoMatch {
            db_cluster_identifier,
            available_ids,
        } && db_cluster_identifier@ == q && available_ids.deep_view() == cluster_ids_spec(l)),
{
    if has_cluster_match(l, q) {
        lemma_first_cluster_match_props(l, q);
    }
}

proof fn lemma_first_cluster_match_at(l: Seq<ClusterDescriptor>, req: Seq<char>, i: int)
    requires
        0 <= i < l.len(),
        cluster_matches(l[i], req),
        forall|j: int| 0 <= j < i ==> !cluster_matches(l[j], req),
    ensures
        first_cluster_match(l, req) == i,
    decreases i,
{
    if i > 0 {
        lemma_first_cluster_match_at(l.drop_first(), req, i - 1);
    }
}

/// Extracts an identifier for each listed cluster, an absent one reading as
/// empty, for the candidate lists carried by errors.
pub fn cluster_ids(db_clusters: &Vec<ClusterDescriptor>) -> (r: Vec<String>)
    ensures
        r.deep_view() == cluster_ids_spec(db_clusters@),
{
    let mut r: Vec<String> = Vec::new();
    let mut i: usize = 0;
    while i < db_clusters.len()
        invariant
            i <= db_clusters@.len(),
            r@.len() == i,
            forall|j: int| 0 <= j < i ==> r@[j]@ == cluster_id_text(db_clusters@[j]),
        decreases db_clusters@.len() - i,
    {
        let id = match &db_clusters[i].db_cluster_identifier {
            Some(s) => s.clone(),
            None => String::new(),
        };
        r.push(id);
        i = i + 1;
    }
    proof {
        assert(r.deep_view() =~~= cluster_ids_spec(db_clusters@));
    }
    r
}

/// Selects exactly one cluster from the listing. A requested identifier must
/// match exactly (the first exact match wins); without one, the listing must
/// hold exactly one entry. Anything else is an error carrying every listed
/// identifier.
pub fn my_cluster(
    requested_db_cluster_identifier: &Option<String>,
    db_clusters: &Vec<ClusterDescriptor>,
) -> (r: Result<ClusterDescriptor, Error>)
    ensures
        r is Ok <==> cluster_choice_exists(db_clusters@, opt_view(*requested_db_cluster_identifier)),
        r matches Ok(c) ==> c == chosen_cluster(
            db_clusters@,
            opt_view(*requested_db_cluster_identifier),
        ),
        r matches Err(e) ==> cluster_error_for(
            db_clusters@,
            opt_view(*requested_db_cluster_identifier),
            e,
        ),
{
    match requested_db_cluster_identifier {
        Some(requested) => {
            let mut i: usize = 0;
            while i < db_clusters.len()
                invariant
                    i <= db_clusters@.len(),
                    opt_view(*requested_db_cluster_identifier) == Some(requested@),
                    forall|j: int| 0 <= j < i ==> !cluster_matches(db_clusters@[j], requested@),
                decreases db_clusters@.len() - i,
            {
                match &db_clusters[i].db_cluster_identifier {
                    Some(id) => {
                        if *requested == *id {
                            proof {
                                lemma_first_cluster_match_at(db_clusters@, requested@, i as int);
                            }
                            return Ok(dup_cluster(&db_clusters[i]));
                        }
                    },
                    None => {},
                }
                i = i + 1;
            }
            Err(Error::DBClusterNoMatch {
                db_cluster_identifier: requested.clone(),
                available_ids: cluster_ids(db_clusters),
            })
        },
        None => {
            if db_clusters.len() == 1 {
                proof {
                    assert(cluster_choice_exists(db_clusters@, opt_view(*requested_db_cluster_identifier)));
                }
                Ok(dup_cluster(&db_clusters[0]))
            } else if db_clusters.len() == 0 {
                Err(Error::DBClusterEmpty {})
            } else {
                Err(Error::DBClusterMultiple { available_ids: cluster_ids(db_clusters) })
            }
        },
    }
}

/// The name of a listed secret, an absent one reading as empty.
pub open spec fn secret_name_text(e: SecretDescriptor) -> Seq<char> {
    text_or_empty(e.name)
}

/// The naming-convention prefix of the credential secrets that belong to a
/// cluster with the given resource id.
pub open spec fn secret_prefix(rid: Seq<char>) -> Seq<char> {
    "rds-db-credentials/"@ + rid + "/"@
}

/// Whether a listed secret belongs to the cluster with the given resource
/// id: its name follows the naming convention for that cluster. A name of
/// another shape is simply out of scope, never a failure.
pub open spec fn secret_in_scope(e: SecretDescriptor, rid: Seq<char>) -> bool {
    e.name matches Some(n) && starts_with_spec(n@, secret_prefix(rid))
}

/// The secrets of the listing that belong to the given cluster, in listing
/// order.
pub open spec fn narrowed_secrets(l: Seq<SecretDescriptor>, rid: Seq<char>) -> Seq<SecretDescriptor> {
    l.filter(|e: SecretDescriptor| secret_in_scope(e, rid))
}

/// The user id that a secret's name encodes: its third `/`-separated
/// segment, degrading to a shorter tail when the name has fewer separators.
pub open spec fn secret_user_text(e: SecretDescriptor) -> Seq<char> {
    third_segment(secret_name_text(e))
}

/// The user ids of the given secrets, in order.
pub open spec fn user_names_spec(l: Seq<SecretDescriptor>) -> Seq<Seq<char>> {
    l.map_values(|e: SecretDescriptor| secret_user_text(e))
}

/// The candidate list of a secret ambiguity or no-match error mirrors the
/// narrowed listing exactly: one user id per secret of the cluster, in
/// listing order.
pub proof fn lemma_user_names_shape(l: Seq<SecretDescriptor>)
    ensures
        user_names_spec(l).len() == l.len(),
        forall|i: int| 0 <= i < l.len() ==> user_names_spec(l)[i] == secret_user_text(l[i]),
{
}

/// Whether a listed secret's name ends with the requested user id. The
/// suffix match is deliberately permissive, mirroring the resolution rule.
pub open spec fn secret_matches_user(e: SecretDescriptor, u: Seq<char>) -> bool {
    e.name matches Some(n) && ends_with_spec(n@, u)
}

/// Whether any of the given secrets matches the requested user id.
pub open spec fn has_user_match(l: Seq<SecretDescriptor>, u: Seq<char>) -> bool {
    exists|i: int| 0 <= i < l.len() && secret_matches_user(l[i], u)
}

/// The index of the first secret matching the requested user id (meaningful
/// only when one exists).
pub open spec fn first_user_match(l: Seq<SecretDescriptor>, u: Seq<char>) -> int
    decreases l.len(),
{
    if l.len() == 0 {
        0
    } else if secret_matches_user(l[0], u) {
        0
    } else {
        1 + first_user_match(l.drop_first(), u)
    }
}

/// Whether secret resolution is owed a success: among the cluster's secrets,
/// a suffix match exists for a requested user id, or there is exactly one
/// secret when none was requested.
pub open spec fn secret_choice_exists(
    l: Seq<SecretDescriptor>,
    rid: Seq<char>,
    req: Option<Seq<char>>,
) -> bool {
    match req {
        Some(u) => has_user_match(narrowed_secrets(l, rid), u),
        None => narrowed_secrets(l, rid).len() == 1,
    }
}

/// The secret that a successful resolution selects: among the cluster's
/// secrets, the first suffix match for a requested user id, else the single
/// one.
pub open spec fn chosen_secret(
    l: Seq<SecretDescriptor>,
    rid: Seq<char>,
    req: Option<Seq<char>>,
) -> SecretDescriptor {
    match req {
        Some(u) => narrowed_secrets(l, rid)[first_user_match(narrowed_secrets(l, rid), u)],
        None => narrowed_secrets(l, rid)[0],
    }
}

/// The one error that secret resolution owes when no choice exists.
pub open spec fn secret_error_for(
    l: Seq<SecretDescriptor>,
    rid: Seq<char>,
    req: Option<Seq<char>>,
    e: Error,
) -> bool {
    match req {
        Some(u) => {
            &&& e matches Error::SecretsUsersNoMatch { db_user_id, available_ids }
            &&& db_user_id@ == u
            &&& available_ids.deep_view() == user_names_spec(narrowed_secrets(l, rid))
        },
        None => {
            if narrowed_secrets(l, rid).len() == 0 {
                e == Error::SecretsUsersEmpty {}
            } else {
                &&& e matches Error::SecretsUsersMultiple { available_ids }
                &&& available_ids.deep_view() == user_names_spec(narrowed_secrets(l, rid))
            }
        },
    }
}

/// A cluster with exactly one secret resolves without a requested user id,
/// to that single secret.
pub proof fn lemma_single_secret_resolves(l: Seq<SecretDescriptor>, rid: Seq<char>)
    requires
        narrowed_secrets(l, rid).len() == 1,
    ensures
        secret_choice_exists(l, rid, None),
        chosen_secret(l, rid, None) == narrowed_secrets(l, rid)[0],
{
}

/// A cluster with no secrets never resolves, whatever was requested; without
/// a requested user id, the one error owed is the none-available error.
pub proof fn lemma_no_secrets_for_cluster(
    l: Seq<SecretDescriptor>,
    rid: Seq<char>,
    req: Option<Seq<char>>,
    e: Error,
)
    requires
        narrowed_secrets(l, rid).len() == 0,
    ensures
        !secret_choice_exists(l, rid, req),
        secret_error_for(l, rid, None, e) <==> e == (Error::SecretsUsersEmpty {}),
{
}

/// A cluster with two or more secrets never resolves without a requested
/// user id, and the one error owed is the ambiguity error, whose candidate
/// list carries one user id per secret of the cluster, in listing order.
pub proof fn lemma_multiple_secrets_ambiguous(l: Seq<SecretDescriptor>, rid: Seq<char>, e: Error)
    requires
        narrowed_secrets(l, rid).len() >= 2,
    ensures
        !secret_choice_exists(l, rid, None),
        secret_error_for(l, rid, None, e) <==> (e matches Error::SecretsUsersMultiple {
            available_ids,
        } && available_ids.deep_view() == user_names_spec(narrowed_secrets(l, rid))),
{
}

proof fn lemma_first_user_match_props(l: Seq<SecretDescriptor>, u: Seq<char>)
    requires
        has_user_match(l, u),
    ensures
        0 <= first_user_match(l, u) < l.len(),
        secret_matches_user(l[first_user_match(l, u)], u),
        forall|j: int| 0 <= j < first_user_match(l, u) ==> !secret_matches_user(l[j], u),
    decreases l.len(),
{
    if !secret_matches_user(l[0], u) {
        let i = choose|i: int| 0 <= i < l.len() && secret_matches_user(l[i], u);
        assert(secret_matches_user(l.drop_first()[i - 1], u));
        lemma_first_user_match_props(l.drop_first(), u);
        assert forall|j: int|
            0 <= j < first_user_match(l, u) implies !secret_matches_user(l[j], u) by {
            if j > 0 {
                assert(l.drop_first()[j - 1] == l[j]);
            }
        }
    }
}

/// A requested user id that matches as a suffix resolves to a secret of the
/// cluster carrying it — the first such entry — even when other secrets
/// exist; with no match among the cluster's secrets, the one error owed is
/// the no-match error, whose candidate list carries one user id per secret
/// of the cluster, in listing order.
pub proof fn lemma_requested_secret_match(l: Seq<SecretDescriptor>, rid: Seq<char>, u: Seq<char>, e: Error)
    ensures
        secret_choice_exists(l, rid, Some(u)) <==> has_user_match(narrowed_secrets(l, rid), u),
        has_user_match(narrowed_secrets(l, rid), u) ==> secret_matches_user(
            chosen_secret(l, rid, Some(u)),
            u,
        ),
        has_user_match(narrowed_secrets(l, rid), u) ==> narrowed_secrets(l, rid).contains(
            chosen_secret(l, rid, Some(u)),
        ),
        secret_error_for(l, rid, Some(u), e) <==> (e matches Error::SecretsUsersNoMatch {
            db_user_id,
            available_ids,
        } && db_user_id@ == u && available_ids.deep_view() == user_names_spec(
            narrowed_secrets(l, rid),
        )),
{
    if has_user_match(narrowed_secrets(l, rid), u) {
        lemma_first_user_match_props(narrowed_secrets(l, rid), u);
    }
}

proof fn lemma_first_user_match_at(l: Seq<SecretDescriptor>, u: Seq<char>, i: int)
    requires
        0 <= i < l.len(),
        secret_matches_user(l[i], u),
        forall|j: int| 0 <= j < i ==> !secret_matches_user(l[j], u),
    ensures
        first_user_match(l, u) == i,
    decreases i,
{
    if i > 0 {
        lemma_first_user_match_at(l.drop_first(), u, i - 1);
    }
}

/// Narrows the listing to the secrets that belong to the cluster with the
/// given resource id, by the naming convention
/// `rds-db-credentials/<resource-id>/<user-id>`. If the remote naming
/// convention ever changes, this narrows to nothing rather than failing.
pub fn secrets_for_db(
    requested_db_cluster_resource_id: &str,
    secret_list: &Vec<SecretDescriptor>,
) -> (r: Vec<SecretDescriptor>)
    ensures
        r@ == narrowed_secrets(secret_list@, requested_db_cluster_resource_id@),
{
    let mut name_starts_with = String::from_str("rds-db-credentials/");
    name_starts_with.append(requested_db_cluster_resource_id);
    name_starts_with.append("/");
    assert(name_starts_with@ == secret_prefix(requested_db_cluster_resource_id@));
    let mut r: Vec<SecretDescriptor> = Vec::new();
    let mut i: usize = 0;
    while i < secret_list.len()
        invariant
            i <= secret_list@.len(),
            name_starts_with@ == secret_prefix(requested_db_cluster_resource_id@),
            r@ == narrowed_secrets(
                secret_list@.take(i as int),
                requested_db_cluster_resource_id@,
            ),
        decreases secret_list@.len() - i,
    {
        let in_scope = match &secret_list[i].name {
            Some(name) => str_starts_with(name.as_str(), name_starts_with.as_str()),
            None => false,
        };
        proof {
            reveal(Seq::filter);
            assert(secret_list@.take(i + 1).drop_last() =~= secret_list@.take(i as int));
            assert(secret_list@.take(i + 1).last() == secret_list@[i as int]);
        }
        if in_scope {
            r.push(dup_secret(&secret_list[i]));
        }
        i = i + 1;
    }
    proof {
        assert(secret_list@.take(secret_list@.len() as int) =~= secret_list@);
    }
    r
}

/// Extracts the user id that a secret's name encodes: the third
/// `/`-separated segment of the name, the whole tail when the name has
/// fewer separators, and empty when the name is absent.
pub fn user_id_from_secret(secret_list_entry: &SecretDescriptor) -> (r: String)
    ensures
        r@ == secret_user_text(*secret_list_entry),
{
    match &secret_list_entry.name {
        Some(name) => {
            let t = tail_after_slash(name.as_str());
            let t = tail_after_slash(t);
            t.to_owned()
        },
        None => String::new(),
    }
}

/// Extracts a user id for each given secret, for the candidate lists carried
/// by errors.
pub fn user_names(secret_list: &Vec<SecretDescriptor>) -> (r: Vec<String>)
    ensures
        r.deep_view() == user_names_spec(secret_list@),
{
    let mut r: Vec<String> = Vec::new();
    let mut i: usize = 0;
    while i < secret_list.len()
        invariant
            i <= secret_list@.len(),
            r@.len() == i,
            forall|j: int| 0 <= j < i ==> r@[j]@ == secret_user_text(secret_list@[j]),
        decreases secret_list@.len() - i,
    {
        let name = user_id_from_secret(&secret_list[i]);
        r.push(name);
        i = i + 1;
    }
    proof {
        assert(r.deep_view() =~~= user_names_spec(secret_list@));
    }
    r
}

/// Selects exactly one credential secret for the cluster with the given
/// resource id. A requested user id must match as a suffix of a secret's
/// name (the first match wins); without one, the cluster must have exactly
/// one secret. Anything else is an error carrying every candidate user.
pub fn my_secret(
    requested_db_cluster_resource_id: &str,
    requested_db_user_id: &Option<String>,
    secret_list: &Vec<SecretDescriptor>,
) -> (r: Result<SecretDescriptor, Error>)
    ensures
        r is Ok <==> secret_choice_exists(
            secret_list@,
            requested_db_cluster_resource_id@,
            opt_view(*requested_db_user_id),
        ),
        r matches Ok(s) ==> s == chosen_secret(
            secret_list@,
            requested_db_cluster_resource_id@,
            opt_view(*requested_db_user_id),
        ),
        r matches Err(e) ==> secret_error_for(
            secret_list@,
            requested_db_cluster_resource_id@,
            opt_view(*requested_db_user_id),
            e,
        ),
{
    let db_secrets = secrets_for_db(requested_db_cluster_resource_id, secret_list);

    match requested_db_user_id {
        Some(requested) => {
            let mut i: usize = 0;
            while i < db_secrets.len()
                invariant
                    i <= db_secrets@.len(),
                    opt_view(*requested_db_user_id) == Some(requested@),
                    db_secrets@ == narrowed_secrets(
                        secret_list@,
                        requested_db_cluster_resource_id@,
                    ),
                    forall|j: int| 0 <= j < i ==> !secret_matches_user(db_secrets@[j], requested@),
                decreases db_secrets@.len() - i,
            {
                let matched = match &db_secrets[i].name {
                    Some(name) => str_ends_with(name.as_str(), requested.as_str()),
                    None => false,
                };
                if matched {
                    proof {
                        lemma_first_user_match_at(db_secrets@, requested@, i as int);
                    }
                    return Ok(dup_secret(&db_secrets[i]));
                }
                i = i + 1;
            }
            Err(Error::SecretsUsersNoMatch {
                db_user_id: requested.clone(),
                available_ids: user_names(&db_secrets),
            })
        },
        None => {
            if db_secrets.len() == 1 {
                Ok(dup_secret(&db_secrets[0]))
            } else if db_secrets.len() == 0 {
                Err(Error::SecretsUsersEmpty {})
            } else {
                Err(Error::SecretsUsersMultiple { available_ids: user_names(&db_secrets) })
            }
        },
    }
}

/// The resource id of a listed cluster, an absent one reading as empty.
pub open spec fn resource_id_text(c: ClusterDescriptor) -> Seq<char> {
    text_or_empty(c.db_cluster_resource_id)
}

/// Whether full resolution is owed a success: both listing fields are
/// present, a cluster choice exists, and — scoped to the chosen cluster's
/// resource id — a secret choice exists.
pub open spec fn arns_choice_exists(
    db_clusters: Option<Vec<ClusterDescriptor>>,
    secret_list: Option<Vec<SecretDescriptor>>,
    reqc: Option<Seq<char>>,
    requ: Option<Seq<char>>,
) -> bool {
    match (db_clusters, secret_list) {
        (Some(cl), Some(sl)) => cluster_choice_exists(cl@, reqc) && secret_choice_exists(
            sl@,
            resource_id_text(chosen_cluster(cl@, reqc)),
            requ,
        ),
        _ => false,
    }
}

/// What a successful full resolution hands back: the chosen cluster's and
/// the chosen secret's locators, an absent one reading as empty.
pub open spec fn arns_ok_result(
    db_clusters: Option<Vec<ClusterDescriptor>>,
    secret_list: Option<Vec<SecretDescriptor>>,
    reqc: Option<Seq<char>>,
    requ: Option<Seq<char>>,
    a: MyArns,
) -> bool {
    match (db_clusters, secret_list) {
        (Some(cl), Some(sl)) => {
            let c = chosen_cluster(cl@, reqc);
            let s = chosen_secret(sl@, resource_id_text(c), requ);
            &&& a.db_cluster_or_instance_arn@ == text_or_empty(c.db_cluster_arn)
            &&& a.aws_secret_store_arn@ == text_or_empty(s.arn)
        },
        _ => false,
    }
}

/// The one error that full resolution owes when no choice exists: an absent
/// cluster listing field, then the cluster resolver's error, then an absent
/// secret listing field, then the secret resolver's error, in that order.
pub open spec fn arns_error_for(
    db_clusters: Option<Vec<ClusterDescriptor>>,
    secret_list: Option<Vec<SecretDescriptor>>,
    reqc: Option<Seq<char>>,
    requ: Option<Seq<char>>,
    e: Error,
) -> bool {
    match db_clusters {
        None => e == Error::DBClusterLookupEmpty {},
        Some(cl) => {
            if !cluster_choice_exists(cl@, reqc) {
                cluster_error_for(cl@, reqc, e)
            } else {
                match secret_list {
                    None => e == Error::SecretNotFound {},
                    Some(sl) => secret_error_for(
                        sl@,
                        resource_id_text(chosen_cluster(cl@, reqc)),
                        requ,
                        e,
                    ),
                }
            }
        },
    }
}

/// Resolves both halves of the identity that a statement execution needs,
/// from the two listing snapshots: first the cluster, then — scoped to its
/// resource id — the credential secret. An entirely absent listing field is
/// an error of its own, distinct from a present-but-empty listing. The
/// chosen descriptors' locators are handed back, an absent one reading as
/// empty.
pub fn get_arns(
    db_clusters: &Option<Vec<ClusterDescriptor>>,
    secret_list: &Option<Vec<SecretDescriptor>>,
    requested_db_cluster_identifier: &Option<String>,
    requested_user_id: &Option<String>,
) -> (r: Result<MyArns, Error>)
    ensures
        r is Ok <==> arns_choice_exists(
            *db_clusters,
            *secret_list,
            opt_view(*requested_db_cluster_identifier),
            opt_view(*requested_user_id),
        ),
        r matches Ok(a) ==> arns_ok_result(
            *db_clusters,
            *secret_list,
            opt_view(*requested_db_cluster_identifier),
            opt_view(*requested_user_id),
            a,
        ),
        r matches Err(e) ==> arns_error_for(
            *db_clusters,
            *secret_list,
            opt_view(*requested_db_cluster_identifier),
            opt_view(*requested_user_id),
            e,
        ),
{
    let db_cluster = match db_clusters {
        Some(cl) => match my_cluster(requested_db_cluster_identifier, cl) {
            Ok(c) => c,
            Err(e) => {
                return Err(e);
            },
        },
        None => {
            return Err(Error::DBClusterLookupEmpty {});
        },
    };
    let rid = match &db_cluster.db_cluster_resource_id {
        Some(s) => s.clone(),
        None => String::new(),
    };
    let secret_list_entry = match secret_list {
        Some(sl) => match my_secret(rid.as_str(), requested_user_id, sl) {
            Ok(s) => s,
            Err(e) => {
                return Err(e);
            },
        },
        None => {
            return Err(Error::SecretNotFound {});
        },
    };
    Ok(MyArns {
        aws_secret_store_arn: match secret_list_entry.arn {
            Some(a) => a,
            None => String::new(),
        },
        db_cluster_or_instance_arn: match db_cluster.db_cluster_arn {
            Some(a) => a,
            None => String::new(),
        },
    })
}

} // verus!
