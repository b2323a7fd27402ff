//! The data model: descriptors from the two directory listings, the shape of
//! a statement's result set, the structured scalar values produced for
//! record output, and the error taxonomy of resolution.

use vstd::prelude::*;

verus! {

/// One cluster from the directory listing. Every field may be absent in a
/// remote response; an absent field is treated as an empty string where a
/// value is needed, never as a failure.
#[derive(Debug, PartialEq, Eq)]
pub struct ClusterDescriptor {
    /// The human-chosen, directory-unique identifier.
    pub db_cluster_identifier: Option<String>,
    /// The stable internal resource id, kept even if the identifier is
    /// renamed.
    pub db_cluster_resource_id: Option<String>,
    /// The opaque resource locator.
    pub db_cluster_arn: Option<String>,
}

/// One credential secret from the directory listing. Its name follows the
/// convention `rds-db-credentials/<cluster-resource-id>/<user-id>`.
#[derive(Debug, PartialEq, Eq)]
pub struct SecretDescriptor {
    /// The structured name; absent names never match any cluster.
    pub name: Option<String>,
    /// The opaque resource locator.
    pub arn: Option<String>,
}

/// One column of a result set. The display name is the label if present,
/// else the name, else `?`.
#[derive(Debug, PartialEq, Eq)]
pub struct Column {
    /// The label reported by the statement, when any.
    pub label: Option<String>,
    /// The underlying column name, when any.
    pub name: Option<String>,
}

/// One variant-typed cell of a row. Exactly one variant is populated; the
/// textual payloads of `Array`, `Blob`, `Double` and `Other` carry the
/// natural textual form of values the library does not interpret further.
#[derive(Debug, PartialEq, Eq)]
pub enum Cell {
    /// An array value, kept only as its textual dump.
    Array(String),
    /// A binary value, kept only as its textual dump.
    Blob(String),
    /// A boolean value.
    Boolean(bool),
    /// A floating-point value, kept as its natural textual form.
    Double(String),
    /// An explicit database NULL.
    Null,
    /// An integer value.
    Long(i64),
    /// A character string, rendered verbatim.
    Str(String),
    /// An unrecognized variant, kept only as its textual dump.
    Other(String),
    /// A cell with no populated variant at all.
    Empty,
}

/// The column-described, row-oriented output of one executed statement,
/// immutable once received. Rows are positionally aligned with the columns,
/// but the library tolerates a violated alignment rather than failing.
#[derive(Debug, PartialEq, Eq)]
pub struct ResultSet {
    /// The column metadata, absent when the response carried none.
    pub column_metadata: Option<Vec<Column>>,
    /// The rows, absent when the response carried none.
    pub records: Option<Vec<Vec<Cell>>>,
    /// How many records the statement updated.
    pub number_of_records_updated: i64,
}

/// A structured scalar for record output: a boolean, a number, a string, or
/// null. A `Double` carries the number's textual form so that no
/// floating-point value is ever reinterpreted.
#[derive(Debug, PartialEq, Eq)]
pub enum JsonScalar {
    /// A structured null.
    Null,
    /// A boolean.
    Bool(bool),
    /// An integer number.
    Long(i64),
    /// A floating-point number, as its textual form.
    Double(String),
    /// A character string.
    Str(String),
}

/// One projected row: an ordered association list of display name and
/// structured value. It is deliberately a sequence of pairs, not a map, to
/// preserve order and retain fields that happen to share a name.
#[derive(Debug, PartialEq, Eq)]
pub struct Record {
    /// The (name, value) pairs, in column order.
    pub record: Vec<(String, JsonScalar)>,
}

/// A whole materialized response: the update count and the projected rows.
#[derive(Debug, PartialEq, Eq)]
pub struct CookedResponse {
    /// How many records the statement updated.
    pub number_of_records_updated: i64,
    /// The projected rows, in response order.
    pub records: Vec<Record>,
}

/// The pair of resource locators that a statement execution needs: the
/// credential secret's locator and the cluster's locator.
#[derive(Debug, PartialEq, Eq)]
pub struct MyArns {
    /// The resolved secret's locator.
    pub aws_secret_store_arn: String,
    /// The resolved cluster's locator.
    pub db_cluster_or_instance_arn: String,
}

/// Every way resolution can fail. Ambiguity and no-match errors carry the
/// full candidate set so the caller can re-invoke with a disambiguating
/// hint. Transport failures of the remote calls are not represented here;
/// they never reach the resolution logic.
#[derive(Debug, PartialEq, Eq)]
pub enum Error {
    /// The cluster listing field was entirely absent from the response.
    DBClusterLookupEmpty {},
    /// The cluster listing was present but empty.
    DBClusterEmpty {},
    /// No cluster matched the requested identifier.
    DBClusterNoMatch {
        /// What was requested.
        db_cluster_identifier: String,
        /// Every listed identifier, in listing order.
        available_ids: Vec<String>,
    },
    /// More than one cluster was listed and none was requested.
    DBClusterMultiple {
        /// Every listed identifier, in listing order.
        available_ids: Vec<String>,
    },
    /// The secret listing field was entirely absent from the response.
    SecretNotFound {},
    /// No secret in the listing belongs to the resolved cluster.
    SecretsUsersEmpty {},
    /// No secret of the resolved cluster matched the requested user.
    SecretsUsersNoMatch {
        /// What was requested.
        db_user_id: String,
        /// Every user of the cluster's secrets, in listing order.
        available_ids: Vec<String>,
    },
    /// The resolved cluster has more than one secret and no user was
    /// requested.
    SecretsUsersMultiple {
        /// Every user of the cluster's secrets, in listing order.
        available_ids: Vec<String>,
    },
}

/// The view of an optional string: its characters, or `None`.
pub open spec fn opt_view(o: Option<String>) -> Option<Seq<char>> {
    match o {
        Some(s) => Some(s@),
        None => None,
    }
}

/// The characters of an optional string, an absent one reading as empty.
pub open spec fn text_or_empty(o: Option<String>) -> Seq<char> {
    match o {
        Some(s) => s@,
        None => Seq::empty(),
    }
}

/// Copies an optional string.
pub fn dup_opt_string(o: &Option<String>) -> (r: Option<String>)
    ensures
        r == *o,
{
    match o {
        Some(s) => Some(s.clone()),
        None => None,
    }
}

/// Copies a cluster descriptor.
pub fn dup_cluster(c: &ClusterDescriptor) -> (r: ClusterDescriptor)
    ensures
        r == *c,
{
    ClusterDescriptor {
        db_cluster_identifier: dup_opt_string(&c.db_cluster_identifier),
        db_cluster_resource_id: dup_opt_string(&c.db_cluster_resource_id),
        db_cluster_arn: dup_opt_string(&c.db_cluster_arn),
    }
}

/// Copies a secret descriptor.
pub fn dup_secret(s: &SecretDescriptor) -> (r: SecretDescriptor)
    ensures
        r == *s,
{
    SecretDescriptor { name: dup_opt_string(&s.name), arn: dup_opt_string(&s.arn) }
}

} // verus!
