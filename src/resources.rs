//! Plain descriptions of the infrastructure objects that a cluster needs.
use vstd::prelude::*;

verus! {

/// Image that every database container runs.
pub const IMAGE: &'static str = "citusdata/citus:12.1";

/// Port on which the database listens, in containers and endpoints.
pub const DB_PORT: i32 = 5432;

/// Name of the endpoint port that carries database traffic.
pub const PORT_NAME: &'static str = "pg";

/// Placeholder password given to the database containers.
pub const DB_PASSWORD: &'static str = "yourpassword";

/// A key and a value: a label, a selector term or an environment variable.
#[derive(Clone, Debug)]
pub struct Pair {
    pub key: String,
    pub value: String,
}

impl View for Pair {
    type V = (Seq<char>, Seq<char>);

    open spec fn view(&self) -> (Seq<char>, Seq<char>) {
        (self.key@, self.value@)
    }
}

/// The views of a list of pairs.
pub open spec fn pairs(v: Seq<Pair>) -> Seq<(Seq<char>, Seq<char>)> {
    v.map_values(|p: Pair| p@)
}

/// The two kinds of database node.
#[derive(Clone, Copy, Debug, PartialEq, Eq, Structural)]
pub enum Role {
    Master,
    Worker,
}

/// A per-replica storage claim attached to a workload.
#[derive(Clone, Debug)]
pub struct VolumeClaim {
    pub name: String,
    pub access_mode: String,
    /// Where each replica's container mounts its claim.
    pub mount_path: String,
    /// Requested size, in the substrate's quantity notation (`"5Gi"`).
    pub storage: String,
}

/// A set of identical database containers.
///
/// The master is a single replaceable replica; workers form an ordinally
/// indexed group whose replicas keep their identity, governed by
/// `service_name`.
#[derive(Clone, Debug)]
pub struct Workload {
    pub name: String,
    pub namespace: String,
    pub role: Role,
    /// Labels of the workload and of its replicas, and its selector.
    pub labels: Vec<Pair>,
    pub replicas: i32,
    pub container_name: String,
    pub image: String,
    pub port: i32,
    pub env: Vec<Pair>,
    pub service_name: Option<String>,
    pub claim: Option<VolumeClaim>,
}

/// A network endpoint in front of a workload.
#[derive(Clone, Debug)]
pub struct Endpoint {
    pub name: String,
    pub namespace: String,
    pub labels: Vec<Pair>,
    pub selector: Vec<Pair>,
    pub port_name: String,
    pub port: i32,
    /// A headless endpoint resolves to each member's own address.
    pub headless: bool,
}

/// A one-shot task that runs one command to completion.
#[derive(Clone, Debug)]
pub struct Task {
    pub name: String,
    pub namespace: String,
    pub container_name: String,
    pub image: String,
    pub command: Vec<String>,
    pub env: Vec<Pair>,
    pub restart_policy: String,
}

/// Builds a pair from two strings.
pub fn pair(key: &str, value: &str) -> (r: Pair)
    ensures
        r@ == (key@, value@),
{
    Pair { key: key.to_owned(), value: value.to_owned() }
}

/// Labels carried by every object of cluster `name`.
pub open spec fn app_labels(name: Seq<char>) -> Seq<(Seq<char>, Seq<char>)> {
    seq![("app"@, name)]
}

/// Labels carried by the master's objects.
pub open spec fn master_labels(name: Seq<char>) -> Seq<(Seq<char>, Seq<char>)> {
    seq![("app"@, name), ("node"@, "master"@)]
}

/// Selector that picks the master's replicas.
pub open spec fn master_selector() -> Seq<(Seq<char>, Seq<char>)> {
    seq![("node"@, "master"@)]
}

/// Environment of a database container.
pub open spec fn database_env() -> Seq<(Seq<char>, Seq<char>)> {
    seq![("POSTGRES_PASSWORD"@, DB_PASSWORD@)]
}

/// The labels of every object of cluster `name`.
pub fn make_app_labels(name: &str) -> (r: Vec<Pair>)
    ensures
        pairs(r@) == app_labels(name@),
{
    let mut r: Vec<Pair> = Vec::new();
    r.push(pair("app", name));
    assert(pairs(r@) =~= app_labels(name@));
    r
}

/// The labels of the master's objects.
pub fn make_master_labels(name: &str) -> (r: Vec<Pair>)
    ensures
        pairs(r@) == master_labels(name@),
{
    let mut r: Vec<Pair> = Vec::new();
    r.push(pair("app", name));
    r.push(pair("node", "master"));
    assert(pairs(r@) =~= master_labels(name@));
    r
}

/// The selector that picks the master's replicas.
pub fn make_master_selector() -> (r: Vec<Pair>)
    ensures
        pairs(r@) == master_selector(),
{
    let mut r: Vec<Pair> = Vec::new();
    r.push(pair("node", "master"));
    assert(pairs(r@) =~= master_selector());
    r
}

/// The environment of a database container.
pub fn make_database_env() -> (r: Vec<Pair>)
    ensures
        pairs(r@) == database_env(),
{
    let mut r: Vec<Pair> = Vec::new();
    r.push(pair("POSTGRES_PASSWORD", DB_PASSWORD));
    assert(pairs(r@) =~= database_env());
    r
}

} // verus!
