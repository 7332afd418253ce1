//! The one-shot task that registers every worker with the master.
use crate::resources::{pair, Pair, Task, DB_PASSWORD, IMAGE};
use crate::text::{lemma_ordinal_names_distinct, make_ordinal_name, ordinal_name};
use crate::workers;
use vstd::prelude::*;
use vstd::string::StringExecFns;

verus! {

/// Name of the registration task of cluster `name`.
///
/// The name is fixed, so submitting the task again for a cluster whose
/// workers are already registered is answered "already exists" and does not
/// run the registration twice.
pub open spec fn task_name(name: Seq<char>) -> Seq<char> {
    name + "-init-workers"@
}

/// The stable address of worker `i` of cluster `name`:
/// `"{name}-workers-{i}.{name}-worker"`.
pub open spec fn worker_address(name: Seq<char>, i: nat) -> Seq<char> {
    ordinal_name(workers::workload_name(name) + "-"@, i, "."@ + workers::endpoint_name(name))
}

/// The statement that registers worker `i` of cluster `name`.
pub open spec fn registration_statement(name: Seq<char>, i: nat) -> Seq<char> {
    "SELECT * from master_add_node('"@ + worker_address(name, i) + "', 5432)"@
}

/// The statements for workers `0..n`, joined by `;`.
pub open spec fn registration_batch(name: Seq<char>, n: nat) -> Seq<char>
    decreases n,
{
    if n == 0 {
        Seq::empty()
    } else if n == 1 {
        registration_statement(name, 0)
    } else {
        registration_batch(name, (n - 1) as nat) + ";"@ + registration_statement(name, (n - 1) as nat)
    }
}

/// The shell command that runs the whole batch in one client call.
pub open spec fn registration_command(name: Seq<char>, n: nat) -> Seq<char> {
    "psql -c \""@ + registration_batch(name, n) + "\""@
}

/// The worker addresses of a cluster are pairwise distinct.
pub proof fn lemma_worker_addresses_distinct(name: Seq<char>, i: nat, j: nat)
    requires
        i != j,
    ensures
        worker_address(name, i) != worker_address(name, j),
{
    lemma_ordinal_names_distinct(
        workers::workload_name(name) + "-"@,
        i,
        j,
        "."@ + workers::endpoint_name(name),
    );
}

fn address_affixes(name: &str) -> (r: (String, String))
    ensures
        r.0@ == workers::workload_name(name@) + "-"@,
        r.1@ == "."@ + workers::endpoint_name(name@),
{
    let mut prefix = workers::qname(name);
    prefix.append("-");
    let mut suffix = ".".to_owned();
    suffix.append(workers::endpoint_qname(name).as_str());
    (prefix, suffix)
}

/// The addresses of the `cnt` workers of cluster `name`, in ordinal order.
pub fn worker_addresses(name: &str, cnt: u32) -> (r: Vec<String>)
    ensures
        r@.len() == cnt,
        forall|i: int| 0 <= i < cnt ==> #[trigger] r@[i]@ == worker_address(name@, i as nat),
{
    let (prefix, suffix) = address_affixes(name);
    crate::text::make_ordinal_names(prefix.as_str(), cnt, suffix.as_str())
}

/// The shell command that registers the `cnt` workers of cluster `name`.
pub fn make_registration_command(name: &str, cnt: u32) -> (r: String)
    ensures
        r@ == registration_command(name@, cnt as nat),
{
    let (prefix, suffix) = address_affixes(name);
    let mut batch = String::new();
    let mut i: u32 = 0;
    while i < cnt
        invariant
            i <= cnt,
            prefix@ == workers::workload_name(name@) + "-"@,
            suffix@ == "."@ + workers::endpoint_name(name@),
            batch@ == registration_batch(name@, i as nat),
        decreases cnt - i,
    {
        if i > 0 {
            batch.append(";");
        }
        batch.append("SELECT * from master_add_node('");
        batch.append(make_ordinal_name(prefix.as_str(), i as u64, suffix.as_str()).as_str());
        batch.append("', 5432)");
        proof {
            if i == 0 {
                assert(batch@ =~= registration_batch(name@, 1));
            } else {
                assert(batch@ =~= registration_batch(name@, (i + 1) as nat));
            }
        }
        i = i + 1;
    }
    let mut r = "psql -c \"".to_owned();
    r.append(batch.as_str());
    r.append("\"");
    r
}

/// The registration task of cluster `name` with `cnt` workers.
pub fn register_workers(name: &str, namespace: &str, cnt: u32) -> (r: Task)
    ensures
        r.name@ == task_name(name@),
        r.namespace@ == namespace@,
        r.container_name@ == name@ + "-init-worker"@,
        r.image@ == IMAGE@,
        r.command@.len() == 3,
        r.command@[0]@ == "bash"@,
        r.command@[1]@ == "-c"@,
        r.command@[2]@ == registration_command(name@, cnt as nat),
        r.env@.len() == 3,
        r.env@[0]@ == ("PGHOST"@, crate::master::endpoint_name(name@)),
        r.env@[1]@ == ("PGUSER"@, "postgres"@),
        r.env@[2]@ == ("PGPASSWORD"@, DB_PASSWORD@),
        r.restart_policy@ == "OnFailure"@,
{
    let mut task_name = name.to_owned();
    task_name.append("-init-workers");
    let mut container_name = name.to_owned();
    container_name.append("-init-worker");
    let mut command: Vec<String> = Vec::new();
    command.push("bash".to_owned());
    command.push("-c".to_owned());
    command.push(make_registration_command(name, cnt));
    let mut env: Vec<Pair> = Vec::new();
    env.push(pair("PGHOST", name));
    env.push(pair("PGUSER", "postgres"));
    env.push(pair("PGPASSWORD", DB_PASSWORD));
    Task {
        name: task_name,
        namespace: namespace.to_owned(),
        container_name,
        image: IMAGE.to_owned(),
        command,
        env,
        restart_policy: "OnFailure".to_owned(),
    }
}

} // verus!
