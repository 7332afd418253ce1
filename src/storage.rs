//! Per-worker persistent storage.
use crate::text::{decimal, make_ordinal_names, ordinal_name, push_decimal};
use crate::resources::VolumeClaim;
use vstd::prelude::*;
use vstd::string::StringExecFns;

verus! {

/// Name of the claim template attached to the worker workload.
pub const CLAIM_TEMPLATE: &'static str = "data";

/// Access mode of every worker claim.
pub const ACCESS_MODE: &'static str = "ReadWriteOnce";

/// Where the database keeps its data inside a container.
pub const DATA_PATH: &'static str = "/var/lib/postgresql/data";

/// A size of `gb` gigabytes, in the substrate's quantity notation.
pub open spec fn quantity(gb: nat) -> Seq<char> {
    decimal(gb) + "Gi"@
}

/// Name of the claim that the substrate makes from the template for
/// worker `i` of cluster `name`.
pub open spec fn claim_name(name: Seq<char>, i: nat) -> Seq<char> {
    ordinal_name(CLAIM_TEMPLATE@ + "-"@ + name + "-workers-"@, i, ""@)
}

/// A claim template named `name` that requests `gi` gigabytes.
pub fn volume_claim_template(name: &str, gi: u64) -> (r: VolumeClaim)
    ensures
        r.name@ == name@,
        r.access_mode@ == ACCESS_MODE@,
        r.mount_path@ == DATA_PATH@,
        r.storage@ == quantity(gi as nat),
{
    let mut storage = String::new();
    push_decimal(&mut storage, gi);
    storage.append("Gi");
    VolumeClaim {
        name: name.to_owned(),
        access_mode: ACCESS_MODE.to_owned(),
        mount_path: DATA_PATH.to_owned(),
        storage,
    }
}

/// The claims held by the `workers` workers of cluster `name`: what a purge
/// removes.
pub fn claim_names(name: &str, workers: u32) -> (r: Vec<String>)
    ensures
        r@.len() == workers,
        forall|i: int| 0 <= i < workers ==> #[trigger] r@[i]@ == claim_name(name@, i as nat),
{
    let mut prefix = CLAIM_TEMPLATE.to_owned();
    prefix.append("-");
    prefix.append(name);
    prefix.append("-workers-");
    make_ordinal_names(prefix.as_str(), workers, "")
}

} // verus!
