//! The container's observable state, the single source of truth that is
//! persisted to `state.json` on every lifecycle transition.  Encoding the
//! state as JSON and writing the file is the embedding program's part.

use std::collections::HashMap;
use vstd::prelude::*;
use vstd::string::StringExecFns;

verus! {

/// Where a container stands in its lifecycle.
#[derive(Debug, Clone, Copy, PartialEq, Eq, Structural)]
pub enum Status {
    Creating,
    Created,
    Running,
    Stopped,
    Paused,
}

/// The OCI specification version this runtime reports.
pub open spec fn spec_oci_version() -> Seq<char> {
    "1.0.2"@
}

/// The name of the state file inside a container's runtime directory.
pub open spec fn spec_state_file() -> Seq<char> {
    "state.json"@
}

/// The persisted state of one container.
#[derive(Debug, Clone)]
pub struct State {
    pub oci_version: String,
    pub id: String,
    pub status: Status,
    pub pid: i32,
    pub bundle: String,
    pub annotations: Option<HashMap<String, String>>,
}

impl State {
    /// A fresh state record: the container is being created, no
    /// annotations are attached yet.
    pub fn new(id: &str, pid: i32, bundle: String) -> (r: State)
        ensures
            r.oci_version@ == spec_oci_version(),
            r.id@ == id@,
            r.status == Status::Creating,
            r.pid == pid,
            r.bundle == bundle,
            r.annotations matches Some(m) && m@ == Map::<String, String>::empty(),
    {
        State {
            oci_version: String::from_str("1.0.2"),
            id: id.to_owned(),
            status: Status::Creating,
            pid,
            bundle,
            annotations: Some(HashMap::new()),
        }
    }

    /// The path of the state file under a container's runtime directory.
    pub fn state_file_path(container_dir: &str) -> (r: String)
        ensures
            r@ == crate::strutil::spec_path_join(container_dir@, spec_state_file()),
    {
        crate::strutil::path_join(container_dir, "state.json")
    }
}

} // verus!
