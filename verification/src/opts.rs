//! The operations behind the command line's subcommands.

use crate::cli::Create;
use crate::cli::Start;
use crate::container::Container;
use crate::container::CreateAction;
use crate::container::CreateFlow;
use crate::container::CreatePhase;
use crate::container::spec_root_path;
use crate::strutil::path_join;
use crate::strutil::spec_path_join;
use vstd::prelude::*;

verus! {

/// Open the creation conversation for the requested container: the flow
/// to drive, and the first action to carry out.
pub fn create(c: Create) -> (r: (CreateFlow, CreateAction))
    ensures
        r.0.phase == CreatePhase::LoadSpec,
        r.0.inv(),
        r.0.container.container_id@ == c.container_id@,
        r.0.container.bundle@ == c.bundle@,
        r.0.container.root_path@ == spec_root_path(),
        r.1 matches CreateAction::LoadSpec(p) && p@ == spec_path_join(c.bundle@, "config.json"@),
{
    Container::new(c.container_id, c.bundle).create()
}

/// The runtime directory of the container to start.  The caller reads
/// the state file back from it, loads the instance, and carries out the
/// instance's start plan.
pub fn start(c: Start) -> (dir: String)
    ensures
        dir@ == spec_path_join(spec_root_path(), c.container_id@),
{
    path_join("/var/run/smog", c.container_id.as_str())
}

} // verus!
