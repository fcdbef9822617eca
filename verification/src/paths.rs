//! The session-scoped filesystem paths the daemon claims.
//!
//! Both the control socket and the instance lock live directly under the
//! session runtime directory, under fixed names; the lock name carries a
//! `.lock` suffix.  Resolving the runtime directory itself is the runner's
//! job — its absence is a fatal startup condition — and these functions turn
//! the resolved directory into the two paths.

use vstd::prelude::*;
use vstd::string::StringExecFns;

verus! {

/// The control-socket path under the given runtime directory.
pub fn socket_path_in(runtime_dir: &str) -> (path: String)
    ensures
        path@ == runtime_dir@ + "/wayland-idle-inhibitor"@,
{
    String::from_str(runtime_dir).concat("/wayland-idle-inhibitor")
}

/// The instance-lock path under the given runtime directory.
pub fn lock_path_in(runtime_dir: &str) -> (path: String)
    ensures
        path@ == runtime_dir@ + "/wayland-idle-inhibitor.lock"@,
{
    String::from_str(runtime_dir).concat("/wayland-idle-inhibitor.lock")
}

} // verus!
