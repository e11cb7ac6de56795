//! Cloning a virtual machine: `nodes/{node}/qemu/{vm_id}/clone`.

use vstd::prelude::*;
use vstd::string::*;
use crate::client::ProxmoxClient;
use crate::session::{login_action, Action, Call, CallModel, Method, Phase};
use crate::vm::vm_path;

verus! {

/// `nodes/{node}/qemu/{vm_id}/clone` as a sequence of characters.
pub open spec fn clone_path(node: Seq<char>, vm_id: Seq<char>) -> Seq<char> {
    vm_path(node, vm_id) + "/clone"@
}

/// The path on which the virtual machine `vm_id` on `node` is cloned.
pub fn path(node: &str, vm_id: &str) -> (r: String)
    ensures
        r@ == clone_path(node@, vm_id@),
{
    let mut s = crate::vm::path(node, vm_id);
    s.append("/clone");
    s
}

/// Target format for file storage.
#[derive(Clone, Copy, PartialEq, Eq, Debug)]
pub enum Format {
    Raw,
    Qcow2,
    Vmdk,
}

pub struct PostRequest {
    /// Vm ID for the clone.
    pub new_id: u32,
    /// The cluster node name.
    pub node: String,
    /// The ID of the VM to clone.
    pub vm_id: u32,
    /// Override I/O bandwidth limit (in KiB/s).
    pub bw_limit: Option<usize>,
    /// Description for the new vm.
    pub description: Option<String>,
    /// Target format for file storage. Only valid for full clone.
    pub format: Option<Format>,
    /// Create a full copy of all disks. This is always done when you clone a normal VM.
    /// For VM templates, we try to create a linked clone by default.
    pub full: Option<bool>,
    /// Set a name for the new VM.
    pub name: Option<String>,
    /// Add the new VM to the specified pool.
    pub pool: Option<String>,
    /// The name of the snapshot.
    pub snap_name: Option<String>,
    /// Target storage for full clone.
    pub storage: Option<String>,
    /// Target node. Only allowed if the cloned VM is on shared storage.
    pub target: Option<String>,
}

pub struct PostResponse {}

/// Begins the call that clones the virtual machine `vmid` on `node`: a POST
/// on the clone path, which starts by logging in.
pub fn post(client: &ProxmoxClient, node: &str, vmid: &str) -> (r: (Call, Action))
    requires
        client@.complete(),
    ensures
        r.0@ == (CallModel {
            method: Method::Post,
            path: clone_path(node@, vmid@),
            phase: Phase::LoggingIn,
        }),
        r.1@ == login_action(client@),
{
    let target = path(node, vmid);
    client.request(Method::Post, target.as_str())
}

} // verus!
