//! Pending changes of a virtual machine: `nodes/{node}/qemu/{vm_id}/pending`.

use vstd::prelude::*;
use vstd::string::*;
use crate::vm::vm_path;

verus! {

/// `nodes/{node}/qemu/{vm_id}/pending` as a sequence of characters.
pub open spec fn pending_path(node: Seq<char>, vm_id: Seq<char>) -> Seq<char> {
    vm_path(node, vm_id) + "/pending"@
}

/// The path of the pending changes of the virtual machine `vm_id` on `node`.
pub fn path(node: &str, vm_id: &str) -> (r: String)
    ensures
        r@ == pending_path(node@, vm_id@),
{
    let mut s = crate::vm::path(node, vm_id);
    s.append("/pending");
    s
}

pub struct GetRequest {
    /// The cluster node name.
    pub node: String,
    /// The unique ID of the VM.
    pub vmid: u32,
}

/// One configuration option with both its current and its pending value.
pub struct GetResponse {
    /// Configuration option name.
    pub key: String,
    /// Indicates a pending delete request if present and not 0.
    /// The value 2 indicates a force-delete request.
    pub delete: u8,
    /// Pending value.
    pub pending: String,
    /// Current value.
    pub value: String,
}

} // verus!
