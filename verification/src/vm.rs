//! Virtual machines: the resource `nodes/{node}/qemu/{vm_id}` and what lies under it.
//!
//! The request and response shapes here carry no behaviour: the session
//! layer transports them as they are.

use vstd::prelude::*;
use vstd::string::*;

pub mod clone;
pub mod config;
pub mod pending;

verus! {

/// `nodes/{node}/qemu/{vm_id}` as a sequence of characters.
pub open spec fn vm_path(node: Seq<char>, vm_id: Seq<char>) -> Seq<char> {
    "nodes/"@ + node + "/qemu/"@ + vm_id
}

/// The path of the virtual machine `vm_id` on `node`.
pub fn path(node: &str, vm_id: &str) -> (r: String)
    ensures
        r@ == vm_path(node@, vm_id@),
{
    let mut s = String::from_str("nodes/");
    s.append(node);
    s.append("/qemu/");
    s.append(vm_id);
    s
}

pub struct GetRequest {}

pub struct GetResponse {}

pub struct PostRequest {}

pub struct PostResponse {}

pub struct PutRequest {}

pub struct PutResponse {}

pub struct DeleteRequest {}

pub struct DeleteResponse {}

} // verus!
