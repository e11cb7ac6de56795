//! The configuration of a virtual machine: `nodes/{node}/qemu/{vm_id}/config`.

use vstd::prelude::*;
use vstd::string::*;
use crate::vm::vm_path;

verus! {

/// `nodes/{node}/qemu/{vm_id}/config` as a sequence of characters.
pub open spec fn config_path(node: Seq<char>, vm_id: Seq<char>) -> Seq<char> {
    vm_path(node, vm_id) + "/config"@
}

/// The path of the configuration of the virtual machine `vm_id` on `node`.
pub fn path(node: &str, vm_id: &str) -> (r: String)
    ensures
        r@ == config_path(node@, vm_id@),
{
    let mut s = crate::vm::path(node, vm_id);
    s.append("/config");
    s
}

pub struct GetRequest {}

#[derive(Clone, Copy, PartialEq, Eq, Debug)]
pub enum Bios {
    Seabios,
    Ovmf,
}

#[derive(Clone, Copy, PartialEq, Eq, Debug)]
pub enum CIType {
    ConfigDrive2,
    NoCloud,
    Opennebula,
}

#[allow(non_camel_case_types)]
#[derive(Clone, Copy, PartialEq, Eq, Debug)]
pub enum HugePageMemory {
    any,
    _2,
    _1024,
}

#[derive(Clone, Copy, PartialEq, Eq, Debug)]
pub enum OsType {
    Other,
    Wxp,
    W2k,
    W2k8,
    Wvista,
    Win7,
    Win8,
    Win10,
    Win11,
    L24,
    L26,
    Solaris,
}

#[derive(Clone, Copy, PartialEq, Eq, Debug)]
pub enum Lock {
    Backup,
    Clone,
    Create,
    Migrate,
    Rollback,
    Snapshot,
    SnapshotDelete,
    Suspending,
    Suspended,
}

#[derive(Clone, Copy, PartialEq, Eq, Debug)]
pub enum ScsiHw {
    Isi,
    Isi53c810,
    VirtioScsiPci,
    VirtioScsiSingle,
    Megasas,
    Pvscsi,
}

pub struct PostRequest {}

pub struct PostResponse {}

pub struct PutRequest {}

pub struct PutResponse {}

pub struct DeleteRequest {}

pub struct DeleteResponse {}

} // verus!
