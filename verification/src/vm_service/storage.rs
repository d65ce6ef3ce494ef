//! The block-device stack of a VM's root filesystem: where its files go,
//! and what releasing it involves.
use vstd::prelude::*;

use super::types::PreparedStorage;
use crate::text::{clone_strings, join_path, path_join, push_str, str_eq, to_owned_string};

verus! {

/// Without privileges the VM boots from a private copy of the image,
/// `vm_dir/disk.ext4`, with no loop or mapper devices.
pub fn rootless_storage(vm_dir: &str) -> (s: PreparedStorage)
    ensures
        s.dm_device_path@ == join_path(vm_dir@, "disk.ext4"@),
        s.loop_devices@.len() == 0,
        s.cow_file_path@ == join_path(vm_dir@, "disk.ext4"@),
        s.dm_name@ == "rootless"@,
{
    let disk = path_join(vm_dir, "disk.ext4");
    PreparedStorage {
        dm_device_path: disk.clone(),
        loop_devices: Vec::new(),
        cow_file_path: disk,
        dm_name: to_owned_string("rootless"),
    }
}

/// Where the copy-on-write layer of a VM goes, and the name of its mapper
/// device.
pub fn privileged_layout(vm_dir: &str, vm_id: &str) -> (r: (String, String))
    ensures
        r.0@ == join_path(vm_dir@, "diff.cow"@),
        r.1@ == "vyoma-"@ + vm_id@,
{
    let mut dm = to_owned_string("vyoma-");
    push_str(&mut dm, vm_id);
    (path_join(vm_dir, "diff.cow"), dm)
}

/// Size of the copy-on-write layer in MiB.
pub fn cow_size_mib() -> (n: u64)
    ensures
        n == 2048,
{
    2048
}

/// What releasing a VM's storage involves.
#[derive(Debug)]
pub struct StorageCleanup {
    pub loop_devices: Vec<String>,
    /// The mapper device to remove; a rootless VM has none.
    pub dm_name: Option<String>,
    /// The copy-on-write file to delete when it exists.
    pub cow_file: String,
}

/// Detach every loop device, remove the mapper device unless the storage
/// is rootless, and delete the copy-on-write file.
pub fn storage_cleanup(storage: &PreparedStorage) -> (c: StorageCleanup)
    ensures
        c.loop_devices@ == storage.loop_devices@,
        c.dm_name is None <==> storage.dm_name@ == "rootless"@,
        c.dm_name is Some ==> c.dm_name->0 == storage.dm_name,
        c.cow_file == storage.cow_file_path,
{
    let dm_name = if str_eq(storage.dm_name.as_str(), "rootless") {
        None
    } else {
        Some(storage.dm_name.clone())
    };
    StorageCleanup {
        loop_devices: clone_strings(&storage.loop_devices),
        dm_name,
        cow_file: storage.cow_file_path.clone(),
    }
}

} // verus!
