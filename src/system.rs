//! Host facts that the recommendations are made from.
use vstd::prelude::*;

verus! {

/// Bytes in a GiB.
pub const GIB: u64 = 1073741824;

/// sysinfo's view of the host, opaque here.
#[verifier::external_type_specification]
#[verifier::external_body]
pub struct ExSystem(sysinfo::System);

/// Relies on `sysinfo::System::new_all`: a fresh snapshot of the host. What
/// it holds depends on the machine, so nothing more is stated.
pub assume_specification[ sysinfo::System::new_all ]() -> sysinfo::System;

/// Relies on `sysinfo::System::refresh_memory`: refreshes the memory
/// figures of the snapshot.
pub assume_specification[ sysinfo::System::refresh_memory ](s: &mut sysinfo::System);

/// Relies on `sysinfo::System::total_memory`: the host's memory in bytes,
/// which depends on the machine.
pub assume_specification[ sysinfo::System::total_memory ](s: &sysinfo::System) -> u64;

/// Whole GiB in `bytes`.
pub fn memory_gb_of(bytes: u64) -> (r: u64)
    ensures
        r == bytes / GIB,
{
    bytes / GIB
}

/// The host's memory in whole GiB.
pub fn get_system_memory_gb() -> (r: Result<u64, String>)
    ensures
        r is Ok,
        r->Ok_0 <= u64::MAX / GIB,
{
    let mut sys = sysinfo::System::new_all();
    sys.refresh_memory();
    let total = sys.total_memory();
    Ok(memory_gb_of(total))
}

} // verus!
