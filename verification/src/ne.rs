//! What is exchanged with the enclave launcher.

use vstd::prelude::*;

verus! {

/// What the launcher is asked to start.
#[derive(Debug, Clone, PartialEq, Eq)]
pub struct LaunchRequest {
    /// Path of the enclave image.
    pub image_path: String,
    /// Number of CPUs to give the enclave.
    pub cpu_count: usize,
    /// Memory to give the enclave, in MiB.
    pub memory_mib: usize,
}

/// What the launcher says of an enclave it started, as it says it.
#[derive(Debug, Clone, Copy, PartialEq, Eq)]
pub struct LaunchReport {
    /// Channel identifier of the enclave's end of the isolated channel.
    pub enclave_cid: u64,
    /// Identifier of the enclave's process on the host.
    pub process_id: u64,
}

/// Where an enclave runs that the launcher started: the two identifiers, each
/// in the width of what it identifies.
#[derive(Debug, Clone, Copy, PartialEq, Eq)]
pub struct EnclaveRunInfo {
    /// Channel identifier of the enclave's end of the isolated channel.
    pub enclave_cid: u32,
    /// Identifier of the enclave's process on the host.
    pub process_id: i32,
}

/// Whether the identifiers that a launcher reported are a channel identifier
/// and a process identifier: whether each fits the width of its kind.
pub open spec fn ids_fit(enclave_cid: u64, process_id: u64) -> bool {
    enclave_cid <= u32::MAX && process_id <= i32::MAX
}

impl EnclaveRunInfo {
    /// Takes the identifiers as a launcher reports them. Gives them back
    /// unchanged where both fit, and nothing where one does not.
    pub fn from_ids(enclave_cid: u64, process_id: u64) -> (info: Option<Self>)
        ensures
            match info {
                Some(info) => ids_fit(enclave_cid, process_id) && info.enclave_cid == enclave_cid
                    && info.process_id == process_id,
                None => !ids_fit(enclave_cid, process_id),
            },
    {
        if enclave_cid <= 0xffff_ffff && process_id <= 0x7fff_ffff {
            Some(EnclaveRunInfo { enclave_cid: enclave_cid as u32, process_id: process_id as i32 })
        } else {
            None
        }
    }
}

} // verus!
