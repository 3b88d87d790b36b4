use vstd::prelude::*;

verus! {

/// Memory figures of the host, in bytes.
#[derive(Debug, Clone, Copy)]
pub struct MemoryMetrics {
    pub total_bytes: u64,
    pub used_bytes: u64,
    pub available_bytes: u64,
}

/// Traffic counters of one network interface.
#[derive(Debug)]
pub struct NetworkInterface {
    pub name: String,
    pub bytes_sent: u64,
    pub bytes_recv: u64,
    pub is_up: bool,
}

impl NetworkInterface {
    /// The record of an interface that the host lists, with its total counters;
    /// a listed interface is reported as up.
    pub fn observed(name: String, bytes_sent: u64, bytes_recv: u64) -> (r: NetworkInterface)
        ensures
            r.name@ == name@,
            r.bytes_sent == bytes_sent,
            r.bytes_recv == bytes_recv,
            r.is_up,
    {
        NetworkInterface { name, bytes_sent, bytes_recv, is_up: true }
    }
}

} // verus!
