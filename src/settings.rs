use vstd::prelude::*;

verus! {

/// A network-layer address, held as the plain numbers it is written with.
#[derive(Clone, Copy, Debug)]
pub enum RemoteAddress {
    /// An IPv4 address: four octets, most significant first.
    V4 { octets: [u8; 4] },
    /// An IPv6 address: eight 16-bit segments, most significant first.
    V6 { segments: [u16; 8] },
}

/// What a monitor is told when it starts: where to probe and how long to
/// wait for each reply. Copied into the background task and never changed.
#[derive(Clone, Copy, Debug)]
pub struct PollSettings {
    pub remote: RemoteAddress,
    /// How long one probe waits for its reply, in milliseconds.
    pub timeout_ms: u64,
}

impl PollSettings {
    pub fn new(remote: RemoteAddress, timeout_ms: u64) -> (r: Self)
        ensures
            r.remote == remote,
            r.timeout_ms == timeout_ms,
    {
        PollSettings { remote, timeout_ms }
    }
}

} // verus!
