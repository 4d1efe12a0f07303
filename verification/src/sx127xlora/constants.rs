use vstd::prelude::*;

verus! {

pub const HF_MIN_HZ: u32 = 779_000_000;
/// Size of the packet buffer: half of the 256-byte FIFO, the other half being the TX area.
pub const PAYLOAD_SIZE: usize = 128;

} // verus!
