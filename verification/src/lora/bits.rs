//! Bit-field helpers of the LoRa driver; the same as the shared ones.
pub use crate::common::{get_bits, set_bits, spec_get_bits, spec_set_bits};
