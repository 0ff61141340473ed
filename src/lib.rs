//! Swap-execution core of a two-asset constant-product pool: curve
//! arithmetic, fee splitting, a time-weighted price oracle, and the
//! base-input and base-output swap sequences that tie them together.
//!
//! Account handling, token transfers and the clock belong to the host: the
//! swaps take the time, the vault addresses and the mints' transfer fees as
//! plain values, and hand back the transfers to perform.

pub mod curve;
pub mod error;
pub mod key;
pub mod oracle;
pub mod pool;
pub mod fees;
pub mod swap;
pub mod swap_input;
