//! Driver logic for a 2.4 GHz radio transceiver chip, split into a verified
//! core: the register bit-field schema, the SPI request frames, the bring-up
//! sequence, the two role-specific operating loops, and the single-slot
//! indicator mailbox shared by both of them.
//!
//! Everything here is pure: functions compute request frames and action plans,
//! and a host runner performs the actual bus exchanges, pin writes and delays.

pub mod bitfields;
pub mod indicator;
pub mod led_state;
pub mod nrf2401;
pub mod role;
