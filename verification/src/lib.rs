//! Coordination core of a bare-metal alarm-clock appliance.
//!
//! The crate holds the timing-sensitive logic of the firmware: the
//! interrupt-driven wall-clock state machine, the cyclic display menu, the
//! debounced button edge detector, the LED duty-cycle control, the
//! deadline-queue scheduler for the self-rescheduling periodic jobs, and the
//! mutual-exclusion discipline under which those jobs share state.  Peripheral
//! drivers (pin, PWM, SPI, ADC, USB register work) are collaborators outside
//! this crate: every function here goes from plain values to plain values, and
//! the host environment performs the returned effects on the hardware.

pub mod buzzer;
pub mod clock;
pub mod debounce;
pub mod display;
pub mod led;
pub mod menu;
pub mod sched;
pub mod lock;
pub mod system;
