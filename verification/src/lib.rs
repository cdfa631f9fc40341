//! Hardware abstraction layer for the GD32VF103 microcontroller, built on
//! a verified register model.
//!
//! Every peripheral's memory-mapped registers are represented as plain
//! values owned by capability handles: whoever holds a handle is the only
//! code that may change the registers it constrains, and each operation's
//! contract states the exact register effect.  The hard parts of the
//! design carry full functional contracts:
//!
//! - the clock engine ([`rcu`]) commits a configuration exactly when every
//!   requested frequency is exactly reachable, and the derived bus
//!   frequencies of the frozen snapshot equal the requests;
//! - the pin typestate machine ([`gpio`]) encodes each pin's electrical
//!   mode and lock state in its type, and every mode transition writes
//!   exactly one four-bit control field, leaving all other pins alone;
//! - the port lock protocol ([`gpio::Lock`]) is a two-phase mark-then-
//!   freeze sequence whose commit consumes the lock handle, making any
//!   later unlock unrepresentable;
//! - the peripheral wrappers ([`crc`], [`backup`], [`serial`], [`spi`],
//!   [`timer`], [`wdog`]) follow one pattern: take exclusive ownership of
//!   a register block, gate its clock through the owning bus handle, and
//!   expose a narrow typed interface with exact contracts.
//!
//! Code that drives the real chip mirrors the committed model values into
//! the physical register file and performs the busy-waits and
//! interrupt-masked sequences that a pure model cannot: reads and writes
//! of externally driven state (input levels, status flags, received
//! bytes) enter the model through explicit sampling operations, so the
//! decision logic that consumes them is verified for every sampled value.

pub mod afio;
pub mod atomic;
pub mod backup;
pub mod crc;
pub mod ctimer;
pub mod delay;
pub mod fmc;
pub mod gpio;
pub mod nonblocking;
pub mod rcu;
pub mod serial;
pub mod spi;
pub mod systick;
pub mod timer;
pub mod unit;
pub mod wdog;
