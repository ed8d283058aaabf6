//! Driver logic for chains of MAX7219-driven 8x8 LED dot-matrix modules.
//!
//! The chain is addressed over a serial bus: every transaction is framed by a
//! chip-select pulse and clocks exactly one `(register, data)` byte pair per
//! module, furthest module first. This crate verifies the framing, the
//! device-addressing convention, and the pixel-offset text compositor; the
//! physical byte transport and chip-select line are abstract collaborators
//! described by the traits in [`bus`].

mod bus;
pub mod compose;
mod driver;
pub mod font;
pub mod frames;

pub use bus::ChipSelect;
pub use bus::SpiTransfer;
pub use driver::Command;
pub use driver::Error;
pub use driver::MAX7219;
pub use driver::is_in_range;
pub use font::glyph_row;
