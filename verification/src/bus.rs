//! Abstract collaborators of the display chain: a byte transport and a
//! chip-select line.
//!
//! The driver never touches hardware itself; it talks to two capabilities
//! supplied by its user. Each trait carries a ghost history of what has been
//! driven onto the wire, so that every contract in this crate can state the
//! exact byte traffic of a call. Implementations are unverified hardware
//! adapters (or test doubles); the histories are their proof obligations.

use vstd::prelude::*;

verus! {

/// A write-only byte transport (an SPI bus or a bit-banged data/clock pair).
///
/// `written()` is the ghost history of all bytes successfully clocked out
/// since the transport was created. A successful `transfer` appends exactly
/// its byte; a failed one leaves the transaction abandoned, and the history
/// then says nothing about that byte (it may or may not have reached the
/// wire, which is all a caller may rely on).
pub trait SpiTransfer: Sized {
    /// The transport's own error type.
    type Fault;

    /// Ghost history of the bytes clocked out so far. The default lets plain
    /// hardware adapters outside the verified world implement the trait
    /// without ghost code; an implementation whose contract is to be proved
    /// overrides it with its real history.
    open spec fn written(&self) -> Seq<u8> {
        Seq::empty()
    }

    /// Clock one byte out, consuming any simultaneously clocked-in response.
    fn transfer(&mut self, byte: u8) -> (r: Result<(), Self::Fault>)
        ensures
            r is Ok ==> final(self).written() == old(self).written().push(byte),
    ;
}

/// An active-low chip-select line framing each transaction.
///
/// `pulses()` is the ghost history of level changes driven onto the line:
/// `true` records a successful `set_low` (module selected), `false` a
/// successful `set_high` (latch). A failed call says nothing about the line.
pub trait ChipSelect: Sized {
    /// The pin's own error type.
    type Fault;

    /// Ghost history of the levels driven onto the line, latest last. The
    /// default lets plain hardware adapters outside the verified world
    /// implement the trait without ghost code; an implementation whose
    /// contract is to be proved overrides it with its real history.
    open spec fn pulses(&self) -> Seq<bool> {
        Seq::empty()
    }

    /// Drive the line low, selecting every module in the chain.
    fn set_low(&mut self) -> (r: Result<(), Self::Fault>)
        ensures
            r is Ok ==> final(self).pulses() == old(self).pulses().push(true),
    ;

    /// Drive the line high, latching the pairs each module has shifted in.
    fn set_high(&mut self) -> (r: Result<(), Self::Fault>)
        ensures
            r is Ok ==> final(self).pulses() == old(self).pulses().push(false),
    ;
}

} // verus!
