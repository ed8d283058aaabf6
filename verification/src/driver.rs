//! The display chain controller.
//!
//! `MAX7219` owns the chip-select line and the module count of one chain of
//! daisy-connected display driver chips; the byte transport is handed to each
//! operation. Every operation performs whole transactions: chip-select low,
//! exactly one `(register, data)` byte pair per module (furthest module
//! first), chip-select high. The contracts state the exact bus traffic of a
//! successful call through the spec functions of [`crate::frames`] and
//! [`crate::compose`]; a transport fault mid-transaction abandons the
//! transaction, raising chip-select on the way out where possible, and leaves
//! partial bus effects unspecified.

use vstd::arithmetic::div_mod::lemma_fundamental_div_mod_converse;
use vstd::prelude::*;
use vstd::string::StringSliceAdditionalSpecFns;

use crate::bus::ChipSelect;
use crate::bus::SpiTransfer;
use crate::compose::blend_byte;
use crate::compose::glyph_at;
use crate::compose::module_byte;
use crate::compose::text_bytes;
use crate::compose::text_bytes_upto;
use crate::compose::text_row_payload;
use crate::font::glyph_row;
use crate::font::lemma_blank_glyph;
use crate::frames::broadcast_bytes;
use crate::frames::clear_bytes;
use crate::frames::clear_bytes_upto;
use crate::frames::cs_pulses;
use crate::frames::device_bytes;
use crate::frames::lemma_device_bytes_take_step;
use crate::frames::line_bytes;

verus! {

/// Everything a chain operation can report.
#[derive(Debug)]
pub enum Error<SpiError, PinError> {
    /// The byte transport failed mid-transaction.
    Spi(SpiError),
    /// The chip-select line could not be driven.
    Pin(PinError),
    /// A line index at or above 8 was rejected before any bus activity.
    InvalidLineIndex,
    /// A payload whose length is not the device count was rejected before any
    /// bus activity.
    InvalidPayloadLength,
}

impl<SpiError, PinError> Error<SpiError, PinError> {
    /// A fault reported by one of the bus collaborators, as opposed to a
    /// precondition violation caught before any bus activity.
    pub open spec fn is_bus_fault(self) -> bool {
        self is Spi || self is Pin
    }
}

/// The control and row registers of the driver chip, forwarded verbatim.
pub enum Command {
    Noop,
    Digit0,
    Digit1,
    Digit2,
    Digit3,
    Digit4,
    Digit5,
    Digit6,
    Digit7,
    DecodeMode,
    /// Intensity of the light, payload 0-15.
    Intensity,
    ScanLimit,
    OnOff,
    DisplayTest,
}

impl Command {
    /// The register address the chip assigns to this command.
    pub open spec fn register_spec(self) -> u8 {
        match self {
            Command::Noop => 0x00,
            Command::Digit0 => 0x01,
            Command::Digit1 => 0x02,
            Command::Digit2 => 0x03,
            Command::Digit3 => 0x04,
            Command::Digit4 => 0x05,
            Command::Digit5 => 0x06,
            Command::Digit6 => 0x07,
            Command::Digit7 => 0x08,
            Command::DecodeMode => 0x09,
            Command::Intensity => 0x0A,
            Command::ScanLimit => 0x0B,
            Command::OnOff => 0x0C,
            Command::DisplayTest => 0x0F,
        }
    }

    /// The register address of this command as a bus byte.
    pub fn register(self) -> (r: u8)
        ensures
            r == self.register_spec(),
    {
        match self {
            Command::Noop => 0x00,
            Command::Digit0 => 0x01,
            Command::Digit1 => 0x02,
            Command::Digit2 => 0x03,
            Command::Digit3 => 0x04,
            Command::Digit4 => 0x05,
            Command::Digit5 => 0x06,
            Command::Digit6 => 0x07,
            Command::Digit7 => 0x08,
            Command::DecodeMode => 0x09,
            Command::Intensity => 0x0A,
            Command::ScanLimit => 0x0B,
            Command::OnOff => 0x0C,
            Command::DisplayTest => 0x0F,
        }
    }
}

/// `0 <= i < len`, the range check of the compositor's neighbour lookups.
pub fn is_in_range(len: i32, i: i32) -> (r: bool)
    ensures
        r == (0 <= i && i < len),
{
    i >= 0 && i < len
}

/// One chain of daisy-connected display driver modules.
pub struct MAX7219<CS> {
    cs: CS,
    num_devices: usize,
}

impl<CS: ChipSelect> MAX7219<CS> {
    /// The fixed module count of the chain.
    pub closed spec fn device_count(self) -> usize {
        self.num_devices
    }

    /// Ghost history of the chip-select line the driver owns.
    pub closed spec fn cs_history(self) -> Seq<bool> {
        self.cs.pulses()
    }

    /// Take ownership of the chip-select line of a chain of `num_devices`
    /// modules.
    pub fn new(cs: CS, num_devices: usize) -> (drv: Self)
        requires
            num_devices >= 1,
        ensures
            drv.device_count() == num_devices,
            drv.cs_history() == cs.pulses(),
    {
        MAX7219 { cs, num_devices }
    }

    /// The number of devices this driver was constructed with.
    pub fn get_num_devices(&mut self) -> (n: usize)
        ensures
            *final(self) == *old(self),
            n == old(self).device_count(),
    {
        self.num_devices
    }

    /// Clock one byte out, consuming the transport's clocked-in response.
    fn shift_out<S: SpiTransfer>(&mut self, spi: &mut S, value: u8) -> (r: Result<
        (),
        Error<S::Fault, CS::Fault>,
    >)
        ensures
            *final(self) == *old(self),
            r is Ok ==> final(spi).written() == old(spi).written().push(value),
            r is Err ==> (r matches Err(Error::Spi(_))),
    {
        match spi.transfer(value) {
            Ok(()) => Ok(()),
            Err(e) => Err(Error::Spi(e)),
        }
    }

    /// Abandon a failed transaction: raise the chip-select line so the bus is
    /// not left selected, then surface the original fault (or, if the raise
    /// itself fails, that pin fault).
    fn abandon<SpiError>(&mut self, fault: Error<SpiError, CS::Fault>) -> (r: Error<
        SpiError,
        CS::Fault,
    >)
        ensures
            final(self).num_devices == old(self).num_devices,
            r == fault || (r matches Error::Pin(_)),
    {
        match self.cs.set_high() {
            Ok(()) => fault,
            Err(e) => Error::Pin(e),
        }
    }

    /// Write the same `(register, data)` pair to every module in one
    /// transaction.
    pub fn write_raw_all<S: SpiTransfer>(
        &mut self,
        spi: &mut S,
        register: u8,
        data: u8,
    ) -> (r: Result<(), Error<S::Fault, CS::Fault>>)
        ensures
            final(self).device_count() == old(self).device_count(),
            r is Ok ==> final(spi).written() == old(spi).written() + broadcast_bytes(
                register,
                data,
                old(self).device_count() as int,
            ) && final(self).cs_history() == old(self).cs_history() + cs_pulses(1),
            r matches Err(e) ==> e.is_bus_fault(),
    {
        match self.cs.set_low() {
            Ok(()) => {},
            Err(e) => {
                return Err(Error::Pin(e));
            },
        }
        let n = self.num_devices;
        for i in 0..n
            invariant
                self.num_devices == n,
                n == old(self).device_count(),
                self.cs.pulses() == old(self).cs_history().push(true),
                spi.written() == old(spi).written() + broadcast_bytes(register, data, i as int),
        {
            match self.shift_out(spi, register) {
                Ok(()) => {},
                Err(e) => {
                    return Err(self.abandon(e));
                },
            }
            match self.shift_out(spi, data) {
                Ok(()) => {},
                Err(e) => {
                    return Err(self.abandon(e));
                },
            }
            proof {
                let w0 = old(spi).written();
                let bi = broadcast_bytes(register, data, i as int);
                assert(broadcast_bytes(register, data, i + 1) =~= bi.push(register).push(data));
                assert(w0 + bi.push(register).push(data) =~= (w0 + bi).push(register).push(data));
            }
        }
        match self.cs.set_high() {
            Ok(()) => {},
            Err(e) => {
                return Err(Error::Pin(e));
            },
        }
        proof {
            lemma_cs_one_pulse(old(self).cs_history());
        }
        Ok(())
    }

    /// Write a command's register with `data` to every module in one
    /// transaction.
    pub fn write_command_all<S: SpiTransfer>(
        &mut self,
        spi: &mut S,
        command: Command,
        data: u8,
    ) -> (r: Result<(), Error<S::Fault, CS::Fault>>)
        ensures
            final(self).device_count() == old(self).device_count(),
            r is Ok ==> final(spi).written() == old(spi).written() + broadcast_bytes(
                command.register_spec(),
                data,
                old(self).device_count() as int,
            ) && final(self).cs_history() == old(self).cs_history() + cs_pulses(1),
            r matches Err(e) ==> e.is_bus_fault(),
    {
        let register = command.register();
        self.write_raw_all(spi, register, data)
    }

    /// Clear the display: write 0 to all eight row registers of every module,
    /// one transaction per row register.
    pub fn clear_all<S: SpiTransfer>(&mut self, spi: &mut S) -> (r: Result<
        (),
        Error<S::Fault, CS::Fault>,
    >)
        ensures
            final(self).device_count() == old(self).device_count(),
            r is Ok ==> final(spi).written() == old(spi).written() + clear_bytes(
                old(self).device_count() as int,
            ) && final(self).cs_history() == old(self).cs_history() + cs_pulses(8),
            r matches Err(e) ==> e.is_bus_fault(),
    {
        let n = self.num_devices;
        for register in 1..9u8
            invariant
                self.num_devices == n,
                n == old(self).device_count(),
                spi.written() == old(spi).written() + clear_bytes_upto(
                    n as int,
                    register as int - 1,
                ),
                self.cs.pulses() == old(self).cs_history() + cs_pulses(register as int - 1),
        {
            match self.write_raw_all(spi, register, 0x00) {
                Ok(()) => {},
                Err(e) => {
                    return Err(e);
                },
            }
            proof {
                let w0 = old(spi).written();
                let pre = clear_bytes_upto(n as int, register as int - 1);
                let frame = broadcast_bytes(register, 0, n as int);
                assert(clear_bytes_upto(n as int, register as int) == pre + frame);
                assert(w0 + (pre + frame) =~= (w0 + pre) + frame);
                let c0 = old(self).cs_history();
                assert(c0 + cs_pulses(register as int) =~= (c0 + cs_pulses(register as int - 1))
                    + cs_pulses(1)) by {
                    lemma_cs_one_pulse(c0);
                };
            }
        }
        Ok(())
    }

    /// Write one bitmap row across the whole chain in a single transaction:
    /// `payload[0]` lands on the furthest module. The line index and the
    /// payload length are validated before any bus activity.
    pub fn write_line_raw<S: SpiTransfer>(
        &mut self,
        spi: &mut S,
        line_index: u8,
        payload: &[u8],
    ) -> (r: Result<(), Error<S::Fault, CS::Fault>>)
        ensures
            final(self).device_count() == old(self).device_count(),
            line_index >= 8 ==> (r matches Err(Error::InvalidLineIndex)) && *final(spi) == *old(
                spi,
            ) && *final(self) == *old(self),
            line_index < 8 && payload@.len() != old(self).device_count() ==> (r matches Err(
                Error::InvalidPayloadLength,
            )) && *final(spi) == *old(spi) && *final(self) == *old(self),
            r is Ok ==> line_index < 8 && payload@.len() == old(self).device_count()
                && final(spi).written() == old(spi).written() + line_bytes(
                (line_index + 1) as u8,
                payload@,
            ) && final(self).cs_history() == old(self).cs_history() + cs_pulses(1),
            r matches Err(Error::InvalidLineIndex) ==> line_index >= 8,
            r matches Err(Error::InvalidPayloadLength) ==> line_index < 8 && payload@.len()
                != old(self).device_count(),
            r matches Err(e) ==> e.is_bus_fault() || e is InvalidLineIndex
                || e is InvalidPayloadLength,
    {
        if line_index >= 8 {
            return Err(Error::InvalidLineIndex);
        }
        if payload.len() != self.num_devices {
            return Err(Error::InvalidPayloadLength);
        }
        match self.cs.set_low() {
            Ok(()) => {},
            Err(e) => {
                return Err(Error::Pin(e));
            },
        }
        let register = line_index + 1;
        let n = payload.len();
        for i in 0..n
            invariant
                n == payload@.len(),
                line_index < 8,
                payload@.len() == old(self).device_count(),
                self.num_devices == old(self).device_count(),
                self.cs.pulses() == old(self).cs_history().push(true),
                spi.written() == old(spi).written() + line_bytes(
                    register,
                    payload@.subrange(0, i as int),
                ),
        {
            match self.shift_out(spi, register) {
                Ok(()) => {},
                Err(e) => {
                    return Err(self.abandon(e));
                },
            }
            match self.shift_out(spi, payload[i]) {
                Ok(()) => {},
                Err(e) => {
                    return Err(self.abandon(e));
                },
            }
            proof {
                let w0 = old(spi).written();
                let pre = payload@.subrange(0, i as int);
                assert(line_bytes(register, payload@.subrange(0, i + 1)) =~= line_bytes(
                    register,
                    pre,
                ).push(register).push(payload@[i as int]));
                assert(w0 + line_bytes(register, pre).push(register).push(payload@[i as int]) =~= (
                w0 + line_bytes(register, pre)).push(register).push(payload@[i as int]));
            }
        }
        match self.cs.set_high() {
            Ok(()) => {},
            Err(e) => {
                return Err(Error::Pin(e));
            },
        }
        proof {
            lemma_cs_one_pulse(old(self).cs_history());
            assert(payload@.subrange(0, n as int) =~= payload@);
        }
        Ok(())
    }

    /// Write one `(register, data)` pair to the module at `device_index`,
    /// leaving every other module's latched registers untouched: the chain
    /// shifts everything through and keeps only the last pair per slot, so
    /// the transaction pads with no-op pairs until the real pair comes to
    /// rest in the target module's slot at the latch.
    pub fn write_device_raw<S: SpiTransfer>(
        &mut self,
        spi: &mut S,
        device_index: usize,
        register: u8,
        data: u8,
    ) -> (r: Result<(), Error<S::Fault, CS::Fault>>)
        requires
            device_index < old(self).device_count(),
        ensures
            final(self).device_count() == old(self).device_count(),
            r is Ok ==> final(spi).written() == old(spi).written() + device_bytes(
                old(self).device_count() as int,
                device_index as int,
                register,
                data,
            ) && final(self).cs_history() == old(self).cs_history() + cs_pulses(1),
            r matches Err(e) ==> e.is_bus_fault(),
    {
        let n = self.num_devices;
        let ghost frame = device_bytes(n as int, device_index as int, register, data);
        match self.cs.set_low() {
            Ok(()) => {},
            Err(e) => {
                return Err(Error::Pin(e));
            },
        }
        // skip the chips past the target (clocked first, they end up furthest)
        for i in device_index..n - 1
            invariant
                self.num_devices == n,
                n == old(self).device_count(),
                device_index <= i < n,
                frame == device_bytes(n as int, device_index as int, register, data),
                self.cs.pulses() == old(self).cs_history().push(true),
                spi.written() == old(spi).written() + frame.take(
                    2 * (i as int - device_index as int),
                ),
        {
            match self.shift_out(spi, 0x00) {
                Ok(()) => {},
                Err(e) => {
                    return Err(self.abandon(e));
                },
            }
            match self.shift_out(spi, 0x00) {
                Ok(()) => {},
                Err(e) => {
                    return Err(self.abandon(e));
                },
            }
            proof {
                let p = i as int - device_index as int;
                lemma_device_bytes_take_step(
                    n as int,
                    device_index as int,
                    register,
                    data,
                    p,
                );
                let w0 = old(spi).written();
                assert(w0 + frame.take(2 * p).push(0u8).push(0u8) =~= (w0 + frame.take(2 * p)).push(
                    0u8,
                ).push(0u8));
            }
        }
        // the real pair, landing in the target's shift-register slot
        match self.shift_out(spi, register) {
            Ok(()) => {},
            Err(e) => {
                return Err(self.abandon(e));
            },
        }
        match self.shift_out(spi, data) {
            Ok(()) => {},
            Err(e) => {
                return Err(self.abandon(e));
            },
        }
        proof {
            let p = n as int - 1 - device_index as int;
            lemma_device_bytes_take_step(n as int, device_index as int, register, data, p);
            let w0 = old(spi).written();
            assert(w0 + frame.take(2 * p).push(register).push(data) =~= (w0 + frame.take(
                2 * p,
            )).push(register).push(data));
        }
        // skip the chips before the target
        for i in 0..device_index
            invariant
                self.num_devices == n,
                n == old(self).device_count(),
                device_index < n,
                i <= device_index,
                frame == device_bytes(n as int, device_index as int, register, data),
                self.cs.pulses() == old(self).cs_history().push(true),
                spi.written() == old(spi).written() + frame.take(
                    2 * (n as int - device_index as int + i as int),
                ),
        {
            match self.shift_out(spi, 0x00) {
                Ok(()) => {},
                Err(e) => {
                    return Err(self.abandon(e));
                },
            }
            match self.shift_out(spi, 0x00) {
                Ok(()) => {},
                Err(e) => {
                    return Err(self.abandon(e));
                },
            }
            proof {
                let p = n as int - device_index as int + i as int;
                lemma_device_bytes_take_step(
                    n as int,
                    device_index as int,
                    register,
                    data,
                    p,
                );
                let w0 = old(spi).written();
                assert(w0 + frame.take(2 * p).push(0u8).push(0u8) =~= (w0 + frame.take(2 * p)).push(
                    0u8,
                ).push(0u8));
            }
        }
        match self.cs.set_high() {
            Ok(()) => {},
            Err(e) => {
                return Err(Error::Pin(e));
            },
        }
        proof {
            lemma_cs_one_pulse(old(self).cs_history());
            assert(frame.take(2 * n as int) =~= frame);
        }
        Ok(())
    }

    /// One row byte of the composed text: the glyph at `string_index`,
    /// shifted by `shift_by_num_bits` pixels within its module and blended
    /// with the neighbouring glyph's pixels that slide into the vacated
    /// columns. `string_index` may be one past the end of the text so that
    /// the last character's trailing remainder still renders; every
    /// out-of-range neighbour contributes the blank sentinel glyph.
    pub fn get_byte_at(
        &mut self,
        string: &[u8],
        string_index: usize,
        line_index: usize,
        shift_by_num_bits: i8,
    ) -> (b: u8)
        requires
            line_index < 8,
            -8 < shift_by_num_bits < 8,
            string_index <= string@.len(),
            string@.len() < usize::MAX,
        ensures
            *final(self) == *old(self),
            b == blend_byte(
                glyph_at(string@, string_index - 1, line_index as int),
                glyph_at(string@, string_index as int, line_index as int),
                glyph_at(string@, string_index + 1, line_index as int),
                shift_by_num_bits as int,
            ),
    {
        let row = line_index as u8;
        let len = string.len();
        let left = if string_index >= 1 {
            glyph_row(string[string_index - 1], row)
        } else {
            glyph_row(0x00, row)
        };
        let middle = if string_index < len {
            glyph_row(string[string_index], row)
        } else {
            glyph_row(0x00, row)
        };
        let right = if string_index + 1 < len {
            glyph_row(string[string_index + 1], row)
        } else {
            glyph_row(0x00, row)
        };
        proof {
            lemma_blank_glyph(line_index as int);
        }
        if shift_by_num_bits == 0 {
            middle
        } else if shift_by_num_bits < 0 {
            // shift toward lower pixel index, pulling in the next character
            let k = (-shift_by_num_bits) as u8;
            (middle >> k) | (right << (8 - k))
        } else {
            // shift toward higher pixel index, pulling in the previous one
            let k = shift_by_num_bits as u8;
            (middle << k) | (left >> (8 - k))
        }
    }

    /// Render `s` with the left pixel edge of its first character at
    /// horizontal pixel `x_pos`, where pixel 0 is the left edge of module 0.
    /// The offset may be negative or arbitrarily large; whatever falls
    /// outside the chain renders as nothing. One transaction per row, eight
    /// in all, each carrying the blended byte of every module.
    pub fn write_str_at_pos<S: SpiTransfer>(
        &mut self,
        spi: &mut S,
        s: &str,
        x_pos: i32,
    ) -> (r: Result<(), Error<S::Fault, CS::Fault>>)
        requires
            old(self).device_count() <= 0x7FFF_FFFF,
            s.spec_bytes().len() <= 0x7FFF_FFFF,
        ensures
            final(self).device_count() == old(self).device_count(),
            r is Ok ==> final(spi).written() == old(spi).written() + text_bytes(
                s.spec_bytes(),
                x_pos as int,
                old(self).device_count() as int,
            ) && final(self).cs_history() == old(self).cs_history() + cs_pulses(8),
            r matches Err(e) ==> e.is_bus_fault(),
    {
        let string = s.as_bytes();
        let qr = floor_divmod8(x_pos);
        let start_string_index = qr.0;
        let shift_by_bits = qr.1;
        let n = self.num_devices;
        let ghost text = string@;
        for line_index in 0..8u8
            invariant
                self.num_devices == n,
                n == old(self).device_count(),
                n <= 0x7FFF_FFFF,
                text == s.spec_bytes(),
                string@ == text,
                text.len() <= 0x7FFF_FFFF,
                start_string_index as int == (x_pos as int) / 8,
                shift_by_bits as int == (x_pos as int) % 8,
                spi.written() == old(spi).written() + text_bytes_upto(
                    text,
                    x_pos as int,
                    n as int,
                    line_index as int,
                ),
                self.cs.pulses() == old(self).cs_history() + cs_pulses(line_index as int),
        {
            match self.cs.set_low() {
                Ok(()) => {},
                Err(e) => {
                    return Err(Error::Pin(e));
                },
            }
            let register = line_index + 1;
            for chip_index in 0..n
                invariant
                    self.num_devices == n,
                    n == old(self).device_count(),
                    n <= 0x7FFF_FFFF,
                    text == s.spec_bytes(),
                    string@ == text,
                    text.len() <= 0x7FFF_FFFF,
                    start_string_index as int == (x_pos as int) / 8,
                    shift_by_bits as int == (x_pos as int) % 8,
                    line_index < 8,
                    register == line_index + 1,
                    spi.written() == old(spi).written() + text_bytes_upto(
                        text,
                        x_pos as int,
                        n as int,
                        line_index as int,
                    ) + line_bytes(
                        register,
                        text_row_payload(text, x_pos as int, n as int, line_index as int).take(
                            chip_index as int,
                        ),
                    ),
                    self.cs.pulses() == (old(self).cs_history() + cs_pulses(
                        line_index as int,
                    )).push(true),
            {
                match self.shift_out(spi, register) {
                    Ok(()) => {},
                    Err(e) => {
                        return Err(self.abandon(e));
                    },
                }
                // the chain is clocked furthest module first, so bus slot 0
                // shows the last character still on the chain
                let string_index = n as i64 - 1 - chip_index as i64 - start_string_index as i64;
                let val: u8;
                if string_index >= 0 && string_index <= string.len() as i64 {
                    // a character may straddle two modules, so the byte
                    // blends this glyph with its neighbour
                    val = self.get_byte_at(
                        string,
                        string_index as usize,
                        line_index as usize,
                        shift_by_bits as i8,
                    );
                } else {
                    val = 0x00;
                }
                match self.shift_out(spi, val) {
                    Ok(()) => {},
                    Err(e) => {
                        return Err(self.abandon(e));
                    },
                }
                proof {
                    let x = x_pos as int;
                    let pay = text_row_payload(text, x, n as int, line_index as int);
                    assert(val == module_byte(text, x, n as int, chip_index as int,
                    line_index as int));
                    assert(line_bytes(register, pay.take(chip_index + 1)) =~= line_bytes(
                        register,
                        pay.take(chip_index as int),
                    ).push(register).push(val));
                    let w0 = old(spi).written() + text_bytes_upto(
                        text,
                        x,
                        n as int,
                        line_index as int,
                    );
                    assert(w0 + line_bytes(register, pay.take(chip_index as int)).push(
                        register,
                    ).push(val) =~= (w0 + line_bytes(register, pay.take(chip_index as int))).push(
                        register,
                    ).push(val));
                }
            }
            match self.cs.set_high() {
                Ok(()) => {},
                Err(e) => {
                    return Err(Error::Pin(e));
                },
            }
            proof {
                let x = x_pos as int;
                let pay = text_row_payload(text, x, n as int, line_index as int);
                assert(pay.take(n as int) =~= pay);
                assert(text_bytes_upto(text, x, n as int, line_index as int + 1)
                    == text_bytes_upto(text, x, n as int, line_index as int) + line_bytes(
                    register,
                    pay,
                ));
                let w0 = old(spi).written();
                assert(w0 + (text_bytes_upto(text, x, n as int, line_index as int) + line_bytes(
                    register,
                    pay,
                )) =~= (w0 + text_bytes_upto(text, x, n as int, line_index as int)) + line_bytes(
                    register,
                    pay,
                ));
                let c0 = old(self).cs_history();
                assert(cs_pulses(line_index as int + 1) == cs_pulses(line_index as int) + seq![
                    true,
                    false,
                ]);
                assert(c0 + (cs_pulses(line_index as int) + seq![true, false]) =~= ((c0
                    + cs_pulses(line_index as int)).push(true)).push(false));
            }
        }
        Ok(())
    }
}

/// Split a pixel offset into its whole-character shift (flooring, so that
/// negative offsets round away from zero) and its bit shift in `0..8`.
fn floor_divmod8(x: i32) -> (qr: (i32, u8))
    ensures
        qr.0 as int == (x as int) / 8,
        qr.1 as int == (x as int) % 8,
{
    if x >= 0 {
        let xu = x as u32;
        ((xu / 8) as i32, (xu % 8) as u8)
    } else {
        let m = (-(x as i64)) as u64;
        let q = m / 8;
        let rm = m % 8;
        if rm == 0 {
            proof {
                lemma_fundamental_div_mod_converse(x as int, 8, -(q as int), 0);
            }
            ((-(q as i64)) as i32, 0)
        } else {
            proof {
                lemma_fundamental_div_mod_converse(
                    x as int,
                    8,
                    -(q as int) - 1,
                    8 - rm as int,
                );
            }
            ((-(q as i64) - 1) as i32, (8 - rm) as u8)
        }
    }
}

proof fn lemma_cs_one_pulse(history: Seq<bool>)
    ensures
        history + cs_pulses(1) =~= history.push(true).push(false),
{
    assert(cs_pulses(0) =~= Seq::<bool>::empty());
}

} // verus!
