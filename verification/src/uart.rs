//! Register-level configuration protocol of the serial peripheral.
//!
//! The driver's decisions — which divisor values, line-control bits,
//! enable bits and interrupt masks to program — are pure functions of the
//! peripheral clock, so they are modelled and verified here over a plain
//! register file: [`UartRegisters`] holds the values the protocol writes.
//! The surrounding firmware copies the configured model into the memory-
//! mapped registers, holds the peripheral in reset beforehand, and unmasks
//! the receive line at the global interrupt controller afterwards; none of
//! that changes a computed value.
//!
//! The baud-rate divisor follows the peripheral's documented formula
//! bit-exactly: a 16-bit integer part by `floor`, and a 6-bit fractional
//! part scaled by 64 and rounded half-up.

use vstd::prelude::*;

verus! {

/// Fixed target baud rate of the console.
pub const UART_BAUD_RATE: u32 = 115200;

/// The clock ticks per baud-divisor unit: 16 times the baud rate.
pub const BAUD_DIVISOR_UNIT: u32 = 16 * UART_BAUD_RATE;

/// Line-control register: parity enable, bit 1.
pub const LCR_H_PEN: u32 = 0x2;

/// Line-control register: two-stop-bits select, bit 3.
pub const LCR_H_STP2: u32 = 0x8;

/// Line-control register: FIFO enable, bit 4.
pub const LCR_H_FEN: u32 = 0x10;

/// Line-control register: word-length field, bits 6:5.
pub const LCR_H_WLEN_MASK: u32 = 0x60;

/// Shift of the word-length field inside the line-control register.
pub const LCR_H_WLEN_SHIFT: u32 = 5;

/// Control register: peripheral enable, bit 0.
pub const CR_UARTEN: u32 = 0x1;

/// Control register: transmit enable, bit 8.
pub const CR_TXE: u32 = 0x100;

/// Control register: receive enable, bit 9.
pub const CR_RXE: u32 = 0x200;

/// Hardware reset value of the control register: transmit and receive
/// enable set, peripheral enable clear.
pub const CR_RESET_VALUE: u32 = 0x300;

/// Interrupt-mask register: receive interrupt, bit 4.
pub const IMSC_RXIM: u32 = 0x10;

/// Interrupt-mask register: receive-timeout interrupt, bit 6.
pub const IMSC_RTIM: u32 = 0x40;

/// Value written to the interrupt-clear register to clear every pending
/// interrupt flag.
pub const ICR_CLEAR_ALL: u32 = 0xFFFF;

/// Integer part of the baud-rate divisor: `floor(clock_hz / (16 * baud))`.
pub open spec fn baud_divisor_integer(clock_hz: int) -> int {
    clock_hz / (BAUD_DIVISOR_UNIT as int)
}

/// Fractional part of the baud-rate divisor: the remainder scaled to the
/// 6-bit field and rounded half-up, `round(64 * fraction + 1/2)` written
/// with integers as `floor((128 * remainder + unit) / (2 * unit))`.
pub open spec fn baud_divisor_fraction(clock_hz: int) -> int {
    (128 * (clock_hz % (BAUD_DIVISOR_UNIT as int)) + (BAUD_DIVISOR_UNIT as int)) / (2
        * (BAUD_DIVISOR_UNIT as int))
}

/// The values the configuration protocol programs into the peripheral's
/// registers. `uarticr` is write-only in hardware (writing a bit clears
/// the matching pending-interrupt flag); the model records the value last
/// written to it.
#[derive(Debug, Clone, Copy, PartialEq, Eq, Structural)]
pub struct UartRegisters {
    /// Integer baud-rate divisor register.
    pub uartibrd: u32,
    /// Fractional baud-rate divisor register.
    pub uartfbrd: u32,
    /// Line-control register: word length, FIFO enable, stop bits, parity.
    pub uartlcr_h: u32,
    /// Control register: peripheral, transmit and receive enables.
    pub uartcr: u32,
    /// Interrupt-mask register.
    pub uartimsc: u32,
    /// Interrupt-clear register (value last written).
    pub uarticr: u32,
}

/// Word-length settings of the line-control register.
#[derive(Clone, Copy, PartialEq, Eq, Structural)]
pub enum UartWordLength {
    Five,
    Six,
    Seven,
    Eight,
}

/// Encoding of a word length in the two-bit field of the line-control
/// register.
pub open spec fn word_length_bits(word_length: UartWordLength) -> u32 {
    match word_length {
        UartWordLength::Five => 0x0,
        UartWordLength::Six => 0x1,
        UartWordLength::Seven => 0x2,
        UartWordLength::Eight => 0x3,
    }
}

/// The register file a finished construction protocol leaves behind:
/// divisors for the given clock, 8-bit words with FIFOs enabled and no
/// parity and one stop bit, peripheral and both data paths enabled,
/// receive and receive-timeout interrupts unmasked, every pending flag
/// cleared.
pub open spec fn configured_registers(clock_hz: int) -> UartRegisters {
    UartRegisters {
        uartibrd: baud_divisor_integer(clock_hz) as u32,
        uartfbrd: baud_divisor_fraction(clock_hz) as u32,
        uartlcr_h: LCR_H_WLEN_MASK | LCR_H_FEN,
        uartcr: CR_RESET_VALUE | CR_UARTEN | CR_TXE | CR_RXE,
        uartimsc: IMSC_RXIM | IMSC_RTIM,
        uarticr: ICR_CLEAR_ALL,
    }
}

/// Computes the baud-rate divisor pair `(integer, fraction)` for the given
/// peripheral clock.
pub fn baud_rate_divisors(clock_hz: u32) -> (r: (u32, u32))
    ensures
        r.0 == baud_divisor_integer(clock_hz as int),
        r.1 == baud_divisor_fraction(clock_hz as int),
{
    let integer_part: u32 = clock_hz / BAUD_DIVISOR_UNIT;
    let remainder: u32 = clock_hz % BAUD_DIVISOR_UNIT;
    let fraction_bits: u32 = (128 * remainder + BAUD_DIVISOR_UNIT) / (2 * BAUD_DIVISOR_UNIT);
    (integer_part, fraction_bits)
}

/// Software model of the serial peripheral's configuration: the clock it
/// is driven by and the register file the protocol writes.
pub struct Uart {
    peripheral_clock_freq: u32,
    registers: UartRegisters,
}

impl Uart {
    /// The peripheral clock frequency the driver was built for.
    pub closed spec fn clock_freq(&self) -> u32 {
        self.peripheral_clock_freq
    }

    /// The register file the protocol has written so far.
    pub closed spec fn regs(&self) -> UartRegisters {
        self.registers
    }

    /// Runs the construction protocol on a peripheral fresh out of reset:
    /// disable it, program the baud divisors, configure the line
    /// parameters, enable it, and unmask the receive interrupts.
    pub fn new(peripheral_clock_freq: u32) -> (uart: Uart)
        ensures
            uart.clock_freq() == peripheral_clock_freq,
            uart.regs() == configured_registers(peripheral_clock_freq as int),
    {
        let mut uart = Uart {
            peripheral_clock_freq,
            registers: UartRegisters {
                uartibrd: 0,
                uartfbrd: 0,
                uartlcr_h: 0,
                uartcr: CR_RESET_VALUE,
                uartimsc: 0,
                uarticr: 0,
            },
        };
        uart.set_peripheral_enable(false);
        uart.config_baud_rate();
        uart.config_parameters();
        uart.set_peripheral_enable(true);
        uart.config_interrupts();
        proof {
            lemma_configured_register_values();
        }
        uart
    }

    /// Programs the baud-rate divisor registers for the stored clock. The
    /// line-control register is rewritten with its own value afterwards: a
    /// documented quirk of the peripheral, the divisors only take effect on
    /// a line-control write.
    pub fn config_baud_rate(&mut self)
        ensures
            final(self).regs() == (UartRegisters {
                uartibrd: baud_divisor_integer(old(self).clock_freq() as int) as u32,
                uartfbrd: baud_divisor_fraction(old(self).clock_freq() as int) as u32,
                ..old(self).regs()
            }),
            final(self).clock_freq() == old(self).clock_freq(),
    {
        let (integer_part, fraction_bits) = baud_rate_divisors(self.peripheral_clock_freq);
        self.registers.uartibrd = integer_part;
        self.registers.uartfbrd = fraction_bits;
        proof {
            lemma_baud_divisors_fit(self.peripheral_clock_freq);
        }
        // Dummy rewrite of the line-control register so the divisors take
        // effect; it must not be optimised away when copied to hardware.
        let lcr = self.registers.uartlcr_h;
        self.registers.uartlcr_h = lcr;
    }

    /// Sets or clears the FIFO-enable bit of the line-control register.
    pub fn set_fifo_enable(&mut self, enable: bool)
        ensures
            final(self).regs() == (UartRegisters {
                uartlcr_h: if enable {
                    old(self).regs().uartlcr_h | LCR_H_FEN
                } else {
                    old(self).regs().uartlcr_h & !LCR_H_FEN
                },
                ..old(self).regs()
            }),
            final(self).clock_freq() == old(self).clock_freq(),
    {
        if enable {
            self.registers.uartlcr_h = self.registers.uartlcr_h | LCR_H_FEN;
        } else {
            self.registers.uartlcr_h = self.registers.uartlcr_h & !LCR_H_FEN;
        }
    }

    /// Sets or clears the two-stop-bits bit of the line-control register.
    pub fn use_two_stop_bits(&mut self, use_two_stop_bits: bool)
        ensures
            final(self).regs() == (UartRegisters {
                uartlcr_h: if use_two_stop_bits {
                    old(self).regs().uartlcr_h | LCR_H_STP2
                } else {
                    old(self).regs().uartlcr_h & !LCR_H_STP2
                },
                ..old(self).regs()
            }),
            final(self).clock_freq() == old(self).clock_freq(),
    {
        if use_two_stop_bits {
            self.registers.uartlcr_h = self.registers.uartlcr_h | LCR_H_STP2;
        } else {
            self.registers.uartlcr_h = self.registers.uartlcr_h & !LCR_H_STP2;
        }
    }

    /// Sets or clears the parity-enable bit of the line-control register.
    pub fn set_parity(&mut self, parity: bool)
        ensures
            final(self).regs() == (UartRegisters {
                uartlcr_h: if parity {
                    old(self).regs().uartlcr_h | LCR_H_PEN
                } else {
                    old(self).regs().uartlcr_h & !LCR_H_PEN
                },
                ..old(self).regs()
            }),
            final(self).clock_freq() == old(self).clock_freq(),
    {
        if parity {
            self.registers.uartlcr_h = self.registers.uartlcr_h | LCR_H_PEN;
        } else {
            self.registers.uartlcr_h = self.registers.uartlcr_h & !LCR_H_PEN;
        }
    }

    /// Writes the word-length field of the line-control register.
    pub fn config_word_length(&mut self, word_length: UartWordLength)
        ensures
            final(self).regs() == (UartRegisters {
                uartlcr_h: (old(self).regs().uartlcr_h & !LCR_H_WLEN_MASK) | (word_length_bits(
                    word_length,
                ) << LCR_H_WLEN_SHIFT),
                ..old(self).regs()
            }),
            final(self).clock_freq() == old(self).clock_freq(),
    {
        let bits: u32 = match word_length {
            UartWordLength::Five => 0x0,
            UartWordLength::Six => 0x1,
            UartWordLength::Seven => 0x2,
            UartWordLength::Eight => 0x3,
        };
        self.registers.uartlcr_h = (self.registers.uartlcr_h & !LCR_H_WLEN_MASK) | (bits
            << LCR_H_WLEN_SHIFT);
    }

    /// Configures the line parameters of the console: 8-bit words, FIFOs
    /// enabled, one stop bit, no parity.
    pub fn config_parameters(&mut self)
        ensures
            final(self).regs() == (UartRegisters {
                uartlcr_h: ((((old(self).regs().uartlcr_h & !LCR_H_WLEN_MASK) | (word_length_bits(
                    UartWordLength::Eight,
                ) << LCR_H_WLEN_SHIFT)) | LCR_H_FEN) & !LCR_H_STP2) & !LCR_H_PEN,
                ..old(self).regs()
            }),
            final(self).clock_freq() == old(self).clock_freq(),
    {
        self.config_word_length(UartWordLength::Eight);
        self.set_fifo_enable(true);
        self.use_two_stop_bits(false);
        self.set_parity(false);
    }

    /// Clears every pending interrupt flag, then unmasks the receive and
    /// receive-timeout interrupts at the peripheral. Unmasking the receive
    /// line at the global interrupt controller is the surrounding
    /// firmware's step.
    pub fn config_interrupts(&mut self)
        ensures
            final(self).regs() == (UartRegisters {
                uarticr: ICR_CLEAR_ALL,
                uartimsc: (old(self).regs().uartimsc | IMSC_RXIM) | IMSC_RTIM,
                ..old(self).regs()
            }),
            final(self).clock_freq() == old(self).clock_freq(),
    {
        self.registers.uarticr = ICR_CLEAR_ALL;
        self.registers.uartimsc = self.registers.uartimsc | IMSC_RXIM;
        self.registers.uartimsc = self.registers.uartimsc | IMSC_RTIM;
    }

    /// Enables or disables the peripheral together with its transmit and
    /// receive paths. The hardware write replaces the whole register, so
    /// the result starts from the register's reset value.
    pub fn set_peripheral_enable(&mut self, enable: bool)
        ensures
            final(self).regs() == (UartRegisters {
                uartcr: if enable {
                    CR_RESET_VALUE | CR_UARTEN | CR_TXE | CR_RXE
                } else {
                    CR_RESET_VALUE & !(CR_UARTEN | CR_TXE | CR_RXE)
                },
                ..old(self).regs()
            }),
            final(self).clock_freq() == old(self).clock_freq(),
    {
        if enable {
            self.registers.uartcr = CR_RESET_VALUE | CR_UARTEN | CR_TXE | CR_RXE;
        } else {
            self.registers.uartcr = CR_RESET_VALUE & !(CR_UARTEN | CR_TXE | CR_RXE);
        }
    }

    /// The register file as a value, for inspection.
    pub fn registers(&self) -> (r: UartRegisters)
        ensures
            r == self.regs(),
    {
        self.registers
    }
}

/// The divisor pair fits its registers: with a 32-bit clock the integer
/// part fits the 16-bit divisor field and the fraction is at most 64.
pub proof fn lemma_baud_divisors_fit(clock_hz: u32)
    ensures
        0 <= baud_divisor_integer(clock_hz as int) < 0x10000,
        0 <= baud_divisor_fraction(clock_hz as int) <= 64,
{
    let unit = BAUD_DIVISOR_UNIT as int;
    let c = clock_hz as int;
    assert(c / unit < 0x10000) by (nonlinear_arith)
        requires
            0 <= c <= u32::MAX,
            unit == 1843200,
    ;
    assert(c / unit >= 0) by (nonlinear_arith)
        requires
            c >= 0,
            unit == 1843200,
    ;
    assert(0 <= c % unit < unit) by (nonlinear_arith)
        requires
            c >= 0,
            unit == 1843200,
    ;
    assert((128 * (c % unit) + unit) / (2 * unit) <= 64) by (nonlinear_arith)
        requires
            0 <= c % unit < unit,
            unit == 1843200,
    ;
    assert((128 * (c % unit) + unit) / (2 * unit) >= 0) by (nonlinear_arith)
        requires
            0 <= c % unit,
            unit == 1843200,
    ;
}

proof fn lemma_configured_register_values()
    ensures
        ((((0u32 & !LCR_H_WLEN_MASK) | (0x3u32 << LCR_H_WLEN_SHIFT)) | LCR_H_FEN) & !LCR_H_STP2)
            & !LCR_H_PEN == LCR_H_WLEN_MASK | LCR_H_FEN,
        (0u32 | IMSC_RXIM) | IMSC_RTIM == IMSC_RXIM | IMSC_RTIM,
{
    assert(((((0u32 & !0x60u32) | (0x3u32 << 5u32)) | 0x10u32) & !0x8u32) & !0x2u32 == 0x60u32
        | 0x10u32) by (bit_vector);
    assert((0u32 | 0x10u32) | 0x40u32 == 0x10u32 | 0x40u32) by (bit_vector);
}

} // verus!
