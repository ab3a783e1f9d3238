use pico_shell::uart::Uart;
use pico_shell::uart::UartRegisters;
use pico_shell::uart::UartWordLength;
use pico_shell::uart::baud_rate_divisors;

#[test]
fn baud_divisors_for_125_mhz() {
    // 125 MHz / (16 * 115200) = 67.817...: integer part 67 by floor,
    // fraction 0.817... * 64 + 0.5 = 52.8: fractional part 52.
    let (integer_part, fraction_bits) = baud_rate_divisors(125_000_000);
    assert_eq!((integer_part, fraction_bits), (67, 52));
}

#[test]
fn baud_divisors_for_48_mhz() {
    // 48 MHz / (16 * 115200) = 26.0416...: fraction 0.0416 * 64 + 0.5 = 3.16.
    assert_eq!(baud_rate_divisors(48_000_000), (26, 3));
}

#[test]
fn baud_divisors_for_exact_multiple() {
    // An exact divisor: remainder 0 scales to 0.5, which rounds down to 0.
    assert_eq!(baud_rate_divisors(16 * 115200 * 3), (3, 0));
}

#[test]
fn construction_protocol_configures_registers() {
    let uart = Uart::new(125_000_000);
    let expected = UartRegisters {
        uartibrd: 67,
        uartfbrd: 52,
        // 8-bit words (0b11 << 5) with FIFOs enabled (bit 4), no parity,
        // one stop bit.
        uartlcr_h: 0x70,
        // Peripheral, transmit and receive enables on top of the reset value.
        uartcr: 0x301,
        // Receive (bit 4) and receive-timeout (bit 6) interrupts unmasked.
        uartimsc: 0x50,
        // Every pending interrupt flag cleared.
        uarticr: 0xFFFF,
    };
    assert_eq!(uart.registers(), expected);
}

#[test]
fn parity_and_stop_bits_toggle_their_own_bits() {
    let mut uart = Uart::new(125_000_000);
    uart.set_parity(true);
    assert_eq!(uart.registers().uartlcr_h, 0x72);
    uart.use_two_stop_bits(true);
    assert_eq!(uart.registers().uartlcr_h, 0x7A);
    uart.set_fifo_enable(false);
    assert_eq!(uart.registers().uartlcr_h, 0x6A);
    uart.set_parity(false);
    uart.use_two_stop_bits(false);
    uart.set_fifo_enable(true);
    assert_eq!(uart.registers().uartlcr_h, 0x70);
}

#[test]
fn word_length_writes_the_two_bit_field() {
    let mut uart = Uart::new(125_000_000);
    uart.config_word_length(UartWordLength::Five);
    assert_eq!(uart.registers().uartlcr_h, 0x10);
    uart.config_word_length(UartWordLength::Seven);
    assert_eq!(uart.registers().uartlcr_h, 0x50);
    uart.config_word_length(UartWordLength::Eight);
    assert_eq!(uart.registers().uartlcr_h, 0x70);
}

#[test]
fn disabling_the_peripheral_clears_the_enables() {
    let mut uart = Uart::new(125_000_000);
    uart.set_peripheral_enable(false);
    assert_eq!(uart.registers().uartcr, 0);
    uart.set_peripheral_enable(true);
    assert_eq!(uart.registers().uartcr, 0x301);
}
