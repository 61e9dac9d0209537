use vstd::prelude::*;
use crate::pins::{
    BoardLine, Control, Pin, PinState, Port, final_control, lemma_final_control_in_state,
    line_pin, primary_function_steps, state_after,
};

verus! {

/// The pins handed to the GPIO driver, in the order of their GPIO numbers:
/// LED0, P2 to P8, the nRF51822 interrupt, and the RF233 sleep, reset and
/// interrupt lines.
pub open spec fn gpio_driver_pins() -> Seq<Pin> {
    seq![
        Pin { port: Port::C, number: 10 },
        Pin { port: Port::A, number: 16 },
        Pin { port: Port::A, number: 12 },
        Pin { port: Port::C, number: 9 },
        Pin { port: Port::A, number: 10 },
        Pin { port: Port::A, number: 11 },
        Pin { port: Port::A, number: 19 },
        Pin { port: Port::A, number: 13 },
        Pin { port: Port::A, number: 17 },
        Pin { port: Port::C, number: 14 },
        Pin { port: Port::C, number: 15 },
        Pin { port: Port::A, number: 20 },
    ]
}

/// The pins of the GPIO driver; the driver's pin `i` is the `i`-th of them.
pub fn gpio_pins() -> (pins: [Pin; 12])
    ensures
        pins@ == gpio_driver_pins(),
{
    [
        Pin { port: Port::C, number: 10 },
        Pin { port: Port::A, number: 16 },
        Pin { port: Port::A, number: 12 },
        Pin { port: Port::C, number: 9 },
        Pin { port: Port::A, number: 10 },
        Pin { port: Port::A, number: 11 },
        Pin { port: Port::A, number: 19 },
        Pin { port: Port::A, number: 13 },
        Pin { port: Port::A, number: 17 },
        Pin { port: Port::C, number: 14 },
        Pin { port: Port::C, number: 15 },
        Pin { port: Port::A, number: 20 },
    ]
}

/// The board lines of the GPIO driver's pins, in the order of their GPIO
/// numbers.
pub open spec fn gpio_driver_lines() -> Seq<BoardLine> {
    seq![
        BoardLine::Led0,
        BoardLine::P2,
        BoardLine::P3,
        BoardLine::P4,
        BoardLine::P5,
        BoardLine::P6,
        BoardLine::P7,
        BoardLine::P8,
        BoardLine::StormInt,
        BoardLine::RfSleep,
        BoardLine::RfReset,
        BoardLine::RfIrq,
    ]
}

/// GPIO number `i` of the GPIO driver is the pin wired to the `i`-th of the
/// driver's board lines: LED0, header pins P2 to P8, the nRF51822 interrupt,
/// and the RF233 sleep, reset and interrupt lines.
pub proof fn lemma_gpio_pins_wiring()
    ensures
        gpio_driver_pins().len() == gpio_driver_lines().len(),
        forall|i: int|
            0 <= i < gpio_driver_pins().len() ==> #[trigger] gpio_driver_pins()[i] == line_pin(
                gpio_driver_lines()[i],
            ),
{
}

/// The kinds of chips on the board's first I2C bus.
#[derive(Clone, Copy, Debug, PartialEq, Eq, Structural)]
pub enum I2cChip {
    /// MCP23008 GPIO extender.
    GpioExtender,
    /// PCA9544A I2C selector.
    I2cSelector,
    /// LTC2941 coulomb counter.
    CoulombCounter,
}

/// A device on the first I2C bus: which chip, at which 7-bit address.
#[derive(Clone, Copy, Debug, PartialEq, Eq, Structural)]
pub struct I2cDevice {
    pub chip: I2cChip,
    pub address: u8,
}

/// The devices set up on the first I2C bus, in order: the GPIO extenders in
/// the order of the asynchronous GPIO ports, the two I2C selectors, and the
/// coulomb counter.
pub open spec fn i2c_bus1_devices() -> Seq<I2cDevice> {
    seq![
        I2cDevice { chip: I2cChip::GpioExtender, address: 0x20 },
        I2cDevice { chip: I2cChip::GpioExtender, address: 0x21 },
        I2cDevice { chip: I2cChip::GpioExtender, address: 0x22 },
        I2cDevice { chip: I2cChip::GpioExtender, address: 0x25 },
        I2cDevice { chip: I2cChip::GpioExtender, address: 0x26 },
        I2cDevice { chip: I2cChip::GpioExtender, address: 0x27 },
        I2cDevice { chip: I2cChip::I2cSelector, address: 0x70 },
        I2cDevice { chip: I2cChip::I2cSelector, address: 0x71 },
        I2cDevice { chip: I2cChip::CoulombCounter, address: 0x64 },
    ]
}

/// The devices of the first I2C bus.
pub fn i2c_bus1() -> (devices: [I2cDevice; 9])
    ensures
        devices@ == i2c_bus1_devices(),
{
    [
        I2cDevice { chip: I2cChip::GpioExtender, address: 0x20 },
        I2cDevice { chip: I2cChip::GpioExtender, address: 0x21 },
        I2cDevice { chip: I2cChip::GpioExtender, address: 0x22 },
        I2cDevice { chip: I2cChip::GpioExtender, address: 0x25 },
        I2cDevice { chip: I2cChip::GpioExtender, address: 0x26 },
        I2cDevice { chip: I2cChip::GpioExtender, address: 0x27 },
        I2cDevice { chip: I2cChip::I2cSelector, address: 0x70 },
        I2cDevice { chip: I2cChip::I2cSelector, address: 0x71 },
        I2cDevice { chip: I2cChip::CoulombCounter, address: 0x64 },
    ]
}

/// The fixed part of each chip's I2C address; the chip's address pins set
/// the low bits.
pub open spec fn chip_base_address(chip: I2cChip) -> u8 {
    match chip {
        I2cChip::GpioExtender => 0x20,
        I2cChip::I2cSelector => 0x70,
        I2cChip::CoulombCounter => 0x64,
    }
}

/// The address-pin setting of the GPIO extender of asynchronous GPIO port `k`:
/// the extenders with settings 3 and 4 are not fitted.
pub open spec fn extender_strap(k: int) -> int {
    if k < 3 {
        k
    } else {
        k + 2
    }
}

/// The first I2C bus holds, in order, the six GPIO extenders of the
/// asynchronous GPIO ports at address settings 0, 1, 2, 5, 6 and 7, the two
/// I2C selectors at settings 0 and 1, and the coulomb counter at its fixed
/// address.
pub proof fn lemma_i2c_bus1_wiring()
    ensures
        i2c_bus1_devices().len() == 9,
        forall|k: int|
            0 <= k < 6 ==> (#[trigger] i2c_bus1_devices()[k]).chip == I2cChip::GpioExtender
                && i2c_bus1_devices()[k].address == chip_base_address(I2cChip::GpioExtender)
                + extender_strap(k),
        forall|j: int|
            0 <= j < 2 ==> (#[trigger] i2c_bus1_devices()[6 + j]).chip == I2cChip::I2cSelector
                && i2c_bus1_devices()[6 + j].address == chip_base_address(I2cChip::I2cSelector)
                + j,
        i2c_bus1_devices()[8].chip == I2cChip::CoulombCounter,
        i2c_bus1_devices()[8].address == chip_base_address(I2cChip::CoulombCounter),
{
}

/// Parity of a UART.
#[derive(Clone, Copy, Debug, PartialEq, Eq, Structural)]
pub enum Parity {
    Even,
    Odd,
    NoParity,
}

/// Flow-control mode of a UART.
#[derive(Clone, Copy, Debug, PartialEq, Eq, Structural)]
pub enum UartMode {
    Normal,
    FlowControl,
}

/// Settings of a USART.
#[derive(Clone, Copy, Debug, PartialEq, Eq, Structural)]
pub struct UsartParams {
    pub baud_rate: u32,
    pub data_bits: u8,
    pub parity: Parity,
    pub mode: UartMode,
}

/// Settings of USART3, the console.
pub open spec fn console_usart() -> UsartParams {
    UsartParams { baud_rate: 115200, data_bits: 8, parity: Parity::NoParity, mode: UartMode::Normal }
}

/// Settings of USART2, the link to the nRF51822.
pub open spec fn radio_usart() -> UsartParams {
    UsartParams {
        baud_rate: 250000,
        data_bits: 8,
        parity: Parity::Even,
        mode: UartMode::FlowControl,
    }
}

/// The console runs at 115200 baud, 8 data bits, no parity, without flow
/// control; the nRF51822 link at 250000 baud, 8 data bits, even parity, with
/// hardware flow control; the FRAM sits on SPI chip select 2.
pub proof fn lemma_serial_settings()
    ensures
        console_usart().baud_rate == 115200,
        console_usart().data_bits == 8,
        console_usart().parity == Parity::NoParity,
        console_usart().mode == UartMode::Normal,
        radio_usart().baud_rate == 250000,
        radio_usart().data_bits == 8,
        radio_usart().parity == Parity::Even,
        radio_usart().mode == UartMode::FlowControl,
        FRAM_CHIP_SELECT == 2,
{
}

/// Settings of USART3, the console.
pub fn console_usart_params() -> (p: UsartParams)
    ensures
        p == console_usart(),
{
    UsartParams { baud_rate: 115200, data_bits: 8, parity: Parity::NoParity, mode: UartMode::Normal }
}

/// Settings of USART2, the link to the nRF51822.
pub fn radio_usart_params() -> (p: UsartParams)
    ensures
        p == radio_usart(),
{
    UsartParams {
        baud_rate: 250000,
        data_bits: 8,
        parity: Parity::Even,
        mode: UartMode::FlowControl,
    }
}

/// SPI chip select of the FM25CL FRAM.
pub const FRAM_CHIP_SELECT: u8 = 2;

/// No two devices on the first I2C bus share an address, and every address
/// fits in seven bits.
pub proof fn lemma_i2c_addresses_distinct()
    ensures
        forall|i: int, j: int|
            0 <= i < j < i2c_bus1_devices().len() ==> #[trigger] i2c_bus1_devices()[i].address
                != #[trigger] i2c_bus1_devices()[j].address,
        forall|i: int|
            0 <= i < i2c_bus1_devices().len() ==> #[trigger] i2c_bus1_devices()[i].address < 0x80,
{
}

/// No pin is handed to the GPIO driver twice, and each is a valid SAM4L pin.
pub proof fn lemma_gpio_pins_distinct()
    ensures
        forall|i: int, j: int|
            0 <= i < j < gpio_driver_pins().len() ==> #[trigger] gpio_driver_pins()[i]
                != #[trigger] gpio_driver_pins()[j],
        forall|i: int|
            0 <= i < gpio_driver_pins().len() ==> #[trigger] gpio_driver_pins()[i].number < 32,
{
}

/// Evaluates the control the reset configuration leaves `pin` under.
#[verifier::rlimit(100)]
#[verifier::spinoff_prover]
proof fn lemma_reset_control_of(pin: Pin)
    requires
        gpio_driver_pins().contains(pin),
    ensures
        final_control(primary_function_steps(), pin) == Some(Control::Gpio),
{
    reveal_with_fuel(crate::pins::control_after, 85);
}

/// The pin setup at reset leaves every pin of the GPIO driver under the
/// control of the GPIO controller rather than of a peripheral function,
/// whatever configuration the pin had before.
pub proof fn lemma_gpio_pins_left_to_gpio()
    ensures
        forall|i: int|
            0 <= i < gpio_driver_pins().len() ==> final_control(
                primary_function_steps(),
                #[trigger] gpio_driver_pins()[i],
            ) == Some(Control::Gpio),
        forall|i: int, s: PinState|
            0 <= i < gpio_driver_pins().len() ==> (#[trigger] state_after(
                primary_function_steps(),
                gpio_driver_pins()[i],
                s,
            )).control == Control::Gpio,
{
    assert forall|i: int| 0 <= i < gpio_driver_pins().len() implies final_control(
        primary_function_steps(),
        #[trigger] gpio_driver_pins()[i],
    ) == Some(Control::Gpio) by {
        lemma_reset_control_of(gpio_driver_pins()[i]);
    }
    assert forall|i: int, s: PinState| 0 <= i < gpio_driver_pins().len() implies (
    #[trigger] state_after(primary_function_steps(), gpio_driver_pins()[i], s)).control
        == Control::Gpio by {
        lemma_reset_control_of(gpio_driver_pins()[i]);
        lemma_final_control_in_state(primary_function_steps(), gpio_driver_pins()[i], s);
    }
}

} // verus!
