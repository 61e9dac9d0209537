use storm::board::{
    console_usart_params, gpio_pins, i2c_bus1, radio_usart_params, I2cChip, Parity, UartMode,
    UsartParams,
};
use storm::pins::{Pin, Port};

#[test]
fn gpio_pins_in_driver_order() {
    let pins = gpio_pins();
    assert_eq!(pins.len(), 12);
    assert_eq!(pins[0], Pin { port: Port::C, number: 10 });
    assert_eq!(pins[8], Pin { port: Port::A, number: 17 });
    assert_eq!(pins[11], Pin { port: Port::A, number: 20 });
    for i in 0..pins.len() {
        for j in (i + 1)..pins.len() {
            assert_ne!(pins[i], pins[j]);
        }
    }
}

#[test]
fn i2c_bus1_addresses_are_distinct() {
    let devices = i2c_bus1();
    assert_eq!(devices.len(), 9);
    for i in 0..devices.len() {
        assert!(devices[i].address < 0x80);
        for j in (i + 1)..devices.len() {
            assert_ne!(devices[i].address, devices[j].address);
        }
    }
}

#[test]
fn i2c_bus1_chips() {
    let devices = i2c_bus1();
    let extenders: Vec<u8> = devices
        .iter()
        .filter(|d| d.chip == I2cChip::GpioExtender)
        .map(|d| d.address)
        .collect();
    assert_eq!(extenders, vec![0x20, 0x21, 0x22, 0x25, 0x26, 0x27]);
    assert_eq!(devices[6].chip, I2cChip::I2cSelector);
    assert_eq!(devices[7].address, 0x71);
    assert_eq!(devices[8].chip, I2cChip::CoulombCounter);
    assert_eq!(devices[8].address, 0x64);
}

#[test]
fn usart_settings() {
    assert_eq!(
        console_usart_params(),
        UsartParams {
            baud_rate: 115200,
            data_bits: 8,
            parity: Parity::NoParity,
            mode: UartMode::Normal
        }
    );
    assert_eq!(
        radio_usart_params(),
        UsartParams {
            baud_rate: 250000,
            data_bits: 8,
            parity: Parity::Even,
            mode: UartMode::FlowControl
        }
    );
}
