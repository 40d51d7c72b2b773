use platform::board::{firestorm, GPIO_PIN_COUNT, SPI_BUFFER_LEN, Parity, PeripheralFunction, Pin, PinFunction, Port, SpiPeripheral};

fn p(port: Port, number: u8) -> Pin {
    Pin { port, number }
}

#[test]
fn firestorm_console_settings() {
    let c = firestorm();
    assert_eq!(c.console.baud_rate, 115200);
    assert_eq!(c.console.data_bits, 8);
    assert_eq!(c.console.parity, Parity::Disabled);
}

#[test]
fn firestorm_gpio_pins_in_order() {
    let c = firestorm();
    let expected = vec![
        p(Port::C, 10),
        p(Port::C, 19),
        p(Port::C, 13),
        p(Port::A, 17),
        p(Port::C, 20),
        p(Port::A, 19),
        p(Port::A, 14),
        p(Port::A, 16),
        p(Port::A, 13),
        p(Port::A, 11),
        p(Port::A, 10),
        p(Port::A, 12),
        p(Port::C, 9),
    ];
    assert_eq!(c.gpio_pins, expected);
}

#[test]
fn firestorm_peripheral_pins() {
    let c = firestorm();
    let pairs = |v: &Vec<PinFunction>| -> Vec<(Pin, PeripheralFunction)> {
        v.iter().map(|f| (f.pin, f.function)).collect()
    };
    assert_eq!(
        pairs(&c.spi_pins),
        vec![
            (p(Port::C, 6), PeripheralFunction::A),
            (p(Port::C, 4), PeripheralFunction::A),
            (p(Port::C, 5), PeripheralFunction::A),
            (p(Port::C, 1), PeripheralFunction::A),
        ]
    );
    assert_eq!(
        pairs(&c.console_pins),
        vec![(p(Port::B, 9), PeripheralFunction::A), (p(Port::B, 10), PeripheralFunction::A)]
    );
    assert_eq!(
        pairs(&c.i2c_pins),
        vec![(p(Port::A, 21), PeripheralFunction::E), (p(Port::A, 22), PeripheralFunction::E)]
    );
}

#[test]
fn firestorm_sensor_and_spi() {
    let c = firestorm();
    assert_eq!(c.tmp006_address, 0x40);
    assert_eq!(c.tmp006_interrupt_pin, p(Port::A, 9));
    assert_eq!(c.spi_peripheral, SpiPeripheral::Peripheral1);
    assert_eq!(SPI_BUFFER_LEN, 64);
    assert_eq!(c.panic_led, p(Port::C, 10));
    assert_eq!(c.gpio_pins[0], c.panic_led);
    assert_eq!(c.gpio_pins.len(), GPIO_PIN_COUNT);
    assert_eq!(c.sb02_workaround_pin, p(Port::A, 14));
}

#[test]
fn firestorm_pins_not_shared() {
    let c = firestorm();
    for (i, a) in c.gpio_pins.iter().enumerate() {
        for b in c.gpio_pins.iter().skip(i + 1) {
            assert_ne!(a, b);
        }
        assert_ne!(*a, c.tmp006_interrupt_pin);
    }
    let all: Vec<PinFunction> =
        c.spi_pins.iter().chain(c.console_pins.iter()).chain(c.i2c_pins.iter()).copied().collect();
    assert_eq!(all.len(), 8);
    for (i, a) in all.iter().enumerate() {
        for b in all.iter().skip(i + 1) {
            assert_ne!(a.pin, b.pin);
        }
        assert!(!c.gpio_pins.contains(&a.pin));
        assert_ne!(a.pin, c.tmp006_interrupt_pin);
    }
    assert_eq!(c.gpio_pins[6], c.sb02_workaround_pin);
}
