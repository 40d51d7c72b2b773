use vstd::prelude::*;

verus! {

/// A GPIO port of the SAM4L.
#[derive(PartialEq, Eq, Structural, Clone, Copy, Debug)]
pub enum Port {
    A,
    B,
    C,
}

/// One pin of the SAM4L: its port and its number within the port.
#[derive(PartialEq, Eq, Structural, Clone, Copy, Debug)]
pub struct Pin {
    pub port: Port,
    pub number: u8,
}

/// The peripheral functions a SAM4L pin can be handed to.
#[derive(PartialEq, Eq, Structural, Clone, Copy, Debug)]
pub enum PeripheralFunction {
    A,
    B,
    C,
    D,
    E,
    F,
    G,
    H,
}

/// A pin handed to one of its peripheral functions.
#[derive(PartialEq, Eq, Structural, Clone, Copy, Debug)]
pub struct PinFunction {
    pub pin: Pin,
    pub function: PeripheralFunction,
}

/// The parity bit of a serial line.
#[derive(PartialEq, Eq, Structural, Clone, Copy, Debug)]
pub enum Parity {
    Disabled,
    Odd,
    Even,
}

/// How a USART is set up.
#[derive(PartialEq, Eq, Structural, Clone, Copy, Debug)]
pub struct UsartParams {
    pub baud_rate: u32,
    pub data_bits: u8,
    pub parity: Parity,
}

/// The chip-select line that the SPI controller drives.
#[derive(PartialEq, Eq, Structural, Clone, Copy, Debug)]
pub enum SpiPeripheral {
    Peripheral0,
    Peripheral1,
    Peripheral2,
    Peripheral3,
}

/// How the Firestorm board wires the SAM4L: what the kernel sets up before
/// it runs anything else.
pub struct BoardConfig {
    /// Driven high at start-up (works around a fault of the SB.02 boards).
    pub sb02_workaround_pin: Pin,
    /// The console USART (USART3) and the panic report use these settings.
    pub console: UsartParams,
    /// The pins handed to the SPI controller: CLK, MISO, MOSI, CS3.
    pub spi_pins: Vec<PinFunction>,
    /// The pins handed to the console USART (USART3).
    pub console_pins: Vec<PinFunction>,
    /// The pins handed to the I2C controller: SDA, SCL.
    pub i2c_pins: Vec<PinFunction>,
    /// The pins that the GPIO driver exposes, in the order of its pin numbers.
    pub gpio_pins: Vec<Pin>,
    /// The I2C address of the TMP006 temperature sensor.
    pub tmp006_address: u8,
    /// The pin on which the TMP006 signals that a reading is ready.
    pub tmp006_interrupt_pin: Pin,
    /// The chip select of the SPI device.
    pub spi_peripheral: SpiPeripheral,
    /// The LED that the panic handler blinks.
    pub panic_led: Pin,
}

/// The length in bytes of each of the SPI driver's read and write buffers.
pub const SPI_BUFFER_LEN: usize = 64;

/// The number of pins that the GPIO driver exposes.
pub const GPIO_PIN_COUNT: usize = 13;

/// Pin `number` of port `port`.
pub open spec fn pin(port: Port, number: u8) -> Pin {
    Pin { port, number }
}

/// The settings of the console USART: 115200 baud, 8 data bits, parity disabled.
pub open spec fn console_params() -> UsartParams {
    UsartParams { baud_rate: 115200, data_bits: 8, parity: Parity::Disabled }
}

/// The pins of the GPIO driver, by GPIO pin number.
pub open spec fn gpio_pins() -> Seq<Pin> {
    seq![
        pin(Port::C, 10),
        pin(Port::C, 19),
        pin(Port::C, 13),
        pin(Port::A, 17),
        pin(Port::C, 20),
        pin(Port::A, 19),
        pin(Port::A, 14),
        pin(Port::A, 16),
        pin(Port::A, 13),
        pin(Port::A, 11),
        pin(Port::A, 10),
        pin(Port::A, 12),
        pin(Port::C, 9),
    ]
}

/// The SPI pins (CLK, MISO, MOSI, CS3), all on peripheral function A.
pub open spec fn spi_pins() -> Seq<PinFunction> {
    seq![
        PinFunction { pin: pin(Port::C, 6), function: PeripheralFunction::A },
        PinFunction { pin: pin(Port::C, 4), function: PeripheralFunction::A },
        PinFunction { pin: pin(Port::C, 5), function: PeripheralFunction::A },
        PinFunction { pin: pin(Port::C, 1), function: PeripheralFunction::A },
    ]
}

/// The console USART pins, on peripheral function A.
pub open spec fn console_pins() -> Seq<PinFunction> {
    seq![
        PinFunction { pin: pin(Port::B, 9), function: PeripheralFunction::A },
        PinFunction { pin: pin(Port::B, 10), function: PeripheralFunction::A },
    ]
}

/// The I2C pins (SDA, SCL), on peripheral function E.
pub open spec fn i2c_pins() -> Seq<PinFunction> {
    seq![
        PinFunction { pin: pin(Port::A, 21), function: PeripheralFunction::E },
        PinFunction { pin: pin(Port::A, 22), function: PeripheralFunction::E },
    ]
}

/// Every pin handed to a peripheral, in the order the kernel configures
/// them.
pub open spec fn pin_functions() -> Seq<PinFunction> {
    spi_pins() + console_pins() + i2c_pins()
}

/// The Firestorm wiring.
pub open spec fn firestorm_spec(c: BoardConfig) -> bool {
    &&& c.sb02_workaround_pin == pin(Port::A, 14)
    &&& c.console == console_params()
    &&& c.spi_pins@ == spi_pins()
    &&& c.console_pins@ == console_pins()
    &&& c.i2c_pins@ == i2c_pins()
    &&& c.gpio_pins@ == gpio_pins()
    &&& c.tmp006_address == 0x40
    &&& c.tmp006_interrupt_pin == pin(Port::A, 9)
    &&& c.spi_peripheral == SpiPeripheral::Peripheral1
    &&& c.panic_led == pin(Port::C, 10)
}

fn mk_pin(port: Port, number: u8) -> (p: Pin)
    ensures
        p == pin(port, number),
{
    Pin { port, number }
}

fn mk_function(port: Port, number: u8, function: PeripheralFunction) -> (f: PinFunction)
    ensures
        f == (PinFunction { pin: pin(port, number), function }),
{
    PinFunction { pin: Pin { port, number }, function }
}

/// The wiring of the Firestorm board.
pub fn firestorm() -> (c: BoardConfig)
    ensures
        firestorm_spec(c),
{
    let mut gpio: Vec<Pin> = Vec::new();
    gpio.push(mk_pin(Port::C, 10));
    gpio.push(mk_pin(Port::C, 19));
    gpio.push(mk_pin(Port::C, 13));
    gpio.push(mk_pin(Port::A, 17));
    gpio.push(mk_pin(Port::C, 20));
    gpio.push(mk_pin(Port::A, 19));
    gpio.push(mk_pin(Port::A, 14));
    gpio.push(mk_pin(Port::A, 16));
    gpio.push(mk_pin(Port::A, 13));
    gpio.push(mk_pin(Port::A, 11));
    gpio.push(mk_pin(Port::A, 10));
    gpio.push(mk_pin(Port::A, 12));
    gpio.push(mk_pin(Port::C, 9));
    let mut spi: Vec<PinFunction> = Vec::new();
    spi.push(mk_function(Port::C, 6, PeripheralFunction::A));
    spi.push(mk_function(Port::C, 4, PeripheralFunction::A));
    spi.push(mk_function(Port::C, 5, PeripheralFunction::A));
    spi.push(mk_function(Port::C, 1, PeripheralFunction::A));
    let mut console: Vec<PinFunction> = Vec::new();
    console.push(mk_function(Port::B, 9, PeripheralFunction::A));
    console.push(mk_function(Port::B, 10, PeripheralFunction::A));
    let mut i2c: Vec<PinFunction> = Vec::new();
    i2c.push(mk_function(Port::A, 21, PeripheralFunction::E));
    i2c.push(mk_function(Port::A, 22, PeripheralFunction::E));
    assert(gpio@ =~= gpio_pins());
    assert(spi@ =~= spi_pins());
    assert(console@ =~= console_pins());
    assert(i2c@ =~= i2c_pins());
    BoardConfig {
        sb02_workaround_pin: mk_pin(Port::A, 14),
        console: UsartParams { baud_rate: 115200, data_bits: 8, parity: Parity::Disabled },
        spi_pins: spi,
        console_pins: console,
        i2c_pins: i2c,
        gpio_pins: gpio,
        tmp006_address: 0x40,
        tmp006_interrupt_pin: mk_pin(Port::A, 9),
        spi_peripheral: SpiPeripheral::Peripheral1,
        panic_led: mk_pin(Port::C, 10),
    }
}

/// No pin appears twice among the GPIO driver's pins.
pub proof fn lemma_gpio_pins_distinct()
    ensures
        forall|i: int, j: int|
            0 <= i < j < gpio_pins().len() ==> gpio_pins()[i] != gpio_pins()[j],
{
}

/// No pin is handed to two peripherals, and no pin handed to a peripheral
/// is also a GPIO driver pin or the TMP006 interrupt pin.
pub proof fn lemma_peripheral_pins_exclusive()
    ensures
        forall|i: int, j: int|
            0 <= i < j < pin_functions().len() ==> pin_functions()[i].pin
                != pin_functions()[j].pin,
        forall|i: int, j: int|
            0 <= i < pin_functions().len() && 0 <= j < gpio_pins().len()
                ==> pin_functions()[i].pin != gpio_pins()[j],
        forall|i: int|
            0 <= i < pin_functions().len() ==> pin_functions()[i].pin != pin(Port::A, 9),
{
    assert(pin_functions() =~= seq![
        spi_pins()[0], spi_pins()[1], spi_pins()[2], spi_pins()[3],
        console_pins()[0], console_pins()[1], i2c_pins()[0], i2c_pins()[1],
    ]);
}

/// The GPIO driver has `GPIO_PIN_COUNT` pins; the TMP006 interrupt pin is
/// not one of them; the SB.02 work-around pin is GPIO driver pin 6 and the
/// panic LED is GPIO driver pin 0.
pub proof fn lemma_board_pins()
    ensures
        gpio_pins().len() == GPIO_PIN_COUNT,
        forall|j: int| 0 <= j < gpio_pins().len() ==> gpio_pins()[j] != pin(Port::A, 9),
        gpio_pins()[6] == pin(Port::A, 14),
        gpio_pins()[0] == pin(Port::C, 10),
{
}

} // verus!
