use platform::platform::{
    Chip, Driver, Firestorm, ACCELEROMETER_DRIVER, CONSOLE_DRIVER, GPIO_DRIVER, SPI_DRIVER,
    TIMER_DRIVER, TMP006_DRIVER,
};

struct TestChip {
    pending: u32,
}

impl Chip for TestChip {
    fn service_pending_interrupts(&mut self) {
        self.pending = 0;
    }

    fn has_pending_interrupts(&mut self) -> bool {
        self.pending > 0
    }
}

type Board = Firestorm<TestChip, u8, u16, u32, u64, i8, i16>;

fn board(pending: u32) -> Board {
    Firestorm::new(TestChip { pending }, 1u8, 2u16, 3u32, 4u64, 5i16, 6i8)
}

fn name(d: Option<Driver<'_, u8, u16, u32, u64, i8, i16>>) -> String {
    match d {
        None => "none".to_string(),
        Some(Driver::Console(v)) => format!("console {}", v),
        Some(Driver::Gpio(v)) => format!("gpio {}", v),
        Some(Driver::Timer(v)) => format!("timer {}", v),
        Some(Driver::Tmp006(v)) => format!("tmp006 {}", v),
        Some(Driver::Accelerometer(v)) => format!("accelerometer {}", v),
        Some(Driver::Spi(v)) => format!("spi {}", v),
    }
}

#[test]
fn with_driver_dispatches_by_number() {
    let mut b = board(0);
    assert_eq!(b.with_driver(CONSOLE_DRIVER, name), "console 1");
    assert_eq!(b.with_driver(GPIO_DRIVER, name), "gpio 2");
    assert_eq!(b.with_driver(TIMER_DRIVER, name), "timer 3");
    assert_eq!(b.with_driver(TMP006_DRIVER, name), "tmp006 4");
    assert_eq!(b.with_driver(ACCELEROMETER_DRIVER, name), "accelerometer 6");
    assert_eq!(b.with_driver(SPI_DRIVER, name), "spi 5");
}

#[test]
fn with_driver_unknown_number_gives_none() {
    let mut b = board(0);
    assert_eq!(b.with_driver(6, name), "none");
    assert_eq!(b.with_driver(usize::MAX, name), "none");
}

#[test]
fn driver_lookup_matches_with_driver() {
    let b = board(0);
    for n in 0..8usize {
        let direct = name(b.driver(n));
        let mut b2 = board(0);
        assert_eq!(b2.with_driver(n, name), direct);
    }
}

#[test]
fn pending_interrupts_reach_the_chip() {
    let mut b = board(3);
    assert!(b.has_pending_interrupts());
    b.service_pending_interrupts();
    assert!(!b.has_pending_interrupts());
    assert_eq!(b.with_driver(CONSOLE_DRIVER, name), "console 1");
}
