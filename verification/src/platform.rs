use vstd::prelude::*;

verus! {

/// A placeholder callback client that carries one byte.
#[allow(dead_code)]
pub struct DummyCB {
    val: u8,
}

/// The interrupt side of the chip the board is built on.
pub trait Chip {
    /// Runs the handlers of every interrupt that is pending.
    fn service_pending_interrupts(&mut self);

    /// Whether some interrupt is waiting to be serviced.
    fn has_pending_interrupts(&mut self) -> bool;
}

/// The number by which user processes name the console driver.
pub const CONSOLE_DRIVER: usize = 0;

/// The number by which user processes name the GPIO driver.
pub const GPIO_DRIVER: usize = 1;

/// The number by which user processes name the timer driver.
pub const TIMER_DRIVER: usize = 2;

/// The number by which user processes name the TMP006 temperature sensor.
pub const TMP006_DRIVER: usize = 3;

/// The number by which user processes name the FXOS8700CQ accelerometer.
pub const ACCELEROMETER_DRIVER: usize = 4;

/// The number by which user processes name the SPI driver.
pub const SPI_DRIVER: usize = 5;

/// One of the board's drivers, borrowed from the board.
pub enum Driver<'a, Con, Gp, Tm, Tp, Ac, Sp> {
    Console(&'a Con),
    Gpio(&'a Gp),
    Timer(&'a Tm),
    Tmp006(&'a Tp),
    Accelerometer(&'a Ac),
    Spi(&'a Sp),
}

/// The Firestorm board: its chip and the drivers that user processes reach
/// by number.
pub struct Firestorm<Ch, Con, Gp, Tm, Tp, Ac, Sp> {
    chip: Ch,
    console: Con,
    gpio: Gp,
    timer: Tm,
    tmp006: Tp,
    spi: Sp,
    accelerometer: Ac,
}

impl<Ch, Con, Gp, Tm, Tp, Ac, Sp> Firestorm<Ch, Con, Gp, Tm, Tp, Ac, Sp> {
    /// Puts the board together from its chip and drivers.
    pub fn new(
        chip: Ch,
        console: Con,
        gpio: Gp,
        timer: Tm,
        tmp006: Tp,
        spi: Sp,
        accelerometer: Ac,
    ) -> (board: Self)
        ensures
            board.chip() == chip,
            board.console() == console,
            board.gpio() == gpio,
            board.timer() == timer,
            board.tmp006() == tmp006,
            board.spi() == spi,
            board.accelerometer() == accelerometer,
    {
        Firestorm { chip, console, gpio, timer, tmp006, spi, accelerometer }
    }

    /// The board's chip.
    pub closed spec fn chip(&self) -> Ch {
        self.chip
    }

    /// The console driver.
    pub closed spec fn console(&self) -> Con {
        self.console
    }

    /// The GPIO driver.
    pub closed spec fn gpio(&self) -> Gp {
        self.gpio
    }

    /// The timer driver.
    pub closed spec fn timer(&self) -> Tm {
        self.timer
    }

    /// The TMP006 temperature sensor driver.
    pub closed spec fn tmp006(&self) -> Tp {
        self.tmp006
    }

    /// The SPI driver.
    pub closed spec fn spi(&self) -> Sp {
        self.spi
    }

    /// The FXOS8700CQ accelerometer driver.
    pub closed spec fn accelerometer(&self) -> Ac {
        self.accelerometer
    }

    /// The driver that user processes name by `driver_num`, if any.
    pub open spec fn driver_spec<'a>(&'a self, driver_num: usize) -> Option<
        Driver<'a, Con, Gp, Tm, Tp, Ac, Sp>,
    > {
        if driver_num == CONSOLE_DRIVER {
            Some(Driver::Console(&self.console()))
        } else if driver_num == GPIO_DRIVER {
            Some(Driver::Gpio(&self.gpio()))
        } else if driver_num == TIMER_DRIVER {
            Some(Driver::Timer(&self.timer()))
        } else if driver_num == TMP006_DRIVER {
            Some(Driver::Tmp006(&self.tmp006()))
        } else if driver_num == ACCELEROMETER_DRIVER {
            Some(Driver::Accelerometer(&self.accelerometer()))
        } else if driver_num == SPI_DRIVER {
            Some(Driver::Spi(&self.spi()))
        } else {
            None
        }
    }

    /// Looks up the driver that user processes name by `driver_num`.
    pub fn driver(&self, driver_num: usize) -> (d: Option<Driver<'_, Con, Gp, Tm, Tp, Ac, Sp>>)
        ensures
            d == self.driver_spec(driver_num),
    {
        match driver_num {
            0 => Some(Driver::Console(&self.console)),
            1 => Some(Driver::Gpio(&self.gpio)),
            2 => Some(Driver::Timer(&self.timer)),
            3 => Some(Driver::Tmp006(&self.tmp006)),
            4 => Some(Driver::Accelerometer(&self.accelerometer)),
            5 => Some(Driver::Spi(&self.spi)),
            _ => None,
        }
    }

    /// Hands `f` the driver that user processes name by `driver_num` (or
    /// `None` when no driver has that number) and returns what `f` returns.
    pub fn with_driver<F, R>(&mut self, driver_num: usize, f: F) -> (r: R) where
        F: FnOnce(Option<Driver<'_, Con, Gp, Tm, Tp, Ac, Sp>>) -> R,
        requires
            f.requires((old(self).driver_spec(driver_num),)),
        ensures
            f.ensures((old(self).driver_spec(driver_num),), r),
            *final(self) == *old(self),
    {
        f(self.driver(driver_num))
    }
}

/// Exactly the numbers below six name a driver, each a different one.
pub proof fn lemma_driver_numbers<Ch, Con, Gp, Tm, Tp, Ac, Sp>(
    board: Firestorm<Ch, Con, Gp, Tm, Tp, Ac, Sp>,
    driver_num: usize,
)
    ensures
        board.driver_spec(driver_num) is Some <==> driver_num < 6,
        board.driver_spec(CONSOLE_DRIVER) is Some && board.driver_spec(CONSOLE_DRIVER)->0 is Console,
        board.driver_spec(GPIO_DRIVER) is Some && board.driver_spec(GPIO_DRIVER)->0 is Gpio,
        board.driver_spec(TIMER_DRIVER) is Some && board.driver_spec(TIMER_DRIVER)->0 is Timer,
        board.driver_spec(TMP006_DRIVER) is Some && board.driver_spec(TMP006_DRIVER)->0 is Tmp006,
        board.driver_spec(ACCELEROMETER_DRIVER) is Some && board.driver_spec(
            ACCELEROMETER_DRIVER,
        )->0 is Accelerometer,
        board.driver_spec(SPI_DRIVER) is Some && board.driver_spec(SPI_DRIVER)->0 is Spi,
{
}

impl<Ch: Chip, Con, Gp, Tm, Tp, Ac, Sp> Firestorm<Ch, Con, Gp, Tm, Tp, Ac, Sp> {
    /// Runs the chip's handlers for every pending interrupt.
    pub fn service_pending_interrupts(&mut self)
        ensures
            final(self).console() == old(self).console(),
            final(self).gpio() == old(self).gpio(),
            final(self).timer() == old(self).timer(),
            final(self).tmp006() == old(self).tmp006(),
            final(self).spi() == old(self).spi(),
            final(self).accelerometer() == old(self).accelerometer(),
    {
        self.chip.service_pending_interrupts()
    }

    /// Whether the chip has an interrupt waiting to be serviced.
    pub fn has_pending_interrupts(&mut self) -> (pending: bool)
        ensures
            final(self).console() == old(self).console(),
            final(self).gpio() == old(self).gpio(),
            final(self).timer() == old(self).timer(),
            final(self).tmp006() == old(self).tmp006(),
            final(self).spi() == old(self).spi(),
            final(self).accelerometer() == old(self).accelerometer(),
    {
        self.chip.has_pending_interrupts()
    }
}

} // verus!
