use vstd::prelude::*;

verus! {

/// The drivers the board offers to processes.
#[derive(Clone, Copy, Debug, PartialEq, Eq, Structural)]
pub enum DriverSlot {
    Console,
    Gpio,
    Timer,
    GpioAsync,
    CoulombCounterI2cSelector,
    CoulombCounterGeneric,
}

/// The driver that answers to a system-call driver number, if any.
pub open spec fn slot_for(driver_num: usize) -> Option<DriverSlot> {
    if driver_num == 0 {
        Some(DriverSlot::Console)
    } else if driver_num == 1 {
        Some(DriverSlot::Gpio)
    } else if driver_num == 3 {
        Some(DriverSlot::Timer)
    } else if driver_num == 100 {
        Some(DriverSlot::GpioAsync)
    } else if driver_num == 101 {
        Some(DriverSlot::CoulombCounterI2cSelector)
    } else if driver_num == 102 {
        Some(DriverSlot::CoulombCounterGeneric)
    } else {
        None
    }
}

/// The driver number under which a driver is reached.
pub open spec fn number_of(slot: DriverSlot) -> usize {
    match slot {
        DriverSlot::Console => 0,
        DriverSlot::Gpio => 1,
        DriverSlot::Timer => 3,
        DriverSlot::GpioAsync => 100,
        DriverSlot::CoulombCounterI2cSelector => 101,
        DriverSlot::CoulombCounterGeneric => 102,
    }
}

/// Maps a system-call driver number to the driver that serves it.
pub fn driver_slot(driver_num: usize) -> (r: Option<DriverSlot>)
    ensures
        r == slot_for(driver_num),
{
    match driver_num {
        0 => Some(DriverSlot::Console),
        1 => Some(DriverSlot::Gpio),
        3 => Some(DriverSlot::Timer),
        100 => Some(DriverSlot::GpioAsync),
        101 => Some(DriverSlot::CoulombCounterI2cSelector),
        102 => Some(DriverSlot::CoulombCounterGeneric),
        _ => None,
    }
}

/// Every driver answers to exactly one driver number, and a number reaches a
/// driver only if it is that driver's number.
pub proof fn lemma_driver_numbers_unique(driver_num: usize, slot: DriverSlot)
    ensures
        slot_for(driver_num) == Some(slot) <==> number_of(slot) == driver_num,
        slot_for(number_of(slot)) == Some(slot),
{
}

/// The console is driver 0, the GPIO driver 1 and the timer 3; the Signpost
/// drivers follow at 100 (asynchronous GPIO), 101 (I2C selector of the coulomb
/// counters) and 102 (coulomb counter). Every other number reaches no driver.
pub proof fn lemma_driver_numbers(driver_num: usize)
    ensures
        number_of(DriverSlot::Console) == 0,
        number_of(DriverSlot::Gpio) == 1,
        number_of(DriverSlot::Timer) == 3,
        number_of(DriverSlot::GpioAsync) == 100,
        number_of(DriverSlot::CoulombCounterI2cSelector) == 101,
        number_of(DriverSlot::CoulombCounterGeneric) == 102,
        slot_for(driver_num) is None <==> !(driver_num == 0 || driver_num == 1 || driver_num == 3
            || (100 <= driver_num <= 102)),
{
    lemma_driver_numbers_unique(driver_num, DriverSlot::Console);
}

/// The drivers of the controller board, one value of the driver type per slot.
pub struct SignpostController<D> {
    pub console: D,
    pub gpio: D,
    pub timer: D,
    pub gpio_async: D,
    pub coulomb_counter_i2c_selector: D,
    pub coulomb_counter_generic: D,
}

impl<D> SignpostController<D> {
    /// The driver that fills `slot`.
    pub open spec fn driver(&self, slot: DriverSlot) -> &D {
        match slot {
            DriverSlot::Console => &self.console,
            DriverSlot::Gpio => &self.gpio,
            DriverSlot::Timer => &self.timer,
            DriverSlot::GpioAsync => &self.gpio_async,
            DriverSlot::CoulombCounterI2cSelector => &self.coulomb_counter_i2c_selector,
            DriverSlot::CoulombCounterGeneric => &self.coulomb_counter_generic,
        }
    }

    /// The driver that answers to `driver_num`, if any.
    pub open spec fn lookup(&self, driver_num: usize) -> Option<&D> {
        match slot_for(driver_num) {
            Some(slot) => Some(self.driver(slot)),
            None => None,
        }
    }

    fn slot_driver(&self, slot: DriverSlot) -> (d: &D)
        ensures
            d == self.driver(slot),
    {
        match slot {
            DriverSlot::Console => &self.console,
            DriverSlot::Gpio => &self.gpio,
            DriverSlot::Timer => &self.timer,
            DriverSlot::GpioAsync => &self.gpio_async,
            DriverSlot::CoulombCounterI2cSelector => &self.coulomb_counter_i2c_selector,
            DriverSlot::CoulombCounterGeneric => &self.coulomb_counter_generic,
        }
    }

    /// Calls `f` with the driver that answers to `driver_num`, or with `None`
    /// when no driver does, and returns what `f` returns.
    pub fn with_driver<F, R>(&self, driver_num: usize, f: F) -> (r: R) where
        F: FnOnce(Option<&D>) -> R,

        requires
            f.requires((self.lookup(driver_num),)),
        ensures
            f.ensures((self.lookup(driver_num),), r),
    {
        match driver_slot(driver_num) {
            Some(slot) => f(Some(self.slot_driver(slot))),
            None => f(None),
        }
    }
}

} // verus!
