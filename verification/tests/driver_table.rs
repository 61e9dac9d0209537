use storm::driver_table::{driver_slot, DriverSlot, SignpostController};

fn controller() -> SignpostController<u32> {
    SignpostController {
        console: 10,
        gpio: 11,
        timer: 13,
        gpio_async: 20,
        coulomb_counter_i2c_selector: 21,
        coulomb_counter_generic: 22,
    }
}

#[test]
fn driver_numbers_map_to_slots() {
    assert_eq!(driver_slot(0), Some(DriverSlot::Console));
    assert_eq!(driver_slot(1), Some(DriverSlot::Gpio));
    assert_eq!(driver_slot(3), Some(DriverSlot::Timer));
    assert_eq!(driver_slot(100), Some(DriverSlot::GpioAsync));
    assert_eq!(driver_slot(101), Some(DriverSlot::CoulombCounterI2cSelector));
    assert_eq!(driver_slot(102), Some(DriverSlot::CoulombCounterGeneric));
}

#[test]
fn unknown_driver_numbers_have_no_driver() {
    for n in [2usize, 4, 5, 99, 103, 1000, usize::MAX] {
        assert_eq!(driver_slot(n), None);
    }
}

#[test]
fn with_driver_hands_the_matching_driver() {
    let c = controller();
    assert_eq!(c.with_driver(0, |d| d.copied()), Some(10));
    assert_eq!(c.with_driver(1, |d| d.copied()), Some(11));
    assert_eq!(c.with_driver(3, |d| d.copied()), Some(13));
    assert_eq!(c.with_driver(100, |d| d.copied()), Some(20));
    assert_eq!(c.with_driver(101, |d| d.copied()), Some(21));
    assert_eq!(c.with_driver(102, |d| d.copied()), Some(22));
}

#[test]
fn with_driver_hands_none_for_unknown_numbers() {
    let c = controller();
    assert_eq!(c.with_driver(2, |d| d.copied()), None);
    assert_eq!(c.with_driver(4, |d| d.is_none()), true);
}

#[test]
fn each_driver_answers_one_number() {
    let mut seen = Vec::new();
    for n in 0..200usize {
        if let Some(slot) = driver_slot(n) {
            assert!(!seen.contains(&slot));
            seen.push(slot);
        }
    }
    assert_eq!(seen.len(), 6);
}
