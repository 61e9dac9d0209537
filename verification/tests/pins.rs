use storm::board::gpio_pins;
use storm::pins::{
    pin_primary_functions, sb02_workaround, PeripheralFunction, Pin, PinOp, PinStep, Port,
};

fn gpio_controlled(steps: &[PinStep], pin: Pin) -> Option<bool> {
    let mut control = None;
    for step in steps {
        if step.pin == pin {
            match step.op {
                PinOp::Configure(None) | PinOp::Enable => control = Some(true),
                PinOp::Configure(Some(_)) => control = Some(false),
                _ => {}
            }
        }
    }
    control
}

#[test]
fn primary_functions_table_has_every_step() {
    let steps = pin_primary_functions();
    assert_eq!(steps.len(), 84);
    assert_eq!(
        steps[0],
        PinStep {
            pin: Pin { port: Port::C, number: 3 },
            op: PinOp::Configure(Some(PeripheralFunction::A))
        }
    );
    assert_eq!(
        steps[83],
        PinStep { pin: Pin { port: Port::C, number: 10 }, op: PinOp::Configure(None) }
    );
}

#[test]
fn rf233_reset_line_is_driven_high() {
    let steps = pin_primary_functions();
    let pc15 = Pin { port: Port::C, number: 15 };
    let ops: Vec<PinOp> = steps.iter().filter(|s| s.pin == pc15).map(|s| s.op).collect();
    assert_eq!(ops, vec![PinOp::Enable, PinOp::SetPin, PinOp::EnableOutput, PinOp::SetPin]);
}

#[test]
fn uart_pins_use_their_functions() {
    let steps = pin_primary_functions();
    let find = |port: Port, number: u8| {
        steps
            .iter()
            .filter(|s| s.pin == Pin { port, number })
            .map(|s| s.op)
            .collect::<Vec<_>>()
    };
    assert_eq!(find(Port::C, 8), vec![PinOp::Configure(Some(PeripheralFunction::E))]);
    assert_eq!(find(Port::B, 14), vec![PinOp::Configure(Some(PeripheralFunction::B))]);
    assert_eq!(find(Port::C, 4), vec![PinOp::Configure(None)]);
}

#[test]
fn gpio_driver_pins_end_under_gpio_control() {
    let steps = pin_primary_functions();
    for pin in gpio_pins() {
        assert_eq!(gpio_controlled(&steps, pin), Some(true), "{:?}", pin);
    }
}

#[test]
fn every_step_names_a_valid_pin() {
    for step in pin_primary_functions() {
        assert!(step.pin.number < 32);
    }
}

#[test]
fn sb02_workaround_drives_pa14_high() {
    let pa14 = Pin { port: Port::A, number: 14 };
    assert_eq!(
        sb02_workaround(),
        [
            PinStep { pin: pa14, op: PinOp::Enable },
            PinStep { pin: pa14, op: PinOp::SetPin },
            PinStep { pin: pa14, op: PinOp::EnableOutput },
        ]
    );
}

#[derive(Clone, Copy, PartialEq, Debug)]
struct State {
    gpio: Option<bool>,
    output: Option<bool>,
    high: Option<bool>,
    pull_up: Option<bool>,
    pull_down: Option<bool>,
    interrupt: Option<bool>,
}

fn run(steps: &[PinStep], pin: Pin, mut s: State) -> State {
    for step in steps.iter().filter(|st| st.pin == pin) {
        match step.op {
            PinOp::Configure(None) | PinOp::Enable => s.gpio = Some(true),
            PinOp::Configure(Some(_)) => s.gpio = Some(false),
            PinOp::DisableOutput => s.output = Some(false),
            PinOp::EnableOutput => s.output = Some(true),
            PinOp::DisableInterrupt => s.interrupt = Some(false),
            PinOp::SetPin => s.high = Some(true),
            PinOp::ClearPin => s.high = Some(false),
            PinOp::DisablePullUp => s.pull_up = Some(false),
            PinOp::DisablePullDown => s.pull_down = Some(false),
        }
    }
    s
}

#[test]
fn running_the_setup_twice_changes_nothing() {
    let steps = pin_primary_functions();
    let start = State {
        gpio: None,
        output: None,
        high: None,
        pull_up: None,
        pull_down: None,
        interrupt: None,
    };
    for port in [Port::A, Port::B, Port::C] {
        for number in 0..32u8 {
            let pin = Pin { port, number };
            let once = run(&steps, pin, start);
            assert_eq!(run(&steps, pin, once), once);
        }
    }
}
