use vstd::prelude::*;

verus! {

/// The three GPIO ports of the SAM4L.
#[derive(Clone, Copy, Debug, PartialEq, Eq, Structural)]
pub enum Port {
    A,
    B,
    C,
}

/// A pin of the SAM4L, named by its port and its number within the port.
#[derive(Clone, Copy, Debug, PartialEq, Eq, Structural)]
pub struct Pin {
    pub port: Port,
    pub number: u8,
}

/// The peripheral functions a SAM4L pin can be multiplexed to.
#[derive(Clone, Copy, Debug, PartialEq, Eq, Structural)]
pub enum PeripheralFunction {
    A,
    B,
    C,
    D,
    E,
}

/// One operation on a pin's configuration.
#[derive(Clone, Copy, Debug, PartialEq, Eq, Structural)]
pub enum PinOp {
    /// Hands the pin to a peripheral function, or with `None` to the GPIO controller.
    Configure(Option<PeripheralFunction>),
    /// Hands the pin to the GPIO controller.
    Enable,
    DisableOutput,
    EnableOutput,
    DisableInterrupt,
    SetPin,
    ClearPin,
    DisablePullUp,
    DisablePullDown,
}

/// An operation applied to a pin.
#[derive(Clone, Copy, Debug, PartialEq, Eq, Structural)]
pub struct PinStep {
    pub pin: Pin,
    pub op: PinOp,
}

/// Who drives a pin.
#[derive(Clone, Copy, Debug, PartialEq, Eq, Structural)]
pub enum Control {
    Gpio,
    Peripheral(PeripheralFunction),
}

/// The control an operation gives the pin, for the operations that change it.
pub open spec fn control_set_by(op: PinOp) -> Option<Control> {
    match op {
        PinOp::Configure(None) => Some(Control::Gpio),
        PinOp::Configure(Some(f)) => Some(Control::Peripheral(f)),
        PinOp::Enable => Some(Control::Gpio),
        _ => None,
    }
}

/// The control of `pin` after the first `n` steps, if any of them set it.
pub open spec fn control_after(steps: Seq<PinStep>, pin: Pin, n: nat) -> Option<Control>
    decreases n,
{
    if n == 0 {
        None
    } else {
        let step = steps[n - 1];
        if step.pin == pin && control_set_by(step.op) is Some {
            control_set_by(step.op)
        } else {
            control_after(steps, pin, (n - 1) as nat)
        }
    }
}

/// The control of `pin` once all `steps` have run.
pub open spec fn final_control(steps: Seq<PinStep>, pin: Pin) -> Option<Control> {
    control_after(steps, pin, steps.len())
}

/// The configuration of one pin, as far as the pin operations reach it.
#[derive(Clone, Copy, Debug, PartialEq, Eq, Structural)]
pub struct PinState {
    pub control: Control,
    pub output_enabled: bool,
    pub high: bool,
    pub pull_up: bool,
    pub pull_down: bool,
    pub interrupt_enabled: bool,
}

/// The configuration of a pin after one operation on it.
pub open spec fn apply_op(s: PinState, op: PinOp) -> PinState {
    match op {
        PinOp::Configure(None) => PinState { control: Control::Gpio, ..s },
        PinOp::Configure(Some(f)) => PinState { control: Control::Peripheral(f), ..s },
        PinOp::Enable => PinState { control: Control::Gpio, ..s },
        PinOp::DisableOutput => PinState { output_enabled: false, ..s },
        PinOp::EnableOutput => PinState { output_enabled: true, ..s },
        PinOp::DisableInterrupt => PinState { interrupt_enabled: false, ..s },
        PinOp::SetPin => PinState { high: true, ..s },
        PinOp::ClearPin => PinState { high: false, ..s },
        PinOp::DisablePullUp => PinState { pull_up: false, ..s },
        PinOp::DisablePullDown => PinState { pull_down: false, ..s },
    }
}

/// The configuration of `pin`, starting from `s`, after the first `n` steps.
pub open spec fn state_after_steps(steps: Seq<PinStep>, pin: Pin, s: PinState, n: nat) -> PinState
    decreases n,
{
    if n == 0 {
        s
    } else {
        let t = state_after_steps(steps, pin, s, (n - 1) as nat);
        let step = steps[n - 1];
        if step.pin == pin {
            apply_op(t, step.op)
        } else {
            t
        }
    }
}

/// The configuration of `pin`, starting from `s`, once all `steps` have run.
pub open spec fn state_after(steps: Seq<PinStep>, pin: Pin, s: PinState) -> PinState {
    state_after_steps(steps, pin, s, steps.len())
}

/// What a run of operations leaves set on a pin: for each setting, the last
/// value written, if any.
pub struct PinEffect {
    pub control: Option<Control>,
    pub output_enabled: Option<bool>,
    pub high: Option<bool>,
    pub pull_up: Option<bool>,
    pub pull_down: Option<bool>,
    pub interrupt_enabled: Option<bool>,
}

pub open spec fn pick<T>(written: Option<T>, before: T) -> T {
    match written {
        Some(v) => v,
        None => before,
    }
}

/// The configuration `s` with the settings of `e` written over it.
pub open spec fn overlay(e: PinEffect, s: PinState) -> PinState {
    PinState {
        control: pick(e.control, s.control),
        output_enabled: pick(e.output_enabled, s.output_enabled),
        high: pick(e.high, s.high),
        pull_up: pick(e.pull_up, s.pull_up),
        pull_down: pick(e.pull_down, s.pull_down),
        interrupt_enabled: pick(e.interrupt_enabled, s.interrupt_enabled),
    }
}

pub open spec fn effect_op(e: PinEffect, op: PinOp) -> PinEffect {
    match op {
        PinOp::Configure(None) => PinEffect { control: Some(Control::Gpio), ..e },
        PinOp::Configure(Some(f)) => PinEffect { control: Some(Control::Peripheral(f)), ..e },
        PinOp::Enable => PinEffect { control: Some(Control::Gpio), ..e },
        PinOp::DisableOutput => PinEffect { output_enabled: Some(false), ..e },
        PinOp::EnableOutput => PinEffect { output_enabled: Some(true), ..e },
        PinOp::DisableInterrupt => PinEffect { interrupt_enabled: Some(false), ..e },
        PinOp::SetPin => PinEffect { high: Some(true), ..e },
        PinOp::ClearPin => PinEffect { high: Some(false), ..e },
        PinOp::DisablePullUp => PinEffect { pull_up: Some(false), ..e },
        PinOp::DisablePullDown => PinEffect { pull_down: Some(false), ..e },
    }
}

/// The settings the first `n` steps write on `pin`.
pub open spec fn effect_after(steps: Seq<PinStep>, pin: Pin, n: nat) -> PinEffect
    decreases n,
{
    if n == 0 {
        PinEffect {
            control: None,
            output_enabled: None,
            high: None,
            pull_up: None,
            pull_down: None,
            interrupt_enabled: None,
        }
    } else {
        let e = effect_after(steps, pin, (n - 1) as nat);
        let step = steps[n - 1];
        if step.pin == pin {
            effect_op(e, step.op)
        } else {
            e
        }
    }
}

proof fn lemma_state_is_overlay(steps: Seq<PinStep>, pin: Pin, s: PinState, n: nat)
    ensures
        state_after_steps(steps, pin, s, n) == overlay(effect_after(steps, pin, n), s),
        effect_after(steps, pin, n).control == control_after(steps, pin, n),
    decreases n,
{
    if n > 0 {
        lemma_state_is_overlay(steps, pin, s, (n - 1) as nat);
    }
}

proof fn lemma_run_concat(a: Seq<PinStep>, b: Seq<PinStep>, pin: Pin, s: PinState, n: nat)
    requires
        n <= b.len(),
    ensures
        state_after_steps(a + b, pin, s, a.len() + n) == state_after_steps(
            b,
            pin,
            state_after(a, pin, s),
            n,
        ),
    decreases n,
{
    if n == 0 {
        lemma_run_prefix(a, b, pin, s, a.len());
    } else {
        lemma_run_concat(a, b, pin, s, (n - 1) as nat);
        assert((a + b)[a.len() + n - 1] == b[n - 1]);
    }
}

proof fn lemma_run_prefix(a: Seq<PinStep>, b: Seq<PinStep>, pin: Pin, s: PinState, n: nat)
    requires
        n <= a.len(),
    ensures
        state_after_steps(a + b, pin, s, n) == state_after_steps(a, pin, s, n),
    decreases n,
{
    if n > 0 {
        lemma_run_prefix(a, b, pin, s, (n - 1) as nat);
        assert((a + b)[n - 1] == a[n - 1]);
    }
}

/// Applying a list of pin operations twice in a row leaves every pin, from
/// any starting configuration, exactly as applying it once: the reset
/// configuration can be run again without changing anything.
pub proof fn lemma_steps_idempotent(steps: Seq<PinStep>, pin: Pin, s: PinState)
    ensures
        state_after(steps + steps, pin, s) == state_after(steps, pin, s),
{
    let once = state_after(steps, pin, s);
    lemma_run_concat(steps, steps, pin, s, steps.len());
    lemma_state_is_overlay(steps, pin, s, steps.len());
    lemma_state_is_overlay(steps, pin, once, steps.len());
    assert((steps + steps).len() == steps.len() + steps.len());
}

/// The control a run of operations leaves a pin under is the one
/// `final_control` names, or the one it had when no operation set it.
pub proof fn lemma_final_control_in_state(steps: Seq<PinStep>, pin: Pin, s: PinState)
    ensures
        state_after(steps, pin, s).control == pick(final_control(steps, pin), s.control),
{
    lemma_state_is_overlay(steps, pin, s, steps.len());
}

/// The board's signal lines that the reset configuration touches, named as
/// on the board.
#[derive(Clone, Copy, Debug, PartialEq, Eq, Structural)]
pub enum BoardLine {
    /// SPI chip select 0
    SpiNpcs0,
    /// SPI chip select 1
    SpiNpcs1,
    /// SPI chip select 2
    SpiNpcs2,
    /// SPI chip select 3, the RF233
    SpiNpcs3,
    /// SPI clock
    SpiClk,
    /// SPI MISO
    SpiMiso,
    /// SPI MOSI
    SpiMosi,
    /// RF233 interrupt (RIRQ)
    RfIrq,
    /// RF233 sleep line (RSLP)
    RfSleep,
    /// RF233 reset line (RRST)
    RfReset,
    /// LI_INT, EIC EXTINT2
    LiInt,
    /// EXTINT1, EIC EXTINT1
    ExtInt1,
    /// PWM 0
    Pwm0,
    /// PWM 1
    Pwm1,
    /// PWM 2
    Pwm2,
    /// PWM 3
    Pwm3,
    /// AD5, ADCIFE AD1
    Ad5,
    /// AD4, ADCIFE AD2
    Ad4,
    /// AD3, ADCIFE AD3
    Ad3,
    /// AD2, ADCIFE AD4
    Ad2,
    /// AD1, ADCIFE AD5
    Ad1,
    /// AD0, ADCIFE AD6
    Ad0,
    /// BL_SEL, USART3 RTS
    BlSel,
    /// USART3 CTS
    Usart3Cts,
    /// USART3 CLK
    Usart3Clk,
    /// PRI_RX, USART3 RX
    PriRx,
    /// PRI_TX, USART3 TX
    PriTx,
    /// U1_CTS, USART0 CTS
    U1Cts,
    /// U1_RTS, USART0 RTS
    U1Rts,
    /// U1_CLK, USART0 CLK
    U1Clk,
    /// U1_RX, USART0 RX
    U1Rx,
    /// U1_TX, USART0 TX
    U1Tx,
    /// STORMRTS, USART2 RTS
    StormRts,
    /// STORMCTS, USART2 CTS
    StormCts,
    /// STORMRX, USART2 RX
    StormRx,
    /// STORMTX, USART2 TX
    StormTx,
    /// STORMCLK, USART2 CLK
    StormClk,
    /// ESDA, TWIMS1 TWD
    Esda,
    /// ESCL, TWIMS1 TWCK
    Escl,
    /// SDA, TWIM2 TWD
    Sda,
    /// SCL, TWIM2 TWCK
    Scl,
    /// EPCLK, USBC DM
    EpClk,
    /// EPDAT, USBC DP
    EpDat,
    /// PCLK, PARC PCCK
    Pclk,
    /// PCEN1, PARC PCEN1
    Pcen1,
    /// EPGP, PARC PCEN2
    Epgp,
    /// PCD0, PARC PCDATA0
    Pcd0,
    /// PCD1, PARC PCDATA1
    Pcd1,
    /// PCD2, PARC PCDATA2
    Pcd2,
    /// PCD3, PARC PCDATA3
    Pcd3,
    /// PCD4, PARC PCDATA4
    Pcd4,
    /// PCD5, PARC PCDATA5
    Pcd5,
    /// PCD6, PARC PCDATA6
    Pcd6,
    /// PCD7, PARC PCDATA7
    Pcd7,
    /// header pin P2
    P2,
    /// header pin P3
    P3,
    /// header pin P4
    P4,
    /// header pin P5
    P5,
    /// header pin P6
    P6,
    /// header pin P7
    P7,
    /// header pin P8
    P8,
    /// unconnected pin
    NoConnect,
    /// ACC_INT2
    AccInt2,
    /// STORMINT, nRF51822 interrupt
    StormInt,
    /// TMP_DRDY
    TmpDrdy,
    /// ACC_INT1
    AccInt1,
    /// ENSEN
    EnSen,
    /// LED0
    Led0,
}

/// The SAM4L pin each board line is wired to.
pub open spec fn line_pin(line: BoardLine) -> Pin {
    match line {
        BoardLine::SpiNpcs0 => Pin { port: Port::C, number: 3 },
        BoardLine::SpiNpcs1 => Pin { port: Port::C, number: 2 },
        BoardLine::SpiNpcs2 => Pin { port: Port::C, number: 0 },
        BoardLine::SpiNpcs3 => Pin { port: Port::C, number: 1 },
        BoardLine::SpiClk => Pin { port: Port::C, number: 6 },
        BoardLine::SpiMiso => Pin { port: Port::C, number: 4 },
        BoardLine::SpiMosi => Pin { port: Port::C, number: 5 },
        BoardLine::RfIrq => Pin { port: Port::A, number: 20 },
        BoardLine::RfSleep => Pin { port: Port::C, number: 14 },
        BoardLine::RfReset => Pin { port: Port::C, number: 15 },
        BoardLine::LiInt => Pin { port: Port::A, number: 4 },
        BoardLine::ExtInt1 => Pin { port: Port::A, number: 6 },
        BoardLine::Pwm0 => Pin { port: Port::A, number: 8 },
        BoardLine::Pwm1 => Pin { port: Port::C, number: 16 },
        BoardLine::Pwm2 => Pin { port: Port::C, number: 17 },
        BoardLine::Pwm3 => Pin { port: Port::C, number: 18 },
        BoardLine::Ad5 => Pin { port: Port::A, number: 5 },
        BoardLine::Ad4 => Pin { port: Port::A, number: 7 },
        BoardLine::Ad3 => Pin { port: Port::B, number: 2 },
        BoardLine::Ad2 => Pin { port: Port::B, number: 3 },
        BoardLine::Ad1 => Pin { port: Port::B, number: 4 },
        BoardLine::Ad0 => Pin { port: Port::B, number: 5 },
        BoardLine::BlSel => Pin { port: Port::B, number: 6 },
        BoardLine::Usart3Cts => Pin { port: Port::B, number: 7 },
        BoardLine::Usart3Clk => Pin { port: Port::B, number: 8 },
        BoardLine::PriRx => Pin { port: Port::B, number: 9 },
        BoardLine::PriTx => Pin { port: Port::B, number: 10 },
        BoardLine::U1Cts => Pin { port: Port::B, number: 11 },
        BoardLine::U1Rts => Pin { port: Port::B, number: 12 },
        BoardLine::U1Clk => Pin { port: Port::B, number: 13 },
        BoardLine::U1Rx => Pin { port: Port::B, number: 14 },
        BoardLine::U1Tx => Pin { port: Port::B, number: 15 },
        BoardLine::StormRts => Pin { port: Port::C, number: 7 },
        BoardLine::StormCts => Pin { port: Port::C, number: 8 },
        BoardLine::StormRx => Pin { port: Port::C, number: 11 },
        BoardLine::StormTx => Pin { port: Port::C, number: 12 },
        BoardLine::StormClk => Pin { port: Port::A, number: 18 },
        BoardLine::Esda => Pin { port: Port::B, number: 0 },
        BoardLine::Escl => Pin { port: Port::B, number: 1 },
        BoardLine::Sda => Pin { port: Port::A, number: 21 },
        BoardLine::Scl => Pin { port: Port::A, number: 22 },
        BoardLine::EpClk => Pin { port: Port::A, number: 25 },
        BoardLine::EpDat => Pin { port: Port::A, number: 26 },
        BoardLine::Pclk => Pin { port: Port::C, number: 21 },
        BoardLine::Pcen1 => Pin { port: Port::C, number: 22 },
        BoardLine::Epgp => Pin { port: Port::C, number: 23 },
        BoardLine::Pcd0 => Pin { port: Port::C, number: 24 },
        BoardLine::Pcd1 => Pin { port: Port::C, number: 25 },
        BoardLine::Pcd2 => Pin { port: Port::C, number: 26 },
        BoardLine::Pcd3 => Pin { port: Port::C, number: 27 },
        BoardLine::Pcd4 => Pin { port: Port::C, number: 28 },
        BoardLine::Pcd5 => Pin { port: Port::C, number: 29 },
        BoardLine::Pcd6 => Pin { port: Port::C, number: 30 },
        BoardLine::Pcd7 => Pin { port: Port::C, number: 31 },
        BoardLine::P2 => Pin { port: Port::A, number: 16 },
        BoardLine::P3 => Pin { port: Port::A, number: 12 },
        BoardLine::P4 => Pin { port: Port::C, number: 9 },
        BoardLine::P5 => Pin { port: Port::A, number: 10 },
        BoardLine::P6 => Pin { port: Port::A, number: 11 },
        BoardLine::P7 => Pin { port: Port::A, number: 19 },
        BoardLine::P8 => Pin { port: Port::A, number: 13 },
        BoardLine::NoConnect => Pin { port: Port::A, number: 14 },
        BoardLine::AccInt2 => Pin { port: Port::C, number: 20 },
        BoardLine::StormInt => Pin { port: Port::A, number: 17 },
        BoardLine::TmpDrdy => Pin { port: Port::A, number: 9 },
        BoardLine::AccInt1 => Pin { port: Port::C, number: 13 },
        BoardLine::EnSen => Pin { port: Port::C, number: 19 },
        BoardLine::Led0 => Pin { port: Port::C, number: 10 },
    }
}

/// What the reset configuration leaves set on each board line: the
/// peripheral lines are handed to their functions, the GPIO lines to the
/// GPIO controller, the RF233 sleep line is driven low (radio awake) and its
/// reset line high (out of reset), its interrupt line is an input with the
/// GPIO interrupt off, and AD0 and PCD4 are inputs without pulls.
pub open spec fn line_setup(line: BoardLine) -> PinEffect {
    match line {
        BoardLine::SpiNpcs0 | BoardLine::SpiNpcs1 | BoardLine::SpiNpcs2 | BoardLine::SpiNpcs3 | BoardLine::SpiClk | BoardLine::SpiMosi | BoardLine::Ad5 | BoardLine::Ad4 | BoardLine::Ad3 | BoardLine::Ad2 | BoardLine::Ad1 | BoardLine::BlSel | BoardLine::Usart3Cts | BoardLine::Usart3Clk | BoardLine::PriRx | BoardLine::PriTx | BoardLine::U1Cts | BoardLine::U1Rts | BoardLine::U1Clk | BoardLine::U1Tx | BoardLine::StormClk | BoardLine::Esda | BoardLine::Escl | BoardLine::EpClk | BoardLine::EpDat => PinEffect { control: Some(Control::Peripheral(PeripheralFunction::A)), output_enabled: None, high: None, pull_up: None, pull_down: None, interrupt_enabled: None },
        BoardLine::SpiMiso | BoardLine::Pwm0 | BoardLine::Pwm1 | BoardLine::Pwm2 | BoardLine::Pwm3 | BoardLine::P2 | BoardLine::P3 | BoardLine::P4 | BoardLine::P5 | BoardLine::P6 | BoardLine::P7 | BoardLine::P8 | BoardLine::NoConnect | BoardLine::AccInt2 | BoardLine::StormInt | BoardLine::TmpDrdy | BoardLine::AccInt1 | BoardLine::EnSen | BoardLine::Led0 => PinEffect { control: Some(Control::Gpio), output_enabled: None, high: None, pull_up: None, pull_down: None, interrupt_enabled: None },
        BoardLine::RfIrq => PinEffect { control: Some(Control::Gpio), output_enabled: Some(false), high: None, pull_up: None, pull_down: None, interrupt_enabled: Some(false) },
        BoardLine::RfSleep => PinEffect { control: Some(Control::Gpio), output_enabled: Some(true), high: Some(false), pull_up: None, pull_down: None, interrupt_enabled: None },
        BoardLine::RfReset => PinEffect { control: Some(Control::Gpio), output_enabled: Some(true), high: Some(true), pull_up: None, pull_down: None, interrupt_enabled: None },
        BoardLine::LiInt | BoardLine::ExtInt1 => PinEffect { control: Some(Control::Peripheral(PeripheralFunction::C)), output_enabled: None, high: None, pull_up: None, pull_down: None, interrupt_enabled: None },
        BoardLine::Ad0 | BoardLine::Pcd4 => PinEffect { control: Some(Control::Gpio), output_enabled: Some(false), high: None, pull_up: Some(false), pull_down: Some(false), interrupt_enabled: None },
        BoardLine::U1Rx | BoardLine::StormRts | BoardLine::StormRx | BoardLine::StormTx => PinEffect { control: Some(Control::Peripheral(PeripheralFunction::B)), output_enabled: None, high: None, pull_up: None, pull_down: None, interrupt_enabled: None },
        BoardLine::StormCts | BoardLine::Sda | BoardLine::Scl => PinEffect { control: Some(Control::Peripheral(PeripheralFunction::E)), output_enabled: None, high: None, pull_up: None, pull_down: None, interrupt_enabled: None },
        BoardLine::Pclk | BoardLine::Pcen1 | BoardLine::Epgp | BoardLine::Pcd0 | BoardLine::Pcd1 | BoardLine::Pcd2 | BoardLine::Pcd3 | BoardLine::Pcd5 | BoardLine::Pcd6 | BoardLine::Pcd7 => PinEffect { control: Some(Control::Peripheral(PeripheralFunction::D)), output_enabled: None, high: None, pull_up: None, pull_down: None, interrupt_enabled: None },
    }
}

/// The board lines on which the reset configuration writes more than who
/// controls the pin: the RF233 interrupt, sleep and reset lines, AD0 and PCD4.
pub open spec fn sets_more_than_control(line: BoardLine) -> bool {
    ||| line == BoardLine::RfIrq
    ||| line == BoardLine::RfSleep
    ||| line == BoardLine::RfReset
    ||| line == BoardLine::Ad0
    ||| line == BoardLine::Pcd4
}

proof fn lemma_reset_control(line: BoardLine)
    ensures
        final_control(primary_function_steps(), line_pin(line)) == line_setup(line).control,
{
    reveal_with_fuel(control_after, 85);
    match line {
        BoardLine::SpiNpcs0 => {},
        BoardLine::SpiNpcs1 => {},
        BoardLine::SpiNpcs2 => {},
        BoardLine::SpiNpcs3 => {},
        BoardLine::SpiClk => {},
        BoardLine::SpiMiso => {},
        BoardLine::SpiMosi => {},
        BoardLine::RfIrq => {},
        BoardLine::RfSleep => {},
        BoardLine::RfReset => {},
        BoardLine::LiInt => {},
        BoardLine::ExtInt1 => {},
        BoardLine::Pwm0 => {},
        BoardLine::Pwm1 => {},
        BoardLine::Pwm2 => {},
        BoardLine::Pwm3 => {},
        BoardLine::Ad5 => {},
        BoardLine::Ad4 => {},
        BoardLine::Ad3 => {},
        BoardLine::Ad2 => {},
        BoardLine::Ad1 => {},
        BoardLine::Ad0 => {},
        BoardLine::BlSel => {},
        BoardLine::Usart3Cts => {},
        BoardLine::Usart3Clk => {},
        BoardLine::PriRx => {},
        BoardLine::PriTx => {},
        BoardLine::U1Cts => {},
        BoardLine::U1Rts => {},
        BoardLine::U1Clk => {},
        BoardLine::U1Rx => {},
        BoardLine::U1Tx => {},
        BoardLine::StormRts => {},
        BoardLine::StormCts => {},
        BoardLine::StormRx => {},
        BoardLine::StormTx => {},
        BoardLine::StormClk => {},
        BoardLine::Esda => {},
        BoardLine::Escl => {},
        BoardLine::Sda => {},
        BoardLine::Scl => {},
        BoardLine::EpClk => {},
        BoardLine::EpDat => {},
        BoardLine::Pclk => {},
        BoardLine::Pcen1 => {},
        BoardLine::Epgp => {},
        BoardLine::Pcd0 => {},
        BoardLine::Pcd1 => {},
        BoardLine::Pcd2 => {},
        BoardLine::Pcd3 => {},
        BoardLine::Pcd4 => {},
        BoardLine::Pcd5 => {},
        BoardLine::Pcd6 => {},
        BoardLine::Pcd7 => {},
        BoardLine::P2 => {},
        BoardLine::P3 => {},
        BoardLine::P4 => {},
        BoardLine::P5 => {},
        BoardLine::P6 => {},
        BoardLine::P7 => {},
        BoardLine::P8 => {},
        BoardLine::NoConnect => {},
        BoardLine::AccInt2 => {},
        BoardLine::StormInt => {},
        BoardLine::TmpDrdy => {},
        BoardLine::AccInt1 => {},
        BoardLine::EnSen => {},
        BoardLine::Led0 => {},
    }
}

proof fn lemma_reset_full_effect(line: BoardLine)
    requires
        sets_more_than_control(line),
    ensures
        effect_after(primary_function_steps(), line_pin(line), 84) == line_setup(line),
{
    reveal_with_fuel(effect_after, 85);
    match line {
        BoardLine::RfIrq => {},
        BoardLine::RfSleep => {},
        BoardLine::RfReset => {},
        BoardLine::Ad0 => {},
        BoardLine::Pcd4 => {},
        _ => {},
    }
}

/// Apart from handing pins to the GPIO controller or to peripheral
/// functions, the reset configuration only writes to the lines of
/// `sets_more_than_control`.
pub proof fn lemma_reset_other_writes()
    ensures
        forall|i: int|
            0 <= i < primary_function_steps().len() ==> control_set_by(
                (#[trigger] primary_function_steps()[i]).op,
            ) is Some || primary_function_steps()[i].pin == line_pin(BoardLine::RfIrq)
                || primary_function_steps()[i].pin == line_pin(BoardLine::RfSleep)
                || primary_function_steps()[i].pin == line_pin(BoardLine::RfReset)
                || primary_function_steps()[i].pin == line_pin(BoardLine::Ad0)
                || primary_function_steps()[i].pin == line_pin(BoardLine::Pcd4),
{
}

proof fn lemma_only_control_written(steps: Seq<PinStep>, pin: Pin, n: nat)
    requires
        n <= steps.len(),
        forall|i: int|
            0 <= i < n && (#[trigger] steps[i]).pin == pin ==> control_set_by(steps[i].op) is Some,
    ensures
        effect_after(steps, pin, n).output_enabled is None,
        effect_after(steps, pin, n).high is None,
        effect_after(steps, pin, n).pull_up is None,
        effect_after(steps, pin, n).pull_down is None,
        effect_after(steps, pin, n).interrupt_enabled is None,
    decreases n,
{
    if n > 0 {
        lemma_only_control_written(steps, pin, (n - 1) as nat);
        let step = steps[n - 1];
        if step.pin == pin {
            assert(control_set_by(step.op) is Some);
        }
    }
}

/// The reset configuration, from any configuration a pin had before, leaves
/// each board line as `line_setup` describes: the settings it names are
/// written, every other setting is left as it was.
pub proof fn lemma_reset_configuration(line: BoardLine, s: PinState)
    ensures
        state_after(primary_function_steps(), line_pin(line), s) == overlay(line_setup(line), s),
{
    let steps = primary_function_steps();
    let pin = line_pin(line);
    lemma_state_is_overlay(steps, pin, s, steps.len());
    if sets_more_than_control(line) {
        lemma_reset_full_effect(line);
    } else {
        lemma_reset_control(line);
        lemma_reset_other_writes();
        assert(pin != line_pin(BoardLine::RfIrq) && pin != line_pin(BoardLine::RfSleep) && pin
            != line_pin(BoardLine::RfReset) && pin != line_pin(BoardLine::Ad0) && pin != line_pin(
            BoardLine::Pcd4,
        ));
        lemma_only_control_written(steps, pin, steps.len());
        assert(effect_after(steps, pin, steps.len()) == line_setup(line));
    }
}

/// The pin configuration the board applies at reset, in order.
pub open spec fn primary_function_steps() -> Seq<PinStep> {
    seq![
        PinStep { pin: Pin { port: Port::C, number: 3 }, op: PinOp::Configure(Some(PeripheralFunction::A)) },
        PinStep { pin: Pin { port: Port::C, number: 2 }, op: PinOp::Configure(Some(PeripheralFunction::A)) },
        PinStep { pin: Pin { port: Port::C, number: 0 }, op: PinOp::Configure(Some(PeripheralFunction::A)) },
        PinStep { pin: Pin { port: Port::C, number: 1 }, op: PinOp::Configure(Some(PeripheralFunction::A)) },
        PinStep { pin: Pin { port: Port::C, number: 6 }, op: PinOp::Configure(Some(PeripheralFunction::A)) },
        PinStep { pin: Pin { port: Port::C, number: 4 }, op: PinOp::Configure(None) },
        PinStep { pin: Pin { port: Port::C, number: 5 }, op: PinOp::Configure(Some(PeripheralFunction::A)) },
        PinStep { pin: Pin { port: Port::A, number: 20 }, op: PinOp::Enable },
        PinStep { pin: Pin { port: Port::A, number: 20 }, op: PinOp::DisableOutput },
        PinStep { pin: Pin { port: Port::A, number: 20 }, op: PinOp::DisableInterrupt },
        PinStep { pin: Pin { port: Port::C, number: 14 }, op: PinOp::Enable },
        PinStep { pin: Pin { port: Port::C, number: 14 }, op: PinOp::ClearPin },
        PinStep { pin: Pin { port: Port::C, number: 14 }, op: PinOp::EnableOutput },
        PinStep { pin: Pin { port: Port::C, number: 14 }, op: PinOp::ClearPin },
        PinStep { pin: Pin { port: Port::C, number: 15 }, op: PinOp::Enable },
        PinStep { pin: Pin { port: Port::C, number: 15 }, op: PinOp::SetPin },
        PinStep { pin: Pin { port: Port::C, number: 15 }, op: PinOp::EnableOutput },
        PinStep { pin: Pin { port: Port::C, number: 15 }, op: PinOp::SetPin },
        PinStep { pin: Pin { port: Port::A, number: 4 }, op: PinOp::Configure(Some(PeripheralFunction::C)) },
        PinStep { pin: Pin { port: Port::A, number: 6 }, op: PinOp::Configure(Some(PeripheralFunction::C)) },
        PinStep { pin: Pin { port: Port::A, number: 8 }, op: PinOp::Configure(None) },
        PinStep { pin: Pin { port: Port::C, number: 16 }, op: PinOp::Configure(None) },
        PinStep { pin: Pin { port: Port::C, number: 17 }, op: PinOp::Configure(None) },
        PinStep { pin: Pin { port: Port::C, number: 18 }, op: PinOp::Configure(None) },
        PinStep { pin: Pin { port: Port::A, number: 5 }, op: PinOp::Configure(Some(PeripheralFunction::A)) },
        PinStep { pin: Pin { port: Port::A, number: 7 }, op: PinOp::Configure(Some(PeripheralFunction::A)) },
        PinStep { pin: Pin { port: Port::B, number: 2 }, op: PinOp::Configure(Some(PeripheralFunction::A)) },
        PinStep { pin: Pin { port: Port::B, number: 3 }, op: PinOp::Configure(Some(PeripheralFunction::A)) },
        PinStep { pin: Pin { port: Port::B, number: 4 }, op: PinOp::Configure(Some(PeripheralFunction::A)) },
        PinStep { pin: Pin { port: Port::B, number: 5 }, op: PinOp::Configure(None) },
        PinStep { pin: Pin { port: Port::B, number: 5 }, op: PinOp::Enable },
        PinStep { pin: Pin { port: Port::B, number: 5 }, op: PinOp::DisableOutput },
        PinStep { pin: Pin { port: Port::B, number: 5 }, op: PinOp::DisablePullUp },
        PinStep { pin: Pin { port: Port::B, number: 5 }, op: PinOp::DisablePullDown },
        PinStep { pin: Pin { port: Port::B, number: 6 }, op: PinOp::Configure(Some(PeripheralFunction::A)) },
        PinStep { pin: Pin { port: Port::B, number: 7 }, op: PinOp::Configure(Some(PeripheralFunction::A)) },
        PinStep { pin: Pin { port: Port::B, number: 8 }, op: PinOp::Configure(Some(PeripheralFunction::A)) },
        PinStep { pin: Pin { port: Port::B, number: 9 }, op: PinOp::Configure(Some(PeripheralFunction::A)) },
        PinStep { pin: Pin { port: Port::B, number: 10 }, op: PinOp::Configure(Some(PeripheralFunction::A)) },
        PinStep { pin: Pin { port: Port::B, number: 11 }, op: PinOp::Configure(Some(PeripheralFunction::A)) },
        PinStep { pin: Pin { port: Port::B, number: 12 }, op: PinOp::Configure(Some(PeripheralFunction::A)) },
        PinStep { pin: Pin { port: Port::B, number: 13 }, op: PinOp::Configure(Some(PeripheralFunction::A)) },
        PinStep { pin: Pin { port: Port::B, number: 14 }, op: PinOp::Configure(Some(PeripheralFunction::B)) },
        PinStep { pin: Pin { port: Port::B, number: 15 }, op: PinOp::Configure(Some(PeripheralFunction::A)) },
        PinStep { pin: Pin { port: Port::C, number: 7 }, op: PinOp::Configure(Some(PeripheralFunction::B)) },
        PinStep { pin: Pin { port: Port::C, number: 8 }, op: PinOp::Configure(Some(PeripheralFunction::E)) },
        PinStep { pin: Pin { port: Port::C, number: 11 }, op: PinOp::Configure(Some(PeripheralFunction::B)) },
        PinStep { pin: Pin { port: Port::C, number: 12 }, op: PinOp::Configure(Some(PeripheralFunction::B)) },
        PinStep { pin: Pin { port: Port::A, number: 18 }, op: PinOp::Configure(Some(PeripheralFunction::A)) },
        PinStep { pin: Pin { port: Port::B, number: 0 }, op: PinOp::Configure(Some(PeripheralFunction::A)) },
        PinStep { pin: Pin { port: Port::B, number: 1 }, op: PinOp::Configure(Some(PeripheralFunction::A)) },
        PinStep { pin: Pin { port: Port::A, number: 21 }, op: PinOp::Configure(Some(PeripheralFunction::E)) },
        PinStep { pin: Pin { port: Port::A, number: 22 }, op: PinOp::Configure(Some(PeripheralFunction::E)) },
        PinStep { pin: Pin { port: Port::A, number: 25 }, op: PinOp::Configure(Some(PeripheralFunction::A)) },
        PinStep { pin: Pin { port: Port::A, number: 26 }, op: PinOp::Configure(Some(PeripheralFunction::A)) },
        PinStep { pin: Pin { port: Port::C, number: 21 }, op: PinOp::Configure(Some(PeripheralFunction::D)) },
        PinStep { pin: Pin { port: Port::C, number: 22 }, op: PinOp::Configure(Some(PeripheralFunction::D)) },
        PinStep { pin: Pin { port: Port::C, number: 23 }, op: PinOp::Configure(Some(PeripheralFunction::D)) },
        PinStep { pin: Pin { port: Port::C, number: 24 }, op: PinOp::Configure(Some(PeripheralFunction::D)) },
        PinStep { pin: Pin { port: Port::C, number: 25 }, op: PinOp::Configure(Some(PeripheralFunction::D)) },
        PinStep { pin: Pin { port: Port::C, number: 26 }, op: PinOp::Configure(Some(PeripheralFunction::D)) },
        PinStep { pin: Pin { port: Port::C, number: 27 }, op: PinOp::Configure(Some(PeripheralFunction::D)) },
        PinStep { pin: Pin { port: Port::C, number: 28 }, op: PinOp::Configure(None) },
        PinStep { pin: Pin { port: Port::C, number: 28 }, op: PinOp::Enable },
        PinStep { pin: Pin { port: Port::C, number: 28 }, op: PinOp::DisableOutput },
        PinStep { pin: Pin { port: Port::C, number: 28 }, op: PinOp::DisablePullUp },
        PinStep { pin: Pin { port: Port::C, number: 28 }, op: PinOp::DisablePullDown },
        PinStep { pin: Pin { port: Port::C, number: 29 }, op: PinOp::Configure(Some(PeripheralFunction::D)) },
        PinStep { pin: Pin { port: Port::C, number: 30 }, op: PinOp::Configure(Some(PeripheralFunction::D)) },
        PinStep { pin: Pin { port: Port::C, number: 31 }, op: PinOp::Configure(Some(PeripheralFunction::D)) },
        PinStep { pin: Pin { port: Port::A, number: 16 }, op: PinOp::Configure(None) },
        PinStep { pin: Pin { port: Port::A, number: 12 }, op: PinOp::Configure(None) },
        PinStep { pin: Pin { port: Port::C, number: 9 }, op: PinOp::Configure(None) },
        PinStep { pin: Pin { port: Port::A, number: 10 }, op: PinOp::Configure(None) },
        PinStep { pin: Pin { port: Port::A, number: 11 }, op: PinOp::Configure(None) },
        PinStep { pin: Pin { port: Port::A, number: 19 }, op: PinOp::Configure(None) },
        PinStep { pin: Pin { port: Port::A, number: 13 }, op: PinOp::Configure(None) },
        PinStep { pin: Pin { port: Port::A, number: 14 }, op: PinOp::Configure(None) },
        PinStep { pin: Pin { port: Port::C, number: 20 }, op: PinOp::Configure(None) },
        PinStep { pin: Pin { port: Port::A, number: 17 }, op: PinOp::Configure(None) },
        PinStep { pin: Pin { port: Port::A, number: 9 }, op: PinOp::Configure(None) },
        PinStep { pin: Pin { port: Port::C, number: 13 }, op: PinOp::Configure(None) },
        PinStep { pin: Pin { port: Port::C, number: 19 }, op: PinOp::Configure(None) },
        PinStep { pin: Pin { port: Port::C, number: 10 }, op: PinOp::Configure(None) },
    ]
}

/// The pin configuration the board applies at reset: the SPI lines of the
/// RF233 radio, its interrupt, sleep and reset lines, the interrupt, ADC, UART,
/// I2C, USB and parallel-capture lines, and the remaining lines as GPIO.
pub fn pin_primary_functions() -> (steps: [PinStep; 84])
    ensures
        steps@ == primary_function_steps(),
{
    [
        PinStep { pin: Pin { port: Port::C, number: 3 }, op: PinOp::Configure(Some(PeripheralFunction::A)) },
        PinStep { pin: Pin { port: Port::C, number: 2 }, op: PinOp::Configure(Some(PeripheralFunction::A)) },
        PinStep { pin: Pin { port: Port::C, number: 0 }, op: PinOp::Configure(Some(PeripheralFunction::A)) },
        PinStep { pin: Pin { port: Port::C, number: 1 }, op: PinOp::Configure(Some(PeripheralFunction::A)) },
        PinStep { pin: Pin { port: Port::C, number: 6 }, op: PinOp::Configure(Some(PeripheralFunction::A)) },
        PinStep { pin: Pin { port: Port::C, number: 4 }, op: PinOp::Configure(None) },
        PinStep { pin: Pin { port: Port::C, number: 5 }, op: PinOp::Configure(Some(PeripheralFunction::A)) },
        PinStep { pin: Pin { port: Port::A, number: 20 }, op: PinOp::Enable },
        PinStep { pin: Pin { port: Port::A, number: 20 }, op: PinOp::DisableOutput },
        PinStep { pin: Pin { port: Port::A, number: 20 }, op: PinOp::DisableInterrupt },
        PinStep { pin: Pin { port: Port::C, number: 14 }, op: PinOp::Enable },
        PinStep { pin: Pin { port: Port::C, number: 14 }, op: PinOp::ClearPin },
        PinStep { pin: Pin { port: Port::C, number: 14 }, op: PinOp::EnableOutput },
        PinStep { pin: Pin { port: Port::C, number: 14 }, op: PinOp::ClearPin },
        PinStep { pin: Pin { port: Port::C, number: 15 }, op: PinOp::Enable },
        PinStep { pin: Pin { port: Port::C, number: 15 }, op: PinOp::SetPin },
        PinStep { pin: Pin { port: Port::C, number: 15 }, op: PinOp::EnableOutput },
        PinStep { pin: Pin { port: Port::C, number: 15 }, op: PinOp::SetPin },
        PinStep { pin: Pin { port: Port::A, number: 4 }, op: PinOp::Configure(Some(PeripheralFunction::C)) },
        PinStep { pin: Pin { port: Port::A, number: 6 }, op: PinOp::Configure(Some(PeripheralFunction::C)) },
        PinStep { pin: Pin { port: Port::A, number: 8 }, op: PinOp::Configure(None) },
        PinStep { pin: Pin { port: Port::C, number: 16 }, op: PinOp::Configure(None) },
        PinStep { pin: Pin { port: Port::C, number: 17 }, op: PinOp::Configure(None) },
        PinStep { pin: Pin { port: Port::C, number: 18 }, op: PinOp::Configure(None) },
        PinStep { pin: Pin { port: Port::A, number: 5 }, op: PinOp::Configure(Some(PeripheralFunction::A)) },
        PinStep { pin: Pin { port: Port::A, number: 7 }, op: PinOp::Configure(Some(PeripheralFunction::A)) },
        PinStep { pin: Pin { port: Port::B, number: 2 }, op: PinOp::Configure(Some(PeripheralFunction::A)) },
        PinStep { pin: Pin { port: Port::B, number: 3 }, op: PinOp::Configure(Some(PeripheralFunction::A)) },
        PinStep { pin: Pin { port: Port::B, number: 4 }, op: PinOp::Configure(Some(PeripheralFunction::A)) },
        PinStep { pin: Pin { port: Port::B, number: 5 }, op: PinOp::Configure(None) },
        PinStep { pin: Pin { port: Port::B, number: 5 }, op: PinOp::Enable },
        PinStep { pin: Pin { port: Port::B, number: 5 }, op: PinOp::DisableOutput },
        PinStep { pin: Pin { port: Port::B, number: 5 }, op: PinOp::DisablePullUp },
        PinStep { pin: Pin { port: Port::B, number: 5 }, op: PinOp::DisablePullDown },
        PinStep { pin: Pin { port: Port::B, number: 6 }, op: PinOp::Configure(Some(PeripheralFunction::A)) },
        PinStep { pin: Pin { port: Port::B, number: 7 }, op: PinOp::Configure(Some(PeripheralFunction::A)) },
        PinStep { pin: Pin { port: Port::B, number: 8 }, op: PinOp::Configure(Some(PeripheralFunction::A)) },
        PinStep { pin: Pin { port: Port::B, number: 9 }, op: PinOp::Configure(Some(PeripheralFunction::A)) },
        PinStep { pin: Pin { port: Port::B, number: 10 }, op: PinOp::Configure(Some(PeripheralFunction::A)) },
        PinStep { pin: Pin { port: Port::B, number: 11 }, op: PinOp::Configure(Some(PeripheralFunction::A)) },
        PinStep { pin: Pin { port: Port::B, number: 12 }, op: PinOp::Configure(Some(PeripheralFunction::A)) },
        PinStep { pin: Pin { port: Port::B, number: 13 }, op: PinOp::Configure(Some(PeripheralFunction::A)) },
        PinStep { pin: Pin { port: Port::B, number: 14 }, op: PinOp::Configure(Some(PeripheralFunction::B)) },
        PinStep { pin: Pin { port: Port::B, number: 15 }, op: PinOp::Configure(Some(PeripheralFunction::A)) },
        PinStep { pin: Pin { port: Port::C, number: 7 }, op: PinOp::Configure(Some(PeripheralFunction::B)) },
        PinStep { pin: Pin { port: Port::C, number: 8 }, op: PinOp::Configure(Some(PeripheralFunction::E)) },
        PinStep { pin: Pin { port: Port::C, number: 11 }, op: PinOp::Configure(Some(PeripheralFunction::B)) },
        PinStep { pin: Pin { port: Port::C, number: 12 }, op: PinOp::Configure(Some(PeripheralFunction::B)) },
        PinStep { pin: Pin { port: Port::A, number: 18 }, op: PinOp::Configure(Some(PeripheralFunction::A)) },
        PinStep { pin: Pin { port: Port::B, number: 0 }, op: PinOp::Configure(Some(PeripheralFunction::A)) },
        PinStep { pin: Pin { port: Port::B, number: 1 }, op: PinOp::Configure(Some(PeripheralFunction::A)) },
        PinStep { pin: Pin { port: Port::A, number: 21 }, op: PinOp::Configure(Some(PeripheralFunction::E)) },
        PinStep { pin: Pin { port: Port::A, number: 22 }, op: PinOp::Configure(Some(PeripheralFunction::E)) },
        PinStep { pin: Pin { port: Port::A, number: 25 }, op: PinOp::Configure(Some(PeripheralFunction::A)) },
        PinStep { pin: Pin { port: Port::A, number: 26 }, op: PinOp::Configure(Some(PeripheralFunction::A)) },
        PinStep { pin: Pin { port: Port::C, number: 21 }, op: PinOp::Configure(Some(PeripheralFunction::D)) },
        PinStep { pin: Pin { port: Port::C, number: 22 }, op: PinOp::Configure(Some(PeripheralFunction::D)) },
        PinStep { pin: Pin { port: Port::C, number: 23 }, op: PinOp::Configure(Some(PeripheralFunction::D)) },
        PinStep { pin: Pin { port: Port::C, number: 24 }, op: PinOp::Configure(Some(PeripheralFunction::D)) },
        PinStep { pin: Pin { port: Port::C, number: 25 }, op: PinOp::Configure(Some(PeripheralFunction::D)) },
        PinStep { pin: Pin { port: Port::C, number: 26 }, op: PinOp::Configure(Some(PeripheralFunction::D)) },
        PinStep { pin: Pin { port: Port::C, number: 27 }, op: PinOp::Configure(Some(PeripheralFunction::D)) },
        PinStep { pin: Pin { port: Port::C, number: 28 }, op: PinOp::Configure(None) },
        PinStep { pin: Pin { port: Port::C, number: 28 }, op: PinOp::Enable },
        PinStep { pin: Pin { port: Port::C, number: 28 }, op: PinOp::DisableOutput },
        PinStep { pin: Pin { port: Port::C, number: 28 }, op: PinOp::DisablePullUp },
        PinStep { pin: Pin { port: Port::C, number: 28 }, op: PinOp::DisablePullDown },
        PinStep { pin: Pin { port: Port::C, number: 29 }, op: PinOp::Configure(Some(PeripheralFunction::D)) },
        PinStep { pin: Pin { port: Port::C, number: 30 }, op: PinOp::Configure(Some(PeripheralFunction::D)) },
        PinStep { pin: Pin { port: Port::C, number: 31 }, op: PinOp::Configure(Some(PeripheralFunction::D)) },
        PinStep { pin: Pin { port: Port::A, number: 16 }, op: PinOp::Configure(None) },
        PinStep { pin: Pin { port: Port::A, number: 12 }, op: PinOp::Configure(None) },
        PinStep { pin: Pin { port: Port::C, number: 9 }, op: PinOp::Configure(None) },
        PinStep { pin: Pin { port: Port::A, number: 10 }, op: PinOp::Configure(None) },
        PinStep { pin: Pin { port: Port::A, number: 11 }, op: PinOp::Configure(None) },
        PinStep { pin: Pin { port: Port::A, number: 19 }, op: PinOp::Configure(None) },
        PinStep { pin: Pin { port: Port::A, number: 13 }, op: PinOp::Configure(None) },
        PinStep { pin: Pin { port: Port::A, number: 14 }, op: PinOp::Configure(None) },
        PinStep { pin: Pin { port: Port::C, number: 20 }, op: PinOp::Configure(None) },
        PinStep { pin: Pin { port: Port::A, number: 17 }, op: PinOp::Configure(None) },
        PinStep { pin: Pin { port: Port::A, number: 9 }, op: PinOp::Configure(None) },
        PinStep { pin: Pin { port: Port::C, number: 13 }, op: PinOp::Configure(None) },
        PinStep { pin: Pin { port: Port::C, number: 19 }, op: PinOp::Configure(None) },
        PinStep { pin: Pin { port: Port::C, number: 10 }, op: PinOp::Configure(None) },
    ]
}

/// Every step of the reset configuration names an existing SAM4L pin: each
/// port has 32 pins.
pub proof fn lemma_primary_steps_name_valid_pins()
    ensures
        forall|i: int|
            0 <= i < primary_function_steps().len() ==> #[trigger] primary_function_steps()[i].pin.number
                < 32,
{
}

/// Work-around for the SB.02 revision of the board: pin PA14 is driven high
/// as an output before anything else is configured.
pub open spec fn sb02_workaround_steps() -> Seq<PinStep> {
    seq![
        PinStep { pin: Pin { port: Port::A, number: 14 }, op: PinOp::Enable },
        PinStep { pin: Pin { port: Port::A, number: 14 }, op: PinOp::SetPin },
        PinStep { pin: Pin { port: Port::A, number: 14 }, op: PinOp::EnableOutput },
    ]
}

/// The SB.02 work-around leaves the unconnected pin PA14 a GPIO output driven
/// high, and touches no other pin.
pub proof fn lemma_sb02_workaround(pin: Pin, s: PinState)
    ensures
        state_after(sb02_workaround_steps(), line_pin(BoardLine::NoConnect), s) == (PinState {
            control: Control::Gpio,
            output_enabled: true,
            high: true,
            ..s
        }),
        pin != line_pin(BoardLine::NoConnect) ==> state_after(sb02_workaround_steps(), pin, s) == s,
{
    reveal_with_fuel(state_after_steps, 4);
}

/// The steps of the SB.02 work-around, in order.
pub fn sb02_workaround() -> (steps: [PinStep; 3])
    ensures
        steps@ == sb02_workaround_steps(),
{
    [
        PinStep { pin: Pin { port: Port::A, number: 14 }, op: PinOp::Enable },
        PinStep { pin: Pin { port: Port::A, number: 14 }, op: PinOp::SetPin },
        PinStep { pin: Pin { port: Port::A, number: 14 }, op: PinOp::EnableOutput },
    ]
}

} // verus!
