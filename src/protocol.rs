//! The controller's wire protocol as plans: sequences of bus steps that an
//! operation needs performed, in order, stopping at the first one that fails.
use vstd::prelude::*;
use crate::command::{Command, ControlMode, control_mode_byte};
use crate::error::{StepError};
use crate::frame::Frame;
use crate::panel::{DISPLAY_HEIGHT, DISPLAY_WIDTH, hi, lo, low_byte, high_byte};

verus! {

/// One thing to do on the controller's lines.
#[derive(Debug, PartialEq, Eq)]
pub enum Step<'a> {
    /// Drive data/command low and write the opcode's byte.
    Command(Command),
    /// Drive data/command high and write the bytes.
    Data(Vec<u8>),
    /// Drive data/command high and write the frame's bytes.
    Frame(&'a Frame),
    /// Wait until the busy line reads low, for at most this many milliseconds.
    WaitForIdle(u64),
    /// Drive the reset line high (`true`) or low (`false`).
    Reset(bool),
    /// Do nothing for this many milliseconds.
    Pause(u32),
}

/// A step as a mathematical value.
pub enum StepView {
    Command(Command),
    Data(Seq<u8>),
    WaitForIdle(u64),
    Reset(bool),
    Pause(u32),
}

impl<'a> View for Step<'a> {
    type V = StepView;

    open spec fn view(&self) -> StepView {
        match self {
            Step::Command(c) => StepView::Command(*c),
            Step::Data(d) => StepView::Data(d@),
            Step::Frame(f) => StepView::Data(f@),
            Step::WaitForIdle(t) => StepView::WaitForIdle(*t),
            Step::Reset(l) => StepView::Reset(*l),
            Step::Pause(ms) => StepView::Pause(*ms),
        }
    }
}

/// A plan as a sequence of mathematical steps.
pub open spec fn plan_view<'a>(s: Seq<Step<'a>>) -> Seq<StepView> {
    s.map_values(|x: Step<'a>| x@)
}

/// Whether `e` is a way that step `s` can fail: a write fails on the bus as
/// the kind of write it is, a wait by running out of time, and nothing else
/// fails.
pub open spec fn can_fail_with(s: StepView, e: StepError) -> bool {
    match s {
        StepView::Command(_) => e is SendCommand,
        StepView::Data(_) => e is SendData,
        StepView::WaitForIdle(_) => e is WaitForBusy,
        _ => false,
    }
}

/// Where a plan stopped, and why.
#[derive(Clone, Copy, Debug, PartialEq, Eq, Structural)]
pub struct Failure {
    /// Index of the step that failed; the steps before it were done.
    pub step: usize,
    pub error: StepError,
}

/// Whether `outcome` is a possible result of performing `plan`.
pub open spec fn outcome_fits(plan: Seq<StepView>, outcome: Result<(), Failure>) -> bool {
    match outcome {
        Ok(_) => true,
        Err(f) => f.step < plan.len() && can_fail_with(plan[f.step as int], f.error),
    }
}

/// A command step.
pub open spec fn cmd(c: Command) -> StepView {
    StepView::Command(c)
}

/// A data step of one byte.
pub open spec fn byte(b: u8) -> StepView {
    StepView::Data(seq![b])
}

/// Data entry mode: X increments, Y decrements.
pub const DATA_ENTRY_X_INC_Y_DEC: u8 = 0x01;

/// Whether a RAM window fits the controller's 16-bit addresses and the panel's
/// height, so that its corners can be computed.
pub open spec fn ram_area_fits(x: int, y: int, w: int, h: int) -> bool {
    &&& 1 <= x + w <= 65536
    &&& y < DISPLAY_HEIGHT as int
    &&& y + h <= DISPLAY_HEIGHT as int
}

/// The steps that program the RAM window at `(x, y)` of `w` by `h` pixels.
/// The vertical axis is reversed: the window's rows start at `H - y - h`, and
/// the Y range is given from its high end down.
pub open spec fn ram_area_steps(x: int, y: int, w: int, h: int) -> Seq<StepView> {
    let y_rev = DISPLAY_HEIGHT as int - y - h;
    let x_end = x + w - 1;
    let y_top = y_rev + h - 1;
    seq![
        cmd(Command::DataEntryMode), byte(DATA_ENTRY_X_INC_Y_DEC),
        cmd(Command::SetRamXRange), byte(lo(x)), byte(hi(x)), byte(lo(x_end)), byte(hi(x_end)),
        cmd(Command::SetRamYRange), byte(lo(y_top)), byte(hi(y_top)), byte(lo(y_rev)), byte(hi(y_rev)),
        cmd(Command::SetRamXCounter), byte(lo(x)), byte(hi(x)),
        cmd(Command::SetRamYCounter), byte(lo(y_top)), byte(hi(y_top)),
    ]
}

/// Number of steps that program a RAM window.
pub const RAM_AREA_STEPS: usize = 18;

/// The reset pulse: high for 20 ms, low for 2 ms, high again for 20 ms.
pub open spec fn reset_steps() -> Seq<StepView> {
    seq![
        StepView::Reset(true), StepView::Pause(20),
        StepView::Reset(false), StepView::Pause(2),
        StepView::Reset(true), StepView::Pause(20),
    ]
}

/// Number of steps of the reset pulse.
pub const RESET_STEPS: usize = 6;

/// The controller's power-on sequence before the RAM window is set.
pub open spec fn controller_setup_steps(timeout: u64) -> Seq<StepView> {
    let last_row = DISPLAY_HEIGHT as int - 1;
    seq![
        cmd(Command::SoftReset), StepView::WaitForIdle(timeout),
        cmd(Command::TemperatureSensorControl), byte(0x80),
        cmd(Command::BoosterSoftStart), byte(0xAE), byte(0xC7), byte(0xC3), byte(0xC0), byte(0xC0), byte(0x40),
        cmd(Command::DriverOutputControl), byte(lo(last_row)), byte(hi(last_row)), byte(0x02),
        cmd(Command::BorderWaveformControl), byte(0x01),
    ]
}

/// Number of steps of the power-on sequence before the RAM window.
pub const CONTROLLER_SETUP_STEPS: usize = 17;

/// Clearing both RAM planes, each followed by a wait.
pub open spec fn clear_ram_steps(timeout: u64) -> Seq<StepView> {
    seq![
        cmd(Command::AutoWriteBwRam), byte(0xF7), StepView::WaitForIdle(timeout),
        cmd(Command::AutoWriteRedRam), byte(0xF7), StepView::WaitForIdle(timeout),
    ]
}

/// The whole power-on sequence of the controller.
pub open spec fn initialize_controller_steps(timeout: u64) -> Seq<StepView> {
    controller_setup_steps(timeout) + ram_area_steps(0, 0, DISPLAY_WIDTH as int, DISPLAY_HEIGHT as int)
        + clear_ram_steps(timeout)
}

/// How a refresh updates the panel.
#[derive(Clone, Copy, Debug, PartialEq, Eq, Structural)]
pub enum RefreshMode {
    /// Partial update of the black/white plane only.
    Fast,
    /// Full update from both planes.
    Full,
    /// Update from both planes with a temperature override for faster settling.
    HalfRefresh,
}

/// The comparison mode that a refresh mode uses.
pub open spec fn control_mode_of(mode: RefreshMode) -> ControlMode {
    match mode {
        RefreshMode::Fast => ControlMode::Normal,
        _ => ControlMode::BypassRed,
    }
}

/// Bits 7 and 6: start the oscillator and the analog power rails.
pub const POWER_ON_BITS: u8 = 0xC0;

/// Bits 1 and 0: shut the analog rails and the oscillator down.
pub const POWER_OFF_BITS: u8 = 0x03;

/// The mode-specific bits of the display-update byte.
pub open spec fn mode_pattern(mode: RefreshMode, custom_lut: bool) -> u8 {
    match mode {
        RefreshMode::Fast => if custom_lut { 0x0Cu8 } else { 0x1Cu8 },
        RefreshMode::Full => 0x34u8,
        RefreshMode::HalfRefresh => 0xD4u8,
    }
}

/// The display-update byte of a refresh: power-on bits when the screen is
/// off, power-down bits when asked to turn it off, and the mode's pattern.
pub open spec fn mode_byte(mode: RefreshMode, screen_on: bool, custom_lut: bool, turn_off: bool) -> u8 {
    (if !screen_on { POWER_ON_BITS } else { 0u8 }) | (if turn_off { POWER_OFF_BITS } else { 0u8 })
        | mode_pattern(mode, custom_lut)
}

/// The temperature written before a half refresh: read as hot, to settle fast.
pub const HIGH_TEMPERATURE: u8 = 0x5A;

/// The steps of a refresh.
pub open spec fn refresh_steps(
    mode: RefreshMode,
    screen_on: bool,
    custom_lut: bool,
    turn_off: bool,
    timeout: u64,
) -> Seq<StepView> {
    let compare = seq![
        cmd(Command::DisplayUpdateControl1),
        StepView::Data(seq![control_mode_byte(control_mode_of(mode)), 0x00u8]),
    ];
    let temperature = if mode == RefreshMode::HalfRefresh {
        seq![cmd(Command::WriteTemperature), byte(HIGH_TEMPERATURE)]
    } else {
        Seq::empty()
    };
    compare + temperature + seq![
        cmd(Command::DisplayUpdateControl2), byte(mode_byte(mode, screen_on, custom_lut, turn_off)),
        cmd(Command::MasterActivation), StepView::WaitForIdle(timeout),
    ]
}

/// The mode a display really uses: a screen that is off takes a half refresh.
pub open spec fn effective_mode(screen_on: bool, mode: RefreshMode) -> RefreshMode {
    if !screen_on { RefreshMode::HalfRefresh } else { mode }
}

/// Writing a frame to the RAM planes: black/white always, red too unless fast.
pub open spec fn frame_write_steps(mode: RefreshMode, frame: Seq<u8>) -> Seq<StepView> {
    if mode == RefreshMode::Fast {
        seq![cmd(Command::WriteBwRam), StepView::Data(frame)]
    } else {
        seq![
            cmd(Command::WriteBwRam), StepView::Data(frame),
            cmd(Command::WriteRedRam), StepView::Data(frame),
        ]
    }
}

/// The steps that show a frame.
pub open spec fn display_steps(
    screen_on: bool,
    custom_lut: bool,
    mode: RefreshMode,
    frame: Seq<u8>,
    timeout: u64,
) -> Seq<StepView> {
    let m = effective_mode(screen_on, mode);
    ram_area_steps(0, 0, DISPLAY_WIDTH as int, DISPLAY_HEIGHT as int) + frame_write_steps(m, frame)
        + refresh_steps(m, screen_on, custom_lut, false, timeout)
}

/// The display plan with the frame's bytes left out. An outcome depends only
/// on which kind of step stands where, and that does not depend on the frame.
pub open spec fn display_shape(screen_on: bool, custom_lut: bool, mode: RefreshMode, timeout: u64) -> Seq<StepView> {
    display_steps(screen_on, custom_lut, mode, Seq::empty(), timeout)
}

/// Whatever the frame, the outcomes that fit a display plan are those that fit
/// its shape.
pub proof fn lemma_display_shape(
    screen_on: bool,
    custom_lut: bool,
    mode: RefreshMode,
    frame: Seq<u8>,
    timeout: u64,
    outcome: Result<(), Failure>,
)
    ensures
        display_steps(screen_on, custom_lut, mode, frame, timeout).len() == display_shape(
            screen_on,
            custom_lut,
            mode,
            timeout,
        ).len(),
        outcome_fits(display_steps(screen_on, custom_lut, mode, frame, timeout), outcome)
            == outcome_fits(display_shape(screen_on, custom_lut, mode, timeout), outcome),
{
    let a = display_steps(screen_on, custom_lut, mode, frame, timeout);
    let b = display_shape(screen_on, custom_lut, mode, timeout);
    let m = effective_mode(screen_on, mode);
    let ram = ram_area_steps(0, 0, DISPLAY_WIDTH as int, DISPLAY_HEIGHT as int);
    let wa = frame_write_steps(m, frame);
    let wb = frame_write_steps(m, Seq::empty());
    let rf = refresh_steps(m, screen_on, custom_lut, false, timeout);
    assert(a == ram + wa + rf);
    assert(b == ram + wb + rf);
    if let Err(f) = outcome {
        let i = f.step as int;
        if i < a.len() {
            if i < ram.len() {
                assert(a[i] == ram[i]);
                assert(b[i] == ram[i]);
            } else if i < ram.len() + wa.len() {
                assert(a[i] == wa[i - ram.len()]);
                assert(b[i] == wb[i - ram.len()]);
            } else {
                assert(a[i] == rf[i - ram.len() - wa.len()]);
                assert(b[i] == rf[i - ram.len() - wb.len()]);
            }
        }
    }
}

/// The explicit power-down done before sleep when the screen is on.
pub open spec fn power_down_steps(timeout: u64) -> Seq<StepView> {
    seq![
        cmd(Command::DisplayUpdateControl1), byte(control_mode_byte(ControlMode::BypassRed)),
        cmd(Command::DisplayUpdateControl2), byte(POWER_OFF_BITS),
        StepView::WaitForIdle(timeout),
    ]
}

/// Number of steps of the power-down.
pub const POWER_DOWN_STEPS: usize = 5;

/// Enter deep sleep: the deep-sleep opcode and its "enter" byte.
pub const DEEP_SLEEP_ENTER: u8 = 0x01;

/// The steps that put the controller to sleep.
pub open spec fn deep_sleep_steps(screen_on: bool, timeout: u64) -> Seq<StepView> {
    (if screen_on { power_down_steps(timeout) } else { Seq::empty() }) + seq![
        cmd(Command::DeepSleep), byte(DEEP_SLEEP_ENTER),
    ]
}

pub(crate) fn push_command<'a>(steps: &mut Vec<Step<'a>>, c: Command)
    ensures
        plan_view(final(steps)@) == plan_view(old(steps)@).push(cmd(c)),
{
    steps.push(Step::Command(c));
    assert(plan_view(steps@) =~= plan_view(old(steps)@).push(cmd(c)));
}

pub(crate) fn push_byte<'a>(steps: &mut Vec<Step<'a>>, b: u8)
    ensures
        plan_view(final(steps)@) == plan_view(old(steps)@).push(byte(b)),
{
    let mut d: Vec<u8> = Vec::new();
    d.push(b);
    assert(d@ =~= seq![b]);
    steps.push(Step::Data(d));
    assert(plan_view(steps@) =~= plan_view(old(steps)@).push(byte(b)));
}

pub(crate) fn push_step<'a>(steps: &mut Vec<Step<'a>>, s: Step<'a>)
    ensures
        plan_view(final(steps)@) == plan_view(old(steps)@).push(s@),
{
    let ghost v = s@;
    steps.push(s);
    assert(plan_view(steps@) =~= plan_view(old(steps)@).push(v));
}

/// Appends the steps that program the RAM window at `(x, y)` of `w` by `h`.
pub fn set_ram_area<'a>(steps: &mut Vec<Step<'a>>, x: u16, y: u16, width: u16, height: u16)
    requires
        ram_area_fits(x as int, y as int, width as int, height as int),
    ensures
        plan_view(final(steps)@) == plan_view(old(steps)@) + ram_area_steps(
            x as int,
            y as int,
            width as int,
            height as int,
        ),
{
    // The gates run bottom to top on this panel.
    let y_rev: u16 = DISPLAY_HEIGHT - y - height;
    let x_end: u16 = (x as u32 + width as u32 - 1) as u16;
    let y_top: u16 = DISPLAY_HEIGHT - y - 1;
    let ghost start = plan_view(steps@);
    push_command(steps, Command::DataEntryMode);
    push_byte(steps, DATA_ENTRY_X_INC_Y_DEC);
    push_command(steps, Command::SetRamXRange);
    push_byte(steps, low_byte(x));
    push_byte(steps, high_byte(x));
    push_byte(steps, low_byte(x_end));
    push_byte(steps, high_byte(x_end));
    push_command(steps, Command::SetRamYRange);
    push_byte(steps, low_byte(y_top));
    push_byte(steps, high_byte(y_top));
    push_byte(steps, low_byte(y_rev));
    push_byte(steps, high_byte(y_rev));
    push_command(steps, Command::SetRamXCounter);
    push_byte(steps, low_byte(x));
    push_byte(steps, high_byte(x));
    push_command(steps, Command::SetRamYCounter);
    push_byte(steps, low_byte(y_top));
    push_byte(steps, high_byte(y_top));
    assert(plan_view(steps@) =~= start + ram_area_steps(
        x as int,
        y as int,
        width as int,
        height as int,
    ));
}

/// The plan that programs one RAM window.
pub fn set_ram_area_plan(x: u16, y: u16, width: u16, height: u16) -> (r: Vec<Step<'static>>)
    requires
        ram_area_fits(x as int, y as int, width as int, height as int),
    ensures
        plan_view(r@) == ram_area_steps(x as int, y as int, width as int, height as int),
{
    let mut steps: Vec<Step> = Vec::new();
    assert(plan_view(steps@) =~= Seq::<StepView>::empty());
    set_ram_area(&mut steps, x, y, width, height);
    assert(plan_view(steps@) =~= ram_area_steps(x as int, y as int, width as int, height as int));
    steps
}

} // verus!
