//! The display controller's state machine.
//!
//! Each operation comes in two halves. The first returns the plan: the steps
//! to perform on the controller's lines, in order. Whoever performs them stops
//! at the first step that fails and hands the outcome to the second half,
//! which names the failing stage and brings the driver's record of the panel's
//! power up to date.
use vstd::prelude::*;
use crate::command::{Command, ControlMode, control_mode_byte};
use crate::error::{
    EnterDeepSleepError, InitializationError, InitializeControllerError, RefreshError,
    DisplayError, StepError, WaitForBusyTimeoutError, controller_error, deep_sleep_error, display_write_error,
    ram_area_error, refresh_error,
};
use crate::frame::Frame;
use crate::panel::{DISPLAY_HEIGHT, DISPLAY_WIDTH, low_byte, high_byte};
use crate::protocol::{
    CONTROLLER_SETUP_STEPS, DEEP_SLEEP_ENTER, Failure, HIGH_TEMPERATURE, POWER_DOWN_STEPS,
    POWER_OFF_BITS, POWER_ON_BITS, RAM_AREA_STEPS, RESET_STEPS, RefreshMode, Step, StepView,
    byte, clear_ram_steps, cmd, control_mode_of, controller_setup_steps, deep_sleep_steps, display_shape, display_steps,
    effective_mode, frame_write_steps, initialize_controller_steps, mode_byte, mode_pattern,
    outcome_fits, plan_view, power_down_steps, push_byte, push_command, push_step,
    ram_area_steps, refresh_steps, reset_steps, set_ram_area,
};

verus! {

/// What the driver knows of the controller.
#[derive(Clone, Copy, Debug, PartialEq, Eq, Structural)]
pub struct DisplayState {
    /// Whether the analog rails and the oscillator are on.
    pub screen_on: bool,
    /// Whether a waveform table other than the built-in one is loaded.
    pub custom_lut: bool,
    /// Bound on every wait for the busy line, in milliseconds.
    pub idle_timeout_ms: u64,
}

/// `s` with the screen's power recorded as `on`.
pub open spec fn with_screen(s: DisplayState, on: bool) -> DisplayState {
    DisplayState { screen_on: on, custom_lut: s.custom_lut, idle_timeout_ms: s.idle_timeout_ms }
}

/// The error of the power-on sequence failing at `f`.
pub open spec fn initialize_controller_failure(f: Failure) -> InitializeControllerError {
    let ram_start = CONTROLLER_SETUP_STEPS as int;
    if ram_start <= f.step < ram_start + RAM_AREA_STEPS as int {
        InitializeControllerError::SetRamArea(ram_area_error(f.error))
    } else {
        controller_error(f.error)
    }
}

/// Number of frame-writing steps of a display in mode `m`.
pub open spec fn frame_write_len(m: RefreshMode) -> int {
    if m == RefreshMode::Fast { 2 } else { 4 }
}

/// The error of a display in (effective) mode `m` failing at `f`.
pub open spec fn display_failure(m: RefreshMode, f: Failure) -> DisplayError {
    if f.step < RAM_AREA_STEPS as int {
        DisplayError::SetRamArea(ram_area_error(f.error))
    } else if f.step < RAM_AREA_STEPS as int + frame_write_len(m) {
        display_write_error(f.error)
    } else {
        DisplayError::Refresh(refresh_error(f.error))
    }
}

/// Whether a sleep plan's power-down, if it had one, got through its wait.
pub open spec fn powered_down(screen_on: bool, outcome: Result<(), Failure>) -> bool {
    screen_on && match outcome {
        Ok(_) => true,
        Err(f) => f.step >= POWER_DOWN_STEPS,
    }
}

/// The display-update byte of a refresh in `mode`: power-on bits when the
/// screen is off, power-down bits when it is to be turned off, and the mode's
/// own pattern (for a fast refresh, one of two by the waveform table).
pub fn display_mode_byte(mode: RefreshMode, screen_on: bool, custom_lut: bool, turn_off: bool) -> (r: u8)
    ensures
        r == mode_byte(mode, screen_on, custom_lut, turn_off),
{
    let mut bits: u8 = 0;
    if !screen_on {
        bits = bits | POWER_ON_BITS;
    }
    if turn_off {
        bits = bits | POWER_OFF_BITS;
    }
    let pattern: u8 = match mode {
        RefreshMode::Fast => if custom_lut { 0x0C } else { 0x1C },
        RefreshMode::Full => 0x34,
        RefreshMode::HalfRefresh => 0xD4,
    };
    assert(pattern == mode_pattern(mode, custom_lut));
    assert((0u8 | POWER_ON_BITS) == POWER_ON_BITS) by (bit_vector);
    assert((0u8 | POWER_OFF_BITS) == POWER_OFF_BITS) by (bit_vector);
    assert((POWER_ON_BITS | 0u8) == POWER_ON_BITS) by (bit_vector);
    assert((0u8 | 0u8) == 0u8) by (bit_vector);
    bits | pattern
}

/// Showing a frame on a screen that is off is a half refresh whatever mode is
/// asked: the frame goes to both RAM planes, and the update byte powers the
/// screen on.
pub proof fn lemma_display_from_cold(custom_lut: bool, mode: RefreshMode, frame: Seq<u8>, timeout: u64)
    ensures
        display_steps(false, custom_lut, mode, frame, timeout) == display_steps(
            false,
            custom_lut,
            RefreshMode::HalfRefresh,
            frame,
            timeout,
        ),
        display_steps(false, custom_lut, mode, frame, timeout).subrange(
            RAM_AREA_STEPS as int,
            RAM_AREA_STEPS + 4,
        ) == seq![
            cmd(Command::WriteBwRam), StepView::Data(frame),
            cmd(Command::WriteRedRam), StepView::Data(frame),
        ],
        mode_byte(RefreshMode::HalfRefresh, false, custom_lut, false) & POWER_ON_BITS == POWER_ON_BITS,
{
    let s = display_steps(false, custom_lut, mode, frame, timeout);
    assert(s.subrange(RAM_AREA_STEPS as int, RAM_AREA_STEPS + 4) =~= frame_write_steps(
        RefreshMode::HalfRefresh,
        frame,
    ));
    assert((0xC0u8 | 0u8 | 0xD4u8) & 0xC0u8 == 0xC0u8) by (bit_vector);
}

/// Putting the controller to sleep while the screen is on sends exactly the
/// power-down pair of updates and its wait, then the deep-sleep pair.
pub proof fn lemma_deep_sleep_from_on(timeout: u64)
    ensures
        deep_sleep_steps(true, timeout) == seq![
            cmd(Command::DisplayUpdateControl1), byte(0x40),
            cmd(Command::DisplayUpdateControl2), byte(0x03),
            StepView::WaitForIdle(timeout),
            cmd(Command::DeepSleep), byte(0x01),
        ],
{
    assert(deep_sleep_steps(true, timeout) =~= seq![
        cmd(Command::DisplayUpdateControl1), byte(0x40),
        cmd(Command::DisplayUpdateControl2), byte(0x03),
        StepView::WaitForIdle(timeout),
        cmd(Command::DeepSleep), byte(0x01),
    ]);
}

/// The power-on sequence waits for the first time right after the soft reset;
/// running out of time there fails the sequence as a timeout.
pub proof fn lemma_first_wait_of_initialize(timeout: u64)
    ensures
        initialize_controller_steps(timeout).take(2) == seq![
            cmd(Command::SoftReset), StepView::WaitForIdle(timeout),
        ],
        initialize_controller_failure(
            Failure { step: 1, error: StepError::WaitForBusy(WaitForBusyTimeoutError) },
        ) == InitializeControllerError::WaitForBusy(WaitForBusyTimeoutError),
{
    assert(initialize_controller_steps(timeout).take(2) =~= seq![
        cmd(Command::SoftReset), StepView::WaitForIdle(timeout),
    ]);
}

/// The driver of one display controller.
pub struct EinkDisplay {
    is_screen_on: bool,
    is_custom_lut_active: bool,
    idle_timeout_ms: u64,
}

impl View for EinkDisplay {
    type V = DisplayState;

    closed spec fn view(&self) -> DisplayState {
        DisplayState {
            screen_on: self.is_screen_on,
            custom_lut: self.is_custom_lut_active,
            idle_timeout_ms: self.idle_timeout_ms,
        }
    }
}

impl EinkDisplay {
    /// A driver for a controller whose screen starts as `screen_on`, waiting at
    /// most `idle_timeout_ms` milliseconds for the busy line each time.
    pub fn new(screen_on: bool, idle_timeout_ms: u64) -> (r: EinkDisplay)
        ensures
            r@ == (DisplayState { screen_on, custom_lut: false, idle_timeout_ms }),
    {
        EinkDisplay { is_screen_on: screen_on, is_custom_lut_active: false, idle_timeout_ms }
    }

    pub fn is_screen_on(&self) -> (r: bool)
        ensures
            r == self@.screen_on,
    {
        self.is_screen_on
    }

    pub fn is_custom_lut_active(&self) -> (r: bool)
        ensures
            r == self@.custom_lut,
    {
        self.is_custom_lut_active
    }

    pub fn idle_timeout_ms(&self) -> (r: u64)
        ensures
            r == self@.idle_timeout_ms,
    {
        self.idle_timeout_ms
    }

    fn push_reset<'a>(steps: &mut Vec<Step<'a>>)
        ensures
            plan_view(final(steps)@) == plan_view(old(steps)@) + reset_steps(),
    {
        let ghost start = plan_view(steps@);
        push_step(steps, Step::Reset(true));
        push_step(steps, Step::Pause(20));
        push_step(steps, Step::Reset(false));
        push_step(steps, Step::Pause(2));
        push_step(steps, Step::Reset(true));
        push_step(steps, Step::Pause(20));
        assert(plan_view(steps@) =~= start + reset_steps());
    }

    /// The hardware reset pulse, whose timing comes from the panel's datasheet.
    pub fn reset(&self) -> (r: Vec<Step<'static>>)
        ensures
            plan_view(r@) == reset_steps(),
    {
        let mut steps: Vec<Step<'static>> = Vec::new();
        assert(plan_view(steps@) =~= Seq::<StepView>::empty());
        Self::push_reset(&mut steps);
        assert(plan_view(steps@) =~= reset_steps());
        steps
    }

    fn push_initialize_controller<'a>(&self, steps: &mut Vec<Step<'a>>)
        ensures
            plan_view(final(steps)@) == plan_view(old(steps)@) + initialize_controller_steps(
                self@.idle_timeout_ms,
            ),
    {
        let ghost start = plan_view(steps@);
        let t = self.idle_timeout_ms;
        let last_row: u16 = DISPLAY_HEIGHT - 1;
        push_command(steps, Command::SoftReset);
        push_step(steps, Step::WaitForIdle(t));
        push_command(steps, Command::TemperatureSensorControl);
        push_byte(steps, 0x80);
        push_command(steps, Command::BoosterSoftStart);
        push_byte(steps, 0xAE);
        push_byte(steps, 0xC7);
        push_byte(steps, 0xC3);
        push_byte(steps, 0xC0);
        push_byte(steps, 0xC0);
        push_byte(steps, 0x40);
        push_command(steps, Command::DriverOutputControl);
        push_byte(steps, low_byte(last_row));
        push_byte(steps, high_byte(last_row));
        push_byte(steps, 0x02);
        push_command(steps, Command::BorderWaveformControl);
        push_byte(steps, 0x01);
        assert(plan_view(steps@) =~= start + controller_setup_steps(t));
        set_ram_area(steps, 0, 0, DISPLAY_WIDTH, DISPLAY_HEIGHT);
        let ghost mid = plan_view(steps@);
        push_command(steps, Command::AutoWriteBwRam);
        push_byte(steps, 0xF7);
        push_step(steps, Step::WaitForIdle(t));
        push_command(steps, Command::AutoWriteRedRam);
        push_byte(steps, 0xF7);
        push_step(steps, Step::WaitForIdle(t));
        assert(plan_view(steps@) =~= mid + clear_ram_steps(t));
        assert(plan_view(steps@) =~= start + initialize_controller_steps(t));
    }

    /// The controller's power-on sequence: soft reset, sensor, booster, driver
    /// output and border set-up, the full-panel RAM window, and both RAM planes
    /// cleared.
    pub fn initialize_controller(&self) -> (r: Vec<Step<'static>>)
        ensures
            plan_view(r@) == initialize_controller_steps(self@.idle_timeout_ms),
    {
        let mut steps: Vec<Step<'static>> = Vec::new();
        assert(plan_view(steps@) =~= Seq::<StepView>::empty());
        self.push_initialize_controller(&mut steps);
        assert(plan_view(steps@) =~= initialize_controller_steps(self@.idle_timeout_ms));
        steps
    }

    fn controller_failure(f: Failure, timeout: u64) -> (r: InitializeControllerError)
        requires
            outcome_fits(initialize_controller_steps(timeout), Err(f)),
        ensures
            r == initialize_controller_failure(f),
    {
        if CONTROLLER_SETUP_STEPS <= f.step && f.step < CONTROLLER_SETUP_STEPS + RAM_AREA_STEPS {
            let ghost ram = ram_area_steps(0, 0, DISPLAY_WIDTH as int, DISPLAY_HEIGHT as int);
            assert(initialize_controller_steps(timeout)[f.step as int] == ram[f.step
                - CONTROLLER_SETUP_STEPS]);
            InitializeControllerError::SetRamArea(f.error.into_set_ram_area())
        } else {
            f.error.into_initialize_controller()
        }
    }

    /// The result of the power-on sequence, from the outcome of its plan.
    pub fn initialize_controller_finished(&self, outcome: Result<(), Failure>) -> (r: Result<(), InitializeControllerError>)
        requires
            outcome_fits(initialize_controller_steps(self@.idle_timeout_ms), outcome),
        ensures
            r == match outcome {
                Ok(_) => Ok(()),
                Err(f) => Err(initialize_controller_failure(f)),
            },
    {
        match outcome {
            Ok(()) => Ok(()),
            Err(f) => Err(Self::controller_failure(f, self.idle_timeout_ms)),
        }
    }

    /// Bringing the panel up: the reset pulse, then the power-on sequence.
    pub fn initialize(&self) -> (r: Vec<Step<'static>>)
        ensures
            plan_view(r@) == reset_steps() + initialize_controller_steps(self@.idle_timeout_ms),
    {
        let mut steps: Vec<Step<'static>> = Vec::new();
        assert(plan_view(steps@) =~= Seq::<StepView>::empty());
        Self::push_reset(&mut steps);
        self.push_initialize_controller(&mut steps);
        assert(plan_view(steps@) =~= reset_steps() + initialize_controller_steps(
            self@.idle_timeout_ms,
        ));
        steps
    }

    /// The result of bringing the panel up, from the outcome of its plan. The
    /// reset pulse cannot fail, so a failure lies in the power-on sequence.
    pub fn initialize_finished(&self, outcome: Result<(), Failure>) -> (r: Result<(), InitializationError>)
        requires
            outcome_fits(reset_steps() + initialize_controller_steps(self@.idle_timeout_ms), outcome),
        ensures
            r == match outcome {
                Ok(_) => Ok(()),
                Err(f) => Err(InitializationError::InitializeController(
                    initialize_controller_failure(
                        Failure { step: (f.step - RESET_STEPS) as usize, error: f.error },
                    ),
                )),
            },
    {
        match outcome {
            Ok(()) => Ok(()),
            Err(f) => {
                let ghost all = reset_steps() + initialize_controller_steps(self@.idle_timeout_ms);
                assert(f.step >= RESET_STEPS) by {
                    if f.step < RESET_STEPS {
                        assert(all[f.step as int] == reset_steps()[f.step as int]);
                    }
                }
                let inner = Failure { step: f.step - RESET_STEPS, error: f.error };
                assert(all[f.step as int] == initialize_controller_steps(
                    self@.idle_timeout_ms,
                )[inner.step as int]);
                Err(
                    InitializationError::InitializeController(
                        Self::controller_failure(inner, self.idle_timeout_ms),
                    ),
                )
            },
        }
    }

    fn push_refresh<'a>(&self, steps: &mut Vec<Step<'a>>, mode: RefreshMode, turn_screen_off: bool)
        ensures
            plan_view(final(steps)@) == plan_view(old(steps)@) + refresh_steps(
                mode,
                self@.screen_on,
                self@.custom_lut,
                turn_screen_off,
                self@.idle_timeout_ms,
            ),
    {
        let ghost start = plan_view(steps@);
        let compare = match mode {
            RefreshMode::Fast => ControlMode::Normal,
            _ => ControlMode::BypassRed,
        };
        push_command(steps, Command::DisplayUpdateControl1);
        let mut d: Vec<u8> = Vec::new();
        d.push(compare.byte());
        d.push(0x00);
        assert(d@ =~= seq![control_mode_byte(control_mode_of(mode)), 0x00u8]);
        push_step(steps, Step::Data(d));
        let ghost after_compare = plan_view(steps@);
        if mode == RefreshMode::HalfRefresh {
            push_command(steps, Command::WriteTemperature);
            push_byte(steps, HIGH_TEMPERATURE);
        }
        let ghost temperature = if mode == RefreshMode::HalfRefresh {
            seq![cmd(Command::WriteTemperature), byte(HIGH_TEMPERATURE)]
        } else {
            Seq::<StepView>::empty()
        };
        assert(plan_view(steps@) =~= after_compare + temperature);
        let bits = display_mode_byte(
            mode,
            self.is_screen_on,
            self.is_custom_lut_active,
            turn_screen_off,
        );
        push_command(steps, Command::DisplayUpdateControl2);
        push_byte(steps, bits);
        push_command(steps, Command::MasterActivation);
        push_step(steps, Step::WaitForIdle(self.idle_timeout_ms));
        assert(plan_view(steps@) =~= start + refresh_steps(
            mode,
            self@.screen_on,
            self@.custom_lut,
            turn_screen_off,
            self@.idle_timeout_ms,
        ));
    }

    /// A refresh of the panel in `mode`, turning the screen off after it when
    /// asked.
    pub fn refresh(&self, mode: RefreshMode, turn_screen_off: bool) -> (r: Vec<Step<'static>>)
        ensures
            plan_view(r@) == refresh_steps(
                mode,
                self@.screen_on,
                self@.custom_lut,
                turn_screen_off,
                self@.idle_timeout_ms,
            ),
    {
        let mut steps: Vec<Step<'static>> = Vec::new();
        assert(plan_view(steps@) =~= Seq::<StepView>::empty());
        self.push_refresh(&mut steps, mode, turn_screen_off);
        assert(plan_view(steps@) =~= refresh_steps(
            mode,
            self@.screen_on,
            self@.custom_lut,
            turn_screen_off,
            self@.idle_timeout_ms,
        ));
        steps
    }

    /// The result of a refresh. Once it has gone through, the screen is on
    /// unless it was to be turned off; a failed refresh changes no record.
    pub fn refresh_finished(&mut self, mode: RefreshMode, turn_screen_off: bool, outcome: Result<(), Failure>) -> (r: Result<(), RefreshError>)
        requires
            outcome_fits(
                refresh_steps(
                    mode,
                    old(self)@.screen_on,
                    old(self)@.custom_lut,
                    turn_screen_off,
                    old(self)@.idle_timeout_ms,
                ),
                outcome,
            ),
        ensures
            r == match outcome {
                Ok(_) => Ok(()),
                Err(f) => Err(refresh_error(f.error)),
            },
            final(self)@ == if outcome is Ok {
                with_screen(old(self)@, !turn_screen_off)
            } else {
                old(self)@
            },
    {
        match outcome {
            Ok(()) => {
                self.is_screen_on = !turn_screen_off;
                Ok(())
            },
            Err(f) => Err(f.error.into_refresh()),
        }
    }

    /// Showing `frame`. A screen that is off is refreshed in half-refresh mode
    /// whatever `mode` asks. The frame goes to the black/white plane, and to the
    /// red plane too unless the refresh is fast.
    pub fn display<'a>(&self, mode: RefreshMode, frame: &'a Frame) -> (r: Vec<Step<'a>>)
        ensures
            plan_view(r@) == display_steps(
                self@.screen_on,
                self@.custom_lut,
                mode,
                frame@,
                self@.idle_timeout_ms,
            ),
    {
        let refresh_mode = if !self.is_screen_on {
            RefreshMode::HalfRefresh
        } else {
            mode
        };
        let mut steps: Vec<Step<'a>> = Vec::new();
        assert(plan_view(steps@) =~= Seq::<StepView>::empty());
        set_ram_area(&mut steps, 0, 0, DISPLAY_WIDTH, DISPLAY_HEIGHT);
        let ghost after_ram = plan_view(steps@);
        push_command(&mut steps, Command::WriteBwRam);
        push_step(&mut steps, Step::Frame(frame));
        if refresh_mode != RefreshMode::Fast {
            push_command(&mut steps, Command::WriteRedRam);
            push_step(&mut steps, Step::Frame(frame));
        }
        assert(plan_view(steps@) =~= after_ram + frame_write_steps(refresh_mode, frame@));
        self.push_refresh(&mut steps, refresh_mode, false);
        assert(plan_view(steps@) =~= display_steps(
            self@.screen_on,
            self@.custom_lut,
            mode,
            frame@,
            self@.idle_timeout_ms,
        ));
        steps
    }

    /// The result of showing a frame in `mode`: which stage failed, if one
    /// did. Once it has gone through, the screen is on; a failed display
    /// changes no record.
    pub fn display_finished(&mut self, mode: RefreshMode, outcome: Result<(), Failure>) -> (r: Result<(), DisplayError>)
        requires
            outcome_fits(
                display_shape(
                    old(self)@.screen_on,
                    old(self)@.custom_lut,
                    mode,
                    old(self)@.idle_timeout_ms,
                ),
                outcome,
            ),
        ensures
            r == match outcome {
                Ok(_) => Ok(()),
                Err(f) => Err(display_failure(effective_mode(old(self)@.screen_on, mode), f)),
            },
            final(self)@ == if outcome is Ok {
                with_screen(old(self)@, true)
            } else {
                old(self)@
            },
    {
        let refresh_mode = if !self.is_screen_on {
            RefreshMode::HalfRefresh
        } else {
            mode
        };
        let write_len: usize = if refresh_mode == RefreshMode::Fast { 2 } else { 4 };
        let ghost shape = display_shape(
            self@.screen_on,
            self@.custom_lut,
            mode,
            self@.idle_timeout_ms,
        );
        let ghost ram = ram_area_steps(0, 0, DISPLAY_WIDTH as int, DISPLAY_HEIGHT as int);
        let ghost writes = frame_write_steps(refresh_mode, Seq::empty());
        let ghost rf = refresh_steps(
            refresh_mode,
            self@.screen_on,
            self@.custom_lut,
            false,
            self@.idle_timeout_ms,
        );
        assert(shape == ram + writes + rf);
        match outcome {
            Ok(()) => {
                self.is_screen_on = true;
                Ok(())
            },
            Err(f) => {
                if f.step < RAM_AREA_STEPS {
                    assert(shape[f.step as int] == ram[f.step as int]);
                    Err(DisplayError::SetRamArea(f.error.into_set_ram_area()))
                } else if f.step < RAM_AREA_STEPS + write_len {
                    assert(shape[f.step as int] == writes[f.step - RAM_AREA_STEPS]);
                    Err(f.error.into_display_write())
                } else {
                    Err(DisplayError::Refresh(f.error.into_refresh()))
                }
            },
        }
    }

    /// Putting the controller to sleep: when the screen is on, an explicit
    /// power-down first; then the deep-sleep command. Nothing else should be
    /// sent afterwards until a hardware reset.
    pub fn enter_deep_sleep(&self) -> (r: Vec<Step<'static>>)
        ensures
            plan_view(r@) == deep_sleep_steps(self@.screen_on, self@.idle_timeout_ms),
    {
        let mut steps: Vec<Step<'static>> = Vec::new();
        assert(plan_view(steps@) =~= Seq::<StepView>::empty());
        if self.is_screen_on {
            push_command(&mut steps, Command::DisplayUpdateControl1);
            push_byte(&mut steps, ControlMode::BypassRed.byte());
            push_command(&mut steps, Command::DisplayUpdateControl2);
            push_byte(&mut steps, POWER_OFF_BITS);
            push_step(&mut steps, Step::WaitForIdle(self.idle_timeout_ms));
            assert(plan_view(steps@) =~= power_down_steps(self@.idle_timeout_ms));
        }
        push_command(&mut steps, Command::DeepSleep);
        push_byte(&mut steps, DEEP_SLEEP_ENTER);
        assert(plan_view(steps@) =~= deep_sleep_steps(self@.screen_on, self@.idle_timeout_ms));
        steps
    }

    /// The result of putting the controller to sleep. The screen is recorded
    /// as off once the power-down's wait has gone through.
    pub fn enter_deep_sleep_finished(&mut self, outcome: Result<(), Failure>) -> (r: Result<(), EnterDeepSleepError>)
        requires
            outcome_fits(deep_sleep_steps(old(self)@.screen_on, old(self)@.idle_timeout_ms), outcome),
        ensures
            r == match outcome {
                Ok(_) => Ok(()),
                Err(f) => Err(deep_sleep_error(f.error)),
            },
            final(self)@ == if powered_down(old(self)@.screen_on, outcome) {
                with_screen(old(self)@, false)
            } else {
                old(self)@
            },
    {
        let done = match outcome {
            Ok(()) => true,
            Err(f) => f.step >= POWER_DOWN_STEPS,
        };
        if self.is_screen_on && done {
            self.is_screen_on = false;
        }
        match outcome {
            Ok(()) => Ok(()),
            Err(f) => Err(f.error.into_enter_deep_sleep()),
        }
    }
}

} // verus!
