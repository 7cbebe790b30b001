//! Errors of the driver: one enum per operation, each variant naming the step
//! that failed and carrying its cause.
use vstd::prelude::*;

verus! {

/// What went wrong on the serial bus during one write.
#[derive(Clone, Copy, Debug, PartialEq, Eq, Structural)]
pub enum BusFault {
    /// Data arrived faster than it could be taken.
    Overrun,
    /// Another device drove the bus as its master.
    ModeFault,
    /// A frame of the wrong shape was received.
    FrameFormat,
    /// The chip-select line could not be driven.
    ChipSelectFault,
    /// Any other failure of the bus.
    Other,
}

/// Setting up the driver's buffers or bus failed.
#[derive(Clone, Copy, Debug, PartialEq, Eq, Structural)]
pub enum CreateError {
    DmaReceiveBuffer,
    DmaTransmitBuffer,
    SpiBus,
}

/// A command byte could not be written.
#[derive(Clone, Copy, Debug, PartialEq, Eq, Structural)]
pub struct SendCommandError(pub BusFault);

/// Data bytes could not be written.
#[derive(Clone, Copy, Debug, PartialEq, Eq, Structural)]
pub struct SendDataError(pub BusFault);

/// The busy line did not fall before the wait's bound ran out.
#[derive(Clone, Copy, Debug, PartialEq, Eq, Structural)]
pub struct WaitForBusyTimeoutError;

/// The failure of one step of a plan, as whoever performed it saw it.
#[derive(Clone, Copy, Debug, PartialEq, Eq, Structural)]
pub enum StepError {
    SendCommand(SendCommandError),
    SendData(SendDataError),
    WaitForBusy(WaitForBusyTimeoutError),
}

/// Programming the RAM window failed.
#[derive(Clone, Copy, Debug, PartialEq, Eq, Structural)]
pub enum SetRamAreaError {
    SendCommand(SendCommandError),
    SendData(SendDataError),
}

/// The controller's power-on sequence failed.
#[derive(Clone, Copy, Debug, PartialEq, Eq, Structural)]
pub enum InitializeControllerError {
    SendCommand(SendCommandError),
    SendData(SendDataError),
    WaitForBusy(WaitForBusyTimeoutError),
    SetRamArea(SetRamAreaError),
}

/// Bringing the driver up failed.
#[derive(Clone, Copy, Debug, PartialEq, Eq, Structural)]
pub enum InitializationError {
    Create(CreateError),
    InitializeController(InitializeControllerError),
}

/// A screen refresh failed.
#[derive(Clone, Copy, Debug, PartialEq, Eq, Structural)]
pub enum RefreshError {
    SendCommand(SendCommandError),
    SendData(SendDataError),
    WaitForBusy(WaitForBusyTimeoutError),
}

/// Showing a frame failed.
#[derive(Clone, Copy, Debug, PartialEq, Eq, Structural)]
pub enum DisplayError {
    SetRamArea(SetRamAreaError),
    SendCommand(SendCommandError),
    SendData(SendDataError),
    Refresh(RefreshError),
}

/// Putting the controller to sleep failed.
#[derive(Clone, Copy, Debug, PartialEq, Eq, Structural)]
pub enum EnterDeepSleepError {
    SendCommand(SendCommandError),
    SendData(SendDataError),
    WaitForBusy(WaitForBusyTimeoutError),
}

/// A step of the RAM window sequence fails as that sequence's error; the
/// sequence holds no wait.
pub open spec fn ram_area_error(e: StepError) -> SetRamAreaError {
    match e {
        StepError::SendCommand(c) => SetRamAreaError::SendCommand(c),
        StepError::SendData(d) => SetRamAreaError::SendData(d),
        StepError::WaitForBusy(_) => SetRamAreaError::SendData(SendDataError(BusFault::Other)),
    }
}

pub open spec fn controller_error(e: StepError) -> InitializeControllerError {
    match e {
        StepError::SendCommand(c) => InitializeControllerError::SendCommand(c),
        StepError::SendData(d) => InitializeControllerError::SendData(d),
        StepError::WaitForBusy(w) => InitializeControllerError::WaitForBusy(w),
    }
}

pub open spec fn refresh_error(e: StepError) -> RefreshError {
    match e {
        StepError::SendCommand(c) => RefreshError::SendCommand(c),
        StepError::SendData(d) => RefreshError::SendData(d),
        StepError::WaitForBusy(w) => RefreshError::WaitForBusy(w),
    }
}

pub open spec fn deep_sleep_error(e: StepError) -> EnterDeepSleepError {
    match e {
        StepError::SendCommand(c) => EnterDeepSleepError::SendCommand(c),
        StepError::SendData(d) => EnterDeepSleepError::SendData(d),
        StepError::WaitForBusy(w) => EnterDeepSleepError::WaitForBusy(w),
    }
}

/// The error of a failed write of the display's own (outside the window and
/// the refresh).
pub open spec fn display_write_error(e: StepError) -> DisplayError {
    match e {
        StepError::SendCommand(c) => DisplayError::SendCommand(c),
        StepError::SendData(d) => DisplayError::SendData(d),
        StepError::WaitForBusy(_) => DisplayError::SendData(SendDataError(BusFault::Other)),
    }
}

impl StepError {
    pub fn into_set_ram_area(self) -> (r: SetRamAreaError)
        requires
            !(self is WaitForBusy),
        ensures
            r == ram_area_error(self),
    {
        match self {
            StepError::SendCommand(c) => SetRamAreaError::SendCommand(c),
            StepError::SendData(d) => SetRamAreaError::SendData(d),
            StepError::WaitForBusy(_) => SetRamAreaError::SendData(SendDataError(BusFault::Other)),
        }
    }

    pub fn into_initialize_controller(self) -> (r: InitializeControllerError)
        ensures
            r == controller_error(self),
    {
        match self {
            StepError::SendCommand(c) => InitializeControllerError::SendCommand(c),
            StepError::SendData(d) => InitializeControllerError::SendData(d),
            StepError::WaitForBusy(w) => InitializeControllerError::WaitForBusy(w),
        }
    }

    pub fn into_refresh(self) -> (r: RefreshError)
        ensures
            r == refresh_error(self),
    {
        match self {
            StepError::SendCommand(c) => RefreshError::SendCommand(c),
            StepError::SendData(d) => RefreshError::SendData(d),
            StepError::WaitForBusy(w) => RefreshError::WaitForBusy(w),
        }
    }

    pub fn into_enter_deep_sleep(self) -> (r: EnterDeepSleepError)
        ensures
            r == deep_sleep_error(self),
    {
        match self {
            StepError::SendCommand(c) => EnterDeepSleepError::SendCommand(c),
            StepError::SendData(d) => EnterDeepSleepError::SendData(d),
            StepError::WaitForBusy(w) => EnterDeepSleepError::WaitForBusy(w),
        }
    }

    pub fn into_display_write(self) -> (r: DisplayError)
        requires
            !(self is WaitForBusy),
        ensures
            r == display_write_error(self),
    {
        match self {
            StepError::SendCommand(c) => DisplayError::SendCommand(c),
            StepError::SendData(d) => DisplayError::SendData(d),
            StepError::WaitForBusy(_) => DisplayError::SendData(SendDataError(BusFault::Other)),
        }
    }
}

} // verus!
