use vstd::prelude::*;

use crate::controller::MAX_DEVICE_SLOTS;

verus! {

/// What the driver reads from the controller's registers while bringing it up.
#[derive(Clone, Copy, Debug, PartialEq, Eq, Structural)]
pub struct HcStatus {
    /// The extended capabilities hold a USB Legacy Support capability.
    pub legacy_support: bool,
    /// Its BIOS-owned semaphore.
    pub bios_owned: bool,
    /// Its OS-owned semaphore.
    pub os_owned: bool,
    /// USBSTS: HC Halted.
    pub halted: bool,
    /// USBCMD: Host Controller Reset still set.
    pub reset_pending: bool,
    /// USBSTS: Controller Not Ready.
    pub not_ready: bool,
    /// HCSPARAMS2: the number of scratchpad buffers the controller asks for.
    pub max_scratchpad_buffers: u32,
}

/// Where the bring-up sequence stands.
#[derive(Clone, Copy, Debug, PartialEq, Eq, Structural)]
pub enum BringUpPhase {
    Start,
    WaitOwnership,
    WaitHalted,
    WaitResetCleared,
    WaitReady,
    Ready,
}

/// The register work the driver does next.
#[derive(Clone, Copy, Debug, PartialEq, Eq, Structural)]
pub enum BringUpAction {
    /// Set the OS-owned semaphore of the Legacy Support capability.
    RequestOwnership,
    /// Clear interrupter enable, host system error enable and wrap event enable; clear
    /// run/stop too when `clear_run_stop`.
    StopController { clear_run_stop: bool },
    /// Set Host Controller Reset.
    ResetController,
    /// Read the registers again.
    Wait,
    /// Program the number of device slots, allocate the scratchpad buffers (none when the
    /// count is 0), register the device context array, the Command ring with cycle bit 1 and
    /// the Event ring of the primary interrupter, and enable interrupts.
    Configure { max_slots: u8, scratchpad_buffers: u32 },
    /// Nothing left to do.
    Nothing,
}

/// The bring-up sequence, one step at a time: take the controller from the BIOS if it holds
/// it, stop it (run/stop cleared only when not already halted) and wait until halted, reset it
/// and wait until the reset bit clears and the controller is ready, then configure it.
pub open spec fn bring_up_next(phase: BringUpPhase, st: HcStatus) -> (BringUpPhase, BringUpAction) {
    let stop = (BringUpPhase::WaitHalted, BringUpAction::StopController { clear_run_stop: !st.halted });
    let configure = (BringUpPhase::Ready, BringUpAction::Configure { max_slots: MAX_DEVICE_SLOTS as u8, scratchpad_buffers: st.max_scratchpad_buffers });
    match phase {
        BringUpPhase::Start => if st.legacy_support && !st.os_owned {
            (BringUpPhase::WaitOwnership, BringUpAction::RequestOwnership)
        } else {
            stop
        },
        BringUpPhase::WaitOwnership => if !st.os_owned || st.bios_owned {
            (BringUpPhase::WaitOwnership, BringUpAction::Wait)
        } else {
            stop
        },
        BringUpPhase::WaitHalted => if !st.halted {
            (BringUpPhase::WaitHalted, BringUpAction::Wait)
        } else {
            (BringUpPhase::WaitResetCleared, BringUpAction::ResetController)
        },
        BringUpPhase::WaitResetCleared => if st.reset_pending {
            (BringUpPhase::WaitResetCleared, BringUpAction::Wait)
        } else if st.not_ready {
            (BringUpPhase::WaitReady, BringUpAction::Wait)
        } else {
            configure
        },
        BringUpPhase::WaitReady => if st.not_ready {
            (BringUpPhase::WaitReady, BringUpAction::Wait)
        } else {
            configure
        },
        BringUpPhase::Ready => (BringUpPhase::Ready, BringUpAction::Nothing),
    }
}

/// The next phase and register action of the bring-up sequence, given what the registers
/// read now.
pub fn bring_up_step(phase: BringUpPhase, st: HcStatus) -> (r: (BringUpPhase, BringUpAction))
    ensures
        r == bring_up_next(phase, st),
{
    let stop = (BringUpPhase::WaitHalted, BringUpAction::StopController { clear_run_stop: !st.halted });
    let configure = (BringUpPhase::Ready, BringUpAction::Configure { max_slots: MAX_DEVICE_SLOTS as u8, scratchpad_buffers: st.max_scratchpad_buffers });
    match phase {
        BringUpPhase::Start => if st.legacy_support && !st.os_owned {
            (BringUpPhase::WaitOwnership, BringUpAction::RequestOwnership)
        } else {
            stop
        },
        BringUpPhase::WaitOwnership => if !st.os_owned || st.bios_owned {
            (BringUpPhase::WaitOwnership, BringUpAction::Wait)
        } else {
            stop
        },
        BringUpPhase::WaitHalted => if !st.halted {
            (BringUpPhase::WaitHalted, BringUpAction::Wait)
        } else {
            (BringUpPhase::WaitResetCleared, BringUpAction::ResetController)
        },
        BringUpPhase::WaitResetCleared => if st.reset_pending {
            (BringUpPhase::WaitResetCleared, BringUpAction::Wait)
        } else if st.not_ready {
            (BringUpPhase::WaitReady, BringUpAction::Wait)
        } else {
            configure
        },
        BringUpPhase::WaitReady => if st.not_ready {
            (BringUpPhase::WaitReady, BringUpAction::Wait)
        } else {
            configure
        },
        BringUpPhase::Ready => (BringUpPhase::Ready, BringUpAction::Nothing),
    }
}

/// The bring-up configures a controller only once it is ready, in a phase reached after the
/// reset was asked for, with the reset bit seen cleared.
pub proof fn lemma_configure_only_when_ready(phase: BringUpPhase, st: HcStatus)
    ensures
        bring_up_next(phase, st).1 is Configure ==> {
            &&& !st.not_ready
            &&& (phase == BringUpPhase::WaitResetCleared && !st.reset_pending || phase == BringUpPhase::WaitReady)
        },
{
}

} // verus!
