use mikanos::bringup::{bring_up_step, BringUpAction, BringUpPhase, HcStatus};
use mikanos::controller::Controller;

fn status() -> HcStatus {
    HcStatus {
        legacy_support: true,
        bios_owned: true,
        os_owned: false,
        halted: false,
        reset_pending: false,
        not_ready: false,
        max_scratchpad_buffers: 2,
    }
}

#[test]
fn bring_up_sequence() {
    let mut st = status();
    let (p, a) = bring_up_step(BringUpPhase::Start, st);
    assert_eq!((p, a), (BringUpPhase::WaitOwnership, BringUpAction::RequestOwnership));
    st.os_owned = true;
    assert_eq!(bring_up_step(p, st), (BringUpPhase::WaitOwnership, BringUpAction::Wait));
    st.bios_owned = false;
    let (p, a) = bring_up_step(p, st);
    assert_eq!((p, a), (BringUpPhase::WaitHalted, BringUpAction::StopController { clear_run_stop: true }));
    assert_eq!(bring_up_step(p, st), (BringUpPhase::WaitHalted, BringUpAction::Wait));
    st.halted = true;
    let (p, a) = bring_up_step(p, st);
    assert_eq!((p, a), (BringUpPhase::WaitResetCleared, BringUpAction::ResetController));
    st.reset_pending = true;
    assert_eq!(bring_up_step(p, st), (BringUpPhase::WaitResetCleared, BringUpAction::Wait));
    st.reset_pending = false;
    st.not_ready = true;
    let (p, a) = bring_up_step(p, st);
    assert_eq!((p, a), (BringUpPhase::WaitReady, BringUpAction::Wait));
    st.not_ready = false;
    let (p, a) = bring_up_step(p, st);
    assert_eq!((p, a), (BringUpPhase::Ready, BringUpAction::Configure { max_slots: 8, scratchpad_buffers: 2 }));
    assert_eq!(bring_up_step(p, st), (BringUpPhase::Ready, BringUpAction::Nothing));
}

#[test]
fn bring_up_without_legacy_support_of_halted_controller() {
    let st = HcStatus { legacy_support: false, halted: true, ..status() };
    assert_eq!(bring_up_step(BringUpPhase::Start, st), (BringUpPhase::WaitHalted, BringUpAction::StopController { clear_run_stop: false }));
}

#[test]
fn controller_run() {
    let mut c = Controller::new(1, false);
    assert!(!c.is_running());
    c.run();
    assert!(c.is_running());
    assert!(c.event_ring().interrupt_enabled());
}
