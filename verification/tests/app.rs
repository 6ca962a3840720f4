use gh_profile_gen::ui::app::{Mode, WizardState};
use gh_profile_gen::ui::wizard::WizardStep;

#[test]
fn test_wizard_state_initial() {
    let state = WizardState::new(Mode::Basic);
    assert_eq!(state.current_step(), WizardStep::Welcome);
    assert!(state.config().meta.username.is_empty());
}

#[test]
fn test_wizard_state_advance() {
    let mut state = WizardState::new(Mode::Basic);
    state.next_step();
    assert_eq!(state.current_step(), WizardStep::Identity);
}

#[test]
fn test_wizard_state_back() {
    let mut state = WizardState::new(Mode::Basic);
    state.next_step(); // Welcome -> Identity
    state.prev_step(); // Identity -> Welcome
    assert_eq!(state.current_step(), WizardStep::Welcome);

    state.prev_step(); // Welcome -> Welcome (can't go back)
    assert_eq!(state.current_step(), WizardStep::Welcome);
}

#[test]
fn test_wizard_state_generate_early() {
    let mut state = WizardState::new(Mode::Basic);
    state.next_step(); // Identity
    state.next_step(); // About
    state.config_mut().meta.username = "alice".to_string();
    let config = state.build_config();
    assert_eq!(config.meta.username, "alice");
}

#[test]
fn test_wizard_state_mode_basic() {
    let state = WizardState::new(Mode::Basic);
    assert_eq!(state.mode(), Mode::Basic);
}

#[test]
fn test_wizard_state_mode_advanced() {
    let state = WizardState::new(Mode::Advanced);
    assert_eq!(state.mode(), Mode::Advanced);
}

#[test]
fn test_wizard_state_set_mode() {
    let mut state = WizardState::new(Mode::Basic);
    state.set_mode(Mode::Advanced);
    assert_eq!(state.mode(), Mode::Advanced);
}
