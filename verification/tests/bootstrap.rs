use log_bootstrap::init;
use log_bootstrap::BootstrapState;
use log_bootstrap::plan::NextStep;
use log_bootstrap::plan::OpenOutcome;
use log_bootstrap::plan::after_bridge_install;
use log_bootstrap::plan::after_open;
use log_bootstrap::plan::log_file_name;

#[test]
fn plan_names_the_fixed_file() {
    let p = init();
    assert_eq!(p.path, "fastype.log");
    assert_eq!(p.path, log_file_name());
}

#[test]
fn plan_truncates_prior_content() {
    let p = init();
    assert!(p.mode.create);
    assert!(p.mode.write);
    assert!(p.mode.truncate);
    assert!(!p.mode.append);
}

#[test]
fn plan_is_fatal_on_every_failure() {
    let p = init();
    assert!(p.abort_on_open_failure);
    assert!(p.abort_on_bridge_conflict);
}

#[test]
fn failed_open_aborts() {
    assert_eq!(after_open(OpenOutcome::Failed), NextStep::Abort);
}

#[test]
fn successful_open_proceeds() {
    assert_eq!(after_open(OpenOutcome::Opened), NextStep::Proceed);
}

#[test]
fn bridge_conflict_aborts() {
    assert_eq!(after_bridge_install(true), NextStep::Abort);
    assert_eq!(after_bridge_install(false), NextStep::Proceed);
}

#[test]
fn bootstrap_state_starts_uninitialized_and_fires_once() {
    let mut s = BootstrapState::new();
    s.mark_initialized();
}
