use betterdisplay_kvm::app::{startup_mode, App, StartupMode, StartupStep};
use betterdisplay_kvm::config::AppConfig;
use betterdisplay_kvm::fatal::{BusError, FatalError, RunOutcome};

#[test]
fn installing_goes_before_everything_else() {
    assert_eq!(startup_mode(true, false), StartupMode::Install);
    assert_eq!(startup_mode(true, true), StartupMode::Install);
}

#[test]
fn the_daemon_runs_only_with_the_launch_flag() {
    assert_eq!(startup_mode(false, true), StartupMode::Launch);
    assert_eq!(startup_mode(false, false), StartupMode::Help);
}

#[test]
fn the_app_keeps_its_configuration() {
    let mut partial = AppConfig::empty();
    partial.system_one_input = Some(42);
    let config = partial.with_defaults();
    let app = App::new(config.clone());
    assert_eq!(app.config(), &config);
    assert_eq!(app.config().system_one_input, 42);
    assert_eq!(app.config().usb_device_id, "046d:c547");
}

#[test]
fn startup_goes_step_by_step() {
    let mut step = StartupStep::first();
    assert_eq!(step, StartupStep::FindHome);
    step = step.after(true).unwrap();
    assert_eq!(step, StartupStep::LoadConfig);
    step = step.after(true).unwrap();
    assert_eq!(step, StartupStep::SaveDefaults);
    step = step.after(true).unwrap();
    assert_eq!(step, StartupStep::OpenLog);
    step = step.after(true).unwrap();
    assert_eq!(step, StartupStep::FindTool);
    step = step.after(true).unwrap();
    assert_eq!(step, StartupStep::Ready);
    assert_eq!(step.after(true), Ok(StartupStep::Ready));
    assert_eq!(step.after(false), Ok(StartupStep::Ready));
}

#[test]
fn each_failed_step_has_its_fatal_failure() {
    assert_eq!(StartupStep::FindHome.after(false), Err(FatalError::HomeUnknown));
    assert_eq!(
        StartupStep::LoadConfig.after(false),
        Err(FatalError::ConfigMalformed)
    );
    assert_eq!(
        StartupStep::SaveDefaults.after(false),
        Err(FatalError::ConfigUnwritable)
    );
    assert_eq!(
        StartupStep::OpenLog.after(false),
        Err(FatalError::LogSinkUnavailable)
    );
    assert_eq!(StartupStep::FindTool.after(false), Err(FatalError::ToolNotFound));
}

#[test]
fn failures_before_the_loop_and_in_the_loop() {
    assert!(FatalError::HomeUnknown.is_startup());
    assert!(FatalError::ConfigMalformed.is_startup());
    assert!(FatalError::ConfigUnwritable.is_startup());
    assert!(FatalError::LogSinkUnavailable.is_startup());
    assert!(FatalError::ToolNotFound.is_startup());
    assert!(FatalError::SubscriptionFailed(BusError::Driver).is_startup());
    assert!(FatalError::BusUnavailable(BusError::PermissionDenied).is_startup());
    assert!(!FatalError::EventStreamEnded.is_startup());
    assert!(!FatalError::EventStreamFailed(BusError::Driver).is_startup());
}

#[test]
fn failures_have_words_for_the_operator() {
    assert_eq!(
        FatalError::HomeUnknown.describe(),
        "Failed to get home directory"
    );
    assert_eq!(FatalError::ConfigMalformed.describe(), "Failed to load config");
    assert_eq!(
        FatalError::ConfigUnwritable.describe(),
        "Failed to write default config"
    );
    assert_eq!(
        FatalError::LogSinkUnavailable.describe(),
        "Failed to set up logging"
    );
    assert_eq!(
        FatalError::ToolNotFound.describe(),
        "Failed to find betterdisplaycli"
    );
    assert_eq!(
        FatalError::SubscriptionFailed(BusError::PermissionDenied).describe(),
        "Failed to start USB device monitoring"
    );
    assert_eq!(
        FatalError::BusUnavailable(BusError::Driver).describe(),
        "Failed to list USB devices"
    );
    assert_eq!(
        FatalError::EventStreamEnded.describe(),
        "USB device monitoring ended"
    );
    assert_eq!(
        FatalError::EventStreamFailed(BusError::Driver).describe(),
        "Error in USB device monitoring"
    );
}

#[test]
fn the_exit_code_is_zero_unless_the_run_was_fatal() {
    assert_eq!(RunOutcome::Informational.exit_code(), 0);
    assert_eq!(RunOutcome::Shutdown.exit_code(), 0);
    assert_eq!(RunOutcome::Fatal(FatalError::ConfigMalformed).exit_code(), 1);
    assert_eq!(RunOutcome::Fatal(FatalError::EventStreamEnded).exit_code(), 1);
    assert_eq!(
        RunOutcome::Fatal(FatalError::BusUnavailable(BusError::PermissionDenied)).exit_code(),
        1
    );
}
