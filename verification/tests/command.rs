use betterdisplay_kvm::command::{
    command_for, locate_tool, on_connect, on_disconnect, set_input, HookOutcome, InputCommand,
    ToolLocation,
};
use betterdisplay_kvm::config::{AppConfig, ResolvedConfig};
use betterdisplay_kvm::presence::Hook;

fn words(args: &[&str]) -> Vec<String> {
    args.iter().map(|a| a.to_string()).collect()
}

fn config(one: u16, two: u16, ddc_alt: bool) -> ResolvedConfig {
    let mut partial = AppConfig::empty();
    partial.system_one_input = Some(one);
    partial.system_two_input = Some(two);
    partial.ddc_alt = Some(ddc_alt);
    partial.with_defaults()
}

#[test]
fn set_input_builds_the_plain_command() {
    assert_eq!(
        set_input(15, false),
        InputCommand {
            program: "betterdisplaycli".to_string(),
            args: words(&["set", "--ddc=15", "--vcp=inputSelect"]),
        }
    );
}

#[test]
fn set_input_adds_the_alternative_flag_after_set() {
    assert_eq!(
        set_input(18, true),
        InputCommand {
            program: "betterdisplaycli".to_string(),
            args: words(&["set", "--ddcAlt", "--ddc=18", "--vcp=inputSelect"]),
        }
    );
}

#[test]
fn set_input_writes_the_code_in_decimal() {
    for code in [0u16, 1, 9, 10, 15, 99, 100, 101, 255, 256, 1000, 9999, 10000, 65535] {
        let command = set_input(code, false);
        assert_eq!(command.args.len(), 3);
        assert_eq!(command.args[1], format!("--ddc={}", code));
        let command = set_input(code, true);
        assert_eq!(command.args.len(), 4);
        assert_eq!(command.args[2], format!("--ddc={}", code));
    }
    assert_eq!(set_input(0, false).args[1], "--ddc=0");
    assert_eq!(set_input(65535, false).args[1], "--ddc=65535");
    assert_eq!(set_input(10, false).args[1], "--ddc=10");
    assert_eq!(set_input(1000, false).args[1], "--ddc=1000");
}

#[test]
fn on_connect_selects_the_first_input() {
    assert_eq!(on_connect(&config(15, 18, false)), set_input(15, false));
    assert_eq!(on_connect(&config(3, 4, true)), set_input(3, true));
    assert_eq!(
        on_connect(&AppConfig::empty().with_defaults()).args,
        words(&["set", "--ddc=15", "--vcp=inputSelect"])
    );
}

#[test]
fn on_disconnect_selects_the_second_input() {
    assert_eq!(on_disconnect(&config(15, 18, false)), set_input(18, false));
    assert_eq!(on_disconnect(&config(3, 4, true)), set_input(4, true));
    assert_eq!(
        on_disconnect(&AppConfig::empty().with_defaults()).args,
        words(&["set", "--ddc=18", "--vcp=inputSelect"])
    );
}

#[test]
fn a_hook_has_the_command_of_its_transition() {
    let cfg = config(7, 8, true);
    assert_eq!(command_for(Hook::TargetPresent, &cfg), on_connect(&cfg));
    assert_eq!(command_for(Hook::TargetAbsent, &cfg), on_disconnect(&cfg));
    assert_ne!(
        command_for(Hook::TargetPresent, &cfg),
        command_for(Hook::TargetAbsent, &cfg)
    );
}

#[test]
fn a_command_can_be_given_the_path_of_the_tool() {
    let command = set_input(15, false).with_program("/usr/local/bin/betterdisplaycli".to_string());
    assert_eq!(command.program, "/usr/local/bin/betterdisplaycli");
    assert_eq!(command.args, words(&["set", "--ddc=15", "--vcp=inputSelect"]));
}

#[test]
fn a_hook_fails_unless_it_ends_with_zero() {
    assert!(HookOutcome::SpawnFailed.is_failure());
    assert!(HookOutcome::Killed.is_failure());
    assert!(HookOutcome::Exited(1).is_failure());
    assert!(HookOutcome::Exited(-1).is_failure());
    assert!(HookOutcome::Exited(255).is_failure());
    assert!(!HookOutcome::Exited(0).is_failure());
    assert!(!HookOutcome::Detached.is_failure());
}

#[test]
fn the_override_path_is_looked_at_first() {
    assert_eq!(
        locate_tool(Some(true), &vec![true, true], true),
        Some(ToolLocation::Override)
    );
    assert_eq!(
        locate_tool(Some(true), &vec![], false),
        Some(ToolLocation::Override)
    );
}

#[test]
fn the_install_directories_come_next_in_their_order() {
    assert_eq!(
        locate_tool(None, &vec![false, true, true], true),
        Some(ToolLocation::Installed(1))
    );
    assert_eq!(
        locate_tool(Some(false), &vec![true, false], true),
        Some(ToolLocation::Installed(0))
    );
    assert_eq!(
        locate_tool(None, &vec![false, false, true], false),
        Some(ToolLocation::Installed(2))
    );
}

#[test]
fn the_search_path_comes_last() {
    assert_eq!(
        locate_tool(None, &vec![false, false], true),
        Some(ToolLocation::SearchPath)
    );
    assert_eq!(
        locate_tool(Some(false), &vec![], true),
        Some(ToolLocation::SearchPath)
    );
}

#[test]
fn a_tool_that_is_nowhere_is_not_found() {
    assert_eq!(locate_tool(None, &vec![], false), None);
    assert_eq!(locate_tool(Some(false), &vec![false, false, false], false), None);
}
