use native_shell::boot::{exit_code, fatal_message, Action, Failure, Outcome, Phase, Shell};
use native_shell::commands::Command;
use native_shell::plugins::{BuildProfile, Plugin};
use native_shell::severity::{Severity, Threshold};

fn launched(profile: BuildProfile) -> Shell {
    let mut shell = Shell::new(profile);
    while shell.phase() != Phase::Running {
        shell.advance(Outcome::Succeeded);
    }
    shell
}

#[test]
fn new_shell_has_nothing_installed() {
    let shell = Shell::new(BuildProfile::Debug);
    assert_eq!(shell.profile(), BuildProfile::Debug);
    assert_eq!(shell.phase(), Phase::Uninitialized);
    assert!(shell.plugins().is_empty());
    assert!(shell.commands().is_empty());
    assert_eq!(shell.failure(), None);
    assert_eq!(shell.next_action(), Action::InstallPlugin(Plugin::Opener));
}

#[test]
fn debug_boot_walks_the_whole_path() {
    let mut shell = Shell::new(BuildProfile::Debug);
    assert_eq!(shell.next_action(), Action::InstallPlugin(Plugin::Opener));
    shell.advance(Outcome::Succeeded);
    assert_eq!(shell.phase(), Phase::Uninitialized);
    assert_eq!(shell.next_action(), Action::InstallPlugin(Plugin::Logger(Threshold::Info)));
    shell.advance(Outcome::Succeeded);
    assert_eq!(shell.phase(), Phase::PluginsInstalled);
    assert_eq!(shell.plugins(), &vec![Plugin::Opener, Plugin::Logger(Threshold::Info)]);
    assert!(shell.commands().is_empty());
    assert_eq!(shell.next_action(), Action::RegisterCommands);
    shell.advance(Outcome::Succeeded);
    assert_eq!(shell.phase(), Phase::CommandsRegistered);
    assert_eq!(shell.commands(), &vec![Command::Read, Command::Write]);
    assert_eq!(shell.next_action(), Action::Start);
    shell.advance(Outcome::Succeeded);
    assert_eq!(shell.phase(), Phase::Running);
    assert_eq!(shell.next_action(), Action::Serve);
    shell.advance(Outcome::Succeeded);
    assert_eq!(shell.phase(), Phase::Exited);
    assert_eq!(shell.failure(), None);
    assert_eq!(shell.next_action(), Action::Terminate(None));
}

#[test]
fn release_boot_installs_no_logger() {
    let mut shell = Shell::new(BuildProfile::Release);
    assert_eq!(shell.next_action(), Action::InstallPlugin(Plugin::Opener));
    shell.advance(Outcome::Succeeded);
    assert_eq!(shell.phase(), Phase::PluginsInstalled);
    assert_eq!(shell.plugins(), &vec![Plugin::Opener]);
    shell.advance(Outcome::Succeeded);
    shell.advance(Outcome::Succeeded);
    assert_eq!(shell.phase(), Phase::Running);
    assert_eq!(shell.plugins(), &vec![Plugin::Opener]);
    assert_eq!(shell.commands(), &vec![Command::Read, Command::Write]);
}

#[test]
fn running_shell_recognises_read_and_write() {
    for profile in [BuildProfile::Debug, BuildProfile::Release] {
        let shell = launched(profile);
        assert_eq!(shell.route("read"), Some(Command::Read));
        assert_eq!(shell.route("write"), Some(Command::Write));
    }
}

#[test]
fn debug_shell_hands_read_to_its_handler() {
    let shell = launched(BuildProfile::Debug);
    assert_eq!(shell.route("read"), Some(Command::Read));
    assert_ne!(shell.route("read"), Some(Command::Write));
}

#[test]
fn unknown_command_is_not_routed() {
    let shell = launched(BuildProfile::Debug);
    assert_eq!(shell.route("remove"), None);
    assert_eq!(shell.route("READ"), None);
    assert_eq!(shell.route(""), None);
}

#[test]
fn nothing_is_routed_before_the_shell_runs() {
    let mut shell = Shell::new(BuildProfile::Release);
    assert_eq!(shell.route("read"), None);
    shell.advance(Outcome::Succeeded);
    shell.advance(Outcome::Succeeded);
    assert_eq!(shell.phase(), Phase::CommandsRegistered);
    assert_eq!(shell.route("read"), None);
    shell.advance(Outcome::Succeeded);
    assert_eq!(shell.route("read"), Some(Command::Read));
    shell.advance(Outcome::Succeeded);
    assert_eq!(shell.phase(), Phase::Exited);
    assert_eq!(shell.route("read"), None);
}

#[test]
fn opener_is_installed_in_every_running_shell() {
    for profile in [BuildProfile::Debug, BuildProfile::Release] {
        assert!(launched(profile).plugins().contains(&Plugin::Opener));
    }
}

#[test]
fn debug_shell_emits_info_record() {
    let shell = launched(BuildProfile::Debug);
    assert!(shell.emits(Severity::Info));
    assert!(shell.emits(Severity::Error));
    assert!(!shell.emits(Severity::Debug));
}

#[test]
fn release_shell_emits_no_record() {
    let shell = launched(BuildProfile::Release);
    assert!(!shell.emits(Severity::Info));
    assert!(!shell.emits(Severity::Error));
}

#[test]
fn debug_shell_emits_nothing_before_the_logger_is_installed() {
    let mut shell = Shell::new(BuildProfile::Debug);
    shell.advance(Outcome::Succeeded);
    assert!(!shell.emits(Severity::Info));
    shell.advance(Outcome::Succeeded);
    assert!(shell.emits(Severity::Info));
}

#[test]
fn failed_context_generation_is_a_fatal_boot_failure() {
    let mut shell = Shell::new(BuildProfile::Release);
    shell.advance(Outcome::Succeeded);
    shell.advance(Outcome::Succeeded);
    assert_eq!(shell.next_action(), Action::Start);
    shell.advance(Outcome::Failed);
    assert_eq!(shell.phase(), Phase::Exited);
    assert_eq!(shell.failure(), Some(Failure::Boot));
    assert_eq!(shell.next_action(), Action::Terminate(Some(Failure::Boot)));
    assert_eq!(exit_code(shell.failure()), 101);
    assert_eq!(fatal_message(), "error while running tauri application");
}

#[test]
fn failed_opener_is_a_boot_failure() {
    let mut shell = Shell::new(BuildProfile::Debug);
    shell.advance(Outcome::Failed);
    assert_eq!(shell.phase(), Phase::Exited);
    assert_eq!(shell.failure(), Some(Failure::Boot));
    assert!(shell.plugins().is_empty());
    assert!(shell.commands().is_empty());
}

#[test]
fn failed_logger_is_a_setup_hook_failure() {
    let mut shell = Shell::new(BuildProfile::Debug);
    shell.advance(Outcome::Succeeded);
    shell.advance(Outcome::Failed);
    assert_eq!(shell.phase(), Phase::Exited);
    assert_eq!(shell.failure(), Some(Failure::SetupHook));
    assert_eq!(shell.plugins(), &vec![Plugin::Opener]);
}

#[test]
fn failed_registration_is_a_boot_failure() {
    let mut shell = Shell::new(BuildProfile::Release);
    shell.advance(Outcome::Succeeded);
    assert_eq!(shell.next_action(), Action::RegisterCommands);
    shell.advance(Outcome::Failed);
    assert_eq!(shell.failure(), Some(Failure::Boot));
    assert!(shell.commands().is_empty());
}

#[test]
fn failure_while_running_is_a_runtime_failure() {
    let mut shell = launched(BuildProfile::Debug);
    shell.advance(Outcome::Failed);
    assert_eq!(shell.phase(), Phase::Exited);
    assert_eq!(shell.failure(), Some(Failure::Runtime));
    assert_ne!(exit_code(shell.failure()), 0);
}

#[test]
fn exit_codes() {
    assert_eq!(exit_code(None), 0);
    assert_eq!(exit_code(Some(Failure::Boot)), 101);
    assert_eq!(exit_code(Some(Failure::SetupHook)), 101);
    assert_eq!(exit_code(Some(Failure::Runtime)), 101);
}

#[test]
fn exited_shell_is_never_entered_again() {
    let mut shell = launched(BuildProfile::Debug);
    shell.advance(Outcome::Succeeded);
    assert_eq!(shell.phase(), Phase::Exited);
    for outcome in [Outcome::Succeeded, Outcome::Failed, Outcome::Succeeded] {
        shell.advance(outcome);
        assert_eq!(shell.phase(), Phase::Exited);
        assert_eq!(shell.failure(), None);
        assert_eq!(shell.next_action(), Action::Terminate(None));
        assert_eq!(shell.plugins().len(), 2);
        assert_eq!(shell.commands().len(), 2);
    }
    let mut failed = Shell::new(BuildProfile::Release);
    failed.advance(Outcome::Failed);
    failed.advance(Outcome::Succeeded);
    assert_eq!(failed.phase(), Phase::Exited);
    assert_eq!(failed.failure(), Some(Failure::Boot));
}

#[test]
fn two_launches_of_one_build_agree() {
    for profile in [BuildProfile::Debug, BuildProfile::Release] {
        let first = launched(profile);
        let second = launched(profile);
        assert_eq!(first.plugins(), second.plugins());
        assert_eq!(first.commands(), second.commands());
        assert_eq!(first.plugins(), &profile.plan());
    }
}

#[test]
fn boot_takes_one_step_for_each_plugin_and_two_more() {
    for profile in [BuildProfile::Debug, BuildProfile::Release] {
        let mut shell = Shell::new(profile);
        for _ in 0..profile.plan().len() + 1 {
            shell.advance(Outcome::Succeeded);
            assert_ne!(shell.phase(), Phase::Running);
        }
        shell.advance(Outcome::Succeeded);
        assert_eq!(shell.phase(), Phase::Running);
    }
}

#[test]
fn registry_and_plugins_stay_once_registered() {
    for last in [Outcome::Succeeded, Outcome::Failed] {
        let mut shell = Shell::new(BuildProfile::Debug);
        shell.advance(Outcome::Succeeded);
        shell.advance(Outcome::Succeeded);
        shell.advance(Outcome::Succeeded);
        let plugins = shell.plugins().clone();
        let commands = shell.commands().clone();
        assert_eq!(commands, vec![Command::Read, Command::Write]);
        shell.advance(Outcome::Succeeded);
        assert_eq!(shell.plugins(), &plugins);
        assert_eq!(shell.commands(), &commands);
        shell.advance(last);
        assert_eq!(shell.plugins(), &plugins);
        assert_eq!(shell.commands(), &commands);
    }
}

#[test]
fn release_build_never_fails_in_the_setup_hook() {
    for failing_step in 0..4usize {
        let mut shell = Shell::new(BuildProfile::Release);
        for _ in 0..failing_step {
            shell.advance(Outcome::Succeeded);
        }
        shell.advance(Outcome::Failed);
        assert_eq!(shell.phase(), Phase::Exited);
        assert_ne!(shell.failure(), Some(Failure::SetupHook));
        assert_ne!(shell.failure(), None);
    }
}
