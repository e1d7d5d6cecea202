use vigil::launch::{default_signals, plan_launch, stripped_variables, Signal, SpawnError};

#[test]
fn a_named_program_runs_with_its_arguments() {
    let plan = plan_launch(
        Some(("/bin/sh".to_string(), vec!["-c".to_string(), "true".to_string()])),
        Some("/bin/zsh".to_string()),
    );
    let plan = plan.ok().unwrap();
    assert_eq!(plan.program, "/bin/sh");
    assert_eq!(plan.args, vec!["-c".to_string(), "true".to_string()]);
}

#[test]
fn the_interactive_shell_is_the_fallback() {
    let plan = plan_launch(None, Some("/bin/zsh".to_string())).ok().unwrap();
    assert_eq!(plan.program, "/bin/zsh");
    assert!(plan.args.is_empty());
}

#[test]
fn without_program_and_shell_nothing_starts() {
    assert_eq!(plan_launch(None, None).err(), Some(SpawnError::ShellUnresolved));
}

#[test]
fn window_system_tokens_are_stripped() {
    assert_eq!(
        stripped_variables(),
        vec!["XDG_ACTIVATION_TOKEN".to_string(), "DESKTOP_STARTUP_ID".to_string()]
    );
}

#[test]
fn terminating_signals_are_reset() {
    assert_eq!(
        default_signals(),
        vec![Signal::ChildExit, Signal::Interrupt, Signal::Quit, Signal::Terminate, Signal::Alarm]
    );
}
