//! What is decided before the child process is started: which program runs,
//! what it must not inherit, and which signals it gets back at their default.

use vstd::prelude::*;

verus! {

/// Why a session cannot be planned.
#[derive(Clone, Copy, PartialEq, Eq, Structural, Debug)]
pub enum SpawnError {
    /// No program was named and the caller has no interactive shell.
    ShellUnresolved,
}

/// A signal whose disposition the child does not inherit.
#[derive(Clone, Copy, PartialEq, Eq, Structural, Debug)]
pub enum Signal {
    ChildExit,
    Interrupt,
    Quit,
    Terminate,
    Alarm,
}

/// The program to start and its arguments.
pub struct LaunchPlan {
    pub program: String,
    pub args: Vec<String>,
}

/// The plan for a session. A named program runs with its arguments. Where
/// none is named, the caller's interactive shell runs without arguments; if
/// there is no such shell either, no session can start.
pub fn plan_launch(shell: Option<(String, Vec<String>)>, interactive_shell: Option<String>) -> (plan:
    Result<LaunchPlan, SpawnError>)
    ensures
        match shell {
            Some((program, args)) => plan == Ok::<LaunchPlan, SpawnError>(
                LaunchPlan { program, args },
            ),
            None => match interactive_shell {
                Some(program) => {
                    &&& plan matches Ok(chosen)
                    &&& chosen.program == program
                    &&& chosen.args@.len() == 0
                },
                None => plan == Err::<LaunchPlan, SpawnError>(SpawnError::ShellUnresolved),
            },
        },
{
    match shell {
        Some((program, args)) => Ok(LaunchPlan { program, args }),
        None => match interactive_shell {
            Some(program) => Ok(LaunchPlan { program, args: Vec::new() }),
            None => Err(SpawnError::ShellUnresolved),
        },
    }
}

/// The environment variables that identify the session of the host's
/// window system. The child does not inherit them.
pub fn stripped_variables() -> (names: Vec<String>)
    ensures
        names@.len() == 2,
        names@[0]@ == "XDG_ACTIVATION_TOKEN"@,
        names@[1]@ == "DESKTOP_STARTUP_ID"@,
{
    let mut names: Vec<String> = Vec::with_capacity(2);
    names.push("XDG_ACTIVATION_TOKEN".to_owned());
    names.push("DESKTOP_STARTUP_ID".to_owned());
    names
}

/// The signals that are set back to their default disposition in the child,
/// so that the program there decides what they do.
pub fn default_signals() -> (signals: Vec<Signal>)
    ensures
        signals@ == seq![
            Signal::ChildExit,
            Signal::Interrupt,
            Signal::Quit,
            Signal::Terminate,
            Signal::Alarm,
        ],
{
    let mut signals: Vec<Signal> = Vec::with_capacity(5);
    signals.push(Signal::ChildExit);
    signals.push(Signal::Interrupt);
    signals.push(Signal::Quit);
    signals.push(Signal::Terminate);
    signals.push(Signal::Alarm);
    assert(signals@ =~= seq![
        Signal::ChildExit,
        Signal::Interrupt,
        Signal::Quit,
        Signal::Terminate,
        Signal::Alarm,
    ]);
    signals
}

} // verus!
