//! The script executor: runs a script to completion on one of the two
//! substrates and returns its normalized result.
//!
//! The platform process launcher is an external collaborator: the two
//! launch wrappers hand a script over and report back whatever raw exit
//! status and captured text came out. Everything after that point — the
//! choice of code, the normalization of the streams, the shape of the
//! returned value — is this module's own, verified logic.

use std::io::Write;

use vstd::prelude::*;
use vstd::string::StringExecFns;

use crate::normalize::lemma_trim_end_idempotent;
use crate::output::ProcessOutput;
use crate::output::RunError;
use crate::output::Strategy;

verus! {

/// Relies on `run_script::run`: executes the script through the host's
/// default shell with default options (no runner override, piped output) and
/// returns its exit code and captured streams once it has terminated. A
/// mechanism failure comes back as an error, never the script's own exit
/// status; the source reports launch-side faults (shell missing, script
/// file not writable) and faults while waiting on the process and draining
/// its output through one undivided error type, so all of them are folded
/// into the launch-failure class here.
#[verifier::external_body]
fn posix_launch(script: &str) -> (r: Result<(i32, String, String), RunError>)
    ensures
        r matches Err(e) ==> e is LaunchFailure,
{
    match run_script::run(script, &Vec::new(), &run_script::ScriptOptions::new()) {
        Ok(triple) => Ok(triple),
        Err(e) => Err(RunError::LaunchFailure(format!("{e}"))),
    }
}

/// Relies on `powershell_script::PsScriptBuilder` and `PsScript::run`: runs
/// the script in one hidden, no-profile, non-interactive engine session,
/// passing the whole text as a single command stream. The source reports a
/// completed script through `Ok` when the engine's status was success and
/// through `PsError::Powershell` otherwise, both carrying the captured
/// streams; every other error arises before or while the engine is driven,
/// so it maps to a launch failure.
///
/// Also relies on `which::which`, which reads the executable search path
/// without aborting when it is unset: the engine is driven only once one of
/// its two binary names is found there, so an absent engine — or no search
/// path at all, as in a child spawned with a cleared environment — is a
/// launch failure, never an abort inside the engine crate's own unguarded
/// lookup. Two cases this guard leaves to that crate: a search path that is
/// set but not Unicode still aborts in its lookup, and on the platform
/// family whose engine ships in a fixed system directory, that directory is
/// reached only through the search path, not through the crate's fallback.
#[verifier::external_body]
fn engine_launch(script: &str, echo: bool) -> (r: Result<
    (bool, Option<String>, Option<String>),
    RunError,
>)
    ensures
        r matches Err(e) ==> e is LaunchFailure,
{
    if which::which("pwsh.exe").is_err() && which::which("PowerShell.exe").is_err() {
        return Err(RunError::LaunchFailure("engine not found on the executable search path".to_string()));
    }
    let ps = powershell_script::PsScriptBuilder::new().hidden(true).no_profile(
        true,
    ).non_interactive(true).print_commands(echo).build();
    match ps.run(script) {
        Ok(out) => Ok((out.success(), out.stdout(), out.stderr())),
        Err(powershell_script::PsError::Powershell(out)) => Ok((false, out.stdout(), out.stderr())),
        Err(e) => Err(RunError::LaunchFailure(format!("{e}"))),
    }
}

/// Relies on `std::io::stdout`: writes one line to the verbose side channel.
/// Best effort; the write's outcome is ignored.
#[verifier::external_body]
fn print_line(s: &str) {
    let _ = writeln!(std::io::stdout(), "{}", s);
}

/// The diagnostic line emitted before a shell execution: the script text and
/// the effective options. The hosted engine emits no such line; it echoes
/// each command itself when asked to.
fn verbose_preamble(script: &str) -> String {
    let mut line = "Executing `".to_owned();
    line.append(script);
    line.append("` using the default shell options.");
    line
}

/// The diagnostic line emitted after an execution: the resulting triple.
fn verbose_result(p: &ProcessOutput) -> String {
    let mut line = " ".to_owned();
    let shown = p.display();
    line.append(shown.as_str());
    line
}

/// Runs a script to completion on the hosted scripting engine, in silent
/// (hidden, no-profile, non-interactive) mode, and captures its result.
///
/// The engine takes the whole script as one command string, so a caller must
/// join multiple statements with `;` rather than newlines. `debug` echoes
/// each command line as the engine receives it.
///
/// A completed script always yields a result: code zero when the engine
/// reported success and one otherwise, with both captured streams
/// normalized. Only a failure to drive the engine at all is an error.
pub fn run_powershell(command: &str, debug: bool) -> (r: Result<ProcessOutput, RunError>)
    ensures
        r matches Ok(p) ==> p.normalized() && (p.code == 0 || p.code == 1),
        r matches Err(e) ==> e is LaunchFailure,
{
    match engine_launch(command, debug) {
        Ok((success, out, err)) => {
            let ghost out_text = crate::output::opt_text(out);
            let ghost err_text = crate::output::opt_text(err);
            let p = ProcessOutput::from_engine_raw(success, out, err);
            proof {
                lemma_trim_end_idempotent(out_text);
                lemma_trim_end_idempotent(err_text);
            }
            Ok(p)
        },
        Err(e) => Err(e),
    }
}

/// Runs a script to completion on the given substrate and captures its
/// result.
///
/// On success the returned triple holds the exit code and both streams with
/// trailing whitespace stripped; a script that exits non-zero is still a
/// successful invocation. An error is returned only when the shell or engine
/// could not be driven at all. When `verbose` is set, a line is emitted
/// before the run (the script and its options) and one after it (the
/// resulting triple); the side channel never alters the returned value.
pub fn run_with(strategy: Strategy, script: &str, verbose: bool) -> (r: Result<
    ProcessOutput,
    RunError,
>)
    ensures
        r matches Ok(p) ==> p.normalized(),
        strategy is HostedEngine ==> (r matches Ok(p) ==> p.code == 0 || p.code == 1),
        r matches Err(e) ==> e is LaunchFailure,
{
    match strategy {
        Strategy::PosixShell => {
            if verbose {
                let line = verbose_preamble(script);
                print_line(line.as_str());
            }
            match posix_launch(script) {
                Ok((code, out, err)) => {
                    let p = ProcessOutput::from_raw(code, out.as_str(), err.as_str());
                    proof {
                        lemma_trim_end_idempotent(out@);
                        lemma_trim_end_idempotent(err@);
                    }
                    if verbose {
                        let line = verbose_result(&p);
                        print_line(line.as_str());
                    }
                    Ok(p)
                },
                Err(e) => Err(e),
            }
        },
        Strategy::HostedEngine => {
            match run_powershell(script, verbose) {
                Ok(p) => {
                    if verbose {
                        let line = verbose_result(&p);
                        print_line(line.as_str());
                    }
                    Ok(p)
                },
                Err(e) => Err(e),
            }
        },
    }
}

/// Runs a script to completion on this target family's substrate, the POSIX
/// shell, and captures its normalized result. See [`run_with`].
pub fn run_script(script: &str, verbose: bool) -> (r: Result<ProcessOutput, RunError>)
    ensures
        r matches Ok(p) ==> p.normalized(),
        r matches Err(e) ==> e is LaunchFailure,
{
    run_with(Strategy::PosixShell, script, verbose)
}

} // verus!
