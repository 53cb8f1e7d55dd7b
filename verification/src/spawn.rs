//! The fixed launch configuration of the non-blocking spawner.
//!
//! Spawning hands a live child-process handle straight back to the caller,
//! so the launch itself is process I/O that lives outside this library. What
//! is decided here — and what this module pins down — is the configuration
//! that launch must use: streams inherited rather than captured, the
//! caller's environment and working directory untouched, eager exit on the
//! first failing command, each command echoed, and, on one platform family,
//! a specific POSIX-compliant interpreter forced for consistent syntax.

use vstd::prelude::*;

verus! {

/// How one of a spawned script's standard streams is wired.
#[derive(Clone, Copy, Debug, PartialEq, Eq, Structural)]
pub enum StreamMode {
    /// The stream is the caller's own stream.
    Inherit,
    /// The stream is captured through a pipe.
    Pipe,
    /// The stream is discarded.
    Null,
}

/// The launch configuration of a spawned script.
#[derive(Clone, Debug)]
pub struct SpawnSettings {
    /// The interpreter to force, or none for the platform's default
    /// script-running mechanism.
    pub runner: Option<String>,
    /// Wiring of the script's standard input.
    pub input: StreamMode,
    /// Wiring of the script's standard output and error streams.
    pub output: StreamMode,
    /// Stop at the first failing command.
    pub exit_on_error: bool,
    /// Echo each command before running it.
    pub print_commands: bool,
}

/// The spawner's configuration, which is fixed: streams are inherited (never
/// captured), the script exits eagerly on the first failing command, and
/// each command is echoed. When `force_posix_runner` is set — on the
/// platform family whose default shell syntax is not dependable — the
/// POSIX-compliant `bash` interpreter is forced; otherwise the platform's
/// default mechanism runs the script.
pub fn spawn_settings(force_posix_runner: bool) -> (s: SpawnSettings)
    ensures
        force_posix_runner ==> (s.runner matches Some(r) && r@ == "bash"@),
        !force_posix_runner ==> s.runner is None,
        s.input == StreamMode::Inherit,
        s.output == StreamMode::Inherit,
        s.exit_on_error,
        s.print_commands,
{
    let runner = if force_posix_runner {
        Some("bash".to_owned())
    } else {
        None
    };
    SpawnSettings {
        runner,
        input: StreamMode::Inherit,
        output: StreamMode::Inherit,
        exit_on_error: true,
        print_commands: true,
    }
}

} // verus!
