//! Run shell scripts and capture their results.
//!
//! A script is handed over verbatim and executed by one of two substrates: the
//! POSIX shell of the host, or a hosted scripting engine driven through a
//! single non-interactive session. The captured exit code and streams come
//! back normalized in a [`ProcessOutput`]; a script may also be spawned
//! without blocking, with the launch configuration fixed by
//! [`spawn_settings`].

mod fmt_dec;
mod normalize;
mod output;
mod run;
mod spawn;

pub use fmt_dec::dec_seq;
pub use fmt_dec::i32_dec_string;
pub use normalize::is_ws_char;
pub use normalize::lemma_trim_end_idempotent;
pub use normalize::lemma_trim_end_is_prefix;
pub use normalize::trim_end;
pub use normalize::trim_end_spec;
pub use output::lemma_success_rule_asymmetry;
pub use output::lemma_success_when_clean;
pub use output::opt_text;
pub use output::ProcessOutput;
pub use output::RunError;
pub use output::Strategy;
pub use run::run_powershell;
pub use run::run_script;
pub use run::run_with;
pub use spawn::spawn_settings;
pub use spawn::SpawnSettings;
pub use spawn::StreamMode;
