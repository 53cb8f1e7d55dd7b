//! The result of a completed script execution, and the rules that read it.

use vstd::prelude::*;
use vstd::string::StringExecFns;

use crate::fmt_dec::dec_seq;
use crate::fmt_dec::i32_dec_string;
use crate::normalize::trim_end;
use crate::normalize::trim_end_spec;

verus! {

/// The text of an optional capture: an absent capture reads as empty text.
pub open spec fn opt_text(o: Option<String>) -> Seq<char> {
    match o {
        Some(s) => s@,
        None => Seq::<char>::empty(),
    }
}

/// How a script is executed: through the POSIX shell of the host, or through
/// a single non-interactive session of a hosted scripting engine. The two
/// substrates read an execution's result differently; see
/// [`ProcessOutput::success_spec`].
#[derive(Clone, Copy, Debug, PartialEq, Eq, Structural)]
pub enum Strategy {
    /// The host's default command-line shell.
    PosixShell,
    /// A hidden, no-profile, non-interactive engine session that takes the
    /// whole script as one command stream.
    HostedEngine,
}

/// Why an invocation produced no result at all. A script that merely exits
/// non-zero is not an error: it yields a [`ProcessOutput`] whose success
/// predicate is false.
#[derive(Clone, Debug)]
pub enum RunError {
    /// The shell or engine could not be started at all.
    LaunchFailure(String),
    /// The process ran, but its output text could not be retrieved.
    CaptureFailure(String),
}

/// Execution status of a completed process: an exit code and the two captured
/// streams, both stripped of trailing whitespace.
#[derive(Clone, Debug)]
pub struct ProcessOutput {
    /// Exit/status code.
    pub code: i32,
    /// Captured stdout, trailing whitespace stripped.
    pub stdout: String,
    /// Captured stderr, trailing whitespace stripped.
    pub stderr: String,
}

impl ProcessOutput {
    /// Success as each substrate defines it: the POSIX shell goes by the exit
    /// code alone, while the hosted engine may report exit code zero yet
    /// surface an error on its error stream, which still counts as failure.
    pub open spec fn success_spec(&self, strategy: Strategy) -> bool {
        match strategy {
            Strategy::PosixShell => self.code == 0,
            Strategy::HostedEngine => self.code == 0 && self.stderr@.len() == 0,
        }
    }

    /// Both streams are already in normal form: trimming them again changes
    /// nothing.
    pub open spec fn normalized(&self) -> bool {
        &&& self.stdout@ == trim_end_spec(self.stdout@)
        &&& self.stderr@ == trim_end_spec(self.stderr@)
    }

    /// The display form: the ordered triple `<code, stdout, stderr>`.
    pub open spec fn display_spec(&self) -> Seq<char> {
        seq!['<'] + dec_seq(self.code as int) + seq![',', ' '] + self.stdout@ + seq![',', ' ']
            + self.stderr@ + seq!['>']
    }

    /// Creates a result triple from its parts.
    pub fn new(code: i32, stdout: String, stderr: String) -> (r: Self)
        ensures
            r.code == code,
            r.stdout == stdout,
            r.stderr == stderr,
    {
        Self { code, stdout, stderr }
    }

    /// Normalizes a raw triple as the POSIX shell hands it back: the exit
    /// code is kept, both streams lose their trailing whitespace.
    pub fn from_raw(code: i32, stdout: &str, stderr: &str) -> (p: Self)
        ensures
            p.code == code,
            p.stdout@ == trim_end_spec(stdout@),
            p.stderr@ == trim_end_spec(stderr@),
    {
        Self { code, stdout: trim_end(stdout), stderr: trim_end(stderr) }
    }

    /// Normalizes a raw engine report: a successful report maps to exit code
    /// zero and any other to one, absent captures read as empty text, and
    /// both streams lose their trailing whitespace.
    pub fn from_engine_raw(success: bool, stdout: Option<String>, stderr: Option<String>) -> (p:
        Self)
        ensures
            success ==> p.code == 0,
            !success ==> p.code == 1,
            p.stdout@ == trim_end_spec(opt_text(stdout)),
            p.stderr@ == trim_end_spec(opt_text(stderr)),
    {
        let code: i32 = if success {
            0
        } else {
            1
        };
        let out_text = match stdout {
            Some(s) => trim_end(s.as_str()),
            None => String::new(),
        };
        let err_text = match stderr {
            Some(s) => trim_end(s.as_str()),
            None => String::new(),
        };
        Self { code, stdout: out_text, stderr: err_text }
    }

    /// Was the execution successful, under the rule of the POSIX shell, the
    /// substrate of this target family?
    pub fn success(&self) -> (r: bool)
        ensures
            r == self.success_spec(Strategy::PosixShell),
    {
        self.code == 0
    }

    /// Was the execution successful, under the rule of the given substrate?
    pub fn success_under(&self, strategy: Strategy) -> (r: bool)
        ensures
            r == self.success_spec(strategy),
    {
        match strategy {
            Strategy::PosixShell => self.code == 0,
            Strategy::HostedEngine => self.code == 0 && self.stderr.as_str().is_empty(),
        }
    }

    /// Formats the triple for display as `<code, stdout, stderr>`.
    pub fn display(&self) -> (r: String)
        ensures
            r@ == self.display_spec(),
    {
        proof {
            reveal_strlit("<");
            reveal_strlit(", ");
            reveal_strlit(">");
        }
        let mut r = "<".to_owned();
        let code = i32_dec_string(self.code);
        r.append(code.as_str());
        r.append(", ");
        r.append(self.stdout.as_str());
        r.append(", ");
        r.append(self.stderr.as_str());
        r.append(">");
        proof {
            assert(r@ =~= self.display_spec());
        }
        r
    }
}

/// An execution that exits with code zero and writes nothing to its error
/// stream is successful under either substrate's rule.
pub proof fn lemma_success_when_clean(p: ProcessOutput, strategy: Strategy)
    requires
        p.code == 0,
        p.stderr@.len() == 0,
    ensures
        p.success_spec(strategy),
{
}

/// The success rules differ on exactly one point: a zero exit code beside a
/// non-empty error stream counts as success for the POSIX shell but as
/// failure for the hosted engine.
pub proof fn lemma_success_rule_asymmetry(p: ProcessOutput)
    requires
        p.code == 0,
        p.stderr@.len() != 0,
    ensures
        p.success_spec(Strategy::PosixShell),
        !p.success_spec(Strategy::HostedEngine),
{
}

} // verus!
