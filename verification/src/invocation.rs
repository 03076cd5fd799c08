//! The parameters of one invocation and the rules that accept them.

use vstd::prelude::*;

verus! {

/// Number of runs when none is asked for.
pub const DEFAULT_RUNS: usize = 1;

/// How the aggregate is presented once every run has finished.
#[derive(Clone, Copy, Debug, PartialEq, Eq, Structural)]
pub enum OutputFormat {
    /// A few plain lines.
    Human,
    /// One structured record.
    Structured,
}

impl OutputFormat {
    /// The format selected by the structured-output switch.
    pub fn from_flag(structured: bool) -> (format: OutputFormat)
        ensures
            format == (if structured {
                OutputFormat::Structured
            } else {
                OutputFormat::Human
            }),
    {
        if structured {
            OutputFormat::Structured
        } else {
            OutputFormat::Human
        }
    }
}

/// Why a set of parameters is turned down before anything runs.
#[derive(Clone, Copy, Debug, PartialEq, Eq, Structural)]
pub enum UsageError {
    /// The command holds no word at all.
    MissingCommand,
    /// A command was given, but it is to be run zero times.
    ZeroRuns,
}

/// The text of each word of a command line.
pub open spec fn texts(words: Seq<String>) -> Seq<Seq<char>> {
    words.map_values(|w: String| w@)
}

/// Mathematical content of an [`Invocation`].
pub struct InvocationView {
    pub runs: nat,
    pub format: OutputFormat,
    pub wait: bool,
    pub command: Seq<Seq<char>>,
}

impl InvocationView {
    /// At least one run of a command of at least one word.
    pub open spec fn wf(self) -> bool {
        self.runs >= 1 && self.command.len() >= 1
    }
}

/// Accepted parameters: how often to run which command, whether to wait for
/// a key first, and how to present the result.
#[derive(Debug)]
pub struct Invocation {
    runs: usize,
    format: OutputFormat,
    wait: bool,
    command: Vec<String>,
}

impl View for Invocation {
    type V = InvocationView;

    closed spec fn view(&self) -> InvocationView {
        InvocationView {
            runs: self.runs as nat,
            format: self.format,
            wait: self.wait,
            command: texts(self.command@),
        }
    }
}

impl Invocation {
    #[verifier::type_invariant]
    spec fn accepted(self) -> bool {
        self.runs >= 1 && self.command@.len() >= 1
    }

    /// Accepts the parameters, or says why not. An empty command is reported
    /// before a run count of zero.
    pub fn new(runs: usize, format: OutputFormat, wait: bool, command: Vec<String>) -> (result:
        Result<Invocation, UsageError>)
        ensures
            match result {
                Ok(invocation) => {
                    &&& runs >= 1
                    &&& command@.len() >= 1
                    &&& invocation@ == (InvocationView {
                        runs: runs as nat,
                        format,
                        wait,
                        command: texts(command@),
                    })
                },
                Err(UsageError::MissingCommand) => command@.len() == 0,
                Err(UsageError::ZeroRuns) => command@.len() >= 1 && runs == 0,
            },
    {
        if command.len() == 0 {
            Err(UsageError::MissingCommand)
        } else if runs == 0 {
            Err(UsageError::ZeroRuns)
        } else {
            Ok(Invocation { runs, format, wait, command })
        }
    }

    /// Number of runs, at least one.
    pub fn runs(&self) -> (runs: usize)
        ensures
            runs == self@.runs,
            self@.wf(),
    {
        proof {
            use_type_invariant(self);
        }
        self.runs
    }

    /// The presentation asked for.
    pub fn format(&self) -> (format: OutputFormat)
        ensures
            format == self@.format,
            self@.wf(),
    {
        proof {
            use_type_invariant(self);
        }
        self.format
    }

    /// Whether a key is awaited before the first run.
    pub fn wait(&self) -> (wait: bool)
        ensures
            wait == self@.wait,
            self@.wf(),
    {
        proof {
            use_type_invariant(self);
        }
        self.wait
    }

    /// The words of the command, the program first.
    pub fn command(&self) -> (command: &Vec<String>)
        ensures
            texts(command@) == self@.command,
            self@.wf(),
    {
        proof {
            use_type_invariant(self);
        }
        &self.command
    }
}

} // verus!
