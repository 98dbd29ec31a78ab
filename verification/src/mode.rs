//! The three ways to run, and how the startup argument selects one.

use crate::drain::ReadStrategy;
use vstd::prelude::*;
use vstd::string::StrSliceExecFns;

verus! {

/// What the process does for its whole life.
#[derive(Clone, Copy, Debug, PartialEq, Eq, Structural)]
pub enum Mode {
    /// Emit the paced stream on standard output.
    Producer,
    /// Drain standard input with blocking reads.
    StdConsumer,
    /// Drain standard input with reads that yield while they wait.
    TokioConsumer,
}

/// Why no mode could be selected.
#[derive(Clone, Copy, Debug, PartialEq, Eq, Structural)]
pub enum UsageError {
    /// No argument was given.
    MissingMode,
    /// The argument names no mode.
    UnknownMode,
}

/// The mode that an argument selects: exactly the three flags are known.
pub open spec fn spec_parse_mode(arg: Option<Seq<char>>) -> Result<Mode, UsageError> {
    match arg {
        None => Err(UsageError::MissingMode),
        Some(text) => if text == "--producer"@ {
            Ok(Mode::Producer)
        } else if text == "--tokio-consumer"@ {
            Ok(Mode::TokioConsumer)
        } else if text == "--std-consumer"@ {
            Ok(Mode::StdConsumer)
        } else {
            Err(UsageError::UnknownMode)
        },
    }
}

/// The characters of an argument, if there is one.
pub open spec fn arg_text(arg: Option<&str>) -> Option<Seq<char>> {
    match arg {
        Some(text) => Some(text@),
        None => None,
    }
}

/// Selects the mode from the first startup argument.
pub fn parse_mode(arg: Option<&str>) -> (selected: Result<Mode, UsageError>)
    ensures
        selected == spec_parse_mode(arg_text(arg)),
{
    match arg {
        None => Err(UsageError::MissingMode),
        Some(text) => {
            if same_text(text, "--producer") {
                Ok(Mode::Producer)
            } else if same_text(text, "--tokio-consumer") {
                Ok(Mode::TokioConsumer)
            } else if same_text(text, "--std-consumer") {
                Ok(Mode::StdConsumer)
            } else {
                Err(UsageError::UnknownMode)
            }
        },
    }
}

/// The one line shown on a usage error: the two valid forms of invocation.
pub fn usage() -> (line: &'static str)
    ensures
        line@ == "Usage: tokio-stdin --producer | tokio-stdin [--tokio-consumer|--std-consumer]"@,
{
    "Usage: tokio-stdin --producer | tokio-stdin [--tokio-consumer|--std-consumer]"
}

impl Mode {
    /// How a consumer mode reads; the producer does not read.
    pub open spec fn spec_read_strategy(self) -> Option<ReadStrategy> {
        match self {
            Mode::Producer => None,
            Mode::StdConsumer => Some(ReadStrategy::Blocking),
            Mode::TokioConsumer => Some(ReadStrategy::Cooperative),
        }
    }

    /// How a consumer mode reads; the producer does not read.
    pub fn read_strategy(self) -> (strategy: Option<ReadStrategy>)
        ensures
            strategy == self.spec_read_strategy(),
    {
        match self {
            Mode::Producer => None,
            Mode::StdConsumer => Some(ReadStrategy::Blocking),
            Mode::TokioConsumer => Some(ReadStrategy::Cooperative),
        }
    }
}

/// Tells whether two strings hold the same characters.
fn same_text(left: &str, right: &str) -> (same: bool)
    ensures
        same == (left@ == right@),
{
    let len: usize = left.unicode_len();
    if len != right.unicode_len() {
        return false;
    }
    let mut at: usize = 0;
    while at < len
        invariant
            at <= len,
            len == left@.len(),
            len == right@.len(),
            forall|i: int| 0 <= i < at ==> left@[i] == right@[i],
        decreases len - at,
    {
        if left.get_char(at) != right.get_char(at) {
            return false;
        }
        at += 1;
    }
    assert(left@ =~= right@);
    true
}

} // verus!
