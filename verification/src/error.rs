use vstd::prelude::*;

verus! {

/// Why an invocation failed. Each variant carries the diagnostic of the stage
/// that failed.
#[derive(Debug, Clone, PartialEq, Eq)]
pub enum ScriptError {
    /// The source file could not be read.
    Io(String),
    /// The typed source could not be lowered to untyped text.
    Parse(String),
    /// The engine rejected the script, or the script threw.
    Execution(String),
}

/// A [`ScriptError`] as contracts see it: the stage and the diagnostic's text.
pub enum Failure {
    Io(Seq<char>),
    Parse(Seq<char>),
    Execution(Seq<char>),
}

impl View for ScriptError {
    type V = Failure;

    open spec fn view(&self) -> Failure {
        match self {
            ScriptError::Io(d) => Failure::Io(d@),
            ScriptError::Parse(d) => Failure::Parse(d@),
            ScriptError::Execution(d) => Failure::Execution(d@),
        }
    }
}

impl Failure {
    /// The diagnostic text of the failed stage.
    pub open spec fn diagnostic(self) -> Seq<char> {
        match self {
            Failure::Io(d) => d,
            Failure::Parse(d) => d,
            Failure::Execution(d) => d,
        }
    }
}

/// A text or a failure, as contracts see it.
pub open spec fn text_or_failure(result: Result<String, ScriptError>) -> Result<
    Seq<char>,
    Failure,
> {
    match result {
        Ok(text) => Ok(text@),
        Err(error) => Err(error@),
    }
}

impl ScriptError {
    /// The diagnostic text of the failed stage.
    pub fn message(&self) -> (text: &str)
        ensures
            text@ == self@.diagnostic(),
    {
        match self {
            ScriptError::Io(d) => d.as_str(),
            ScriptError::Parse(d) => d.as_str(),
            ScriptError::Execution(d) => d.as_str(),
        }
    }
}

} // verus!
