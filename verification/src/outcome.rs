use vstd::prelude::*;
use crate::error::ScriptError;

verus! {

/// What a script returned.
#[derive(Debug, PartialEq)]
pub enum ReturnValue {
    /// The returned value, as JSON.
    Deserialized(serde_json::Value),
    /// The script returned a value that has no JSON form; the text says why.
    CantDeserialize(String),
}

/// How one run of a script in the engine ended.
#[derive(Debug, PartialEq)]
pub enum EngineOutcome {
    /// The script settled and its value was converted to JSON.
    Converted(serde_json::Value),
    /// The script settled, but its value could not be converted to JSON.
    Unconvertible(String),
    /// The engine rejected the script, the script threw, or a task it
    /// scheduled was rejected.
    Failed(String),
}

/// The result of an invocation whose run in the engine ended in `outcome`.
pub open spec fn classified(outcome: EngineOutcome) -> Result<ReturnValue, ScriptError> {
    match outcome {
        EngineOutcome::Converted(value) => Ok(ReturnValue::Deserialized(value)),
        EngineOutcome::Unconvertible(why) => Ok(ReturnValue::CantDeserialize(why)),
        EngineOutcome::Failed(why) => Err(ScriptError::Execution(why)),
    }
}

/// Classifies the end of a run. A value without a JSON form is a successful
/// result that carries the conversion diagnostic; only a failure of the run
/// itself is an error.
pub fn classify(outcome: EngineOutcome) -> (result: Result<ReturnValue, ScriptError>)
    ensures
        result == classified(outcome),
        result is Err <==> outcome is Failed,
        outcome matches EngineOutcome::Unconvertible(why) ==> result == Ok::<
            ReturnValue,
            ScriptError,
        >(ReturnValue::CantDeserialize(why)),
{
    match outcome {
        EngineOutcome::Converted(value) => Ok(ReturnValue::Deserialized(value)),
        EngineOutcome::Unconvertible(why) => Ok(ReturnValue::CantDeserialize(why)),
        EngineOutcome::Failed(why) => Err(ScriptError::Execution(why)),
    }
}

} // verus!
