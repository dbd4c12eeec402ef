use vstd::prelude::*;
use crate::error::{text_or_failure, Failure, ScriptError};
use crate::source::{
    code_of_file, fits_parser, get_code, is_typed_path, lemma_files_are_prepared_by_their_suffix,
    texts, transpile, transpiled, typed_suffix,
};
use crate::template::{compose_script, composed, Bundles, WrapMode};

verus! {

/// The script for prepared code, or the failure of the preparation.
pub open spec fn script_of(
    bundles: Bundles,
    code: Result<Seq<char>, Failure>,
    json_args: Option<Vec<serde_json::Value>>,
    mode: WrapMode,
) -> Result<Seq<char>, Failure> {
    match code {
        Ok(code) => Ok(composed(bundles, code, json_args, mode)),
        Err(failure) => Err(failure),
    }
}

/// Running typed text is running its lowering as untyped text: where the
/// text is lowered to `lowering`, its script is the script of `lowering` run
/// as it is; where the text is refused, there is no script, only the parse
/// failure.
pub proof fn lemma_typed_text_runs_as_its_lowering(
    bundles: Bundles,
    code: Seq<char>,
    lowering: Seq<char>,
    json_args: Option<Vec<serde_json::Value>>,
    mode: WrapMode,
)
    ensures
        transpiled(code) == Ok::<Seq<char>, Failure>(lowering) ==> script_of(
            bundles,
            transpiled(code),
            json_args,
            mode,
        ) == Ok::<Seq<char>, Failure>(composed(bundles, lowering, json_args, mode)),
        transpiled(code) is Err ==> script_of(bundles, transpiled(code), json_args, mode)
            is Err,
        script_of(bundles, transpiled(code), json_args, mode) matches Err(failure)
            ==> failure is Parse,
{
}

/// A readable file runs as its text does: one whose path ends in `.ts` as
/// typed text, every other one as untyped text. An unreadable file gives no
/// script, only the I/O failure.
pub proof fn lemma_files_run_as_their_text(
    bundles: Bundles,
    path: Seq<char>,
    content: Seq<char>,
    diagnostic: Seq<char>,
    json_args: Option<Vec<serde_json::Value>>,
    mode: WrapMode,
)
    ensures
        typed_suffix().is_suffix_of(path) ==> script_of(
            bundles,
            code_of_file(path, Ok(content)),
            json_args,
            mode,
        ) == script_of(bundles, transpiled(content), json_args, mode),
        !typed_suffix().is_suffix_of(path) ==> script_of(
            bundles,
            code_of_file(path, Ok(content)),
            json_args,
            mode,
        ) == Ok::<Seq<char>, Failure>(composed(bundles, content, json_args, mode)),
        script_of(bundles, code_of_file(path, Err(diagnostic)), json_args, mode) == Err::<
            Seq<char>,
            Failure,
        >(Failure::Io(diagnostic)),
{
    lemma_files_are_prepared_by_their_suffix(path, content, diagnostic);
}

/// The script that runs the file at `file_path` at the top level, with its
/// arguments in `pjs.arguments`. `read` is what reading the file gave: its
/// content, or the diagnostic of the failed read. A `.ts` file is lowered
/// first, and its content has to be shorter than 4 GiB.
pub fn run_file(
    bundles: &Bundles,
    file_path: &str,
    read: Result<String, String>,
    json_args: Option<Vec<serde_json::Value>>,
) -> (script: Result<String, ScriptError>)
    requires
        read matches Ok(content) ==> is_typed_path(file_path@) ==> fits_parser(content@),
    ensures
        text_or_failure(script) == script_of(
            *bundles,
            code_of_file(file_path@, texts(read)),
            json_args,
            WrapMode::Bare,
        ),
{
    match get_code(file_path, read) {
        Ok(code) => Ok(compose_script(bundles, code.as_str(), json_args, WrapMode::Bare)),
        Err(error) => Err(error),
    }
}

/// The script that runs the file at `file_path` as the body of an async
/// function, with its arguments as the first parameter. `read` is what
/// reading the file gave. A `.ts` file is lowered first, and its content has
/// to be shorter than 4 GiB.
pub fn run_file_with_wrap(
    bundles: &Bundles,
    file_path: &str,
    read: Result<String, String>,
    json_args: Option<Vec<serde_json::Value>>,
) -> (script: Result<String, ScriptError>)
    requires
        read matches Ok(content) ==> is_typed_path(file_path@) ==> fits_parser(content@),
    ensures
        text_or_failure(script) == script_of(
            *bundles,
            code_of_file(file_path@, texts(read)),
            json_args,
            WrapMode::Closure,
        ),
{
    match get_code(file_path, read) {
        Ok(code) => Ok(compose_script(bundles, code.as_str(), json_args, WrapMode::Closure)),
        Err(error) => Err(error),
    }
}

/// The script that runs JavaScript text at the top level.
pub fn run_js_code(
    bundles: &Bundles,
    code_content: &str,
    json_args: Option<Vec<serde_json::Value>>,
) -> (script: String)
    ensures
        script@ == composed(*bundles, code_content@, json_args, WrapMode::Bare),
{
    compose_script(bundles, code_content, json_args, WrapMode::Bare)
}

/// The script that runs TypeScript text at the top level, after lowering it.
/// The text has to be shorter than 4 GiB.
pub fn run_ts_code(
    bundles: &Bundles,
    code_content: &str,
    json_args: Option<Vec<serde_json::Value>>,
) -> (script: Result<String, ScriptError>)
    requires
        fits_parser(code_content@),
    ensures
        text_or_failure(script) == script_of(
            *bundles,
            transpiled(code_content@),
            json_args,
            WrapMode::Bare,
        ),
{
    match transpile(code_content) {
        Ok(code) => Ok(compose_script(bundles, code.as_str(), json_args, WrapMode::Bare)),
        Err(error) => Err(error),
    }
}

} // verus!
