use vstd::prelude::*;
use vstd::string::StringExecFns;
use crate::json::{encode_array, json_array_text};

verus! {

/// The five library bundles that every script starts with. Each declares one
/// global: `polkadotUtil`, `polkadotUtilCrypto`, `polkadotKeyring`,
/// `polkadotTypes` and `polkadotApi`.
#[derive(Debug, Clone, PartialEq, Eq)]
pub struct Bundles {
    pub util: String,
    pub util_crypto: String,
    pub keyring: String,
    pub types: String,
    pub api: String,
}

/// How the user's code is placed in the script.
#[derive(Debug, Clone, Copy, PartialEq, Eq, Structural)]
pub enum WrapMode {
    /// The code stands at the top level and reads its arguments from
    /// `pjs.arguments`.
    Bare,
    /// The code is the body of an async function that is called at once; the
    /// arguments are its first parameter.
    Closure,
}

/// What stands before the argument list in bare mode.
pub open spec fn bare_head() -> Seq<char> {
    "\n            pjs.arguments = "@
}

/// What stands between the argument list and the code in bare mode.
pub open spec fn bare_middle() -> Seq<char> {
    ";\n            "@
}

/// What stands after the code in bare mode.
pub open spec fn bare_tail() -> Seq<char> {
    "\n            "@
}

/// What stands before the code in closure mode.
pub open spec fn closure_head() -> Seq<char> {
    "\n        const { ApiPromise, WsProvider } = pjs.api;\n        const { util, utilCrypto, keyring, types } = pjs;\n        (async (arguments, ApiPromise, WsProvider, util, utilCrypto, keyring, types) => {\n            "@
}

/// What stands between the code and the argument list in closure mode.
pub open spec fn closure_middle() -> Seq<char> {
    "\n        })("@
}

/// What stands after the argument list in closure mode.
pub open spec fn closure_tail() -> Seq<char> {
    ", ApiPromise, WsProvider, util, utilCrypto, keyring, types)"@
}

/// The user's code and the literal of its arguments, placed by `mode`.
pub open spec fn wrapped(mode: WrapMode, code: Seq<char>, arguments: Seq<char>) -> Seq<char> {
    match mode {
        WrapMode::Bare => bare_head() + arguments + bare_middle() + code + bare_tail(),
        WrapMode::Closure => closure_head() + code + closure_middle() + arguments
            + closure_tail(),
    }
}

/// What stands before each bundle.
pub open spec fn bundle_lead() -> Seq<char> {
    "\n    "@
}

/// The declaration of the `pjs` namespace, which follows the last bundle.
pub open spec fn namespace_declaration() -> Seq<char> {
    "\n\n    let pjs = {\n        util: polkadotUtil,\n        utilCrypto: polkadotUtilCrypto,\n        keyring: polkadotKeyring,\n        types: polkadotTypes,\n        api: polkadotApi,\n    };\n\n    "@
}

/// The start of every script: the five bundles in their fixed order, then the
/// declaration of the `pjs` namespace.
pub open spec fn prelude(bundles: Bundles) -> Seq<char> {
    bundle_lead() + bundles.util@ + bundle_lead() + bundles.util_crypto@ + bundle_lead()
        + bundles.keyring@ + bundle_lead() + bundles.types@ + bundle_lead() + bundles.api@
        + namespace_declaration()
}

/// The script that runs `body` after the bundles.
pub open spec fn bundled(bundles: Bundles, body: Seq<char>) -> Seq<char> {
    prelude(bundles) + body + bundle_lead()
}

/// The items of an optional argument list; none where the list is absent.
pub open spec fn arguments_of(json_args: Option<Vec<serde_json::Value>>) -> Seq<
    serde_json::Value,
> {
    match json_args {
        Some(items) => items@,
        None => Seq::empty(),
    }
}

/// The literal of an optional argument list: `[]` for an absent or empty
/// list, else the JSON text of the array of its items.
pub open spec fn literal_of(json_args: Option<Vec<serde_json::Value>>) -> Seq<char> {
    if arguments_of(json_args).len() == 0 {
        "[]"@
    } else {
        json_array_text(arguments_of(json_args))
    }
}

/// The whole script for `code` and `json_args` in `mode`.
pub open spec fn composed(
    bundles: Bundles,
    code: Seq<char>,
    json_args: Option<Vec<serde_json::Value>>,
    mode: WrapMode,
) -> Seq<char> {
    bundled(bundles, wrapped(mode, code, literal_of(json_args)))
}

/// Where the literal of the arguments starts in the placed code.
pub open spec fn arguments_offset(mode: WrapMode, code: Seq<char>) -> nat {
    match mode {
        WrapMode::Bare => bare_head().len(),
        WrapMode::Closure => closure_head().len() + code.len() + closure_middle().len(),
    }
}

/// Where the user's code starts in the placed code.
pub open spec fn code_offset(mode: WrapMode, arguments: Seq<char>) -> nat {
    match mode {
        WrapMode::Bare => bare_head().len() + arguments.len() + bare_middle().len(),
        WrapMode::Closure => closure_head().len(),
    }
}

/// In both modes the literal of the arguments stands in the placed code
/// character for character, at its fixed place.
pub proof fn lemma_arguments_spliced_verbatim(
    mode: WrapMode,
    code: Seq<char>,
    arguments: Seq<char>,
)
    ensures
        arguments_offset(mode, code) + arguments.len() <= wrapped(mode, code, arguments).len(),
        wrapped(mode, code, arguments).subrange(
            arguments_offset(mode, code) as int,
            (arguments_offset(mode, code) + arguments.len()) as int,
        ) == arguments,
{
    let at = arguments_offset(mode, code) as int;
    assert(wrapped(mode, code, arguments).subrange(at, at + arguments.len()) =~= arguments);
}

/// In both modes the user's code stands in the placed code character for
/// character, at its fixed place.
pub proof fn lemma_code_spliced_verbatim(mode: WrapMode, code: Seq<char>, arguments: Seq<char>)
    ensures
        code_offset(mode, arguments) + code.len() <= wrapped(mode, code, arguments).len(),
        wrapped(mode, code, arguments).subrange(
            code_offset(mode, arguments) as int,
            (code_offset(mode, arguments) + code.len()) as int,
        ) == code,
{
    let at = code_offset(mode, arguments) as int;
    assert(wrapped(mode, code, arguments).subrange(at, at + code.len()) =~= code);
}

/// Every script starts with the bundles in their fixed order and the
/// declaration of the namespace, whatever the code, the arguments and the
/// mode; the placed code follows at once.
pub proof fn lemma_script_starts_with_prelude(
    bundles: Bundles,
    code: Seq<char>,
    json_args: Option<Vec<serde_json::Value>>,
    mode: WrapMode,
)
    ensures
        prelude(bundles).is_prefix_of(composed(bundles, code, json_args, mode)),
        composed(bundles, code, json_args, mode).skip(prelude(bundles).len() as int) == wrapped(
            mode,
            code,
            literal_of(json_args),
        ) + bundle_lead(),
{
    let body = wrapped(mode, code, literal_of(json_args));
    let script = composed(bundles, code, json_args, mode);
    assert(script =~= prelude(bundles) + (body + bundle_lead()));
    assert(script.skip(prelude(bundles).len() as int) =~= body + bundle_lead());
}

/// The script carries the user's code and the JSON literal of the arguments
/// character for character, in both modes: each stands where the mode places
/// it, after the bundles and the namespace.
pub proof fn lemma_script_carries_code_and_arguments(
    bundles: Bundles,
    code: Seq<char>,
    json_args: Option<Vec<serde_json::Value>>,
    mode: WrapMode,
)
    ensures
        ({
            let script = composed(bundles, code, json_args, mode);
            let literal = literal_of(json_args);
            let code_at = prelude(bundles).len() + code_offset(mode, literal);
            let literal_at = prelude(bundles).len() + arguments_offset(mode, code);
            &&& code_at + code.len() <= script.len()
            &&& literal_at + literal.len() <= script.len()
            &&& script.subrange(code_at as int, (code_at + code.len()) as int) == code
            &&& script.subrange(literal_at as int, (literal_at + literal.len()) as int)
                == literal
        }),
{
    let script = composed(bundles, code, json_args, mode);
    let literal = literal_of(json_args);
    let body = wrapped(mode, code, literal);
    let lead = prelude(bundles).len();
    let code_at = lead + code_offset(mode, literal);
    let literal_at = lead + arguments_offset(mode, code);
    lemma_code_spliced_verbatim(mode, code, literal);
    lemma_arguments_spliced_verbatim(mode, code, literal);
    assert(script.subrange(lead as int, (lead + body.len()) as int) =~= body);
    assert(script.subrange(code_at as int, (code_at + code.len()) as int) =~= body.subrange(
        code_offset(mode, literal) as int,
        (code_offset(mode, literal) + code.len()) as int,
    ));
    assert(script.subrange(literal_at as int, (literal_at + literal.len()) as int)
        =~= body.subrange(
        arguments_offset(mode, code) as int,
        (arguments_offset(mode, code) + literal.len()) as int,
    ));
}

/// An absent argument list and an empty one give the same script, in which
/// the arguments are written as `[]`.
pub proof fn lemma_absent_arguments_are_empty(
    bundles: Bundles,
    code: Seq<char>,
    items: Vec<serde_json::Value>,
    mode: WrapMode,
)
    requires
        items@.len() == 0,
    ensures
        composed(bundles, code, Some(items), mode) == composed(bundles, code, None, mode),
        composed(bundles, code, None, mode) == bundled(bundles, wrapped(mode, code, "[]"@)),
{
}

/// Places `code` and the literal `arguments` as `mode` says. Neither is
/// escaped or checked.
pub fn wrap_code(code: &str, arguments: &str, mode: WrapMode) -> (script: String)
    ensures
        script@ == wrapped(mode, code@, arguments@),
{
    match mode {
        WrapMode::Bare => {
            let mut script = String::from_str("\n            pjs.arguments = ");
            script.append(arguments);
            script.append(";\n            ");
            script.append(code);
            script.append("\n            ");
            script
        },
        WrapMode::Closure => {
            let mut script = String::from_str(
                "\n        const { ApiPromise, WsProvider } = pjs.api;\n        const { util, utilCrypto, keyring, types } = pjs;\n        (async (arguments, ApiPromise, WsProvider, util, utilCrypto, keyring, types) => {\n            ",
            );
            script.append(code);
            script.append("\n        })(");
            script.append(arguments);
            script.append(", ApiPromise, WsProvider, util, utilCrypto, keyring, types)");
            script
        },
    }
}

/// Puts the bundles and the declaration of the `pjs` namespace before `body`.
pub fn with_bundles(bundles: &Bundles, body: &str) -> (script: String)
    ensures
        script@ == bundled(*bundles, body@),
{
    let mut script = String::from_str("\n    ");
    script.append(bundles.util.as_str());
    script.append("\n    ");
    script.append(bundles.util_crypto.as_str());
    script.append("\n    ");
    script.append(bundles.keyring.as_str());
    script.append("\n    ");
    script.append(bundles.types.as_str());
    script.append("\n    ");
    script.append(bundles.api.as_str());
    script.append(
        "\n\n    let pjs = {\n        util: polkadotUtil,\n        utilCrypto: polkadotUtilCrypto,\n        keyring: polkadotKeyring,\n        types: polkadotTypes,\n        api: polkadotApi,\n    };\n\n    ",
    );
    script.append(body);
    script.append("\n    ");
    script
}

/// The script that an engine is to execute for `code`: the bundles, the
/// namespace, and the code placed by `mode` with the JSON literal of its
/// arguments. An absent argument list counts as an empty one, and both are
/// written as `[]`.
pub fn compose_script(
    bundles: &Bundles,
    code: &str,
    json_args: Option<Vec<serde_json::Value>>,
    mode: WrapMode,
) -> (script: String)
    ensures
        script@ == composed(*bundles, code@, json_args, mode),
{
    let items = match json_args {
        Some(items) => items,
        None => Vec::new(),
    };
    let arguments = encode_array(items);
    let body = wrap_code(code, arguments.as_str(), mode);
    with_bundles(bundles, body.as_str())
}

} // verus!
