use pjs_rs::{compose_script, with_bundles, wrap_code, Bundles, WrapMode};

fn bundles() -> Bundles {
    Bundles {
        util: String::from("var polkadotUtil = {};"),
        util_crypto: String::from("var polkadotUtilCrypto = {};"),
        keyring: String::from("var polkadotKeyring = {};"),
        types: String::from("var polkadotTypes = {};"),
        api: String::from("var polkadotApi = {};"),
    }
}

const PRELUDE: &str = "\n    var polkadotUtil = {};\n    var polkadotUtilCrypto = {};\n    var polkadotKeyring = {};\n    var polkadotTypes = {};\n    var polkadotApi = {};\n\n    let pjs = {\n        util: polkadotUtil,\n        utilCrypto: polkadotUtilCrypto,\n        keyring: polkadotKeyring,\n        types: polkadotTypes,\n        api: polkadotApi,\n    };\n\n    ";

#[test]
fn bare_mode_assigns_the_arguments_then_appends_the_code() {
    assert_eq!(
        wrap_code("return 1 + 1;", "[]", WrapMode::Bare),
        "\n            pjs.arguments = [];\n            return 1 + 1;\n            "
    );
}

#[test]
fn closure_mode_wraps_the_code_in_an_async_function() {
    assert_eq!(
        wrap_code("return arguments[0] + arguments[1];", "[2,3]", WrapMode::Closure),
        "\n        const { ApiPromise, WsProvider } = pjs.api;\n        const { util, utilCrypto, keyring, types } = pjs;\n        (async (arguments, ApiPromise, WsProvider, util, utilCrypto, keyring, types) => {\n            return arguments[0] + arguments[1];\n        })([2,3], ApiPromise, WsProvider, util, utilCrypto, keyring, types)"
    );
}

#[test]
fn empty_code_and_arguments_leave_the_bare_template() {
    assert_eq!(
        wrap_code("", "", WrapMode::Bare),
        "\n            pjs.arguments = ;\n            \n            "
    );
}

#[test]
fn code_is_spliced_without_escaping() {
    let code = "return \"})(\" + `${1}` + '\\n';";
    let bare = wrap_code(code, "[]", WrapMode::Bare);
    let closure = wrap_code(code, "[]", WrapMode::Closure);
    assert!(bare.contains(code));
    assert!(closure.contains(code));
}

#[test]
fn bundles_come_first_in_their_fixed_order() {
    assert_eq!(with_bundles(&bundles(), "BODY"), format!("{}BODY\n    ", PRELUDE));
}

#[test]
fn empty_bundles_leave_the_namespace_declaration() {
    let none = Bundles {
        util: String::new(),
        util_crypto: String::new(),
        keyring: String::new(),
        types: String::new(),
        api: String::new(),
    };
    assert_eq!(
        with_bundles(&none, ""),
        "\n    \n    \n    \n    \n    \n\n    let pjs = {\n        util: polkadotUtil,\n        utilCrypto: polkadotUtilCrypto,\n        keyring: polkadotKeyring,\n        types: polkadotTypes,\n        api: polkadotApi,\n    };\n\n    \n    "
    );
}

#[test]
fn arguments_are_threaded_in_bare_mode() {
    let args = vec![serde_json::Value::from("x"), serde_json::Value::from(42)];
    assert_eq!(
        compose_script(&bundles(), "return pjs.arguments;", Some(args), WrapMode::Bare),
        format!(
            "{}\n            pjs.arguments = [\"x\",42];\n            return pjs.arguments;\n            \n    ",
            PRELUDE
        )
    );
}

#[test]
fn arguments_are_threaded_in_closure_mode() {
    let args = vec![serde_json::Value::from(2), serde_json::Value::from(3)];
    let script = compose_script(
        &bundles(),
        "return arguments[0] + arguments[1];",
        Some(args),
        WrapMode::Closure,
    );
    assert!(script.starts_with(PRELUDE));
    assert!(script.ends_with(
        "            return arguments[0] + arguments[1];\n        })([2,3], ApiPromise, WsProvider, util, utilCrypto, keyring, types)\n    "
    ));
}

#[test]
fn absent_arguments_are_an_empty_list() {
    let absent = compose_script(&bundles(), "return 1 + 1;", None, WrapMode::Bare);
    let empty = compose_script(&bundles(), "return 1 + 1;", Some(Vec::new()), WrapMode::Bare);
    assert_eq!(absent, empty);
    assert!(absent.contains("pjs.arguments = [];"));
    let wrapped = compose_script(&bundles(), "return 1 + 1;", None, WrapMode::Closure);
    assert!(wrapped.contains("})([], ApiPromise, WsProvider, util, utilCrypto, keyring, types)"));
}

#[test]
fn every_kind_of_json_value_is_written_as_its_literal() {
    let object: serde_json::Value =
        serde_json::from_str("{\"b\": [true, null], \"a\": {\"n\": -7}}").unwrap();
    let args = vec![
        serde_json::Value::Null,
        serde_json::Value::from(false),
        serde_json::Value::from(1.5),
        serde_json::Value::from(u64::MAX),
        serde_json::Value::from("say \"hi\"\n"),
        object,
    ];
    let script = compose_script(&bundles(), "", Some(args), WrapMode::Bare);
    assert!(script.contains(
        "pjs.arguments = [null,false,1.5,18446744073709551615,\"say \\\"hi\\\"\\n\",{\"b\":[true,null],\"a\":{\"n\":-7}}];"
    ));
}

#[test]
fn both_modes_carry_the_same_literal() {
    let args = vec![serde_json::Value::from("wss://paseo-rpc.dwellir.com"), serde_json::Value::from("//Alice")];
    let literal = "[\"wss://paseo-rpc.dwellir.com\",\"//Alice\"]";
    let bare = compose_script(&bundles(), "return 5;", Some(args.clone()), WrapMode::Bare);
    let closure = compose_script(&bundles(), "return 5;", Some(args), WrapMode::Closure);
    assert_eq!(bare.matches(literal).count(), 1);
    assert_eq!(closure.matches(literal).count(), 1);
}
