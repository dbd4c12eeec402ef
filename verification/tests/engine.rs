use pjs_rs::{extension_order, user_agent, Capability};

#[test]
fn modules_are_registered_in_their_fixed_order() {
    assert_eq!(
        extension_order(),
        vec![
            Capability::Console,
            Capability::WebIdl,
            Capability::Url,
            Capability::Web,
            Capability::Crypto,
            Capability::Fetch,
            Capability::Net,
            Capability::WebSocket,
            Capability::Pjs,
        ]
    );
}

#[test]
fn the_own_module_comes_after_what_it_depends_on() {
    let order = extension_order();
    let own = order.iter().position(|c| *c == Capability::Pjs).unwrap();
    assert_eq!(own, order.len() - 1);
    for needed in [Capability::Url, Capability::Web, Capability::WebSocket, Capability::Crypto] {
        let at = order.iter().position(|c| *c == needed).unwrap();
        assert!(at < own);
    }
}

#[test]
fn no_module_is_registered_twice() {
    let order = extension_order();
    for (i, a) in order.iter().enumerate() {
        for b in order.iter().skip(i + 1) {
            assert_ne!(a, b);
        }
    }
}

#[test]
fn the_user_agent_is_fixed() {
    assert_eq!(user_agent(), "zombienet-agent");
}
