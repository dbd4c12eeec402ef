use pjs_rs::{PermissionDenied, ZombiePermissions};

#[test]
fn high_resolution_time_is_denied() {
    let mut policy = ZombiePermissions;
    assert!(!policy.allow_hrtime());
    assert!(!policy.allow_hrtime());
}

#[test]
fn every_network_request_is_granted() {
    let mut policy = ZombiePermissions;
    assert_eq!(policy.check_net_url("wss://rpc.polkadot.io", "WebSocket"), Ok(()));
    assert_eq!(policy.check_net("127.0.0.1", Some(9944), "Deno.connect"), Ok(()));
    assert_eq!(policy.check_net("localhost", None, "Deno.connect"), Ok(()));
}

#[test]
fn every_path_is_granted_as_given() {
    let mut policy = ZombiePermissions;
    assert_eq!(policy.check_read("/etc/hosts", "fetch"), Ok(String::from("/etc/hosts")));
    assert_eq!(policy.check_write("./out.json", "Deno.writeFile"), Ok(String::from("./out.json")));
    let borrowed: Result<&str, PermissionDenied> = policy.check_write_path("", "Deno.writeFile");
    assert_eq!(borrowed, Ok(""));
}
