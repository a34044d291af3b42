use qrshare::config::{args_are_valid, pick_ephemeral_port};
use qrshare::resolve::resolve_candidate;

#[test]
fn ports_are_ephemeral_and_in_range() {
    for _ in 0..64 {
        let p = pick_ephemeral_port();
        assert!((1024..65535).contains(&p));
    }
}

#[test]
fn exactly_one_positional_argument_is_accepted() {
    assert!(!args_are_valid(0));
    assert!(!args_are_valid(1));
    assert!(args_are_valid(2));
    assert!(!args_are_valid(3));
}

#[test]
fn resolves_a_trimmed_address_candidate() {
    assert_eq!(
        resolve_candidate("  192.168.1.5\n").as_deref(),
        Some("192.168.1.5")
    );
    assert_eq!(resolve_candidate("10.1.2.3").as_deref(), Some("10.1.2.3"));
}

#[test]
fn an_empty_query_result_resolves_to_nothing() {
    assert_eq!(resolve_candidate(""), None);
    assert_eq!(resolve_candidate(" \t\r\n"), None);
}
