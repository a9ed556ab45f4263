use dyndns::resolver::{resolve_address, AddressFamily};

#[test]
fn resolve_trims_the_trailing_newline() {
    assert_eq!(resolve_address("2001:db8::1\n"), "2001:db8::1");
}

#[test]
fn resolve_trims_whitespace_on_both_ends() {
    assert_eq!(resolve_address("  \t198.51.100.7\r\n"), "198.51.100.7");
}

#[test]
fn resolve_keeps_a_clean_body_as_it_is() {
    assert_eq!(resolve_address("2001:db8::1"), "2001:db8::1");
}

#[test]
fn resolve_keeps_inner_whitespace() {
    assert_eq!(resolve_address(" not an address \n"), "not an address");
}

#[test]
fn resolve_of_blank_body_is_empty() {
    assert_eq!(resolve_address(""), "");
    assert_eq!(resolve_address(" \n\t\r"), "");
}

#[test]
fn echo_endpoints_follow_the_family() {
    assert_eq!(AddressFamily::V6.echo_endpoint(), "https://api6.ipify.org");
    assert_eq!(AddressFamily::V4.echo_endpoint(), "https://api.ipify.org");
}

#[test]
fn the_default_family_is_v6() {
    assert_eq!(AddressFamily::default(), AddressFamily::V6);
}
