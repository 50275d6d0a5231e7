use feder::config::OutboundAddressPolicy;
use feder::network::{
    check_outbound_url, check_url, validate_public_address, IpAddress, OutboundUrlError, UrlHost,
};

fn v4(a: u8, b: u8, c: u8, d: u8) -> IpAddress {
    IpAddress::V4(u32::from_be_bytes([a, b, c, d]))
}

#[test]
fn non_public_addresses_are_blocked() {
    for address in [v4(127, 0, 0, 1), v4(10, 1, 2, 3), v4(192, 168, 0, 1), v4(169, 254, 1, 1), v4(100, 64, 0, 1)] {
        assert_eq!(validate_public_address(address), Err(address));
    }
    assert_eq!(validate_public_address(IpAddress::V6(1)), Err(IpAddress::V6(1)));
    let documentation = IpAddress::V6(0x2001_0db8_0000_0000_0000_0000_0000_0001);
    assert_eq!(validate_public_address(documentation), Err(documentation));
}

#[test]
fn public_addresses_are_allowed() {
    assert_eq!(validate_public_address(v4(8, 8, 8, 8)), Ok(()));
    assert_eq!(validate_public_address(v4(93, 184, 216, 34)), Ok(()));
    assert_eq!(
        validate_public_address(IpAddress::V6(0x2606_4700_0000_0000_0000_0000_0000_1111)),
        Ok(())
    );
}

#[test]
fn ipv4_mapped_addresses_are_checked_as_ipv4() {
    let mapped_loopback = IpAddress::V6(0xffff_7f00_0001);
    assert_eq!(validate_public_address(mapped_loopback), Err(v4(127, 0, 0, 1)));
    assert_eq!(validate_public_address(IpAddress::V6(0xffff_0808_0808)), Ok(()));
}

#[test]
fn outbound_urls_must_be_http_with_a_public_literal_host() {
    let parts = check_outbound_url("https://remote.example:8443/inbox?x=1", OutboundAddressPolicy::PublicOnly)
        .expect("valid URL");
    assert_eq!(parts.scheme, "https");
    assert_eq!(parts.host, Some(UrlHost::Domain("remote.example".to_string())));
    assert_eq!(parts.port, Some(8443));
    assert_eq!(parts.path, "/inbox");
    assert_eq!(parts.query.as_deref(), Some("x=1"));

    assert_eq!(
        check_outbound_url("ftp://remote.example/inbox", OutboundAddressPolicy::PublicOnly).err(),
        Some(OutboundUrlError::Invalid)
    );
    assert_eq!(
        check_outbound_url("https://user:pw@remote.example/inbox", OutboundAddressPolicy::PublicOnly).err(),
        Some(OutboundUrlError::Invalid)
    );
    assert_eq!(
        check_outbound_url("not a url", OutboundAddressPolicy::PublicOnly).err(),
        Some(OutboundUrlError::Invalid)
    );
    assert_eq!(
        check_outbound_url("http://127.0.0.1/inbox", OutboundAddressPolicy::PublicOnly).err(),
        Some(OutboundUrlError::PrivateAddress(v4(127, 0, 0, 1)))
    );
    assert!(check_outbound_url("http://127.0.0.1/inbox", OutboundAddressPolicy::AllowPrivateAddress).is_ok());
    assert!(check_url("https://user@remote.example/inbox", OutboundAddressPolicy::PublicOnly, false).is_ok());
}

#[test]
fn default_policy_is_public_only() {
    assert_eq!(OutboundAddressPolicy::default(), OutboundAddressPolicy::PublicOnly);
}
