use nothing::listen::{address_of, bind_address, listen_address};
use url::Url;

#[test]
fn listen_address_is_host_colon_port() {
    assert_eq!(listen_address("localhost", 5000), "localhost:5000");
    assert_eq!(listen_address("127.0.0.1", 0), "127.0.0.1:0");
    assert_eq!(listen_address("example.org", 65535), "example.org:65535");
    assert_eq!(listen_address("h", 7), "h:7");
    assert_eq!(listen_address("h", 10), "h:10");
}

#[test]
fn bind_address_of_the_default_url() {
    let url = Url::parse("http://localhost:5000").unwrap();
    assert_eq!(bind_address(&url), Some("localhost:5000".to_string()));
}

#[test]
fn bind_address_of_ip_hosts() {
    let url = Url::parse("http://127.0.0.1:8080/").unwrap();
    assert_eq!(bind_address(&url), Some("127.0.0.1:8080".to_string()));
    let url = Url::parse("http://[::1]:8080/").unwrap();
    assert_eq!(bind_address(&url), Some("[::1]:8080".to_string()));
}

#[test]
fn bind_address_needs_an_explicit_port() {
    let url = Url::parse("http://localhost").unwrap();
    assert_eq!(bind_address(&url), None);
    let url = Url::parse("http://localhost:80").unwrap();
    assert_eq!(bind_address(&url), None);
}

#[test]
fn bind_address_needs_a_host() {
    let url = Url::parse("mailto:someone@example.org").unwrap();
    assert_eq!(bind_address(&url), None);
}

#[test]
fn address_of_needs_both_parts() {
    assert_eq!(address_of(Some("localhost".to_string()), Some(5000)), Some("localhost:5000".to_string()));
    assert_eq!(address_of(None, Some(5000)), None);
    assert_eq!(address_of(Some("localhost".to_string()), None), None);
}
