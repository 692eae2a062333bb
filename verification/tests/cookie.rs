use wry::cookie::Cookie;
use wry::geometry::Double;

#[test]
fn a_cookie_tells_what_it_holds() {
    let cookie = Cookie {
        domain: "example.com".to_string(),
        expires: Double { bits: 1700000000.5f64.to_bits() },
        is_http_only: true,
        is_secure: false,
        is_session: true,
        name: "session".to_string(),
        path: "/app".to_string(),
        same_site: -1,
        value: "abc".to_string(),
    };
    assert_eq!(cookie.domain(), "example.com");
    assert_eq!(f64::from_bits(cookie.expires().bits), 1700000000.5);
    assert!(cookie.is_http_only());
    assert!(!cookie.is_secure());
    assert!(cookie.is_session());
    assert_eq!(cookie.name(), "session");
    assert_eq!(cookie.path(), "/app");
    assert_eq!(cookie.same_site(), -1);
    assert_eq!(cookie.value(), "abc");
}
