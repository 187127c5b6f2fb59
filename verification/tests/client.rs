use bid_pinger::client::{
    client_from, create_http_client, default_headers, make_proxy, proxy_from, ClientError,
};
use bid_pinger::market::{CONTENT_TYPE, USER_AGENT};

#[test]
fn make_proxy_takes_and_refuses_as_the_client_does() {
    assert!(make_proxy("http://proxy.example:8080", "user", "secret").is_ok());
    assert!(make_proxy("proxy.example:8080", "user", "secret").is_ok());
    assert!(matches!(
        make_proxy("ftp://proxy.example", "user", "secret"),
        Err(ClientError::ProxyAddress(_))
    ));
    assert!(matches!(make_proxy("", "user", "secret"), Err(ClientError::ProxyAddress(_))));
}

#[test]
fn default_headers_hold_the_two_fixed_headers() {
    let headers = default_headers();
    assert_eq!(headers.len(), 2);
    assert_eq!(headers.keys_len(), 2);
    assert_eq!(headers.get("user-agent").unwrap().as_bytes(), USER_AGENT.as_bytes());
    assert_eq!(headers.get("content-type").unwrap().as_bytes(), CONTENT_TYPE.as_bytes());
}

#[test]
fn default_headers_are_found_under_any_case_of_their_names() {
    let headers = default_headers();
    assert_eq!(headers.get("User-Agent").unwrap(), USER_AGENT);
    assert_eq!(headers.get("Content-Type").unwrap(), "application/json");
    let names: Vec<String> = headers.keys().map(|name| name.as_str().to_string()).collect();
    assert_eq!(names, vec!["user-agent".to_string(), "content-type".to_string()]);
}

#[test]
fn good_proxy_address_is_not_turned_down() {
    let made = create_http_client("http://proxy.example:8080", "user", "secret");
    assert!(!matches!(made, Err(ClientError::ProxyAddress(_))));
    let bare = create_http_client("proxy.example:8080", "user", "secret");
    assert!(!matches!(bare, Err(ClientError::ProxyAddress(_))));
}

#[test]
fn bad_proxy_address_is_turned_down() {
    assert!(matches!(
        create_http_client("ftp://proxy.example", "user", "secret"),
        Err(ClientError::ProxyAddress(_))
    ));
    assert!(matches!(create_http_client("", "user", "secret"), Err(ClientError::ProxyAddress(_))));
    assert!(matches!(
        create_http_client("http://", "user", "secret"),
        Err(ClientError::ProxyAddress(_))
    ));
}

#[test]
fn same_proxy_address_gives_the_same_verdict() {
    for address in ["http://proxy.example:8080", "ftp://proxy.example", "https://10.0.0.1:3128", ":"] {
        let first = matches!(
            create_http_client(address, "user", "secret"),
            Err(ClientError::ProxyAddress(_))
        );
        let second =
            matches!(create_http_client(address, "u", "p"), Err(ClientError::ProxyAddress(_)));
        assert_eq!(first, second);
    }
}

#[test]
fn proxy_error_is_reported_as_proxy_address() {
    let refused = reqwest::Proxy::all("ftp://proxy.example");
    assert!(refused.is_err());
    assert!(matches!(proxy_from(refused, "user", "secret"), Err(ClientError::ProxyAddress(_))));
    let taken = reqwest::Proxy::all("http://proxy.example:8080");
    assert!(taken.is_ok());
    assert!(proxy_from(taken, "user", "secret").is_ok());
}

#[test]
fn build_result_is_handed_on() {
    let built = reqwest::ClientBuilder::new().build();
    let was_ok = built.is_ok();
    assert_eq!(client_from(built).is_ok(), was_ok);
    let failed = reqwest::ClientBuilder::new().user_agent("bad\nagent").build();
    assert!(failed.is_err());
    assert!(matches!(client_from(failed), Err(ClientError::Build(_))));
}

#[test]
fn make_proxy_is_for_all_traffic_at_the_given_address() {
    let proxy = make_proxy("http://proxy.example:8080", "user", "secret").unwrap();
    assert_eq!(format!("{:?}", proxy), "Proxy(All(http://proxy.example:8080), None)");
    let other = make_proxy("https://10.0.0.1:3128", "user", "secret").unwrap();
    assert_eq!(format!("{:?}", other), "Proxy(All(https://10.0.0.1:3128), None)");
}
