use bid_pinger::config::{require, ConfigError, Variable};

#[test]
fn present_value_is_handed_on() {
    assert_eq!(
        require(Variable::WebhookUrl, Some("https://hooks.example/1".to_string())),
        Ok("https://hooks.example/1".to_string())
    );
}

#[test]
fn empty_value_counts_as_present() {
    assert_eq!(require(Variable::LookForSize, Some(String::new())), Ok(String::new()));
}

#[test]
fn absent_value_names_its_variable() {
    let all = [
        Variable::WebhookUrl,
        Variable::ProxyUrl,
        Variable::ProxyUser,
        Variable::ProxyPwd,
        Variable::LookForSize,
        Variable::ItemUrlKey,
    ];
    for variable in all {
        assert_eq!(require(variable, None), Err(ConfigError { missing: variable }));
    }
}

#[test]
fn variables_have_their_names() {
    assert_eq!(Variable::WebhookUrl.name(), "WEBHOOK_URL");
    assert_eq!(Variable::ProxyUrl.name(), "PROXY");
    assert_eq!(Variable::ProxyUser.name(), "PROXY_USER");
    assert_eq!(Variable::ProxyPwd.name(), "PROXY_PWD");
    assert_eq!(Variable::LookForSize.name(), "LOOK_FOR_SIZE");
    assert_eq!(Variable::ItemUrlKey.name(), "ITEM_URL_KEY");
}

#[test]
fn variables_have_their_complaints() {
    assert_eq!(Variable::WebhookUrl.complaint(), "Webhook url is empty");
    assert_eq!(Variable::ProxyUrl.complaint(), "Proxy url is empty");
    assert_eq!(Variable::ProxyUser.complaint(), "Proxy user is empty");
    assert_eq!(Variable::ProxyPwd.complaint(), "Proxy pwd is empty");
    assert_eq!(Variable::LookForSize.complaint(), "look_for_size variable is not set");
    assert_eq!(Variable::ItemUrlKey.complaint(), "item_url_key variable is not set");
}
