use restless_drive_monitor::config::Config;

fn config(use_truenas: bool, address: Option<&str>, token: Option<&str>) -> Config {
    Config {
        use_truenas,
        truenas_address: address.map(|a| a.to_string()),
        truenas_token: token.map(|t| t.to_string()),
        accept_invalid_certs: false,
        port: 30603,
    }
}

#[test]
fn complete_configuration_asks_for_the_remote_system() {
    assert!(config(true, Some("https://nas.local/"), Some("1-abcdef")).truenas_configured());
    assert!(config(true, Some("http://10.0.0.2:8080/ui"), Some("x")).truenas_configured());
}

#[test]
fn switched_off_configuration_asks_for_nothing() {
    assert!(!config(false, Some("https://nas.local/"), Some("1-abcdef")).truenas_configured());
}

#[test]
fn missing_or_empty_token_asks_for_nothing() {
    assert!(!config(true, Some("https://nas.local/"), None).truenas_configured());
    assert!(!config(true, Some("https://nas.local/"), Some("")).truenas_configured());
}

#[test]
fn missing_or_unusable_address_asks_for_nothing() {
    assert!(!config(true, None, Some("1-abcdef")).truenas_configured());
    assert!(!config(true, Some("mailto:admin@nas.local"), Some("1-abcdef")).truenas_configured());
    assert!(!config(true, Some("data:text/plain,nas"), Some("1-abcdef")).truenas_configured());
    assert!(!config(true, Some("nas.local"), Some("1-abcdef")).truenas_configured());
    assert!(!config(true, Some(""), Some("1-abcdef")).truenas_configured());
}

#[test]
fn usable_goes_by_what_is_known_of_the_address() {
    let c = config(true, Some("anything"), Some("token"));
    assert!(c.truenas_usable(Some(false)));
    assert!(!c.truenas_usable(Some(true)));
    assert!(!c.truenas_usable(None));
    assert!(!config(true, None, Some("token")).truenas_usable(Some(false)));
    assert!(!config(false, Some("anything"), Some("token")).truenas_usable(Some(false)));
    assert!(!config(true, Some("anything"), Some("")).truenas_usable(Some(false)));
}
