use socksy::config::{defaults, merge_layers, resolve, validate_interface, Config, ConfigError, Layer, DEFAULT_LISTEN_ADDRESS};

fn layer(listen: Option<&str>, bind: Option<&str>) -> Layer {
    Layer {
        listen_address: listen.map(|s| s.to_string()),
        bind_interface: bind.map(|s| s.to_string()),
    }
}

fn config(listen: &str, bind: &str) -> Config {
    Config { listen_address: listen.to_string(), bind_interface: bind.to_string() }
}

#[test]
fn defaults_set_only_the_listen_address() {
    let d = defaults();
    assert_eq!(d.listen_address.as_deref(), Some("127.0.0.1:8888"));
    assert_eq!(d.bind_interface, None);
    assert_eq!(DEFAULT_LISTEN_ADDRESS, "127.0.0.1:8888");
}

#[test]
fn command_line_overrides_environment_and_defaults() {
    let r = merge_layers(
        defaults(),
        layer(Some("0.0.0.0:1080"), Some("eth0")),
        layer(Some("10.0.0.1:9000"), Some("wg0")),
    );
    assert_eq!(r, Ok(config("10.0.0.1:9000", "wg0")));
}

#[test]
fn environment_overrides_defaults() {
    let r = merge_layers(defaults(), layer(Some("0.0.0.0:1080"), Some("eth0")), layer(None, None));
    assert_eq!(r, Ok(config("0.0.0.0:1080", "eth0")));
}

#[test]
fn unset_keys_keep_lower_layer_values() {
    let r = merge_layers(defaults(), layer(Some("0.0.0.0:1080"), None), layer(None, Some("tun0")));
    assert_eq!(r, Ok(config("0.0.0.0:1080", "tun0")));
    let r = merge_layers(defaults(), layer(None, None), layer(None, Some("tun0")));
    assert_eq!(r, Ok(config("127.0.0.1:8888", "tun0")));
}

#[test]
fn missing_bind_interface_fails() {
    let r = merge_layers(defaults(), layer(None, None), layer(Some("1.2.3.4:5"), None));
    assert_eq!(r, Err(ConfigError::MissingBindInterface));
}

#[test]
fn missing_listen_address_fails() {
    let r = merge_layers(layer(None, None), layer(None, Some("eth0")), layer(None, None));
    assert_eq!(r, Err(ConfigError::MissingListenAddress));
}

#[test]
fn known_interface_passes_validation() {
    let ifaces = Some(vec!["lo".to_string(), "eth0".to_string()]);
    assert_eq!(validate_interface(&config("127.0.0.1:8888", "eth0"), &ifaces), Ok(()));
}

#[test]
fn unknown_interface_fails_validation() {
    let ifaces = Some(vec!["lo".to_string(), "eth0".to_string()]);
    assert_eq!(
        validate_interface(&config("127.0.0.1:8888", "wlan0"), &ifaces),
        Err(ConfigError::UnknownInterface)
    );
    assert_eq!(
        validate_interface(&config("127.0.0.1:8888", "eth0"), &Some(vec![])),
        Err(ConfigError::UnknownInterface)
    );
}

#[test]
fn unavailable_enumeration_skips_validation() {
    assert_eq!(validate_interface(&config("127.0.0.1:8888", "wlan0"), &None), Ok(()));
}

#[test]
fn resolve_merges_then_validates() {
    let ifaces = Some(vec!["lo".to_string(), "eth0".to_string()]);
    assert_eq!(
        resolve(defaults(), layer(None, Some("eth0")), layer(None, None), &ifaces),
        Ok(config("127.0.0.1:8888", "eth0"))
    );
    assert_eq!(
        resolve(defaults(), layer(None, Some("eth1")), layer(None, None), &ifaces),
        Err(ConfigError::UnknownInterface)
    );
    assert_eq!(
        resolve(defaults(), layer(None, None), layer(None, None), &ifaces),
        Err(ConfigError::MissingBindInterface)
    );
    assert_eq!(
        resolve(defaults(), layer(None, Some("eth1")), layer(None, None), &None),
        Ok(config("127.0.0.1:8888", "eth1"))
    );
}
