use open_protocol::config::{Config, MqttAuth, MqttConnection, MqttType, OpenProtocolConnections};

#[test]
fn topics_are_flat_under_an_empty_root_by_default() {
    match MqttType::default() {
        MqttType::Flat { root } => assert_eq!(root, ""),
    }
}

#[test]
fn no_login_by_default() {
    assert!(matches!(MqttAuth::default(), MqttAuth::NoAuth));
}

#[test]
fn configuration_is_empty_by_default() {
    let config = Config::default();
    assert!(matches!(config.mqtt_type, MqttType::Flat { .. }));
    assert_eq!(config.mqtt_connection.host, "");
    assert_eq!(config.mqtt_connection.port, 0);
    assert_eq!(config.mqtt_connection.client_id, None);
    assert_eq!(config.mqtt_connection.clean_session, None);
    assert!(config.connections.is_empty());
    let connection = MqttConnection::default();
    assert!(matches!(connection.auth, MqttAuth::NoAuth));
    assert_eq!(OpenProtocolConnections::default().name, "");
}
