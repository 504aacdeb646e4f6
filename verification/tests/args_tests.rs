use enet_mqtt::args::{Mqtt, MqttAuth};

#[test]
fn server_uri_joins_host_and_port() {
    let m = Mqtt {
        host: "mosquitto.org".to_string(),
        port: 1883,
        auth: MqttAuth { username: None, password: None },
    };
    assert_eq!(m.server_uri(), "tcp://mosquitto.org:1883");
}

#[test]
fn connect_settings_carry_credentials() {
    let m = Mqtt {
        host: "10.0.0.2".to_string(),
        port: 8883,
        auth: MqttAuth { username: Some("user".to_string()), password: Some("pw".to_string()) },
    };
    let s = m.connect_settings();
    assert_eq!(s.server_uri, "tcp://10.0.0.2:8883");
    assert_eq!(s.user_name.as_deref(), Some("user"));
    assert_eq!(s.password.as_deref(), Some("pw"));

    let anon = Mqtt {
        host: "h".to_string(),
        port: 0,
        auth: MqttAuth { username: None, password: None },
    };
    let s = anon.connect_settings();
    assert_eq!(s.server_uri, "tcp://h:0");
    assert!(s.user_name.is_none());
    assert!(s.password.is_none());
}
