use enet_mqtt::messages::{HassDeviceState, MqttMessage, MqttMessageKind};
use enet_mqtt::topic::{RouteMatch, TopicMatcher};

fn matcher() -> TopicMatcher {
    TopicMatcher::new().expect("the command routes are accepted")
}

#[test]
fn state_command_is_matched() {
    let m = matcher();
    assert_eq!(
        MqttMessage::try_match(&m, "enet/instance-1/12/set", "ON"),
        Some(MqttMessage::SetDeviceState(12, HassDeviceState::On))
    );
    assert_eq!(
        MqttMessage::try_match(&m, "enet/instance-1/3/set", "OFF"),
        Some(MqttMessage::SetDeviceState(3, HassDeviceState::Off))
    );
}

#[test]
fn brightness_command_is_matched() {
    let m = matcher();
    assert_eq!(
        MqttMessage::try_match(&m, "enet/instance-1/12/bri/set", "40"),
        Some(MqttMessage::SetDeviceBrightness(12, 40))
    );
    assert_eq!(
        MqttMessage::try_match(&m, "enet/instance-1/7/bri/set", "0"),
        Some(MqttMessage::SetDeviceBrightness(7, 0))
    );
}

#[test]
fn unmatched_topics_carry_no_command() {
    let m = matcher();
    for topic in [
        "enet/instance-1/12/state",
        "enet/instance-2/12/set",
        "enet/instance-1/12",
        "enet/instance-1/12/bri",
        "enet/instance-1/12/set/more",
        "",
        "homeassistant/light/enet-1/12/config",
    ] {
        assert_eq!(MqttMessage::try_match(&m, topic, "ON"), None, "topic {:?}", topic);
    }
}

#[test]
fn bad_numbers_carry_no_command() {
    let m = matcher();
    assert_eq!(MqttMessage::try_match(&m, "enet/instance-1/abc/set", "ON"), None);
    assert_eq!(MqttMessage::try_match(&m, "enet/instance-1//set", "ON"), None);
    assert_eq!(MqttMessage::try_match(&m, "enet/instance-1/-1/set", "ON"), None);
    assert_eq!(MqttMessage::try_match(&m, "enet/instance-1/4294967296/set", "ON"), None);
    assert_eq!(
        MqttMessage::try_match(&m, "enet/instance-1/+5/set", "ON"),
        Some(MqttMessage::SetDeviceState(5, HassDeviceState::On))
    );
}

#[test]
fn bad_bodies_carry_no_command() {
    let m = matcher();
    assert_eq!(MqttMessage::try_match(&m, "enet/instance-1/12/set", "on"), None);
    assert_eq!(MqttMessage::try_match(&m, "enet/instance-1/12/set", "40"), None);
    assert_eq!(MqttMessage::try_match(&m, "enet/instance-1/12/bri/set", "256"), None);
    assert_eq!(MqttMessage::try_match(&m, "enet/instance-1/12/bri/set", "ON"), None);
    assert_eq!(MqttMessage::try_match(&m, "enet/instance-1/12/bri/set", ""), None);
}

#[test]
fn lookup_reports_route_and_parameter() {
    let m = matcher();
    let r = m.lookup("enet/instance-1/99/bri/set").expect("matches");
    assert_eq!(r.kind, MqttMessageKind::SetDeviceBrightness);
    assert_eq!(r.params, vec![("number".to_string(), "99".to_string())]);
    let s = m.lookup("enet/instance-1/99/set").expect("matches");
    assert_eq!(s.kind, MqttMessageKind::SetDeviceState);
    assert_eq!(s.params, vec![("number".to_string(), "99".to_string())]);
    assert!(m.lookup("enet/instance-1/99/other").is_none());
}

#[test]
fn message_from_a_given_route() {
    let route = RouteMatch {
        kind: MqttMessageKind::SetDeviceState,
        params: vec![
            ("other".to_string(), "1".to_string()),
            ("number".to_string(), "8".to_string()),
            ("number".to_string(), "9".to_string()),
        ],
    };
    assert_eq!(
        MqttMessage::from_route(&route, "OFF"),
        Some(MqttMessage::SetDeviceState(8, HassDeviceState::Off))
    );
    let bri = RouteMatch {
        kind: MqttMessageKind::SetDeviceBrightness,
        params: vec![("number".to_string(), "x".to_string())],
    };
    assert_eq!(MqttMessage::from_route(&bri, "10"), None);
}
