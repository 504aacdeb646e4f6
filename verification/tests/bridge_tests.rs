use enet_mqtt::bridge::{
    device_attr_topic, device_base_topic, device_brightness_topic, device_config_topic,
    device_state_topic, device_unique_id, device_update_publications, discovery, CommandState,
    DeviceKind, Publication, BRIGHTNESS_WINDOW_NANOS,
};
use enet_mqtt::messages::{ClickDuration, HassDeviceState, MqttMessage, SetValue};

const T0: u128 = 1_700_000_000_000_000_000;

#[test]
fn brightness_then_state_within_window_sets_brightness() {
    let mut c = CommandState::new();
    assert_eq!(c.handle_command(MqttMessage::SetDeviceBrightness(4, 60), true, T0), None);
    assert_eq!(c.pending(4), Some((SetValue::Dimm(60), T0)));
    assert_eq!(
        c.handle_command(MqttMessage::SetDeviceState(4, HassDeviceState::On), true, T0 + 1_000),
        Some((4, SetValue::Dimm(60)))
    );
    assert_eq!(c.pending(4), None);
}

#[test]
fn exactly_fifteen_seconds_still_sets_brightness() {
    let mut c = CommandState::new();
    c.handle_command(MqttMessage::SetDeviceBrightness(4, 60), true, T0);
    assert_eq!(
        c.handle_command(
            MqttMessage::SetDeviceState(4, HassDeviceState::On),
            true,
            T0 + BRIGHTNESS_WINDOW_NANOS
        ),
        Some((4, SetValue::Dimm(60)))
    );
}

#[test]
fn brightness_then_state_after_window_sets_state() {
    let mut c = CommandState::new();
    c.handle_command(MqttMessage::SetDeviceBrightness(4, 60), true, T0);
    assert_eq!(
        c.handle_command(
            MqttMessage::SetDeviceState(4, HassDeviceState::On),
            true,
            T0 + BRIGHTNESS_WINDOW_NANOS + 1
        ),
        Some((4, SetValue::On(ClickDuration::Short)))
    );
    assert_eq!(c.pending(4), None);
}

#[test]
fn zero_brightness_waits_as_off() {
    let mut c = CommandState::new();
    c.handle_command(MqttMessage::SetDeviceBrightness(2, 0), true, T0);
    assert_eq!(
        c.handle_command(MqttMessage::SetDeviceState(2, HassDeviceState::On), true, T0),
        Some((2, SetValue::Off(ClickDuration::Short)))
    );
}

#[test]
fn state_without_brightness_sets_state() {
    let mut c = CommandState::new();
    assert_eq!(
        c.handle_command(MqttMessage::SetDeviceState(9, HassDeviceState::Off), true, T0),
        Some((9, SetValue::Off(ClickDuration::Short)))
    );
}

#[test]
fn unknown_devices_are_ignored() {
    let mut c = CommandState::new();
    assert_eq!(c.handle_command(MqttMessage::SetDeviceBrightness(5, 30), false, T0), None);
    assert_eq!(c.pending(5), None);
    c.handle_command(MqttMessage::SetDeviceBrightness(5, 30), true, T0);
    assert_eq!(
        c.handle_command(MqttMessage::SetDeviceState(5, HassDeviceState::On), false, T0),
        None
    );
    assert_eq!(c.pending(5), Some((SetValue::Dimm(30), T0)));
}

#[test]
fn later_brightness_replaces_earlier() {
    let mut c = CommandState::new();
    c.handle_command(MqttMessage::SetDeviceBrightness(1, 10), true, T0);
    c.handle_command(MqttMessage::SetDeviceBrightness(1, 20), true, T0 + 5);
    assert_eq!(c.pending(1), Some((SetValue::Dimm(20), T0 + 5)));
}

#[test]
fn commands_stay_with_their_device() {
    let mut c = CommandState::new();
    c.handle_command(MqttMessage::SetDeviceBrightness(1, 10), true, T0);
    assert_eq!(
        c.handle_command(MqttMessage::SetDeviceState(2, HassDeviceState::On), true, T0),
        Some((2, SetValue::On(ClickDuration::Short)))
    );
    assert_eq!(c.pending(1), Some((SetValue::Dimm(10), T0)));
}

#[test]
fn topics_of_a_device() {
    assert_eq!(device_base_topic(12), "enet/instance-1/12");
    assert_eq!(device_state_topic(12), "enet/instance-1/12/state");
    assert_eq!(device_brightness_topic(12), "enet/instance-1/12/bri");
    assert_eq!(device_attr_topic(12), "enet/instance-1/12/attr");
    assert_eq!(device_config_topic(12), "homeassistant/light/enet-1/12/config");
    assert_eq!(device_unique_id(12), "enet-1-12");
}

fn publ(topic: &str, payload: &str) -> Publication {
    Publication { topic: topic.to_string(), payload: payload.to_string() }
}

#[test]
fn switch_update_publishes_state() {
    assert_eq!(
        device_update_publications(DeviceKind::Binary, 3, true, None),
        vec![publ("enet/instance-1/3/state", "ON")]
    );
    assert_eq!(
        device_update_publications(DeviceKind::Binary, 3, false, Some(40)),
        vec![publ("enet/instance-1/3/state", "OFF")]
    );
}

#[test]
fn dimmer_update_publishes_brightness_then_state() {
    assert_eq!(
        device_update_publications(DeviceKind::Dimmer, 8, true, Some(55)),
        vec![publ("enet/instance-1/8/bri", "55"), publ("enet/instance-1/8/state", "ON")]
    );
    assert_eq!(
        device_update_publications(DeviceKind::Dimmer, 8, false, None),
        vec![publ("enet/instance-1/8/bri", "0"), publ("enet/instance-1/8/state", "OFF")]
    );
}

#[test]
fn blinds_update_publishes_nothing() {
    assert!(device_update_publications(DeviceKind::Blinds, 8, true, Some(10)).is_empty());
}

#[test]
fn discovery_of_lights() {
    let d = discovery(DeviceKind::Dimmer, 21).expect("dimmers are announced");
    assert_eq!(d.config_topic, "homeassistant/light/enet-1/21/config");
    assert_eq!(d.attr_topic, "enet/instance-1/21/attr");
    assert_eq!(d.base_topic, "enet/instance-1/21");
    assert_eq!(d.unique_id, "enet-1-21");
    assert!(d.dimmable);
    assert_eq!(d.kind_label, "dimmer");
    let b = discovery(DeviceKind::Binary, 2).expect("switches are announced");
    assert!(!b.dimmable);
    assert_eq!(b.kind_label, "binary");
    assert!(discovery(DeviceKind::Blinds, 2).is_none());
}
