use enet_mqtt::messages::{
    get_brightness, ClickDuration, HassDeviceState, IntoDeviceValue, SetValue,
};

#[test]
fn parses_on_and_off() {
    assert_eq!(HassDeviceState::from_str("ON"), Ok(HassDeviceState::On));
    assert_eq!(HassDeviceState::from_str("OFF"), Ok(HassDeviceState::Off));
}

#[test]
fn refuses_other_states_with_message() {
    assert_eq!(
        HassDeviceState::from_str("on"),
        Err("'on' is not a valid state string (expected ON or OFF)".to_string())
    );
    assert_eq!(
        HassDeviceState::from_str(""),
        Err("'' is not a valid state string (expected ON or OFF)".to_string())
    );
}

#[test]
fn parse_through_from_str_trait() {
    let st: Result<HassDeviceState, String> = "OFF".parse();
    assert_eq!(st, Ok(HassDeviceState::Off));
    let bad: Result<HassDeviceState, String> = "TOGGLE".parse();
    assert_eq!(
        bad,
        Err("'TOGGLE' is not a valid state string (expected ON or OFF)".to_string())
    );
}

#[test]
fn state_becomes_short_click() {
    assert_eq!(HassDeviceState::On.into_device_value(), SetValue::On(ClickDuration::Short));
    assert_eq!(HassDeviceState::Off.into_device_value(), SetValue::Off(ClickDuration::Short));
}

#[test]
fn brightness_zero_switches_off() {
    assert_eq!(0u8.into_device_value(), SetValue::Off(ClickDuration::Short));
}

#[test]
fn brightness_dims() {
    assert_eq!(1u8.into_device_value(), SetValue::Dimm(1));
    assert_eq!(50u8.into_device_value(), SetValue::Dimm(50));
    assert_eq!(255u8.into_device_value(), SetValue::Dimm(255));
}

#[test]
fn brightness_of_value() {
    assert_eq!(get_brightness(None), 0);
    assert_eq!(get_brightness(Some(0)), 0);
    assert_eq!(get_brightness(Some(73)), 73);
}
