//! Commands received over MQTT, Home Assistant device states, and the values
//! they become on the eNet side.

use vstd::prelude::*;
use crate::decimal::str_eq;

verus! {

/// On/off state as Home Assistant sends it (`ON` / `OFF`).
#[derive(Debug, Clone, Copy, PartialEq, Eq, Structural)]
pub enum HassDeviceState {
    On,
    Off,
}

/// How long a switch is pressed when a value is set.
#[derive(Debug, Clone, Copy, PartialEq, Eq, Structural)]
pub enum ClickDuration {
    Short,
    Long,
}

/// A value sent to an eNet device.
#[derive(Debug, Clone, Copy, PartialEq, Eq, Structural)]
pub enum SetValue {
    On(ClickDuration),
    Off(ClickDuration),
    Dimm(u8),
    Blinds(u8),
}

/// The kind of command a topic carries.
#[derive(Debug, Clone, Copy, PartialEq, Eq, Structural)]
pub enum MqttMessageKind {
    SetDeviceState,
    SetDeviceBrightness,
}

/// A command received over MQTT: the device number and what to set.
#[derive(Debug, Clone, Copy, PartialEq, Eq, Structural)]
pub enum MqttMessage {
    SetDeviceState(u32, HassDeviceState),
    SetDeviceBrightness(u32, u8),
}

/// The state string `s` names, if any.
pub open spec fn parse_state(s: Seq<char>) -> Option<HassDeviceState> {
    if s == "ON"@ {
        Some(HassDeviceState::On)
    } else if s == "OFF"@ {
        Some(HassDeviceState::Off)
    } else {
        None
    }
}

/// The message with which a state string is refused.
pub open spec fn state_error_message(s: Seq<char>) -> Seq<char> {
    "'"@ + s + "' is not a valid state string (expected ON or OFF)"@
}

impl HassDeviceState {
    /// Parses `ON` or `OFF`; anything else is refused with a message that
    /// quotes the input.
    pub fn from_str(s: &str) -> (r: Result<HassDeviceState, String>)
        ensures
            match r {
                Ok(st) => parse_state(s@) == Some(st),
                Err(e) => parse_state(s@) is None && e@ == state_error_message(s@),
            },
    {
        if str_eq(s, "ON") {
            Ok(HassDeviceState::On)
        } else if str_eq(s, "OFF") {
            Ok(HassDeviceState::Off)
        } else {
            let mut e = String::from_str("'");
            e.append(s);
            e.append("' is not a valid state string (expected ON or OFF)");
            proof {
                reveal_strlit("'");
            }
            Err(e)
        }
    }
}

impl std::str::FromStr for HassDeviceState {
    type Err = String;

    fn from_str(s: &str) -> (r: Result<HassDeviceState, String>)
        ensures
            match r {
                Ok(st) => parse_state(s@) == Some(st),
                Err(e) => parse_state(s@) is None && e@ == state_error_message(s@),
            },
    {
        HassDeviceState::from_str(s)
    }
}

/// The device value that a Home Assistant state stands for.
pub open spec fn state_device_value(st: HassDeviceState) -> SetValue {
    match st {
        HassDeviceState::On => SetValue::On(ClickDuration::Short),
        HassDeviceState::Off => SetValue::Off(ClickDuration::Short),
    }
}

/// The device value that a brightness stands for: zero switches off,
/// anything else dims to that level.
pub open spec fn brightness_device_value(b: u8) -> SetValue {
    if b == 0 {
        SetValue::Off(ClickDuration::Short)
    } else {
        SetValue::Dimm(b)
    }
}

/// Every nonzero brightness dims the device to exactly that level; only
/// brightness zero switches it off (with a short click), and no brightness
/// gives any other value.
pub proof fn lemma_brightness_device_value(b: u8)
    ensures
        b != 0 ==> brightness_device_value(b) == SetValue::Dimm(b),
        b == 0 <==> brightness_device_value(b) == SetValue::Off(ClickDuration::Short),
        brightness_device_value(b) is Dimm || brightness_device_value(b) is Off,
        brightness_device_value(b) matches SetValue::Dimm(v) ==> v == b && v != 0,
{
}

/// `ON` switches on and `OFF` switches off, both with a short click.
pub proof fn lemma_state_device_value(st: HassDeviceState)
    ensures
        st == HassDeviceState::On <==> state_device_value(st) == SetValue::On(ClickDuration::Short),
        st == HassDeviceState::Off <==> state_device_value(st) == SetValue::Off(ClickDuration::Short),
{
}

/// Conversion of a command's payload into the value sent to a device.
pub trait IntoDeviceValue: Sized {
    fn into_device_value(self) -> SetValue;
}

impl IntoDeviceValue for HassDeviceState {
    fn into_device_value(self) -> (r: SetValue)
        ensures
            r == state_device_value(self),
    {
        match self {
            HassDeviceState::On => SetValue::On(ClickDuration::Short),
            HassDeviceState::Off => SetValue::Off(ClickDuration::Short),
        }
    }
}

impl IntoDeviceValue for u8 {
    fn into_device_value(self) -> (r: SetValue)
        ensures
            r == brightness_device_value(self),
    {
        if self == 0 {
            SetValue::Off(ClickDuration::Short)
        } else {
            SetValue::Dimm(self)
        }
    }
}

/// The brightness reported for a device value: its level when it has one,
/// zero otherwise.
pub fn get_brightness(value: Option<u8>) -> (r: u8)
    ensures
        r == match value {
            Some(v) => v,
            None => 0u8,
        },
{
    match value {
        None => 0,
        Some(v) => v,
    }
}

} // verus!
