//! The decisions of the bridge: what a received command does to an eNet
//! device, and what is published when a device reports a new value.

use vstd::prelude::*;
use std::collections::HashMap;
use crate::decimal::{
    canonical_decimal, decimal, lemma_decimal_canonical, lemma_parse_decimal_roundtrip, parse_unsigned,
    push_decimal, render_u32,
};
use crate::messages::{
    brightness_device_value, parse_state, ClickDuration, state_device_value, HassDeviceState, IntoDeviceValue, MqttMessage,
    SetValue,
};

verus! {

broadcast use vstd::std_specs::hash::group_hash_axioms;

/// How long a brightness command waits for the state command that follows
/// it, in nanoseconds (15 s).
pub const BRIGHTNESS_WINDOW_NANOS: u128 = 15_000_000_000;

/// Brightness values waiting for a state command, by device number, with
/// the time (nanoseconds since the Unix epoch) they arrived.
pub type Pending = Map<u32, (SetValue, u128)>;

/// What a command does, given the waiting brightness values, whether the
/// gateway knows the device, and the current time: the new waiting values
/// and the value to set on a device, if any.
///
/// Commands for unknown devices are ignored. A brightness command is kept
/// for its device and sets nothing yet. A state command consumes the value
/// waiting for its device: that value is set, unless more than the window
/// has passed since it arrived; otherwise the state itself is set.
pub open spec fn command_step(pending: Pending, msg: MqttMessage, known: bool, now: u128) -> (
    Pending,
    Option<(u32, SetValue)>,
) {
    if !known {
        (pending, None)
    } else {
        match msg {
            MqttMessage::SetDeviceState(n, st) => if pending.contains_key(n) {
                let value = if now - pending[n].1 > BRIGHTNESS_WINDOW_NANOS {
                    state_device_value(st)
                } else {
                    pending[n].0
                };
                (pending.remove(n), Some((n, value)))
            } else {
                (pending, Some((n, state_device_value(st))))
            },
            MqttMessage::SetDeviceBrightness(n, b) => (
                pending.insert(n, (brightness_device_value(b), now)),
                None,
            ),
        }
    }
}

/// The clock has not gone back behind the brightness value that `msg` would
/// consume.
pub open spec fn clock_ok(pending: Pending, msg: MqttMessage, known: bool, now: u128) -> bool {
    match msg {
        MqttMessage::SetDeviceState(n, _) => known && pending.contains_key(n) ==> pending[n].1
            <= now,
        MqttMessage::SetDeviceBrightness(_, _) => true,
    }
}

/// A brightness command followed, within the window, by a state command for
/// the same known device sets the brightness, not the state, and leaves no
/// value waiting for that device.
pub proof fn lemma_brightness_then_state_in_window(
    pending: Pending,
    n: u32,
    b: u8,
    st: HassDeviceState,
    t1: u128,
    t2: u128,
)
    requires
        t1 <= t2,
        t2 - t1 <= BRIGHTNESS_WINDOW_NANOS,
    ensures
        ({
            let (p1, a1) = command_step(pending, MqttMessage::SetDeviceBrightness(n, b), true, t1);
            let (p2, a2) = command_step(p1, MqttMessage::SetDeviceState(n, st), true, t2);
            &&& a1 is None
            &&& a2 == Some((n, brightness_device_value(b)))
            &&& p2 == pending.remove(n)
        }),
{
    let p1 = pending.insert(n, (brightness_device_value(b), t1));
    assert(p1.remove(n) =~= pending.remove(n));
}

/// A nonzero brightness `b` followed, within the window, by a state command
/// for the same known device dims the device to exactly `b`; brightness zero
/// switches it off instead.
pub proof fn lemma_dimming_in_window(pending: Pending, n: u32, b: u8, st: HassDeviceState, t1: u128, t2: u128)
    requires
        t1 <= t2,
        t2 - t1 <= BRIGHTNESS_WINDOW_NANOS,
    ensures
        ({
            let (p1, _) = command_step(pending, MqttMessage::SetDeviceBrightness(n, b), true, t1);
            let (_, a2) = command_step(p1, MqttMessage::SetDeviceState(n, st), true, t2);
            &&& b != 0 ==> a2 == Some((n, SetValue::Dimm(b)))
            &&& b == 0 ==> a2 == Some((n, SetValue::Off(ClickDuration::Short)))
        }),
{
    lemma_brightness_then_state_in_window(pending, n, b, st, t1, t2);
}

/// A brightness command followed by a state command for the same known
/// device more than the window later sets the state, and leaves no value
/// waiting for that device.
pub proof fn lemma_brightness_then_state_after_window(
    pending: Pending,
    n: u32,
    b: u8,
    st: HassDeviceState,
    t1: u128,
    t2: u128,
)
    requires
        t1 <= t2,
        t2 - t1 > BRIGHTNESS_WINDOW_NANOS,
    ensures
        ({
            let (p1, a1) = command_step(pending, MqttMessage::SetDeviceBrightness(n, b), true, t1);
            let (p2, a2) = command_step(p1, MqttMessage::SetDeviceState(n, st), true, t2);
            &&& a1 is None
            &&& a2 == Some((n, state_device_value(st)))
            &&& p2 == pending.remove(n)
        }),
{
    let p1 = pending.insert(n, (brightness_device_value(b), t1));
    assert(p1.remove(n) =~= pending.remove(n));
}

/// A command for a device the gateway does not know sets nothing and
/// changes nothing.
pub proof fn lemma_unknown_device_ignored(pending: Pending, msg: MqttMessage, now: u128)
    ensures
        command_step(pending, msg, false, now) == (pending, None::<(u32, SetValue)>),
{
}

/// A state command for a known device with no brightness waiting sets the
/// state and changes nothing.
pub proof fn lemma_state_without_pending(pending: Pending, n: u32, st: HassDeviceState, now: u128)
    requires
        !pending.contains_key(n),
    ensures
        command_step(pending, MqttMessage::SetDeviceState(n, st), true, now) == (
            pending,
            Some((n, state_device_value(st))),
        ),
{
}

/// A later brightness command for a device replaces the value waiting for
/// it.
pub proof fn lemma_brightness_replaces(pending: Pending, n: u32, b1: u8, b2: u8, t1: u128, t2: u128)
    ensures
        ({
            let (p1, _) = command_step(pending, MqttMessage::SetDeviceBrightness(n, b1), true, t1);
            let (p2, _) = command_step(p1, MqttMessage::SetDeviceBrightness(n, b2), true, t2);
            p2 == pending.insert(n, (brightness_device_value(b2), t2))
        }),
{
    let p1 = pending.insert(n, (brightness_device_value(b1), t1));
    assert(p1.insert(n, (brightness_device_value(b2), t2)) =~= pending.insert(
        n,
        (brightness_device_value(b2), t2),
    ));
}

/// The device number of a command.
pub open spec fn command_device(msg: MqttMessage) -> u32 {
    match msg {
        MqttMessage::SetDeviceState(n, _) => n,
        MqttMessage::SetDeviceBrightness(n, _) => n,
    }
}

/// A command touches only what waits for its own device, and sets a value
/// only on its own device.
pub proof fn lemma_command_is_local(pending: Pending, msg: MqttMessage, known: bool, now: u128, k: u32)
    requires
        k != command_device(msg),
    ensures
        ({
            let (p, a) = command_step(pending, msg, known, now);
            &&& p.contains_key(k) == pending.contains_key(k)
            &&& pending.contains_key(k) ==> p[k] == pending[k]
            &&& a matches Some((m, _)) ==> m == command_device(msg)
        }),
{
}

/// The command side of the bridge: brightness values waiting for a state
/// command.
pub struct CommandState {
    pending: HashMap<u32, (SetValue, u128)>,
}

impl View for CommandState {
    type V = Pending;

    closed spec fn view(&self) -> Pending {
        self.pending@
    }
}

impl CommandState {
    /// No brightness value waits.
    pub fn new() -> (r: CommandState)
        ensures
            r@ == Map::<u32, (SetValue, u128)>::empty(),
    {
        CommandState { pending: HashMap::new() }
    }

    /// The brightness value waiting for device `number`, with its arrival time.
    pub fn pending(&self, number: u32) -> (r: Option<(SetValue, u128)>)
        ensures
            r == (if self@.contains_key(number) {
                Some(self@[number])
            } else {
                None
            }),
    {
        match self.pending.get(&number) {
            Some(v) => Some(*v),
            None => None,
        }
    }

    /// Applies a received command (see [`command_step`]): `known` tells
    /// whether the gateway has the device, `now` is the current time in
    /// nanoseconds since the Unix epoch. Returns the device and value to set.
    pub fn handle_command(&mut self, msg: MqttMessage, known: bool, now: u128) -> (r: Option<
        (u32, SetValue),
    >)
        requires
            clock_ok(old(self)@, msg, known, now),
        ensures
            (final(self)@, r) == command_step(old(self)@, msg, known, now),
    {
        if !known {
            return None;
        }
        match msg {
            MqttMessage::SetDeviceState(number, state) => {
                let value = match self.pending.remove(&number) {
                    Some((bri_value, then)) => {
                        let elapsed: u128 = now - then;
                        if elapsed > BRIGHTNESS_WINDOW_NANOS {
                            state.into_device_value()
                        } else {
                            bri_value
                        }
                    },
                    None => state.into_device_value(),
                };
                Some((number, value))
            },
            MqttMessage::SetDeviceBrightness(number, value) => {
                self.pending.insert(number, (value.into_device_value(), now));
                None
            },
        }
    }
}

/// A message to publish: topic and body.
#[derive(Debug, PartialEq, Eq)]
pub struct Publication {
    pub topic: String,
    pub payload: String,
}

impl Publication {
    pub open spec fn view_pub(&self) -> (Seq<char>, Seq<char>) {
        (self.topic@, self.payload@)
    }
}

/// The kinds of eNet devices.
#[derive(Debug, Clone, Copy, PartialEq, Eq, Structural)]
pub enum DeviceKind {
    Binary,
    Dimmer,
    Blinds,
}

/// `enet/instance-1/{number}`: the base of a device's topics.
pub open spec fn device_base(number: u32) -> Seq<char> {
    "enet/instance-1/"@ + decimal(number as nat)
}

/// `enet/instance-1/{number}/state`.
pub open spec fn state_topic(number: u32) -> Seq<char> {
    device_base(number) + "/state"@
}

/// `enet/instance-1/{number}/bri`.
pub open spec fn brightness_topic(number: u32) -> Seq<char> {
    device_base(number) + "/bri"@
}

/// `enet/instance-1/{number}/attr`.
pub open spec fn attr_topic(number: u32) -> Seq<char> {
    device_base(number) + "/attr"@
}

/// `homeassistant/light/enet-1/{number}/config`.
pub open spec fn config_topic(number: u32) -> Seq<char> {
    "homeassistant/light/enet-1/"@ + decimal(number as nat) + "/config"@
}

/// `enet-1-{number}`: the unique id of a device.
pub open spec fn unique_id(number: u32) -> Seq<char> {
    "enet-1-"@ + decimal(number as nat)
}

/// `ON` or `OFF`.
pub open spec fn on_off(is_on: bool) -> Seq<char> {
    if is_on {
        "ON"@
    } else {
        "OFF"@
    }
}

fn text(prefix: &str, number: u32, suffix: &str) -> (r: String)
    ensures
        r@ == prefix@ + decimal(number as nat) + suffix@,
{
    let mut s = String::from_str(prefix);
    push_decimal(&mut s, number);
    s.append(suffix);
    s
}

/// The base of a device's topics.
pub fn device_base_topic(number: u32) -> (r: String)
    ensures
        r@ == device_base(number),
{
    let r = text("enet/instance-1/", number, "");
    proof {
        reveal_strlit("");
        assert(r@ =~= device_base(number));
    }
    r
}

/// The topic a device's on/off state is published on.
pub fn device_state_topic(number: u32) -> (r: String)
    ensures
        r@ == state_topic(number),
{
    text("enet/instance-1/", number, "/state")
}

/// The topic a dimmer's brightness is published on.
pub fn device_brightness_topic(number: u32) -> (r: String)
    ensures
        r@ == brightness_topic(number),
{
    text("enet/instance-1/", number, "/bri")
}

/// The topic a device's attributes are published on.
pub fn device_attr_topic(number: u32) -> (r: String)
    ensures
        r@ == attr_topic(number),
{
    text("enet/instance-1/", number, "/attr")
}

/// The Home Assistant discovery topic of a device.
pub fn device_config_topic(number: u32) -> (r: String)
    ensures
        r@ == config_topic(number),
{
    text("homeassistant/light/enet-1/", number, "/config")
}

/// The unique id of a device.
pub fn device_unique_id(number: u32) -> (r: String)
    ensures
        r@ == unique_id(number),
{
    let r = text("enet-1-", number, "");
    proof {
        reveal_strlit("");
        assert(r@ =~= unique_id(number));
    }
    r
}

fn on_off_text(is_on: bool) -> (r: String)
    ensures
        r@ == on_off(is_on),
{
    if is_on {
        String::from_str("ON")
    } else {
        String::from_str("OFF")
    }
}

/// What is published when a device reports a value: for a switch its
/// state; for a dimmer its brightness (zero when it reports none) and then
/// its state; nothing for blinds.
pub open spec fn update_publications(kind: DeviceKind, number: u32, is_on: bool, brightness: Option<u8>) -> Seq<
    (Seq<char>, Seq<char>),
> {
    match kind {
        DeviceKind::Binary => seq![(state_topic(number), on_off(is_on))],
        DeviceKind::Dimmer => seq![
            (brightness_topic(number), decimal(match brightness {
                Some(b) => b as nat,
                None => 0,
            })),
            (state_topic(number), on_off(is_on)),
        ],
        DeviceKind::Blinds => Seq::empty(),
    }
}

/// The messages to publish, in order, when device `number` of `kind`
/// reports whether it is on and its brightness.
pub fn device_update_publications(
    kind: DeviceKind,
    number: u32,
    is_on: bool,
    brightness: Option<u8>,
) -> (r: Vec<Publication>)
    ensures
        r@.map_values(|p: Publication| p.view_pub()) == update_publications(
            kind,
            number,
            is_on,
            brightness,
        ),
{
    let mut out: Vec<Publication> = Vec::new();
    match kind {
        DeviceKind::Binary => {
            out.push(Publication { topic: device_state_topic(number), payload: on_off_text(is_on) });
        },
        DeviceKind::Dimmer => {
            let level: u8 = crate::messages::get_brightness(brightness);
            out.push(Publication {
                topic: device_brightness_topic(number),
                payload: render_u32(level as u32),
            });
            out.push(Publication { topic: device_state_topic(number), payload: on_off_text(is_on) });
        },
        DeviceKind::Blinds => {},
    }
    proof {
        assert(out@.map_values(|p: Publication| p.view_pub()) =~= update_publications(
            kind,
            number,
            is_on,
            brightness,
        ));
    }
    out
}

/// The topics of device `n` all start with `enet/instance-1/`, then the
/// canonical decimal rendering of `n` (no leading zeros), then the topic's
/// own suffix; the discovery topic and the unique id carry the same number.
pub proof fn lemma_device_topics(n: u32)
    ensures
        canonical_decimal(decimal(n as nat), n as nat),
        parse_unsigned(decimal(n as nat), u32::MAX as nat) == Some(n as nat),
        device_base(n) == "enet/instance-1/"@ + decimal(n as nat),
        state_topic(n) == "enet/instance-1/"@ + decimal(n as nat) + "/state"@,
        brightness_topic(n) == "enet/instance-1/"@ + decimal(n as nat) + "/bri"@,
        attr_topic(n) == "enet/instance-1/"@ + decimal(n as nat) + "/attr"@,
        attr_topic(n) == device_base(n) + "/attr"@,
        config_topic(n) == "homeassistant/light/enet-1/"@ + decimal(n as nat) + "/config"@,
        unique_id(n) == "enet-1-"@ + decimal(n as nat),
{
    lemma_decimal_canonical(n as nat);
    lemma_parse_decimal_roundtrip(n as nat, u32::MAX as nat);
}

/// What a device report publishes: a switch publishes its state alone; a
/// dimmer publishes first its brightness, whose body `str::parse::<u8>`
/// reads back as the reported level (zero when none is reported), on its
/// brightness topic, then its state; the state body reads back as the
/// reported on/off state. Blinds publish nothing.
pub proof fn lemma_update_publications(n: u32, is_on: bool, b: Option<u8>)
    ensures
        ({
            let st = if is_on { HassDeviceState::On } else { HassDeviceState::Off };
            let level: nat = match b {
                Some(v) => v as nat,
                None => 0,
            };
            let d = update_publications(DeviceKind::Dimmer, n, is_on, b);
            let s = update_publications(DeviceKind::Binary, n, is_on, b);
            &&& d.len() == 2
            &&& d[0].0 == brightness_topic(n)
            &&& parse_unsigned(d[0].1, u8::MAX as nat) == Some(level)
            &&& canonical_decimal(d[0].1, level)
            &&& d[1].0 == state_topic(n)
            &&& parse_state(d[1].1) == Some(st)
            &&& s.len() == 1
            &&& s[0].0 == state_topic(n)
            &&& parse_state(s[0].1) == Some(st)
            &&& update_publications(DeviceKind::Blinds, n, is_on, b).len() == 0
        }),
{
    reveal_strlit("ON");
    reveal_strlit("OFF");
    let level: nat = match b {
        Some(v) => v as nat,
        None => 0,
    };
    lemma_decimal_canonical(level);
    lemma_parse_decimal_roundtrip(level, u8::MAX as nat);
    let d = update_publications(DeviceKind::Dimmer, n, is_on, b);
    assert(d[0].1 == decimal(level));
    assert("ON"@.len() == 2 && "OFF"@.len() == 3);
    assert("ON"@ != "OFF"@);
    assert(parse_state(on_off(is_on)) == Some(if is_on { HassDeviceState::On } else { HassDeviceState::Off }));
}

/// The Home Assistant discovery data of a light: where its config and
/// attributes go, its topic base and unique id, and whether it dims.
#[derive(Debug, PartialEq, Eq)]
pub struct Discovery {
    pub config_topic: String,
    pub attr_topic: String,
    pub base_topic: String,
    pub unique_id: String,
    pub dimmable: bool,
    /// `binary` or `dimmer`.
    pub kind_label: String,
}

/// The discovery data of device `number` of `kind`; blinds are not announced.
pub fn discovery(kind: DeviceKind, number: u32) -> (r: Option<Discovery>)
    ensures
        match r {
            None => kind == DeviceKind::Blinds,
            Some(d) => {
                &&& kind != DeviceKind::Blinds
                &&& d.config_topic@ == config_topic(number)
                &&& d.attr_topic@ == attr_topic(number)
                &&& d.base_topic@ == device_base(number)
                &&& d.unique_id@ == unique_id(number)
                &&& d.dimmable == (kind == DeviceKind::Dimmer)
                &&& d.kind_label@ == (if kind == DeviceKind::Dimmer {
                    "dimmer"@
                } else {
                    "binary"@
                })
            },
        },
{
    let (dimmable, kind_label) = match kind {
        DeviceKind::Binary => (false, String::from_str("binary")),
        DeviceKind::Dimmer => (true, String::from_str("dimmer")),
        DeviceKind::Blinds => return None,
    };
    Some(Discovery {
        config_topic: device_config_topic(number),
        attr_topic: device_attr_topic(number),
        base_topic: device_base_topic(number),
        unique_id: device_unique_id(number),
        dimmable,
        kind_label,
    })
}

} // verus!
