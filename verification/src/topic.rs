//! Matching MQTT topics against the command routes with `matchit`, and
//! turning a matched command into an [`MqttMessage`].

use vstd::prelude::*;
use matchit::{InsertError, MatchError, Node};
use crate::decimal::{decimal, lemma_parse_decimal_roundtrip, parse_u32, parse_u8, parse_unsigned, str_eq};
use crate::messages::{
    parse_state, HassDeviceState, MqttMessage, MqttMessageKind,
};

verus! {

#[verifier::external_type_specification]
#[verifier::external_body]
#[verifier::reject_recursive_types(T)]
pub struct ExNode<T>(Node<T>);

#[verifier::external_type_specification]
#[verifier::external_body]
pub struct ExInsertError(InsertError);

#[verifier::external_type_specification]
#[verifier::external_body]
pub struct ExMatchError(MatchError);

/// The routes registered in a router, in the order they were inserted.
pub uninterp spec fn node_routes(node: Node<MqttMessageKind>) -> Seq<(Seq<char>, MqttMessageKind)>;

/// Whether `matchit` accepts `route` into a router that holds `routes`
/// (it refuses, for instance, a route that conflicts with one it holds, or
/// an unnamed parameter).
pub uninterp spec fn route_accepted(routes: Seq<(Seq<char>, MqttMessageKind)>, route: Seq<char>) -> bool;

/// What `matchit` finds for `path` in a router that holds `routes`: the value
/// of the matched route and the route parameters, in order, as
/// (name, value) pairs; `None` where no route matches.
pub uninterp spec fn route_match(
    routes: Seq<(Seq<char>, MqttMessageKind)>,
    path: Seq<char>,
) -> Option<(MqttMessageKind, Seq<(Seq<char>, Seq<char>)>)>;

/// A successful route match, as plain values.
pub struct RouteMatch {
    pub kind: MqttMessageKind,
    pub params: Vec<(String, String)>,
}

/// The route parameters of a match as character sequences.
pub open spec fn params_view(params: Seq<(String, String)>) -> Seq<(Seq<char>, Seq<char>)> {
    params.map_values(|p: (String, String)| (p.0@, p.1@))
}

impl RouteMatch {
    pub open spec fn view_match(&self) -> (MqttMessageKind, Seq<(Seq<char>, Seq<char>)>) {
        (self.kind, params_view(self.params@))
    }
}

/// Calls `matchit::Node::new`. The source builds a default node, which holds
/// no route.
#[verifier::external_body]
fn node_new() -> (n: Node<MqttMessageKind>)
    ensures
        node_routes(n) == Seq::<(Seq<char>, MqttMessageKind)>::empty(),
{
    Node::new()
}

/// Calls `matchit::Node::insert`. It succeeds exactly when `matchit` accepts
/// the route into a router holding these routes (named [`route_accepted`];
/// the value stored plays no part). When it succeeds the router holds the
/// routes it held before and then `route` with `kind`. When it fails nothing
/// is said of the router: the source may have changed it in part.
#[verifier::external_body]
fn node_insert(
    node: &mut Node<MqttMessageKind>,
    route: &str,
    kind: MqttMessageKind,
) -> (r: Result<(), InsertError>)
    ensures
        r is Ok <==> route_accepted(node_routes(*old(node)), route@),
        r is Ok ==> node_routes(*final(node)) == node_routes(*old(node)).push((route@, kind)),
{
    node.insert(route, kind)
}

/// Calls `matchit::Node::at` and, on success, hands out the matched value and
/// every route parameter (`Params::iter`, in order) as owned strings. The
/// result is the named [`route_match`] of the router's routes and the path.
#[verifier::external_body]
fn node_at(node: &Node<MqttMessageKind>, path: &str) -> (r: Result<RouteMatch, MatchError>)
    ensures
        match r {
            Ok(m) => route_match(node_routes(*node), path@) == Some(m.view_match()),
            Err(_) => route_match(node_routes(*node), path@) is None,
        },
{
    match node.at(path) {
        Ok(m) => Ok(RouteMatch {
            kind: *m.value,
            params: m.params.iter().map(|(k, v)| (k.to_string(), v.to_string())).collect(),
        }),
        Err(e) => Err(e),
    }
}

/// The route for a device state command.
pub open spec fn state_route() -> Seq<char> {
    "enet/instance-1/:number/set"@
}

/// The route for a device brightness command.
pub open spec fn brightness_route() -> Seq<char> {
    "enet/instance-1/:number/bri/set"@
}

/// The routes of the command matcher, in insertion order.
pub open spec fn command_routes() -> Seq<(Seq<char>, MqttMessageKind)> {
    seq![
        (state_route(), MqttMessageKind::SetDeviceState),
        (brightness_route(), MqttMessageKind::SetDeviceBrightness),
    ]
}

/// `matchit` accepts the state route into an empty router, and then the
/// brightness route.
pub open spec fn commands_accepted() -> bool {
    &&& route_accepted(Seq::empty(), state_route())
    &&& route_accepted(seq![(state_route(), MqttMessageKind::SetDeviceState)], brightness_route())
}

/// The value of the first parameter called `key`, as `Params::get` finds it.
pub open spec fn param_lookup(params: Seq<(Seq<char>, Seq<char>)>, key: Seq<char>) -> Option<Seq<char>>
    decreases params.len(),
{
    if params.len() == 0 {
        None
    } else if params[0].0 == key {
        Some(params[0].1)
    } else {
        param_lookup(params.drop_first(), key)
    }
}

/// The index of the first parameter called `key`.
fn find_param(params: &Vec<(String, String)>, key: &str) -> (r: Option<usize>)
    ensures
        match r {
            Some(i) => i < params@.len() && param_lookup(params_view(params@), key@) == Some(params@[i as int].1@),
            None => param_lookup(params_view(params@), key@) is None,
        },
{
    let ghost pv = params_view(params@);
    let mut i: usize = 0;
    assert(pv.skip(0) =~= pv);
    while i < params.len()
        invariant
            i <= params@.len(),
            pv == params_view(params@),
            param_lookup(pv, key@) == param_lookup(pv.skip(i as int), key@),
        decreases params@.len() - i,
    {
        let ghost rest = pv.skip(i as int);
        assert(rest[0] == (params@[i as int].0@, params@[i as int].1@));
        if str_eq(params[i].0.as_str(), key) {
            return Some(i);
        }
        assert(rest.drop_first() =~= pv.skip(i + 1));
        i = i + 1;
    }
    assert(pv.skip(i as int).len() == 0);
    None
}

/// The command carried by a matched route: the `number` parameter parsed as
/// a `u32`, and the payload parsed as a state or a brightness (`u8`)
/// according to the route. `None` when either does not parse.
pub open spec fn message_from_route(
    kind: MqttMessageKind,
    params: Seq<(Seq<char>, Seq<char>)>,
    payload: Seq<char>,
) -> Option<MqttMessage> {
    let number = param_lookup(params, "number"@).unwrap();
    match parse_unsigned(number, u32::MAX as nat) {
        None => None,
        Some(n) => match kind {
            MqttMessageKind::SetDeviceState => match parse_state(payload) {
                Some(st) => Some(MqttMessage::SetDeviceState(n as u32, st)),
                None => None,
            },
            MqttMessageKind::SetDeviceBrightness => match parse_unsigned(payload, u8::MAX as nat) {
                Some(b) => Some(MqttMessage::SetDeviceBrightness(n as u32, b as u8)),
                None => None,
            },
        },
    }
}

/// On a matched route whose `number` parameter is the decimal rendering of
/// `n`: the brightness route with a body that `str::parse::<u8>` reads as `b`
/// (for instance the decimal rendering of `b`) carries the command to set
/// device `n` to brightness `b`, for every `b`; the state route with body
/// `ON` or `OFF` carries the command to switch device `n` on or off.
pub proof fn lemma_command_bodies(params: Seq<(Seq<char>, Seq<char>)>, n: u32, b: u8, payload: Seq<char>)
    requires
        param_lookup(params, "number"@) == Some(decimal(n as nat)),
    ensures
        message_from_route(MqttMessageKind::SetDeviceBrightness, params, decimal(b as nat))
            == Some(MqttMessage::SetDeviceBrightness(n, b)),
        parse_unsigned(payload, u8::MAX as nat) == Some(b as nat) ==> message_from_route(
            MqttMessageKind::SetDeviceBrightness,
            params,
            payload,
        ) == Some(MqttMessage::SetDeviceBrightness(n, b)),
        message_from_route(MqttMessageKind::SetDeviceState, params, "ON"@) == Some(
            MqttMessage::SetDeviceState(n, HassDeviceState::On),
        ),
        message_from_route(MqttMessageKind::SetDeviceState, params, "OFF"@) == Some(
            MqttMessage::SetDeviceState(n, HassDeviceState::Off),
        ),
        message_for(Some((MqttMessageKind::SetDeviceBrightness, params)), decimal(b as nat))
            == Some(MqttMessage::SetDeviceBrightness(n, b)),
{
    reveal_strlit("ON");
    reveal_strlit("OFF");
    lemma_parse_decimal_roundtrip(n as nat, u32::MAX as nat);
    lemma_parse_decimal_roundtrip(b as nat, u8::MAX as nat);
}

/// The command a topic and payload carry, given what the router found for
/// the topic. A match without a `number` parameter carries none.
pub open spec fn message_for(
    found: Option<(MqttMessageKind, Seq<(Seq<char>, Seq<char>)>)>,
    payload: Seq<char>,
) -> Option<MqttMessage> {
    match found {
        None => None,
        Some((kind, params)) => if param_lookup(params, "number"@) is Some {
            message_from_route(kind, params, payload)
        } else {
            None
        },
    }
}

/// A router that holds exactly the command routes.
pub struct TopicMatcher {
    node: Node<MqttMessageKind>,
}

impl TopicMatcher {
    #[verifier::type_invariant]
    spec fn holds_command_routes(self) -> bool {
        node_routes(self.node) == command_routes()
    }

    /// The routes this router holds.
    pub closed spec fn routes(&self) -> Seq<(Seq<char>, MqttMessageKind)> {
        node_routes(self.node)
    }

    /// Builds the router with the state route and then the brightness route.
    /// `None` when `matchit` refuses one of them.
    pub fn new() -> (r: Option<TopicMatcher>)
        ensures
            r is Some <==> commands_accepted(),
            r matches Some(m) ==> m.routes() == command_routes(),
    {
        let mut node = node_new();
        match node_insert(&mut node, "enet/instance-1/:number/set", MqttMessageKind::SetDeviceState) {
            Ok(()) => {},
            Err(_) => return None,
        }
        match node_insert(
            &mut node,
            "enet/instance-1/:number/bri/set",
            MqttMessageKind::SetDeviceBrightness,
        ) {
            Ok(()) => {},
            Err(_) => return None,
        }
        assert(node_routes(node) =~= command_routes());
        Some(TopicMatcher { node })
    }

    /// What the router finds for `topic`.
    pub fn lookup(&self, topic: &str) -> (r: Option<RouteMatch>)
        ensures
            match r {
                Some(m) => route_match(command_routes(), topic@) == Some(m.view_match()),
                None => route_match(command_routes(), topic@) is None,
            },
    {
        proof {
            use_type_invariant(self);
        }
        match node_at(&self.node, topic) {
            Ok(m) => Some(m),
            Err(_) => None,
        }
    }
}

impl MqttMessage {
    /// The command carried by a matched route and a payload.
    pub fn from_route(route: &RouteMatch, payload: &str) -> (r: Option<MqttMessage>)
        requires
            param_lookup(params_view(route.params@), "number"@) is Some,
        ensures
            r == message_from_route(route.kind, params_view(route.params@), payload@),
    {
        proof {
            reveal_strlit("number");
        }
        let idx: usize = match find_param(&route.params, "number") {
            Some(i) => i,
            None => return None,
        };
        let n: u32 = match parse_u32(route.params[idx].1.as_str()) {
            Some(n) => n,
            None => return None,
        };
        match route.kind {
            MqttMessageKind::SetDeviceState => match HassDeviceState::from_str(payload) {
                Ok(st) => Some(MqttMessage::SetDeviceState(n, st)),
                Err(_) => None,
            },
            MqttMessageKind::SetDeviceBrightness => match parse_u8(payload) {
                Some(b) => Some(MqttMessage::SetDeviceBrightness(n, b)),
                None => None,
            },
        }
    }

    /// The command carried by an MQTT message on `topic` with body `payload`;
    /// `None` when the topic matches no command route or the device number or
    /// the body does not parse.
    pub fn try_match(matcher: &TopicMatcher, topic: &str, payload: &str) -> (r: Option<MqttMessage>)
        ensures
            r == message_for(route_match(command_routes(), topic@), payload@),
    {
        let route = match matcher.lookup(topic) {
            Some(m) => m,
            None => return None,
        };
        match find_param(&route.params, "number") {
            Some(_) => {},
            None => {
                proof {
                    reveal_strlit("number");
                }
                return None;
            },
        }
        proof {
            reveal_strlit("number");
        }
        MqttMessage::from_route(&route, payload)
    }
}

} // verus!
