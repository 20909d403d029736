//! The route table. Every controllable parameter implements the same four
//! operations: `matcher` (structural address match), `receive` (validate a
//! write and produce the engine mutation), `build_message` (pure encoding of
//! a resolved value), and `collect_send_params` (read current state for a
//! query reply).

use vstd::prelude::*;
use crate::address::{build_addr3, build_addr5_i32, build_addr5_u32, spec_addr3, spec_addr5};
use crate::message::{bool_arg, float_arg, int_arg, pan_in_range, spec_bool_arg, spec_float_arg,
    spec_int_arg, spec_pan_in_range, spec_str_arg, spec_volume_in_range, str_arg, volume_in_range,
    SpecWireMessage, SpecWireValue, SpecWriteOp, WireMessage, WireValue, WriteOp};
use crate::project::{find_track, spec_find_track, ProjectSnapshot, SpecProject};
use crate::text::{dec_digits, dec_i32, parse_i32, spec_parse_i32, str_eq};
use crate::{receiver_error_model, route_error_model, ReceiverError, RouteError, SpecError};

verus! {

/// Shape of a three-segment parameter address: a literal, the entity
/// identifier, a literal.
pub open spec fn spec_match3(segs: Seq<Seq<char>>, head: Seq<char>, tail: Seq<char>) -> bool {
    segs.len() == 3 && segs[0] == head && segs[2] == tail
}

/// Shape of a five-segment routing-connection address: "track", the entity
/// identifier, "send", a parseable connection index, a literal.
pub open spec fn spec_match5(segs: Seq<Seq<char>>, tail: Seq<char>) -> bool {
    segs.len() == 5 && segs[0] == "track"@ && segs[2] == "send"@ && segs[4] == tail
        && spec_parse_i32(segs[3]) is Some
}

fn match3(segments: &Vec<String>, head: &str, tail: &str) -> (r: Option<String>)
    ensures
        r is Some <==> spec_match3(segments.deep_view(), head@, tail@),
        r matches Some(g) ==> g@ == segments.deep_view()[1],
{
    proof {
        if segments.len() == 3 {
            assert(segments.deep_view()[0] == segments@[0]@);
            assert(segments.deep_view()[1] == segments@[1]@);
            assert(segments.deep_view()[2] == segments@[2]@);
        }
    }
    if segments.len() == 3 && str_eq(segments[0].as_str(), head) && str_eq(
        segments[2].as_str(),
        tail,
    ) {
        Some(segments[1].clone())
    } else {
        None
    }
}

fn match5(segments: &Vec<String>, tail: &str) -> (r: Option<(String, i32)>)
    ensures
        r is Some <==> spec_match5(segments.deep_view(), tail@),
        r matches Some(p) ==> p.0@ == segments.deep_view()[1] && Some(p.1) == spec_parse_i32(
            segments.deep_view()[3],
        ),
{
    proof {
        if segments.len() == 5 {
            assert(segments.deep_view()[0] == segments@[0]@);
            assert(segments.deep_view()[1] == segments@[1]@);
            assert(segments.deep_view()[2] == segments@[2]@);
            assert(segments.deep_view()[3] == segments@[3]@);
            assert(segments.deep_view()[4] == segments@[4]@);
        }
    }
    if segments.len() == 5 && str_eq(segments[0].as_str(), "track") && str_eq(
        segments[2].as_str(),
        "send",
    ) && str_eq(segments[4].as_str(), tail) {
        match parse_i32(segments[3].as_str()) {
            Some(idx) => Some((segments[1].clone(), idx)),
            None => None,
        }
    } else {
        None
    }
}

/// Builds the one-element argument vector of an outbound message.
fn one_arg(v: WireValue) -> (r: Vec<WireValue>)
    ensures
        r.deep_view() == seq![v@],
{
    let ghost vv = v@;
    let mut a: Vec<WireValue> = Vec::new();
    a.push(v);
    proof {
        assert(a.deep_view() =~= seq![vv]);
    }
    a
}

/// Route for "/track/{guid}/index": the track's position in the mixer,
/// read-only; a write addressed to it is accepted and ignored.
pub struct TrackIndexRoute;

pub struct TrackIndexParams {
    pub track_guid: String,
}

pub struct TrackIndexArgs {
    pub track_guid: String,
    pub index: i32,
}

impl TrackIndexRoute {
    pub open spec fn spec_matches(segs: Seq<Seq<char>>) -> bool {
        spec_match3(segs, "track"@, "index"@)
    }

    pub open spec fn spec_receive(guid: Seq<char>, msg: SpecWireMessage, p: SpecProject) -> Result<
        SpecWriteOp,
        SpecError,
    > {
        Ok(SpecWriteOp::NoOp)
    }

    pub open spec fn spec_collect(guid: Seq<char>, p: SpecProject) -> Result<
        (Seq<char>, i32),
        SpecError,
    > {
        match spec_find_track(p, guid) {
            Some(t) => Ok((guid, t.index)),
            None => Err(SpecError::GuidNotFound(guid)),
        }
    }

    pub open spec fn spec_build(guid: Seq<char>, index: i32) -> SpecWireMessage {
        SpecWireMessage {
            addr: spec_addr3("track"@, guid, "index"@),
            args: seq![SpecWireValue::Int(index)],
        }
    }

    pub fn matcher(segments: &Vec<String>) -> (r: Option<TrackIndexParams>)
        ensures
            r is Some <==> Self::spec_matches(segments.deep_view()),
            r matches Some(p) ==> p.track_guid@ == segments.deep_view()[1],
    {
        match match3(segments, "track", "index") {
            Some(g) => Some(TrackIndexParams { track_guid: g }),
            None => None,
        }
    }

    pub fn receive(params: TrackIndexParams, msg: &WireMessage, project: &ProjectSnapshot) -> (r:
        Result<WriteOp, ReceiverError>)
        ensures
            match r {
                Ok(op) => Self::spec_receive(params.track_guid@, msg@, project@) matches Ok(s) && s
                    == op@,
                Err(e) => Self::spec_receive(params.track_guid@, msg@, project@) matches Err(k)
                    && k == receiver_error_model(e),
            },
    {
        Ok(WriteOp::NoOp)
    }

    pub fn build_message(args: TrackIndexArgs) -> (r: WireMessage)
        ensures
            r@ == Self::spec_build(args.track_guid@, args.index),
    {
        let addr = build_addr3(args.track_guid.as_str(), "index");
        WireMessage { addr, args: one_arg(WireValue::Int(args.index)) }
    }

    pub fn collect_send_params(params: &TrackIndexParams, project: &ProjectSnapshot) -> (r: Result<
        TrackIndexArgs,
        RouteError,
    >)
        ensures
            match r {
                Ok(a) => Self::spec_collect(params.track_guid@, project@) matches Ok(c) && c == (
                a.track_guid@, a.index),
                Err(e) => Self::spec_collect(params.track_guid@, project@) matches Err(k) && k
                    == route_error_model(e),
            },
    {
        match find_track(project, params.track_guid.as_str()) {
            Some(t) => Ok(
                TrackIndexArgs { track_guid: params.track_guid.clone(), index: t.index },
            ),
            None => Err(RouteError::GuidNotFound(params.track_guid.clone())),
        }
    }
}

/// Route for "/track/{guid}/name": the track's display name.
pub struct TrackNameRoute;

pub struct TrackNameParams {
    pub track_guid: String,
}

pub struct TrackNameArgs {
    pub track_guid: String,
    pub name: String,
}

impl TrackNameRoute {
    pub open spec fn spec_matches(segs: Seq<Seq<char>>) -> bool {
        spec_match3(segs, "track"@, "name"@)
    }

    pub open spec fn spec_receive(guid: Seq<char>, msg: SpecWireMessage, p: SpecProject) -> Result<
        SpecWriteOp,
        SpecError,
    > {
        if spec_find_track(p, guid) is None {
            Err(SpecError::GuidNotFound(guid))
        } else {
            match spec_str_arg(msg.args) {
                Some(s) => Ok(SpecWriteOp::SetName { guid, name: s }),
                None => Err(SpecError::BadValue),
            }
        }
    }

    pub open spec fn spec_collect(guid: Seq<char>, p: SpecProject) -> Result<
        (Seq<char>, Seq<char>),
        SpecError,
    > {
        match spec_find_track(p, guid) {
            Some(t) => match t.name {
                Some(n) => Ok((guid, n)),
                None => Err(SpecError::ValueNotFound),
            },
            None => Err(SpecError::GuidNotFound(guid)),
        }
    }

    pub open spec fn spec_build(guid: Seq<char>, name: Seq<char>) -> SpecWireMessage {
        SpecWireMessage {
            addr: spec_addr3("track"@, guid, "name"@),
            args: seq![SpecWireValue::Str(name)],
        }
    }

    pub fn matcher(segments: &Vec<String>) -> (r: Option<TrackNameParams>)
        ensures
            r is Some <==> Self::spec_matches(segments.deep_view()),
            r matches Some(p) ==> p.track_guid@ == segments.deep_view()[1],
    {
        match match3(segments, "track", "name") {
            Some(g) => Some(TrackNameParams { track_guid: g }),
            None => None,
        }
    }

    pub fn receive(params: TrackNameParams, msg: &WireMessage, project: &ProjectSnapshot) -> (r:
        Result<WriteOp, ReceiverError>)
        ensures
            match r {
                Ok(op) => Self::spec_receive(params.track_guid@, msg@, project@) matches Ok(s) && s
                    == op@,
                Err(e) => Self::spec_receive(params.track_guid@, msg@, project@) matches Err(k)
                    && k == receiver_error_model(e),
            },
    {
        match find_track(project, params.track_guid.as_str()) {
            None => Err(ReceiverError::Route(RouteError::GuidNotFound(params.track_guid))),
            Some(_) => match str_arg(&msg.args) {
                Some(s) => Ok(WriteOp::SetName { guid: params.track_guid, name: s }),
                None => Err(
                    ReceiverError::BadValue(
                        String::from_str("Invalid track name, expected a string"),
                    ),
                ),
            },
        }
    }

    pub fn build_message(args: TrackNameArgs) -> (r: WireMessage)
        ensures
            r@ == Self::spec_build(args.track_guid@, args.name@),
    {
        let addr = build_addr3(args.track_guid.as_str(), "name");
        WireMessage { addr, args: one_arg(WireValue::Str(args.name)) }
    }

    pub fn collect_send_params(params: &TrackNameParams, project: &ProjectSnapshot) -> (r: Result<
        TrackNameArgs,
        RouteError,
    >)
        ensures
            match r {
                Ok(a) => Self::spec_collect(params.track_guid@, project@) matches Ok(c) && c == (
                a.track_guid@, a.name@),
                Err(e) => Self::spec_collect(params.track_guid@, project@) matches Err(k) && k
                    == route_error_model(e),
            },
    {
        match find_track(project, params.track_guid.as_str()) {
            Some(t) => match &t.name {
                Some(n) => Ok(
                    TrackNameArgs { track_guid: params.track_guid.clone(), name: n.clone() },
                ),
                None => Err(
                    RouteError::ValueNotFound(
                        String::from_str("Failed to retrieve track name"),
                    ),
                ),
            },
            None => Err(RouteError::GuidNotFound(params.track_guid.clone())),
        }
    }
}

/// Route for "/track/{guid}/selected": a direct-mapped boolean.
pub struct TrackSelectedRoute;

pub struct TrackSelectedParams {
    pub track_guid: String,
}

pub struct TrackSelectedArgs {
    pub track_guid: String,
    pub is_selected: bool,
}

impl TrackSelectedRoute {
    pub open spec fn spec_matches(segs: Seq<Seq<char>>) -> bool {
        spec_match3(segs, "track"@, "selected"@)
    }

    pub open spec fn spec_receive(guid: Seq<char>, msg: SpecWireMessage, p: SpecProject) -> Result<
        SpecWriteOp,
        SpecError,
    > {
        if spec_find_track(p, guid) is None {
            Err(SpecError::GuidNotFound(guid))
        } else {
            match spec_bool_arg(msg.args) {
                Some(b) => Ok(SpecWriteOp::SetSelected { guid, selected: b }),
                None => Err(SpecError::BadValue),
            }
        }
    }

    pub open spec fn spec_collect(guid: Seq<char>, p: SpecProject) -> Result<
        (Seq<char>, bool),
        SpecError,
    > {
        match spec_find_track(p, guid) {
            Some(t) => Ok((guid, t.selected)),
            None => Err(SpecError::GuidNotFound(guid)),
        }
    }

    pub open spec fn spec_build(guid: Seq<char>, is_selected: bool) -> SpecWireMessage {
        SpecWireMessage {
            addr: spec_addr3("track"@, guid, "selected"@),
            args: seq![SpecWireValue::Bool(is_selected)],
        }
    }

    pub fn matcher(segments: &Vec<String>) -> (r: Option<TrackSelectedParams>)
        ensures
            r is Some <==> Self::spec_matches(segments.deep_view()),
            r matches Some(p) ==> p.track_guid@ == segments.deep_view()[1],
    {
        match match3(segments, "track", "selected") {
            Some(g) => Some(TrackSelectedParams { track_guid: g }),
            None => None,
        }
    }

    pub fn receive(params: TrackSelectedParams, msg: &WireMessage, project: &ProjectSnapshot) -> (r:
        Result<WriteOp, ReceiverError>)
        ensures
            match r {
                Ok(op) => Self::spec_receive(params.track_guid@, msg@, project@) matches Ok(s) && s
                    == op@,
                Err(e) => Self::spec_receive(params.track_guid@, msg@, project@) matches Err(k)
                    && k == receiver_error_model(e),
            },
    {
        match find_track(project, params.track_guid.as_str()) {
            None => Err(ReceiverError::Route(RouteError::GuidNotFound(params.track_guid))),
            Some(_) => match bool_arg(&msg.args) {
                Some(b) => Ok(WriteOp::SetSelected { guid: params.track_guid, selected: b }),
                None => Err(
                    ReceiverError::BadValue(
                        String::from_str("invalid selected value, expected a boolean"),
                    ),
                ),
            },
        }
    }

    pub fn build_message(args: TrackSelectedArgs) -> (r: WireMessage)
        ensures
            r@ == Self::spec_build(args.track_guid@, args.is_selected),
    {
        let addr = build_addr3(args.track_guid.as_str(), "selected");
        WireMessage { addr, args: one_arg(WireValue::Bool(args.is_selected)) }
    }

    pub fn collect_send_params(params: &TrackSelectedParams, project: &ProjectSnapshot) -> (r:
        Result<TrackSelectedArgs, RouteError>)
        ensures
            match r {
                Ok(a) => Self::spec_collect(params.track_guid@, project@) matches Ok(c) && c == (
                a.track_guid@, a.is_selected),
                Err(e) => Self::spec_collect(params.track_guid@, project@) matches Err(k) && k
                    == route_error_model(e),
            },
    {
        match find_track(project, params.track_guid.as_str()) {
            Some(t) => Ok(
                TrackSelectedArgs {
                    track_guid: params.track_guid.clone(),
                    is_selected: t.selected,
                },
            ),
            None => Err(RouteError::GuidNotFound(params.track_guid.clone())),
        }
    }
}

/// Route for "/track/{guid}/volume": the normalized fader value in [0, 1].
/// The wire value is curve-mapped by the host before it reaches the engine;
/// this route checks the range on the bit pattern and otherwise carries it
/// unchanged.
pub struct TrackVolumeRoute;

pub struct TrackVolumeParams {
    pub track_guid: String,
}

pub struct TrackVolumeArgs {
    pub track_guid: String,
    pub volume: u32,
}

impl TrackVolumeRoute {
    pub open spec fn spec_matches(segs: Seq<Seq<char>>) -> bool {
        spec_match3(segs, "track"@, "volume"@)
    }

    pub open spec fn spec_receive(guid: Seq<char>, msg: SpecWireMessage, p: SpecProject) -> Result<
        SpecWriteOp,
        SpecError,
    > {
        if spec_find_track(p, guid) is None {
            Err(SpecError::GuidNotFound(guid))
        } else {
            match spec_float_arg(msg.args) {
                Some(b) => if spec_volume_in_range(b) {
                    Ok(SpecWriteOp::SetVolume { guid, volume: b })
                } else {
                    Err(SpecError::BadValue)
                },
                None => Err(SpecError::BadValue),
            }
        }
    }

    pub open spec fn spec_collect(guid: Seq<char>, p: SpecProject) -> Result<
        (Seq<char>, u32),
        SpecError,
    > {
        match spec_find_track(p, guid) {
            Some(t) => Ok((guid, t.volume)),
            None => Err(SpecError::GuidNotFound(guid)),
        }
    }

    pub open spec fn spec_build(guid: Seq<char>, volume: u32) -> SpecWireMessage {
        SpecWireMessage {
            addr: spec_addr3("track"@, guid, "volume"@),
            args: seq![SpecWireValue::Float(volume)],
        }
    }

    pub fn matcher(segments: &Vec<String>) -> (r: Option<TrackVolumeParams>)
        ensures
            r is Some <==> Self::spec_matches(segments.deep_view()),
            r matches Some(p) ==> p.track_guid@ == segments.deep_view()[1],
    {
        match match3(segments, "track", "volume") {
            Some(g) => Some(TrackVolumeParams { track_guid: g }),
            None => None,
        }
    }

    pub fn receive(params: TrackVolumeParams, msg: &WireMessage, project: &ProjectSnapshot) -> (r:
        Result<WriteOp, ReceiverError>)
        ensures
            match r {
                Ok(op) => Self::spec_receive(params.track_guid@, msg@, project@) matches Ok(s) && s
                    == op@,
                Err(e) => Self::spec_receive(params.track_guid@, msg@, project@) matches Err(k)
                    && k == receiver_error_model(e),
            },
    {
        match find_track(project, params.track_guid.as_str()) {
            None => Err(ReceiverError::Route(RouteError::GuidNotFound(params.track_guid))),
            Some(_) => match float_arg(&msg.args) {
                Some(b) => {
                    if volume_in_range(b) {
                        Ok(WriteOp::SetVolume { guid: params.track_guid, volume: b })
                    } else {
                        Err(ReceiverError::BadValue(String::from_str("Invalid volume value")))
                    }
                },
                None => Err(
                    ReceiverError::BadValue(
                        String::from_str("Invalid volume value, expected a float"),
                    ),
                ),
            },
        }
    }

    pub fn build_message(args: TrackVolumeArgs) -> (r: WireMessage)
        ensures
            r@ == Self::spec_build(args.track_guid@, args.volume),
    {
        let addr = build_addr3(args.track_guid.as_str(), "volume");
        WireMessage { addr, args: one_arg(WireValue::Float(args.volume)) }
    }

    pub fn collect_send_params(params: &TrackVolumeParams, project: &ProjectSnapshot) -> (r:
        Result<TrackVolumeArgs, RouteError>)
        ensures
            match r {
                Ok(a) => Self::spec_collect(params.track_guid@, project@) matches Ok(c) && c == (
                a.track_guid@, a.volume),
                Err(e) => Self::spec_collect(params.track_guid@, project@) matches Err(k) && k
                    == route_error_model(e),
            },
    {
        match find_track(project, params.track_guid.as_str()) {
            Some(t) => Ok(
                TrackVolumeArgs { track_guid: params.track_guid.clone(), volume: t.volume },
            ),
            None => Err(RouteError::GuidNotFound(params.track_guid.clone())),
        }
    }
}

/// Route for "/track/{guid}/pan": a direct-mapped float in [-1, 1]; a
/// write outside that range (or not a number) is rejected.
pub struct TrackPanRoute;

pub struct TrackPanParams {
    pub track_guid: String,
}

pub struct TrackPanArgs {
    pub track_guid: String,
    pub pan: u32,
}

impl TrackPanRoute {
    pub open spec fn spec_matches(segs: Seq<Seq<char>>) -> bool {
        spec_match3(segs, "track"@, "pan"@)
    }

    pub open spec fn spec_receive(guid: Seq<char>, msg: SpecWireMessage, p: SpecProject) -> Result<
        SpecWriteOp,
        SpecError,
    > {
        if spec_find_track(p, guid) is None {
            Err(SpecError::GuidNotFound(guid))
        } else {
            match spec_float_arg(msg.args) {
                Some(b) => if spec_pan_in_range(b) {
                    Ok(SpecWriteOp::SetPan { guid, pan: b })
                } else {
                    Err(SpecError::BadValue)
                },
                None => Err(SpecError::BadValue),
            }
        }
    }

    pub open spec fn spec_collect(guid: Seq<char>, p: SpecProject) -> Result<
        (Seq<char>, u32),
        SpecError,
    > {
        match spec_find_track(p, guid) {
            Some(t) => Ok((guid, t.pan)),
            None => Err(SpecError::GuidNotFound(guid)),
        }
    }

    pub open spec fn spec_build(guid: Seq<char>, pan: u32) -> SpecWireMessage {
        SpecWireMessage {
            addr: spec_addr3("track"@, guid, "pan"@),
            args: seq![SpecWireValue::Float(pan)],
        }
    }

    pub fn matcher(segments: &Vec<String>) -> (r: Option<TrackPanParams>)
        ensures
            r is Some <==> Self::spec_matches(segments.deep_view()),
            r matches Some(p) ==> p.track_guid@ == segments.deep_view()[1],
    {
        match match3(segments, "track", "pan") {
            Some(g) => Some(TrackPanParams { track_guid: g }),
            None => None,
        }
    }

    pub fn receive(params: TrackPanParams, msg: &WireMessage, project: &ProjectSnapshot) -> (r:
        Result<WriteOp, ReceiverError>)
        ensures
            match r {
                Ok(op) => Self::spec_receive(params.track_guid@, msg@, project@) matches Ok(s) && s
                    == op@,
                Err(e) => Self::spec_receive(params.track_guid@, msg@, project@) matches Err(k)
                    && k == receiver_error_model(e),
            },
    {
        match find_track(project, params.track_guid.as_str()) {
            None => Err(ReceiverError::Route(RouteError::GuidNotFound(params.track_guid))),
            Some(_) => match float_arg(&msg.args) {
                Some(b) => {
                    if pan_in_range(b) {
                        Ok(WriteOp::SetPan { guid: params.track_guid, pan: b })
                    } else {
                        Err(ReceiverError::BadValue(String::from_str("Invalid pan value")))
                    }
                },
                None => Err(
                    ReceiverError::BadValue(
                        String::from_str("invalid pan value, expected a float"),
                    ),
                ),
            },
        }
    }

    pub fn build_message(args: TrackPanArgs) -> (r: WireMessage)
        ensures
            r@ == Self::spec_build(args.track_guid@, args.pan),
    {
        let addr = build_addr3(args.track_guid.as_str(), "pan");
        WireMessage { addr, args: one_arg(WireValue::Float(args.pan)) }
    }

    pub fn collect_send_params(params: &TrackPanParams, project: &ProjectSnapshot) -> (r: Result<
        TrackPanArgs,
        RouteError,
    >)
        ensures
            match r {
                Ok(a) => Self::spec_collect(params.track_guid@, project@) matches Ok(c) && c == (
                a.track_guid@, a.pan),
                Err(e) => Self::spec_collect(params.track_guid@, project@) matches Err(k) && k
                    == route_error_model(e),
            },
    {
        match find_track(project, params.track_guid.as_str()) {
            Some(t) => Ok(TrackPanArgs { track_guid: params.track_guid.clone(), pan: t.pan }),
            None => Err(RouteError::GuidNotFound(params.track_guid.clone())),
        }
    }
}

/// Route for "/track/{guid}/mute": a direct-mapped boolean.
pub struct TrackMuteRoute;

pub struct TrackMuteParams {
    pub track_guid: String,
}

pub struct TrackMuteArgs {
    pub track_guid: String,
    pub is_mute: bool,
}

impl TrackMuteRoute {
    pub open spec fn spec_matches(segs: Seq<Seq<char>>) -> bool {
        spec_match3(segs, "track"@, "mute"@)
    }

    pub open spec fn spec_receive(guid: Seq<char>, msg: SpecWireMessage, p: SpecProject) -> Result<
        SpecWriteOp,
        SpecError,
    > {
        if spec_find_track(p, guid) is None {
            Err(SpecError::GuidNotFound(guid))
        } else {
            match spec_bool_arg(msg.args) {
                Some(b) => Ok(SpecWriteOp::SetMute { guid, mute: b }),
                None => Err(SpecError::BadValue),
            }
        }
    }

    pub open spec fn spec_collect(guid: Seq<char>, p: SpecProject) -> Result<
        (Seq<char>, bool),
        SpecError,
    > {
        match spec_find_track(p, guid) {
            Some(t) => Ok((guid, t.mute)),
            None => Err(SpecError::GuidNotFound(guid)),
        }
    }

    pub open spec fn spec_build(guid: Seq<char>, is_mute: bool) -> SpecWireMessage {
        SpecWireMessage {
            addr: spec_addr3("track"@, guid, "mute"@),
            args: seq![SpecWireValue::Bool(is_mute)],
        }
    }

    pub fn matcher(segments: &Vec<String>) -> (r: Option<TrackMuteParams>)
        ensures
            r is Some <==> Self::spec_matches(segments.deep_view()),
            r matches Some(p) ==> p.track_guid@ == segments.deep_view()[1],
    {
        match match3(segments, "track", "mute") {
            Some(g) => Some(TrackMuteParams { track_guid: g }),
            None => None,
        }
    }

    pub fn receive(params: TrackMuteParams, msg: &WireMessage, project: &ProjectSnapshot) -> (r:
        Result<WriteOp, ReceiverError>)
        ensures
            match r {
                Ok(op) => Self::spec_receive(params.track_guid@, msg@, project@) matches Ok(s) && s
                    == op@,
                Err(e) => Self::spec_receive(params.track_guid@, msg@, project@) matches Err(k)
                    && k == receiver_error_model(e),
            },
    {
        match find_track(project, params.track_guid.as_str()) {
            None => Err(ReceiverError::Route(RouteError::GuidNotFound(params.track_guid))),
            Some(_) => match bool_arg(&msg.args) {
                Some(b) => Ok(WriteOp::SetMute { guid: params.track_guid, mute: b }),
                None => Err(
                    ReceiverError::BadValue(
                        String::from_str("invalid mute value, expected a boolean"),
                    ),
                ),
            },
        }
    }

    pub fn build_message(args: TrackMuteArgs) -> (r: WireMessage)
        ensures
            r@ == Self::spec_build(args.track_guid@, args.is_mute),
    {
        let addr = build_addr3(args.track_guid.as_str(), "mute");
        WireMessage { addr, args: one_arg(WireValue::Bool(args.is_mute)) }
    }

    pub fn collect_send_params(params: &TrackMuteParams, project: &ProjectSnapshot) -> (r: Result<
        TrackMuteArgs,
        RouteError,
    >)
        ensures
            match r {
                Ok(a) => Self::spec_collect(params.track_guid@, project@) matches Ok(c) && c == (
                a.track_guid@, a.is_mute),
                Err(e) => Self::spec_collect(params.track_guid@, project@) matches Err(k) && k
                    == route_error_model(e),
            },
    {
        match find_track(project, params.track_guid.as_str()) {
            Some(t) => Ok(
                TrackMuteArgs { track_guid: params.track_guid.clone(), is_mute: t.mute },
            ),
            None => Err(RouteError::GuidNotFound(params.track_guid.clone())),
        }
    }
}

/// Route for "/track/{guid}/solo": a direct-mapped boolean.
pub struct TrackSoloRoute;

pub struct TrackSoloParams {
    pub track_guid: String,
}

pub struct TrackSoloArgs {
    pub track_guid: String,
    pub is_solo: bool,
}

impl TrackSoloRoute {
    pub open spec fn spec_matches(segs: Seq<Seq<char>>) -> bool {
        spec_match3(segs, "track"@, "solo"@)
    }

    pub open spec fn spec_receive(guid: Seq<char>, msg: SpecWireMessage, p: SpecProject) -> Result<
        SpecWriteOp,
        SpecError,
    > {
        if spec_find_track(p, guid) is None {
            Err(SpecError::GuidNotFound(guid))
        } else {
            match spec_bool_arg(msg.args) {
                Some(b) => Ok(SpecWriteOp::SetSolo { guid, solo: b }),
                None => Err(SpecError::BadValue),
            }
        }
    }

    pub open spec fn spec_collect(guid: Seq<char>, p: SpecProject) -> Result<
        (Seq<char>, bool),
        SpecError,
    > {
        match spec_find_track(p, guid) {
            Some(t) => Ok((guid, t.solo)),
            None => Err(SpecError::GuidNotFound(guid)),
        }
    }

    pub open spec fn spec_build(guid: Seq<char>, is_solo: bool) -> SpecWireMessage {
        SpecWireMessage {
            addr: spec_addr3("track"@, guid, "solo"@),
            args: seq![SpecWireValue::Bool(is_solo)],
        }
    }

    pub fn matcher(segments: &Vec<String>) -> (r: Option<TrackSoloParams>)
        ensures
            r is Some <==> Self::spec_matches(segments.deep_view()),
            r matches Some(p) ==> p.track_guid@ == segments.deep_view()[1],
    {
        match match3(segments, "track", "solo") {
            Some(g) => Some(TrackSoloParams { track_guid: g }),
            None => None,
        }
    }

    pub fn receive(params: TrackSoloParams, msg: &WireMessage, project: &ProjectSnapshot) -> (r:
        Result<WriteOp, ReceiverError>)
        ensures
            match r {
                Ok(op) => Self::spec_receive(params.track_guid@, msg@, project@) matches Ok(s) && s
                    == op@,
                Err(e) => Self::spec_receive(params.track_guid@, msg@, project@) matches Err(k)
                    && k == receiver_error_model(e),
            },
    {
        match find_track(project, params.track_guid.as_str()) {
            None => Err(ReceiverError::Route(RouteError::GuidNotFound(params.track_guid))),
            Some(_) => match bool_arg(&msg.args) {
                Some(b) => Ok(WriteOp::SetSolo { guid: params.track_guid, solo: b }),
                None => Err(
                    ReceiverError::BadValue(
                        String::from_str("invalid solo value, expected a boolean"),
                    ),
                ),
            },
        }
    }

    pub fn build_message(args: TrackSoloArgs) -> (r: WireMessage)
        ensures
            r@ == Self::spec_build(args.track_guid@, args.is_solo),
    {
        let addr = build_addr3(args.track_guid.as_str(), "solo");
        WireMessage { addr, args: one_arg(WireValue::Bool(args.is_solo)) }
    }

    pub fn collect_send_params(params: &TrackSoloParams, project: &ProjectSnapshot) -> (r: Result<
        TrackSoloArgs,
        RouteError,
    >)
        ensures
            match r {
                Ok(a) => Self::spec_collect(params.track_guid@, project@) matches Ok(c) && c == (
                a.track_guid@, a.is_solo),
                Err(e) => Self::spec_collect(params.track_guid@, project@) matches Err(k) && k
                    == route_error_model(e),
            },
    {
        match find_track(project, params.track_guid.as_str()) {
            Some(t) => Ok(
                TrackSoloArgs { track_guid: params.track_guid.clone(), is_solo: t.solo },
            ),
            None => Err(RouteError::GuidNotFound(params.track_guid.clone())),
        }
    }
}

/// Route for "/track/{guid}/rec-arm": a direct-mapped boolean.
pub struct TrackRecArmRoute;

pub struct TrackRecArmParams {
    pub track_guid: String,
}

pub struct TrackRecArmArgs {
    pub track_guid: String,
    pub is_armed: bool,
}

impl TrackRecArmRoute {
    pub open spec fn spec_matches(segs: Seq<Seq<char>>) -> bool {
        spec_match3(segs, "track"@, "rec-arm"@)
    }

    pub open spec fn spec_receive(guid: Seq<char>, msg: SpecWireMessage, p: SpecProject) -> Result<
        SpecWriteOp,
        SpecError,
    > {
        if spec_find_track(p, guid) is None {
            Err(SpecError::GuidNotFound(guid))
        } else {
            match spec_bool_arg(msg.args) {
                Some(b) => Ok(SpecWriteOp::SetRecArm { guid, rec_arm: b }),
                None => Err(SpecError::BadValue),
            }
        }
    }

    pub open spec fn spec_collect(guid: Seq<char>, p: SpecProject) -> Result<
        (Seq<char>, bool),
        SpecError,
    > {
        match spec_find_track(p, guid) {
            Some(t) => Ok((guid, t.rec_arm)),
            None => Err(SpecError::GuidNotFound(guid)),
        }
    }

    pub open spec fn spec_build(guid: Seq<char>, is_armed: bool) -> SpecWireMessage {
        SpecWireMessage {
            addr: spec_addr3("track"@, guid, "rec-arm"@),
            args: seq![SpecWireValue::Bool(is_armed)],
        }
    }

    pub fn matcher(segments: &Vec<String>) -> (r: Option<TrackRecArmParams>)
        ensures
            r is Some <==> Self::spec_matches(segments.deep_view()),
            r matches Some(p) ==> p.track_guid@ == segments.deep_view()[1],
    {
        match match3(segments, "track", "rec-arm") {
            Some(g) => Some(TrackRecArmParams { track_guid: g }),
            None => None,
        }
    }

    pub fn receive(params: TrackRecArmParams, msg: &WireMessage, project: &ProjectSnapshot) -> (r:
        Result<WriteOp, ReceiverError>)
        ensures
            match r {
                Ok(op) => Self::spec_receive(params.track_guid@, msg@, project@) matches Ok(s) && s
                    == op@,
                Err(e) => Self::spec_receive(params.track_guid@, msg@, project@) matches Err(k)
                    && k == receiver_error_model(e),
            },
    {
        match find_track(project, params.track_guid.as_str()) {
            None => Err(ReceiverError::Route(RouteError::GuidNotFound(params.track_guid))),
            Some(_) => match bool_arg(&msg.args) {
                Some(b) => Ok(WriteOp::SetRecArm { guid: params.track_guid, rec_arm: b }),
                None => Err(
                    ReceiverError::BadValue(
                        String::from_str("invalid rec-arm value, expected a boolean"),
                    ),
                ),
            },
        }
    }

    pub fn build_message(args: TrackRecArmArgs) -> (r: WireMessage)
        ensures
            r@ == Self::spec_build(args.track_guid@, args.is_armed),
    {
        let addr = build_addr3(args.track_guid.as_str(), "rec-arm");
        WireMessage { addr, args: one_arg(WireValue::Bool(args.is_armed)) }
    }

    pub fn collect_send_params(params: &TrackRecArmParams, project: &ProjectSnapshot) -> (r:
        Result<TrackRecArmArgs, RouteError>)
        ensures
            match r {
                Ok(a) => Self::spec_collect(params.track_guid@, project@) matches Ok(c) && c == (
                a.track_guid@, a.is_armed),
                Err(e) => Self::spec_collect(params.track_guid@, project@) matches Err(k) && k
                    == route_error_model(e),
            },
    {
        match find_track(project, params.track_guid.as_str()) {
            Some(t) => Ok(
                TrackRecArmArgs { track_guid: params.track_guid.clone(), is_armed: t.rec_arm },
            ),
            None => Err(RouteError::GuidNotFound(params.track_guid.clone())),
        }
    }
}

/// Route for "/track/{guid}/color": the custom color as a packed RGB
/// integer.
pub struct TrackColorRoute;

pub struct TrackColorParams {
    pub track_guid: String,
}

pub struct TrackColorArgs {
    pub track_guid: String,
    pub color: i32,
}

impl TrackColorRoute {
    pub open spec fn spec_matches(segs: Seq<Seq<char>>) -> bool {
        spec_match3(segs, "track"@, "color"@)
    }

    pub open spec fn spec_receive(guid: Seq<char>, msg: SpecWireMessage, p: SpecProject) -> Result<
        SpecWriteOp,
        SpecError,
    > {
        if spec_find_track(p, guid) is None {
            Err(SpecError::GuidNotFound(guid))
        } else {
            match spec_int_arg(msg.args) {
                Some(v) => Ok(SpecWriteOp::SetColor { guid, color: v }),
                None => Err(SpecError::BadValue),
            }
        }
    }

    pub open spec fn spec_collect(guid: Seq<char>, p: SpecProject) -> Result<
        (Seq<char>, i32),
        SpecError,
    > {
        match spec_find_track(p, guid) {
            Some(t) => Ok((guid, t.color)),
            None => Err(SpecError::GuidNotFound(guid)),
        }
    }

    pub open spec fn spec_build(guid: Seq<char>, color: i32) -> SpecWireMessage {
        SpecWireMessage {
            addr: spec_addr3("track"@, guid, "color"@),
            args: seq![SpecWireValue::Int(color)],
        }
    }

    pub fn matcher(segments: &Vec<String>) -> (r: Option<TrackColorParams>)
        ensures
            r is Some <==> Self::spec_matches(segments.deep_view()),
            r matches Some(p) ==> p.track_guid@ == segments.deep_view()[1],
    {
        match match3(segments, "track", "color") {
            Some(g) => Some(TrackColorParams { track_guid: g }),
            None => None,
        }
    }

    pub fn receive(params: TrackColorParams, msg: &WireMessage, project: &ProjectSnapshot) -> (r:
        Result<WriteOp, ReceiverError>)
        ensures
            match r {
                Ok(op) => Self::spec_receive(params.track_guid@, msg@, project@) matches Ok(s) && s
                    == op@,
                Err(e) => Self::spec_receive(params.track_guid@, msg@, project@) matches Err(k)
                    && k == receiver_error_model(e),
            },
    {
        match find_track(project, params.track_guid.as_str()) {
            None => Err(ReceiverError::Route(RouteError::GuidNotFound(params.track_guid))),
            Some(_) => match int_arg(&msg.args) {
                Some(v) => Ok(WriteOp::SetColor { guid: params.track_guid, color: v }),
                None => Err(
                    ReceiverError::BadValue(
                        String::from_str("Invalid color value, expected an integer"),
                    ),
                ),
            },
        }
    }

    pub fn build_message(args: TrackColorArgs) -> (r: WireMessage)
        ensures
            r@ == Self::spec_build(args.track_guid@, args.color),
    {
        let addr = build_addr3(args.track_guid.as_str(), "color");
        WireMessage { addr, args: one_arg(WireValue::Int(args.color)) }
    }

    pub fn collect_send_params(params: &TrackColorParams, project: &ProjectSnapshot) -> (r: Result<
        TrackColorArgs,
        RouteError,
    >)
        ensures
            match r {
                Ok(a) => Self::spec_collect(params.track_guid@, project@) matches Ok(c) && c == (
                a.track_guid@, a.color),
                Err(e) => Self::spec_collect(params.track_guid@, project@) matches Err(k) && k
                    == route_error_model(e),
            },
    {
        match find_track(project, params.track_guid.as_str()) {
            Some(t) => Ok(
                TrackColorArgs { track_guid: params.track_guid.clone(), color: t.color },
            ),
            None => Err(RouteError::GuidNotFound(params.track_guid.clone())),
        }
    }
}

/// Route for "/track/{guid}/send/{n}/guid": the destination identifier of a
/// routing connection, read-only; a write addressed to it is accepted and
/// ignored once the track resolves.
pub struct TrackSendGuidRoute;

pub struct TrackSendGuidParams {
    pub track_guid: String,
    pub send_index: i32,
}

pub struct TrackSendGuidArgs {
    pub track_guid: String,
    pub send_index: i32,
    pub send_guid: String,
}

impl TrackSendGuidRoute {
    pub open spec fn spec_matches(segs: Seq<Seq<char>>) -> bool {
        spec_match5(segs, "guid"@)
    }

    pub open spec fn spec_receive(
        guid: Seq<char>,
        send_index: i32,
        msg: SpecWireMessage,
        p: SpecProject,
    ) -> Result<SpecWriteOp, SpecError> {
        if spec_find_track(p, guid) is None {
            Err(SpecError::GuidNotFound(guid))
        } else {
            Ok(SpecWriteOp::NoOp)
        }
    }

    pub open spec fn spec_collect(guid: Seq<char>, send_index: i32, p: SpecProject) -> Result<
        (Seq<char>, i32, Seq<char>),
        SpecError,
    > {
        match spec_find_track(p, guid) {
            Some(t) => if 0 <= send_index < t.sends.len() {
                Ok((guid, send_index, t.sends[send_index as int].dest_guid))
            } else {
                Err(SpecError::ValueNotFound)
            },
            None => Err(SpecError::GuidNotFound(guid)),
        }
    }

    pub open spec fn spec_build(guid: Seq<char>, send_index: i32, send_guid: Seq<char>)
        -> SpecWireMessage {
        SpecWireMessage {
            addr: spec_addr5("track"@, guid, "send"@, dec_i32(send_index as int), "guid"@),
            args: seq![SpecWireValue::Str(send_guid)],
        }
    }

    pub fn matcher(segments: &Vec<String>) -> (r: Option<TrackSendGuidParams>)
        ensures
            r is Some <==> Self::spec_matches(segments.deep_view()),
            r matches Some(p) ==> p.track_guid@ == segments.deep_view()[1] && Some(p.send_index)
                == spec_parse_i32(segments.deep_view()[3]),
    {
        match match5(segments, "guid") {
            Some((g, idx)) => Some(TrackSendGuidParams { track_guid: g, send_index: idx }),
            None => None,
        }
    }

    pub fn receive(params: TrackSendGuidParams, msg: &WireMessage, project: &ProjectSnapshot) -> (r:
        Result<WriteOp, ReceiverError>)
        ensures
            match r {
                Ok(op) => Self::spec_receive(params.track_guid@, params.send_index, msg@, project@)
                    matches Ok(s) && s == op@,
                Err(e) => Self::spec_receive(params.track_guid@, params.send_index, msg@, project@)
                    matches Err(k) && k == receiver_error_model(e),
            },
    {
        match find_track(project, params.track_guid.as_str()) {
            None => Err(ReceiverError::Route(RouteError::GuidNotFound(params.track_guid))),
            Some(_) => Ok(WriteOp::NoOp),
        }
    }

    pub fn build_message(args: TrackSendGuidArgs) -> (r: WireMessage)
        ensures
            r@ == Self::spec_build(args.track_guid@, args.send_index, args.send_guid@),
    {
        let addr = build_addr5_i32(args.track_guid.as_str(), args.send_index, "guid");
        WireMessage { addr, args: one_arg(WireValue::Str(args.send_guid)) }
    }

    pub fn collect_send_params(params: &TrackSendGuidParams, project: &ProjectSnapshot) -> (r:
        Result<TrackSendGuidArgs, RouteError>)
        ensures
            match r {
                Ok(a) => Self::spec_collect(params.track_guid@, params.send_index, project@)
                    matches Ok(c) && c == (a.track_guid@, a.send_index, a.send_guid@),
                Err(e) => Self::spec_collect(params.track_guid@, params.send_index, project@)
                    matches Err(k) && k == route_error_model(e),
            },
    {
        match find_track(project, params.track_guid.as_str()) {
            Some(t) => {
                if params.send_index >= 0 && (params.send_index as usize) < t.sends.len() {
                    let i = params.send_index as usize;
                    proof {
                        assert(t.sends.deep_view()[i as int] == t.sends@[i as int]@);
                    }
                    Ok(
                        TrackSendGuidArgs {
                            track_guid: params.track_guid.clone(),
                            send_index: params.send_index,
                            send_guid: t.sends[i].dest_guid.clone(),
                        },
                    )
                } else {
                    Err(
                        RouteError::ValueNotFound(
                            String::from_str("Failed to retrieve send track"),
                        ),
                    )
                }
            },
            None => Err(RouteError::GuidNotFound(params.track_guid.clone())),
        }
    }
}

/// Route for "/track/{guid}/send/{n}/volume": the normalized volume of a
/// routing connection in [0, 1], range-checked like the track volume and
/// carried as a bit pattern.
pub struct TrackSendVolumeRoute;

pub struct TrackSendVolumeParams {
    pub track_guid: String,
    pub send_index: i32,
}

pub struct TrackSendVolumeArgs {
    pub track_guid: String,
    pub send_index: u32,
    pub volume: u32,
}

impl TrackSendVolumeRoute {
    pub open spec fn spec_matches(segs: Seq<Seq<char>>) -> bool {
        spec_match5(segs, "volume"@)
    }

    pub open spec fn spec_receive(
        guid: Seq<char>,
        send_index: i32,
        msg: SpecWireMessage,
        p: SpecProject,
    ) -> Result<SpecWriteOp, SpecError> {
        if spec_find_track(p, guid) is None {
            Err(SpecError::GuidNotFound(guid))
        } else if send_index < 0 {
            Err(SpecError::BadValue)
        } else {
            match spec_float_arg(msg.args) {
                Some(b) => if spec_volume_in_range(b) {
                    Ok(
                        SpecWriteOp::SetSendVolume {
                            guid,
                            send_index: send_index as u32,
                            volume: b,
                        },
                    )
                } else {
                    Err(SpecError::BadValue)
                },
                None => Err(SpecError::BadValue),
            }
        }
    }

    pub open spec fn spec_collect(guid: Seq<char>, send_index: i32, p: SpecProject) -> Result<
        (Seq<char>, u32, u32),
        SpecError,
    > {
        match spec_find_track(p, guid) {
            Some(t) => if 0 <= send_index < t.sends.len() {
                Ok((guid, send_index as u32, t.sends[send_index as int].volume))
            } else {
                Err(SpecError::ValueNotFound)
            },
            None => Err(SpecError::GuidNotFound(guid)),
        }
    }

    pub open spec fn spec_build(guid: Seq<char>, send_index: u32, volume: u32) -> SpecWireMessage {
        SpecWireMessage {
            addr: spec_addr5("track"@, guid, "send"@, dec_digits(send_index as nat), "volume"@),
            args: seq![SpecWireValue::Float(volume)],
        }
    }

    pub fn matcher(segments: &Vec<String>) -> (r: Option<TrackSendVolumeParams>)
        ensures
            r is Some <==> Self::spec_matches(segments.deep_view()),
            r matches Some(p) ==> p.track_guid@ == segments.deep_view()[1] && Some(p.send_index)
                == spec_parse_i32(segments.deep_view()[3]),
    {
        match match5(segments, "volume") {
            Some((g, idx)) => Some(TrackSendVolumeParams { track_guid: g, send_index: idx }),
            None => None,
        }
    }

    pub fn receive(params: TrackSendVolumeParams, msg: &WireMessage, project: &ProjectSnapshot)
        -> (r: Result<WriteOp, ReceiverError>)
        ensures
            match r {
                Ok(op) => Self::spec_receive(params.track_guid@, params.send_index, msg@, project@)
                    matches Ok(s) && s == op@,
                Err(e) => Self::spec_receive(params.track_guid@, params.send_index, msg@, project@)
                    matches Err(k) && k == receiver_error_model(e),
            },
    {
        match find_track(project, params.track_guid.as_str()) {
            None => Err(ReceiverError::Route(RouteError::GuidNotFound(params.track_guid))),
            Some(_) => {
                if params.send_index < 0 {
                    Err(ReceiverError::BadValue(String::from_str("Invalid send index")))
                } else {
                    match float_arg(&msg.args) {
                        Some(b) => {
                            if volume_in_range(b) {
                                Ok(
                                    WriteOp::SetSendVolume {
                                        guid: params.track_guid,
                                        send_index: params.send_index as u32,
                                        volume: b,
                                    },
                                )
                            } else {
                                Err(
                                    ReceiverError::BadValue(
                                        String::from_str("Invalid volume value"),
                                    ),
                                )
                            }
                        },
                        None => Err(ReceiverError::BadValue(String::from_str("Invalid volume value"))),
                    }
                }
            },
        }
    }

    pub fn build_message(args: TrackSendVolumeArgs) -> (r: WireMessage)
        ensures
            r@ == Self::spec_build(args.track_guid@, args.send_index, args.volume),
    {
        let addr = build_addr5_u32(args.track_guid.as_str(), args.send_index, "volume");
        WireMessage { addr, args: one_arg(WireValue::Float(args.volume)) }
    }

    pub fn collect_send_params(params: &TrackSendVolumeParams, project: &ProjectSnapshot) -> (r:
        Result<TrackSendVolumeArgs, RouteError>)
        ensures
            match r {
                Ok(a) => Self::spec_collect(params.track_guid@, params.send_index, project@)
                    matches Ok(c) && c == (a.track_guid@, a.send_index, a.volume),
                Err(e) => Self::spec_collect(params.track_guid@, params.send_index, project@)
                    matches Err(k) && k == route_error_model(e),
            },
    {
        match find_track(project, params.track_guid.as_str()) {
            Some(t) => {
                if params.send_index >= 0 && (params.send_index as usize) < t.sends.len() {
                    let i = params.send_index as usize;
                    proof {
                        assert(t.sends.deep_view()[i as int] == t.sends@[i as int]@);
                    }
                    Ok(
                        TrackSendVolumeArgs {
                            track_guid: params.track_guid.clone(),
                            send_index: params.send_index as u32,
                            volume: t.sends[i].volume,
                        },
                    )
                } else {
                    Err(
                        RouteError::ValueNotFound(
                            String::from_str("Failed to retrieve send volume"),
                        ),
                    )
                }
            },
            None => Err(RouteError::GuidNotFound(params.track_guid.clone())),
        }
    }
}

/// Route for "/track/{guid}/send/{n}/pan": the pan of a routing connection,
/// a direct-mapped float in [-1, 1] carried as a bit pattern.
pub struct TrackSendPanRoute;

pub struct TrackSendPanParams {
    pub track_guid: String,
    pub send_index: i32,
}

pub struct TrackSendPanArgs {
    pub track_guid: String,
    pub send_index: u32,
    pub pan: u32,
}

impl TrackSendPanRoute {
    pub open spec fn spec_matches(segs: Seq<Seq<char>>) -> bool {
        spec_match5(segs, "pan"@)
    }

    pub open spec fn spec_receive(
        guid: Seq<char>,
        send_index: i32,
        msg: SpecWireMessage,
        p: SpecProject,
    ) -> Result<SpecWriteOp, SpecError> {
        if spec_find_track(p, guid) is None {
            Err(SpecError::GuidNotFound(guid))
        } else if send_index < 0 {
            Err(SpecError::BadValue)
        } else {
            match spec_float_arg(msg.args) {
                Some(b) => if spec_pan_in_range(b) {
                    Ok(SpecWriteOp::SetSendPan { guid, send_index: send_index as u32, pan: b })
                } else {
                    Err(SpecError::BadValue)
                },
                None => Err(SpecError::BadValue),
            }
        }
    }

    pub open spec fn spec_collect(guid: Seq<char>, send_index: i32, p: SpecProject) -> Result<
        (Seq<char>, u32, u32),
        SpecError,
    > {
        match spec_find_track(p, guid) {
            Some(t) => if 0 <= send_index < t.sends.len() {
                Ok((guid, send_index as u32, t.sends[send_index as int].pan))
            } else {
                Err(SpecError::ValueNotFound)
            },
            None => Err(SpecError::GuidNotFound(guid)),
        }
    }

    pub open spec fn spec_build(guid: Seq<char>, send_index: u32, pan: u32) -> SpecWireMessage {
        SpecWireMessage {
            addr: spec_addr5("track"@, guid, "send"@, dec_digits(send_index as nat), "pan"@),
            args: seq![SpecWireValue::Float(pan)],
        }
    }

    pub fn matcher(segments: &Vec<String>) -> (r: Option<TrackSendPanParams>)
        ensures
            r is Some <==> Self::spec_matches(segments.deep_view()),
            r matches Some(p) ==> p.track_guid@ == segments.deep_view()[1] && Some(p.send_index)
                == spec_parse_i32(segments.deep_view()[3]),
    {
        match match5(segments, "pan") {
            Some((g, idx)) => Some(TrackSendPanParams { track_guid: g, send_index: idx }),
            None => None,
        }
    }

    pub fn receive(params: TrackSendPanParams, msg: &WireMessage, project: &ProjectSnapshot) -> (r:
        Result<WriteOp, ReceiverError>)
        ensures
            match r {
                Ok(op) => Self::spec_receive(params.track_guid@, params.send_index, msg@, project@)
                    matches Ok(s) && s == op@,
                Err(e) => Self::spec_receive(params.track_guid@, params.send_index, msg@, project@)
                    matches Err(k) && k == receiver_error_model(e),
            },
    {
        match find_track(project, params.track_guid.as_str()) {
            None => Err(ReceiverError::Route(RouteError::GuidNotFound(params.track_guid))),
            Some(_) => {
                if params.send_index < 0 {
                    Err(ReceiverError::BadValue(String::from_str("Invalid send index")))
                } else {
                    match float_arg(&msg.args) {
                        Some(b) => {
                            if pan_in_range(b) {
                                Ok(
                                    WriteOp::SetSendPan {
                                        guid: params.track_guid,
                                        send_index: params.send_index as u32,
                                        pan: b,
                                    },
                                )
                            } else {
                                Err(ReceiverError::BadValue(String::from_str("Invalid pan value")))
                            }
                        },
                        None => Err(ReceiverError::BadValue(String::from_str("Invalid pan value"))),
                    }
                }
            },
        }
    }

    pub fn build_message(args: TrackSendPanArgs) -> (r: WireMessage)
        ensures
            r@ == Self::spec_build(args.track_guid@, args.send_index, args.pan),
    {
        let addr = build_addr5_u32(args.track_guid.as_str(), args.send_index, "pan");
        WireMessage { addr, args: one_arg(WireValue::Float(args.pan)) }
    }

    pub fn collect_send_params(params: &TrackSendPanParams, project: &ProjectSnapshot) -> (r:
        Result<TrackSendPanArgs, RouteError>)
        ensures
            match r {
                Ok(a) => Self::spec_collect(params.track_guid@, params.send_index, project@)
                    matches Ok(c) && c == (a.track_guid@, a.send_index, a.pan),
                Err(e) => Self::spec_collect(params.track_guid@, params.send_index, project@)
                    matches Err(k) && k == route_error_model(e),
            },
    {
        match find_track(project, params.track_guid.as_str()) {
            Some(t) => {
                if params.send_index >= 0 && (params.send_index as usize) < t.sends.len() {
                    let i = params.send_index as usize;
                    proof {
                        assert(t.sends.deep_view()[i as int] == t.sends@[i as int]@);
                    }
                    Ok(
                        TrackSendPanArgs {
                            track_guid: params.track_guid.clone(),
                            send_index: params.send_index as u32,
                            pan: t.sends[i].pan,
                        },
                    )
                } else {
                    Err(
                        RouteError::ValueNotFound(
                            String::from_str("Failed to retrieve send pan"),
                        ),
                    )
                }
            },
            None => Err(RouteError::GuidNotFound(params.track_guid.clone())),
        }
    }
}

} // verus!
