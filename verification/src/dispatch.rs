//! The dispatcher: parses an inbound message's address, strips the query
//! marker, tries every registered route in order, and runs either the write
//! path or the query path of the unique match. Failures are returned to the
//! caller to log and discard; they never escape as panics.

use vstd::prelude::*;
use crate::address::{parse_osc_address, split_segments};
use crate::message::{SpecWireMessage, SpecWriteOp, WireMessage, WriteOp};
use crate::osc_routes::{TrackColorRoute, TrackIndexRoute, TrackMuteRoute, TrackNameRoute,
    TrackPanRoute, TrackRecArmRoute, TrackSelectedRoute, TrackSendGuidRoute, TrackSendPanRoute,
    TrackSendVolumeRoute, TrackSoloRoute, TrackVolumeRoute};
use crate::project::{ProjectSnapshot, SpecProject};
use crate::text::{spec_parse_i32, str_eq};
use crate::{receiver_error_model, route_error_model, ReceiverError, RouteError, SpecError};

verus! {

/// What dispatching one inbound message decided.
#[derive(Debug, PartialEq)]
pub enum DispatchOutcome {
    /// No route pattern matched; the message is silently ignored.
    NoMatch,
    /// The write path validated the message: the engine mutation to execute.
    Applied(WriteOp),
    /// The query path succeeded: the reply to push onto the outbound queue.
    Reply(WireMessage),
    /// The write path failed; to be logged and discarded.
    WriteFailed(ReceiverError),
    /// The query path failed; to be logged and discarded, no reply is sent.
    QueryFailed(RouteError),
}

/// Model of a dispatch outcome.
pub enum SpecOutcome {
    NoMatch,
    Applied(SpecWriteOp),
    Reply(SpecWireMessage),
    WriteFailed(SpecError),
    QueryFailed(SpecError),
}

/// The kind of an outcome, with diagnostic text abstracted away.
pub open spec fn outcome_model(o: DispatchOutcome) -> SpecOutcome {
    match o {
        DispatchOutcome::NoMatch => SpecOutcome::NoMatch,
        DispatchOutcome::Applied(op) => SpecOutcome::Applied(op@),
        DispatchOutcome::Reply(m) => SpecOutcome::Reply(m@),
        DispatchOutcome::WriteFailed(e) => SpecOutcome::WriteFailed(receiver_error_model(e)),
        DispatchOutcome::QueryFailed(e) => SpecOutcome::QueryFailed(route_error_model(e)),
    }
}

/// The segments an address is matched against, after removing a trailing
/// query marker.
pub open spec fn spec_match_segments(addr: Seq<char>) -> Seq<Seq<char>> {
    let segs = split_segments(addr);
    if segs.len() > 0 && segs.last() == "?"@ {
        segs.drop_last()
    } else {
        segs
    }
}

/// Whether the address's last segment is the query marker.
pub open spec fn spec_is_query(addr: Seq<char>) -> bool {
    let segs = split_segments(addr);
    segs.len() > 0 && segs.last() == "?"@
}

/// The outcome of dispatching `msg` against the engine state `p`.
pub open spec fn spec_dispatch(msg: SpecWireMessage, p: SpecProject) -> SpecOutcome {
    let segs = spec_match_segments(msg.addr);
    let is_query = spec_is_query(msg.addr);
    if TrackIndexRoute::spec_matches(segs) {
        if is_query {
            match TrackIndexRoute::spec_collect(segs[1], p) {
                Ok(c) => SpecOutcome::Reply(TrackIndexRoute::spec_build(c.0, c.1)),
                Err(k) => SpecOutcome::QueryFailed(k),
            }
        } else {
            match TrackIndexRoute::spec_receive(segs[1], msg, p) {
                Ok(op) => SpecOutcome::Applied(op),
                Err(k) => SpecOutcome::WriteFailed(k),
            }
        }
    } else if TrackNameRoute::spec_matches(segs) {
        if is_query {
            match TrackNameRoute::spec_collect(segs[1], p) {
                Ok(c) => SpecOutcome::Reply(TrackNameRoute::spec_build(c.0, c.1)),
                Err(k) => SpecOutcome::QueryFailed(k),
            }
        } else {
            match TrackNameRoute::spec_receive(segs[1], msg, p) {
                Ok(op) => SpecOutcome::Applied(op),
                Err(k) => SpecOutcome::WriteFailed(k),
            }
        }
    } else if TrackSelectedRoute::spec_matches(segs) {
        if is_query {
            match TrackSelectedRoute::spec_collect(segs[1], p) {
                Ok(c) => SpecOutcome::Reply(TrackSelectedRoute::spec_build(c.0, c.1)),
                Err(k) => SpecOutcome::QueryFailed(k),
            }
        } else {
            match TrackSelectedRoute::spec_receive(segs[1], msg, p) {
                Ok(op) => SpecOutcome::Applied(op),
                Err(k) => SpecOutcome::WriteFailed(k),
            }
        }
    } else if TrackVolumeRoute::spec_matches(segs) {
        if is_query {
            match TrackVolumeRoute::spec_collect(segs[1], p) {
                Ok(c) => SpecOutcome::Reply(TrackVolumeRoute::spec_build(c.0, c.1)),
                Err(k) => SpecOutcome::QueryFailed(k),
            }
        } else {
            match TrackVolumeRoute::spec_receive(segs[1], msg, p) {
                Ok(op) => SpecOutcome::Applied(op),
                Err(k) => SpecOutcome::WriteFailed(k),
            }
        }
    } else if TrackPanRoute::spec_matches(segs) {
        if is_query {
            match TrackPanRoute::spec_collect(segs[1], p) {
                Ok(c) => SpecOutcome::Reply(TrackPanRoute::spec_build(c.0, c.1)),
                Err(k) => SpecOutcome::QueryFailed(k),
            }
        } else {
            match TrackPanRoute::spec_receive(segs[1], msg, p) {
                Ok(op) => SpecOutcome::Applied(op),
                Err(k) => SpecOutcome::WriteFailed(k),
            }
        }
    } else if TrackMuteRoute::spec_matches(segs) {
        if is_query {
            match TrackMuteRoute::spec_collect(segs[1], p) {
                Ok(c) => SpecOutcome::Reply(TrackMuteRoute::spec_build(c.0, c.1)),
                Err(k) => SpecOutcome::QueryFailed(k),
            }
        } else {
            match TrackMuteRoute::spec_receive(segs[1], msg, p) {
                Ok(op) => SpecOutcome::Applied(op),
                Err(k) => SpecOutcome::WriteFailed(k),
            }
        }
    } else if TrackSoloRoute::spec_matches(segs) {
        if is_query {
            match TrackSoloRoute::spec_collect(segs[1], p) {
                Ok(c) => SpecOutcome::Reply(TrackSoloRoute::spec_build(c.0, c.1)),
                Err(k) => SpecOutcome::QueryFailed(k),
            }
        } else {
            match TrackSoloRoute::spec_receive(segs[1], msg, p) {
                Ok(op) => SpecOutcome::Applied(op),
                Err(k) => SpecOutcome::WriteFailed(k),
            }
        }
    } else if TrackRecArmRoute::spec_matches(segs) {
        if is_query {
            match TrackRecArmRoute::spec_collect(segs[1], p) {
                Ok(c) => SpecOutcome::Reply(TrackRecArmRoute::spec_build(c.0, c.1)),
                Err(k) => SpecOutcome::QueryFailed(k),
            }
        } else {
            match TrackRecArmRoute::spec_receive(segs[1], msg, p) {
                Ok(op) => SpecOutcome::Applied(op),
                Err(k) => SpecOutcome::WriteFailed(k),
            }
        }
    } else if TrackColorRoute::spec_matches(segs) {
        if is_query {
            match TrackColorRoute::spec_collect(segs[1], p) {
                Ok(c) => SpecOutcome::Reply(TrackColorRoute::spec_build(c.0, c.1)),
                Err(k) => SpecOutcome::QueryFailed(k),
            }
        } else {
            match TrackColorRoute::spec_receive(segs[1], msg, p) {
                Ok(op) => SpecOutcome::Applied(op),
                Err(k) => SpecOutcome::WriteFailed(k),
            }
        }
    } else if TrackSendGuidRoute::spec_matches(segs) {
        let idx = spec_parse_i32(segs[3])->Some_0;
        if is_query {
            match TrackSendGuidRoute::spec_collect(segs[1], idx, p) {
                Ok(c) => SpecOutcome::Reply(TrackSendGuidRoute::spec_build(c.0, c.1, c.2)),
                Err(k) => SpecOutcome::QueryFailed(k),
            }
        } else {
            match TrackSendGuidRoute::spec_receive(segs[1], idx, msg, p) {
                Ok(op) => SpecOutcome::Applied(op),
                Err(k) => SpecOutcome::WriteFailed(k),
            }
        }
    } else if TrackSendVolumeRoute::spec_matches(segs) {
        let idx = spec_parse_i32(segs[3])->Some_0;
        if is_query {
            match TrackSendVolumeRoute::spec_collect(segs[1], idx, p) {
                Ok(c) => SpecOutcome::Reply(TrackSendVolumeRoute::spec_build(c.0, c.1, c.2)),
                Err(k) => SpecOutcome::QueryFailed(k),
            }
        } else {
            match TrackSendVolumeRoute::spec_receive(segs[1], idx, msg, p) {
                Ok(op) => SpecOutcome::Applied(op),
                Err(k) => SpecOutcome::WriteFailed(k),
            }
        }
    } else if TrackSendPanRoute::spec_matches(segs) {
        let idx = spec_parse_i32(segs[3])->Some_0;
        if is_query {
            match TrackSendPanRoute::spec_collect(segs[1], idx, p) {
                Ok(c) => SpecOutcome::Reply(TrackSendPanRoute::spec_build(c.0, c.1, c.2)),
                Err(k) => SpecOutcome::QueryFailed(k),
            }
        } else {
            match TrackSendPanRoute::spec_receive(segs[1], idx, msg, p) {
                Ok(op) => SpecOutcome::Applied(op),
                Err(k) => SpecOutcome::WriteFailed(k),
            }
        }
    } else {
        SpecOutcome::NoMatch
    }
}

/// Dispatches one inbound message: total for every message and every engine
/// state, so a malformed message can never take the host down.
pub fn dispatch_message(msg: &WireMessage, project: &ProjectSnapshot) -> (r: DispatchOutcome)
    ensures
        outcome_model(r) == spec_dispatch(msg@, project@),
{
    let segments = parse_osc_address(msg.addr.as_str());
    let n = segments.len();
    let is_query = n > 0 && str_eq(segments[n - 1].as_str(), "?");
    proof {
        if n > 0 {
            assert(segments.deep_view()[n - 1] == segments@[n - 1]@);
            assert(segments.deep_view().last() == segments.deep_view()[n - 1]);
        }
        assert(is_query == spec_is_query(msg@.addr));
    }
    let mut segs = segments;
    if is_query {
        segs.pop();
        proof {
            assert(segs.deep_view() =~= spec_match_segments(msg@.addr));
        }
    } else {
        proof {
            assert(segs.deep_view() =~= spec_match_segments(msg@.addr));
        }
    }
    if let Some(p) = TrackIndexRoute::matcher(&segs) {
        if is_query {
            match TrackIndexRoute::collect_send_params(&p, project) {
                Ok(a) => DispatchOutcome::Reply(TrackIndexRoute::build_message(a)),
                Err(e) => DispatchOutcome::QueryFailed(e),
            }
        } else {
            match TrackIndexRoute::receive(p, msg, project) {
                Ok(op) => DispatchOutcome::Applied(op),
                Err(e) => DispatchOutcome::WriteFailed(e),
            }
        }
    } else if let Some(p) = TrackNameRoute::matcher(&segs) {
        if is_query {
            match TrackNameRoute::collect_send_params(&p, project) {
                Ok(a) => DispatchOutcome::Reply(TrackNameRoute::build_message(a)),
                Err(e) => DispatchOutcome::QueryFailed(e),
            }
        } else {
            match TrackNameRoute::receive(p, msg, project) {
                Ok(op) => DispatchOutcome::Applied(op),
                Err(e) => DispatchOutcome::WriteFailed(e),
            }
        }
    } else if let Some(p) = TrackSelectedRoute::matcher(&segs) {
        if is_query {
            match TrackSelectedRoute::collect_send_params(&p, project) {
                Ok(a) => DispatchOutcome::Reply(TrackSelectedRoute::build_message(a)),
                Err(e) => DispatchOutcome::QueryFailed(e),
            }
        } else {
            match TrackSelectedRoute::receive(p, msg, project) {
                Ok(op) => DispatchOutcome::Applied(op),
                Err(e) => DispatchOutcome::WriteFailed(e),
            }
        }
    } else if let Some(p) = TrackVolumeRoute::matcher(&segs) {
        if is_query {
            match TrackVolumeRoute::collect_send_params(&p, project) {
                Ok(a) => DispatchOutcome::Reply(TrackVolumeRoute::build_message(a)),
                Err(e) => DispatchOutcome::QueryFailed(e),
            }
        } else {
            match TrackVolumeRoute::receive(p, msg, project) {
                Ok(op) => DispatchOutcome::Applied(op),
                Err(e) => DispatchOutcome::WriteFailed(e),
            }
        }
    } else if let Some(p) = TrackPanRoute::matcher(&segs) {
        if is_query {
            match TrackPanRoute::collect_send_params(&p, project) {
                Ok(a) => DispatchOutcome::Reply(TrackPanRoute::build_message(a)),
                Err(e) => DispatchOutcome::QueryFailed(e),
            }
        } else {
            match TrackPanRoute::receive(p, msg, project) {
                Ok(op) => DispatchOutcome::Applied(op),
                Err(e) => DispatchOutcome::WriteFailed(e),
            }
        }
    } else if let Some(p) = TrackMuteRoute::matcher(&segs) {
        if is_query {
            match TrackMuteRoute::collect_send_params(&p, project) {
                Ok(a) => DispatchOutcome::Reply(TrackMuteRoute::build_message(a)),
                Err(e) => DispatchOutcome::QueryFailed(e),
            }
        } else {
            match TrackMuteRoute::receive(p, msg, project) {
                Ok(op) => DispatchOutcome::Applied(op),
                Err(e) => DispatchOutcome::WriteFailed(e),
            }
        }
    } else if let Some(p) = TrackSoloRoute::matcher(&segs) {
        if is_query {
            match TrackSoloRoute::collect_send_params(&p, project) {
                Ok(a) => DispatchOutcome::Reply(TrackSoloRoute::build_message(a)),
                Err(e) => DispatchOutcome::QueryFailed(e),
            }
        } else {
            match TrackSoloRoute::receive(p, msg, project) {
                Ok(op) => DispatchOutcome::Applied(op),
                Err(e) => DispatchOutcome::WriteFailed(e),
            }
        }
    } else if let Some(p) = TrackRecArmRoute::matcher(&segs) {
        if is_query {
            match TrackRecArmRoute::collect_send_params(&p, project) {
                Ok(a) => DispatchOutcome::Reply(TrackRecArmRoute::build_message(a)),
                Err(e) => DispatchOutcome::QueryFailed(e),
            }
        } else {
            match TrackRecArmRoute::receive(p, msg, project) {
                Ok(op) => DispatchOutcome::Applied(op),
                Err(e) => DispatchOutcome::WriteFailed(e),
            }
        }
    } else if let Some(p) = TrackColorRoute::matcher(&segs) {
        if is_query {
            match TrackColorRoute::collect_send_params(&p, project) {
                Ok(a) => DispatchOutcome::Reply(TrackColorRoute::build_message(a)),
                Err(e) => DispatchOutcome::QueryFailed(e),
            }
        } else {
            match TrackColorRoute::receive(p, msg, project) {
                Ok(op) => DispatchOutcome::Applied(op),
                Err(e) => DispatchOutcome::WriteFailed(e),
            }
        }
    } else if let Some(p) = TrackSendGuidRoute::matcher(&segs) {
        if is_query {
            match TrackSendGuidRoute::collect_send_params(&p, project) {
                Ok(a) => DispatchOutcome::Reply(TrackSendGuidRoute::build_message(a)),
                Err(e) => DispatchOutcome::QueryFailed(e),
            }
        } else {
            match TrackSendGuidRoute::receive(p, msg, project) {
                Ok(op) => DispatchOutcome::Applied(op),
                Err(e) => DispatchOutcome::WriteFailed(e),
            }
        }
    } else if let Some(p) = TrackSendVolumeRoute::matcher(&segs) {
        if is_query {
            match TrackSendVolumeRoute::collect_send_params(&p, project) {
                Ok(a) => DispatchOutcome::Reply(TrackSendVolumeRoute::build_message(a)),
                Err(e) => DispatchOutcome::QueryFailed(e),
            }
        } else {
            match TrackSendVolumeRoute::receive(p, msg, project) {
                Ok(op) => DispatchOutcome::Applied(op),
                Err(e) => DispatchOutcome::WriteFailed(e),
            }
        }
    } else if let Some(p) = TrackSendPanRoute::matcher(&segs) {
        if is_query {
            match TrackSendPanRoute::collect_send_params(&p, project) {
                Ok(a) => DispatchOutcome::Reply(TrackSendPanRoute::build_message(a)),
                Err(e) => DispatchOutcome::QueryFailed(e),
            }
        } else {
            match TrackSendPanRoute::receive(p, msg, project) {
                Ok(op) => DispatchOutcome::Applied(op),
                Err(e) => DispatchOutcome::WriteFailed(e),
            }
        }
    } else {
        DispatchOutcome::NoMatch
    }
}

} // verus!
