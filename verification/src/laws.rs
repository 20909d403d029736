//! The route table's cross-cutting laws: pattern match round trips, the
//! query sub-protocol's echo of the base address, and write/read round
//! trips for direct-mapped parameters.

use vstd::prelude::*;
use crate::address::{lemma_seg_ok_dec_i32, lemma_split_addr3, lemma_split_addr5,
    lemma_split_segments_wellformed, seg_ok, spec_addr3, spec_addr5, split_segments};
use crate::dispatch::{spec_dispatch, spec_match_segments};
use crate::message::{spec_bool_arg, spec_float_arg, spec_int_arg, spec_pan_in_range,
    spec_str_arg, spec_volume_in_range, SpecWireMessage, SpecWireValue, SpecWriteOp};
use crate::osc_routes::{TrackColorRoute, TrackIndexRoute, TrackMuteRoute, TrackNameRoute,
    TrackPanRoute, TrackRecArmRoute, TrackSelectedRoute, TrackSendGuidRoute, TrackSendPanRoute,
    TrackSendVolumeRoute, TrackSoloRoute, TrackVolumeRoute};
use crate::project::{spec_find_track, SpecProject};
use crate::text::{dec_digits, dec_i32, spec_parse_i32};

verus! {

proof fn lemma_track_seg_ok()
    ensures
        seg_ok("track"@),
        seg_ok("send"@),
{
    reveal_strlit("track");
    reveal_strlit("send");
    assert forall|j: int| 0 <= j < "track"@.len() implies "track"@[j] != '/' by {
        assert("track"@[0] == 't' && "track"@[1] == 'r' && "track"@[2] == 'a' && "track"@[3] == 'c'
            && "track"@[4] == 'k');
    }
    assert forall|j: int| 0 <= j < "send"@.len() implies "send"@[j] != '/' by {
        assert("send"@[0] == 's' && "send"@[1] == 'e' && "send"@[2] == 'n' && "send"@[3] == 'd');
    }
}

proof fn lemma_addr3_split(tail: Seq<char>, guid: Seq<char>)
    requires
        seg_ok(tail),
        seg_ok(guid),
    ensures
        split_segments(spec_addr3("track"@, guid, tail)) == seq!["track"@, guid, tail],
{
    lemma_track_seg_ok();
    lemma_split_addr3("track"@, guid, tail);
}

proof fn lemma_addr5_split(idx: Seq<char>, tail: Seq<char>, guid: Seq<char>)
    requires
        seg_ok(idx),
        seg_ok(tail),
        seg_ok(guid),
    ensures
        split_segments(spec_addr5("track"@, guid, "send"@, idx, tail)) == seq!["track"@, guid,
            "send"@, idx, tail],
{
    lemma_track_seg_ok();
    lemma_split_addr5("track"@, guid, "send"@, idx, tail);
}

/// Matching "/track/{guid}/index" and substituting the extracted identifier
/// back into the pattern reproduces the matched segments exactly.
pub proof fn lemma_index_match_roundtrip(segs: Seq<Seq<char>>, v: i32)
    requires
        TrackIndexRoute::spec_matches(segs),
        seg_ok(segs[1]),
    ensures
        split_segments(TrackIndexRoute::spec_build(segs[1], v).addr) == segs,
{
    reveal_strlit("index");
    assert(seg_ok("index"@));
    lemma_addr3_split("index"@, segs[1]);
    assert(seq!["track"@, segs[1], "index"@] =~= segs);
}

/// Match round trip for "/track/{guid}/name".
pub proof fn lemma_name_match_roundtrip(segs: Seq<Seq<char>>, v: Seq<char>)
    requires
        TrackNameRoute::spec_matches(segs),
        seg_ok(segs[1]),
    ensures
        split_segments(TrackNameRoute::spec_build(segs[1], v).addr) == segs,
{
    reveal_strlit("name");
    assert(seg_ok("name"@));
    lemma_addr3_split("name"@, segs[1]);
    assert(seq!["track"@, segs[1], "name"@] =~= segs);
}

/// Match round trip for "/track/{guid}/selected".
pub proof fn lemma_selected_match_roundtrip(segs: Seq<Seq<char>>, v: bool)
    requires
        TrackSelectedRoute::spec_matches(segs),
        seg_ok(segs[1]),
    ensures
        split_segments(TrackSelectedRoute::spec_build(segs[1], v).addr) == segs,
{
    reveal_strlit("selected");
    assert(seg_ok("selected"@));
    lemma_addr3_split("selected"@, segs[1]);
    assert(seq!["track"@, segs[1], "selected"@] =~= segs);
}

/// Match round trip for "/track/{guid}/volume".
pub proof fn lemma_volume_match_roundtrip(segs: Seq<Seq<char>>, v: u32)
    requires
        TrackVolumeRoute::spec_matches(segs),
        seg_ok(segs[1]),
    ensures
        split_segments(TrackVolumeRoute::spec_build(segs[1], v).addr) == segs,
{
    reveal_strlit("volume");
    assert(seg_ok("volume"@));
    lemma_addr3_split("volume"@, segs[1]);
    assert(seq!["track"@, segs[1], "volume"@] =~= segs);
}

/// Match round trip for "/track/{guid}/pan".
pub proof fn lemma_pan_match_roundtrip(segs: Seq<Seq<char>>, v: u32)
    requires
        TrackPanRoute::spec_matches(segs),
        seg_ok(segs[1]),
    ensures
        split_segments(TrackPanRoute::spec_build(segs[1], v).addr) == segs,
{
    reveal_strlit("pan");
    assert(seg_ok("pan"@));
    lemma_addr3_split("pan"@, segs[1]);
    assert(seq!["track"@, segs[1], "pan"@] =~= segs);
}

/// Match round trip for "/track/{guid}/mute".
pub proof fn lemma_mute_match_roundtrip(segs: Seq<Seq<char>>, v: bool)
    requires
        TrackMuteRoute::spec_matches(segs),
        seg_ok(segs[1]),
    ensures
        split_segments(TrackMuteRoute::spec_build(segs[1], v).addr) == segs,
{
    reveal_strlit("mute");
    assert(seg_ok("mute"@));
    lemma_addr3_split("mute"@, segs[1]);
    assert(seq!["track"@, segs[1], "mute"@] =~= segs);
}

/// Match round trip for "/track/{guid}/solo".
pub proof fn lemma_solo_match_roundtrip(segs: Seq<Seq<char>>, v: bool)
    requires
        TrackSoloRoute::spec_matches(segs),
        seg_ok(segs[1]),
    ensures
        split_segments(TrackSoloRoute::spec_build(segs[1], v).addr) == segs,
{
    reveal_strlit("solo");
    assert(seg_ok("solo"@));
    lemma_addr3_split("solo"@, segs[1]);
    assert(seq!["track"@, segs[1], "solo"@] =~= segs);
}

/// Match round trip for "/track/{guid}/rec-arm".
pub proof fn lemma_rec_arm_match_roundtrip(segs: Seq<Seq<char>>, v: bool)
    requires
        TrackRecArmRoute::spec_matches(segs),
        seg_ok(segs[1]),
    ensures
        split_segments(TrackRecArmRoute::spec_build(segs[1], v).addr) == segs,
{
    reveal_strlit("rec-arm");
    assert(seg_ok("rec-arm"@));
    lemma_addr3_split("rec-arm"@, segs[1]);
    assert(seq!["track"@, segs[1], "rec-arm"@] =~= segs);
}

/// Match round trip for "/track/{guid}/color".
pub proof fn lemma_color_match_roundtrip(segs: Seq<Seq<char>>, v: i32)
    requires
        TrackColorRoute::spec_matches(segs),
        seg_ok(segs[1]),
    ensures
        split_segments(TrackColorRoute::spec_build(segs[1], v).addr) == segs,
{
    reveal_strlit("color");
    assert(seg_ok("color"@));
    lemma_addr3_split("color"@, segs[1]);
    assert(seq!["track"@, segs[1], "color"@] =~= segs);
}

/// Match round trip for "/track/{guid}/send/{n}/guid", for a canonically
/// rendered connection index.
pub proof fn lemma_send_guid_match_roundtrip(segs: Seq<Seq<char>>, v: Seq<char>)
    requires
        TrackSendGuidRoute::spec_matches(segs),
        seg_ok(segs[1]),
        segs[3] == dec_i32(spec_parse_i32(segs[3])->Some_0 as int),
    ensures
        split_segments(
            TrackSendGuidRoute::spec_build(segs[1], spec_parse_i32(segs[3])->Some_0, v).addr,
        ) == segs,
{
    reveal_strlit("guid");
    assert(seg_ok("guid"@));
    let idx = spec_parse_i32(segs[3])->Some_0;
    lemma_seg_ok_dec_i32(idx as int);
    lemma_addr5_split(dec_i32(idx as int), "guid"@, segs[1]);
    assert(seq!["track"@, segs[1], "send"@, dec_i32(idx as int), "guid"@] =~= segs);
}

/// Match round trip for "/track/{guid}/send/{n}/volume", for a canonically
/// rendered non-negative connection index.
pub proof fn lemma_send_volume_match_roundtrip(segs: Seq<Seq<char>>, v: u32)
    requires
        TrackSendVolumeRoute::spec_matches(segs),
        seg_ok(segs[1]),
        spec_parse_i32(segs[3])->Some_0 >= 0,
        segs[3] == dec_digits(spec_parse_i32(segs[3])->Some_0 as nat),
    ensures
        split_segments(
            TrackSendVolumeRoute::spec_build(
                segs[1],
                spec_parse_i32(segs[3])->Some_0 as u32,
                v,
            ).addr,
        ) == segs,
{
    reveal_strlit("volume");
    assert(seg_ok("volume"@));
    let idx = spec_parse_i32(segs[3])->Some_0;
    lemma_seg_ok_dec_i32(idx as int);
    assert((idx as u32) as nat == idx as nat);
    lemma_addr5_split(dec_digits(idx as nat), "volume"@, segs[1]);
    assert(seq!["track"@, segs[1], "send"@, dec_digits(idx as nat), "volume"@] =~= segs);
}

/// Match round trip for "/track/{guid}/send/{n}/pan", for a canonically
/// rendered non-negative connection index.
pub proof fn lemma_send_pan_match_roundtrip(segs: Seq<Seq<char>>, v: u32)
    requires
        TrackSendPanRoute::spec_matches(segs),
        seg_ok(segs[1]),
        spec_parse_i32(segs[3])->Some_0 >= 0,
        segs[3] == dec_digits(spec_parse_i32(segs[3])->Some_0 as nat),
    ensures
        split_segments(
            TrackSendPanRoute::spec_build(segs[1], spec_parse_i32(segs[3])->Some_0 as u32, v).addr,
        ) == segs,
{
    reveal_strlit("pan");
    assert(seg_ok("pan"@));
    let idx = spec_parse_i32(segs[3])->Some_0;
    lemma_seg_ok_dec_i32(idx as int);
    assert((idx as u32) as nat == idx as nat);
    lemma_addr5_split(dec_digits(idx as nat), "pan"@, segs[1]);
    assert(seq!["track"@, segs[1], "send"@, dec_digits(idx as nat), "pan"@] =~= segs);
}

proof fn lemma_match_segments_wellformed(addr: Seq<char>)
    ensures
        forall|k: int| 0 <= k < spec_match_segments(addr).len() ==> seg_ok(
            #[trigger] spec_match_segments(addr)[k],
        ),
{
    lemma_split_segments_wellformed(addr);
    let s = split_segments(addr);
    assert forall|k: int| 0 <= k < spec_match_segments(addr).len() implies seg_ok(
        #[trigger] spec_match_segments(addr)[k],
    ) by {
        assert(spec_match_segments(addr)[k] == s[k]);
        assert(seg_ok(s[k]));
    }
}

/// Appending the query marker to a writable address and dispatching yields,
/// when the read succeeds, an outbound message whose address splits into
/// exactly the base segments of the query, with its argument carrying the
/// engine state that was read. The outcome is a function of the message and
/// the engine state alone, so it does not depend on whether any prior write
/// succeeded or failed. A connection index must be in its canonical decimal
/// form for the echoed address to be character-identical.
pub proof fn lemma_query_reply_base_address(msg: SpecWireMessage, p: SpecProject)
    requires
        spec_dispatch(msg, p) is Reply,
        spec_match_segments(msg.addr).len() == 5 ==> spec_match_segments(msg.addr)[3]
            == dec_digits(
            spec_parse_i32(spec_match_segments(msg.addr)[3])->Some_0 as nat,
        ),
    ensures
        split_segments(spec_dispatch(msg, p)->Reply_0.addr) == spec_match_segments(msg.addr),
{
    let segs = spec_match_segments(msg.addr);
    lemma_match_segments_wellformed(msg.addr);
    if TrackIndexRoute::spec_matches(segs) {
        let c = TrackIndexRoute::spec_collect(segs[1], p)->Ok_0;
        assert(c.0 == segs[1]);
        lemma_index_match_roundtrip(segs, c.1);
    } else if TrackNameRoute::spec_matches(segs) {
        let c = TrackNameRoute::spec_collect(segs[1], p)->Ok_0;
        assert(c.0 == segs[1]);
        lemma_name_match_roundtrip(segs, c.1);
    } else if TrackSelectedRoute::spec_matches(segs) {
        let c = TrackSelectedRoute::spec_collect(segs[1], p)->Ok_0;
        assert(c.0 == segs[1]);
        lemma_selected_match_roundtrip(segs, c.1);
    } else if TrackVolumeRoute::spec_matches(segs) {
        let c = TrackVolumeRoute::spec_collect(segs[1], p)->Ok_0;
        assert(c.0 == segs[1]);
        lemma_volume_match_roundtrip(segs, c.1);
    } else if TrackPanRoute::spec_matches(segs) {
        let c = TrackPanRoute::spec_collect(segs[1], p)->Ok_0;
        assert(c.0 == segs[1]);
        lemma_pan_match_roundtrip(segs, c.1);
    } else if TrackMuteRoute::spec_matches(segs) {
        let c = TrackMuteRoute::spec_collect(segs[1], p)->Ok_0;
        assert(c.0 == segs[1]);
        lemma_mute_match_roundtrip(segs, c.1);
    } else if TrackSoloRoute::spec_matches(segs) {
        let c = TrackSoloRoute::spec_collect(segs[1], p)->Ok_0;
        assert(c.0 == segs[1]);
        lemma_solo_match_roundtrip(segs, c.1);
    } else if TrackRecArmRoute::spec_matches(segs) {
        let c = TrackRecArmRoute::spec_collect(segs[1], p)->Ok_0;
        assert(c.0 == segs[1]);
        lemma_rec_arm_match_roundtrip(segs, c.1);
    } else if TrackColorRoute::spec_matches(segs) {
        let c = TrackColorRoute::spec_collect(segs[1], p)->Ok_0;
        assert(c.0 == segs[1]);
        lemma_color_match_roundtrip(segs, c.1);
    } else if TrackSendGuidRoute::spec_matches(segs) {
        let idx = spec_parse_i32(segs[3])->Some_0;
        let c = TrackSendGuidRoute::spec_collect(segs[1], idx, p)->Ok_0;
        assert(c.0 == segs[1] && c.1 == idx);
        assert(idx >= 0);
        assert(dec_i32(idx as int) == dec_digits(idx as nat));
        lemma_send_guid_match_roundtrip(segs, c.2);
    } else if TrackSendVolumeRoute::spec_matches(segs) {
        let idx = spec_parse_i32(segs[3])->Some_0;
        let c = TrackSendVolumeRoute::spec_collect(segs[1], idx, p)->Ok_0;
        assert(c.0 == segs[1] && c.1 == idx as u32);
        assert(idx >= 0);
        lemma_send_volume_match_roundtrip(segs, c.2);
    } else if TrackSendPanRoute::spec_matches(segs) {
        let idx = spec_parse_i32(segs[3])->Some_0;
        let c = TrackSendPanRoute::spec_collect(segs[1], idx, p)->Ok_0;
        assert(c.0 == segs[1] && c.1 == idx as u32);
        assert(idx >= 0);
        lemma_send_pan_match_roundtrip(segs, c.2);
    } else {
        assert(spec_dispatch(msg, p) is NoMatch);
    }
}

/// Encode-apply-collect-encode is the identity for the direct-mapped mute
/// flag: the message that encodes `v` decodes to exactly the mutation that
/// sets `v`, and reading back from any engine state in which the track
/// holds `v` re-encodes byte-identical wire content.
pub proof fn lemma_mute_write_read_roundtrip(
    guid: Seq<char>,
    v: bool,
    p: SpecProject,
    p2: SpecProject,
)
    requires
        spec_find_track(p, guid) is Some,
        spec_find_track(p2, guid) matches Some(t2) && t2.mute == v,
    ensures
        TrackMuteRoute::spec_receive(guid, TrackMuteRoute::spec_build(guid, v), p) matches Ok(op)
            && op == (SpecWriteOp::SetMute { guid, mute: v }),
        TrackMuteRoute::spec_collect(guid, p2) matches Ok(c) && TrackMuteRoute::spec_build(
            c.0,
            c.1,
        ) == TrackMuteRoute::spec_build(guid, v),
{
    assert(spec_bool_arg(seq![SpecWireValue::Bool(v)]) == Some(v));
}

/// Write/read round trip for the direct-mapped selected flag.
pub proof fn lemma_selected_write_read_roundtrip(
    guid: Seq<char>,
    v: bool,
    p: SpecProject,
    p2: SpecProject,
)
    requires
        spec_find_track(p, guid) is Some,
        spec_find_track(p2, guid) matches Some(t2) && t2.selected == v,
    ensures
        TrackSelectedRoute::spec_receive(guid, TrackSelectedRoute::spec_build(guid, v), p) matches
            Ok(op) && op == (SpecWriteOp::SetSelected { guid, selected: v }),
        TrackSelectedRoute::spec_collect(guid, p2) matches Ok(c) && TrackSelectedRoute::spec_build(
            c.0,
            c.1,
        ) == TrackSelectedRoute::spec_build(guid, v),
{
    assert(spec_bool_arg(seq![SpecWireValue::Bool(v)]) == Some(v));
}

/// Write/read round trip for the direct-mapped solo flag.
pub proof fn lemma_solo_write_read_roundtrip(
    guid: Seq<char>,
    v: bool,
    p: SpecProject,
    p2: SpecProject,
)
    requires
        spec_find_track(p, guid) is Some,
        spec_find_track(p2, guid) matches Some(t2) && t2.solo == v,
    ensures
        TrackSoloRoute::spec_receive(guid, TrackSoloRoute::spec_build(guid, v), p) matches Ok(op)
            && op == (SpecWriteOp::SetSolo { guid, solo: v }),
        TrackSoloRoute::spec_collect(guid, p2) matches Ok(c) && TrackSoloRoute::spec_build(
            c.0,
            c.1,
        ) == TrackSoloRoute::spec_build(guid, v),
{
    assert(spec_bool_arg(seq![SpecWireValue::Bool(v)]) == Some(v));
}

/// Write/read round trip for the direct-mapped record-arm flag.
pub proof fn lemma_rec_arm_write_read_roundtrip(
    guid: Seq<char>,
    v: bool,
    p: SpecProject,
    p2: SpecProject,
)
    requires
        spec_find_track(p, guid) is Some,
        spec_find_track(p2, guid) matches Some(t2) && t2.rec_arm == v,
    ensures
        TrackRecArmRoute::spec_receive(guid, TrackRecArmRoute::spec_build(guid, v), p) matches Ok(
            op,
        ) && op == (SpecWriteOp::SetRecArm { guid, rec_arm: v }),
        TrackRecArmRoute::spec_collect(guid, p2) matches Ok(c) && TrackRecArmRoute::spec_build(
            c.0,
            c.1,
        ) == TrackRecArmRoute::spec_build(guid, v),
{
    assert(spec_bool_arg(seq![SpecWireValue::Bool(v)]) == Some(v));
}

/// Write/read round trip for the direct-mapped color integer.
pub proof fn lemma_color_write_read_roundtrip(
    guid: Seq<char>,
    v: i32,
    p: SpecProject,
    p2: SpecProject,
)
    requires
        spec_find_track(p, guid) is Some,
        spec_find_track(p2, guid) matches Some(t2) && t2.color == v,
    ensures
        TrackColorRoute::spec_receive(guid, TrackColorRoute::spec_build(guid, v), p) matches Ok(op)
            && op == (SpecWriteOp::SetColor { guid, color: v }),
        TrackColorRoute::spec_collect(guid, p2) matches Ok(c) && TrackColorRoute::spec_build(
            c.0,
            c.1,
        ) == TrackColorRoute::spec_build(guid, v),
{
    assert(spec_int_arg(seq![SpecWireValue::Int(v)]) == Some(v));
}

/// Write/read round trip for the direct-mapped pan value: the bit pattern
/// crosses the wire, the engine and the wire again unchanged, so the reply
/// is byte-identical, not merely within a tolerance.
pub proof fn lemma_pan_write_read_roundtrip(
    guid: Seq<char>,
    v: u32,
    p: SpecProject,
    p2: SpecProject,
)
    requires
        spec_find_track(p, guid) is Some,
        spec_pan_in_range(v),
        spec_find_track(p2, guid) matches Some(t2) && t2.pan == v,
    ensures
        TrackPanRoute::spec_receive(guid, TrackPanRoute::spec_build(guid, v), p) matches Ok(op)
            && op == (SpecWriteOp::SetPan { guid, pan: v }),
        TrackPanRoute::spec_collect(guid, p2) matches Ok(c) && TrackPanRoute::spec_build(c.0, c.1)
            == TrackPanRoute::spec_build(guid, v),
{
    assert(spec_float_arg(seq![SpecWireValue::Float(v)]) == Some(v));
}

/// Write/read round trip for the direct-mapped name string.
pub proof fn lemma_name_write_read_roundtrip(
    guid: Seq<char>,
    v: Seq<char>,
    p: SpecProject,
    p2: SpecProject,
)
    requires
        spec_find_track(p, guid) is Some,
        spec_find_track(p2, guid) matches Some(t2) && t2.name == Some(v),
    ensures
        TrackNameRoute::spec_receive(guid, TrackNameRoute::spec_build(guid, v), p) matches Ok(op)
            && op == (SpecWriteOp::SetName { guid, name: v }),
        TrackNameRoute::spec_collect(guid, p2) matches Ok(c) && TrackNameRoute::spec_build(
            c.0,
            c.1,
        ) == TrackNameRoute::spec_build(guid, v),
{
    assert(spec_str_arg(seq![SpecWireValue::Str(v)]) == Some(v));
}

/// Write/read round trip for the direct-mapped pan of a routing connection.
pub proof fn lemma_send_pan_write_read_roundtrip(
    guid: Seq<char>,
    send_index: i32,
    v: u32,
    p: SpecProject,
    p2: SpecProject,
)
    requires
        spec_find_track(p, guid) is Some,
        send_index >= 0,
        spec_pan_in_range(v),
        spec_find_track(p2, guid) matches Some(t2) && send_index < t2.sends.len()
            && t2.sends[send_index as int].pan == v,
    ensures
        TrackSendPanRoute::spec_receive(
            guid,
            send_index,
            TrackSendPanRoute::spec_build(guid, send_index as u32, v),
            p,
        ) matches Ok(op) && op == (SpecWriteOp::SetSendPan {
            guid,
            send_index: send_index as u32,
            pan: v,
        }),
        TrackSendPanRoute::spec_collect(guid, send_index, p2) matches Ok(c)
            && TrackSendPanRoute::spec_build(c.0, c.1, c.2) == TrackSendPanRoute::spec_build(
            guid,
            send_index as u32,
            v,
        ),
{
    assert(spec_float_arg(seq![SpecWireValue::Float(v)]) == Some(v));
}

/// The transport carries a routing connection's normalized volume
/// losslessly, as it does the track volume.
pub proof fn lemma_send_volume_transport_roundtrip(
    guid: Seq<char>,
    send_index: i32,
    v: u32,
    p: SpecProject,
    p2: SpecProject,
)
    requires
        spec_find_track(p, guid) is Some,
        send_index >= 0,
        spec_volume_in_range(v),
        spec_find_track(p2, guid) matches Some(t2) && send_index < t2.sends.len()
            && t2.sends[send_index as int].volume == v,
    ensures
        TrackSendVolumeRoute::spec_receive(
            guid,
            send_index,
            TrackSendVolumeRoute::spec_build(guid, send_index as u32, v),
            p,
        ) matches Ok(op) && op == (SpecWriteOp::SetSendVolume {
            guid,
            send_index: send_index as u32,
            volume: v,
        }),
        TrackSendVolumeRoute::spec_collect(guid, send_index, p2) matches Ok(c)
            && TrackSendVolumeRoute::spec_build(c.0, c.1, c.2)
            == TrackSendVolumeRoute::spec_build(guid, send_index as u32, v),
{
    assert(spec_float_arg(seq![SpecWireValue::Float(v)]) == Some(v));
}

/// The transport carries a normalized volume losslessly: the encoded bit
/// pattern decodes to exactly the mutation that sets it, and reading back
/// an engine state holding the same normalized value re-encodes
/// byte-identical wire content. The perceptual curve between this
/// normalized value and the engine's gain lives in the host's engine
/// adapter, outside this crate.
pub proof fn lemma_volume_transport_roundtrip(
    guid: Seq<char>,
    v: u32,
    p: SpecProject,
    p2: SpecProject,
)
    requires
        spec_find_track(p, guid) is Some,
        spec_volume_in_range(v),
        spec_find_track(p2, guid) matches Some(t2) && t2.volume == v,
    ensures
        TrackVolumeRoute::spec_receive(guid, TrackVolumeRoute::spec_build(guid, v), p) matches Ok(
            op,
        ) && op == (SpecWriteOp::SetVolume { guid, volume: v }),
        TrackVolumeRoute::spec_collect(guid, p2) matches Ok(c) && TrackVolumeRoute::spec_build(
            c.0,
            c.1,
        ) == TrackVolumeRoute::spec_build(guid, v),
{
    assert(spec_float_arg(seq![SpecWireValue::Float(v)]) == Some(v));
}

} // verus!
