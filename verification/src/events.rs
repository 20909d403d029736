//! The engine event adapter's structural part: after a track-list change the
//! remote controller's address space is rebuilt by republishing every
//! track's index and, for every outgoing routing connection, the
//! destination identifier.

use vstd::prelude::*;
use crate::message::{SpecWireMessage, WireMessage};
use crate::osc_routes::{TrackIndexArgs, TrackIndexRoute, TrackSendGuidArgs, TrackSendGuidRoute};
use crate::project::{SpecTrackState, TrackState};

verus! {

/// The destination-identifier messages of one track's routing connections,
/// in connection order.
pub open spec fn spec_send_guid_messages(t: SpecTrackState) -> Seq<SpecWireMessage> {
    Seq::new(t.sends.len(), |i: int| TrackSendGuidRoute::spec_build(
        t.guid,
        i as i32,
        t.sends[i].dest_guid,
    ))
}

/// What one track contributes to the republish: its index message followed
/// by one message per routing connection.
pub open spec fn spec_track_messages(t: SpecTrackState) -> Seq<SpecWireMessage> {
    seq![TrackIndexRoute::spec_build(t.guid, t.index)] + spec_send_guid_messages(t)
}

/// The full republish, in track order.
pub open spec fn spec_track_list_messages(tracks: Seq<SpecTrackState>) -> Seq<SpecWireMessage>
    decreases tracks.len(),
{
    if tracks.len() == 0 {
        seq![]
    } else {
        spec_track_messages(tracks[0]) + spec_track_list_messages(tracks.drop_first())
    }
}

/// One message per track plus one per routing connection.
pub open spec fn spec_message_count(tracks: Seq<SpecTrackState>) -> nat
    decreases tracks.len(),
{
    if tracks.len() == 0 {
        0
    } else {
        1 + tracks[0].sends.len() + spec_message_count(tracks.drop_first())
    }
}

proof fn lemma_track_list_snoc(tracks: Seq<SpecTrackState>, t: SpecTrackState)
    ensures
        spec_track_list_messages(tracks.push(t)) == spec_track_list_messages(tracks)
            + spec_track_messages(t),
    decreases tracks.len(),
{
    if tracks.len() == 0 {
        assert(tracks.push(t)[0] == t);
        assert(tracks.push(t).drop_first() =~= Seq::<SpecTrackState>::empty());
        assert(spec_track_list_messages(Seq::<SpecTrackState>::empty())
            == Seq::<SpecWireMessage>::empty());
        assert(spec_track_list_messages(tracks.push(t)) =~= spec_track_list_messages(tracks)
            + spec_track_messages(t));
    } else {
        assert(tracks.push(t)[0] == tracks[0]);
        assert(tracks.push(t).drop_first() =~= tracks.drop_first().push(t));
        lemma_track_list_snoc(tracks.drop_first(), t);
        assert(spec_track_list_messages(tracks.push(t)) == spec_track_messages(tracks[0]) + (
        spec_track_list_messages(tracks.drop_first()) + spec_track_messages(t)));
        assert(spec_track_messages(tracks[0]) + (spec_track_list_messages(tracks.drop_first())
            + spec_track_messages(t)) =~= (spec_track_messages(tracks[0])
            + spec_track_list_messages(tracks.drop_first())) + spec_track_messages(t));
    }
}

/// A track-list change on a project with n tracks republishes exactly one
/// index message per track and one destination-identifier message per
/// routing connection.
pub proof fn lemma_track_list_message_count(tracks: Seq<SpecTrackState>)
    ensures
        spec_track_list_messages(tracks).len() == spec_message_count(tracks),
    decreases tracks.len(),
{
    if tracks.len() > 0 {
        lemma_track_list_message_count(tracks.drop_first());
    }
}

/// Builds the republish for the current track list. Connection counts are
/// bounded by the index type the wire format carries.
pub fn track_list_messages(tracks: &Vec<TrackState>) -> (r: Vec<WireMessage>)
    requires
        forall|k: int| 0 <= k < tracks.deep_view().len()
            ==> (#[trigger] tracks.deep_view()[k]).sends.len() <= 0x7fff_ffff,
    ensures
        r.deep_view() == spec_track_list_messages(tracks.deep_view()),
{
    let ghost tv = tracks.deep_view();
    let mut out: Vec<WireMessage> = Vec::new();
    proof {
        assert(tv.subrange(0, 0) =~= Seq::<SpecTrackState>::empty());
        assert(out.deep_view() =~= spec_track_list_messages(tv.subrange(0, 0)));
    }
    let n = tracks.len();
    let mut i: usize = 0;
    while i < n
        invariant
            n == tracks.len(),
            0 <= i <= n,
            tv == tracks.deep_view(),
            forall|k: int| 0 <= k < tv.len() ==> (#[trigger] tv[k]).sends.len() <= 0x7fff_ffff,
            out.deep_view() == spec_track_list_messages(tv.subrange(0, i as int)),
        decreases n - i,
    {
        let ghost pre = out.deep_view();
        let t = &tracks[i];
        proof {
            assert(tv[i as int] == tracks@[i as int]@);
        }
        out.push(
            TrackIndexRoute::build_message(
                TrackIndexArgs { track_guid: t.guid.clone(), index: t.index },
            ),
        );
        proof {
            assert(out.deep_view() =~= pre.push(TrackIndexRoute::spec_build(
                tv[i as int].guid,
                tv[i as int].index,
            )));
        }
        let m = t.sends.len();
        let mut j: usize = 0;
        while j < m
            invariant
                n == tracks.len(),
                0 <= i < n,
                m == tracks@[i as int].sends.len(),
                m <= 0x7fff_ffff,
                0 <= j <= m,
                tv == tracks.deep_view(),
                tv[i as int] == tracks@[i as int]@,
                out.deep_view() == pre + seq![
                    TrackIndexRoute::spec_build(tv[i as int].guid, tv[i as int].index),
                ] + spec_send_guid_messages(tv[i as int]).subrange(0, j as int),
            decreases m - j,
        {
            let ghost pre2 = out.deep_view();
            let t2 = &tracks[i];
            let s = &t2.sends[j];
            proof {
                assert(tv[i as int].sends[j as int] == tracks@[i as int].sends@[j as int]@);
            }
            out.push(
                TrackSendGuidRoute::build_message(
                    TrackSendGuidArgs {
                        track_guid: t2.guid.clone(),
                        send_index: j as i32,
                        send_guid: s.dest_guid.clone(),
                    },
                ),
            );
            proof {
                let sm = spec_send_guid_messages(tv[i as int]);
                assert(sm[j as int] == TrackSendGuidRoute::spec_build(
                    tv[i as int].guid,
                    j as i32,
                    tv[i as int].sends[j as int].dest_guid,
                ));
                assert(out.deep_view() =~= pre2.push(sm[j as int]));
                assert(sm.subrange(0, j + 1) =~= sm.subrange(0, j as int).push(sm[j as int]));
                assert(out.deep_view() =~= pre + seq![
                    TrackIndexRoute::spec_build(tv[i as int].guid, tv[i as int].index),
                ] + sm.subrange(0, j + 1));
            }
            j += 1;
        }
        proof {
            let sm = spec_send_guid_messages(tv[i as int]);
            assert(sm.subrange(0, m as int) =~= sm);
            assert(out.deep_view() =~= pre + spec_track_messages(tv[i as int]));
            assert(tv.subrange(0, i as int).push(tv[i as int]) =~= tv.subrange(0, i + 1));
            lemma_track_list_snoc(tv.subrange(0, i as int), tv[i as int]);
        }
        i += 1;
    }
    proof {
        assert(tv.subrange(0, n as int) =~= tv);
    }
    out
}

} // verus!
