//! A plain-value snapshot of the engine state that routes read: the master
//! track and the ordered project tracks, each with its polled properties and
//! outgoing routing connections. The host fills one in from the engine;
//! volume and pan are already normalized wire values, as bit patterns.

use vstd::prelude::*;
use crate::text::str_eq;

verus! {

/// One outgoing routing connection of a track.
#[derive(Debug)]
pub struct SendState {
    pub dest_guid: String,
    pub volume: u32,
    pub pan: u32,
}

/// Model of a routing connection.
pub struct SpecSendState {
    pub dest_guid: Seq<char>,
    pub volume: u32,
    pub pan: u32,
}

impl View for SendState {
    type V = SpecSendState;

    open spec fn view(&self) -> SpecSendState {
        SpecSendState { dest_guid: self.dest_guid@, volume: self.volume, pan: self.pan }
    }
}

impl DeepView for SendState {
    type V = SpecSendState;

    open spec fn deep_view(&self) -> SpecSendState {
        self.view()
    }
}

/// The addressable state of one track. `name` is absent where the engine
/// cannot produce one.
#[derive(Debug)]
pub struct TrackState {
    pub guid: String,
    pub index: i32,
    pub name: Option<String>,
    pub selected: bool,
    pub volume: u32,
    pub pan: u32,
    pub mute: bool,
    pub solo: bool,
    pub rec_arm: bool,
    pub color: i32,
    pub sends: Vec<SendState>,
}

/// Model of a track's state.
pub struct SpecTrackState {
    pub guid: Seq<char>,
    pub index: i32,
    pub name: Option<Seq<char>>,
    pub selected: bool,
    pub volume: u32,
    pub pan: u32,
    pub mute: bool,
    pub solo: bool,
    pub rec_arm: bool,
    pub color: i32,
    pub sends: Seq<SpecSendState>,
}

impl View for TrackState {
    type V = SpecTrackState;

    open spec fn view(&self) -> SpecTrackState {
        SpecTrackState {
            guid: self.guid@,
            index: self.index,
            name: self.name.deep_view(),
            selected: self.selected,
            volume: self.volume,
            pan: self.pan,
            mute: self.mute,
            solo: self.solo,
            rec_arm: self.rec_arm,
            color: self.color,
            sends: self.sends.deep_view(),
        }
    }
}

impl DeepView for TrackState {
    type V = SpecTrackState;

    open spec fn deep_view(&self) -> SpecTrackState {
        self.view()
    }
}

/// What the engine currently holds: one distinguished master track and the
/// ordered project tracks.
#[derive(Debug)]
pub struct ProjectSnapshot {
    pub master: TrackState,
    pub tracks: Vec<TrackState>,
}

/// Model of the engine state.
pub struct SpecProject {
    pub master: SpecTrackState,
    pub tracks: Seq<SpecTrackState>,
}

impl View for ProjectSnapshot {
    type V = SpecProject;

    open spec fn view(&self) -> SpecProject {
        SpecProject { master: self.master@, tracks: self.tracks.deep_view() }
    }
}

/// First track of `tracks` whose identifier is `guid`.
pub open spec fn spec_find_in(tracks: Seq<SpecTrackState>, guid: Seq<char>) -> Option<
    SpecTrackState,
>
    decreases tracks.len(),
{
    if tracks.len() == 0 {
        None
    } else if tracks[0].guid == guid {
        Some(tracks[0])
    } else {
        spec_find_in(tracks.drop_first(), guid)
    }
}

/// The track a wire identifier denotes: the master track is checked first,
/// then the project tracks in order.
pub open spec fn spec_find_track(p: SpecProject, guid: Seq<char>) -> Option<SpecTrackState> {
    if p.master.guid == guid {
        Some(p.master)
    } else {
        spec_find_in(p.tracks, guid)
    }
}

proof fn lemma_find_in_skip(tracks: Seq<SpecTrackState>, guid: Seq<char>, i: int)
    requires
        0 <= i <= tracks.len(),
        forall|j: int| 0 <= j < i ==> tracks[j].guid != guid,
    ensures
        spec_find_in(tracks, guid) == spec_find_in(tracks.skip(i), guid),
    decreases i,
{
    if i == 0 {
        assert(tracks.skip(0) =~= tracks);
    } else {
        assert(tracks.len() > 0);
        assert(tracks[0].guid != guid);
        let t = tracks.drop_first();
        assert(forall|j: int| 0 <= j < i - 1 ==> t[j] == tracks[j + 1] && t[j].guid != guid);
        lemma_find_in_skip(t, guid, i - 1);
        assert(t.skip(i - 1) =~= tracks.skip(i));
    }
}

/// Resolves a wire identifier against the snapshot.
pub fn find_track<'a>(p: &'a ProjectSnapshot, guid: &str) -> (r: Option<&'a TrackState>)
    ensures
        match r {
            Some(t) => spec_find_track(p@, guid@) == Some(t@),
            None => spec_find_track(p@, guid@) is None,
        },
{
    if str_eq(p.master.guid.as_str(), guid) {
        return Some(&p.master);
    }
    let n = p.tracks.len();
    let mut i: usize = 0;
    while i < n
        invariant
            n == p.tracks.len(),
            0 <= i <= n,
            p@.master.guid != guid@,
            forall|j: int| 0 <= j < i ==> p.tracks.deep_view()[j].guid != guid@,
        decreases n - i,
    {
        proof {
            assert(p.tracks.deep_view()[i as int] == p.tracks@[i as int]@);
        }
        if str_eq(p.tracks[i].guid.as_str(), guid) {
            proof {
                let tv = p.tracks.deep_view();
                lemma_find_in_skip(tv, guid@, i as int);
                assert(tv.skip(i as int)[0] == tv[i as int]);
                assert(spec_find_in(tv.skip(i as int), guid@) == Some(tv[i as int]));
            }
            return Some(&p.tracks[i]);
        }
        i += 1;
    }
    proof {
        let tv = p.tracks.deep_view();
        lemma_find_in_skip(tv, guid@, n as int);
        assert(tv.skip(n as int) =~= Seq::<SpecTrackState>::empty());
        assert(spec_find_in(tv.skip(n as int), guid@) is None);
    }
    None
}

} // verus!
