//! The state-change poller: scans properties that have no push notification,
//! diffs against the last observed value per entity, and emits an update
//! only on change or on first observation, so emission is proportional to
//! what changed rather than to the number of entities.

use vstd::prelude::*;
use crate::message::{SpecWireMessage, WireMessage};
use crate::osc_routes::{TrackColorArgs, TrackColorRoute};
use crate::project::{SpecTrackState, TrackState};
use crate::text::str_eq;

verus! {

/// One cached observation: the last color seen for an entity.
#[derive(Debug)]
pub struct ColorEntry {
    pub guid: String,
    pub color: i32,
}

/// Model of a cached observation.
pub struct SpecColorEntry {
    pub guid: Seq<char>,
    pub color: i32,
}

impl View for ColorEntry {
    type V = SpecColorEntry;

    open spec fn view(&self) -> SpecColorEntry {
        SpecColorEntry { guid: self.guid@, color: self.color }
    }
}

impl DeepView for ColorEntry {
    type V = SpecColorEntry;

    open spec fn deep_view(&self) -> SpecColorEntry {
        self.view()
    }
}

/// The cache as a map from entity identifier to last observed color.
pub open spec fn spec_cache(entries: Seq<SpecColorEntry>) -> Map<Seq<char>, i32>
    decreases entries.len(),
{
    if entries.len() == 0 {
        Map::empty()
    } else {
        spec_cache(entries.drop_last()).insert(entries.last().guid, entries.last().color)
    }
}

/// No entity appears twice in the cache.
pub open spec fn distinct_entries(entries: Seq<SpecColorEntry>) -> bool {
    forall|i: int, j: int| 0 <= i < j < entries.len() ==> entries[i].guid != entries[j].guid
}

/// No track appears twice in an observation pass; identifiers are stable and
/// never reused within a session.
pub open spec fn distinct_guids(tracks: Seq<SpecTrackState>) -> bool {
    forall|i: int, j: int| 0 <= i < j < tracks.len() ==> tracks[i].guid != tracks[j].guid
}

proof fn lemma_cache_hit(entries: Seq<SpecColorEntry>, k: int)
    requires
        distinct_entries(entries),
        0 <= k < entries.len(),
    ensures
        spec_cache(entries).contains_key(entries[k].guid),
        spec_cache(entries)[entries[k].guid] == entries[k].color,
    decreases entries.len(),
{
    if k == entries.len() - 1 {
        assert(entries.last() == entries[k]);
    } else {
        let p = entries.drop_last();
        assert(p[k] == entries[k]);
        assert(forall|i: int, j: int| 0 <= i < j < p.len() ==> p[i] == entries[i] && p[j]
            == entries[j]);
        lemma_cache_hit(p, k);
        assert(entries.last().guid != entries[k].guid);
    }
}

proof fn lemma_cache_miss(entries: Seq<SpecColorEntry>, g: Seq<char>)
    requires
        forall|k: int| 0 <= k < entries.len() ==> (#[trigger] entries[k]).guid != g,
    ensures
        !spec_cache(entries).contains_key(g),
    decreases entries.len(),
{
    if entries.len() > 0 {
        let p = entries.drop_last();
        assert(forall|k: int| 0 <= k < p.len() ==> p[k] == entries[k]);
        lemma_cache_miss(p, g);
        assert(entries.last().guid != g);
    }
}

proof fn lemma_cache_update(entries: Seq<SpecColorEntry>, k: int, e: SpecColorEntry)
    requires
        distinct_entries(entries),
        0 <= k < entries.len(),
        e.guid == entries[k].guid,
    ensures
        spec_cache(entries.update(k, e)) == spec_cache(entries).insert(e.guid, e.color),
        distinct_entries(entries.update(k, e)),
    decreases entries.len(),
{
    let u = entries.update(k, e);
    assert(forall|i: int| 0 <= i < entries.len() && i != k ==> u[i] == entries[i]);
    if k == entries.len() - 1 {
        assert(u.drop_last() =~= entries.drop_last());
        assert(u.last() == e);
        assert(spec_cache(u) == spec_cache(entries.drop_last()).insert(e.guid, e.color));
        assert(spec_cache(entries.drop_last()).insert(e.guid, e.color) =~= spec_cache(
            entries,
        ).insert(e.guid, e.color));
    } else {
        let p = entries.drop_last();
        assert(forall|i: int, j: int| 0 <= i < j < p.len() ==> p[i] == entries[i] && p[j]
            == entries[j]);
        assert(u.drop_last() =~= p.update(k, e));
        assert(p[k] == entries[k]);
        lemma_cache_update(p, k, e);
        assert(u.last() == entries.last());
        assert(spec_cache(u) == spec_cache(p).insert(e.guid, e.color).insert(
            entries.last().guid,
            entries.last().color,
        ));
        assert(entries.last().guid != e.guid);
        assert(spec_cache(p).insert(e.guid, e.color).insert(
            entries.last().guid,
            entries.last().color,
        ) =~= spec_cache(p).insert(entries.last().guid, entries.last().color).insert(
            e.guid,
            e.color,
        ));
    }
}

/// What one poll pass emits and what the cache becomes: tracks are visited
/// in order, and a message is produced exactly where the cache holds no
/// value for the entity or holds a different one.
pub open spec fn spec_poll(cache: Map<Seq<char>, i32>, tracks: Seq<SpecTrackState>) -> (Seq<
    SpecWireMessage,
>, Map<Seq<char>, i32>)
    decreases tracks.len(),
{
    if tracks.len() == 0 {
        (seq![], cache)
    } else {
        let t = tracks[0];
        let rest = tracks.drop_first();
        if cache.contains_key(t.guid) && cache[t.guid] == t.color {
            spec_poll(cache, rest)
        } else {
            let r = spec_poll(cache.insert(t.guid, t.color), rest);
            (seq![TrackColorRoute::spec_build(t.guid, t.color)] + r.0, r.1)
        }
    }
}

/// The poll source for custom track colors, which the engine does not
/// notify about.
#[derive(Debug)]
pub struct TrackColorPollSource {
    pub prev_colors: Vec<ColorEntry>,
}

impl TrackColorPollSource {
    /// The cache never holds two entries for one entity.
    pub open spec fn wf(&self) -> bool {
        distinct_entries(self.prev_colors.deep_view())
    }

    /// The cache as a map.
    pub open spec fn model(&self) -> Map<Seq<char>, i32> {
        spec_cache(self.prev_colors.deep_view())
    }

    pub fn new() -> (r: Self)
        ensures
            r.wf(),
            r.model() == Map::<Seq<char>, i32>::empty(),
    {
        let r = TrackColorPollSource { prev_colors: Vec::new() };
        proof {
            assert(r.prev_colors.deep_view() =~= Seq::<SpecColorEntry>::empty());
        }
        r
    }

    /// The last color observed for an entity, if any.
    fn lookup(&self, guid: &str) -> (r: Option<i32>)
        ensures
            self.wf() ==> r == (if self.model().contains_key(guid@) {
                Some(self.model()[guid@])
            } else {
                Option::<i32>::None
            }),
    {
        let n = self.prev_colors.len();
        let mut i: usize = 0;
        while i < n
            invariant
                n == self.prev_colors.len(),
                0 <= i <= n,
                forall|j: int| 0 <= j < i ==> (#[trigger] self.prev_colors.deep_view()[j]).guid
                    != guid@,
            decreases n - i,
        {
            proof {
                assert(self.prev_colors.deep_view()[i as int] == self.prev_colors@[i as int]@);
            }
            if str_eq(self.prev_colors[i].guid.as_str(), guid) {
                proof {
                    if self.wf() {
                        lemma_cache_hit(self.prev_colors.deep_view(), i as int);
                    }
                }
                return Some(self.prev_colors[i].color);
            }
            i += 1;
        }
        proof {
            lemma_cache_miss(self.prev_colors.deep_view(), guid@);
        }
        None
    }

    /// Records an observation, overwriting any previous one for the entity.
    fn store(&mut self, guid: String, color: i32)
        ensures
            old(self).wf() ==> final(self).wf(),
            old(self).wf() ==> final(self).model() == old(self).model().insert(guid@, color),
    {
        let n = self.prev_colors.len();
        let mut i: usize = 0;
        while i < n
            invariant
                n == self.prev_colors.len(),
                0 <= i <= n,
                self == old(self),
                forall|j: int| 0 <= j < i ==> (#[trigger] self.prev_colors.deep_view()[j]).guid
                    != guid@,
            decreases n - i,
        {
            proof {
                assert(self.prev_colors.deep_view()[i as int] == self.prev_colors@[i as int]@);
            }
            if str_eq(self.prev_colors[i].guid.as_str(), guid.as_str()) {
                let ghost pre = self.prev_colors.deep_view();
                self.prev_colors.set(i, ColorEntry { guid, color });
                proof {
                    assert(self.prev_colors.deep_view() =~= pre.update(
                        i as int,
                        SpecColorEntry { guid: pre[i as int].guid, color },
                    ));
                    if old(self).wf() {
                        lemma_cache_update(
                            pre,
                            i as int,
                            SpecColorEntry { guid: pre[i as int].guid, color },
                        );
                    }
                }
                return ;
            }
            i += 1;
        }
        let ghost pre = self.prev_colors.deep_view();
        self.prev_colors.push(ColorEntry { guid, color });
        proof {
            let post = self.prev_colors.deep_view();
            assert(post =~= pre.push(SpecColorEntry { guid: guid@, color }));
            assert(post.drop_last() =~= pre);
            lemma_cache_miss(pre, guid@);
        }
    }

    /// One poll pass over the current track list: returns the updates to
    /// emit, in track order, and advances the cache.
    pub fn poll_colors(&mut self, tracks: &Vec<TrackState>) -> (r: Vec<WireMessage>)
        ensures
            old(self).wf() ==> final(self).wf(),
            old(self).wf() ==> r.deep_view() == spec_poll(
                old(self).model(),
                tracks.deep_view(),
            ).0,
            old(self).wf() ==> final(self).model() == spec_poll(
                old(self).model(),
                tracks.deep_view(),
            ).1,
    {
        let ghost wf0 = self.wf();
        let ghost m0 = self.model();
        let ghost tv = tracks.deep_view();
        let mut out: Vec<WireMessage> = Vec::new();
        proof {
            assert(tv.skip(0) =~= tv);
            assert(out.deep_view() =~= Seq::<SpecWireMessage>::empty());
        }
        let n = tracks.len();
        let mut i: usize = 0;
        while i < n
            invariant
                n == tracks.len(),
                0 <= i <= n,
                tv == tracks.deep_view(),
                wf0 ==> self.wf(),
                wf0 ==> spec_poll(m0, tv).0 == out.deep_view() + spec_poll(
                    self.model(),
                    tv.skip(i as int),
                ).0,
                wf0 ==> spec_poll(m0, tv).1 == spec_poll(self.model(), tv.skip(i as int)).1,
            decreases n - i,
        {
            proof {
                assert(tv[i as int] == tracks@[i as int]@);
                assert(tv.skip(i as int)[0] == tv[i as int]);
                assert(tv.skip(i as int).drop_first() =~= tv.skip(i + 1));
            }
            let cached = self.lookup(tracks[i].guid.as_str());
            let unchanged = match cached {
                Some(c) => c == tracks[i].color,
                None => false,
            };
            if !unchanged {
                let ghost pre_m = self.model();
                let ghost pre_out = out.deep_view();
                self.store(tracks[i].guid.clone(), tracks[i].color);
                out.push(
                    TrackColorRoute::build_message(
                        TrackColorArgs {
                            track_guid: tracks[i].guid.clone(),
                            color: tracks[i].color,
                        },
                    ),
                );
                proof {
                    if wf0 {
                        let t = tv[i as int];
                        assert(self.model() == pre_m.insert(t.guid, t.color));
                        assert(out.deep_view() =~= pre_out.push(TrackColorRoute::spec_build(
                            t.guid,
                            t.color,
                        )));
                        assert(spec_poll(pre_m, tv.skip(i as int)).0 == seq![
                            TrackColorRoute::spec_build(t.guid, t.color),
                        ] + spec_poll(self.model(), tv.skip(i + 1)).0);
                        assert(pre_out + (seq![TrackColorRoute::spec_build(t.guid, t.color)]
                            + spec_poll(self.model(), tv.skip(i + 1)).0) =~= out.deep_view()
                            + spec_poll(self.model(), tv.skip(i + 1)).0);
                    }
                }
            }
            i += 1;
        }
        proof {
            if wf0 {
                assert(tv.skip(n as int) =~= Seq::<SpecTrackState>::empty());
                assert(spec_poll(self.model(), tv.skip(n as int)).0
                    == Seq::<SpecWireMessage>::empty());
                assert(out.deep_view() + Seq::<SpecWireMessage>::empty() =~= out.deep_view());
            }
        }
        out
    }
}

/// Anything that can be polled for feedback to publish over the wire. A
/// source carries a cache between passes; the contract of `poll` speaks of
/// it through the source's abstract model.
pub trait PollSource {
    /// The abstract cache state that the contract of `poll` is stated over.
    type Model;

    /// The source's internal invariant.
    spec fn source_wf(&self) -> bool;

    /// The source's cache as an abstract value.
    spec fn source_model(&self) -> Self::Model;

    /// What one pass over `tracks` emits, and what the cache becomes.
    spec fn source_poll(m: Self::Model, tracks: Seq<SpecTrackState>) -> (Seq<SpecWireMessage>,
        Self::Model);

    /// Called periodically with the current track list; returns the update
    /// messages to send and advances the cache.
    fn poll(&mut self, tracks: &Vec<TrackState>) -> (r: Vec<WireMessage>)
        ensures
            old(self).source_wf() ==> final(self).source_wf(),
            old(self).source_wf() ==> r.deep_view() == Self::source_poll(
                old(self).source_model(),
                tracks.deep_view(),
            ).0,
            old(self).source_wf() ==> final(self).source_model() == Self::source_poll(
                old(self).source_model(),
                tracks.deep_view(),
            ).1,
    ;
}

impl PollSource for TrackColorPollSource {
    type Model = Map<Seq<char>, i32>;

    open spec fn source_wf(&self) -> bool {
        self.wf()
    }

    open spec fn source_model(&self) -> Map<Seq<char>, i32> {
        self.model()
    }

    open spec fn source_poll(m: Map<Seq<char>, i32>, tracks: Seq<SpecTrackState>) -> (Seq<
        SpecWireMessage,
    >, Map<Seq<char>, i32>) {
        spec_poll(m, tracks)
    }

    fn poll(&mut self, tracks: &Vec<TrackState>) -> (r: Vec<WireMessage>) {
        self.poll_colors(tracks)
    }
}

/// Concatenation of what each source of `sources` emits for `tracks`, in
/// registration order. Sources are independent, so each one's share is a
/// function of its own cache alone.
pub open spec fn spec_poll_all<S: PollSource>(
    sources: Seq<S>,
    tracks: Seq<SpecTrackState>,
) -> Seq<SpecWireMessage>
    decreases sources.len(),
{
    if sources.len() == 0 {
        seq![]
    } else {
        S::source_poll(sources[0].source_model(), tracks).0 + spec_poll_all(
            sources.drop_first(),
            tracks,
        )
    }
}

proof fn lemma_spec_poll_all_snoc<S: PollSource>(
    sources: Seq<S>,
    x: S,
    tracks: Seq<SpecTrackState>,
)
    ensures
        spec_poll_all(sources.push(x), tracks) == spec_poll_all(sources, tracks) + S::source_poll(
            x.source_model(),
            tracks,
        ).0,
    decreases sources.len(),
{
    if sources.len() == 0 {
        assert(sources.push(x)[0] == x);
        assert(sources.push(x).drop_first() =~= Seq::<S>::empty());
        assert(spec_poll_all(Seq::<S>::empty(), tracks) == Seq::<SpecWireMessage>::empty());
        assert(spec_poll_all(sources.push(x), tracks) =~= spec_poll_all(sources, tracks)
            + S::source_poll(x.source_model(), tracks).0);
    } else {
        assert(sources.push(x)[0] == sources[0]);
        assert(sources.push(x).drop_first() =~= sources.drop_first().push(x));
        lemma_spec_poll_all_snoc(sources.drop_first(), x, tracks);
        assert(spec_poll_all(sources.push(x), tracks) == S::source_poll(
            sources[0].source_model(),
            tracks,
        ).0 + (spec_poll_all(sources.drop_first(), tracks) + S::source_poll(
            x.source_model(),
            tracks,
        ).0));
        assert(S::source_poll(sources[0].source_model(), tracks).0 + (spec_poll_all(
            sources.drop_first(),
            tracks,
        ) + S::source_poll(x.source_model(), tracks).0) =~= (S::source_poll(
            sources[0].source_model(),
            tracks,
        ).0 + spec_poll_all(sources.drop_first(), tracks)) + S::source_poll(
            x.source_model(),
            tracks,
        ).0);
    }
}

/// The registry of poll sources, run on each scheduled tick.
#[derive(Debug)]
pub struct PollManager<S: PollSource> {
    pub sources: Vec<S>,
}

impl<S: PollSource> PollManager<S> {
    /// Every registered source satisfies its own invariant.
    pub open spec fn wf(&self) -> bool {
        forall|i: int| 0 <= i < self.sources@.len() ==> (#[trigger] self.sources@[i]).source_wf()
    }

    pub fn new() -> (r: Self)
        ensures
            r.sources@.len() == 0,
            r.wf(),
    {
        PollManager { sources: Vec::new() }
    }

    /// Registers a source after all previously added ones; sources are
    /// never removed or reordered.
    pub fn add_source(&mut self, source: S)
        ensures
            final(self).sources@ == old(self).sources@.push(source),
            old(self).wf() && source.source_wf() ==> final(self).wf(),
    {
        self.sources.push(source);
        proof {
            if old(self).wf() && source.source_wf() {
                assert forall|i: int| 0 <= i < self.sources@.len() implies (
                #[trigger] self.sources@[i]).source_wf() by {
                    if i < old(self).sources@.len() {
                        assert(self.sources@[i] == old(self).sources@[i]);
                    } else {
                        assert(self.sources@[i] == source);
                    }
                }
            }
        }
    }

    /// Runs every source exactly once, in registration order, and returns
    /// the concatenation of their updates; each source's cache advances as
    /// its own contract says.
    pub fn poll_all(&mut self, tracks: &Vec<TrackState>) -> (r: Vec<WireMessage>)
        ensures
            final(self).sources@.len() == old(self).sources@.len(),
            old(self).wf() ==> final(self).wf(),
            old(self).wf() ==> r.deep_view() == spec_poll_all(
                old(self).sources@,
                tracks.deep_view(),
            ),
            old(self).wf() ==> forall|i: int| 0 <= i < old(self).sources@.len() ==> (
            #[trigger] final(self).sources@[i]).source_model() == S::source_poll(
                old(self).sources@[i].source_model(),
                tracks.deep_view(),
            ).1,
    {
        let ghost src0 = self.sources@;
        let ghost wf0 = self.wf();
        let ghost tv = tracks.deep_view();
        let mut out: Vec<WireMessage> = Vec::new();
        proof {
            assert(src0.subrange(0, 0) =~= Seq::<S>::empty());
            assert(out.deep_view() =~= Seq::<SpecWireMessage>::empty());
        }
        let n = self.sources.len();
        let mut i: usize = 0;
        while i < n
            invariant
                n == src0.len(),
                self.sources@.len() == n,
                0 <= i <= n,
                tv == tracks.deep_view(),
                forall|j: int| i <= j < n ==> self.sources@[j] == src0[j],
                wf0 ==> forall|j: int| 0 <= j < n ==> (#[trigger] self.sources@[j]).source_wf(),
                wf0 ==> out.deep_view() == spec_poll_all(src0.subrange(0, i as int), tv),
                wf0 ==> forall|j: int| 0 <= j < i ==> (
                #[trigger] self.sources@[j]).source_model() == S::source_poll(
                    src0[j].source_model(),
                    tv,
                ).1,
            decreases n - i,
        {
            let ghost pre = self.sources@;
            let ghost pre_out = out.deep_view();
            let mut src = self.sources.remove(i);
            proof {
                assert(src == src0[i as int]);
            }
            let mut msgs = src.poll(tracks);
            self.sources.insert(i, src);
            proof {
                assert(self.sources@ =~= pre.update(i as int, src));
            }
            out.append(&mut msgs);
            proof {
                if wf0 {
                    assert(out.deep_view() =~= pre_out + S::source_poll(
                        src0[i as int].source_model(),
                        tv,
                    ).0);
                    assert(src0.subrange(0, i + 1) =~= src0.subrange(0, i as int).push(
                        src0[i as int],
                    ));
                    lemma_spec_poll_all_snoc(src0.subrange(0, i as int), src0[i as int], tv);
                }
            }
            i += 1;
        }
        proof {
            assert(src0.subrange(0, n as int) =~= src0);
        }
        out
    }
}

impl<S: PollSource> core::default::Default for PollManager<S> {
    fn default() -> (r: Self)
        ensures
            r.sources@.len() == 0,
            r.wf(),
    {
        PollManager::new()
    }
}

/// After a pass, the cache holds the observed color of every polled track;
/// entries for other entities are untouched.
proof fn lemma_poll_final_cache(cache: Map<Seq<char>, i32>, tracks: Seq<SpecTrackState>)
    requires
        distinct_guids(tracks),
    ensures
        forall|k: int| 0 <= k < tracks.len() ==> {
            let m = spec_poll(cache, tracks).1;
            m.contains_key((#[trigger] tracks[k]).guid) && m[tracks[k].guid] == tracks[k].color
        },
        forall|g: Seq<char>|
            (forall|k: int| 0 <= k < tracks.len() ==> (#[trigger] tracks[k]).guid != g)
                ==> (#[trigger] spec_poll(cache, tracks).1.contains_key(g)) == cache.contains_key(g)
                && (spec_poll(cache, tracks).1.contains_key(g) ==> spec_poll(cache, tracks).1[g]
                == cache[g]),
    decreases tracks.len(),
{
    if tracks.len() > 0 {
        let t = tracks[0];
        let rest = tracks.drop_first();
        assert(forall|k: int| 0 <= k < rest.len() ==> rest[k] == tracks[k + 1]);
        assert(forall|i: int, j: int| 0 <= i < j < rest.len() ==> (#[trigger] rest[i]).guid != (
        #[trigger] rest[j]).guid);
        let c1 = if cache.contains_key(t.guid) && cache[t.guid] == t.color {
            cache
        } else {
            cache.insert(t.guid, t.color)
        };
        lemma_poll_final_cache(c1, rest);
        let m = spec_poll(cache, tracks).1;
        assert(m == spec_poll(c1, rest).1);
        assert forall|k: int| 0 <= k < tracks.len() implies m.contains_key(
            (#[trigger] tracks[k]).guid,
        ) && m[tracks[k].guid] == tracks[k].color by {
            if k == 0 {
                assert(c1.contains_key(t.guid) && c1[t.guid] == t.color);
                assert(forall|j: int| 0 <= j < rest.len() ==> (#[trigger] rest[j]).guid != t.guid);
                assert(spec_poll(c1, rest).1.contains_key(t.guid) == c1.contains_key(t.guid));
                assert(spec_poll(c1, rest).1.contains_key(t.guid) ==> spec_poll(c1, rest).1[t.guid]
                    == c1[t.guid]);
            } else {
                assert(tracks[k] == rest[k - 1]);
                assert(spec_poll(c1, rest).1.contains_key(rest[k - 1].guid) && spec_poll(
                    c1,
                    rest,
                ).1[rest[k - 1].guid] == rest[k - 1].color);
            }
        }
        assert forall|g: Seq<char>|
            (forall|k: int| 0 <= k < tracks.len() ==> (#[trigger] tracks[k]).guid != g) implies (
        #[trigger] spec_poll(cache, tracks).1.contains_key(g)) == cache.contains_key(g) && (
        spec_poll(cache, tracks).1.contains_key(g) ==> spec_poll(cache, tracks).1[g]
            == cache[g]) by {
            assert(forall|k: int| 0 <= k < rest.len() ==> (#[trigger] rest[k]).guid != g);
            assert(tracks[0].guid != g);
            assert(c1.contains_key(g) == cache.contains_key(g));
            assert(c1.contains_key(g) ==> c1[g] == cache[g]);
            assert(spec_poll(c1, rest).1.contains_key(g) == c1.contains_key(g));
            assert(spec_poll(c1, rest).1.contains_key(g) ==> spec_poll(c1, rest).1[g] == c1[g]);
        }
    }
}

/// A pass over tracks whose colors the cache already holds emits nothing
/// and leaves the cache unchanged.
proof fn lemma_poll_cached(m: Map<Seq<char>, i32>, tracks: Seq<SpecTrackState>)
    requires
        forall|k: int| 0 <= k < tracks.len() ==> m.contains_key((#[trigger] tracks[k]).guid)
            && m[tracks[k].guid] == tracks[k].color,
    ensures
        spec_poll(m, tracks).0 == Seq::<SpecWireMessage>::empty(),
        spec_poll(m, tracks).1 == m,
    decreases tracks.len(),
{
    if tracks.len() > 0 {
        let rest = tracks.drop_first();
        assert(forall|k: int| 0 <= k < rest.len() ==> rest[k] == tracks[k + 1]);
        lemma_poll_cached(m, rest);
    }
}

/// The poller never emits two consecutive identical values: a second pass
/// over the same observations emits nothing at all.
pub proof fn lemma_poll_suppresses_unchanged(cache: Map<Seq<char>, i32>, tracks: Seq<
    SpecTrackState,
>)
    requires
        distinct_guids(tracks),
    ensures
        spec_poll(spec_poll(cache, tracks).1, tracks).0 == Seq::<SpecWireMessage>::empty(),
        spec_poll(spec_poll(cache, tracks).1, tracks).1 == spec_poll(cache, tracks).1,
{
    lemma_poll_final_cache(cache, tracks);
    lemma_poll_cached(spec_poll(cache, tracks).1, tracks);
}

/// The poller always emits for an entity on the first pass that observes
/// it.
pub proof fn lemma_poll_emits_first_observation(
    cache: Map<Seq<char>, i32>,
    tracks: Seq<SpecTrackState>,
    k: int,
)
    requires
        distinct_guids(tracks),
        0 <= k < tracks.len(),
        !cache.contains_key(tracks[k].guid),
    ensures
        spec_poll(cache, tracks).0.contains(
            TrackColorRoute::spec_build(tracks[k].guid, tracks[k].color),
        ),
    decreases tracks.len(),
{
    let t = tracks[0];
    let rest = tracks.drop_first();
    assert(forall|i: int, j: int| 0 <= i < j < rest.len() ==> rest[i] == tracks[i + 1] && rest[j]
        == tracks[j + 1]);
    if k == 0 {
        assert(!cache.contains_key(t.guid));
        let msg = TrackColorRoute::spec_build(t.guid, t.color);
        let r = spec_poll(cache.insert(t.guid, t.color), rest);
        assert(spec_poll(cache, tracks).0 == seq![msg] + r.0);
        assert((seq![msg] + r.0)[0] == msg);
    } else {
        let c1 = if cache.contains_key(t.guid) && cache[t.guid] == t.color {
            cache
        } else {
            cache.insert(t.guid, t.color)
        };
        assert(tracks[k] == rest[k - 1]);
        assert(tracks[k].guid != t.guid);
        assert(!c1.contains_key(tracks[k].guid));
        lemma_poll_emits_first_observation(c1, rest, k - 1);
        let msg = TrackColorRoute::spec_build(tracks[k].guid, tracks[k].color);
        let r = spec_poll(c1, rest);
        if cache.contains_key(t.guid) && cache[t.guid] == t.color {
            assert(spec_poll(cache, tracks).0 == r.0);
        } else {
            assert(spec_poll(cache, tracks).0 == seq![TrackColorRoute::spec_build(t.guid, t.color)]
                + r.0);
            let w = choose|w: int| 0 <= w < r.0.len() && r.0[w] == msg;
            assert((seq![TrackColorRoute::spec_build(t.guid, t.color)] + r.0)[w + 1] == msg);
        }
    }
}

} // verus!
