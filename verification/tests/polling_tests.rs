use arpad::events::track_list_messages;
use arpad::message::WireValue;
use arpad::polling::{PollManager, PollSource, TrackColorPollSource};
use arpad::project::{SendState, TrackState};

fn track(guid: &str, index: i32, color: i32) -> TrackState {
    TrackState {
        guid: guid.to_string(),
        index,
        name: None,
        selected: false,
        volume: 1.0f32.to_bits(),
        pan: 0.0f32.to_bits(),
        mute: false,
        solo: false,
        rec_arm: false,
        color,
        sends: Vec::new(),
    }
}

#[test]
fn poller_emits_on_first_observation() {
    let mut source = TrackColorPollSource::new();
    let tracks = vec![track("g1", 1, 10), track("g2", 2, 20)];
    let msgs = source.poll_colors(&tracks);
    assert_eq!(msgs.len(), 2);
    assert_eq!(msgs[0].addr, "/track/g1/color");
    assert_eq!(msgs[0].args, vec![WireValue::Int(10)]);
    assert_eq!(msgs[1].addr, "/track/g2/color");
    assert_eq!(msgs[1].args, vec![WireValue::Int(20)]);
}

#[test]
fn poller_suppresses_unchanged_values() {
    let mut source = TrackColorPollSource::new();
    let tracks = vec![track("g1", 1, 10), track("g2", 2, 20)];
    let first = source.poll_colors(&tracks);
    assert_eq!(first.len(), 2);
    let second = source.poll_colors(&tracks);
    assert!(second.is_empty());
    let third = source.poll_colors(&tracks);
    assert!(third.is_empty());
}

#[test]
fn poller_emits_only_the_changed_entity() {
    let mut source = TrackColorPollSource::new();
    let tracks = vec![track("g1", 1, 10), track("g2", 2, 20)];
    source.poll_colors(&tracks);
    let changed = vec![track("g1", 1, 10), track("g2", 2, 30)];
    let msgs = source.poll_colors(&changed);
    assert_eq!(msgs.len(), 1);
    assert_eq!(msgs[0].addr, "/track/g2/color");
    assert_eq!(msgs[0].args, vec![WireValue::Int(30)]);
}

#[test]
fn poller_re_emits_after_change_back() {
    let mut source = TrackColorPollSource::new();
    let tracks = vec![track("g1", 1, 10)];
    source.poll_colors(&tracks);
    let changed = vec![track("g1", 1, 11)];
    assert_eq!(source.poll_colors(&changed).len(), 1);
    let back = vec![track("g1", 1, 10)];
    let msgs = source.poll_colors(&back);
    assert_eq!(msgs.len(), 1);
    assert_eq!(msgs[0].args, vec![WireValue::Int(10)]);
}

#[test]
fn poll_manager_runs_registered_sources() {
    let mut manager: PollManager<TrackColorPollSource> = PollManager::new();
    manager.add_source(TrackColorPollSource::new());
    let tracks = vec![track("g1", 1, 10)];
    let msgs = manager.poll_all(&tracks);
    assert_eq!(msgs.len(), 1);
    assert_eq!(msgs[0].addr, "/track/g1/color");
    let again = manager.poll_all(&tracks);
    assert!(again.is_empty());
}

#[test]
fn poll_manager_default_is_empty() {
    let mut manager: PollManager<TrackColorPollSource> = Default::default();
    let tracks = vec![track("g1", 1, 10)];
    assert!(manager.poll_all(&tracks).is_empty());
}

#[test]
fn poll_source_trait_dispatches() {
    let mut source = TrackColorPollSource::new();
    let tracks = vec![track("g1", 1, 10)];
    let msgs = PollSource::poll(&mut source, &tracks);
    assert_eq!(msgs.len(), 1);
}

#[test]
fn track_list_change_republishes_indices_and_send_guids() {
    let mut t1 = track("g1", 1, 0);
    t1.sends.push(SendState {
        dest_guid: "g2".to_string(),
        volume: 1.0f32.to_bits(),
        pan: 0.0f32.to_bits(),
    });
    t1.sends.push(SendState {
        dest_guid: "g3".to_string(),
        volume: 1.0f32.to_bits(),
        pan: 0.0f32.to_bits(),
    });
    let t2 = track("g2", 2, 0);
    let t3 = track("g3", 3, 0);
    let tracks = vec![t1, t2, t3];
    let msgs = track_list_messages(&tracks);
    // three index messages plus one per routing connection
    assert_eq!(msgs.len(), 5);
    assert_eq!(msgs[0].addr, "/track/g1/index");
    assert_eq!(msgs[0].args, vec![WireValue::Int(1)]);
    assert_eq!(msgs[1].addr, "/track/g1/send/0/guid");
    assert_eq!(msgs[1].args, vec![WireValue::Str("g2".to_string())]);
    assert_eq!(msgs[2].addr, "/track/g1/send/1/guid");
    assert_eq!(msgs[2].args, vec![WireValue::Str("g3".to_string())]);
    assert_eq!(msgs[3].addr, "/track/g2/index");
    assert_eq!(msgs[4].addr, "/track/g3/index");
}

#[test]
fn track_list_change_empty_project() {
    let msgs = track_list_messages(&Vec::new());
    assert!(msgs.is_empty());
}
