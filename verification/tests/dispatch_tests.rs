use arpad::dispatch::{dispatch_message, DispatchOutcome};
use arpad::guid::{guid_to_string, Guid};
use arpad::message::{WireMessage, WireValue, WriteOp};
use arpad::osc_routes::{TrackMuteRoute, TrackSendVolumeRoute};
use arpad::parse_osc_address;
use arpad::project::{ProjectSnapshot, SendState, TrackState};
use arpad::text::parse_i32;
use arpad::{ReceiverError, RouteError};

fn track(guid: &str) -> TrackState {
    TrackState {
        guid: guid.to_string(),
        index: 1,
        name: Some("piano".to_string()),
        selected: false,
        volume: 0.75f32.to_bits(),
        pan: 0.0f32.to_bits(),
        mute: false,
        solo: false,
        rec_arm: false,
        color: 0x112233,
        sends: Vec::new(),
    }
}

fn project_with(tracks: Vec<TrackState>) -> ProjectSnapshot {
    let mut master = track("master-guid");
    master.index = 0;
    ProjectSnapshot { master, tracks }
}

fn msg(addr: &str, args: Vec<WireValue>) -> WireMessage {
    WireMessage { addr: addr.to_string(), args }
}

#[test]
fn parse_address_basic() {
    let segs = parse_osc_address("/track/ab12/volume");
    assert_eq!(segs, vec!["track".to_string(), "ab12".to_string(), "volume".to_string()]);
}

#[test]
fn parse_address_drops_empty_segments() {
    let segs = parse_osc_address("//track//ab12/volume/");
    assert_eq!(segs, vec!["track".to_string(), "ab12".to_string(), "volume".to_string()]);
}

#[test]
fn parse_address_empty_inputs() {
    assert!(parse_osc_address("").is_empty());
    assert!(parse_osc_address("///").is_empty());
}

#[test]
fn parse_i32_accepts_what_rust_accepts() {
    assert_eq!(parse_i32("42"), Some(42));
    assert_eq!(parse_i32("-5"), Some(-5));
    assert_eq!(parse_i32("+7"), Some(7));
    assert_eq!(parse_i32("007"), Some(7));
    assert_eq!(parse_i32("2147483647"), Some(2147483647));
    assert_eq!(parse_i32("-2147483648"), Some(-2147483648));
    assert_eq!(parse_i32("2147483648"), None);
    assert_eq!(parse_i32("abc"), None);
    assert_eq!(parse_i32(""), None);
    assert_eq!(parse_i32("-"), None);
}

#[test]
fn guid_string_format() {
    let g = Guid {
        data1: 0x12345678,
        data2: 0xabcd,
        data3: 0x1234,
        data4: [0x00, 0x01, 0xab, 0xcd, 0xef, 0x12, 0x34, 0x56],
    };
    assert_eq!(guid_to_string(&g), "12345678-abcd-1234-0001-abcdef123456");
}

#[test]
fn mute_matcher_round_trip() {
    let segs = parse_osc_address("/track/ab12/mute");
    let params = TrackMuteRoute::matcher(&segs).expect("should match");
    assert_eq!(params.track_guid, "ab12");
    let rebuilt = TrackMuteRoute::build_message(arpad::osc_routes::TrackMuteArgs {
        track_guid: params.track_guid,
        is_mute: true,
    });
    assert_eq!(parse_osc_address(&rebuilt.addr), segs);
}

#[test]
fn mute_matcher_rejects_other_shapes() {
    assert!(TrackMuteRoute::matcher(&parse_osc_address("/track/ab12/solo")).is_none());
    assert!(TrackMuteRoute::matcher(&parse_osc_address("/track/mute")).is_none());
    assert!(TrackMuteRoute::matcher(&parse_osc_address("/track/ab12/mute/extra")).is_none());
}

#[test]
fn send_matcher_parses_index() {
    let segs = parse_osc_address("/track/ab12/send/3/volume");
    let params = TrackSendVolumeRoute::matcher(&segs).expect("should match");
    assert_eq!(params.track_guid, "ab12");
    assert_eq!(params.send_index, 3);
    assert!(TrackSendVolumeRoute::matcher(&parse_osc_address("/track/ab12/send/x/volume"))
        .is_none());
}

#[test]
fn send_matcher_noncanonical_index_rebuilds_canonically() {
    let segs = parse_osc_address("/track/ab12/send/007/volume");
    let params = TrackSendVolumeRoute::matcher(&segs).expect("should match");
    assert_eq!(params.send_index, 7);
    let rebuilt = TrackSendVolumeRoute::build_message(arpad::osc_routes::TrackSendVolumeArgs {
        track_guid: params.track_guid,
        send_index: 7,
        volume: 0.5f32.to_bits(),
    });
    assert_eq!(rebuilt.addr, "/track/ab12/send/7/volume");
}

#[test]
fn volume_write_then_query_round_trip() {
    let mut p = project_with(vec![track("AB12CD34-0000-0000-0000-000000000001")]);
    let bits = 0.5f32.to_bits();
    let write = msg(
        "/track/AB12CD34-0000-0000-0000-000000000001/volume",
        vec![WireValue::Float(bits)],
    );
    match dispatch_message(&write, &p) {
        DispatchOutcome::Applied(WriteOp::SetVolume { guid, volume }) => {
            assert_eq!(guid, "AB12CD34-0000-0000-0000-000000000001");
            assert_eq!(volume, bits);
            p.tracks[0].volume = volume;
        },
        other => panic!("unexpected outcome: {:?}", other),
    }
    let query = msg("/track/AB12CD34-0000-0000-0000-000000000001/volume/?", Vec::new());
    match dispatch_message(&query, &p) {
        DispatchOutcome::Reply(reply) => {
            assert_eq!(reply.addr, "/track/AB12CD34-0000-0000-0000-000000000001/volume");
            assert_eq!(reply.args.len(), 1);
            match &reply.args[0] {
                WireValue::Float(b) => {
                    let echoed = f32::from_bits(*b);
                    assert!((echoed - 0.5f32).abs() < 1e-6);
                },
                other => panic!("unexpected argument: {:?}", other),
            }
        },
        other => panic!("unexpected outcome: {:?}", other),
    }
}

#[test]
fn unknown_guid_mute_is_guid_not_found() {
    let p = project_with(vec![track("known")]);
    let write = msg("/track/UNKNOWN/mute", vec![WireValue::Bool(true)]);
    match dispatch_message(&write, &p) {
        DispatchOutcome::WriteFailed(ReceiverError::Route(RouteError::GuidNotFound(g))) => {
            assert_eq!(g, "UNKNOWN");
        },
        other => panic!("unexpected outcome: {:?}", other),
    }
}

#[test]
fn malformed_message_then_valid_message() {
    let p = project_with(vec![track("g1")]);
    let bad = msg("/track/g1/volume", vec![WireValue::Str("loud".to_string())]);
    assert!(matches!(
        dispatch_message(&bad, &p),
        DispatchOutcome::WriteFailed(ReceiverError::BadValue(_))
    ));
    let good = msg("/track/g1/mute", vec![WireValue::Bool(true)]);
    assert_eq!(
        dispatch_message(&good, &p),
        DispatchOutcome::Applied(WriteOp::SetMute { guid: "g1".to_string(), mute: true })
    );
}

#[test]
fn missing_argument_is_bad_value() {
    let p = project_with(vec![track("g1")]);
    let bad = msg("/track/g1/name", Vec::new());
    assert!(matches!(
        dispatch_message(&bad, &p),
        DispatchOutcome::WriteFailed(ReceiverError::BadValue(_))
    ));
}

#[test]
fn negative_send_index_is_bad_value() {
    let p = project_with(vec![track("g1")]);
    let bad = msg("/track/g1/send/-1/volume", vec![WireValue::Float(0.5f32.to_bits())]);
    assert!(matches!(
        dispatch_message(&bad, &p),
        DispatchOutcome::WriteFailed(ReceiverError::BadValue(_))
    ));
}

#[test]
fn pan_out_of_range_is_bad_value() {
    let p = project_with(vec![track("g1")]);
    let bad = msg("/track/g1/pan", vec![WireValue::Float(2.0f32.to_bits())]);
    assert!(matches!(
        dispatch_message(&bad, &p),
        DispatchOutcome::WriteFailed(ReceiverError::BadValue(_))
    ));
    let bad = msg("/track/g1/send/0/pan", vec![WireValue::Float((-1.5f32).to_bits())]);
    assert!(matches!(
        dispatch_message(&bad, &p),
        DispatchOutcome::WriteFailed(ReceiverError::BadValue(_))
    ));
}

#[test]
fn volume_out_of_range_is_bad_value() {
    let p = project_with(vec![track("g1")]);
    let bad = msg("/track/g1/volume", vec![WireValue::Float((-0.5f32).to_bits())]);
    assert!(matches!(
        dispatch_message(&bad, &p),
        DispatchOutcome::WriteFailed(ReceiverError::BadValue(_))
    ));
    let bad = msg("/track/g1/volume", vec![WireValue::Float(1.5f32.to_bits())]);
    assert!(matches!(
        dispatch_message(&bad, &p),
        DispatchOutcome::WriteFailed(ReceiverError::BadValue(_))
    ));
}

#[test]
fn nan_float_is_bad_value() {
    let mut t = track("g1");
    t.sends.push(SendState {
        dest_guid: "g2".to_string(),
        volume: 1.0f32.to_bits(),
        pan: 0.0f32.to_bits(),
    });
    let p = project_with(vec![t]);
    let nan = f32::NAN.to_bits();
    let bad = msg("/track/g1/send/0/volume", vec![WireValue::Float(nan)]);
    assert!(matches!(
        dispatch_message(&bad, &p),
        DispatchOutcome::WriteFailed(ReceiverError::BadValue(_))
    ));
    let bad = msg("/track/g1/send/0/pan", vec![WireValue::Float(nan)]);
    assert!(matches!(
        dispatch_message(&bad, &p),
        DispatchOutcome::WriteFailed(ReceiverError::BadValue(_))
    ));
}

#[test]
fn range_boundaries_are_accepted() {
    let p = project_with(vec![track("g1")]);
    let one = 1.0f32.to_bits();
    assert_eq!(
        dispatch_message(&msg("/track/g1/volume", vec![WireValue::Float(one)]), &p),
        DispatchOutcome::Applied(WriteOp::SetVolume { guid: "g1".to_string(), volume: one })
    );
    // IEEE equality puts -0.0 in [0, 1]
    let neg_zero = (-0.0f32).to_bits();
    assert_eq!(
        dispatch_message(&msg("/track/g1/volume", vec![WireValue::Float(neg_zero)]), &p),
        DispatchOutcome::Applied(WriteOp::SetVolume { guid: "g1".to_string(), volume: neg_zero })
    );
    let minus_one = (-1.0f32).to_bits();
    assert_eq!(
        dispatch_message(&msg("/track/g1/pan", vec![WireValue::Float(minus_one)]), &p),
        DispatchOutcome::Applied(WriteOp::SetPan { guid: "g1".to_string(), pan: minus_one })
    );
}

#[test]
fn send_index_out_of_range_query_is_value_not_found() {
    let p = project_with(vec![track("g1")]);
    let query = msg("/track/g1/send/5/guid/?", Vec::new());
    assert!(matches!(
        dispatch_message(&query, &p),
        DispatchOutcome::QueryFailed(RouteError::ValueNotFound(_))
    ));
}

#[test]
fn name_query_without_name_is_value_not_found() {
    let mut t = track("g1");
    t.name = None;
    let p = project_with(vec![t]);
    let query = msg("/track/g1/name/?", Vec::new());
    assert!(matches!(
        dispatch_message(&query, &p),
        DispatchOutcome::QueryFailed(RouteError::ValueNotFound(_))
    ));
}

#[test]
fn unrecognized_address_is_ignored() {
    let p = project_with(vec![track("g1")]);
    assert_eq!(dispatch_message(&msg("/foo/bar", Vec::new()), &p), DispatchOutcome::NoMatch);
    assert_eq!(dispatch_message(&msg("", Vec::new()), &p), DispatchOutcome::NoMatch);
}

#[test]
fn bool_routes_accept_zero_one_integers() {
    let p = project_with(vec![track("g1")]);
    assert_eq!(
        dispatch_message(&msg("/track/g1/mute", vec![WireValue::Int(1)]), &p),
        DispatchOutcome::Applied(WriteOp::SetMute { guid: "g1".to_string(), mute: true })
    );
    assert_eq!(
        dispatch_message(&msg("/track/g1/solo", vec![WireValue::Int(0)]), &p),
        DispatchOutcome::Applied(WriteOp::SetSolo { guid: "g1".to_string(), solo: false })
    );
}

#[test]
fn index_route_is_read_only() {
    let p = project_with(vec![track("g1")]);
    assert_eq!(
        dispatch_message(&msg("/track/g1/index", vec![WireValue::Int(9)]), &p),
        DispatchOutcome::Applied(WriteOp::NoOp)
    );
    match dispatch_message(&msg("/track/g1/index/?", Vec::new()), &p) {
        DispatchOutcome::Reply(reply) => {
            assert_eq!(reply.addr, "/track/g1/index");
            assert_eq!(reply.args, vec![WireValue::Int(1)]);
        },
        other => panic!("unexpected outcome: {:?}", other),
    }
}

#[test]
fn master_track_resolves_first() {
    let p = project_with(vec![track("g1")]);
    match dispatch_message(&msg("/track/master-guid/mute/?", Vec::new()), &p) {
        DispatchOutcome::Reply(reply) => {
            assert_eq!(reply.addr, "/track/master-guid/mute");
            assert_eq!(reply.args, vec![WireValue::Bool(false)]);
        },
        other => panic!("unexpected outcome: {:?}", other),
    }
}

#[test]
fn mute_encode_apply_collect_encode_is_exact() {
    let mut p = project_with(vec![track("g1")]);
    let encoded = TrackMuteRoute::build_message(arpad::osc_routes::TrackMuteArgs {
        track_guid: "g1".to_string(),
        is_mute: true,
    });
    match dispatch_message(&encoded, &p) {
        DispatchOutcome::Applied(WriteOp::SetMute { guid, mute }) => {
            assert_eq!(guid, "g1");
            assert!(mute);
            p.tracks[0].mute = mute;
        },
        other => panic!("unexpected outcome: {:?}", other),
    }
    let query = msg("/track/g1/mute/?", Vec::new());
    match dispatch_message(&query, &p) {
        DispatchOutcome::Reply(reply) => assert_eq!(reply, encoded),
        other => panic!("unexpected outcome: {:?}", other),
    }
}

#[test]
fn send_query_reads_connection_state() {
    let mut t = track("g1");
    t.sends.push(SendState {
        dest_guid: "g2".to_string(),
        volume: 0.25f32.to_bits(),
        pan: (-0.5f32).to_bits(),
    });
    let p = project_with(vec![t, track("g2")]);
    match dispatch_message(&msg("/track/g1/send/0/guid/?", Vec::new()), &p) {
        DispatchOutcome::Reply(reply) => {
            assert_eq!(reply.addr, "/track/g1/send/0/guid");
            assert_eq!(reply.args, vec![WireValue::Str("g2".to_string())]);
        },
        other => panic!("unexpected outcome: {:?}", other),
    }
    match dispatch_message(&msg("/track/g1/send/0/pan/?", Vec::new()), &p) {
        DispatchOutcome::Reply(reply) => {
            assert_eq!(reply.addr, "/track/g1/send/0/pan");
            assert_eq!(reply.args, vec![WireValue::Float((-0.5f32).to_bits())]);
        },
        other => panic!("unexpected outcome: {:?}", other),
    }
}

#[test]
fn query_independent_of_failed_write() {
    let p = project_with(vec![track("g1")]);
    let bad = msg("/track/g1/selected", vec![WireValue::Str("yes".to_string())]);
    assert!(matches!(
        dispatch_message(&bad, &p),
        DispatchOutcome::WriteFailed(ReceiverError::BadValue(_))
    ));
    match dispatch_message(&msg("/track/g1/selected/?", Vec::new()), &p) {
        DispatchOutcome::Reply(reply) => {
            assert_eq!(reply.addr, "/track/g1/selected");
            assert_eq!(reply.args, vec![WireValue::Bool(false)]);
        },
        other => panic!("unexpected outcome: {:?}", other),
    }
}

#[test]
fn name_write_and_query() {
    let mut p = project_with(vec![track("g1")]);
    let write = msg("/track/g1/name", vec![WireValue::Str("drums".to_string())]);
    match dispatch_message(&write, &p) {
        DispatchOutcome::Applied(WriteOp::SetName { guid, name }) => {
            assert_eq!(guid, "g1");
            assert_eq!(name, "drums");
            p.tracks[0].name = Some(name);
        },
        other => panic!("unexpected outcome: {:?}", other),
    }
    match dispatch_message(&msg("/track/g1/name/?", Vec::new()), &p) {
        DispatchOutcome::Reply(reply) => {
            assert_eq!(reply.addr, "/track/g1/name");
            assert_eq!(reply.args, vec![WireValue::Str("drums".to_string())]);
        },
        other => panic!("unexpected outcome: {:?}", other),
    }
}

#[test]
fn color_write_and_query() {
    let mut p = project_with(vec![track("g1")]);
    let write = msg("/track/g1/color", vec![WireValue::Int(0xff00ff)]);
    match dispatch_message(&write, &p) {
        DispatchOutcome::Applied(WriteOp::SetColor { guid, color }) => {
            assert_eq!(guid, "g1");
            assert_eq!(color, 0xff00ff);
            p.tracks[0].color = color;
        },
        other => panic!("unexpected outcome: {:?}", other),
    }
    match dispatch_message(&msg("/track/g1/color/?", Vec::new()), &p) {
        DispatchOutcome::Reply(reply) => {
            assert_eq!(reply.addr, "/track/g1/color");
            assert_eq!(reply.args, vec![WireValue::Int(0xff00ff)]);
        },
        other => panic!("unexpected outcome: {:?}", other),
    }
}

#[test]
fn rec_arm_write() {
    let p = project_with(vec![track("g1")]);
    assert_eq!(
        dispatch_message(&msg("/track/g1/rec-arm", vec![WireValue::Bool(true)]), &p),
        DispatchOutcome::Applied(WriteOp::SetRecArm { guid: "g1".to_string(), rec_arm: true })
    );
}

#[test]
fn pan_write_is_direct_mapped() {
    let p = project_with(vec![track("g1")]);
    let bits = (-0.25f32).to_bits();
    assert_eq!(
        dispatch_message(&msg("/track/g1/pan", vec![WireValue::Float(bits)]), &p),
        DispatchOutcome::Applied(WriteOp::SetPan { guid: "g1".to_string(), pan: bits })
    );
}

#[test]
fn send_volume_write() {
    let mut t = track("g1");
    t.sends.push(SendState {
        dest_guid: "g2".to_string(),
        volume: 1.0f32.to_bits(),
        pan: 0.0f32.to_bits(),
    });
    let p = project_with(vec![t]);
    let bits = 0.8f32.to_bits();
    assert_eq!(
        dispatch_message(&msg("/track/g1/send/0/volume", vec![WireValue::Float(bits)]), &p),
        DispatchOutcome::Applied(WriteOp::SetSendVolume {
            guid: "g1".to_string(),
            send_index: 0,
            volume: bits,
        })
    );
}

#[test]
fn query_marker_must_be_its_own_segment() {
    let p = project_with(vec![track("g1")]);
    assert_eq!(
        dispatch_message(&msg("/track/g1/mute?", Vec::new()), &p),
        DispatchOutcome::NoMatch
    );
}

#[test]
fn guid_string_all_zero() {
    let g = Guid { data1: 0, data2: 0, data3: 0, data4: [0; 8] };
    assert_eq!(guid_to_string(&g), "00000000-0000-0000-0000-000000000000");
}

#[test]
fn route_error_describe_text() {
    assert_eq!(
        RouteError::GuidNotFound("abc".to_string()).describe(),
        "GUID not found: abc"
    );
    assert_eq!(
        RouteError::ValueNotFound("track name".to_string()).describe(),
        "Value not found: track name"
    );
}

#[test]
fn receiver_error_from_route_error() {
    let e = ReceiverError::from(RouteError::GuidNotFound("g".to_string()));
    assert_eq!(e, ReceiverError::Route(RouteError::GuidNotFound("g".to_string())));
}
