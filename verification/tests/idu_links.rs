use bahyway::heptascript::sumuukin::{
    dispatch_plan, frame_length, next_frame, request_frame, tally_fan_out, FanOutPolicy, FrameStep, RoutingTarget,
};
use bahyway::idu::{
    compose_batch, compose_n_anchors, unique_anchors, CrossTribeLinkState, IduProbeResult, LinkProbeRequest,
    ParticleState,
};

#[test]
fn all_golden_is_gold() {
    let s = compose_n_anchors(&[ParticleState::Golden, ParticleState::Golden]);
    assert_eq!(s, CrossTribeLinkState::Gold);
}

#[test]
fn any_dead_is_gray() {
    let s = compose_n_anchors(&[ParticleState::Golden, ParticleState::Dead]);
    assert_eq!(s, CrossTribeLinkState::Gray);
}

#[test]
fn golden_fuzzy_is_orange() {
    let s = compose_n_anchors(&[ParticleState::Golden, ParticleState::Fuzzy]);
    assert_eq!(s, CrossTribeLinkState::Orange);
}

#[test]
fn empty_anchors_is_gray() {
    let s = compose_n_anchors(&[]);
    assert_eq!(s, CrossTribeLinkState::Gray);
}

#[test]
fn hyperedge_three_anchors() {
    let s = compose_n_anchors(&[ParticleState::Golden, ParticleState::Golden, ParticleState::Fuzzy]);
    assert_eq!(s, CrossTribeLinkState::Orange);
}

#[test]
fn weakest_anchor_decides_whatever_the_order() {
    let a = compose_n_anchors(&[ParticleState::Fuzzy, ParticleState::Dead, ParticleState::Golden]);
    let b = compose_n_anchors(&[ParticleState::Golden, ParticleState::Fuzzy, ParticleState::Dead]);
    assert_eq!(a, CrossTribeLinkState::Gray);
    assert_eq!(a, b);
}

#[test]
fn probe_result_counts_projections() {
    let r = IduProbeResult::from_anchor_states(vec![ParticleState::Golden, ParticleState::Dead]);
    assert_eq!(r.link_state, CrossTribeLinkState::Gray);
    assert_eq!(r.projections_run, 2);
    assert_eq!(r.anchor_states, vec![ParticleState::Golden, ParticleState::Dead]);
}

fn key(b: u8) -> [u8; 16] {
    [b; 16]
}

#[test]
fn shared_anchor_projected_once() {
    let p1 = key(1);
    let p2 = key(2);
    let requests: Vec<LinkProbeRequest> =
        (0..3).map(|i| LinkProbeRequest { link_id: i, anchors: vec![p1, p2] }).collect();
    let keys = unique_anchors(&requests);
    assert_eq!(keys, vec![p1, p2]);
    let states = vec![ParticleState::Golden; keys.len()];
    let res = compose_batch(&requests, &keys, &states);
    assert_eq!(res.links_probed, 3);
    assert_eq!(res.unique_anchors, 2);
    assert_eq!(res.projections_run, 2);
    assert!(res.results.iter().all(|r| r.link_state == CrossTribeLinkState::Gold));
}

#[test]
fn batch_result_reflects_dead_anchor() {
    let p1 = key(1);
    let p2 = key(2);
    let requests = vec![LinkProbeRequest { link_id: 0, anchors: vec![p1, p2] }];
    let keys = unique_anchors(&requests);
    let states: Vec<ParticleState> =
        keys.iter().map(|k| if *k == p2 { ParticleState::Dead } else { ParticleState::Golden }).collect();
    let res = compose_batch(&requests, &keys, &states);
    assert_eq!(res.results[0].link_state, CrossTribeLinkState::Gray);
}

#[test]
fn batch_keeps_link_ids_in_request_order() {
    let requests = vec![
        LinkProbeRequest { link_id: 7, anchors: vec![key(3)] },
        LinkProbeRequest { link_id: 4, anchors: vec![key(3), key(5)] },
        LinkProbeRequest { link_id: 9, anchors: vec![] },
    ];
    let keys = unique_anchors(&requests);
    assert_eq!(keys, vec![key(3), key(5)]);
    let states = vec![ParticleState::Golden, ParticleState::Fuzzy];
    let res = compose_batch(&requests, &keys, &states);
    let ids: Vec<u32> = res.results.iter().map(|r| r.link_id).collect();
    assert_eq!(ids, vec![7, 4, 9]);
    assert_eq!(res.results[0].link_state, CrossTribeLinkState::Gold);
    assert_eq!(res.results[1].link_state, CrossTribeLinkState::Orange);
    assert_eq!(res.results[2].link_state, CrossTribeLinkState::Gray);
}

fn targets() -> Vec<RoutingTarget> {
    vec![
        RoutingTarget { session_id: "s1".into(), host: "10.0.0.1".into(), port: 7001, tribe_id: 1 },
        RoutingTarget { session_id: "s2".into(), host: "10.0.0.2".into(), port: 7002, tribe_id: 2 },
        RoutingTarget { session_id: "s3".into(), host: "10.0.0.3".into(), port: 7003, tribe_id: 3 },
    ]
}

#[test]
fn first_only_plan_keeps_the_first_target() {
    let plan = dispatch_plan(FanOutPolicy::FirstOnly, targets());
    assert_eq!(plan.len(), 1);
    assert_eq!(plan[0].session_id, "s1");
    assert!(dispatch_plan(FanOutPolicy::FirstOnly, vec![]).is_empty());
}

#[test]
fn serial_and_parallel_plans_keep_every_target() {
    for policy in [FanOutPolicy::AllSerial, FanOutPolicy::AllParallel] {
        let plan = dispatch_plan(policy, targets());
        let ids: Vec<&str> = plan.iter().map(|t| t.session_id.as_str()).collect();
        assert_eq!(ids, vec!["s1", "s2", "s3"]);
    }
}

#[test]
fn failed_dispatch_is_counted_and_reported() {
    let r = tally_fan_out(vec![Some("connection refused".to_string())]);
    assert_eq!(r.targets_contacted, 0);
    assert_eq!(r.targets_failed, 1);
    assert_eq!(r.errors, vec!["connection refused".to_string()]);
}

#[test]
fn tally_mixes_successes_and_failures_in_order() {
    let r = tally_fan_out(vec![None, Some("a".to_string()), None, Some("b".to_string())]);
    assert_eq!(r.targets_contacted, 2);
    assert_eq!(r.targets_failed, 2);
    assert_eq!(r.errors, vec!["a".to_string(), "b".to_string()]);
}

#[test]
fn request_frame_prefixes_the_little_endian_length() {
    assert_eq!(request_frame(b"WHO T.E"), vec![7, 0, 0, 0, b'W', b'H', b'O', b' ', b'T', b'.', b'E']);
    assert_eq!(request_frame(b""), vec![0, 0, 0, 0]);
    let long = vec![b'x'; 300];
    let framed = request_frame(&long);
    assert_eq!(&framed[..4], &[44, 1, 0, 0]);
    assert_eq!(framed.len(), 304);
}

#[test]
fn frame_length_reads_little_endian() {
    assert_eq!(frame_length(&[7, 0, 0, 0]), 7);
    assert_eq!(frame_length(&[0x2c, 0x01, 0, 0]), 300);
    assert_eq!(frame_length(&[0xff, 0xff, 0xff, 0xff]), u32::MAX);
    assert_eq!(frame_length(&[0, 0, 0, 1]), 1 << 24);
}

#[test]
fn frames_end_on_empty_refuse_on_err_and_count_otherwise() {
    assert_eq!(next_frame(3, 0, &[]), FrameStep::Finished(3));
    assert_eq!(next_frame(0, 9, b"ERR: nope"), FrameStep::Refused);
    assert_eq!(next_frame(0, 3, b"ERR"), FrameStep::Counted(1));
    assert_eq!(next_frame(4, 5, b"row 1"), FrameStep::Counted(5));
}
