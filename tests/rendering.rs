use fsc_point_cloud::{
    decode, frame_actions, load, plan_frame, AssetStore, Dispatch, DrawCall, FrameAction,
    LoadCase, LoadConfig, LoadState, PipelineStatus, PointCloudNode, RenderEntity,
    ScheduledLoad, SkipReason, ViewInfo,
};
use fsc_point_cloud::render_node::tiles;

fn blob(points: u32) -> Vec<u8> {
    let mut b = vec![0x4f, 0x50, 0x44, 0x43, 1, 0];
    b.extend_from_slice(&points.to_le_bytes());
    for k in 0..points * 3 {
        b.extend_from_slice(&k.to_le_bytes());
    }
    b
}

const READY: PipelineStatus =
    PipelineStatus { raster_ready: true, eye_dome_ready: true, view_bind_group_ready: true };

const VIEW: ViewInfo = ViewInfo { width: 1920, height: 1088, uniform_offset: 256 };

#[test]
fn dispatch_grid_rounds_up() {
    assert_eq!(tiles(1920), 240);
    assert_eq!(tiles(1088), 136);
    assert_eq!(tiles(1921), 241);
    assert_eq!(tiles(7), 1);
    assert_eq!(tiles(0), 0);
    assert_eq!(tiles(u32::MAX), 536_870_912);
}

#[test]
fn full_hd_viewport_dispatch() {
    let store = AssetStore::new();
    let plan = plan_frame(Some(VIEW), READY, &Vec::new(), &store);
    assert_eq!(plan.dispatch, Some(Dispatch { x: 240, y: 136, z: 1 }));
    assert_eq!(plan.uniform_offset, 256);
    assert!(plan.draws.is_empty());
    assert_eq!(plan.skipped, None);
}

#[test]
fn missing_view_plans_nothing() {
    let mut store = AssetStore::new();
    let h = store.insert_direct_gpu(decode(&blob(1)).unwrap());
    store.upload(h);
    let es = vec![RenderEntity { handle: h, point_size: 2 }];
    let plan = plan_frame(None, READY, &es, &store);
    assert!(plan.draws.is_empty());
    assert_eq!(plan.dispatch, None);
    assert_eq!(plan.skipped, Some(SkipReason::MissingView));
}

#[test]
fn missing_pipelines_or_bind_group_plan_nothing() {
    let mut store = AssetStore::new();
    let h = store.insert_direct_gpu(decode(&blob(1)).unwrap());
    store.upload(h);
    let es = vec![RenderEntity { handle: h, point_size: 2 }];
    let none = PipelineStatus { raster_ready: false, eye_dome_ready: false, view_bind_group_ready: false };
    let plan = plan_frame(Some(VIEW), none, &es, &store);
    assert!(plan.draws.is_empty());
    assert_eq!(plan.dispatch, None);
    assert_eq!(plan.skipped, Some(SkipReason::MissingPipeline));
    let no_group = PipelineStatus { view_bind_group_ready: false, ..READY };
    let plan = plan_frame(Some(VIEW), no_group, &es, &store);
    assert!(plan.draws.is_empty());
    assert_eq!(plan.skipped, Some(SkipReason::MissingBindGroup));
}

#[test]
fn entities_not_ready_are_skipped() {
    let mut store = AssetStore::new();
    let pending = store.register_path("p.opd".to_string());
    let resolved = store.insert_resolved(decode(&blob(2)).unwrap());
    let es = vec![
        RenderEntity { handle: pending, point_size: 2 },
        RenderEntity { handle: resolved, point_size: 2 },
        RenderEntity { handle: fsc_point_cloud::Handle::null(), point_size: 2 },
    ];
    let plan = plan_frame(Some(VIEW), READY, &es, &store);
    assert!(plan.draws.is_empty());
    assert_eq!(plan.dispatch, Some(Dispatch { x: 240, y: 136, z: 1 }));
}

#[test]
fn one_point_direct_asset_draws_once() {
    let mut store = AssetStore::new();
    let asset = decode(&blob(1)).unwrap();
    let h = store.insert_direct_gpu(asset);
    assert!(store.upload(h));
    let es = vec![RenderEntity { handle: h, point_size: 2 }];
    let plan = plan_frame(Some(VIEW), READY, &es, &store);
    assert_eq!(plan.draws, vec![DrawCall { bind_group: 0, vertex_count: 4, instance_count: 1 }]);
}

#[test]
fn node_reports_each_cause_once() {
    let store = AssetStore::new();
    let mut node = PointCloudNode::new();
    let none = PipelineStatus { raster_ready: false, eye_dome_ready: true, view_bind_group_ready: true };
    let (plan, report) = node.run(Some(VIEW), none, &Vec::new(), &store);
    assert_eq!(plan.skipped, Some(SkipReason::MissingPipeline));
    assert!(report);
    let (_, report) = node.run(Some(VIEW), none, &Vec::new(), &store);
    assert!(!report);
    let (_, report) = node.run(None, none, &Vec::new(), &store);
    assert!(!report);
    let no_group = PipelineStatus { view_bind_group_ready: false, ..READY };
    let (_, report) = node.run(Some(VIEW), no_group, &Vec::new(), &store);
    assert!(report);
    let (plan, report) = node.run(Some(VIEW), READY, &Vec::new(), &store);
    assert!(!report);
    assert_eq!(plan.skipped, None);
}

#[test]
fn schedule_of_a_delayed_shared_case() {
    let case = LoadCase { direct: false, auto: true, early: true, delay: true, same: true };
    assert!(case.is_valid());
    assert_eq!(
        case.schedule(2, 150),
        vec![
            ScheduledLoad { spawn_frame: 150, source: 0 },
            ScheduledLoad { spawn_frame: 300, source: 0 },
        ]
    );
    let plain = LoadCase { direct: true, auto: false, early: false, delay: false, same: false };
    assert_eq!(
        plain.schedule(2, 150),
        vec![
            ScheduledLoad { spawn_frame: 150, source: 0 },
            ScheduledLoad { spawn_frame: 150, source: 1 },
        ]
    );
    assert!(!LoadCase { direct: true, auto: true, early: false, delay: false, same: false }.is_valid());
}

#[test]
fn frame_actions_follow_the_schedule() {
    let cfg = |early: bool, delay: u64| LoadConfig {
        direct: false,
        auto: true,
        early,
        delay,
        name: "replay0.opd".to_string(),
    };
    let configs = vec![cfg(true, 150), cfg(false, 300)];
    assert_eq!(frame_actions(&configs, 1), vec![FrameAction::LoadEarly(0)]);
    assert_eq!(frame_actions(&configs, 2), vec![]);
    assert_eq!(frame_actions(&configs, 150), vec![FrameAction::SpawnHeld(0)]);
    assert_eq!(frame_actions(&configs, 300), vec![FrameAction::LoadAndSpawn(1)]);
    assert_eq!(frame_actions(&configs, 750), vec![FrameAction::Exit]);
    assert_eq!(frame_actions(&Vec::new(), 1), vec![]);
}

#[test]
fn early_delayed_same_path_managed_store() {
    let configs: Vec<LoadConfig> = LoadCase { direct: false, auto: true, early: true, delay: true, same: true }
        .schedule(2, 3)
        .iter()
        .map(|s| LoadConfig {
            direct: false,
            auto: true,
            early: true,
            delay: s.spawn_frame,
            name: format!("replay{}.opd", s.source),
        })
        .collect();
    let bytes = blob(3);
    let mut store = AssetStore::new();
    let mut held = vec![fsc_point_cloud::Handle::null(); configs.len()];
    let mut entities: Vec<RenderEntity> = Vec::new();
    let mut node = PointCloudNode::new();
    let mut frame: u64 = 1;
    let mut exited = false;
    while !exited && frame < 100 {
        for action in frame_actions(&configs, frame) {
            match action {
                FrameAction::LoadEarly(i) => held[i] = load(&mut store, &configs[i], &[]),
                FrameAction::SpawnHeld(i) => {
                    assert_eq!(store.complete_load(held[i], &bytes), LoadState::Resolved);
                    entities.push(RenderEntity { handle: held[i], point_size: 2 });
                }
                FrameAction::LoadAndSpawn(i) => {
                    let h = load(&mut store, &configs[i], &[]);
                    entities.push(RenderEntity { handle: h, point_size: 2 });
                }
                FrameAction::Exit => exited = true,
            }
        }
        store.upload_ready();
        let (plan, _) = node.run(Some(VIEW), READY, &entities, &store);
        assert_eq!(plan.draws.len(), entities.len());
        for d in &plan.draws {
            assert_eq!(d.instance_count, 3);
            assert_eq!(d.vertex_count, 4);
        }
        frame += 1;
    }
    assert!(exited);
    assert_eq!(frame, 16);
    assert_eq!(entities.len(), 2);
    assert_ne!(held[0], held[1]);
    assert_eq!(store.resource_count(), 2);
}

#[test]
fn case_matrix_lists_each_valid_combination_once() {
    let all = LoadCase::all_valid();
    assert_eq!(all.len(), 24);
    for (i, c) in all.iter().enumerate() {
        assert!(c.is_valid());
        for d in &all[i + 1..] {
            assert_ne!(c, d);
        }
    }
    assert_eq!(all[0], LoadCase { direct: false, auto: false, early: false, delay: false, same: false });
    assert_eq!(all[15], LoadCase { direct: false, auto: true, early: true, delay: true, same: true });
    assert_eq!(all[23], LoadCase { direct: true, auto: false, early: true, delay: true, same: true });
}
