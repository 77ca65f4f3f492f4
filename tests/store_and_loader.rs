use fsc_point_cloud::{
    load, select_load_path, try_load, AssetStore, ConfigError, DecodeError, GpuPointCloud,
    Handle, LoadConfig, LoadPath, LoadState,
};

fn blob(points: u32) -> Vec<u8> {
    let mut b = vec![0x4f, 0x50, 0x44, 0x43, 1, 0];
    b.extend_from_slice(&points.to_le_bytes());
    for k in 0..points * 3 {
        b.extend_from_slice(&k.to_le_bytes());
    }
    b
}

fn config(direct: bool, auto: bool, early: bool, delay: u64, name: &str) -> LoadConfig {
    LoadConfig { direct, auto, early, delay, name: name.to_string() }
}

#[test]
fn null_handle_is_unregistered() {
    let store = AssetStore::new();
    assert!(Handle::null().is_null());
    assert!(Handle::default().is_null());
    assert_eq!(store.poll(Handle::null()), LoadState::Unregistered);
    assert_eq!(store.gpu_resource(Handle::null()), None);
    assert_eq!(store.len(), 0);
}

#[test]
fn registered_path_is_pending_until_completed() {
    let mut store = AssetStore::new();
    let h = store.register_path("replay0.opd".to_string());
    assert!(!h.is_null());
    assert_eq!(store.poll(h), LoadState::Pending);
    assert!(!store.upload(h));
    assert_eq!(store.complete_load(h, &blob(2)), LoadState::Resolved);
    assert_eq!(store.poll(h), LoadState::Resolved);
}

#[test]
fn failed_load_is_terminal() {
    let mut store = AssetStore::new();
    let h = store.register_path("broken.opd".to_string());
    assert_eq!(store.complete_load(h, &[1, 2, 3]), LoadState::Failed(DecodeError::TruncatedInput));
    assert_eq!(store.complete_load(h, &blob(1)), LoadState::Failed(DecodeError::TruncatedInput));
    assert!(!store.upload(h));
    assert_eq!(store.upload_ready(), 0);
    assert_eq!(store.poll(h), LoadState::Failed(DecodeError::TruncatedInput));
}

#[test]
fn resolved_state_never_changes() {
    let mut store = AssetStore::new();
    let h = store.register_path("a.opd".to_string());
    assert_eq!(store.complete_load(h, &blob(3)), LoadState::Resolved);
    assert_eq!(store.complete_load(h, &[0]), LoadState::Resolved);
    assert!(store.upload(h));
    assert_eq!(store.complete_load(h, &[0]), LoadState::Resolved);
    assert_eq!(store.gpu_resource(h), Some(GpuPointCloud { bind_group: 0, num_points: 3 }));
}

#[test]
fn upload_happens_once_per_entry() {
    let mut store = AssetStore::new();
    let other = store.register_path("pending.opd".to_string());
    let h = store.insert_resolved(fsc_point_cloud::decode(&blob(4)).unwrap());
    assert!(store.upload(h));
    assert!(!store.upload(h));
    assert_eq!(store.upload_ready(), 0);
    assert_eq!(store.resource_count(), 1);
    assert_eq!(store.gpu_resource(h), Some(GpuPointCloud { bind_group: 1, num_points: 4 }));
    assert_eq!(store.gpu_resource(other), None);
}

#[test]
fn same_path_registered_twice_uploads_twice() {
    let mut store = AssetStore::new();
    let c = config(false, true, true, 10, "replay0.opd");
    let a = load(&mut store, &c, &[]);
    let b = load(&mut store, &c, &[]);
    assert_ne!(a, b);
    assert_eq!(store.len(), 2);
    store.complete_load(a, &blob(1));
    store.complete_load(b, &blob(1));
    assert_eq!(store.upload_ready(), 2);
    assert_eq!(store.resource_count(), 2);
    assert_ne!(store.gpu_resource(a), store.gpu_resource(b));
}

#[test]
fn load_path_table() {
    assert_eq!(select_load_path(&config(false, true, false, 1, "p")), Ok(LoadPath::Registered));
    assert_eq!(select_load_path(&config(false, false, false, 1, "p")), Ok(LoadPath::Manual));
    assert_eq!(select_load_path(&config(true, false, false, 1, "p")), Ok(LoadPath::ManualDirect));
    assert_eq!(
        select_load_path(&config(true, true, false, 1, "p")),
        Err(ConfigError::InvalidConfiguration)
    );
}

#[test]
fn every_valid_config_gives_a_handle_at_once() {
    let bytes = blob(1);
    for direct in [false, true] {
        for auto in [false, true] {
            for early in [false, true] {
                for delay in [0u64, 150] {
                    let mut store = AssetStore::new();
                    let c = config(direct, auto, early, delay, "replay0.opd");
                    let r = try_load(&mut store, &c, &bytes);
                    if auto && direct {
                        assert_eq!(r, Err(ConfigError::InvalidConfiguration));
                        assert_eq!(store.len(), 0);
                    } else {
                        let h = r.unwrap();
                        assert!(!h.is_null());
                        let expected = if auto { LoadState::Pending } else { LoadState::Resolved };
                        assert_eq!(store.poll(h), expected);
                    }
                }
            }
        }
    }
}

#[test]
fn manual_load_of_bad_bytes_fails_for_good() {
    let mut store = AssetStore::new();
    let h = load(&mut store, &config(false, false, false, 1, "bad.opd"), &[0x4f, 0x50, 0x44, 0x43, 1, 9, 0, 0, 0, 0]);
    assert!(!h.is_null());
    assert_eq!(store.poll(h), LoadState::Failed(DecodeError::UnsupportedAttributeLayout));
}

#[test]
fn direct_insert_is_resolved_and_uploadable() {
    let mut store = AssetStore::new();
    let h = load(&mut store, &config(true, false, false, 1, "d.opd"), &blob(5));
    assert_eq!(store.poll(h), LoadState::Resolved);
    assert!(store.upload(h));
    assert_eq!(store.gpu_resource(h), Some(GpuPointCloud { bind_group: 0, num_points: 5 }));
}
