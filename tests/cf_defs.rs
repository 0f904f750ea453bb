use engine_traits::cf_defs::{
    name_to_cf, name_to_rawkv_cf, set_safe_rawkv, str_eq, RawKvMode, ALL_CFS, ALL_DATA_CFS,
    CF_DEFAULT, CF_LOCK, CF_RAFT, CF_RAW_DEFAULT, CF_RAW_LOCK, CF_RAW_WRITE, CF_VER_DEFAULT,
    CF_WRITE, LARGE_CFS, RAW_DATA_CFS, RAW_DATA_CFS_MAPPING, TXN_DATA_CFS,
};

#[test]
fn test_name_to_rawkv_cf() {
    let mut mode = RawKvMode::default();
    set_safe_rawkv(&mut mode, true);
    assert_eq!(name_to_rawkv_cf(mode, ""), Some(CF_RAW_DEFAULT));
    assert_eq!(name_to_rawkv_cf(mode, CF_DEFAULT), Some(CF_RAW_DEFAULT));
    set_safe_rawkv(&mut mode, false);
    assert_eq!(name_to_rawkv_cf(mode, ""), Some(CF_DEFAULT));
    assert_eq!(name_to_rawkv_cf(mode, CF_DEFAULT), Some(CF_DEFAULT));
    assert_eq!(name_to_rawkv_cf(mode, CF_LOCK), Some(CF_LOCK));
    assert_eq!(name_to_rawkv_cf(mode, CF_WRITE), Some(CF_WRITE));
}

#[test]
fn name_to_cf_resolves_every_registered_cf() {
    for n in ALL_CFS {
        assert_eq!(name_to_cf(n), Some(n));
    }
}

#[test]
fn name_to_cf_returns_the_registry_constant() {
    let owned = String::from("raft");
    let r = name_to_cf(&owned).unwrap();
    assert_eq!(r, CF_RAFT);
    assert!(std::ptr::eq(r, CF_RAFT));
}

#[test]
fn name_to_cf_empty_is_default() {
    assert_eq!(name_to_cf(""), Some(CF_DEFAULT));
}

#[test]
fn name_to_cf_unknown_is_none() {
    assert_eq!(name_to_cf("not-a-cf"), None);
    assert_eq!(name_to_cf(CF_VER_DEFAULT), None);
    assert_eq!(name_to_cf("Default"), None);
    assert_eq!(name_to_cf("defaults"), None);
    assert_eq!(name_to_cf("lock "), None);
}

#[test]
fn mode_starts_unsafe() {
    let mode = RawKvMode::default();
    assert_eq!(mode, RawKvMode::Unsafe);
    assert!(!mode.is_safe());
    assert_eq!(name_to_rawkv_cf(mode, ""), Some(CF_DEFAULT));
}

#[test]
fn unsafe_mode_resolution() {
    let mut mode = RawKvMode::Safe;
    set_safe_rawkv(&mut mode, false);
    assert!(!mode.is_safe());
    assert_eq!(name_to_rawkv_cf(mode, ""), Some(CF_DEFAULT));
    assert_eq!(name_to_rawkv_cf(mode, "lock"), Some("lock"));
    assert_eq!(name_to_rawkv_cf(mode, "write"), Some("write"));
    assert_eq!(name_to_rawkv_cf(mode, "raft"), None);
    assert_eq!(name_to_rawkv_cf(mode, CF_RAW_DEFAULT), None);
}

#[test]
fn safe_mode_resolution() {
    let mut mode = RawKvMode::Unsafe;
    set_safe_rawkv(&mut mode, true);
    assert!(mode.is_safe());
    assert_eq!(name_to_rawkv_cf(mode, ""), Some(CF_RAW_DEFAULT));
    assert_eq!(name_to_rawkv_cf(mode, "default"), Some(CF_RAW_DEFAULT));
    assert_eq!(name_to_rawkv_cf(mode, "lock"), Some(CF_RAW_LOCK));
    assert_eq!(name_to_rawkv_cf(mode, "write"), Some(CF_RAW_WRITE));
    assert_eq!(name_to_rawkv_cf(mode, "raw_default"), None);
    assert_eq!(name_to_rawkv_cf(mode, CF_RAFT), None);
    assert_eq!(name_to_rawkv_cf(mode, "not-a-cf"), None);
}

#[test]
fn switching_back_restores_unsafe_results() {
    let mut mode = RawKvMode::default();
    let names = ["", "default", "lock", "write", "raft", "raw_default", "raw_lock", "x"];
    let before: Vec<_> = names.iter().map(|n| name_to_rawkv_cf(mode, n)).collect();
    set_safe_rawkv(&mut mode, true);
    assert_eq!(name_to_rawkv_cf(mode, "write"), Some(CF_RAW_WRITE));
    set_safe_rawkv(&mut mode, false);
    let after: Vec<_> = names.iter().map(|n| name_to_rawkv_cf(mode, n)).collect();
    assert_eq!(before, after);
}

#[test]
fn repeated_switch_is_idempotent() {
    let names = ["", "default", "lock", "write", "raft", "raw_write"];
    for safe in [false, true] {
        let mut once = RawKvMode::default();
        set_safe_rawkv(&mut once, safe);
        let mut twice = once;
        set_safe_rawkv(&mut twice, safe);
        assert_eq!(once, twice);
        for n in names {
            assert_eq!(name_to_rawkv_cf(once, n), name_to_rawkv_cf(twice, n));
        }
    }
}

#[test]
fn raw_mapping_is_a_bijection() {
    let sources: Vec<_> = RAW_DATA_CFS_MAPPING.iter().map(|p| p.0).collect();
    let targets: Vec<_> = RAW_DATA_CFS_MAPPING.iter().map(|p| p.1).collect();
    assert_eq!(sources, TXN_DATA_CFS.to_vec());
    assert_eq!(targets, RAW_DATA_CFS.to_vec());
}

#[test]
fn registry_sets_are_within_all_cfs() {
    for set in [&LARGE_CFS[..], &TXN_DATA_CFS[..], &RAW_DATA_CFS[..], &ALL_DATA_CFS[..]] {
        for n in set {
            assert!(ALL_CFS.contains(n));
        }
    }
    assert!(!LARGE_CFS.contains(&CF_RAFT));
    assert!(!ALL_DATA_CFS.contains(&CF_RAFT));
    for (i, a) in ALL_CFS.iter().enumerate() {
        for (j, b) in ALL_CFS.iter().enumerate() {
            assert_eq!(i == j, a == b);
        }
    }
}

#[test]
fn str_eq_compares_text() {
    assert!(str_eq("lock", "lock"));
    assert!(str_eq("", ""));
    assert!(!str_eq("lock", "locks"));
    assert!(!str_eq("lock", "lack"));
    assert!(str_eq("raw_défaut", "raw_défaut"));
    assert!(!str_eq("é", "e"));
}
