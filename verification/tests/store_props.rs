use app_prefs::store::AppPrefs;
use preferences::AppInfo;

fn props_identity() -> AppInfo {
    AppInfo {
        name: "app_prefs_props",
        author: "app_prefs_tests",
    }
}

#[test]
fn test_round_trip_pairs() {
    let mut prefs = AppPrefs::from_entries(props_identity(), Vec::new());
    let pairs = [("rt_a", "1"), ("rt_b", "two"), ("rt_c", ""), ("", "empty key")];
    for (k, v) in pairs.iter() {
        prefs.set_string(k.to_string(), v.to_string()).expect("save failed");
        assert_eq!(prefs.get_string(k.to_string()), Some(v.to_string()));
    }
}

#[test]
fn test_unset_key_none() {
    let entries = vec![
        ("present".to_string(), "yes".to_string()),
        ("also_present".to_string(), "yes".to_string()),
    ];
    let prefs = AppPrefs::from_entries(props_identity(), entries);
    assert_eq!(prefs.get_string("never_set".to_string()), None);
    assert_eq!(prefs.get_string("".to_string()), None);
}

#[test]
fn test_overwrite_last_write_wins() {
    let mut prefs = AppPrefs::from_entries(props_identity(), Vec::new());
    prefs.set_string("key2".to_string(), "other".to_string()).expect("save failed");
    prefs.set_string("key1".to_string(), "value1".to_string()).expect("save failed");
    prefs.set_string("key1".to_string(), "value2".to_string()).expect("save failed");
    assert_eq!(prefs.get_string("key1".to_string()), Some("value2".to_string()));
    assert_eq!(prefs.get_string("key2".to_string()), Some("other".to_string()));
}

#[test]
fn test_set_idempotent() {
    let mut prefs = AppPrefs::from_entries(props_identity(), Vec::new());
    prefs.set_string("idem".to_string(), "same".to_string()).expect("save failed");
    prefs.set_string("idem".to_string(), "same".to_string()).expect("save failed");
    assert_eq!(prefs.get_string("idem".to_string()), Some("same".to_string()));
}

#[test]
fn test_fresh_store_empty() {
    let no_entries = AppPrefs::from_entries(props_identity(), Vec::new());
    assert_eq!(no_entries.get_string("anything".to_string()), None);
    assert_eq!(no_entries.get_string("key1".to_string()), None);

    // An identity nothing was ever saved under: loading finds no prior data
    // and the store starts empty.
    let fresh = AppPrefs::new(AppInfo {
        name: "app_prefs_fresh_id",
        author: "app_prefs_tests",
    });
    assert_eq!(fresh.get_string("anything".to_string()), None);
}

#[test]
fn test_distinct_keys_all_kept() {
    let mut prefs = AppPrefs::from_entries(
        AppInfo {
            name: "app_prefs_many",
            author: "app_prefs_tests",
        },
        Vec::new(),
    );
    for i in 0..100 {
        prefs
            .set_string(format!("key{}", i), format!("value{}", i))
            .expect("save failed");
    }
    for i in 0..100 {
        assert_eq!(
            prefs.get_string(format!("key{}", i)),
            Some(format!("value{}", i))
        );
    }
}

#[test]
fn test_from_entries_last_wins() {
    let entries = vec![
        ("dup".to_string(), "first".to_string()),
        ("single".to_string(), "only".to_string()),
        ("dup".to_string(), "second".to_string()),
    ];
    let prefs = AppPrefs::from_entries(props_identity(), entries);
    assert_eq!(prefs.get_string("dup".to_string()), Some("second".to_string()));
    assert_eq!(prefs.get_string("single".to_string()), Some("only".to_string()));
}

#[test]
fn test_persistence_round_trip() {
    let identity = AppInfo {
        name: "app_prefs_persist",
        author: "app_prefs_tests",
    };
    let mut first = AppPrefs::new(identity.clone());
    first
        .set_string("persisted".to_string(), "v1".to_string())
        .expect("save failed");
    assert_eq!(first.get_string("persisted".to_string()), Some("v1".to_string()));

    let mut second = AppPrefs::new(identity.clone());
    assert_eq!(second.get_string("persisted".to_string()), Some("v1".to_string()));
    second
        .set_string("persisted".to_string(), "v2".to_string())
        .expect("save failed");

    let third = AppPrefs::new(identity);
    assert_eq!(third.get_string("persisted".to_string()), Some("v2".to_string()));
}
