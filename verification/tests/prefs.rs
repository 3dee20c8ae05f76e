use app_prefs::store::AppPrefs;
use preferences::AppInfo;

#[test]
fn test_app_prefs_new() {
    let app_info = AppInfo {
        name: "test_app",
        author: "test_org",
    };
    let app_prefs = AppPrefs::new(app_info.clone());
    assert_eq!(app_prefs.app_info, app_info);
}

#[test]
fn test_get_string() {
    let app_info = AppInfo {
        name: "test_app",
        author: "test_org",
    };
    let mut app_prefs = AppPrefs::new(app_info);
    app_prefs
        .set_string("key1".to_string(), "value1".to_string())
        .expect("Failed to save preferences");
    assert_eq!(
        app_prefs.get_string("key1".to_string()),
        Some("value1".to_string())
    );
    assert_eq!(app_prefs.get_string("key2".to_string()), None);
}

#[test]
fn test_set_string() {
    let app_info = AppInfo {
        name: "test_app",
        author: "test_org",
    };
    let mut app_prefs = AppPrefs::new(app_info);
    app_prefs
        .set_string("key1".to_string(), "value1".to_string())
        .expect("Failed to save preferences");
    assert_eq!(
        app_prefs.get_string("key1".to_string()),
        Some("value1".to_string())
    );
    app_prefs
        .set_string("key1".to_string(), "value2".to_string())
        .expect("Failed to save preferences");
    assert_eq!(
        app_prefs.get_string("key1".to_string()),
        Some("value2".to_string())
    );
}

#[test]
fn test_end_to_end() {
    let app_info = AppInfo {
        name: "test_app",
        author: "test_org",
    };
    let mut app_prefs = AppPrefs::new(app_info);
    app_prefs
        .set_string("key1".to_string(), "value1".to_string())
        .expect("Failed to save preferences");
    assert_eq!(
        app_prefs.get_string("key1".to_string()),
        Some("value1".to_string())
    );
    assert_eq!(app_prefs.get_string("key2".to_string()), None);
    app_prefs
        .set_string("key1".to_string(), "value2".to_string())
        .expect("Failed to save preferences");
    assert_eq!(
        app_prefs.get_string("key1".to_string()),
        Some("value2".to_string())
    );
}
