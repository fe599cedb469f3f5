use podfetch::settings::{ConfigModel, Setting, DEFAULT_AUTO_CLEANUP_DAYS, DEFAULT_PODCAST_PREFILL};

#[test]
fn default_settings_singleton() {
    let mut rows: Vec<Setting> = vec![];
    assert!(Setting::get_settings(&rows).is_none());
    Setting::insert_default_settings(&mut rows).unwrap();
    assert_eq!(rows.len(), 1);
    let s = Setting::get_settings(&rows).unwrap();
    assert_eq!(s.id, 1);
    assert!(s.auto_download);
    assert!(s.auto_update);
    assert!(!s.auto_cleanup);
    assert_eq!(s.auto_cleanup_days, 30);
    assert_eq!(DEFAULT_AUTO_CLEANUP_DAYS, 30);
    assert_eq!(s.podcast_prefill, 5);
    assert_eq!(DEFAULT_PODCAST_PREFILL, 5);
    assert!(s.replace_invalid_characters);
    assert!(!s.use_existing_filename);
    assert_eq!(s.replacement_strategy, "replace-with-dash-and-underscore");
    assert_eq!(s.episode_format, "{}");
    assert_eq!(s.podcast_format, "{}");
}

#[test]
fn default_settings_cannot_be_inserted_twice() {
    let mut rows: Vec<Setting> = vec![];
    Setting::insert_default_settings(&mut rows).unwrap();
    assert!(Setting::insert_default_settings(&mut rows).is_err());
    assert_eq!(rows.len(), 1);
}

#[test]
fn update_settings_replaces_the_row() {
    let mut empty: Vec<Setting> = vec![];
    assert!(Setting::update_settings(Setting::default_settings(), &mut empty).is_none());
    assert!(empty.is_empty());
    let mut rows = vec![Setting::default_settings()];
    let mut changed = Setting::default_settings();
    changed.auto_cleanup = true;
    changed.auto_cleanup_days = 7;
    changed.id = 7;
    let r = Setting::update_settings(changed, &mut rows).unwrap();
    assert_eq!(r.id, 1);
    assert_eq!(rows[0].id, 1);
    assert!(r.auto_cleanup);
    assert_eq!(rows[0].auto_cleanup_days, 7);
    assert_eq!(rows.len(), 1);
}

#[test]
fn config_model_holds_values() {
    let c = ConfigModel {
        podindex_configured: false,
        rss_feed: "http://host/rss".to_string(),
        server_url: "http://host/".to_string(),
        basic_auth: true,
        oidc_configured: false,
        oidc_config: None,
    };
    assert!(c.basic_auth && c.oidc_config.is_none());
}
