use podfetch::dbconfig::{get_database_url, ConnectionOptions, SessionState};

fn fresh() -> SessionState {
    SessionState { journal_wal: false, synchronous_normal: false, foreign_keys: false, busy_timeout: None }
}

#[test]
fn all_pragmas_in_order() {
    let o = ConnectionOptions { enable_wal: true, enable_foreign_keys: true, busy_timeout: Some(30000) };
    assert_eq!(
        o.pragma_statements(),
        vec![
            "PRAGMA journal_mode = WAL; PRAGMA synchronous = NORMAL;".to_string(),
            "PRAGMA foreign_keys = ON;".to_string(),
            "PRAGMA busy_timeout = 30000;".to_string(),
        ]
    );
}

#[test]
fn no_pragmas_without_options() {
    let o = ConnectionOptions { enable_wal: false, enable_foreign_keys: false, busy_timeout: None };
    assert!(o.pragma_statements().is_empty());
    let o = ConnectionOptions { enable_wal: false, enable_foreign_keys: false, busy_timeout: Some(0) };
    assert_eq!(o.pragma_statements(), vec!["PRAGMA busy_timeout = 0;".to_string()]);
}

#[test]
fn tuning_twice_is_tuning_once() {
    let o = ConnectionOptions { enable_wal: true, enable_foreign_keys: false, busy_timeout: Some(5000) };
    let once = o.tune(fresh());
    let twice = o.tune(o.tune(fresh()));
    assert!(once == twice);
    assert!(once.journal_wal && once.synchronous_normal && !once.foreign_keys);
    assert_eq!(once.busy_timeout, Some(5000));
}

#[test]
fn database_url_falls_back_to_local_file() {
    assert_eq!(get_database_url(None), "sqlite://./db/podcast.db");
    assert_eq!(get_database_url(Some("postgres://db".to_string())), "postgres://db");
}

#[test]
fn foreign_keys_only() {
    let o = ConnectionOptions { enable_wal: false, enable_foreign_keys: true, busy_timeout: None };
    assert_eq!(o.pragma_statements(), vec!["PRAGMA foreign_keys = ON;".to_string()]);
    let s = o.tune(fresh());
    assert!(s.foreign_keys && !s.journal_wal && s.busy_timeout.is_none());
}
