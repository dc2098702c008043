use classql::data::pool::DbConfig;
use classql::data::sql::{format_days, format_time_short, get_default_db_path, get_test_db_path, unique_id};
use classql::data::sync::{get_synced_db_path, is_synced, SyncConfig};

#[test]
fn database_locations() {
    assert_eq!(DbConfig::new().get_path(), "src/data/classes.db");
    assert_eq!(DbConfig::with_path("x.db".to_string()).db_path, "x.db");
    assert_eq!(get_test_db_path(Some("/srv/app".to_string()), None), "/srv/app/classy/test.db");
    assert_eq!(get_test_db_path(None, Some("/home/u/".to_string())), "/home/u/classy/test.db");
    assert_eq!(get_test_db_path(None, None), "./classy/test.db");
    assert_eq!(get_default_db_path("a.db".to_string(), true, "b.db".to_string()), "a.db");
    assert_eq!(get_default_db_path("a.db".to_string(), false, "b.db".to_string()), "b.db");
}

#[test]
fn sync_settings_default_and_parse() {
    let config = SyncConfig::from_values(None, None, "db".to_string()).expect("defaults are valid");
    assert_eq!(config.server_url, "http://localhost");
    assert_eq!(config.server_port, 8080);
    assert_eq!(config.server_url_with_port(), "http://localhost:8080");
    assert_eq!(config.all_sync_endpoint(None), "http://localhost:8080/sync/all");
    assert_eq!(config.all_sync_endpoint(Some("http://x/y".to_string())), "http://x/y");
    let config = SyncConfig::from_values(Some("https://c.edu".to_string()), Some("+8080".to_string()), "db".to_string())
        .expect("valid port");
    assert_eq!(config.server_url_with_port(), "https://c.edu:8080");
    for bad in ["abc", "-1", "65536", ""] {
        assert_eq!(
            SyncConfig::from_values(None, Some(bad.to_string()), "db".to_string()).err(),
            Some("Invalid CLASSY_SERVER_PORT in .env file".to_string())
        );
    }
}

#[test]
fn synced_database() {
    let config = SyncConfig::from_values(None, None, "/data/classes.db".to_string()).unwrap();
    assert_eq!(get_synced_db_path(Some(&config), "/m"), "/data/classes.db");
    assert_eq!(get_synced_db_path(None, "/m"), "/m/classy/classes.db");
    assert!(is_synced(true, Some(10)));
    assert!(!is_synced(true, Some(0)));
    assert!(!is_synced(true, None));
    assert!(!is_synced(false, Some(10)));
}

#[test]
fn class_display_helpers() {
    assert_eq!(unique_id("CS", "101", "001"), "CS:101-001");
    assert_eq!(format_time_short("08:00:00"), "8:00am");
    assert_eq!(format_time_short("13:05:00"), "1:05pm");
    assert_eq!(format_time_short("00:30:00"), "12:30am");
    assert_eq!(format_time_short("12:00:00"), "12:00pm");
    assert_eq!(format_time_short("9:5"), "9:05am");
    assert_eq!(format_time_short("noon"), "noon");
    assert_eq!(format_days(true, false, true, true, false, false, false), "MWTH");
    assert_eq!(format_days(false, true, false, false, true, true, true), "TFSSU");
    assert_eq!(format_days(false, false, false, false, false, false, false), "TBA");
}

#[test]
fn the_synced_database_has_one_place() {
    use_sync_paths();
}

fn use_sync_paths() {
    let config = classql::data::sync::SyncConfig::from_settings(None, Some("9000".to_string()), "/m").expect("valid");
    assert_eq!(config.db_path, "/m/classy/classes.db");
    assert_eq!(config.server_port, 9000);
    assert_eq!(classql::data::sync::get_synced_db_path(Some(&config), "/m"), "/m/classy/classes.db");
    assert_eq!(classql::data::sync::get_synced_db_path(None, "/m"), "/m/classy/classes.db");
    assert!(classql::data::sync::SyncConfig::from_settings(None, Some("x".to_string()), "/m").is_err());
}
