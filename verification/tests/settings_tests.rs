use rtuinventory::settings::{Settings, MAX_RECENT};

#[test]
fn test_settings_set_database_path() {
    let mut settings = Settings::default();
    settings.set_database_path("test.db".to_string());

    assert_eq!(settings.database.path, "test.db");
    assert_eq!(settings.database.recent.len(), 2);
    assert_eq!(settings.database.recent[0], "test.db");
}

#[test]
fn test_settings_recent_paths_limit() {
    let mut settings = Settings::default();
    // Add more than 10 paths to test limit
    for i in 0..15 {
        settings.set_database_path(format!("db{}.db", i));
    }

    assert_eq!(settings.database.recent.len(), 10);
    // Most recent should be first
    assert_eq!(settings.database.recent[0], "db14.db");
}

#[test]
fn settings_default_values() {
    let settings = Settings::default();
    assert_eq!(settings.database.path, "inventory.sqlite3");
    assert_eq!(settings.database.recent.len(), 1);
    assert_eq!(settings.database.recent[0], "inventory.sqlite3");
    assert_eq!(settings.get_database_path(), "inventory.sqlite3");
}

#[test]
fn settings_recent_paths_move_to_front() {
    let mut settings = Settings::default();
    assert_eq!(settings.get_database_path(), "inventory.sqlite3");
    assert_eq!(settings.database.recent, vec!["inventory.sqlite3".to_string()]);

    settings.set_database_path("db1.sqlite3".to_string());
    settings.set_database_path("db2.sqlite3".to_string());
    settings.set_database_path("db1.sqlite3".to_string());

    assert_eq!(settings.get_database_path(), "db1.sqlite3");
    assert_eq!(
        settings.database.recent,
        vec![
            "db1.sqlite3".to_string(),
            "db2.sqlite3".to_string(),
            "inventory.sqlite3".to_string()
        ]
    );
}

#[test]
fn settings_choosing_twice_is_choosing_once() {
    let mut once = Settings::default();
    once.set_database_path("a.db".to_string());
    once.set_database_path("b.db".to_string());
    let mut twice = once.clone();
    once.set_database_path("a.db".to_string());
    twice.set_database_path("a.db".to_string());
    twice.set_database_path("a.db".to_string());
    assert_eq!(once.database.recent, twice.database.recent);
    assert_eq!(once.database.path, twice.database.path);
    assert_eq!(once.database.recent, vec!["a.db".to_string(), "b.db".to_string(), "inventory.sqlite3".to_string()]);
}

#[test]
fn settings_full_list_drops_oldest() {
    let mut settings = Settings::default();
    for i in 0..9 {
        settings.set_database_path(format!("db{}.db", i));
    }
    assert_eq!(settings.database.recent.len(), MAX_RECENT);
    assert_eq!(settings.database.recent[9], "inventory.sqlite3");
    settings.set_database_path("new.db".to_string());
    assert_eq!(settings.database.recent.len(), MAX_RECENT);
    assert_eq!(settings.database.recent[0], "new.db");
    assert!(!settings.database.recent.contains(&"inventory.sqlite3".to_string()));
    assert_eq!(settings.database.recent[9], "db0.db");
    // A known path moves to the front without dropping anything.
    settings.set_database_path("db3.db".to_string());
    assert_eq!(settings.database.recent.len(), MAX_RECENT);
    assert_eq!(settings.database.recent[0], "db3.db");
    assert_eq!(settings.database.recent[1], "new.db");
    assert_eq!(settings.database.recent[9], "db0.db");
}

#[test]
fn settings_overfull_list_loaded_from_elsewhere_drops_one() {
    let mut settings = Settings::default();
    settings.database.recent = (0..12).map(|i| format!("p{}", i)).collect();
    settings.set_database_path("x".to_string());
    assert_eq!(settings.database.recent.len(), 12);
    assert_eq!(settings.database.recent[0], "x");
    assert_eq!(settings.database.recent[11], "p10");
}

#[test]
fn settings_duplicates_collapse_on_choice() {
    let mut settings = Settings::default();
    settings.database.recent = vec!["a".to_string(), "b".to_string(), "a".to_string()];
    settings.set_database_path("a".to_string());
    assert_eq!(settings.database.recent, vec!["a".to_string(), "b".to_string()]);
}
