use clipi::config::{
    clamp_u32, config_file_path, default_db_path, default_max_db_mb, default_max_entries,
    join_path, save_plan, settings_after_load, app_dir_from, SavePlan, Settings,
};

fn settings(max_entries: u32, max_db_mb: u32, db_path: &str) -> Settings {
    Settings { max_entries, max_db_mb, db_path: db_path.to_string() }
}

#[test]
fn defaults_match_the_readme() {
    assert_eq!(default_max_entries(), 500);
    assert_eq!(default_max_db_mb(), 80);
    let s = Settings::default();
    assert_eq!(s.max_entries, 500);
    assert_eq!(s.max_db_mb, 80);
    assert!(s.db_path.ends_with("clipi.db"));
}

#[test]
fn sanitize_clamps_low_values() {
    let mut s = settings(0, 1, "x.db");
    s.sanitize();
    assert_eq!(s.max_entries, 10);
    assert_eq!(s.max_db_mb, 8);
    assert_eq!(s.db_path, "x.db");
}

#[test]
fn sanitize_clamps_high_values() {
    let mut s = settings(1_000_000, 4096, "x.db");
    s.sanitize();
    assert_eq!(s.max_entries, 10_000);
    assert_eq!(s.max_db_mb, 512);
}

#[test]
fn sanitize_keeps_values_in_range() {
    let mut s = settings(123, 64, "x.db");
    s.sanitize();
    assert_eq!(s.max_entries, 123);
    assert_eq!(s.max_db_mb, 64);
    let mut t = settings(123, 64, "x.db");
    t.sanitize();
    t.sanitize();
    assert_eq!(t.max_entries, s.max_entries);
    assert_eq!(t.max_db_mb, s.max_db_mb);
}

#[test]
fn sanitized_copy_leaves_original() {
    let s = settings(3, 9999, "y.db");
    let c = s.sanitized();
    assert_eq!((c.max_entries, c.max_db_mb), (10, 512));
    assert_eq!((s.max_entries, s.max_db_mb), (3, 9999));
    assert_eq!(c.db_path, "y.db");
}

#[test]
fn clamp_bounds() {
    assert_eq!(clamp_u32(5, 10, 20), 10);
    assert_eq!(clamp_u32(25, 10, 20), 20);
    assert_eq!(clamp_u32(15, 10, 20), 15);
    assert_eq!(clamp_u32(10, 10, 20), 10);
    assert_eq!(clamp_u32(20, 10, 20), 20);
}

#[test]
fn loading_without_a_file_gives_defaults() {
    let s = settings_after_load(None, "d/clipi.db".to_string());
    assert_eq!(s.max_entries, 500);
    assert_eq!(s.max_db_mb, 80);
    assert_eq!(s.db_path, "d/clipi.db");
}

#[test]
fn loading_fills_an_empty_path_and_sanitizes() {
    let s = settings_after_load(Some(settings(2, 1000, "")), "d/clipi.db".to_string());
    assert_eq!(s.max_entries, 10);
    assert_eq!(s.max_db_mb, 512);
    assert_eq!(s.db_path, "d/clipi.db");
    let t = settings_after_load(Some(settings(42, 16, "/tmp/x.db")), "d/clipi.db".to_string());
    assert_eq!((t.max_entries, t.max_db_mb), (42, 16));
    assert_eq!(t.db_path, "/tmp/x.db");
}

#[test]
fn joining_paths() {
    let sep = std::path::MAIN_SEPARATOR;
    assert_eq!(join_path("", "a"), "a");
    assert_eq!(join_path("base/", "a"), "base/a");
    assert_eq!(join_path("base", "a"), format!("base{sep}a"));
    assert_eq!(
        join_path("/home/u/.config", "clipi"),
        std::path::Path::new("/home/u/.config").join("clipi").to_string_lossy()
    );
}

#[test]
fn data_directory_and_files() {
    let sep = std::path::MAIN_SEPARATOR;
    assert_eq!(app_dir_from(None), "clipi-data");
    assert_eq!(app_dir_from(Some("/cfg")), format!("/cfg{sep}clipi"));
    assert!(config_file_path().ends_with(&format!("clipi{sep}config.toml")) || config_file_path() == format!("clipi-data{sep}config.toml"));
    assert!(default_db_path().ends_with("clipi.db"));
}

#[test]
fn settings_file_and_database_share_a_folder() {
    let config = config_file_path();
    let db = default_db_path();
    let config_dir = std::path::Path::new(&config).parent().map(|p| p.to_path_buf());
    let db_dir = std::path::Path::new(&db).parent().map(|p| p.to_path_buf());
    assert_eq!(config_dir, db_dir);
    assert!(config.ends_with("config.toml"));
    assert!(db.ends_with("clipi.db"));
    let dir = config_dir.unwrap();
    let dir_name = dir.file_name().unwrap().to_string_lossy().into_owned();
    assert!(dir_name == "clipi" || dir_name == "clipi-data");
    assert_eq!(Settings::default().db_path, db);
}

#[test]
fn saving_refuses_an_empty_database_path() {
    assert!(matches!(save_plan(&settings(500, 80, ""), "old.db"), SavePlan::EmptyPath));
}

#[test]
fn saving_sanitizes_and_reopens_a_moved_database() {
    match save_plan(&settings(1, 9999, "new.db"), "old.db") {
        SavePlan::Apply { settings, reopen } => {
            assert_eq!((settings.max_entries, settings.max_db_mb), (10, 512));
            assert_eq!(settings.db_path, "new.db");
            assert!(reopen);
        }
        SavePlan::EmptyPath => panic!("path is set"),
    }
    match save_plan(&settings(100, 64, "old.db"), "old.db") {
        SavePlan::Apply { settings, reopen } => {
            assert_eq!((settings.max_entries, settings.max_db_mb), (100, 64));
            assert!(!reopen);
        }
        SavePlan::EmptyPath => panic!("path is set"),
    }
}
