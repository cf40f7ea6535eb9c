use apix::config::Settings;

#[test]
fn settings_new_paths() {
    let settings = Settings::new("/home/tester".to_string()).unwrap();
    assert!(settings.apix_dir.ends_with(".apix"));
    assert!(settings.history_file.ends_with("history.json"));
    assert!(settings.collections_file.ends_with("collections.json"));
    assert!(settings.environments_file.ends_with("environments.json"));
}

#[test]
fn settings_files_inside_apix_dir() {
    let settings = Settings::new("/home/tester".to_string()).unwrap();
    assert!(settings.history_file.starts_with(&settings.apix_dir));
    assert!(settings.collections_file.starts_with(&settings.apix_dir));
    assert!(settings.environments_file.starts_with(&settings.apix_dir));
}

#[test]
fn settings_paths_exact() {
    let settings = Settings::new("/home/tester".to_string()).unwrap();
    assert_eq!(settings.apix_dir, "/home/tester/.apix");
    assert_eq!(settings.history_file, "/home/tester/.apix/history.json");
}
