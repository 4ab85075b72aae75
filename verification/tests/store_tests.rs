use pm_backend::store::{app_dir_from, join_path, load_outcome, resolve_app_directory,
    save_outcome, StoreModel, WriteAttempt};
use pm_backend::BackendError;

#[test]
fn round_trip_after_save() {
    let mut store = StoreModel::new();
    store.save("projects.json", "{\"a\":1}");
    assert_eq!(store.load("projects.json"), "{\"a\":1}");
}

#[test]
fn round_trip_after_overwrite() {
    let mut store = StoreModel::new();
    store.save("projects.json", "first");
    store.save("projects.json", "second");
    assert_eq!(store.load("projects.json"), "second");
}

#[test]
fn load_unwritten_returns_sentinel() {
    let store = StoreModel::new();
    assert_eq!(store.load("never-written.json"), "{}");
}

#[test]
fn load_unwritten_is_independent_of_other_files() {
    let mut store = StoreModel::new();
    store.save("other.json", "data");
    assert_eq!(store.load("missing.json"), "{}");
}

#[test]
fn save_is_idempotent() {
    let mut store = StoreModel::new();
    store.save("f.json", "x");
    store.save("f.json", "x");
    store.save("f.json", "x");
    assert_eq!(store.load("f.json"), "x");
}

#[test]
fn join_path_inserts_separator() {
    assert_eq!(join_path("/home/u/.config", "ProjectManagerPro"), "/home/u/.config/ProjectManagerPro");
}

#[test]
fn app_dir_appends_fixed_name() {
    let r = app_dir_from(Some("/home/u/.config".to_string()));
    assert_eq!(r.unwrap(), "/home/u/.config/ProjectManagerPro");
}

#[test]
fn app_dir_without_config_dir_fails() {
    let r = app_dir_from(None);
    match r {
        Err(BackendError::ConfigDirUnavailable) => {}
        _ => panic!("expected ConfigDirUnavailable"),
    }
}

#[test]
fn config_dir_unavailable_message() {
    assert_eq!(BackendError::ConfigDirUnavailable.message(), "Could not find config directory");
}

#[test]
fn resolve_app_directory_names_fixed_subdirectory() {
    match resolve_app_directory() {
        Ok(p) => assert!(p.ends_with("/ProjectManagerPro")),
        Err(BackendError::ConfigDirUnavailable) => {}
        Err(_) => panic!("unexpected error kind"),
    }
}

#[test]
fn save_outcome_reports_path_written() {
    let r = save_outcome("/tmp/app/f.json", WriteAttempt::Written);
    assert_eq!(r.unwrap(), "Data saved to: /tmp/app/f.json");
}

#[test]
fn save_outcome_surfaces_directory_failure() {
    let r = save_outcome("/tmp/app/f.json", WriteAttempt::DirFailed("permission denied".to_string()));
    match r {
        Err(BackendError::IoError(m)) => {
            assert_eq!(m, "Failed to create app directory: permission denied");
        }
        _ => panic!("expected IoError"),
    }
}

#[test]
fn save_outcome_surfaces_write_failure() {
    let r = save_outcome("/tmp/app/f.json", WriteAttempt::WriteFailed("disk full".to_string()));
    match r {
        Err(BackendError::IoError(m)) => assert_eq!(m, "Failed to write file: disk full"),
        _ => panic!("expected IoError"),
    }
}

#[test]
fn load_outcome_missing_file_is_sentinel_not_error() {
    let r = load_outcome(None);
    assert_eq!(r.unwrap(), "{}");
}

#[test]
fn load_outcome_returns_contents_verbatim() {
    let r = load_outcome(Some(Ok("{\"k\": [1, 2]}".to_string())));
    assert_eq!(r.unwrap(), "{\"k\": [1, 2]}");
}

#[test]
fn load_outcome_surfaces_read_failure() {
    let r = load_outcome(Some(Err("permission denied".to_string())));
    match r {
        Err(BackendError::IoError(m)) => assert_eq!(m, "Failed to read file: permission denied"),
        _ => panic!("expected IoError"),
    }
}
