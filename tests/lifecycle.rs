use std::collections::HashSet;

use app_dirs::lifecycle::{needs_attempt, next_kind};
use app_dirs::{Config, CreateError, CreateRemoveResult, DirKind, Directory, Operation, OverridableEnv, RemoveError};

fn kinds() -> Vec<DirKind> {
    let mut all = Vec::new();
    let mut current = next_kind(None);
    while let Some(kind) = current {
        all.push(kind);
        current = next_kind(Some(kind));
    }
    all
}

/// Runs `op` over the three directories of `config` against a simulated disk,
/// where creating or removing a path listed in `broken` fails.
fn run(config: &Config, op: Operation, disk: &mut HashSet<String>, broken: &[&str]) -> (CreateRemoveResult, usize) {
    let mut result = CreateRemoveResult::all_done();
    let mut attempts = 0;
    for kind in kinds() {
        let path = config.path(kind).clone();
        let exists = disk.contains(&path);
        let mut ok = true;
        if needs_attempt(op, exists) {
            attempts += 1;
            ok = !broken.contains(&path.as_str());
            if ok {
                match op {
                    Operation::Create => {
                        disk.insert(path);
                    }
                    Operation::Remove => {
                        disk.remove(&path);
                    }
                }
            }
        }
        result.record(kind, op, exists, ok);
    }
    (result, attempts)
}

fn sample_config() -> Config {
    let mut env = OverridableEnv::new();
    env.add("HOME", "/home/user");
    Config::new("app-name", "linux", &env)
}

fn all_true(r: &CreateRemoveResult) -> bool {
    r.cache && r.config && r.data
}

#[test]
fn create_twice_is_idempotent() {
    let config = sample_config();
    let mut disk = HashSet::new();
    let (first, attempts) = run(&config, Operation::Create, &mut disk, &[]);
    assert!(all_true(&first));
    assert_eq!(attempts, 3);
    let after_first = disk.clone();
    let (second, attempts) = run(&config, Operation::Create, &mut disk, &[]);
    assert!(all_true(&second));
    assert_eq!(attempts, 0);
    assert_eq!(disk, after_first);
}

#[test]
fn create_then_remove_round_trip() {
    let config = sample_config();
    let mut disk = HashSet::new();
    let (created, _) = run(&config, Operation::Create, &mut disk, &[]);
    assert!(all_true(&created));
    for kind in kinds() {
        assert!(disk.contains(config.path(kind)));
    }
    let (removed, _) = run(&config, Operation::Remove, &mut disk, &[]);
    assert!(all_true(&removed));
    assert!(disk.is_empty());
}

#[test]
fn remove_of_absent_directories_reports_success() {
    let config = sample_config();
    let mut disk = HashSet::new();
    let (removed, attempts) = run(&config, Operation::Remove, &mut disk, &[]);
    assert!(all_true(&removed));
    assert_eq!(attempts, 0);
}

#[test]
fn one_failure_does_not_stop_the_others() {
    let config = sample_config();
    let mut disk = HashSet::new();
    let (created, attempts) = run(&config, Operation::Create, &mut disk, &["/home/user/.cache/app-name"]);
    assert_eq!(attempts, 3);
    assert_eq!(created, CreateRemoveResult { cache: false, config: true, data: true });
    assert!(disk.contains("/home/user/.local/share/app-name"));
}

#[test]
fn record_keeps_a_failure() {
    let mut result = CreateRemoveResult::all_done();
    result.record(DirKind::Data, Operation::Remove, true, false);
    assert_eq!(result, CreateRemoveResult { cache: true, config: true, data: false });
    result.record(DirKind::Data, Operation::Remove, false, true);
    assert!(!result.data);
    result.record(DirKind::Config, Operation::Create, true, false);
    assert!(result.config);
}

#[test]
fn attempts_follow_existence() {
    assert!(needs_attempt(Operation::Create, false));
    assert!(!needs_attempt(Operation::Create, true));
    assert!(needs_attempt(Operation::Remove, true));
    assert!(!needs_attempt(Operation::Remove, false));
}

#[test]
fn errors_name_their_directory() {
    let cause = || std::io::Error::new(std::io::ErrorKind::Other, "denied");
    assert_eq!(CreateError::Cache(cause()).kind(), DirKind::Cache);
    assert_eq!(CreateError::Config(cause()).kind(), DirKind::Config);
    assert_eq!(CreateError::Data(cause()).kind(), DirKind::Data);
    assert_eq!(RemoveError::Cache(cause()).kind(), DirKind::Cache);
    assert_eq!(RemoveError::Config(cause()).kind(), DirKind::Config);
    assert_eq!(RemoveError::Data(cause()).kind(), DirKind::Data);
}

#[test]
fn directory_shows_its_path() {
    let dir = Directory::new("/tmp/some/dir".to_string());
    assert_eq!(dir.display(), "/tmp/some/dir");
    assert_eq!(dir.path, "/tmp/some/dir");
}

#[test]
fn directories_are_walked_in_order() {
    assert_eq!(kinds(), vec![DirKind::Cache, DirKind::Config, DirKind::Data]);
    assert_eq!(next_kind(Some(DirKind::Data)), None);
}
