use quantum_launcher::migration::{
    bytes_equal, migration_state_after, run_migration, should_migrate, FsSnapshot,
    MigrationOutcome, MigrationState,
};

fn legacy_path() -> Vec<u8> {
    b"/home/u/.qlauncher".to_vec()
}

fn new_path() -> Vec<u8> {
    b"/home/u/.local/share/QuantumLauncher".to_vec()
}

/// Legacy dir exists as a real directory with some files; the new dir does
/// not exist yet.
fn fresh_snapshot() -> FsSnapshot {
    FsSnapshot {
        legacy_resolved: true,
        legacy_path: legacy_path(),
        legacy_exists: true,
        legacy_is_symlink: false,
        legacy_link_target: Vec::new(),
        legacy_has_config: true,
        legacy_files: vec![b"config.json".to_vec(), b"instances".to_vec(), b"logs".to_vec()],
        new_resolved: true,
        new_path: new_path(),
        new_exists: false,
        new_has_config: false,
        new_files: Vec::new(),
    }
}

#[test]
fn migrates_fresh_legacy_dir() {
    assert!(should_migrate(&fresh_snapshot()));
}

#[test]
fn skips_when_legacy_unresolvable() {
    let mut s = fresh_snapshot();
    s.legacy_resolved = false;
    s.legacy_exists = false;
    s.legacy_has_config = false;
    s.legacy_files = Vec::new();
    assert!(!should_migrate(&s));
}

#[test]
fn skips_when_legacy_missing() {
    let mut s = fresh_snapshot();
    s.legacy_exists = false;
    s.legacy_has_config = false;
    s.legacy_files = Vec::new();
    assert!(!should_migrate(&s));
}

#[test]
fn skips_when_legacy_is_symlink() {
    let mut s = fresh_snapshot();
    s.legacy_is_symlink = true;
    s.legacy_link_target = new_path();
    assert!(!should_migrate(&s));
}

#[test]
fn skips_when_new_unresolvable() {
    let mut s = fresh_snapshot();
    s.new_resolved = false;
    s.new_exists = false;
    s.new_has_config = false;
    assert!(!should_migrate(&s));
}

#[test]
fn skips_when_new_has_config() {
    let mut s = fresh_snapshot();
    s.new_exists = true;
    s.new_has_config = true;
    s.new_files = vec![b"config.json".to_vec()];
    assert!(!should_migrate(&s));
}

#[test]
fn skips_when_paths_equal() {
    let mut s = fresh_snapshot();
    s.new_path = legacy_path();
    assert!(!should_migrate(&s));
}

#[test]
fn migration_moves_files_and_leaves_sentinel() {
    let mut s = fresh_snapshot();
    let original_files = s.legacy_files.clone();
    let out = run_migration(&mut s, true, true);
    assert_eq!(out, MigrationOutcome::Migrated);
    assert!(s.new_exists);
    assert_eq!(s.new_files, original_files);
    assert!(s.new_has_config);
    assert!(s.legacy_exists);
    assert!(s.legacy_is_symlink);
    assert_eq!(s.legacy_link_target, new_path());
    assert!(s.legacy_files.is_empty());
}

#[test]
fn second_run_is_a_no_op() {
    let mut s = fresh_snapshot();
    let first = run_migration(&mut s, true, true);
    assert_eq!(first, MigrationOutcome::Migrated);
    assert!(!should_migrate(&s));
    let settled = s.clone();
    let second = run_migration(&mut s, true, true);
    assert_eq!(second, MigrationOutcome::NotNeeded);
    assert_eq!(s, settled);
}

#[test]
fn skipped_migration_moves_nothing() {
    let mut s = fresh_snapshot();
    s.new_exists = true;
    s.new_has_config = true;
    s.new_files = vec![b"config.json".to_vec()];
    let before = s.clone();
    let out = run_migration(&mut s, true, true);
    assert_eq!(out, MigrationOutcome::NotNeeded);
    assert_eq!(s, before);
}

#[test]
fn failed_rename_keeps_data_intact() {
    let mut s = fresh_snapshot();
    let before = s.clone();
    let out = run_migration(&mut s, false, true);
    assert_eq!(out, MigrationOutcome::RenameFailed);
    assert_eq!(s, before);
    assert!(should_migrate(&s));
}

#[test]
fn failed_symlink_still_migrates_data() {
    let mut s = fresh_snapshot();
    let original_files = s.legacy_files.clone();
    let out = run_migration(&mut s, true, false);
    assert_eq!(out, MigrationOutcome::SymlinkFailed);
    assert_eq!(s.new_files, original_files);
    assert!(s.new_exists);
    assert!(!s.legacy_exists);
    // Data-wise the migration succeeded, so the guard stays off.
    assert!(!should_migrate(&s));
    let second = run_migration(&mut s, true, true);
    assert_eq!(second, MigrationOutcome::NotNeeded);
}

#[test]
fn state_machine_reaches_migrated_and_stays() {
    let s0 = MigrationState::NotMigrated;
    assert_eq!(
        migration_state_after(s0, MigrationOutcome::NotNeeded),
        MigrationState::NotMigrated
    );
    assert_eq!(
        migration_state_after(s0, MigrationOutcome::RenameFailed),
        MigrationState::NotMigrated
    );
    assert_eq!(
        migration_state_after(s0, MigrationOutcome::SymlinkFailed),
        MigrationState::Migrated
    );
    assert_eq!(migration_state_after(s0, MigrationOutcome::Migrated), MigrationState::Migrated);
    assert_eq!(
        migration_state_after(MigrationState::Migrated, MigrationOutcome::RenameFailed),
        MigrationState::Migrated
    );
}

#[test]
fn bytes_equal_compares_contents() {
    assert!(bytes_equal(&legacy_path(), &legacy_path()));
    assert!(!bytes_equal(&legacy_path(), &new_path()));
    assert!(!bytes_equal(&b"abc".to_vec(), &b"abd".to_vec()));
    assert!(!bytes_equal(&b"abc".to_vec(), &b"ab".to_vec()));
    assert!(bytes_equal(&Vec::new(), &Vec::new()));
}
