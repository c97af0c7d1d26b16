use dotr::process::{
    init_step, InitStep, config_file, exec_process, exec_process_allow_empty_error, ledger_file, storage_path,
    ProcessOutput,
};
use dotr::registry::{Config, File};
use dotr::storage::{FromAction, IgnoreLedger, Storage, SyncError, ToAction};

const ABC_SHA256: &str = "ba7816bf8f01cfea414140de5dae2223b00361a396177a9cb410ff61f20015ad";

fn storage_with(files: Vec<File>) -> Storage {
    let config = Config { git_url: None, files };
    Storage::new(config, "/home/u/.local/share/dotr".to_string(), "/home/u".to_string(), true)
        .unwrap()
}

fn entry(path: &str, hash: &str) -> File {
    File { path: path.to_string(), hash: hash.to_string() }
}

fn digest_of(content: &[u8]) -> String {
    let mut s = storage_with(vec![]);
    s.add("/home/u/probe", true, false, content).unwrap();
    s.config.files[0].hash.clone()
}

#[test]
fn add_records_sha256_hex_digest() {
    let mut s = storage_with(vec![]);
    assert_eq!(s.add("/home/u/.bashrc", true, false, b"abc"), Ok(()));
    assert_eq!(s.config.files.len(), 1);
    assert_eq!(s.config.files[0].path, ".bashrc");
    assert_eq!(s.config.files[0].hash, ABC_SHA256);
}

#[test]
fn add_nested_path_is_relative_to_base() {
    let mut s = storage_with(vec![]);
    assert_eq!(s.add("/home/u/config/app.conf", true, false, b"x"), Ok(()));
    assert_eq!(s.config.files[0].path, "config/app.conf");
}

#[test]
fn add_outside_base_fails_and_changes_nothing() {
    let mut s = storage_with(vec![entry("a", "h")]);
    assert_eq!(s.add("/etc/passwd", true, false, b"x"), Err(SyncError::OutsideBase));
    assert_eq!(s.add("/home/user2/f", true, false, b"x"), Err(SyncError::OutsideBase));
    assert_eq!(s.config.files.len(), 1);
    assert_eq!(s.config.files[0].path, "a");
}

#[test]
fn add_errors() {
    let mut s = storage_with(vec![entry(".vimrc", "h")]);
    assert_eq!(s.add("/home/u/missing", false, false, b""), Err(SyncError::NotFound));
    assert_eq!(s.add("/home/u/dir", true, true, b""), Err(SyncError::IsDirectory));
    assert_eq!(s.add("/home/u/.vimrc", true, false, b"x"), Err(SyncError::AlreadyTracked));
    assert_eq!(s.config.files.len(), 1);
}

#[test]
fn new_requires_storage_directory() {
    let r = Storage::new(Config::default(), "/s".to_string(), "/b".to_string(), false);
    assert!(matches!(r, Err(SyncError::StorageMissing)));
}

#[test]
fn paths_resolve_against_both_roots() {
    let s = storage_with(vec![]);
    let f = entry("config/app.conf", "h");
    assert_eq!(s.absolute(&f), "/home/u/config/app.conf");
    assert_eq!(s.stored(&f), "/home/u/.local/share/dotr/config/app.conf");
    assert_eq!(s.relative("/home/u/config/app.conf"), Ok("config/app.conf".to_string()));
    assert_eq!(s.relative("/home/us/x"), Err(SyncError::OutsideBase));
}

#[test]
fn changed_live_content_is_copied_and_rehashed() {
    let h0 = digest_of(b"old notes");
    let h1 = digest_of(b"new notes");
    assert_ne!(h0, h1);
    let f = entry("notes.txt", &h0);
    let mut s = storage_with(vec![f.clone()]);
    let r = s.sync_from(&f, Some(&b"new notes"[..]), true);
    assert_eq!(r, Ok(FromAction::Copied));
    assert_eq!(s.config.files[0].hash, h1);
}

#[test]
fn first_sync_copies_without_storage_copy() {
    let h = digest_of(b"same");
    let f = entry("notes.txt", &h);
    let mut s = storage_with(vec![f.clone()]);
    assert_eq!(s.sync_from(&f, Some(&b"same"[..]), false), Ok(FromAction::Copied));
    assert_eq!(s.config.files[0].hash, h);
}

#[test]
fn sync_from_twice_is_idempotent() {
    let f = entry("notes.txt", "stale");
    let mut s = storage_with(vec![f.clone()]);
    assert_eq!(s.sync_from(&f, Some(&b"content"[..]), true), Ok(FromAction::Copied));
    let after_first = s.config.files[0].clone();
    assert_eq!(s.sync_from(&after_first, Some(&b"content"[..]), true), Ok(FromAction::Unchanged));
    assert_eq!(s.config.files[0].hash, after_first.hash);
}

#[test]
fn unchanged_hash_skips_all_writes() {
    let h = digest_of(b"abc");
    let f = entry("notes.txt", &h);
    let mut s = storage_with(vec![f.clone(), entry("other", "x")]);
    assert_eq!(s.sync_from(&f, Some(&b"abc"[..]), true), Ok(FromAction::Unchanged));
    assert_eq!(s.config.files.len(), 2);
    assert_eq!(s.config.files[0].hash, ABC_SHA256);
    assert_eq!(s.config.files[1].hash, "x");
}

#[test]
fn deleted_live_file_untracks() {
    let f = entry("notes.txt", "h");
    let mut s = storage_with(vec![entry("a", "1"), f.clone(), entry("b", "2")]);
    assert_eq!(s.sync_from(&f, None, true), Ok(FromAction::Removed));
    let paths: Vec<&str> = s.config.files.iter().map(|x| x.path.as_str()).collect();
    assert_eq!(paths, vec!["a", "b"]);
}

#[test]
fn deleted_live_file_without_storage_copy_is_inconsistent() {
    let f = entry("notes.txt", "h");
    let mut s = storage_with(vec![f.clone()]);
    assert_eq!(s.sync_from(&f, None, false), Err(SyncError::MissingStorageCopy));
    assert_eq!(s.config.files.len(), 1);
}

#[test]
fn sync_from_untracked_file_fails() {
    let mut s = storage_with(vec![entry("a", "1")]);
    let f = entry("b", "2");
    assert_eq!(s.sync_from(&f, Some(&b"x"[..]), true), Err(SyncError::NotTracked));
}

#[test]
fn sync_to_outcomes() {
    let h = digest_of(b"abc");
    let f = entry("notes.txt", &h);
    let s = storage_with(vec![f.clone()]);
    let empty = IgnoreLedger::new();
    assert_eq!(s.sync_to(&f, false, None, &empty), Err(SyncError::MissingStorageCopy));
    assert_eq!(s.sync_to(&f, true, Some(&b"abc"[..]), &empty), Ok(ToAction::Unchanged));
    assert_eq!(s.sync_to(&f, true, Some(&b"edited"[..]), &empty), Ok(ToAction::Copy));
    assert_eq!(s.sync_to(&f, true, None, &empty), Ok(ToAction::Prompt));
}

#[test]
fn declined_file_is_ignored_without_prompt() {
    let f = entry("config/app.conf", "h");
    let s = storage_with(vec![f.clone()]);
    let mut ledger = IgnoreLedger::new();
    assert_eq!(s.sync_to(&f, true, None, &ledger), Ok(ToAction::Prompt));
    assert_eq!(ledger.answer(&f, "n\n"), ToAction::NewlyIgnored);
    assert_eq!(ledger.entries, vec!["config/app.conf".to_string()]);
    assert_eq!(s.sync_to(&f, true, None, &ledger), Ok(ToAction::Ignored));
}

#[test]
fn affirmative_answer_materializes() {
    let f = entry("config/app.conf", "h");
    let mut ledger = IgnoreLedger::new();
    assert_eq!(ledger.answer(&f, "  y\n"), ToAction::Copy);
    assert!(ledger.entries.is_empty());
    assert_eq!(ledger.answer(&f, "yes"), ToAction::NewlyIgnored);
    assert_eq!(ledger.answer(&f, ""), ToAction::NewlyIgnored);
}

#[test]
fn round_trip_restores_live_content() {
    let f = entry("notes.txt", "");
    let mut s = storage_with(vec![f.clone()]);
    let c1: &[u8] = b"line one\nline two\n";
    assert_eq!(s.sync_from(&f, Some(c1), false), Ok(FromAction::Copied));
    let stored = c1.to_vec();
    let entry_now = s.config.files[0].clone();
    let mut ledger = IgnoreLedger::new();
    assert_eq!(s.sync_to(&entry_now, true, None, &ledger), Ok(ToAction::Prompt));
    assert_eq!(ledger.answer(&entry_now, "y"), ToAction::Copy);
    let live = stored.clone();
    assert_eq!(live, c1);
    assert_eq!(s.sync_to(&entry_now, true, Some(&live), &ledger), Ok(ToAction::Unchanged));
}

#[test]
fn ledger_matches_whole_lines_only() {
    let ledger = IgnoreLedger::parse("\na/b.txt.bak\nconfig/app.conf");
    assert_eq!(ledger.entries, vec!["", "a/b.txt.bak", "config/app.conf"]);
    assert!(ledger.contains(&"config/app.conf".to_string()));
    assert!(!ledger.contains(&"a/b.txt".to_string()));
}

#[test]
fn ledger_parse_edges() {
    assert_eq!(IgnoreLedger::parse("").entries, vec![""]);
    assert_eq!(IgnoreLedger::parse("x\n").entries, vec!["x", ""]);
}

#[test]
fn command_results() {
    let ok = ProcessOutput { success: true, stdout: "out".to_string(), stderr: "".to_string() };
    assert_eq!(exec_process(&ok), Ok("out".to_string()));
    let quiet = ProcessOutput { success: false, stdout: "o".to_string(), stderr: " \n".to_string() };
    assert_eq!(exec_process_allow_empty_error(&quiet), Ok("o".to_string()));
    assert_eq!(exec_process(&quiet), Err(" \n".to_string()));
    let loud = ProcessOutput { success: false, stdout: "".to_string(), stderr: "fatal".to_string() };
    assert_eq!(exec_process_allow_empty_error(&loud), Err("fatal".to_string()));
}

#[test]
fn storage_locations() {
    assert_eq!(storage_path("/home/u"), "/home/u/.local/share/dotr");
    assert_eq!(config_file("/s"), "/s/.dotr.toml");
    assert_eq!(ledger_file("/s"), "/s/.dotrignore");
    assert!(Config::config_path_exists(true, true, true));
    assert!(!Config::config_path_exists(true, false, true));
    assert!(!Config::config_path_exists(false, true, true));
    assert!(!Config::config_path_exists(true, true, false));
}

#[test]
fn init_steps() {
    assert_eq!(init_step(false, false), InitStep::Create);
    assert_eq!(init_step(false, true), InitStep::Create);
    assert_eq!(init_step(true, true), InitStep::Recreate);
    assert_eq!(init_step(true, false), InitStep::Refuse);
}

#[test]
fn base_ending_in_separator_resolves() {
    let root = Storage::new(Config::default(), "/s".to_string(), "/".to_string(), true).unwrap();
    assert_eq!(root.relative("/x"), Ok("x".to_string()));
    assert_eq!(root.relative("/etc/app.conf"), Ok("etc/app.conf".to_string()));
    assert_eq!(root.absolute(&entry("x", "h")), "/x");
    let slash = Storage::new(Config::default(), "/s/".to_string(), "/home/u/".to_string(), true)
        .unwrap();
    assert_eq!(slash.relative("/home/u/a/b"), Ok("a/b".to_string()));
    assert_eq!(slash.relative("/home/ux/a"), Err(SyncError::OutsideBase));
    assert_eq!(slash.absolute(&entry("a/b", "h")), "/home/u/a/b");
    assert_eq!(slash.stored(&entry("a/b", "h")), "/s/a/b");
}

#[test]
fn add_below_root_base() {
    let mut s = Storage::new(Config::default(), "/s".to_string(), "/".to_string(), true).unwrap();
    assert_eq!(s.add("/notes.txt", true, false, b"abc"), Ok(()));
    assert_eq!(s.config.files[0].path, "notes.txt");
}

#[test]
fn base_itself_is_relative_empty() {
    let s = storage_with(vec![]);
    assert_eq!(s.relative("/home/u"), Ok(String::new()));
    assert_eq!(s.relative("/home/u/"), Ok(String::new()));
}

#[test]
fn digest_is_64_lower_hex_digits() {
    let h = digest_of(b"");
    assert_eq!(h, "e3b0c44298fc1c149afbf4c8996fb92427ae41e4649b934ca495991b7852b855");
    assert_eq!(h.len(), 64);
    assert!(h.chars().all(|c| c.is_ascii_digit() || ('a'..='f').contains(&c)));
}

#[test]
fn command_output_is_trimmed() {
    let out = ProcessOutput {
        success: true,
        stdout: "  main\n".to_string(),
        stderr: "".to_string(),
    };
    assert_eq!(exec_process(&out), Ok("main".to_string()));
    let blank = ProcessOutput { success: true, stdout: "\n".to_string(), stderr: "".to_string() };
    assert_eq!(exec_process(&blank), Ok(String::new()));
}

#[test]
fn stale_record_compares_with_registry_digest() {
    let h = digest_of(b"content");
    let mut s = storage_with(vec![entry("notes.txt", &h)]);
    let stale = entry("notes.txt", "old digest");
    assert_eq!(s.sync_from(&stale, Some(&b"content"[..]), true), Ok(FromAction::Unchanged));
    assert_eq!(s.config.files[0].hash, h);
}
