use ai_init::catalog::{get_all_files, EmbeddedFile};
use ai_init::errors::UninstallError;
use ai_init::removal::{confirm_removal, plan_removal, RemovalSet, RemovalStep};
use ai_init::repo::{choose_repo_root, RepoRootChoice};
use ai_init::sync::{doctor_report, overwrite_outcome, plan_copy, CopyResult, CopyStep};
use ai_init::text::{same_text, text_contains};
use std::collections::HashMap;

/// Runs an install over an in-memory set of files, answering every
/// overwrite question with `answer`.
fn install(fs: &mut HashMap<String, String>, files: &[EmbeddedFile], force: bool, answer: Option<bool>) -> Vec<CopyResult> {
    let mut outcomes = Vec::new();
    for f in files {
        let outcome = match plan_copy(fs.contains_key(f.target_path), force) {
            CopyStep::Write(o) => o,
            CopyStep::AskToOverwrite => overwrite_outcome(answer),
        };
        if outcome.writes() {
            fs.insert(f.target_path.to_string(), f.content.to_string());
        }
        outcomes.push(outcome);
    }
    outcomes
}

#[test]
fn copy_decisions() {
    assert_eq!(plan_copy(false, false), CopyStep::Write(CopyResult::Created));
    assert_eq!(plan_copy(false, true), CopyStep::Write(CopyResult::Created));
    assert_eq!(plan_copy(true, true), CopyStep::Write(CopyResult::Overwritten));
    assert_eq!(plan_copy(true, false), CopyStep::AskToOverwrite);
    assert_eq!(overwrite_outcome(Some(true)), CopyResult::Overwritten);
    assert_eq!(overwrite_outcome(Some(false)), CopyResult::Skipped);
    assert_eq!(overwrite_outcome(None), CopyResult::Skipped);
    assert!(CopyResult::Created.writes());
    assert!(!CopyResult::Skipped.writes());
}

#[test]
fn forced_install_twice_is_idempotent() {
    let files = get_all_files();
    let mut fs = HashMap::new();
    fs.insert(".ai/ai-context.md".to_string(), "old".to_string());
    let first = install(&mut fs, &files, true, None);
    assert_eq!(first[0], CopyResult::Overwritten);
    assert!(first[1..].iter().all(|o| *o == CopyResult::Created));
    let after_first = fs.clone();
    let second = install(&mut fs, &files, true, None);
    assert!(second.iter().all(|o| *o == CopyResult::Overwritten));
    assert_eq!(fs, after_first);
}

#[test]
fn declined_overwrite_skips_and_keeps_content() {
    let files = get_all_files();
    let mut fs = HashMap::new();
    fs.insert(".ai/ai-context.md".to_string(), "mine".to_string());
    let outcomes = install(&mut fs, &files, false, Some(false));
    assert_eq!(outcomes[0], CopyResult::Skipped);
    assert_eq!(fs[".ai/ai-context.md"], "mine");
}

#[test]
fn doctor_after_full_install_finds_nothing_missing() {
    let files = get_all_files();
    let mut fs = HashMap::new();
    install(&mut fs, &files, true, None);
    let present: Vec<bool> = files.iter().map(|f| fs.contains_key(f.target_path)).collect();
    let report = doctor_report(&files, &present, Some("node_modules/\n.cursor/\n.ai/\n"));
    assert!(report.missing.is_empty());
    assert_eq!(report.present_count, 26);
    assert!(!report.ignore_needs_update);
}

#[test]
fn doctor_lists_missing_in_order() {
    let files = get_all_files();
    let mut present = vec![true; files.len()];
    present[3] = false;
    present[10] = false;
    let report = doctor_report(&files, &present, None);
    assert_eq!(report.present_count, 24);
    let missing: Vec<&str> = report.missing.iter().map(|f| f.target_path).collect();
    assert_eq!(missing, vec![files[3].target_path, files[10].target_path]);
    assert!(!report.ignore_needs_update);
}

#[test]
fn doctor_ignore_check_is_substring_based() {
    let files = get_all_files();
    let present = vec![true; files.len()];
    assert!(doctor_report(&files, &present, Some("node_modules/\n")).ignore_needs_update);
    assert!(doctor_report(&files, &present, Some(".cursor/\n")).ignore_needs_update);
    assert!(!doctor_report(&files, &present, Some("x/.cursor/y\nfoo.ai/\n")).ignore_needs_update);
    assert!(doctor_report(&files, &present, Some(".cursor\n.ai\n")).ignore_needs_update);
}

#[test]
fn removal_with_nothing_present_is_a_no_op() {
    assert_eq!(plan_removal(false, false, false), RemovalStep::NothingToRemove);
    assert_eq!(plan_removal(false, false, true), RemovalStep::NothingToRemove);
}

#[test]
fn forced_removal_takes_both() {
    let both = RemovalSet { templates_dir: true, config_dir: true };
    assert_eq!(plan_removal(true, true, true), RemovalStep::Remove(both));
}

#[test]
fn removal_asks_once_for_what_exists() {
    let one = RemovalSet { templates_dir: false, config_dir: true };
    assert_eq!(plan_removal(false, true, false), RemovalStep::Confirm(one));
    assert_eq!(confirm_removal(one, true).unwrap(), one);
    assert!(matches!(confirm_removal(one, false), Err(UninstallError::Cancelled)));
}

#[test]
fn repo_root_is_here_or_one_up() {
    assert_eq!(choose_repo_root(true, Some(true)), RepoRootChoice::Current);
    assert_eq!(choose_repo_root(true, None), RepoRootChoice::Current);
    assert_eq!(choose_repo_root(false, Some(true)), RepoRootChoice::Parent);
    assert_eq!(choose_repo_root(false, Some(false)), RepoRootChoice::NotFound);
    assert_eq!(choose_repo_root(false, None), RepoRootChoice::NotFound);
}

#[test]
fn text_helpers() {
    assert!(same_text("héllo", "héllo"));
    assert!(!same_text("hello", "hell"));
    assert!(text_contains("abc.cursor/def", ".cursor/"));
    assert!(text_contains("abc", ""));
    assert!(!text_contains("ab", "abc"));
    assert!(!text_contains(".curso", ".cursor/"));
}
