use ai_init::catalog::{category_from_lowercase, get_all_files, get_files_by_categories, FileCategory};
use ai_init::errors::InitError;
use ai_init::install::parse_categories;
use std::collections::HashSet;

const ALL: [FileCategory; 6] = [
    FileCategory::AiTemplates,
    FileCategory::Rules,
    FileCategory::Commands,
    FileCategory::Hooks,
    FileCategory::Skills,
    FileCategory::Agents,
];

#[test]
fn catalog_has_every_file_once() {
    let files = get_all_files();
    assert_eq!(files.len(), 26);
    let paths: HashSet<&str> = files.iter().map(|f| f.target_path).collect();
    assert_eq!(paths.len(), files.len());
    assert_eq!(files[0].target_path, ".ai/ai-context.md");
    assert_eq!(files[25].target_path, ".cursor/skills/security-audit/SKILL.md");
    for f in &files {
        assert!(f.target_path.starts_with(".ai/") || f.target_path.starts_with(".cursor/"));
        assert!(!f.content.is_empty());
    }
}

#[test]
fn catalog_categories_follow_paths() {
    for f in get_all_files() {
        let expected = if f.target_path.starts_with(".ai/") {
            FileCategory::AiTemplates
        } else if f.target_path.starts_with(".cursor/rules/") {
            FileCategory::Rules
        } else if f.target_path.starts_with(".cursor/commands/") {
            FileCategory::Commands
        } else if f.target_path.starts_with(".cursor/skills/") {
            FileCategory::Skills
        } else if f.target_path.starts_with(".cursor/agents/") {
            FileCategory::Agents
        } else {
            FileCategory::Hooks
        };
        assert_eq!(f.category, expected, "{}", f.target_path);
    }
}

#[test]
fn unfiltered_equals_all() {
    let all: Vec<&str> = get_all_files().iter().map(|f| f.target_path).collect();
    let none: Vec<&str> = get_files_by_categories(None, None).iter().map(|f| f.target_path).collect();
    assert_eq!(all, none);
}

#[test]
fn filter_matches_predicate_for_every_combination() {
    // every pair of subsets of the six categories, as include and exclude lists
    for only_mask in 0u32..64 {
        for skip_mask in (0u32..64).step_by(7) {
            let only: Vec<FileCategory> = (0..6).filter(|i| only_mask & (1 << i) != 0).map(|i| ALL[i]).collect();
            let skip: Vec<FileCategory> = (0..6).filter(|i| skip_mask & (1 << i) != 0).map(|i| ALL[i]).collect();
            for (o, s) in [(Some(&only[..]), Some(&skip[..])), (Some(&only[..]), None), (None, Some(&skip[..]))] {
                let got: Vec<&str> = get_files_by_categories(o, s).iter().map(|f| f.target_path).collect();
                let want: Vec<&str> = get_all_files()
                    .iter()
                    .filter(|f| o.map_or(true, |c| c.contains(&f.category)) && s.map_or(true, |c| !c.contains(&f.category)))
                    .map(|f| f.target_path)
                    .collect();
                assert_eq!(got, want);
            }
        }
    }
}

#[test]
fn filter_only_rules() {
    let files = get_files_by_categories(Some(&[FileCategory::Rules]), None);
    assert_eq!(files.len(), 4);
    assert!(files.iter().all(|f| f.category == FileCategory::Rules));
}

#[test]
fn filter_exclude_wins_over_include() {
    let files = get_files_by_categories(
        Some(&[FileCategory::Rules, FileCategory::Hooks]),
        Some(&[FileCategory::Rules]),
    );
    assert_eq!(files.len(), 4);
    assert!(files.iter().all(|f| f.category == FileCategory::Hooks));
}

#[test]
fn filter_skip_everything_is_empty() {
    assert!(get_files_by_categories(None, Some(&ALL)).is_empty());
}

#[test]
fn category_tokens_round_trip() {
    for c in ALL {
        assert_eq!(FileCategory::from_str(c.as_str()), Some(c));
    }
    assert_eq!(FileCategory::AiTemplates.as_str(), "ai");
    assert_eq!(FileCategory::Agents.as_str(), "agents");
}

#[test]
fn category_from_str_ignores_case() {
    assert_eq!(FileCategory::from_str("RULES"), Some(FileCategory::Rules));
    assert_eq!(FileCategory::from_str("Hooks"), Some(FileCategory::Hooks));
    assert_eq!(FileCategory::from_str("sKiLlS"), Some(FileCategory::Skills));
    assert_eq!(FileCategory::from_str("bogus"), None);
    assert_eq!(FileCategory::from_str(""), None);
}

#[test]
fn category_from_lowercase_is_exact() {
    assert_eq!(category_from_lowercase("commands"), Some(FileCategory::Commands));
    assert_eq!(category_from_lowercase("Commands"), None);
    assert_eq!(category_from_lowercase("rule"), None);
}

#[test]
fn parse_categories_none_is_no_filter() {
    assert!(matches!(parse_categories(None), Ok(None)));
}

#[test]
fn parse_categories_keeps_order() {
    let r = parse_categories(Some(vec!["Skills".to_string(), "ai".to_string()]));
    match r {
        Ok(Some(v)) => assert_eq!(v, vec![FileCategory::Skills, FileCategory::AiTemplates]),
        _ => panic!("expected categories"),
    }
}

#[test]
fn parse_categories_reports_first_invalid() {
    let r = parse_categories(Some(vec!["rules".to_string(), "nope".to_string(), "bad".to_string()]));
    match r {
        Err(InitError::InvalidCategory(s)) => assert_eq!(s, "nope"),
        _ => panic!("expected InvalidCategory"),
    }
}
