use ai_init::errors::{GithubError, UpgradeError};
use ai_init::upgrade::{
    compare_versions, find_asset_url, get_asset_name, latest_from_release, trim_leading_v, Asset, LatestRelease,
    Release, TargetArch, TargetOs, UpgradeAction, UpgradeOutcome, UpgradeSession, UpgradeStage, VersionCheck,
};

fn release() -> Release {
    Release {
        tag_name: "v1.3.0".to_string(),
        assets: vec![
            Asset { name: "ai-init-linux-amd64".to_string(), browser_download_url: "https://example.com/a".to_string() },
            Asset { name: "ai-init-linux-arm64".to_string(), browser_download_url: "https://example.com/b".to_string() },
            Asset { name: "ai-init-linux-arm64".to_string(), browser_download_url: "https://example.com/c".to_string() },
        ],
    }
}

#[test]
fn older_release_is_up_to_date() {
    assert_eq!(compare_versions("1.2.0", "v1.1.9").unwrap(), VersionCheck::UpToDate);
}

#[test]
fn newer_release_proceeds() {
    assert_eq!(compare_versions("1.2.0", "v1.3.0").unwrap(), VersionCheck::UpgradeAvailable);
    assert_eq!(compare_versions("1.2.0", "1.2.1").unwrap(), VersionCheck::UpgradeAvailable);
}

#[test]
fn same_release_is_up_to_date() {
    assert_eq!(compare_versions("1.2.0", "v1.2.0").unwrap(), VersionCheck::UpToDate);
    assert_eq!(compare_versions("1.2.0", "v1.2.0-rc.1").unwrap(), VersionCheck::UpToDate);
}

#[test]
fn invalid_tag_fails_the_check() {
    assert!(matches!(compare_versions("1.2.0", "latest"), Err(UpgradeError::CheckFailed(_))));
    assert!(matches!(compare_versions("1.2.0", "v1.2"), Err(UpgradeError::CheckFailed(_))));
    assert!(matches!(compare_versions("nope", "v1.2.0"), Err(UpgradeError::CheckFailed(_))));
}

#[test]
fn leading_v_characters_are_dropped() {
    assert_eq!(trim_leading_v("v1.0.0"), "1.0.0");
    assert_eq!(trim_leading_v("vv2.0.0"), "2.0.0");
    assert_eq!(trim_leading_v("1.0.0"), "1.0.0");
    assert_eq!(compare_versions("1.0.0", "vv2.0.0").unwrap(), VersionCheck::UpgradeAvailable);
}

#[test]
fn asset_names_per_platform() {
    assert_eq!(get_asset_name(TargetOs::Linux, TargetArch::Aarch64), "ai-init-linux-arm64");
    assert_eq!(get_asset_name(TargetOs::MacOs, TargetArch::Aarch64), "ai-init-darwin-arm64");
    assert_eq!(get_asset_name(TargetOs::Windows, TargetArch::X86_64), "ai-init-windows-amd64.exe");
    assert_eq!(get_asset_name(TargetOs::Linux, TargetArch::Other), "ai-init-linux-amd64");
}

#[test]
fn asset_lookup_takes_first_exact_match() {
    assert_eq!(find_asset_url(&release(), "ai-init-linux-arm64").unwrap(), "https://example.com/b");
    match find_asset_url(&release(), "ai-init-windows-amd64.exe") {
        Err(GithubError::AssetNotFound(n)) => assert_eq!(n, "ai-init-windows-amd64.exe"),
        _ => panic!("expected AssetNotFound"),
    }
    assert!(matches!(find_asset_url(&release(), "ai-init-linux"), Err(GithubError::AssetNotFound(_))));
}

#[test]
fn latest_release_uses_tag() {
    let latest = latest_from_release(release());
    assert_eq!(latest.version, "v1.3.0");
    assert_eq!(latest.tag, "v1.3.0");
}

fn session(skip_confirm: bool) -> UpgradeSession {
    UpgradeSession::new("1.2.0".to_string(), skip_confirm, TargetOs::Linux, TargetArch::Aarch64)
}

fn latest(tag: &str) -> Result<LatestRelease, GithubError> {
    Ok(LatestRelease { version: tag.to_string(), tag: tag.to_string() })
}

#[test]
fn session_stops_when_up_to_date() {
    let mut s = session(true);
    assert_eq!(s.stage, UpgradeStage::CheckUpdate);
    let action = s.on_latest(latest("v1.1.9")).unwrap();
    assert!(matches!(action, UpgradeAction::Finish(UpgradeOutcome::UpToDate)));
    assert_eq!(s.stage, UpgradeStage::Done);
}

#[test]
fn session_asks_before_a_newer_release() {
    let mut s = session(false);
    let action = s.on_latest(latest("v1.3.0")).unwrap();
    assert!(matches!(action, UpgradeAction::AskConfirmation));
    assert_eq!(s.stage, UpgradeStage::ConfirmUpgrade);
    match s.on_confirmation(Ok(true)).unwrap() {
        UpgradeAction::Download { tag, asset } => {
            assert_eq!(tag, "v1.3.0");
            assert_eq!(asset, "ai-init-linux-arm64");
        }
        _ => panic!("expected a download"),
    }
    assert_eq!(s.stage, UpgradeStage::Download);
}

#[test]
fn session_declined_is_cancelled() {
    let mut s = session(false);
    s.on_latest(latest("v1.3.0")).unwrap();
    assert!(matches!(s.on_confirmation(Ok(false)), Err(UpgradeError::Cancelled)));
}

#[test]
fn session_prompt_failure_fails_the_check() {
    let mut s = session(false);
    s.on_latest(latest("v1.3.0")).unwrap();
    match s.on_confirmation(Err("not a terminal".to_string())) {
        Err(UpgradeError::CheckFailed(m)) => assert_eq!(m, "not a terminal"),
        _ => panic!("expected CheckFailed"),
    }
}

#[test]
fn session_unattended_runs_to_the_end() {
    let mut s = session(true);
    match s.on_latest(latest("v1.3.0")).unwrap() {
        UpgradeAction::Download { tag, asset } => {
            assert_eq!(tag, "v1.3.0");
            assert_eq!(asset, "ai-init-linux-arm64");
        }
        _ => panic!("expected a download"),
    }
    match s.on_download(Ok(vec![1, 2, 3])).unwrap() {
        UpgradeAction::Replace(bytes) => assert_eq!(bytes, vec![1, 2, 3]),
        _ => panic!("expected a replacement"),
    }
    assert_eq!(s.stage, UpgradeStage::ReplaceExecutable);
    assert!(matches!(s.on_replace(Ok(())).unwrap(), UpgradeAction::Finish(UpgradeOutcome::Upgraded)));
    assert_eq!(s.stage, UpgradeStage::Done);
}

#[test]
fn session_failures_map_to_their_stage() {
    let mut s = session(true);
    match s.on_latest(Err(GithubError::NotFound)) {
        Err(UpgradeError::CheckFailed(m)) => assert_eq!(m, "Release not found"),
        _ => panic!("expected CheckFailed"),
    }
    let mut s = session(true);
    assert!(matches!(s.on_latest(latest("garbage")), Err(UpgradeError::CheckFailed(_))));
    let mut s = session(true);
    s.on_latest(latest("v2.0.0")).unwrap();
    match s.on_download(Err(GithubError::AssetNotFound("x".to_string()))) {
        Err(UpgradeError::DownloadFailed(m)) => assert_eq!(m, "Asset not found: x"),
        _ => panic!("expected DownloadFailed"),
    }
    let mut s = session(true);
    s.on_latest(latest("v2.0.0")).unwrap();
    s.on_download(Ok(vec![])).unwrap();
    match s.on_replace(Err("busy".to_string())) {
        Err(UpgradeError::ApplyFailed(m)) => assert_eq!(m, "busy"),
        _ => panic!("expected ApplyFailed"),
    }
}

#[test]
fn github_error_messages() {
    assert_eq!(GithubError::Request("timeout".to_string()).message(), "HTTP request failed: timeout");
    assert_eq!(GithubError::NotFound.message(), "Release not found");
}
