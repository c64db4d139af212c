//! Decisions of the self-upgrade: the version gate, the platform's asset
//! name, and finding that asset in a release.
use vstd::prelude::*;
use vstd::string::*;
use crate::errors::{GithubError, UpgradeError};
use crate::text::same_text;
use crate::version::{is_newer, parse_version, semver_newer, semver_valid, version_error_text};

verus! {

/// The product name that prefixes each release asset.
pub const PRODUCT_NAME: &'static str = "ai-init";

/// `s` without its leading `v` characters.
pub open spec fn strip_v(s: Seq<char>) -> Seq<char>
    decreases s.len(),
{
    if s.len() > 0 && s[0] == 'v' {
        strip_v(s.drop_first())
    } else {
        s
    }
}

/// Returns `s` without its leading `v` characters.
pub fn trim_leading_v(s: &str) -> (r: &str)
    ensures
        r@ == strip_v(s@),
{
    let n = s.unicode_len();
    let mut i: usize = 0;
    assert(s@.subrange(0, n as int) == s@);
    while i < n && s.get_char(i) == 'v'
        invariant
            n == s@.len(),
            i <= n,
            strip_v(s@) == strip_v(s@.subrange(i as int, n as int)),
        decreases n - i,
    {
        assert(s@.subrange(i as int, n as int).drop_first() == s@.subrange(i + 1, n as int));
        i = i + 1;
    }
    assert(s@.subrange(0, n as int) == s@);
    s.substring_char(i, n)
}

/// The outcome of comparing the running version with the latest release.
#[derive(Debug, Clone, Copy, PartialEq, Eq, Structural)]
pub enum VersionCheck {
    /// The latest release is not newer: nothing to do.
    UpToDate,
    /// The latest release is newer: go on to confirmation.
    UpgradeAvailable,
}

/// Compares the running version `current` with the latest release's tag
/// (leading `v` characters dropped). Both must be semantic versions, else
/// `CheckFailed`; an upgrade is available only when the release is strictly
/// newer.
pub fn compare_versions(current: &str, latest_tag: &str) -> (r: Result<VersionCheck, UpgradeError>)
    ensures
        r is Ok <==> semver_valid(current@) && semver_valid(strip_v(latest_tag@)),
        r is Err ==> r->Err_0 is CheckFailed,
        r is Ok ==> (r->Ok_0 == VersionCheck::UpgradeAvailable <==> semver_newer(
            strip_v(latest_tag@),
            current@,
        )),
{
    let cur = match parse_version(current) {
        Ok(v) => v,
        Err(e) => {
            let mut msg = String::from_str("Invalid current version: ");
            msg.append(version_error_text(&e).as_str());
            return Err(UpgradeError::CheckFailed(msg));
        },
    };
    let stripped = trim_leading_v(latest_tag);
    let latest = match parse_version(stripped) {
        Ok(v) => v,
        Err(e) => {
            let mut msg = String::from_str("Invalid version: ");
            msg.append(version_error_text(&e).as_str());
            return Err(UpgradeError::CheckFailed(msg));
        },
    };
    if is_newer(&latest, &cur) {
        Ok(VersionCheck::UpgradeAvailable)
    } else {
        Ok(VersionCheck::UpToDate)
    }
}

/// The operating system an asset is built for.
#[derive(Debug, Clone, Copy, PartialEq, Eq, Structural)]
pub enum TargetOs {
    Windows,
    MacOs,
    /// Linux, and any other system.
    Linux,
}

/// The processor architecture an asset is built for.
#[derive(Debug, Clone, Copy, PartialEq, Eq, Structural)]
pub enum TargetArch {
    X86_64,
    Aarch64,
    /// Any other architecture; served the x86-64 build.
    Other,
}

/// The system's name in asset names.
pub open spec fn os_token(os: TargetOs) -> Seq<char> {
    match os {
        TargetOs::Windows => "windows"@,
        TargetOs::MacOs => "darwin"@,
        TargetOs::Linux => "linux"@,
    }
}

/// The architecture's name in asset names.
pub open spec fn arch_token(arch: TargetArch) -> Seq<char> {
    match arch {
        TargetArch::Aarch64 => "arm64"@,
        _ => "amd64"@,
    }
}

/// The executable suffix of the system.
pub open spec fn exe_suffix(os: TargetOs) -> Seq<char> {
    match os {
        TargetOs::Windows => ".exe"@,
        _ => ""@,
    }
}

/// The asset name `{product}-{os}-{arch}{ext}`.
pub open spec fn asset_name(os: TargetOs, arch: TargetArch) -> Seq<char> {
    PRODUCT_NAME@ + "-"@ + os_token(os) + "-"@ + arch_token(arch) + exe_suffix(os)
}

/// Returns the name of the release asset built for `os` and `arch`.
pub fn get_asset_name(os: TargetOs, arch: TargetArch) -> (r: String)
    ensures
        r@ == asset_name(os, arch),
{
    let os_name = match os {
        TargetOs::Windows => "windows",
        TargetOs::MacOs => "darwin",
        TargetOs::Linux => "linux",
    };
    let arch_name = match arch {
        TargetArch::Aarch64 => "arm64",
        _ => "amd64",
    };
    let ext = match os {
        TargetOs::Windows => ".exe",
        _ => "",
    };
    let mut r = String::from_str(PRODUCT_NAME);
    r.append("-");
    r.append(os_name);
    r.append("-");
    r.append(arch_name);
    r.append(ext);
    r
}

/// One downloadable file of a release.
pub struct Asset {
    pub name: String,
    pub browser_download_url: String,
}

/// A published release: its tag and its assets.
pub struct Release {
    pub tag_name: String,
    pub assets: Vec<Asset>,
}

/// The latest release's version and tag.
pub struct LatestRelease {
    pub version: String,
    pub tag: String,
}

/// The latest release as the upgrade sees it: the tag serves as the version.
pub fn latest_from_release(release: Release) -> (r: LatestRelease)
    ensures
        r.version@ == release.tag_name@,
        r.tag@ == release.tag_name@,
{
    let version = release.tag_name.clone();
    LatestRelease { version, tag: release.tag_name }
}

/// Finds the download address of the first asset named exactly `asset_name`,
/// or `AssetNotFound` with that name.
pub fn find_asset_url(release: &Release, asset_name: &str) -> (r: Result<String, GithubError>)
    ensures
        r is Ok <==> exists|k: int|
            0 <= k < release.assets@.len() && (#[trigger] release.assets@[k]).name@ == asset_name@,
        r is Ok ==> exists|k: int|
            0 <= k < release.assets@.len() && (#[trigger] release.assets@[k]).name@ == asset_name@
                && r->Ok_0@ == release.assets@[k].browser_download_url@
                && forall|j: int| 0 <= j < k ==> release.assets@[j].name@ != asset_name@,
        r is Err ==> (r->Err_0 matches GithubError::AssetNotFound(n) && n@ == asset_name@),
{
    let mut k: usize = 0;
    while k < release.assets.len()
        invariant
            k <= release.assets@.len(),
            forall|j: int| 0 <= j < k ==> (#[trigger] release.assets@[j]).name@ != asset_name@,
        decreases release.assets@.len() - k,
    {
        let a = &release.assets[k];
        if same_text(a.name.as_str(), asset_name) {
            return Ok(a.browser_download_url.clone());
        }
        k = k + 1;
    }
    Err(GithubError::AssetNotFound(String::from_str(asset_name)))
}

/// The message shown for a release-feed error.
pub open spec fn github_message(e: GithubError) -> Seq<char> {
    match e {
        GithubError::Request(s) => "HTTP request failed: "@ + s@,
        GithubError::NotFound => "Release not found"@,
        GithubError::AssetNotFound(s) => "Asset not found: "@ + s@,
    }
}

impl GithubError {
    /// The message shown for this error.
    pub fn message(&self) -> (r: String)
        ensures
            r@ == github_message(*self),
    {
        match self {
            GithubError::Request(s) => {
                let mut r = String::from_str("HTTP request failed: ");
                r.append(s.as_str());
                r
            },
            GithubError::NotFound => String::from_str("Release not found"),
            GithubError::AssetNotFound(s) => {
                let mut r = String::from_str("Asset not found: ");
                r.append(s.as_str());
                r
            },
        }
    }
}

/// Where an upgrade stands.
#[derive(Debug, Clone, Copy, PartialEq, Eq, Structural)]
pub enum UpgradeStage {
    /// Waiting for the latest release from the feed.
    CheckUpdate,
    /// Waiting for the user's answer.
    ConfirmUpgrade,
    /// Waiting for the asset's bytes.
    Download,
    /// Waiting for the running executable to be replaced.
    ReplaceExecutable,
    /// Finished; nothing more to do.
    Done,
}

/// How a finished upgrade ended.
#[derive(Debug, Clone, Copy, PartialEq, Eq, Structural)]
pub enum UpgradeOutcome {
    /// The running version is already the latest, or newer.
    UpToDate,
    /// The executable was replaced by the newer release.
    Upgraded,
}

/// What the caller must do next.
pub enum UpgradeAction {
    /// Ask the user whether to upgrade; answer with `on_confirmation`.
    AskConfirmation,
    /// Fetch the release tagged `tag` and download its asset `asset`; answer
    /// with `on_download`.
    Download { tag: String, asset: String },
    /// Replace the running executable with `bytes`; answer with `on_replace`.
    Replace(Vec<u8>),
    /// Stop: the upgrade is over.
    Finish(UpgradeOutcome),
}

/// Whether `a` asks to download the asset named `asset` of the release `tag`.
pub open spec fn is_download(a: UpgradeAction, tag: Seq<char>, asset: Seq<char>) -> bool {
    match a {
        UpgradeAction::Download { tag: t, asset: n } => t@ == tag && n@ == asset,
        _ => false,
    }
}

/// The decisions of one self-upgrade. The caller fetches the latest release
/// and hands it to `on_latest`, then performs each returned action and hands
/// back its result, until an error or `Finish`.
pub struct UpgradeSession {
    /// The running version.
    pub current: String,
    /// Unattended mode: upgrade without asking.
    pub skip_confirm: bool,
    pub os: TargetOs,
    pub arch: TargetArch,
    pub stage: UpgradeStage,
    /// The tag of the release being installed, once known.
    pub tag: String,
}

impl UpgradeSession {
    /// A session for running version `current`, waiting for the latest release.
    pub fn new(current: String, skip_confirm: bool, os: TargetOs, arch: TargetArch) -> (r:
        UpgradeSession)
        ensures
            r.current@ == current@,
            r.skip_confirm == skip_confirm,
            r.os == os,
            r.arch == arch,
            r.stage == UpgradeStage::CheckUpdate,
    {
        UpgradeSession { current, skip_confirm, os, arch, stage: UpgradeStage::CheckUpdate, tag: String::new() }
    }

    fn download_action(&self) -> (r: UpgradeAction)
        ensures
            is_download(r, self.tag@, asset_name(self.os, self.arch)),
    {
        UpgradeAction::Download { tag: self.tag.clone(), asset: get_asset_name(self.os, self.arch) }
    }

    /// Takes the feed's answer for the latest release. A failed fetch fails
    /// with `CheckFailed` and the fetch error's message; a version that does
    /// not parse fails with `CheckFailed`. A release that
    /// is not strictly newer finishes as up to date, with no download. A
    /// newer one goes to confirmation, or straight to its download in
    /// unattended mode.
    pub fn on_latest(&mut self, latest: Result<LatestRelease, GithubError>) -> (r: Result<
        UpgradeAction,
        UpgradeError,
    >)
        requires
            old(self).stage == UpgradeStage::CheckUpdate,
        ensures
            final(self).current == old(self).current,
            final(self).skip_confirm == old(self).skip_confirm,
            final(self).os == old(self).os,
            final(self).arch == old(self).arch,
            latest is Err ==> r is Err && (r->Err_0 matches UpgradeError::CheckFailed(m) && m@
                == github_message(latest->Err_0)),
            latest is Ok ==> {
                let v = strip_v(latest->Ok_0.version@);
                let cur = old(self).current@;
                &&& r is Err <==> !(semver_valid(cur) && semver_valid(v))
                &&& r is Err ==> r->Err_0 is CheckFailed
                &&& r is Ok && !semver_newer(v, cur) ==> r->Ok_0 == UpgradeAction::Finish(
                    UpgradeOutcome::UpToDate,
                ) && final(self).stage == UpgradeStage::Done
                &&& r is Ok && semver_newer(v, cur) && !old(self).skip_confirm ==> r->Ok_0
                    == UpgradeAction::AskConfirmation && final(self).stage
                    == UpgradeStage::ConfirmUpgrade && final(self).tag@ == latest->Ok_0.tag@
                &&& r is Ok && semver_newer(v, cur) && old(self).skip_confirm ==> is_download(
                    r->Ok_0,
                    latest->Ok_0.tag@,
                    asset_name(old(self).os, old(self).arch),
                ) && final(self).stage == UpgradeStage::Download && final(self).tag@
                    == latest->Ok_0.tag@
            },
    {
        let latest = match latest {
            Ok(l) => l,
            Err(e) => {
                return Err(UpgradeError::CheckFailed(e.message()));
            },
        };
        match compare_versions(self.current.as_str(), latest.version.as_str()) {
            Err(e) => Err(e),
            Ok(VersionCheck::UpToDate) => {
                self.stage = UpgradeStage::Done;
                Ok(UpgradeAction::Finish(UpgradeOutcome::UpToDate))
            },
            Ok(VersionCheck::UpgradeAvailable) => {
                self.tag = latest.tag;
                if self.skip_confirm {
                    self.stage = UpgradeStage::Download;
                    Ok(self.download_action())
                } else {
                    self.stage = UpgradeStage::ConfirmUpgrade;
                    Ok(UpgradeAction::AskConfirmation)
                }
            },
        }
    }

    /// Takes the user's answer: yes goes to the download, no cancels, and a
    /// prompt that failed (its message in `Err`) fails with `CheckFailed`.
    pub fn on_confirmation(&mut self, answer: Result<bool, String>) -> (r: Result<
        UpgradeAction,
        UpgradeError,
    >)
        requires
            old(self).stage == UpgradeStage::ConfirmUpgrade,
        ensures
            final(self).tag == old(self).tag,
            final(self).os == old(self).os,
            final(self).arch == old(self).arch,
            answer == Ok::<bool, String>(true) ==> r is Ok && is_download(
                r->Ok_0,
                old(self).tag@,
                asset_name(old(self).os, old(self).arch),
            ) && final(self).stage == UpgradeStage::Download,
            answer == Ok::<bool, String>(false) ==> r is Err && r->Err_0 is Cancelled,
            answer is Err ==> r is Err && r->Err_0 == UpgradeError::CheckFailed(answer->Err_0),
    {
        match answer {
            Ok(true) => {
                self.stage = UpgradeStage::Download;
                Ok(self.download_action())
            },
            Ok(false) => Err(UpgradeError::Cancelled),
            Err(msg) => Err(UpgradeError::CheckFailed(msg)),
        }
    }

    /// Takes the downloaded asset: its bytes go on to replace the
    /// executable; a failed download fails with `DownloadFailed` and its
    /// error's message.
    pub fn on_download(&mut self, data: Result<Vec<u8>, GithubError>) -> (r: Result<
        UpgradeAction,
        UpgradeError,
    >)
        requires
            old(self).stage == UpgradeStage::Download,
        ensures
            data is Ok ==> r is Ok && r->Ok_0 == UpgradeAction::Replace(data->Ok_0)
                && final(self).stage == UpgradeStage::ReplaceExecutable,
            data is Err ==> r is Err && (r->Err_0 matches UpgradeError::DownloadFailed(m) && m@
                == github_message(data->Err_0)),
    {
        match data {
            Ok(bytes) => {
                self.stage = UpgradeStage::ReplaceExecutable;
                Ok(UpgradeAction::Replace(bytes))
            },
            Err(e) => Err(UpgradeError::DownloadFailed(e.message())),
        }
    }

    /// Takes the result of replacing the executable (its failure message in
    /// `Err`): success finishes the upgrade, failure is `ApplyFailed`.
    pub fn on_replace(&mut self, result: Result<(), String>) -> (r: Result<
        UpgradeAction,
        UpgradeError,
    >)
        requires
            old(self).stage == UpgradeStage::ReplaceExecutable,
        ensures
            result is Ok ==> r is Ok && r->Ok_0 == UpgradeAction::Finish(UpgradeOutcome::Upgraded)
                && final(self).stage == UpgradeStage::Done,
            result is Err ==> r is Err && r->Err_0 == UpgradeError::ApplyFailed(result->Err_0),
    {
        match result {
            Ok(()) => {
                self.stage = UpgradeStage::Done;
                Ok(UpgradeAction::Finish(UpgradeOutcome::Upgraded))
            },
            Err(msg) => Err(UpgradeError::ApplyFailed(msg)),
        }
    }
}

} // verus!
